use orbit_sim::fields::{
    GroundStationField, OrbitalField, SatelliteField, SimulationBoolField, SimulationField,
    TleParameterField,
};

#[test]
fn orbital_field_labels() {
    assert_eq!(OrbitalField::Inclination.display_label(), "Inclination (deg)");
    assert_eq!(OrbitalField::Raan.display_label(), "RAAN (deg)");
    assert_eq!(OrbitalField::Eccentricity.display_label(), "Eccentricity");
    assert_eq!(
        OrbitalField::ArgOfPerigee.display_label(),
        "Argument of Perigee (deg)"
    );
    assert_eq!(OrbitalField::MeanAnomaly.display_label(), "Mean Anomaly (deg)");
    assert_eq!(
        OrbitalField::MeanMotion.display_label(),
        "Mean Motion (rev/day)"
    );
    assert_eq!(OrbitalField::Epoch.display_label(), "Epoch");
}

#[test]
fn orbital_field_variants_in_form_order() {
    let v = OrbitalField::variants();
    assert_eq!(
        v,
        vec![
            OrbitalField::Inclination,
            OrbitalField::Raan,
            OrbitalField::Eccentricity,
            OrbitalField::ArgOfPerigee,
            OrbitalField::MeanAnomaly,
            OrbitalField::MeanMotion,
            OrbitalField::Epoch,
        ]
    );
}

#[test]
fn tle_parameter_field_labels() {
    assert_eq!(
        TleParameterField::IntlDesig.display_label(),
        "International Designator"
    );
    assert_eq!(
        TleParameterField::SatNum.display_label(),
        "Satellite NORAD Number"
    );
    assert_eq!(TleParameterField::DesigYear.display_label(), "Launch Year");
    assert_eq!(
        TleParameterField::DesigLaunch.display_label(),
        "Launch Number of Year"
    );
    assert_eq!(TleParameterField::DesigPiece.display_label(), "Launch Piece");
    assert_eq!(TleParameterField::Epoch.display_label(), "Epoch");
    assert_eq!(
        TleParameterField::MeanMotionDot.display_label(),
        "1st Derivative of Mean Motion (rev/day²)"
    );
    assert_eq!(
        TleParameterField::MeanMotionDotDot.display_label(),
        "2nd Derivative of Mean Motion (rev/day³)"
    );
    assert_eq!(TleParameterField::BStar.display_label(), "B* (1/Earth radii)");
    assert_eq!(TleParameterField::EphemType.display_label(), "Ephemeris Type");
    assert_eq!(
        TleParameterField::ElementNum.display_label(),
        "Element Number"
    );
    assert_eq!(
        TleParameterField::Inclination.display_label(),
        "Inclination (deg)"
    );
    assert_eq!(TleParameterField::Raan.display_label(), "RAAN (deg)");
    assert_eq!(
        TleParameterField::Eccentricity.display_label(),
        "Eccentricity"
    );
    assert_eq!(
        TleParameterField::ArgOfPerigee.display_label(),
        "Argument of Perigee (deg)"
    );
    assert_eq!(
        TleParameterField::MeanAnomaly.display_label(),
        "Mean Anomaly (deg)"
    );
    assert_eq!(
        TleParameterField::MeanMotion.display_label(),
        "Mean Motion (rev/day)"
    );
    assert_eq!(
        TleParameterField::RevNum.display_label(),
        "Revolution Number"
    );
}

#[test]
fn tle_parameter_field_variants_in_form_order() {
    let v = TleParameterField::variants();
    assert_eq!(v.len(), 18);
    assert_eq!(v[0], TleParameterField::IntlDesig);
    assert_eq!(v[5], TleParameterField::Epoch);
    assert_eq!(v[17], TleParameterField::RevNum);
}

#[test]
fn ground_station_field_labels() {
    assert_eq!(GroundStationField::Name.label(), "Name");
    assert_eq!(GroundStationField::LatitudeDeg.label(), "Latitude (deg)");
    assert_eq!(GroundStationField::LongitudeDeg.label(), "Longitude (deg)");
    assert_eq!(
        GroundStationField::ElevationM.label(),
        "Elevation MSL (m) (optional)"
    );
    assert_eq!(GroundStationField::AltitudeM.label(), "Altitude AGL (m)");
    assert_eq!(
        GroundStationField::MinElevationDeg.label(),
        "Min Elevation (deg)"
    );
}

#[test]
fn ground_station_field_variants_in_form_order() {
    let v = GroundStationField::variants();
    assert_eq!(
        v,
        vec![
            GroundStationField::Name,
            GroundStationField::LatitudeDeg,
            GroundStationField::LongitudeDeg,
            GroundStationField::ElevationM,
            GroundStationField::AltitudeM,
            GroundStationField::MinElevationDeg,
        ]
    );
}

#[test]
fn satellite_field_labels() {
    assert_eq!(SatelliteField::Name.label(), "Name");
    assert_eq!(
        SatelliteField::DragCoefficient.label(),
        "Drag Coefficient (C_d)"
    );
    assert_eq!(SatelliteField::DragAreaM2.label(), "Drag Area (m²)");
}

#[test]
fn satellite_field_variants_in_form_order() {
    let v = SatelliteField::variants();
    assert_eq!(
        v,
        vec![
            SatelliteField::Name,
            SatelliteField::DragCoefficient,
            SatelliteField::DragAreaM2,
        ]
    );
}

#[test]
fn simulation_field_labels() {
    assert_eq!(SimulationField::MaxDays.label(), "Max Days");
    assert_eq!(
        SimulationField::StepIntervalHours.label(),
        "Step Interval (hours)"
    );
    let v = SimulationField::variants();
    assert_eq!(
        v,
        vec![SimulationField::MaxDays, SimulationField::StepIntervalHours]
    );
}

#[test]
fn simulation_bool_field_labels() {
    assert_eq!(
        SimulationBoolField::DragPowerEnableSpaceWeather.label(),
        "Enable Space Weather for Drag Power"
    );
    let v = SimulationBoolField::variants();
    assert_eq!(v, vec![SimulationBoolField::DragPowerEnableSpaceWeather]);
}

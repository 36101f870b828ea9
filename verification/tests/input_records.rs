use orbit_sim::fields::{
    GroundStationField, GroundStationInputs, MyAppInputFields, OrbitalField, OrbitalInputs,
    SatelliteField, SatelliteInputs, SimulationBoolField, SimulationBoolInputs, SimulationField,
    SimulationInputs, TleParameterField, TleParameterInputs,
};

#[test]
fn ground_station_inputs_start_empty() {
    let inputs = GroundStationInputs::new();
    for field in GroundStationField::variants() {
        assert_eq!(inputs.get(field), "");
    }
}

#[test]
fn ground_station_insert_then_get() {
    let mut inputs = GroundStationInputs::new();
    inputs.insert(GroundStationField::LatitudeDeg, "50.8684".to_string());
    inputs.insert(GroundStationField::LongitudeDeg, "-114.2910".to_string());
    assert_eq!(inputs.get(GroundStationField::LatitudeDeg), "50.8684");
    assert_eq!(inputs.get(GroundStationField::LongitudeDeg), "-114.2910");
    assert_eq!(inputs.get(GroundStationField::Name), "");
    assert_eq!(inputs.get(GroundStationField::ElevationM), "");
}

#[test]
fn ground_station_insert_overwrites() {
    let mut inputs = GroundStationInputs::new();
    inputs.insert(GroundStationField::Name, "first".to_string());
    inputs.insert(GroundStationField::Name, "second".to_string());
    assert_eq!(inputs.get(GroundStationField::Name), "second");
}

#[test]
fn satellite_inputs_insert_then_get() {
    let mut inputs = SatelliteInputs::new();
    inputs.insert(SatelliteField::DragCoefficient, "2.5".to_string());
    inputs.insert(SatelliteField::DragAreaM2, "0.01".to_string());
    assert_eq!(inputs.get(SatelliteField::DragCoefficient), "2.5");
    assert_eq!(inputs.get(SatelliteField::DragAreaM2), "0.01");
    assert_eq!(inputs.get(SatelliteField::Name), "");
}

#[test]
fn simulation_inputs_insert_then_get() {
    let mut inputs = SimulationInputs::new();
    inputs.insert(SimulationField::MaxDays, "36500".to_string());
    inputs.insert(SimulationField::StepIntervalHours, "1".to_string());
    assert_eq!(inputs.get(SimulationField::MaxDays), "36500");
    assert_eq!(inputs.get(SimulationField::StepIntervalHours), "1");
}

#[test]
fn simulation_bools_default_false_and_toggle() {
    let mut inputs = SimulationBoolInputs::new();
    assert!(!inputs.get(SimulationBoolField::DragPowerEnableSpaceWeather));
    inputs.insert(SimulationBoolField::DragPowerEnableSpaceWeather, true);
    assert!(inputs.get(SimulationBoolField::DragPowerEnableSpaceWeather));
    inputs.insert(SimulationBoolField::DragPowerEnableSpaceWeather, false);
    assert!(!inputs.get(SimulationBoolField::DragPowerEnableSpaceWeather));
}

#[test]
fn tle_parameter_inputs_insert_then_get() {
    let mut inputs = TleParameterInputs::new();
    assert_eq!(inputs.get(TleParameterField::SatNum), "");
    inputs.insert(TleParameterField::SatNum, "25544".to_string());
    inputs.insert(TleParameterField::Inclination, "51.6461".to_string());
    inputs.insert(TleParameterField::MeanMotion, "15.49507896".to_string());
    assert_eq!(inputs.get(TleParameterField::SatNum), "25544");
    assert_eq!(inputs.get(TleParameterField::Inclination), "51.6461");
    assert_eq!(inputs.get(TleParameterField::MeanMotion), "15.49507896");
    assert_eq!(inputs.get(TleParameterField::Raan), "");
    assert_eq!(inputs.get(TleParameterField::RevNum), "");
}

#[test]
fn orbital_inputs_insert_then_get() {
    let mut inputs = OrbitalInputs::new();
    inputs.insert(OrbitalField::Eccentricity, "0.0001413".to_string());
    assert_eq!(inputs.get(OrbitalField::Eccentricity), "0.0001413");
    for field in OrbitalField::variants() {
        if field != OrbitalField::Eccentricity {
            assert_eq!(inputs.get(field), "");
        }
    }
}

#[test]
fn app_input_fields_start_empty() {
    let all = MyAppInputFields::new();
    assert_eq!(all.ground_station_inputs.get(GroundStationField::Name), "");
    assert_eq!(all.satellite_inputs.get(SatelliteField::Name), "");
    assert_eq!(all.simulation_inputs.get(SimulationField::MaxDays), "");
    assert!(!all
        .simulation_bools
        .get(SimulationBoolField::DragPowerEnableSpaceWeather));
    assert_eq!(all.tle_parameter_inputs.get(TleParameterField::Epoch), "");
    assert_eq!(all.orbital_params.get(OrbitalField::Epoch), "");

    let defaulted = MyAppInputFields::default();
    assert_eq!(
        defaulted.ground_station_inputs.get(GroundStationField::Name),
        ""
    );
}

//! The input-form field model.
//!
//! The simulator's inputs arrive through named form fields: orbital elements,
//! full TLE parameters, ground-station, satellite and simulation settings.
//! Each family of fields is an enumeration with a display label, and the raw
//! (still unparsed) inputs of a form are a total record from fields to
//! strings — a missing entry reads as the empty string.  Numeric parsing and
//! rendering happen outside the crate; what is fixed here is the field
//! vocabulary, the labels, and the exact get/insert behaviour of the records.

use vstd::prelude::*;

verus! {

// -------------------------------------
// Field enumerations and labels
// -------------------------------------

/// The orbital-element fields of the TLE edit form.
#[derive(Clone, Copy, PartialEq, Eq, Hash, Structural, Debug)]
pub enum OrbitalField {
    Inclination,
    Raan,
    Eccentricity,
    ArgOfPerigee,
    MeanAnomaly,
    MeanMotion,
    Epoch,
}

impl OrbitalField {
    /// The label shown beside the field.
    pub open spec fn spec_display_label(self) -> Seq<char> {
        match self {
            OrbitalField::Inclination => "Inclination (deg)"@,
            OrbitalField::Raan => "RAAN (deg)"@,
            OrbitalField::Eccentricity => "Eccentricity"@,
            OrbitalField::ArgOfPerigee => "Argument of Perigee (deg)"@,
            OrbitalField::MeanAnomaly => "Mean Anomaly (deg)"@,
            OrbitalField::MeanMotion => "Mean Motion (rev/day)"@,
            OrbitalField::Epoch => "Epoch"@,
        }
    }

    pub fn display_label(&self) -> (r: &'static str)
        ensures
            r@ == self.spec_display_label(),
    {
        match self {
            OrbitalField::Inclination => "Inclination (deg)",
            OrbitalField::Raan => "RAAN (deg)",
            OrbitalField::Eccentricity => "Eccentricity",
            OrbitalField::ArgOfPerigee => "Argument of Perigee (deg)",
            OrbitalField::MeanAnomaly => "Mean Anomaly (deg)",
            OrbitalField::MeanMotion => "Mean Motion (rev/day)",
            OrbitalField::Epoch => "Epoch",
        }
    }

    /// Every field, in form order.
    pub fn variants() -> (r: Vec<OrbitalField>)
        ensures
            r@ == seq![
                OrbitalField::Inclination,
                OrbitalField::Raan,
                OrbitalField::Eccentricity,
                OrbitalField::ArgOfPerigee,
                OrbitalField::MeanAnomaly,
                OrbitalField::MeanMotion,
                OrbitalField::Epoch,
            ],
    {
        let mut v: Vec<OrbitalField> = Vec::new();
        v.push(OrbitalField::Inclination);
        v.push(OrbitalField::Raan);
        v.push(OrbitalField::Eccentricity);
        v.push(OrbitalField::ArgOfPerigee);
        v.push(OrbitalField::MeanAnomaly);
        v.push(OrbitalField::MeanMotion);
        v.push(OrbitalField::Epoch);
        proof {
            assert(v@ =~= seq![
                OrbitalField::Inclination,
                OrbitalField::Raan,
                OrbitalField::Eccentricity,
                OrbitalField::ArgOfPerigee,
                OrbitalField::MeanAnomaly,
                OrbitalField::MeanMotion,
                OrbitalField::Epoch,
            ]);
        }
        v
    }
}

/// Every field of a full TLE parameter set.
#[derive(Clone, Copy, PartialEq, Eq, Hash, Structural, Debug)]
pub enum TleParameterField {
    IntlDesig,
    SatNum,
    DesigYear,
    DesigLaunch,
    DesigPiece,
    Epoch,
    MeanMotionDot,
    MeanMotionDotDot,
    BStar,
    EphemType,
    ElementNum,
    Inclination,
    Raan,
    Eccentricity,
    ArgOfPerigee,
    MeanAnomaly,
    MeanMotion,
    RevNum,
}

impl TleParameterField {
    /// The label shown beside the field.
    pub open spec fn spec_display_label(self) -> Seq<char> {
        match self {
            TleParameterField::IntlDesig => "International Designator"@,
            TleParameterField::SatNum => "Satellite NORAD Number"@,
            TleParameterField::DesigYear => "Launch Year"@,
            TleParameterField::DesigLaunch => "Launch Number of Year"@,
            TleParameterField::DesigPiece => "Launch Piece"@,
            TleParameterField::Epoch => "Epoch"@,
            TleParameterField::MeanMotionDot => "1st Derivative of Mean Motion (rev/day²)"@,
            TleParameterField::MeanMotionDotDot => "2nd Derivative of Mean Motion (rev/day³)"@,
            TleParameterField::BStar => "B* (1/Earth radii)"@,
            TleParameterField::EphemType => "Ephemeris Type"@,
            TleParameterField::ElementNum => "Element Number"@,
            TleParameterField::Inclination => "Inclination (deg)"@,
            TleParameterField::Raan => "RAAN (deg)"@,
            TleParameterField::Eccentricity => "Eccentricity"@,
            TleParameterField::ArgOfPerigee => "Argument of Perigee (deg)"@,
            TleParameterField::MeanAnomaly => "Mean Anomaly (deg)"@,
            TleParameterField::MeanMotion => "Mean Motion (rev/day)"@,
            TleParameterField::RevNum => "Revolution Number"@,
        }
    }

    pub fn display_label(&self) -> (r: &'static str)
        ensures
            r@ == self.spec_display_label(),
    {
        match self {
            TleParameterField::IntlDesig => "International Designator",
            TleParameterField::SatNum => "Satellite NORAD Number",
            TleParameterField::DesigYear => "Launch Year",
            TleParameterField::DesigLaunch => "Launch Number of Year",
            TleParameterField::DesigPiece => "Launch Piece",
            TleParameterField::Epoch => "Epoch",
            TleParameterField::MeanMotionDot => "1st Derivative of Mean Motion (rev/day²)",
            TleParameterField::MeanMotionDotDot => "2nd Derivative of Mean Motion (rev/day³)",
            TleParameterField::BStar => "B* (1/Earth radii)",
            TleParameterField::EphemType => "Ephemeris Type",
            TleParameterField::ElementNum => "Element Number",
            TleParameterField::Inclination => "Inclination (deg)",
            TleParameterField::Raan => "RAAN (deg)",
            TleParameterField::Eccentricity => "Eccentricity",
            TleParameterField::ArgOfPerigee => "Argument of Perigee (deg)",
            TleParameterField::MeanAnomaly => "Mean Anomaly (deg)",
            TleParameterField::MeanMotion => "Mean Motion (rev/day)",
            TleParameterField::RevNum => "Revolution Number",
        }
    }

    /// Every field, in form order.
    pub fn variants() -> (r: Vec<TleParameterField>)
        ensures
            r@ == seq![
                TleParameterField::IntlDesig,
                TleParameterField::SatNum,
                TleParameterField::DesigYear,
                TleParameterField::DesigLaunch,
                TleParameterField::DesigPiece,
                TleParameterField::Epoch,
                TleParameterField::MeanMotionDot,
                TleParameterField::MeanMotionDotDot,
                TleParameterField::BStar,
                TleParameterField::EphemType,
                TleParameterField::ElementNum,
                TleParameterField::Inclination,
                TleParameterField::Raan,
                TleParameterField::Eccentricity,
                TleParameterField::ArgOfPerigee,
                TleParameterField::MeanAnomaly,
                TleParameterField::MeanMotion,
                TleParameterField::RevNum,
            ],
    {
        let mut v: Vec<TleParameterField> = Vec::new();
        v.push(TleParameterField::IntlDesig);
        v.push(TleParameterField::SatNum);
        v.push(TleParameterField::DesigYear);
        v.push(TleParameterField::DesigLaunch);
        v.push(TleParameterField::DesigPiece);
        v.push(TleParameterField::Epoch);
        v.push(TleParameterField::MeanMotionDot);
        v.push(TleParameterField::MeanMotionDotDot);
        v.push(TleParameterField::BStar);
        v.push(TleParameterField::EphemType);
        v.push(TleParameterField::ElementNum);
        v.push(TleParameterField::Inclination);
        v.push(TleParameterField::Raan);
        v.push(TleParameterField::Eccentricity);
        v.push(TleParameterField::ArgOfPerigee);
        v.push(TleParameterField::MeanAnomaly);
        v.push(TleParameterField::MeanMotion);
        v.push(TleParameterField::RevNum);
        proof {
            assert(v@ =~= seq![
                TleParameterField::IntlDesig,
                TleParameterField::SatNum,
                TleParameterField::DesigYear,
                TleParameterField::DesigLaunch,
                TleParameterField::DesigPiece,
                TleParameterField::Epoch,
                TleParameterField::MeanMotionDot,
                TleParameterField::MeanMotionDotDot,
                TleParameterField::BStar,
                TleParameterField::EphemType,
                TleParameterField::ElementNum,
                TleParameterField::Inclination,
                TleParameterField::Raan,
                TleParameterField::Eccentricity,
                TleParameterField::ArgOfPerigee,
                TleParameterField::MeanAnomaly,
                TleParameterField::MeanMotion,
                TleParameterField::RevNum,
            ]);
        }
        v
    }
}

/// The ground-station form fields.
#[derive(Clone, Copy, PartialEq, Eq, Hash, Structural, Debug)]
pub enum GroundStationField {
    Name,
    LatitudeDeg,
    LongitudeDeg,
    ElevationM,
    AltitudeM,
    MinElevationDeg,
}

impl GroundStationField {
    /// The label shown beside the field.
    pub open spec fn spec_label(self) -> Seq<char> {
        match self {
            GroundStationField::Name => "Name"@,
            GroundStationField::LatitudeDeg => "Latitude (deg)"@,
            GroundStationField::LongitudeDeg => "Longitude (deg)"@,
            GroundStationField::ElevationM => "Elevation MSL (m) (optional)"@,
            GroundStationField::AltitudeM => "Altitude AGL (m)"@,
            GroundStationField::MinElevationDeg => "Min Elevation (deg)"@,
        }
    }

    pub fn label(&self) -> (r: &'static str)
        ensures
            r@ == self.spec_label(),
    {
        match self {
            GroundStationField::Name => "Name",
            GroundStationField::LatitudeDeg => "Latitude (deg)",
            GroundStationField::LongitudeDeg => "Longitude (deg)",
            GroundStationField::ElevationM => "Elevation MSL (m) (optional)",
            GroundStationField::AltitudeM => "Altitude AGL (m)",
            GroundStationField::MinElevationDeg => "Min Elevation (deg)",
        }
    }

    /// Every field, in form order.
    pub fn variants() -> (r: Vec<GroundStationField>)
        ensures
            r@ == seq![
                GroundStationField::Name,
                GroundStationField::LatitudeDeg,
                GroundStationField::LongitudeDeg,
                GroundStationField::ElevationM,
                GroundStationField::AltitudeM,
                GroundStationField::MinElevationDeg,
            ],
    {
        let mut v: Vec<GroundStationField> = Vec::new();
        v.push(GroundStationField::Name);
        v.push(GroundStationField::LatitudeDeg);
        v.push(GroundStationField::LongitudeDeg);
        v.push(GroundStationField::ElevationM);
        v.push(GroundStationField::AltitudeM);
        v.push(GroundStationField::MinElevationDeg);
        proof {
            assert(v@ =~= seq![
                GroundStationField::Name,
                GroundStationField::LatitudeDeg,
                GroundStationField::LongitudeDeg,
                GroundStationField::ElevationM,
                GroundStationField::AltitudeM,
                GroundStationField::MinElevationDeg,
            ]);
        }
        v
    }
}

/// The satellite form fields.
#[derive(Clone, Copy, PartialEq, Eq, Hash, Structural, Debug)]
pub enum SatelliteField {
    Name,
    DragCoefficient,
    DragAreaM2,
}

impl SatelliteField {
    /// The label shown beside the field.
    pub open spec fn spec_label(self) -> Seq<char> {
        match self {
            SatelliteField::Name => "Name"@,
            SatelliteField::DragCoefficient => "Drag Coefficient (C_d)"@,
            SatelliteField::DragAreaM2 => "Drag Area (m²)"@,
        }
    }

    pub fn label(&self) -> (r: &'static str)
        ensures
            r@ == self.spec_label(),
    {
        match self {
            SatelliteField::Name => "Name",
            SatelliteField::DragCoefficient => "Drag Coefficient (C_d)",
            SatelliteField::DragAreaM2 => "Drag Area (m²)",
        }
    }

    /// Every field, in form order.
    pub fn variants() -> (r: Vec<SatelliteField>)
        ensures
            r@ == seq![
                SatelliteField::Name,
                SatelliteField::DragCoefficient,
                SatelliteField::DragAreaM2,
            ],
    {
        let mut v: Vec<SatelliteField> = Vec::new();
        v.push(SatelliteField::Name);
        v.push(SatelliteField::DragCoefficient);
        v.push(SatelliteField::DragAreaM2);
        proof {
            assert(v@ =~= seq![
                SatelliteField::Name,
                SatelliteField::DragCoefficient,
                SatelliteField::DragAreaM2,
            ]);
        }
        v
    }
}

/// The numeric simulation-settings form fields.
#[derive(Clone, Copy, PartialEq, Eq, Hash, Structural, Debug)]
pub enum SimulationField {
    MaxDays,
    StepIntervalHours,
}

impl SimulationField {
    /// The label shown beside the field.
    pub open spec fn spec_label(self) -> Seq<char> {
        match self {
            SimulationField::MaxDays => "Max Days"@,
            SimulationField::StepIntervalHours => "Step Interval (hours)"@,
        }
    }

    pub fn label(&self) -> (r: &'static str)
        ensures
            r@ == self.spec_label(),
    {
        match self {
            SimulationField::MaxDays => "Max Days",
            SimulationField::StepIntervalHours => "Step Interval (hours)",
        }
    }

    /// Every field, in form order.
    pub fn variants() -> (r: Vec<SimulationField>)
        ensures
            r@ == seq![SimulationField::MaxDays, SimulationField::StepIntervalHours],
    {
        let mut v: Vec<SimulationField> = Vec::new();
        v.push(SimulationField::MaxDays);
        v.push(SimulationField::StepIntervalHours);
        proof {
            assert(v@ =~= seq![SimulationField::MaxDays, SimulationField::StepIntervalHours]);
        }
        v
    }
}

/// The boolean simulation-settings form fields.
#[derive(Clone, Copy, PartialEq, Eq, Hash, Structural, Debug)]
pub enum SimulationBoolField {
    DragPowerEnableSpaceWeather,
}

impl SimulationBoolField {
    /// The label shown beside the field.
    pub open spec fn spec_label(self) -> Seq<char> {
        match self {
            SimulationBoolField::DragPowerEnableSpaceWeather => {
                "Enable Space Weather for Drag Power"@
            },
        }
    }

    pub fn label(&self) -> (r: &'static str)
        ensures
            r@ == self.spec_label(),
    {
        match self {
            SimulationBoolField::DragPowerEnableSpaceWeather => {
                "Enable Space Weather for Drag Power"
            },
        }
    }

    /// Every field, in form order.
    pub fn variants() -> (r: Vec<SimulationBoolField>)
        ensures
            r@ == seq![SimulationBoolField::DragPowerEnableSpaceWeather],
    {
        let mut v: Vec<SimulationBoolField> = Vec::new();
        v.push(SimulationBoolField::DragPowerEnableSpaceWeather);
        proof {
            assert(v@ =~= seq![SimulationBoolField::DragPowerEnableSpaceWeather]);
        }
        v
    }
}

// -------------------------------------
// Raw input records
// -------------------------------------

/// Raw (unparsed) ground-station inputs: one string per field, reading as
/// the empty string until something is entered.
#[derive(Clone, Debug)]
pub struct GroundStationInputs {
    pub name: String,
    pub latitude_deg: String,
    pub longitude_deg: String,
    pub elevation_m: String,
    pub altitude_m: String,
    pub min_elevation_deg: String,
}

impl GroundStationInputs {
    /// The entry recorded for a field.
    pub open spec fn spec_get(self, f: GroundStationField) -> Seq<char> {
        match f {
            GroundStationField::Name => self.name@,
            GroundStationField::LatitudeDeg => self.latitude_deg@,
            GroundStationField::LongitudeDeg => self.longitude_deg@,
            GroundStationField::ElevationM => self.elevation_m@,
            GroundStationField::AltitudeM => self.altitude_m@,
            GroundStationField::MinElevationDeg => self.min_elevation_deg@,
        }
    }

    /// No entry has been made yet.
    pub open spec fn spec_is_empty(self) -> bool {
        &&& self.name@ == Seq::<char>::empty()
        &&& self.latitude_deg@ == Seq::<char>::empty()
        &&& self.longitude_deg@ == Seq::<char>::empty()
        &&& self.elevation_m@ == Seq::<char>::empty()
        &&& self.altitude_m@ == Seq::<char>::empty()
        &&& self.min_elevation_deg@ == Seq::<char>::empty()
    }

    pub fn new() -> (r: Self)
        ensures
            r.spec_is_empty(),
    {
        GroundStationInputs {
            name: String::new(),
            latitude_deg: String::new(),
            longitude_deg: String::new(),
            elevation_m: String::new(),
            altitude_m: String::new(),
            min_elevation_deg: String::new(),
        }
    }

    /// The recorded entry for a field.
    pub fn get(&self, f: GroundStationField) -> (r: &String)
        ensures
            r@ == self.spec_get(f),
    {
        match f {
            GroundStationField::Name => &self.name,
            GroundStationField::LatitudeDeg => &self.latitude_deg,
            GroundStationField::LongitudeDeg => &self.longitude_deg,
            GroundStationField::ElevationM => &self.elevation_m,
            GroundStationField::AltitudeM => &self.altitude_m,
            GroundStationField::MinElevationDeg => &self.min_elevation_deg,
        }
    }

    /// Record an entry for a field, leaving every other field unchanged.
    pub fn insert(&mut self, f: GroundStationField, value: String)
        ensures
            forall|g: GroundStationField|
                #[trigger] final(self).spec_get(g) == if g == f {
                    value@
                } else {
                    old(self).spec_get(g)
                },
    {
        match f {
            GroundStationField::Name => self.name = value,
            GroundStationField::LatitudeDeg => self.latitude_deg = value,
            GroundStationField::LongitudeDeg => self.longitude_deg = value,
            GroundStationField::ElevationM => self.elevation_m = value,
            GroundStationField::AltitudeM => self.altitude_m = value,
            GroundStationField::MinElevationDeg => self.min_elevation_deg = value,
        }
    }
}

/// Raw (unparsed) satellite inputs.
#[derive(Clone, Debug)]
pub struct SatelliteInputs {
    pub name: String,
    pub drag_coefficient: String,
    pub drag_area_m2: String,
}

impl SatelliteInputs {
    /// The entry recorded for a field.
    pub open spec fn spec_get(self, f: SatelliteField) -> Seq<char> {
        match f {
            SatelliteField::Name => self.name@,
            SatelliteField::DragCoefficient => self.drag_coefficient@,
            SatelliteField::DragAreaM2 => self.drag_area_m2@,
        }
    }

    /// No entry has been made yet.
    pub open spec fn spec_is_empty(self) -> bool {
        &&& self.name@ == Seq::<char>::empty()
        &&& self.drag_coefficient@ == Seq::<char>::empty()
        &&& self.drag_area_m2@ == Seq::<char>::empty()
    }

    pub fn new() -> (r: Self)
        ensures
            r.spec_is_empty(),
    {
        SatelliteInputs {
            name: String::new(),
            drag_coefficient: String::new(),
            drag_area_m2: String::new(),
        }
    }

    /// The recorded entry for a field.
    pub fn get(&self, f: SatelliteField) -> (r: &String)
        ensures
            r@ == self.spec_get(f),
    {
        match f {
            SatelliteField::Name => &self.name,
            SatelliteField::DragCoefficient => &self.drag_coefficient,
            SatelliteField::DragAreaM2 => &self.drag_area_m2,
        }
    }

    /// Record an entry for a field, leaving every other field unchanged.
    pub fn insert(&mut self, f: SatelliteField, value: String)
        ensures
            forall|g: SatelliteField|
                #[trigger] final(self).spec_get(g) == if g == f {
                    value@
                } else {
                    old(self).spec_get(g)
                },
    {
        match f {
            SatelliteField::Name => self.name = value,
            SatelliteField::DragCoefficient => self.drag_coefficient = value,
            SatelliteField::DragAreaM2 => self.drag_area_m2 = value,
        }
    }
}

/// Raw (unparsed) numeric simulation settings.
#[derive(Clone, Debug)]
pub struct SimulationInputs {
    pub max_days: String,
    pub step_interval_hours: String,
}

impl SimulationInputs {
    /// The entry recorded for a field.
    pub open spec fn spec_get(self, f: SimulationField) -> Seq<char> {
        match f {
            SimulationField::MaxDays => self.max_days@,
            SimulationField::StepIntervalHours => self.step_interval_hours@,
        }
    }

    /// No entry has been made yet.
    pub open spec fn spec_is_empty(self) -> bool {
        &&& self.max_days@ == Seq::<char>::empty()
        &&& self.step_interval_hours@ == Seq::<char>::empty()
    }

    pub fn new() -> (r: Self)
        ensures
            r.spec_is_empty(),
    {
        SimulationInputs { max_days: String::new(), step_interval_hours: String::new() }
    }

    /// The recorded entry for a field.
    pub fn get(&self, f: SimulationField) -> (r: &String)
        ensures
            r@ == self.spec_get(f),
    {
        match f {
            SimulationField::MaxDays => &self.max_days,
            SimulationField::StepIntervalHours => &self.step_interval_hours,
        }
    }

    /// Record an entry for a field, leaving every other field unchanged.
    pub fn insert(&mut self, f: SimulationField, value: String)
        ensures
            forall|g: SimulationField|
                #[trigger] final(self).spec_get(g) == if g == f {
                    value@
                } else {
                    old(self).spec_get(g)
                },
    {
        match f {
            SimulationField::MaxDays => self.max_days = value,
            SimulationField::StepIntervalHours => self.step_interval_hours = value,
        }
    }
}

/// The boolean simulation settings; a field not yet toggled reads as false.
#[derive(Clone, Copy, PartialEq, Eq, Structural, Debug)]
pub struct SimulationBoolInputs {
    pub drag_power_enable_space_weather: bool,
}

impl SimulationBoolInputs {
    /// The value recorded for a field.
    pub open spec fn spec_get(self, f: SimulationBoolField) -> bool {
        match f {
            SimulationBoolField::DragPowerEnableSpaceWeather => {
                self.drag_power_enable_space_weather
            },
        }
    }

    pub fn new() -> (r: Self)
        ensures
            !r.drag_power_enable_space_weather,
            forall|f: SimulationBoolField| !(#[trigger] r.spec_get(f)),
    {
        SimulationBoolInputs { drag_power_enable_space_weather: false }
    }

    /// The recorded value for a field.
    pub fn get(&self, f: SimulationBoolField) -> (r: bool)
        ensures
            r == self.spec_get(f),
    {
        match f {
            SimulationBoolField::DragPowerEnableSpaceWeather => {
                self.drag_power_enable_space_weather
            },
        }
    }

    /// Record a value for a field, leaving every other field unchanged.
    pub fn insert(&mut self, f: SimulationBoolField, value: bool)
        ensures
            forall|g: SimulationBoolField|
                #[trigger] final(self).spec_get(g) == if g == f {
                    value
                } else {
                    old(self).spec_get(g)
                },
    {
        match f {
            SimulationBoolField::DragPowerEnableSpaceWeather => {
                self.drag_power_enable_space_weather = value
            },
        }
    }
}

/// Raw (unparsed) entries for every TLE parameter field.
#[derive(Clone, Debug)]
pub struct TleParameterInputs {
    pub intl_desig: String,
    pub sat_num: String,
    pub desig_year: String,
    pub desig_launch: String,
    pub desig_piece: String,
    pub epoch: String,
    pub mean_motion_dot: String,
    pub mean_motion_dot_dot: String,
    pub bstar: String,
    pub ephem_type: String,
    pub element_num: String,
    pub inclination: String,
    pub raan: String,
    pub eccen: String,
    pub arg_of_perigee: String,
    pub mean_anomaly: String,
    pub mean_motion: String,
    pub rev_num: String,
}

impl TleParameterInputs {
    /// The entry recorded for a field.
    pub open spec fn spec_get(self, f: TleParameterField) -> Seq<char> {
        match f {
            TleParameterField::IntlDesig => self.intl_desig@,
            TleParameterField::SatNum => self.sat_num@,
            TleParameterField::DesigYear => self.desig_year@,
            TleParameterField::DesigLaunch => self.desig_launch@,
            TleParameterField::DesigPiece => self.desig_piece@,
            TleParameterField::Epoch => self.epoch@,
            TleParameterField::MeanMotionDot => self.mean_motion_dot@,
            TleParameterField::MeanMotionDotDot => self.mean_motion_dot_dot@,
            TleParameterField::BStar => self.bstar@,
            TleParameterField::EphemType => self.ephem_type@,
            TleParameterField::ElementNum => self.element_num@,
            TleParameterField::Inclination => self.inclination@,
            TleParameterField::Raan => self.raan@,
            TleParameterField::Eccentricity => self.eccen@,
            TleParameterField::ArgOfPerigee => self.arg_of_perigee@,
            TleParameterField::MeanAnomaly => self.mean_anomaly@,
            TleParameterField::MeanMotion => self.mean_motion@,
            TleParameterField::RevNum => self.rev_num@,
        }
    }

    /// No entry has been made yet.
    pub open spec fn spec_is_empty(self) -> bool {
        &&& self.intl_desig@ == Seq::<char>::empty()
        &&& self.sat_num@ == Seq::<char>::empty()
        &&& self.desig_year@ == Seq::<char>::empty()
        &&& self.desig_launch@ == Seq::<char>::empty()
        &&& self.desig_piece@ == Seq::<char>::empty()
        &&& self.epoch@ == Seq::<char>::empty()
        &&& self.mean_motion_dot@ == Seq::<char>::empty()
        &&& self.mean_motion_dot_dot@ == Seq::<char>::empty()
        &&& self.bstar@ == Seq::<char>::empty()
        &&& self.ephem_type@ == Seq::<char>::empty()
        &&& self.element_num@ == Seq::<char>::empty()
        &&& self.inclination@ == Seq::<char>::empty()
        &&& self.raan@ == Seq::<char>::empty()
        &&& self.eccen@ == Seq::<char>::empty()
        &&& self.arg_of_perigee@ == Seq::<char>::empty()
        &&& self.mean_anomaly@ == Seq::<char>::empty()
        &&& self.mean_motion@ == Seq::<char>::empty()
        &&& self.rev_num@ == Seq::<char>::empty()
    }

    pub fn new() -> (r: Self)
        ensures
            r.spec_is_empty(),
    {
        TleParameterInputs {
            intl_desig: String::new(),
            sat_num: String::new(),
            desig_year: String::new(),
            desig_launch: String::new(),
            desig_piece: String::new(),
            epoch: String::new(),
            mean_motion_dot: String::new(),
            mean_motion_dot_dot: String::new(),
            bstar: String::new(),
            ephem_type: String::new(),
            element_num: String::new(),
            inclination: String::new(),
            raan: String::new(),
            eccen: String::new(),
            arg_of_perigee: String::new(),
            mean_anomaly: String::new(),
            mean_motion: String::new(),
            rev_num: String::new(),
        }
    }

    /// The recorded entry for a field.
    pub fn get(&self, f: TleParameterField) -> (r: &String)
        ensures
            r@ == self.spec_get(f),
    {
        match f {
            TleParameterField::IntlDesig => &self.intl_desig,
            TleParameterField::SatNum => &self.sat_num,
            TleParameterField::DesigYear => &self.desig_year,
            TleParameterField::DesigLaunch => &self.desig_launch,
            TleParameterField::DesigPiece => &self.desig_piece,
            TleParameterField::Epoch => &self.epoch,
            TleParameterField::MeanMotionDot => &self.mean_motion_dot,
            TleParameterField::MeanMotionDotDot => &self.mean_motion_dot_dot,
            TleParameterField::BStar => &self.bstar,
            TleParameterField::EphemType => &self.ephem_type,
            TleParameterField::ElementNum => &self.element_num,
            TleParameterField::Inclination => &self.inclination,
            TleParameterField::Raan => &self.raan,
            TleParameterField::Eccentricity => &self.eccen,
            TleParameterField::ArgOfPerigee => &self.arg_of_perigee,
            TleParameterField::MeanAnomaly => &self.mean_anomaly,
            TleParameterField::MeanMotion => &self.mean_motion,
            TleParameterField::RevNum => &self.rev_num,
        }
    }

    /// Record an entry for a field, leaving every other field unchanged.
    pub fn insert(&mut self, f: TleParameterField, value: String)
        ensures
            forall|g: TleParameterField|
                #[trigger] final(self).spec_get(g) == if g == f {
                    value@
                } else {
                    old(self).spec_get(g)
                },
    {
        match f {
            TleParameterField::IntlDesig => self.intl_desig = value,
            TleParameterField::SatNum => self.sat_num = value,
            TleParameterField::DesigYear => self.desig_year = value,
            TleParameterField::DesigLaunch => self.desig_launch = value,
            TleParameterField::DesigPiece => self.desig_piece = value,
            TleParameterField::Epoch => self.epoch = value,
            TleParameterField::MeanMotionDot => self.mean_motion_dot = value,
            TleParameterField::MeanMotionDotDot => self.mean_motion_dot_dot = value,
            TleParameterField::BStar => self.bstar = value,
            TleParameterField::EphemType => self.ephem_type = value,
            TleParameterField::ElementNum => self.element_num = value,
            TleParameterField::Inclination => self.inclination = value,
            TleParameterField::Raan => self.raan = value,
            TleParameterField::Eccentricity => self.eccen = value,
            TleParameterField::ArgOfPerigee => self.arg_of_perigee = value,
            TleParameterField::MeanAnomaly => self.mean_anomaly = value,
            TleParameterField::MeanMotion => self.mean_motion = value,
            TleParameterField::RevNum => self.rev_num = value,
        }
    }
}

/// Raw (unparsed) orbital-element entries of the TLE edit form.
#[derive(Clone, Debug)]
pub struct OrbitalInputs {
    pub inclination: String,
    pub raan: String,
    pub eccentricity: String,
    pub arg_of_perigee: String,
    pub mean_anomaly: String,
    pub mean_motion: String,
    pub epoch: String,
}

impl OrbitalInputs {
    /// The entry recorded for a field.
    pub open spec fn spec_get(self, f: OrbitalField) -> Seq<char> {
        match f {
            OrbitalField::Inclination => self.inclination@,
            OrbitalField::Raan => self.raan@,
            OrbitalField::Eccentricity => self.eccentricity@,
            OrbitalField::ArgOfPerigee => self.arg_of_perigee@,
            OrbitalField::MeanAnomaly => self.mean_anomaly@,
            OrbitalField::MeanMotion => self.mean_motion@,
            OrbitalField::Epoch => self.epoch@,
        }
    }

    /// No entry has been made yet.
    pub open spec fn spec_is_empty(self) -> bool {
        &&& self.inclination@ == Seq::<char>::empty()
        &&& self.raan@ == Seq::<char>::empty()
        &&& self.eccentricity@ == Seq::<char>::empty()
        &&& self.arg_of_perigee@ == Seq::<char>::empty()
        &&& self.mean_anomaly@ == Seq::<char>::empty()
        &&& self.mean_motion@ == Seq::<char>::empty()
        &&& self.epoch@ == Seq::<char>::empty()
    }

    pub fn new() -> (r: Self)
        ensures
            r.spec_is_empty(),
    {
        OrbitalInputs {
            inclination: String::new(),
            raan: String::new(),
            eccentricity: String::new(),
            arg_of_perigee: String::new(),
            mean_anomaly: String::new(),
            mean_motion: String::new(),
            epoch: String::new(),
        }
    }

    /// The recorded entry for a field.
    pub fn get(&self, f: OrbitalField) -> (r: &String)
        ensures
            r@ == self.spec_get(f),
    {
        match f {
            OrbitalField::Inclination => &self.inclination,
            OrbitalField::Raan => &self.raan,
            OrbitalField::Eccentricity => &self.eccentricity,
            OrbitalField::ArgOfPerigee => &self.arg_of_perigee,
            OrbitalField::MeanAnomaly => &self.mean_anomaly,
            OrbitalField::MeanMotion => &self.mean_motion,
            OrbitalField::Epoch => &self.epoch,
        }
    }

    /// Record an entry for a field, leaving every other field unchanged.
    pub fn insert(&mut self, f: OrbitalField, value: String)
        ensures
            forall|g: OrbitalField|
                #[trigger] final(self).spec_get(g) == if g == f {
                    value@
                } else {
                    old(self).spec_get(g)
                },
    {
        match f {
            OrbitalField::Inclination => self.inclination = value,
            OrbitalField::Raan => self.raan = value,
            OrbitalField::Eccentricity => self.eccentricity = value,
            OrbitalField::ArgOfPerigee => self.arg_of_perigee = value,
            OrbitalField::MeanAnomaly => self.mean_anomaly = value,
            OrbitalField::MeanMotion => self.mean_motion = value,
            OrbitalField::Epoch => self.epoch = value,
        }
    }
}

/// Every raw form input of the application, grouped by form.
#[derive(Clone, Debug)]
pub struct MyAppInputFields {
    pub orbital_params: OrbitalInputs,
    pub ground_station_inputs: GroundStationInputs,
    pub satellite_inputs: SatelliteInputs,
    pub simulation_inputs: SimulationInputs,
    pub simulation_bools: SimulationBoolInputs,
    pub tle_parameter_inputs: TleParameterInputs,
}

impl MyAppInputFields {
    /// No entry has been made in any form.
    pub open spec fn spec_is_empty(self) -> bool {
        &&& self.orbital_params.spec_is_empty()
        &&& self.ground_station_inputs.spec_is_empty()
        &&& self.satellite_inputs.spec_is_empty()
        &&& self.simulation_inputs.spec_is_empty()
        &&& !self.simulation_bools.drag_power_enable_space_weather
        &&& self.tle_parameter_inputs.spec_is_empty()
    }

    pub fn new() -> (r: Self)
        ensures
            r.spec_is_empty(),
    {
        MyAppInputFields {
            orbital_params: OrbitalInputs::new(),
            ground_station_inputs: GroundStationInputs::new(),
            satellite_inputs: SatelliteInputs::new(),
            simulation_inputs: SimulationInputs::new(),
            simulation_bools: SimulationBoolInputs::new(),
            tle_parameter_inputs: TleParameterInputs::new(),
        }
    }
}

impl Default for MyAppInputFields {
    /// The state of the forms before any entry.
    fn default() -> (r: Self)
        ensures
            r.spec_is_empty(),
    {
        MyAppInputFields::new()
    }
}

} // verus!

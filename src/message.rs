use vstd::prelude::*;

verus! {

/// One decoded BEAST record.
#[derive(Debug, Clone, PartialEq, Eq)]
pub struct Message {
    /// The receiver's 48-bit MLAT counter.
    pub timestamp: u64,
    /// The raw signal byte `b`; the level in dBFS is `20 * log10(b / 255)`,
    /// and `b == 0` stands for no measurable signal.
    pub signal: u8,
    pub data: Data,
}

/// The decoded payload of one Mode-S reply, by downlink format.
#[derive(Debug, Clone, PartialEq, Eq)]
pub enum Data {
    ACASSurveillanceReply(ACASSurveillanceReply),
    ACASCoordinationReply(ACASCoordinationReply),
    AllCallReply(AllCallReply),
    AltitudeReply(AltitudeReply),
    ExtendedSquitter(ExtendedSquitter),
    SurveillanceReply(SurveillanceReply),
    /// A reply of another format, a Mode A/C reply, or one that holds a
    /// reserved value: the payload bytes as received.
    Unsupported(Vec<u8>),
}

/// DF-0.
#[derive(Debug, Clone, Copy, PartialEq, Eq, Structural)]
pub struct ACASSurveillanceReply {
    pub vertical_status: VerticalStatus,
    pub cross_link: CrossLink,
    pub sensitivity_level: SensitivityLevel,
    pub reply_information: ReplyInformation,
    pub altitude: Altitude,
}

/// DF-16.
#[derive(Debug, Clone, PartialEq, Eq)]
pub struct ACASCoordinationReply {
    pub vertical_status: VerticalStatus,
    pub sensitivity_level: SensitivityLevel,
    pub reply_information: ReplyInformation,
    pub altitude: Altitude,
    /// The leading 24 bits of the 56-bit MV field.
    pub vds: u32,
    /// The whole 56-bit MV field, as seven bytes.
    pub message: Vec<u8>,
}

/// DF-11.
#[derive(Debug, Clone, PartialEq, Eq)]
pub struct AllCallReply {
    pub capability: u8,
    /// The announced address as six upper-case hex digits.
    pub icao: String,
    pub parity: u32,
}

/// DF-4.
#[derive(Debug, Clone, Copy, PartialEq, Eq, Structural)]
pub struct AltitudeReply {
    pub flight_status: FlightStatus,
    pub downlink_request: u8,
    pub utility_message: u8,
    pub altitude: Altitude,
}

/// DF-5.
#[derive(Debug, Clone, Copy, PartialEq, Eq, Structural)]
pub struct SurveillanceReply {
    pub flight_status: FlightStatus,
    pub downlink_request: u8,
    pub utility_message: u8,
    /// The squawk, one octal digit per hex nibble.
    pub id: u16,
}

/// DF-17.
#[derive(Debug, Clone, PartialEq, Eq)]
pub struct ExtendedSquitter {
    pub capability: u8,
    /// The announced address as six upper-case hex digits.
    pub icao: String,
    pub message: ADSBMessage,
}

/// The ME field of an extended squitter, by type code.
#[derive(Debug, Clone, PartialEq, Eq)]
pub enum ADSBMessage {
    AircraftIdentification(AircraftIdentification),
    AircraftStatus(AircraftStatus),
    AirbornePosition(AirbornePosition),
    TargetState(TargetStateType),
    Velocity(Velocity),
    /// A type code that is not decoded, or an ME field that holds a reserved
    /// value: the seven ME bytes.
    Unsupported(Vec<u8>),
}

#[derive(Debug, Clone, Copy, PartialEq, Eq, Structural)]
pub enum ResolutionAdvisory {
    NoAdvisory,
}

#[derive(Debug, Clone, Copy, PartialEq, Eq, Structural)]
pub struct AirbornePosition {
    pub surveillance_status: SurveillanceStatus,
    pub single_antenna: bool,
    pub altitude: Altitude,
    pub utc_synchronized: bool,
    pub cpr_format: CPRFormat,
    pub cpr_latitude: u32,
    pub cpr_longitude: u32,
}

#[derive(Debug, Clone, Copy, PartialEq, Eq, Structural)]
pub enum AircraftCategory {
    NoCategory,
    SurfaceEmergencyVehicle,
    SurfaceServiceVehicle,
    GroundObstruction,
    Glider,
    LighterThanAir,
    Parachutist,
    Ultralight,
    UnmannedAerialVehicle,
    SpaceVehicle,
    Light,
    Medium1,
    Medium2,
    HighVortexAircraft,
    Heavy,
    HighPerformance,
    Rotorcraft,
}

#[derive(Debug, Clone, Copy, PartialEq, Eq, Structural)]
pub struct AircraftStatus {
    pub emergency: Emergency,
    /// The squawk, one octal digit per hex nibble.
    pub squawk: u16,
}

#[derive(Debug, Clone, PartialEq, Eq)]
pub struct AircraftIdentification {
    pub category: AircraftCategory,
    /// Eight characters from `A`..`Z`, `0`..`9` and space.
    pub call_sign: String,
}

#[derive(Debug, Clone, Copy, PartialEq, Eq, Structural)]
pub struct Airspeed {
    pub supersonic_aircraft: bool,
    pub magnetic_heading_available: bool,
    pub magnetic_heading: u16,
    pub airspeed_type: AirspeedType,
    pub airspeed: u16,
}

#[derive(Debug, Clone, Copy, PartialEq, Eq, Structural)]
pub enum AirspeedType {
    Indicated,
    True,
}

#[derive(Debug, Clone, Copy, PartialEq, Eq, Structural)]
pub enum Altitude {
    Invalid,
    Feet(i32),
    Meters(i32),
}

#[derive(Debug, Clone, Copy, PartialEq, Eq, Structural)]
pub enum AltitudeDifference {
    NoInformation,
    Feet(i16),
}

#[derive(Debug, Clone, Copy, PartialEq, Eq, Structural)]
pub enum AltitudeSetting {
    NotSet,
    Feet(u32),
}

#[derive(Debug, Clone, Copy, PartialEq, Eq, Structural)]
pub enum AltitudeSource {
    Unknown,
    MCPFCU,
    FMS,
}

#[derive(Debug, Clone, Copy, PartialEq, Eq, Structural)]
pub enum BarometerSetting {
    NotSet,
    /// The pressure in tenths of a millibar: `8000 + 8 * (raw - 1)`.
    MilliBarTenths(u16),
}

#[derive(Debug, Clone, Copy, PartialEq, Eq, Structural)]
pub enum CPRFormat {
    Even,
    Odd,
}

#[derive(Debug, Clone, Copy, PartialEq, Eq, Structural)]
pub enum CrossLink {
    Unsupported,
    Supported,
}

#[derive(Debug, Clone, Copy, PartialEq, Eq, Structural)]
pub enum EastWestDirection {
    WestToEast,
    EastToWest,
}

#[derive(Debug, Clone, Copy, PartialEq, Eq, Structural)]
pub enum Emergency {
    NoInformation,
    NoEmergency,
    General,
    Lifeguard,
    MinimumFuel,
    NoCommunications,
    UnlawfulInterference,
    Downed,
}

#[derive(Debug, Clone, Copy, PartialEq, Eq, Structural)]
pub struct FlightStatus {
    pub alert: bool,
    pub spi: bool,
    pub status: VerticalStatus,
}

#[derive(Debug, Clone, Copy, PartialEq, Eq, Structural)]
pub struct GroundVelocity {
    pub supersonic_aircraft: bool,
    pub east_west_direction: EastWestDirection,
    pub east_west_velocity: u16,
    pub north_south_direction: NorthSouthDirection,
    pub north_south_velocity: u16,
}

#[derive(Debug, Clone, Copy, PartialEq, Eq, Structural)]
pub enum HeadingSetting {
    NotSet,
    /// The heading in units of 180/256 of a degree.
    MagneticOrTrue(u16),
}

#[derive(Debug, Clone, Copy, PartialEq, Eq, Structural)]
pub enum NorthSouthDirection {
    SouthToNorth,
    NorthToSouth,
}

/// Maximum airspeeds are in knots.
#[derive(Debug, Clone, Copy, PartialEq, Eq, Structural)]
pub enum ReplyInformation {
    Inoperative,
    ACASInhibited,
    ACASVerticalOnly,
    ACASVerticalAndHorizontal,
    NoMaximumAirspeed,
    MaximumAirspeedUnder(u16),
    MaximumAirspeedBetween(u16, u16),
    MaximumAirspeedOver(u16),
    Unsupported(u8),
}

#[derive(Debug, Clone, Copy, PartialEq, Eq, Structural)]
pub enum SensitivityLevel {
    Inoperative,
    Operative(u8),
}

#[derive(Debug, Clone, Copy, PartialEq, Eq, Structural)]
pub enum SourceIntegrityLevel {
    Unknown,
    PerThousand,
    PerHundredThousand,
    PerTenMillion,
}

#[derive(Debug, Clone, Copy, PartialEq, Eq, Structural)]
pub enum SourceIntegrityLevelSupplement {
    PerHour,
    PerSample,
}

#[derive(Debug, Clone, Copy, PartialEq, Eq, Structural)]
pub enum SurveillanceStatus {
    NoCondition,
    PermanentAlert,
    TemporaryAlert,
    SPICondition,
}

#[derive(Debug, Clone, Copy, PartialEq, Eq, Structural)]
pub enum TargetStateType {
    SubType0(TargetState0),
    SubType1(TargetState1),
}

/// Sub-type 0 of the target state message: parsed, not interpreted.
#[derive(Debug, Clone, Copy, PartialEq, Eq, Structural)]
pub struct TargetState0 {}

#[derive(Debug, Clone, Copy, PartialEq, Eq, Structural)]
pub struct TargetState1 {
    pub sil_supplement: SourceIntegrityLevelSupplement,
    pub altitude_source: AltitudeSource,
    pub altitude_setting: AltitudeSetting,
    pub barometer_setting: BarometerSetting,
    pub heading_setting: HeadingSetting,
    pub nac_position: u8,
    pub nic_barometric: u8,
    pub sil: SourceIntegrityLevel,
    pub autopilot: Option<bool>,
    pub vnav: Option<bool>,
    pub altitude_hold: Option<bool>,
    pub autopilot_approach: Option<bool>,
    pub tcas: Option<bool>,
    pub lnav: Option<bool>,
}

#[derive(Debug, Clone, Copy, PartialEq, Eq, Structural)]
pub struct Velocity {
    pub intent_change: bool,
    pub ifr_capability: bool,
    pub navigation_uncertainty: u8,
    pub velocity: VelocityType,
    pub vertical_rate: VerticalRate,
    pub altitude_difference: AltitudeDifference,
}

#[derive(Debug, Clone, Copy, PartialEq, Eq, Structural)]
pub enum VelocityType {
    Airborne(Airspeed),
    Ground(GroundVelocity),
}

#[derive(Debug, Clone, Copy, PartialEq, Eq, Structural)]
pub enum VerticalRate {
    NoInformation,
    FeetPerMinute(VerticalRateSource),
}

/// Vertical rate in feet per minute.
#[derive(Debug, Clone, Copy, PartialEq, Eq, Structural)]
pub enum VerticalRateSource {
    GNSS(i32),
    Barometer(i32),
}

#[derive(Debug, Clone, Copy, PartialEq, Eq, Structural)]
pub enum VerticalStatus {
    Ground,
    Airborne,
    Either,
}

} // verus!

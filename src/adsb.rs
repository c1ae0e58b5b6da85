use vstd::arithmetic::power2::*;
use vstd::prelude::*;
use vstd::slice::slice_to_vec;

use crate::bits::{bits_at, BitReader};
use crate::error::DecodeError;
use crate::fields::{
    aircraft_category, aircraft_category_of, altitude_code, altitude_difference,
    altitude_difference_of, altitude_of, altitude_setting, altitude_setting_of,
    barometer_setting, barometer_setting_of, call_sign_char_of, call_sign_character, cpr_format,
    cpr_format_of, emergency_of, heading_setting, heading_setting_of, ident, ident_of,
    is_call_sign_char, sil, sil_of, sil_supplement, sil_supplement_of, surveillance_status,
    surveillance_status_of, vertical_rate, vertical_rate_of,
};
use crate::message::{
    ADSBMessage, AirbornePosition, AircraftCategory, AircraftIdentification, AircraftStatus,
    Airspeed, AirspeedType, AltitudeDifference, AltitudeSource, EastWestDirection,
    GroundVelocity, NorthSouthDirection, TargetState0, TargetState1, TargetStateType, Velocity,
    VelocityType, VerticalRate,
};
use crate::text::push_char;

verus! {

/// The `w`-bit field at bit `off` of an ME field.
pub open spec fn me_bits(me: Seq<u8>, off: nat, w: nat) -> nat {
    bits_at(me, off, w)
}

/// The 5-bit type code that opens an ME field.
pub open spec fn type_code_of(me: Seq<u8>) -> nat {
    me_bits(me, 0, 5)
}

/// The `i`-th 6-bit group of the call sign of an identification message.
pub open spec fn call_sign_group(me: Seq<u8>, i: nat) -> u8 {
    me_bits(me, 8 + 6 * i, 6) as u8
}

/// Every one of the eight groups lies in the call-sign alphabet.
pub open spec fn call_sign_valid(me: Seq<u8>) -> bool {
    forall|i: nat| i < 8 ==> (#[trigger] call_sign_char_of(call_sign_group(me, i))) is Some
}

/// The eight characters of the call sign.
pub open spec fn call_sign_chars(me: Seq<u8>) -> Seq<char> {
    Seq::new(8, |i: int| call_sign_char_of(call_sign_group(me, i as nat))->Some_0)
}

pub open spec fn identification_category_of(me: Seq<u8>) -> Result<AircraftCategory, DecodeError> {
    aircraft_category_of(type_code_of(me) as u8, me_bits(me, 5, 3) as u8)
}

/// An identification message decodes when its category cell is assigned and
/// its call sign lies in the alphabet.
pub open spec fn identification_decodes(me: Seq<u8>) -> bool {
    identification_category_of(me) is Ok && call_sign_valid(me)
}

pub open spec fn airborne_position_of(me: Seq<u8>) -> AirbornePosition {
    AirbornePosition {
        surveillance_status: surveillance_status_of(me_bits(me, 5, 2) as u8),
        single_antenna: me_bits(me, 7, 1) == 1,
        altitude: altitude_of(me_bits(me, 8, 12) as u16),
        utc_synchronized: me_bits(me, 20, 1) == 1,
        cpr_format: cpr_format_of(me_bits(me, 21, 1) as u8),
        cpr_latitude: me_bits(me, 22, 17) as u32,
        cpr_longitude: me_bits(me, 39, 17) as u32,
    }
}

pub open spec fn ground_velocity_of(supersonic: bool, v: u32) -> GroundVelocity {
    GroundVelocity {
        supersonic_aircraft: supersonic,
        east_west_direction: if (v >> 21) & 1 == 0 {
            EastWestDirection::WestToEast
        } else {
            EastWestDirection::EastToWest
        },
        east_west_velocity: ((v >> 11) & 0x3ff) as u16,
        north_south_direction: if (v >> 10) & 1 == 0 {
            NorthSouthDirection::SouthToNorth
        } else {
            NorthSouthDirection::NorthToSouth
        },
        north_south_velocity: (v & 0x3ff) as u16,
    }
}

pub open spec fn airspeed_of(supersonic: bool, v: u32) -> Airspeed {
    Airspeed {
        supersonic_aircraft: supersonic,
        magnetic_heading_available: (v >> 21) & 1 == 1,
        magnetic_heading: ((v >> 11) & 0x3ff) as u16,
        airspeed_type: if (v >> 10) & 1 == 0 {
            AirspeedType::Indicated
        } else {
            AirspeedType::True
        },
        airspeed: (v & 0x3ff) as u16,
    }
}

/// The 22-bit velocity payload by sub-type: 1 and 2 carry ground speed
/// components, 3 and 4 heading and airspeed; 2 and 4 are supersonic.
pub open spec fn velocity_type_of(sub_type: u8, v: u32) -> Result<VelocityType, DecodeError> {
    if sub_type == 1 || sub_type == 2 {
        Ok(VelocityType::Ground(ground_velocity_of(sub_type == 2, v)))
    } else if sub_type == 3 || sub_type == 4 {
        Ok(VelocityType::Airborne(airspeed_of(sub_type == 4, v)))
    } else {
        Err(DecodeError::Reserved(sub_type as u64))
    }
}

pub open spec fn velocity_of(
    sub_type: u8,
    intent_change: bool,
    ifr_capability: bool,
    navigation_uncertainty: u8,
    velocity: u32,
    vertical_rate: VerticalRate,
    altitude_difference: AltitudeDifference,
) -> Result<Velocity, DecodeError> {
    match velocity_type_of(sub_type, velocity) {
        Ok(t) => Ok(
            Velocity {
                intent_change,
                ifr_capability,
                navigation_uncertainty,
                velocity: t,
                vertical_rate,
                altitude_difference,
            },
        ),
        Err(e) => Err(e),
    }
}

pub open spec fn velocity_message_of(me: Seq<u8>) -> Result<Velocity, DecodeError> {
    velocity_of(
        me_bits(me, 5, 3) as u8,
        me_bits(me, 8, 1) == 1,
        me_bits(me, 9, 1) == 1,
        me_bits(me, 10, 3) as u8,
        me_bits(me, 13, 22) as u32,
        vertical_rate_of(
            me_bits(me, 35, 1) as u8,
            me_bits(me, 36, 1) == 1,
            me_bits(me, 37, 9) as u16,
        ),
        altitude_difference_of(me_bits(me, 48, 1) == 1, me_bits(me, 49, 7) as u8),
    )
}

pub open spec fn aircraft_status_of(sub_type: u8, emergency: u8, squawk: u16) -> Result<
    AircraftStatus,
    DecodeError,
> {
    match emergency_of(sub_type, emergency) {
        Ok(e) => Ok(AircraftStatus { emergency: e, squawk }),
        Err(e) => Err(e),
    }
}

pub open spec fn aircraft_status_message_of(me: Seq<u8>) -> Result<AircraftStatus, DecodeError> {
    aircraft_status_of(
        me_bits(me, 5, 3) as u8,
        me_bits(me, 8, 3) as u8,
        ident_of(me_bits(me, 11, 13) as u16),
    )
}

/// An autopilot flag at bit `off`, present only when the mode bits are valid.
pub open spec fn mode_flag_of(me: Seq<u8>, off: nat) -> Option<bool> {
    if me_bits(me, 44, 1) == 1 {
        Some(me_bits(me, off, 1) == 1)
    } else {
        None
    }
}

pub open spec fn target_state1_of(me: Seq<u8>) -> TargetState1 {
    TargetState1 {
        sil_supplement: sil_supplement_of(me_bits(me, 7, 1) as u8),
        altitude_source: if me_bits(me, 44, 1) == 0 {
            AltitudeSource::Unknown
        } else if me_bits(me, 8, 1) == 1 {
            AltitudeSource::FMS
        } else {
            AltitudeSource::MCPFCU
        },
        altitude_setting: altitude_setting_of(me_bits(me, 9, 10) as u32),
        barometer_setting: barometer_setting_of(me_bits(me, 19, 9) as u16),
        heading_setting: heading_setting_of(me_bits(me, 28, 1) as u8, me_bits(me, 29, 9) as u16),
        nac_position: me_bits(me, 38, 3) as u8,
        nic_barometric: me_bits(me, 41, 1) as u8,
        sil: sil_of(me_bits(me, 42, 2) as u8),
        autopilot: mode_flag_of(me, 45),
        vnav: mode_flag_of(me, 46),
        altitude_hold: mode_flag_of(me, 47),
        autopilot_approach: mode_flag_of(me, 48),
        tcas: mode_flag_of(me, 49),
        lnav: mode_flag_of(me, 50),
    }
}

/// Target state by its 2-bit sub-type; 2 and 3 are reserved.
pub open spec fn target_state_of(me: Seq<u8>) -> Result<TargetStateType, DecodeError> {
    let sub_type = me_bits(me, 5, 2);
    if sub_type == 0 {
        Ok(TargetStateType::SubType0(TargetState0 {  }))
    } else if sub_type == 1 {
        Ok(TargetStateType::SubType1(target_state1_of(me)))
    } else {
        Err(DecodeError::Reserved(sub_type as u64))
    }
}

pub open spec fn is_airborne_position_code(tc: nat) -> bool {
    (9 <= tc <= 18) || (20 <= tc <= 22)
}

/// `m` is the ME field `me` carried as undecoded bytes.
pub open spec fn me_unsupported(me: Seq<u8>, m: ADSBMessage) -> bool {
    m is Unsupported && m->Unsupported_0@ == me
}

/// What a 56-bit ME field decodes to, by type code; a type code that is not
/// decoded, or a field that holds a reserved value, gives the bytes back.
pub open spec fn me_decodes_to(me: Seq<u8>, m: ADSBMessage) -> bool {
    let tc = type_code_of(me);
    if 1 <= tc <= 4 {
        if identification_decodes(me) {
            &&& m is AircraftIdentification
            &&& m->AircraftIdentification_0.category == identification_category_of(me)->Ok_0
            &&& m->AircraftIdentification_0.call_sign@ == call_sign_chars(me)
        } else {
            me_unsupported(me, m)
        }
    } else if is_airborne_position_code(tc) {
        m == ADSBMessage::AirbornePosition(airborne_position_of(me))
    } else if tc == 19 {
        match velocity_message_of(me) {
            Ok(v) => m == ADSBMessage::Velocity(v),
            Err(_) => me_unsupported(me, m),
        }
    } else if tc == 28 {
        match aircraft_status_message_of(me) {
            Ok(s) => m == ADSBMessage::AircraftStatus(s),
            Err(_) => me_unsupported(me, m),
        }
    } else if tc == 29 {
        match target_state_of(me) {
            Ok(t) => m == ADSBMessage::TargetState(t),
            Err(_) => me_unsupported(me, m),
        }
    } else {
        me_unsupported(me, m)
    }
}

/// The reader stands after the type code of a 7-byte ME field.
pub open spec fn after_type_code(r: BitReader) -> bool {
    r.wf() && r.bytes().len() == 7 && r.pos() == 5
}

/// The reader has consumed the whole ME field.
pub open spec fn consumed_me(r: BitReader, me: Seq<u8>) -> bool {
    r.wf() && r.bytes() == me && r.pos() == 56
}

impl AircraftStatus {
    /// An aircraft status from its sub-type, emergency code and squawk.
    pub fn new(sub_type: u8, emergency: u8, squawk: u16) -> (r: Result<
        AircraftStatus,
        DecodeError,
    >)
        ensures
            r == aircraft_status_of(sub_type, emergency, squawk),
    {
        match crate::fields::emergency(sub_type, emergency) {
            Ok(e) => Ok(AircraftStatus { emergency: e, squawk }),
            Err(e) => Err(e),
        }
    }
}

impl Velocity {
    /// A velocity message from its sub-type, flags, navigation uncertainty,
    /// 22-bit velocity payload and decoded vertical blocks.
    pub fn new(
        sub_type: u8,
        intent_change: bool,
        ifr_capability: bool,
        navigation_uncertainty: u8,
        velocity: u32,
        vertical_rate: VerticalRate,
        altitude_difference: AltitudeDifference,
    ) -> (r: Result<Velocity, DecodeError>)
        ensures
            r == velocity_of(
                sub_type,
                intent_change,
                ifr_capability,
                navigation_uncertainty,
                velocity,
                vertical_rate,
                altitude_difference,
            ),
    {
        let velocity = match sub_type {
            1 => velocity_ground(false, velocity),
            2 => velocity_ground(true, velocity),
            3 => velocity_airborne(false, velocity),
            4 => velocity_airborne(true, velocity),
            _ => {
                return Err(DecodeError::Reserved(sub_type as u64));
            },
        };
        Ok(
            Velocity {
                intent_change,
                ifr_capability,
                navigation_uncertainty,
                velocity,
                vertical_rate,
                altitude_difference,
            },
        )
    }
}

/// Heading-available flag, 10-bit heading, airspeed type and 10-bit airspeed.
pub fn velocity_airborne(supersonic_aircraft: bool, velocity: u32) -> (r: VelocityType)
    ensures
        r == VelocityType::Airborne(airspeed_of(supersonic_aircraft, velocity)),
{
    let heading = (velocity >> 11) & 0x3ff;
    let airspeed = velocity & 0x3ff;
    assert(heading < 0x400 && airspeed < 0x400) by (bit_vector)
        requires
            heading == (velocity >> 11) & 0x3ff,
            airspeed == velocity & 0x3ff,
    ;
    VelocityType::Airborne(
        Airspeed {
            supersonic_aircraft,
            magnetic_heading_available: (velocity >> 21) & 1 == 1,
            magnetic_heading: heading as u16,
            airspeed_type: if (velocity >> 10) & 1 == 0 {
                AirspeedType::Indicated
            } else {
                AirspeedType::True
            },
            airspeed: airspeed as u16,
        },
    )
}

/// East-west direction and 10-bit speed, then north-south direction and speed.
pub fn velocity_ground(supersonic_aircraft: bool, velocity: u32) -> (r: VelocityType)
    ensures
        r == VelocityType::Ground(ground_velocity_of(supersonic_aircraft, velocity)),
{
    let east_west = (velocity >> 11) & 0x3ff;
    let north_south = velocity & 0x3ff;
    assert(east_west < 0x400 && north_south < 0x400) by (bit_vector)
        requires
            east_west == (velocity >> 11) & 0x3ff,
            north_south == velocity & 0x3ff,
    ;
    VelocityType::Ground(
        GroundVelocity {
            supersonic_aircraft,
            east_west_direction: if (velocity >> 21) & 1 == 0 {
                EastWestDirection::WestToEast
            } else {
                EastWestDirection::EastToWest
            },
            east_west_velocity: east_west as u16,
            north_south_direction: if (velocity >> 10) & 1 == 0 {
                NorthSouthDirection::SouthToNorth
            } else {
                NorthSouthDirection::NorthToSouth
            },
            north_south_velocity: north_south as u16,
        },
    )
}

/// Category and eight call-sign characters (type codes 1 to 4).
fn aircraft_identification(r: &mut BitReader, type_code: u8) -> (m: Result<
    AircraftIdentification,
    DecodeError,
>)
    requires
        after_type_code(*old(r)),
        type_code == type_code_of(old(r).bytes()),
    ensures
        consumed_me(*final(r), old(r).bytes()),
        m is Ok <==> identification_decodes(old(r).bytes()),
        m is Ok ==> m->Ok_0.category == identification_category_of(old(r).bytes())->Ok_0
            && m->Ok_0.call_sign@ == call_sign_chars(old(r).bytes()),
{
    let ghost me = r.bytes();
    proof {
        lemma2_to64();
    }
    let category = r.read(3) as u8;
    let category = aircraft_category(type_code, category);
    let mut call_sign = String::new();
    let mut invalid: Option<DecodeError> = None;
    let mut i: usize = 0;
    while i < 8
        invariant
            r.wf(),
            r.bytes() == me,
            me.len() == 7,
            i <= 8,
            r.pos() == 8 + 6 * i,
            invalid is None <==> (forall|j: nat|
                j < i ==> (#[trigger] call_sign_char_of(call_sign_group(me, j))) is Some),
            invalid is None ==> call_sign@ == call_sign_chars(me).take(i as int),
        decreases 8 - i,
    {
        proof {
            lemma2_to64();
        }
        let group = r.read(6) as u8;
        let ghost was_valid = invalid is None;
        match call_sign_character(group) {
            Ok(c) => {
                if invalid.is_none() {
                    push_char(&mut call_sign, c);
                    assert(call_sign@ =~= call_sign_chars(me).take(i + 1));
                }
            },
            Err(e) => {
                if invalid.is_none() {
                    invalid = Some(e);
                }
            },
        }
        i = i + 1;
        assert(invalid is None <==> (forall|j: nat|
            j < i ==> (#[trigger] call_sign_char_of(call_sign_group(me, j))) is Some)) by {
            if invalid is None {
                assert forall|j: nat| j < i implies (#[trigger] call_sign_char_of(
                    call_sign_group(me, j),
                )) is Some by {
                    if j + 1 < i {
                    }
                }
            } else if was_valid {
                assert(call_sign_char_of(call_sign_group(me, (i - 1) as nat)) is None);
            }
        }
    }
    assert(invalid is None <==> call_sign_valid(me));
    match category {
        Ok(category) => match invalid {
            None => {
                assert(call_sign_chars(me).take(8) =~= call_sign_chars(me));
                Ok(AircraftIdentification { category, call_sign })
            },
            Some(e) => Err(e),
        },
        Err(e) => Err(e),
    }
}

/// Surveillance status, antenna flag, 12-bit altitude, time flag, CPR
/// format and the two 17-bit CPR coordinates (type codes 9 to 18, 20 to 22).
fn airborne_position(r: &mut BitReader) -> (p: AirbornePosition)
    requires
        after_type_code(*old(r)),
    ensures
        consumed_me(*final(r), old(r).bytes()),
        p == airborne_position_of(old(r).bytes()),
{
    proof {
        lemma2_to64();
    }
    let surveillance = r.read(2) as u8;
    let single_antenna = r.read(1) == 1;
    let altitude = r.read(12) as u16;
    let utc_synchronized = r.read(1) == 1;
    let format = r.read(1) as u8;
    let cpr_latitude = r.read(17) as u32;
    let cpr_longitude = r.read(17) as u32;
    AirbornePosition {
        surveillance_status: surveillance_status(surveillance),
        single_antenna,
        altitude: altitude_code(altitude),
        utc_synchronized,
        cpr_format: cpr_format(format),
        cpr_latitude,
        cpr_longitude,
    }
}

/// Sub-type, intent change and IFR flags, navigation uncertainty, the 22-bit
/// velocity payload, the vertical rate block and the altitude difference
/// block (type code 19).
fn velocity(r: &mut BitReader) -> (v: Result<Velocity, DecodeError>)
    requires
        after_type_code(*old(r)),
    ensures
        consumed_me(*final(r), old(r).bytes()),
        v == velocity_message_of(old(r).bytes()),
{
    proof {
        lemma2_to64();
    }
    let sub_type = r.read(3) as u8;
    let intent_change = r.read(1) == 1;
    let ifr_capability = r.read(1) == 1;
    let navigation_uncertainty = r.read(3) as u8;
    let payload = r.read(22) as u32;
    let source = r.read(1) as u8;
    let down = r.read(1) == 1;
    let rate = r.read(9) as u16;
    r.read(2);
    let below = r.read(1) == 1;
    let difference = r.read(7) as u8;
    Velocity::new(
        sub_type,
        intent_change,
        ifr_capability,
        navigation_uncertainty,
        payload,
        vertical_rate(source, down, rate),
        altitude_difference(below, difference),
    )
}

/// Sub-type, emergency code and squawk, then 32 reserved bits (type code 28).
fn aircraft_status(r: &mut BitReader) -> (s: Result<AircraftStatus, DecodeError>)
    requires
        after_type_code(*old(r)),
    ensures
        consumed_me(*final(r), old(r).bytes()),
        s == aircraft_status_message_of(old(r).bytes()),
{
    proof {
        lemma2_to64();
    }
    let sub_type = r.read(3) as u8;
    let code = r.read(3) as u8;
    let squawk = r.read(13) as u16;
    r.read(32);
    AircraftStatus::new(sub_type, code, ident(squawk))
}

/// A 2-bit sub-type; sub-type 1 carries the selected altitude, pressure and
/// heading, accuracy and integrity figures and the autopilot mode flags,
/// which count only when the mode bit is set (type code 29).
fn target_state(r: &mut BitReader) -> (t: Result<TargetStateType, DecodeError>)
    requires
        after_type_code(*old(r)),
    ensures
        consumed_me(*final(r), old(r).bytes()),
        t == target_state_of(old(r).bytes()),
{
    proof {
        lemma2_to64();
    }
    let sub_type = r.read(2);
    if sub_type == 0 {
        r.read(49);
        return Ok(TargetStateType::SubType0(TargetState0 {  }));
    }
    if sub_type != 1 {
        r.read(49);
        return Err(DecodeError::Reserved(sub_type));
    }
    let supplement = r.read(1) as u8;
    let fms = r.read(1) == 1;
    let altitude = r.read(10) as u32;
    let barometer = r.read(9) as u16;
    let heading_valid = r.read(1) as u8;
    let heading = r.read(9) as u16;
    let nac_position = r.read(3) as u8;
    let nic_barometric = r.read(1) as u8;
    let level = r.read(2) as u8;
    let known = r.read(1) == 1;
    let autopilot = r.read(1) == 1;
    let vnav = r.read(1) == 1;
    let altitude_hold = r.read(1) == 1;
    let approach = r.read(1) == 1;
    let tcas = r.read(1) == 1;
    let lnav = r.read(1) == 1;
    r.read(5);
    let altitude_source = if !known {
        AltitudeSource::Unknown
    } else if fms {
        AltitudeSource::FMS
    } else {
        AltitudeSource::MCPFCU
    };
    Ok(
        TargetStateType::SubType1(
            TargetState1 {
                sil_supplement: sil_supplement(supplement),
                altitude_source,
                altitude_setting: altitude_setting(altitude),
                barometer_setting: barometer_setting(barometer),
                heading_setting: heading_setting(heading_valid, heading),
                nac_position,
                nic_barometric,
                sil: sil(level),
                autopilot: if known {
                    Some(autopilot)
                } else {
                    None
                },
                vnav: if known {
                    Some(vnav)
                } else {
                    None
                },
                altitude_hold: if known {
                    Some(altitude_hold)
                } else {
                    None
                },
                autopilot_approach: if known {
                    Some(approach)
                } else {
                    None
                },
                tcas: if known {
                    Some(tcas)
                } else {
                    None
                },
                lnav: if known {
                    Some(lnav)
                } else {
                    None
                },
            },
        ),
    )
}

/// Decodes a 56-bit ME field by its type code; every sub-decoder reads the
/// whole field, and a type code that is not decoded or a field that holds a
/// reserved value gives the seven bytes back as `Unsupported`.
pub fn adsb_message(me: &[u8]) -> (m: ADSBMessage)
    requires
        me@.len() == 7,
    ensures
        me_decodes_to(me@, m),
{
    proof {
        lemma2_to64();
    }
    let mut r = BitReader::new(me);
    let type_code = r.read(5) as u8;
    if 1 <= type_code && type_code <= 4 {
        match aircraft_identification(&mut r, type_code) {
            Ok(i) => ADSBMessage::AircraftIdentification(i),
            Err(_) => ADSBMessage::Unsupported(slice_to_vec(me)),
        }
    } else if (9 <= type_code && type_code <= 18) || (20 <= type_code && type_code <= 22) {
        ADSBMessage::AirbornePosition(airborne_position(&mut r))
    } else if type_code == 19 {
        match velocity(&mut r) {
            Ok(v) => ADSBMessage::Velocity(v),
            Err(_) => ADSBMessage::Unsupported(slice_to_vec(me)),
        }
    } else if type_code == 28 {
        match aircraft_status(&mut r) {
            Ok(s) => ADSBMessage::AircraftStatus(s),
            Err(_) => ADSBMessage::Unsupported(slice_to_vec(me)),
        }
    } else if type_code == 29 {
        match target_state(&mut r) {
            Ok(t) => ADSBMessage::TargetState(t),
            Err(_) => ADSBMessage::Unsupported(slice_to_vec(me)),
        }
    } else {
        ADSBMessage::Unsupported(slice_to_vec(me))
    }
}

/// Every 6-bit group in the call-sign alphabet decodes to one of `A`..`Z`,
/// `0`..`9` and space.
pub proof fn lemma_call_sign_char(c: u8)
    requires
        call_sign_char_of(c) is Some,
    ensures
        is_call_sign_char(call_sign_char_of(c)->Some_0),
{
}

/// A decoded call sign has exactly eight characters, each of `A`..`Z`,
/// `0`..`9` and space, trailing spaces kept.
pub proof fn lemma_call_sign_stable(me: Seq<u8>, m: ADSBMessage)
    requires
        me_decodes_to(me, m),
        m is AircraftIdentification,
    ensures
        m->AircraftIdentification_0.call_sign@.len() == 8,
        forall|i: int|
            0 <= i < 8 ==> is_call_sign_char(
                #[trigger] m->AircraftIdentification_0.call_sign@[i],
            ),
{
    assert forall|i: int| 0 <= i < 8 implies is_call_sign_char(
        #[trigger] m->AircraftIdentification_0.call_sign@[i],
    ) by {
        assert(call_sign_char_of(call_sign_group(me, i as nat)) is Some);
        lemma_call_sign_char(call_sign_group(me, i as nat));
    }
}

} // verus!

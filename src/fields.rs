use vstd::prelude::*;

use crate::error::DecodeError;
use crate::message::{
    AircraftCategory, Altitude, AltitudeDifference, AltitudeSetting, BarometerSetting, CPRFormat,
    CrossLink, Emergency, FlightStatus, HeadingSetting, ReplyInformation, SensitivityLevel,
    SourceIntegrityLevel, SourceIntegrityLevelSupplement, SurveillanceStatus, VerticalRate,
    VerticalRateSource, VerticalStatus,
};

verus! {

/// `out_bits` where every bit of `in_bit` is set in `x`, else nothing.
pub open spec fn pick(x: u16, in_bit: u16, out_bits: u16) -> u16 {
    if x & in_bit == in_bit {
        out_bits
    } else {
        0
    }
}

/// The ID permutation: the 13-bit identity field (C1 A1 C2 A2 C4 A4 _ B1 D1
/// B2 D2 B4 D4) rearranged so that each of the digits A, B, C, D of the
/// squawk takes one hex nibble, A the highest.
pub open spec fn ident_of(code: u16) -> u16 {
    pick(code, 0x1000, 0x0010) | pick(code, 0x0800, 0x1000) | pick(code, 0x0400, 0x0020) | pick(
        code,
        0x0200,
        0x2000,
    ) | pick(code, 0x0100, 0x0040) | pick(code, 0x0080, 0x4000) | pick(code, 0x0020, 0x0100)
        | pick(code, 0x0010, 0x0001) | pick(code, 0x0008, 0x0200) | pick(code, 0x0004, 0x0002)
        | pick(code, 0x0002, 0x0400) | pick(code, 0x0001, 0x0004)
}

/// The inverse of the ID permutation: the identity field that carries a squawk.
pub open spec fn id_encoding_of(squawk: u16) -> u16 {
    pick(squawk, 0x0010, 0x1000) | pick(squawk, 0x1000, 0x0800) | pick(squawk, 0x0020, 0x0400)
        | pick(squawk, 0x2000, 0x0200) | pick(squawk, 0x0040, 0x0100) | pick(
        squawk,
        0x4000,
        0x0080,
    ) | pick(squawk, 0x0100, 0x0020) | pick(squawk, 0x0001, 0x0010) | pick(squawk, 0x0200, 0x0008)
        | pick(squawk, 0x0002, 0x0004) | pick(squawk, 0x0400, 0x0002) | pick(
        squawk,
        0x0004,
        0x0001,
    )
}

/// A squawk: four octal digits, one per hex nibble.
pub open spec fn is_squawk(s: u16) -> bool {
    s & 0x8888 == 0
}

fn pick_bits(x: u16, in_bit: u16, out_bits: u16) -> (r: u16)
    ensures
        r == pick(x, in_bit, out_bits),
{
    if x & in_bit == in_bit {
        out_bits
    } else {
        0
    }
}

/// Decodes a 13-bit identity field into its squawk.
pub fn ident(id: u16) -> (r: u16)
    ensures
        r == ident_of(id),
        is_squawk(r),
{
    let r = pick_bits(id, 0x1000, 0x0010) | pick_bits(id, 0x0800, 0x1000) | pick_bits(
        id,
        0x0400,
        0x0020,
    ) | pick_bits(id, 0x0200, 0x2000) | pick_bits(id, 0x0100, 0x0040) | pick_bits(
        id,
        0x0080,
        0x4000,
    ) | pick_bits(id, 0x0020, 0x0100) | pick_bits(id, 0x0010, 0x0001) | pick_bits(
        id,
        0x0008,
        0x0200,
    ) | pick_bits(id, 0x0004, 0x0002) | pick_bits(id, 0x0002, 0x0400) | pick_bits(
        id,
        0x0001,
        0x0004,
    );
    assert(ident_of(id) & 0x8888 == 0) by (bit_vector);
    r
}

/// Encodes a squawk as the identity field that carries it.
pub fn encode_id(squawk: u16) -> (r: u16)
    ensures
        r == id_encoding_of(squawk),
        r < 0x2000,
        r & 0x0040 == 0,
{
    let r = pick_bits(squawk, 0x0010, 0x1000) | pick_bits(squawk, 0x1000, 0x0800) | pick_bits(
        squawk,
        0x0020,
        0x0400,
    ) | pick_bits(squawk, 0x2000, 0x0200) | pick_bits(squawk, 0x0040, 0x0100) | pick_bits(
        squawk,
        0x4000,
        0x0080,
    ) | pick_bits(squawk, 0x0100, 0x0020) | pick_bits(squawk, 0x0001, 0x0010) | pick_bits(
        squawk,
        0x0200,
        0x0008,
    ) | pick_bits(squawk, 0x0002, 0x0004) | pick_bits(squawk, 0x0400, 0x0002) | pick_bits(
        squawk,
        0x0004,
        0x0001,
    );
    assert(id_encoding_of(squawk) < 0x2000 && id_encoding_of(squawk) & 0x0040 == 0)
        by (bit_vector);
    r
}

/// Decoding the identity field that carries a squawk gives that squawk back.
pub proof fn lemma_ident_round_trip(s: u16)
    requires
        s <= 0x7777,
        is_squawk(s),
    ensures
        ident_of(id_encoding_of(s)) == s,
{
    assert(s & 0x8888 == 0 ==> ident_of(id_encoding_of(s)) == s) by (bit_vector);
}

/// The 11-bit value of a 25-foot altitude code: bits 12..7, 5 and 3..0.
pub open spec fn q_value(ac: u16) -> u16 {
    ((ac & 0x1f80) >> 2) | ((ac & 0x20) >> 1) | (ac & 0xf)
}

/// The 12-bit Gillham index of an altitude field after the ID permutation.
pub open spec fn gillham_index(mode_a: u16) -> u16 {
    (mode_a & 0x7) | ((mode_a & 0x70) >> 1) | ((mode_a & 0x700) >> 2) | ((mode_a & 0x7000) >> 3)
}

/// The "ones" digit of a Gillham index, before its reflection.
pub open spec fn ones_of(index: u16) -> u16 {
    pick(index, 0x10, 0x7) ^ pick(index, 0x20, 0x3) ^ pick(index, 0x40, 0x1)
}

/// The "fives" count of a Gillham index.
pub open spec fn fives_of(index: u16) -> u16 {
    pick(index, 0x0002, 0xff) ^ pick(index, 0x0004, 0x7f) ^ pick(index, 0x1000, 0x3f) ^ pick(
        index,
        0x2000,
        0x1f,
    ) ^ pick(index, 0x4000, 0x0f) ^ pick(index, 0x0100, 0x07) ^ pick(index, 0x0200, 0x03)
        ^ pick(index, 0x0400, 0x01)
}

/// An altitude field with the Q bit clear, in Gillham code.
pub open spec fn gillham_altitude(ac: u16) -> Altitude {
    let index = gillham_index(ident_of(ac));
    if index & 0x8889 != 0 || index & 0xf0 == 0 {
        Altitude::Invalid
    } else {
        let fives = fives_of(index) as int;
        let ones = if fives_of(index) & 1 == 1 {
            6 - ones_of(index) as int
        } else {
            ones_of(index) as int
        };
        Altitude::Feet((fives * 5 + ones - 13) as i32)
    }
}

/// The altitude that a 13-bit AC field encodes.
pub open spec fn altitude_of(ac: u16) -> Altitude {
    if ac == 0 {
        Altitude::Invalid
    } else if ac & 0x40 != 0 {
        Altitude::Meters(0)
    } else if ac & 0x10 != 0 {
        Altitude::Feet((q_value(ac) as int * 25 - 1000) as i32)
    } else {
        gillham_altitude(ac)
    }
}

/// Decodes an AC field: zero is invalid, the M bit gives an undecoded metric
/// altitude, the Q bit a 25-foot code, and otherwise Gillham code.
pub fn altitude_code(ac: u16) -> (r: Altitude)
    ensures
        r == altitude_of(ac),
{
    if ac == 0 {
        return Altitude::Invalid;
    }
    if ac & 0x40 != 0 {
        return Altitude::Meters(0);
    }
    if ac & 0x10 != 0 {
        let q = ((ac & 0x1f80) >> 2) | ((ac & 0x20) >> 1) | (ac & 0xf);
        assert(q_value(ac) <= 0x7ff) by (bit_vector);
        return Altitude::Feet(q as i32 * 25 - 1000);
    }
    let mode_a = ident(ac);
    let index = (mode_a & 0x7) | ((mode_a & 0x70) >> 1) | ((mode_a & 0x700) >> 2) | ((mode_a
        & 0x7000) >> 3);
    if index & 0x8889 != 0 || index & 0xf0 == 0 {
        return Altitude::Invalid;
    }
    let ones = pick_bits(index, 0x10, 0x7) ^ pick_bits(index, 0x20, 0x3) ^ pick_bits(
        index,
        0x40,
        0x1,
    );
    let fives = pick_bits(index, 0x0002, 0xff) ^ pick_bits(index, 0x0004, 0x7f) ^ pick_bits(
        index,
        0x1000,
        0x3f,
    ) ^ pick_bits(index, 0x2000, 0x1f) ^ pick_bits(index, 0x4000, 0x0f) ^ pick_bits(
        index,
        0x0100,
        0x07,
    ) ^ pick_bits(index, 0x0200, 0x03) ^ pick_bits(index, 0x0400, 0x01);
    assert(ones_of(index) <= 7 && fives_of(index) <= 0xff) by (bit_vector);
    let ones: i32 = if fives & 1 == 1 {
        6 - ones as i32
    } else {
        ones as i32
    };
    Altitude::Feet(fives as i32 * 5 + ones - 13)
}

/// With the Q bit set, one step of the 11-bit code is 25 feet.
pub proof fn lemma_altitude_q_step(a: u16, b: u16)
    requires
        a & 0x40 == 0,
        a & 0x10 != 0,
        b & 0x40 == 0,
        b & 0x10 != 0,
        q_value(b) == q_value(a) + 1,
    ensures
        altitude_of(a) is Feet,
        altitude_of(b) is Feet,
        altitude_of(b)->Feet_0 == altitude_of(a)->Feet_0 + 25,
{
    assert(a & 0x10 != 0 ==> a != 0) by (bit_vector);
    assert(b & 0x10 != 0 ==> b != 0) by (bit_vector);
    assert(q_value(a) <= 0x7ff && q_value(b) <= 0x7ff) by (bit_vector);
}

pub open spec fn flight_status_of(fs: u8) -> Result<FlightStatus, DecodeError> {
    match fs {
        0 => Ok(FlightStatus { alert: false, spi: false, status: VerticalStatus::Airborne }),
        1 => Ok(FlightStatus { alert: false, spi: false, status: VerticalStatus::Ground }),
        2 => Ok(FlightStatus { alert: true, spi: false, status: VerticalStatus::Airborne }),
        3 => Ok(FlightStatus { alert: true, spi: false, status: VerticalStatus::Ground }),
        4 => Ok(FlightStatus { alert: true, spi: true, status: VerticalStatus::Either }),
        5 => Ok(FlightStatus { alert: false, spi: true, status: VerticalStatus::Either }),
        _ => Err(DecodeError::Reserved(fs as u64)),
    }
}

/// Decodes the 3-bit FS field; 6 is reserved and 7 unassigned.
pub fn flight_status(fs: u8) -> (r: Result<FlightStatus, DecodeError>)
    ensures
        r == flight_status_of(fs),
{
    match fs {
        0 => Ok(FlightStatus { alert: false, spi: false, status: VerticalStatus::Airborne }),
        1 => Ok(FlightStatus { alert: false, spi: false, status: VerticalStatus::Ground }),
        2 => Ok(FlightStatus { alert: true, spi: false, status: VerticalStatus::Airborne }),
        3 => Ok(FlightStatus { alert: true, spi: false, status: VerticalStatus::Ground }),
        4 => Ok(FlightStatus { alert: true, spi: true, status: VerticalStatus::Either }),
        5 => Ok(FlightStatus { alert: false, spi: true, status: VerticalStatus::Either }),
        _ => Err(DecodeError::Reserved(fs as u64)),
    }
}

pub open spec fn vertical_status_of(vs: u8) -> VerticalStatus {
    if vs == 0 {
        VerticalStatus::Either
    } else {
        VerticalStatus::Ground
    }
}

/// Decodes the 1-bit VS field.
pub fn vertical_status(vs: u8) -> (r: VerticalStatus)
    requires
        vs <= 1,
    ensures
        r == vertical_status_of(vs),
{
    if vs == 0 {
        VerticalStatus::Either
    } else {
        VerticalStatus::Ground
    }
}

pub open spec fn cross_link_of(cc: u8) -> CrossLink {
    if cc == 0 {
        CrossLink::Unsupported
    } else {
        CrossLink::Supported
    }
}

/// Decodes the 1-bit CC field.
pub fn cross_link(cc: u8) -> (r: CrossLink)
    requires
        cc <= 1,
    ensures
        r == cross_link_of(cc),
{
    if cc == 0 {
        CrossLink::Unsupported
    } else {
        CrossLink::Supported
    }
}

pub open spec fn cpr_format_of(f: u8) -> CPRFormat {
    if f == 0 {
        CPRFormat::Even
    } else {
        CPRFormat::Odd
    }
}

/// Decodes the 1-bit CPR format flag.
pub fn cpr_format(f: u8) -> (r: CPRFormat)
    requires
        f <= 1,
    ensures
        r == cpr_format_of(f),
{
    if f == 0 {
        CPRFormat::Even
    } else {
        CPRFormat::Odd
    }
}

pub open spec fn surveillance_status_of(ss: u8) -> SurveillanceStatus {
    match ss {
        0 => SurveillanceStatus::NoCondition,
        1 => SurveillanceStatus::PermanentAlert,
        2 => SurveillanceStatus::TemporaryAlert,
        _ => SurveillanceStatus::SPICondition,
    }
}

/// Decodes the 2-bit surveillance status.
pub fn surveillance_status(ss: u8) -> (r: SurveillanceStatus)
    requires
        ss <= 3,
    ensures
        r == surveillance_status_of(ss),
{
    match ss {
        0 => SurveillanceStatus::NoCondition,
        1 => SurveillanceStatus::PermanentAlert,
        2 => SurveillanceStatus::TemporaryAlert,
        _ => SurveillanceStatus::SPICondition,
    }
}

pub open spec fn sensitivity_level_of(sl: u8) -> SensitivityLevel {
    if sl == 0 {
        SensitivityLevel::Inoperative
    } else {
        SensitivityLevel::Operative(sl)
    }
}

/// Decodes the 3-bit SL field.
pub fn sensitivity_level(sl: u8) -> (r: SensitivityLevel)
    requires
        sl <= 7,
    ensures
        r == sensitivity_level_of(sl),
{
    if sl == 0 {
        SensitivityLevel::Inoperative
    } else {
        SensitivityLevel::Operative(sl)
    }
}

pub open spec fn reply_information_of(ri: u8) -> ReplyInformation {
    match ri {
        0 => ReplyInformation::Inoperative,
        2 => ReplyInformation::ACASInhibited,
        3 => ReplyInformation::ACASVerticalOnly,
        4 => ReplyInformation::ACASVerticalAndHorizontal,
        8 => ReplyInformation::NoMaximumAirspeed,
        9 => ReplyInformation::MaximumAirspeedUnder(75),
        10 => ReplyInformation::MaximumAirspeedBetween(75, 150),
        11 => ReplyInformation::MaximumAirspeedBetween(150, 300),
        12 => ReplyInformation::MaximumAirspeedBetween(300, 600),
        13 => ReplyInformation::MaximumAirspeedBetween(600, 1200),
        14 => ReplyInformation::MaximumAirspeedOver(1200),
        _ => ReplyInformation::Unsupported(ri),
    }
}

/// Decodes the 4-bit RI field: ACAS states, airspeed bands in knots, and
/// anything else carried as its raw value.
pub fn reply_information(ri: u8) -> (r: ReplyInformation)
    ensures
        r == reply_information_of(ri),
        r matches ReplyInformation::MaximumAirspeedBetween(lo, hi) ==> lo < hi,
{
    match ri {
        0 => ReplyInformation::Inoperative,
        2 => ReplyInformation::ACASInhibited,
        3 => ReplyInformation::ACASVerticalOnly,
        4 => ReplyInformation::ACASVerticalAndHorizontal,
        8 => ReplyInformation::NoMaximumAirspeed,
        9 => ReplyInformation::MaximumAirspeedUnder(75),
        10 => ReplyInformation::MaximumAirspeedBetween(75, 150),
        11 => ReplyInformation::MaximumAirspeedBetween(150, 300),
        12 => ReplyInformation::MaximumAirspeedBetween(300, 600),
        13 => ReplyInformation::MaximumAirspeedBetween(600, 1200),
        14 => ReplyInformation::MaximumAirspeedOver(1200),
        _ => ReplyInformation::Unsupported(ri),
    }
}

pub open spec fn vertical_rate_of(source: u8, down: bool, rate: u16) -> VerticalRate {
    if rate == 0 {
        VerticalRate::NoInformation
    } else {
        let magnitude = 64 * (rate as int - 1);
        let fpm = (if down {
            -magnitude
        } else {
            magnitude
        }) as i32;
        if source == 0 {
            VerticalRate::FeetPerMinute(VerticalRateSource::GNSS(fpm))
        } else {
            VerticalRate::FeetPerMinute(VerticalRateSource::Barometer(fpm))
        }
    }
}

/// Decodes a vertical rate block: source bit, sign bit (set for down) and a
/// 9-bit magnitude in steps of 64 ft/min, zero meaning no information.
pub fn vertical_rate(source: u8, down: bool, rate: u16) -> (r: VerticalRate)
    requires
        source <= 1,
        rate < 512,
    ensures
        r == vertical_rate_of(source, down, rate),
{
    if rate == 0 {
        return VerticalRate::NoInformation;
    }
    let magnitude: i32 = 64 * (rate as i32 - 1);
    let fpm: i32 = if down {
        -magnitude
    } else {
        magnitude
    };
    if source == 0 {
        VerticalRate::FeetPerMinute(VerticalRateSource::GNSS(fpm))
    } else {
        VerticalRate::FeetPerMinute(VerticalRateSource::Barometer(fpm))
    }
}

pub open spec fn altitude_difference_of(below: bool, difference: u8) -> AltitudeDifference {
    if difference == 0 {
        AltitudeDifference::NoInformation
    } else {
        let feet = 25 * difference as int;
        AltitudeDifference::Feet(
            (if below {
                -feet
            } else {
                feet
            }) as i16,
        )
    }
}

/// Decodes an altitude difference block: sign bit (set for below) and a
/// 7-bit magnitude in steps of 25 ft, zero meaning no information.
pub fn altitude_difference(below: bool, difference: u8) -> (r: AltitudeDifference)
    requires
        difference < 128,
    ensures
        r == altitude_difference_of(below, difference),
{
    if difference == 0 {
        return AltitudeDifference::NoInformation;
    }
    let feet: i16 = 25 * difference as i16;
    if below {
        AltitudeDifference::Feet(-feet)
    } else {
        AltitudeDifference::Feet(feet)
    }
}

pub open spec fn barometer_setting_of(raw: u16) -> BarometerSetting {
    if raw == 0 {
        BarometerSetting::NotSet
    } else {
        BarometerSetting::MilliBarTenths((8000 + 8 * (raw - 1)) as u16)
    }
}

/// Decodes the 9-bit barometric pressure setting: 800 mb plus 0.8 mb per
/// step above one, zero meaning not set.
pub fn barometer_setting(raw: u16) -> (r: BarometerSetting)
    requires
        raw < 512,
    ensures
        r == barometer_setting_of(raw),
{
    if raw == 0 {
        BarometerSetting::NotSet
    } else {
        BarometerSetting::MilliBarTenths(8000 + 8 * (raw - 1))
    }
}

pub open spec fn altitude_setting_of(raw: u32) -> AltitudeSetting {
    if raw == 0 {
        AltitudeSetting::NotSet
    } else {
        AltitudeSetting::Feet((raw * 32) as u32)
    }
}

/// Decodes the 10-bit selected altitude in steps of 32 ft, zero meaning not set.
pub fn altitude_setting(raw: u32) -> (r: AltitudeSetting)
    requires
        raw < 1024,
    ensures
        r == altitude_setting_of(raw),
{
    if raw == 0 {
        AltitudeSetting::NotSet
    } else {
        AltitudeSetting::Feet(raw * 32)
    }
}

pub open spec fn heading_setting_of(valid: u8, raw: u16) -> HeadingSetting {
    if valid == 0 {
        HeadingSetting::NotSet
    } else {
        HeadingSetting::MagneticOrTrue(raw)
    }
}

/// Decodes the selected heading: a status bit and a 9-bit angle.
pub fn heading_setting(valid: u8, raw: u16) -> (r: HeadingSetting)
    requires
        valid <= 1,
    ensures
        r == heading_setting_of(valid, raw),
{
    if valid == 0 {
        HeadingSetting::NotSet
    } else {
        HeadingSetting::MagneticOrTrue(raw)
    }
}

pub open spec fn sil_of(sil: u8) -> SourceIntegrityLevel {
    match sil {
        0 => SourceIntegrityLevel::Unknown,
        1 => SourceIntegrityLevel::PerThousand,
        2 => SourceIntegrityLevel::PerHundredThousand,
        _ => SourceIntegrityLevel::PerTenMillion,
    }
}

/// Decodes the 2-bit source integrity level.
pub fn sil(level: u8) -> (r: SourceIntegrityLevel)
    requires
        level <= 3,
    ensures
        r == sil_of(level),
{
    match level {
        0 => SourceIntegrityLevel::Unknown,
        1 => SourceIntegrityLevel::PerThousand,
        2 => SourceIntegrityLevel::PerHundredThousand,
        _ => SourceIntegrityLevel::PerTenMillion,
    }
}

pub open spec fn sil_supplement_of(s: u8) -> SourceIntegrityLevelSupplement {
    if s == 0 {
        SourceIntegrityLevelSupplement::PerHour
    } else {
        SourceIntegrityLevelSupplement::PerSample
    }
}

/// Decodes the 1-bit source integrity level supplement.
pub fn sil_supplement(s: u8) -> (r: SourceIntegrityLevelSupplement)
    requires
        s <= 1,
    ensures
        r == sil_supplement_of(s),
{
    if s == 0 {
        SourceIntegrityLevelSupplement::PerHour
    } else {
        SourceIntegrityLevelSupplement::PerSample
    }
}

/// The character of the call-sign alphabet for a 6-bit group, if any.
pub open spec fn call_sign_char_of(c: u8) -> Option<char> {
    if 1 <= c <= 26 {
        Some((c + 64) as char)
    } else if c == 32 {
        Some(' ')
    } else if 48 <= c <= 57 {
        Some(c as char)
    } else {
        None
    }
}

/// A character of the call-sign alphabet: `A`..`Z`, `0`..`9` or space.
pub open spec fn is_call_sign_char(ch: char) -> bool {
    ('A' <= ch && ch <= 'Z') || ('0' <= ch && ch <= '9') || ch == ' '
}

/// Decodes one 6-bit call-sign group.
pub fn call_sign_character(c: u8) -> (r: Result<char, DecodeError>)
    ensures
        call_sign_char_of(c) is Some ==> r == Ok::<char, DecodeError>(
            call_sign_char_of(c)->Some_0,
        ),
        call_sign_char_of(c) is None ==> r == Err::<char, DecodeError>(
            DecodeError::InvalidCallSignCharacter(c),
        ),
        r is Ok ==> is_call_sign_char(r->Ok_0),
{
    if 1 <= c && c <= 26 {
        Ok((c + 64) as char)
    } else if c == 32 {
        Ok(' ')
    } else if 48 <= c && c <= 57 {
        Ok(c as char)
    } else {
        Err(DecodeError::InvalidCallSignCharacter(c))
    }
}

pub open spec fn aircraft_category_of(type_code: u8, category: u8) -> Result<
    AircraftCategory,
    DecodeError,
> {
    if type_code < 2 || type_code > 4 {
        Err(DecodeError::Reserved(type_code as u64))
    } else if category == 0 {
        Ok(AircraftCategory::NoCategory)
    } else if type_code == 2 {
        match category {
            1 => Ok(AircraftCategory::SurfaceEmergencyVehicle),
            3 => Ok(AircraftCategory::SurfaceServiceVehicle),
            2 => Err(DecodeError::Reserved(category as u64)),
            _ => Ok(AircraftCategory::GroundObstruction),
        }
    } else if type_code == 3 {
        match category {
            1 => Ok(AircraftCategory::Glider),
            2 => Ok(AircraftCategory::LighterThanAir),
            3 => Ok(AircraftCategory::Parachutist),
            4 => Ok(AircraftCategory::Ultralight),
            5 => Err(DecodeError::Reserved(category as u64)),
            6 => Ok(AircraftCategory::UnmannedAerialVehicle),
            _ => Ok(AircraftCategory::SpaceVehicle),
        }
    } else {
        match category {
            1 => Ok(AircraftCategory::Light),
            2 => Ok(AircraftCategory::Medium1),
            3 => Ok(AircraftCategory::Medium2),
            4 => Ok(AircraftCategory::HighVortexAircraft),
            5 => Ok(AircraftCategory::Heavy),
            6 => Ok(AircraftCategory::HighPerformance),
            _ => Ok(AircraftCategory::Rotorcraft),
        }
    }
}

/// Decodes the category of an identification message from its type code
/// (2, 3 or 4; 1 is reserved) and its 3-bit category; reserved cells are errors.
pub fn aircraft_category(type_code: u8, category: u8) -> (r: Result<
    AircraftCategory,
    DecodeError,
>)
    requires
        category <= 7,
    ensures
        r == aircraft_category_of(type_code, category),
{
    if type_code < 2 || type_code > 4 {
        return Err(DecodeError::Reserved(type_code as u64));
    }
    if category == 0 {
        return Ok(AircraftCategory::NoCategory);
    }
    if type_code == 2 {
        match category {
            1 => Ok(AircraftCategory::SurfaceEmergencyVehicle),
            3 => Ok(AircraftCategory::SurfaceServiceVehicle),
            2 => Err(DecodeError::Reserved(category as u64)),
            _ => Ok(AircraftCategory::GroundObstruction),
        }
    } else if type_code == 3 {
        match category {
            1 => Ok(AircraftCategory::Glider),
            2 => Ok(AircraftCategory::LighterThanAir),
            3 => Ok(AircraftCategory::Parachutist),
            4 => Ok(AircraftCategory::Ultralight),
            5 => Err(DecodeError::Reserved(category as u64)),
            6 => Ok(AircraftCategory::UnmannedAerialVehicle),
            _ => Ok(AircraftCategory::SpaceVehicle),
        }
    } else {
        match category {
            1 => Ok(AircraftCategory::Light),
            2 => Ok(AircraftCategory::Medium1),
            3 => Ok(AircraftCategory::Medium2),
            4 => Ok(AircraftCategory::HighVortexAircraft),
            5 => Ok(AircraftCategory::Heavy),
            6 => Ok(AircraftCategory::HighPerformance),
            _ => Ok(AircraftCategory::Rotorcraft),
        }
    }
}

pub open spec fn emergency_of(sub_type: u8, emergency: u8) -> Result<Emergency, DecodeError> {
    if sub_type == 0 {
        Ok(Emergency::NoInformation)
    } else if sub_type == 1 {
        match emergency {
            0 => Ok(Emergency::NoEmergency),
            1 => Ok(Emergency::General),
            2 => Ok(Emergency::Lifeguard),
            3 => Ok(Emergency::MinimumFuel),
            4 => Ok(Emergency::NoCommunications),
            5 => Ok(Emergency::UnlawfulInterference),
            6 => Ok(Emergency::Downed),
            _ => Err(DecodeError::Reserved(emergency as u64)),
        }
    } else {
        Err(DecodeError::Reserved(sub_type as u64))
    }
}

/// Decodes the emergency state of an aircraft status message: sub-type 0
/// carries none, sub-type 1 carries one of seven states, the rest are reserved.
pub fn emergency(sub_type: u8, code: u8) -> (r: Result<Emergency, DecodeError>)
    ensures
        r == emergency_of(sub_type, code),
{
    if sub_type == 0 {
        Ok(Emergency::NoInformation)
    } else if sub_type == 1 {
        match code {
            0 => Ok(Emergency::NoEmergency),
            1 => Ok(Emergency::General),
            2 => Ok(Emergency::Lifeguard),
            3 => Ok(Emergency::MinimumFuel),
            4 => Ok(Emergency::NoCommunications),
            5 => Ok(Emergency::UnlawfulInterference),
            6 => Ok(Emergency::Downed),
            _ => Err(DecodeError::Reserved(code as u64)),
        }
    } else {
        Err(DecodeError::Reserved(sub_type as u64))
    }
}

} // verus!

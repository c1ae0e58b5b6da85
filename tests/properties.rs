use std::time::Duration;

use adsb_exporter::bits::BitReader;
use adsb_exporter::configuration::{millis_to_duration, secs_to_duration};
use adsb_exporter::counters::counter_increment;
use adsb_exporter::error::DecodeError;
use adsb_exporter::fields::{
    aircraft_category, altitude_code, altitude_difference, altitude_setting, barometer_setting,
    call_sign_character, encode_id, flight_status, heading_setting, ident, reply_information,
    vertical_rate,
};
use adsb_exporter::framer::{decode_frame, Codec, Frame, Parser};
use adsb_exporter::message::{
    ACASSurveillanceReply, ADSBMessage, AircraftCategory, AircraftStatus, Altitude,
    AltitudeDifference, AltitudeSetting, BarometerSetting, CrossLink, Data, Emergency,
    ExtendedSquitter, HeadingSetting, ReplyInformation, SensitivityLevel, TargetState0,
    TargetStateType, VerticalRate, VerticalRateSource, VerticalStatus,
};
use adsb_exporter::parser::{mode_s, parse_df_17, parse_df_4, parse_df_5};
use adsb_exporter::text::address_announced;

const LONG_RECORD: [u8; 23] = [
    0x1a, 0x33, 0x0b, 0x5d, 0xe6, 0x66, 0x3f, 0x2e, 0x1e, 0x8d, 0xa6, 0xee, 0x47, 0x23, 0x05,
    0x30, 0x76, 0xd7, 0x48, 0x20, 0x54, 0x47, 0x7b,
];

fn identification_message() -> Data {
    Data::ExtendedSquitter(ExtendedSquitter {
        capability: 5,
        icao: "A6EE47".to_string(),
        message: ADSBMessage::AircraftIdentification(
            adsb_exporter::message::AircraftIdentification {
                category: AircraftCategory::Medium2,
                call_sign: "ASA654  ".to_string(),
            },
        ),
    })
}

#[test]
fn bit_reader_reads_across_bytes() {
    let bytes = [0b1010_1100u8, 0b0101_0011];
    let mut r = BitReader::new(&bytes);
    assert_eq!(Ok(0b101), r.take(3));
    assert_eq!(Ok(0b0_1100_0101), r.take(9));
    assert_eq!(4, r.remaining());
    assert_eq!(Err(DecodeError::InsufficientInput), r.take(5));
    assert_eq!(12, r.position());
    assert_eq!(Ok(()), r.skip(4));
    assert_eq!(0, r.remaining());
}

#[test]
fn short_replies_read_32_bits_and_long_ones_88() {
    // A DF-4 reply needs its first four bytes, a DF-17 reply its first eleven.
    let df4 = [0x20, 0x00, 0x03];
    assert_eq!(Data::Unsupported(df4.to_vec()), parse_df_4(&df4));
    let df17 = [0x8d, 0xa6, 0xee, 0x47, 0x23, 0x05, 0x30, 0x76, 0xd7, 0x48];
    assert_eq!(Data::Unsupported(df17.to_vec()), parse_df_17(&df17));
    let mut full = LONG_RECORD[9..20].to_vec();
    assert_eq!(identification_message(), parse_df_17(&full));
    full.extend_from_slice(&[0x54, 0x47, 0x7b]);
    assert_eq!(identification_message(), mode_s(&full));
}

#[test]
fn squawk_round_trip() {
    for a in 0..8u16 {
        for b in 0..8u16 {
            for c in 0..8u16 {
                for d in 0..8u16 {
                    let squawk = (a << 12) | (b << 8) | (c << 4) | d;
                    assert_eq!(squawk, ident(encode_id(squawk)));
                }
            }
        }
    }
    assert_eq!(0x3050, ident(encode_id(0x3050)));
}

#[test]
fn q_bit_altitude_steps_by_25_feet() {
    // 0x0397 has the 11-bit code 231; 0x0398 sets bit 3 and clears bits 2..0, code 232.
    assert_eq!(Altitude::Feet(4775), altitude_code(0x0397));
    assert_eq!(Altitude::Feet(4800), altitude_code(0x0398));
    // Crossing from bit 3..0 into bit 5: code 15 -> 16.
    assert_eq!(Altitude::Feet(15 * 25 - 1000), altitude_code(0x001f));
    assert_eq!(Altitude::Feet(16 * 25 - 1000), altitude_code(0x0030));
}

#[test]
fn altitude_code_special_values() {
    assert_eq!(Altitude::Invalid, altitude_code(0));
    assert_eq!(Altitude::Meters(0), altitude_code(0x0040));
    assert_eq!(Altitude::Feet(-12), altitude_code(0x0020));
    assert_eq!(Altitude::Feet(627), altitude_code(0x0021));
    assert_eq!(Altitude::Invalid, altitude_code(0x0001));
}

#[test]
fn icao_is_six_upper_case_hex_digits() {
    assert_eq!("000000", address_announced(0));
    assert_eq!("000ABC", address_announced(0xabc));
    assert_eq!("A6EE47", address_announced(0xa6ee47));
    assert_eq!("FFFFFF", address_announced(0xff_ffff));
}

#[test]
fn call_sign_characters() {
    assert_eq!(Ok('A'), call_sign_character(1));
    assert_eq!(Ok('Z'), call_sign_character(26));
    assert_eq!(Ok(' '), call_sign_character(32));
    assert_eq!(Ok('0'), call_sign_character(48));
    assert_eq!(Ok('9'), call_sign_character(57));
    assert_eq!(Err(DecodeError::InvalidCallSignCharacter(0)), call_sign_character(0));
    assert_eq!(Err(DecodeError::InvalidCallSignCharacter(27)), call_sign_character(27));
}

#[test]
fn call_sign_has_eight_characters_from_the_alphabet() {
    match parse_df_17(&LONG_RECORD[9..20]) {
        Data::ExtendedSquitter(e) => match e.message {
            ADSBMessage::AircraftIdentification(i) => {
                assert_eq!(8, i.call_sign.chars().count());
                assert!(i
                    .call_sign
                    .chars()
                    .all(|c| c.is_ascii_uppercase() || c.is_ascii_digit() || c == ' '));
            }
            other => panic!("unexpected {:?}", other),
        },
        other => panic!("unexpected {:?}", other),
    }
}

#[test]
fn invalid_call_sign_character_leaves_message_unsupported() {
    // The first call-sign group is 0: outside the alphabet.
    let input = [0x8d, 0xa6, 0xee, 0x47, 0x23, 0x00, 0x30, 0x76, 0xd7, 0x48, 0x20];
    let expected = Data::ExtendedSquitter(ExtendedSquitter {
        capability: 5,
        icao: "A6EE47".to_string(),
        message: ADSBMessage::Unsupported(input[4..].to_vec()),
    });
    assert_eq!(expected, parse_df_17(&input));
}

#[test]
fn reserved_type_code_one_is_unsupported() {
    let input = [0x8d, 0xa6, 0xee, 0x47, 0x0b, 0x05, 0x30, 0x76, 0xd7, 0x48, 0x20];
    let expected = Data::ExtendedSquitter(ExtendedSquitter {
        capability: 5,
        icao: "A6EE47".to_string(),
        message: ADSBMessage::Unsupported(input[4..].to_vec()),
    });
    assert_eq!(expected, parse_df_17(&input));
}

#[test]
fn reserved_flight_status_is_unsupported() {
    // FS = 6 and FS = 7.
    let six = [0x26, 0x00, 0x03, 0x97, 0xc2, 0x6e, 0x02];
    assert_eq!(Data::Unsupported(six.to_vec()), parse_df_4(&six));
    let seven = [0x2f, 0xa1, 0x1b, 0x00, 0x44, 0xe9, 0x57];
    assert_eq!(Data::Unsupported(seven.to_vec()), parse_df_5(&seven));
    assert_eq!(Err(DecodeError::Reserved(6)), flight_status(6));
    assert_eq!(Err(DecodeError::Reserved(7)), flight_status(7));
}

#[test]
fn aircraft_category_matrix() {
    assert_eq!(Err(DecodeError::Reserved(1)), aircraft_category(1, 3));
    assert_eq!(Ok(AircraftCategory::NoCategory), aircraft_category(3, 0));
    assert_eq!(Err(DecodeError::Reserved(2)), aircraft_category(2, 2));
    assert_eq!(Err(DecodeError::Reserved(5)), aircraft_category(3, 5));
    assert_eq!(Ok(AircraftCategory::GroundObstruction), aircraft_category(2, 6));
    assert_eq!(Ok(AircraftCategory::Rotorcraft), aircraft_category(4, 7));
}

#[test]
fn reply_information_bands() {
    assert_eq!(ReplyInformation::Inoperative, reply_information(0));
    assert_eq!(ReplyInformation::Unsupported(1), reply_information(1));
    assert_eq!(ReplyInformation::MaximumAirspeedUnder(75), reply_information(9));
    assert_eq!(ReplyInformation::MaximumAirspeedBetween(300, 600), reply_information(12));
    assert_eq!(ReplyInformation::MaximumAirspeedOver(1200), reply_information(14));
    assert_eq!(ReplyInformation::Unsupported(15), reply_information(15));
}

#[test]
fn vertical_blocks() {
    assert_eq!(VerticalRate::NoInformation, vertical_rate(1, true, 0));
    assert_eq!(
        VerticalRate::FeetPerMinute(VerticalRateSource::GNSS(-64 * 20)),
        vertical_rate(0, true, 21)
    );
    assert_eq!(
        VerticalRate::FeetPerMinute(VerticalRateSource::Barometer(64 * 510)),
        vertical_rate(1, false, 511)
    );
    assert_eq!(AltitudeDifference::NoInformation, altitude_difference(false, 0));
    assert_eq!(AltitudeDifference::Feet(-3175), altitude_difference(true, 127));
}

#[test]
fn target_state_settings() {
    assert_eq!(BarometerSetting::NotSet, barometer_setting(0));
    assert_eq!(BarometerSetting::MilliBarTenths(8000), barometer_setting(1));
    assert_eq!(BarometerSetting::MilliBarTenths(12080), barometer_setting(511));
    assert_eq!(AltitudeSetting::NotSet, altitude_setting(0));
    assert_eq!(AltitudeSetting::Feet(1023 * 32), altitude_setting(1023));
    assert_eq!(HeadingSetting::NotSet, heading_setting(0, 100));
    assert_eq!(HeadingSetting::MagneticOrTrue(100), heading_setting(1, 100));
}

#[test]
fn target_state_sub_type_zero_and_reserved() {
    // TC 29 with sub-type 0, then with sub-type 2.
    let zero = [0x8d, 0xa8, 0x2d, 0xfb, 0xe8, 0x38, 0xc8, 0x60, 0x01, 0x5f, 0x88];
    match parse_df_17(&zero) {
        Data::ExtendedSquitter(e) => assert_eq!(
            ADSBMessage::TargetState(TargetStateType::SubType0(TargetState0 {})),
            e.message
        ),
        other => panic!("unexpected {:?}", other),
    }
    let two = [0x8d, 0xa8, 0x2d, 0xfb, 0xec, 0x38, 0xc8, 0x60, 0x01, 0x5f, 0x88];
    match parse_df_17(&two) {
        Data::ExtendedSquitter(e) => {
            assert_eq!(ADSBMessage::Unsupported(two[4..].to_vec()), e.message)
        }
        other => panic!("unexpected {:?}", other),
    }
}

#[test]
fn aircraft_status_sub_types() {
    assert_eq!(
        Ok(AircraftStatus { emergency: Emergency::NoInformation, squawk: 0x1200 }),
        AircraftStatus::new(0, 5, 0x1200)
    );
    assert_eq!(
        Ok(AircraftStatus { emergency: Emergency::Downed, squawk: 0x7700 }),
        AircraftStatus::new(1, 6, 0x7700)
    );
    assert_eq!(Err(DecodeError::Reserved(7)), AircraftStatus::new(1, 7, 0));
    assert_eq!(Err(DecodeError::Reserved(2)), AircraftStatus::new(2, 0, 0));
}

#[test]
fn framer_end_to_end() {
    match decode_frame(&LONG_RECORD) {
        Frame::Ready(message, consumed) => {
            assert_eq!(23, consumed);
            assert_eq!(0x0b5de6663f2e, message.timestamp);
            let ratio = message.signal as f64 / 255.0;
            let level = 10.0 * (ratio * ratio).log10();
            assert!((level - -18.59).abs() < 0.01);
            assert_eq!(identification_message(), message.data);
        }
        other => panic!("unexpected {:?}", other),
    }
}

#[test]
fn framer_resynchronises_and_waits() {
    assert_eq!(Frame::NeedMore, decode_frame(&[]));
    assert_eq!(Frame::NeedMore, decode_frame(&[0x1a]));
    assert_eq!(Frame::Resync(1), decode_frame(&[0x00, 0x1a]));
    assert_eq!(Frame::Resync(1), decode_frame(&[0x1a, 0x34, 0x00]));
    assert_eq!(Frame::NeedMore, decode_frame(&LONG_RECORD[..22]));
    // A sentinel that is not doubled starts a new record.
    let mut broken = LONG_RECORD[..5].to_vec();
    broken.extend_from_slice(&[0x1a, 0x32]);
    assert_eq!(Frame::Resync(5), decode_frame(&broken));
}

#[test]
fn mode_ac_records_stay_undecoded() {
    let record = [0x1a, 0x31, 0, 0, 0, 0, 0, 1, 0x80, 0x12, 0x34];
    match decode_frame(&record) {
        Frame::Ready(message, consumed) => {
            assert_eq!(11, consumed);
            assert_eq!(1, message.timestamp);
            assert_eq!(0x80, message.signal);
            assert_eq!(Data::Unsupported(vec![0x12, 0x34]), message.data);
        }
        other => panic!("unexpected {:?}", other),
    }
}

#[test]
fn doubled_sentinels_decode_as_single_bytes() {
    // The timestamp 0x1a001a1a0000 and the signal 0x1a are each sent doubled.
    let plain_body = [
        0x1a, 0x00, 0x1a, 0x1a, 0x00, 0x00, 0x1a, 0x02, 0x81, 0x83, 0x16, 0xf9, 0x21, 0x89,
    ];
    let mut stuffed = vec![0x1a, 0x32];
    for b in plain_body.iter() {
        stuffed.push(*b);
        if *b == 0x1a {
            stuffed.push(0x1a);
        }
    }
    let expected = Data::ACASSurveillanceReply(ACASSurveillanceReply {
        vertical_status: VerticalStatus::Either,
        cross_link: CrossLink::Supported,
        sensitivity_level: SensitivityLevel::Operative(4),
        reply_information: ReplyInformation::ACASVerticalOnly,
        altitude: Altitude::Feet(3950),
    });
    match decode_frame(&stuffed) {
        Frame::Ready(message, consumed) => {
            assert_eq!(stuffed.len(), consumed);
            assert_eq!(0x1a001a1a0000, message.timestamp);
            assert_eq!(0x1a, message.signal);
            assert_eq!(expected, message.data);
        }
        other => panic!("unexpected {:?}", other),
    }
}

#[test]
fn repeated_decoding_drains_the_buffer() {
    let mut buf = vec![0x00, 0x42];
    buf.extend_from_slice(&LONG_RECORD);
    buf.extend_from_slice(&[0x1a, 0x1a, 0x17]);
    buf.extend_from_slice(&LONG_RECORD);
    buf.extend_from_slice(&LONG_RECORD[..10]);
    let mut codec = Codec::new();
    let mut count = 0;
    while let Some(message) = codec.decode(&mut buf) {
        assert_eq!(identification_message(), message.data);
        count += 1;
    }
    assert_eq!(2, count);
    assert_eq!(LONG_RECORD[..10].to_vec(), buf);
}

#[test]
fn parser_returns_the_bytes_after_the_record() {
    let mut input = vec![0x55];
    input.extend_from_slice(&LONG_RECORD);
    input.extend_from_slice(&[0x1a, 0x32]);
    let parser = Parser::new();
    let (rest, message) = parser.parse(&input).unwrap();
    assert_eq!(&[0x1a, 0x32], rest);
    assert_eq!(identification_message(), message.data);
    assert!(parser.parse(rest).is_none());
}

#[test]
fn durations_from_text() {
    assert_eq!(Ok(Duration::from_millis(150)), millis_to_duration("150"));
    assert_eq!(Ok(Duration::from_secs(30)), secs_to_duration("+30"));
    assert!(millis_to_duration("").is_err());
    assert!(secs_to_duration("3 0").is_err());
    assert!(secs_to_duration("-1").is_err());
    assert!(millis_to_duration("18446744073709551616").is_err());
}

#[test]
fn counter_increments_wrap() {
    assert_eq!(5, counter_increment(15, 10));
    assert_eq!(u64::MAX, counter_increment(9, 10));
    assert_eq!(0, counter_increment(7, 7));
}

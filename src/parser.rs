use vstd::arithmetic::power2::*;
use vstd::prelude::*;
use vstd::slice::slice_to_vec;

use crate::adsb::{adsb_message, me_decodes_to};
use crate::bits::{bits_at, lemma_bits_at_prefix, BitReader};
use crate::error::DecodeError;
use crate::fields::{
    altitude_code, altitude_of, cross_link, cross_link_of, flight_status, flight_status_of, ident,
    ident_of, reply_information, reply_information_of, sensitivity_level, sensitivity_level_of,
    vertical_status, vertical_status_of,
};
use crate::message::{
    ACASCoordinationReply, ACASSurveillanceReply, AllCallReply, AltitudeReply, Data,
    ExtendedSquitter, SurveillanceReply,
};
use crate::text::{address_announced, hex6};

verus! {

/// The 5-bit downlink format that opens a Mode-S payload.
pub open spec fn df_of(s: Seq<u8>) -> nat {
    bits_at(s, 0, 5)
}

/// The downlink formats that are decoded.
pub open spec fn is_supported_df(df: nat) -> bool {
    df == 0 || df == 4 || df == 5 || df == 11 || df == 16 || df == 17
}

/// The length of a Mode-S reply in bits: short below DF 16, long from it.
pub open spec fn frame_bits(df: nat) -> nat {
    if df < 16 {
        56
    } else {
        112
    }
}

/// The bits that the decoder of a format reads, downlink format included.
pub open spec fn parsed_bits(df: nat) -> nat {
    if df == 11 {
        56
    } else if df < 16 {
        32
    } else {
        88
    }
}

/// The trailing bits that the decoder of a format leaves unread: the
/// parity/CRC field, except in DF-11 where the parity is a decoded field.
pub open spec fn unparsed_crc_bits(df: nat) -> nat {
    if df == 11 {
        0
    } else {
        24
    }
}

/// The bytes that hold the fields of a format.
pub open spec fn needed_bytes(df: nat) -> nat {
    parsed_bits(df) / 8
}

/// Each supported format's decoded fields and its unread CRC together make
/// up exactly the length of its reply.
pub proof fn lemma_bit_accounting(df: nat)
    requires
        is_supported_df(df),
    ensures
        parsed_bits(df) + unparsed_crc_bits(df) == frame_bits(df),
        parsed_bits(df) % 8 == 0,
{
}

/// `d` is the payload `s` carried as undecoded bytes.
pub open spec fn unsupported(s: Seq<u8>, d: Data) -> bool {
    d is Unsupported && d->Unsupported_0@ == s
}

pub open spec fn acas_surveillance_of(s: Seq<u8>) -> ACASSurveillanceReply {
    ACASSurveillanceReply {
        vertical_status: vertical_status_of(bits_at(s, 5, 1) as u8),
        cross_link: cross_link_of(bits_at(s, 6, 1) as u8),
        sensitivity_level: sensitivity_level_of(bits_at(s, 8, 3) as u8),
        reply_information: reply_information_of(bits_at(s, 13, 4) as u8),
        altitude: altitude_of(bits_at(s, 19, 13) as u16),
    }
}

pub open spec fn altitude_reply_of(s: Seq<u8>) -> Result<AltitudeReply, DecodeError> {
    match flight_status_of(bits_at(s, 5, 3) as u8) {
        Ok(fs) => Ok(
            AltitudeReply {
                flight_status: fs,
                downlink_request: bits_at(s, 8, 5) as u8,
                utility_message: bits_at(s, 13, 6) as u8,
                altitude: altitude_of(bits_at(s, 19, 13) as u16),
            },
        ),
        Err(e) => Err(e),
    }
}

pub open spec fn surveillance_reply_of(s: Seq<u8>) -> Result<SurveillanceReply, DecodeError> {
    match flight_status_of(bits_at(s, 5, 3) as u8) {
        Ok(fs) => Ok(
            SurveillanceReply {
                flight_status: fs,
                downlink_request: bits_at(s, 8, 5) as u8,
                utility_message: bits_at(s, 13, 6) as u8,
                id: ident_of(bits_at(s, 19, 13) as u16),
            },
        ),
        Err(e) => Err(e),
    }
}

/// DF-0: VS, CC, one spare bit, SL, two spare bits, RI, two spare bits, AC.
pub open spec fn df_0_decodes_to(s: Seq<u8>, d: Data) -> bool {
    if s.len() >= needed_bytes(0) {
        d == Data::ACASSurveillanceReply(acas_surveillance_of(s))
    } else {
        unsupported(s, d)
    }
}

/// DF-4: FS, DR, UM, AC; a reserved FS leaves the reply undecoded.
pub open spec fn df_4_decodes_to(s: Seq<u8>, d: Data) -> bool {
    if s.len() >= needed_bytes(4) && altitude_reply_of(s) is Ok {
        d == Data::AltitudeReply(altitude_reply_of(s)->Ok_0)
    } else {
        unsupported(s, d)
    }
}

/// DF-5: FS, DR, UM, ID; a reserved FS leaves the reply undecoded.
pub open spec fn df_5_decodes_to(s: Seq<u8>, d: Data) -> bool {
    if s.len() >= needed_bytes(5) && surveillance_reply_of(s) is Ok {
        d == Data::SurveillanceReply(surveillance_reply_of(s)->Ok_0)
    } else {
        unsupported(s, d)
    }
}

/// DF-11: CA, AA, PI.
pub open spec fn df_11_decodes_to(s: Seq<u8>, d: Data) -> bool {
    if s.len() >= needed_bytes(11) {
        &&& d is AllCallReply
        &&& d->AllCallReply_0.capability == bits_at(s, 5, 3) as u8
        &&& d->AllCallReply_0.icao@ == hex6(bits_at(s, 8, 24) as u32)
        &&& d->AllCallReply_0.parity == bits_at(s, 32, 24) as u32
    } else {
        unsupported(s, d)
    }
}

/// DF-16: VS, two spare bits, SL, two spare bits, RI, two spare bits, AC, MV.
pub open spec fn df_16_decodes_to(s: Seq<u8>, d: Data) -> bool {
    if s.len() >= needed_bytes(16) {
        let c = d->ACASCoordinationReply_0;
        &&& d is ACASCoordinationReply
        &&& c.vertical_status == vertical_status_of(bits_at(s, 5, 1) as u8)
        &&& c.sensitivity_level == sensitivity_level_of(bits_at(s, 8, 3) as u8)
        &&& c.reply_information == reply_information_of(bits_at(s, 13, 4) as u8)
        &&& c.altitude == altitude_of(bits_at(s, 19, 13) as u16)
        &&& c.vds == bits_at(s, 32, 24) as u32
        &&& c.message@ == s.subrange(4, 11)
    } else {
        unsupported(s, d)
    }
}

/// DF-17: CA, AA, ME.
pub open spec fn df_17_decodes_to(s: Seq<u8>, d: Data) -> bool {
    if s.len() >= needed_bytes(17) {
        let e = d->ExtendedSquitter_0;
        &&& d is ExtendedSquitter
        &&& e.capability == bits_at(s, 5, 3) as u8
        &&& e.icao@ == hex6(bits_at(s, 8, 24) as u32)
        &&& me_decodes_to(s.subrange(4, 11), e.message)
    } else {
        unsupported(s, d)
    }
}

/// What a Mode-S payload decodes to, by its downlink format.
pub open spec fn mode_s_decodes_to(s: Seq<u8>, d: Data) -> bool {
    if s.len() == 0 {
        unsupported(s, d)
    } else {
        let df = df_of(s);
        if df == 0 {
            df_0_decodes_to(s, d)
        } else if df == 4 {
            df_4_decodes_to(s, d)
        } else if df == 5 {
            df_5_decodes_to(s, d)
        } else if df == 11 {
            df_11_decodes_to(s, d)
        } else if df == 16 {
            df_16_decodes_to(s, d)
        } else if df == 17 {
            df_17_decodes_to(s, d)
        } else {
            unsupported(s, d)
        }
    }
}

/// The reader stands after the downlink format, with the fields of format
/// `df` ahead of it.
pub open spec fn after_df(r: BitReader, df: nat) -> bool {
    r.wf() && r.pos() == 5 && r.bytes().len() == needed_bytes(df)
}

/// The reader has consumed exactly the fields of format `df`.
pub open spec fn consumed_df(r: BitReader, s: Seq<u8>, df: nat) -> bool {
    r.wf() && r.bytes() == s && r.pos() == parsed_bits(df)
}

fn read_df_0(r: &mut BitReader) -> (d: ACASSurveillanceReply)
    requires
        after_df(*old(r), 0),
    ensures
        consumed_df(*final(r), old(r).bytes(), 0),
        d == acas_surveillance_of(old(r).bytes()),
{
    proof {
        lemma2_to64();
    }
    let vs = r.read(1) as u8;
    let cc = r.read(1) as u8;
    r.read(1);
    let sl = r.read(3) as u8;
    r.read(2);
    let ri = r.read(4) as u8;
    r.read(2);
    let ac = r.read(13) as u16;
    ACASSurveillanceReply {
        vertical_status: vertical_status(vs),
        cross_link: cross_link(cc),
        sensitivity_level: sensitivity_level(sl),
        reply_information: reply_information(ri),
        altitude: altitude_code(ac),
    }
}

fn read_df_4(r: &mut BitReader) -> (d: Result<AltitudeReply, DecodeError>)
    requires
        after_df(*old(r), 4),
    ensures
        consumed_df(*final(r), old(r).bytes(), 4),
        d == altitude_reply_of(old(r).bytes()),
{
    proof {
        lemma2_to64();
    }
    let fs = r.read(3) as u8;
    let downlink_request = r.read(5) as u8;
    let utility_message = r.read(6) as u8;
    let ac = r.read(13) as u16;
    match flight_status(fs) {
        Ok(flight_status) => Ok(
            AltitudeReply {
                flight_status,
                downlink_request,
                utility_message,
                altitude: altitude_code(ac),
            },
        ),
        Err(e) => Err(e),
    }
}

fn read_df_5(r: &mut BitReader) -> (d: Result<SurveillanceReply, DecodeError>)
    requires
        after_df(*old(r), 5),
    ensures
        consumed_df(*final(r), old(r).bytes(), 5),
        d == surveillance_reply_of(old(r).bytes()),
{
    proof {
        lemma2_to64();
    }
    let fs = r.read(3) as u8;
    let downlink_request = r.read(5) as u8;
    let utility_message = r.read(6) as u8;
    let id = r.read(13) as u16;
    match flight_status(fs) {
        Ok(flight_status) => Ok(
            SurveillanceReply { flight_status, downlink_request, utility_message, id: ident(id) },
        ),
        Err(e) => Err(e),
    }
}

fn read_df_11(r: &mut BitReader) -> (d: AllCallReply)
    requires
        after_df(*old(r), 11),
    ensures
        consumed_df(*final(r), old(r).bytes(), 11),
        d.capability == bits_at(old(r).bytes(), 5, 3) as u8,
        d.icao@ == hex6(bits_at(old(r).bytes(), 8, 24) as u32),
        d.parity == bits_at(old(r).bytes(), 32, 24) as u32,
{
    proof {
        lemma2_to64();
    }
    let capability = r.read(3) as u8;
    let aa = r.read(24) as u32;
    let parity = r.read(24) as u32;
    AllCallReply { capability, icao: address_announced(aa), parity }
}

fn read_df_16(r: &mut BitReader, mv: &[u8]) -> (d: ACASCoordinationReply)
    requires
        after_df(*old(r), 16),
        mv@ == old(r).bytes().subrange(4, 11),
    ensures
        consumed_df(*final(r), old(r).bytes(), 16),
        df_16_decodes_to(old(r).bytes(), Data::ACASCoordinationReply(d)),
{
    proof {
        lemma2_to64();
        lemma2_to64_rest();
    }
    let vs = r.read(1) as u8;
    r.read(2);
    let sl = r.read(3) as u8;
    r.read(2);
    let ri = r.read(4) as u8;
    r.read(2);
    let ac = r.read(13) as u16;
    let vds = r.read(24) as u32;
    r.read(32);
    ACASCoordinationReply {
        vertical_status: vertical_status(vs),
        sensitivity_level: sensitivity_level(sl),
        reply_information: reply_information(ri),
        altitude: altitude_code(ac),
        vds,
        message: slice_to_vec(mv),
    }
}

fn read_df_17(r: &mut BitReader, me: &[u8]) -> (d: ExtendedSquitter)
    requires
        after_df(*old(r), 17),
        me@ == old(r).bytes().subrange(4, 11),
    ensures
        consumed_df(*final(r), old(r).bytes(), 17),
        df_17_decodes_to(old(r).bytes(), Data::ExtendedSquitter(d)),
{
    proof {
        lemma2_to64();
        lemma2_to64_rest();
    }
    let capability = r.read(3) as u8;
    let aa = r.read(24) as u32;
    r.read(56);
    ExtendedSquitter { capability, icao: address_announced(aa), message: adsb_message(me) }
}

/// Decodes a DF-0 (ACAS surveillance) payload; one too short to hold its
/// fields is returned as `Unsupported`.
pub fn parse_df_0(input: &[u8]) -> (d: Data)
    ensures
        df_0_decodes_to(input@, d),
{
    if input.len() < 4 {
        return Data::Unsupported(slice_to_vec(input));
    }
    let head = &input[0..4];
    proof {
        lemma_bits_at_prefix(input@, 4);
    }
    let mut r = BitReader::new(head);
    r.read(5);
    Data::ACASSurveillanceReply(read_df_0(&mut r))
}

/// Decodes a DF-4 (altitude reply) payload; one too short to hold its
/// fields, or with a reserved flight status, is returned as `Unsupported`.
pub fn parse_df_4(input: &[u8]) -> (d: Data)
    ensures
        df_4_decodes_to(input@, d),
{
    if input.len() < 4 {
        return Data::Unsupported(slice_to_vec(input));
    }
    let head = &input[0..4];
    proof {
        lemma_bits_at_prefix(input@, 4);
    }
    let mut r = BitReader::new(head);
    r.read(5);
    match read_df_4(&mut r) {
        Ok(reply) => Data::AltitudeReply(reply),
        Err(_) => Data::Unsupported(slice_to_vec(input)),
    }
}

/// Decodes a DF-5 (surveillance reply) payload; one too short to hold its
/// fields, or with a reserved flight status, is returned as `Unsupported`.
pub fn parse_df_5(input: &[u8]) -> (d: Data)
    ensures
        df_5_decodes_to(input@, d),
{
    if input.len() < 4 {
        return Data::Unsupported(slice_to_vec(input));
    }
    let head = &input[0..4];
    proof {
        lemma_bits_at_prefix(input@, 4);
    }
    let mut r = BitReader::new(head);
    r.read(5);
    match read_df_5(&mut r) {
        Ok(reply) => Data::SurveillanceReply(reply),
        Err(_) => Data::Unsupported(slice_to_vec(input)),
    }
}

/// Decodes a DF-11 (all-call reply) payload; one too short to hold its
/// fields is returned as `Unsupported`.
pub fn parse_df_11(input: &[u8]) -> (d: Data)
    ensures
        df_11_decodes_to(input@, d),
{
    if input.len() < 7 {
        return Data::Unsupported(slice_to_vec(input));
    }
    let head = &input[0..7];
    proof {
        lemma_bits_at_prefix(input@, 7);
    }
    let mut r = BitReader::new(head);
    r.read(5);
    Data::AllCallReply(read_df_11(&mut r))
}

/// Decodes a DF-16 (ACAS coordination reply) payload; one too short to hold
/// its fields is returned as `Unsupported`.
pub fn parse_df_16(input: &[u8]) -> (d: Data)
    ensures
        df_16_decodes_to(input@, d),
{
    if input.len() < 11 {
        return Data::Unsupported(slice_to_vec(input));
    }
    let head = &input[0..11];
    let mv = &input[4..11];
    proof {
        lemma_bits_at_prefix(input@, 11);
        assert(head@.subrange(4, 11) =~= input@.subrange(4, 11));
    }
    let mut r = BitReader::new(head);
    r.read(5);
    Data::ACASCoordinationReply(read_df_16(&mut r, mv))
}

/// Decodes a DF-17 (extended squitter) payload; one too short to hold its
/// fields is returned as `Unsupported`.
pub fn parse_df_17(input: &[u8]) -> (d: Data)
    ensures
        df_17_decodes_to(input@, d),
{
    if input.len() < 11 {
        return Data::Unsupported(slice_to_vec(input));
    }
    let head = &input[0..11];
    let me = &input[4..11];
    proof {
        lemma_bits_at_prefix(input@, 11);
        assert(head@.subrange(4, 11) =~= input@.subrange(4, 11));
    }
    let mut r = BitReader::new(head);
    r.read(5);
    Data::ExtendedSquitter(read_df_17(&mut r, me))
}

/// Reads the downlink format of a Mode-S payload and decodes the payload
/// with the decoder of that format; other formats, and an empty payload,
/// are returned as `Unsupported`.
pub fn mode_s(input: &[u8]) -> (d: Data)
    ensures
        mode_s_decodes_to(input@, d),
{
    if input.len() == 0 {
        return Data::Unsupported(slice_to_vec(input));
    }
    let head = &input[0..1];
    proof {
        lemma_bits_at_prefix(input@, 1);
    }
    let mut r = BitReader::new(head);
    let df = r.read(5);
    match df {
        0 => parse_df_0(input),
        4 => parse_df_4(input),
        5 => parse_df_5(input),
        11 => parse_df_11(input),
        16 => parse_df_16(input),
        17 => parse_df_17(input),
        _ => Data::Unsupported(slice_to_vec(input)),
    }
}

} // verus!

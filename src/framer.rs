use vstd::arithmetic::power2::*;
use vstd::pervasive::unreached;
use vstd::prelude::*;
use vstd::slice::slice_to_vec;

use crate::bits::{bits_at, lemma_bits_at_prefix, BitReader};
use crate::message::{Data, Message};
use crate::parser::{mode_s, mode_s_decodes_to, unsupported};

verus! {

/// The byte that opens every BEAST record and that is doubled inside one.
pub const SENTINEL: u8 = 0x1a;

/// The payload length that a BEAST format byte announces: `'1'` Mode A/C,
/// `'2'` Mode-S short, `'3'` Mode-S long.
pub open spec fn payload_len_of(format: u8) -> Option<nat> {
    if format == 0x31 {
        Some(2)
    } else if format == 0x32 {
        Some(7)
    } else if format == 0x33 {
        Some(14)
    } else {
        None
    }
}

/// The logical bytes of a record after the format byte: six timestamp
/// bytes, the signal byte and the payload.
pub open spec fn body_len_of(format: u8) -> nat {
    7 + payload_len_of(format)->Some_0
}

/// How reading logical bytes out of a byte-stuffed buffer ends.
pub ghost enum Unstuffed {
    /// `n` logical bytes were read; the raw bytes up to `end` are used.
    Complete { bytes: Seq<u8>, end: nat },
    /// The buffer ends before `n` logical bytes were read.
    Short,
    /// A sentinel at `at` is not doubled: a new record starts there.
    Broken { at: nat },
}

/// Reads `n` logical bytes from `raw` at `i`, collapsing each doubled
/// sentinel to one, after the bytes `acc` already read.
pub open spec fn unstuff(raw: Seq<u8>, i: nat, n: nat, acc: Seq<u8>) -> Unstuffed
    decreases n,
{
    if n == 0 {
        Unstuffed::Complete { bytes: acc, end: i }
    } else if i >= raw.len() {
        Unstuffed::Short
    } else if raw[i as int] != SENTINEL {
        unstuff(raw, i + 1, (n - 1) as nat, acc.push(raw[i as int]))
    } else if i + 1 >= raw.len() {
        Unstuffed::Short
    } else if raw[i + 1 as int] == SENTINEL {
        unstuff(raw, i + 2, (n - 1) as nat, acc.push(SENTINEL))
    } else {
        Unstuffed::Broken { at: i }
    }
}

/// What one call of the framer makes of a buffer.
pub ghost enum FrameOutcome {
    /// A whole record, its logical body, and the raw bytes it takes.
    Record { format: u8, body: Seq<u8>, consumed: nat },
    /// No whole record yet.
    NeedMore,
    /// The leading `n` bytes hold no record and are dropped.
    Skip(nat),
}

pub open spec fn frame_outcome(buf: Seq<u8>) -> FrameOutcome {
    if buf.len() == 0 {
        FrameOutcome::NeedMore
    } else if buf[0] != SENTINEL {
        FrameOutcome::Skip(1)
    } else if buf.len() == 1 {
        FrameOutcome::NeedMore
    } else if payload_len_of(buf[1]) is None {
        FrameOutcome::Skip(1)
    } else {
        match unstuff(buf, 2, body_len_of(buf[1]), seq![]) {
            Unstuffed::Complete { bytes, end } => FrameOutcome::Record {
                format: buf[1],
                body: bytes,
                consumed: end,
            },
            Unstuffed::Short => FrameOutcome::NeedMore,
            Unstuffed::Broken { at } => FrameOutcome::Skip(at),
        }
    }
}

/// The 48-bit big-endian MLAT counter at the start of a record body.
pub open spec fn timestamp_of(body: Seq<u8>) -> nat {
    bits_at(body, 0, 48)
}

/// `m` is the message of a record with this format and logical body: Mode
/// A/C payloads are kept undecoded, Mode-S payloads are decoded.
pub open spec fn record_message(format: u8, body: Seq<u8>, m: Message) -> bool {
    let payload = body.subrange(7, body.len() as int);
    &&& m.timestamp == timestamp_of(body)
    &&& m.signal == body[6]
    &&& if format == 0x31 {
        unsupported(payload, m.data)
    } else {
        mode_s_decodes_to(payload, m.data)
    }
}

/// The result of one call of the framer.
#[derive(Debug, Clone, PartialEq, Eq)]
pub enum Frame {
    /// A decoded record and the number of raw bytes it took.
    Ready(Message, usize),
    /// The buffer does not yet hold a whole record.
    NeedMore,
    /// The leading bytes, this many, hold no record: drop them and call again.
    Resync(usize),
}

/// `r` is what the framer owes for `buf`.
pub open spec fn frame_matches(buf: Seq<u8>, r: Frame) -> bool {
    match frame_outcome(buf) {
        FrameOutcome::Record { format, body, consumed } => {
            &&& r is Ready
            &&& r->Ready_1 == consumed
            &&& record_message(format, body, r->Ready_0)
        },
        FrameOutcome::NeedMore => r is NeedMore,
        FrameOutcome::Skip(n) => r == Frame::Resync(n as usize),
    }
}

proof fn lemma_unstuff_bounds(raw: Seq<u8>, i: nat, n: nat, acc: Seq<u8>)
    requires
        i <= raw.len(),
    ensures
        unstuff(raw, i, n, acc) matches Unstuffed::Complete { bytes, end } ==> bytes.len()
            == acc.len() + n && i + n <= end <= raw.len(),
        unstuff(raw, i, n, acc) matches Unstuffed::Broken { at } ==> i <= at < raw.len(),
        unstuff(raw, i, n, acc) is Short ==> raw.len() < i + 2 * n,
    decreases n,
{
    if n > 0 && i < raw.len() {
        if raw[i as int] != SENTINEL {
            lemma_unstuff_bounds(raw, i + 1, (n - 1) as nat, acc.push(raw[i as int]));
        } else if i + 1 < raw.len() && raw[i + 1 as int] == SENTINEL {
            lemma_unstuff_bounds(raw, i + 2, (n - 1) as nat, acc.push(SENTINEL));
        }
    }
}

/// Every call on a buffer either waits for more bytes or consumes at least
/// one and at most all of them; a whole record carries its full body.
pub proof fn lemma_frame_progress(buf: Seq<u8>)
    ensures
        frame_outcome(buf) matches FrameOutcome::Record { format, body, consumed } ==> 1
            <= consumed <= buf.len() && body.len() == body_len_of(format) && payload_len_of(
            format,
        ) is Some,
        frame_outcome(buf) matches FrameOutcome::Skip(n) ==> 1 <= n <= buf.len(),
        frame_outcome(buf) is NeedMore ==> buf.len() < 2 + 2 * 21,
{
    if buf.len() >= 2 && buf[0] == SENTINEL && payload_len_of(buf[1]) is Some {
        lemma_unstuff_bounds(buf, 2, body_len_of(buf[1]), seq![]);
    }
}

/// Decodes the 48-bit big-endian timestamp that opens a record body.
pub fn header_timestamp(input: &[u8]) -> (r: Option<(&[u8], u64)>)
    ensures
        input@.len() < 6 ==> r is None,
        input@.len() >= 6 ==> (r matches Some((rest, ts)) && rest@ == input@.subrange(
            6,
            input@.len() as int,
        ) && ts == timestamp_of(input@)),
{
    if input.len() < 6 {
        return None;
    }
    let head = &input[0..6];
    proof {
        lemma_bits_at_prefix(input@, 6);
        lemma2_to64();
        lemma2_to64_rest();
    }
    let mut r = BitReader::new(head);
    let ts = r.read(48);
    Some((&input[6..input.len()], ts))
}

/// Takes the signal byte that follows the timestamp.
pub fn header_signal(input: &[u8]) -> (r: Option<(&[u8], u8)>)
    ensures
        input@.len() == 0 ==> r is None,
        input@.len() > 0 ==> (r matches Some((rest, signal)) && rest@ == input@.subrange(
            1,
            input@.len() as int,
        ) && signal == input@[0]),
{
    if input.len() == 0 {
        return None;
    }
    Some((&input[1..input.len()], input[0]))
}

/// Builds the message of a whole record from its format and logical body.
fn record(format: u8, body: &[u8]) -> (m: Message)
    requires
        payload_len_of(format) is Some,
        body@.len() == body_len_of(format),
    ensures
        record_message(format, body@, m),
{
    let (rest, timestamp) = match header_timestamp(body) {
        Some(h) => h,
        None => unreached(),
    };
    let (payload, signal) = match header_signal(rest) {
        Some(h) => h,
        None => unreached(),
    };
    assert(payload@ =~= body@.subrange(7, body@.len() as int));
    let data = if format == 0x31 {
        Data::Unsupported(slice_to_vec(payload))
    } else {
        mode_s(payload)
    };
    Message { timestamp, signal, data }
}

/// Looks for the next BEAST record at the start of `buf`: a record that is
/// whole is decoded, with the count of raw bytes it took; a buffer that may
/// still grow into one asks for more; bytes that cannot start one are to be
/// dropped.
pub fn decode_frame(buf: &[u8]) -> (r: Frame)
    ensures
        frame_matches(buf@, r),
{
    if buf.len() == 0 {
        return Frame::NeedMore;
    }
    if buf[0] != SENTINEL {
        return Frame::Resync(1);
    }
    if buf.len() == 1 {
        return Frame::NeedMore;
    }
    let format = buf[1];
    let payload_len: usize = if format == 0x31 {
        2
    } else if format == 0x32 {
        7
    } else if format == 0x33 {
        14
    } else {
        return Frame::Resync(1);
    };
    let total: usize = 7 + payload_len;
    let ghost target = unstuff(buf@, 2, total as nat, seq![]);
    let mut body: Vec<u8> = Vec::new();
    let mut i: usize = 2;
    let mut k: usize = 0;
    while k < total
        invariant
            buf@.len() >= 2,
            buf@[0] == SENTINEL,
            format == buf@[1],
            payload_len_of(format) is Some,
            total == body_len_of(format),
            target == unstuff(buf@, 2, total as nat, seq![]),
            2 <= i <= buf@.len(),
            k <= total,
            body@.len() == k,
            unstuff(buf@, i as nat, (total - k) as nat, body@) == target,
        decreases total - k,
    {
        if i >= buf.len() {
            assert(unstuff(buf@, i as nat, (total - k) as nat, body@) is Short);
            return Frame::NeedMore;
        }
        let b = buf[i];
        if b != SENTINEL {
            body.push(b);
            i = i + 1;
        } else {
            if i + 1 >= buf.len() {
                assert(unstuff(buf@, i as nat, (total - k) as nat, body@) is Short);
                return Frame::NeedMore;
            }
            if buf[i + 1] == SENTINEL {
                body.push(SENTINEL);
                i = i + 2;
            } else {
                return Frame::Resync(i);
            }
        }
        k = k + 1;
    }
    let message = record(format, body.as_slice());
    Frame::Ready(message, i)
}

/// Where the search for the next record in a buffer ends.
pub ghost enum Scan {
    /// A whole record, and the bytes after it.
    Found { format: u8, body: Seq<u8>, rest: Seq<u8> },
    /// No whole record: the bytes that are kept for the next read.
    Exhausted { rest: Seq<u8> },
}

/// Calls the framer on `buf`, dropping what it skips, until it yields a
/// record or asks for more bytes.
pub open spec fn scan(buf: Seq<u8>) -> Scan
    decreases buf.len(),
{
    match frame_outcome(buf) {
        FrameOutcome::Record { format, body, consumed } => Scan::Found {
            format,
            body,
            rest: buf.subrange(consumed as int, buf.len() as int),
        },
        FrameOutcome::NeedMore => Scan::Exhausted { rest: buf },
        FrameOutcome::Skip(n) => if 1 <= n <= buf.len() {
            scan(buf.subrange(n as int, buf.len() as int))
        } else {
            Scan::Exhausted { rest: buf }
        },
    }
}

/// A stateless BEAST decoder: every call finds the next record in the bytes
/// it is handed.
pub struct Parser {}

impl Parser {
    pub fn new() -> (p: Parser) {
        Parser {  }
    }

    /// Finds the first whole record in `input`: the offset after the record
    /// and the record, or the offset of the bytes to keep and `None`.
    fn next_record(&self, input: &[u8]) -> (r: (usize, Option<Message>))
        ensures
            r.0 <= input@.len(),
            match scan(input@) {
                Scan::Found { format, body, rest } => r.1 is Some && input@.subrange(
                    r.0 as int,
                    input@.len() as int,
                ) == rest && record_message(format, body, r.1->Some_0),
                Scan::Exhausted { rest } => r.1 is None && input@.subrange(
                    r.0 as int,
                    input@.len() as int,
                ) == rest,
            },
    {
        let mut at: usize = 0;
        assert(input@.subrange(0, input@.len() as int) =~= input@);
        while at < input.len()
            invariant
                at <= input@.len(),
                scan(input@.subrange(at as int, input@.len() as int)) == scan(input@),
            decreases input@.len() - at,
        {
            let tail = &input[at..input.len()];
            proof {
                lemma_frame_progress(tail@);
            }
            match decode_frame(tail) {
                Frame::Ready(m, consumed) => {
                    assert(tail@.subrange(consumed as int, tail@.len() as int) =~= input@.subrange(
                        at + consumed,
                        input@.len() as int,
                    ));
                    return (at + consumed, Some(m));
                },
                Frame::NeedMore => {
                    return (at, None);
                },
                Frame::Resync(n) => {
                    assert(tail@.subrange(n as int, tail@.len() as int) =~= input@.subrange(
                        at + n,
                        input@.len() as int,
                    ));
                    at = at + n;
                },
            }
        }
        assert(frame_outcome(input@.subrange(at as int, input@.len() as int)) is NeedMore);
        (at, None)
    }

    /// Skips bytes that cannot start a record and decodes the first whole
    /// record, returning the bytes after it; `None` when no whole record is
    /// left.
    pub fn parse<'a>(&self, input: &'a [u8]) -> (r: Option<(&'a [u8], Message)>)
        ensures
            match scan(input@) {
                Scan::Found { format, body, rest } => r matches Some((after, m)) && after@ == rest
                    && record_message(format, body, m),
                Scan::Exhausted { .. } => r is None,
            },
    {
        let (at, found) = self.next_record(input);
        match found {
            Some(m) => Some((&input[at..input.len()], m)),
            None => None,
        }
    }
}

/// A decoder over a caller's growing byte buffer.
pub struct Codec {
    parser: Parser,
}

impl Codec {
    pub fn new() -> (c: Codec) {
        Codec { parser: Parser::new() }
    }

    /// Removes from the front of `buf` the bytes that hold no record and the
    /// first whole record, and returns that record decoded; when no whole
    /// record is there, keeps only the bytes that may still grow into one
    /// and returns `None`.
    pub fn decode(&mut self, buf: &mut Vec<u8>) -> (r: Option<Message>)
        ensures
            match scan(old(buf)@) {
                Scan::Found { format, body, rest } => r is Some && final(buf)@ == rest
                    && record_message(format, body, r->Some_0),
                Scan::Exhausted { rest } => r is None && final(buf)@ == rest,
            },
    {
        let (at, found) = self.parser.next_record(buf.as_slice());
        let kept = copy_from(buf.as_slice(), at);
        *buf = kept;
        found
    }
}

/// The bytes of `input` from `at` on, as a new vector.
fn copy_from(input: &[u8], at: usize) -> (v: Vec<u8>)
    requires
        at <= input@.len(),
    ensures
        v@ == input@.subrange(at as int, input@.len() as int),
{
    let mut v: Vec<u8> = Vec::new();
    let mut i: usize = at;
    while i < input.len()
        invariant
            at <= i <= input@.len(),
            v@ == input@.subrange(at as int, i as int),
        decreases input@.len() - i,
    {
        v.push(input[i]);
        i = i + 1;
        assert(v@ =~= input@.subrange(at as int, i as int));
    }
    v
}

/// The bytes of `b` as sent inside a record: every sentinel doubled.
pub open spec fn stuff(b: Seq<u8>) -> Seq<u8>
    decreases b.len(),
{
    if b.len() == 0 {
        seq![]
    } else {
        let head = if b[0] == SENTINEL {
            seq![SENTINEL, SENTINEL]
        } else {
            seq![b[0]]
        };
        head + stuff(b.drop_first())
    }
}

proof fn lemma_unstuff_stuffed(raw: Seq<u8>, i: nat, b: Seq<u8>, acc: Seq<u8>)
    requires
        i + stuff(b).len() <= raw.len(),
        raw.subrange(i as int, (i + stuff(b).len()) as int) == stuff(b),
    ensures
        unstuff(raw, i, b.len(), acc) == (Unstuffed::Complete {
            bytes: acc + b,
            end: i + stuff(b).len(),
        }),
    decreases b.len(),
{
    if b.len() == 0 {
        assert(acc + b =~= acc);
    } else {
        let s = stuff(b);
        let tail = b.drop_first();
        let h: nat = if b[0] == SENTINEL {
            2
        } else {
            1
        };
        assert(s.len() == h + stuff(tail).len());
        assert(raw[i as int] == s[0]);
        let lo = (i + h) as int;
        let hi = (i + h + stuff(tail).len()) as int;
        assert(raw.subrange(lo, hi) =~= stuff(tail)) by {
            assert forall|j: int| 0 <= j < stuff(tail).len() implies raw.subrange(lo, hi)[j]
                == stuff(tail)[j] by {
                assert(raw[lo + j] == raw.subrange(i as int, (i + s.len()) as int)[h + j]);
            }
        }
        if b[0] == SENTINEL {
            assert(raw[i + 1 as int] == s[1]);
            lemma_unstuff_stuffed(raw, i + 2, tail, acc.push(SENTINEL));
        } else {
            lemma_unstuff_stuffed(raw, i + 1, tail, acc.push(b[0]));
        }
        assert(acc.push(b[0]) + tail =~= acc + b);
    }
}

/// Escaping is transparent: a record whose timestamp, signal and payload
/// are sent with every sentinel doubled is read back as exactly those
/// bytes, whatever follows it, so doubling a sentinel inside a record
/// leaves the decoded message as it was.
pub proof fn lemma_escape_transparent(format: u8, body: Seq<u8>, rest: Seq<u8>)
    requires
        payload_len_of(format) is Some,
        body.len() == body_len_of(format),
    ensures
        frame_outcome(seq![SENTINEL, format] + stuff(body) + rest) == (FrameOutcome::Record {
            format,
            body,
            consumed: 2 + stuff(body).len(),
        }),
{
    let raw = seq![SENTINEL, format] + stuff(body) + rest;
    assert(raw.subrange(2, 2 + stuff(body).len() as int) =~= stuff(body));
    lemma_unstuff_stuffed(raw, 2, body, seq![]);
    assert(seq![] + body =~= body);
}

/// The bytes left once the framer has been called until it asks for more,
/// every record taken out and every skipped byte dropped.
pub open spec fn drain(buf: Seq<u8>) -> Seq<u8>
    decreases buf.len(),
{
    match scan(buf) {
        Scan::Found { rest, .. } => if rest.len() < buf.len() {
            drain(rest)
        } else {
            rest
        },
        Scan::Exhausted { rest } => rest,
    }
}

/// `t` is the end of `buf`.
pub open spec fn is_suffix(t: Seq<u8>, buf: Seq<u8>) -> bool {
    t.len() <= buf.len() && t == buf.subrange(buf.len() - t.len(), buf.len() as int)
}

proof fn lemma_scan(buf: Seq<u8>)
    ensures
        scan(buf) matches Scan::Found { format, body, rest } ==> is_suffix(rest, buf) && rest.len()
            < buf.len() && payload_len_of(format) is Some,
        scan(buf) matches Scan::Exhausted { rest } ==> is_suffix(rest, buf) && frame_outcome(
            rest,
        ) is NeedMore,
    decreases buf.len(),
{
    lemma_frame_progress(buf);
    match frame_outcome(buf) {
        FrameOutcome::Record { consumed, .. } => {
            let rest = buf.subrange(consumed as int, buf.len() as int);
            assert(rest =~= buf.subrange(buf.len() - rest.len(), buf.len() as int));
        },
        FrameOutcome::NeedMore => {
            assert(buf =~= buf.subrange(0, buf.len() as int));
        },
        FrameOutcome::Skip(n) => {
            let next = buf.subrange(n as int, buf.len() as int);
            lemma_scan(next);
            match scan(next) {
                Scan::Found { rest, .. } => {
                    assert(rest =~= buf.subrange(buf.len() - rest.len(), buf.len() as int));
                },
                Scan::Exhausted { rest } => {
                    assert(rest =~= buf.subrange(buf.len() - rest.len(), buf.len() as int));
                },
            }
        },
    }
}

/// Calling the framer over and over consumes every byte but a tail that
/// holds no whole record: the tail is empty, or a sentinel, or a sentinel
/// and a known format byte followed by fewer logical bytes than the record
/// needs, so it is at most 43 raw bytes long.
pub proof fn lemma_framer_totality(buf: Seq<u8>)
    ensures
        is_suffix(drain(buf), buf),
        frame_outcome(drain(buf)) is NeedMore,
        drain(buf).len() == 0 || drain(buf)[0] == SENTINEL,
        drain(buf).len() >= 2 ==> payload_len_of(drain(buf)[1]) is Some && unstuff(
            drain(buf),
            2,
            body_len_of(drain(buf)[1]),
            seq![],
        ) is Short,
        drain(buf).len() < 2 + 2 * 21,
    decreases buf.len(),
{
    lemma_scan(buf);
    match scan(buf) {
        Scan::Found { rest, .. } => {
            lemma_framer_totality(rest);
            let t = drain(rest);
            assert(t =~= buf.subrange(buf.len() - t.len(), buf.len() as int));
        },
        Scan::Exhausted { rest } => {},
    }
    lemma_frame_progress(drain(buf));
}

} // verus!

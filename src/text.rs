use vstd::prelude::*;

verus! {

/// Relies on `String::push`: appends one character to the end of the string.
#[verifier::external_body]
pub(crate) fn push_char(s: &mut String, c: char)
    ensures
        final(s)@ == old(s)@.push(c),
{
    s.push(c);
}

/// The upper-case hex digit for `d < 16`.
pub open spec fn hex_digit(d: u32) -> char {
    if d < 10 {
        (48 + d) as char
    } else {
        (55 + d) as char
    }
}

/// Whether `c` is one of `0`..`9` or `A`..`F`.
pub open spec fn is_upper_hex_digit(c: char) -> bool {
    ('0' <= c && c <= '9') || ('A' <= c && c <= 'F')
}

/// The value of an upper-case hex digit.
pub open spec fn hex_digit_value(c: char) -> nat {
    if '0' <= c && c <= '9' {
        (c as nat - 48) as nat
    } else {
        (c as nat - 55) as nat
    }
}

/// The six upper-case hex digits of `n`, most significant first, with
/// leading zeros.
pub open spec fn hex6(n: u32) -> Seq<char> {
    seq![
        hex_digit((n >> 20) & 0xf),
        hex_digit((n >> 16) & 0xf),
        hex_digit((n >> 12) & 0xf),
        hex_digit((n >> 8) & 0xf),
        hex_digit((n >> 4) & 0xf),
        hex_digit(n & 0xf),
    ]
}

/// The number that a string of hex digits spells.
pub open spec fn hex_value(s: Seq<char>) -> nat
    decreases s.len(),
{
    if s.len() == 0 {
        0
    } else {
        hex_value(s.drop_last()) * 16 + hex_digit_value(s.last())
    }
}

fn hex_char(d: u32) -> (c: char)
    requires
        d < 16,
    ensures
        c == hex_digit(d),
        is_upper_hex_digit(c),
        hex_digit_value(c) == d,
{
    if d < 10 {
        ((48 + d) as u8) as char
    } else {
        ((55 + d) as u8) as char
    }
}

/// An address of 24 bits is written as exactly six upper-case hex digits
/// that spell it.
pub proof fn lemma_icao_format(n: u32)
    requires
        n < 0x100_0000,
    ensures
        hex6(n).len() == 6,
        forall|i: int| 0 <= i < 6 ==> #[trigger] is_upper_hex_digit(hex6(n)[i]),
        hex_value(hex6(n)) == n,
{
    let d5 = (n >> 20) & 0xf;
    let d4 = (n >> 16) & 0xf;
    let d3 = (n >> 12) & 0xf;
    let d2 = (n >> 8) & 0xf;
    let d1 = (n >> 4) & 0xf;
    let d0 = n & 0xf;
    assert(d5 < 16 && d4 < 16 && d3 < 16 && d2 < 16 && d1 < 16 && d0 < 16) by (bit_vector)
        requires
            d5 == (n >> 20) & 0xf,
            d4 == (n >> 16) & 0xf,
            d3 == (n >> 12) & 0xf,
            d2 == (n >> 8) & 0xf,
            d1 == (n >> 4) & 0xf,
            d0 == n & 0xf,
    ;
    assert(n == ((((d5 * 16 + d4) * 16 + d3) * 16 + d2) * 16 + d1) * 16 + d0) by (bit_vector)
        requires
            n < 0x100_0000,
            d5 == (n >> 20) & 0xf,
            d4 == (n >> 16) & 0xf,
            d3 == (n >> 12) & 0xf,
            d2 == (n >> 8) & 0xf,
            d1 == (n >> 4) & 0xf,
            d0 == n & 0xf,
    ;
    let t = hex6(n);
    assert(t.drop_last().drop_last().drop_last().drop_last().drop_last().drop_last() =~= seq![]);
    assert(t.drop_last().drop_last().drop_last().drop_last().drop_last() =~= seq![t[0]]);
    assert(t.drop_last().drop_last().drop_last().drop_last() =~= seq![t[0], t[1]]);
    assert(t.drop_last().drop_last().drop_last() =~= seq![t[0], t[1], t[2]]);
    assert(t.drop_last().drop_last() =~= seq![t[0], t[1], t[2], t[3]]);
    assert(t.drop_last() =~= seq![t[0], t[1], t[2], t[3], t[4]]);
    reveal_with_fuel(hex_value, 7);
    assert(forall|d: u32|
        d < 16 ==> #[trigger] is_upper_hex_digit(hex_digit(d)) && hex_digit_value(hex_digit(d))
            == d);
}

/// Formats a 24-bit address as six upper-case hex digits, zero-padded.
pub fn address_announced(aa: u32) -> (r: String)
    requires
        aa < 0x100_0000,
    ensures
        r@ == hex6(aa),
        r@.len() == 6,
        forall|i: int| 0 <= i < 6 ==> #[trigger] is_upper_hex_digit(r@[i]),
        hex_value(r@) == aa,
{
    let mut s = String::new();
    let d5 = (aa >> 20) & 0xf;
    let d4 = (aa >> 16) & 0xf;
    let d3 = (aa >> 12) & 0xf;
    let d2 = (aa >> 8) & 0xf;
    let d1 = (aa >> 4) & 0xf;
    let d0 = aa & 0xf;
    assert(d5 < 16 && d4 < 16 && d3 < 16 && d2 < 16 && d1 < 16 && d0 < 16) by (bit_vector)
        requires
            d5 == (aa >> 20) & 0xf,
            d4 == (aa >> 16) & 0xf,
            d3 == (aa >> 12) & 0xf,
            d2 == (aa >> 8) & 0xf,
            d1 == (aa >> 4) & 0xf,
            d0 == aa & 0xf,
    ;
    push_char(&mut s, hex_char(d5));
    push_char(&mut s, hex_char(d4));
    push_char(&mut s, hex_char(d3));
    push_char(&mut s, hex_char(d2));
    push_char(&mut s, hex_char(d1));
    push_char(&mut s, hex_char(d0));
    proof {
        lemma_icao_format(aa);
    }
    s
}

} // verus!

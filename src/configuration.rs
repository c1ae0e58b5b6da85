use std::time::Duration;
use vstd::prelude::*;

verus! {

/// The value of a string of decimal digits.
pub open spec fn digits_value(s: Seq<char>) -> nat
    decreases s.len(),
{
    if s.len() == 0 {
        0
    } else {
        digits_value(s.drop_last()) * 10 + (s.last() as nat - 48) as nat
    }
}

pub open spec fn all_digits(s: Seq<char>) -> bool {
    forall|i: int| 0 <= i < s.len() ==> '0' <= #[trigger] s[i] && s[i] <= '9'
}

/// What parsing a `u64` makes of a string: an optional `+` and at least one
/// decimal digit, with no other character, whose value fits.
pub open spec fn parsed_u64(s: Seq<char>) -> Option<u64> {
    let digits = if s.len() > 0 && s[0] == '+' {
        s.drop_first()
    } else {
        s
    };
    if digits.len() > 0 && all_digits(digits) && digits_value(digits) <= u64::MAX {
        Some(digits_value(digits) as u64)
    } else {
        None
    }
}

/// The duration of `ms` milliseconds.
pub uninterp spec fn duration_of_millis(ms: u64) -> Duration;

/// The duration of `secs` seconds.
pub uninterp spec fn duration_of_secs(secs: u64) -> Duration;

/// Relies on `str::parse::<u64>`: an optional `+` followed by decimal
/// digits only, whose value fits in 64 bits; anything else is an error.
#[verifier::external_body]
fn parse_u64(s: &str) -> (r: Option<u64>)
    ensures
        r == parsed_u64(s@),
{
    s.parse::<u64>().ok()
}

/// Relies on `Duration::from_millis`, a function of its argument alone.
#[verifier::external_body]
fn from_millis(ms: u64) -> (d: Duration)
    ensures
        d == duration_of_millis(ms),
{
    Duration::from_millis(ms)
}

/// Relies on `Duration::from_secs`, a function of its argument alone.
#[verifier::external_body]
fn from_secs(secs: u64) -> (d: Duration)
    ensures
        d == duration_of_secs(secs),
{
    Duration::from_secs(secs)
}

/// Reads a count of milliseconds.
pub fn millis_to_duration(s: &str) -> (r: Result<Duration, &'static str>)
    ensures
        parsed_u64(s@) is Some ==> r == Ok::<Duration, &'static str>(
            duration_of_millis(parsed_u64(s@)->Some_0),
        ),
        parsed_u64(s@) is None ==> r is Err,
{
    match parse_u64(s) {
        Some(ms) => Ok(from_millis(ms)),
        None => Err("expected duration milliseconds"),
    }
}

/// Reads a count of seconds.
pub fn secs_to_duration(s: &str) -> (r: Result<Duration, &'static str>)
    ensures
        parsed_u64(s@) is Some ==> r == Ok::<Duration, &'static str>(
            duration_of_secs(parsed_u64(s@)->Some_0),
        ),
        parsed_u64(s@) is None ==> r is Err,
{
    match parse_u64(s) {
        Some(secs) => Ok(from_secs(secs)),
        None => Err("expected duration seconds"),
    }
}

} // verus!

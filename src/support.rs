//! Small facilities shared by the rest of the library: fresh identifiers,
//! random indices, the clock, and a few string helpers.

use rand::Rng;
use vstd::prelude::*;

verus! {

/// Relies on `String::push`, which appends one character at the end.
pub assume_specification[ String::push ](s: &mut String, ch: char)
    ensures
        final(s)@ == old(s)@.push(ch),
;

/// Relies on `uuid::Uuid::new_v4` and its `Display`, which writes the
/// hyphenated form: 32 hex digits and 4 hyphens.
#[verifier::external_body]
pub(crate) fn new_uuid() -> (r: String)
    ensures
        r@.len() == 36,
{
    uuid::Uuid::new_v4().to_string()
}

/// Relies on `rand::Rng::gen_range` over `thread_rng()`: a value of the
/// half-open range, which must not be empty.
#[verifier::external_body]
pub(crate) fn random_index(n: usize) -> (r: usize)
    requires
        n > 0,
    ensures
        r < n,
{
    rand::thread_rng().gen_range(0..n)
}

/// Largest distance from the epoch, in seconds, of any chrono date-time:
/// chrono's years lie in `i32::MIN >> 13 ..= i32::MAX >> 13`.
pub const TIMESTAMP_BOUND: i64 = 10_000_000_000_000;

/// Relies on `chrono::Utc::now` and `DateTime::timestamp`: seconds since the
/// Unix epoch, within chrono's representable range.
#[verifier::external_body]
pub(crate) fn clock_now() -> (r: i64)
    ensures
        -TIMESTAMP_BOUND <= r <= TIMESTAMP_BOUND,
{
    chrono::Utc::now().timestamp()
}

/// The current time, in seconds since the Unix epoch (UTC).
pub fn current_timestamp() -> (r: i64)
    ensures
        -TIMESTAMP_BOUND <= r <= TIMESTAMP_BOUND,
{
    clock_now()
}

/// Copies a string slice into an owned string with the same characters.
pub fn owned(s: &str) -> (r: String)
    ensures
        r@ == s@,
{
    s.to_owned()
}

/// Copies an optional string slice.
pub fn owned_opt(s: Option<&str>) -> (r: Option<String>)
    ensures
        r.is_some() == s.is_some(),
        s.is_some() ==> r.unwrap()@ == s.unwrap()@,
{
    match s {
        Some(v) => Some(v.to_owned()),
        None => None,
    }
}

/// Duplicates an optional string.
pub fn clone_opt(s: &Option<String>) -> (r: Option<String>)
    ensures
        r == *s,
{
    match s {
        Some(v) => Some(v.clone()),
        None => None,
    }
}

/// Builds the string `a` followed by `b`.
pub fn concat(a: &str, b: &str) -> (r: String)
    ensures
        r@ == a@ + b@,
{
    let mut s = a.to_owned();
    s.append(b);
    s
}

} // verus!

verus! {

/// The lower-case form of `s`, as std computes it.
pub uninterp spec fn lower_of(s: Seq<char>) -> Seq<char>;

/// Relies on `str::to_lowercase`: the result depends on the characters alone.
#[verifier::external_body]
pub(crate) fn lowercase(s: &str) -> (r: String)
    ensures
        r@ == lower_of(s@),
{
    s.to_lowercase()
}

/// The decimal digit for `d`.
pub open spec fn digit_char(d: nat) -> char {
    (('0' as nat) + d) as char
}

/// The decimal writing of `n`, without leading zeros.
pub open spec fn decimal(n: nat) -> Seq<char>
    decreases n,
{
    if n < 10 {
        seq![digit_char(n)]
    } else {
        decimal(n / 10).push(digit_char(n % 10))
    }
}

/// Writes `n` in decimal.
pub fn to_decimal(n: u64) -> (r: String)
    ensures
        r@ == decimal(n as nat),
    decreases n,
{
    if n < 10 {
        let mut s = String::new();
        s.push(((48 + n) as u8) as char);
        s
    } else {
        let mut s = to_decimal(n / 10);
        s.push(((48 + n % 10) as u8) as char);
        s
    }
}

} // verus!

//! Core value types shared by the whole model.
use vstd::prelude::*;
use vstd::string::*;

verus! {

/// Error raised by the charging model.
#[derive(Debug, Clone)]
pub enum CoreError {
    /// An operation was refused because of the current state.
    InvalidState(String),
}

/// Result type of the charging model.
pub type CoreResult<T> = Result<T, CoreError>;

/// The message of a refused state transition.
pub open spec fn transition_message(from: Seq<char>, to: Seq<char>) -> Seq<char> {
    "Cannot transition from "@ + from + " to "@ + to
}

/// Builds the message of a refused state transition.
pub fn transition_error(from: &str, to: &str) -> (e: CoreError)
    ensures
        e == CoreError::InvalidState(e->InvalidState_0),
        e->InvalidState_0@ == transition_message(from@, to@),
{
    let mut s = "Cannot transition from ".to_owned();
    s.append(from);
    s.append(" to ");
    s.append(to);
    CoreError::InvalidState(s)
}

} // verus!

verus! {

/// A point in time: milliseconds since the Unix epoch, UTC.
pub type Timestamp = i64;

/// The current time, as `chrono::Utc::now()` reads the system clock.
/// The clock is outside the library: nothing is promised of the value, not
/// even its sign (built for WebAssembly with chrono's `wasmbind` feature, it
/// reads JavaScript's `Date`, which may lie before 1970).
#[verifier::external_body]
pub fn now() -> Timestamp {
    chrono::Utc::now().timestamp_millis()
}

} // verus!

verus! {

/// Whether `c` is one of the ASCII digits `0` to `9`.
pub open spec fn is_digit_char(c: char) -> bool {
    '0' <= c && c <= '9'
}

/// Whether every character of `s` in `[from, to)` is an ASCII digit.
pub open spec fn digits_between(s: Seq<char>, from: int, to: int) -> bool {
    forall|i: int| from <= i < to ==> #[trigger] is_digit_char(s[i])
}

/// Whether `s` is an RFC 3339 timestamp in UTC as chrono writes it:
/// a year of four digits (or a sign and at least four digits outside 0 to
/// 9999), `-MM-DD`, `T`, `hh:mm:ss`, an optional fraction of 3, 6 or 9
/// digits after a dot, and the offset `+00:00`. `t` is the index of the `T`
/// and `f` the length of the fraction with its dot.
pub open spec fn rfc3339_utc_at(s: Seq<char>, t: int, f: int) -> bool {
    let y = t - 6;
    &&& (f == 0 || f == 4 || f == 7 || f == 10)
    &&& (y == 4 && digits_between(s, 0, 4) || y >= 5 && (s[0] == '+' || s[0] == '-')
        && digits_between(s, 1, y))
    &&& s.len() == t + 9 + f + 6
    &&& s[y] == '-' && digits_between(s, y + 1, y + 3) && s[y + 3] == '-'
    &&& digits_between(s, y + 4, t) && s[t] == 'T'
    &&& digits_between(s, t + 1, t + 3) && s[t + 3] == ':'
    &&& digits_between(s, t + 4, t + 6) && s[t + 6] == ':'
    &&& digits_between(s, t + 7, t + 9)
    &&& (f > 0 ==> s[t + 9] == '.' && digits_between(s, t + 10, t + 9 + f))
    &&& s.subrange(t + 9 + f, t + 9 + f + 6) == "+00:00"@
}

/// Whether `s` has the form of [`rfc3339_utc_at`] for some position of its
/// `T` and some length of its fraction.
pub open spec fn rfc3339_utc_text(s: Seq<char>) -> bool {
    exists|t: int, f: int| rfc3339_utc_at(s, t, f)
}

/// The current time in RFC 3339 form, as `chrono::Utc::now().to_rfc3339()`
/// gives it (`write_rfc3339` with `SecondsFormat::AutoSi` and no `Z`).
/// Which instant it shows depends on the clock and is not stated; its form is.
#[verifier::external_body]
pub fn now_rfc3339() -> (s: String)
    ensures
        rfc3339_utc_text(s@),
{
    chrono::Utc::now().to_rfc3339()
}

/// A random number from `rand::random::<u64>()`. Nothing is promised of it.
#[verifier::external_body]
pub fn random_u64() -> u64 {
    rand::random::<u64>()
}

} // verus!

verus! {

/// The IEEE 754 bit pattern of an `f64` that the model carries but never
/// computes with.
pub type F64Bits = u64;

/// The bit pattern of `0.0`.
pub open spec fn f64_zero_bits() -> F64Bits {
    0u64
}

/// The bit pattern of `1.0`.
pub open spec fn f64_one_bits() -> F64Bits {
    0x3FF0_0000_0000_0000u64
}

/// A span of time, in milliseconds.
#[derive(Debug, Clone, Copy, PartialEq, Eq, Structural)]
pub struct Duration {
    /// Length in milliseconds.
    pub millis: i64,
}

impl Duration {
    /// `secs` seconds.
    pub fn seconds(secs: i64) -> (d: Duration)
        requires
            -9_223_372_036_854_775 <= secs <= 9_223_372_036_854_775,
        ensures
            d.millis == secs * 1000,
    {
        Duration { millis: secs * 1000 }
    }

    /// `mins` minutes.
    pub fn minutes(mins: i64) -> (d: Duration)
        requires
            -153_722_867_280_912 <= mins <= 153_722_867_280_912,
        ensures
            d.millis == mins * 60_000,
    {
        Duration { millis: mins * 60_000 }
    }

    /// `hours` hours.
    pub fn hours(hours: i64) -> (d: Duration)
        requires
            -2_562_047_788_015 <= hours <= 2_562_047_788_015,
        ensures
            d.millis == hours * 3_600_000,
    {
        Duration { millis: hours * 3_600_000 }
    }

    /// The whole seconds in the span, rounded towards zero.
    pub open spec fn whole_seconds(self) -> int {
        if self.millis >= 0 {
            self.millis / 1000
        } else {
            -((-self.millis) / 1000)
        }
    }

    /// The whole seconds in the span, rounded towards zero.
    pub fn num_seconds(&self) -> (s: i64)
        ensures
            s == self.whole_seconds(),
    {
        let m: i128 = self.millis as i128;
        if m >= 0 {
            (m / 1000) as i64
        } else {
            let q: i128 = (-m) / 1000;
            (-q) as i64
        }
    }
}

} // verus!

verus! {

/// A fresh random identifier: `uuid::Uuid::new_v4()` in its hyphenated
/// form, 36 characters long. Nothing else is promised of it.
#[verifier::external_body]
pub fn new_uuid() -> (s: String)
    ensures
        s@.len() == 36,
{
    uuid::Uuid::new_v4().to_string()
}

} // verus!

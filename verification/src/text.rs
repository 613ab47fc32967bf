//! Text helpers: decimal rendering of numbers, message building and
//! substring search.
use vstd::prelude::*;
use vstd::string::*;

verus! {

/// The ASCII digit for `d`, which must be below ten.
pub open spec fn digit_char(d: nat) -> char {
    (48 + d) as char
}

/// The decimal rendering of `n`, without sign or leading zeros.
pub open spec fn decimal(n: nat) -> Seq<char>
    decreases n,
{
    if n < 10 {
        seq![digit_char(n)]
    } else {
        decimal(n / 10).push(digit_char(n % 10))
    }
}

/// Whether `pat` occurs in `hay` as a contiguous run of characters.
pub open spec fn occurs_in(hay: Seq<char>, pat: Seq<char>) -> bool {
    exists|i: int| 0 <= i && i + pat.len() <= hay.len() && #[trigger] hay.subrange(i, i + pat.len()) == pat
}

/// Renders `n` in decimal through std's `u64::to_string`.
/// Trusted: std documents `Display` for integers as the plain decimal
/// rendering, which is what `decimal` states.
#[verifier::external_body]
pub(crate) fn u64_to_decimal(n: u64) -> (s: String)
    ensures
        s@ == decimal(n as nat),
{
    n.to_string()
}

/// Substring test through std's `str::contains` with a `&str` pattern.
/// Trusted: std documents that it returns whether the pattern matches a
/// sub-slice of the string; on valid UTF-8 that is a run of characters.
#[verifier::external_body]
pub(crate) fn str_contains(hay: &str, pat: &str) -> (b: bool)
    ensures
        b == occurs_in(hay@, pat@),
{
    hay.contains(pat)
}

/// `prefix`, the decimal rendering of `n`, then `suffix`.
pub fn number_message(prefix: &str, n: u64, suffix: &str) -> (s: String)
    ensures
        s@ == prefix@ + decimal(n as nat) + suffix@,
{
    let digits = u64_to_decimal(n);
    let s = String::from_str(prefix);
    let s = s.concat(digits.as_str());
    s.concat(suffix)
}

/// `prefix`, then `middle`, then `suffix`.
pub fn text_message(prefix: &str, middle: &str, suffix: &str) -> (s: String)
    ensures
        s@ == prefix@ + middle@ + suffix@,
{
    let s = String::from_str(prefix);
    let s = s.concat(middle);
    s.concat(suffix)
}

} // verus!

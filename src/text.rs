//! Small text facilities: searching for NUL, trimming, decimal rendering.
use vstd::prelude::*;

verus! {

/// What `str::trim` leaves of a text: it drops leading and trailing Unicode
/// white space.
pub uninterp spec fn trim_of(s: Seq<char>) -> Seq<char>;

/// The decimal digits of a natural number, most significant first.
pub open spec fn decimal(n: nat) -> Seq<char>
    decreases n,
{
    let d = seq![char_of_digit((n % 10) as nat)];
    if n < 10 {
        d
    } else {
        decimal(n / 10) + d
    }
}

pub open spec fn char_of_digit(d: nat) -> char {
    if d == 0 { '0' }
    else if d == 1 { '1' }
    else if d == 2 { '2' }
    else if d == 3 { '3' }
    else if d == 4 { '4' }
    else if d == 5 { '5' }
    else if d == 6 { '6' }
    else if d == 7 { '7' }
    else if d == 8 { '8' }
    else { '9' }
}

/// Whether a text can be handed to the engine as a NUL-terminated string.
pub open spec fn has_nul(s: Seq<char>) -> bool {
    s.contains('\0')
}

/// Relies on `str::contains` with a `char` pattern: true iff the character occurs.
#[verifier::external_body]
pub(crate) fn contains_nul(s: &str) -> (r: bool)
    ensures
        r == has_nul(s@),
{
    s.contains('\0')
}

/// Relies on `str::trim`: the text without its leading and trailing white space.
#[verifier::external_body]
pub(crate) fn trim(s: &str) -> (r: &str)
    ensures
        r@ == trim_of(s@),
{
    s.trim()
}

/// Relies on `u32`'s `ToString` (through `Display`): its decimal digits.
#[verifier::external_body]
pub(crate) fn u32_to_decimal(n: u32) -> (r: String)
    ensures
        r@ == decimal(n as nat),
{
    n.to_string()
}

/// Concatenation of two texts.
pub fn concat(a: &str, b: &str) -> (r: String)
    ensures
        r@ == a@ + b@,
{
    let mut s = a.to_owned();
    s.append(b);
    s
}

} // verus!

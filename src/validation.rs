//! Field rules shared by the request types.
use vstd::prelude::*;

verus! {

/// What validator's e-mail check says of `s`.
pub uninterp spec fn email_accepted(s: Seq<char>) -> bool;

/// Relies on validator's `validate_email`: its verdict on the text alone; an
/// empty string is refused.
#[verifier::external_body]
pub(crate) fn is_valid_email(s: &str) -> (r: bool)
    ensures
        r == email_accepted(s@),
        s@.len() == 0 ==> !r,
{
    validator::validate_email(s)
}

/// The length rule of a text field, counted in characters.
pub open spec fn length_within(s: Seq<char>, min: nat, max: nat) -> bool {
    min <= s.len() <= max
}

pub fn has_length_within(s: &str, min: usize, max: usize) -> (r: bool)
    ensures
        r == length_within(s@, min as nat, max as nat),
{
    let n = s.unicode_len();
    min <= n && n <= max
}

} // verus!

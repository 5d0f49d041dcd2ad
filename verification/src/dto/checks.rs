//! Field checks that request bodies declare.
use vstd::prelude::*;
use crate::requests::FieldErrors;
use crate::text::owned;
use crate::validation::FieldError;

verus! {

/// Whether the `validator` crate's e-mail check accepts `s`. Fixed by `s`.
pub uninterp spec fn email_accepted(s: Seq<char>) -> bool;

/// `validator::ValidateEmail::validate_email` on a string. Claimed: the answer named by
/// `email_accepted`; text without `@` is refused.
#[verifier::external_body]
pub(crate) fn is_valid_email(s: &str) -> (r: bool)
    ensures
        r == email_accepted(s@),
        !s@.contains('@') ==> !r,
{
    validator::ValidateEmail::validate_email(&s)
}

/// Whether a text's length in characters lies within `min..=max`.
pub open spec fn length_within(s: Seq<char>, min: int, max: int) -> bool {
    min <= s.len() <= max
}

/// The number of characters of `s`, saturated at `usize::MAX`.
pub fn char_count(s: &str) -> (r: usize)
    ensures
        r as int == if s@.len() > usize::MAX {
            usize::MAX as int
        } else {
            s@.len() as int
        },
{
    let mut n: usize = 0;
    for c in it: s.chars()
        invariant
            it.seq() == s@,
            n as int == if it.index() > usize::MAX {
                usize::MAX as int
            } else {
                it.index() as int
            },
    {
        if n < usize::MAX {
            n = n + 1;
        }
    }
    n
}

/// A failed length check, with its message when the body declares one.
pub fn length_error(message: Option<&str>) -> (r: FieldError)
    ensures
        r@.code == "length"@,
        r@.message == match message {
            Some(m) => Some(m@),
            None => None,
        },
{
    let mut e = FieldError::new("length");
    e.message = match message {
        Some(m) => Some(owned(m)),
        None => None,
    };
    e
}

/// Appends the failures of one field, if it has any.
pub fn add_field(out: &mut Vec<FieldErrors>, field: &str, errors: Vec<FieldError>)
    ensures
        errors@.len() == 0 ==> final(out)@ == old(out)@,
        errors@.len() > 0 ==> final(out)@.len() == old(out)@.len() + 1 && final(out)@.take(
            old(out)@.len() as int,
        ) == old(out)@ && final(out)@.last().field@ == field@ && final(out)@.last().errors@
            == errors@,
{
    if errors.len() > 0 {
        out.push(FieldErrors { field: owned(field), errors });
        assert(final(out)@.take(old(out)@.len() as int) == old(out)@);
    }
}

} // verus!

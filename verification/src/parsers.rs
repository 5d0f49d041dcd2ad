//! Parsing request values: ids and suspension severities.
use vstd::prelude::*;
use crate::error::{AppError, AppErrorView};
use crate::text::{owned, push_str, str_equal};

verus! {

/// The 128-bit value `uuid::Uuid::parse_str` reads from `text`, or `None` when it refuses
/// the text. Fixed by the text.
pub uninterp spec fn uuid_parsed(text: Seq<char>) -> Option<u128>;

/// The lowercase hexadecimal digit for `d` (below 16).
pub open spec fn hex_digit(d: int) -> char {
    if d < 10 {
        (d + 48) as char
    } else {
        (d + 87) as char
    }
}

/// Hexadecimal digit number `k` of `value`, counted from the most significant (0..32).
pub open spec fn nibble(value: u128, k: int) -> int {
    (value as int / vstd::arithmetic::power::pow(16, (31 - k) as nat)) % 16
}

/// The number of hyphens before position `i` of the hyphenated form.
pub open spec fn hyphens_before(i: int) -> int {
    if i < 8 {
        0
    } else if i < 13 {
        1
    } else if i < 18 {
        2
    } else if i < 23 {
        3
    } else {
        4
    }
}

/// The text `uuid::Uuid` displays for a value: its 32 lowercase hexadecimal digits, most
/// significant first, in groups of 8, 4, 4, 4 and 12 joined by hyphens.
pub open spec fn uuid_text(value: u128) -> Seq<char> {
    Seq::new(
        36,
        |i: int|
            if i == 8 || i == 13 || i == 18 || i == 23 {
                '-'
            } else {
                hex_digit(nibble(value, i - hyphens_before(i)))
            },
    )
}

/// `uuid::Uuid::parse_str`, with the id taken as its 128-bit value. Claimed: the value is
/// the one named by `uuid_parsed`, and a text whose length is none of the accepted forms
/// (32 digits, 36 hyphenated, 38 braced, 45 with the `urn:uuid:` prefix) is refused.
/// The error text (the error's `Display`) is left unsaid.
#[verifier::external_body]
pub(crate) fn uuid_parse(text: &str) -> (r: Result<u128, String>)
    ensures
        match uuid_parsed(text@) {
            Some(v) => r matches Ok(v2) && v2 == v,
            None => r is Err,
        },
        !(text@.len() == 32 || text@.len() == 36 || text@.len() == 38 || text@.len() == 45) ==> r is Err,
{
    uuid::Uuid::parse_str(text).map(|u| u.as_u128()).map_err(|e| e.to_string())
}

/// `Uuid::to_string` of the id with value `value`. Claimed: the text is `uuid_text`, the
/// 36-character lowercase hyphenated form, which `parse_str` reads back to the same value.
#[verifier::external_body]
pub(crate) fn uuid_to_string(value: u128) -> (r: String)
    ensures
        r@ == uuid_text(value),
        r@.len() == 36,
        uuid_parsed(r@) == Some(value),
{
    uuid::Uuid::from_u128(value).to_string()
}

/// Parses an id given as text; text that is not a UUID is a bad request whose message
/// starts with `Invalid UUID: `.
pub fn parse_uuid(uuid: &str) -> (r: Result<u128, AppError>)
    ensures
        match uuid_parsed(uuid@) {
            Some(v) => r matches Ok(v2) && v2 == v,
            None => r matches Err(e) && e@ is BadRequest && e@->BadRequest_0.take(14)
                == "Invalid UUID: "@,
        },
{
    match uuid_parse(uuid) {
        Ok(v) => Ok(v),
        Err(text) => {
            let mut msg = owned("Invalid UUID: ");
            push_str(&mut msg, text.as_str());
            proof {
                reveal_strlit("Invalid UUID: ");
                assert(msg@.take(14) == "Invalid UUID: "@);
            }
            Err(AppError::BadRequest(msg))
        },
    }
}

/// How long a suspension lasts, by severity.
#[derive(Debug, Clone, Copy, PartialEq, Eq, Structural)]
pub enum SuspensionSeverity {
    Low,
    Medium,
    High,
}

/// The severity named `s`, if any.
pub open spec fn severity_named(s: Seq<char>) -> Option<SuspensionSeverity> {
    if s == "low"@ {
        Some(SuspensionSeverity::Low)
    } else if s == "medium"@ {
        Some(SuspensionSeverity::Medium)
    } else if s == "high"@ {
        Some(SuspensionSeverity::High)
    } else {
        None
    }
}

/// Reads a suspension severity: `low`, `medium` or `high`; anything else is a bad request.
pub fn parse_suspension_severity(value: &str) -> (r: Result<SuspensionSeverity, AppError>)
    ensures
        match severity_named(value@) {
            Some(s) => r matches Ok(s2) && s2 == s,
            None => r matches Err(e) && e@ == AppErrorView::BadRequest(
                "Invalid suspension severity"@,
            ),
        },
{
    if str_equal(value, "low") {
        Ok(SuspensionSeverity::Low)
    } else if str_equal(value, "medium") {
        Ok(SuspensionSeverity::Medium)
    } else if str_equal(value, "high") {
        Ok(SuspensionSeverity::High)
    } else {
        Err(AppError::BadRequest(owned("Invalid suspension severity")))
    }
}

} // verus!

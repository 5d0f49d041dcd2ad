//! Rendering stored times.
use vstd::prelude::*;
use crate::error::opt_view;

verus! {

/// The RFC 3339 text `chrono` writes for the UTC time `micros` microseconds after the Unix
/// epoch, or `None` when `chrono` cannot represent that time. Fixed by `micros`.
pub uninterp spec fn rfc3339_of_micros(micros: i64) -> Option<Seq<char>>;

/// `DateTime::<Utc>::from_timestamp_micros` followed by `to_rfc3339`. Claimed: the text
/// named by `rfc3339_of_micros`.
#[verifier::external_body]
fn rfc3339_text(micros: i64) -> (r: Option<String>)
    ensures
        opt_view(r) == rfc3339_of_micros(micros),
{
    chrono::DateTime::from_timestamp_micros(micros).map(|dt| dt.to_rfc3339())
}

/// The RFC 3339 text of a stored UTC time, given in microseconds since the Unix epoch;
/// `None` for a time outside the range `chrono` represents.
pub fn format_naive_datetime(micros: i64) -> (r: Option<String>)
    ensures
        opt_view(r) == rfc3339_of_micros(micros),
{
    rfc3339_text(micros)
}

/// The text `chrono` displays for the naive UTC time `micros` microseconds after the Unix
/// epoch (`2023-11-14 22:13:20`, with a fraction when there is one), or `None` when
/// `chrono` cannot represent that time. Fixed by `micros`.
pub uninterp spec fn naive_text_of_micros(micros: i64) -> Option<Seq<char>>;

/// `DateTime::<Utc>::from_timestamp_micros` followed by `naive_utc().to_string()`.
/// Claimed: the text named by `naive_text_of_micros`.
#[verifier::external_body]
fn naive_text(micros: i64) -> (r: Option<String>)
    ensures
        opt_view(r) == naive_text_of_micros(micros),
{
    chrono::DateTime::from_timestamp_micros(micros).map(|dt| dt.naive_utc().to_string())
}

/// The text of a stored time in listings: the naive UTC date and time; a time outside the
/// range `chrono` represents (which no stored time is) gives the empty text.
pub fn stored_time_text(micros: i64) -> (r: String)
    ensures
        r@ == match naive_text_of_micros(micros) {
            Some(t) => t,
            None => Seq::<char>::empty(),
        },
{
    match naive_text(micros) {
        Some(t) => t,
        None => String::new(),
    }
}

} // verus!

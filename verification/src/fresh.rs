//! Values drawn from the environment: fresh identifiers and the current
//! wall-clock time. Nothing is assumed about which value comes back beyond
//! its shape; callers state what holds whatever the environment returned.

use vstd::prelude::*;

verus! {

/// Relies on uuid::Uuid::new_v4 and its Display form: a random version-4
/// UUID rendered in the hyphenated format, which is thirty-six characters.
/// The value itself is random; nothing further is assumed of it.
#[verifier::external_body]
pub(crate) fn fresh_id() -> (r: String)
    ensures
        r@.len() == 36,
{
    uuid::Uuid::new_v4().to_string()
}

/// Relies on chrono::Utc::now and DateTime::to_rfc3339: the current time,
/// rendered as an RFC 3339 timestamp. The value depends on the clock, so
/// nothing is assumed of it.
#[verifier::external_body]
pub(crate) fn now_rfc3339() -> (r: String)
{
    chrono::Utc::now().to_rfc3339()
}

} // verus!

//! Time-ordered identifiers and wall-clock timestamps, drawn from outside
//! the verified core.

use vstd::prelude::*;

verus! {

/// Relies on `uuid::Uuid::now_v7` (read out through `Uuid::as_u128`): a
/// fresh identifier built from the current time and random bits, so values
/// drawn later sort higher. The value depends on the clock and on chance,
/// so nothing is promised of it; callers must treat a collision with an
/// existing identifier as possible.
#[verifier::external_body]
pub(crate) fn fresh_id() -> (r: u128) {
    uuid::Uuid::now_v7().as_u128()
}

/// Relies on `chrono::Utc::now` and `DateTime::timestamp_millis`: the
/// current time as milliseconds since the Unix epoch. The value depends on
/// the clock, so nothing is promised of it.
#[verifier::external_body]
pub(crate) fn now_millis() -> (r: u64) {
    chrono::Utc::now().timestamp_millis() as u64
}

} // verus!

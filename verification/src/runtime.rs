//! Identifiers and clock readings drawn from the environment.
//!
//! Every value here depends on chance or on the wall clock, so nothing is
//! promised of it; verified callers state what holds whatever comes back.

use vstd::prelude::*;

verus! {

/// Relies on `uuid::Uuid::new_v4` and its text form: a fresh random
/// identifier. The value depends on chance, so nothing is promised of it.
#[verifier::external_body]
pub fn fresh_instance_id() -> (r: String) {
    uuid::Uuid::new_v4().to_string()
}

/// Relies on `chrono::Utc::now` and `DateTime::timestamp`: the current time
/// in whole seconds. The value depends on the clock, so nothing is promised
/// of it.
#[verifier::external_body]
pub fn now_seconds() -> (r: i64) {
    chrono::Utc::now().timestamp()
}

/// Relies on `chrono::Utc::now` and `DateTime::to_rfc3339`: the current time
/// as text. The value depends on the clock, so nothing is promised of it.
#[verifier::external_body]
pub fn now_rfc3339() -> (r: String) {
    chrono::Utc::now().to_rfc3339()
}

} // verus!

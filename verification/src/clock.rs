//! The wall clock, behind trusted wrappers.
//!
//! Rate limiting and circuit breaking are pure state machines over
//! explicit timestamps; these wrappers are the only place the clock is
//! read.  Nothing can be promised of what they return.

use vstd::prelude::*;

verus! {

/// Relies on chrono::Utc::now and timestamp_millis: the current time as
/// milliseconds since the epoch.
#[verifier::external_body]
fn now_millis_raw() -> (r: i64) {
    chrono::Utc::now().timestamp_millis()
}

/// The current time in milliseconds since the epoch, clamped to zero for
/// clocks set before it.
pub fn now_millis() -> (r: u64) {
    let ms = now_millis_raw();
    if ms < 0 {
        0
    } else {
        ms as u64
    }
}

} // verus!

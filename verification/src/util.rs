//! Clock access and small shared constants.

use std::time::{SystemTime, UNIX_EPOCH};
use vstd::prelude::*;

verus! {

/// The header that authenticates control-plane calls to the controller.
pub const HEADER_BUBBLE_SESSION: &'static str = "X-Bubble-Session";

/// Relies on std's `SystemTime::now`: microseconds since the Unix epoch,
/// or zero if the clock reads earlier than the epoch.
#[verifier::external_body]
pub fn now_micros() -> u128 {
    match SystemTime::now().duration_since(UNIX_EPOCH) {
        Ok(d) => d.as_micros(),
        Err(_) => 0,
    }
}

} // verus!

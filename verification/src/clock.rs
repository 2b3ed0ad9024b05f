//! The wall clock.

use std::time::{SystemTime, UNIX_EPOCH};
use vstd::prelude::*;

verus! {

/// Milliseconds since the Unix epoch, read from the system clock with
/// `SystemTime::now`; 0 where the clock stands before the epoch.
///
/// Trusted, and nothing is claimed of the value: two readings may differ in
/// either direction.
#[verifier::external_body]
pub fn get_epoch_millis() -> (now: u128) {
    SystemTime::now().duration_since(UNIX_EPOCH).unwrap_or_default().as_millis()
}

} // verus!

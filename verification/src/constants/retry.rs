//! How often and how patiently a failed request is repeated.

use vstd::prelude::*;

verus! {

/// How many times a request is repeated after its first attempt.
pub const MAX_RETRIES: u32 = 3;

/// The wait before the first repetition, in seconds; each further wait is
/// twice the one before.
pub const BASE_DELAY_SECS: u64 = 2;

} // verus!

//! Units of time.

use vstd::prelude::*;

verus! {

/// Milliseconds in an hour.
pub const MILLIS_PER_HOUR: i64 = 3_600_000;

} // verus!

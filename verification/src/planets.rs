//! The bodies that the library knows, and the Earth's day that their
//! calendars are measured against.

pub mod mars;

use vstd::prelude::*;

verus! {

/// The Earth's rotation against the Sun: 86 400 seconds, in billionths.
pub const EARTH_ROTATIONAL_PERIOD: i64 = 86_400_000_000_000;

} // verus!

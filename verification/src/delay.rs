//! The host sleep capability.

use vstd::prelude::*;

verus! {

/// Marker for the host's millisecond-sleep capability. The surrounding
/// program implements the actual blocking wait on it and hands it to the
/// sensor drivers during bring-up; nothing in the verified core sleeps.
pub struct Delay;

} // verus!

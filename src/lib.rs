use vstd::prelude::*;

// A read-through refresh cache for the device check-in statistics, and the
// decisions of the check-in write path.
pub mod checkin;
pub mod entry;
pub mod statistics;
pub mod scheduler;
pub mod store;

verus! {

} // verus!

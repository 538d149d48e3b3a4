//! The concurrency and resilience core of a CanSat flight computer: a bus
//! arbiter shared by periodic tasks, a fixed-interval retry policy, a
//! latest-wins broadcast slot, and a closed error taxonomy with cause chains.
//!
//! Every item here is a plain state machine or value type; the board side
//! drives them from its async tasks.

use vstd::prelude::*;

pub mod bus;
pub mod display;
pub mod errors;
pub mod retry;
pub mod slot;
pub mod task;
pub mod time;

verus! {

} // verus!

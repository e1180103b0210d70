//! The per-worker task that an optimistic parallel block executor uses to run
//! transactions: it classifies what the virtual machine returned, resolves
//! deferred numeric deltas against a view of state, and turns committed
//! effects into storage write operations.
use vstd::prelude::*;

pub mod state;
pub mod write_op;
pub mod delta;
pub mod output;
pub mod execution;
pub mod task;

verus! {

} // verus!

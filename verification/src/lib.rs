mod emptyable_mutex;
mod inlinable_ptr;

pub use emptyable_mutex::LockAttempt;
pub use emptyable_mutex::LockState;
pub use emptyable_mutex::Mutex;
pub use emptyable_mutex::MutexGuard;
pub use emptyable_mutex::acquires_from;
pub use emptyable_mutex::lemma_mutual_exclusion;
pub use emptyable_mutex::lemma_state_fidelity;
pub use emptyable_mutex::no_value_from;
pub use emptyable_mutex::released_state;
pub use emptyable_mutex::lock_step;
pub use inlinable_ptr::InlinableDynPtr;
pub use inlinable_ptr::InlinablePtr;
pub use inlinable_ptr::fits_direct;
pub use inlinable_ptr::fits_tagged;
pub use inlinable_ptr::lemma_cell_round_trip;
pub use inlinable_ptr::lemma_dyn_cell_round_trip;
pub use inlinable_ptr::lemma_dyn_dispatch_round_trip;

use vstd::prelude::*;

verus! {

/// Outcome of driving one step of a unit of work: either the work is
/// finished and the task may be retired, or it could not complete
/// immediately and must be stepped again later.
#[derive(Clone, Copy, PartialEq, Eq, Structural, Debug)]
pub enum CallResult {
    Finished,
    Wait,
}

} // verus!

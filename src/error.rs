use vstd::prelude::*;

verus! {

/// Why a pool could not be built.
#[derive(Debug, Clone, Copy, PartialEq, Eq, Structural)]
pub enum PoolCreationError {
    /// The requested thread count was zero: a pool needs at least one worker.
    LessThanOne,
}

} // verus!

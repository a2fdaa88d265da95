//! The ways in which a step of the engine can fail.

use vstd::prelude::*;

verus! {

/// An error reported by the engine. None of them stops the run loop: each
/// belongs to the one completion whose handling produced it.
#[derive(Clone, Copy, Debug, PartialEq, Eq, Structural)]
pub enum EngineError {
    /// A resource index does not fit in the 48 bits an identifier has for it.
    IndexRange { idx: u64 },
    /// The submission queue has no free slot.
    QueueFull,
    /// A completion carries a category tag that no category uses.
    UnknownCategory { tag: u64 },
    /// An accept completion names a listener that was never registered.
    UnknownListener { idx: u64 },
    /// The completed operation itself failed, with this OS error code.
    Io { errno: i32 },
    /// Waiting on the completion queue failed, with this OS error code.
    Wait { errno: i32 },
}

} // verus!

//! The submission side of the kernel queue, as the engine sees it: a bounded
//! list of operations that are prepared and not yet handed to the kernel.

use crate::error::EngineError;
use crate::token::Token;
use vstd::prelude::*;

verus! {

/// The bytes written to every connection right after it is accepted.
pub const GREETING: &'static str = "asdf\n";

/// A fully described operation for the kernel queue.
#[derive(Clone, Copy, Debug, PartialEq, Eq, Structural)]
pub enum Operation {
    /// Accept one connection on the listening socket `listener`, with
    /// close-on-exec set on the new descriptor.
    Accept { listener: i32, token: Token },
    /// Write `GREETING` to `descriptor`, at offset zero.
    Write { descriptor: i32, token: Token },
}

/// What the kernel reports of a finished operation: the identifier that was
/// submitted with it, and a count or descriptor, or else an OS error code.
#[derive(Clone, Copy, Debug, PartialEq, Eq)]
pub struct Completion {
    pub token: Token,
    pub result: Result<u32, i32>,
}

/// The operations prepared since the last submit call, oldest first, in a
/// queue with a fixed number of slots.
pub struct SubmissionQueue {
    entries: usize,
    prepared: Vec<Operation>,
}

impl View for SubmissionQueue {
    type V = Seq<Operation>;

    closed spec fn view(&self) -> Seq<Operation> {
        self.prepared@
    }
}

impl SubmissionQueue {
    #[verifier::type_invariant]
    spec fn within_capacity(self) -> bool {
        self.prepared@.len() <= self.entries
    }

    /// The number of slots.
    pub closed spec fn capacity(self) -> nat {
        self.entries as nat
    }

    /// An empty queue with `entries` slots.
    pub fn new(entries: u32) -> (queue: SubmissionQueue)
        ensures
            queue@ == Seq::<Operation>::empty(),
            queue.capacity() == entries,
    {
        SubmissionQueue { entries: entries as usize, prepared: Vec::new() }
    }

    /// The number of slots.
    pub fn entries(&self) -> (entries: usize)
        ensures
            entries == self.capacity(),
    {
        self.entries
    }

    /// The number of prepared operations, which never exceeds the number of
    /// slots.
    pub fn len(&self) -> (len: usize)
        ensures
            len == self@.len(),
            len <= self.capacity(),
    {
        proof {
            use_type_invariant(self);
        }
        self.prepared.len()
    }

    /// The prepared operations, oldest first.
    pub fn prepared(&self) -> (prepared: &Vec<Operation>)
        ensures
            prepared@ == self@,
    {
        &self.prepared
    }

    /// Takes the next free slot for `op`. With no slot free the queue stays
    /// as it is and the operation is refused.
    pub fn prepare_submission(&mut self, op: Operation) -> (r: Result<(), EngineError>)
        ensures
            final(self).capacity() == old(self).capacity(),
            old(self)@.len() < old(self).capacity() ==> r is Ok && final(self)@ == old(self)@.push(op),
            old(self)@.len() >= old(self).capacity() ==> r == Err::<(), EngineError>(
                EngineError::QueueFull,
            ) && final(self)@ == old(self)@,
    {
        if self.prepared.len() >= self.entries {
            return Err(EngineError::QueueFull);
        }
        // The list is taken out and put back whole, so that the queue is
        // within its capacity at every point.
        let mut prepared: Vec<Operation> = Vec::new();
        core::mem::swap(&mut prepared, &mut self.prepared);
        prepared.push(op);
        self.prepared = prepared;
        Ok(())
    }

    /// Hands out every prepared operation, oldest first, for one submit
    /// call, and leaves all slots free.
    pub fn submit_batch(&mut self) -> (batch: Vec<Operation>)
        ensures
            batch@ == old(self)@,
            final(self)@ == Seq::<Operation>::empty(),
            final(self).capacity() == old(self).capacity(),
    {
        let mut batch: Vec<Operation> = Vec::new();
        core::mem::swap(&mut batch, &mut self.prepared);
        batch
    }
}

} // verus!

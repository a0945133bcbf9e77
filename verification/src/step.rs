//! Trace input and synthesized execution steps.

use vstd::prelude::*;
use crate::error::Error;
use crate::operation::OperationRef;

verus! {

/// The EVM stack holds at most this many slots; slot addresses count down
/// from here.
pub const STACK_CAPACITY: u64 = 1024;

/// One raw trace record from the external tracer: the state of one call
/// frame just before one instruction executes. The stack is stored bottom
/// first; its last element is the top of the stack.
#[derive(Debug, Clone, PartialEq, Eq)]
pub struct TraceStep {
    /// Program counter of the instruction about to execute.
    pub pc: u64,
    /// Full stack snapshot, bottom first.
    pub stack: Vec<u64>,
}

impl TraceStep {
    /// A trace step is well formed when its stack fits the EVM's capacity.
    pub open spec fn wf(&self) -> bool {
        self.stack@.len() <= STACK_CAPACITY
    }

    /// The `n`-th stack value counted from the top, in spec form; meaningful
    /// only for `n < len`.
    pub open spec fn nth_from_top(&self, n: int) -> u64 {
        self.stack@[self.stack@.len() - 1 - n]
    }

    /// The `n`-th stack value counted from the top. Fails with
    /// `MalformedTrace` exactly when the slot is unfilled (stack underflow).
    pub fn nth_last(&self, n: usize) -> (r: Result<u64, Error>)
        ensures
            n < self.stack@.len() ==> r == Ok::<u64, Error>(self.nth_from_top(n as int)),
            n >= self.stack@.len() ==> r == Err::<u64, Error>(Error::MalformedTrace),
    {
        if n < self.stack.len() {
            Ok(self.stack[self.stack.len() - 1 - n])
        } else {
            Err(Error::MalformedTrace)
        }
    }

    /// The slot address of the `n`-th stack value from the top: addresses
    /// count down from the stack capacity, so the bottom slot of a full
    /// stack sits at address zero.
    pub fn nth_last_filled(&self, n: usize) -> (r: u64)
        requires
            self.wf(),
            n < self.stack@.len(),
        ensures
            r == STACK_CAPACITY - self.stack@.len() + n,
    {
        STACK_CAPACITY - (self.stack.len() as u64) + (n as u64)
    }
}

/// One synthesized record per executed instruction: the program counter, the
/// row-counter value in effect when processing began, and the ordered
/// references to every operation the instruction performed.
#[derive(Debug, Clone, PartialEq, Eq)]
pub struct ExecStep {
    pub pc: u64,
    pub rwc_start: u64,
    pub bus_mapping_instance: Vec<OperationRef>,
}

} // verus!

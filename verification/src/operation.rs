//! Strongly-typed operation log: one container per operation kind, each
//! entry carrying its row-counter value and read/write direction.

use vstd::prelude::*;

verus! {

/// Direction of a recorded operation.
#[derive(Debug, Clone, Copy, PartialEq, Eq, Structural)]
pub enum RW {
    Read,
    Write,
}

/// A call-context field readable through the tracker.
#[derive(Debug, Clone, Copy, PartialEq, Eq, Structural)]
pub enum CallContextField {
    TxId,
    CallerId,
    CallDataLength,
    CallDataOffset,
}

/// A read or write of one stack slot.
#[derive(Debug, Clone, Copy, PartialEq, Eq, Structural)]
pub struct StackOp {
    pub call_id: u64,
    pub address: u64,
    pub value: u64,
}

/// A read or write of one memory byte.
#[derive(Debug, Clone, Copy, PartialEq, Eq, Structural)]
pub struct MemoryOp {
    pub call_id: u64,
    pub address: u64,
    pub value: u8,
}

/// A read of one call-context field.
#[derive(Debug, Clone, Copy, PartialEq, Eq, Structural)]
pub struct CallContextOp {
    pub call_id: u64,
    pub field: CallContextField,
    pub value: u64,
}

/// One appended operation: the payload, its direction, and the row-counter
/// value it consumed.
#[derive(Debug, Clone, Copy, PartialEq, Eq, Structural)]
pub struct OperationEntry<T> {
    pub rwc: u64,
    pub rw: RW,
    pub op: T,
}

/// The operation kind an `OperationRef` points into.
#[derive(Debug, Clone, Copy, PartialEq, Eq, Structural)]
pub enum OpKind {
    Stack,
    Memory,
    CallContext,
}

/// A stable reference to one operation: its kind's container and the index
/// of the entry within that container.
#[derive(Debug, Clone, Copy, PartialEq, Eq, Structural)]
pub struct OperationRef {
    pub kind: OpKind,
    pub index: usize,
}

/// The append-only operation log, one container per operation kind.
#[derive(Debug, Clone, PartialEq, Eq)]
pub struct OperationContainer {
    pub stack: Vec<OperationEntry<StackOp>>,
    pub memory: Vec<OperationEntry<MemoryOp>>,
    pub call_context: Vec<OperationEntry<CallContextOp>>,
}

/// Row counters strictly increase along a container: entries appended later
/// carry strictly larger counter values.
pub open spec fn rwcs_strictly_increasing<T>(s: Seq<OperationEntry<T>>) -> bool {
    forall|i: int, j: int| 0 <= i < j < s.len() ==> s[i].rwc < s[j].rwc
}

/// Every entry's row counter lies strictly below `bound` (the counter value
/// the next operation would consume).
pub open spec fn rwcs_below<T>(s: Seq<OperationEntry<T>>, bound: u64) -> bool {
    forall|i: int| 0 <= i < s.len() ==> s[i].rwc < bound
}

impl OperationContainer {
    pub fn new() -> (r: OperationContainer)
        ensures
            r.stack@ == Seq::<OperationEntry<StackOp>>::empty(),
            r.memory@ == Seq::<OperationEntry<MemoryOp>>::empty(),
            r.call_context@ == Seq::<OperationEntry<CallContextOp>>::empty(),
    {
        OperationContainer { stack: Vec::new(), memory: Vec::new(), call_context: Vec::new() }
    }

    /// The log is well formed below the counter `bound`: every container is
    /// strictly increasing in row counter and exhausted strictly below
    /// `bound`.
    pub open spec fn wf(&self, bound: u64) -> bool {
        &&& rwcs_strictly_increasing(self.stack@)
        &&& rwcs_strictly_increasing(self.memory@)
        &&& rwcs_strictly_increasing(self.call_context@)
        &&& rwcs_below(self.stack@, bound)
        &&& rwcs_below(self.memory@, bound)
        &&& rwcs_below(self.call_context@, bound)
    }
}

} // verus!

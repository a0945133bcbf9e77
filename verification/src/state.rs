//! The execution-state tracker: owns the current call frame, the transaction
//! context, the row counter and the operation log, and exposes primitives
//! that record one operation each while auto-assigning row counters.

use vstd::prelude::*;
use crate::copy::CopyEvent;
use crate::error::Error;
use crate::memory::{byte_at, Memory};
use crate::operation::{
    CallContextField, CallContextOp, MemoryOp, OpKind, OperationContainer, OperationEntry,
    OperationRef, StackOp, RW,
};
use crate::step::{ExecStep, TraceStep};

verus! {

/// The state belonging to one call during execution. Root frames take their
/// call data from the transaction input; non-root frames' call data is a
/// window of `call_data_length` bytes into the caller's memory starting at
/// `call_data_offset`.
#[derive(Debug, Clone, PartialEq, Eq)]
pub struct CallFrame {
    pub call_id: u64,
    /// The calling frame's id; meaningless for a root frame.
    pub caller_id: u64,
    /// Whether this is the outermost call of the transaction.
    pub is_root: bool,
    /// Where the call-data window starts in the caller's memory; zero for a
    /// root frame, whose call data is not a memory region.
    pub call_data_offset: u64,
    /// Length of the call-data window.
    pub call_data_length: u64,
    /// The call-data bytes themselves.
    pub call_data: Vec<u8>,
    /// The frame's own memory.
    pub memory: Memory,
}

impl CallFrame {
    /// A frame is well formed when its call-data buffer matches the declared
    /// window: the buffer holds exactly `call_data_length` bytes, the window
    /// end fits the address width, and a root frame's window starts at zero.
    pub open spec fn wf(&self) -> bool {
        &&& self.call_data@.len() == self.call_data_length
        &&& self.call_data_offset + self.call_data_length <= u64::MAX
        &&& (self.is_root ==> self.call_data_offset == 0)
    }
}

/// The execution-state tracker. Every `*_read`/`*_write` primitive draws the
/// next row-counter value, appends the operation to the log and appends a
/// reference to it to the current execution step, in call order.
#[derive(Debug, Clone, PartialEq, Eq)]
pub struct Tracker {
    /// The next row-counter value an operation will consume. Strictly
    /// increasing across the whole block.
    pub rwc: u64,
    /// Id of the transaction being processed.
    pub tx_id: u64,
    /// The current call frame.
    pub call: CallFrame,
    /// The append-only operation log.
    pub container: OperationContainer,
    /// The block's copy events, in generation order.
    pub copy_events: Vec<CopyEvent>,
}

impl Tracker {
    /// The tracker is well formed when its frame is and every logged
    /// operation carries a counter value strictly below the next one to be
    /// drawn, strictly increasing within each container.
    pub open spec fn wf(&self) -> bool {
        &&& self.call.wf()
        &&& self.container.wf(self.rwc)
    }

    /// A fresh tracker for one call: empty log, no copy events, the row
    /// counter at its first value.
    pub fn new(tx_id: u64, call: CallFrame) -> (r: Tracker)
        ensures
            r.rwc == 1,
            r.tx_id == tx_id,
            r.call == call,
            r.container.stack@ == Seq::<OperationEntry<StackOp>>::empty(),
            r.container.memory@ == Seq::<OperationEntry<MemoryOp>>::empty(),
            r.container.call_context@ == Seq::<OperationEntry<CallContextOp>>::empty(),
            r.copy_events@ == Seq::<CopyEvent>::empty(),
            call.wf() ==> r.wf(),
    {
        Tracker {
            rwc: 1,
            tx_id,
            call,
            container: OperationContainer::new(),
            copy_events: Vec::new(),
        }
    }

    /// Begin a synthesized execution step for one trace record: it carries
    /// the record's program counter, the row counter in effect, and no
    /// operation references yet.
    pub fn new_step(&self, geth_step: &TraceStep) -> (r: ExecStep)
        ensures
            r.pc == geth_step.pc,
            r.rwc_start == self.rwc,
            r.bus_mapping_instance@ == Seq::<OperationRef>::empty(),
    {
        ExecStep { pc: geth_step.pc, rwc_start: self.rwc, bus_mapping_instance: Vec::new() }
    }

    /// Record a read of one stack slot of the current call, consuming the
    /// next row counter.
    pub fn stack_read(&mut self, exec_step: &mut ExecStep, address: u64, value: u64)
        requires
            old(self).wf(),
            old(self).rwc < u64::MAX,
        ensures
            final(self).wf(),
            final(self).rwc == old(self).rwc + 1,
            final(self).container.stack@ == old(self).container.stack@.push(
                OperationEntry {
                    rwc: old(self).rwc,
                    rw: RW::Read,
                    op: StackOp { call_id: old(self).call.call_id, address, value },
                },
            ),
            final(self).container.memory == old(self).container.memory,
            final(self).container.call_context == old(self).container.call_context,
            final(self).tx_id == old(self).tx_id,
            final(self).call == old(self).call,
            final(self).copy_events == old(self).copy_events,
            final(exec_step).bus_mapping_instance@ == old(exec_step).bus_mapping_instance@.push(
                OperationRef { kind: OpKind::Stack, index: old(self).container.stack@.len() as usize },
            ),
            final(exec_step).pc == old(exec_step).pc,
            final(exec_step).rwc_start == old(exec_step).rwc_start,
    {
        let index = self.container.stack.len();
        let entry = OperationEntry {
            rwc: self.rwc,
            rw: RW::Read,
            op: StackOp { call_id: self.call.call_id, address, value },
        };
        self.container.stack.push(entry);
        exec_step.bus_mapping_instance.push(OperationRef { kind: OpKind::Stack, index });
        self.rwc = self.rwc + 1;
    }

    /// Record a read of one call-context field, consuming the next row
    /// counter.
    pub fn call_context_read(
        &mut self,
        exec_step: &mut ExecStep,
        call_id: u64,
        field: CallContextField,
        value: u64,
    )
        requires
            old(self).wf(),
            old(self).rwc < u64::MAX,
        ensures
            final(self).wf(),
            final(self).rwc == old(self).rwc + 1,
            final(self).container.call_context@ == old(self).container.call_context@.push(
                OperationEntry { rwc: old(self).rwc, rw: RW::Read, op: CallContextOp { call_id, field, value } },
            ),
            final(self).container.stack == old(self).container.stack,
            final(self).container.memory == old(self).container.memory,
            final(self).tx_id == old(self).tx_id,
            final(self).call == old(self).call,
            final(self).copy_events == old(self).copy_events,
            final(exec_step).bus_mapping_instance@ == old(exec_step).bus_mapping_instance@.push(
                OperationRef {
                    kind: OpKind::CallContext,
                    index: old(self).container.call_context@.len() as usize,
                },
            ),
            final(exec_step).pc == old(exec_step).pc,
            final(exec_step).rwc_start == old(exec_step).rwc_start,
    {
        let index = self.container.call_context.len();
        let entry = OperationEntry {
            rwc: self.rwc,
            rw: RW::Read,
            op: CallContextOp { call_id, field, value },
        };
        self.container.call_context.push(entry);
        exec_step.bus_mapping_instance.push(OperationRef { kind: OpKind::CallContext, index });
        self.rwc = self.rwc + 1;
    }

    /// Record a memory operation as given, consuming the next row counter.
    /// Used for source-side reads of a copy, which touch the caller's frame
    /// and leave the byte as it is.
    pub fn push_memory_op(&mut self, exec_step: &mut ExecStep, rw: RW, op: MemoryOp)
        requires
            old(self).wf(),
            old(self).rwc < u64::MAX,
        ensures
            final(self).wf(),
            final(self).rwc == old(self).rwc + 1,
            final(self).container.memory@ == old(self).container.memory@.push(
                OperationEntry { rwc: old(self).rwc, rw, op },
            ),
            final(self).container.stack == old(self).container.stack,
            final(self).container.call_context == old(self).container.call_context,
            final(self).tx_id == old(self).tx_id,
            final(self).call == old(self).call,
            final(self).copy_events == old(self).copy_events,
            final(exec_step).bus_mapping_instance@ == old(exec_step).bus_mapping_instance@.push(
                OperationRef { kind: OpKind::Memory, index: old(self).container.memory@.len() as usize },
            ),
            final(exec_step).pc == old(exec_step).pc,
            final(exec_step).rwc_start == old(exec_step).rwc_start,
    {
        let index = self.container.memory.len();
        let entry = OperationEntry { rwc: self.rwc, rw, op };
        self.container.memory.push(entry);
        exec_step.bus_mapping_instance.push(OperationRef { kind: OpKind::Memory, index });
        self.rwc = self.rwc + 1;
    }

    /// Write one byte of the current frame's memory: extend the memory to
    /// cover the address (zero-filling new bytes), set the byte, and record
    /// the write, consuming the next row counter. Fails with
    /// `ArithmeticOverflow` exactly when the address does not fit the
    /// memory's index width.
    pub fn memory_write(&mut self, exec_step: &mut ExecStep, address: u64, value: u8) -> (r: Result<
        (),
        Error,
    >)
        requires
            old(self).wf(),
            old(self).rwc < u64::MAX,
        ensures
            final(self).wf(),
            r is Ok <==> address < usize::MAX as u64,
            r is Err ==> r == Err::<(), Error>(Error::ArithmeticOverflow)
                && *final(self) == *old(self) && *final(exec_step) == *old(exec_step),
            r is Ok ==> {
                &&& final(self).rwc == old(self).rwc + 1
                &&& final(self).container.memory@ == old(self).container.memory@.push(
                    OperationEntry {
                        rwc: old(self).rwc,
                        rw: RW::Write,
                        op: MemoryOp { call_id: old(self).call.call_id, address, value },
                    },
                )
                &&& final(self).container.stack == old(self).container.stack
                &&& final(self).container.call_context == old(self).container.call_context
                &&& final(self).tx_id == old(self).tx_id
                &&& final(self).copy_events == old(self).copy_events
                &&& (final(self).call == (CallFrame {
                    memory: final(self).call.memory,
                    ..old(self).call
                }))
                &&& final(self).call.memory@.len() == if old(self).call.memory@.len() >= address
                    + 1 {
                    old(self).call.memory@.len() as int
                } else {
                    address + 1
                }
                &&& final(self).call.memory@[address as int] == value
                &&& forall|i: int|
                    0 <= i < final(self).call.memory@.len() && i != address
                        ==> final(self).call.memory@[i] == byte_at(old(self).call.memory@, i)
                &&& final(exec_step).bus_mapping_instance@
                    == old(exec_step).bus_mapping_instance@.push(
                    OperationRef {
                        kind: OpKind::Memory,
                        index: old(self).container.memory@.len() as usize,
                    },
                )
                &&& final(exec_step).pc == old(exec_step).pc
                &&& final(exec_step).rwc_start == old(exec_step).rwc_start
            },
    {
        if address >= usize::MAX as u64 {
            return Err(Error::ArithmeticOverflow);
        }
        let a = address as usize;
        self.call.memory.extend_at_least(a + 1);
        self.call.memory.0[a] = value;
        let index = self.container.memory.len();
        let entry = OperationEntry {
            rwc: self.rwc,
            rw: RW::Write,
            op: MemoryOp { call_id: self.call.call_id, address, value },
        };
        self.container.memory.push(entry);
        exec_step.bus_mapping_instance.push(OperationRef { kind: OpKind::Memory, index });
        self.rwc = self.rwc + 1;
        Ok(())
    }

    /// Counter monotonicity: in a well-formed tracker, two operations of one
    /// container appended in that order carry strictly increasing row
    /// counters, each strictly below the next counter to be drawn.
    pub proof fn lemma_counters_monotonic(&self, i: int, j: int)
        requires
            self.wf(),
            0 <= i < j,
        ensures
            j < self.container.stack@.len() ==> self.container.stack@[i].rwc
                < self.container.stack@[j].rwc < self.rwc,
            j < self.container.memory@.len() ==> self.container.memory@[i].rwc
                < self.container.memory@[j].rwc < self.rwc,
            j < self.container.call_context@.len() ==> self.container.call_context@[i].rwc
                < self.container.call_context@[j].rwc < self.rwc,
    {
    }

    /// Append a finished copy event to the block's copy-event list.
    pub fn push_copy(&mut self, event: CopyEvent)
        ensures
            final(self).copy_events@ == old(self).copy_events@.push(event),
            final(self).rwc == old(self).rwc,
            final(self).tx_id == old(self).tx_id,
            final(self).call == old(self).call,
            final(self).container == old(self).container,
            old(self).wf() ==> final(self).wf(),
    {
        self.copy_events.push(event);
    }
}

} // verus!

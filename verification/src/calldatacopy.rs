//! The calldata-copy opcode handler: stack and call-context reads, memory
//! reconstruction, and generation of the instruction's copy event.

use vstd::prelude::*;
use crate::copy::{
    copy_byte_at, copy_mem_ops, lemma_copy_mem_ops_len, lemma_ops_counted_bounds,
    lemma_ops_counted_monotonic, ops_counted, pair_mem_ops, pair_ops, raw_step_at, step_at,
    CopyDataType, CopyEvent, CopyEventView, CopyParams, CopyStep, NumberOrHash,
};
use crate::error::Error;
use crate::memory::byte_at;
use crate::operation::{
    CallContextField, CallContextOp, MemoryOp, OpKind, OperationEntry, OperationRef, StackOp, RW,
};
use crate::state::{CallFrame, Tracker};
use crate::step::{ExecStep, TraceStep, STACK_CAPACITY};

verus! {

/// The copy parameters a tracker state and the copy operands determine: the
/// current frame's call data and ids, and the row counter in effect.
pub open spec fn copy_params(
    t: Tracker,
    src_addr: u64,
    dst_addr: u64,
    src_addr_end: u64,
    is_root: bool,
) -> CopyParams {
    CopyParams {
        call_data: t.call.call_data@,
        call_data_offset: t.call.call_data_offset,
        src_addr,
        src_addr_end,
        dst_addr,
        is_root,
        caller_id: t.call.caller_id,
        call_id: t.call.call_id,
        rwc0: t.rwc,
    }
}

/// `count` consecutive references into the memory-operation container,
/// starting at index `base`.
pub open spec fn mem_op_refs(base: int, count: int) -> Seq<OperationRef> {
    Seq::new(count as nat, |j: int| OperationRef { kind: OpKind::Memory, index: (base + j) as usize })
}

/// Build the copy-step trace of one calldata copy. For each of `bytes_left`
/// source offsets this records a read step and a write step sharing the
/// copied byte: a source byte below `src_addr_end` is fetched from call
/// data (and, for a non-root call, charged to the caller's memory as a read
/// operation); at or beyond the boundary the byte is padding, defined as
/// zero, and no read operation is recorded. Every byte is written to the
/// current frame's memory at `dst_addr` plus the offset. Afterwards each
/// step's `rwc_inc_left` is backfilled with the number of row advances that
/// were still pending at that step within this event.
#[verifier::loop_isolation(false)]
#[verifier::rlimit(80)]
pub fn gen_copy_steps(
    state: &mut Tracker,
    exec_step: &mut ExecStep,
    src_addr: u64,
    dst_addr: u64,
    src_addr_end: u64,
    bytes_left: u64,
    is_root: bool,
) -> (r: Result<Vec<CopyStep>, Error>)
    requires
        old(state).wf(),
        src_addr >= old(state).call.call_data_offset,
        src_addr_end <= old(state).call.call_data_offset + old(state).call.call_data@.len(),
        src_addr + bytes_left <= u64::MAX,
        dst_addr + bytes_left <= usize::MAX,
        old(state).rwc + 2 * bytes_left <= u64::MAX,
    ensures
        ({
            let p = copy_params(*old(state), src_addr, dst_addr, src_addr_end, is_root);
            let n = bytes_left as int;
            &&& final(state).wf()
            &&& (r matches Ok(steps) && steps@.len() == 2 * n && forall|k: int|
                0 <= k < 2 * n ==> steps@[k] == step_at(p, n, k))
            &&& final(state).rwc == old(state).rwc + ops_counted(p, n)
            &&& final(state).container.memory@ == old(state).container.memory@ + copy_mem_ops(p, n)
            &&& final(state).container.stack == old(state).container.stack
            &&& final(state).container.call_context == old(state).container.call_context
            &&& final(state).copy_events == old(state).copy_events
            &&& final(state).tx_id == old(state).tx_id
            &&& (final(state).call == (CallFrame {
                memory: final(state).call.memory,
                ..old(state).call
            }))
            &&& (n == 0 ==> final(state).call.memory == old(state).call.memory)
            &&& (n > 0 ==> final(state).call.memory@.len() == if old(
                state,
            ).call.memory@.len() >= dst_addr + n {
                old(state).call.memory@.len() as int
            } else {
                dst_addr + n
            })
            &&& (forall|a: int|
                dst_addr <= a < dst_addr + n ==> final(state).call.memory@[a] == copy_byte_at(
                    p,
                    a - dst_addr,
                ))
            &&& (forall|a: int|
                0 <= a < final(state).call.memory@.len() && !(dst_addr <= a < dst_addr + n)
                    ==> final(state).call.memory@[a] == byte_at(old(state).call.memory@, a))
            &&& final(exec_step).bus_mapping_instance@ == old(exec_step).bus_mapping_instance@
                + mem_op_refs(old(state).container.memory@.len() as int, ops_counted(p, n))
            &&& final(exec_step).pc == old(exec_step).pc
            &&& final(exec_step).rwc_start == old(exec_step).rwc_start
        }),
{
    let ghost p = copy_params(*old(state), src_addr, dst_addr, src_addr_end, is_root);
    let ghost n = bytes_left as int;
    let ghost base = old(state).container.memory@.len() as int;
    proof {
        lemma_ops_counted_bounds(p, n);
    }
    let mut copy_steps: Vec<CopyStep> = Vec::new();
    let mut idx: u64 = 0;
    while idx < bytes_left
        invariant
            0 <= idx <= bytes_left,
            state.wf(),
            state.rwc == p.rwc0 + ops_counted(p, idx as int),
            state.container.memory@ == old(state).container.memory@ + copy_mem_ops(p, idx as int),
            state.container.stack == old(state).container.stack,
            state.container.call_context == old(state).container.call_context,
            state.copy_events == old(state).copy_events,
            state.tx_id == old(state).tx_id,
            (state.call == (CallFrame { memory: state.call.memory, ..old(state).call })),
            idx == 0 ==> state.call.memory == old(state).call.memory,
            idx > 0 ==> state.call.memory@.len() == if old(state).call.memory@.len() >= dst_addr
                + idx {
                old(state).call.memory@.len() as int
            } else {
                dst_addr + idx
            },
            forall|a: int|
                dst_addr <= a < dst_addr + idx ==> state.call.memory@[a] == copy_byte_at(
                    p,
                    a - dst_addr,
                ),
            forall|a: int|
                0 <= a < state.call.memory@.len() && !(dst_addr <= a < dst_addr + idx)
                    ==> state.call.memory@[a] == byte_at(old(state).call.memory@, a),
            exec_step.bus_mapping_instance@ == old(exec_step).bus_mapping_instance@ + mem_op_refs(
                base,
                ops_counted(p, idx as int),
            ),
            exec_step.pc == old(exec_step).pc,
            exec_step.rwc_start == old(exec_step).rwc_start,
            copy_steps@.len() == 2 * (idx as int),
            forall|k: int| 0 <= k < 2 * (idx as int) ==> copy_steps@[k] == raw_step_at(p, k),
        decreases bytes_left - idx,
    {
        let ghost i = idx as int;
        proof {
            lemma_ops_counted_bounds(p, i);
            lemma_ops_counted_monotonic(p, i, n);
            lemma_ops_counted_monotonic(p, i + 1, n);
            lemma_copy_mem_ops_len(p, i);
            lemma_copy_mem_ops_len(p, i + 1);
            assert((2 * i) / 2 == i && (2 * i) % 2 == 0) by (nonlinear_arith);
            assert((2 * i + 1) / 2 == i && (2 * i + 1) % 2 == 1) by (nonlinear_arith);
        }
        let addr = src_addr + idx;
        let rwc_read = state.rwc;
        let (value, is_pad): (u8, bool) = if addr < src_addr_end {
            let cd_len = state.call.call_data.len();
            proof {
                assert(addr - state.call.call_data_offset < cd_len as u64);
            }
            let byte = state.call.call_data[(addr - state.call.call_data_offset) as usize];
            if !is_root {
                state.push_memory_op(
                    exec_step,
                    RW::Read,
                    MemoryOp { call_id: state.call.caller_id, address: addr, value: byte },
                );
            }
            (byte, false)
        } else {
            (0u8, true)
        };
        let tag = if is_root {
            CopyDataType::TxCalldata
        } else {
            CopyDataType::Memory
        };
        copy_steps.push(
            CopyStep {
                addr,
                tag,
                rw: RW::Read,
                value,
                is_code: None,
                is_pad,
                rwc: rwc_read,
                rwc_inc_left: 0,
            },
        );
        copy_steps.push(
            CopyStep {
                addr: dst_addr + idx,
                tag: CopyDataType::Memory,
                rw: RW::Write,
                value,
                is_code: None,
                is_pad: false,
                rwc: state.rwc,
                rwc_inc_left: 0,
            },
        );
        let wr = state.memory_write(exec_step, dst_addr + idx, value);
        match wr {
            Ok(_) => {},
            Err(e) => {
                proof {
                    assert(false);
                }
                return Err(e);
            },
        }
        proof {
            assert(value == copy_byte_at(p, i));
            assert(ops_counted(p, i + 1) == ops_counted(p, i) + pair_ops(p, i));
            assert(copy_mem_ops(p, i + 1) == copy_mem_ops(p, i) + pair_mem_ops(p, i));
            assert(state.container.memory@ =~= old(state).container.memory@ + copy_mem_ops(
                p,
                i + 1,
            ));
            assert(exec_step.bus_mapping_instance@ =~= old(exec_step).bus_mapping_instance@
                + mem_op_refs(base, ops_counted(p, i + 1)));
            assert(copy_steps@[2 * i] == raw_step_at(p, 2 * i));
            assert(copy_steps@[2 * i + 1] == raw_step_at(p, 2 * i + 1));
        }
        idx = idx + 1;
    }
    let final_rwc = state.rwc;
    let mut j: usize = 0;
    while j < copy_steps.len()
        invariant
            0 <= j as int <= copy_steps@.len(),
            copy_steps@.len() == 2 * n,
            forall|k: int| 0 <= k < j as int ==> copy_steps@[k] == step_at(p, n, k),
            forall|k: int| j as int <= k < 2 * n ==> copy_steps@[k] == raw_step_at(p, k),
        decreases copy_steps@.len() - j,
    {
        let mut cs = copy_steps[j];
        proof {
            let k = j as int;
            let i = k / 2;
            assert(0 <= i < n);
            lemma_ops_counted_bounds(p, i);
            lemma_ops_counted_bounds(p, i + 1);
            lemma_ops_counted_monotonic(p, i, n);
            lemma_ops_counted_monotonic(p, i + 1, n);
        }
        let inc = final_rwc - cs.rwc;
        cs.rwc_inc_left = inc;
        copy_steps[j] = cs;
        proof {
            assert(copy_steps@[j as int] == step_at(p, n, j as int));
        }
        j = j + 1;
    }
    Ok(copy_steps)
}

/// The three stack reads a calldata copy performs, top of stack first:
/// memory offset, data offset, length, at consecutive slot addresses and
/// consecutive row counters starting at `rwc0`.
pub open spec fn calldatacopy_stack_entries(call_id: u64, rwc0: u64, s: TraceStep) -> Seq<
    OperationEntry<StackOp>,
> {
    let base = STACK_CAPACITY - s.stack@.len();
    seq![
        OperationEntry {
            rwc: rwc0,
            rw: RW::Read,
            op: StackOp { call_id, address: base as u64, value: s.nth_from_top(0) },
        },
        OperationEntry {
            rwc: (rwc0 + 1) as u64,
            rw: RW::Read,
            op: StackOp { call_id, address: (base + 1) as u64, value: s.nth_from_top(1) },
        },
        OperationEntry {
            rwc: (rwc0 + 2) as u64,
            rw: RW::Read,
            op: StackOp { call_id, address: (base + 2) as u64, value: s.nth_from_top(2) },
        },
    ]
}

/// The call-context reads a calldata copy performs, at consecutive row
/// counters starting at `rwc0`: a root call reads exactly the transaction
/// id and the call-data length; a non-root call reads exactly the caller
/// id, the call-data length and the call-data offset.
pub open spec fn calldatacopy_call_context_entries(call: CallFrame, tx_id: u64, rwc0: u64) -> Seq<
    OperationEntry<CallContextOp>,
> {
    if call.is_root {
        seq![
            OperationEntry {
                rwc: rwc0,
                rw: RW::Read,
                op: CallContextOp {
                    call_id: call.call_id,
                    field: CallContextField::TxId,
                    value: tx_id,
                },
            },
            OperationEntry {
                rwc: (rwc0 + 1) as u64,
                rw: RW::Read,
                op: CallContextOp {
                    call_id: call.call_id,
                    field: CallContextField::CallDataLength,
                    value: call.call_data_length,
                },
            },
        ]
    } else {
        seq![
            OperationEntry {
                rwc: rwc0,
                rw: RW::Read,
                op: CallContextOp {
                    call_id: call.call_id,
                    field: CallContextField::CallerId,
                    value: call.caller_id,
                },
            },
            OperationEntry {
                rwc: (rwc0 + 1) as u64,
                rw: RW::Read,
                op: CallContextOp {
                    call_id: call.call_id,
                    field: CallContextField::CallDataLength,
                    value: call.call_data_length,
                },
            },
            OperationEntry {
                rwc: (rwc0 + 2) as u64,
                rw: RW::Read,
                op: CallContextOp {
                    call_id: call.call_id,
                    field: CallContextField::CallDataOffset,
                    value: call.call_data_offset,
                },
            },
        ]
    }
}

/// The operation references a calldata copy's synthesized step carries
/// before its copy event is generated: three stack reads followed by the
/// call-context reads, pointing at consecutive container indices.
pub open spec fn calldatacopy_step_refs(stack_base: int, cc_base: int, is_root: bool) -> Seq<
    OperationRef,
> {
    let stack_refs = seq![
        OperationRef { kind: OpKind::Stack, index: stack_base as usize },
        OperationRef { kind: OpKind::Stack, index: (stack_base + 1) as usize },
        OperationRef { kind: OpKind::Stack, index: (stack_base + 2) as usize },
    ];
    let cc_count: int = if is_root {
        2
    } else {
        3
    };
    stack_refs + Seq::new(
        cc_count as nat,
        |j: int| OperationRef { kind: OpKind::CallContext, index: (cc_base + j) as usize },
    )
}

/// Record one calldata-copy instruction's bus-mapping reads: three stack
/// reads (memory offset, data offset, length — top of stack first), then
/// the call-context reads, branching on whether the call is a root call.
/// Fails with `MalformedTrace` exactly when the stack holds fewer than
/// three values, recording nothing.
pub fn gen_calldatacopy_step(state: &mut Tracker, geth_step: &TraceStep) -> (r: Result<
    ExecStep,
    Error,
>)
    requires
        old(state).wf(),
        geth_step.wf(),
        old(state).rwc + 6 <= u64::MAX,
    ensures
        final(state).wf(),
        geth_step.stack@.len() < 3 ==> r == Err::<ExecStep, Error>(Error::MalformedTrace)
            && *final(state) == *old(state),
        geth_step.stack@.len() >= 3 ==> {
            &&& (r matches Ok(step) && step.pc == geth_step.pc && step.rwc_start == old(state).rwc
                && step.bus_mapping_instance@ == calldatacopy_step_refs(
                old(state).container.stack@.len() as int,
                old(state).container.call_context@.len() as int,
                old(state).call.is_root,
            ))
            &&& final(state).container.stack@ == old(state).container.stack@
                + calldatacopy_stack_entries(old(state).call.call_id, old(state).rwc, *geth_step)
            &&& final(state).container.call_context@ == old(state).container.call_context@
                + calldatacopy_call_context_entries(
                old(state).call,
                old(state).tx_id,
                (old(state).rwc + 3) as u64,
            )
            &&& final(state).rwc == old(state).rwc + (if old(state).call.is_root {
                5int
            } else {
                6int
            })
            &&& final(state).container.memory == old(state).container.memory
            &&& final(state).call == old(state).call
            &&& final(state).tx_id == old(state).tx_id
            &&& final(state).copy_events == old(state).copy_events
        },
{
    let mut exec_step = state.new_step(geth_step);
    let memory_offset = match geth_step.nth_last(0) {
        Ok(v) => v,
        Err(e) => return Err(e),
    };
    let data_offset = match geth_step.nth_last(1) {
        Ok(v) => v,
        Err(e) => return Err(e),
    };
    let length = match geth_step.nth_last(2) {
        Ok(v) => v,
        Err(e) => return Err(e),
    };
    let a0 = geth_step.nth_last_filled(0);
    let a1 = geth_step.nth_last_filled(1);
    let a2 = geth_step.nth_last_filled(2);
    state.stack_read(&mut exec_step, a0, memory_offset);
    state.stack_read(&mut exec_step, a1, data_offset);
    state.stack_read(&mut exec_step, a2, length);
    if state.call.is_root {
        let call_id = state.call.call_id;
        let tx_id = state.tx_id;
        state.call_context_read(&mut exec_step, call_id, CallContextField::TxId, tx_id);
        let call_data_length = state.call.call_data_length;
        state.call_context_read(
            &mut exec_step,
            call_id,
            CallContextField::CallDataLength,
            call_data_length,
        );
    } else {
        let call_id = state.call.call_id;
        let caller_id = state.call.caller_id;
        state.call_context_read(&mut exec_step, call_id, CallContextField::CallerId, caller_id);
        let call_data_length = state.call.call_data_length;
        state.call_context_read(
            &mut exec_step,
            call_id,
            CallContextField::CallDataLength,
            call_data_length,
        );
        let call_data_offset = state.call.call_data_offset;
        state.call_context_read(
            &mut exec_step,
            call_id,
            CallContextField::CallDataOffset,
            call_data_offset,
        );
    }
    proof {
        assert(state.container.stack@ =~= old(state).container.stack@
            + calldatacopy_stack_entries(old(state).call.call_id, old(state).rwc, *geth_step));
        assert(state.container.call_context@ =~= old(state).container.call_context@
            + calldatacopy_call_context_entries(
            old(state).call,
            old(state).tx_id,
            (old(state).rwc + 3) as u64,
        ));
        assert(exec_step.bus_mapping_instance@ =~= calldatacopy_step_refs(
            old(state).container.stack@.len() as int,
            old(state).container.call_context@.len() as int,
            old(state).call.is_root,
        ));
    }
    Ok(exec_step)
}

/// The address bounds a copy's operands must satisfy: the first source
/// address, the last source address and the end of the destination window
/// all fit the address and index widths.
pub open spec fn copy_bounds_ok(t: Tracker, s: TraceStep) -> bool {
    let mo = s.nth_from_top(0);
    let dof = s.nth_from_top(1);
    let len = s.nth_from_top(2);
    &&& t.call.call_data_offset + dof <= u64::MAX
    &&& t.call.call_data_offset + dof + len <= u64::MAX
    &&& mo + len <= usize::MAX
}

/// The copy parameters one trace record determines in a tracker state: the
/// source window starts at the frame's call-data offset plus the data
/// offset from the stack and ends at the frame's call-data boundary; the
/// destination starts at the memory offset from the stack.
pub open spec fn copy_params_of(t: Tracker, s: TraceStep) -> CopyParams {
    copy_params(
        t,
        (t.call.call_data_offset + s.nth_from_top(1)) as u64,
        s.nth_from_top(0),
        (t.call.call_data_offset + t.call.call_data_length) as u64,
        t.call.is_root,
    )
}

/// The copy event one trace record produces in a tracker state: source and
/// destination domains and ids (transaction call data for a root call, the
/// caller's memory otherwise), the address window, and one read and one
/// write step per copied byte.
pub open spec fn expected_copy_event_view(t: Tracker, s: TraceStep) -> CopyEventView {
    let len = s.nth_from_top(2);
    let p = copy_params_of(t, s);
    CopyEventView {
        src_type: if t.call.is_root {
            CopyDataType::TxCalldata
        } else {
            CopyDataType::Memory
        },
        src_id: NumberOrHash::Number(
            if t.call.is_root {
                t.tx_id
            } else {
                t.call.caller_id
            },
        ),
        src_addr: p.src_addr,
        src_addr_end: p.src_addr_end,
        dst_type: CopyDataType::Memory,
        dst_id: NumberOrHash::Number(t.call.call_id),
        dst_addr: s.nth_from_top(0),
        length: len,
        steps: Seq::new((2 * len) as nat, |k: int| step_at(p, len as int, k)),
        tx_id: t.tx_id,
        call_id: t.call.call_id,
        pc: s.pc,
        log_id: None,
    }
}

/// Generate one calldata-copy instruction's copy event: read the operands
/// from the stack, check the address bounds and the row-counter budget,
/// and build the padded, counter-annotated step trace, recording its memory
/// operations. Fails with `MalformedTrace` on a stack underflow or an
/// exhausted row counter and with `ArithmeticOverflow` when an address
/// bound does not fit, changing nothing in either case.
pub fn gen_copy_event(state: &mut Tracker, geth_step: &TraceStep) -> (r: Result<CopyEvent, Error>)
    requires
        old(state).wf(),
        geth_step.wf(),
    ensures
        final(state).wf(),
        geth_step.stack@.len() < 3 ==> r == Err::<CopyEvent, Error>(Error::MalformedTrace)
            && *final(state) == *old(state),
        geth_step.stack@.len() >= 3 && !copy_bounds_ok(*old(state), *geth_step) ==> r == Err::<
            CopyEvent,
            Error,
        >(Error::ArithmeticOverflow) && *final(state) == *old(state),
        geth_step.stack@.len() >= 3 && copy_bounds_ok(*old(state), *geth_step) && old(state).rwc + 2
            * geth_step.nth_from_top(2) > u64::MAX ==> r == Err::<CopyEvent, Error>(
            Error::MalformedTrace,
        ) && *final(state) == *old(state),
        geth_step.stack@.len() >= 3 && copy_bounds_ok(*old(state), *geth_step) && old(state).rwc + 2
            * geth_step.nth_from_top(2) <= u64::MAX ==> {
            let p = copy_params_of(*old(state), *geth_step);
            let nlen = geth_step.nth_from_top(2) as int;
            &&& (r matches Ok(ev) && ev@ == expected_copy_event_view(*old(state), *geth_step))
            &&& final(state).rwc == old(state).rwc + ops_counted(p, nlen)
            &&& final(state).container.memory@ == old(state).container.memory@ + copy_mem_ops(
                p,
                nlen,
            )
            &&& final(state).container.stack == old(state).container.stack
            &&& final(state).container.call_context == old(state).container.call_context
            &&& final(state).copy_events == old(state).copy_events
            &&& final(state).tx_id == old(state).tx_id
            &&& (final(state).call == (CallFrame {
                memory: final(state).call.memory,
                ..old(state).call
            }))
            &&& (nlen == 0 ==> final(state).call.memory == old(state).call.memory)
            &&& (nlen > 0 ==> final(state).call.memory@.len() == if old(
                state,
            ).call.memory@.len() >= p.dst_addr + nlen {
                old(state).call.memory@.len() as int
            } else {
                p.dst_addr + nlen
            })
            &&& (forall|a: int|
                p.dst_addr <= a < p.dst_addr + nlen ==> final(state).call.memory@[a]
                    == copy_byte_at(p, a - p.dst_addr))
            &&& (forall|a: int|
                0 <= a < final(state).call.memory@.len() && !(p.dst_addr <= a < p.dst_addr + nlen)
                    ==> final(state).call.memory@[a] == byte_at(old(state).call.memory@, a))
        },
{
    let memory_offset = match geth_step.nth_last(0) {
        Ok(v) => v,
        Err(e) => return Err(e),
    };
    let data_offset = match geth_step.nth_last(1) {
        Ok(v) => v,
        Err(e) => return Err(e),
    };
    let length = match geth_step.nth_last(2) {
        Ok(v) => v,
        Err(e) => return Err(e),
    };
    let call_data_offset = state.call.call_data_offset;
    let call_data_length = state.call.call_data_length;
    if data_offset > u64::MAX - call_data_offset {
        return Err(Error::ArithmeticOverflow);
    }
    let src_addr = call_data_offset + data_offset;
    if length > u64::MAX - src_addr {
        return Err(Error::ArithmeticOverflow);
    }
    if !(memory_offset <= usize::MAX as u64 && length <= usize::MAX as u64 - memory_offset) {
        return Err(Error::ArithmeticOverflow);
    }
    if length > (u64::MAX - state.rwc) / 2 {
        return Err(Error::MalformedTrace);
    }
    let src_addr_end = call_data_offset + call_data_length;
    let is_root = state.call.is_root;
    let mut exec_step = state.new_step(geth_step);
    let copy_steps = match gen_copy_steps(
        state,
        &mut exec_step,
        src_addr,
        memory_offset,
        src_addr_end,
        length,
        is_root,
    ) {
        Ok(s) => s,
        Err(e) => {
            proof {
                assert(false);
            }
            return Err(e);
        },
    };
    let src_id = if is_root {
        state.tx_id
    } else {
        state.call.caller_id
    };
    let src_type = if is_root {
        CopyDataType::TxCalldata
    } else {
        CopyDataType::Memory
    };
    let ev = CopyEvent {
        src_type,
        src_id: NumberOrHash::Number(src_id),
        src_addr,
        src_addr_end,
        dst_type: CopyDataType::Memory,
        dst_id: NumberOrHash::Number(state.call.call_id),
        dst_addr: memory_offset,
        length,
        steps: copy_steps,
        tx_id: state.tx_id,
        call_id: state.call.call_id,
        pc: exec_step.pc,
        log_id: None,
    };
    proof {
        assert(ev@.steps =~= expected_copy_event_view(*old(state), *geth_step).steps);
    }
    Ok(ev)
}

/// The full effect one calldata-copy instruction is specified to have: how
/// the tracker after the call and the returned result relate to the tracker
/// before it and the trace record it consumed. Every output is a function
/// of those two inputs alone.
pub open spec fn handler_post(
    pre: Tracker,
    s: TraceStep,
    post: Tracker,
    r: Result<Vec<ExecStep>, Error>,
) -> bool {
    let mo = s.nth_from_top(0);
    let len = s.nth_from_top(2);
    if s.stack@.len() < 3 {
        post == pre && r == Err::<Vec<ExecStep>, Error>(Error::MalformedTrace)
    } else if !copy_bounds_ok(pre, s) {
        post == pre && r == Err::<Vec<ExecStep>, Error>(Error::ArithmeticOverflow)
    } else if pre.rwc + 6 + 2 * len > u64::MAX {
        post == pre && r == Err::<Vec<ExecStep>, Error>(Error::MalformedTrace)
    } else {
        let rwc1 = (pre.rwc + if pre.call.is_root {
            5int
        } else {
            6int
        }) as u64;
        let mid = Tracker { rwc: rwc1, ..pre };
        let p = copy_params_of(mid, s);
        &&& (r matches Ok(steps) && steps@.len() == 1 && steps@[0].pc == s.pc
            && steps@[0].rwc_start == pre.rwc && steps@[0].bus_mapping_instance@
            == calldatacopy_step_refs(
            pre.container.stack@.len() as int,
            pre.container.call_context@.len() as int,
            pre.call.is_root,
        ))
        &&& post.container.stack@ == pre.container.stack@ + calldatacopy_stack_entries(
            pre.call.call_id,
            pre.rwc,
            s,
        )
        &&& post.container.call_context@ == pre.container.call_context@
            + calldatacopy_call_context_entries(pre.call, pre.tx_id, (pre.rwc + 3) as u64)
        &&& post.container.memory@ == pre.container.memory@ + copy_mem_ops(p, len as int)
        &&& post.rwc == rwc1 + ops_counted(p, len as int)
        &&& post.tx_id == pre.tx_id
        &&& (post.call == (CallFrame { memory: post.call.memory, ..pre.call }))
        &&& post.copy_events@.len() == pre.copy_events@.len() + 1
        &&& (forall|i: int|
            0 <= i < pre.copy_events@.len() ==> post.copy_events@[i] == pre.copy_events@[i])
        &&& post.copy_events@[pre.copy_events@.len() as int]@ == expected_copy_event_view(mid, s)
        &&& (len == 0 ==> post.call.memory == pre.call.memory)
        &&& (len > 0 ==> post.call.memory@.len() == if pre.call.memory@.len() >= mo + len {
            pre.call.memory@.len() as int
        } else {
            mo + len
        })
        &&& (forall|a: int|
            mo <= a < mo + len ==> post.call.memory@[a] == copy_byte_at(p, a - mo))
        &&& (forall|a: int|
            0 <= a < post.call.memory@.len() && !(mo <= a < mo + len) ==> post.call.memory@[a]
                == byte_at(pre.call.memory@, a))
    }
}

/// The calldata-copy instruction: the representative instance of the
/// per-opcode dispatch contract, turning one raw trace record into the
/// instruction's recorded operations, its reconstructed memory image and
/// its copy event.
#[derive(Debug, Clone, Copy)]
pub struct Calldatacopy;

impl Calldatacopy {
    /// Process one calldata-copy instruction: record its stack and
    /// call-context reads, reconstruct the destination memory, generate and
    /// append its copy event, and return the synthesized execution step.
    /// Fails with `MalformedTrace` on a stack underflow or an exhausted
    /// row-counter budget and with `ArithmeticOverflow` when an address or
    /// length exceeds the representable range; an error changes nothing.
    pub fn gen_associated_ops(state: &mut Tracker, geth_steps: &Vec<TraceStep>) -> (r: Result<
        Vec<ExecStep>,
        Error,
    >)
        requires
            old(state).wf(),
            geth_steps@.len() >= 1,
            geth_steps@[0].wf(),
        ensures
            final(state).wf(),
            handler_post(*old(state), geth_steps@[0], *final(state), r),
    {
        let geth_step = &geth_steps[0];
        let memory_offset = match geth_step.nth_last(0) {
            Ok(v) => v,
            Err(e) => return Err(e),
        };
        let data_offset = match geth_step.nth_last(1) {
            Ok(v) => v,
            Err(e) => return Err(e),
        };
        let length = match geth_step.nth_last(2) {
            Ok(v) => v,
            Err(e) => return Err(e),
        };
        let call_data_offset = state.call.call_data_offset;
        if data_offset > u64::MAX - call_data_offset {
            return Err(Error::ArithmeticOverflow);
        }
        let src_addr = call_data_offset + data_offset;
        if length > u64::MAX - src_addr {
            return Err(Error::ArithmeticOverflow);
        }
        if !(memory_offset <= usize::MAX as u64 && length <= usize::MAX as u64 - memory_offset) {
            return Err(Error::ArithmeticOverflow);
        }
        if state.rwc > u64::MAX - 6 {
            return Err(Error::MalformedTrace);
        }
        if length > (u64::MAX - 6 - state.rwc) / 2 {
            return Err(Error::MalformedTrace);
        }
        let exec_step = match gen_calldatacopy_step(state, geth_step) {
            Ok(step) => step,
            Err(e) => {
                proof {
                    assert(false);
                }
                return Err(e);
            },
        };
        if length != 0 {
            let minimal_length = (memory_offset as usize) + (length as usize);
            state.call.memory.extend_at_least(minimal_length);
            let mem_starts = memory_offset as usize;
            let cd_len = state.call.call_data.len();
            if data_offset + length <= cd_len as u64 {
                state.call.memory.write_from(
                    mem_starts,
                    &state.call.call_data,
                    data_offset as usize,
                    length as usize,
                );
            } else if data_offset < cd_len as u64 {
                let actual_length = cd_len - (data_offset as usize);
                state.call.memory.write_from(
                    mem_starts,
                    &state.call.call_data,
                    data_offset as usize,
                    actual_length,
                );
            }
        }
        let ghost m2 = *state;
        let copy_event = match gen_copy_event(state, geth_step) {
            Ok(ev) => ev,
            Err(e) => {
                proof {
                    assert(false);
                }
                return Err(e);
            },
        };
        state.push_copy(copy_event);
        let mut exec_steps: Vec<ExecStep> = Vec::new();
        exec_steps.push(exec_step);
        proof {
            let pre = *old(state);
            let s = geth_steps@[0];
            let mo = s.nth_from_top(0);
            let len = s.nth_from_top(2);
            let rwc1 = (pre.rwc + if pre.call.is_root {
                5int
            } else {
                6int
            }) as u64;
            let mid = Tracker { rwc: rwc1, ..pre };
            let p = copy_params_of(mid, s);
            assert(copy_params_of(m2, s) == p);
            assert(expected_copy_event_view(m2, s) == expected_copy_event_view(mid, s));
            assert(state.copy_events@[pre.copy_events@.len() as int]@ == expected_copy_event_view(
                mid,
                s,
            ));
            assert forall|a: int|
                0 <= a < state.call.memory@.len() && !(mo <= a < mo + len) implies state.call.memory@[a] == byte_at(pre.call.memory@, a) by {
                assert(state.call.memory@[a] == byte_at(m2.call.memory@, a));
                if a < m2.call.memory@.len() {
                    assert(m2.call.memory@[a] == byte_at(pre.call.memory@, a));
                }
            }
        }
        Ok(exec_steps)
    }
}

/// Copy event length: a copy event always holds exactly twice as many steps
/// as bytes copied — one read and one write per byte.
pub proof fn lemma_copy_event_length(t: Tracker, s: TraceStep)
    ensures
        expected_copy_event_view(t, s).steps.len() == 2 * expected_copy_event_view(t, s).length,
{
}

/// Root and non-root call-context reads: a root call reads exactly the
/// transaction id and the call-data length; a non-root call reads exactly
/// the caller id, the call-data length and the call-data offset — never
/// both sets and never neither, and every such operation is a read of the
/// current call.
pub proof fn lemma_call_context_read_sets(call: CallFrame, tx_id: u64, rwc0: u64)
    ensures
        ({
            let entries = calldatacopy_call_context_entries(call, tx_id, rwc0);
            &&& (call.is_root ==> entries.len() == 2 && entries[0].op.field
                == CallContextField::TxId && entries[1].op.field
                == CallContextField::CallDataLength)
            &&& (!call.is_root ==> entries.len() == 3 && entries[0].op.field
                == CallContextField::CallerId && entries[1].op.field
                == CallContextField::CallDataLength && entries[2].op.field
                == CallContextField::CallDataOffset)
            &&& (forall|i: int|
                0 <= i < entries.len() ==> entries[i].rw == RW::Read && entries[i].op.call_id
                    == call.call_id)
        }),
{
}

/// Determinism: processing the same trace record from the same tracker
/// state twice yields identical operation logs, copy events, memory images
/// and results.
pub proof fn lemma_handler_deterministic(
    pre: Tracker,
    s: TraceStep,
    post1: Tracker,
    post2: Tracker,
    r1: Result<Vec<ExecStep>, Error>,
    r2: Result<Vec<ExecStep>, Error>,
)
    requires
        handler_post(pre, s, post1, r1),
        handler_post(pre, s, post2, r2),
    ensures
        post1.rwc == post2.rwc,
        post1.tx_id == post2.tx_id,
        post1.container.stack@ == post2.container.stack@,
        post1.container.memory@ == post2.container.memory@,
        post1.container.call_context@ == post2.container.call_context@,
        post1.copy_events@.len() == post2.copy_events@.len(),
        forall|i: int|
            0 <= i < post1.copy_events@.len() ==> post1.copy_events@[i]@ == post2.copy_events@[i]@,
        post1.call.memory@ == post2.call.memory@,
        r1 is Ok <==> r2 is Ok,
        r1 matches Err(e1) ==> r2 matches Err(e2) && e1 == e2,
        r1 matches Ok(v1) ==> r2 matches Ok(v2) && v1@.len() == v2@.len() && (forall|i: int|
            0 <= i < v1@.len() ==> v1@[i].pc == v2@[i].pc && v1@[i].rwc_start == v2@[i].rwc_start
                && v1@[i].bus_mapping_instance@ == v2@[i].bus_mapping_instance@),
{
    let mo = s.nth_from_top(0);
    let len = s.nth_from_top(2);
    if s.stack@.len() >= 3 && copy_bounds_ok(pre, s) && pre.rwc + 6 + 2 * len <= u64::MAX {
        assert forall|a: int|
            0 <= a < post1.call.memory@.len() implies post1.call.memory@[a]
            == post2.call.memory@[a] by {
            if mo <= a < mo + len {
            }
        }
        assert(post1.call.memory@ =~= post2.call.memory@);
        assert forall|i: int|
            0 <= i < post1.copy_events@.len() implies post1.copy_events@[i]@
            == post2.copy_events@[i]@ by {
            if i < pre.copy_events@.len() {
                assert(post1.copy_events@[i] == pre.copy_events@[i]);
                assert(post2.copy_events@[i] == pre.copy_events@[i]);
            }
        }
    }
}

} // verus!

use bus_mapping::calldatacopy::{gen_calldatacopy_step, gen_copy_event, gen_copy_steps, Calldatacopy};
use bus_mapping::copy::CopyDataType;
use bus_mapping::error::Error;
use bus_mapping::memory::Memory;
use bus_mapping::operation::{CallContextField, OpKind, RW};
use bus_mapping::state::{CallFrame, Tracker};
use bus_mapping::step::{ExecStep, TraceStep};
use bus_mapping::tables::block_counting_function;

fn internal_frame() -> CallFrame {
    let pushdata: Vec<u8> = vec![0x12, 0x34, 0x56, 0x78, 0x90, 0xab, 0xcd, 0xef];
    let memory_a: Vec<u8> = std::iter::repeat(0).take(24).chain(pushdata).collect();
    let call_data_offset: usize = 0x10;
    let call_data_length: usize = 0x20;
    let mut call_data: Vec<u8> = Vec::new();
    for i in 0..call_data_length {
        let a = call_data_offset + i;
        call_data.push(if a < memory_a.len() { memory_a[a] } else { 0 });
    }
    CallFrame {
        call_id: 2,
        caller_id: 1,
        is_root: false,
        call_data_offset: call_data_offset as u64,
        call_data_length: call_data_length as u64,
        call_data,
        memory: Memory::new(),
    }
}

fn copy_trace(length: u64) -> TraceStep {
    TraceStep { pc: 7, stack: vec![length, 0, 0] }
}

#[test]
fn counter_monotonic_within_each_container() {
    let mut state = Tracker::new(1, internal_frame());
    let steps = vec![copy_trace(0x18)];
    Calldatacopy::gen_associated_ops(&mut state, &steps).unwrap();
    for w in state.container.stack.windows(2) {
        assert!(w[0].rwc < w[1].rwc);
    }
    for w in state.container.call_context.windows(2) {
        assert!(w[0].rwc < w[1].rwc);
    }
    for w in state.container.memory.windows(2) {
        assert!(w[0].rwc < w[1].rwc);
    }
    // The containers were filled in this order: stack, call context, memory.
    let last_stack = state.container.stack.last().unwrap().rwc;
    let first_cc = state.container.call_context.first().unwrap().rwc;
    let last_cc = state.container.call_context.last().unwrap().rwc;
    let first_mem = state.container.memory.first().unwrap().rwc;
    assert!(last_stack < first_cc);
    assert!(last_cc < first_mem);
    // Every recorded counter lies strictly below the next one to be drawn.
    assert!(state.container.memory.last().unwrap().rwc < state.rwc);
}

#[test]
fn padding_boundary_over_length() {
    // Copy 0x50 bytes out of a 0x20-byte call-data window at offset 0x10:
    // source offsets at or beyond 0x20 are padded with value zero.
    let mut state = Tracker::new(1, internal_frame());
    let steps = vec![copy_trace(0x50)];
    Calldatacopy::gen_associated_ops(&mut state, &steps).unwrap();
    let ev = &state.copy_events[0];
    assert_eq!(ev.src_addr, 0x10);
    assert_eq!(ev.src_addr_end, 0x30);
    for (idx, pair) in ev.steps.chunks(2).enumerate() {
        let padded = ev.src_addr + (idx as u64) >= ev.src_addr_end;
        assert_eq!(pair[0].is_pad, padded);
        assert!(!pair[1].is_pad);
        if padded {
            assert_eq!(pair[0].value, 0);
        }
    }
    // Memory is still fully written, with zeros past the boundary.
    assert_eq!(state.call.memory.0.len(), 0x50);
    for (idx, byte) in state.call.memory.0.iter().enumerate() {
        let expected = if idx < 0x20 { state.call.call_data[idx] } else { 0 };
        assert_eq!(*byte, expected);
    }
}

#[test]
fn copy_event_holds_two_steps_per_byte() {
    for length in [0u64, 1, 9, 0x20, 0x41] {
        let mut state = Tracker::new(1, internal_frame());
        let steps = vec![copy_trace(length)];
        Calldatacopy::gen_associated_ops(&mut state, &steps).unwrap();
        let ev = &state.copy_events[0];
        assert_eq!(ev.length, length);
        assert_eq!(ev.steps.len(), 2 * length as usize);
    }
}

#[test]
fn read_and_write_steps_share_their_value() {
    let mut state = Tracker::new(1, internal_frame());
    let steps = vec![copy_trace(0x50)];
    Calldatacopy::gen_associated_ops(&mut state, &steps).unwrap();
    let ev = &state.copy_events[0];
    for (idx, pair) in ev.steps.chunks(2).enumerate() {
        assert_eq!(pair[0].value, pair[1].value);
        // The destination memory byte equals the pair's value.
        assert_eq!(state.call.memory.0[idx], pair[1].value);
    }
}

#[test]
fn remaining_increments_close_at_the_last_step() {
    let mut state = Tracker::new(1, internal_frame());
    let steps = vec![copy_trace(0x24)];
    Calldatacopy::gen_associated_ops(&mut state, &steps).unwrap();
    let ev = &state.copy_events[0];
    let final_rwc = state.rwc;
    for step in &ev.steps {
        assert_eq!(step.rwc + step.rwc_inc_left, final_rwc);
    }
    // The last counter-consuming step still counts its own advance, so the
    // budget runs out exactly when the event ends.
    let last = ev.steps.last().unwrap();
    assert_eq!(last.rwc_inc_left, 1);
    assert_eq!(last.rwc + 1, final_rwc);
}

#[test]
fn root_and_internal_calls_read_their_own_context_fields() {
    // Root call: exactly TxId and CallDataLength.
    let root = CallFrame {
        call_id: 1,
        caller_id: 0,
        is_root: true,
        call_data_offset: 0,
        call_data_length: 4,
        call_data: vec![9, 9, 9, 9],
        memory: Memory::new(),
    };
    let mut state = Tracker::new(5, root);
    let step = copy_trace(2);
    gen_calldatacopy_step(&mut state, &step).unwrap();
    let fields: Vec<CallContextField> =
        state.container.call_context.iter().map(|e| e.op.field).collect();
    assert_eq!(fields, vec![CallContextField::TxId, CallContextField::CallDataLength]);
    assert_eq!(state.container.call_context[0].op.value, 5);

    // Non-root call: exactly CallerId, CallDataLength and CallDataOffset.
    let mut state = Tracker::new(5, internal_frame());
    gen_calldatacopy_step(&mut state, &step).unwrap();
    let fields: Vec<CallContextField> =
        state.container.call_context.iter().map(|e| e.op.field).collect();
    assert_eq!(
        fields,
        vec![
            CallContextField::CallerId,
            CallContextField::CallDataLength,
            CallContextField::CallDataOffset,
        ]
    );
}

#[test]
fn same_trace_gives_identical_witness() {
    let steps = vec![copy_trace(0x50)];
    let mut first = Tracker::new(1, internal_frame());
    let r1 = Calldatacopy::gen_associated_ops(&mut first, &steps).unwrap();
    let mut second = Tracker::new(1, internal_frame());
    let r2 = Calldatacopy::gen_associated_ops(&mut second, &steps).unwrap();
    assert_eq!(first.container, second.container);
    assert_eq!(first.copy_events, second.copy_events);
    assert_eq!(first.call.memory, second.call.memory);
    assert_eq!(first.rwc, second.rwc);
    assert_eq!(r1, r2);
}

#[test]
fn stack_underflow_is_a_malformed_trace() {
    let mut state = Tracker::new(1, internal_frame());
    let fresh = state.clone();
    let steps = vec![TraceStep { pc: 7, stack: vec![4, 0] }];
    let r = Calldatacopy::gen_associated_ops(&mut state, &steps);
    assert_eq!(r, Err(Error::MalformedTrace));
    assert_eq!(state, fresh);
}

#[test]
fn address_overflow_is_an_arithmetic_error() {
    // Destination window overruns the address width.
    let mut state = Tracker::new(1, internal_frame());
    let fresh = state.clone();
    let steps = vec![TraceStep { pc: 7, stack: vec![2, 0, u64::MAX] }];
    let r = Calldatacopy::gen_associated_ops(&mut state, &steps);
    assert_eq!(r, Err(Error::ArithmeticOverflow));
    assert_eq!(state, fresh);

    // Source address overruns the address width.
    let steps = vec![TraceStep { pc: 7, stack: vec![2, u64::MAX, 0] }];
    let r = Calldatacopy::gen_associated_ops(&mut state, &steps);
    assert_eq!(r, Err(Error::ArithmeticOverflow));
    assert_eq!(state, fresh);
}

#[test]
fn zero_length_copy_records_no_memory_operation() {
    let mut state = Tracker::new(1, internal_frame());
    let steps = vec![copy_trace(0)];
    let exec_steps = Calldatacopy::gen_associated_ops(&mut state, &steps).unwrap();
    assert_eq!(exec_steps[0].bus_mapping_instance.len(), 6);
    assert_eq!(state.container.memory.len(), 0);
    assert_eq!(state.copy_events.len(), 1);
    assert_eq!(state.copy_events[0].steps.len(), 0);
    assert_eq!(state.call.memory.0.len(), 0);
}

#[test]
fn copy_event_carries_its_instruction_context() {
    let mut state = Tracker::new(3, internal_frame());
    let step = TraceStep { pc: 42, stack: vec![4, 1, 8] };
    let ev = gen_copy_event(&mut state, &step).unwrap();
    assert_eq!(ev.pc, 42);
    assert_eq!(ev.tx_id, 3);
    assert_eq!(ev.call_id, 2);
    assert_eq!(ev.src_type, CopyDataType::Memory);
    assert_eq!(ev.dst_type, CopyDataType::Memory);
    assert_eq!(ev.src_addr, 0x10 + 1);
    assert_eq!(ev.src_addr_end, 0x30);
    assert_eq!(ev.dst_addr, 8);
    assert_eq!(ev.length, 4);
}

#[test]
fn copy_steps_walk_the_source_window() {
    let mut state = Tracker::new(1, internal_frame());
    let mut exec_step = ExecStep { pc: 0, rwc_start: 1, bus_mapping_instance: Vec::new() };
    let steps =
        gen_copy_steps(&mut state, &mut exec_step, 0x2e, 0, 0x30, 4, false).unwrap();
    assert_eq!(steps.len(), 8);
    // Two real bytes, then two padded ones.
    assert!(!steps[0].is_pad && !steps[2].is_pad);
    assert!(steps[4].is_pad && steps[6].is_pad);
    assert_eq!(steps[0].value, state.call.call_data[0x1e]);
    assert_eq!(steps[2].value, state.call.call_data[0x1f]);
    assert_eq!(steps[4].value, 0);
    assert_eq!(steps[6].value, 0);
    // Real reads consume a counter and are recorded; padded ones are not.
    assert_eq!(state.container.memory.len(), 6);
    assert_eq!(exec_step.bus_mapping_instance.len(), 6);
    assert!(exec_step.bus_mapping_instance.iter().all(|r| r.kind == OpKind::Memory));
}

#[test]
fn stack_slots_are_read_from_the_top() {
    let step = TraceStep { pc: 0, stack: vec![30, 20, 10] };
    assert_eq!(step.nth_last(0), Ok(10));
    assert_eq!(step.nth_last(1), Ok(20));
    assert_eq!(step.nth_last(2), Ok(30));
    assert_eq!(step.nth_last(3), Err(Error::MalformedTrace));
    assert_eq!(step.nth_last_filled(0), 1021);
    assert_eq!(step.nth_last_filled(2), 1023);
}

#[test]
fn memory_extends_zero_filled_and_never_shrinks() {
    let mut m = Memory::new();
    m.extend_at_least(4);
    assert_eq!(m.0, vec![0, 0, 0, 0]);
    let src = vec![7, 8];
    m.write_from(1, &src, 0, 2);
    assert_eq!(m.0, vec![0, 7, 8, 0]);
    m.extend_at_least(2);
    assert_eq!(m.0, vec![0, 7, 8, 0]);
    m.extend_at_least(6);
    assert_eq!(m.0, vec![0, 7, 8, 0, 0, 0]);
}

#[test]
fn memory_write_extends_and_records() {
    let mut state = Tracker::new(1, internal_frame());
    let mut exec_step = ExecStep { pc: 0, rwc_start: 1, bus_mapping_instance: Vec::new() };
    state.memory_write(&mut exec_step, 3, 0xaa).unwrap();
    assert_eq!(state.call.memory.0, vec![0, 0, 0, 0xaa]);
    assert_eq!(state.container.memory.len(), 1);
    assert_eq!(state.container.memory[0].rw, RW::Write);
    assert_eq!(state.container.memory[0].rwc, 1);
    assert_eq!(state.rwc, 2);
    let r = state.memory_write(&mut exec_step, u64::MAX, 1);
    assert_eq!(r, Err(Error::ArithmeticOverflow));
}

#[test]
fn block_counting_function_values() {
    assert_eq!(block_counting_function(0), 0);
    assert_eq!(block_counting_function(1), 0);
    assert_eq!(block_counting_function(2), 1);
    assert_eq!(block_counting_function(3), 13);
    assert_eq!(block_counting_function(4), 170);
}

//! Copy events: the structured record of one bulk-copy instruction's effect,
//! decomposed into one read/write step pair per byte, together with the
//! mathematical model of the step sequence that the generator is proved to
//! produce.

use vstd::prelude::*;
use crate::operation::{MemoryOp, OperationEntry, RW};

verus! {

/// The addressing domain a copy step's address lives in.
#[derive(Debug, Clone, Copy, PartialEq, Eq, Structural)]
pub enum CopyDataType {
    /// A call frame's memory.
    Memory,
    /// A transaction's input data (not a memory region).
    TxCalldata,
    /// An account's code.
    Bytecode,
}

/// A copy source or destination identifier: a call or transaction id for
/// addressable domains, a code hash for bytecode.
#[derive(Debug, Clone, Copy, PartialEq, Eq)]
pub enum NumberOrHash {
    Number(u64),
    Hash([u8; 32]),
}

/// One half of a copied byte: either its read from the source domain or its
/// write to the destination domain.
#[derive(Debug, Clone, Copy, PartialEq, Eq)]
pub struct CopyStep {
    /// Address within the step's domain.
    pub addr: u64,
    /// The domain the address belongs to.
    pub tag: CopyDataType,
    /// Read from the source or write to the destination.
    pub rw: RW,
    /// The byte moved; a read and its write share this value.
    pub value: u8,
    /// Whether the byte is a code byte; unused by data copies.
    pub is_code: Option<bool>,
    /// True exactly when the source address lies at or beyond the valid
    /// source boundary: the value is then defined as zero and the read
    /// consumed no row counter.
    pub is_pad: bool,
    /// The row-counter value in effect when the step's operation was
    /// recorded (for a padded read: the value the next real operation
    /// consumed).
    pub rwc: u64,
    /// How many counter-consuming operations of this copy event still lie at
    /// or after this step.
    pub rwc_inc_left: u64,
}

/// One bulk-copy instruction's full effect.
#[derive(Debug, Clone, PartialEq, Eq)]
pub struct CopyEvent {
    pub src_type: CopyDataType,
    pub src_id: NumberOrHash,
    /// First source address requested.
    pub src_addr: u64,
    /// Exclusive boundary of valid source bytes; reads at or beyond it are
    /// padding.
    pub src_addr_end: u64,
    pub dst_type: CopyDataType,
    pub dst_id: NumberOrHash,
    pub dst_addr: u64,
    /// Number of bytes copied; the event holds one read and one write step
    /// per byte.
    pub length: u64,
    pub steps: Vec<CopyStep>,
    pub tx_id: u64,
    pub call_id: u64,
    pub pc: u64,
    pub log_id: Option<u64>,
}

/// The abstract value of a copy event: the same record with the step list as
/// a sequence.
pub struct CopyEventView {
    pub src_type: CopyDataType,
    pub src_id: NumberOrHash,
    pub src_addr: u64,
    pub src_addr_end: u64,
    pub dst_type: CopyDataType,
    pub dst_id: NumberOrHash,
    pub dst_addr: u64,
    pub length: u64,
    pub steps: Seq<CopyStep>,
    pub tx_id: u64,
    pub call_id: u64,
    pub pc: u64,
    pub log_id: Option<u64>,
}

impl View for CopyEvent {
    type V = CopyEventView;

    open spec fn view(&self) -> CopyEventView {
        CopyEventView {
            src_type: self.src_type,
            src_id: self.src_id,
            src_addr: self.src_addr,
            src_addr_end: self.src_addr_end,
            dst_type: self.dst_type,
            dst_id: self.dst_id,
            dst_addr: self.dst_addr,
            length: self.length,
            steps: self.steps@,
            tx_id: self.tx_id,
            call_id: self.call_id,
            pc: self.pc,
            log_id: self.log_id,
        }
    }
}

/// Everything a copy trace is a function of: the source call data and its
/// addressing, the destination address, the call ids on both sides, whether
/// the copying call is a root call, and the row-counter value in effect when
/// the copy began.
pub struct CopyParams {
    /// The source call-data bytes.
    pub call_data: Seq<u8>,
    /// Where the call-data window starts in the source domain.
    pub call_data_offset: u64,
    /// First source address requested.
    pub src_addr: u64,
    /// Exclusive boundary of valid source bytes.
    pub src_addr_end: u64,
    /// First destination address written.
    pub dst_addr: u64,
    /// Root calls read transaction call data, which is not a memory region,
    /// so their reads consume no row counter.
    pub is_root: bool,
    /// The caller's call id, charged with source-side memory reads of a
    /// non-root call.
    pub caller_id: u64,
    /// The copying call's id, charged with every destination write.
    pub call_id: u64,
    /// Row-counter value in effect when the copy began.
    pub rwc0: u64,
}

/// The byte at source offset `i` is padding exactly when its source address
/// reaches the valid-byte boundary.
pub open spec fn pad_at(p: CopyParams, i: int) -> bool {
    p.src_addr + i >= p.src_addr_end
}

/// The byte copied at source offset `i`: the call-data byte below the
/// boundary, zero at or beyond it.
pub open spec fn copy_byte_at(p: CopyParams, i: int) -> u8 {
    if pad_at(p, i) {
        0
    } else {
        p.call_data[p.src_addr + i - p.call_data_offset]
    }
}

/// How many row counters the step pair at offset `i` consumes: every write
/// consumes one; the read consumes one only when it is a real memory read
/// (non-root and not padded).
pub open spec fn pair_ops(p: CopyParams, i: int) -> int {
    if !p.is_root && !pad_at(p, i) {
        2
    } else {
        1
    }
}

/// Row counters consumed by the first `n` step pairs of the copy.
pub open spec fn ops_counted(p: CopyParams, n: int) -> int
    decreases n,
{
    if n <= 0 {
        0
    } else {
        ops_counted(p, n - 1) + pair_ops(p, n - 1)
    }
}

/// Each pair consumes one or two counters: `n` pairs consume between `n`
/// and `2 * n`.
pub proof fn lemma_ops_counted_bounds(p: CopyParams, n: int)
    requires
        n >= 0,
    ensures
        n <= ops_counted(p, n) <= 2 * n,
    decreases n,
{
    if n > 0 {
        lemma_ops_counted_bounds(p, n - 1);
    }
}

/// Consumption grows with the pair count, by at most two per pair.
pub proof fn lemma_ops_counted_monotonic(p: CopyParams, i: int, j: int)
    requires
        0 <= i <= j,
    ensures
        ops_counted(p, i) <= ops_counted(p, j),
        ops_counted(p, j) - ops_counted(p, i) <= 2 * (j - i),
    decreases j - i,
{
    if i < j {
        lemma_ops_counted_monotonic(p, i, j - 1);
    }
}

/// The step at index `k` of a copy of `n` bytes, before the remaining
/// increments are backfilled: even indices are reads, odd indices writes,
/// and `rwc_inc_left` is still zero.
pub open spec fn raw_step_at(p: CopyParams, k: int) -> CopyStep {
    let i = k / 2;
    if k % 2 == 0 {
        CopyStep {
            addr: (p.src_addr + i) as u64,
            tag: if p.is_root {
                CopyDataType::TxCalldata
            } else {
                CopyDataType::Memory
            },
            rw: RW::Read,
            value: copy_byte_at(p, i),
            is_code: None,
            is_pad: pad_at(p, i),
            rwc: (p.rwc0 + ops_counted(p, i)) as u64,
            rwc_inc_left: 0,
        }
    } else {
        CopyStep {
            addr: (p.dst_addr + i) as u64,
            tag: CopyDataType::Memory,
            rw: RW::Write,
            value: copy_byte_at(p, i),
            is_code: None,
            is_pad: false,
            rwc: (p.rwc0 + ops_counted(p, i + 1) - 1) as u64,
            rwc_inc_left: 0,
        }
    }
}

/// The step at index `k` of a finished copy of `n` bytes: as `raw_step_at`,
/// with `rwc_inc_left` counting the row advances still pending at or after
/// the step within this event.
pub open spec fn step_at(p: CopyParams, n: int, k: int) -> CopyStep {
    let raw = raw_step_at(p, k);
    let i = k / 2;
    let inc_left = if k % 2 == 0 {
        ops_counted(p, n) - ops_counted(p, i)
    } else {
        ops_counted(p, n) - ops_counted(p, i + 1) + 1
    };
    CopyStep { rwc_inc_left: inc_left as u64, ..raw }
}

/// The memory operations the step pair at offset `i` records: the source
/// read (only for a real, non-root, non-padded read) followed by the
/// destination write.
pub open spec fn pair_mem_ops(p: CopyParams, i: int) -> Seq<OperationEntry<MemoryOp>> {
    let v = copy_byte_at(p, i);
    let r = (p.rwc0 + ops_counted(p, i)) as u64;
    let write = OperationEntry {
        rwc: (p.rwc0 + ops_counted(p, i + 1) - 1) as u64,
        rw: RW::Write,
        op: MemoryOp { call_id: p.call_id, address: (p.dst_addr + i) as u64, value: v },
    };
    if !p.is_root && !pad_at(p, i) {
        seq![
            OperationEntry {
                rwc: r,
                rw: RW::Read,
                op: MemoryOp { call_id: p.caller_id, address: (p.src_addr + i) as u64, value: v },
            },
            write,
        ]
    } else {
        seq![write]
    }
}

/// The memory operations recorded by the first `n` step pairs, in order.
pub open spec fn copy_mem_ops(p: CopyParams, n: int) -> Seq<OperationEntry<MemoryOp>>
    decreases n,
{
    if n <= 0 {
        Seq::<OperationEntry<MemoryOp>>::empty()
    } else {
        copy_mem_ops(p, n - 1) + pair_mem_ops(p, n - 1)
    }
}

/// A copy's memory operations are exactly as many as the row counters it
/// consumes.
pub proof fn lemma_copy_mem_ops_len(p: CopyParams, n: int)
    requires
        n >= 0,
    ensures
        copy_mem_ops(p, n).len() == ops_counted(p, n),
    decreases n,
{
    if n > 0 {
        lemma_copy_mem_ops_len(p, n - 1);
    }
}

/// Padding boundary: in a copy of `n` bytes the read step at source offset
/// `i` is padded exactly when `src_addr + i` reaches `src_addr_end`, never
/// strictly below that boundary; write steps are never padded.
pub proof fn lemma_padding_boundary(p: CopyParams, n: int, i: int)
    requires
        0 <= i < n,
    ensures
        step_at(p, n, 2 * i).is_pad <==> p.src_addr + i >= p.src_addr_end,
        !step_at(p, n, 2 * i + 1).is_pad,
{
    assert((2 * i) / 2 == i && (2 * i) % 2 == 0) by (nonlinear_arith);
    assert((2 * i + 1) / 2 == i && (2 * i + 1) % 2 == 1) by (nonlinear_arith);
}

/// Value agreement: the read and write steps of one copied byte carry the
/// same value; below the padding boundary that value is the source
/// call-data byte, at or beyond it the value is zero.
pub proof fn lemma_value_agreement(p: CopyParams, n: int, i: int)
    requires
        0 <= i < n,
    ensures
        step_at(p, n, 2 * i).value == step_at(p, n, 2 * i + 1).value,
        !pad_at(p, i) ==> step_at(p, n, 2 * i).value == p.call_data[p.src_addr + i
            - p.call_data_offset],
        pad_at(p, i) ==> step_at(p, n, 2 * i).value == 0,
{
    assert((2 * i) / 2 == i && (2 * i) % 2 == 0) by (nonlinear_arith);
    assert((2 * i + 1) / 2 == i && (2 * i + 1) % 2 == 1) by (nonlinear_arith);
}

/// Remaining-increment closure: every step's row counter plus its
/// remaining-increment budget equals the row counter in effect after the
/// event, and the event's last counter-consuming step — its final write —
/// carries exactly its own single pending advance, so the budget reaches
/// zero precisely when the event ends.
pub proof fn lemma_remaining_increment_closure(p: CopyParams, n: int, k: int)
    requires
        0 < n,
        0 <= k < 2 * n,
        p.rwc0 + 2 * n <= u64::MAX,
    ensures
        step_at(p, n, k).rwc + step_at(p, n, k).rwc_inc_left == p.rwc0 + ops_counted(p, n),
        step_at(p, n, 2 * n - 1).rwc_inc_left == 1,
{
    let i = k / 2;
    assert(0 <= i < n) by (nonlinear_arith)
        requires
            0 <= k < 2 * n,
            i == k / 2,
    ;
    lemma_ops_counted_bounds(p, i);
    lemma_ops_counted_bounds(p, i + 1);
    lemma_ops_counted_bounds(p, n);
    lemma_ops_counted_monotonic(p, i, n);
    lemma_ops_counted_monotonic(p, i + 1, n);
    assert((2 * n - 1) / 2 == n - 1 && (2 * n - 1) % 2 == 1) by (nonlinear_arith);
    lemma_ops_counted_bounds(p, n - 1);
    lemma_ops_counted_monotonic(p, n - 1, n);
}

} // verus!

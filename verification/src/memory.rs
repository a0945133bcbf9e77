//! The per-call-frame memory model: a growable byte buffer that is
//! semantically zero beyond its tracked length.

use vstd::prelude::*;

verus! {

/// A byte read at any address is defined: bytes beyond the tracked length
/// read as zero without requiring an extension.
pub open spec fn byte_at(m: Seq<u8>, a: int) -> u8 {
    if 0 <= a < m.len() {
        m[a]
    } else {
        0
    }
}

/// A call frame's memory image. The tracked length only grows, by explicit
/// extension; extension zero-fills the new suffix and never disturbs
/// existing bytes.
#[derive(Debug, Clone, PartialEq, Eq)]
pub struct Memory(pub Vec<u8>);

impl Memory {
    pub open spec fn view(&self) -> Seq<u8> {
        self.0@
    }

    pub fn new() -> (r: Memory)
        ensures
            r@ == Seq::<u8>::empty(),
    {
        Memory(Vec::new())
    }

    /// Grow the buffer to at least `min_len` bytes, zero-filling the new
    /// suffix; a no-op when the buffer is already long enough. The buffer
    /// never shrinks.
    pub fn extend_at_least(&mut self, min_len: usize)
        ensures
            final(self)@.len() == if old(self)@.len() >= min_len {
                old(self)@.len() as int
            } else {
                min_len as int
            },
            forall|i: int| 0 <= i < final(self)@.len() ==> final(self)@[i] == byte_at(old(self)@, i),
    {
        while self.0.len() < min_len
            invariant
                old(self)@.len() <= self.0@.len(),
                old(self)@.len() < min_len ==> self.0@.len() <= min_len,
                old(self)@.len() >= min_len ==> self.0@.len() == old(self)@.len(),
                forall|i: int| 0 <= i < self.0@.len() ==> self.0@[i] == byte_at(old(self)@, i),
            decreases min_len - self.0@.len(),
        {
            self.0.push(0);
        }
    }

    /// Overwrite `count` bytes starting at `offset` with the bytes of `src`
    /// starting at `src_start`. The covering extension must already have
    /// happened: the target range lies inside the buffer.
    pub fn write_from(&mut self, offset: usize, src: &Vec<u8>, src_start: usize, count: usize)
        requires
            offset + count <= old(self)@.len(),
            src_start + count <= src@.len(),
        ensures
            final(self)@.len() == old(self)@.len(),
            forall|i: int|
                offset <= i < offset + count ==> final(self)@[i] == src@[i - offset + src_start],
            forall|i: int|
                0 <= i < final(self)@.len() && !(offset <= i < offset + count)
                    ==> final(self)@[i] == old(self)@[i],
    {
        proof {
            vstd::std_specs::vec::axiom_spec_len(src);
            vstd::std_specs::vec::axiom_spec_len(&self.0);
        }
        let mut k: usize = 0;
        while k < count
            invariant
                k <= count,
                offset + count <= usize::MAX,
                src_start + count <= usize::MAX,
                offset + count <= self.0@.len(),
                src_start + count <= src@.len(),
                self.0@.len() == old(self)@.len(),
                forall|i: int|
                    offset <= i < offset + k ==> self.0@[i] == src@[i - offset + src_start],
                forall|i: int|
                    0 <= i < self.0@.len() && !(offset <= i < offset + k)
                        ==> self.0@[i] == old(self)@[i],
            decreases count - k,
        {
            let b = src[src_start + k];
            self.0[offset + k] = b;
            k = k + 1;
        }
    }
}

} // verus!

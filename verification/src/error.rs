//! Error kinds for witness construction.

use vstd::prelude::*;

verus! {

/// A fatal error met while building the witness for a block.
///
/// Either kind aborts the block's witness construction: the input trace is
/// not a valid execution (`MalformedTrace`, e.g. a stack underflow or an
/// exhausted row counter), or an address or length exceeds the representable
/// range (`ArithmeticOverflow`). There is no partial-failure mode and no
/// retry.
#[derive(Debug, Clone, Copy, PartialEq, Eq, Structural)]
pub enum Error {
    MalformedTrace,
    ArithmeticOverflow,
}

} // verus!

//! Bus-mapping core: an execution-state tracker and copy-event generator.
//!
//! Given one EVM instruction's stack, memory and call state before execution,
//! the tracker reconstructs the instruction's side effects deterministically,
//! records every read and write as an operation tagged with a strictly
//! increasing row counter, and, for bulk-copy instructions, emits a padded,
//! counter-annotated copy event. The resulting operation log and copy-event
//! list form the witness consumed by a downstream constraint system.

pub mod calldatacopy;
pub mod copy;
pub mod error;
pub mod memory;
pub mod operation;
pub mod state;
pub mod step;
pub mod tables;

//! Control-plane core of a hardware-assisted virtual machine monitor.
//!
//! The crate models the per-guest control structure as data, builds the
//! guest's second-level address translation, records the host execution
//! context that the processor restores on every exit, and interprets the
//! condition flags of the privileged entry instruction.  The privileged
//! pieces themselves (register reads, the entry instruction, the frame
//! allocator backing store) are handed in as plain values or supplied by
//! the embedding program.

pub mod error;
pub mod frame;
pub mod vmx;
pub mod vmcs;
pub mod memory;
pub mod vm;

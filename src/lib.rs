//! Caller-frame recovery for MIPS register snapshots: call-frame-info driven
//! unwinding, stack scanning, and the end-of-stack rules that keep a walk finite.
pub mod context;
pub mod memory;
pub mod frame;
pub mod unwind;
pub mod theorems;

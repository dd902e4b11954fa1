//! A minimal kernel-object model: object identity, capability handles with
//! rights, a bidirectional IPC channel pair, and a process-level handle table.
//!
//! Every mutable aggregate is held by exclusive ownership and mutated through
//! `&mut` methods, so each logical operation is specified and verified as one
//! atomic step, mirroring the short-held per-object locks of a kernel runtime.

pub mod error;
pub mod ipc;
pub mod object;
pub mod task;

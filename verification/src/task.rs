//! Task objects: the process and its capability table.

pub mod process;

//! Inter-process communication: the bidirectional channel endpoint pair.

pub mod channel;

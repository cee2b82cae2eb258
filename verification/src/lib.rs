//! Message framing for a filesystem-in-userspace kernel protocol.
//!
//! The crate frames the byte traffic between a kernel-owned channel and a
//! filesystem implementation: it decodes fixed-header-plus-argument request
//! messages through a resumable, poll-driven state machine, and encodes
//! response messages as one header followed by the caller's payload chunks.
//! Interpreting the argument bytes of a request is left to the caller.

pub mod bytes;
pub mod channel;
pub mod decode;
pub mod encode;
pub mod header;
pub mod opcode;

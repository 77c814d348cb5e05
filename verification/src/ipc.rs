//! Inter-process control channel: message framing, reusable buffers and
//! command dispatch.

pub mod buffer;
pub mod handle_command;
pub mod message;
pub mod socket;

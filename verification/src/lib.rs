//! Control plane of a background recording daemon: binary message framing
//! over a local stream socket, command dispatch, singleton-instance
//! enforcement through a pidfile, and a drain-then-exit shutdown model.
//!
//! This crate holds the verified logic: the codec, the command table, the
//! guard decision and the shutdown state machine all carry contracts. The
//! sockets, files and signals that surround them live with the binaries.

pub mod ipc;
pub mod pid;
pub mod recording;
pub mod shutdown;
pub mod util;

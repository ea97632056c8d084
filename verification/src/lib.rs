//! A single-purpose TCP responder built around the smoltcp protocol engine.
//!
//! One TCP socket is kept listening on a fixed port; every client that
//! connects receives a fixed greeting and the connection is closed at once.
//! The library holds the verified core: the per-iteration socket lifecycle
//! controller, the scheduler's wait computation, and the startup decisions
//! (device selection, interface configuration).  Raw device I/O — opening a
//! TUN/TAP device and blocking on its descriptor — stays with the caller.

pub mod controller;
pub mod device;
pub mod engine;
pub mod options;
pub mod scheduler;
pub mod sockets;

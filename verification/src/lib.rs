//! A transport-agnostic connection abstraction: byte-level I/O capability
//! contracts (`Connection`, `ConnectionNonBlocking`), a bridging value that
//! names the waiting strategy a live connection offers (`PollReadable`), and
//! a verified in-memory transport that realizes the contracts for tests and
//! other in-process uses.
//!
//! The abstraction reconciles blocking transfer and non-blocking polling
//! behind one interface: a protocol engine calls `read`/`write` for normal
//! transfer and `async_interface` to learn how to wait for input.

pub mod connection;
pub mod laws;
pub mod memory;

pub use connection::{Connection, ConnectionNonBlocking, PollReadable, ProbeOutcome,
    resolve_readable};
pub use memory::{MemoryConnection, MemoryError};

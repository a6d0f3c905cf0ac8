//! The capability contracts every transport implements, and the verified
//! decision logic of the readiness probe.

use vstd::prelude::*;

verus! {

/// Which waiting strategy a given live connection offers a caller that wants
/// to wait for input without blocking on `read`.
///
/// The variant is decided statically by which capabilities the transport
/// implements, not per call. The `NonBlocking` variant borrows the connection
/// for its lifetime, so no other operation can run on the connection while
/// the handle is live.
pub enum PollReadable<'a, C> {
    /// A raw platform descriptor, suitable for registration with an external
    /// readiness multiplexer.
    Pollable(i32),
    /// The connection itself answers readiness probes: drive it through
    /// `ConnectionNonBlocking::is_readable` in a retry/backoff loop.
    NonBlocking(&'a C),
    /// Neither strategy is available; the caller must fall back to a
    /// blocking `read`.
    Unavailable,
}

/// Byte-level I/O operations every transport supports, plus the one-shot
/// session lifecycle hook and an accessor for the transport's multiplexing
/// handle when one exists.
///
/// A value implementing this capability stands for exactly one open channel
/// with exactly one owner; operations move its read/write cursors but never
/// its identity. Every operation reports failure through the transport's own
/// error type, and this layer performs no local recovery.
pub trait Connection: Sized {
    /// The transport's own error type.
    type Error;

    /// Blocks until one byte is available and returns it; fails on
    /// end-of-channel before a byte arrives, hangup, or a platform error.
    fn read(&mut self) -> Result<u8, Self::Error>;

    /// Blocks until `buf` is filled entirely or fails; a partial fill on
    /// error must not be taken for success.
    fn read_exact(&mut self, buf: &mut Vec<u8>) -> Result<(), Self::Error>;

    /// Returns the next byte without consuming it; idempotent across
    /// repeated calls absent intervening reads; fails under the same
    /// conditions as `read`.
    fn peek(&mut self) -> Result<u8, Self::Error>;

    /// Blocks until the byte is accepted by the transport's send buffer;
    /// local queuing only, not peer receipt.
    fn write(&mut self, byte: u8) -> Result<(), Self::Error>;

    /// Blocks until every byte of `buf` is accepted by the transport's send
    /// buffer; local queuing only, not peer receipt.
    fn write_all(&mut self, buf: &[u8]) -> Result<(), Self::Error>;

    /// Forces buffered output toward the transport; required after writes
    /// when delivery timing matters, as no write flushes implicitly.
    fn flush(&mut self) -> Result<(), Self::Error>;

    /// One-shot hook the owner calls exactly once, after the channel is
    /// established and before protocol traffic begins; sets transport
    /// session parameters. A failure here aborts session establishment.
    fn on_session_start(&mut self) -> Result<(), Self::Error>;

    /// The best available waiting strategy for this connection instance.
    /// Must not change the connection's observable blocking-mode state
    /// beyond what the returned variant implies.
    fn async_interface(&self) -> PollReadable<'_, Self>;

    /// The low-level platform descriptor for external multiplexer
    /// registration, or `None` where the platform or transport has no such
    /// descriptor. Absence is not an error.
    fn as_raw_fd(&self) -> Option<i32>;
}

/// Optional refinement of `Connection` for transports that can toggle
/// blocking mode transiently and so answer "is there data to read right
/// now?" without permanently switching modes.
pub trait ConnectionNonBlocking: Connection {
    /// Single-shot readability probe: switch to non-blocking mode, attempt a
    /// non-consuming peek, interpret would-block as `false` and a successful
    /// peek as `true`, then restore blocking mode unconditionally. The
    /// caller holds exclusive access for the full duration of the call.
    fn is_readable(&self) -> Result<bool, Self::Error>;
}

/// What the non-consuming peek at the heart of a readiness probe observed.
pub enum ProbeOutcome<E> {
    /// The peek saw at least one pending byte.
    Ready,
    /// The peek reported would-block: nothing pending yet.
    NotReady,
    /// The peek failed with a real transport error.
    Failed(E),
}

/// The verdict a readiness probe must reach from its peek outcome and from
/// the result of restoring blocking mode: a restoration failure supersedes
/// whatever the peek observed; otherwise a ready peek means `Ok(true)`, a
/// would-block means `Ok(false)`, and a failed peek passes its error on.
pub open spec fn readable_outcome<E>(probe: ProbeOutcome<E>, restore: Result<(), E>) -> Result<
    bool,
    E,
> {
    match restore {
        Result::Err(e) => Result::Err(e),
        Result::Ok(_) => match probe {
            ProbeOutcome::Ready => Result::Ok(true),
            ProbeOutcome::NotReady => Result::Ok(false),
            ProbeOutcome::Failed(e) => Result::Err(e),
        },
    }
}

/// Combines a readiness probe's peek outcome with the result of the
/// unconditional restoration of blocking mode.
///
/// The restoration runs after the peek, and its error, if any, supersedes
/// the peek's result: the probe guarantees the transport is left in blocking
/// mode whenever it returns without error, whatever the readability answer.
pub fn resolve_readable<E>(probe: ProbeOutcome<E>, restore: Result<(), E>) -> (r: Result<bool, E>)
    ensures
        r == readable_outcome(probe, restore),
{
    match restore {
        Err(e) => Err(e),
        Ok(_) => match probe {
            ProbeOutcome::Ready => Ok(true),
            ProbeOutcome::NotReady => Ok(false),
            ProbeOutcome::Failed(e) => Err(e),
        },
    }
}

} // verus!

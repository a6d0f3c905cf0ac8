//! A verified in-memory transport: the test double that realizes the
//! `Connection` and `ConnectionNonBlocking` contracts on plain buffers.
//!
//! One value stands for one endpoint of a channel. A test harness plays the
//! peer: it hands the endpoint its incoming bytes with `deliver`, reads what
//! the endpoint flushed with `flushed_bytes`, and hangs up with `close_peer`.
//! The double never blocks: where a socket would wait for the peer, it
//! reports `MemoryError::WouldBlock` instead.

use vstd::prelude::*;

use crate::connection::{Connection, ConnectionNonBlocking, PollReadable, ProbeOutcome,
    resolve_readable};

verus! {

/// The error type of the in-memory transport.
#[derive(Clone, Copy, Debug, PartialEq, Eq)]
pub enum MemoryError {
    /// The peer has closed the channel: reads find no further bytes and
    /// writes can no longer be delivered.
    Closed,
    /// The operation would have to wait for the peer. The double cannot
    /// block, so it reports the wait instead of performing it.
    WouldBlock,
}

/// The mathematical model of one in-memory endpoint.
#[verifier::ext_equal]
pub struct ChannelModel {
    /// Bytes the peer has sent that this endpoint has not consumed yet.
    pub pending: Seq<u8>,
    /// Bytes written by this endpoint and not yet flushed.
    pub staged: Seq<u8>,
    /// Bytes this endpoint has flushed toward the peer, in order.
    pub flushed: Seq<u8>,
    /// Whether the peer has closed its end of the channel.
    pub peer_closed: bool,
    /// Whether the endpoint is in blocking mode.
    pub blocking: bool,
    /// Whether send coalescing is disabled (the "no-delay" knob).
    pub nodelay: bool,
    /// Whether the one-shot session hook has run.
    pub session_started: bool,
}

/// The model of a freshly opened endpoint: empty buffers, peer connected,
/// blocking mode, session parameters still at their defaults.
pub open spec fn initial_model() -> ChannelModel {
    ChannelModel {
        pending: Seq::empty(),
        staged: Seq::empty(),
        flushed: Seq::empty(),
        peer_closed: false,
        blocking: true,
        nodelay: false,
        session_started: false,
    }
}

/// The peer sends `data`: it queues after whatever is already pending.
pub open spec fn with_delivery(v: ChannelModel, data: Seq<u8>) -> ChannelModel {
    ChannelModel { pending: v.pending + data, ..v }
}

/// The peer closes its end of the channel.
pub open spec fn with_peer_closed(v: ChannelModel) -> ChannelModel {
    ChannelModel { peer_closed: true, ..v }
}

/// The endpoint's blocking mode is set.
pub open spec fn with_mode(v: ChannelModel, blocking: bool) -> ChannelModel {
    ChannelModel { blocking: blocking, ..v }
}

/// The endpoint's no-delay knob is set.
pub open spec fn with_nodelay(v: ChannelModel, nodelay: bool) -> ChannelModel {
    ChannelModel { nodelay: nodelay, ..v }
}

/// The session hook has run: blocking mode is the baseline, send coalescing
/// is off, and the hook is recorded as done.
pub open spec fn after_session_start(v: ChannelModel) -> ChannelModel {
    ChannelModel { blocking: true, nodelay: true, session_started: true, ..v }
}

/// The first `n` pending bytes are consumed.
pub open spec fn after_take(v: ChannelModel, n: int) -> ChannelModel {
    ChannelModel { pending: v.pending.skip(n), ..v }
}

/// `data` is appended to the staged output.
pub open spec fn after_write_all(v: ChannelModel, data: Seq<u8>) -> ChannelModel {
    ChannelModel { staged: v.staged + data, ..v }
}

/// The staged output moves, in order, to the flushed output.
pub open spec fn after_flush(v: ChannelModel) -> ChannelModel {
    ChannelModel { staged: Seq::empty(), flushed: v.flushed + v.staged, ..v }
}

/// The error a read-side operation reports when nothing is pending: the
/// channel has ended if the peer closed, otherwise the operation would have
/// to wait.
pub open spec fn stall_error(v: ChannelModel) -> MemoryError {
    if v.peer_closed {
        MemoryError::Closed
    } else {
        MemoryError::WouldBlock
    }
}

/// What `read` returns on an endpoint in state `v`: the first pending byte,
/// or the stall error when nothing is pending.
pub open spec fn read_verdict(v: ChannelModel) -> Result<u8, MemoryError> {
    if v.pending.len() > 0 {
        Result::Ok(v.pending[0])
    } else {
        Result::Err(stall_error(v))
    }
}

/// What `peek` returns on an endpoint in state `v`: the same byte or error
/// as `read`, but without consuming anything.
pub open spec fn peek_verdict(v: ChannelModel) -> Result<u8, MemoryError> {
    read_verdict(v)
}

/// Whether `n` bytes are pending, so that `read_exact` of `n` bytes is owed
/// success.
pub open spec fn has_pending(v: ChannelModel, n: int) -> bool {
    v.pending.len() >= n
}

/// What `is_readable` returns on an endpoint in state `v`: `true` once at
/// least one byte is pending, `false` when nothing is pending and the peer
/// is still connected, and the end-of-channel error when the peer has closed
/// and nothing is left to read.
pub open spec fn readable_verdict(v: ChannelModel) -> Result<bool, MemoryError> {
    if v.pending.len() > 0 {
        Result::Ok(true)
    } else if v.peer_closed {
        Result::Err(MemoryError::Closed)
    } else {
        Result::Ok(false)
    }
}

/// One endpoint of an in-memory channel.
pub struct MemoryConnection {
    incoming: Vec<u8>,
    staged: Vec<u8>,
    flushed: Vec<u8>,
    peer_closed: bool,
    blocking: bool,
    nodelay: bool,
    session_started: bool,
}

impl View for MemoryConnection {
    type V = ChannelModel;

    closed spec fn view(&self) -> ChannelModel {
        ChannelModel {
            pending: self.incoming@,
            staged: self.staged@,
            flushed: self.flushed@,
            peer_closed: self.peer_closed,
            blocking: self.blocking,
            nodelay: self.nodelay,
            session_started: self.session_started,
        }
    }
}

impl MemoryConnection {
    /// Opens a fresh endpoint: empty buffers, peer connected, blocking mode.
    pub fn new() -> (r: MemoryConnection)
        ensures
            r@ == initial_model(),
    {
        MemoryConnection {
            incoming: Vec::new(),
            staged: Vec::new(),
            flushed: Vec::new(),
            peer_closed: false,
            blocking: true,
            nodelay: false,
            session_started: false,
        }
    }

    /// The peer sends `data` to this endpoint: the bytes queue, in order,
    /// after whatever is already pending.
    pub fn deliver(&mut self, data: &[u8])
        ensures
            final(self)@ == with_delivery(old(self)@, data@),
    {
        let n: usize = data.len();
        let mut i: usize = 0;
        while i < n
            invariant
                i <= n,
                n == data@.len(),
                self.incoming@ == old(self).incoming@ + data@.take(i as int),
                self.staged == old(self).staged,
                self.flushed == old(self).flushed,
                self.peer_closed == old(self).peer_closed,
                self.blocking == old(self).blocking,
                self.nodelay == old(self).nodelay,
                self.session_started == old(self).session_started,
            decreases n - i,
        {
            self.incoming.push(data[i]);
            i = i + 1;
            proof {
                assert(self.incoming@ =~= old(self).incoming@ + data@.take(i as int));
            }
        }
        proof {
            assert(data@.take(n as int) =~= data@);
            assert(self@ =~= with_delivery(old(self)@, data@));
        }
    }

    /// The peer closes its end of the channel.
    pub fn close_peer(&mut self)
        ensures
            final(self)@ == with_peer_closed(old(self)@),
    {
        self.peer_closed = true;
    }

    /// The bytes this endpoint has flushed toward the peer so far, in order.
    pub fn flushed_bytes(&self) -> (r: &Vec<u8>)
        ensures
            r@ == self@.flushed,
    {
        &self.flushed
    }

    /// Whether the endpoint is in blocking mode.
    pub fn is_blocking(&self) -> (r: bool)
        ensures
            r == self@.blocking,
    {
        self.blocking
    }

    /// Whether send coalescing is disabled.
    pub fn is_nodelay(&self) -> (r: bool)
        ensures
            r == self@.nodelay,
    {
        self.nodelay
    }

    /// Whether the one-shot session hook has run.
    pub fn has_session_started(&self) -> (r: bool)
        ensures
            r == self@.session_started,
    {
        self.session_started
    }

    /// Sets the endpoint's blocking mode; on the in-memory transport the
    /// toggle always succeeds.
    pub fn set_nonblocking(&mut self, nonblocking: bool) -> (r: Result<(), MemoryError>)
        ensures
            r == Ok::<(), MemoryError>(()),
            final(self)@ == with_mode(old(self)@, !nonblocking),
    {
        self.blocking = !nonblocking;
        Ok(())
    }

    /// Sets the endpoint's no-delay knob; on the in-memory transport the
    /// setting always succeeds.
    pub fn set_nodelay(&mut self, nodelay: bool) -> (r: Result<(), MemoryError>)
        ensures
            r == Ok::<(), MemoryError>(()),
            final(self)@ == with_nodelay(old(self)@, nodelay),
    {
        self.nodelay = nodelay;
        Ok(())
    }
}

impl Connection for MemoryConnection {
    type Error = MemoryError;

    /// Returns the next pending byte and consumes it; fails with the stall
    /// error when nothing is pending, leaving the endpoint unchanged.
    fn read(&mut self) -> (r: Result<u8, MemoryError>)
        ensures
            r == read_verdict(old(self)@),
            old(self)@.pending.len() > 0 ==> final(self)@ == after_take(old(self)@, 1),
            old(self)@.pending.len() == 0 ==> final(self)@ == old(self)@,
    {
        if self.incoming.len() > 0 {
            let b = self.incoming.remove(0);
            proof {
                assert(old(self).incoming@.remove(0) =~= old(self).incoming@.skip(1));
                assert(self@ =~= after_take(old(self)@, 1));
            }
            Ok(b)
        } else if self.peer_closed {
            Err(MemoryError::Closed)
        } else {
            Err(MemoryError::WouldBlock)
        }
    }

    /// Fills `buf` with the next `buf.len()` pending bytes when that many
    /// are pending; otherwise fails with the stall error and consumes
    /// nothing, leaving `buf` unchanged.
    fn read_exact(&mut self, buf: &mut Vec<u8>) -> (r: Result<(), MemoryError>)
        ensures
            has_pending(old(self)@, old(buf)@.len() as int) ==> r == Ok::<(), MemoryError>(())
                && final(buf)@ == old(self)@.pending.take(old(buf)@.len() as int) && final(self)@
                == after_take(old(self)@, old(buf)@.len() as int),
            !has_pending(old(self)@, old(buf)@.len() as int) ==> r == Err::<(), MemoryError>(
                stall_error(old(self)@),
            ) && final(buf)@ == old(buf)@ && final(self)@ == old(self)@,
    {
        let n: usize = buf.len();
        if self.incoming.len() < n {
            if self.peer_closed {
                return Err(MemoryError::Closed);
            } else {
                return Err(MemoryError::WouldBlock);
            }
        }
        let mut taken: Vec<u8> = Vec::new();
        let mut i: usize = 0;
        while i < n
            invariant
                i <= n,
                n <= old(self)@.pending.len(),
                taken@ == old(self)@.pending.take(i as int),
                self.incoming@ == old(self)@.pending.skip(i as int),
                self.staged == old(self).staged,
                self.flushed == old(self).flushed,
                self.peer_closed == old(self).peer_closed,
                self.blocking == old(self).blocking,
                self.nodelay == old(self).nodelay,
                self.session_started == old(self).session_started,
            decreases n - i,
        {
            let b = self.incoming.remove(0);
            taken.push(b);
            i = i + 1;
            proof {
                assert(old(self)@.pending.skip(i - 1).remove(0) =~= old(self)@.pending.skip(
                    i as int,
                ));
                assert(old(self)@.pending.take(i - 1).push(b) =~= old(self)@.pending.take(i as int));
            }
        }
        *buf = taken;
        proof {
            assert(self@ =~= after_take(old(self)@, n as int));
        }
        Ok(())
    }

    /// Returns the next pending byte without consuming it; fails under the
    /// same conditions as `read`. The endpoint is never changed.
    fn peek(&mut self) -> (r: Result<u8, MemoryError>)
        ensures
            r == peek_verdict(old(self)@),
            final(self)@ == old(self)@,
    {
        if self.incoming.len() > 0 {
            Ok(self.incoming[0])
        } else if self.peer_closed {
            Err(MemoryError::Closed)
        } else {
            Err(MemoryError::WouldBlock)
        }
    }

    /// Stages one byte for output; fails with `Closed` when the peer has
    /// hung up, leaving the endpoint unchanged.
    fn write(&mut self, byte: u8) -> (r: Result<(), MemoryError>)
        ensures
            !old(self)@.peer_closed ==> r == Ok::<(), MemoryError>(()) && final(self)@
                == after_write_all(old(self)@, seq![byte]),
            old(self)@.peer_closed ==> r == Err::<(), MemoryError>(MemoryError::Closed)
                && final(self)@ == old(self)@,
    {
        if self.peer_closed {
            return Err(MemoryError::Closed);
        }
        self.staged.push(byte);
        proof {
            assert(old(self).staged@ + seq![byte] =~= old(self).staged@.push(byte));
            assert(self@ =~= after_write_all(old(self)@, seq![byte]));
        }
        Ok(())
    }

    /// Stages every byte of `buf` for output, in order; fails with `Closed`
    /// when the peer has hung up, leaving the endpoint unchanged.
    fn write_all(&mut self, buf: &[u8]) -> (r: Result<(), MemoryError>)
        ensures
            !old(self)@.peer_closed ==> r == Ok::<(), MemoryError>(()) && final(self)@
                == after_write_all(old(self)@, buf@),
            old(self)@.peer_closed ==> r == Err::<(), MemoryError>(MemoryError::Closed)
                && final(self)@ == old(self)@,
    {
        if self.peer_closed {
            return Err(MemoryError::Closed);
        }
        let n: usize = buf.len();
        let mut i: usize = 0;
        while i < n
            invariant
                i <= n,
                n == buf@.len(),
                self.staged@ == old(self).staged@ + buf@.take(i as int),
                self.incoming == old(self).incoming,
                self.flushed == old(self).flushed,
                self.peer_closed == old(self).peer_closed,
                self.blocking == old(self).blocking,
                self.nodelay == old(self).nodelay,
                self.session_started == old(self).session_started,
            decreases n - i,
        {
            self.staged.push(buf[i]);
            i = i + 1;
            proof {
                assert((old(self).staged@ + buf@.take(i - 1)).push(buf@[i - 1]) =~= old(
                    self,
                ).staged@ + buf@.take(i as int));
            }
        }
        proof {
            assert(buf@.take(n as int) =~= buf@);
            assert(self@ =~= after_write_all(old(self)@, buf@));
        }
        Ok(())
    }

    /// Moves the staged output, in order, to the flushed output. On the
    /// in-memory transport flushing itself always succeeds.
    fn flush(&mut self) -> (r: Result<(), MemoryError>)
        ensures
            r == Ok::<(), MemoryError>(()),
            final(self)@ == after_flush(old(self)@),
    {
        let mut moved: Vec<u8> = Vec::new();
        std::mem::swap(&mut moved, &mut self.staged);
        self.flushed.append(&mut moved);
        proof {
            assert(self@ =~= after_flush(old(self)@));
        }
        Ok(())
    }

    /// The one-shot session hook: forces blocking mode as the baseline and
    /// disables send coalescing. On the in-memory transport neither knob can
    /// fail, so the hook always succeeds.
    fn on_session_start(&mut self) -> (r: Result<(), MemoryError>)
        ensures
            r == Ok::<(), MemoryError>(()),
            final(self)@ == after_session_start(old(self)@),
    {
        self.set_nonblocking(false)?;
        self.set_nodelay(true)?;
        self.session_started = true;
        Ok(())
    }

    /// The in-memory transport supports the readiness probe, so the waiting
    /// strategy is always the non-blocking handle back to this endpoint.
    fn async_interface(&self) -> (r: PollReadable<'_, MemoryConnection>)
        ensures
            r == PollReadable::NonBlocking(self),
    {
        PollReadable::NonBlocking(self)
    }

    /// The in-memory transport has no platform descriptor; absence is
    /// represented as `None`, not as an error.
    fn as_raw_fd(&self) -> (r: Option<i32>)
        ensures
            r is None,
    {
        None
    }
}

impl ConnectionNonBlocking for MemoryConnection {
    /// The readiness probe. On the in-memory transport the mode toggle on
    /// either side of the peek always succeeds, so the verdict is the peek
    /// outcome's: `true` once a byte is pending, `false` when nothing is
    /// pending on a connected channel, and the end-of-channel error when the
    /// peer has closed and nothing is left. The endpoint is borrowed
    /// immutably, so its state, its blocking mode included, is unchanged.
    fn is_readable(&self) -> (r: Result<bool, MemoryError>)
        ensures
            r == readable_verdict(self@),
    {
        let probe: ProbeOutcome<MemoryError> = if self.incoming.len() > 0 {
            ProbeOutcome::Ready
        } else if self.peer_closed {
            ProbeOutcome::Failed(MemoryError::Closed)
        } else {
            ProbeOutcome::NotReady
        };
        resolve_readable(probe, Ok(()))
    }
}

} // verus!

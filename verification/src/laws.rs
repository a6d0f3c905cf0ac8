//! The general properties the library guarantees, stated and proved over the
//! in-memory transport's model and the readiness decision logic.
//!
//! Each proof function is a law: its parameters are the inputs the law
//! speaks of, its `requires` holds only what the law assumes, and its
//! `ensures` states the law over the same model functions that the
//! executable contracts use.

use vstd::prelude::*;

use crate::connection::{readable_outcome, ProbeOutcome};
use crate::memory::{after_flush, after_session_start, after_take, after_write_all, has_pending,
    peek_verdict, read_verdict, readable_verdict, with_delivery, ChannelModel, MemoryError};

verus! {

/// Round-trip fidelity: a byte sequence written via `write_all` and flushed
/// on one endpoint, then carried to the peer endpoint and read back via
/// `read_exact` of the same length, comes back exactly as written.
///
/// On the writing side, flushing after `write_all(data)` appends exactly
/// `data` to the flushed output. On the reading side, once `data` is
/// delivered to an endpoint with nothing else pending, `read_exact` of
/// `data.len()` bytes is owed success, yields exactly `data`, and leaves the
/// pending buffer as it was before the delivery.
pub proof fn lemma_round_trip(server: ChannelModel, client: ChannelModel, data: Seq<u8>)
    requires
        server.staged.len() == 0,
        client.pending.len() == 0,
    ensures
        after_flush(after_write_all(server, data)).flushed == server.flushed + data,
        has_pending(with_delivery(client, data), data.len() as int),
        with_delivery(client, data).pending.take(data.len() as int) == data,
        after_take(with_delivery(client, data), data.len() as int).pending == client.pending,
{
    assert(after_flush(after_write_all(server, data)).flushed =~= server.flushed + data);
    assert(with_delivery(client, data).pending.take(data.len() as int) =~= data);
    assert(after_take(with_delivery(client, data), data.len() as int).pending =~= client.pending);
}

/// Peek is idempotent: `peek`'s own contract states that it leaves the model
/// exactly as it was, so a second peek in succession sees the same state and
/// reports the same verdict. This law adds that the read cursor has not
/// advanced: a following `read` (and so a following `read_exact`) starts at
/// the very byte the peek reported.
pub proof fn lemma_peek_idempotent(v: ChannelModel)
    ensures
        peek_verdict(v) == read_verdict(v),
        peek_verdict(v) matches Ok(b) ==> v.pending.len() >= 1 && b == v.pending[0],
{
}

/// What the readiness probe answers: `is_readable` is `false` exactly when no byte
/// is pending and the peer has not closed the channel, and `true` whenever
/// at least one byte is pending. That the connection is back in blocking
/// mode afterwards is carried by the probe's own contracts: the in-memory
/// probe borrows the endpoint immutably, and `resolve_readable` surfaces any
/// restoration failure instead of hiding it.
pub proof fn lemma_readiness_verdict(v: ChannelModel)
    ensures
        readable_verdict(v) == Ok::<bool, MemoryError>(false) <==> (v.pending.len() == 0
            && !v.peer_closed),
        v.pending.len() > 0 ==> readable_verdict(v) == Ok::<bool, MemoryError>(true),
{
}

/// A failure while restoring blocking mode supersedes whatever the readiness
/// peek observed: the probe's caller learns of the restoration failure, not
/// of a readability answer the transport's mode no longer matches.
pub proof fn lemma_restore_supersedes<E>(probe: ProbeOutcome<E>, e: E)
    ensures
        readable_outcome(probe, Err::<(), E>(e)) == Err::<bool, E>(e),
{
}

/// The session hook needs to run exactly once: running it a second time
/// changes nothing, so nothing ever requires a second run. That operations
/// before the hook are permitted is carried by the executable contracts
/// themselves: no operation's precondition demands that the hook has run.
pub proof fn lemma_session_start_idempotent(v: ChannelModel)
    ensures
        after_session_start(after_session_start(v)) == after_session_start(v),
{
    assert(after_session_start(after_session_start(v)) =~= after_session_start(v));
}

} // verus!

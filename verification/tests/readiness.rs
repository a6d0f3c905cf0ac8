//! Tests of the readiness probe: the pure decision logic shared by every
//! transport, and the in-memory transport driven through it.

use bytelink::connection::{resolve_readable, PollReadable, ProbeOutcome};
use bytelink::memory::{MemoryConnection, MemoryError};
use bytelink::{Connection, ConnectionNonBlocking};

#[test]
fn ready_peek_means_readable() {
    let r: Result<bool, i32> = resolve_readable(ProbeOutcome::Ready, Ok(()));
    assert_eq!(r, Ok(true));
}

#[test]
fn would_block_means_not_readable() {
    let r: Result<bool, i32> = resolve_readable(ProbeOutcome::NotReady, Ok(()));
    assert_eq!(r, Ok(false));
}

#[test]
fn failed_peek_surfaces_its_error() {
    let r: Result<bool, i32> = resolve_readable(ProbeOutcome::Failed(7), Ok(()));
    assert_eq!(r, Err(7));
}

#[test]
fn restore_failure_supersedes_ready_peek() {
    // The mode restoration runs after the peek; its failure wins even when
    // the peek saw pending data.
    let r: Result<bool, i32> = resolve_readable(ProbeOutcome::Ready, Err(5));
    assert_eq!(r, Err(5));
}

#[test]
fn restore_failure_supersedes_failed_peek() {
    let r: Result<bool, i32> = resolve_readable(ProbeOutcome::Failed(7), Err(5));
    assert_eq!(r, Err(5));
}

#[test]
fn readability_follows_pending_data() {
    // An idle channel is not readable; it becomes readable once a byte is
    // pending, and the byte then reads back without error.
    let mut client = MemoryConnection::new();
    client.on_session_start().unwrap();
    assert_eq!(client.is_readable(), Ok(false));
    client.deliver(&[0x01]);
    assert_eq!(client.is_readable(), Ok(true));
    assert_eq!(client.read(), Ok(0x01));
    assert_eq!(client.is_readable(), Ok(false));
}

#[test]
fn probe_leaves_blocking_mode_restored() {
    let mut client = MemoryConnection::new();
    client.on_session_start().unwrap();
    assert_eq!(client.is_readable(), Ok(false));
    // The probe left the connection in blocking mode, so a blocking read
    // after new data arrives succeeds rather than reporting would-block.
    assert!(client.is_blocking());
    client.deliver(&[3]);
    assert_eq!(client.read(), Ok(3));
}

#[test]
fn idle_then_readable_via_server() {
    // The loopback form: the client is idle until the server writes and
    // flushes one byte; then the probe flips and the byte reads back.
    let mut server = MemoryConnection::new();
    let mut client = MemoryConnection::new();
    server.on_session_start().unwrap();
    client.on_session_start().unwrap();

    assert_eq!(client.is_readable(), Ok(false));
    server.write_all(&[0x01]).unwrap();
    // Not flushed yet: nothing has reached the client.
    client.deliver(server.flushed_bytes().as_slice());
    assert_eq!(client.is_readable(), Ok(false));

    server.flush().unwrap();
    client.deliver(server.flushed_bytes().as_slice());
    assert_eq!(client.is_readable(), Ok(true));
    assert_eq!(client.read(), Ok(0x01));
}

#[test]
fn probe_reports_end_of_channel() {
    let mut client = MemoryConnection::new();
    client.close_peer();
    assert_eq!(client.is_readable(), Err(MemoryError::Closed));
}

#[test]
fn probe_sees_pending_bytes_after_close() {
    let mut client = MemoryConnection::new();
    client.deliver(&[1]);
    client.close_peer();
    assert_eq!(client.is_readable(), Ok(true));
}

#[test]
fn async_interface_offers_the_probe() {
    let mut client = MemoryConnection::new();
    client.deliver(&[2]);
    match client.async_interface() {
        PollReadable::NonBlocking(handle) => {
            assert_eq!(handle.is_readable(), Ok(true));
        }
        PollReadable::Pollable(_) => panic!("the in-memory transport has no descriptor"),
        PollReadable::Unavailable => panic!("the in-memory transport supports probing"),
    }
    // Learning the strategy did not disturb the connection.
    assert_eq!(client.read(), Ok(2));
}

#[test]
fn no_platform_descriptor() {
    let client = MemoryConnection::new();
    assert_eq!(client.as_raw_fd(), None);
}

//! The guarantees the state machine gives, proved once and for all.
//!
//! Each proof function here states one behavioural law of the registry over
//! the spec-level transition functions that the executable methods are
//! specified against. The laws quantify over every registry content, every
//! descriptor and every write sequence.

use vstd::prelude::*;

use crate::flags::{wal_marker, wants_write};
use crate::pattern::contains_seq;
use crate::registry::{after_flush, after_open, after_write, classified_mode, flush_write_of,
    pending_of, route_of, seek_ok, sync_delay_of, Mode, WriteRoute};

verus! {

/// The registry contents after a sequence of writes to `fd`, applied in
/// order.
pub open spec fn apply_writes(m: Map<i32, Mode>, fd: i32, ws: Seq<Seq<u8>>) -> Map<i32, Mode>
    decreases ws.len(),
{
    if ws.len() == 0 {
        m
    } else {
        apply_writes(after_write(m, fd, ws[0]), fd, ws.subrange(1, ws.len() as int))
    }
}

/// The concatenation of a sequence of byte buffers, in order.
pub open spec fn concat_all(ws: Seq<Seq<u8>>) -> Seq<u8>
    decreases ws.len(),
{
    if ws.len() == 0 {
        Seq::empty()
    } else {
        ws[0] + concat_all(ws.subrange(1, ws.len() as int))
    }
}

/// The total length of a sequence of byte buffers.
pub open spec fn total_len(ws: Seq<Seq<u8>>) -> nat
    decreases ws.len(),
{
    if ws.len() == 0 {
        0
    } else {
        ws[0].len() + total_len(ws.subrange(1, ws.len() as int))
    }
}

/// Concatenating buffers yields exactly their total length.
pub proof fn lemma_concat_len(ws: Seq<Seq<u8>>)
    ensures
        concat_all(ws).len() == total_len(ws),
    decreases ws.len(),
{
    if ws.len() > 0 {
        lemma_concat_len(ws.subrange(1, ws.len() as int));
    }
}

/// An open whose flags do not request write access, or whose path lacks the
/// WAL marker, never tracks the descriptor: the registry is unchanged and
/// the caller sees exactly the real open's result.
pub proof fn lemma_unclassified_open_is_noop(m: Map<i32, Mode>, fd: i32, path: Seq<u8>, oflag: i32)
    requires
        !wants_write(oflag) || !contains_seq(path, wal_marker()),
    ensures
        classified_mode(path, oflag) is None,
        after_open(m, fd, path, oflag) == m,
{
}

/// Every operation on an untracked descriptor passes through unchanged:
/// writes are routed straight to the real write and alter no state, a sync
/// flushes nothing and induces no delay, a seek is always allowed, and a
/// close finds nothing to drain and nothing to remove.
pub proof fn lemma_untracked_passthrough(m: Map<i32, Mode>, fd: i32, data: Seq<u8>)
    requires
        !m.contains_key(fd),
    ensures
        route_of(m, fd) == WriteRoute::Pass,
        after_write(m, fd, data) == m,
        flush_write_of(m, fd) is None,
        !sync_delay_of(m, fd),
        after_flush(m, fd) == m,
        seek_ok(m, fd),
        m.remove(fd) == m,
{
    assert(m.remove(fd) =~= m);
}

/// A sequence of writes against a buffered descriptor accumulates exactly
/// their concatenation, in order, after whatever was already pending; no
/// other descriptor's entry changes.
pub proof fn lemma_buffered_writes_accumulate(m: Map<i32, Mode>, fd: i32, ws: Seq<Seq<u8>>)
    requires
        m.contains_key(fd),
        m[fd] is Buffered,
    ensures
        apply_writes(m, fd, ws) == m.insert(
            fd,
            Mode::Buffered(pending_of(m, fd) + concat_all(ws)),
        ),
    decreases ws.len(),
{
    if ws.len() == 0 {
        assert(pending_of(m, fd) + concat_all(ws) =~= pending_of(m, fd));
        assert(m.insert(fd, Mode::Buffered(pending_of(m, fd))) =~= m);
    } else {
        let w0 = ws[0];
        let rest = ws.subrange(1, ws.len() as int);
        let m1 = after_write(m, fd, w0);
        assert(m1 == m.insert(fd, Mode::Buffered(pending_of(m, fd) + w0)));
        lemma_buffered_writes_accumulate(m1, fd, rest);
        assert(pending_of(m1, fd) == pending_of(m, fd) + w0);
        assert(pending_of(m1, fd) + concat_all(rest) =~= pending_of(m, fd) + concat_all(ws));
        assert(m1.insert(fd, Mode::Buffered(pending_of(m1, fd) + concat_all(rest))) =~= m.insert(
            fd,
            Mode::Buffered(pending_of(m, fd) + concat_all(ws)),
        ));
    }
}

/// While writes accumulate against a buffered descriptor, no individual
/// write reaches the real file: each one is routed to the buffer.
pub proof fn lemma_buffered_writes_never_hit_disk(
    m: Map<i32, Mode>,
    fd: i32,
    ws: Seq<Seq<u8>>,
    i: int,
)
    requires
        m.contains_key(fd),
        m[fd] is Buffered,
        0 <= i < ws.len(),
    ensures
        route_of(apply_writes(m, fd, ws.subrange(0, i)), fd) == WriteRoute::Buffered,
{
    lemma_buffered_writes_accumulate(m, fd, ws.subrange(0, i));
}

/// A sequence of writes with non-empty total length against a descriptor
/// tracked buffered and empty, followed by one sync, hands exactly the
/// concatenation of those writes, in order and of their total length, to
/// one real write — and that write happens only at the sync, after the
/// induced delay.
pub proof fn lemma_writes_then_sync(m: Map<i32, Mode>, fd: i32, ws: Seq<Seq<u8>>)
    requires
        m.contains_key(fd),
        m[fd] == Mode::Buffered(Seq::<u8>::empty()),
        total_len(ws) > 0,
    ensures
        flush_write_of(apply_writes(m, fd, ws), fd) == Some(concat_all(ws)),
        concat_all(ws).len() == total_len(ws),
        sync_delay_of(apply_writes(m, fd, ws), fd),
{
    lemma_buffered_writes_accumulate(m, fd, ws);
    lemma_concat_len(ws);
    assert(pending_of(m, fd) + concat_all(ws) =~= concat_all(ws));
}

/// Every write against an immediate-mode descriptor is routed to the real
/// write behind the induced delay, and nothing is ever buffered for it: a
/// sync finds nothing to flush and a seek is always allowed.
pub proof fn lemma_immediate_write_delayed_passthrough(m: Map<i32, Mode>, fd: i32, data: Seq<u8>)
    requires
        m.contains_key(fd),
        m[fd] == Mode::Immediate,
    ensures
        route_of(m, fd) == WriteRoute::DelayedPass,
        after_write(m, fd, data) == m,
        flush_write_of(m, fd) is None,
        !sync_delay_of(m, fd),
        after_flush(m, fd) == m,
        seek_ok(m, fd),
{
}

/// Flushing is idempotent: after one flush, a second flush with no
/// intervening write finds no pending bytes, so it performs no real write,
/// induces no delay, and leaves the registry as it was.
pub proof fn lemma_flush_idempotent(m: Map<i32, Mode>, fd: i32)
    ensures
        flush_write_of(after_flush(m, fd), fd) is None,
        !sync_delay_of(after_flush(m, fd), fd),
        after_flush(after_flush(m, fd), fd) == after_flush(m, fd),
{
    let m1 = after_flush(m, fd);
    if m.contains_key(fd) && m[fd] is Buffered {
        assert(after_flush(m1, fd) =~= m1);
    }
}

/// Close drains exactly the pending bytes — at most one real write, only
/// when bytes are pending, never with a delay (the close path carries no
/// delay at all) — and removes the entry; a later open that reuses the same
/// descriptor number starts from a fresh entry whose mode depends only on
/// the new path and flags.
pub proof fn lemma_close_drains_and_removes(
    m: Map<i32, Mode>,
    fd: i32,
    path: Seq<u8>,
    oflag: i32,
    mode: Mode,
)
    ensures
        flush_write_of(m, fd) matches Some(b) ==> b == pending_of(m, fd) && b.len() > 0,
        pending_of(m, fd).len() == 0 ==> flush_write_of(m, fd) is None,
        !m.remove(fd).contains_key(fd),
        fd >= 0 && classified_mode(path, oflag) == Some(mode) ==> after_open(
            m.remove(fd),
            fd,
            path,
            oflag,
        )[fd] == mode,
{
}

/// The seek guard aborts exactly the dangerous case: a seek is refused when
/// and only when the descriptor holds pending buffered bytes; untracked and
/// immediate-mode descriptors, and buffered ones with an empty buffer, may
/// always seek.
pub proof fn lemma_seek_guard(m: Map<i32, Mode>, fd: i32)
    ensures
        !seek_ok(m, fd) <==> m.contains_key(fd) && m[fd] is Buffered && pending_of(m, fd).len()
            > 0,
        pending_of(m, fd).len() == 0 ==> seek_ok(m, fd),
        seek_ok(after_flush(m, fd), fd),
{
}

} // verus!

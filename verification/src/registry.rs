//! The descriptor registry and its state machine.
//!
//! A `Registry` maps each tracked file descriptor to its tracking mode:
//! `Immediate` (writes pass through after an induced delay) or `Buffered`
//! (writes accumulate in memory until the next flush). Descriptors absent
//! from the registry are untracked and all their operations pass through
//! unchanged. Every intercepted operation is decided here; the caller
//! performs the real I/O and the induced delays that the decisions call for.

use std::collections::HashMap;
use vstd::prelude::*;

use crate::flags::{flags_want_dsync, flags_want_write, wal_marker, wal_marker_bytes, wants_dsync,
    wants_write};
use crate::pattern::{contains, contains_seq};

verus! {

/// The tracking mode of one descriptor, as the contracts speak of it.
#[verifier::ext_equal]
pub enum Mode {
    /// Writes pass through to the real file after an induced delay.
    Immediate,
    /// Writes accumulate here; the sequence holds every byte acknowledged to
    /// the caller since the last flush.
    Buffered(Seq<u8>),
}

/// The tracking mode of one descriptor, as the registry stores it.
pub enum TrackingMode {
    Immediate,
    Buffered(Vec<u8>),
}

impl View for TrackingMode {
    type V = Mode;

    open spec fn view(&self) -> Mode {
        match self {
            TrackingMode::Immediate => Mode::Immediate,
            TrackingMode::Buffered(b) => Mode::Buffered(b@),
        }
    }
}

/// What the caller must do with one intercepted write.
#[derive(Clone, Copy, PartialEq, Eq, Structural, Debug)]
pub enum WriteRoute {
    /// Untracked descriptor: perform the real write at once and return its
    /// result verbatim.
    Pass,
    /// Immediate-mode descriptor: induce the fixed delay, then perform the
    /// real write and return its result verbatim.
    DelayedPass,
    /// Buffered descriptor: the bytes were accumulated; perform no real
    /// write and report success for the full requested length.
    Buffered,
}

/// What the caller must do before the real sync call: induce the fixed
/// delay if `delay` holds, and if `write` carries bytes, hand exactly those
/// bytes to one real write call (a short or failed write is fatal).
pub struct FlushPlan {
    pub delay: bool,
    pub write: Option<Vec<u8>>,
}

/// The mode the open classifier assigns for a path and flag word: `None`
/// when the descriptor stays untracked.
pub open spec fn classified_mode(path: Seq<u8>, oflag: i32) -> Option<Mode> {
    if wants_write(oflag) && contains_seq(path, wal_marker()) {
        if wants_dsync(oflag) {
            Some(Mode::Immediate)
        } else {
            Some(Mode::Buffered(Seq::empty()))
        }
    } else {
        None
    }
}

/// The registry contents after a real open that returned `fd`.
pub open spec fn after_open(m: Map<i32, Mode>, fd: i32, path: Seq<u8>, oflag: i32) -> Map<
    i32,
    Mode,
> {
    if fd >= 0 {
        match classified_mode(path, oflag) {
            Some(mode) => m.insert(fd, mode),
            None => m,
        }
    } else {
        m
    }
}

/// How a write to `fd` is routed under registry contents `m`.
pub open spec fn route_of(m: Map<i32, Mode>, fd: i32) -> WriteRoute {
    if m.contains_key(fd) {
        match m[fd] {
            Mode::Immediate => WriteRoute::DelayedPass,
            Mode::Buffered(_) => WriteRoute::Buffered,
        }
    } else {
        WriteRoute::Pass
    }
}

/// The registry contents after a write of `data` to `fd`: only a buffered
/// entry changes, by appending `data` to its accumulated bytes.
pub open spec fn after_write(m: Map<i32, Mode>, fd: i32, data: Seq<u8>) -> Map<i32, Mode> {
    if m.contains_key(fd) {
        match m[fd] {
            Mode::Buffered(b) => m.insert(fd, Mode::Buffered(b + data)),
            Mode::Immediate => m,
        }
    } else {
        m
    }
}

/// The bytes accumulated for `fd` and not yet flushed: empty unless `fd` is
/// tracked in buffered mode.
pub open spec fn pending_of(m: Map<i32, Mode>, fd: i32) -> Seq<u8> {
    if m.contains_key(fd) {
        match m[fd] {
            Mode::Buffered(b) => b,
            Mode::Immediate => Seq::empty(),
        }
    } else {
        Seq::empty()
    }
}

/// The bytes a flush of `fd` must hand to one real write: the accumulated
/// bytes when `fd` is buffered and they are non-empty, nothing otherwise.
pub open spec fn flush_write_of(m: Map<i32, Mode>, fd: i32) -> Option<Seq<u8>> {
    if m.contains_key(fd) {
        match m[fd] {
            Mode::Buffered(b) => if b.len() > 0 {
                Some(b)
            } else {
                None
            },
            Mode::Immediate => None,
        }
    } else {
        None
    }
}

/// Whether a sync of `fd` induces the fixed delay: exactly when pending
/// buffered bytes exist.
pub open spec fn sync_delay_of(m: Map<i32, Mode>, fd: i32) -> bool {
    flush_write_of(m, fd) is Some
}

/// The registry contents after flushing `fd`: a buffered entry is left with
/// an empty accumulation, everything else is untouched.
pub open spec fn after_flush(m: Map<i32, Mode>, fd: i32) -> Map<i32, Mode> {
    if m.contains_key(fd) && m[fd] is Buffered {
        m.insert(fd, Mode::Buffered(Seq::empty()))
    } else {
        m
    }
}

/// Whether a seek on `fd` may proceed: it may not while pending buffered
/// bytes exist, which is a fatal usage violation.
pub open spec fn seek_ok(m: Map<i32, Mode>, fd: i32) -> bool {
    if m.contains_key(fd) {
        match m[fd] {
            Mode::Buffered(b) => b.len() == 0,
            Mode::Immediate => true,
        }
    } else {
        true
    }
}

/// The process-wide mapping from open file descriptor to tracking mode.
/// The caller guards it with its own mutual-exclusion lock; each method
/// here is one registry operation performed under that lock.
pub struct Registry {
    map: HashMap<i32, TrackingMode>,
}

impl View for Registry {
    type V = Map<i32, Mode>;

    closed spec fn view(&self) -> Map<i32, Mode> {
        Map::new(|fd: i32| self.map@.contains_key(fd), |fd: i32| self.map@[fd]@)
    }
}

impl Registry {
    /// An empty registry: no descriptor is tracked.
    pub fn new() -> (r: Registry)
        ensures
            r@ == Map::<i32, Mode>::empty(),
    {
        let r = Registry { map: HashMap::new() };
        proof {
            assert(r@ =~= Map::<i32, Mode>::empty());
        }
        r
    }

    /// Whether `fd` is currently tracked.
    pub fn is_tracked(&self, fd: i32) -> (r: bool)
        ensures
            r == self@.contains_key(fd),
    {
        self.map.contains_key(&fd)
    }

    /// The open classifier: called after the real open returned `fd` for
    /// `path` and `oflag`. Tracks the descriptor exactly when the open
    /// succeeded, the flags request write access, and the path carries the
    /// WAL marker; synchronous-write flags select immediate mode, anything
    /// else buffered mode with an empty accumulation. Classification never
    /// alters what the caller returns for the open itself.
    pub fn register_open(&mut self, fd: i32, path: &[u8], oflag: i32)
        ensures
            final(self)@ == after_open(old(self)@, fd, path@, oflag),
    {
        if fd >= 0 {
            let marker = wal_marker_bytes();
            if flags_want_write(oflag) && contains(path, marker.as_slice()) {
                if flags_want_dsync(oflag) {
                    self.map.insert(fd, TrackingMode::Immediate);
                    proof {
                        assert(self@ =~= after_open(old(self)@, fd, path@, oflag));
                    }
                } else {
                    self.map.insert(fd, TrackingMode::Buffered(Vec::new()));
                    proof {
                        assert(self@ =~= after_open(old(self)@, fd, path@, oflag));
                    }
                }
            }
        }
    }

    /// The write router: decides what happens to a write of `data` against
    /// `fd` and, for a buffered descriptor, appends `data` to the
    /// accumulated bytes. The caller acts on the returned route.
    pub fn route_write(&mut self, fd: i32, data: &[u8]) -> (r: WriteRoute)
        ensures
            r == route_of(old(self)@, fd),
            final(self)@ == after_write(old(self)@, fd, data@),
    {
        match self.map.remove(&fd) {
            Some(TrackingMode::Buffered(mut buf)) => {
                append_bytes(&mut buf, data);
                self.map.insert(fd, TrackingMode::Buffered(buf));
                proof {
                    assert(self@ =~= after_write(old(self)@, fd, data@));
                }
                WriteRoute::Buffered
            },
            Some(TrackingMode::Immediate) => {
                self.map.insert(fd, TrackingMode::Immediate);
                proof {
                    assert(self@ =~= old(self)@);
                    assert(self@ =~= after_write(old(self)@, fd, data@));
                }
                WriteRoute::DelayedPass
            },
            None => {
                proof {
                    assert(self@ =~= after_write(old(self)@, fd, data@));
                }
                WriteRoute::Pass
            },
        }
    }

    /// The flush engine for an explicit sync request: takes ownership of any
    /// pending buffered bytes, leaving the entry with an empty accumulation,
    /// and says whether the fixed delay must be induced first. The caller
    /// induces the delay, issues one real write with the returned bytes,
    /// and then performs the real sync whatever the plan holds.
    pub fn prepare_sync(&mut self, fd: i32) -> (p: FlushPlan)
        ensures
            p.delay == sync_delay_of(old(self)@, fd),
            p.write.deep_view() == flush_write_of(old(self)@, fd),
            final(self)@ == after_flush(old(self)@, fd),
    {
        match self.map.remove(&fd) {
            Some(TrackingMode::Buffered(buf)) => {
                self.map.insert(fd, TrackingMode::Buffered(Vec::new()));
                proof {
                    assert(self@ =~= after_flush(old(self)@, fd));
                }
                if buf.len() > 0 {
                    FlushPlan { delay: true, write: Some(buf) }
                } else {
                    FlushPlan { delay: false, write: None }
                }
            },
            Some(TrackingMode::Immediate) => {
                self.map.insert(fd, TrackingMode::Immediate);
                proof {
                    assert(self@ =~= after_flush(old(self)@, fd));
                }
                FlushPlan { delay: false, write: None }
            },
            None => {
                proof {
                    assert(self@ =~= after_flush(old(self)@, fd));
                }
                FlushPlan { delay: false, write: None }
            },
        }
    }

    /// The close handler's registry step: removes the entry for `fd` and
    /// returns any pending buffered bytes. The caller hands those bytes to
    /// one real write with no induced delay, then performs the real close.
    pub fn prepare_close(&mut self, fd: i32) -> (w: Option<Vec<u8>>)
        ensures
            w.deep_view() == flush_write_of(old(self)@, fd),
            final(self)@ == old(self)@.remove(fd),
    {
        let removed = self.map.remove(&fd);
        proof {
            assert(self@ =~= old(self)@.remove(fd));
        }
        match removed {
            Some(TrackingMode::Buffered(buf)) => {
                if buf.len() > 0 {
                    Some(buf)
                } else {
                    None
                }
            },
            _ => None,
        }
    }

    /// The seek guard: whether repositioning `fd` may proceed. A false
    /// result is a fatal usage violation — the caller must abort the
    /// process without issuing the real seek.
    pub fn seek_allowed(&self, fd: i32) -> (r: bool)
        ensures
            r == seek_ok(self@, fd),
    {
        match self.map.get(&fd) {
            Some(t) => {
                match t {
                    TrackingMode::Buffered(buf) => buf.len() == 0,
                    TrackingMode::Immediate => true,
                }
            },
            None => true,
        }
    }
}

/// Whether the result a real write reported is acceptable for a drained
/// flush: anything negative or short of the drained length is fatal.
pub fn write_result_ok(result: isize, expected_len: usize) -> (r: bool)
    ensures
        r == (0 <= result && result == expected_len as int),
{
    result >= 0 && result as usize == expected_len
}

/// Appends every byte of `data` to `buf`, in order.
fn append_bytes(buf: &mut Vec<u8>, data: &[u8])
    ensures
        final(buf)@ == old(buf)@ + data@,
{
    let mut i: usize = 0;
    while i < data.len()
        invariant
            i <= data@.len(),
            buf@ == old(buf)@ + data@.subrange(0, i as int),
        decreases data@.len() - i,
    {
        buf.push(data[i]);
        proof {
            assert(buf@ =~= old(buf)@ + data@.subrange(0, i + 1 as int));
        }
        i = i + 1;
    }
    proof {
        assert(buf@ =~= old(buf)@ + data@);
    }
}

} // verus!

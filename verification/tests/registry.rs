use waldelay::flags::{flags_want_dsync, flags_want_write, wal_marker_bytes, OPEN_DSYNC,
    OPEN_READ_WRITE, OPEN_WRITE_ONLY};
use waldelay::registry::{write_result_ok, Registry, WriteRoute};

const WAL_PATH: &[u8] = b"/data/pg_xlog/000001";
const PLAIN_PATH: &[u8] = b"/data/base/000001";

#[test]
fn flag_predicates() {
    assert!(flags_want_write(OPEN_WRITE_ONLY));
    assert!(flags_want_write(OPEN_READ_WRITE));
    assert!(flags_want_write(OPEN_WRITE_ONLY | OPEN_DSYNC));
    assert!(!flags_want_write(0));
    assert!(!flags_want_write(OPEN_DSYNC));
    assert!(flags_want_dsync(OPEN_WRITE_ONLY | OPEN_DSYNC));
    assert!(!flags_want_dsync(OPEN_WRITE_ONLY));
}

#[test]
fn wal_marker_is_pg_xlog_dir() {
    assert_eq!(wal_marker_bytes(), b"pg_xlog/".to_vec());
}

// open(path="/data/pg_xlog/000001", O_WRONLY), write(b"AAAA") reported as 4
// with no real write, write(b"BB") reported as 2 with no real write, fsync
// drains one real write of b"AAAABB" behind the delay, close finds nothing
// further to write.
#[test]
fn buffered_scenario() {
    let mut r = Registry::new();
    r.register_open(7, WAL_PATH, OPEN_WRITE_ONLY);
    assert!(r.is_tracked(7));

    assert_eq!(r.route_write(7, b"AAAA"), WriteRoute::Buffered);
    assert_eq!(r.route_write(7, b"BB"), WriteRoute::Buffered);

    let plan = r.prepare_sync(7);
    assert!(plan.delay);
    assert_eq!(plan.write, Some(b"AAAABB".to_vec()));

    let closing = r.prepare_close(7);
    assert_eq!(closing, None);
    assert!(!r.is_tracked(7));
}

#[test]
fn untracked_path_passes_through() {
    let mut r = Registry::new();
    r.register_open(3, PLAIN_PATH, OPEN_WRITE_ONLY);
    assert!(!r.is_tracked(3));
    assert_eq!(r.route_write(3, b"hello"), WriteRoute::Pass);
    let plan = r.prepare_sync(3);
    assert!(!plan.delay);
    assert_eq!(plan.write, None);
    assert!(r.seek_allowed(3));
    assert_eq!(r.prepare_close(3), None);
}

#[test]
fn read_only_open_is_untracked() {
    let mut r = Registry::new();
    r.register_open(4, WAL_PATH, 0);
    assert!(!r.is_tracked(4));
    assert_eq!(r.route_write(4, b"data"), WriteRoute::Pass);
}

#[test]
fn failed_open_is_untracked() {
    let mut r = Registry::new();
    r.register_open(-1, WAL_PATH, OPEN_WRITE_ONLY);
    assert!(!r.is_tracked(-1));
}

#[test]
fn dsync_writes_are_delayed_passthrough() {
    let mut r = Registry::new();
    r.register_open(8, WAL_PATH, OPEN_WRITE_ONLY | OPEN_DSYNC);
    assert!(r.is_tracked(8));
    assert_eq!(r.route_write(8, b"AAAA"), WriteRoute::DelayedPass);
    assert_eq!(r.route_write(8, b"BB"), WriteRoute::DelayedPass);
    let plan = r.prepare_sync(8);
    assert!(!plan.delay);
    assert_eq!(plan.write, None);
    assert!(r.seek_allowed(8));
    assert_eq!(r.prepare_close(8), None);
    assert!(!r.is_tracked(8));
}

#[test]
fn second_sync_flushes_nothing() {
    let mut r = Registry::new();
    r.register_open(9, WAL_PATH, OPEN_WRITE_ONLY);
    assert_eq!(r.route_write(9, b"wal bytes"), WriteRoute::Buffered);

    let first = r.prepare_sync(9);
    assert!(first.delay);
    assert_eq!(first.write, Some(b"wal bytes".to_vec()));

    let second = r.prepare_sync(9);
    assert!(!second.delay);
    assert_eq!(second.write, None);
}

#[test]
fn close_drains_pending_bytes_and_fd_reuse_is_fresh() {
    let mut r = Registry::new();
    r.register_open(10, WAL_PATH, OPEN_WRITE_ONLY);
    assert_eq!(r.route_write(10, b"pending"), WriteRoute::Buffered);

    let closing = r.prepare_close(10);
    assert_eq!(closing, Some(b"pending".to_vec()));
    assert!(!r.is_tracked(10));

    // The descriptor number comes back for an unrelated file: fresh entry.
    r.register_open(10, WAL_PATH, OPEN_WRITE_ONLY);
    assert!(r.is_tracked(10));
    assert!(r.seek_allowed(10));
    assert_eq!(r.route_write(10, b"new"), WriteRoute::Buffered);
    assert_eq!(r.prepare_close(10), Some(b"new".to_vec()));
}

#[test]
fn seek_refused_only_while_bytes_pending() {
    let mut r = Registry::new();
    r.register_open(11, WAL_PATH, OPEN_WRITE_ONLY);
    assert!(r.seek_allowed(11));
    assert_eq!(r.route_write(11, b"x"), WriteRoute::Buffered);
    assert!(!r.seek_allowed(11));
    let plan = r.prepare_sync(11);
    assert_eq!(plan.write, Some(b"x".to_vec()));
    assert!(r.seek_allowed(11));
    assert!(r.seek_allowed(999));
}

#[test]
fn drained_write_result_check() {
    assert!(write_result_ok(4, 4));
    assert!(write_result_ok(0, 0));
    assert!(!write_result_ok(-1, 4));
    assert!(!write_result_ok(3, 4));
    assert!(!write_result_ok(5, 4));
}

#[test]
fn writes_to_distinct_descriptors_stay_apart() {
    let mut r = Registry::new();
    r.register_open(20, b"/wal/pg_xlog/0a", OPEN_WRITE_ONLY);
    r.register_open(21, b"/wal/pg_xlog/0b", OPEN_WRITE_ONLY);
    assert_eq!(r.route_write(20, b"one"), WriteRoute::Buffered);
    assert_eq!(r.route_write(21, b"two"), WriteRoute::Buffered);
    assert_eq!(r.prepare_close(20), Some(b"one".to_vec()));
    assert!(r.is_tracked(21));
    assert_eq!(r.prepare_close(21), Some(b"two".to_vec()));
}

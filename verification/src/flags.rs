//! Open-flag predicates and the WAL path marker.
//!
//! The flag constants mirror the POSIX `open` flag values used on Linux:
//! write-only access, read-write access, and synchronous-write (`O_DSYNC`)
//! semantics. The interception layer that feeds descriptors to this library
//! receives the very flag word the application passed to `open`.

use vstd::prelude::*;

verus! {

/// POSIX write-only access bit (`O_WRONLY` on Linux).
pub const OPEN_WRITE_ONLY: i32 = 0x1;

/// POSIX read-write access bit (`O_RDWR` on Linux).
pub const OPEN_READ_WRITE: i32 = 0x2;

/// POSIX synchronous-write flag (`O_DSYNC` on Linux).
pub const OPEN_DSYNC: i32 = 0x1000;

/// The open flags request write-only or read-write access.
pub open spec fn wants_write(oflag: i32) -> bool {
    (oflag & OPEN_WRITE_ONLY) == OPEN_WRITE_ONLY || (oflag & OPEN_READ_WRITE) == OPEN_READ_WRITE
}

/// The open flags request synchronous-write semantics.
pub open spec fn wants_dsync(oflag: i32) -> bool {
    (oflag & OPEN_DSYNC) == OPEN_DSYNC
}

/// Whether the flags request write-only or read-write access.
pub fn flags_want_write(oflag: i32) -> (r: bool)
    ensures
        r == wants_write(oflag),
{
    (oflag & OPEN_WRITE_ONLY) == OPEN_WRITE_ONLY || (oflag & OPEN_READ_WRITE) == OPEN_READ_WRITE
}

/// Whether the flags request synchronous-write semantics.
pub fn flags_want_dsync(oflag: i32) -> (r: bool)
    ensures
        r == wants_dsync(oflag),
{
    (oflag & OPEN_DSYNC) == OPEN_DSYNC
}

/// The byte sequence that marks a WAL file path: `pg_xlog/`.
pub open spec fn wal_marker() -> Seq<u8> {
    seq![0x70u8, 0x67u8, 0x5fu8, 0x78u8, 0x6cu8, 0x6fu8, 0x67u8, 0x2fu8]
}

/// The WAL path marker as bytes: `pg_xlog/`.
pub fn wal_marker_bytes() -> (r: Vec<u8>)
    ensures
        r@ == wal_marker(),
{
    let mut v: Vec<u8> = Vec::new();
    v.push(0x70); // p
    v.push(0x67); // g
    v.push(0x5f); // _
    v.push(0x78); // x
    v.push(0x6c); // l
    v.push(0x6f); // o
    v.push(0x67); // g
    v.push(0x2f); // /
    proof {
        assert(v@ =~= wal_marker());
    }
    v
}

} // verus!

//! The attributes that the filesystem reports for its root and for its files.

use vstd::prelude::*;

verus! {

/// A reading of the wall clock: whole seconds since the epoch, and the
/// nanoseconds that have passed within the running second.
#[derive(Clone, Copy, Debug, PartialEq, Eq, Structural)]
pub struct Timestamp {
    pub sec: i64,
    pub nsec: i32,
}

impl Timestamp {
    /// The nanoseconds stay below one second.
    pub open spec fn wf(self) -> bool {
        0 <= self.nsec < 1_000_000_000
    }
}

/// What an inode stands for.
#[derive(Clone, Copy, Debug, PartialEq, Eq, Structural)]
pub enum FileKind {
    Directory,
    RegularFile,
}

/// The attributes of one inode.
#[derive(Clone, Copy, Debug, PartialEq, Eq, Structural)]
pub struct FileAttr {
    pub ino: u64,
    pub size: u64,
    pub blocks: u64,
    pub atime: Timestamp,
    pub mtime: Timestamp,
    pub ctime: Timestamp,
    pub crtime: Timestamp,
    pub kind: FileKind,
    pub perm: u16,
    pub nlink: u32,
    pub uid: u32,
    pub gid: u32,
    pub rdev: u32,
    pub flags: u32,
}

/// How long, in seconds, a caller may keep an answer before asking again.
pub const TTL_SECS: i64 = 1;

/// The generation that every file is handed out under: an inode is never
/// given a second life that would have to be told from its first.
pub const GENERATION: u64 = 0;

/// The attributes of the directory `ino` that lists `size` entries, all four
/// of its times being `now`: owned by root, readable and searchable by all.
pub open spec fn spec_dir_attr(ino: u64, size: u64, now: Timestamp) -> FileAttr {
    FileAttr {
        ino,
        size,
        blocks: 0,
        atime: now,
        mtime: now,
        ctime: now,
        crtime: now,
        kind: FileKind::Directory,
        perm: 0o755,
        nlink: 2,
        uid: 0,
        gid: 0,
        rdev: 0,
        flags: 0,
    }
}

/// The attributes of the regular file `ino` of `size` bytes, all four of its
/// times being `now`: owned by root, readable by all, writable by none.
pub open spec fn spec_file_attr(ino: u64, size: u64, now: Timestamp) -> FileAttr {
    FileAttr {
        ino,
        size,
        blocks: 0,
        atime: now,
        mtime: now,
        ctime: now,
        crtime: now,
        kind: FileKind::RegularFile,
        perm: 0o444,
        nlink: 0,
        uid: 0,
        gid: 0,
        rdev: 0,
        flags: 0,
    }
}

/// Reads the wall clock with `time::get_time`.
///
/// Nothing is claimed of the instant that comes back. The one claim is that
/// its nanoseconds lie in `[0, 1_000_000_000)`: `get_time` builds its result
/// with `Timespec::new`, which asserts exactly that range.
#[verifier::external_body]
fn wall_clock() -> (now: Timestamp)
    ensures
        now.wf(),
{
    let reading = time::get_time();
    Timestamp { sec: reading.sec, nsec: reading.nsec }
}

/// How long an answer stays good: `TTL_SECS` whole seconds.
pub fn ttl() -> (span: Timestamp)
    ensures
        span == (Timestamp { sec: TTL_SECS, nsec: 0 }),
{
    Timestamp { sec: TTL_SECS, nsec: 0 }
}

/// Directory attributes stamped with the clock reading `now`.
pub fn dir_attr_at(ino: u64, size: u64, now: Timestamp) -> (attr: FileAttr)
    ensures
        attr == spec_dir_attr(ino, size, now),
{
    FileAttr {
        ino,
        size,
        blocks: 0,
        atime: now,
        mtime: now,
        ctime: now,
        crtime: now,
        kind: FileKind::Directory,
        perm: 0o755,
        nlink: 2,
        uid: 0,
        gid: 0,
        rdev: 0,
        flags: 0,
    }
}

/// File attributes stamped with the clock reading `now`.
pub fn file_attr_at(ino: u64, size: u64, now: Timestamp) -> (attr: FileAttr)
    ensures
        attr == spec_file_attr(ino, size, now),
{
    FileAttr {
        ino,
        size,
        blocks: 0,
        atime: now,
        mtime: now,
        ctime: now,
        crtime: now,
        kind: FileKind::RegularFile,
        perm: 0o444,
        nlink: 0,
        uid: 0,
        gid: 0,
        rdev: 0,
        flags: 0,
    }
}

/// Directory attributes stamped with the current time.
///
/// Which instant the clock gives is open; everything else is fixed, and the
/// four times are one and the same valid reading.
pub fn dir_attr(ino: u64, size: u64) -> (attr: FileAttr)
    ensures
        exists|now: Timestamp| now.wf() && attr == #[trigger] spec_dir_attr(ino, size, now),
{
    dir_attr_at(ino, size, wall_clock())
}

/// File attributes stamped with the current time.
///
/// Which instant the clock gives is open; everything else is fixed, and the
/// four times are one and the same valid reading.
pub fn file_attr(ino: u64, size: u64) -> (attr: FileAttr)
    ensures
        exists|now: Timestamp| now.wf() && attr == #[trigger] spec_file_attr(ino, size, now),
{
    file_attr_at(ino, size, wall_clock())
}

} // verus!

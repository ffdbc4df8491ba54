//! What the operating system reports of a file and of a filesystem, as plain
//! numbers, and points in time.

use vstd::prelude::*;

verus! {

pub const NANOS_PER_SEC: u32 = 1_000_000_000;

/// A point in time: seconds and nanoseconds since the Unix epoch.
#[derive(Debug, Clone, Copy, PartialEq, Eq, Structural)]
pub struct Timespec {
    pub sec: u64,
    pub nsec: u32,
}

impl Timespec {
    /// The nanoseconds from the epoch to this point.
    pub open spec fn nanos_spec(&self) -> nat {
        (self.sec * 1_000_000_000 + self.nsec) as nat
    }

    /// The nanoseconds from the epoch to this point.
    pub fn nanos(&self) -> (r: u128)
        ensures
            r == self.nanos_spec(),
    {
        self.sec as u128 * 1_000_000_000 + self.nsec as u128
    }

    /// The point that a `stat` field pair names. A negative part counts as
    /// zero, and the nanoseconds stay below one second.
    pub fn from_stat(sec: i64, nsec: i64) -> (r: Timespec)
        ensures
            r.sec == (if sec < 0 { 0int } else { sec as int }),
            r.nsec == (if nsec < 0 {
                0int
            } else if nsec >= NANOS_PER_SEC {
                NANOS_PER_SEC - 1
            } else {
                nsec as int
            }),
    {
        let s: u64 = if sec < 0 { 0 } else { sec as u64 };
        let n: u32 = if nsec < 0 {
            0
        } else if nsec >= NANOS_PER_SEC as i64 {
            NANOS_PER_SEC - 1
        } else {
            nsec as u32
        };
        Timespec { sec: s, nsec: n }
    }
}

/// The whole seconds that have passed at `now` since `then`; zero where
/// `then` is not in the past, and no more than 64 bits hold.
pub open spec fn age_secs_spec(now: Timespec, then: Timespec) -> nat {
    if now.nanos_spec() >= then.nanos_spec() {
        let d = (now.nanos_spec() - then.nanos_spec()) / 1_000_000_000;
        if d > u64::MAX {
            u64::MAX as nat
        } else {
            d as nat
        }
    } else {
        0
    }
}

/// The whole seconds that have passed at `now` since `then`.
pub fn age_secs(now: &Timespec, then: &Timespec) -> (r: u64)
    ensures
        r == age_secs_spec(*now, *then),
{
    let a = now.nanos();
    let b = then.nanos();
    if a >= b {
        let d: u128 = (a - b) / 1_000_000_000;
        if d > u64::MAX as u128 {
            u64::MAX
        } else {
            d as u64
        }
    } else {
        0
    }
}

/// What `fstat` reports of a file.
#[derive(Debug, Clone, Copy, PartialEq, Eq, Structural)]
pub struct Stat {
    pub st_ino: u64,
    pub st_mode: u32,
    pub st_nlink: u64,
    pub st_uid: u32,
    pub st_gid: u32,
    pub st_rdev: u64,
    pub st_size: i64,
    pub st_blksize: i64,
    pub st_blocks: i64,
    pub st_atime: i64,
    pub st_atime_nsec: i64,
    pub st_mtime: i64,
    pub st_mtime_nsec: i64,
    pub st_ctime: i64,
    pub st_ctime_nsec: i64,
}

/// What `fstatvfs` reports of a filesystem.
#[derive(Debug, Clone, Copy, PartialEq, Eq, Structural)]
pub struct StatVfs {
    pub f_bsize: u64,
    pub f_frsize: u64,
    pub f_blocks: u64,
    pub f_bfree: u64,
    pub f_bavail: u64,
    pub f_files: u64,
    pub f_ffree: u64,
    pub f_namemax: u64,
}

impl StatVfs {
    /// The size of the filesystem in bytes.
    pub open spec fn total_bytes(&self) -> nat {
        (self.f_blocks * self.f_frsize) as nat
    }

    /// The free space of the filesystem in bytes.
    pub open spec fn free_bytes(&self) -> nat {
        (self.f_bfree * self.f_frsize) as nat
    }
}

/// The kinds of file that the filesystem shows.
#[derive(Debug, Clone, Copy, PartialEq, Eq, Structural)]
pub enum FileType {
    NamedPipe,
    CharDevice,
    BlockDevice,
    Directory,
    RegularFile,
    Symlink,
}

} // verus!

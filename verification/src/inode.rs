//! The inode: what is known of one path of the source.

use vstd::prelude::*;
use crate::bytes::copy_range;
use crate::errno::{
    Errno, EIO, ENOENT, O_CREAT, O_EXCL, O_WRONLY, S_IFBLK, S_IFCHR, S_IFDIR, S_IFIFO, S_IFLNK,
    S_IFMT, S_IFREG,
};
use crate::error::RError;
use crate::file::{Handle, Step};
use crate::namespace::{NameStep, Remove, Rename, Resize};
use crate::open::{Create, Open, Reopen};
use crate::path::{child_path, get_child_name, parent, parent_spec};
use crate::stat::{FileType, Stat, Timespec};

verus! {

/// The attributes of a file as the kernel is told them.
#[derive(Debug, Clone, Copy, PartialEq, Eq, Structural)]
pub struct FileAttr {
    pub ino: u64,
    pub size: u64,
    pub blocks: u64,
    pub atime: Timespec,
    pub mtime: Timespec,
    pub ctime: Timespec,
    pub crtime: Timespec,
    pub kind: FileType,
    pub perm: u16,
    pub nlink: u32,
    pub uid: u32,
    pub gid: u32,
    pub rdev: u32,
    pub blksize: u32,
    pub flags: u32,
}

/// The flags with which a new file is created: for writing, and only where
/// there is none yet.
pub const CREATE_FLAGS: u32 = O_WRONLY | O_CREAT | O_EXCL;

/// The kind of file that the type bits of a mode stand for; `None` for a
/// kind that the filesystem does not show.
pub open spec fn filetype_of(mode: u32) -> Option<FileType> {
    let t = mode & S_IFMT;
    if t == S_IFLNK {
        Some(FileType::Symlink)
    } else if t == S_IFREG {
        Some(FileType::RegularFile)
    } else if t == S_IFBLK {
        Some(FileType::BlockDevice)
    } else if t == S_IFDIR {
        Some(FileType::Directory)
    } else if t == S_IFCHR {
        Some(FileType::CharDevice)
    } else if t == S_IFIFO {
        Some(FileType::NamedPipe)
    } else {
        None
    }
}

/// The kind of file that a mode stands for.
pub fn to_filetype(mode: u32) -> (r: Option<FileType>)
    ensures
        r == filetype_of(mode),
{
    let t = mode & S_IFMT;
    if t == S_IFLNK {
        Some(FileType::Symlink)
    } else if t == S_IFREG {
        Some(FileType::RegularFile)
    } else if t == S_IFBLK {
        Some(FileType::BlockDevice)
    } else if t == S_IFDIR {
        Some(FileType::Directory)
    } else if t == S_IFCHR {
        Some(FileType::CharDevice)
    } else if t == S_IFIFO {
        Some(FileType::NamedPipe)
    } else {
        None
    }
}

/// A number that may be negative, as one that is not: what is below zero
/// counts as zero.
pub open spec fn unsigned(v: i64) -> u64 {
    if v < 0 {
        0
    } else {
        v as u64
    }
}

/// A number cut down to what 32 bits hold.
pub open spec fn clamp_u32(v: u64) -> u32 {
    if v > u32::MAX {
        u32::MAX
    } else {
        v as u32
    }
}

/// The second that a `stat` field names, as a point in time.
pub open spec fn second(sec: i64) -> Timespec {
    Timespec { sec: unsigned(sec), nsec: 0 }
}

/// The attributes that `st` reports, where the kind of file is one that
/// the filesystem shows. The times are whole seconds, and the time of
/// creation is taken to be that of the last change of the inode.
pub open spec fn attr_of(st: Stat) -> Option<FileAttr> {
    match filetype_of(st.st_mode) {
        None => None,
        Some(kind) => Some(
            FileAttr {
                ino: st.st_ino,
                size: unsigned(st.st_size),
                blocks: unsigned(st.st_blocks),
                atime: second(st.st_atime),
                mtime: second(st.st_mtime),
                ctime: second(st.st_ctime),
                crtime: second(st.st_ctime),
                kind,
                perm: (st.st_mode & 0o7777) as u16,
                nlink: clamp_u32(st.st_nlink),
                uid: st.st_uid,
                gid: st.st_gid,
                rdev: (st.st_rdev & 0xffff_ffff) as u32,
                blksize: clamp_u32(unsigned(st.st_blksize)),
                flags: 0,
            },
        ),
    }
}

fn to_unsigned(v: i64) -> (r: u64)
    ensures
        r == unsigned(v),
{
    if v < 0 {
        0
    } else {
        v as u64
    }
}

fn to_u32(v: u64) -> (r: u32)
    ensures
        r == clamp_u32(v),
{
    if v > u32::MAX as u64 {
        u32::MAX
    } else {
        v as u32
    }
}

/// The attributes that `st` reports.
pub fn lookup_path(st: &Stat) -> (r: Option<FileAttr>)
    ensures
        r == attr_of(*st),
{
    let kind = match to_filetype(st.st_mode) {
        None => {
            return None;
        },
        Some(k) => k,
    };
    let mode: u32 = st.st_mode;
    let rdev: u64 = st.st_rdev;
    let perm_bits: u32 = mode & 0o7777;
    let rdev_bits: u64 = rdev & 0xffff_ffff;
    assert(perm_bits <= 0o7777) by (bit_vector)
        requires
            perm_bits == mode & 0o7777,
    ;
    assert(rdev_bits <= 0xffff_ffff) by (bit_vector)
        requires
            rdev_bits == rdev & 0xffff_ffff,
    ;
    Some(
        FileAttr {
            ino: st.st_ino,
            size: to_unsigned(st.st_size),
            blocks: to_unsigned(st.st_blocks),
            atime: Timespec { sec: to_unsigned(st.st_atime), nsec: 0 },
            mtime: Timespec { sec: to_unsigned(st.st_mtime), nsec: 0 },
            ctime: Timespec { sec: to_unsigned(st.st_ctime), nsec: 0 },
            crtime: Timespec { sec: to_unsigned(st.st_ctime), nsec: 0 },
            kind,
            perm: perm_bits as u16,
            nlink: to_u32(st.st_nlink),
            uid: st.st_uid,
            gid: st.st_gid,
            rdev: rdev_bits as u32,
            blksize: to_u32(to_unsigned(st.st_blksize)),
            flags: 0,
        },
    )
}

/// What is known of one path of the source.
#[derive(Debug)]
pub struct Inode {
    /// The descriptors of the two roots.
    pub src_dir: i32,
    pub cache_dir: i32,
    /// The last name of the path.
    pub name: Vec<u8>,
    /// The path below the roots.
    pub path: Vec<u8>,
    /// The attributes, as they were when `time` was taken.
    pub attr: FileAttr,
    pub time: Timespec,
    /// Whether a cache file that is there is taken to stand for the source
    /// without a look at its digest.
    pub cache_valid_if_present: bool,
    /// Whether the last flush of the file failed.
    pub flush_failed: bool,
    /// How many times the kernel has looked the inode up and not forgotten
    /// it.
    pub refcnt: u64,
}

/// What an inode holds, as plain values.
pub struct InodeView {
    pub src_dir: i32,
    pub cache_dir: i32,
    pub name: Seq<u8>,
    pub path: Seq<u8>,
    pub attr: FileAttr,
    pub time: Timespec,
    pub cache_valid_if_present: bool,
    pub flush_failed: bool,
    pub refcnt: u64,
}

impl View for Inode {
    type V = InodeView;

    open spec fn view(&self) -> InodeView {
        InodeView {
            src_dir: self.src_dir,
            cache_dir: self.cache_dir,
            name: self.name@,
            path: self.path@,
            attr: self.attr,
            time: self.time,
            cache_valid_if_present: self.cache_valid_if_present,
            flush_failed: self.flush_failed,
            refcnt: self.refcnt,
        }
    }
}

/// The inode that a look at `name` under `parent` makes of what was
/// reported of it at `now`.
pub open spec fn child_of(parent: InodeView, name: Seq<u8>, attr: FileAttr, now: Timespec) -> InodeView {
    InodeView {
        src_dir: parent.src_dir,
        cache_dir: parent.cache_dir,
        name,
        path: child_path(parent.path, name),
        attr,
        time: now,
        cache_valid_if_present: false,
        flush_failed: false,
        refcnt: 1,
    }
}

/// What asking the source for a file comes to: its attributes, or the error
/// of the call. A file of a kind that the filesystem does not show is an
/// I/O error.
pub open spec fn stat_attr(stat: Result<Stat, Errno>) -> Result<FileAttr, Errno> {
    match stat {
        Err(e) => Err(e),
        Ok(st) => match attr_of(st) {
            Some(attr) => Ok(attr),
            None => Err(EIO),
        },
    }
}

fn attr_from(stat: Result<Stat, Errno>) -> (r: Result<FileAttr, Errno>)
    ensures
        r == stat_attr(stat),
{
    match stat {
        Err(e) => Err(e),
        Ok(st) => match lookup_path(&st) {
            Some(attr) => Ok(attr),
            None => Err(EIO),
        },
    }
}

fn copy_of(v: &Vec<u8>) -> (r: Vec<u8>)
    ensures
        r@ == v@,
{
    let r = copy_range(v.as_slice(), 0, v.len());
    proof {
        assert(v@.subrange(0, v@.len() as int) =~= v@);
    }
    r
}

impl Inode {
    /// The inode of `path`, looked up once, with the attributes taken at
    /// `now`.
    pub fn new(
        src_dir: i32,
        cache_dir: i32,
        name: Vec<u8>,
        path: Vec<u8>,
        attr: FileAttr,
        now: Timespec,
    ) -> (r: Inode)
        ensures
            r@ == (InodeView {
                src_dir,
                cache_dir,
                name: name@,
                path: path@,
                attr,
                time: now,
                cache_valid_if_present: false,
                flush_failed: false,
                refcnt: 1,
            }),
    {
        Inode {
            src_dir,
            cache_dir,
            name,
            path,
            attr,
            time: now,
            cache_valid_if_present: false,
            flush_failed: false,
            refcnt: 1,
        }
    }

    /// Takes the attributes of `other`, and the time they were taken at.
    pub fn take(&mut self, other: Inode)
        ensures
            final(self)@ == (InodeView { attr: other.attr, time: other.time, ..old(self)@ }),
    {
        self.attr = other.attr;
        self.time = other.time;
    }

    /// Whether the attributes are younger at `now` than `ttl_nanos`
    /// nanoseconds.
    pub fn not_expired(&self, ttl_nanos: u128, now: &Timespec) -> (r: bool)
        ensures
            r == (now.nanos_spec() - self.time.nanos_spec() < ttl_nanos),
    {
        let n = now.nanos();
        let t = self.time.nanos();
        n < t || n - t < ttl_nanos
    }

    /// The path of `name` in this directory.
    pub fn get_child_name(&self, name: &[u8]) -> (r: Vec<u8>)
        ensures
            r@ == child_path(self@.path, name@),
    {
        get_child_name(self.path.as_slice(), name)
    }

    pub fn get_path(&self) -> (r: &Vec<u8>)
        ensures
            r@ == self@.path,
    {
        &self.path
    }

    pub fn get_attr(&self) -> (r: &FileAttr)
        ensures
            *r == self@.attr,
    {
        &self.attr
    }

    pub fn get_kind(&self) -> (r: FileType)
        ensures
            r == self@.attr.kind,
    {
        self.attr.kind
    }

    pub fn get_ino(&self) -> (r: u64)
        ensures
            r == self@.attr.ino,
    {
        self.attr.ino
    }

    /// Lets the size be `offset` at least, so that the kernel sees the file
    /// grow while it is written.
    pub fn extend(&mut self, offset: u64)
        ensures
            final(self)@ == (InodeView {
                attr: FileAttr {
                    size: if old(self)@.attr.size < offset {
                        offset
                    } else {
                        old(self)@.attr.size
                    },
                    ..old(self)@.attr
                },
                ..old(self)@
            }),
    {
        if self.attr.size < offset {
            self.attr.size = offset;
        }
    }

    /// Takes note of a flush that went well: the file is in the source for
    /// sure, and the next opening looks at the digest.
    pub fn flushed(&mut self)
        ensures
            final(self)@ == (InodeView {
                cache_valid_if_present: false,
                flush_failed: false,
                ..old(self)@
            }),
    {
        self.cache_valid_if_present = false;
        self.flush_failed = false;
    }

    /// Takes note of a flush that failed: the attributes are asked for anew
    /// from now on, and the next opening looks at the digest.
    pub fn flush_failed(&mut self)
        ensures
            final(self)@ == (InodeView {
                cache_valid_if_present: false,
                flush_failed: true,
                ..old(self)@
            }),
    {
        self.cache_valid_if_present = false;
        self.flush_failed = true;
    }

    pub fn was_flush_failed(&self) -> (r: bool)
        ensures
            r == self@.flush_failed,
    {
        self.flush_failed
    }

    /// Takes the attributes that the source has just reported. That the
    /// file is gone is an expected error; nothing changes on an error.
    pub fn refresh(&mut self, stat: Result<Stat, Errno>) -> (r: Result<(), RError<Errno>>)
        ensures
            match stat_attr(stat) {
                Ok(attr) => r == Ok::<(), RError<Errno>>(()) && final(self)@ == (InodeView {
                    attr,
                    ..old(self)@
                }),
                Err(e) => r == Err::<(), RError<Errno>>(RError { e, traced: e != ENOENT })
                    && final(self)@ == old(self)@,
            },
    {
        match attr_from(stat) {
            Ok(attr) => {
                self.attr = attr;
                Ok(())
            },
            Err(e) => if e == ENOENT {
                Err(RError::propagate(e))
            } else {
                Err(RError::from(e))
            },
        }
    }

    fn child(&self, name: &[u8], attr: FileAttr, now: Timespec) -> (r: Inode)
        ensures
            r@ == child_of(self@, name@, attr, now),
    {
        let path = self.get_child_name(name);
        let own = copy_range(name, 0, name.len());
        proof {
            assert(name@.subrange(0, name@.len() as int) =~= name@);
        }
        Inode::new(self.src_dir, self.cache_dir, own, path, attr, now)
    }

    /// The inode of `name` in this directory, of which the source has just
    /// reported `stat`. An error of the source is an expected one.
    pub fn lookup(&self, name: &[u8], stat: Result<Stat, Errno>, now: Timespec) -> (r: Result<
        Inode,
        RError<Errno>,
    >)
        ensures
            match stat_attr(stat) {
                Ok(attr) => r is Ok && r->Ok_0@ == child_of(self@, name@, attr, now),
                Err(e) => r is Err && r->Err_0 == (RError { e, traced: false }),
            },
    {
        match attr_from(stat) {
            Ok(attr) => Ok(self.child(name, attr, now)),
            Err(e) => Err(RError::propagate(e)),
        }
    }

    /// The inode of the file `name` that was just created in this
    /// directory. Its cache file was made with it and stands for it.
    pub fn create(&self, name: &[u8], stat: Result<Stat, Errno>, now: Timespec) -> (r: Result<
        Inode,
        RError<Errno>,
    >)
        ensures
            match stat_attr(stat) {
                Ok(attr) => r is Ok && r->Ok_0@ == (InodeView {
                    cache_valid_if_present: true,
                    ..child_of(self@, name@, attr, now)
                }),
                Err(e) => r is Err && r->Err_0 == (RError { e, traced: true }),
            },
    {
        match attr_from(stat) {
            Ok(attr) => {
                let mut inode = self.child(name, attr, now);
                inode.cache_valid_if_present = true;
                Ok(inode)
            },
            Err(e) => Err(RError::from(e)),
        }
    }

    /// The inode of the directory `name` that was just made in this
    /// directory.
    pub fn mkdir(&self, name: &[u8], stat: Result<Stat, Errno>, now: Timespec) -> (r: Result<
        Inode,
        RError<Errno>,
    >)
        ensures
            match stat_attr(stat) {
                Ok(attr) => r is Ok && r->Ok_0@ == child_of(self@, name@, attr, now),
                Err(e) => r is Err && r->Err_0 == (RError { e, traced: true }),
            },
    {
        match attr_from(stat) {
            Ok(attr) => Ok(self.child(name, attr, now)),
            Err(e) => Err(RError::from(e)),
        }
    }

    /// Begins the creating of the file at `path` with `mode`.
    pub fn begin_create(path: &[u8], mode: u32) -> (r: (Create, Step<Handle>))
        ensures
            r == Create::begin_spec(CREATE_FLAGS, mode, parent_spec(path@) is Some),
    {
        Create::begin(CREATE_FLAGS, mode, parent(path).is_some())
    }

    /// Begins the opening of the file of this inode with `flags`.
    pub fn open(&self, flags: u32) -> (r: (Open, Step<Handle>))
        ensures
            r == Open::begin_spec(
                flags,
                self@.cache_valid_if_present,
                parent_spec(self@.path) is Some,
            ),
    {
        Open::begin(flags, self.cache_valid_if_present, parent(self.path.as_slice()).is_some())
    }

    /// Whether a page-in of this file moves the bytes through a buffer: it
    /// does after a flush has failed.
    pub fn disable_splice(&self) -> (r: bool)
        ensures
            r == self@.flush_failed,
    {
        self.flush_failed
    }

    /// Takes note that the file was opened: the handle answers for the
    /// cache file from now on.
    pub fn opened(&mut self)
        ensures
            final(self)@ == (InodeView { cache_valid_if_present: true, ..old(self)@ }),
    {
        self.cache_valid_if_present = true;
    }

    /// Begins the reopening of the source file of `handle`.
    pub fn reopen_src(&self, handle: Handle) -> (r: (Reopen, Step<()>))
        ensures
            r == Reopen::begin_spec(handle, self@.cache_valid_if_present),
    {
        Reopen::begin(handle, self.cache_valid_if_present)
    }

    /// Begins the renaming of this inode to `new_path`.
    pub fn rename(&self, new_path: &[u8]) -> (r: (Rename, NameStep))
        ensures
            r == Rename::begin_spec(parent_spec(new_path@) is Some),
    {
        Rename::begin(parent(new_path).is_some())
    }

    /// Begins the setting of the size of the file of this inode, which is
    /// not open.
    pub fn truncate(&self, size: u64) -> (r: (Resize, NameStep))
        ensures
            r == Resize::begin_spec(size),
    {
        Resize::begin(size)
    }

    /// Begins the removal of the file `name` in this directory, and gives
    /// its path.
    pub fn unlink(&self, name: &[u8]) -> (r: (Vec<u8>, Remove, NameStep))
        ensures
            r.0@ == child_path(self@.path, name@),
            (r.1, r.2) == Remove::begin_spec(false),
    {
        let (op, step) = Remove::begin(false);
        (self.get_child_name(name), op, step)
    }

    /// Begins the removal of the directory `name` in this directory, and
    /// gives its path.
    pub fn rmdir(&self, name: &[u8]) -> (r: (Vec<u8>, Remove, NameStep))
        ensures
            r.0@ == child_path(self@.path, name@),
            (r.1, r.2) == Remove::begin_spec(true),
    {
        let (op, step) = Remove::begin(true);
        (self.get_child_name(name), op, step)
    }

    /// Takes the new name and path after a renaming.
    pub fn renamed(&mut self, new_name: Vec<u8>, new_path: Vec<u8>)
        ensures
            final(self)@ == (InodeView { name: new_name@, path: new_path@, ..old(self)@ }),
    {
        self.name = new_name;
        self.path = new_path;
    }

    /// Gives the inode the number under which the kernel knows it.
    pub fn use_ino(&mut self, ino: u64)
        ensures
            final(self)@ == (InodeView { attr: FileAttr { ino, ..old(self)@.attr }, ..old(self)@ }),
    {
        self.attr.ino = ino;
    }

    /// Counts one more lookup.
    pub fn inc_ref(&mut self) -> (r: u64)
        requires
            old(self)@.refcnt < u64::MAX,
        ensures
            r == old(self)@.refcnt + 1,
            final(self)@ == (InodeView { refcnt: r, ..old(self)@ }),
    {
        self.refcnt = self.refcnt + 1;
        self.refcnt
    }

    pub fn get_refcnt(&self) -> (r: u64)
        ensures
            r == self@.refcnt,
    {
        self.refcnt
    }

    /// Takes `n` lookups back, which the kernel has forgotten, and says
    /// whether none is left.
    pub fn deref(&mut self, n: u64) -> (r: bool)
        requires
            n <= old(self)@.refcnt,
        ensures
            final(self)@ == (InodeView { refcnt: (old(self)@.refcnt - n) as u64, ..old(self)@ }),
            r == (old(self)@.refcnt == n),
    {
        self.refcnt = self.refcnt - n;
        self.refcnt == 0
    }

    /// A copy of the inode.
    pub fn duplicate(&self) -> (r: Inode)
        ensures
            r@ == self@,
    {
        Inode {
            src_dir: self.src_dir,
            cache_dir: self.cache_dir,
            name: copy_of(&self.name),
            path: copy_of(&self.path),
            attr: self.attr,
            time: self.time,
            cache_valid_if_present: self.cache_valid_if_present,
            flush_failed: self.flush_failed,
            refcnt: self.refcnt,
        }
    }
}

} // verus!

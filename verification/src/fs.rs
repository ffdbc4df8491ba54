//! The filesystem as the kernel sees it: what each request does with the
//! inodes and handles, and what it answers.

use vstd::prelude::*;
use crate::errno::{Errno, EIO, ENOSPC, ENOTSUP};
use crate::error::{errno, RError};
use crate::evicter::{grown, Evicter, HOT_PERCENT, REQUEST_WEIGHT, SCAN_PERIOD};
use crate::flags::{DiskSpace, PERCENT};
use crate::inode::{FileAttr, Inode, InodeView};
use crate::stat::{StatVfs, Timespec};
use crate::store::InodeStore;

verus! {

/// A time that a request sets: a given one, or the time of the request.
#[derive(Debug, Clone, Copy, PartialEq, Eq, Structural)]
pub enum TimeOrNow {
    SpecificTime(Timespec),
    Now,
}

/// What a request to set attributes asks for.
#[derive(Debug, Clone, Copy, PartialEq, Eq, Structural)]
pub struct SetAttrRequest {
    pub mode: Option<u32>,
    pub uid: Option<u32>,
    pub gid: Option<u32>,
    pub size: Option<u64>,
    pub atime: Option<TimeOrNow>,
    pub mtime: Option<TimeOrNow>,
    /// The handle through which the file is open, where the request came
    /// through one.
    pub fh: Option<u64>,
    pub crtime: Option<Timespec>,
    pub chgtime: Option<Timespec>,
    pub bkuptime: Option<Timespec>,
    pub flags: Option<u32>,
}

/// A call for the caller to make for a request to set attributes.
#[derive(Debug, Clone, Copy, PartialEq, Eq, Structural)]
pub enum AttrAction {
    /// Find out whether the cache file stands for the source, without
    /// removing it. Answered by `Flag` or `Error`.
    Validate,
    /// Set the permissions: of the open file with `through_handle`, else of
    /// the path. Answered by `Done` or `Failed`.
    Chmod { through_handle: bool, mode: u32, flags: u32 },
    /// Set the size, by [`crate::file::Truncate`] with `through_handle`,
    /// else by [`crate::namespace::Resize`]. Answered by `Done` or `Error`.
    Truncate { through_handle: bool, size: u64 },
    /// Set the times: of the open file with `through_handle`, else of the
    /// path. Answered by `Done` or `Failed`.
    Utimes { through_handle: bool, atime: Timespec, mtime: Timespec, flags: u32 },
    /// Mark the cache file pristine again. Answered by `Done` or `Error`.
    MakePristine { through_handle: bool },
    /// Ask the source for the attributes and take them into the inode.
    /// Answered by `Done` or `Error`.
    Refresh,
}

/// What a request to set attributes asks for next, or what it answers: the
/// attributes of the inode, or an error number.
#[derive(Debug, PartialEq, Eq)]
pub enum AttrStep {
    Do(AttrAction),
    Finish(Result<(), Errno>),
}

impl Clone for AttrStep {
    fn clone(&self) -> (r: Self)
        ensures
            r == *self,
    {
        *self
    }
}

impl Copy for AttrStep {

}

/// Where a request to set attributes stands.
#[derive(Debug, Clone, Copy, PartialEq, Eq, Structural)]
pub enum AttrPhase {
    Validating,
    Mode,
    Size,
    Times,
    Marking,
    Refreshing,
    Over,
}

/// The number under which an error of a call is answered: its own.
pub open spec fn raw_errno(reply: crate::file::Reply) -> Errno {
    match reply {
        crate::file::Reply::Failed(e) => e,
        crate::file::Reply::Error(e) => e.e,
        _ => EIO,
    }
}

fn raw(reply: crate::file::Reply) -> (r: Errno)
    ensures
        r == raw_errno(reply),
{
    match reply {
        crate::file::Reply::Failed(e) => e,
        crate::file::Reply::Error(e) => e.errno(),
        _ => EIO,
    }
}

/// A request to set attributes of a file.
///
/// The owner, the group and the times of creation, of change and of backup
/// cannot be set. The permissions, the size and the times of access and of
/// modification can: through the handle where the request came with one,
/// else by the path. The size and the time of modification enter the
/// digest, so a cache file that stood for the source before the change is
/// marked pristine again after it. At the end the attributes are asked
/// for anew.
#[derive(Debug, Clone, Copy, PartialEq, Eq, Structural)]
pub struct SetAttr {
    pub request: SetAttrRequest,
    /// The attributes of the inode before the request.
    pub old: FileAttr,
    /// When the request came.
    pub now: Timespec,
    /// Whether the cache file stood for the source before the change.
    pub was_valid: bool,
    pub phase: AttrPhase,
}

pub open spec fn resolve(t: Option<TimeOrNow>, now: Timespec, old: Timespec) -> Timespec {
    match t {
        Some(TimeOrNow::SpecificTime(time)) => time,
        Some(TimeOrNow::Now) => now,
        None => old,
    }
}

pub open spec fn flags_of(request: SetAttrRequest) -> u32 {
    match request.flags {
        Some(f) => f,
        None => 0,
    }
}

impl SetAttr {
    /// Whether the request asks for something that cannot be set.
    pub open spec fn unsupported(request: SetAttrRequest) -> bool {
        request.uid is Some || request.gid is Some || request.crtime is Some
            || request.chgtime is Some || request.bkuptime is Some
    }

    pub open spec fn at(self, phase: AttrPhase, action: AttrAction) -> (SetAttr, AttrStep) {
        (SetAttr { phase, ..self }, AttrStep::Do(action))
    }

    pub open spec fn over(self, result: Result<(), Errno>) -> (SetAttr, AttrStep) {
        (SetAttr { phase: AttrPhase::Over, ..self }, AttrStep::Finish(result))
    }

    pub open spec fn through_handle(self) -> bool {
        self.request.fh is Some
    }

    /// The step from the refreshing on.
    pub open spec fn from_refresh(self) -> (SetAttr, AttrStep) {
        self.at(AttrPhase::Refreshing, AttrAction::Refresh)
    }

    /// The step from the marking on.
    pub open spec fn from_marking(self) -> (SetAttr, AttrStep) {
        if self.was_valid {
            self.at(
                AttrPhase::Marking,
                AttrAction::MakePristine { through_handle: self.through_handle() },
            )
        } else {
            self.from_refresh()
        }
    }

    /// The step from the times on.
    pub open spec fn from_times(self) -> (SetAttr, AttrStep) {
        if self.request.mtime is Some || self.request.atime is Some {
            self.at(
                AttrPhase::Times,
                AttrAction::Utimes {
                    through_handle: self.through_handle(),
                    atime: resolve(self.request.atime, self.now, self.old.atime),
                    mtime: resolve(self.request.mtime, self.now, self.old.mtime),
                    flags: flags_of(self.request),
                },
            )
        } else {
            self.from_marking()
        }
    }

    /// The step from the size on.
    pub open spec fn from_size(self) -> (SetAttr, AttrStep) {
        match self.request.size {
            Some(size) => self.at(
                AttrPhase::Size,
                AttrAction::Truncate { through_handle: self.through_handle(), size },
            ),
            None => self.from_times(),
        }
    }

    /// The step from the permissions on.
    pub open spec fn from_mode(self) -> (SetAttr, AttrStep) {
        match self.request.mode {
            Some(mode) => self.at(
                AttrPhase::Mode,
                AttrAction::Chmod {
                    through_handle: self.through_handle(),
                    mode,
                    flags: flags_of(self.request),
                },
            ),
            None => self.from_size(),
        }
    }

    /// The first step of a request.
    pub open spec fn begin_spec(request: SetAttrRequest, old: FileAttr, now: Timespec) -> (
        SetAttr,
        AttrStep,
    ) {
        let s = SetAttr { request, old, now, was_valid: request.fh is Some, phase: AttrPhase::Over };
        if SetAttr::unsupported(request) {
            s.over(Err(ENOTSUP))
        } else if request.fh is Some {
            s.from_mode()
        } else {
            s.at(AttrPhase::Validating, AttrAction::Validate)
        }
    }

    /// The step that follows `reply`.
    pub open spec fn next(self, reply: crate::file::Reply) -> (SetAttr, AttrStep) {
        match self.phase {
            AttrPhase::Validating => match reply {
                crate::file::Reply::Flag(valid) => (SetAttr { was_valid: valid, ..self }).from_mode(),
                _ => self.over(Err(raw_errno(reply))),
            },
            AttrPhase::Mode => match reply {
                crate::file::Reply::Done => self.from_size(),
                _ => self.over(Err(raw_errno(reply))),
            },
            AttrPhase::Size => match reply {
                crate::file::Reply::Done => self.from_times(),
                _ => self.over(Err(raw_errno(reply))),
            },
            AttrPhase::Times => match reply {
                crate::file::Reply::Done => self.from_marking(),
                _ => self.over(Err(raw_errno(reply))),
            },
            AttrPhase::Marking => match reply {
                crate::file::Reply::Done => self.from_refresh(),
                _ => self.over(Err(raw_errno(reply))),
            },
            AttrPhase::Refreshing => match reply {
                crate::file::Reply::Done => self.over(Ok(())),
                _ => self.over(Err(raw_errno(reply))),
            },
            AttrPhase::Over => self.over(Err(EIO)),
        }
    }

    fn to(self, phase: AttrPhase, action: AttrAction) -> (r: (SetAttr, AttrStep))
        ensures
            r == self.at(phase, action),
    {
        (SetAttr { phase, ..self }, AttrStep::Do(action))
    }

    fn end(self, result: Result<(), Errno>) -> (r: (SetAttr, AttrStep))
        ensures
            r == self.over(result),
    {
        (SetAttr { phase: AttrPhase::Over, ..self }, AttrStep::Finish(result))
    }

    fn marking(self) -> (r: (SetAttr, AttrStep))
        ensures
            r == self.from_marking(),
    {
        if self.was_valid {
            self.to(
                AttrPhase::Marking,
                AttrAction::MakePristine { through_handle: self.request.fh.is_some() },
            )
        } else {
            self.to(AttrPhase::Refreshing, AttrAction::Refresh)
        }
    }

    fn times(self) -> (r: (SetAttr, AttrStep))
        ensures
            r == self.from_times(),
    {
        if self.request.mtime.is_some() || self.request.atime.is_some() {
            let atime = match self.request.atime {
                Some(TimeOrNow::SpecificTime(time)) => time,
                Some(TimeOrNow::Now) => self.now,
                None => self.old.atime,
            };
            let mtime = match self.request.mtime {
                Some(TimeOrNow::SpecificTime(time)) => time,
                Some(TimeOrNow::Now) => self.now,
                None => self.old.mtime,
            };
            let flags = match self.request.flags {
                Some(f) => f,
                None => 0,
            };
            self.to(
                AttrPhase::Times,
                AttrAction::Utimes {
                    through_handle: self.request.fh.is_some(),
                    atime,
                    mtime,
                    flags,
                },
            )
        } else {
            self.marking()
        }
    }

    fn size(self) -> (r: (SetAttr, AttrStep))
        ensures
            r == self.from_size(),
    {
        match self.request.size {
            Some(size) => self.to(
                AttrPhase::Size,
                AttrAction::Truncate { through_handle: self.request.fh.is_some(), size },
            ),
            None => self.times(),
        }
    }

    fn mode(self) -> (r: (SetAttr, AttrStep))
        ensures
            r == self.from_mode(),
    {
        match self.request.mode {
            Some(mode) => {
                let flags = match self.request.flags {
                    Some(f) => f,
                    None => 0,
                };
                self.to(
                    AttrPhase::Mode,
                    AttrAction::Chmod { through_handle: self.request.fh.is_some(), mode, flags },
                )
            },
            None => self.size(),
        }
    }

    /// Begins a request to set attributes of a file whose attributes are
    /// `old`, at the time `now`. A request for what cannot be set is
    /// answered with `ENOTSUP` at once.
    pub fn begin(request: SetAttrRequest, old: FileAttr, now: Timespec) -> (r: (SetAttr, AttrStep))
        ensures
            r == SetAttr::begin_spec(request, old, now),
    {
        let s = SetAttr {
            request,
            old,
            now,
            was_valid: request.fh.is_some(),
            phase: AttrPhase::Over,
        };
        if request.uid.is_some() || request.gid.is_some() || request.crtime.is_some()
            || request.chgtime.is_some() || request.bkuptime.is_some() {
            s.end(Err(ENOTSUP))
        } else if request.fh.is_some() {
            s.mode()
        } else {
            s.to(AttrPhase::Validating, AttrAction::Validate)
        }
    }

    /// Takes the reply to the last step and gives the next. A call that
    /// fails ends the request with the number of its error.
    pub fn step(self, reply: crate::file::Reply) -> (r: (SetAttr, AttrStep))
        ensures
            r == self.next(reply),
    {
        match self.phase {
            AttrPhase::Validating => match reply {
                crate::file::Reply::Flag(valid) => (SetAttr { was_valid: valid, ..self }).mode(),
                other => self.end(Err(raw(other))),
            },
            AttrPhase::Mode => match reply {
                crate::file::Reply::Done => self.size(),
                other => self.end(Err(raw(other))),
            },
            AttrPhase::Size => match reply {
                crate::file::Reply::Done => self.times(),
                other => self.end(Err(raw(other))),
            },
            AttrPhase::Times => match reply {
                crate::file::Reply::Done => self.marking(),
                other => self.end(Err(raw(other))),
            },
            AttrPhase::Marking => match reply {
                crate::file::Reply::Done => self.to(AttrPhase::Refreshing, AttrAction::Refresh),
                other => self.end(Err(raw(other))),
            },
            AttrPhase::Refreshing => match reply {
                crate::file::Reply::Done => self.end(Ok(())),
                other => self.end(Err(raw(other))),
            },
            AttrPhase::Over => self.end(Err(EIO)),
        }
    }
}

/// What becomes of a lookup.
#[derive(Debug)]
pub enum Looked {
    /// Answer with these attributes.
    Entry(FileAttr),
    /// Enter this inode into the registry and answer with its attributes.
    Insert(Inode),
    /// Answer with this error number; with `stale`, take the inode that was
    /// known out of the registry first.
    Error { errno: Errno, stale: bool },
}

/// What is known of `name` at a lookup: counts the lookup on the inode that
/// is known for it, and gives its attributes where they are younger than
/// `ttl_nanos` nanoseconds. Otherwise the source is to be asked.
pub fn lookup_known(inode: &mut Inode, ttl_nanos: u128, now: &Timespec) -> (r: Option<FileAttr>)
    requires
        old(inode)@.refcnt < u64::MAX,
    ensures
        final(inode)@ == (InodeView { refcnt: (old(inode)@.refcnt + 1) as u64, ..old(inode)@ }),
        r == (if now.nanos_spec() - old(inode)@.time.nanos_spec() < ttl_nanos {
            Some(old(inode)@.attr)
        } else {
            None
        }),
{
    inode.inc_ref();
    if inode.not_expired(ttl_nanos, now) {
        Some(inode.attr)
    } else {
        None
    }
}

/// What becomes of a lookup of a name that was known, for which the
/// source was asked since what was known was too old.
///
/// What the source reported is `looked`; the lookup was counted on the
/// known inode already. The inode takes the new attributes. Where the
/// source has failed, the count is taken back, and the inode is stale where
/// the count is zero then.
pub fn lookup_again(known: &mut Inode, looked: Result<Inode, RError<Errno>>) -> (r: Looked)
    requires
        old(known)@.refcnt >= 1,
    ensures
        match looked {
            Ok(new) => r matches Looked::Entry(attr) && attr == new.attr && final(known)@ == (
            InodeView { attr: new.attr, time: new.time, ..old(known)@ }),
            Err(e) => r matches Looked::Error { errno: n, stale } && n == (if e.traced {
                EIO
            } else {
                e.e
            }) && stale == (old(known)@.refcnt == 1) && final(known)@ == (InodeView {
                refcnt: (old(known)@.refcnt - 1) as u64,
                ..old(known)@
            }),
        },
{
    match looked {
        Ok(new) => {
            let attr = new.attr;
            known.take(new);
            Looked::Entry(attr)
        },
        Err(e) => {
            let stale = known.deref(1);
            Looked::Error { errno: errno(&e), stale }
        },
    }
}

/// What becomes of a lookup of a name that was not known: the inode that
/// the source reported is entered, and a failure of the source is the
/// answer.
pub fn lookup_new(looked: Result<Inode, RError<Errno>>) -> (r: Looked)
    ensures
        match looked {
            Ok(new) => r matches Looked::Insert(inode) && inode == new,
            Err(e) => r matches Looked::Error { errno: n, stale } && n == (if e.traced {
                EIO
            } else {
                e.e
            }) && !stale,
        },
{
    match looked {
        Ok(new) => Looked::Insert(new),
        Err(e) => Looked::Error { errno: errno(&e), stale: false },
    }
}

/// Takes `nlookup` lookups of the inode back, which the kernel has
/// forgotten. An inode with none left leaves the registry, by its number
/// and by its path. The result says whether it left.
pub fn forget<V>(store: &mut InodeStore<V>, inode: &mut Inode, nlookup: u64) -> (stale: bool)
    requires
        old(store).wf(),
        nlookup <= old(inode)@.refcnt,
    ensures
        final(store).wf(),
        stale == (old(inode)@.refcnt == nlookup),
        final(inode)@ == (InodeView {
            refcnt: (old(inode)@.refcnt - nlookup) as u64,
            ..old(inode)@
        }),
        stale ==> !final(store).inodes().contains_key(old(inode)@.attr.ino),
        stale ==> final(store).inodes() == old(store).inodes().remove(old(inode)@.attr.ino),
        stale ==> final(store).paths() == old(store).paths().remove(old(inode)@.path),
        !stale ==> final(store).inodes() == old(store).inodes() && final(store).paths() == old(
            store,
        ).paths(),
{
    let stale = inode.deref(nlookup);
    if stale {
        store.remove_ino(inode.attr.ino, inode.path.as_slice());
    }
    stale
}

/// The attributes with which a request for them is answered at once, where
/// it is: after a flush has failed the source is asked first.
pub fn getattr(inode: &Inode) -> (r: Option<FileAttr>)
    ensures
        r == (if inode@.flush_failed {
            None
        } else {
            Some(inode@.attr)
        }),
{
    if inode.was_flush_failed() {
        None
    } else {
        Some(inode.attr)
    }
}

/// What follows a flush of a handle.
#[derive(Debug, PartialEq, Eq)]
pub enum Flushed {
    /// Ask the source for the attributes, take them into the inode, and
    /// answer by [`refreshed`].
    Refresh,
    /// Answer with this.
    Reply(Result<(), Errno>),
}

impl Clone for Flushed {
    fn clone(&self) -> (r: Self)
        ensures
            r == *self,
    {
        *self
    }
}

impl Copy for Flushed {

}

/// Takes note on the inode of how the flush of one of its handles went, and
/// says what follows. After a flush that went to the source the attributes
/// are asked for anew, so that they are those of the source.
pub fn flushed(inode: &mut Inode, result: Result<bool, RError<Errno>>) -> (r: Flushed)
    ensures
        final(inode)@ == (InodeView {
            cache_valid_if_present: false,
            flush_failed: result is Err,
            ..old(inode)@
        }),
        r == (match result {
            Ok(true) => Flushed::Refresh,
            Ok(false) => Flushed::Reply(Ok(())),
            Err(e) => Flushed::Reply(Err(if e.traced { EIO } else { e.e })),
        }),
{
    match result {
        Ok(to_source) => {
            inode.flushed();
            if to_source {
                Flushed::Refresh
            } else {
                Flushed::Reply(Ok(()))
            }
        },
        Err(e) => {
            inode.flush_failed();
            Flushed::Reply(Err(errno(&e)))
        },
    }
}

/// The answer to a request after the attributes were asked for anew.
pub fn refreshed(result: Result<(), RError<Errno>>) -> (r: Result<(), Errno>)
    ensures
        r == (match result {
            Ok(()) => Ok::<(), Errno>(()),
            Err(e) => Err(if e.traced { EIO } else { e.e }),
        }),
{
    match result {
        Ok(()) => Ok(()),
        Err(e) => Err(errno(&e)),
    }
}

/// What a write request does next.
#[derive(Debug, PartialEq, Eq)]
pub enum WriteNext {
    /// Write to the handle, by [`crate::file::Write`].
    Write,
    /// Reopen the source of the handle, by [`crate::open::Reopen`], and
    /// report how it went.
    Reopen,
    /// Run one scan of the evicter [`emergency_evicter`], and report that
    /// it is done.
    Evict,
    /// Answer with this: the bytes written, or an error number.
    Reply(Result<u32, Errno>),
}

impl Clone for WriteNext {
    fn clone(&self) -> (r: Self)
        ensures
            r == *self,
    {
        *self
    }
}

impl Copy for WriteNext {

}

/// A write request.
///
/// A source that refuses the write is reopened once, and a cache that is
/// full is relieved once; then the write is tried again. Any other failure
/// is the answer.
#[derive(Debug, Clone, Copy, PartialEq, Eq, Structural)]
pub struct WriteRetry {
    /// Whether the source was reopened for this request.
    pub reopened: bool,
    /// Whether the cache was relieved for this request.
    pub evicted: bool,
}

impl WriteRetry {
    /// A request for which nothing was tried yet.
    pub fn new() -> (r: WriteRetry)
        ensures
            r == (WriteRetry { reopened: false, evicted: false }),
    {
        WriteRetry { reopened: false, evicted: false }
    }

    /// What follows a write that came to `result`.
    pub open spec fn written_spec(self, result: Result<usize, RError<Errno>>) -> (
        WriteRetry,
        WriteNext,
    ) {
        match result {
            Ok(n) => (self, WriteNext::Reply(Ok(if n > u32::MAX { u32::MAX } else { n as u32 }))),
            Err(e) => if e.e == ENOTSUP && !self.reopened {
                (WriteRetry { reopened: true, ..self }, WriteNext::Reopen)
            } else if e.e == ENOSPC && !self.evicted {
                (WriteRetry { evicted: true, ..self }, WriteNext::Evict)
            } else {
                (self, WriteNext::Reply(Err(e.e)))
            },
        }
    }

    /// Says what follows a write that came to `result`.
    pub fn written(self, result: Result<usize, RError<Errno>>) -> (r: (WriteRetry, WriteNext))
        ensures
            r == self.written_spec(result),
    {
        match result {
            Ok(n) => (
                self,
                WriteNext::Reply(Ok(if n > u32::MAX as usize { u32::MAX } else { n as u32 })),
            ),
            Err(e) => if e.errno() == ENOTSUP && !self.reopened {
                (WriteRetry { reopened: true, ..self }, WriteNext::Reopen)
            } else if e.errno() == ENOSPC && !self.evicted {
                (WriteRetry { evicted: true, ..self }, WriteNext::Evict)
            } else {
                (self, WriteNext::Reply(Err(e.errno())))
            },
        }
    }

    /// Says what follows the reopening of the source: the write again, or
    /// the error of the reopening.
    pub fn reopened(self, result: Result<(), RError<Errno>>) -> (r: WriteNext)
        ensures
            r == (match result {
                Ok(()) => WriteNext::Write,
                Err(e) => WriteNext::Reply(Err(e.e)),
            }),
    {
        match result {
            Ok(()) => WriteNext::Write,
            Err(e) => WriteNext::Reply(Err(e.errno())),
        }
    }
}

/// The end of the range of `written` bytes at `offset`, to which the size
/// of the inode is raised after a write; no further than 64 bits reach.
pub fn written_end(offset: u64, written: u32) -> (r: u64)
    ensures
        r == (if offset + written > u64::MAX {
            u64::MAX as int
        } else {
            offset + written
        }),
{
    if offset > u64::MAX - written as u64 {
        u64::MAX
    } else {
        offset + written as u64
    }
}

/// The evicter that relieves a cache that is full: one that wants one
/// percent of the filesystem free.
pub fn emergency_evicter(cache_dir: i32) -> (r: Evicter)
    ensures
        r == (Evicter {
            dir: cache_dir,
            high_watermark: DiskSpace::Percent(PERCENT),
            low_watermark: grown(DiskSpace::Percent(PERCENT)),
            scan_freq: SCAN_PERIOD,
            hot_percent: HOT_PERCENT,
            request_weight: REQUEST_WEIGHT,
        }),
{
    Evicter::new(cache_dir, &DiskSpace::Percent(PERCENT))
}

/// What the kernel is told of the filesystem.
#[derive(Debug, Clone, Copy, PartialEq, Eq, Structural)]
pub struct StatfsReply {
    pub blocks: u64,
    pub bfree: u64,
    pub bavail: u64,
    pub files: u64,
    pub ffree: u64,
    pub bsize: u32,
    pub namelen: u32,
    pub frsize: u32,
}

pub open spec fn low32(v: u64) -> u32 {
    (v & 0xffff_ffff) as u32
}

fn low(v: u64) -> (r: u32)
    ensures
        r == low32(v),
{
    let w: u64 = v & 0xffff_ffff;
    assert(w <= 0xffff_ffff) by (bit_vector)
        requires
            w == v & 0xffff_ffff,
    ;
    w as u32
}

/// What the kernel is told of the filesystem: what the cache's filesystem
/// reports, with the sizes in 32 bits.
pub fn statfs(st: &StatVfs) -> (r: StatfsReply)
    ensures
        r == (StatfsReply {
            blocks: st.f_blocks,
            bfree: st.f_bfree,
            bavail: st.f_bavail,
            files: st.f_files,
            ffree: st.f_ffree,
            bsize: low32(st.f_bsize),
            namelen: low32(st.f_namemax),
            frsize: low32(st.f_frsize),
        }),
{
    StatfsReply {
        blocks: st.f_blocks,
        bfree: st.f_bfree,
        bavail: st.f_bavail,
        files: st.f_files,
        ffree: st.f_ffree,
        bsize: low(st.f_bsize),
        namelen: low(st.f_namemax),
        frsize: low(st.f_frsize),
    }
}

} // verus!

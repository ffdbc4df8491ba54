//! The open file: a descriptor of the source file, one of the cache file,
//! and the rules by which reads, writes and flushes go to the two.
//!
//! Nothing here touches a file. Each operation is a machine: it names the
//! next call to make as an [`Action`], is told how the call went by a
//! [`Reply`], and ends with the result of the operation. The caller makes
//! the calls, holding the handle's lock.

use vstd::prelude::*;
use crate::errno::{Errno, EINVAL, EIO, ENOTSUP, O_ACCMODE, O_RDWR, O_WRONLY};
use crate::error::RError;

verus! {

/// A file descriptor that is owned and closed by hand.
#[derive(Debug, Clone, Copy, PartialEq, Eq, Structural)]
pub struct File {
    pub fd: i32,
}

/// The descriptor that stands for no file.
pub const NO_FD: i32 = -1;

impl File {
    /// The file of the descriptor `fd`.
    pub fn with_fd(fd: i32) -> (r: File)
        ensures
            r.fd == fd,
    {
        File { fd }
    }

    pub open spec fn valid_spec(&self) -> bool {
        self.fd != NO_FD
    }

    /// Whether there is a descriptor.
    #[verifier::when_used_as_spec(valid_spec)]
    pub fn valid(&self) -> (r: bool)
        ensures
            r == self.valid_spec(),
    {
        self.fd != NO_FD
    }

    /// The descriptor.
    pub fn as_raw_fd(&self) -> (r: i32)
        ensures
            r == self.fd,
    {
        self.fd
    }

    /// Gives the descriptor away: the file is left without one, and closing
    /// it is up to whoever took it.
    pub fn into_raw(&mut self) -> (r: i32)
        ensures
            r == old(self).fd,
            !final(self).valid(),
    {
        let fd = self.fd;
        self.fd = NO_FD;
        fd
    }

    /// What closing leaves: no descriptor, however the call went.
    pub fn closed(&mut self)
        ensures
            !final(self).valid(),
    {
        self.fd = NO_FD;
    }
}

impl Default for File {
    fn default() -> (r: File)
        ensures
            !r.valid(),
    {
        File { fd: NO_FD }
    }
}

/// The flags with the access mode set to reading and writing.
pub open spec fn rdwr(f: u32) -> u32 {
    (f & !O_ACCMODE) | O_RDWR
}

/// Sets the access mode of the flags to reading and writing.
pub fn make_rdwr(f: &mut u32)
    ensures
        *final(f) == rdwr(*old(f)),
{
    *f = (*f & !O_ACCMODE) | O_RDWR;
}

/// The flags with which a file is opened when it was asked for with `f`: a
/// file asked for writing only is opened for reading too, since a write of
/// a part of it has to read the rest.
pub open spec fn promoted(f: u32) -> u32 {
    if f & O_ACCMODE == O_WRONLY {
        rdwr(f)
    } else {
        f
    }
}

pub(crate) fn promote(f: u32) -> (r: u32)
    ensures
        r == promoted(f),
{
    if f & O_ACCMODE == O_WRONLY {
        (f & !O_ACCMODE) | O_RDWR
    } else {
        f
    }
}

/// Which of the two files of a handle a call is made on.
#[derive(Debug, Clone, Copy, PartialEq, Eq, Structural)]
pub enum Side {
    Source,
    Cache,
}

/// A call for the caller to make.
#[derive(Debug, Clone, Copy, PartialEq, Eq, Structural)]
pub enum Action {
    /// Make the directories above the file in the cache, with mode 0777,
    /// and take one that exists for made. Answered by `Done` or `Failed`.
    MakeParents,
    /// Open the file, relative to the root of its side. Answered by `Fd` or
    /// `Failed`.
    Open { side: Side, flags: u32, mode: u32 },
    /// Close the file. Answered by `Done` or `Failed`.
    Close { side: Side },
    /// Remove the file from its directory. Answered by `Done` or `Failed`.
    Unlink { side: Side },
    /// Find out whether the cache file stands for the source file, by the
    /// machine [`Validate`]. Answered by `Flag` or `Error`.
    Validate { assume_valid: bool, check_only: bool },
    /// Compare the digest that the cache file holds with the one computed
    /// of the source file. Answered by `Flag` or `Error`.
    CheckPristine,
    /// Write the digest of the source file to the cache file, or remove the
    /// digest from it. Answered by `Done` or `Error`.
    SetPristine { pristine: bool },
    /// Read into the buffer from place `skip` on, at `offset` of the file.
    /// Answered by `Count` or `Failed`.
    ReadAt { side: Side, skip: usize, offset: u64 },
    /// Write the buffer from place `skip` on, at `offset` of the file.
    /// Answered by `Count` or `Failed`.
    WriteAt { side: Side, skip: usize, offset: u64 },
    /// Read no bytes at the start of the file, to learn whether it can be
    /// read at all. Answered by `Done` or `Failed`.
    Probe { side: Side },
    /// Ask for the mode of the file. Answered by `Count` or `Failed`.
    Mode { side: Side },
    /// Make the file `size` bytes long. Answered by `Done` or `Error`.
    SetSize { side: Side, size: u64 },
    /// Have the file's filesystem flush it, without giving up the
    /// descriptor. Answered by `Done` or `Failed`.
    Sync { side: Side },
    /// Wait until the page-in has copied the first `offset` bytes or is
    /// over; with `set_dirty`, record first that a write is on its way.
    /// Answered by `Flag`, which says whether the page-in is over, or
    /// `Error`.
    WaitForOffset { offset: u64, set_dirty: bool },
    /// Wait until the page-in is over. Answered by `Done`.
    WaitForEof,
    /// Ask the page-in to stop. Answered by `Done`.
    Cancel,
    /// Copy the whole file from one side to the other, by the machine
    /// [`crate::transfer::Transfer`]. Answered by `Done` or `Error`.
    Copy { to_cache: bool, disable_splice: bool },
}

/// How a call went.
#[derive(Debug, PartialEq, Eq, Structural)]
pub enum Reply {
    /// The call succeeded and has nothing to tell.
    Done,
    /// The call gave a descriptor.
    Fd(i32),
    /// The call gave a number: of bytes moved, or the answer to a question.
    Count(u64),
    /// The call gave a yes or a no.
    Flag(bool),
    /// The system call failed with this error number.
    Failed(Errno),
    /// The call, which is an operation of this crate, failed with this
    /// error.
    Error(RError<Errno>),
}

/// What a machine asks for next, or what the operation came to.
#[derive(Debug, PartialEq, Eq, Structural)]
pub enum Step<T> {
    Do(Action),
    Finish(Result<T, RError<Errno>>),
}


/// The error of a reply that says a call failed; `None` for another reply.
pub open spec fn failure(reply: Reply) -> Option<RError<Errno>> {
    match reply {
        Reply::Failed(e) => Some(RError { e, traced: true }),
        Reply::Error(e) => Some(e),
        _ => None,
    }
}

/// The error with which an operation ends when a reply is none that the
/// call it answers can give.
pub open spec fn confused() -> RError<Errno> {
    RError { e: EIO, traced: true }
}

/// The error with which an operation ends on a reply that is not the
/// success it waits for: the error of the reply where it has one.
pub open spec fn failed_with(reply: Reply) -> RError<Errno> {
    match failure(reply) {
        Some(e) => e,
        None => confused(),
    }
}

pub(crate) fn fail_with(reply: Reply) -> (r: RError<Errno>)
    ensures
        r == failed_with(reply),
{
    match reply {
        Reply::Failed(e) => RError::from(e),
        Reply::Error(e) => e,
        _ => RError::from(EIO),
    }
}

/// An open file.
#[derive(Debug, Clone, Copy, PartialEq, Eq, Structural)]
pub struct Handle {
    /// The source file; without a descriptor where the file was opened for
    /// reading and the cache file stood for it.
    pub src_file: File,
    /// The cache file.
    pub cache_file: File,
    /// Whether the cache file may differ from what its digest says.
    pub dirty: bool,
    /// Whether the source has refused a write, so that writes go to the
    /// cache alone until a flush copies the cache file to the source.
    pub write_through_failed: bool,
    /// Whether a page-in may still be running.
    pub has_page_in_thread: bool,
}

impl Handle {
    /// What holds of every open handle: there is a cache file.
    pub open spec fn wf(&self) -> bool {
        self.cache_file.valid()
    }
}

/// The end of the range of `len` bytes at `offset`, where 63 bits hold it.
pub open spec fn range_end(offset: u64, len: usize) -> Option<u64> {
    if offset + len <= i64::MAX {
        Some((offset + len) as u64)
    } else {
        None
    }
}

fn end_of(offset: u64, len: usize) -> (r: Option<u64>)
    ensures
        r == range_end(offset, len),
{
    if offset <= i64::MAX as u64 && len as u64 <= i64::MAX as u64 - offset {
        Some(offset + len as u64)
    } else {
        None
    }
}

/// The error for a range that lies beyond what a file can hold.
pub open spec fn out_of_range() -> RError<Errno> {
    RError { e: EINVAL, traced: false }
}

/// Where a read stands.
#[derive(Debug, Clone, Copy, PartialEq, Eq, Structural)]
pub enum ReadPhase {
    Waiting,
    Reading,
    Over,
}

/// A read of `len` bytes at `offset` from a handle.
///
/// Where a page-in runs, the read waits until the page-in has copied the
/// bytes it asks for. Then it reads from the cache file until it has all of
/// them, and settles for fewer where the file ends or a later read fails: a
/// failure counts only where nothing was read.
#[derive(Debug, Clone, Copy, PartialEq, Eq, Structural)]
pub struct Read {
    pub handle: Handle,
    pub offset: u64,
    pub len: usize,
    /// The bytes read so far.
    pub done: usize,
    pub phase: ReadPhase,
}

impl Read {
    pub open spec fn wf(&self) -> bool {
        &&& self.done <= self.len
        &&& self.offset + self.len <= i64::MAX
    }

    /// The step with which the reading goes on.
    pub open spec fn go_on(self) -> (Read, Step<usize>) {
        if self.done < self.len {
            (
                Read { phase: ReadPhase::Reading, ..self },
                Step::Do(
                    Action::ReadAt {
                        side: Side::Cache,
                        skip: self.done,
                        offset: (self.offset + self.done) as u64,
                    },
                ),
            )
        } else {
            (Read { phase: ReadPhase::Over, ..self }, Step::Finish(Ok(self.done)))
        }
    }

    pub open spec fn over(self, result: Result<usize, RError<Errno>>) -> (Read, Step<usize>) {
        (Read { phase: ReadPhase::Over, ..self }, Step::Finish(result))
    }

    /// The first step of a read.
    pub open spec fn begin_spec(handle: Handle, offset: u64, len: usize) -> (Read, Step<usize>) {
        let read = Read { handle, offset, len, done: 0, phase: ReadPhase::Waiting };
        match range_end(offset, len) {
            None => read.over(Err(out_of_range())),
            Some(end) => if handle.has_page_in_thread {
                (read, Step::Do(Action::WaitForOffset { offset: end, set_dirty: false }))
            } else {
                read.go_on()
            },
        }
    }

    /// The step that follows `reply`.
    pub open spec fn next(self, reply: Reply) -> (Read, Step<usize>) {
        match self.phase {
            ReadPhase::Waiting => match reply {
                Reply::Flag(finished) => (Read {
                    handle: Handle {
                        has_page_in_thread: self.handle.has_page_in_thread && !finished,
                        ..self.handle
                    },
                    ..self
                }).go_on(),
                _ => self.over(Err(failed_with(reply))),
            },
            ReadPhase::Reading => match reply {
                Reply::Count(n) => if n == 0 || n > self.len - self.done {
                    self.over(Ok(self.done))
                } else {
                    (Read { done: (self.done + n) as usize, ..self }).go_on()
                },
                _ => if self.done > 0 {
                    self.over(Ok(self.done))
                } else {
                    self.over(Err(failed_with(reply)))
                },
            },
            ReadPhase::Over => self.over(Err(confused())),
        }
    }

    fn resume(self) -> (r: (Read, Step<usize>))
        requires
            self.wf(),
        ensures
            r == self.go_on(),
            r.0.wf(),
    {
        if self.done < self.len {
            let offset = self.offset + self.done as u64;
            (
                Read { phase: ReadPhase::Reading, ..self },
                Step::Do(Action::ReadAt { side: Side::Cache, skip: self.done, offset }),
            )
        } else {
            (Read { phase: ReadPhase::Over, ..self }, Step::Finish(Ok(self.done)))
        }
    }

    fn end(self, result: Result<usize, RError<Errno>>) -> (r: (Read, Step<usize>))
        ensures
            r == self.over(result),
    {
        (Read { phase: ReadPhase::Over, ..self }, Step::Finish(result))
    }

    /// Begins a read of `len` bytes at `offset`. A range that ends past the
    /// largest offset of a file is refused with `EINVAL`.
    pub fn begin(handle: Handle, offset: u64, len: usize) -> (r: (Read, Step<usize>))
        ensures
            r == Read::begin_spec(handle, offset, len),
            range_end(offset, len) is Some ==> r.0.wf(),
    {
        let read = Read { handle, offset, len, done: 0, phase: ReadPhase::Waiting };
        match end_of(offset, len) {
            None => read.end(Err(RError::propagate(EINVAL))),
            Some(end) => if handle.has_page_in_thread {
                (read, Step::Do(Action::WaitForOffset { offset: end, set_dirty: false }))
            } else {
                read.resume()
            },
        }
    }

    /// Takes the reply to the last step and gives the next. A count that
    /// is zero, or more than was asked for, ends the read with what it has.
    pub fn step(self, reply: Reply) -> (r: (Read, Step<usize>))
        requires
            self.wf(),
        ensures
            r == self.next(reply),
            r.0.wf(),
    {
        match self.phase {
            ReadPhase::Waiting => match reply {
                Reply::Flag(finished) => {
                    let handle = Handle {
                        has_page_in_thread: self.handle.has_page_in_thread && !finished,
                        ..self.handle
                    };
                    (Read { handle, ..self }).resume()
                },
                other => self.end(Err(fail_with(other))),
            },
            ReadPhase::Reading => match reply {
                Reply::Count(n) => if n == 0 || n > (self.len - self.done) as u64 {
                    self.end(Ok(self.done))
                } else {
                    (Read { done: self.done + n as usize, ..self }).resume()
                },
                other => if self.done > 0 {
                    self.end(Ok(self.done))
                } else {
                    self.end(Err(fail_with(other)))
                },
            },
            ReadPhase::Over => self.end(Err(RError::from(EIO))),
        }
    }
}

/// Where a write stands.
#[derive(Debug, Clone, Copy, PartialEq, Eq, Structural)]
pub enum WritePhase {
    Clearing,
    Waiting,
    Source,
    Cache,
    Over,
}

/// A write of `len` bytes at `offset` to a handle.
///
/// Before the first byte of a clean handle is written, the digest is taken
/// off the cache file, so that a crash cannot leave a cache file that is
/// marked pristine and is not. Where a page-in runs, the write records that
/// it is on its way and waits until the page-in has passed its range. Then
/// the bytes go to the source and to the cache, piece by piece: a piece is
/// written to the source first and then to the cache, and the next piece
/// begins where the cache write ended.
#[derive(Debug, Clone, Copy, PartialEq, Eq, Structural)]
pub struct Write {
    pub handle: Handle,
    pub offset: u64,
    pub len: usize,
    /// The bytes written to the cache so far.
    pub written: usize,
    pub phase: WritePhase,
}

impl Write {
    pub open spec fn wf(&self) -> bool {
        &&& self.written <= self.len
        &&& self.offset + self.len <= i64::MAX
    }

    pub open spec fn over(self, result: Result<usize, RError<Errno>>) -> (Write, Step<usize>) {
        (Write { phase: WritePhase::Over, ..self }, Step::Finish(result))
    }

    /// The write with the handle marked dirty where anything was written.
    pub open spec fn settled(self) -> Write {
        Write {
            handle: Handle { dirty: self.handle.dirty || self.written != 0, ..self.handle },
            ..self
        }
    }

    /// The call that writes the next piece to `side`.
    pub open spec fn piece(self, side: Side) -> Action {
        Action::WriteAt { side, skip: self.written, offset: (self.offset + self.written) as u64 }
    }

    /// The step with which the writing goes on.
    pub open spec fn go_on(self) -> (Write, Step<usize>) {
        if self.written < self.len {
            if !self.handle.write_through_failed {
                (Write { phase: WritePhase::Source, ..self }, Step::Do(self.piece(Side::Source)))
            } else {
                (Write { phase: WritePhase::Cache, ..self }, Step::Do(self.piece(Side::Cache)))
            }
        } else {
            self.settled().over(Ok(self.written))
        }
    }

    /// The step after the digest is off the cache file.
    pub open spec fn cleared(self) -> (Write, Step<usize>) {
        if self.handle.has_page_in_thread {
            (
                Write { phase: WritePhase::Waiting, ..self },
                Step::Do(
                    Action::WaitForOffset {
                        offset: (self.offset + self.len) as u64,
                        set_dirty: true,
                    },
                ),
            )
        } else {
            self.go_on()
        }
    }

    /// The end of a write whose piece the cache did not take: the bytes
    /// written before it are the result, and where there are none, the
    /// failure is. A count of no bytes, or of more than the piece has, is a
    /// failure too.
    pub open spec fn cache_failed(self, reply: Reply) -> (Write, Step<usize>) {
        if self.written > 0 {
            self.settled().over(Ok(self.written))
        } else {
            self.over(Err(failed_with(reply)))
        }
    }

    /// The first step of a write.
    pub open spec fn begin_spec(handle: Handle, offset: u64, len: usize) -> (Write, Step<usize>) {
        let write = Write { handle, offset, len, written: 0, phase: WritePhase::Clearing };
        if range_end(offset, len) is None {
            write.over(Err(out_of_range()))
        } else if !handle.dirty {
            (write, Step::Do(Action::SetPristine { pristine: false }))
        } else {
            write.cleared()
        }
    }

    /// The step that follows `reply`.
    pub open spec fn next(self, reply: Reply) -> (Write, Step<usize>) {
        match self.phase {
            WritePhase::Clearing => match reply {
                Reply::Done => self.cleared(),
                _ => self.over(Err(failed_with(reply))),
            },
            WritePhase::Waiting => match reply {
                Reply::Flag(finished) => (Write {
                    handle: Handle {
                        has_page_in_thread: self.handle.has_page_in_thread && !finished,
                        ..self.handle
                    },
                    ..self
                }).go_on(),
                _ => self.over(Err(failed_with(reply))),
            },
            WritePhase::Source => match reply {
                Reply::Count(_) => (
                    Write { phase: WritePhase::Cache, ..self },
                    Step::Do(self.piece(Side::Cache)),
                ),
                Reply::Failed(e) => if e == ENOTSUP {
                    (Write {
                        handle: Handle { write_through_failed: true, ..self.handle },
                        ..self
                    }).over(Err(RError { e, traced: false }))
                } else {
                    self.settled().over(Err(RError { e, traced: true }))
                },
                _ => self.settled().over(Err(failed_with(reply))),
            },
            WritePhase::Cache => match reply {
                Reply::Count(n) => if 0 < n <= self.len - self.written {
                    (Write { written: (self.written + n) as usize, ..self }).go_on()
                } else {
                    self.cache_failed(reply)
                },
                _ => self.cache_failed(reply),
            },
            WritePhase::Over => self.over(Err(confused())),
        }
    }

    fn end(self, result: Result<usize, RError<Errno>>) -> (r: (Write, Step<usize>))
        ensures
            r == self.over(result),
    {
        (Write { phase: WritePhase::Over, ..self }, Step::Finish(result))
    }

    fn settle(self) -> (r: Write)
        ensures
            r == self.settled(),
    {
        let dirty = self.handle.dirty || self.written != 0;
        Write { handle: Handle { dirty, ..self.handle }, ..self }
    }

    fn write_to(self, side: Side) -> (r: Action)
        requires
            self.wf(),
        ensures
            r == self.piece(side),
    {
        Action::WriteAt { side, skip: self.written, offset: self.offset + self.written as u64 }
    }

    fn resume(self) -> (r: (Write, Step<usize>))
        requires
            self.wf(),
        ensures
            r == self.go_on(),
            r.0.wf(),
    {
        if self.written < self.len {
            if !self.handle.write_through_failed {
                (Write { phase: WritePhase::Source, ..self }, Step::Do(self.write_to(Side::Source)))
            } else {
                (Write { phase: WritePhase::Cache, ..self }, Step::Do(self.write_to(Side::Cache)))
            }
        } else {
            self.settle().end(Ok(self.written))
        }
    }

    fn after_clearing(self) -> (r: (Write, Step<usize>))
        requires
            self.wf(),
        ensures
            r == self.cleared(),
            r.0.wf(),
    {
        if self.handle.has_page_in_thread {
            (
                Write { phase: WritePhase::Waiting, ..self },
                Step::Do(
                    Action::WaitForOffset { offset: self.offset + self.len as u64, set_dirty: true },
                ),
            )
        } else {
            self.resume()
        }
    }

    /// Begins a write of `len` bytes at `offset`. A range that ends past the
    /// largest offset of a file is refused with `EINVAL`.
    pub fn begin(handle: Handle, offset: u64, len: usize) -> (r: (Write, Step<usize>))
        ensures
            r == Write::begin_spec(handle, offset, len),
            range_end(offset, len) is Some ==> r.0.wf(),
    {
        let write = Write { handle, offset, len, written: 0, phase: WritePhase::Clearing };
        if end_of(offset, len).is_none() {
            write.end(Err(RError::propagate(EINVAL)))
        } else if !handle.dirty {
            (write, Step::Do(Action::SetPristine { pristine: false }))
        } else {
            write.after_clearing()
        }
    }

    /// Takes the reply to the last step and gives the next.
    ///
    /// A source that answers a write with `ENOTSUP` does not take writes in
    /// place: the handle remembers it, and the error comes back as an
    /// expected one. A cache write that fails after some bytes were written
    /// ends the write with their number; one that fails on the first piece
    /// ends it with the failure. A count of no bytes, or of more than the
    /// piece has, is a failure of the call. The handle is dirty as soon as
    /// a byte is written to the cache, and a write that ends well without
    /// a byte written was a write of no bytes.
    pub fn step(self, reply: Reply) -> (r: (Write, Step<usize>))
        requires
            self.wf(),
        ensures
            r == self.next(reply),
            r.0.wf(),
    {
        match self.phase {
            WritePhase::Clearing => match reply {
                Reply::Done => self.after_clearing(),
                other => self.end(Err(fail_with(other))),
            },
            WritePhase::Waiting => match reply {
                Reply::Flag(finished) => {
                    let handle = Handle {
                        has_page_in_thread: self.handle.has_page_in_thread && !finished,
                        ..self.handle
                    };
                    (Write { handle, ..self }).resume()
                },
                other => self.end(Err(fail_with(other))),
            },
            WritePhase::Source => match reply {
                Reply::Count(_) => (
                    Write { phase: WritePhase::Cache, ..self },
                    Step::Do(self.write_to(Side::Cache)),
                ),
                Reply::Failed(e) => if e == ENOTSUP {
                    let handle = Handle { write_through_failed: true, ..self.handle };
                    (Write { handle, ..self }).end(Err(RError::propagate(e)))
                } else {
                    self.settle().end(Err(RError::from(e)))
                },
                other => self.settle().end(Err(fail_with(other))),
            },
            WritePhase::Cache => {
                let taken: usize = match reply {
                    Reply::Count(n) => if 0 < n && n <= (self.len - self.written) as u64 {
                        n as usize
                    } else {
                        0
                    },
                    _ => 0,
                };
                if taken > 0 {
                    (Write { written: self.written + taken, ..self }).resume()
                } else if self.written > 0 {
                    self.settle().end(Ok(self.written))
                } else {
                    self.end(Err(fail_with(reply)))
                }
            },
            WritePhase::Over => self.end(Err(RError::from(EIO))),
        }
    }
}

/// Where a flush stands.
#[derive(Debug, Clone, Copy, PartialEq, Eq, Structural)]
pub enum FlushPhase {
    Cancelling,
    WaitingForEof,
    Copying,
    Marking,
    SyncingCache,
    SyncingSource,
    /// The source could not be flushed with this error: the digest is being
    /// taken off the cache file.
    Unmarking(Errno),
    Over,
}

/// A flush of a handle. It ends with whether anything went to the source.
///
/// A clean handle has nothing to flush; where its page-in still runs, the
/// page-in is asked to stop. A dirty handle whose writes went through to
/// the source gets its cache file marked pristine; one whose source refused
/// the writes has the cache file copied to the source, after the page-in is
/// over. Then the cache file is flushed and then the source file. Where the
/// source cannot be flushed, its descriptor is given up and the digest is
/// taken off the cache file.
#[derive(Debug, Clone, Copy, PartialEq, Eq, Structural)]
pub struct Flush {
    pub handle: Handle,
    pub phase: FlushPhase,
}

impl Flush {
    pub open spec fn at(self, phase: FlushPhase, action: Action) -> (Flush, Step<bool>) {
        (Flush { phase, ..self }, Step::Do(action))
    }

    pub open spec fn over(self, result: Result<bool, RError<Errno>>) -> (Flush, Step<bool>) {
        (Flush { phase: FlushPhase::Over, ..self }, Step::Finish(result))
    }

    /// The first step of a flush.
    pub open spec fn begin_spec(handle: Handle) -> (Flush, Step<bool>) {
        let flush = Flush { handle, phase: FlushPhase::Over };
        if handle.dirty {
            if handle.write_through_failed {
                if handle.has_page_in_thread {
                    flush.at(FlushPhase::WaitingForEof, Action::WaitForEof)
                } else {
                    flush.at(
                        FlushPhase::Copying,
                        Action::Copy { to_cache: false, disable_splice: false },
                    )
                }
            } else {
                flush.at(FlushPhase::Marking, Action::SetPristine { pristine: true })
            }
        } else if handle.has_page_in_thread {
            flush.at(FlushPhase::Cancelling, Action::Cancel)
        } else {
            flush.over(Ok(false))
        }
    }

    /// The step that follows `reply`.
    pub open spec fn next(self, reply: Reply) -> (Flush, Step<bool>) {
        match self.phase {
            FlushPhase::Cancelling => self.over(Ok(false)),
            FlushPhase::WaitingForEof => match reply {
                Reply::Done => (Flush {
                    handle: Handle { has_page_in_thread: false, ..self.handle },
                    ..self
                }).at(FlushPhase::Copying, Action::Copy { to_cache: false, disable_splice: false }),
                _ => self.over(Err(failed_with(reply))),
            },
            FlushPhase::Copying | FlushPhase::Marking => match reply {
                Reply::Done => self.at(FlushPhase::SyncingCache, Action::Sync { side: Side::Cache }),
                _ => self.over(Err(failed_with(reply))),
            },
            FlushPhase::SyncingCache => match reply {
                Reply::Done => self.at(
                    FlushPhase::SyncingSource,
                    Action::Sync { side: Side::Source },
                ),
                _ => self.over(Err(failed_with(reply))),
            },
            FlushPhase::SyncingSource => match reply {
                Reply::Done => (Flush {
                    handle: Handle { dirty: false, ..self.handle },
                    ..self
                }).over(Ok(true)),
                Reply::Failed(e) => (Flush {
                    handle: Handle { src_file: File { fd: NO_FD }, ..self.handle },
                    ..self
                }).at(FlushPhase::Unmarking(e), Action::SetPristine { pristine: false }),
                _ => self.over(Err(failed_with(reply))),
            },
            FlushPhase::Unmarking(e) => match reply {
                Reply::Done => self.over(Err(RError { e, traced: false })),
                _ => self.over(Err(failed_with(reply))),
            },
            FlushPhase::Over => self.over(Err(confused())),
        }
    }

    fn to(self, phase: FlushPhase, action: Action) -> (r: (Flush, Step<bool>))
        ensures
            r == self.at(phase, action),
    {
        (Flush { phase, ..self }, Step::Do(action))
    }

    fn end(self, result: Result<bool, RError<Errno>>) -> (r: (Flush, Step<bool>))
        ensures
            r == self.over(result),
    {
        (Flush { phase: FlushPhase::Over, ..self }, Step::Finish(result))
    }

    /// Begins a flush.
    pub fn begin(handle: Handle) -> (r: (Flush, Step<bool>))
        ensures
            r == Flush::begin_spec(handle),
    {
        let flush = Flush { handle, phase: FlushPhase::Over };
        if handle.dirty {
            if handle.write_through_failed {
                if handle.has_page_in_thread {
                    flush.to(FlushPhase::WaitingForEof, Action::WaitForEof)
                } else {
                    flush.to(
                        FlushPhase::Copying,
                        Action::Copy { to_cache: false, disable_splice: false },
                    )
                }
            } else {
                flush.to(FlushPhase::Marking, Action::SetPristine { pristine: true })
            }
        } else if handle.has_page_in_thread {
            flush.to(FlushPhase::Cancelling, Action::Cancel)
        } else {
            flush.end(Ok(false))
        }
    }

    /// Takes the reply to the last step and gives the next.
    pub fn step(self, reply: Reply) -> (r: (Flush, Step<bool>))
        ensures
            r == self.next(reply),
    {
        match self.phase {
            FlushPhase::Cancelling => self.end(Ok(false)),
            FlushPhase::WaitingForEof => match reply {
                Reply::Done => {
                    let handle = Handle { has_page_in_thread: false, ..self.handle };
                    (Flush { handle, ..self }).to(
                        FlushPhase::Copying,
                        Action::Copy { to_cache: false, disable_splice: false },
                    )
                },
                other => self.end(Err(fail_with(other))),
            },
            FlushPhase::Copying | FlushPhase::Marking => match reply {
                Reply::Done => self.to(FlushPhase::SyncingCache, Action::Sync { side: Side::Cache }),
                other => self.end(Err(fail_with(other))),
            },
            FlushPhase::SyncingCache => match reply {
                Reply::Done => self.to(
                    FlushPhase::SyncingSource,
                    Action::Sync { side: Side::Source },
                ),
                other => self.end(Err(fail_with(other))),
            },
            FlushPhase::SyncingSource => match reply {
                Reply::Done => {
                    let handle = Handle { dirty: false, ..self.handle };
                    (Flush { handle, ..self }).end(Ok(true))
                },
                Reply::Failed(e) => {
                    let handle = Handle { src_file: File { fd: NO_FD }, ..self.handle };
                    (Flush { handle, ..self }).to(
                        FlushPhase::Unmarking(e),
                        Action::SetPristine { pristine: false },
                    )
                },
                other => self.end(Err(fail_with(other))),
            },
            FlushPhase::Unmarking(e) => match reply {
                Reply::Done => self.end(Err(RError::propagate(e))),
                other => self.end(Err(fail_with(other))),
            },
            FlushPhase::Over => self.end(Err(RError::from(EIO))),
        }
    }
}

/// Where a change of size stands.
#[derive(Debug, Clone, Copy, PartialEq, Eq, Structural)]
pub enum TruncatePhase {
    Source,
    WaitingForEof,
    Cache,
    Over,
}

/// The setting of the size of an open file.
///
/// The source gets the size first. The cache file gets it once the page-in
/// is over, so that the page-in writes no bytes behind the new end. The
/// size enters the digest: whoever asked restores the mark of the cache
/// file where it is to stay pristine.
#[derive(Debug, Clone, Copy, PartialEq, Eq, Structural)]
pub struct Truncate {
    pub handle: Handle,
    pub size: u64,
    pub phase: TruncatePhase,
}

impl Truncate {
    pub open spec fn at(self, phase: TruncatePhase, action: Action) -> (Truncate, Step<()>) {
        (Truncate { phase, ..self }, Step::Do(action))
    }

    pub open spec fn over(self, result: Result<(), RError<Errno>>) -> (Truncate, Step<()>) {
        (Truncate { phase: TruncatePhase::Over, ..self }, Step::Finish(result))
    }

    pub open spec fn size_cache(self) -> (Truncate, Step<()>) {
        self.at(TruncatePhase::Cache, Action::SetSize { side: Side::Cache, size: self.size })
    }

    /// The first step of a change of size.
    pub open spec fn begin_spec(handle: Handle, size: u64) -> (Truncate, Step<()>) {
        (
            Truncate { handle, size, phase: TruncatePhase::Source },
            Step::Do(Action::SetSize { side: Side::Source, size }),
        )
    }

    /// The step that follows `reply`.
    pub open spec fn next(self, reply: Reply) -> (Truncate, Step<()>) {
        match self.phase {
            TruncatePhase::Source => match reply {
                Reply::Done => if self.handle.has_page_in_thread {
                    self.at(TruncatePhase::WaitingForEof, Action::WaitForEof)
                } else {
                    self.size_cache()
                },
                _ => self.over(Err(failed_with(reply))),
            },
            TruncatePhase::WaitingForEof => match reply {
                Reply::Done => (Truncate {
                    handle: Handle { has_page_in_thread: false, ..self.handle },
                    ..self
                }).size_cache(),
                _ => self.over(Err(failed_with(reply))),
            },
            TruncatePhase::Cache => match reply {
                Reply::Done => self.over(Ok(())),
                _ => self.over(Err(failed_with(reply))),
            },
            TruncatePhase::Over => self.over(Err(confused())),
        }
    }

    fn to(self, phase: TruncatePhase, action: Action) -> (r: (Truncate, Step<()>))
        ensures
            r == self.at(phase, action),
    {
        (Truncate { phase, ..self }, Step::Do(action))
    }

    fn end(self, result: Result<(), RError<Errno>>) -> (r: (Truncate, Step<()>))
        ensures
            r == self.over(result),
    {
        (Truncate { phase: TruncatePhase::Over, ..self }, Step::Finish(result))
    }

    /// Begins the setting of the size of the file of `handle` to `size`.
    pub fn begin(handle: Handle, size: u64) -> (r: (Truncate, Step<()>))
        ensures
            r == Truncate::begin_spec(handle, size),
    {
        (
            Truncate { handle, size, phase: TruncatePhase::Source },
            Step::Do(Action::SetSize { side: Side::Source, size }),
        )
    }

    /// Takes the reply to the last step and gives the next.
    pub fn step(self, reply: Reply) -> (r: (Truncate, Step<()>))
        ensures
            r == self.next(reply),
    {
        let cache = Action::SetSize { side: Side::Cache, size: self.size };
        match self.phase {
            TruncatePhase::Source => match reply {
                Reply::Done => if self.handle.has_page_in_thread {
                    self.to(TruncatePhase::WaitingForEof, Action::WaitForEof)
                } else {
                    self.to(TruncatePhase::Cache, cache)
                },
                other => self.end(Err(fail_with(other))),
            },
            TruncatePhase::WaitingForEof => match reply {
                Reply::Done => (Truncate {
                    handle: Handle { has_page_in_thread: false, ..self.handle },
                    ..self
                }).to(TruncatePhase::Cache, cache),
                other => self.end(Err(fail_with(other))),
            },
            TruncatePhase::Cache => match reply {
                Reply::Done => self.end(Ok(())),
                other => self.end(Err(fail_with(other))),
            },
            TruncatePhase::Over => self.end(Err(RError::from(EIO))),
        }
    }
}

impl Handle {
    /// Begins a read of `len` bytes at `offset`.
    pub fn read(&self, offset: u64, len: usize) -> (r: (Read, Step<usize>))
        ensures
            r == Read::begin_spec(*self, offset, len),
            range_end(offset, len) is Some ==> r.0.wf(),
    {
        Read::begin(*self, offset, len)
    }

    /// Begins a write of `len` bytes at `offset`.
    pub fn write(&self, offset: u64, len: usize) -> (r: (Write, Step<usize>))
        ensures
            r == Write::begin_spec(*self, offset, len),
            range_end(offset, len) is Some ==> r.0.wf(),
    {
        Write::begin(*self, offset, len)
    }

    /// Begins a flush.
    pub fn flush(&self) -> (r: (Flush, Step<bool>))
        ensures
            r == Flush::begin_spec(*self),
    {
        Flush::begin(*self)
    }

    /// Begins the setting of the size of the file to `size`.
    pub fn truncate(&self, size: u64) -> (r: (Truncate, Step<()>))
        ensures
            r == Truncate::begin_spec(*self, size),
    {
        Truncate::begin(*self, size)
    }
}

} // verus!

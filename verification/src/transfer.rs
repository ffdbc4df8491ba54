//! The copying of a whole file between the source and the cache.
//!
//! A page-in copies the source file into the cache file; a flush of a
//! handle whose source refused writes copies the cache file to the source.
//! The bytes are moved inside the kernel through a pipe, 128 KiB at a time.
//! Where the two files do not allow that, they are moved through a buffer
//! of 32 KiB instead, from the start. After every piece the progress is
//! posted for those who wait on it.

use vstd::prelude::*;
use crate::errno::{Errno, EINVAL, EIO};
use crate::error::RError;
use crate::file::{confused, fail_with, failed_with, Reply};

verus! {

/// The bytes that one splice moves at most.
pub const SPLICE_CHUNK: usize = 131072;

/// The bytes that one read into the buffer takes at most.
pub const USER_CHUNK: usize = 32768;

/// A call for the caller to make on the file that is read (the reader), the
/// file that is written (the writer), or the pipe between them.
#[derive(Debug, Clone, Copy, PartialEq, Eq, Structural)]
pub enum Move {
    /// Ask for the size of the reader. Answered by `Count` or `Failed`.
    ReaderSize,
    /// Ask for the size of the writer. Answered by `Count` or `Failed`.
    WriterSize,
    /// Cut the writer to `size` bytes. Answered by `Done` or `Failed`.
    Truncate { size: u64 },
    /// Make the pipe. Answered by `Done` or `Failed`.
    OpenPipe,
    /// Move up to `len` bytes from `offset` of the reader into the pipe.
    /// Answered by `Count` or `Failed`.
    SpliceIn { offset: u64, len: usize },
    /// Move up to `len` bytes from the pipe to `offset` of the writer.
    /// Answered by `Count` or `Failed`.
    SpliceOut { offset: u64, len: usize },
    /// Close the reading end of the pipe. Answered by `Done` or `Failed`.
    ClosePipeIn,
    /// Close the writing end of the pipe. Answered by `Done` or `Failed`.
    ClosePipeOut,
    /// Read up to `len` bytes from `offset` of the reader into the buffer.
    /// Answered by `Count` or `Failed`.
    Read { offset: u64, len: usize },
    /// Write the first `len` bytes of the buffer to `offset` of the writer.
    /// Answered by `Count` or `Failed`.
    Write { offset: u64, len: usize },
    /// Post that the first `offset` bytes are copied, and with `eof` that
    /// the copy is complete. Answered by `Done`, or by `Error` where the
    /// copy was asked to stop.
    Notify { offset: u64, eof: bool },
}

/// What a copy asks for next, or what it came to.
#[derive(Debug, PartialEq, Eq)]
pub enum Progress {
    Do(Move),
    Finish(Result<(), RError<Errno>>),
}


/// Where a copy stands.
#[derive(Debug, PartialEq, Eq, Structural)]
pub enum TransferPhase {
    SizingReader,
    SizingWriter,
    Truncating,
    Piping,
    SplicingIn,
    SplicingOut,
    PostingSplice,
    /// The pipe is being closed; with an error, the splicing failed with it.
    ClosingIn(Option<RError<Errno>>),
    ClosingOut(Option<RError<Errno>>),
    Reading,
    Writing,
    PostingUser,
    PostingEnd,
    Over,
}

impl TransferPhase {
    fn same(&self) -> (r: TransferPhase)
        ensures
            r == *self,
    {
        match self {
            TransferPhase::SizingReader => TransferPhase::SizingReader,
            TransferPhase::SizingWriter => TransferPhase::SizingWriter,
            TransferPhase::Truncating => TransferPhase::Truncating,
            TransferPhase::Piping => TransferPhase::Piping,
            TransferPhase::SplicingIn => TransferPhase::SplicingIn,
            TransferPhase::SplicingOut => TransferPhase::SplicingOut,
            TransferPhase::PostingSplice => TransferPhase::PostingSplice,
            TransferPhase::ClosingIn(e) => TransferPhase::ClosingIn(
                match e {
                    Some(e) => Some(e.same()),
                    None => None,
                },
            ),
            TransferPhase::ClosingOut(e) => TransferPhase::ClosingOut(
                match e {
                    Some(e) => Some(e.same()),
                    None => None,
                },
            ),
            TransferPhase::Reading => TransferPhase::Reading,
            TransferPhase::Writing => TransferPhase::Writing,
            TransferPhase::PostingUser => TransferPhase::PostingUser,
            TransferPhase::PostingEnd => TransferPhase::PostingEnd,
            TransferPhase::Over => TransferPhase::Over,
        }
    }
}

/// A copy of a whole file.
#[derive(Debug, PartialEq, Eq, Structural)]
pub struct Transfer {
    /// Whether the bytes are never to be spliced.
    pub disable_splice: bool,
    /// The size of the reader when the copy began.
    pub size: u64,
    /// The bytes copied so far.
    pub offset: u64,
    /// The bytes of the piece that is on its way.
    pub chunk: usize,
    /// The bytes of that piece that have reached the writer.
    pub moved: usize,
    pub phase: TransferPhase,
}

impl Transfer {
    pub open spec fn wf(&self) -> bool {
        &&& self.offset <= i64::MAX
        &&& self.moved <= self.chunk
        &&& self.chunk <= SPLICE_CHUNK
        &&& (self.phase == TransferPhase::Writing ==> self.chunk > 0 && self.offset + self.chunk
            <= i64::MAX)
    }

    pub open spec fn at(self, phase: TransferPhase, action: Move) -> (Transfer, Progress) {
        (Transfer { phase, ..self }, Progress::Do(action))
    }

    pub open spec fn over(self, result: Result<(), RError<Errno>>) -> (Transfer, Progress) {
        (Transfer { phase: TransferPhase::Over, ..self }, Progress::Finish(result))
    }

    /// The copy at the start of the file again.
    pub open spec fn rewound(self) -> Transfer {
        Transfer { offset: 0, chunk: 0, moved: 0, ..self }
    }

    pub open spec fn read_on(self) -> (Transfer, Progress) {
        self.at(TransferPhase::Reading, Move::Read { offset: self.offset, len: USER_CHUNK })
    }

    pub open spec fn splice_on(self) -> (Transfer, Progress) {
        self.at(TransferPhase::SplicingIn, Move::SpliceIn { offset: self.offset, len: SPLICE_CHUNK })
    }

    pub open spec fn drain_on(self) -> (Transfer, Progress) {
        self.at(
            TransferPhase::SplicingOut,
            Move::SpliceOut { offset: self.offset, len: SPLICE_CHUNK },
        )
    }

    /// The step after the writer is no longer than the reader.
    pub open spec fn start(self) -> (Transfer, Progress) {
        if self.disable_splice {
            self.rewound().read_on()
        } else {
            self.rewound().at(TransferPhase::Piping, Move::OpenPipe)
        }
    }

    /// The step once all bytes are copied.
    pub open spec fn complete(self) -> (Transfer, Progress) {
        self.at(TransferPhase::PostingEnd, Move::Notify { offset: self.offset, eof: true })
    }

    /// The step that closes the pipe after the splicing ended, with an
    /// error or without.
    pub open spec fn close_pipe(self, e: Option<RError<Errno>>) -> (Transfer, Progress) {
        self.at(TransferPhase::ClosingIn(e), Move::ClosePipeIn)
    }

    /// The step once the pipe is closed after the splicing ended with `e`.
    /// A splicing that the files do not allow gives way to the buffer.
    pub open spec fn pipe_closed(self, e: Option<RError<Errno>>) -> (Transfer, Progress) {
        match e {
            None => self.complete(),
            Some(e) => if e.e == EINVAL {
                self.rewound().read_on()
            } else {
                self.over(Err(e))
            },
        }
    }

    /// The first step of a copy.
    pub open spec fn begin_spec(disable_splice: bool) -> (Transfer, Progress) {
        (
            Transfer {
                disable_splice,
                size: 0,
                offset: 0,
                chunk: 0,
                moved: 0,
                phase: TransferPhase::SizingReader,
            },
            Progress::Do(Move::ReaderSize),
        )
    }

    /// Whether a piece of `n` bytes, of which at most `cap` were asked for,
    /// can follow the bytes copied so far.
    pub open spec fn fits(self, n: u64, cap: usize) -> bool {
        n <= cap && self.offset + n <= i64::MAX
    }

    /// The step that follows `reply`.
    pub open spec fn next(self, reply: Reply) -> (Transfer, Progress) {
        match self.phase {
            TransferPhase::SizingReader => match reply {
                Reply::Count(size) => (Transfer { size, ..self }).at(
                    TransferPhase::SizingWriter,
                    Move::WriterSize,
                ),
                _ => self.over(Err(failed_with(reply))),
            },
            TransferPhase::SizingWriter => match reply {
                Reply::Count(size) => if self.size < size {
                    self.at(TransferPhase::Truncating, Move::Truncate { size: self.size })
                } else {
                    self.start()
                },
                _ => self.over(Err(failed_with(reply))),
            },
            TransferPhase::Truncating => match reply {
                Reply::Done => self.start(),
                _ => self.over(Err(failed_with(reply))),
            },
            TransferPhase::Piping => match reply {
                Reply::Done => self.splice_on(),
                Reply::Failed(e) => if e == EINVAL {
                    self.rewound().read_on()
                } else {
                    self.over(Err(RError { e, traced: true }))
                },
                _ => self.over(Err(failed_with(reply))),
            },
            TransferPhase::SplicingIn => match reply {
                Reply::Count(n) => if n == 0 {
                    self.close_pipe(None)
                } else if !self.fits(n, SPLICE_CHUNK) {
                    self.close_pipe(Some(confused()))
                } else {
                    (Transfer { chunk: n as usize, moved: 0, ..self }).drain_on()
                },
                _ => self.close_pipe(Some(failed_with(reply))),
            },
            TransferPhase::SplicingOut => match reply {
                Reply::Count(n) => if n == 0 || n > self.chunk - self.moved || !self.fits(
                    n,
                    SPLICE_CHUNK,
                ) {
                    self.close_pipe(Some(confused()))
                } else {
                    (Transfer {
                        moved: (self.moved + n) as usize,
                        offset: (self.offset + n) as u64,
                        ..self
                    }).at(
                        TransferPhase::PostingSplice,
                        Move::Notify { offset: (self.offset + n) as u64, eof: false },
                    )
                },
                _ => self.close_pipe(Some(failed_with(reply))),
            },
            TransferPhase::PostingSplice => match reply {
                Reply::Done => if self.moved < self.chunk {
                    self.drain_on()
                } else {
                    self.splice_on()
                },
                _ => self.close_pipe(Some(failed_with(reply))),
            },
            TransferPhase::ClosingIn(e) => match reply {
                Reply::Done => self.at(TransferPhase::ClosingOut(e), Move::ClosePipeOut),
                _ => self.at(
                    TransferPhase::ClosingOut(
                        Some(
                            match e {
                                Some(first) => first,
                                None => failed_with(reply),
                            },
                        ),
                    ),
                    Move::ClosePipeOut,
                ),
            },
            TransferPhase::ClosingOut(e) => match reply {
                Reply::Done => self.pipe_closed(e),
                _ => self.pipe_closed(
                    Some(
                        match e {
                            Some(first) => first,
                            None => failed_with(reply),
                        },
                    ),
                ),
            },
            TransferPhase::Reading => match reply {
                Reply::Count(n) => if n == 0 {
                    self.complete()
                } else if !self.fits(n, USER_CHUNK) {
                    self.over(Err(confused()))
                } else {
                    (Transfer { chunk: n as usize, moved: 0, ..self }).at(
                        TransferPhase::Writing,
                        Move::Write { offset: self.offset, len: n as usize },
                    )
                },
                _ => self.over(Err(failed_with(reply))),
            },
            TransferPhase::Writing => match reply {
                Reply::Count(_) => (Transfer {
                    offset: (self.offset + self.chunk) as u64,
                    moved: self.chunk,
                    ..self
                }).at(
                    TransferPhase::PostingUser,
                    Move::Notify { offset: (self.offset + self.chunk) as u64, eof: false },
                ),
                _ => self.over(Err(failed_with(reply))),
            },
            TransferPhase::PostingUser => match reply {
                Reply::Done => self.read_on(),
                _ => self.over(Err(failed_with(reply))),
            },
            TransferPhase::PostingEnd => match reply {
                Reply::Done => self.over(Ok(())),
                _ => self.over(Err(failed_with(reply))),
            },
            TransferPhase::Over => self.over(Err(confused())),
        }
    }

    fn to(self, phase: TransferPhase, action: Move) -> (r: (Transfer, Progress))
        ensures
            r == self.at(phase, action),
    {
        (Transfer { phase, ..self }, Progress::Do(action))
    }

    fn end(self, result: Result<(), RError<Errno>>) -> (r: (Transfer, Progress))
        ensures
            r == self.over(result),
    {
        (Transfer { phase: TransferPhase::Over, ..self }, Progress::Finish(result))
    }

    fn rewind(self) -> (r: Transfer)
        ensures
            r == self.rewound(),
    {
        Transfer { offset: 0, chunk: 0, moved: 0, ..self }
    }

    fn read_more(self) -> (r: (Transfer, Progress))
        ensures
            r == self.read_on(),
    {
        let offset = self.offset;
        self.to(TransferPhase::Reading, Move::Read { offset, len: USER_CHUNK })
    }

    fn splice_more(self) -> (r: (Transfer, Progress))
        ensures
            r == self.splice_on(),
    {
        let offset = self.offset;
        self.to(TransferPhase::SplicingIn, Move::SpliceIn { offset, len: SPLICE_CHUNK })
    }

    fn drain_more(self) -> (r: (Transfer, Progress))
        ensures
            r == self.drain_on(),
    {
        let offset = self.offset;
        self.to(TransferPhase::SplicingOut, Move::SpliceOut { offset, len: SPLICE_CHUNK })
    }

    fn started(self) -> (r: (Transfer, Progress))
        ensures
            r == self.start(),
    {
        if self.disable_splice {
            self.rewind().read_more()
        } else {
            self.rewind().to(TransferPhase::Piping, Move::OpenPipe)
        }
    }

    fn completed(self) -> (r: (Transfer, Progress))
        ensures
            r == self.complete(),
    {
        let offset = self.offset;
        self.to(TransferPhase::PostingEnd, Move::Notify { offset, eof: true })
    }

    fn closing(self, e: Option<RError<Errno>>) -> (r: (Transfer, Progress))
        ensures
            r == self.close_pipe(e),
    {
        self.to(TransferPhase::ClosingIn(e), Move::ClosePipeIn)
    }

    fn after_pipe(self, e: Option<RError<Errno>>) -> (r: (Transfer, Progress))
        ensures
            r == self.pipe_closed(e),
    {
        match e {
            None => self.completed(),
            Some(e) => if e.errno() == EINVAL {
                self.rewind().read_more()
            } else {
                self.end(Err(e))
            },
        }
    }

    fn can_take(&self, n: u64, cap: usize) -> (r: bool)
        requires
            self.offset <= i64::MAX,
        ensures
            r == self.fits(n, cap),
    {
        n <= cap as u64 && n <= i64::MAX as u64 - self.offset
    }

    /// Begins a copy.
    pub fn begin(disable_splice: bool) -> (r: (Transfer, Progress))
        ensures
            r == Transfer::begin_spec(disable_splice),
            r.0.wf(),
    {
        (
            Transfer {
                disable_splice,
                size: 0,
                offset: 0,
                chunk: 0,
                moved: 0,
                phase: TransferPhase::SizingReader,
            },
            Progress::Do(Move::ReaderSize),
        )
    }

    /// Takes the reply to the last step and gives the next.
    ///
    /// A writer that is longer than the reader is cut to the reader's size
    /// first. Every piece that has reached the writer is posted. A piece of
    /// no bytes from the reader ends the copy, and the end is posted. A
    /// splice that fails with `EINVAL` makes the copy start over through
    /// the buffer; the pipe is closed in every case.
    pub fn step(&self, reply: Reply) -> (r: (Transfer, Progress))
        requires
            self.wf(),
        ensures
            r == self.next(reply),
            r.0.wf(),
    {
        let disable_splice = self.disable_splice;
        let size = self.size;
        let offset = self.offset;
        let chunk = self.chunk;
        let moved = self.moved;
        let phase = self.phase.same();
        let this = Transfer {
            disable_splice,
            size,
            offset,
            chunk,
            moved,
            phase: TransferPhase::Over,
        };
        proof {
            assert(forall|p: TransferPhase, a: Move| this.at(p, a) == self.at(p, a));
            assert(forall|x: Result<(), RError<Errno>>| this.over(x) == self.over(x));
            assert(this.rewound().read_on() == self.rewound().read_on());
            assert(this.start() == self.start());
            assert(this.complete() == self.complete());
            assert(this.read_on() == self.read_on());
            assert(this.splice_on() == self.splice_on());
            assert(this.drain_on() == self.drain_on());
            assert(forall|e: Option<RError<Errno>>| this.close_pipe(e) == self.close_pipe(e));
            assert(forall|e: Option<RError<Errno>>| this.pipe_closed(e) == self.pipe_closed(e));
            assert(forall|n: u64, cap: usize| this.fits(n, cap) == self.fits(n, cap));
        }
        match phase {
            TransferPhase::SizingReader => match reply {
                Reply::Count(s) => (Transfer { size: s, ..this }).to(
                    TransferPhase::SizingWriter,
                    Move::WriterSize,
                ),
                other => this.end(Err(fail_with(other))),
            },
            TransferPhase::SizingWriter => match reply {
                Reply::Count(s) => if size < s {
                    this.to(TransferPhase::Truncating, Move::Truncate { size })
                } else {
                    this.started()
                },
                other => this.end(Err(fail_with(other))),
            },
            TransferPhase::Truncating => match reply {
                Reply::Done => this.started(),
                other => this.end(Err(fail_with(other))),
            },
            TransferPhase::Piping => match reply {
                Reply::Done => this.splice_more(),
                Reply::Failed(e) => if e == EINVAL {
                    this.rewind().read_more()
                } else {
                    this.end(Err(RError::from(e)))
                },
                other => this.end(Err(fail_with(other))),
            },
            TransferPhase::SplicingIn => match reply {
                Reply::Count(n) => if n == 0 {
                    this.closing(None)
                } else if !this.can_take(n, SPLICE_CHUNK) {
                    this.closing(Some(RError::from(EIO)))
                } else {
                    (Transfer { chunk: n as usize, moved: 0, ..this }).drain_more()
                },
                other => this.closing(Some(fail_with(other))),
            },
            TransferPhase::SplicingOut => match reply {
                Reply::Count(n) => if n == 0 || n > (chunk - moved) as u64 || !this.can_take(
                    n,
                    SPLICE_CHUNK,
                ) {
                    this.closing(Some(RError::from(EIO)))
                } else {
                    (Transfer { moved: moved + n as usize, offset: offset + n, ..this }).to(
                        TransferPhase::PostingSplice,
                        Move::Notify { offset: offset + n, eof: false },
                    )
                },
                other => this.closing(Some(fail_with(other))),
            },
            TransferPhase::PostingSplice => match reply {
                Reply::Done => if moved < chunk {
                    this.drain_more()
                } else {
                    this.splice_more()
                },
                other => this.closing(Some(fail_with(other))),
            },
            TransferPhase::ClosingIn(e) => match reply {
                Reply::Done => this.to(TransferPhase::ClosingOut(e), Move::ClosePipeOut),
                other => {
                    let kept = match e {
                        Some(first) => first,
                        None => fail_with(other),
                    };
                    this.to(TransferPhase::ClosingOut(Some(kept)), Move::ClosePipeOut)
                },
            },
            TransferPhase::ClosingOut(e) => match reply {
                Reply::Done => this.after_pipe(e),
                other => {
                    let kept = match e {
                        Some(first) => first,
                        None => fail_with(other),
                    };
                    this.after_pipe(Some(kept))
                },
            },
            TransferPhase::Reading => match reply {
                Reply::Count(n) => if n == 0 {
                    this.completed()
                } else if !this.can_take(n, USER_CHUNK) {
                    this.end(Err(RError::from(EIO)))
                } else {
                    (Transfer { chunk: n as usize, moved: 0, ..this }).to(
                        TransferPhase::Writing,
                        Move::Write { offset, len: n as usize },
                    )
                },
                other => this.end(Err(fail_with(other))),
            },
            TransferPhase::Writing => match reply {
                Reply::Count(_) => (Transfer {
                    offset: offset + chunk as u64,
                    moved: chunk,
                    ..this
                }).to(
                    TransferPhase::PostingUser,
                    Move::Notify { offset: offset + chunk as u64, eof: false },
                ),
                other => this.end(Err(fail_with(other))),
            },
            TransferPhase::PostingUser => match reply {
                Reply::Done => this.read_more(),
                other => this.end(Err(fail_with(other))),
            },
            TransferPhase::PostingEnd => match reply {
                Reply::Done => this.end(Ok(())),
                other => this.end(Err(fail_with(other))),
            },
            TransferPhase::Over => this.end(Err(RError::from(EIO))),
        }
    }
}

/// What is posted is what was copied. Every post names the bytes that the
/// copy counts as copied; a post that follows a piece names more bytes than
/// were copied before the piece; and the end is posted only when the reader
/// gave no more bytes.
pub proof fn lemma_posts_follow_copy(t: Transfer, reply: Reply)
    requires
        t.wf(),
    ensures
        t.next(reply).1 matches Progress::Do(Move::Notify { offset, eof }) ==> {
            &&& offset == t.next(reply).0.offset
            &&& (!eof ==> offset > t.offset)
            &&& (eof ==> offset == t.offset || offset == 0)
        },
        t.next(reply).1 matches Progress::Do(Move::Write { offset, len }) ==> offset == t.offset
            && len > 0,
        t.next(reply).1 matches Progress::Do(Move::SpliceOut { offset, .. }) ==> offset
            == t.next(reply).0.offset,
{
}

} // verus!

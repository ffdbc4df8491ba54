//! How a handle comes to be: the check of the cache file against the source
//! file, and the opening and creating of the two.

use vstd::prelude::*;
use crate::errno::{
    Errno, EBADF, EIO, ENOENT, ENOTSUP, O_ACCMODE, O_CREAT, O_RDONLY, O_RDWR, O_TRUNC, O_WRONLY,
    S_IFMT,
};
use crate::error::RError;
use crate::file::{
    confused, fail_with, failed_with, promote, promoted, rdwr, Action, File, Handle, Reply, Side,
    Step, NO_FD,
};

verus! {

/// Where a check of the cache file stands.
#[derive(Debug, PartialEq, Eq, Structural)]
pub enum ValidatePhase {
    OpeningSource,
    /// The source is gone: the cache file is being removed.
    RemovingOrphan,
    OpeningCache,
    /// The cache file could not be opened with this error: the source is
    /// being closed.
    ClosingAfter(Errno),
    Checking,
    /// The cache file does not stand for the source: it is being removed.
    RemovingStale,
    ClosingSource,
    ClosingCache,
    /// The check failed with this error while both files were open: they
    /// are being closed, the source first.
    GivingUp(RError<Errno>),
    GivingUpCache(RError<Errno>),
    Over,
}

impl ValidatePhase {
    fn same(&self) -> (r: ValidatePhase)
        ensures
            r == *self,
    {
        match self {
            ValidatePhase::OpeningSource => ValidatePhase::OpeningSource,
            ValidatePhase::RemovingOrphan => ValidatePhase::RemovingOrphan,
            ValidatePhase::OpeningCache => ValidatePhase::OpeningCache,
            ValidatePhase::ClosingAfter(x) => ValidatePhase::ClosingAfter(*x),
            ValidatePhase::Checking => ValidatePhase::Checking,
            ValidatePhase::RemovingStale => ValidatePhase::RemovingStale,
            ValidatePhase::ClosingSource => ValidatePhase::ClosingSource,
            ValidatePhase::ClosingCache => ValidatePhase::ClosingCache,
            ValidatePhase::GivingUp(e) => ValidatePhase::GivingUp(e.same()),
            ValidatePhase::GivingUpCache(e) => ValidatePhase::GivingUpCache(e.same()),
            ValidatePhase::Over => ValidatePhase::Over,
        }
    }
}

/// The check whether the cache file of a path stands for its source file.
///
/// Without a source file there is nothing to stand for, and the cache file
/// is removed. Without a cache file the answer is no. With both, the answer
/// is yes where the caller vouches for the cache file (`assume_valid`), and
/// otherwise where the digest on the cache file is that of the source. A
/// cache file that fails the comparison is removed. With `check_only`
/// nothing is ever removed.
#[derive(Debug, PartialEq, Eq, Structural)]
pub struct Validate {
    pub assume_valid: bool,
    pub check_only: bool,
    /// The answer, once it is known.
    pub valid: bool,
    pub phase: ValidatePhase,
}

impl Validate {
    pub open spec fn at(self, phase: ValidatePhase, action: Action) -> (Validate, Step<bool>) {
        (Validate { phase, ..self }, Step::Do(action))
    }

    pub open spec fn over(self, result: Result<bool, RError<Errno>>) -> (Validate, Step<bool>) {
        (Validate { phase: ValidatePhase::Over, ..self }, Step::Finish(result))
    }

    /// The first step of a check.
    pub open spec fn begin_spec(assume_valid: bool, check_only: bool) -> (Validate, Step<bool>) {
        (
            Validate { assume_valid, check_only, valid: false, phase: ValidatePhase::OpeningSource },
            Step::Do(Action::Open { side: Side::Source, flags: O_RDONLY, mode: 0 }),
        )
    }

    /// The step once the answer is known: the files are closed.
    pub open spec fn judged(self, valid: bool) -> (Validate, Step<bool>) {
        (Validate { valid, ..self }).at(
            ValidatePhase::ClosingSource,
            Action::Close { side: Side::Source },
        )
    }

    /// The step that follows `reply`.
    pub open spec fn next(self, reply: Reply) -> (Validate, Step<bool>) {
        match self.phase {
            ValidatePhase::OpeningSource => match reply {
                Reply::Fd(_) => self.at(
                    ValidatePhase::OpeningCache,
                    Action::Open { side: Side::Cache, flags: O_RDONLY, mode: 0 },
                ),
                Reply::Failed(e) => if e != ENOENT {
                    self.over(Err(RError { e, traced: true }))
                } else if !self.check_only {
                    self.at(ValidatePhase::RemovingOrphan, Action::Unlink { side: Side::Cache })
                } else {
                    self.over(Ok(false))
                },
                _ => self.over(Err(failed_with(reply))),
            },
            ValidatePhase::RemovingOrphan => match reply {
                Reply::Done => self.over(Ok(false)),
                Reply::Failed(e) => if e == ENOENT {
                    self.over(Ok(false))
                } else {
                    self.over(Err(RError { e, traced: true }))
                },
                _ => self.over(Err(failed_with(reply))),
            },
            ValidatePhase::OpeningCache => match reply {
                Reply::Fd(_) => if self.assume_valid {
                    self.judged(true)
                } else {
                    self.at(ValidatePhase::Checking, Action::CheckPristine)
                },
                Reply::Failed(e) => self.at(
                    ValidatePhase::ClosingAfter(e),
                    Action::Close { side: Side::Source },
                ),
                _ => self.at(
                    ValidatePhase::GivingUpCache(failed_with(reply)),
                    Action::Close { side: Side::Source },
                ),
            },
            ValidatePhase::ClosingAfter(e) => match reply {
                Reply::Done => if e == ENOENT {
                    self.over(Ok(false))
                } else {
                    self.over(Err(RError { e, traced: true }))
                },
                _ => self.over(Err(failed_with(reply))),
            },
            ValidatePhase::Checking => match reply {
                Reply::Flag(pristine) => if pristine || self.check_only {
                    self.judged(pristine)
                } else {
                    self.at(ValidatePhase::RemovingStale, Action::Unlink { side: Side::Cache })
                },
                _ => self.at(
                    ValidatePhase::GivingUp(failed_with(reply)),
                    Action::Close { side: Side::Source },
                ),
            },
            ValidatePhase::RemovingStale => match reply {
                Reply::Done => self.judged(false),
                _ => self.at(
                    ValidatePhase::GivingUp(failed_with(reply)),
                    Action::Close { side: Side::Source },
                ),
            },
            ValidatePhase::ClosingSource => match reply {
                Reply::Done => self.at(
                    ValidatePhase::ClosingCache,
                    Action::Close { side: Side::Cache },
                ),
                _ => self.at(
                    ValidatePhase::GivingUpCache(failed_with(reply)),
                    Action::Close { side: Side::Cache },
                ),
            },
            ValidatePhase::ClosingCache => match reply {
                Reply::Done => self.over(Ok(self.valid)),
                _ => self.over(Err(failed_with(reply))),
            },
            ValidatePhase::GivingUp(e) => self.at(
                ValidatePhase::GivingUpCache(e),
                Action::Close { side: Side::Cache },
            ),
            ValidatePhase::GivingUpCache(e) => self.over(Err(e)),
            ValidatePhase::Over => self.over(Err(confused())),
        }
    }

    fn to(self, phase: ValidatePhase, action: Action) -> (r: (Validate, Step<bool>))
        ensures
            r == self.at(phase, action),
    {
        (Validate { phase, ..self }, Step::Do(action))
    }

    fn end(self, result: Result<bool, RError<Errno>>) -> (r: (Validate, Step<bool>))
        ensures
            r == self.over(result),
    {
        (Validate { phase: ValidatePhase::Over, ..self }, Step::Finish(result))
    }

    fn judge(self, valid: bool) -> (r: (Validate, Step<bool>))
        ensures
            r == self.judged(valid),
    {
        (Validate { valid, ..self }).to(
            ValidatePhase::ClosingSource,
            Action::Close { side: Side::Source },
        )
    }

    /// Begins a check.
    pub fn begin(assume_valid: bool, check_only: bool) -> (r: (Validate, Step<bool>))
        ensures
            r == Validate::begin_spec(assume_valid, check_only),
    {
        (
            Validate { assume_valid, check_only, valid: false, phase: ValidatePhase::OpeningSource },
            Step::Do(Action::Open { side: Side::Source, flags: O_RDONLY, mode: 0 }),
        )
    }

    /// Takes the reply to the last step and gives the next.
    ///
    /// A file that is not there is no failure: a missing source or cache
    /// file makes the answer no. Any other failure ends the check with an
    /// unexpected error, after the files that were opened are closed.
    pub fn step(&self, reply: Reply) -> (r: (Validate, Step<bool>))
        ensures
            r == self.next(reply),
    {
        let assume_valid = self.assume_valid;
        let check_only = self.check_only;
        let valid = self.valid;
        let phase = self.phase.same();
        let this = Validate { assume_valid, check_only, valid, phase: ValidatePhase::Over };
        proof {
            assert(forall|p: ValidatePhase, a: Action| this.at(p, a) == self.at(p, a));
            assert(forall|x: Result<bool, RError<Errno>>| this.over(x) == self.over(x));
            assert(forall|v: bool| this.judged(v) == self.judged(v));
        }
        match phase {
            ValidatePhase::OpeningSource => match reply {
                Reply::Fd(_) => this.to(
                    ValidatePhase::OpeningCache,
                    Action::Open { side: Side::Cache, flags: O_RDONLY, mode: 0 },
                ),
                Reply::Failed(e) => if e != ENOENT {
                    this.end(Err(RError::from(e)))
                } else if !check_only {
                    this.to(ValidatePhase::RemovingOrphan, Action::Unlink { side: Side::Cache })
                } else {
                    this.end(Ok(false))
                },
                other => this.end(Err(fail_with(other))),
            },
            ValidatePhase::RemovingOrphan => match reply {
                Reply::Done => this.end(Ok(false)),
                Reply::Failed(e) => if e == ENOENT {
                    this.end(Ok(false))
                } else {
                    this.end(Err(RError::from(e)))
                },
                other => this.end(Err(fail_with(other))),
            },
            ValidatePhase::OpeningCache => match reply {
                Reply::Fd(_) => if assume_valid {
                    this.judge(true)
                } else {
                    this.to(ValidatePhase::Checking, Action::CheckPristine)
                },
                Reply::Failed(e) => this.to(
                    ValidatePhase::ClosingAfter(e),
                    Action::Close { side: Side::Source },
                ),
                other => this.to(
                    ValidatePhase::GivingUpCache(fail_with(other)),
                    Action::Close { side: Side::Source },
                ),
            },
            ValidatePhase::ClosingAfter(e) => match reply {
                Reply::Done => if e == ENOENT {
                    this.end(Ok(false))
                } else {
                    this.end(Err(RError::from(e)))
                },
                other => this.end(Err(fail_with(other))),
            },
            ValidatePhase::Checking => match reply {
                Reply::Flag(pristine) => if pristine || check_only {
                    this.judge(pristine)
                } else {
                    this.to(ValidatePhase::RemovingStale, Action::Unlink { side: Side::Cache })
                },
                other => this.to(
                    ValidatePhase::GivingUp(fail_with(other)),
                    Action::Close { side: Side::Source },
                ),
            },
            ValidatePhase::RemovingStale => match reply {
                Reply::Done => this.judge(false),
                other => this.to(
                    ValidatePhase::GivingUp(fail_with(other)),
                    Action::Close { side: Side::Source },
                ),
            },
            ValidatePhase::ClosingSource => match reply {
                Reply::Done => this.to(
                    ValidatePhase::ClosingCache,
                    Action::Close { side: Side::Cache },
                ),
                other => this.to(
                    ValidatePhase::GivingUpCache(fail_with(other)),
                    Action::Close { side: Side::Cache },
                ),
            },
            ValidatePhase::ClosingCache => match reply {
                Reply::Done => this.end(Ok(valid)),
                other => this.end(Err(fail_with(other))),
            },
            ValidatePhase::GivingUp(e) => this.to(
                ValidatePhase::GivingUpCache(e),
                Action::Close { side: Side::Cache },
            ),
            ValidatePhase::GivingUpCache(e) => this.end(Err(e)),
            ValidatePhase::Over => this.end(Err(RError::from(EIO))),
        }
    }
}

/// The flags with which the cache file of a new file is opened: those asked
/// for, with reading added to writing, since what is written is read back
/// when it is flushed.
pub open spec fn create_cache_flags(flags: u32) -> u32 {
    promoted(flags)
}

/// The flags with which the cache file of an existing file is opened. A
/// cache file that does not stand for the source is filled anew: it is
/// created where it is missing and opened for writing too.
pub open spec fn open_cache_flags(flags: u32, valid: bool) -> u32 {
    if valid {
        promoted(flags)
    } else if (promoted(flags) | O_CREAT) & O_ACCMODE == O_RDONLY {
        rdwr(promoted(flags) | O_CREAT)
    } else {
        promoted(flags) | O_CREAT
    }
}

/// Whether the source file is opened at all: it is left alone where the
/// cache file stands for it and the file is only read.
pub open spec fn opens_source(flags: u32, valid: bool) -> bool {
    !(valid && promoted(flags) & O_ACCMODE == O_RDONLY)
}

/// Whether a page-in is started: the cache file has to be filled, and the
/// file is not cut to nothing by the opening itself.
pub open spec fn pages_in(flags: u32, valid: bool) -> bool {
    !valid && promoted(flags) & O_TRUNC == 0
}

/// Where the creating of a file stands.
#[derive(Debug, PartialEq, Eq, Structural)]
pub enum CreatePhase {
    MakingParents,
    OpeningSource,
    RemovingLeftover,
    OpeningCache,
    /// The creating failed with this error after the source was opened: the
    /// source is being closed.
    GivingUp(RError<Errno>),
    Over,
}

impl CreatePhase {
    fn same(&self) -> (r: CreatePhase)
        ensures
            r == *self,
    {
        match self {
            CreatePhase::MakingParents => CreatePhase::MakingParents,
            CreatePhase::OpeningSource => CreatePhase::OpeningSource,
            CreatePhase::RemovingLeftover => CreatePhase::RemovingLeftover,
            CreatePhase::OpeningCache => CreatePhase::OpeningCache,
            CreatePhase::GivingUp(e) => CreatePhase::GivingUp(e.same()),
            CreatePhase::Over => CreatePhase::Over,
        }
    }
}

/// The creating of a file in the source and in the cache.
///
/// The directories above the file are made in the cache. The source file is
/// created with the flags and the mode asked for. A cache file that is
/// there already is a leftover and is removed. Then the cache file is
/// created. The handle starts dirty: the cache file is marked pristine by
/// the first flush.
#[derive(Debug, PartialEq, Eq, Structural)]
pub struct Create {
    pub flags: u32,
    pub mode: u32,
    pub src_file: File,
    pub phase: CreatePhase,
}

impl Create {
    pub open spec fn at(self, phase: CreatePhase, action: Action) -> (Create, Step<Handle>) {
        (Create { phase, ..self }, Step::Do(action))
    }

    pub open spec fn over(self, result: Result<Handle, RError<Errno>>) -> (Create, Step<Handle>) {
        (Create { phase: CreatePhase::Over, ..self }, Step::Finish(result))
    }

    pub open spec fn open_source(self) -> (Create, Step<Handle>) {
        self.at(
            CreatePhase::OpeningSource,
            Action::Open { side: Side::Source, flags: self.flags, mode: self.mode },
        )
    }

    pub open spec fn open_cache(self) -> (Create, Step<Handle>) {
        self.at(
            CreatePhase::OpeningCache,
            Action::Open {
                side: Side::Cache,
                flags: create_cache_flags(self.flags),
                mode: self.mode,
            },
        )
    }

    pub open spec fn give_up(self, e: RError<Errno>) -> (Create, Step<Handle>) {
        self.at(CreatePhase::GivingUp(e), Action::Close { side: Side::Source })
    }

    /// The first step of the creating of a file that has a directory above
    /// it in the cache (`has_parent`) or lies in the root.
    pub open spec fn begin_spec(flags: u32, mode: u32, has_parent: bool) -> (Create, Step<Handle>) {
        let create = Create { flags, mode, src_file: File { fd: NO_FD }, phase: CreatePhase::Over };
        if has_parent {
            create.at(CreatePhase::MakingParents, Action::MakeParents)
        } else {
            create.open_source()
        }
    }

    /// The step that follows `reply`.
    pub open spec fn next(self, reply: Reply) -> (Create, Step<Handle>) {
        match self.phase {
            CreatePhase::MakingParents => match reply {
                Reply::Done => self.open_source(),
                _ => self.over(Err(failed_with(reply))),
            },
            CreatePhase::OpeningSource => match reply {
                Reply::Fd(fd) => if fd != NO_FD {
                    (Create { src_file: File { fd }, ..self }).at(
                        CreatePhase::RemovingLeftover,
                        Action::Unlink { side: Side::Cache },
                    )
                } else {
                    self.over(Err(confused()))
                },
                _ => self.over(Err(failed_with(reply))),
            },
            CreatePhase::RemovingLeftover => match reply {
                Reply::Done => self.open_cache(),
                Reply::Failed(e) => if e == ENOENT {
                    self.open_cache()
                } else {
                    self.give_up(RError { e, traced: true })
                },
                _ => self.give_up(failed_with(reply)),
            },
            CreatePhase::OpeningCache => match reply {
                Reply::Fd(fd) => if fd != NO_FD {
                    self.over(
                        Ok(
                            Handle {
                                src_file: self.src_file,
                                cache_file: File { fd },
                                dirty: true,
                                write_through_failed: false,
                                has_page_in_thread: false,
                            },
                        ),
                    )
                } else {
                    self.give_up(confused())
                },
                _ => self.give_up(failed_with(reply)),
            },
            CreatePhase::GivingUp(e) => (Create { src_file: File { fd: NO_FD }, ..self }).over(
                Err(e),
            ),
            CreatePhase::Over => self.over(Err(confused())),
        }
    }

    fn to(self, phase: CreatePhase, action: Action) -> (r: (Create, Step<Handle>))
        ensures
            r == self.at(phase, action),
    {
        (Create { phase, ..self }, Step::Do(action))
    }

    fn end(self, result: Result<Handle, RError<Errno>>) -> (r: (Create, Step<Handle>))
        ensures
            r == self.over(result),
    {
        (Create { phase: CreatePhase::Over, ..self }, Step::Finish(result))
    }

    /// Begins the creating of a file.
    pub fn begin(flags: u32, mode: u32, has_parent: bool) -> (r: (Create, Step<Handle>))
        ensures
            r == Create::begin_spec(flags, mode, has_parent),
    {
        let create = Create { flags, mode, src_file: File { fd: NO_FD }, phase: CreatePhase::Over };
        if has_parent {
            create.to(CreatePhase::MakingParents, Action::MakeParents)
        } else {
            create.to(
                CreatePhase::OpeningSource,
                Action::Open { side: Side::Source, flags, mode },
            )
        }
    }

    /// Takes the reply to the last step and gives the next.
    pub fn step(&self, reply: Reply) -> (r: (Create, Step<Handle>))
        ensures
            r == self.next(reply),
    {
        let flags = self.flags;
        let mode = self.mode;
        let src_file = self.src_file;
        let phase = self.phase.same();
        let this = Create { flags, mode, src_file, phase: CreatePhase::Over };
        proof {
            assert(forall|p: CreatePhase, a: Action| this.at(p, a) == self.at(p, a));
            assert(forall|x: Result<Handle, RError<Errno>>| this.over(x) == self.over(x));
        }
        let source = Action::Open { side: Side::Source, flags, mode };
        let cache = Action::Open { side: Side::Cache, flags: promote(flags), mode };
        let close = Action::Close { side: Side::Source };
        match phase {
            CreatePhase::MakingParents => match reply {
                Reply::Done => this.to(CreatePhase::OpeningSource, source),
                other => this.end(Err(fail_with(other))),
            },
            CreatePhase::OpeningSource => match reply {
                Reply::Fd(fd) => if fd != NO_FD {
                    (Create { src_file: File { fd }, ..this }).to(
                        CreatePhase::RemovingLeftover,
                        Action::Unlink { side: Side::Cache },
                    )
                } else {
                    this.end(Err(RError::from(EIO)))
                },
                other => this.end(Err(fail_with(other))),
            },
            CreatePhase::RemovingLeftover => match reply {
                Reply::Done => this.to(CreatePhase::OpeningCache, cache),
                Reply::Failed(e) => if e == ENOENT {
                    this.to(CreatePhase::OpeningCache, cache)
                } else {
                    this.to(CreatePhase::GivingUp(RError::from(e)), close)
                },
                other => this.to(CreatePhase::GivingUp(fail_with(other)), close),
            },
            CreatePhase::OpeningCache => match reply {
                Reply::Fd(fd) => if fd != NO_FD {
                    this.end(
                        Ok(
                            Handle {
                                src_file,
                                cache_file: File { fd },
                                dirty: true,
                                write_through_failed: false,
                                has_page_in_thread: false,
                            },
                        ),
                    )
                } else {
                    this.to(CreatePhase::GivingUp(RError::from(EIO)), close)
                },
                other => this.to(CreatePhase::GivingUp(fail_with(other)), close),
            },
            CreatePhase::GivingUp(e) => (Create { src_file: File { fd: NO_FD }, ..this }).end(
                Err(e),
            ),
            CreatePhase::Over => this.end(Err(RError::from(EIO))),
        }
    }
}

/// Where the opening of a file stands.
#[derive(Debug, PartialEq, Eq, Structural)]
pub enum OpenPhase {
    Validating,
    MakingParents,
    OpeningSource,
    OpeningCache,
    /// The opening failed with this error after the source was opened: the
    /// source is being closed.
    GivingUp(RError<Errno>),
    Over,
}

impl OpenPhase {
    fn same(&self) -> (r: OpenPhase)
        ensures
            r == *self,
    {
        match self {
            OpenPhase::Validating => OpenPhase::Validating,
            OpenPhase::MakingParents => OpenPhase::MakingParents,
            OpenPhase::OpeningSource => OpenPhase::OpeningSource,
            OpenPhase::OpeningCache => OpenPhase::OpeningCache,
            OpenPhase::GivingUp(e) => OpenPhase::GivingUp(e.same()),
            OpenPhase::Over => OpenPhase::Over,
        }
    }
}

/// The opening of a file that exists in the source.
///
/// The cache file is checked against the source, and removed where it does
/// not stand for it. A cache file that stands for the source serves a
/// reader alone: the source is not even opened. In every other case the
/// source is opened too. Where the cache file has to be filled, the handle
/// comes back with a page-in to start, unless the opening cuts the file to
/// nothing.
#[derive(Debug, PartialEq, Eq, Structural)]
pub struct Open {
    /// The flags asked for.
    pub flags: u32,
    /// Whether the caller vouches for a cache file that is there.
    pub cache_valid_if_present: bool,
    /// Whether the file has a directory above it in the cache.
    pub has_parent: bool,
    /// Whether the cache file stands for the source, once that is known.
    pub valid: bool,
    pub src_file: File,
    pub phase: OpenPhase,
}

impl Open {
    pub open spec fn at(self, phase: OpenPhase, action: Action) -> (Open, Step<Handle>) {
        (Open { phase, ..self }, Step::Do(action))
    }

    pub open spec fn over(self, result: Result<Handle, RError<Errno>>) -> (Open, Step<Handle>) {
        (Open { phase: OpenPhase::Over, ..self }, Step::Finish(result))
    }

    pub open spec fn open_cache(self) -> (Open, Step<Handle>) {
        self.at(
            OpenPhase::OpeningCache,
            Action::Open {
                side: Side::Cache,
                flags: open_cache_flags(self.flags, self.valid),
                mode: 0o666,
            },
        )
    }

    pub open spec fn open_files(self) -> (Open, Step<Handle>) {
        if opens_source(self.flags, self.valid) {
            self.at(
                OpenPhase::OpeningSource,
                Action::Open { side: Side::Source, flags: promoted(self.flags), mode: 0o666 },
            )
        } else {
            self.open_cache()
        }
    }

    /// The end of an opening that failed: the source is closed first where
    /// it was opened.
    pub open spec fn give_up(self, e: RError<Errno>) -> (Open, Step<Handle>) {
        if self.src_file.valid() {
            self.at(OpenPhase::GivingUp(e), Action::Close { side: Side::Source })
        } else {
            self.over(Err(e))
        }
    }

    /// The first step of an opening.
    pub open spec fn begin_spec(flags: u32, cache_valid_if_present: bool, has_parent: bool) -> (
        Open,
        Step<Handle>,
    ) {
        (
            Open {
                flags,
                cache_valid_if_present,
                has_parent,
                valid: false,
                src_file: File { fd: NO_FD },
                phase: OpenPhase::Validating,
            },
            Step::Do(Action::Validate { assume_valid: cache_valid_if_present, check_only: false }),
        )
    }

    /// The step that follows `reply`.
    pub open spec fn next(self, reply: Reply) -> (Open, Step<Handle>) {
        match self.phase {
            OpenPhase::Validating => match reply {
                Reply::Flag(valid) => if !valid && self.has_parent {
                    (Open { valid, ..self }).at(OpenPhase::MakingParents, Action::MakeParents)
                } else {
                    (Open { valid, ..self }).open_files()
                },
                _ => self.over(Err(failed_with(reply))),
            },
            OpenPhase::MakingParents => match reply {
                Reply::Done => self.open_files(),
                _ => self.over(Err(failed_with(reply))),
            },
            OpenPhase::OpeningSource => match reply {
                Reply::Fd(fd) => if fd != NO_FD {
                    (Open { src_file: File { fd }, ..self }).open_cache()
                } else {
                    self.over(Err(confused()))
                },
                _ => self.over(Err(failed_with(reply))),
            },
            OpenPhase::OpeningCache => match reply {
                Reply::Fd(fd) => if fd != NO_FD {
                    self.over(
                        Ok(
                            Handle {
                                src_file: self.src_file,
                                cache_file: File { fd },
                                dirty: false,
                                write_through_failed: false,
                                has_page_in_thread: pages_in(self.flags, self.valid),
                            },
                        ),
                    )
                } else {
                    self.give_up(confused())
                },
                _ => self.give_up(failed_with(reply)),
            },
            OpenPhase::GivingUp(e) => (Open { src_file: File { fd: NO_FD }, ..self }).over(Err(e)),
            OpenPhase::Over => self.over(Err(confused())),
        }
    }

    fn to(self, phase: OpenPhase, action: Action) -> (r: (Open, Step<Handle>))
        ensures
            r == self.at(phase, action),
    {
        (Open { phase, ..self }, Step::Do(action))
    }

    fn end(self, result: Result<Handle, RError<Errno>>) -> (r: (Open, Step<Handle>))
        ensures
            r == self.over(result),
    {
        (Open { phase: OpenPhase::Over, ..self }, Step::Finish(result))
    }

    fn cache(self) -> (r: (Open, Step<Handle>))
        ensures
            r == self.open_cache(),
    {
        let wanted = promote(self.flags);
        let flags = if self.valid {
            wanted
        } else if (wanted | O_CREAT) & O_ACCMODE == O_RDONLY {
            ((wanted | O_CREAT) & !O_ACCMODE) | O_RDWR
        } else {
            wanted | O_CREAT
        };
        self.to(OpenPhase::OpeningCache, Action::Open { side: Side::Cache, flags, mode: 0o666 })
    }

    fn files(self) -> (r: (Open, Step<Handle>))
        ensures
            r == self.open_files(),
    {
        let wanted = promote(self.flags);
        if self.valid && wanted & O_ACCMODE == O_RDONLY {
            self.cache()
        } else {
            self.to(
                OpenPhase::OpeningSource,
                Action::Open { side: Side::Source, flags: wanted, mode: 0o666 },
            )
        }
    }

    /// Begins the opening of a file.
    pub fn begin(flags: u32, cache_valid_if_present: bool, has_parent: bool) -> (r: (
        Open,
        Step<Handle>,
    ))
        ensures
            r == Open::begin_spec(flags, cache_valid_if_present, has_parent),
    {
        (
            Open {
                flags,
                cache_valid_if_present,
                has_parent,
                valid: false,
                src_file: File { fd: NO_FD },
                phase: OpenPhase::Validating,
            },
            Step::Do(Action::Validate { assume_valid: cache_valid_if_present, check_only: false }),
        )
    }

    /// Takes the reply to the last step and gives the next.
    pub fn step(&self, reply: Reply) -> (r: (Open, Step<Handle>))
        ensures
            r == self.next(reply),
    {
        let flags = self.flags;
        let cache_valid_if_present = self.cache_valid_if_present;
        let has_parent = self.has_parent;
        let valid = self.valid;
        let src_file = self.src_file;
        let phase = self.phase.same();
        let this = Open {
            flags,
            cache_valid_if_present,
            has_parent,
            valid,
            src_file,
            phase: OpenPhase::Over,
        };
        proof {
            assert(forall|p: OpenPhase, a: Action| this.at(p, a) == self.at(p, a));
            assert(forall|x: Result<Handle, RError<Errno>>| this.over(x) == self.over(x));
            assert(this.open_files() == self.open_files());
            assert(this.open_cache() == self.open_cache());
            assert(forall|e: RError<Errno>| this.give_up(e) == self.give_up(e));
        }
        match phase {
            OpenPhase::Validating => match reply {
                Reply::Flag(v) => if !v && has_parent {
                    (Open { valid: v, ..this }).to(OpenPhase::MakingParents, Action::MakeParents)
                } else {
                    (Open { valid: v, ..this }).files()
                },
                other => this.end(Err(fail_with(other))),
            },
            OpenPhase::MakingParents => match reply {
                Reply::Done => this.files(),
                other => this.end(Err(fail_with(other))),
            },
            OpenPhase::OpeningSource => match reply {
                Reply::Fd(fd) => if fd != NO_FD {
                    (Open { src_file: File { fd }, ..this }).cache()
                } else {
                    this.end(Err(RError::from(EIO)))
                },
                other => this.end(Err(fail_with(other))),
            },
            OpenPhase::OpeningCache => {
                let opened = match reply {
                    Reply::Fd(fd) => if fd != NO_FD {
                        Ok(fd)
                    } else {
                        Err(RError::from(EIO))
                    },
                    other => Err(fail_with(other)),
                };
                match opened {
                    Ok(fd) => {
                        let has_page_in_thread = !valid && promote(flags) & O_TRUNC == 0;
                        this.end(
                            Ok(
                                Handle {
                                    src_file,
                                    cache_file: File { fd },
                                    dirty: false,
                                    write_through_failed: false,
                                    has_page_in_thread,
                                },
                            ),
                        )
                    },
                    Err(e) => if src_file.valid() {
                        this.to(OpenPhase::GivingUp(e), Action::Close { side: Side::Source })
                    } else {
                        this.end(Err(e))
                    },
                }
            },
            OpenPhase::GivingUp(e) => (Open { src_file: File { fd: NO_FD }, ..this }).end(Err(e)),
            OpenPhase::Over => this.end(Err(RError::from(EIO))),
        }
    }
}

/// Where the reopening of a source file stands.
#[derive(Debug, Clone, Copy, PartialEq, Eq, Structural)]
pub enum ReopenPhase {
    Probing,
    AskingMode,
    Closing,
    Opening,
    Over,
}

/// The reopening of the source file of a handle: after a rename, under the
/// new path; after a write that the source refused, so that the source is
/// written from its start.
///
/// The source is opened as it was: for reading and writing, or for writing
/// alone where it cannot be read. With `create` it is created anew with the
/// permissions that it has. That the old descriptor cannot be closed for
/// want of support is no failure.
#[derive(Debug, Clone, Copy, PartialEq, Eq, Structural)]
pub struct Reopen {
    pub handle: Handle,
    pub create: bool,
    /// The flags for the opening, as far as they are known.
    pub flags: u32,
    /// The mode for the opening.
    pub mode: u32,
    pub phase: ReopenPhase,
}

impl Reopen {
    pub open spec fn at(self, phase: ReopenPhase, action: Action) -> (Reopen, Step<()>) {
        (Reopen { phase, ..self }, Step::Do(action))
    }

    pub open spec fn over(self, result: Result<(), RError<Errno>>) -> (Reopen, Step<()>) {
        (Reopen { phase: ReopenPhase::Over, ..self }, Step::Finish(result))
    }

    /// The reopening with the source file of the handle closed.
    pub open spec fn without_source(self) -> Reopen {
        Reopen { handle: Handle { src_file: File { fd: NO_FD }, ..self.handle }, ..self }
    }

    /// The step once it is known how the source was opened.
    pub open spec fn probed(self, flags: u32) -> (Reopen, Step<()>) {
        if self.create {
            (Reopen { flags, ..self }).at(ReopenPhase::AskingMode, Action::Mode { side: Side::Source })
        } else {
            (Reopen { flags, mode: 0, ..self }).at(
                ReopenPhase::Closing,
                Action::Close { side: Side::Source },
            )
        }
    }

    pub open spec fn open_again(self) -> (Reopen, Step<()>) {
        self.without_source().at(
            ReopenPhase::Opening,
            Action::Open { side: Side::Source, flags: self.flags, mode: self.mode },
        )
    }

    /// The first step of a reopening.
    pub open spec fn begin_spec(handle: Handle, create: bool) -> (Reopen, Step<()>) {
        (
            Reopen { handle, create, flags: O_RDWR, mode: 0, phase: ReopenPhase::Probing },
            Step::Do(Action::Probe { side: Side::Source }),
        )
    }

    /// The step that follows `reply`.
    pub open spec fn next(self, reply: Reply) -> (Reopen, Step<()>) {
        match self.phase {
            ReopenPhase::Probing => match reply {
                Reply::Done => self.probed(O_RDWR),
                Reply::Failed(e) => if e == EBADF {
                    self.probed(O_WRONLY)
                } else {
                    self.over(Err(RError { e, traced: true }))
                },
                _ => self.over(Err(failed_with(reply))),
            },
            ReopenPhase::AskingMode => match reply {
                Reply::Count(mode) => (Reopen {
                    mode: (mode as u32) & !S_IFMT,
                    flags: self.flags | O_CREAT,
                    ..self
                }).at(ReopenPhase::Closing, Action::Close { side: Side::Source }),
                _ => self.over(Err(failed_with(reply))),
            },
            ReopenPhase::Closing => match reply {
                Reply::Done => self.open_again(),
                Reply::Failed(e) => if e == ENOTSUP {
                    self.open_again()
                } else {
                    self.without_source().over(Err(RError { e, traced: true }))
                },
                _ => self.without_source().over(Err(failed_with(reply))),
            },
            ReopenPhase::Opening => match reply {
                Reply::Fd(fd) => if fd != NO_FD {
                    (Reopen { handle: Handle { src_file: File { fd }, ..self.handle }, ..self }).over(
                        Ok(()),
                    )
                } else {
                    self.over(Err(confused()))
                },
                _ => self.over(Err(failed_with(reply))),
            },
            ReopenPhase::Over => self.over(Err(confused())),
        }
    }

    fn to(self, phase: ReopenPhase, action: Action) -> (r: (Reopen, Step<()>))
        ensures
            r == self.at(phase, action),
    {
        (Reopen { phase, ..self }, Step::Do(action))
    }

    fn end(self, result: Result<(), RError<Errno>>) -> (r: (Reopen, Step<()>))
        ensures
            r == self.over(result),
    {
        (Reopen { phase: ReopenPhase::Over, ..self }, Step::Finish(result))
    }

    fn unsourced(self) -> (r: Reopen)
        ensures
            r == self.without_source(),
    {
        Reopen { handle: Handle { src_file: File { fd: NO_FD }, ..self.handle }, ..self }
    }

    fn after_probe(self, flags: u32) -> (r: (Reopen, Step<()>))
        ensures
            r == self.probed(flags),
    {
        if self.create {
            (Reopen { flags, ..self }).to(ReopenPhase::AskingMode, Action::Mode { side: Side::Source })
        } else {
            (Reopen { flags, mode: 0, ..self }).to(
                ReopenPhase::Closing,
                Action::Close { side: Side::Source },
            )
        }
    }

    fn again(self) -> (r: (Reopen, Step<()>))
        ensures
            r == self.open_again(),
    {
        let action = Action::Open { side: Side::Source, flags: self.flags, mode: self.mode };
        self.unsourced().to(ReopenPhase::Opening, action)
    }

    /// Begins the reopening of the source file of `handle`.
    pub fn begin(handle: Handle, create: bool) -> (r: (Reopen, Step<()>))
        ensures
            r == Reopen::begin_spec(handle, create),
    {
        (
            Reopen { handle, create, flags: O_RDWR, mode: 0, phase: ReopenPhase::Probing },
            Step::Do(Action::Probe { side: Side::Source }),
        )
    }

    /// Takes the reply to the last step and gives the next.
    pub fn step(self, reply: Reply) -> (r: (Reopen, Step<()>))
        ensures
            r == self.next(reply),
    {
        match self.phase {
            ReopenPhase::Probing => match reply {
                Reply::Done => self.after_probe(O_RDWR),
                Reply::Failed(e) => if e == EBADF {
                    self.after_probe(O_WRONLY)
                } else {
                    self.end(Err(RError::from(e)))
                },
                other => self.end(Err(fail_with(other))),
            },
            ReopenPhase::AskingMode => match reply {
                Reply::Count(mode) => (Reopen {
                    mode: (mode as u32) & !S_IFMT,
                    flags: self.flags | O_CREAT,
                    ..self
                }).to(ReopenPhase::Closing, Action::Close { side: Side::Source }),
                other => self.end(Err(fail_with(other))),
            },
            ReopenPhase::Closing => match reply {
                Reply::Done => self.again(),
                Reply::Failed(e) => if e == ENOTSUP {
                    self.again()
                } else {
                    self.unsourced().end(Err(RError::from(e)))
                },
                other => self.unsourced().end(Err(fail_with(other))),
            },
            ReopenPhase::Opening => match reply {
                Reply::Fd(fd) => if fd != NO_FD {
                    (Reopen { handle: Handle { src_file: File { fd }, ..self.handle }, ..self }).end(
                        Ok(()),
                    )
                } else {
                    self.end(Err(RError::from(EIO)))
                },
                other => self.end(Err(fail_with(other))),
            },
            ReopenPhase::Over => self.end(Err(RError::from(EIO))),
        }
    }
}

/// Where the marking of a cache file stands.
#[derive(Debug, PartialEq, Eq, Structural)]
pub enum MarkPhase {
    OpeningCache,
    OpeningSource,
    Marking,
    ClosingSource,
    ClosingCache,
    /// The marking failed with this error: the files are being closed, the
    /// source first where it is open.
    GivingUp(RError<Errno>),
    GivingUpCache(RError<Errno>),
    Over,
}

impl MarkPhase {
    fn same(&self) -> (r: MarkPhase)
        ensures
            r == *self,
    {
        match self {
            MarkPhase::OpeningCache => MarkPhase::OpeningCache,
            MarkPhase::OpeningSource => MarkPhase::OpeningSource,
            MarkPhase::Marking => MarkPhase::Marking,
            MarkPhase::ClosingSource => MarkPhase::ClosingSource,
            MarkPhase::ClosingCache => MarkPhase::ClosingCache,
            MarkPhase::GivingUp(e) => MarkPhase::GivingUp(e.same()),
            MarkPhase::GivingUpCache(e) => MarkPhase::GivingUpCache(e.same()),
            MarkPhase::Over => MarkPhase::Over,
        }
    }
}

/// The marking of the cache file of a path as pristine, for a file that is
/// not open: the two files are opened, the digest of the source is written
/// to the cache file, and the files are closed.
#[derive(Debug, PartialEq, Eq, Structural)]
pub struct MakePristine {
    pub phase: MarkPhase,
}

impl MakePristine {
    pub open spec fn at(phase: MarkPhase, action: Action) -> (MakePristine, Step<()>) {
        (MakePristine { phase }, Step::Do(action))
    }

    pub open spec fn over(result: Result<(), RError<Errno>>) -> (MakePristine, Step<()>) {
        (MakePristine { phase: MarkPhase::Over }, Step::Finish(result))
    }

    /// The first step of a marking.
    pub open spec fn begin_spec() -> (MakePristine, Step<()>) {
        MakePristine::at(
            MarkPhase::OpeningCache,
            Action::Open { side: Side::Cache, flags: O_WRONLY, mode: 0 },
        )
    }

    /// The step that follows `reply`.
    pub open spec fn next(self, reply: Reply) -> (MakePristine, Step<()>) {
        match self.phase {
            MarkPhase::OpeningCache => match reply {
                Reply::Fd(_) => MakePristine::at(
                    MarkPhase::OpeningSource,
                    Action::Open { side: Side::Source, flags: O_RDONLY, mode: 0 },
                ),
                _ => MakePristine::over(Err(failed_with(reply))),
            },
            MarkPhase::OpeningSource => match reply {
                Reply::Fd(_) => MakePristine::at(
                    MarkPhase::Marking,
                    Action::SetPristine { pristine: true },
                ),
                _ => MakePristine::at(
                    MarkPhase::GivingUpCache(failed_with(reply)),
                    Action::Close { side: Side::Cache },
                ),
            },
            MarkPhase::Marking => match reply {
                Reply::Done => MakePristine::at(
                    MarkPhase::ClosingSource,
                    Action::Close { side: Side::Source },
                ),
                _ => MakePristine::at(
                    MarkPhase::GivingUp(failed_with(reply)),
                    Action::Close { side: Side::Source },
                ),
            },
            MarkPhase::ClosingSource => match reply {
                Reply::Done => MakePristine::at(
                    MarkPhase::ClosingCache,
                    Action::Close { side: Side::Cache },
                ),
                _ => MakePristine::at(
                    MarkPhase::GivingUpCache(failed_with(reply)),
                    Action::Close { side: Side::Cache },
                ),
            },
            MarkPhase::ClosingCache => match reply {
                Reply::Done => MakePristine::over(Ok(())),
                _ => MakePristine::over(Err(failed_with(reply))),
            },
            MarkPhase::GivingUp(e) => MakePristine::at(
                MarkPhase::GivingUpCache(e),
                Action::Close { side: Side::Cache },
            ),
            MarkPhase::GivingUpCache(e) => MakePristine::over(Err(e)),
            MarkPhase::Over => MakePristine::over(Err(confused())),
        }
    }

    fn to(phase: MarkPhase, action: Action) -> (r: (MakePristine, Step<()>))
        ensures
            r == MakePristine::at(phase, action),
    {
        (MakePristine { phase }, Step::Do(action))
    }

    fn end(result: Result<(), RError<Errno>>) -> (r: (MakePristine, Step<()>))
        ensures
            r == MakePristine::over(result),
    {
        (MakePristine { phase: MarkPhase::Over }, Step::Finish(result))
    }

    /// Begins the marking.
    pub fn begin() -> (r: (MakePristine, Step<()>))
        ensures
            r == MakePristine::begin_spec(),
    {
        MakePristine::to(
            MarkPhase::OpeningCache,
            Action::Open { side: Side::Cache, flags: O_WRONLY, mode: 0 },
        )
    }

    /// Takes the reply to the last step and gives the next.
    pub fn step(&self, reply: Reply) -> (r: (MakePristine, Step<()>))
        ensures
            r == self.next(reply),
    {
        let close_source = Action::Close { side: Side::Source };
        let close_cache = Action::Close { side: Side::Cache };
        match self.phase.same() {
            MarkPhase::OpeningCache => match reply {
                Reply::Fd(_) => MakePristine::to(
                    MarkPhase::OpeningSource,
                    Action::Open { side: Side::Source, flags: O_RDONLY, mode: 0 },
                ),
                other => MakePristine::end(Err(fail_with(other))),
            },
            MarkPhase::OpeningSource => match reply {
                Reply::Fd(_) => MakePristine::to(
                    MarkPhase::Marking,
                    Action::SetPristine { pristine: true },
                ),
                other => MakePristine::to(MarkPhase::GivingUpCache(fail_with(other)), close_cache),
            },
            MarkPhase::Marking => match reply {
                Reply::Done => MakePristine::to(MarkPhase::ClosingSource, close_source),
                other => MakePristine::to(MarkPhase::GivingUp(fail_with(other)), close_source),
            },
            MarkPhase::ClosingSource => match reply {
                Reply::Done => MakePristine::to(MarkPhase::ClosingCache, close_cache),
                other => MakePristine::to(MarkPhase::GivingUpCache(fail_with(other)), close_cache),
            },
            MarkPhase::ClosingCache => match reply {
                Reply::Done => MakePristine::end(Ok(())),
                other => MakePristine::end(Err(fail_with(other))),
            },
            MarkPhase::GivingUp(e) => MakePristine::to(MarkPhase::GivingUpCache(e), close_cache),
            MarkPhase::GivingUpCache(e) => MakePristine::end(Err(e)),
            MarkPhase::Over => MakePristine::end(Err(RError::from(EIO))),
        }
    }
}

impl Handle {
    /// Begins the creating of a file with `flags` and `mode`; `has_parent`
    /// says whether there is a directory above it below the root.
    pub fn create(flags: u32, mode: u32, has_parent: bool) -> (r: (Create, Step<Handle>))
        ensures
            r == Create::begin_spec(flags, mode, has_parent),
    {
        Create::begin(flags, mode, has_parent)
    }

    /// Begins the opening of a file with `flags`.
    pub fn open(flags: u32, cache_valid_if_present: bool, has_parent: bool) -> (r: (
        Open,
        Step<Handle>,
    ))
        ensures
            r == Open::begin_spec(flags, cache_valid_if_present, has_parent),
    {
        Open::begin(flags, cache_valid_if_present, has_parent)
    }

    /// Begins the check whether the cache file of a path stands for its
    /// source file.
    pub fn validate_cache(cache_valid_if_present: bool, check_only: bool) -> (r: (
        Validate,
        Step<bool>,
    ))
        ensures
            r == Validate::begin_spec(cache_valid_if_present, check_only),
    {
        Validate::begin(cache_valid_if_present, check_only)
    }

    /// Begins the marking of the cache file of a path as pristine.
    pub fn make_pristine() -> (r: (MakePristine, Step<()>))
        ensures
            r == MakePristine::begin_spec(),
    {
        MakePristine::begin()
    }

    /// Begins the reopening of the source file.
    pub fn reopen_src(&self, create: bool) -> (r: (Reopen, Step<()>))
        ensures
            r == Reopen::begin_spec(*self, create),
    {
        Reopen::begin(*self, create)
    }
}

} // verus!

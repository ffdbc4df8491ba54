//! What this crate decides around single system calls: what a directory
//! entry says, and how a file is brought to a size.

use vstd::prelude::*;
use crate::errno::{Errno, DT_BLK, DT_CHR, DT_DIR, DT_FIFO, DT_LNK, EIO};
use crate::error::RError;
use crate::file::{confused, fail_with, failed_with, Reply};
use crate::stat::FileType;

verus! {

/// An entry of a directory, as `readdir` reports it.
#[derive(Debug, PartialEq, Eq)]
pub struct Dirent {
    /// The inode number.
    pub d_ino: u64,
    /// The place behind this entry in the directory, for a later `seekdir`.
    pub d_off: i64,
    /// The kind of file, as one of the `DT_` numbers.
    pub d_type: u8,
    /// The name.
    pub d_name: Vec<u8>,
}

/// The kind of file that a `DT_` number stands for; what is not known as
/// anything else counts as a regular file.
pub open spec fn kind_of(d_type: u8) -> FileType {
    if d_type == DT_BLK {
        FileType::BlockDevice
    } else if d_type == DT_CHR {
        FileType::CharDevice
    } else if d_type == DT_DIR {
        FileType::Directory
    } else if d_type == DT_FIFO {
        FileType::NamedPipe
    } else if d_type == DT_LNK {
        FileType::Symlink
    } else {
        FileType::RegularFile
    }
}

impl Dirent {
    pub fn ino(&self) -> (r: u64)
        ensures
            r == self.d_ino,
    {
        self.d_ino
    }

    pub fn off(&self) -> (r: i64)
        ensures
            r == self.d_off,
    {
        self.d_off
    }

    pub fn kind(&self) -> (r: FileType)
        ensures
            r == kind_of(self.d_type),
    {
        if self.d_type == DT_BLK {
            FileType::BlockDevice
        } else if self.d_type == DT_CHR {
            FileType::CharDevice
        } else if self.d_type == DT_DIR {
            FileType::Directory
        } else if self.d_type == DT_FIFO {
            FileType::NamedPipe
        } else if self.d_type == DT_LNK {
            FileType::Symlink
        } else {
            FileType::RegularFile
        }
    }

    pub fn name(&self) -> (r: &Vec<u8>)
        ensures
            r@ == self.d_name@,
    {
        &self.d_name
    }
}

/// A call for the caller to make on the file that is sized.
#[derive(Debug, Clone, Copy, PartialEq, Eq, Structural)]
pub enum SizeAction {
    /// Ask for the size of the file. Answered by `Count` or `Failed`.
    Size,
    /// Have `len` bytes from `offset` on allotted to the file. Answered by
    /// `Done` or `Failed`.
    Allocate { offset: u64, len: u64 },
    /// Cut or stretch the file to `size` bytes. Answered by `Done` or
    /// `Failed`.
    Truncate { size: u64 },
}

/// What a sizing asks for next, or what it came to.
#[derive(Debug, PartialEq, Eq)]
pub enum SizeStep {
    Do(SizeAction),
    Finish(Result<(), RError<Errno>>),
}


/// Where a sizing stands.
#[derive(Debug, Clone, Copy, PartialEq, Eq, Structural)]
pub enum SizePhase {
    Asking,
    Allocating,
    Truncating,
    Over,
}

/// The bringing of a file to a size.
///
/// A file that is to grow has the missing bytes allotted to it; where the
/// filesystem refuses that, the file is stretched by truncation instead. A
/// file that is not to grow is cut by truncation.
#[derive(Debug, Clone, Copy, PartialEq, Eq, Structural)]
pub struct SetSize {
    pub size: u64,
    /// The size that the file had.
    pub old_size: u64,
    pub phase: SizePhase,
}

impl SetSize {
    pub open spec fn over(self, result: Result<(), RError<Errno>>) -> (SetSize, SizeStep) {
        (SetSize { phase: SizePhase::Over, ..self }, SizeStep::Finish(result))
    }

    pub open spec fn truncate(self) -> (SetSize, SizeStep) {
        (
            SetSize { phase: SizePhase::Truncating, ..self },
            SizeStep::Do(SizeAction::Truncate { size: self.size }),
        )
    }

    /// The first step of a sizing.
    pub open spec fn begin_spec(size: u64) -> (SetSize, SizeStep) {
        (SetSize { size, old_size: 0, phase: SizePhase::Asking }, SizeStep::Do(SizeAction::Size))
    }

    /// The step that follows `reply`.
    pub open spec fn next(self, reply: Reply) -> (SetSize, SizeStep) {
        match self.phase {
            SizePhase::Asking => match reply {
                Reply::Count(old_size) => if self.size > old_size {
                    (
                        SetSize { old_size, phase: SizePhase::Allocating, ..self },
                        SizeStep::Do(
                            SizeAction::Allocate {
                                offset: old_size,
                                len: (self.size - old_size) as u64,
                            },
                        ),
                    )
                } else {
                    (SetSize { old_size, ..self }).truncate()
                },
                _ => self.over(Err(failed_with(reply))),
            },
            SizePhase::Allocating => match reply {
                Reply::Done => self.over(Ok(())),
                _ => self.truncate(),
            },
            SizePhase::Truncating => match reply {
                Reply::Done => self.over(Ok(())),
                _ => self.over(Err(failed_with(reply))),
            },
            SizePhase::Over => self.over(Err(confused())),
        }
    }

    fn end(self, result: Result<(), RError<Errno>>) -> (r: (SetSize, SizeStep))
        ensures
            r == self.over(result),
    {
        (SetSize { phase: SizePhase::Over, ..self }, SizeStep::Finish(result))
    }

    fn cut(self) -> (r: (SetSize, SizeStep))
        ensures
            r == self.truncate(),
    {
        (
            SetSize { phase: SizePhase::Truncating, ..self },
            SizeStep::Do(SizeAction::Truncate { size: self.size }),
        )
    }

    /// Begins the bringing of a file to `size` bytes.
    pub fn begin(size: u64) -> (r: (SetSize, SizeStep))
        ensures
            r == SetSize::begin_spec(size),
    {
        (SetSize { size, old_size: 0, phase: SizePhase::Asking }, SizeStep::Do(SizeAction::Size))
    }

    /// Takes the reply to the last step and gives the next. The error of a
    /// sizing is that of the truncation.
    pub fn step(self, reply: Reply) -> (r: (SetSize, SizeStep))
        ensures
            r == self.next(reply),
    {
        match self.phase {
            SizePhase::Asking => match reply {
                Reply::Count(old_size) => if self.size > old_size {
                    (
                        SetSize { old_size, phase: SizePhase::Allocating, ..self },
                        SizeStep::Do(
                            SizeAction::Allocate { offset: old_size, len: self.size - old_size },
                        ),
                    )
                } else {
                    (SetSize { old_size, ..self }).cut()
                },
                other => self.end(Err(fail_with(other))),
            },
            SizePhase::Allocating => match reply {
                Reply::Done => self.end(Ok(())),
                _ => self.cut(),
            },
            SizePhase::Truncating => match reply {
                Reply::Done => self.end(Ok(())),
                other => self.end(Err(fail_with(other))),
            },
            SizePhase::Over => self.end(Err(RError::from(EIO))),
        }
    }
}

/// What a failed call to make one directory comes to when the directories
/// above a file are made: that the directory exists is no failure.
pub fn made(result: Result<(), Errno>) -> (r: Result<(), Errno>)
    ensures
        r == (match result {
            Err(e) => if e == crate::errno::EEXIST {
                Ok::<(), Errno>(())
            } else {
                Err(e)
            },
            Ok(()) => Ok(()),
        }),
{
    match result {
        Err(e) => if e == crate::errno::EEXIST {
            Ok(())
        } else {
            Err(e)
        },
        Ok(()) => Ok(()),
    }
}

/// Whether there is a file, told from how asking for it went: one that is
/// not found is not there, and any other failure is an unexpected error.
pub fn existat(stat: Result<(), Errno>) -> (r: Result<bool, RError<Errno>>)
    ensures
        r == (match stat {
            Ok(()) => Ok::<bool, RError<Errno>>(true),
            Err(e) => if e == crate::errno::ENOENT {
                Ok(false)
            } else {
                Err(RError { e, traced: true })
            },
        }),
{
    match stat {
        Ok(()) => Ok(true),
        Err(e) => if e == crate::errno::ENOENT {
            Ok(false)
        } else {
            Err(RError::from(e))
        },
    }
}

} // verus!

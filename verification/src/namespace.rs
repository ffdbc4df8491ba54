//! Changes to names: removing, renaming and resizing a file by its path, in
//! the source and in the cache.

use vstd::prelude::*;
use crate::errno::{Errno, EIO, ENOENT, O_WRONLY};
use crate::error::RError;
use crate::file::{confused, fail_with, failed_with, Handle, Reply, Side};

verus! {

/// A call for the caller to make on a path below the root of a side.
#[derive(Debug, Clone, Copy, PartialEq, Eq, Structural)]
pub enum NameAction {
    /// Remove the file, or with `dir` the directory. Answered by `Done` or
    /// `Failed`.
    Remove { side: Side, dir: bool },
    /// Give the file its new path. Answered by `Done` or `Failed`.
    Rename { side: Side },
    /// Ask whether there is a file under the old path. Answered by `Flag`,
    /// or by `Failed` where that cannot be told.
    Exists { side: Side },
    /// Make the directories above the new path in the cache, with mode
    /// 0777. Answered by `Done` or `Failed`.
    MakeParents,
    /// Open the file for writing. Answered by `Fd` or `Failed`.
    Open { side: Side, flags: u32 },
    /// Make the open file `size` bytes long. Answered by `Done` or `Error`.
    SetSize { side: Side, size: u64 },
    /// Close the open file. Answered by `Done` or `Failed`.
    Close { side: Side },
}

/// What a change asks for next, or what it came to.
#[derive(Debug, PartialEq, Eq)]
pub enum NameStep {
    Do(NameAction),
    Finish(Result<(), RError<Errno>>),
}


/// Where a removal stands.
#[derive(Debug, Clone, Copy, PartialEq, Eq, Structural)]
pub enum RemovePhase {
    Cache,
    Source,
    Over,
}

/// The removal of a file or of a directory.
///
/// It is removed from the cache first, where it need not be, and then from
/// the source. A cache that refuses keeps the source untouched; the error
/// of the source is the error of the removal.
#[derive(Debug, Clone, Copy, PartialEq, Eq, Structural)]
pub struct Remove {
    pub dir: bool,
    pub phase: RemovePhase,
}

impl Remove {
    pub open spec fn over(self, result: Result<(), RError<Errno>>) -> (Remove, NameStep) {
        (Remove { phase: RemovePhase::Over, ..self }, NameStep::Finish(result))
    }

    pub open spec fn from_source(self) -> (Remove, NameStep) {
        (
            Remove { phase: RemovePhase::Source, ..self },
            NameStep::Do(NameAction::Remove { side: Side::Source, dir: self.dir }),
        )
    }

    /// The first step of a removal.
    pub open spec fn begin_spec(dir: bool) -> (Remove, NameStep) {
        (
            Remove { dir, phase: RemovePhase::Cache },
            NameStep::Do(NameAction::Remove { side: Side::Cache, dir }),
        )
    }

    /// The step that follows `reply`. The errors of a removal are expected
    /// ones: they are reported under their own numbers.
    pub open spec fn next(self, reply: Reply) -> (Remove, NameStep) {
        match self.phase {
            RemovePhase::Cache => match reply {
                Reply::Done => self.from_source(),
                Reply::Failed(e) => if e == ENOENT {
                    self.from_source()
                } else {
                    self.over(Err(RError { e, traced: false }))
                },
                _ => self.over(Err(failed_with(reply))),
            },
            RemovePhase::Source => match reply {
                Reply::Done => self.over(Ok(())),
                Reply::Failed(e) => self.over(Err(RError { e, traced: false })),
                _ => self.over(Err(failed_with(reply))),
            },
            RemovePhase::Over => self.over(Err(confused())),
        }
    }

    fn end(self, result: Result<(), RError<Errno>>) -> (r: (Remove, NameStep))
        ensures
            r == self.over(result),
    {
        (Remove { phase: RemovePhase::Over, ..self }, NameStep::Finish(result))
    }

    fn source(self) -> (r: (Remove, NameStep))
        ensures
            r == self.from_source(),
    {
        (
            Remove { phase: RemovePhase::Source, ..self },
            NameStep::Do(NameAction::Remove { side: Side::Source, dir: self.dir }),
        )
    }

    /// Begins the removal of a file, or with `dir` of a directory.
    pub fn begin(dir: bool) -> (r: (Remove, NameStep))
        ensures
            r == Remove::begin_spec(dir),
    {
        (
            Remove { dir, phase: RemovePhase::Cache },
            NameStep::Do(NameAction::Remove { side: Side::Cache, dir }),
        )
    }

    /// Takes the reply to the last step and gives the next.
    pub fn step(self, reply: Reply) -> (r: (Remove, NameStep))
        ensures
            r == self.next(reply),
    {
        match self.phase {
            RemovePhase::Cache => match reply {
                Reply::Done => self.source(),
                Reply::Failed(e) => if e == ENOENT {
                    self.source()
                } else {
                    self.end(Err(RError::propagate(e)))
                },
                other => self.end(Err(fail_with(other))),
            },
            RemovePhase::Source => match reply {
                Reply::Done => self.end(Ok(())),
                Reply::Failed(e) => self.end(Err(RError::propagate(e))),
                other => self.end(Err(fail_with(other))),
            },
            RemovePhase::Over => self.end(Err(RError::from(EIO))),
        }
    }
}

/// Where a renaming stands.
#[derive(Debug, Clone, Copy, PartialEq, Eq, Structural)]
pub enum RenamePhase {
    Source,
    /// The source said the renaming failed with this error: the old path is
    /// looked for.
    ProbingSource(Errno),
    LookingInCache,
    MakingParents,
    Cache,
    ProbingCache(Errno),
    Over,
}

/// The renaming of a file or directory.
///
/// The source is renamed first: it may refuse, and then nothing has
/// happened. What the cache holds under the old path follows under the new
/// one, below directories that are made for it. A source on a network may
/// say that a renaming failed that has happened: after a failure the old
/// path is looked for, and the renaming counts as done where it is gone.
#[derive(Debug, Clone, Copy, PartialEq, Eq, Structural)]
pub struct Rename {
    /// Whether the new path has a directory above it.
    pub has_parent: bool,
    pub phase: RenamePhase,
}

impl Rename {
    pub open spec fn at(self, phase: RenamePhase, action: NameAction) -> (Rename, NameStep) {
        (Rename { phase, ..self }, NameStep::Do(action))
    }

    pub open spec fn over(self, result: Result<(), RError<Errno>>) -> (Rename, NameStep) {
        (Rename { phase: RenamePhase::Over, ..self }, NameStep::Finish(result))
    }

    pub open spec fn look_in_cache(self) -> (Rename, NameStep) {
        self.at(RenamePhase::LookingInCache, NameAction::Exists { side: Side::Cache })
    }

    pub open spec fn rename_cache(self) -> (Rename, NameStep) {
        self.at(RenamePhase::Cache, NameAction::Rename { side: Side::Cache })
    }

    /// What the look for the old path says of a renaming that was reported
    /// as failed with `e`: `None` where it has happened after all.
    pub open spec fn probe(e: Errno, reply: Reply) -> Option<RError<Errno>> {
        match reply {
            Reply::Flag(exists) => if exists {
                Some(RError { e, traced: true })
            } else {
                None
            },
            Reply::Failed(p) => if p == ENOENT {
                None
            } else {
                Some(RError { e: p, traced: true })
            },
            _ => Some(failed_with(reply)),
        }
    }

    /// The first step of a renaming.
    pub open spec fn begin_spec(has_parent: bool) -> (Rename, NameStep) {
        (
            Rename { has_parent, phase: RenamePhase::Source },
            NameStep::Do(NameAction::Rename { side: Side::Source }),
        )
    }

    /// The step that follows `reply`.
    pub open spec fn next(self, reply: Reply) -> (Rename, NameStep) {
        match self.phase {
            RenamePhase::Source => match reply {
                Reply::Done => self.look_in_cache(),
                Reply::Failed(e) => self.at(
                    RenamePhase::ProbingSource(e),
                    NameAction::Exists { side: Side::Source },
                ),
                _ => self.over(Err(failed_with(reply))),
            },
            RenamePhase::ProbingSource(e) => match Rename::probe(e, reply) {
                None => self.look_in_cache(),
                Some(err) => self.over(Err(err)),
            },
            RenamePhase::LookingInCache => match reply {
                Reply::Flag(exists) => if !exists {
                    self.over(Ok(()))
                } else if self.has_parent {
                    self.at(RenamePhase::MakingParents, NameAction::MakeParents)
                } else {
                    self.rename_cache()
                },
                Reply::Failed(e) => if e == ENOENT {
                    self.over(Ok(()))
                } else {
                    self.over(Err(RError { e, traced: true }))
                },
                _ => self.over(Err(failed_with(reply))),
            },
            RenamePhase::MakingParents => match reply {
                Reply::Done => self.rename_cache(),
                _ => self.over(Err(failed_with(reply))),
            },
            RenamePhase::Cache => match reply {
                Reply::Done => self.over(Ok(())),
                Reply::Failed(e) => self.at(
                    RenamePhase::ProbingCache(e),
                    NameAction::Exists { side: Side::Cache },
                ),
                _ => self.over(Err(failed_with(reply))),
            },
            RenamePhase::ProbingCache(e) => match Rename::probe(e, reply) {
                None => self.over(Ok(())),
                Some(err) => self.over(Err(err)),
            },
            RenamePhase::Over => self.over(Err(confused())),
        }
    }

    fn to(self, phase: RenamePhase, action: NameAction) -> (r: (Rename, NameStep))
        ensures
            r == self.at(phase, action),
    {
        (Rename { phase, ..self }, NameStep::Do(action))
    }

    fn end(self, result: Result<(), RError<Errno>>) -> (r: (Rename, NameStep))
        ensures
            r == self.over(result),
    {
        (Rename { phase: RenamePhase::Over, ..self }, NameStep::Finish(result))
    }

    fn probed(e: Errno, reply: Reply) -> (r: Option<RError<Errno>>)
        ensures
            r == Rename::probe(e, reply),
    {
        match reply {
            Reply::Flag(exists) => if exists {
                Some(RError::from(e))
            } else {
                None
            },
            Reply::Failed(p) => if p == ENOENT {
                None
            } else {
                Some(RError::from(p))
            },
            other => Some(fail_with(other)),
        }
    }

    /// Begins a renaming.
    pub fn begin(has_parent: bool) -> (r: (Rename, NameStep))
        ensures
            r == Rename::begin_spec(has_parent),
    {
        (
            Rename { has_parent, phase: RenamePhase::Source },
            NameStep::Do(NameAction::Rename { side: Side::Source }),
        )
    }

    /// Takes the reply to the last step and gives the next.
    pub fn step(self, reply: Reply) -> (r: (Rename, NameStep))
        ensures
            r == self.next(reply),
    {
        let look = NameAction::Exists { side: Side::Cache };
        let cache = NameAction::Rename { side: Side::Cache };
        match self.phase {
            RenamePhase::Source => match reply {
                Reply::Done => self.to(RenamePhase::LookingInCache, look),
                Reply::Failed(e) => self.to(
                    RenamePhase::ProbingSource(e),
                    NameAction::Exists { side: Side::Source },
                ),
                other => self.end(Err(fail_with(other))),
            },
            RenamePhase::ProbingSource(e) => match Rename::probed(e, reply) {
                None => self.to(RenamePhase::LookingInCache, look),
                Some(err) => self.end(Err(err)),
            },
            RenamePhase::LookingInCache => match reply {
                Reply::Flag(exists) => if !exists {
                    self.end(Ok(()))
                } else if self.has_parent {
                    self.to(RenamePhase::MakingParents, NameAction::MakeParents)
                } else {
                    self.to(RenamePhase::Cache, cache)
                },
                Reply::Failed(e) => if e == ENOENT {
                    self.end(Ok(()))
                } else {
                    self.end(Err(RError::from(e)))
                },
                other => self.end(Err(fail_with(other))),
            },
            RenamePhase::MakingParents => match reply {
                Reply::Done => self.to(RenamePhase::Cache, cache),
                other => self.end(Err(fail_with(other))),
            },
            RenamePhase::Cache => match reply {
                Reply::Done => self.end(Ok(())),
                Reply::Failed(e) => self.to(RenamePhase::ProbingCache(e), look),
                other => self.end(Err(fail_with(other))),
            },
            RenamePhase::ProbingCache(e) => match Rename::probed(e, reply) {
                None => self.end(Ok(())),
                Some(err) => self.end(Err(err)),
            },
            RenamePhase::Over => self.end(Err(RError::from(EIO))),
        }
    }
}

/// Where a resizing stands.
#[derive(Debug, PartialEq, Eq, Structural)]
pub enum ResizePhase {
    Opening(Side),
    Sizing(Side),
    Closing(Side),
    /// The sizing failed with this error: the file is being closed.
    GivingUp(RError<Errno>),
    Over,
}

impl ResizePhase {
    fn same(&self) -> (r: ResizePhase)
        ensures
            r == *self,
    {
        match self {
            ResizePhase::Opening(x) => ResizePhase::Opening(*x),
            ResizePhase::Sizing(x) => ResizePhase::Sizing(*x),
            ResizePhase::Closing(x) => ResizePhase::Closing(*x),
            ResizePhase::GivingUp(e) => ResizePhase::GivingUp(e.same()),
            ResizePhase::Over => ResizePhase::Over,
        }
    }
}

/// The setting of the size of a file that is not open.
///
/// The source file is given the size, then the cache file where there is
/// one.
#[derive(Debug, PartialEq, Eq, Structural)]
pub struct Resize {
    pub size: u64,
    pub phase: ResizePhase,
}

impl Resize {
    pub open spec fn at(self, phase: ResizePhase, action: NameAction) -> (Resize, NameStep) {
        (Resize { phase, ..self }, NameStep::Do(action))
    }

    pub open spec fn over(self, result: Result<(), RError<Errno>>) -> (Resize, NameStep) {
        (Resize { phase: ResizePhase::Over, ..self }, NameStep::Finish(result))
    }

    pub open spec fn open_side(self, side: Side) -> (Resize, NameStep) {
        self.at(ResizePhase::Opening(side), NameAction::Open { side, flags: O_WRONLY })
    }

    /// The first step of a resizing.
    pub open spec fn begin_spec(size: u64) -> (Resize, NameStep) {
        (Resize { size, phase: ResizePhase::Over }).open_side(Side::Source)
    }

    /// The step that follows `reply`.
    pub open spec fn next(self, reply: Reply) -> (Resize, NameStep) {
        match self.phase {
            ResizePhase::Opening(side) => match reply {
                Reply::Fd(_) => self.at(
                    ResizePhase::Sizing(side),
                    NameAction::SetSize { side, size: self.size },
                ),
                Reply::Failed(e) => if side == Side::Cache && e == ENOENT {
                    self.over(Ok(()))
                } else {
                    self.over(Err(RError { e, traced: true }))
                },
                _ => self.over(Err(failed_with(reply))),
            },
            ResizePhase::Sizing(side) => match reply {
                Reply::Done => self.at(ResizePhase::Closing(side), NameAction::Close { side }),
                _ => self.at(ResizePhase::GivingUp(failed_with(reply)), NameAction::Close { side }),
            },
            ResizePhase::Closing(side) => match reply {
                Reply::Done => if side == Side::Source {
                    self.open_side(Side::Cache)
                } else {
                    self.over(Ok(()))
                },
                _ => self.over(Err(failed_with(reply))),
            },
            ResizePhase::GivingUp(e) => self.over(Err(e)),
            ResizePhase::Over => self.over(Err(confused())),
        }
    }

    fn to(self, phase: ResizePhase, action: NameAction) -> (r: (Resize, NameStep))
        ensures
            r == self.at(phase, action),
    {
        (Resize { phase, ..self }, NameStep::Do(action))
    }

    fn end(self, result: Result<(), RError<Errno>>) -> (r: (Resize, NameStep))
        ensures
            r == self.over(result),
    {
        (Resize { phase: ResizePhase::Over, ..self }, NameStep::Finish(result))
    }

    /// Begins the setting of the size of a file to `size`.
    pub fn begin(size: u64) -> (r: (Resize, NameStep))
        ensures
            r == Resize::begin_spec(size),
    {
        (Resize { size, phase: ResizePhase::Over }).to(
            ResizePhase::Opening(Side::Source),
            NameAction::Open { side: Side::Source, flags: O_WRONLY },
        )
    }

    /// Takes the reply to the last step and gives the next.
    pub fn step(&self, reply: Reply) -> (r: (Resize, NameStep))
        ensures
            r == self.next(reply),
    {
        let size = self.size;
        let phase = self.phase.same();
        let this = Resize { size, phase: ResizePhase::Over };
        proof {
            assert(forall|p: ResizePhase, a: NameAction| this.at(p, a) == self.at(p, a));
            assert(forall|x: Result<(), RError<Errno>>| this.over(x) == self.over(x));
            assert(forall|s: Side| this.open_side(s) == self.open_side(s));
        }
        match phase {
            ResizePhase::Opening(side) => match reply {
                Reply::Fd(_) => this.to(ResizePhase::Sizing(side), NameAction::SetSize { side, size }),
                Reply::Failed(e) => {
                    let cache = match side {
                        Side::Cache => true,
                        Side::Source => false,
                    };
                    if cache && e == ENOENT {
                        this.end(Ok(()))
                    } else {
                        this.end(Err(RError::from(e)))
                    }
                },
                other => this.end(Err(fail_with(other))),
            },
            ResizePhase::Sizing(side) => match reply {
                Reply::Done => this.to(ResizePhase::Closing(side), NameAction::Close { side }),
                other => this.to(ResizePhase::GivingUp(fail_with(other)), NameAction::Close { side }),
            },
            ResizePhase::Closing(side) => match reply {
                Reply::Done => match side {
                    Side::Source => this.to(
                        ResizePhase::Opening(Side::Cache),
                        NameAction::Open { side: Side::Cache, flags: O_WRONLY },
                    ),
                    Side::Cache => this.end(Ok(())),
                },
                other => this.end(Err(fail_with(other))),
            },
            ResizePhase::GivingUp(e) => this.end(Err(e)),
            ResizePhase::Over => this.end(Err(RError::from(EIO))),
        }
    }
}

impl Handle {
    /// Begins the removal of a file from the cache and from the source.
    pub fn unlink() -> (r: (Remove, NameStep))
        ensures
            r == Remove::begin_spec(false),
    {
        Remove::begin(false)
    }
}

} // verus!

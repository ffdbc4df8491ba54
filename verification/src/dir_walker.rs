//! The walk over all regular files below a directory.

use vstd::prelude::*;
use crate::bytes::{copy_range, views};
use crate::errno::{Errno, DT_DIR, DT_REG, DT_UNKNOWN, S_IFDIR, S_IFMT, S_IFREG};
use crate::path::{child_path, get_child_name};

verus! {

/// What the caller reports to the walk.
#[derive(Debug, PartialEq, Eq)]
pub enum WalkEvent {
    /// The directory that was asked for is open.
    Opened,
    /// The open directory gave an entry of this kind, one of the `DT_`
    /// numbers, and name.
    Entry { d_type: u8, name: Vec<u8> },
    /// The file that was asked about has this mode.
    Mode(u32),
    /// The open directory has no more entries.
    EndOfDir,
    /// The open directory is closed.
    Closed,
    /// The last call failed.
    Failed(Errno),
}

/// What the walk asks for, or gives.
#[derive(Debug, PartialEq, Eq)]
pub enum WalkStep {
    /// Open the directory at this path; the empty path is the root.
    Open(Vec<u8>),
    /// Read the next entry of the open directory.
    Read,
    /// Ask for the mode of the file at this path, and report it as
    /// [`WalkEvent::Mode`].
    Stat(Vec<u8>),
    /// Close the open directory.
    Close,
    /// This is the path of the next file. Ask on with [`DirWalker::resume`].
    Yield(Vec<u8>),
    /// There are no more files.
    End,
    /// The walk failed with this error, and is over.
    Fail(Errno),
}

/// A walk that gives the relative paths of all regular files below a
/// directory.
///
/// An entry that is a directory is walked later, an entry that is a regular
/// file is given, and an entry of any other kind is passed over. Of an
/// entry whose kind the directory does not tell, the mode is asked for, and
/// the mode decides. The files of a directory come before those of the
/// directories in it, and of those the one found last is walked first. The
/// entries `.` and `..` are passed over.
#[derive(Debug)]
pub struct DirWalker {
    /// The path of the directory that is open.
    cur_path: Vec<u8>,
    /// The directories that are still to be walked.
    stack: Vec<Vec<u8>>,
    /// The path whose mode was asked for.
    pending: Option<Vec<u8>>,
    /// Whether the walk is over.
    over: bool,
}

/// What a walk holds, as plain values.
pub struct WalkerView {
    pub cur_path: Seq<u8>,
    pub stack: Seq<Seq<u8>>,
    pub pending: Option<Seq<u8>>,
    pub over: bool,
}

pub enum WalkEventView {
    Opened,
    Entry { d_type: u8, name: Seq<u8> },
    Mode(u32),
    EndOfDir,
    Closed,
    Failed(Errno),
}

pub enum WalkStepView {
    Open(Seq<u8>),
    Read,
    Stat(Seq<u8>),
    Close,
    Yield(Seq<u8>),
    End,
    Fail(Errno),
}

pub open spec fn event_view(e: WalkEvent) -> WalkEventView {
    match e {
        WalkEvent::Opened => WalkEventView::Opened,
        WalkEvent::Entry { d_type, name } => WalkEventView::Entry { d_type, name: name@ },
        WalkEvent::Mode(mode) => WalkEventView::Mode(mode),
        WalkEvent::EndOfDir => WalkEventView::EndOfDir,
        WalkEvent::Closed => WalkEventView::Closed,
        WalkEvent::Failed(e) => WalkEventView::Failed(e),
    }
}

pub open spec fn step_view(s: WalkStep) -> WalkStepView {
    match s {
        WalkStep::Open(p) => WalkStepView::Open(p@),
        WalkStep::Read => WalkStepView::Read,
        WalkStep::Stat(p) => WalkStepView::Stat(p@),
        WalkStep::Close => WalkStepView::Close,
        WalkStep::Yield(p) => WalkStepView::Yield(p@),
        WalkStep::End => WalkStepView::End,
        WalkStep::Fail(e) => WalkStepView::Fail(e),
    }
}

/// Whether a name is one of the two that every directory has.
pub open spec fn is_dot(name: Seq<u8>) -> bool {
    name == seq![0x2eu8] || name == seq![0x2eu8, 0x2eu8]
}

/// What the walk makes of something found at `path`.
pub enum Found {
    /// A directory: it is walked later.
    Directory,
    /// A regular file: it is given.
    Regular,
    /// Neither: it is passed over.
    Other,
}

/// The walk `w`, which asks about nothing, after it has found this at
/// `path`, and what it asks for then.
pub open spec fn found(w: WalkerView, what: Found, path: Seq<u8>) -> (WalkerView, WalkStepView) {
    match what {
        Found::Directory => (WalkerView { stack: w.stack.push(path), ..w }, WalkStepView::Read),
        Found::Regular => (w, WalkStepView::Yield(path)),
        Found::Other => (w, WalkStepView::Read),
    }
}

/// What a mode says a file is.
pub open spec fn found_by_mode(mode: u32) -> Found {
    if mode & S_IFMT == S_IFDIR {
        Found::Directory
    } else if mode & S_IFMT == S_IFREG {
        Found::Regular
    } else {
        Found::Other
    }
}

/// The walk after `event`, and what it asks for then.
///
/// Every event ends the asking about a file. A mode that is reported when
/// no file was asked about changes nothing.
pub open spec fn walk_next(w: WalkerView, event: WalkEventView) -> (WalkerView, WalkStepView) {
    let idle = WalkerView { pending: None, ..w };
    if w.over {
        (w, WalkStepView::End)
    } else {
        match event {
            WalkEventView::Opened => (idle, WalkStepView::Read),
            WalkEventView::Entry { d_type, name } => if is_dot(name) {
                (idle, WalkStepView::Read)
            } else if d_type == DT_DIR {
                found(idle, Found::Directory, child_path(w.cur_path, name))
            } else if d_type == DT_REG {
                found(idle, Found::Regular, child_path(w.cur_path, name))
            } else if d_type == DT_UNKNOWN {
                (
                    WalkerView { pending: Some(child_path(w.cur_path, name)), ..w },
                    WalkStepView::Stat(child_path(w.cur_path, name)),
                )
            } else {
                found(idle, Found::Other, child_path(w.cur_path, name))
            },
            WalkEventView::Mode(mode) => match w.pending {
                Some(path) => found(idle, found_by_mode(mode), path),
                None => (idle, WalkStepView::Read),
            },
            WalkEventView::EndOfDir => (idle, WalkStepView::Close),
            WalkEventView::Closed => if w.stack.len() > 0 {
                (
                    WalkerView { cur_path: w.stack.last(), stack: w.stack.drop_last(), ..idle },
                    WalkStepView::Open(w.stack.last()),
                )
            } else {
                (WalkerView { over: true, ..idle }, WalkStepView::End)
            },
            WalkEventView::Failed(e) => (WalkerView { over: true, ..idle }, WalkStepView::Fail(e)),
        }
    }
}

impl View for DirWalker {
    type V = WalkerView;

    closed spec fn view(&self) -> WalkerView {
        WalkerView {
            cur_path: self.cur_path@,
            stack: views(self.stack@),
            pending: match self.pending {
                Some(p) => Some(p@),
                None => None,
            },
            over: self.over,
        }
    }
}

fn dot(name: &[u8]) -> (r: bool)
    ensures
        r == is_dot(name@),
{
    if name.len() == 1 && name[0] == 0x2e {
        assert(name@ =~= seq![0x2eu8]);
        true
    } else if name.len() == 2 && name[0] == 0x2e && name[1] == 0x2e {
        assert(name@ =~= seq![0x2eu8, 0x2eu8]);
        true
    } else {
        proof {
            if name@ == seq![0x2eu8] {
                assert(name@.len() == 1 && name@[0] == 0x2e);
            }
            if name@ == seq![0x2eu8, 0x2eu8] {
                assert(name@.len() == 2 && name@[0] == 0x2e && name@[1] == 0x2e);
            }
        }
        false
    }
}

fn copy_of(v: &Vec<u8>) -> (r: Vec<u8>)
    ensures
        r@ == v@,
{
    let r = copy_range(v.as_slice(), 0, v.len());
    proof {
        assert(v@.subrange(0, v@.len() as int) =~= v@);
    }
    r
}

impl DirWalker {
    /// Begins a walk: the root is to be opened.
    pub fn new() -> (r: (DirWalker, WalkStep))
        ensures
            r.0@ == (WalkerView {
                cur_path: Seq::<u8>::empty(),
                stack: Seq::<Seq<u8>>::empty(),
                pending: None,
                over: false,
            }),
            step_view(r.1) == WalkStepView::Open(Seq::<u8>::empty()),
    {
        let w = DirWalker { cur_path: Vec::new(), stack: Vec::new(), pending: None, over: false };
        proof {
            assert(views(w.stack@) =~= Seq::<Seq<u8>>::empty());
        }
        (w, WalkStep::Open(Vec::new()))
    }

    /// Asks on after a file was given: the next entry is to be read.
    pub fn resume(&self) -> (r: WalkStep)
        ensures
            step_view(r) == (if self@.over {
                WalkStepView::End
            } else {
                WalkStepView::Read
            }),
    {
        if self.over {
            WalkStep::End
        } else {
            WalkStep::Read
        }
    }

    /// Takes note of a directory that was found: it is walked later.
    fn later(&mut self, path: Vec<u8>)
        ensures
            final(self)@ == (WalkerView { stack: old(self)@.stack.push(path@), ..old(self)@ }),
    {
        let ghost before = views(self.stack@);
        self.stack.push(path);
        proof {
            assert(views(self.stack@) =~= before.push(path@));
        }
    }

    /// Takes what the caller reports and says how the walk goes on.
    pub fn step(&mut self, event: WalkEvent) -> (r: WalkStep)
        ensures
            (final(self)@, step_view(r)) == walk_next(old(self)@, event_view(event)),
    {
        if self.over {
            return WalkStep::End;
        }
        let asked = self.pending.take();
        match event {
            WalkEvent::Opened => WalkStep::Read,
            WalkEvent::Entry { d_type, name } => {
                if dot(name.as_slice()) {
                    return WalkStep::Read;
                }
                let path = get_child_name(self.cur_path.as_slice(), name.as_slice());
                if d_type == DT_DIR {
                    self.later(path);
                    WalkStep::Read
                } else if d_type == DT_REG {
                    WalkStep::Yield(path)
                } else if d_type == DT_UNKNOWN {
                    self.pending = Some(copy_of(&path));
                    WalkStep::Stat(path)
                } else {
                    WalkStep::Read
                }
            },
            WalkEvent::Mode(mode) => match asked {
                Some(path) => {
                    let kind = mode & S_IFMT;
                    if kind == S_IFDIR {
                        self.later(path);
                        WalkStep::Read
                    } else if kind == S_IFREG {
                        WalkStep::Yield(path)
                    } else {
                        WalkStep::Read
                    }
                },
                None => WalkStep::Read,
            },
            WalkEvent::EndOfDir => WalkStep::Close,
            WalkEvent::Closed => {
                let ghost before = views(self.stack@);
                match self.stack.pop() {
                    Some(next) => {
                        proof {
                            assert(views(self.stack@) =~= before.drop_last());
                            assert(before.last() == next@);
                        }
                        let copy = copy_of(&next);
                        self.cur_path = next;
                        WalkStep::Open(copy)
                    },
                    None => {
                        proof {
                            assert(views(self.stack@) =~= before);
                        }
                        self.over = true;
                        WalkStep::End
                    },
                }
            },
            WalkEvent::Failed(e) => {
                self.over = true;
                WalkStep::Fail(e)
            },
        }
    }
}

/// Only regular files are given: a path that the walk gives is that of an
/// entry that the directory told to be a regular file, or of one whose
/// mode told it.
pub proof fn lemma_only_regular_files(w: WalkerView, event: WalkEventView)
    ensures
        walk_next(w, event).1 matches WalkStepView::Yield(path) ==> (event
            matches WalkEventView::Entry { d_type, name } && d_type == DT_REG && !is_dot(name)
            && path == child_path(w.cur_path, name)) || (event matches WalkEventView::Mode(mode)
            && mode & S_IFMT == S_IFREG && w.pending == Some(path)),
        walk_next(w, event).1 matches WalkStepView::Stat(path) ==> event
            matches WalkEventView::Entry { d_type, name } && d_type == DT_UNKNOWN && walk_next(
            w,
            event,
        ).0.pending == Some(path),
{
}

} // verus!

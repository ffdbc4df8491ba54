//! The progress of a page-in, as the task that copies and the requests that
//! wait for it see it.
//!
//! A page-in copies a source file into its cache file from the start. The
//! task posts how far it has come; a read or a write that needs bytes
//! further on waits. The status is kept under one lock, and every change
//! wakes all who wait: the locking and waking is left to the caller, the
//! rules are here.

use vstd::prelude::*;
use crate::errno::{Errno, ECANCELED};
use crate::error::RError;

verus! {

/// How far a page-in has come.
#[derive(Debug, PartialEq, Eq, Structural)]
pub struct PageInInfo {
    /// The bytes from the start of the file that are in the cache.
    pub offset: u64,
    /// Whether a write came in while the page-in ran.
    pub dirty: bool,
    /// Whether the page-in has reached the end of the source.
    pub eof: bool,
    /// The error that ended the page-in, or the request to end it.
    pub err: Option<RError<Errno>>,
}

/// What a request that waits on a page-in does next.
#[derive(Debug, PartialEq, Eq, Structural)]
pub enum Wait {
    /// The page-in is over: go on, and take the handle for one without a
    /// page-in from now on.
    Finished,
    /// The bytes are there: go on.
    Ready,
    /// The page-in failed: fail with this error.
    Failed(RError<Errno>),
    /// Wait for the next change and ask again.
    Block,
}

/// What the page-in task does after it has posted its progress.
#[derive(Debug, PartialEq, Eq, Structural)]
pub enum Posted {
    /// The page-in was asked to stop, or failed before: stop with this
    /// error. Nothing was changed and nobody needs waking.
    Refused(RError<Errno>),
    /// The status was changed: wake all who wait. Where `mark_pristine` is
    /// set the cache file is complete and untouched, and is to be marked
    /// pristine before the waking.
    Updated { mark_pristine: bool },
}

/// The copy of an error that a waiter gets: the same number, expected.
pub open spec fn copy_of(e: RError<Errno>) -> RError<Errno> {
    RError { e: e.e, traced: false }
}

impl PageInInfo {
    /// The status before anything was copied.
    pub fn new() -> (r: PageInInfo)
        ensures
            r == (PageInInfo { offset: 0, dirty: false, eof: false, err: None }),
    {
        PageInInfo { offset: 0, dirty: false, eof: false, err: None }
    }

    /// What [`PageInInfo::wait_for_offset`] answers.
    pub open spec fn wait_spec(&self, offset: u64) -> Wait {
        if self.eof {
            Wait::Finished
        } else if self.offset >= offset {
            Wait::Ready
        } else if self.err is Some {
            Wait::Failed(copy_of(self.err->Some_0))
        } else {
            Wait::Block
        }
    }

    /// Records that a write is on its way, so that the end of the page-in
    /// does not mark the cache file pristine.
    pub fn set_dirty(&mut self)
        ensures
            *final(self) == (PageInInfo { dirty: true, ..*old(self) }),
    {
        self.dirty = true;
    }

    /// Whether a request that needs the first `offset` bytes may go on.
    ///
    /// It may once the page-in is over or has copied that far. It fails
    /// where the page-in failed short of that, and waits otherwise. So a
    /// read never sees a part of the cache file that the page-in has yet to
    /// fill.
    pub fn wait_for_offset(&self, offset: u64) -> (r: Wait)
        ensures
            r == self.wait_spec(offset),
            r == Wait::Ready ==> self.offset >= offset,
            r == Wait::Finished <==> self.eof,
    {
        if self.eof {
            return Wait::Finished;
        }
        if self.offset >= offset {
            Wait::Ready
        } else {
            match &self.err {
                Some(e) => Wait::Failed(e.clone()),
                None => Wait::Block,
            }
        }
    }

    /// Whether a request that needs the page-in to be over may go on: it
    /// waits until the end of the source is reached.
    pub fn wait_for_eof(&self) -> (r: Wait)
        ensures
            r == (if self.eof { Wait::Finished } else { Wait::Block }),
    {
        if self.eof {
            Wait::Finished
        } else {
            Wait::Block
        }
    }

    /// What [`PageInInfo::notify_offset`] makes of the status.
    pub open spec fn notified(self, res: Result<u64, RError<Errno>>, eof: bool) -> PageInInfo {
        if !eof && self.err is Some {
            self
        } else {
            match res {
                Ok(offset) => PageInInfo { offset, eof, ..self },
                Err(e) => PageInInfo { err: Some(e), eof, ..self },
            }
        }
    }

    /// Posts the progress of the page-in: the bytes copied so far, or the
    /// error that ended it, and whether the end is reached.
    ///
    /// Progress short of the end is refused once an error stands in the
    /// status, which is how a flush asks the page-in to stop; the end is
    /// always recorded. At the end the cache file is to be marked pristine
    /// unless a write has come in.
    pub fn notify_offset(&mut self, res: Result<u64, RError<Errno>>, eof: bool) -> (r: Posted)
        ensures
            *final(self) == old(self).notified(res, eof),
            r == (if !eof && old(self).err is Some {
                Posted::Refused(copy_of(old(self).err->Some_0))
            } else {
                Posted::Updated { mark_pristine: eof && !old(self).dirty }
            }),
    {
        if !eof {
            if let Some(e) = &self.err {
                return Posted::Refused(e.clone());
            }
        }
        match res {
            Ok(offset) => {
                self.offset = offset;
            },
            Err(e) => {
                self.err = Some(e);
            },
        }
        self.eof = eof;
        Posted::Updated { mark_pristine: eof && !self.dirty }
    }

    /// Asks the page-in to stop at its next step.
    pub fn cancel(&mut self)
        ensures
            *final(self) == (PageInInfo {
                err: Some(RError { e: ECANCELED, traced: false }),
                ..*old(self)
            }),
    {
        self.err = Some(RError::propagate(ECANCELED));
    }

    /// Takes note that the copying has stopped with `e`. A page-in that was
    /// asked to stop has stopped as asked, and nothing changes; any other
    /// error is posted for those who wait. The result says whether the
    /// error was posted.
    pub fn failed(&mut self, e: RError<Errno>) -> (r: bool)
        ensures
            r == !old(self).cancelled_spec(),
            *final(self) == (if r {
                PageInInfo { err: Some(e), eof: false, ..*old(self) }
            } else {
                *old(self)
            }),
    {
        if self.cancelled() {
            false
        } else {
            self.err = Some(e);
            self.eof = false;
            true
        }
    }

    pub open spec fn cancelled_spec(&self) -> bool {
        self.err is Some && self.err->Some_0.e == ECANCELED
    }

    /// Whether the page-in was asked to stop.
    pub fn cancelled(&self) -> (r: bool)
        ensures
            r == (self.err is Some && self.err->Some_0.e == ECANCELED),
    {
        match &self.err {
            Some(e) => e.errno() == ECANCELED,
            None => false,
        }
    }
}

} // verus!

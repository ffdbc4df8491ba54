//! The open directory: where the reading stands, and the one entry that was
//! read and not yet handed on.

use vstd::prelude::*;
use crate::namespace::{NameStep, Remove};
use crate::rlibc::Dirent;

verus! {

/// An open directory.
///
/// The stream of entries itself is with the caller. The handle knows the
/// place in the directory up to which entries were handed on, and holds
/// back an entry that the reply had no room for, so that the next read
/// begins with it.
#[derive(Debug)]
pub struct Handle {
    offset: i64,
    entry: Option<Dirent>,
}

/// What a directory handle holds, as plain values.
pub struct HandleView {
    pub offset: i64,
    pub held: Option<DirentView>,
}

/// What a directory entry holds, as plain values.
pub struct DirentView {
    pub ino: u64,
    pub off: i64,
    pub d_type: u8,
    pub name: Seq<u8>,
}

pub open spec fn dirent_view(e: Dirent) -> DirentView {
    DirentView { ino: e.d_ino, off: e.d_off, d_type: e.d_type, name: e.d_name@ }
}

impl View for Handle {
    type V = HandleView;

    closed spec fn view(&self) -> HandleView {
        HandleView {
            offset: self.offset,
            held: match self.entry {
                Some(e) => Some(dirent_view(e)),
                None => None,
            },
        }
    }
}

impl Handle {
    /// The handle of a directory that was just opened.
    pub fn new() -> (r: Handle)
        ensures
            r@ == (HandleView { offset: 0, held: None }),
    {
        Handle { offset: 0, entry: None }
    }

    /// Moves the reading to `offset`, a place that an entry gave. Nothing
    /// happens where the reading stands there already; otherwise the entry
    /// held back is dropped, and the result says that the stream has to be
    /// moved.
    pub fn seekdir(&mut self, offset: i64) -> (r: bool)
        ensures
            r == (offset != old(self)@.offset),
            final(self)@ == (if r {
                HandleView { offset, held: None }
            } else {
                old(self)@
            }),
    {
        if offset != self.offset {
            self.offset = offset;
            self.entry = None;
            true
        } else {
            false
        }
    }

    /// Holds `en` back: the next read gives it again.
    pub fn push(&mut self, en: Dirent)
        ensures
            final(self)@ == (HandleView { offset: old(self)@.offset, held: Some(dirent_view(en)) }),
    {
        self.entry = Some(en);
    }

    /// Records that `en` was handed on: the reading stands behind it, and
    /// nothing is held back.
    pub fn consumed(&mut self, en: &Dirent)
        ensures
            final(self)@ == (HandleView { offset: en.d_off, held: None }),
    {
        self.offset = en.off();
        self.entry = None;
    }

    /// The entry that was held back, where there is one: it is the next
    /// entry of the directory. Without one the next entry comes from the
    /// stream.
    pub fn readdir(&self) -> (r: Option<Dirent>)
        ensures
            match r {
                Some(e) => self@.held == Some(dirent_view(e)),
                None => self@.held is None,
            },
    {
        match &self.entry {
            Some(e) => {
                let copy = Dirent {
                    d_ino: e.d_ino,
                    d_off: e.d_off,
                    d_type: e.d_type,
                    d_name: crate::bytes::copy_range(e.d_name.as_slice(), 0, e.d_name.len()),
                };
                proof {
                    assert(e.d_name@.subrange(0, e.d_name@.len() as int) =~= e.d_name@);
                }
                Some(copy)
            },
            None => None,
        }
    }

    /// Begins the removal of a directory from the cache and from the
    /// source.
    pub fn rmdirat() -> (r: (Remove, NameStep))
        ensures
            r == Remove::begin_spec(true),
    {
        Remove::begin(true)
    }

    /// Takes note of what became of an entry that was offered to the reply.
    /// One that found no room is held back and ends the listing; one that
    /// was taken moves the reading on. The result says whether the listing
    /// goes on.
    pub fn offered(&mut self, en: Dirent, full: bool) -> (r: bool)
        ensures
            r == !full,
            final(self)@ == (if full {
                HandleView { offset: old(self)@.offset, held: Some(dirent_view(en)) }
            } else {
                HandleView { offset: en.d_off, held: None }
            }),
    {
        if full {
            self.push(en);
            false
        } else {
            self.consumed(&en);
            true
        }
    }
}

} // verus!

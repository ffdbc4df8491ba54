//! The error value that operations hand back, and the tests made on it.

use vstd::prelude::*;
use crate::errno::{Errno, EIO, ENOENT};

verus! {

/// An error with a mark that says whether it was foreseen.
///
/// An error built by [`RError::propagate`] is *expected*: it is part of the
/// ordinary course (a file that is not there) and is reported under its own
/// number. One built by [`RError::from`] is unexpected: it is marked as
/// traced, so that the edge of the program can log where it arose, and is
/// reported to the kernel as an I/O error. An error is moved, not copied:
/// its [`Clone`] is an expected error with the same number.
#[derive(Debug, PartialEq, Eq, Structural)]
pub struct RError<E> {
    pub e: E,
    pub traced: bool,
}

/// Whether `e` says that a file or directory is not there.
pub fn is_enoent(e: &Errno) -> (r: bool)
    ensures
        r == (*e == ENOENT),
{
    *e == ENOENT
}

/// `Ok(true)` for an error that says "not found"; every other error comes
/// back as an unexpected one.
pub fn try_enoent(e: Errno) -> (r: Result<bool, RError<Errno>>)
    ensures
        r == (if e == ENOENT {
            Ok::<bool, RError<Errno>>(true)
        } else {
            Err(RError { e, traced: true })
        }),
{
    if is_enoent(&e) {
        Ok(true)
    } else {
        Err(RError::from(e))
    }
}

/// The failed result that carries `e` as an expected error.
pub fn propagate<T>(e: Errno) -> (r: Result<T, RError<Errno>>)
    ensures
        r == Err::<T, RError<Errno>>(RError { e, traced: false }),
{
    Err(RError::propagate(e))
}

/// The number under which `e` is reported to the kernel: its own where it
/// was expected, `EIO` where it was not.
pub fn errno(e: &RError<Errno>) -> (r: i32)
    ensures
        r == (if e.traced { EIO } else { e.e }),
{
    if e.expected() {
        e.errno()
    } else {
        EIO
    }
}

impl<E> RError<E> {
    /// Wraps `e` as an expected error.
    pub fn propagate(e: E) -> (r: RError<E>)
        ensures
            r == (RError { e, traced: false }),
    {
        RError { e, traced: false }
    }

    /// Wraps `e` as an unexpected error.
    pub fn from(e: E) -> (r: RError<E>)
        ensures
            r == (RError { e, traced: true }),
    {
        RError { e, traced: true }
    }

    /// Whether the error was built by [`RError::propagate`].
    pub fn expected(&self) -> (r: bool)
        ensures
            r == !self.traced,
    {
        !self.traced
    }
}

impl RError<Errno> {
    /// The error itself, out of a record that is only borrowed.
    pub(crate) fn same(&self) -> (r: RError<Errno>)
        ensures
            r == *self,
    {
        RError { e: self.e, traced: self.traced }
    }

    /// The error number that was wrapped.
    pub fn errno(&self) -> (r: i32)
        ensures
            r == self.e,
    {
        self.e
    }
}

/// A copy of an error carries the number and no trace: it is an expected
/// error, whatever the error was that it was copied from. The trace stays
/// with the error that it was taken for.
impl Clone for RError<Errno> {
    fn clone(&self) -> (r: RError<Errno>)
        ensures
            r == (RError { e: self.e, traced: false }),
    {
        RError { e: self.e, traced: false }
    }
}

/// The place of the first frame of a trace that lies in the file where
/// errors are wrapped, or zero where none does.
pub open spec fn chop_spec(wrapping: Seq<bool>, from: int) -> int
    decreases wrapping.len() - from,
{
    if from < 0 || from >= wrapping.len() {
        0
    } else if wrapping[from] {
        from
    } else {
        chop_spec(wrapping, from + 1)
    }
}

/// How many frames to drop from the top of a trace, so that it begins
/// where the error was wrapped and not inside the taking of the trace.
/// `wrapping` says of each frame, from the top, whether it lies in the file
/// where errors are wrapped. A trace without such a frame is kept whole.
pub fn chop(wrapping: &Vec<bool>) -> (r: usize)
    ensures
        r == chop_spec(wrapping@, 0),
        r < wrapping@.len() || r == 0,
{
    let mut i: usize = 0;
    while i < wrapping.len()
        invariant
            i <= wrapping@.len(),
            chop_spec(wrapping@, 0) == chop_spec(wrapping@, i as int),
        decreases wrapping@.len() - i,
    {
        if wrapping[i] {
            return i;
        }
        i = i + 1;
    }
    0
}

} // verus!

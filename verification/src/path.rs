//! Paths below the source and cache roots, as byte strings.
//!
//! A path here is relative and made of names joined by single slashes, as
//! the kernel hands them down name by name.

use vstd::prelude::*;
use crate::bytes::{append, copy_range, split, split_spec, views};

verus! {

pub const SLASH: u8 = 0x2f;

/// The path of `name` under `parent`. A name that begins with a slash
/// stands for itself; otherwise a slash joins the two, unless `parent` is
/// empty or ends in one.
pub open spec fn child_path(parent: Seq<u8>, name: Seq<u8>) -> Seq<u8> {
    if name.len() > 0 && name[0] == SLASH {
        name
    } else if parent.len() > 0 && parent.last() != SLASH {
        parent + seq![SLASH] + name
    } else {
        parent + name
    }
}

/// The place of the last slash of `s` before `end`, or -1 where there is
/// none.
pub open spec fn last_slash(s: Seq<u8>, end: int) -> int
    decreases end,
{
    if end <= 0 {
        -1
    } else if s[end - 1] == SLASH {
        end - 1
    } else {
        last_slash(s, end - 1)
    }
}

/// The path without its last name: nothing for the empty path, the empty
/// path for a single name.
pub open spec fn parent_spec(path: Seq<u8>) -> Option<Seq<u8>> {
    if path.len() == 0 {
        None
    } else if last_slash(path, path.len() as int) < 0 {
        Some(Seq::<u8>::empty())
    } else {
        Some(path.subrange(0, last_slash(path, path.len() as int)))
    }
}

/// Whether a piece of a path names a file or directory: it is not empty and
/// is neither `.` nor `..`.
pub open spec fn is_normal(name: Seq<u8>) -> bool {
    name.len() > 0 && name != seq![0x2eu8] && name != seq![0x2eu8, 0x2eu8]
}

/// The directories to make for the pieces from `i` on, below `prefix`: one
/// for each piece that is a name, each below the one before.
pub open spec fn dirs_from(pieces: Seq<Seq<u8>>, i: int, prefix: Seq<u8>) -> Seq<Seq<u8>>
    decreases pieces.len() - i,
{
    if i < 0 || i >= pieces.len() {
        Seq::<Seq<u8>>::empty()
    } else if is_normal(pieces[i]) {
        seq![child_path(prefix, pieces[i])] + dirs_from(
            pieces,
            i + 1,
            child_path(prefix, pieces[i]),
        )
    } else {
        dirs_from(pieces, i + 1, prefix)
    }
}

/// The directories that must exist for `path` to exist as a directory, the
/// outermost first: for `a/b/c` they are `a`, `a/b` and `a/b/c`.
pub open spec fn dirs_spec(path: Seq<u8>) -> Seq<Seq<u8>> {
    dirs_from(split_spec(path, SLASH), 0, Seq::<u8>::empty())
}

/// The path of `name` under `parent`.
pub fn get_child_name(parent: &[u8], name: &[u8]) -> (r: Vec<u8>)
    ensures
        r@ == child_path(parent@, name@),
{
    let mut out: Vec<u8> = Vec::new();
    if name.len() > 0 && name[0] == SLASH {
        append(&mut out, name);
        assert(out@ =~= name@);
        return out;
    }
    append(&mut out, parent);
    if parent.len() > 0 && parent[parent.len() - 1] != SLASH {
        out.push(SLASH);
    }
    append(&mut out, name);
    proof {
        assert(out@ =~= child_path(parent@, name@));
    }
    out
}

/// The path without its last name.
pub fn parent(path: &[u8]) -> (r: Option<Vec<u8>>)
    ensures
        match parent_spec(path@) {
            Some(p) => r is Some && r->Some_0@ == p,
            None => r is None,
        },
{
    if path.len() == 0 {
        return None;
    }
    let mut end: usize = path.len();
    while end > 0 && path[end - 1] != SLASH
        invariant
            end <= path@.len(),
            last_slash(path@, path@.len() as int) == last_slash(path@, end as int),
        decreases end,
    {
        end = end - 1;
    }
    if end == 0 {
        Some(Vec::new())
    } else {
        Some(copy_range(path, 0, end - 1))
    }
}

fn is_name(piece: &[u8]) -> (r: bool)
    ensures
        r == is_normal(piece@),
{
    if piece.len() == 0 {
        false
    } else if piece.len() == 1 && piece[0] == 0x2e {
        assert(piece@ =~= seq![0x2eu8]);
        false
    } else if piece.len() == 2 && piece[0] == 0x2e && piece[1] == 0x2e {
        assert(piece@ =~= seq![0x2eu8, 0x2eu8]);
        false
    } else {
        proof {
            if piece@ == seq![0x2eu8] {
                assert(piece@.len() == 1 && piece@[0] == 0x2e);
            }
            if piece@ == seq![0x2eu8, 0x2eu8] {
                assert(piece@.len() == 2 && piece@[0] == 0x2e && piece@[1] == 0x2e);
            }
        }
        true
    }
}

/// The directories to make, outermost first, so that `path` exists as a
/// directory.
pub fn dirs(path: &[u8]) -> (r: Vec<Vec<u8>>)
    ensures
        views(r@) == dirs_spec(path@),
{
    let pieces = split(path, SLASH);
    let ghost all = split_spec(path@, SLASH);
    let mut out: Vec<Vec<u8>> = Vec::new();
    let mut prefix: Vec<u8> = Vec::new();
    let mut i: usize = 0;
    while i < pieces.len()
        invariant
            i <= pieces@.len(),
            views(pieces@) == all,
            views(out@) + dirs_from(all, i as int, prefix@) == dirs_from(all, 0, Seq::<u8>::empty()),
        decreases pieces@.len() - i,
    {
        assert(all[i as int] == pieces@[i as int]@);
        if is_name(pieces[i].as_slice()) {
            let next = get_child_name(prefix.as_slice(), pieces[i].as_slice());
            let ghost before = views(out@);
            out.push(copy_range(next.as_slice(), 0, next.len()));
            proof {
                assert(next@.subrange(0, next@.len() as int) =~= next@);
                assert(views(out@) =~= before + seq![next@]);
                assert(views(out@) + dirs_from(all, i + 1, next@) =~= before + dirs_from(
                    all,
                    i as int,
                    prefix@,
                ));
            }
            prefix = next;
        }
        i = i + 1;
    }
    proof {
        assert(views(out@) + Seq::<Seq<u8>>::empty() =~= views(out@));
    }
    out
}

/// A part of a byte string or path.
pub trait Substr<T: ?Sized> {
    /// Whether the part from `begin_inclusive` up to `end_exclusive` lies
    /// within the whole.
    spec fn in_range(&self, begin_inclusive: usize, end_exclusive: usize) -> bool;

    /// The part from `begin_inclusive` up to `end_exclusive`.
    fn substr(&self, begin_inclusive: usize, end_exclusive: usize) -> (r: &T)
        requires
            self.in_range(begin_inclusive, end_exclusive),
    ;
}

impl Substr<[u8]> for [u8] {
    open spec fn in_range(&self, begin_inclusive: usize, end_exclusive: usize) -> bool {
        begin_inclusive <= end_exclusive <= self@.len()
    }

    fn substr(&self, begin_inclusive: usize, end_exclusive: usize) -> (r: &[u8])
        ensures
            r@ == self@.subrange(begin_inclusive as int, end_exclusive as int),
    {
        vstd::slice::slice_subrange(self, begin_inclusive, end_exclusive)
    }
}

} // verus!

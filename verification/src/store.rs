//! The registries: the inodes that the kernel knows, by number and by path,
//! and the open handles, by the numbers given to them.

use std::collections::HashMap;
use vstd::prelude::*;
use crate::bytes::equal;

verus! {

/// The paths of the known inodes, each with the number of its inode.
#[derive(Debug)]
pub struct PathIndex {
    entries: Vec<(Vec<u8>, u64)>,
}

/// Whether the entry at place `i` is that of `path`.
pub open spec fn holds(entries: Seq<(Vec<u8>, u64)>, i: int, path: Seq<u8>) -> bool {
    0 <= i < entries.len() && entries[i].0@ == path
}

impl PathIndex {
    /// No path stands in the index twice.
    pub closed spec fn wf(&self) -> bool {
        forall|i: int, j: int|
            0 <= i < j < self.entries@.len() ==> (#[trigger] self.entries@[i]).0@ != (
            #[trigger] self.entries@[j]).0@
    }

    pub closed spec fn view(&self) -> Map<Seq<u8>, u64> {
        Map::new(
            |p: Seq<u8>| exists|i: int| holds(self.entries@, i, p),
            |p: Seq<u8>| self.entries@[choose|i: int| holds(self.entries@, i, p)].1,
        )
    }

    /// The empty index.
    pub fn new() -> (r: PathIndex)
        ensures
            r.wf(),
            r@ == Map::<Seq<u8>, u64>::empty(),
    {
        let r = PathIndex { entries: Vec::new() };
        proof {
            assert(r@ =~= Map::<Seq<u8>, u64>::empty());
        }
        r
    }

    fn position(&self, path: &[u8]) -> (r: Option<usize>)
        requires
            self.wf(),
        ensures
            match r {
                Some(i) => holds(self.entries@, i as int, path@) && self@.contains_key(path@)
                    && self@[path@] == self.entries@[i as int].1,
                None => !self@.contains_key(path@) && forall|i: int|
                    !holds(self.entries@, i, path@),
            },
    {
        let mut i: usize = 0;
        while i < self.entries.len()
            invariant
                self.wf(),
                i <= self.entries@.len(),
                forall|k: int| 0 <= k < i ==> self.entries@[k].0@ != path@,
            decreases self.entries@.len() - i,
        {
            if equal(self.entries[i].0.as_slice(), path) {
                proof {
                    assert(holds(self.entries@, i as int, path@));
                    let c = choose|c: int| holds(self.entries@, c, path@);
                    if c < i {
                        assert(self.entries@[c].0@ != path@);
                    }
                    if i < c {
                        assert(self.entries@[i as int].0@ != self.entries@[c].0@);
                    }
                    assert(c == i);
                }
                return Some(i);
            }
            i = i + 1;
        }
        None
    }

    /// The number of the inode at `path`.
    pub fn get(&self, path: &[u8]) -> (r: Option<u64>)
        requires
            self.wf(),
        ensures
            r == self@.get(path@),
    {
        match self.position(path) {
            Some(i) => Some(self.entries[i].1),
            None => None,
        }
    }

    /// Lets `path` stand for the inode `ino`.
    pub fn insert(&mut self, path: Vec<u8>, ino: u64)
        requires
            old(self).wf(),
        ensures
            final(self).wf(),
            final(self)@ == old(self)@.insert(path@, ino),
    {
        let ghost before = self.entries@;
        match self.position(path.as_slice()) {
            Some(i) => {
                self.entries.set(i, (path, ino));
                proof {
                    let after = self.entries@;
                    assert forall|p: Seq<u8>, k: int| holds(after, k, p) <==> holds(before, k, p) by {}
                    assert forall|a: int, b: int| 0 <= a < b < after.len() implies (
                    #[trigger] after[a]).0@ != (#[trigger] after[b]).0@ by {
                        assert(after[a].0@ == before[a].0@ && after[b].0@ == before[b].0@);
                        assert(before[a].0@ != before[b].0@);
                    }
                    assert forall|p: Seq<u8>| #[trigger]
                        final(self)@.contains_key(p) <==> old(self)@.insert(path@, ino).contains_key(
                            p,
                        ) by {
                        if exists|k: int| holds(after, k, p) {
                            let k = choose|k: int| holds(after, k, p);
                            assert(holds(before, k, p));
                        }
                        if exists|k: int| holds(before, k, p) {
                            let k = choose|k: int| holds(before, k, p);
                            assert(holds(after, k, p));
                        }
                        if p == path@ {
                            assert(holds(after, i as int, p));
                        }
                    }
                    assert forall|p: Seq<u8>| #[trigger]
                        final(self)@.contains_key(p) implies final(self)@[p] == old(self)@.insert(
                        path@,
                        ino,
                    )[p] by {
                        let k = choose|k: int| holds(after, k, p);
                        assert(holds(before, k, p));
                        let b = choose|b: int| holds(before, b, p);
                        assert(b == k);
                        if p == path@ {
                            assert(k == i);
                        }
                    }
                    assert(final(self)@ =~= old(self)@.insert(path@, ino));
                }
            },
            None => {
                self.entries.push((path, ino));
                proof {
                    let after = self.entries@;
                    let last = before.len() as int;
                    assert forall|a: int, b: int| 0 <= a < b < after.len() implies (
                    #[trigger] after[a]).0@ != (#[trigger] after[b]).0@ by {
                        if b < last {
                            assert(after[a] == before[a] && after[b] == before[b]);
                            assert(before[a].0@ != before[b].0@);
                        } else {
                            assert(after[a] == before[a]);
                            assert(!holds(before, a, path@));
                        }
                    }
                    assert forall|p: Seq<u8>| #[trigger]
                        final(self)@.contains_key(p) <==> old(self)@.insert(path@, ino).contains_key(
                            p,
                        ) by {
                        if exists|k: int| holds(after, k, p) {
                            let k = choose|k: int| holds(after, k, p);
                            if k < last {
                                assert(holds(before, k, p));
                            }
                        }
                        if exists|k: int| holds(before, k, p) {
                            let k = choose|k: int| holds(before, k, p);
                            assert(holds(after, k, p));
                        }
                        if p == path@ {
                            assert(holds(after, last, p));
                        }
                    }
                    assert forall|p: Seq<u8>| #[trigger]
                        final(self)@.contains_key(p) implies final(self)@[p] == old(self)@.insert(
                        path@,
                        ino,
                    )[p] by {
                        let k = choose|k: int| holds(after, k, p);
                        if p == path@ {
                            if k < last {
                                assert(holds(before, k, p));
                            }
                            assert(k == last);
                        } else {
                            assert(holds(before, k, p));
                            let b = choose|b: int| holds(before, b, p);
                            assert(b == k);
                        }
                    }
                    assert(final(self)@ =~= old(self)@.insert(path@, ino));
                }
            },
        }
    }

    /// Takes `path` out of the index, and gives the number it stood for.
    pub fn remove(&mut self, path: &[u8]) -> (r: Option<u64>)
        requires
            old(self).wf(),
        ensures
            final(self).wf(),
            final(self)@ == old(self)@.remove(path@),
            r == old(self)@.get(path@),
    {
        let ghost before = self.entries@;
        match self.position(path) {
            None => {
                proof {
                    assert(final(self)@ =~= old(self)@.remove(path@));
                }
                None
            },
            Some(i) => {
                let gone = self.entries.remove(i);
                proof {
                    let after = self.entries@;
                    assert(after =~= before.remove(i as int));
                    assert forall|a: int, b: int| 0 <= a < b < after.len() implies (
                    #[trigger] after[a]).0@ != (#[trigger] after[b]).0@ by {
                        let a0 = if a < i { a } else { a + 1 };
                        let b0 = if b < i { b } else { b + 1 };
                        assert(after[a] == before[a0] && after[b] == before[b0]);
                        assert(before[a0].0@ != before[b0].0@);
                    }
                    assert forall|p: Seq<u8>| #[trigger]
                        final(self)@.contains_key(p) <==> old(self)@.remove(path@).contains_key(
                            p,
                        ) by {
                        if exists|k: int| holds(after, k, p) {
                            let k = choose|k: int| holds(after, k, p);
                            let k0 = if k < i { k } else { k + 1 };
                            assert(holds(before, k0, p));
                            assert(p != path@);
                        }
                        if p != path@ && exists|k: int| holds(before, k, p) {
                            let k = choose|k: int| holds(before, k, p);
                            let k1 = if k < i { k } else { k - 1 };
                            assert(holds(after, k1, p));
                        }
                    }
                    assert forall|p: Seq<u8>| #[trigger]
                        final(self)@.contains_key(p) implies final(self)@[p] == old(self)@.remove(
                        path@,
                    )[p] by {
                        let k = choose|k: int| holds(after, k, p);
                        let k0 = if k < i { k } else { k + 1 };
                        assert(holds(before, k0, p));
                        let b = choose|b: int| holds(before, b, p);
                        assert(b == k0);
                    }
                    assert(final(self)@ =~= old(self)@.remove(path@));
                }
                Some(gone.1)
            },
        }
    }
}

/// The inodes that the kernel knows.
///
/// Each inode is kept under its number, and the paths of the inodes lead to
/// their numbers. What is kept for an inode is up to the caller, who shares
/// it between the requests at work on it.
pub struct InodeStore<V> {
    inodes: HashMap<u64, V>,
    inodes_cache: PathIndex,
}

impl<V> InodeStore<V> {
    pub closed spec fn wf(&self) -> bool {
        self.inodes_cache.wf()
    }

    /// The inodes by number.
    pub closed spec fn inodes(&self) -> Map<u64, V> {
        self.inodes@
    }

    /// The numbers by path.
    pub closed spec fn paths(&self) -> Map<Seq<u8>, u64> {
        self.inodes_cache@
    }

    /// The registry without any inode.
    pub fn new() -> (r: InodeStore<V>)
        ensures
            r.wf(),
            r.inodes() == Map::<u64, V>::empty(),
            r.paths() == Map::<Seq<u8>, u64>::empty(),
    {
        InodeStore { inodes: HashMap::new(), inodes_cache: PathIndex::new() }
    }

    /// The inode with the number `ino`.
    pub fn get(&self, ino: u64) -> (r: Option<&V>)
        ensures
            match r {
                Some(v) => self.inodes().contains_key(ino) && *v == self.inodes()[ino],
                None => !self.inodes().contains_key(ino),
            },
    {
        broadcast use vstd::std_specs::hash::group_hash_axioms;

        self.inodes.get(&ino)
    }

    /// The inode at `path`: the one under the number that `path` leads to.
    pub fn get_mut_by_path(&self, path: &[u8]) -> (r: Option<&V>)
        requires
            self.wf(),
        ensures
            match r {
                Some(v) => self.paths().contains_key(path@) && self.inodes().contains_key(
                    self.paths()[path@],
                ) && *v == self.inodes()[self.paths()[path@]],
                None => !self.paths().contains_key(path@) || !self.inodes().contains_key(
                    self.paths()[path@],
                ),
            },
    {
        match self.inodes_cache.get(path) {
            Some(ino) => self.get(ino),
            None => None,
        }
    }

    /// Enters an inode under its number and its path.
    pub fn insert(&mut self, ino: u64, path: Vec<u8>, inode: V)
        requires
            old(self).wf(),
        ensures
            final(self).wf(),
            final(self).inodes() == old(self).inodes().insert(ino, inode),
            final(self).paths() == old(self).paths().insert(path@, ino),
    {
        broadcast use vstd::std_specs::hash::group_hash_axioms;

        self.inodes_cache.insert(path, ino);
        self.inodes.insert(ino, inode);
    }

    /// Takes out the inode with the number `ino`, whose path is `path`, and
    /// the path with it.
    pub fn remove_ino(&mut self, ino: u64, path: &[u8]) -> (r: Option<V>)
        requires
            old(self).wf(),
        ensures
            final(self).wf(),
            final(self).inodes() == old(self).inodes().remove(ino),
            final(self).paths() == old(self).paths().remove(path@),
            !final(self).inodes().contains_key(ino),
            match r {
                Some(v) => old(self).inodes().contains_key(ino) && v == old(self).inodes()[ino],
                None => !old(self).inodes().contains_key(ino),
            },
    {
        broadcast use vstd::std_specs::hash::group_hash_axioms;

        let gone = self.inodes.remove(&ino);
        self.inodes_cache.remove(path);
        gone
    }

    /// Lets `new_path` lead to what `path` led to; nothing happens where
    /// `path` led nowhere.
    pub fn replace_path(&mut self, path: &[u8], new_path: Vec<u8>)
        requires
            old(self).wf(),
        ensures
            final(self).wf(),
            final(self).inodes() == old(self).inodes(),
            final(self).paths() == (if old(self).paths().contains_key(path@) {
                old(self).paths().remove(path@).insert(new_path@, old(self).paths()[path@])
            } else {
                old(self).paths()
            }),
    {
        if let Some(ino) = self.inodes_cache.remove(path) {
            self.inodes_cache.insert(new_path, ino);
        } else {
            proof {
                assert(old(self).paths().remove(path@) =~= old(self).paths());
            }
        }
    }

    /// Takes `path` out; the inode it led to stays until it is forgotten.
    pub fn remove_path(&mut self, path: &[u8])
        requires
            old(self).wf(),
        ensures
            final(self).wf(),
            final(self).inodes() == old(self).inodes(),
            final(self).paths() == old(self).paths().remove(path@),
    {
        self.inodes_cache.remove(path);
    }
}

/// Open handles under the numbers that were given to them. The numbers
/// start at one and are never given twice.
pub struct HandleStore<T> {
    handles: HashMap<u64, T>,
    next_id: u64,
}

impl<T> HandleStore<T> {
    /// Every number in use was given out before.
    pub closed spec fn wf(&self) -> bool {
        &&& self.next_id >= 1
        &&& forall|id: u64| self.handles@.contains_key(id) ==> 1 <= id < self.next_id
    }

    /// The handles by number.
    pub closed spec fn handles(&self) -> Map<u64, T> {
        self.handles@
    }

    /// The number that the next handle gets.
    pub closed spec fn next_id(&self) -> u64 {
        self.next_id
    }

    /// The registry without any handle.
    pub fn new() -> (r: HandleStore<T>)
        ensures
            r.wf(),
            r.handles() == Map::<u64, T>::empty(),
            r.next_id() == 1,
    {
        HandleStore { handles: HashMap::new(), next_id: 1 }
    }

    /// Whether a number is left to give.
    pub fn has_room(&self) -> (r: bool)
        ensures
            r == (self.next_id() < u64::MAX),
    {
        self.next_id < u64::MAX
    }

    /// Enters a handle and gives its number, which no handle has had
    /// before.
    pub fn insert(&mut self, handle: T) -> (id: u64)
        requires
            old(self).wf(),
            old(self).next_id() < u64::MAX,
        ensures
            final(self).wf(),
            id == old(self).next_id(),
            !old(self).handles().contains_key(id),
            final(self).next_id() == id + 1,
            final(self).handles() == old(self).handles().insert(id, handle),
    {
        broadcast use vstd::std_specs::hash::group_hash_axioms;

        let id = self.next_id;
        self.next_id = self.next_id + 1;
        self.handles.insert(id, handle);
        id
    }

    /// The handle with the number `id`.
    pub fn get(&self, id: u64) -> (r: Option<&T>)
        ensures
            match r {
                Some(v) => self.handles().contains_key(id) && *v == self.handles()[id],
                None => !self.handles().contains_key(id),
            },
    {
        broadcast use vstd::std_specs::hash::group_hash_axioms;

        self.handles.get(&id)
    }

    /// Takes out the handle with the number `id`; the number is not given
    /// again.
    pub fn remove(&mut self, id: u64) -> (r: Option<T>)
        requires
            old(self).wf(),
        ensures
            final(self).wf(),
            final(self).next_id() == old(self).next_id(),
            final(self).handles() == old(self).handles().remove(id),
            match r {
                Some(v) => old(self).handles().contains_key(id) && v == old(self).handles()[id],
                None => !old(self).handles().contains_key(id),
            },
    {
        broadcast use vstd::std_specs::hash::group_hash_axioms;

        self.handles.remove(&id)
    }
}

} // verus!

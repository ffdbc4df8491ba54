//! Searching and cutting byte strings.

use vstd::prelude::*;

verus! {

/// The first place at or after `from` where `b` stands in `s`, or the length
/// of `s` where it stands nowhere.
pub open spec fn position_from(s: Seq<u8>, b: u8, from: int) -> int
    decreases s.len() - from,
{
    if from >= s.len() {
        s.len() as int
    } else if s[from] == b {
        from
    } else {
        position_from(s, b, from + 1)
    }
}

/// Where `b` does not occur between `from` and `to`, the search from `from`
/// finds what the search from `to` finds.
pub proof fn lemma_position_skip(s: Seq<u8>, b: u8, from: int, to: int)
    requires
        0 <= from <= to <= s.len(),
        forall|k: int| from <= k < to ==> s[k] != b,
    ensures
        position_from(s, b, from) == position_from(s, b, to),
    decreases to - from,
{
    if from < to {
        lemma_position_skip(s, b, from + 1, to);
    }
}

/// The place that [`position_from`] names lies between `from` and the end,
/// holds `b` unless it is the end, and nothing before it holds `b`.
pub proof fn lemma_position_bounds(s: Seq<u8>, b: u8, from: int)
    requires
        0 <= from <= s.len(),
    ensures
        from <= position_from(s, b, from) <= s.len(),
        position_from(s, b, from) < s.len() ==> s[position_from(s, b, from)] == b,
        forall|k: int| from <= k < position_from(s, b, from) ==> s[k] != b,
    decreases s.len() - from,
{
    if from < s.len() && s[from] != b {
        lemma_position_bounds(s, b, from + 1);
    }
}

/// Finds the first `b` in `s` at or after `from`.
pub fn find(s: &[u8], b: u8, from: usize) -> (r: usize)
    requires
        from <= s@.len(),
    ensures
        r == position_from(s@, b, from as int),
        from <= r <= s@.len(),
{
    let mut i: usize = from;
    while i < s.len() && s[i] != b
        invariant
            from <= i <= s@.len(),
            forall|k: int| from <= k < i ==> s@[k] != b,
        decreases s@.len() - i,
    {
        i = i + 1;
    }
    proof {
        lemma_position_skip(s@, b, from as int, i as int);
    }
    i
}

/// A copy of the bytes of `s` from `from` up to `to`.
pub fn copy_range(s: &[u8], from: usize, to: usize) -> (r: Vec<u8>)
    requires
        from <= to <= s@.len(),
    ensures
        r@ == s@.subrange(from as int, to as int),
{
    let mut out: Vec<u8> = Vec::new();
    let mut i: usize = from;
    while i < to
        invariant
            from <= i <= to <= s@.len(),
            out@ == s@.subrange(from as int, i as int),
        decreases to - i,
    {
        out.push(s[i]);
        proof {
            assert(out@ =~= s@.subrange(from as int, i + 1));
        }
        i = i + 1;
    }
    out
}

/// Appends the bytes of `tail` to `out`.
pub fn append(out: &mut Vec<u8>, tail: &[u8])
    ensures
        final(out)@ == old(out)@ + tail@,
{
    let mut i: usize = 0;
    while i < tail.len()
        invariant
            i <= tail@.len(),
            out@ == old(out)@ + tail@.subrange(0, i as int),
        decreases tail@.len() - i,
    {
        out.push(tail[i]);
        proof {
            assert(out@ =~= old(out)@ + tail@.subrange(0, i + 1));
        }
        i = i + 1;
    }
    proof {
        assert(tail@.subrange(0, tail@.len() as int) =~= tail@);
    }
}

/// Whether `a` and `b` hold the same bytes.
pub fn equal(a: &[u8], b: &[u8]) -> (r: bool)
    ensures
        r == (a@ == b@),
{
    if a.len() != b.len() {
        return false;
    }
    let mut i: usize = 0;
    while i < a.len()
        invariant
            i <= a@.len(),
            a@.len() == b@.len(),
            forall|k: int| 0 <= k < i ==> a@[k] == b@[k],
        decreases a@.len() - i,
    {
        if a[i] != b[i] {
            return false;
        }
        i = i + 1;
    }
    proof {
        assert(a@ =~= b@);
    }
    true
}

/// The pieces into which the places of `sep` cut `s` from `from` on. There
/// is always one piece at least, and a piece may be empty.
pub open spec fn pieces_from(s: Seq<u8>, sep: u8, from: int) -> Seq<Seq<u8>>
    decreases s.len() - from,
{
    let p = position_from(s, sep, from);
    if 0 <= from <= p < s.len() {
        seq![s.subrange(from, p)] + pieces_from(s, sep, p + 1)
    } else if 0 <= from <= s.len() {
        seq![s.subrange(from, s.len() as int)]
    } else {
        Seq::<Seq<u8>>::empty()
    }
}

/// The pieces into which the places of `sep` cut `s`.
pub open spec fn split_spec(s: Seq<u8>, sep: u8) -> Seq<Seq<u8>> {
    pieces_from(s, sep, 0)
}

/// The byte strings of `v`, each as a sequence.
pub open spec fn views(v: Seq<Vec<u8>>) -> Seq<Seq<u8>> {
    Seq::new(v.len(), |i: int| v[i]@)
}

/// Cuts `s` at every `sep`.
pub fn split(s: &[u8], sep: u8) -> (r: Vec<Vec<u8>>)
    ensures
        views(r@) == split_spec(s@, sep),
{
    let mut out: Vec<Vec<u8>> = Vec::new();
    let mut from: usize = 0;
    let mut done = false;
    while !done
        invariant
            from <= s@.len(),
            !done ==> views(out@) + pieces_from(s@, sep, from as int) == split_spec(s@, sep),
            done ==> views(out@) == split_spec(s@, sep),
        decreases s@.len() - from + (if done { 0int } else { 1int }),
    {
        let p = find(s, sep, from);
        let piece = copy_range(s, from, p);
        let ghost before = views(out@);
        out.push(piece);
        proof {
            assert(views(out@) =~= before + seq![s@.subrange(from as int, p as int)]);
            if p < s@.len() {
                assert(views(out@) + pieces_from(s@, sep, p + 1) =~= before + pieces_from(
                    s@,
                    sep,
                    from as int,
                ));
            }
        }
        if p < s.len() {
            from = p + 1;
        } else {
            done = true;
        }
    }
    out
}

} // verus!

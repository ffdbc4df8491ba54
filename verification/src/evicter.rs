//! Which cache files leave when the cache filesystem runs short of space.
//!
//! A scan measures the free space. Where it lies under the high watermark,
//! the files of the cache are ranked and the coldest and costliest are
//! named for removal, until the free space would reach the low watermark.

use std::collections::HashSet;
use std::hash::Hasher;
use vstd::prelude::*;
use vstd::relations::{sorted_by, total_ordering};
use vstd::seq_lib::lemma_sorted_unique;
use crate::flags::{DiskSpace, PERCENT};
use crate::stat::{age_secs, age_secs_spec, Stat, StatVfs, Timespec};

verus! {

/// The size in bytes of the blocks in which `stat` counts a file.
pub const BLOCK_SIZE: u64 = 512;

/// What one request to refill a file costs, on the scale on which one byte
/// costs one.
pub const REQUEST_WEIGHT: u32 = 107374;

/// The share of the files, by count, that is kept for being recently used.
pub const HOT_PERCENT: usize = 25;

/// The seconds between two scans.
pub const SCAN_PERIOD: u64 = 60;

/// The free space in bytes that a target asks of a filesystem.
pub open spec fn desired_free(target: DiskSpace, st: StatVfs) -> nat {
    match target {
        DiskSpace::Percent(p) => (st.total_bytes() * p / (100 * PERCENT)) as nat,
        DiskSpace::Bytes(b) => b as nat,
    }
}

/// The bytes that must leave for the filesystem to have the free space that
/// the target asks for.
pub open spec fn to_evict_spec(target: DiskSpace, st: StatVfs) -> nat {
    if desired_free(target, st) > st.free_bytes() {
        (desired_free(target, st) - st.free_bytes()) as nat
    } else {
        0
    }
}

/// `a` if it fits in 64 bits, else the largest number that does.
pub open spec fn clamp_u64(a: nat) -> u64 {
    if a > u64::MAX {
        u64::MAX
    } else {
        a as u64
    }
}

proof fn lemma_mul_div_parts(q: nat, r: nat, p: nat, d: nat)
    requires
        d > 0,
        r < d,
    ensures
        ((q * d + r) * p) / d == q * p + (r * p) / d,
{
    let t = r * p;
    let x = (q * d + r) * p;
    assert(x == d * (q * p) + t) by (nonlinear_arith)
        requires
            x == (q * d + r) * p,
            t == r * p,
    ;
    vstd::arithmetic::div_mod::lemma_fundamental_div_mod(t as int, d as int);
    let hi = q * p + t / d;
    assert(x == d * hi + t % d) by (nonlinear_arith)
        requires
            x == d * (q * p) + t,
            t == d * (t / d) + t % d,
            hi == q * p + t / d,
    ;
    vstd::arithmetic::div_mod::lemma_div_multiples_vanish_fancy(hi as int, (t % d) as int, d as int);
}

/// The product of two 64-bit numbers, which 128 bits always hold.
fn wide_mul(a: u64, b: u64) -> (r: u128)
    ensures
        r == a * b,
        r <= u64::MAX * u64::MAX,
{
    assert(a * b <= u64::MAX * u64::MAX) by (nonlinear_arith)
        requires
            0 <= a <= u64::MAX,
            0 <= b <= u64::MAX,
    ;
    a as u128 * b as u128
}

/// The bytes to evict for `target`: the free space it asks for less the free
/// space there is, and zero where there is enough. A need that 64 bits
/// cannot hold comes back as the largest number they can.
pub fn to_evict(target: &DiskSpace, st: &StatVfs) -> (r: u64)
    ensures
        r == clamp_u64(to_evict_spec(*target, *st)),
{
    let free: u128 = wide_mul(st.f_bfree, st.f_frsize);
    let desired: u128 = match *target {
        DiskSpace::Bytes(b) => b as u128,
        DiskSpace::Percent(p) => {
            let total: u128 = wide_mul(st.f_blocks, st.f_frsize);
            let d: u128 = 100 * PERCENT as u128;
            let q: u128 = total / d;
            let rest: u128 = total % d;
            proof {
                vstd::arithmetic::div_mod::lemma_fundamental_div_mod(total as int, d as int);
                assert(total == q * d + rest) by (nonlinear_arith)
                    requires
                        total == d * q + rest,
                ;
                lemma_mul_div_parts(q as nat, rest as nat, p as nat, d as nat);
                assert(rest * p <= 100_000_000 * u64::MAX) by (nonlinear_arith)
                    requires
                        rest < 100_000_000,
                        p <= u64::MAX,
                        rest >= 0,
                        p >= 0,
                ;
            }
            let low: u128 = rest * p as u128 / d;
            match q.checked_mul(p as u128) {
                None => {
                    return u64::MAX;
                },
                Some(high) => match high.checked_add(low) {
                    None => {
                        return u64::MAX;
                    },
                    Some(v) => v,
                },
            }
        },
    };
    if desired > free {
        let need = desired - free;
        if need > u64::MAX as u128 {
            u64::MAX
        } else {
            need as u64
        }
    } else {
        0
    }
}

/// The target that is 1.1 times `high`; a share goes no higher than the
/// whole filesystem.
pub open spec fn grown(high: DiskSpace) -> DiskSpace {
    match high {
        DiskSpace::Percent(p) => DiskSpace::Percent(
            if p * 11 / 10 > 100 * PERCENT {
                (100 * PERCENT) as u64
            } else {
                (p * 11 / 10) as u64
            },
        ),
        DiskSpace::Bytes(b) => DiskSpace::Bytes(clamp_u64((b * 11 / 10) as nat)),
    }
}

/// The settings of the evicter.
#[derive(Debug, Clone, Copy, PartialEq, Eq, Structural)]
pub struct Evicter {
    /// The descriptor of the cache's root directory.
    pub dir: i32,
    /// Eviction starts where the free space is under this. Zero bytes turns
    /// eviction off.
    pub high_watermark: DiskSpace,
    /// Eviction aims at this much free space.
    pub low_watermark: DiskSpace,
    /// The seconds between two scans; zero for none.
    pub scan_freq: u64,
    /// The share of the files, in percent of their number, that is kept for
    /// being the most recently used.
    pub hot_percent: usize,
    /// What a request to refill a file costs, where a byte costs one.
    pub request_weight: u32,
}

impl Evicter {
    /// The evicter for the cache under `dir` that keeps `free` space free and
    /// scans once a minute.
    pub fn new(dir: i32, free: &DiskSpace) -> (r: Evicter)
        ensures
            r == (Evicter {
                dir,
                high_watermark: *free,
                low_watermark: grown(*free),
                scan_freq: SCAN_PERIOD,
                hot_percent: HOT_PERCENT,
                request_weight: REQUEST_WEIGHT,
            }),
    {
        Evicter::new_internal(dir, free, SCAN_PERIOD)
    }

    /// The evicter that scans every `scan_freq` seconds. Its low watermark is
    /// 1.1 times the high one.
    pub fn new_internal(dir: i32, free: &DiskSpace, scan_freq: u64) -> (r: Evicter)
        ensures
            r == (Evicter {
                dir,
                high_watermark: *free,
                low_watermark: grown(*free),
                scan_freq,
                hot_percent: HOT_PERCENT,
                request_weight: REQUEST_WEIGHT,
            }),
    {
        let low = match *free {
            DiskSpace::Percent(p) => {
                let g: u128 = p as u128 * 11 / 10;
                if g > 100 * PERCENT as u128 {
                    DiskSpace::Percent(100 * PERCENT)
                } else {
                    DiskSpace::Percent(g as u64)
                }
            },
            DiskSpace::Bytes(b) => {
                let g: u128 = b as u128 * 11 / 10;
                if g > u64::MAX as u128 {
                    DiskSpace::Bytes(u64::MAX)
                } else {
                    DiskSpace::Bytes(g as u64)
                }
            },
        };
        Evicter {
            dir,
            high_watermark: *free,
            low_watermark: low,
            scan_freq,
            hot_percent: HOT_PERCENT,
            request_weight: REQUEST_WEIGHT,
        }
    }

    /// Whether scans are to run at all: there is a period and a target.
    pub fn enabled(&self) -> (r: bool)
        ensures
            r == (self.scan_freq != 0 && self.high_watermark != DiskSpace::Bytes(0)),
    {
        let off = match self.high_watermark {
            DiskSpace::Bytes(b) => b == 0,
            DiskSpace::Percent(_) => false,
        };
        self.scan_freq != 0 && !off
    }

    /// The bytes by which the free space falls short of the high watermark.
    pub fn should_evict(&self, st: &StatVfs) -> (r: u64)
        ensures
            r == clamp_u64(to_evict_spec(self.high_watermark, *st)),
    {
        to_evict(&self.high_watermark, st)
    }

    /// The bytes by which the free space falls short of the low watermark.
    pub fn to_evict(&self, st: &StatVfs) -> (r: u64)
        ensures
            r == clamp_u64(to_evict_spec(self.low_watermark, *st)),
    {
        to_evict(&self.low_watermark, st)
    }

    /// The first step of a scan: `None` where the free space reaches the
    /// high watermark and nothing is to be done, else the bytes to evict to
    /// reach the low one.
    pub fn plan(&self, st: &StatVfs) -> (r: Option<u64>)
        ensures
            r == (if to_evict_spec(self.high_watermark, *st) == 0 {
                None::<u64>
            } else {
                Some(clamp_u64(to_evict_spec(self.low_watermark, *st)))
            }),
    {
        if self.should_evict(st) > 0 {
            Some(self.to_evict(st))
        } else {
            None
        }
    }
}

/// What a scan knows of one cache file.
#[derive(Debug, Clone, Copy, PartialEq, Eq, Structural)]
pub struct EvictItem {
    /// The hash of the file's path below the cache root.
    pub hash: u64,
    /// When the file was last read.
    pub atime: Timespec,
    /// The bytes that the file takes on disk.
    pub size: u64,
}

/// What `XxHash64` of the crate twox-hash returns for `data` under `seed`.
pub uninterp spec fn xxhash64(seed: u64, data: Seq<u8>) -> u64;

/// Hashes `data` with twox-hash's `XxHash64`: a hasher made by `with_seed`
/// is fed the bytes in one `write`, and `finish` gives the result, which
/// depends on the seed and the bytes alone.
#[verifier::external_body]
fn xxhash64_of(seed: u64, data: &[u8]) -> (r: u64)
    ensures
        r == xxhash64(seed, data@),
{
    let mut hasher = twox_hash::XxHash64::with_seed(seed);
    hasher.write(data);
    hasher.finish()
}

/// The bytes on disk that `blocks` blocks are.
pub open spec fn blocks_size(blocks: i64) -> u64 {
    if blocks < 0 {
        0
    } else {
        clamp_u64((blocks * BLOCK_SIZE) as nat)
    }
}

impl EvictItem {
    /// The item for the file at `path` of which `st` was reported. The size
    /// counts the blocks that the file takes, so a sparse file counts for
    /// what it holds.
    pub fn new(path: &[u8], st: &Stat) -> (r: EvictItem)
        ensures
            r.hash == xxhash64(0, path@),
            r.size == blocks_size(st.st_blocks),
            r.atime == (Timespec {
                sec: if st.st_atime < 0 { 0 } else { st.st_atime as u64 },
                nsec: if st.st_atime_nsec < 0 {
                    0
                } else if st.st_atime_nsec >= 1_000_000_000 {
                    999_999_999
                } else {
                    st.st_atime_nsec as u32
                },
            }),
    {
        let size: u64 = if st.st_blocks < 0 {
            0
        } else {
            let wide: u128 = st.st_blocks as u128 * BLOCK_SIZE as u128;
            if wide > u64::MAX as u128 {
                u64::MAX
            } else {
                wide as u64
            }
        };
        EvictItem {
            hash: EvictItem::hash_of(path),
            atime: Timespec::from_stat(st.st_atime, st.st_atime_nsec),
            size,
        }
    }

    /// The item by which a path is looked up among the chosen ones: only its
    /// hash counts.
    pub fn new_for_lookup(path: &[u8]) -> (r: EvictItem)
        ensures
            r == (EvictItem { hash: xxhash64(0, path@), atime: Timespec { sec: 0, nsec: 0 }, size: 0 }),
    {
        EvictItem { hash: EvictItem::hash_of(path), atime: Timespec { sec: 0, nsec: 0 }, size: 0 }
    }

    /// The hash that stands for a path.
    pub fn hash_of(path: &[u8]) -> (r: u64)
        ensures
            r == xxhash64(0, path@),
    {
        xxhash64_of(0, path)
    }
}

/// A key with the place at which it stood before sorting.
pub type Rank = (u128, usize);

/// The order of ranks: by key, and by place where the keys are equal. No two
/// ranks of one sequence are equal in it, so sorting by it keeps equal keys
/// in the order in which they came.
pub open spec fn rank_leq(a: Rank, b: Rank) -> bool {
    a.0 < b.0 || (a.0 == b.0 && a.1 <= b.1)
}

pub open spec fn rank_order() -> spec_fn(Rank, Rank) -> bool {
    |a: Rank, b: Rank| rank_leq(a, b)
}

pub proof fn lemma_rank_order_total()
    ensures
        total_ordering(rank_order()),
{
    let r = rank_order();
    assert forall|x: Rank, y: Rank| #[trigger] r(x, y) && #[trigger] r(y, x) implies x == y by {
        assert(x.0 == y.0 && x.1 == y.1);
    }
}

/// Each key with its place.
pub open spec fn ranked(keys: Seq<u128>) -> Seq<Rank> {
    Seq::new(keys.len(), |i: int| (keys[i], i as usize))
}

/// The ranks of `keys` in ascending order.
pub open spec fn stable_order(keys: Seq<u128>) -> Seq<Rank> {
    ranked(keys).sort_by(rank_order())
}

/// The items in the order that `order` gives.
pub open spec fn arrange(items: Seq<EvictItem>, order: Seq<Rank>) -> Seq<EvictItem> {
    Seq::new(order.len(), |j: int| items[order[j].1 as int])
}

pub proof fn lemma_stable_order_len(keys: Seq<u128>)
    ensures
        stable_order(keys).len() == keys.len(),
{
    broadcast use vstd::seq_lib::group_to_multiset_ensures;

    lemma_rank_order_total();
    ranked(keys).lemma_sort_by_ensures(rank_order());
    assert(ranked(keys).to_multiset().len() == stable_order(keys).to_multiset().len());
}

/// Sorts pairs of integers with `sort` of std's slices, which orders tuples
/// by their first part and then by their second: afterwards the pairs stand
/// in ascending order and are the pairs that were there before.
#[verifier::external_body]
fn sort_ranks(v: &mut Vec<Rank>)
    ensures
        sorted_by(final(v)@, rank_order()),
        final(v)@.to_multiset() == old(v)@.to_multiset(),
{
    v.sort();
}

/// The places of `keys` in ascending order of the keys; equal keys keep
/// their order.
pub fn order_by(keys: &Vec<u128>) -> (r: Vec<usize>)
    ensures
        r@.len() == keys@.len(),
        stable_order(keys@).len() == keys@.len(),
        forall|j: int| 0 <= j < r@.len() ==> #[trigger] r@[j] < keys@.len(),
        forall|j: int|
            0 <= j < r@.len() ==> #[trigger] stable_order(keys@)[j] == (keys@[r@[j] as int], r@[j]),
        forall|i: int, j: int|
            0 <= i < j < r@.len() ==> keys@[#[trigger] r@[i] as int] <= keys@[#[trigger] r@[j] as int],
{
    let mut ranks: Vec<Rank> = Vec::new();
    let mut i: usize = 0;
    while i < keys.len()
        invariant
            i <= keys@.len(),
            ranks@ == ranked(keys@.subrange(0, i as int)),
        decreases keys@.len() - i,
    {
        ranks.push((keys[i], i));
        proof {
            assert(ranks@ =~= ranked(keys@.subrange(0, i + 1)));
        }
        i = i + 1;
    }
    proof {
        assert(keys@.subrange(0, keys@.len() as int) =~= keys@);
    }
    let ghost unsorted = ranks@;
    sort_ranks(&mut ranks);
    proof {
        lemma_rank_order_total();
        unsorted.lemma_sort_by_ensures(rank_order());
        lemma_sorted_unique(ranks@, unsorted.sort_by(rank_order()), rank_order());
        assert(ranks@ == stable_order(keys@));
        broadcast use vstd::seq_lib::group_to_multiset_ensures;
        assert(ranks@.len() == unsorted.len()) by {
            assert(ranks@.to_multiset().len() == unsorted.to_multiset().len());
        }
        assert forall|j: int| 0 <= j < ranks@.len() implies (#[trigger] ranks@[j]).1 < keys@.len()
            && ranks@[j].0 == keys@[ranks@[j].1 as int] by {
            assert(ranks@.to_multiset().count(ranks@[j]) > 0);
            assert(unsorted.contains(ranks@[j]));
            let k = choose|k: int| 0 <= k < unsorted.len() && unsorted[k] == ranks@[j];
            assert(unsorted[k] == (keys@[k], k as usize));
        }
    }
    let mut out: Vec<usize> = Vec::new();
    let mut j: usize = 0;
    while j < ranks.len()
        invariant
            j <= ranks@.len(),
            out@.len() == j,
            forall|k: int| 0 <= k < j ==> out@[k] == (#[trigger] ranks@[k]).1,
        decreases ranks@.len() - j,
    {
        out.push(ranks[j].1);
        j = j + 1;
    }
    proof {
        assert forall|a: int, b: int| 0 <= a < b < out@.len() implies keys@[#[trigger] out@[a] as int]
            <= keys@[#[trigger] out@[b] as int] by {
            assert(rank_order()(ranks@[a], ranks@[b]));
        }
        assert forall|j: int| 0 <= j < out@.len() implies #[trigger] out@[j] < keys@.len() by {
            assert(out@[j] == ranks@[j].1);
        }
        assert forall|j: int| 0 <= j < out@.len() implies #[trigger] stable_order(keys@)[j] == (
            keys@[out@[j] as int],
            out@[j],
        ) by {
            assert(out@[j] == ranks@[j].1);
            assert(ranks@[j].0 == keys@[ranks@[j].1 as int]);
        }
    }
    out
}

/// The bytes that the first `n` of `items` take.
pub open spec fn head_size(items: Seq<EvictItem>, n: int) -> nat
    decreases n,
{
    if n <= 0 {
        0
    } else {
        head_size(items, n - 1) + items[n - 1].size as nat
    }
}

/// The bytes that the last `k` of `items` take.
pub open spec fn tail_size(items: Seq<EvictItem>, k: int) -> nat
    decreases k,
{
    if k <= 0 {
        0
    } else {
        tail_size(items, k - 1) + items[items.len() - k].size as nat
    }
}

/// How many of `len` files, oldest first, must be looked at before the rest
/// may be kept as hot.
pub open spec fn hot_threshold(len: nat, hot: nat) -> nat {
    if hot >= 100 {
        0
    } else {
        (len * (100 - hot) / 100) as nat
    }
}

/// How many files, oldest first, form the cold set: the search, which has
/// come to place `from`, stops behind the first file with which the bytes
/// so far reach `target` and which lies at or past the hot threshold. Where
/// no file does, all are cold.
pub open spec fn coldest_len(aged: Seq<EvictItem>, target: nat, hot: nat, from: int) -> int
    decreases aged.len() - from,
{
    if from >= aged.len() {
        aged.len() as int
    } else if head_size(aged, from + 1) >= target && from >= hot_threshold(aged.len(), hot) {
        from + 1
    } else {
        coldest_len(aged, target, hot, from + 1)
    }
}

/// The weight of a file: what refilling it costs, scaled by its age over
/// the age of the oldest file.
pub open spec fn weight_spec(
    item: EvictItem,
    now: Timespec,
    oldest: nat,
    request_weight: nat,
) -> nat {
    let cost = item.size as nat + request_weight;
    if oldest == 0 {
        cost
    } else {
        (cost * age_secs_spec(now, item.atime) / oldest) as nat
    }
}

pub open spec fn age_keys(items: Seq<EvictItem>) -> Seq<u128> {
    Seq::new(items.len(), |i: int| items[i].atime.nanos_spec() as u128)
}

/// The files from the one read longest ago to the one read last.
pub open spec fn by_age(items: Seq<EvictItem>) -> Seq<EvictItem> {
    arrange(items, stable_order(age_keys(items)))
}

pub open spec fn weight_keys(cold: Seq<EvictItem>, now: Timespec, request_weight: nat) -> Seq<
    u128,
> {
    Seq::new(
        cold.len(),
        |j: int| weight_spec(cold[j], now, age_secs_spec(now, cold[0].atime), request_weight) as u128,
    )
}

/// The cold files, which come oldest first, from the lightest to the
/// heaviest.
pub open spec fn by_weight(cold: Seq<EvictItem>, now: Timespec, request_weight: nat) -> Seq<
    EvictItem,
> {
    arrange(cold, stable_order(weight_keys(cold, now, request_weight)))
}

/// How many files are taken from the heavy end: the taking, which has taken
/// `k`, stops with the first file with which the bytes taken reach `target`.
/// Where they never do, all are taken.
pub open spec fn picked_len(weighed: Seq<EvictItem>, target: nat, k: int) -> int
    decreases weighed.len() - k,
{
    if k >= weighed.len() {
        weighed.len() as int
    } else if tail_size(weighed, k + 1) >= target {
        k + 1
    } else {
        picked_len(weighed, target, k + 1)
    }
}

/// The files that are chosen for removal, heaviest last.
pub open spec fn chosen(
    items: Seq<EvictItem>,
    target: nat,
    hot: nat,
    request_weight: nat,
    now: Timespec,
) -> Seq<EvictItem> {
    let aged = by_age(items);
    let cold = aged.take(coldest_len(aged, target, hot, 0));
    let weighed = by_weight(cold, now, request_weight);
    weighed.skip(weighed.len() - picked_len(weighed, target, 0))
}

/// The hashes of `items`.
pub open spec fn hashes_of(items: Seq<EvictItem>) -> Set<u64> {
    Set::new(|h: u64| exists|i: int| 0 <= i < items.len() && #[trigger] items[i].hash == h)
}

proof fn lemma_age_monotone(now: Timespec, a: Timespec, b: Timespec)
    requires
        a.nanos_spec() <= b.nanos_spec(),
    ensures
        age_secs_spec(now, b) <= age_secs_spec(now, a),
{
    if now.nanos_spec() >= b.nanos_spec() {
        vstd::arithmetic::div_mod::lemma_div_is_ordered(
            now.nanos_spec() - b.nanos_spec(),
            now.nanos_spec() - a.nanos_spec(),
            1_000_000_000,
        );
    }
}

/// Computes the weight of a file that is no older than the oldest.
fn weight(item: &EvictItem, now: &Timespec, oldest: u64, request_weight: u32) -> (r: u128)
    requires
        oldest > 0 ==> age_secs_spec(*now, item.atime) <= oldest,
    ensures
        r == weight_spec(*item, *now, oldest as nat, request_weight as nat),
{
    let cost: u128 = item.size as u128 + request_weight as u128;
    if oldest == 0 {
        return cost;
    }
    let age: u128 = age_secs(now, &item.atime) as u128;
    let o: u128 = oldest as u128;
    let q: u128 = cost / o;
    let rest: u128 = cost % o;
    proof {
        vstd::arithmetic::div_mod::lemma_fundamental_div_mod(cost as int, o as int);
        assert(cost == q * o + rest) by (nonlinear_arith)
            requires
                cost == o * q + rest,
        ;
        lemma_mul_div_parts(q as nat, rest as nat, age as nat, o as nat);
        assert(q * age <= cost) by (nonlinear_arith)
            requires
                cost == q * o + rest,
                0 <= age <= o,
                0 <= q,
                0 <= rest,
        ;
        assert(rest * age <= u64::MAX * u64::MAX) by (nonlinear_arith)
            requires
                0 <= rest < o,
                0 <= age <= o,
                o <= u64::MAX,
        ;
    }
    q * age + rest * age / o
}

impl Evicter {
    /// Whether the file at `path` is among the chosen, whose hashes are
    /// `chosen`: it is to be removed then.
    pub fn evicts(chosen: &HashSet<u64>, path: &[u8]) -> (r: bool)
        ensures
            r == chosen@.contains(xxhash64(0, path@)),
    {
        broadcast use vstd::std_specs::hash::group_hash_axioms;

        let item = EvictItem::new_for_lookup(path);
        chosen.contains(&item.hash)
    }

    /// Chooses the files to remove so that `to_evict_bytes` leave, and gives
    /// their hashes.
    ///
    /// The files are put in the order of their last read, oldest first. The
    /// cold ones are those up to the first with which the bytes reach
    /// `to_evict_bytes`, but no fewer than all but the hot share. The cold
    /// ones are weighed, and the heaviest are taken until their bytes reach
    /// `to_evict_bytes`. Among equals the one that came first counts as
    /// older and as lighter.
    pub fn select(&self, items: &Vec<EvictItem>, to_evict_bytes: u64, now: &Timespec) -> (r:
        HashSet<u64>)
        ensures
            r@ == hashes_of(
                chosen(
                    items@,
                    to_evict_bytes as nat,
                    self.hot_percent as nat,
                    self.request_weight as nat,
                    *now,
                ),
            ),
    {
        broadcast use vstd::std_specs::hash::group_hash_axioms;

        let ghost target = to_evict_bytes as nat;
        let ghost hot = self.hot_percent as nat;
        let ghost rw = self.request_weight as nat;
        let n = items.len();
        let mut set: HashSet<u64> = HashSet::new();
        let ghost aged = by_age(items@);

        let mut keys: Vec<u128> = Vec::new();
        let mut i: usize = 0;
        while i < n
            invariant
                n == items@.len(),
                i <= n,
                keys@ == age_keys(items@.subrange(0, i as int)),
            decreases n - i,
        {
            keys.push(items[i].atime.nanos());
            proof {
                assert(keys@ =~= age_keys(items@.subrange(0, i + 1)));
            }
            i = i + 1;
        }
        proof {
            assert(items@.subrange(0, n as int) =~= items@);
        }
        let order = order_by(&keys);
        proof {
            assert(aged.len() == n);
            assert forall|j: int| 0 <= j < n implies #[trigger] aged[j] == items@[order@[j] as int] by {
                assert(stable_order(age_keys(items@))[j] == (keys@[order@[j] as int], order@[j]));
            }
        }
        if n == 0 {
            proof {
                let cold = aged.take(coldest_len(aged, target, hot, 0));
                assert(cold.len() == 0);
                lemma_stable_order_len(weight_keys(cold, *now, rw));
                assert(chosen(items@, target, hot, rw, *now).len() == 0);
                assert(set@ =~= hashes_of(chosen(items@, target, hot, rw, *now)));
            }
            return set;
        }
        let threshold: u128 = if self.hot_percent >= 100 {
            0
        } else {
            assert(n * (100 - self.hot_percent) <= usize::MAX * 100) by (nonlinear_arith)
                requires
                    0 <= n <= usize::MAX,
                    0 < 100 - self.hot_percent <= 100,
            ;
            n as u128 * (100 - self.hot_percent) as u128 / 100
        };
        let mut n_cold: usize = n;
        let mut total: u128 = 0;
        let mut found = false;
        i = 0;
        while i < n && !found
            invariant
                n == items@.len(),
                aged.len() == n,
                order@.len() == n,
                forall|j: int| 0 <= j < n ==> #[trigger] order@[j] < n,
                forall|j: int| 0 <= j < n ==> #[trigger] aged[j] == items@[order@[j] as int],
                i <= n,
                threshold == hot_threshold(n as nat, hot),
                !found ==> total == head_size(aged, i as int),
                !found ==> total <= i * u64::MAX,
                !found ==> coldest_len(aged, target, hot, 0) == coldest_len(aged, target, hot, i as int),
                !found ==> n_cold == n,
                found ==> n_cold == coldest_len(aged, target, hot, 0),
                0 < n_cold <= n,
                target == to_evict_bytes,
            decreases n - i + (if found { 0int } else { 1int }),
        {
            let item = &items[order[i]];
            assert(*item == aged[i as int]);
            total = total + item.size as u128;
            assert(total == head_size(aged, i + 1));
            assert(coldest_len(aged, target, hot, i as int) == (if total >= target && i >= threshold {
                i + 1
            } else {
                coldest_len(aged, target, hot, i + 1)
            }));
            if total >= to_evict_bytes as u128 && i as u128 >= threshold {
                n_cold = i + 1;
                found = true;
            } else {
                i = i + 1;
            }
        }
        let ghost cold = aged.take(n_cold as int);
        let oldest = age_secs(now, &items[order[0]].atime);
        proof {
            assert(cold[0] == aged[0]);
        }

        let mut weights: Vec<u128> = Vec::new();
        let mut j: usize = 0;
        while j < n_cold
            invariant
                n == items@.len(),
                aged.len() == n,
                order@.len() == n,
                keys@ == age_keys(items@),
                forall|j: int| 0 <= j < n ==> #[trigger] order@[j] < n,
                forall|j: int| 0 <= j < n ==> #[trigger] aged[j] == items@[order@[j] as int],
                forall|a: int, b: int|
                    0 <= a < b < n ==> keys@[#[trigger] order@[a] as int] <= keys@[#[trigger] order@[b] as int],
                0 < n_cold <= n,
                cold == aged.take(n_cold as int),
                oldest == age_secs_spec(*now, cold[0].atime),
                j <= n_cold,
                rw == self.request_weight,
                weights@ == weight_keys(cold, *now, rw).subrange(0, j as int),
            decreases n_cold - j,
        {
            let item = &items[order[j]];
            proof {
                assert(*item == cold[j as int]);
                assert(cold[0] == items@[order@[0] as int]);
                if j > 0 {
                    assert(keys@[order@[0] as int] <= keys@[order@[j as int] as int]);
                }
                assert(keys@[order@[0] as int] == items@[order@[0] as int].atime.nanos_spec());
                assert(keys@[order@[j as int] as int] == items@[order@[j as int] as int].atime.nanos_spec());
                lemma_age_monotone(*now, cold[0].atime, item.atime);
            }
            let w = weight(item, now, oldest, self.request_weight);
            weights.push(w);
            proof {
                assert(weights@ =~= weight_keys(cold, *now, rw).subrange(0, j + 1));
            }
            j = j + 1;
        }
        proof {
            assert(weights@ =~= weight_keys(cold, *now, rw));
        }
        let heavy = order_by(&weights);
        let ghost weighed = by_weight(cold, *now, rw);
        proof {
            assert(weighed.len() == n_cold);
            assert forall|m: int| 0 <= m < n_cold implies #[trigger] weighed[m] == items@[order@[heavy@[m] as int] as int] by {
                assert(stable_order(weight_keys(cold, *now, rw))[m] == (
                    weights@[heavy@[m] as int],
                    heavy@[m],
                ));
                assert(weighed[m] == cold[heavy@[m] as int]);
                assert(cold[heavy@[m] as int] == aged[heavy@[m] as int]);
            }
        }
        let mut taken: u128 = 0;
        let mut k: usize = 0;
        let mut enough = false;
        while k < n_cold && !enough
            invariant
                n == items@.len(),
                order@.len() == n,
                heavy@.len() == n_cold,
                weighed.len() == n_cold,
                0 < n_cold <= n,
                forall|j: int| 0 <= j < n ==> #[trigger] order@[j] < n,
                forall|j: int| 0 <= j < n_cold ==> #[trigger] heavy@[j] < n_cold,
                forall|m: int|
                    0 <= m < n_cold ==> #[trigger] weighed[m] == items@[order@[heavy@[m] as int] as int],
                k <= n_cold,
                !enough ==> taken == tail_size(weighed, k as int),
                taken <= k * u64::MAX,
                set@ == hashes_of(weighed.skip(n_cold - k)),
                !enough ==> picked_len(weighed, target, 0) == picked_len(weighed, target, k as int),
                enough ==> picked_len(weighed, target, 0) == k,
                target == to_evict_bytes,
            decreases n_cold - k + (if enough { 0int } else { 1int }),
        {
            let m = n_cold - 1 - k;
            let item = &items[order[heavy[m]]];
            assert(*item == weighed[m as int]);
            taken = taken + item.size as u128;
            set.insert(item.hash);
            proof {
                let before = weighed.skip(n_cold - k);
                let after = weighed.skip(n_cold - k - 1);
                assert(after[0] == weighed[m as int]);
                assert forall|h: u64| hashes_of(after).contains(h) <==> hashes_of(before).insert(
                    item.hash,
                ).contains(h) by {
                    if hashes_of(after).contains(h) {
                        let x = choose|x: int| 0 <= x < after.len() && #[trigger] after[x].hash == h;
                        if x > 0 {
                            assert(before[x - 1].hash == h);
                        }
                    }
                    if hashes_of(before).contains(h) {
                        let x = choose|x: int| 0 <= x < before.len() && #[trigger] before[x].hash == h;
                        assert(after[x + 1].hash == h);
                    }
                    if h == item.hash {
                        assert(after[0].hash == h);
                    }
                }
                assert(set@ =~= hashes_of(after));
            }
            k = k + 1;
            if taken >= to_evict_bytes as u128 {
                enough = true;
            }
        }
        proof {
            assert(picked_len(weighed, target, 0) == k);
            assert(chosen(items@, target, hot, rw, *now) == weighed.skip(n_cold - k));
        }
        set
    }
}


/// The bytes that all of `items` take.
pub open spec fn total_size(items: Seq<EvictItem>) -> nat {
    head_size(items, items.len() as int)
}

/// The bytes of the first `n` items depend on these items alone.
pub proof fn lemma_head_size_prefix(a: Seq<EvictItem>, b: Seq<EvictItem>, n: int)
    requires
        0 <= n <= a.len(),
        n <= b.len(),
        forall|i: int| 0 <= i < n ==> a[i] == b[i],
    ensures
        head_size(a, n) == head_size(b, n),
    decreases n,
{
    if n > 0 {
        lemma_head_size_prefix(a, b, n - 1);
    }
}

/// The adding of sizes, as a function to fold a sequence of ranks with.
pub open spec fn add_size(items: Seq<EvictItem>) -> spec_fn(nat, Rank) -> nat {
    |acc: nat, r: Rank| acc + items[r.1 as int].size as nat
}

proof fn lemma_fold_is_head_size(items: Seq<EvictItem>, order: Seq<Rank>)
    ensures
        order.fold_left(0nat, add_size(items)) == total_size(arrange(items, order)),
    decreases order.len(),
{
    if order.len() > 0 {
        let shorter = order.drop_last();
        lemma_fold_is_head_size(items, shorter);
        lemma_head_size_prefix(
            arrange(items, order),
            arrange(items, shorter),
            shorter.len() as int,
        );
        assert(arrange(items, order)[order.len() - 1] == items[order.last().1 as int]);
    }
}

/// Putting files in order changes nothing of what they take together.
pub proof fn lemma_arrange_keeps_total(items: Seq<EvictItem>, keys: Seq<u128>)
    requires
        keys.len() == items.len(),
        items.len() <= usize::MAX,
    ensures
        arrange(items, stable_order(keys)).len() == items.len(),
        total_size(arrange(items, stable_order(keys))) == total_size(items),
{
    let f = add_size(items);
    let ranks = ranked(keys);
    let sorted = stable_order(keys);
    lemma_rank_order_total();
    ranks.lemma_sort_by_ensures(rank_order());
    lemma_stable_order_len(keys);
    assert(vstd::seq_lib::commutative_foldl(f));
    vstd::seq_lib::lemma_fold_left_permutation(sorted, ranks, f, 0nat);
    lemma_fold_is_head_size(items, sorted);
    lemma_fold_is_head_size(items, ranks);
    assert(arrange(items, ranks) =~= items);
}

/// The cold set ends where the search says: it is all files, or its bytes
/// reach the target.
pub proof fn lemma_coldest_len(aged: Seq<EvictItem>, target: nat, hot: nat, from: int)
    requires
        0 <= from <= aged.len(),
    ensures
        from <= coldest_len(aged, target, hot, from) <= aged.len(),
        coldest_len(aged, target, hot, from) == aged.len() || head_size(
            aged,
            coldest_len(aged, target, hot, from),
        ) >= target,
    decreases aged.len() - from,
{
    if from < aged.len() && !(head_size(aged, from + 1) >= target && from >= hot_threshold(
        aged.len(),
        hot,
    )) {
        lemma_coldest_len(aged, target, hot, from + 1);
    }
}

/// The taking ends where it says: all files are taken, or the bytes taken
/// reach the target.
pub proof fn lemma_picked_len(weighed: Seq<EvictItem>, target: nat, k: int)
    requires
        0 <= k <= weighed.len(),
    ensures
        k <= picked_len(weighed, target, k) <= weighed.len(),
        picked_len(weighed, target, k) == weighed.len() || tail_size(
            weighed,
            picked_len(weighed, target, k),
        ) >= target,
    decreases weighed.len() - k,
{
    if k < weighed.len() && !(tail_size(weighed, k + 1) >= target) {
        lemma_picked_len(weighed, target, k + 1);
    }
}

proof fn lemma_head_size_shift(s: Seq<EvictItem>, from: int, n: int)
    requires
        0 <= from,
        0 <= n,
        from + n + 1 <= s.len(),
    ensures
        head_size(s.skip(from), n + 1) == s[from].size + head_size(s.skip(from + 1), n),
    decreases n,
{
    let a = s.skip(from);
    let b = s.skip(from + 1);
    assert(head_size(a, n + 1) == head_size(a, n) + a[n].size);
    if n > 0 {
        lemma_head_size_shift(s, from, n - 1);
        assert(a[n] == b[n - 1]);
        assert(head_size(b, n) == head_size(b, n - 1) + b[n - 1].size);
    } else {
        assert(a[0] == s[from]);
        assert(head_size(a, 0) == 0);
        assert(head_size(b, 0) == 0);
    }
}

/// The bytes of the last `k` files are the bytes of the files that are left
/// when all but the last `k` are passed over.
pub proof fn lemma_tail_is_skip(s: Seq<EvictItem>, k: int)
    requires
        0 <= k <= s.len(),
    ensures
        tail_size(s, k) == total_size(s.skip(s.len() - k)),
    decreases k,
{
    if k > 0 {
        lemma_tail_is_skip(s, k - 1);
        lemma_head_size_shift(s, s.len() - k, k - 1);
    }
}

/// Where the files take as many bytes as are to leave, the files that are
/// chosen take that many.
pub proof fn lemma_chosen_reaches_target(
    items: Seq<EvictItem>,
    target: nat,
    hot: nat,
    request_weight: nat,
    now: Timespec,
)
    requires
        items.len() <= usize::MAX,
        total_size(items) >= target,
    ensures
        total_size(chosen(items, target, hot, request_weight, now)) >= target,
{
    let aged = by_age(items);
    lemma_arrange_keeps_total(items, age_keys(items));
    let c = coldest_len(aged, target, hot, 0);
    lemma_coldest_len(aged, target, hot, 0);
    let cold = aged.take(c);
    lemma_head_size_prefix(cold, aged, c);
    assert(total_size(cold) >= target);
    let weighed = by_weight(cold, now, request_weight);
    lemma_arrange_keeps_total(cold, weight_keys(cold, now, request_weight));
    let k = picked_len(weighed, target, 0);
    lemma_picked_len(weighed, target, 0);
    lemma_tail_is_skip(weighed, k);
    if k == weighed.len() {
        assert(weighed.skip(0) =~= weighed);
    }
}

/// Once as many bytes have left as a target asks to evict, the filesystem
/// has the free space that the target asks for, as long as nothing else is
/// written to it.
pub proof fn lemma_evicted_frees_enough(target: DiskSpace, st: StatVfs, evicted: nat)
    requires
        evicted >= to_evict_spec(target, st),
    ensures
        st.free_bytes() + evicted >= desired_free(target, st),
{
}

/// A scan that finds files enough leaves the free space at the low
/// watermark: the files that it chooses take as many bytes as are to be
/// evicted.
pub proof fn lemma_scan_reaches_low_watermark(
    evicter: Evicter,
    st: StatVfs,
    items: Seq<EvictItem>,
    now: Timespec,
)
    requires
        items.len() <= usize::MAX,
        total_size(items) >= to_evict_spec(evicter.low_watermark, st),
        to_evict_spec(evicter.low_watermark, st) <= u64::MAX,
    ensures
        st.free_bytes() + total_size(
            chosen(
                items,
                clamp_u64(to_evict_spec(evicter.low_watermark, st)) as nat,
                evicter.hot_percent as nat,
                evicter.request_weight as nat,
                now,
            ),
        ) >= desired_free(evicter.low_watermark, st),
{
    lemma_chosen_reaches_target(
        items,
        to_evict_spec(evicter.low_watermark, st),
        evicter.hot_percent as nat,
        evicter.request_weight as nat,
        now,
    );
}

/// The low watermark asks for no less than the high one, as long as the
/// high one asks for no more than the whole filesystem: a scan that starts
/// aims at least as far as it takes to pass the high watermark.
pub proof fn lemma_low_watermark_is_higher(high: DiskSpace, st: StatVfs)
    requires
        high matches DiskSpace::Percent(p) ==> p <= 100 * PERCENT,
    ensures
        desired_free(grown(high), st) >= desired_free(high, st),
        to_evict_spec(grown(high), st) >= to_evict_spec(high, st),
{
    match high {
        DiskSpace::Bytes(b) => {},
        DiskSpace::Percent(p) => {
            let q: u64 = if p * 11 / 10 > 100 * PERCENT {
                (100 * PERCENT) as u64
            } else {
                (p * 11 / 10) as u64
            };
            assert(p <= q);
            let total = st.total_bytes();
            assert(total * p <= total * q) by (nonlinear_arith)
                requires
                    p <= q,
                    total >= 0,
            ;
            vstd::arithmetic::div_mod::lemma_div_is_ordered(
                (total * p) as int,
                (total * q) as int,
                (100 * PERCENT) as int,
            );
        },
    }
}

/// What the ranks in ascending order are: each is a key with the place it
/// came from, and the keys ascend.
pub proof fn lemma_stable_order_sorted(keys: Seq<u128>)
    requires
        keys.len() <= usize::MAX,
    ensures
        stable_order(keys).len() == keys.len(),
        forall|m: int|
            0 <= m < keys.len() ==> (#[trigger] stable_order(keys)[m]).1 < keys.len()
                && stable_order(keys)[m].0 == keys[stable_order(keys)[m].1 as int],
        forall|a: int, b: int|
            0 <= a < b < keys.len() ==> (#[trigger] stable_order(keys)[a]).0 <= (
            #[trigger] stable_order(keys)[b]).0,
{
    broadcast use vstd::seq_lib::group_to_multiset_ensures;

    let ranks = ranked(keys);
    let sorted = stable_order(keys);
    lemma_rank_order_total();
    ranks.lemma_sort_by_ensures(rank_order());
    lemma_stable_order_len(keys);
    assert forall|m: int| 0 <= m < keys.len() implies (#[trigger] sorted[m]).1 < keys.len()
        && sorted[m].0 == keys[sorted[m].1 as int] by {
        assert(sorted.to_multiset().count(sorted[m]) > 0);
        assert(ranks.contains(sorted[m]));
        let k = choose|k: int| 0 <= k < ranks.len() && ranks[k] == sorted[m];
        assert(ranks[k] == (keys[k], k as usize));
    }
    assert forall|a: int, b: int| 0 <= a < b < keys.len() implies (#[trigger] sorted[a]).0 <= (
    #[trigger] sorted[b]).0 by {
        assert(rank_order()(sorted[a], sorted[b]));
    }
}

/// The cold files are the ones read longest ago: no file that is kept as
/// hot was read before a cold one.
pub proof fn lemma_cold_are_oldest(items: Seq<EvictItem>, target: nat, hot: nat, a: int, b: int)
    requires
        items.len() <= usize::MAX,
    ensures
        ({
            let aged = by_age(items);
            let cold = coldest_len(aged, target, hot, 0);
            &&& aged.len() == items.len()
            &&& 0 <= cold <= aged.len()
            &&& (0 <= a < cold <= b < aged.len() ==> aged[a].atime.nanos_spec()
                <= aged[b].atime.nanos_spec())
        }),
{
    let keys = age_keys(items);
    let aged = by_age(items);
    lemma_stable_order_sorted(keys);
    lemma_coldest_len(aged, target, hot, 0);
    let cold = coldest_len(aged, target, hot, 0);
    if 0 <= a < cold <= b < aged.len() {
        let order = stable_order(keys);
        assert(order[a].0 <= order[b].0);
        assert(aged[a] == items[order[a].1 as int]);
        assert(aged[b] == items[order[b].1 as int]);
        assert(keys[order[a].1 as int] == items[order[a].1 as int].atime.nanos_spec());
        assert(keys[order[b].1 as int] == items[order[b].1 as int].atime.nanos_spec());
    }
}

/// The weight by which the cold file at place `j` is ranked.
pub open spec fn cold_weight(cold: Seq<EvictItem>, now: Timespec, request_weight: nat, j: int) -> u128 {
    weight_keys(cold, now, request_weight)[j]
}

/// The files that are chosen are the heaviest of the cold ones: the chosen
/// are the last of the cold files in the order of their weights, so no
/// cold file that is left weighs more than one that is chosen.
///
/// `left` and `taken` are places in the order of weights; each place of
/// that order holds the place of a cold file, and the file that stands
/// there.
pub proof fn lemma_heaviest_are_chosen(
    items: Seq<EvictItem>,
    target: nat,
    hot: nat,
    request_weight: nat,
    now: Timespec,
    left: int,
    taken: int,
)
    requires
        items.len() <= usize::MAX,
    ensures
        ({
            let aged = by_age(items);
            let cold = aged.take(coldest_len(aged, target, hot, 0));
            let order = stable_order(weight_keys(cold, now, request_weight));
            let weighed = by_weight(cold, now, request_weight);
            let k = picked_len(weighed, target, 0);
            let files = chosen(items, target, hot, request_weight, now);
            &&& weighed.len() == cold.len()
            &&& 0 <= k <= cold.len()
            &&& files.len() == k
            &&& (0 <= left < cold.len() - k <= taken < cold.len() ==> {
                &&& order[left].1 < cold.len()
                &&& order[taken].1 < cold.len()
                &&& weighed[left] == cold[order[left].1 as int]
                &&& files[taken - (cold.len() - k)] == cold[order[taken].1 as int]
                &&& cold_weight(cold, now, request_weight, order[left].1 as int) <= cold_weight(
                    cold,
                    now,
                    request_weight,
                    order[taken].1 as int,
                )
            })
        }),
{
    let aged = by_age(items);
    lemma_stable_order_sorted(age_keys(items));
    lemma_coldest_len(aged, target, hot, 0);
    let cold = aged.take(coldest_len(aged, target, hot, 0));
    let keys = weight_keys(cold, now, request_weight);
    lemma_stable_order_sorted(keys);
    let order = stable_order(keys);
    let weighed = by_weight(cold, now, request_weight);
    lemma_picked_len(weighed, target, 0);
    let k = picked_len(weighed, target, 0);
    if 0 <= left < cold.len() - k <= taken < cold.len() {
        assert(order[left].0 <= order[taken].0);
        assert(order[left].0 == keys[order[left].1 as int]);
        assert(order[taken].0 == keys[order[taken].1 as int]);
    }
}

/// Only files that were found are chosen: each chosen file is one of
/// `items`, and its hash is among the hashes that the choice gives. A path
/// whose hash is that of no chosen file is therefore left alone.
pub proof fn lemma_chosen_were_found(
    items: Seq<EvictItem>,
    target: nat,
    hot: nat,
    request_weight: nat,
    now: Timespec,
    i: int,
)
    requires
        items.len() <= usize::MAX,
    ensures
        ({
            let files = chosen(items, target, hot, request_weight, now);
            &&& files.len() <= items.len()
            &&& (0 <= i < files.len() ==> items.contains(files[i]) && hashes_of(files).contains(
                files[i].hash,
            ))
        }),
{
    let aged = by_age(items);
    let ages = stable_order(age_keys(items));
    lemma_stable_order_sorted(age_keys(items));
    lemma_coldest_len(aged, target, hot, 0);
    let cold = aged.take(coldest_len(aged, target, hot, 0));
    let keys = weight_keys(cold, now, request_weight);
    lemma_stable_order_sorted(keys);
    let order = stable_order(keys);
    let weighed = by_weight(cold, now, request_weight);
    lemma_picked_len(weighed, target, 0);
    let k = picked_len(weighed, target, 0);
    let files = chosen(items, target, hot, request_weight, now);
    if 0 <= i < files.len() {
        let at = cold.len() - k + i;
        let c = order[at].1 as int;
        assert(files[i] == weighed[at]);
        assert(weighed[at] == cold[c]);
        assert(cold[c] == aged[c]);
        let a = ages[c].1 as int;
        assert(aged[c] == items[a]);
        assert(items[a] == files[i]);
    }
}

} // verus!

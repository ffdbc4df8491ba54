use std::collections::HashSet;
use std::hash::Hasher;

use catfs::evicter::{order_by, to_evict, EvictItem, Evicter, BLOCK_SIZE};
use catfs::flags::{DiskSpace, PERCENT};
use catfs::stat::{Stat, StatVfs, Timespec};

fn statvfs(blocks: u64, bfree: u64) -> StatVfs {
    StatVfs {
        f_bsize: 4096,
        f_frsize: 4096,
        f_blocks: blocks,
        f_bfree: bfree,
        f_bavail: bfree,
        f_files: 0,
        f_ffree: 0,
        f_namemax: 255,
    }
}

fn stat(blocks: i64, atime: i64) -> Stat {
    Stat {
        st_ino: 1,
        st_mode: 0o100644,
        st_nlink: 1,
        st_uid: 0,
        st_gid: 0,
        st_rdev: 0,
        st_size: blocks * 512,
        st_blksize: 4096,
        st_blocks: blocks,
        st_atime: atime,
        st_atime_nsec: 0,
        st_mtime: atime,
        st_mtime_nsec: 0,
        st_ctime: atime,
        st_ctime_nsec: 0,
    }
}

fn item(hash: u64, atime: u64, size: u64) -> EvictItem {
    EvictItem { hash, atime: Timespec { sec: atime, nsec: 0 }, size }
}

fn set(hashes: &[u64]) -> HashSet<u64> {
    hashes.iter().copied().collect()
}

const NOW: Timespec = Timespec { sec: 1_000_000, nsec: 0 };

#[test]
fn to_evict_bytes() {
    let st = statvfs(100, 16);

    assert_eq!(to_evict(&DiskSpace::Bytes(1), &st), 0);
    assert_eq!(to_evict(&DiskSpace::Bytes(512), &st), 0);
    assert_eq!(to_evict(&DiskSpace::Bytes(17 * 4096), &st), 4096);
    assert_eq!(
        to_evict(&DiskSpace::Bytes(50 * 4096), &st),
        (50 - 16) * 4096
    );
    assert_eq!(to_evict(&DiskSpace::Percent(1 * PERCENT), &st), 0);
    assert_eq!(to_evict(&DiskSpace::Percent(10 * PERCENT), &st), 0);
    assert_eq!(to_evict(&DiskSpace::Percent(30 * PERCENT), &st), (30 - 16) * 4096);
}

#[test]
fn to_evict_takes_fractions_and_huge_targets() {
    let st = statvfs(1000, 0);
    assert_eq!(to_evict(&DiskSpace::Percent(PERCENT / 2), &st), 5 * 4096);
    assert_eq!(to_evict(&DiskSpace::Percent(1), &st), 0);
    let huge = StatVfs { f_frsize: u64::MAX, f_blocks: u64::MAX, ..statvfs(0, 0) };
    assert_eq!(to_evict(&DiskSpace::Percent(u64::MAX), &huge), u64::MAX);
    assert_eq!(to_evict(&DiskSpace::Bytes(u64::MAX), &statvfs(10, 0)), u64::MAX);
    assert_eq!(to_evict(&DiskSpace::Bytes(u64::MAX), &statvfs(10, 1)), u64::MAX - 4096);
}

#[test]
fn low_watermark_is_a_tenth_above_the_high_one() {
    let ev = Evicter::new(3, &DiskSpace::Bytes(4096 + 2048));
    assert_eq!(ev.dir, 3);
    assert_eq!(ev.high_watermark, DiskSpace::Bytes(6144));
    assert_eq!(ev.low_watermark, DiskSpace::Bytes(6758));
    assert_eq!(ev.scan_freq, 60);
    assert_eq!(ev.hot_percent, 25);
    assert_eq!(ev.request_weight, 107374);
    assert!(ev.enabled());

    let ev = Evicter::new_internal(3, &DiskSpace::Percent(100 * PERCENT), 0);
    assert_eq!(ev.low_watermark, DiskSpace::Percent(100 * PERCENT));
    assert!(!ev.enabled());

    let ev = Evicter::new(3, &DiskSpace::Percent(50 * PERCENT));
    assert_eq!(ev.low_watermark, DiskSpace::Percent(55 * PERCENT));

    let ev = Evicter::new(3, &DiskSpace::Bytes(0));
    assert_eq!(ev.low_watermark, DiskSpace::Bytes(0));
    assert!(!ev.enabled());

    let ev = Evicter::new(3, &DiskSpace::Bytes(u64::MAX));
    assert_eq!(ev.low_watermark, DiskSpace::Bytes(u64::MAX));
}

#[test]
fn evict_none() {
    let ev = Evicter::new_internal(3, &DiskSpace::Bytes(1), 0);
    assert_eq!(ev.plan(&statvfs(10, 1)), None);

    let ev = Evicter::new_internal(3, &DiskSpace::Bytes(4096 + 2048), 0);
    let st = statvfs(100, 1);
    assert_eq!(ev.should_evict(&st), 2048);
    assert_eq!(ev.to_evict(&st), 6758 - 4096);
    assert_eq!(ev.plan(&st), Some(6758 - 4096));
}

#[test]
fn items_are_sized_by_their_blocks() {
    let it = EvictItem::new(b"dir1/file1", &stat(8, 77));
    assert_eq!(it.size, 8 * BLOCK_SIZE);
    assert_eq!(it.atime, Timespec { sec: 77, nsec: 0 });
    assert_eq!(it.hash, EvictItem::hash_of(b"dir1/file1"));
    assert_eq!(EvictItem::new(b"a", &stat(-1, -5)).size, 0);
    assert_eq!(EvictItem::new(b"a", &stat(-1, -5)).atime, Timespec { sec: 0, nsec: 0 });
    assert_eq!(EvictItem::new(b"a", &stat(i64::MAX, 0)).size, u64::MAX);
    let lookup = EvictItem::new_for_lookup(b"dir1/file1");
    assert_eq!(lookup.hash, it.hash);
    assert_eq!(lookup.size, 0);
    assert_eq!(lookup.atime, Timespec { sec: 0, nsec: 0 });
}

#[test]
fn hash_is_that_of_xxhash64() {
    assert_eq!(EvictItem::hash_of(b""), 0xEF46DB3751D8E999);
    let mut h = twox_hash::XxHash64::with_seed(0);
    h.write(b"dir1/file1");
    assert_eq!(EvictItem::hash_of(b"dir1/file1"), h.finish());
    assert_ne!(EvictItem::hash_of(b"file1"), EvictItem::hash_of(b"file2"));
}

#[test]
fn order_by_is_stable() {
    assert_eq!(order_by(&vec![]), Vec::<usize>::new());
    assert_eq!(order_by(&vec![5]), vec![0]);
    assert_eq!(order_by(&vec![3, 1, 2]), vec![1, 2, 0]);
    assert_eq!(order_by(&vec![2, 1, 2, 1, 0]), vec![4, 1, 3, 0, 2]);
    assert_eq!(order_by(&vec![u128::MAX, 0, u128::MAX]), vec![1, 0, 2]);
}

#[test]
fn nothing_is_chosen_of_nothing() {
    let ev = Evicter::new(3, &DiskSpace::Bytes(1));
    assert_eq!(ev.select(&vec![], 4096, &NOW), set(&[]));
}

#[test]
fn evict_one_of_five_equal_files() {
    // five files of 4096 bytes, one block of 4096 free, and 4096 + 2048 wanted
    let items: Vec<EvictItem> = (0..5).map(|i| item(100 + i, 1000 + i, 4096)).collect();
    let ev = Evicter::new_internal(3, &DiskSpace::Bytes(4096 + 2048), 0);
    let st = statvfs(100, 1);
    let target = ev.plan(&st).unwrap();
    assert_eq!(target, 2662);
    // the three oldest are cold; of equal cost, the oldest weighs most
    assert_eq!(ev.select(&items, target, &NOW), set(&[100]));
}

#[test]
fn evict_all() {
    let items: Vec<EvictItem> = (0..5).map(|i| item(100 + i, 1000 + i, 4096)).collect();
    let ev = Evicter::new_internal(3, &DiskSpace::Percent(100 * PERCENT), 0);
    let st = statvfs(100, 1);
    assert_eq!(st.f_bfree, 1);
    assert_eq!(ev.low_watermark, DiskSpace::Percent(100 * PERCENT));
    assert_eq!(ev.should_evict(&st), 99 * 4096);
    let target = ev.plan(&st).unwrap();
    assert_eq!(target, 99 * 4096);
    assert_eq!(ev.select(&items, target, &NOW), set(&[100, 101, 102, 103, 104]));
}

#[test]
fn the_hot_quarter_is_kept() {
    // eight files; the two read last are hot even when one old file would do
    let items: Vec<EvictItem> = (0..8).map(|i| item(i, 1000 + i, 4096)).collect();
    let ev = Evicter::new(3, &DiskSpace::Bytes(1));
    // cold are the files up to place 8 * 75 / 100 = 6: seven files.  The
    // heaviest of them is the oldest.
    assert_eq!(ev.select(&items, 1, &NOW), set(&[0]));
    // 7 * 4096 bytes can be had without the hottest file
    assert_eq!(ev.select(&items, 7 * 4096, &NOW), set(&[0, 1, 2, 3, 4, 5, 6]));
    // more than that takes the hottest too
    assert_eq!(ev.select(&items, 7 * 4096 + 1, &NOW), set(&[0, 1, 2, 3, 4, 5, 6, 7]));
}

#[test]
fn big_files_weigh_more_than_old_ones() {
    let day: u64 = 86400;
    let items = vec![
        item(1, NOW.sec - 10 * day, 1000),
        item(2, NOW.sec - 9 * day, 50_000_000),
        item(3, NOW.sec - 8 * day, 1000),
        item(4, NOW.sec - day, 1000),
    ];
    let ev = Evicter::new(3, &DiskSpace::Bytes(1));
    // weights: (1000 + 107374) * 10 / 10, (50000000 + 107374) * 9 / 10, ...
    assert_eq!(ev.select(&items, 1000, &NOW), set(&[2]));
    assert_eq!(ev.select(&items, 50_000_001, &NOW), set(&[2, 1]));
    assert_eq!(ev.select(&items, 50_001_001, &NOW), set(&[2, 1, 3]));
}

#[test]
fn files_from_the_future_have_no_age() {
    let items = vec![item(1, NOW.sec + 5, 10), item(2, NOW.sec + 9, 10), item(3, NOW.sec - 1, 10)];
    let ev = Evicter::new(3, &DiskSpace::Bytes(1));
    // the oldest is a second old: the others weigh nothing
    assert_eq!(ev.select(&items, 10, &NOW), set(&[3]));
    assert_eq!(ev.select(&items, 30, &NOW), set(&[1, 2, 3]));
}

#[test]
fn chosen_files_reach_the_target_when_there_is_enough() {
    let sizes = [4096u64, 512, 8192, 0, 1024, 4096, 40960, 512];
    let items: Vec<EvictItem> = sizes
        .iter()
        .enumerate()
        .map(|(i, s)| item(i as u64, 500 + 7 * (i as u64 % 3), *s))
        .collect();
    let total: u64 = sizes.iter().sum();
    let ev = Evicter::new(3, &DiskSpace::Bytes(1));
    for target in [0u64, 1, 511, 4096, 10_000, 59_391, total] {
        let chosen = ev.select(&items, target, &NOW);
        let got: u64 = items.iter().filter(|i| chosen.contains(&i.hash)).map(|i| i.size).sum();
        assert!(got >= target);
    }
    assert_eq!(ev.select(&items, total + 1, &NOW).len(), items.len());
}

#[test]
fn evicts_looks_paths_up_by_their_hash() {
    let chosen = set(&[EvictItem::hash_of(b"dir1/file1")]);
    assert!(Evicter::evicts(&chosen, b"dir1/file1"));
    assert!(!Evicter::evicts(&chosen, b"dir1/file2"));
}

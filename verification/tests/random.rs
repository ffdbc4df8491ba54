// Properties tried on many random values.

use catfs::evicter::{order_by, to_evict, EvictItem, Evicter};
use catfs::flags::{parse, DiskSpace, PERCENT};
use catfs::stat::{StatVfs, Timespec};
use rand::rngs::StdRng;
use rand::{Rng, SeedableRng};

#[test]
fn order_by_agrees_with_a_stable_sort() {
    let mut rng = StdRng::seed_from_u64(7);
    for _ in 0..200 {
        let n = rng.gen_range(0..40);
        let keys: Vec<u128> = (0..n).map(|_| rng.gen_range(0..8u128)).collect();
        let mut expected: Vec<usize> = (0..n).collect();
        expected.sort_by_key(|i| keys[*i]);
        assert_eq!(order_by(&keys), expected);
    }
}

#[test]
fn to_evict_is_what_is_missing() {
    let mut rng = StdRng::seed_from_u64(11);
    for _ in 0..1000 {
        let st = StatVfs {
            f_bsize: 4096,
            f_frsize: rng.gen_range(1..=65536),
            f_blocks: rng.gen_range(0..1u64 << 40),
            f_bfree: rng.gen_range(0..1u64 << 40),
            f_bavail: 0,
            f_files: 0,
            f_ffree: 0,
            f_namemax: 255,
        };
        let p: u64 = rng.gen_range(0..=200 * PERCENT);
        let total = st.f_blocks as u128 * st.f_frsize as u128;
        let free = st.f_bfree as u128 * st.f_frsize as u128;
        let desired = total * p as u128 / (100 * PERCENT as u128);
        let missing = desired.saturating_sub(free).min(u64::MAX as u128) as u64;
        assert_eq!(to_evict(&DiskSpace::Percent(p), &st), missing);
        let b: u64 = rng.gen();
        let missing = (b as u128).saturating_sub(free).min(u64::MAX as u128) as u64;
        assert_eq!(to_evict(&DiskSpace::Bytes(b), &st), missing);
    }
}

#[test]
fn numbers_are_read_as_they_are_written() {
    let mut rng = StdRng::seed_from_u64(13);
    for _ in 0..1000 {
        let n: u64 = rng.gen::<u64>() >> rng.gen_range(0..64);
        assert_eq!(parse(format!("{}", n).as_bytes()), Ok(DiskSpace::Bytes(n)));
        let k = n >> 20;
        assert_eq!(parse(format!("{}K", k).as_bytes()), Ok(DiskSpace::Bytes(k * 1024)));
        let whole = n % 1000;
        let frac = rng.gen_range(0..1_000_000u64);
        assert_eq!(
            parse(format!("{}.{:06}%", whole, frac).as_bytes()),
            Ok(DiskSpace::Percent(whole * PERCENT + frac))
        );
    }
}

#[test]
fn chosen_files_free_enough() {
    let mut rng = StdRng::seed_from_u64(17);
    let now = Timespec { sec: 1_000_000, nsec: 0 };
    let ev = Evicter::new(3, &DiskSpace::Bytes(1));
    for _ in 0..200 {
        let n = rng.gen_range(1..30u64);
        let items: Vec<EvictItem> = (0..n)
            .map(|i| EvictItem {
                hash: i,
                atime: Timespec { sec: rng.gen_range(0..2_000_000), nsec: rng.gen_range(0..1_000_000_000) },
                size: rng.gen_range(0..100_000),
            })
            .collect();
        let total: u64 = items.iter().map(|i| i.size).sum();
        let target = rng.gen_range(0..=total);
        let chosen = ev.select(&items, target, &now);
        let got: u64 = items.iter().filter(|i| chosen.contains(&i.hash)).map(|i| i.size).sum();
        assert!(got >= target);
        assert!(!chosen.is_empty());
    }
}

#[test]
fn shares_agree_with_floating_point() {
    let mut rng = StdRng::seed_from_u64(19);
    for _ in 0..1000 {
        let st = StatVfs {
            f_bsize: 4096,
            f_frsize: 4096,
            f_blocks: rng.gen_range(0..1u64 << 30),
            f_bfree: 0,
            f_bavail: 0,
            f_files: 0,
            f_ffree: 0,
            f_namemax: 255,
        };
        let tenths: u64 = rng.gen_range(0..=1000);
        let p = tenths as f64 / 10.0;
        let float = ((st.f_blocks * st.f_frsize) as f64 * p / 100.0) as u64;
        let exact = to_evict(&DiskSpace::Percent(tenths * (PERCENT / 10)), &st);
        assert!(float.abs_diff(exact) <= 1);
    }
}

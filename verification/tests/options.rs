use catfs::flags::{DiskSpace, ParseFault, PERCENT};
use catfs::options::{fstab_args, Flag, Parsed};

fn args(a: &[&str]) -> Vec<Vec<u8>> {
    a.iter().map(|s| s.as_bytes().to_vec()).collect()
}

#[test]
fn plain_arguments_stay() {
    let a = args(&["catfs", "-f", "src", "cache", "mnt"]);
    assert_eq!(fstab_args(a.clone()), a);
    let a = args(&["catfs", "src", "cache", "mnt"]);
    assert_eq!(fstab_args(a.clone()), a);
    // no '#': not the form of the mount table
    let a = args(&["catfs", "src", "mnt", "-o", "ro"]);
    assert_eq!(fstab_args(a.clone()), a);
    // no -o in the fourth place
    let a = args(&["catfs", "src#cache", "mnt", "-f", "ro"]);
    assert_eq!(fstab_args(a.clone()), a);
    assert_eq!(fstab_args(vec![]), Vec::<Vec<u8>>::new());
}

#[test]
fn mount_table_arguments_are_rewritten() {
    assert_eq!(
        fstab_args(args(&["catfs", "/src#/cache", "/mnt", "-o", "ro,noatime"])),
        args(&["catfs", "/src", "/cache", "/mnt", "-o", "ro,noatime"])
    );
    assert_eq!(
        fstab_args(args(&["catfs", "/src#/cache", "/mnt", "-o", "ro,-f,noatime,--free=5%"])),
        args(&["catfs", "/src", "/cache", "--free=5%", "-f", "/mnt", "-o", "ro,noatime"])
    );
    assert_eq!(
        fstab_args(args(&["catfs", "/src#/cache", "/mnt", "-o", "-f"])),
        args(&["catfs", "/src", "/cache", "-f", "/mnt"])
    );
    assert_eq!(
        fstab_args(args(&["catfs", "/src#/cache", "/mnt", "-o", ""])),
        args(&["catfs", "/src", "/cache", "/mnt", "-o", ""])
    );
    assert_eq!(
        fstab_args(args(&["catfs", "a#b#c", "/mnt", "-o", "x,,y"])),
        args(&["catfs", "a", "b#c", "/mnt", "-o", "x,,y"])
    );
    assert_eq!(
        fstab_args(args(&["catfs", "#", "/mnt", "-o", "x"])),
        args(&["catfs", "", "", "/mnt", "-o", "x"])
    );
}

#[test]
fn every_mount_gets_two_options() {
    let p = Parsed::new();
    assert_eq!(
        p.flags.mount_options,
        args(&["-o", "atomic_o_trunc", "-o", "default_permissions"])
    );
    assert!(!p.test);
    assert!(!p.flags.foreground);
    assert_eq!(p.flags.free_space, DiskSpace::Bytes(0));
    assert_eq!(p.flags.uid, 0);
    assert_eq!(p.flags.gid, 0);
    assert!(p.flags.cat_from.is_empty());
}

#[test]
fn arguments_go_where_they_belong() {
    let mut p = Parsed::new();
    assert_eq!(p.store(Flag::Space, b"25G"), Ok(()));
    assert_eq!(p.flags.free_space, DiskSpace::Bytes(25 << 30));
    assert_eq!(p.store(Flag::Space, b"9.5%"), Ok(()));
    assert_eq!(p.flags.free_space, DiskSpace::Percent(9 * PERCENT + PERCENT / 2));
    assert_eq!(p.store(Flag::Foreground, b""), Ok(()));
    assert!(p.flags.foreground);
    assert_eq!(p.store(Flag::Uid, b"1000"), Ok(()));
    assert_eq!(p.store(Flag::Gid, b"4294967295"), Ok(()));
    assert_eq!(p.flags.uid, 1000);
    assert_eq!(p.flags.gid, u32::MAX);
    assert_eq!(p.store(Flag::Test, b""), Ok(()));
    assert!(p.test);
    assert_eq!(p.store(Flag::From, b"/src"), Ok(()));
    assert_eq!(p.store(Flag::To, b"/cache"), Ok(()));
    assert_eq!(p.store(Flag::MountPoint, b"/mnt"), Ok(()));
    assert_eq!(p.flags.cat_from, b"/src".to_vec());
    assert_eq!(p.flags.cat_to, b"/cache".to_vec());
    assert_eq!(p.flags.mount_point, b"/mnt".to_vec());
    assert_eq!(p.store(Flag::Option, b"ro,allow_other"), Ok(()));
    assert_eq!(
        p.flags.mount_options,
        args(&[
            "-o",
            "atomic_o_trunc",
            "-o",
            "default_permissions",
            "-o",
            "ro",
            "-o",
            "allow_other"
        ])
    );
}

#[test]
fn values_that_cannot_be_read_change_nothing() {
    let mut p = Parsed::new();
    assert_eq!(p.store(Flag::Uid, b"root"), Err(ParseFault::InvalidDigit));
    assert_eq!(p.store(Flag::Gid, b"4294967296"), Err(ParseFault::TooLarge));
    assert_eq!(p.store(Flag::Uid, b""), Err(ParseFault::Empty));
    assert_eq!(p.store(Flag::Space, b"25W"), Err(ParseFault::UnknownUnit));
    assert_eq!(p.flags.uid, 0);
    assert_eq!(p.flags.gid, 0);
    assert_eq!(p.flags.free_space, DiskSpace::Bytes(0));
}

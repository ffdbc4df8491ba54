use catfs::errno::{EIO, ENOENT, EPERM};
use catfs::error::RError;
use catfs::file::{Action, File, Handle, Side, Step};
use catfs::inode::{lookup_path, to_filetype, FileAttr, Inode};
use catfs::namespace::{NameAction, NameStep};
use catfs::stat::{FileType, Stat, Timespec};

fn stat(mode: u32) -> Stat {
    Stat {
        st_ino: 42,
        st_mode: mode,
        st_nlink: 2,
        st_uid: 1000,
        st_gid: 100,
        st_rdev: 0x1_0000_0005,
        st_size: 11,
        st_blksize: 4096,
        st_blocks: 8,
        st_atime: 10,
        st_atime_nsec: 1,
        st_mtime: 20,
        st_mtime_nsec: 2,
        st_ctime: 30,
        st_ctime_nsec: 3,
    }
}

fn at(sec: u64) -> Timespec {
    Timespec { sec, nsec: 0 }
}

fn root() -> Inode {
    let attr = lookup_path(&stat(0o040755)).unwrap();
    Inode::new(3, 4, Vec::new(), Vec::new(), attr, at(100))
}

#[test]
fn kinds_of_file() {
    assert_eq!(to_filetype(0o100644), Some(FileType::RegularFile));
    assert_eq!(to_filetype(0o040755), Some(FileType::Directory));
    assert_eq!(to_filetype(0o120777), Some(FileType::Symlink));
    assert_eq!(to_filetype(0o060660), Some(FileType::BlockDevice));
    assert_eq!(to_filetype(0o020620), Some(FileType::CharDevice));
    assert_eq!(to_filetype(0o010600), Some(FileType::NamedPipe));
    assert_eq!(to_filetype(0o140755), None);
    assert_eq!(to_filetype(0), None);
}

#[test]
fn attributes_come_from_stat() {
    let attr = lookup_path(&stat(0o104755)).unwrap();
    assert_eq!(
        attr,
        FileAttr {
            ino: 42,
            size: 11,
            blocks: 8,
            atime: at(10),
            mtime: at(20),
            ctime: at(30),
            crtime: at(30),
            kind: FileType::RegularFile,
            perm: 0o4755,
            nlink: 2,
            uid: 1000,
            gid: 100,
            rdev: 5,
            blksize: 4096,
            flags: 0,
        }
    );
    assert_eq!(lookup_path(&stat(0o140755)), None);
    let odd = Stat { st_size: -1, st_nlink: u64::MAX, st_blksize: -4, st_mtime: -9, ..stat(0o100600) };
    let attr = lookup_path(&odd).unwrap();
    assert_eq!(attr.size, 0);
    assert_eq!(attr.nlink, u32::MAX);
    assert_eq!(attr.blksize, 0);
    assert_eq!(attr.mtime, at(0));
}

#[test]
fn a_new_inode_has_one_lookup() {
    let r = root();
    assert_eq!(r.get_refcnt(), 1);
    assert_eq!(r.get_ino(), 42);
    assert_eq!(r.get_kind(), FileType::Directory);
    assert_eq!(r.get_path(), &Vec::<u8>::new());
    assert_eq!(r.get_attr().perm, 0o755);
    assert!(!r.was_flush_failed());
    assert!(!r.cache_valid_if_present);
}

#[test]
fn lookups_are_counted() {
    let mut r = root();
    assert_eq!(r.inc_ref(), 2);
    assert_eq!(r.inc_ref(), 3);
    assert!(!r.deref(2));
    assert_eq!(r.get_refcnt(), 1);
    assert!(r.deref(1));
    assert_eq!(r.get_refcnt(), 0);
    assert!(r.deref(0));
}

#[test]
fn freshness_is_told_by_the_time_to_live() {
    let r = root();
    let s = 1_000_000_000u128;
    assert!(r.not_expired(s, &at(100)));
    assert!(r.not_expired(s, &Timespec { sec: 100, nsec: 999_999_999 }));
    assert!(!r.not_expired(s, &at(101)));
    assert!(!r.not_expired(0, &at(100)));
    // a clock that went back makes nothing old
    assert!(r.not_expired(s, &at(50)));
    assert!(r.not_expired(0, &at(50)));
}

#[test]
fn size_only_grows_by_extend() {
    let mut r = root();
    r.extend(5);
    assert_eq!(r.get_attr().size, 11);
    r.extend(4096);
    assert_eq!(r.get_attr().size, 4096);
    r.extend(11);
    assert_eq!(r.get_attr().size, 4096);
}

#[test]
fn flush_results_are_remembered() {
    let mut r = root();
    r.opened();
    assert!(r.cache_valid_if_present);
    r.flush_failed();
    assert!(r.was_flush_failed());
    assert!(!r.cache_valid_if_present);
    assert!(r.disable_splice());
    r.opened();
    r.flushed();
    assert!(!r.was_flush_failed());
    assert!(!r.cache_valid_if_present);
    assert!(!r.disable_splice());
}

#[test]
fn refresh_takes_what_the_source_says() {
    let mut r = root();
    assert_eq!(r.refresh(Ok(Stat { st_size: 77, ..stat(0o100644) })), Ok(()));
    assert_eq!(r.get_attr().size, 77);
    assert_eq!(r.get_kind(), FileType::RegularFile);
    assert_eq!(r.refresh(Err(ENOENT)), Err(RError { e: ENOENT, traced: false }));
    assert_eq!(r.refresh(Err(EPERM)), Err(RError { e: EPERM, traced: true }));
    assert_eq!(r.refresh(Ok(stat(0o140644))), Err(RError { e: EIO, traced: true }));
    assert_eq!(r.get_attr().size, 77);
}

#[test]
fn children_are_made_of_what_the_source_says() {
    let mut dir = root();
    dir.renamed(b"dir1".to_vec(), b"dir1".to_vec());
    assert_eq!(dir.get_child_name(b"file1"), b"dir1/file1".to_vec());

    let child = dir.lookup(b"file1", Ok(stat(0o100644)), at(7)).unwrap();
    assert_eq!(child.name, b"file1".to_vec());
    assert_eq!(child.path, b"dir1/file1".to_vec());
    assert_eq!(child.time, at(7));
    assert_eq!(child.get_refcnt(), 1);
    assert_eq!(child.src_dir, 3);
    assert_eq!(child.cache_dir, 4);
    assert!(!child.cache_valid_if_present);
    assert_eq!(
        dir.lookup(b"file1", Err(ENOENT), at(7)).unwrap_err(),
        RError { e: ENOENT, traced: false }
    );

    let created = dir.create(b"foo", Ok(stat(0o100644)), at(8)).unwrap();
    assert!(created.cache_valid_if_present);
    assert_eq!(created.path, b"dir1/foo".to_vec());
    assert_eq!(
        dir.create(b"foo", Err(ENOENT), at(8)).unwrap_err(),
        RError { e: ENOENT, traced: true }
    );

    let made = dir.mkdir(b"sub", Ok(stat(0o040755)), at(9)).unwrap();
    assert_eq!(made.get_kind(), FileType::Directory);
    assert!(!made.cache_valid_if_present);
    assert_eq!(
        dir.mkdir(b"sub", Err(EPERM), at(9)).unwrap_err(),
        RError { e: EPERM, traced: true }
    );
}

#[test]
fn take_and_use_ino() {
    let mut a = root();
    let mut b = root();
    b.attr.size = 5;
    b.time = at(500);
    b.inc_ref();
    a.take(b);
    assert_eq!(a.get_attr().size, 5);
    assert_eq!(a.time, at(500));
    assert_eq!(a.get_refcnt(), 1);
    a.use_ino(1);
    assert_eq!(a.get_ino(), 1);
    let c = a.duplicate();
    assert_eq!(c.get_ino(), 1);
    assert_eq!(c.path, a.path);
}

#[test]
fn operations_begin_with_what_the_inode_knows() {
    let mut file = root().lookup(b"file1", Ok(stat(0o100644)), at(7)).unwrap();
    let (op, step) = file.open(0);
    assert!(!op.cache_valid_if_present);
    assert!(op.has_parent);
    assert_eq!(step, Step::Do(Action::Validate { assume_valid: false, check_only: false }));
    file.opened();
    let (op, step) = file.open(0);
    assert!(op.cache_valid_if_present);
    assert_eq!(step, Step::Do(Action::Validate { assume_valid: true, check_only: false }));

    let handle = Handle {
        src_file: File::with_fd(5),
        cache_file: File::with_fd(6),
        dirty: false,
        write_through_failed: true,
        has_page_in_thread: false,
    };
    let (op, step) = file.reopen_src(handle);
    assert!(op.create);
    assert_eq!(step, Step::Do(Action::Probe { side: Side::Source }));

    let (op, step) = file.rename(b"dir2/file1");
    assert!(op.has_parent);
    assert_eq!(step, NameStep::Do(NameAction::Rename { side: Side::Source }));

    let (_, step) = Inode::begin_create(b"foo", 0o644);
    assert_eq!(step, Step::Do(Action::MakeParents));
    let (_, step) = Inode::begin_create(b"", 0o644);
    assert_eq!(step, Step::Do(Action::Open { side: Side::Source, flags: 0o301, mode: 0o644 }));
}

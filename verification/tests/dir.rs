use catfs::dir::Handle;
use catfs::dir_walker::{DirWalker, WalkEvent, WalkStep};
use catfs::errno::{DT_BLK, DT_CHR, DT_DIR, DT_FIFO, DT_LNK, DT_REG, DT_UNKNOWN, EIO};
use catfs::rlibc::Dirent;
use catfs::stat::FileType;

fn entry(name: &str, off: i64) -> Dirent {
    Dirent { d_ino: 10 + off as u64, d_off: off, d_type: DT_REG, d_name: name.as_bytes().to_vec() }
}

#[test]
fn entries_say_what_they_are() {
    let e = entry("file1", 3);
    assert_eq!(e.ino(), 13);
    assert_eq!(e.off(), 3);
    assert_eq!(e.name(), &b"file1".to_vec());
    assert_eq!(e.kind(), FileType::RegularFile);
    let kinds = [
        (DT_BLK, FileType::BlockDevice),
        (DT_CHR, FileType::CharDevice),
        (DT_DIR, FileType::Directory),
        (DT_FIFO, FileType::NamedPipe),
        (DT_LNK, FileType::Symlink),
        (DT_REG, FileType::RegularFile),
        (0, FileType::RegularFile),
        (12, FileType::RegularFile),
    ];
    for (t, k) in kinds {
        assert_eq!(Dirent { d_type: t, ..entry("x", 1) }.kind(), k);
    }
}

#[test]
fn an_entry_that_found_no_room_comes_again() {
    let mut h = Handle::new();
    assert_eq!(h.readdir(), None);
    assert!(!h.seekdir(0));
    assert!(h.offered(entry("a", 1), false));
    assert_eq!(h.readdir(), None);
    assert!(!h.offered(entry("b", 2), true));
    assert_eq!(h.readdir(), Some(entry("b", 2)));
    assert_eq!(h.readdir(), Some(entry("b", 2)));
    // the next listing begins where the last one ended: nothing moves
    assert!(!h.seekdir(1));
    assert_eq!(h.readdir(), Some(entry("b", 2)));
    h.consumed(&entry("b", 2));
    assert_eq!(h.readdir(), None);
    assert!(!h.seekdir(2));
}

#[test]
fn seeking_elsewhere_drops_what_was_held() {
    let mut h = Handle::new();
    h.push(entry("b", 2));
    assert!(h.seekdir(7));
    assert_eq!(h.readdir(), None);
    assert!(!h.seekdir(7));
    assert!(h.seekdir(0));
}

fn file(name: &str) -> WalkEvent {
    WalkEvent::Entry { d_type: DT_REG, name: name.as_bytes().to_vec() }
}

fn subdir(name: &str) -> WalkEvent {
    WalkEvent::Entry { d_type: DT_DIR, name: name.as_bytes().to_vec() }
}

#[test]
fn iterator_test() {
    // the tree: dir1/{file1, file2}, file1, file2, file3
    let (mut w, first) = DirWalker::new();
    assert_eq!(first, WalkStep::Open(Vec::new()));
    let mut files: Vec<Vec<u8>> = Vec::new();
    assert_eq!(w.step(WalkEvent::Opened), WalkStep::Read);
    assert_eq!(w.step(subdir(".")), WalkStep::Read);
    assert_eq!(w.step(subdir("..")), WalkStep::Read);
    for name in ["file1", "file2"] {
        match w.step(file(name)) {
            WalkStep::Yield(p) => files.push(p),
            other => panic!("{:?}", other),
        }
        assert_eq!(w.resume(), WalkStep::Read);
    }
    assert_eq!(w.step(subdir("dir1")), WalkStep::Read);
    match w.step(file("file3")) {
        WalkStep::Yield(p) => files.push(p),
        other => panic!("{:?}", other),
    }
    assert_eq!(w.step(WalkEvent::EndOfDir), WalkStep::Close);
    assert_eq!(w.step(WalkEvent::Closed), WalkStep::Open(b"dir1".to_vec()));
    assert_eq!(w.step(WalkEvent::Opened), WalkStep::Read);
    for name in ["file1", "file2"] {
        match w.step(file(name)) {
            WalkStep::Yield(p) => files.push(p),
            other => panic!("{:?}", other),
        }
    }
    assert_eq!(w.step(WalkEvent::EndOfDir), WalkStep::Close);
    assert_eq!(w.step(WalkEvent::Closed), WalkStep::End);
    assert_eq!(w.resume(), WalkStep::End);
    assert_eq!(w.step(WalkEvent::Opened), WalkStep::End);

    files.sort();
    assert_eq!(files.len(), 5);
    let mut iter = files.into_iter();
    assert_eq!(iter.next().unwrap(), b"dir1/file1".to_vec());
    assert_eq!(iter.next().unwrap(), b"dir1/file2".to_vec());
    assert_eq!(iter.next().unwrap(), b"file1".to_vec());
    assert_eq!(iter.next().unwrap(), b"file2".to_vec());
    assert_eq!(iter.next().unwrap(), b"file3".to_vec());
    assert_eq!(iter.next(), None);
}

#[test]
fn directories_found_last_are_walked_first() {
    let (mut w, _) = DirWalker::new();
    w.step(WalkEvent::Opened);
    assert_eq!(w.step(subdir("a")), WalkStep::Read);
    assert_eq!(w.step(subdir("b")), WalkStep::Read);
    assert_eq!(w.step(WalkEvent::EndOfDir), WalkStep::Close);
    assert_eq!(w.step(WalkEvent::Closed), WalkStep::Open(b"b".to_vec()));
    w.step(WalkEvent::Opened);
    assert_eq!(w.step(subdir("c")), WalkStep::Read);
    assert_eq!(w.step(WalkEvent::EndOfDir), WalkStep::Close);
    assert_eq!(w.step(WalkEvent::Closed), WalkStep::Open(b"b/c".to_vec()));
    w.step(WalkEvent::Opened);
    assert_eq!(w.step(file("f")), WalkStep::Yield(b"b/c/f".to_vec()));
    assert_eq!(w.step(WalkEvent::EndOfDir), WalkStep::Close);
    assert_eq!(w.step(WalkEvent::Closed), WalkStep::Open(b"a".to_vec()));
}

#[test]
fn only_regular_files_are_given() {
    let (mut w, _) = DirWalker::new();
    w.step(WalkEvent::Opened);
    for t in [DT_LNK, DT_FIFO, DT_CHR, DT_BLK, 12, 14] {
        assert_eq!(w.step(WalkEvent::Entry { d_type: t, name: b"x".to_vec() }), WalkStep::Read);
    }
    assert_eq!(
        w.step(WalkEvent::Entry { d_type: DT_REG, name: b"x".to_vec() }),
        WalkStep::Yield(b"x".to_vec())
    );
    // the two names that every directory has are passed over, whatever they are said to be
    for t in [DT_DIR, DT_REG, DT_UNKNOWN] {
        assert_eq!(w.step(WalkEvent::Entry { d_type: t, name: b"..".to_vec() }), WalkStep::Read);
    }
    assert_eq!(w.step(WalkEvent::EndOfDir), WalkStep::Close);
    assert_eq!(w.step(WalkEvent::Closed), WalkStep::End);
}

#[test]
fn the_mode_decides_where_the_directory_does_not_tell() {
    let (mut w, _) = DirWalker::new();
    w.step(WalkEvent::Opened);
    let unknown = |name: &str| WalkEvent::Entry { d_type: DT_UNKNOWN, name: name.as_bytes().to_vec() };
    assert_eq!(w.step(unknown("f")), WalkStep::Stat(b"f".to_vec()));
    assert_eq!(w.step(WalkEvent::Mode(0o100644)), WalkStep::Yield(b"f".to_vec()));
    assert_eq!(w.resume(), WalkStep::Read);
    assert_eq!(w.step(unknown("d")), WalkStep::Stat(b"d".to_vec()));
    assert_eq!(w.step(WalkEvent::Mode(0o040755)), WalkStep::Read);
    assert_eq!(w.step(unknown("l")), WalkStep::Stat(b"l".to_vec()));
    assert_eq!(w.step(WalkEvent::Mode(0o120777)), WalkStep::Read);
    // a mode that nobody asked for changes nothing
    assert_eq!(w.step(WalkEvent::Mode(0o100644)), WalkStep::Read);
    // the directory that the mode told is walked
    assert_eq!(w.step(WalkEvent::EndOfDir), WalkStep::Close);
    assert_eq!(w.step(WalkEvent::Closed), WalkStep::Open(b"d".to_vec()));
    w.step(WalkEvent::Opened);
    assert_eq!(w.step(unknown("g")), WalkStep::Stat(b"d/g".to_vec()));
    // a file that cannot be asked about ends the walk
    assert_eq!(w.step(WalkEvent::Failed(EIO)), WalkStep::Fail(EIO));
    assert_eq!(w.step(WalkEvent::Mode(0o100644)), WalkStep::End);
}

#[test]
fn a_failure_ends_the_walk() {
    let (mut w, _) = DirWalker::new();
    w.step(WalkEvent::Opened);
    w.step(subdir("a"));
    assert_eq!(w.step(WalkEvent::Failed(EIO)), WalkStep::Fail(EIO));
    assert_eq!(w.step(WalkEvent::Closed), WalkStep::End);
    assert_eq!(w.resume(), WalkStep::End);
}

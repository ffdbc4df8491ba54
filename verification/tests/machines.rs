use catfs::errno::{
    EBADF, EINVAL, EIO, ENOENT, ENOSPC, ENOTEMPTY, ENOTSUP, EPERM, O_CREAT, O_RDONLY, O_RDWR,
    O_TRUNC, O_WRONLY,
};
use catfs::error::RError;
use catfs::file::{
    make_rdwr, Action, File, Flush, Handle, Read, Reply, Side, Step, Truncate, Write,
};
use catfs::fs::{
    emergency_evicter, flushed, refreshed, statfs, written_end, AttrAction, AttrStep, Flushed,
    SetAttr, SetAttrRequest, StatfsReply, TimeOrNow, WriteNext, WriteRetry,
};
use catfs::flags::{DiskSpace, PERCENT};
use catfs::inode::{lookup_path, Inode};
use catfs::namespace::{NameAction, NameStep, Remove, Rename, Resize};
use catfs::open::{Create, MakePristine, Open, Reopen, Validate};
use catfs::rlibc::{existat, made, SetSize, SizeAction, SizeStep};
use catfs::stat::{Stat, StatVfs, Timespec};
use catfs::transfer::{Move, Progress, Transfer, SPLICE_CHUNK, USER_CHUNK};

fn handle(dirty: bool, wtf: bool, paging: bool) -> Handle {
    Handle {
        src_file: File::with_fd(5),
        cache_file: File::with_fd(6),
        dirty,
        write_through_failed: wtf,
        has_page_in_thread: paging,
    }
}

fn traced(e: i32) -> RError<i32> {
    RError { e, traced: true }
}

fn expected(e: i32) -> RError<i32> {
    RError { e, traced: false }
}

#[test]
fn files_and_flags() {
    assert!(File::with_fd(0).valid());
    assert!(!File::default().valid());
    let mut f = File::with_fd(7);
    assert_eq!(f.as_raw_fd(), 7);
    assert_eq!(f.into_raw(), 7);
    assert!(!f.valid());
    let mut g = File::with_fd(8);
    g.closed();
    assert!(!g.valid());

    let mut flags = O_WRONLY | O_CREAT;
    make_rdwr(&mut flags);
    assert_eq!(flags, O_RDWR | O_CREAT);
    let mut flags = O_RDONLY;
    make_rdwr(&mut flags);
    assert_eq!(flags, O_RDWR);
}

#[test]
fn read_collects_short_reads() {
    let (r, step) = Read::begin(handle(false, false, false), 100, 10);
    assert_eq!(step, Step::Do(Action::ReadAt { side: Side::Cache, skip: 0, offset: 100 }));
    let (r, step) = r.step(Reply::Count(4));
    assert_eq!(step, Step::Do(Action::ReadAt { side: Side::Cache, skip: 4, offset: 104 }));
    let (r, step) = r.step(Reply::Count(6));
    assert_eq!(step, Step::Finish(Ok(10)));
    assert_eq!(r.step(Reply::Count(1)).1, Step::Finish(Err(traced(EIO))));
}

#[test]
fn read_ends_at_the_end_of_the_file_or_at_a_late_error() {
    let (r, _) = Read::begin(handle(false, false, false), 0, 10);
    assert_eq!(r.step(Reply::Count(0)).1, Step::Finish(Ok(0)));
    let (r, _) = r.step(Reply::Count(3));
    assert_eq!(r.step(Reply::Count(0)).1, Step::Finish(Ok(3)));
    assert_eq!(r.step(Reply::Failed(EIO)).1, Step::Finish(Ok(3)));
    assert_eq!(r.step(Reply::Count(8)).1, Step::Finish(Ok(3)));

    let (r, _) = Read::begin(handle(false, false, false), 0, 10);
    assert_eq!(r.step(Reply::Failed(EBADF)).1, Step::Finish(Err(traced(EBADF))));

    assert_eq!(Read::begin(handle(false, false, false), 0, 0).1, Step::Finish(Ok(0)));
    assert_eq!(
        Read::begin(handle(false, false, false), u64::MAX, 1).1,
        Step::Finish(Err(expected(EINVAL)))
    );
}

#[test]
fn read_waits_for_the_page_in() {
    let (r, step) = Read::begin(handle(false, false, true), 100, 10);
    assert_eq!(step, Step::Do(Action::WaitForOffset { offset: 110, set_dirty: false }));
    let (r2, step) = r.step(Reply::Flag(false));
    assert_eq!(step, Step::Do(Action::ReadAt { side: Side::Cache, skip: 0, offset: 100 }));
    assert!(r2.handle.has_page_in_thread);
    let (r3, _) = r.step(Reply::Flag(true));
    assert!(!r3.handle.has_page_in_thread);
    assert_eq!(r.step(Reply::Error(expected(EIO))).1, Step::Finish(Err(expected(EIO))));
}

#[test]
fn write_goes_to_the_source_then_to_the_cache() {
    let (w, step) = Write::begin(handle(false, false, false), 9, 4);
    assert_eq!(step, Step::Do(Action::SetPristine { pristine: false }));
    let (w, step) = w.step(Reply::Done);
    assert_eq!(step, Step::Do(Action::WriteAt { side: Side::Source, skip: 0, offset: 9 }));
    let (w, step) = w.step(Reply::Count(4));
    assert_eq!(step, Step::Do(Action::WriteAt { side: Side::Cache, skip: 0, offset: 9 }));
    let (w, step) = w.step(Reply::Count(3));
    assert_eq!(step, Step::Do(Action::WriteAt { side: Side::Source, skip: 3, offset: 12 }));
    let (w, step) = w.step(Reply::Count(1));
    assert_eq!(step, Step::Do(Action::WriteAt { side: Side::Cache, skip: 3, offset: 12 }));
    let (w, step) = w.step(Reply::Count(1));
    assert_eq!(step, Step::Finish(Ok(4)));
    assert!(w.handle.dirty);
    assert!(!w.handle.write_through_failed);
}

#[test]
fn write_to_a_dirty_handle_does_not_unmark_again() {
    let (_, step) = Write::begin(handle(true, false, false), 0, 4);
    assert_eq!(step, Step::Do(Action::WriteAt { side: Side::Source, skip: 0, offset: 0 }));
    let (w, step) = Write::begin(handle(true, true, false), 0, 4);
    assert_eq!(step, Step::Do(Action::WriteAt { side: Side::Cache, skip: 0, offset: 0 }));
    assert_eq!(w.step(Reply::Count(4)).1, Step::Finish(Ok(4)));
    assert_eq!(Write::begin(handle(true, false, false), 0, 0).1, Step::Finish(Ok(0)));
    assert_eq!(
        Write::begin(handle(true, false, false), i64::MAX as u64, 1).1,
        Step::Finish(Err(expected(EINVAL)))
    );
}

#[test]
fn write_waits_for_the_page_in_and_marks_it_dirty() {
    let (w, step) = Write::begin(handle(true, false, true), 100, 10);
    assert_eq!(step, Step::Do(Action::WaitForOffset { offset: 110, set_dirty: true }));
    let (w2, step) = w.step(Reply::Flag(true));
    assert_eq!(step, Step::Do(Action::WriteAt { side: Side::Source, skip: 0, offset: 100 }));
    assert!(!w2.handle.has_page_in_thread);
    assert_eq!(w.step(Reply::Error(expected(EIO))).1, Step::Finish(Err(expected(EIO))));
}

#[test]
fn a_source_that_refuses_writes_is_remembered() {
    let (w, _) = Write::begin(handle(true, false, false), 0, 4);
    let (w2, step) = w.step(Reply::Failed(ENOTSUP));
    assert_eq!(step, Step::Finish(Err(expected(ENOTSUP))));
    assert!(w2.handle.write_through_failed);

    let (w3, step) = w.step(Reply::Failed(ENOSPC));
    assert_eq!(step, Step::Finish(Err(traced(ENOSPC))));
    assert!(!w3.handle.write_through_failed);
}

#[test]
fn write_errors_after_some_bytes_give_the_count() {
    let (w, _) = Write::begin(handle(false, false, false), 0, 8);
    let (w, _) = w.step(Reply::Done);
    let (w, _) = w.step(Reply::Count(8));
    // the first cache write fails: nothing written, the error counts
    let (failed, step) = w.step(Reply::Failed(ENOSPC));
    assert_eq!(step, Step::Finish(Err(traced(ENOSPC))));
    assert!(!failed.handle.dirty);
    let (w, _) = w.step(Reply::Count(5));
    let (w, _) = w.step(Reply::Count(3));
    let (short, step) = w.step(Reply::Failed(ENOSPC));
    assert_eq!(step, Step::Finish(Ok(5)));
    assert!(short.handle.dirty);
    // a later source error is an error, and the handle is dirty
    let (w, _) = Write::begin(handle(false, false, false), 0, 8);
    let (w, _) = w.step(Reply::Done);
    let (w, _) = w.step(Reply::Count(8));
    let (w, _) = w.step(Reply::Count(5));
    let (late, step) = w.step(Reply::Failed(EIO));
    assert_eq!(step, Step::Finish(Err(traced(EIO))));
    assert!(late.handle.dirty);
    // clearing the mark fails: nothing is written
    let (w, _) = Write::begin(handle(false, false, false), 0, 8);
    assert_eq!(w.step(Reply::Error(traced(EPERM))).1, Step::Finish(Err(traced(EPERM))));
}

#[test]
fn a_cache_that_takes_no_bytes_has_failed() {
    // the source takes the first piece, the cache takes nothing of it
    let (w, _) = Write::begin(handle(false, false, false), 0, 8);
    let (w, _) = w.step(Reply::Done);
    let (w, _) = w.step(Reply::Count(4));
    assert_eq!(w.step(Reply::Count(0)).1, Step::Finish(Err(traced(EIO))));
    assert_eq!(w.step(Reply::Count(9)).1, Step::Finish(Err(traced(EIO))));
    // after some bytes the count of them is the result, and the handle is dirty
    let (w, _) = w.step(Reply::Count(5));
    let (w, _) = w.step(Reply::Count(3));
    let (end, step) = w.step(Reply::Count(0));
    assert_eq!(step, Step::Finish(Ok(5)));
    assert!(end.handle.dirty);
    let (end, step) = w.step(Reply::Count(4));
    assert_eq!(step, Step::Finish(Ok(5)));
    assert!(end.handle.dirty);
}

#[test]
fn flush_of_a_clean_handle_does_nothing() {
    let (f, step) = Flush::begin(handle(false, false, false));
    assert_eq!(step, Step::Finish(Ok(false)));
    assert_eq!(f.handle, handle(false, false, false));
    let (f, step) = Flush::begin(handle(false, false, true));
    assert_eq!(step, Step::Do(Action::Cancel));
    let (f, step) = f.step(Reply::Done);
    assert_eq!(step, Step::Finish(Ok(false)));
    assert_eq!(f.handle, handle(false, false, true));
}

#[test]
fn flush_marks_then_flushes_both_files() {
    let (f, step) = Flush::begin(handle(true, false, false));
    assert_eq!(step, Step::Do(Action::SetPristine { pristine: true }));
    let (f, step) = f.step(Reply::Done);
    assert_eq!(step, Step::Do(Action::Sync { side: Side::Cache }));
    let (f, step) = f.step(Reply::Done);
    assert_eq!(step, Step::Do(Action::Sync { side: Side::Source }));
    let (f, step) = f.step(Reply::Done);
    assert_eq!(step, Step::Finish(Ok(true)));
    assert!(!f.handle.dirty);
    // a second flush finds nothing to do
    assert_eq!(Flush::begin(f.handle).1, Step::Finish(Ok(false)));
}

#[test]
fn flush_copies_when_the_source_refused_writes() {
    let (f, step) = Flush::begin(handle(true, true, true));
    assert_eq!(step, Step::Do(Action::WaitForEof));
    let (f, step) = f.step(Reply::Done);
    assert_eq!(step, Step::Do(Action::Copy { to_cache: false, disable_splice: false }));
    assert!(!f.handle.has_page_in_thread);
    let (f, step) = f.step(Reply::Done);
    assert_eq!(step, Step::Do(Action::Sync { side: Side::Cache }));
    let (f2, step) = f.step(Reply::Failed(EIO));
    assert_eq!(step, Step::Finish(Err(traced(EIO))));
    assert!(f2.handle.dirty);
    let (_, step) = Flush::begin(handle(true, true, false));
    assert_eq!(step, Step::Do(Action::Copy { to_cache: false, disable_splice: false }));
    let (f, _) = Flush::begin(handle(true, true, false));
    assert_eq!(f.step(Reply::Error(expected(ENOSPC))).1, Step::Finish(Err(expected(ENOSPC))));
}

#[test]
fn a_source_that_cannot_be_flushed_loses_its_descriptor_and_the_mark() {
    let (f, _) = Flush::begin(handle(true, false, false));
    let (f, _) = f.step(Reply::Done);
    let (f, _) = f.step(Reply::Done);
    let (f, step) = f.step(Reply::Failed(EIO));
    assert_eq!(step, Step::Do(Action::SetPristine { pristine: false }));
    assert!(!f.handle.src_file.valid());
    assert!(f.handle.cache_file.valid());
    let (f2, step) = f.step(Reply::Done);
    assert_eq!(step, Step::Finish(Err(expected(EIO))));
    assert!(f2.handle.dirty);
    assert_eq!(f.step(Reply::Error(traced(EPERM))).1, Step::Finish(Err(traced(EPERM))));
    // marking fails
    let (f, _) = Flush::begin(handle(true, false, false));
    assert_eq!(f.step(Reply::Error(traced(EPERM))).1, Step::Finish(Err(traced(EPERM))));
}

#[test]
fn truncate_sizes_the_source_first() {
    let (t, step) = Truncate::begin(handle(false, false, true), 5);
    assert_eq!(step, Step::Do(Action::SetSize { side: Side::Source, size: 5 }));
    let (t, step) = t.step(Reply::Done);
    assert_eq!(step, Step::Do(Action::WaitForEof));
    let (t, step) = t.step(Reply::Done);
    assert_eq!(step, Step::Do(Action::SetSize { side: Side::Cache, size: 5 }));
    assert!(!t.handle.has_page_in_thread);
    assert_eq!(t.step(Reply::Done).1, Step::Finish(Ok(())));
    assert_eq!(t.step(Reply::Error(traced(ENOSPC))).1, Step::Finish(Err(traced(ENOSPC))));

    let (t, _) = Truncate::begin(handle(false, false, false), 5);
    assert_eq!(t.step(Reply::Error(traced(EPERM))).1, Step::Finish(Err(traced(EPERM))));
    assert_eq!(
        t.step(Reply::Done).1,
        Step::Do(Action::SetSize { side: Side::Cache, size: 5 })
    );
}

#[test]
fn validate_without_a_source_removes_the_cache_file() {
    let (v, step) = Validate::begin(false, false);
    assert_eq!(step, Step::Do(Action::Open { side: Side::Source, flags: O_RDONLY, mode: 0 }));
    let (v, step) = v.step(Reply::Failed(ENOENT));
    assert_eq!(step, Step::Do(Action::Unlink { side: Side::Cache }));
    assert_eq!(v.step(Reply::Done).1, Step::Finish(Ok(false)));

    let (v, _) = Validate::begin(false, false);
    let (v, _) = v.step(Reply::Failed(ENOENT));
    assert_eq!(v.step(Reply::Failed(ENOENT)).1, Step::Finish(Ok(false)));
    let (v, _) = Validate::begin(false, false);
    let (v, _) = v.step(Reply::Failed(ENOENT));
    assert_eq!(v.step(Reply::Failed(EPERM)).1, Step::Finish(Err(traced(EPERM))));

    // with check_only nothing is removed
    let (v, _) = Validate::begin(false, true);
    assert_eq!(v.step(Reply::Failed(ENOENT)).1, Step::Finish(Ok(false)));
    let (v, _) = Validate::begin(false, true);
    assert_eq!(v.step(Reply::Failed(EIO)).1, Step::Finish(Err(traced(EIO))));
}

#[test]
fn validate_without_a_cache_file_says_no() {
    let (v, _) = Validate::begin(true, false);
    let (v, step) = v.step(Reply::Fd(7));
    assert_eq!(step, Step::Do(Action::Open { side: Side::Cache, flags: O_RDONLY, mode: 0 }));
    let (v, step) = v.step(Reply::Failed(ENOENT));
    assert_eq!(step, Step::Do(Action::Close { side: Side::Source }));
    assert_eq!(v.step(Reply::Done).1, Step::Finish(Ok(false)));

    let (v, _) = Validate::begin(true, false);
    let (v, _) = v.step(Reply::Fd(7));
    let (v, _) = v.step(Reply::Failed(EPERM));
    assert_eq!(v.step(Reply::Done).1, Step::Finish(Err(traced(EPERM))));
}

fn validate_to_check(assume_valid: bool, check_only: bool) -> (Validate, Step<bool>) {
    let (v, _) = Validate::begin(assume_valid, check_only);
    let (v, _) = v.step(Reply::Fd(7));
    v.step(Reply::Fd(8))
}

fn close_both(v: Validate) -> Step<bool> {
    let (v, step) = v.step(Reply::Done);
    assert_eq!(step, Step::Do(Action::Close { side: Side::Cache }));
    v.step(Reply::Done).1
}

#[test]
fn validate_trusts_or_checks_the_digest() {
    let (v, step) = validate_to_check(true, false);
    assert_eq!(step, Step::Do(Action::Close { side: Side::Source }));
    assert_eq!(close_both(v), Step::Finish(Ok(true)));

    let (v, step) = validate_to_check(false, false);
    assert_eq!(step, Step::Do(Action::CheckPristine));
    let (v, step) = v.step(Reply::Flag(true));
    assert_eq!(step, Step::Do(Action::Close { side: Side::Source }));
    assert_eq!(close_both(v), Step::Finish(Ok(true)));

    let (v, _) = validate_to_check(false, false);
    let (v, step) = v.step(Reply::Flag(false));
    assert_eq!(step, Step::Do(Action::Unlink { side: Side::Cache }));
    let (v, step) = v.step(Reply::Done);
    assert_eq!(step, Step::Do(Action::Close { side: Side::Source }));
    assert_eq!(close_both(v), Step::Finish(Ok(false)));

    let (v, _) = validate_to_check(false, true);
    let (v, step) = v.step(Reply::Flag(false));
    assert_eq!(step, Step::Do(Action::Close { side: Side::Source }));
    assert_eq!(close_both(v), Step::Finish(Ok(false)));
}

#[test]
fn validate_closes_the_files_when_it_fails() {
    let (v, _) = validate_to_check(false, false);
    let (v, step) = v.step(Reply::Error(traced(EIO)));
    assert_eq!(step, Step::Do(Action::Close { side: Side::Source }));
    let (v, step) = v.step(Reply::Done);
    assert_eq!(step, Step::Do(Action::Close { side: Side::Cache }));
    assert_eq!(v.step(Reply::Failed(EBADF)).1, Step::Finish(Err(traced(EIO))));

    let (v, _) = validate_to_check(true, false);
    let (v, step) = v.step(Reply::Failed(EBADF));
    assert_eq!(step, Step::Do(Action::Close { side: Side::Cache }));
    assert_eq!(v.step(Reply::Done).1, Step::Finish(Err(traced(EBADF))));
}

#[test]
fn create_makes_both_files() {
    let (c, step) = Create::begin(O_WRONLY | O_CREAT, 0o644, true);
    assert_eq!(step, Step::Do(Action::MakeParents));
    let (c, step) = c.step(Reply::Done);
    assert_eq!(
        step,
        Step::Do(Action::Open { side: Side::Source, flags: O_WRONLY | O_CREAT, mode: 0o644 })
    );
    let (c, step) = c.step(Reply::Fd(5));
    assert_eq!(step, Step::Do(Action::Unlink { side: Side::Cache }));
    let (c, step) = c.step(Reply::Failed(ENOENT));
    assert_eq!(
        step,
        Step::Do(Action::Open { side: Side::Cache, flags: O_RDWR | O_CREAT, mode: 0o644 })
    );
    let (_, step) = c.step(Reply::Fd(6));
    assert_eq!(step, Step::Finish(Ok(handle(true, false, false))));
}

#[test]
fn create_gives_up_in_order() {
    let (c, _) = Create::begin(O_RDWR | O_CREAT, 0o600, true);
    assert_eq!(c.step(Reply::Failed(EPERM)).1, Step::Finish(Err(traced(EPERM))));
    let (c, step) = Create::begin(O_RDWR | O_CREAT, 0o600, false);
    assert_eq!(
        step,
        Step::Do(Action::Open { side: Side::Source, flags: O_RDWR | O_CREAT, mode: 0o600 })
    );
    assert_eq!(c.step(Reply::Failed(ENOSPC)).1, Step::Finish(Err(traced(ENOSPC))));
    let (c, _) = Create::begin(O_RDWR | O_CREAT, 0o600, false);
    assert_eq!(c.step(Reply::Fd(-1)).1, Step::Finish(Err(traced(EIO))));

    let (c, _) = Create::begin(O_RDWR | O_CREAT, 0o600, false);
    let (c, _) = c.step(Reply::Fd(5));
    let (c, step) = c.step(Reply::Failed(EPERM));
    assert_eq!(step, Step::Do(Action::Close { side: Side::Source }));
    assert_eq!(c.step(Reply::Done).1, Step::Finish(Err(traced(EPERM))));

    let (c, _) = Create::begin(O_RDWR | O_CREAT, 0o600, false);
    let (c, _) = c.step(Reply::Fd(5));
    let (c, _) = c.step(Reply::Done);
    let (c, step) = c.step(Reply::Failed(ENOSPC));
    assert_eq!(step, Step::Do(Action::Close { side: Side::Source }));
    assert_eq!(c.step(Reply::Failed(EIO)).1, Step::Finish(Err(traced(ENOSPC))));
}

#[test]
fn open_of_a_valid_cache_for_reading_leaves_the_source_alone() {
    let (o, step) = Open::begin(O_RDONLY, true, true);
    assert_eq!(step, Step::Do(Action::Validate { assume_valid: true, check_only: false }));
    let (o, step) = o.step(Reply::Flag(true));
    assert_eq!(step, Step::Do(Action::Open { side: Side::Cache, flags: O_RDONLY, mode: 0o666 }));
    let (_, step) = o.step(Reply::Fd(6));
    assert_eq!(
        step,
        Step::Finish(Ok(Handle {
            src_file: File::default(),
            cache_file: File::with_fd(6),
            dirty: false,
            write_through_failed: false,
            has_page_in_thread: false,
        }))
    );
}

#[test]
fn open_of_a_stale_cache_pages_in() {
    let (o, _) = Open::begin(O_RDONLY, false, true);
    let (o, step) = o.step(Reply::Flag(false));
    assert_eq!(step, Step::Do(Action::MakeParents));
    let (o, step) = o.step(Reply::Done);
    assert_eq!(step, Step::Do(Action::Open { side: Side::Source, flags: O_RDONLY, mode: 0o666 }));
    let (o, step) = o.step(Reply::Fd(5));
    assert_eq!(
        step,
        Step::Do(Action::Open { side: Side::Cache, flags: O_RDWR | O_CREAT, mode: 0o666 })
    );
    let (_, step) = o.step(Reply::Fd(6));
    assert_eq!(step, Step::Finish(Ok(handle(false, false, true))));
}

#[test]
fn open_for_writing_reads_too() {
    let (o, _) = Open::begin(O_WRONLY, false, false);
    let (o, step) = o.step(Reply::Flag(true));
    assert_eq!(step, Step::Do(Action::Open { side: Side::Source, flags: O_RDWR, mode: 0o666 }));
    let (o, step) = o.step(Reply::Fd(5));
    assert_eq!(step, Step::Do(Action::Open { side: Side::Cache, flags: O_RDWR, mode: 0o666 }));
    assert_eq!(o.step(Reply::Fd(6)).1, Step::Finish(Ok(handle(false, false, false))));

    // a file that is cut to nothing needs no page-in
    let (o, _) = Open::begin(O_WRONLY | O_TRUNC, false, false);
    let (o, step) = o.step(Reply::Flag(false));
    assert_eq!(
        step,
        Step::Do(Action::Open { side: Side::Source, flags: O_RDWR | O_TRUNC, mode: 0o666 })
    );
    let (o, step) = o.step(Reply::Fd(5));
    assert_eq!(
        step,
        Step::Do(Action::Open {
            side: Side::Cache,
            flags: O_RDWR | O_TRUNC | O_CREAT,
            mode: 0o666
        })
    );
    assert_eq!(o.step(Reply::Fd(6)).1, Step::Finish(Ok(handle(false, false, false))));
}

#[test]
fn open_gives_up_in_order() {
    let (o, _) = Open::begin(O_RDONLY, false, true);
    assert_eq!(o.step(Reply::Error(traced(EIO))).1, Step::Finish(Err(traced(EIO))));
    let (o, _) = Open::begin(O_RDONLY, false, true);
    let (o, _) = o.step(Reply::Flag(false));
    assert_eq!(o.step(Reply::Failed(EPERM)).1, Step::Finish(Err(traced(EPERM))));
    let (o, _) = Open::begin(O_RDONLY, false, false);
    let (o, _) = o.step(Reply::Flag(false));
    assert_eq!(o.step(Reply::Failed(ENOENT)).1, Step::Finish(Err(traced(ENOENT))));
    let (o, _) = Open::begin(O_RDONLY, false, false);
    let (o, _) = o.step(Reply::Flag(false));
    let (o, _) = o.step(Reply::Fd(5));
    let (o, step) = o.step(Reply::Failed(ENOSPC));
    assert_eq!(step, Step::Do(Action::Close { side: Side::Source }));
    assert_eq!(o.step(Reply::Done).1, Step::Finish(Err(traced(ENOSPC))));
    // without a source there is nothing to close
    let (o, _) = Open::begin(O_RDONLY, true, false);
    let (o, _) = o.step(Reply::Flag(true));
    assert_eq!(o.step(Reply::Failed(ENOSPC)).1, Step::Finish(Err(traced(ENOSPC))));
    let (o, _) = Open::begin(O_RDONLY, true, false);
    let (o, _) = o.step(Reply::Flag(true));
    assert_eq!(o.step(Reply::Fd(-1)).1, Step::Finish(Err(traced(EIO))));
}

#[test]
fn reopen_opens_the_source_as_it_was() {
    let h = handle(true, true, false);
    let (r, step) = Reopen::begin(h, false);
    assert_eq!(step, Step::Do(Action::Probe { side: Side::Source }));
    let (r, step) = r.step(Reply::Done);
    assert_eq!(step, Step::Do(Action::Close { side: Side::Source }));
    let (r, step) = r.step(Reply::Done);
    assert_eq!(step, Step::Do(Action::Open { side: Side::Source, flags: O_RDWR, mode: 0 }));
    assert!(!r.handle.src_file.valid());
    let (r, step) = r.step(Reply::Fd(9));
    assert_eq!(step, Step::Finish(Ok(())));
    assert_eq!(r.handle.src_file, File::with_fd(9));
    assert_eq!(r.handle.cache_file, File::with_fd(6));
}

#[test]
fn reopen_creates_with_the_old_permissions() {
    let (r, _) = Reopen::begin(handle(true, true, false), true);
    let (r, step) = r.step(Reply::Failed(EBADF));
    assert_eq!(step, Step::Do(Action::Mode { side: Side::Source }));
    let (r, step) = r.step(Reply::Count(0o100640));
    assert_eq!(step, Step::Do(Action::Close { side: Side::Source }));
    let (r, step) = r.step(Reply::Failed(ENOTSUP));
    assert_eq!(
        step,
        Step::Do(Action::Open { side: Side::Source, flags: O_WRONLY | O_CREAT, mode: 0o640 })
    );
    assert_eq!(r.step(Reply::Failed(EPERM)).1, Step::Finish(Err(traced(EPERM))));

    let (r, _) = Reopen::begin(handle(true, true, false), true);
    assert_eq!(r.step(Reply::Failed(EIO)).1, Step::Finish(Err(traced(EIO))));
    let (r, _) = Reopen::begin(handle(true, true, false), false);
    let (r, _) = r.step(Reply::Done);
    let (r, step) = r.step(Reply::Failed(EIO));
    assert_eq!(step, Step::Finish(Err(traced(EIO))));
    assert!(!r.handle.src_file.valid());
}

#[test]
fn make_pristine_marks_between_opening_and_closing() {
    let (m, step) = MakePristine::begin();
    assert_eq!(step, Step::Do(Action::Open { side: Side::Cache, flags: O_WRONLY, mode: 0 }));
    let (m, step) = m.step(Reply::Fd(6));
    assert_eq!(step, Step::Do(Action::Open { side: Side::Source, flags: O_RDONLY, mode: 0 }));
    let (m, step) = m.step(Reply::Fd(5));
    assert_eq!(step, Step::Do(Action::SetPristine { pristine: true }));
    let (m, step) = m.step(Reply::Done);
    assert_eq!(step, Step::Do(Action::Close { side: Side::Source }));
    let (m, step) = m.step(Reply::Done);
    assert_eq!(step, Step::Do(Action::Close { side: Side::Cache }));
    assert_eq!(m.step(Reply::Done).1, Step::Finish(Ok(())));

    let (m, _) = MakePristine::begin();
    assert_eq!(m.step(Reply::Failed(ENOENT)).1, Step::Finish(Err(traced(ENOENT))));
    let (m, _) = MakePristine::begin();
    let (m, _) = m.step(Reply::Fd(6));
    let (m, step) = m.step(Reply::Failed(ENOENT));
    assert_eq!(step, Step::Do(Action::Close { side: Side::Cache }));
    assert_eq!(m.step(Reply::Done).1, Step::Finish(Err(traced(ENOENT))));
}

#[test]
fn rmdir_of_a_directory_that_is_not_empty() {
    // the cache refuses: the source is not touched
    let (r, step) = Remove::begin(true);
    assert_eq!(step, NameStep::Do(NameAction::Remove { side: Side::Cache, dir: true }));
    assert_eq!(r.step(Reply::Failed(ENOTEMPTY)).1, NameStep::Finish(Err(expected(ENOTEMPTY))));
    // the cache has no such directory: the source refuses
    let (r, _) = Remove::begin(true);
    let (r, step) = r.step(Reply::Failed(ENOENT));
    assert_eq!(step, NameStep::Do(NameAction::Remove { side: Side::Source, dir: true }));
    assert_eq!(r.step(Reply::Failed(ENOTEMPTY)).1, NameStep::Finish(Err(expected(ENOTEMPTY))));
}

#[test]
fn unlink_removes_the_cache_file_first() {
    let (r, step) = Remove::begin(false);
    assert_eq!(step, NameStep::Do(NameAction::Remove { side: Side::Cache, dir: false }));
    let (r, step) = r.step(Reply::Done);
    assert_eq!(step, NameStep::Do(NameAction::Remove { side: Side::Source, dir: false }));
    assert_eq!(r.step(Reply::Done).1, NameStep::Finish(Ok(())));
    assert_eq!(r.step(Reply::Failed(ENOENT)).1, NameStep::Finish(Err(expected(ENOENT))));
}

#[test]
fn rename_follows_in_the_cache() {
    let (r, step) = Rename::begin(true);
    assert_eq!(step, NameStep::Do(NameAction::Rename { side: Side::Source }));
    let (r, step) = r.step(Reply::Done);
    assert_eq!(step, NameStep::Do(NameAction::Exists { side: Side::Cache }));
    assert_eq!(r.step(Reply::Flag(false)).1, NameStep::Finish(Ok(())));
    assert_eq!(r.step(Reply::Failed(ENOENT)).1, NameStep::Finish(Ok(())));
    assert_eq!(r.step(Reply::Failed(EIO)).1, NameStep::Finish(Err(traced(EIO))));
    let (r, step) = r.step(Reply::Flag(true));
    assert_eq!(step, NameStep::Do(NameAction::MakeParents));
    let (r, step) = r.step(Reply::Done);
    assert_eq!(step, NameStep::Do(NameAction::Rename { side: Side::Cache }));
    assert_eq!(r.step(Reply::Done).1, NameStep::Finish(Ok(())));

    let (r, _) = Rename::begin(false);
    let (r, _) = r.step(Reply::Done);
    assert_eq!(
        r.step(Reply::Flag(true)).1,
        NameStep::Do(NameAction::Rename { side: Side::Cache })
    );
}

#[test]
fn a_rename_that_is_said_to_have_failed_is_looked_into() {
    let (r, _) = Rename::begin(false);
    let (r, step) = r.step(Reply::Failed(EIO));
    assert_eq!(step, NameStep::Do(NameAction::Exists { side: Side::Source }));
    // the old path is still there: the rename failed
    assert_eq!(r.step(Reply::Flag(true)).1, NameStep::Finish(Err(traced(EIO))));
    // the old path is gone: the rename has happened
    assert_eq!(
        r.step(Reply::Flag(false)).1,
        NameStep::Do(NameAction::Exists { side: Side::Cache })
    );
    assert_eq!(
        r.step(Reply::Failed(ENOENT)).1,
        NameStep::Do(NameAction::Exists { side: Side::Cache })
    );
    assert_eq!(r.step(Reply::Failed(EPERM)).1, NameStep::Finish(Err(traced(EPERM))));
}

#[test]
fn resize_sizes_the_source_and_the_cache_file_if_any() {
    let (r, step) = Resize::begin(5);
    assert_eq!(step, NameStep::Do(NameAction::Open { side: Side::Source, flags: O_WRONLY }));
    let (r, step) = r.step(Reply::Fd(5));
    assert_eq!(step, NameStep::Do(NameAction::SetSize { side: Side::Source, size: 5 }));
    let (r, step) = r.step(Reply::Done);
    assert_eq!(step, NameStep::Do(NameAction::Close { side: Side::Source }));
    let (r, step) = r.step(Reply::Done);
    assert_eq!(step, NameStep::Do(NameAction::Open { side: Side::Cache, flags: O_WRONLY }));
    assert_eq!(r.step(Reply::Failed(ENOENT)).1, NameStep::Finish(Ok(())));
    assert_eq!(r.step(Reply::Failed(EPERM)).1, NameStep::Finish(Err(traced(EPERM))));
    let (r, step) = r.step(Reply::Fd(6));
    assert_eq!(step, NameStep::Do(NameAction::SetSize { side: Side::Cache, size: 5 }));
    let (r, step) = r.step(Reply::Error(traced(ENOSPC)));
    assert_eq!(step, NameStep::Do(NameAction::Close { side: Side::Cache }));
    assert_eq!(r.step(Reply::Done).1, NameStep::Finish(Err(traced(ENOSPC))));

    let (r, _) = Resize::begin(5);
    assert_eq!(r.step(Reply::Failed(ENOENT)).1, NameStep::Finish(Err(traced(ENOENT))));
}

#[test]
fn set_size_allots_to_grow_and_truncates_to_shrink() {
    let (s, step) = SetSize::begin(100);
    assert_eq!(step, SizeStep::Do(SizeAction::Size));
    let (s, step) = s.step(Reply::Count(40));
    assert_eq!(step, SizeStep::Do(SizeAction::Allocate { offset: 40, len: 60 }));
    assert_eq!(s.step(Reply::Done).1, SizeStep::Finish(Ok(())));
    // the filesystem refuses to allot: the file is stretched
    let (s, step) = s.step(Reply::Failed(ENOTSUP));
    assert_eq!(step, SizeStep::Do(SizeAction::Truncate { size: 100 }));
    assert_eq!(s.step(Reply::Done).1, SizeStep::Finish(Ok(())));
    assert_eq!(s.step(Reply::Failed(ENOSPC)).1, SizeStep::Finish(Err(traced(ENOSPC))));

    let (s, _) = SetSize::begin(10);
    let (s, step) = s.step(Reply::Count(40));
    assert_eq!(step, SizeStep::Do(SizeAction::Truncate { size: 10 }));
    assert_eq!(s.step(Reply::Failed(EPERM)).1, SizeStep::Finish(Err(traced(EPERM))));
    let (s, _) = SetSize::begin(10);
    assert_eq!(s.step(Reply::Count(10)).1, SizeStep::Do(SizeAction::Truncate { size: 10 }));
    let (s, _) = SetSize::begin(10);
    assert_eq!(s.step(Reply::Failed(EBADF)).1, SizeStep::Finish(Err(traced(EBADF))));
}

#[test]
fn small_decisions() {
    assert_eq!(made(Ok(())), Ok(()));
    assert_eq!(made(Err(17)), Ok(()));
    assert_eq!(made(Err(EPERM)), Err(EPERM));
    assert_eq!(existat(Ok(())), Ok(true));
    assert_eq!(existat(Err(ENOENT)), Ok(false));
    assert_eq!(existat(Err(EIO)), Err(traced(EIO)));
    assert_eq!(written_end(9, 1), 10);
    assert_eq!(written_end(u64::MAX, 1), u64::MAX);
    assert_eq!(refreshed(Ok(())), Ok(()));
    assert_eq!(refreshed(Err(traced(ENOENT))), Err(EIO));
    assert_eq!(refreshed(Err(expected(ENOENT))), Err(ENOENT));
    let ev = emergency_evicter(4);
    assert_eq!(ev.high_watermark, DiskSpace::Percent(PERCENT));
    assert_eq!(ev.low_watermark, DiskSpace::Percent(PERCENT + PERCENT / 10));
    assert_eq!(ev.dir, 4);
}

fn user_copy(disable_splice: bool) -> (Transfer, Progress) {
    let (t, step) = Transfer::begin(disable_splice);
    assert_eq!(step, Progress::Do(Move::ReaderSize));
    let (t, step) = t.step(Reply::Count(11));
    assert_eq!(step, Progress::Do(Move::WriterSize));
    t.step(Reply::Count(0))
}

#[test]
fn copy_through_the_buffer() {
    let (t, step) = user_copy(true);
    assert_eq!(step, Progress::Do(Move::Read { offset: 0, len: USER_CHUNK }));
    let (t, step) = t.step(Reply::Count(11));
    assert_eq!(step, Progress::Do(Move::Write { offset: 0, len: 11 }));
    let (t, step) = t.step(Reply::Count(11));
    assert_eq!(step, Progress::Do(Move::Notify { offset: 11, eof: false }));
    let (t, step) = t.step(Reply::Done);
    assert_eq!(step, Progress::Do(Move::Read { offset: 11, len: USER_CHUNK }));
    let (t, step) = t.step(Reply::Count(0));
    assert_eq!(step, Progress::Do(Move::Notify { offset: 11, eof: true }));
    assert_eq!(t.step(Reply::Done).1, Progress::Finish(Ok(())));
    assert_eq!(
        t.step(Reply::Error(expected(125))).1,
        Progress::Finish(Err(expected(125)))
    );
}

#[test]
fn copy_cuts_a_longer_writer() {
    let (t, _) = Transfer::begin(true);
    let (t, _) = t.step(Reply::Count(11));
    let (t, step) = t.step(Reply::Count(12));
    assert_eq!(step, Progress::Do(Move::Truncate { size: 11 }));
    assert_eq!(
        t.step(Reply::Done).1,
        Progress::Do(Move::Read { offset: 0, len: USER_CHUNK })
    );
    assert_eq!(t.step(Reply::Failed(EPERM)).1, Progress::Finish(Err(traced(EPERM))));
    let (t, _) = Transfer::begin(true);
    assert_eq!(t.step(Reply::Failed(EBADF)).1, Progress::Finish(Err(traced(EBADF))));
}

#[test]
fn copy_by_splicing() {
    let (t, step) = user_copy(false);
    assert_eq!(step, Progress::Do(Move::OpenPipe));
    let (t, step) = t.step(Reply::Done);
    assert_eq!(step, Progress::Do(Move::SpliceIn { offset: 0, len: SPLICE_CHUNK }));
    let (t, step) = t.step(Reply::Count(10));
    assert_eq!(step, Progress::Do(Move::SpliceOut { offset: 0, len: SPLICE_CHUNK }));
    let (t, step) = t.step(Reply::Count(4));
    assert_eq!(step, Progress::Do(Move::Notify { offset: 4, eof: false }));
    let (t, step) = t.step(Reply::Done);
    assert_eq!(step, Progress::Do(Move::SpliceOut { offset: 4, len: SPLICE_CHUNK }));
    let (t, step) = t.step(Reply::Count(6));
    assert_eq!(step, Progress::Do(Move::Notify { offset: 10, eof: false }));
    let (t, step) = t.step(Reply::Done);
    assert_eq!(step, Progress::Do(Move::SpliceIn { offset: 10, len: SPLICE_CHUNK }));
    let (t, step) = t.step(Reply::Count(0));
    assert_eq!(step, Progress::Do(Move::ClosePipeIn));
    let (t, step) = t.step(Reply::Done);
    assert_eq!(step, Progress::Do(Move::ClosePipeOut));
    let (t, step) = t.step(Reply::Done);
    assert_eq!(step, Progress::Do(Move::Notify { offset: 10, eof: true }));
    assert_eq!(t.step(Reply::Done).1, Progress::Finish(Ok(())));
}

#[test]
fn copy_falls_back_to_the_buffer() {
    let (t, _) = user_copy(false);
    let (t, _) = t.step(Reply::Done);
    let (t, step) = t.step(Reply::Failed(EINVAL));
    assert_eq!(step, Progress::Do(Move::ClosePipeIn));
    let (t, step) = t.step(Reply::Done);
    assert_eq!(step, Progress::Do(Move::ClosePipeOut));
    let (_, step) = t.step(Reply::Done);
    assert_eq!(step, Progress::Do(Move::Read { offset: 0, len: USER_CHUNK }));

    // any other error ends the copy, after the pipe is closed
    let (t, _) = user_copy(false);
    let (t, _) = t.step(Reply::Done);
    let (t, _) = t.step(Reply::Failed(EIO));
    let (t, _) = t.step(Reply::Done);
    assert_eq!(t.step(Reply::Done).1, Progress::Finish(Err(traced(EIO))));

    // a pipe that cannot be made
    let (t, _) = user_copy(false);
    assert_eq!(
        t.step(Reply::Failed(EINVAL)).1,
        Progress::Do(Move::Read { offset: 0, len: USER_CHUNK })
    );
    let (t, _) = user_copy(false);
    assert_eq!(t.step(Reply::Failed(24)).1, Progress::Finish(Err(traced(24))));

    // a stop asked for while splicing
    let (t, _) = user_copy(false);
    let (t, _) = t.step(Reply::Done);
    let (t, _) = t.step(Reply::Count(10));
    let (t, _) = t.step(Reply::Count(10));
    let (t, step) = t.step(Reply::Error(expected(125)));
    assert_eq!(step, Progress::Do(Move::ClosePipeIn));
    let (t, _) = t.step(Reply::Done);
    assert_eq!(t.step(Reply::Done).1, Progress::Finish(Err(expected(125))));
}

fn request() -> SetAttrRequest {
    SetAttrRequest {
        mode: None,
        uid: None,
        gid: None,
        size: None,
        atime: None,
        mtime: None,
        fh: None,
        crtime: None,
        chgtime: None,
        bkuptime: None,
        flags: None,
    }
}

fn old_attr() -> catfs::inode::FileAttr {
    let st = Stat {
        st_ino: 42,
        st_mode: 0o100644,
        st_nlink: 1,
        st_uid: 0,
        st_gid: 0,
        st_rdev: 0,
        st_size: 11,
        st_blksize: 4096,
        st_blocks: 8,
        st_atime: 10,
        st_atime_nsec: 0,
        st_mtime: 20,
        st_mtime_nsec: 0,
        st_ctime: 30,
        st_ctime_nsec: 0,
    };
    lookup_path(&st).unwrap()
}

const NOW: Timespec = Timespec { sec: 1000, nsec: 5 };

#[test]
fn setattr_refuses_what_cannot_be_set() {
    let t = Some(Timespec { sec: 1, nsec: 0 });
    for r in [
        SetAttrRequest { uid: Some(0), ..request() },
        SetAttrRequest { gid: Some(0), ..request() },
        SetAttrRequest { crtime: t, ..request() },
        SetAttrRequest { chgtime: t, ..request() },
        SetAttrRequest { bkuptime: t, ..request() },
        SetAttrRequest { uid: Some(1), mode: Some(0o600), fh: Some(3), ..request() },
    ] {
        assert_eq!(SetAttr::begin(r, old_attr(), NOW).1, AttrStep::Finish(Err(ENOTSUP)));
    }
}

#[test]
fn setattr_by_path_validates_and_restores_the_mark() {
    let r = SetAttrRequest {
        mode: Some(0o600),
        size: Some(5),
        mtime: Some(TimeOrNow::Now),
        flags: Some(7),
        ..request()
    };
    let (s, step) = SetAttr::begin(r, old_attr(), NOW);
    assert_eq!(step, AttrStep::Do(AttrAction::Validate));
    let (s, step) = s.step(Reply::Flag(true));
    assert_eq!(
        step,
        AttrStep::Do(AttrAction::Chmod { through_handle: false, mode: 0o600, flags: 7 })
    );
    let (s, step) = s.step(Reply::Done);
    assert_eq!(step, AttrStep::Do(AttrAction::Truncate { through_handle: false, size: 5 }));
    let (s, step) = s.step(Reply::Done);
    assert_eq!(
        step,
        AttrStep::Do(AttrAction::Utimes {
            through_handle: false,
            atime: Timespec { sec: 10, nsec: 0 },
            mtime: NOW,
            flags: 7
        })
    );
    let (s, step) = s.step(Reply::Done);
    assert_eq!(step, AttrStep::Do(AttrAction::MakePristine { through_handle: false }));
    let (s, step) = s.step(Reply::Done);
    assert_eq!(step, AttrStep::Do(AttrAction::Refresh));
    assert_eq!(s.step(Reply::Done).1, AttrStep::Finish(Ok(())));
    assert_eq!(s.step(Reply::Error(expected(ENOENT))).1, AttrStep::Finish(Err(ENOENT)));
    assert_eq!(s.step(Reply::Error(traced(ENOENT))).1, AttrStep::Finish(Err(ENOENT)));
}

#[test]
fn setattr_of_an_invalid_cache_leaves_it_unmarked() {
    let r = SetAttrRequest { size: Some(5), ..request() };
    let (s, _) = SetAttr::begin(r, old_attr(), NOW);
    let (s, step) = s.step(Reply::Flag(false));
    assert_eq!(step, AttrStep::Do(AttrAction::Truncate { through_handle: false, size: 5 }));
    let (_, step) = s.step(Reply::Done);
    assert_eq!(step, AttrStep::Do(AttrAction::Refresh));
    let (s, _) = SetAttr::begin(r, old_attr(), NOW);
    assert_eq!(s.step(Reply::Error(traced(EPERM))).1, AttrStep::Finish(Err(EPERM)));
}

#[test]
fn setattr_through_a_handle_needs_no_validation() {
    let r = SetAttrRequest {
        size: Some(0),
        atime: Some(TimeOrNow::SpecificTime(Timespec { sec: 77, nsec: 1 })),
        fh: Some(3),
        ..request()
    };
    let (s, step) = SetAttr::begin(r, old_attr(), NOW);
    assert_eq!(step, AttrStep::Do(AttrAction::Truncate { through_handle: true, size: 0 }));
    let (s, step) = s.step(Reply::Done);
    assert_eq!(
        step,
        AttrStep::Do(AttrAction::Utimes {
            through_handle: true,
            atime: Timespec { sec: 77, nsec: 1 },
            mtime: Timespec { sec: 20, nsec: 0 },
            flags: 0
        })
    );
    let (s, step) = s.step(Reply::Done);
    assert_eq!(step, AttrStep::Do(AttrAction::MakePristine { through_handle: true }));
    assert_eq!(s.step(Reply::Failed(EPERM)).1, AttrStep::Finish(Err(EPERM)));

    // nothing to set: the mark is restored and the attributes are asked anew
    let (s, step) = SetAttr::begin(SetAttrRequest { fh: Some(3), ..request() }, old_attr(), NOW);
    assert_eq!(step, AttrStep::Do(AttrAction::MakePristine { through_handle: true }));
    assert_eq!(s.step(Reply::Done).1, AttrStep::Do(AttrAction::Refresh));
    let (s, _) = SetAttr::begin(
        SetAttrRequest { mode: Some(0o600), fh: Some(3), ..request() },
        old_attr(),
        NOW,
    );
    assert_eq!(s.step(Reply::Failed(EPERM)).1, AttrStep::Finish(Err(EPERM)));
}

#[test]
fn a_write_request_tries_each_remedy_once() {
    let w = WriteRetry::new();
    assert_eq!(w.written(Ok(11)).1, WriteNext::Reply(Ok(11)));
    assert_eq!(w.written(Err(traced(EIO))).1, WriteNext::Reply(Err(EIO)));

    let (w2, next) = w.written(Err(expected(ENOTSUP)));
    assert_eq!(next, WriteNext::Reopen);
    assert_eq!(w2.reopened(Ok(())), WriteNext::Write);
    assert_eq!(w2.reopened(Err(traced(EPERM))), WriteNext::Reply(Err(EPERM)));
    assert_eq!(w2.written(Err(expected(ENOTSUP))).1, WriteNext::Reply(Err(ENOTSUP)));

    let (w3, next) = w2.written(Err(traced(ENOSPC)));
    assert_eq!(next, WriteNext::Evict);
    assert_eq!(w3.written(Err(traced(ENOSPC))).1, WriteNext::Reply(Err(ENOSPC)));
    assert_eq!(w3.written(Ok(5)).1, WriteNext::Reply(Ok(5)));
}

#[test]
fn what_follows_a_flush() {
    let attr = old_attr();
    let mut inode = Inode::new(3, 4, b"f".to_vec(), b"f".to_vec(), attr, NOW);
    inode.opened();
    assert_eq!(flushed(&mut inode, Ok(true)), Flushed::Refresh);
    assert!(!inode.cache_valid_if_present);
    assert!(!inode.was_flush_failed());
    assert_eq!(flushed(&mut inode, Err(expected(EIO))), Flushed::Reply(Err(EIO)));
    assert!(inode.was_flush_failed());
    assert_eq!(flushed(&mut inode, Ok(false)), Flushed::Reply(Ok(())));
    assert!(!inode.was_flush_failed());
    assert_eq!(flushed(&mut inode, Err(traced(ENOSPC))), Flushed::Reply(Err(EIO)));
}

#[test]
fn statfs_reports_the_cache_filesystem() {
    let st = StatVfs {
        f_bsize: 4096,
        f_frsize: 512,
        f_blocks: 1 << 40,
        f_bfree: 7,
        f_bavail: 6,
        f_files: 5,
        f_ffree: 4,
        f_namemax: 255,
    };
    assert_eq!(
        statfs(&st),
        StatfsReply {
            blocks: 1 << 40,
            bfree: 7,
            bavail: 6,
            files: 5,
            ffree: 4,
            bsize: 4096,
            namelen: 255,
            frsize: 512,
        }
    );
    assert_eq!(statfs(&StatVfs { f_bsize: (1 << 32) + 9, ..st }).bsize, 9);
}

use catfs::errno::{ECANCELED, EIO};
use catfs::error::RError;
use catfs::pagein::{PageInInfo, Posted, Wait};

#[test]
fn waiting_for_an_offset() {
    let mut info = PageInInfo::new();
    assert_eq!(info.wait_for_offset(0), Wait::Ready);
    assert_eq!(info.wait_for_offset(1), Wait::Block);
    assert_eq!(info.notify_offset(Ok(4096), false), Posted::Updated { mark_pristine: false });
    assert_eq!(info.wait_for_offset(4096), Wait::Ready);
    assert_eq!(info.wait_for_offset(4097), Wait::Block);
    assert_eq!(info.wait_for_eof(), Wait::Block);
    assert_eq!(info.notify_offset(Ok(5000), true), Posted::Updated { mark_pristine: true });
    assert_eq!(info.wait_for_offset(1 << 40), Wait::Finished);
    assert_eq!(info.wait_for_eof(), Wait::Finished);
    assert_eq!(info.offset, 5000);
}

#[test]
fn a_write_keeps_the_end_from_marking() {
    let mut info = PageInInfo::new();
    info.set_dirty();
    assert!(info.dirty);
    assert_eq!(info.notify_offset(Ok(10), false), Posted::Updated { mark_pristine: false });
    assert_eq!(info.notify_offset(Ok(20), true), Posted::Updated { mark_pristine: false });
    assert!(info.eof);
}

#[test]
fn errors_reach_those_who_wait() {
    let mut info = PageInInfo::new();
    assert_eq!(info.notify_offset(Ok(10), false), Posted::Updated { mark_pristine: false });
    assert_eq!(
        info.notify_offset(Err(RError::from(EIO)), false),
        Posted::Updated { mark_pristine: false }
    );
    // what is copied can still be had
    assert_eq!(info.wait_for_offset(10), Wait::Ready);
    // the error comes back as an expected one
    assert_eq!(info.wait_for_offset(11), Wait::Failed(RError { e: EIO, traced: false }));
    // and stops further progress short of the end
    assert_eq!(info.notify_offset(Ok(20), false), Posted::Refused(RError { e: EIO, traced: false }));
    assert_eq!(info.offset, 10);
}

#[test]
fn a_cancelled_page_in_stops_quietly() {
    let mut info = PageInInfo::new();
    assert!(!info.cancelled());
    info.cancel();
    assert!(info.cancelled());
    assert_eq!(info.err, Some(RError { e: ECANCELED, traced: false }));
    assert_eq!(
        info.notify_offset(Ok(10), false),
        Posted::Refused(RError { e: ECANCELED, traced: false })
    );
    assert!(!info.failed(RError::from(ECANCELED)));
    assert_eq!(info.err, Some(RError { e: ECANCELED, traced: false }));
    // the end is taken even then
    assert_eq!(info.notify_offset(Ok(30), true), Posted::Updated { mark_pristine: true });
    assert_eq!(info.offset, 30);
}

#[test]
fn a_failed_page_in_posts_its_error() {
    let mut info = PageInInfo::new();
    assert!(info.failed(RError::from(EIO)));
    assert_eq!(info.err, Some(RError { e: EIO, traced: true }));
    assert!(!info.eof);
    assert_eq!(info.wait_for_offset(1), Wait::Failed(RError { e: EIO, traced: false }));
}

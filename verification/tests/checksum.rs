use catfs::checksum::{
    cleared, etag_of, is_pristine, src_chksum, src_str_to_checksum, CHECKSUM_XATTR, ETAG_XATTR,
};
use catfs::errno::{EIO, ENODATA, ENOENT, ENOTSUP, EPERM};
use catfs::error::RError;
use catfs::stat::Stat;
use sha2::{Digest, Sha512};

fn stat(mtime: i64, size: i64) -> Stat {
    Stat {
        st_ino: 1,
        st_mode: 0o100644,
        st_nlink: 1,
        st_uid: 0,
        st_gid: 0,
        st_rdev: 0,
        st_size: size,
        st_blksize: 4096,
        st_blocks: 8,
        st_atime: 0,
        st_atime_nsec: 0,
        st_mtime: mtime,
        st_mtime_nsec: 999,
        st_ctime: 0,
        st_ctime_nsec: 0,
    }
}

#[test]
fn names_of_the_attributes() {
    assert_eq!(CHECKSUM_XATTR, "user.catfs.src_chksum");
    assert_eq!(ETAG_XATTR, "s3.etag");
}

#[test]
fn text_without_etag_is_time_and_size() {
    assert_eq!(src_str_to_checksum(&None, &stat(1500000000, 11)), b"1500000000\n11\n".to_vec());
    assert_eq!(src_str_to_checksum(&None, &stat(0, 0)), b"0\n0\n".to_vec());
    assert_eq!(src_str_to_checksum(&None, &stat(-1, 10)), b"-1\n10\n".to_vec());
    assert_eq!(
        src_str_to_checksum(&None, &stat(i64::MIN, i64::MAX)),
        b"-9223372036854775808\n9223372036854775807\n".to_vec()
    );
}

#[test]
fn text_with_etag_has_it_in_hexadecimal_without_padding() {
    let etag = Some(b"\"ab\"".to_vec());
    assert_eq!(
        src_str_to_checksum(&etag, &stat(12, 3)),
        b"s3.etag=0x22616222\n12\n3\n".to_vec()
    );
    let etag = Some(vec![0x00, 0x0a, 0x10, 0xff]);
    assert_eq!(src_str_to_checksum(&etag, &stat(1, 2)), b"s3.etag=0x0a10ff\n1\n2\n".to_vec());
    assert_eq!(src_str_to_checksum(&Some(vec![]), &stat(1, 2)), b"s3.etag=0x\n1\n2\n".to_vec());
}

#[test]
fn digest_is_sha512_of_the_text() {
    let st = stat(1500000000, 11);
    let digest = src_chksum(&None, &st);
    assert_eq!(digest.len(), 64);
    assert_eq!(digest, Sha512::digest(b"1500000000\n11\n").to_vec());
    assert_ne!(digest, b"1500000000\n11\n".to_vec());
    let etag = Some(vec![1, 2, 3]);
    assert_eq!(src_chksum(&etag, &st), Sha512::digest(b"s3.etag=0x123\n1500000000\n11\n").to_vec());
    // the empty text is never hashed, but its digest is known
    assert_eq!(
        Sha512::digest(b"")[..4],
        [0xcf, 0x83, 0xe1, 0x35]
    );
}

#[test]
fn pristine_after_marking() {
    let st = stat(1500000000, 11);
    let etag = Some(b"e".to_vec());
    let mark = src_chksum(&etag, &st);
    assert!(is_pristine(&Some(mark.clone()), &etag, &st));
    assert!(!is_pristine(&None, &etag, &st));
    assert!(!is_pristine(&Some(mark.clone()), &None, &st));
    assert!(!is_pristine(&Some(mark.clone()), &etag, &stat(1500000001, 11)));
    assert!(!is_pristine(&Some(mark.clone()), &etag, &stat(1500000000, 12)));
    assert!(!is_pristine(&Some(mark[..63].to_vec()), &etag, &st));
    assert!(!is_pristine(&Some(vec![]), &etag, &st));
}

#[test]
fn a_source_without_attributes_has_no_etag() {
    assert_eq!(etag_of(Ok(Some(vec![1]))), Ok(Some(vec![1])));
    assert_eq!(etag_of(Ok(None)), Ok(None));
    assert_eq!(etag_of(Err(ENOENT)), Ok(None));
    assert_eq!(etag_of(Err(ENOTSUP)), Ok(None));
    assert_eq!(etag_of(Err(EIO)), Err(RError { e: EIO, traced: true }));
    assert_eq!(etag_of(Err(ENODATA)), Err(RError { e: ENODATA, traced: true }));
}

#[test]
fn removing_a_mark_that_is_not_there_is_fine() {
    assert_eq!(cleared(Ok(())), Ok(()));
    assert_eq!(cleared(Err(ENODATA)), Ok(()));
    assert_eq!(cleared(Err(EPERM)), Err(RError { e: EPERM, traced: true }));
    assert_eq!(cleared(Err(ENOENT)), Err(RError { e: ENOENT, traced: true }));
}

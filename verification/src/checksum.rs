//! The mark that says a cache file stands for its source file.
//!
//! A cache file is *pristine* when its extended attribute
//! `user.catfs.src_chksum` holds the SHA-512 digest of a text made of what
//! identifies the source file: its `s3.etag` attribute where it has one, the
//! time of its last change and its size.

use vstd::prelude::*;
use crate::bytes::equal;
use crate::errno::{Errno, ENODATA, ENOENT, ENOTSUP};
use crate::error::RError;
use crate::stat::Stat;

verus! {

/// The attribute of a cache file that holds the digest.
pub const CHECKSUM_XATTR: &'static str = "user.catfs.src_chksum";

/// The attribute of a source file that enters the digest.
pub const ETAG_XATTR: &'static str = "s3.etag";

/// The name of the attribute as it stands in the text: `s3.etag`.
pub open spec fn etag_name() -> Seq<u8> {
    seq![0x73u8, 0x33, 0x2e, 0x65, 0x74, 0x61, 0x67]
}

/// The digit, as a character, of a number below sixteen.
pub open spec fn hex_digit(d: int) -> u8 {
    if d < 10 {
        (0x30 + d) as u8
    } else {
        (0x61 + d - 10) as u8
    }
}

/// A byte in lower-case hexadecimal, without a leading zero: `a` for 10,
/// `1f` for 31.
pub open spec fn hex_byte(b: u8) -> Seq<u8> {
    if b < 16 {
        seq![hex_digit(b as int)]
    } else {
        seq![hex_digit(b as int / 16), hex_digit(b as int % 16)]
    }
}

/// The bytes of `v`, each in hexadecimal, one after the other.
pub open spec fn hex_bytes(v: Seq<u8>) -> Seq<u8>
    decreases v.len(),
{
    if v.len() == 0 {
        Seq::<u8>::empty()
    } else {
        hex_bytes(v.drop_last()) + hex_byte(v.last())
    }
}

/// A natural number in decimal, without leading zeros.
pub open spec fn decimal_nat(n: nat) -> Seq<u8>
    decreases n,
{
    if n < 10 {
        seq![(0x30 + n) as u8]
    } else {
        decimal_nat(n / 10).push((0x30 + n % 10) as u8)
    }
}

/// An integer in decimal, with a minus sign where it is negative.
pub open spec fn decimal(i: int) -> Seq<u8> {
    if i < 0 {
        seq![0x2du8] + decimal_nat((-i) as nat)
    } else {
        decimal_nat(i as nat)
    }
}

/// The line that an attribute adds to the text: its name, `=0x`, its value
/// in hexadecimal, and a line feed.
pub open spec fn etag_line(value: Seq<u8>) -> Seq<u8> {
    etag_name() + seq![0x3du8, 0x30, 0x78] + hex_bytes(value) + seq![0x0au8]
}

/// The text that identifies a source file: the line of its `s3.etag`
/// attribute where it has one, then the second of its last change and its
/// size in bytes, each on a line.
pub open spec fn checksum_text(etag: Option<Seq<u8>>, mtime: int, size: int) -> Seq<u8> {
    (match etag {
        Some(v) => etag_line(v),
        None => Seq::<u8>::empty(),
    }) + decimal(mtime) + seq![0x0au8] + decimal(size) + seq![0x0au8]
}

/// What `Sha512` of the crate sha2 returns for `data`.
pub uninterp spec fn sha512(data: Seq<u8>) -> Seq<u8>;

/// The digest that marks a cache file as standing for a source file with
/// this attribute, time of change and size.
pub open spec fn checksum_spec(etag: Option<Seq<u8>>, mtime: int, size: int) -> Seq<u8> {
    sha512(checksum_text(etag, mtime, size))
}

/// Whether a cache file that holds `stored` in its digest attribute is
/// pristine for a source file with this attribute, time of change and
/// size: the attribute is there and is the digest.
pub open spec fn pristine(stored: Option<Seq<u8>>, etag: Option<Seq<u8>>, mtime: int, size: int) -> bool {
    stored == Some(checksum_spec(etag, mtime, size))
}

/// A cache file that was given the digest of a source file is pristine for
/// it, as long as the source keeps its etag, its time of change and its
/// size; a cache file whose digest was taken off is pristine for none.
pub proof fn lemma_marked_is_pristine(etag: Option<Seq<u8>>, mtime: int, size: int)
    ensures
        pristine(Some(checksum_spec(etag, mtime, size)), etag, mtime, size),
        !pristine(None, etag, mtime, size),
{
}

/// The view of an optional byte string.
pub open spec fn opt_view(v: Option<Vec<u8>>) -> Option<Seq<u8>> {
    match v {
        Some(b) => Some(b@),
        None => None,
    }
}

/// Computes the SHA-512 digest of `data` with `Sha512::digest` of the crate
/// sha2, which depends on the bytes alone and is 64 bytes long.
#[verifier::external_body]
fn sha512_of(data: &[u8]) -> (r: Vec<u8>)
    ensures
        r@ == sha512(data@),
        r@.len() == 64,
{
    <sha2::Sha512 as sha2::Digest>::digest(data).to_vec()
}

fn push_hex_byte(out: &mut Vec<u8>, b: u8)
    ensures
        final(out)@ == old(out)@ + hex_byte(b),
{
    let hi = b / 16;
    let lo = b % 16;
    if hi > 0 {
        out.push(if hi < 10 { 0x30 + hi } else { 0x61 + hi - 10 });
    }
    out.push(if lo < 10 { 0x30 + lo } else { 0x61 + lo - 10 });
    proof {
        assert(final(out)@ =~= old(out)@ + hex_byte(b));
    }
}

fn push_hex_bytes(out: &mut Vec<u8>, v: &[u8])
    ensures
        final(out)@ == old(out)@ + hex_bytes(v@),
{
    let mut i: usize = 0;
    proof {
        assert(old(out)@ + hex_bytes(v@.subrange(0, 0)) =~= old(out)@);
    }
    while i < v.len()
        invariant
            i <= v@.len(),
            out@ == old(out)@ + hex_bytes(v@.subrange(0, i as int)),
        decreases v@.len() - i,
    {
        let ghost before = out@;
        push_hex_byte(out, v[i]);
        proof {
            let next = v@.subrange(0, i + 1);
            assert(next.drop_last() =~= v@.subrange(0, i as int));
            assert(out@ =~= old(out)@ + hex_bytes(next));
        }
        i = i + 1;
    }
    proof {
        assert(v@.subrange(0, v@.len() as int) =~= v@);
    }
}

fn push_decimal_nat(out: &mut Vec<u8>, n: u64)
    ensures
        final(out)@ == old(out)@ + decimal_nat(n as nat),
    decreases n,
{
    if n < 10 {
        out.push(0x30 + n as u8);
        proof {
            assert(final(out)@ =~= old(out)@ + decimal_nat(n as nat));
        }
    } else {
        push_decimal_nat(out, n / 10);
        out.push(0x30 + (n % 10) as u8);
        proof {
            assert(final(out)@ =~= old(out)@ + decimal_nat(n as nat));
        }
    }
}

fn push_decimal(out: &mut Vec<u8>, i: i64)
    ensures
        final(out)@ == old(out)@ + decimal(i as int),
{
    if i < 0 {
        out.push(0x2d);
        let magnitude: u64 = if i == i64::MIN {
            9_223_372_036_854_775_808
        } else {
            (-i) as u64
        };
        push_decimal_nat(out, magnitude);
        proof {
            assert(final(out)@ =~= old(out)@ + decimal(i as int));
        }
    } else {
        push_decimal_nat(out, i as u64);
    }
}

/// Writes the text that identifies a source file whose `s3.etag` attribute
/// is `etag` and of which `st` was reported.
pub fn src_str_to_checksum(etag: &Option<Vec<u8>>, st: &Stat) -> (r: Vec<u8>)
    ensures
        r@ == checksum_text(opt_view(*etag), st.st_mtime as int, st.st_size as int),
{
    let mut s: Vec<u8> = Vec::new();
    if let Some(v) = etag {
        s.push(0x73);
        s.push(0x33);
        s.push(0x2e);
        s.push(0x65);
        s.push(0x74);
        s.push(0x61);
        s.push(0x67);
        s.push(0x3d);
        s.push(0x30);
        s.push(0x78);
        push_hex_bytes(&mut s, v.as_slice());
        s.push(0x0a);
        proof {
            assert(s@ =~= etag_line(v@));
        }
    }
    let ghost head = s@;
    push_decimal(&mut s, st.st_mtime);
    s.push(0x0a);
    push_decimal(&mut s, st.st_size);
    s.push(0x0a);
    proof {
        assert(s@ =~= head + decimal(st.st_mtime as int) + seq![0x0au8] + decimal(st.st_size as int)
            + seq![0x0au8]);
    }
    s
}

/// The digest for a source file whose `s3.etag` attribute is `etag` and of
/// which `st` was reported.
pub fn src_chksum(etag: &Option<Vec<u8>>, st: &Stat) -> (r: Vec<u8>)
    ensures
        r@ == checksum_spec(opt_view(*etag), st.st_mtime as int, st.st_size as int),
        r@.len() == 64,
{
    let s = src_str_to_checksum(etag, st);
    sha512_of(s.as_slice())
}

/// Whether a cache file that holds `stored` in its digest attribute stands
/// for the source file with this `etag` and `st`: the attribute is there and
/// equals the digest.
pub fn is_pristine(stored: &Option<Vec<u8>>, etag: &Option<Vec<u8>>, st: &Stat) -> (r: bool)
    ensures
        r == pristine(opt_view(*stored), opt_view(*etag), st.st_mtime as int, st.st_size as int),
{
    match stored {
        Some(v) => {
            let expected = src_chksum(etag, st);
            equal(v.as_slice(), expected.as_slice())
        },
        None => false,
    }
}

/// What reading the source's `s3.etag` attribute comes to. A source that
/// has no such attribute, or that knows no attributes at all, has no etag;
/// any other failure is an unexpected error.
pub fn etag_of(read: Result<Option<Vec<u8>>, Errno>) -> (r: Result<Option<Vec<u8>>, RError<Errno>>)
    ensures
        r == (match read {
            Ok(v) => Ok::<Option<Vec<u8>>, RError<Errno>>(v),
            Err(e) => if e == ENOENT || e == ENOTSUP {
                Ok(None)
            } else {
                Err(RError { e, traced: true })
            },
        }),
{
    match read {
        Ok(v) => Ok(v),
        Err(e) => if e == ENOENT || e == ENOTSUP {
            Ok(None)
        } else {
            Err(RError::from(e))
        },
    }
}

/// What removing the digest attribute comes to: that there was none to
/// remove is no failure.
pub fn cleared(removed: Result<(), Errno>) -> (r: Result<(), RError<Errno>>)
    ensures
        r == (match removed {
            Ok(()) => Ok::<(), RError<Errno>>(()),
            Err(e) => if e == ENODATA {
                Ok(())
            } else {
                Err(RError { e, traced: true })
            },
        }),
{
    match removed {
        Ok(()) => Ok(()),
        Err(e) => if e == ENODATA {
            Ok(())
        } else {
            Err(RError::from(e))
        },
    }
}

} // verus!

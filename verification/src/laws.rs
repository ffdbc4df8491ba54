//! What holds of open files, whatever the calls answer.
//!
//! The machines of [`crate::file`] and [`crate::open`] are taken step by
//! step here. The two files are stood for by what they hold: a cache file
//! is a sequence of bytes, a write puts bytes into it, and a read gives
//! bytes of it.

use vstd::prelude::*;
use crate::error::RError;
use crate::file::{
    range_end, Action, Flush, FlushPhase, Handle, Read, ReadPhase, Reply, Side, Step, Truncate,
    Write, WritePhase,
};
use crate::errno::{O_ACCMODE, O_CREAT, O_RDONLY, O_WRONLY};
use crate::file::promoted;
use crate::open::{
    open_cache_flags, opens_source, Create, CreatePhase, Open, Reopen, Validate, ValidatePhase,
};
use crate::pagein::{PageInInfo, Wait};
use crate::transfer::{Progress, Transfer, TransferPhase};

verus! {

/// A handle that an opening ends with has a cache file.
pub proof fn lemma_opened_has_cache(op: Open, reply: Reply)
    ensures
        op.next(reply).1 matches Step::Finish(Ok(h)) ==> h.wf() && !h.dirty,
{
}

/// What holds of the creating of a file on its way: once the source is
/// opened, there is a source file.
pub open spec fn create_inv(op: Create) -> bool {
    op.phase == CreatePhase::RemovingLeftover || op.phase == CreatePhase::OpeningCache
        ==> op.src_file.valid()
}

/// A handle that a creating ends with has a cache file and a source file,
/// and is dirty.
pub proof fn lemma_created_has_cache(op: Create, reply: Reply)
    requires
        create_inv(op),
    ensures
        create_inv(op.next(reply).0),
        op.next(reply).1 matches Step::Finish(Ok(h)) ==> h.wf() && h.src_file.valid() && h.dirty,
{
}

/// The creating of a file begins in order.
pub proof fn lemma_create_begins(flags: u32, mode: u32, has_parent: bool)
    ensures
        create_inv(Create::begin_spec(flags, mode, has_parent).0),
{
}

/// No step of a read, a write, a flush, a change of size or a reopening
/// gives up or changes the cache file of the handle: a handle that has a
/// cache file keeps it for as long as it is open.
pub proof fn lemma_cache_file_stays(
    read: Read,
    write: Write,
    flush: Flush,
    truncate: Truncate,
    reopen: Reopen,
    reply: Reply,
)
    ensures
        read.next(reply).0.handle.cache_file == read.handle.cache_file,
        write.next(reply).0.handle.cache_file == write.handle.cache_file,
        flush.next(reply).0.handle.cache_file == flush.handle.cache_file,
        truncate.next(reply).0.handle.cache_file == truncate.handle.cache_file,
        reopen.next(reply).0.handle.cache_file == reopen.handle.cache_file,
{
}

/// The file that holds `content`, after `data` was written to it at
/// `offset`: it is as long as the write needs it, with zeros where nothing
/// was written, and holds `data` from `offset` on.
pub open spec fn store_at(content: Seq<u8>, offset: int, data: Seq<u8>) -> Seq<u8> {
    Seq::new(
        if content.len() < offset + data.len() {
            (offset + data.len()) as nat
        } else {
            content.len()
        },
        |i: int|
            if offset <= i < offset + data.len() {
                data[i - offset]
            } else if i < content.len() {
                content[i]
            } else {
                0u8
            },
    )
}

/// Whether `reply` says that the call moved some of the bytes asked for,
/// of which there were `room`.
pub open spec fn moved(reply: Reply, room: int) -> bool {
    reply matches Reply::Count(n) && 0 < n <= room
}

/// The cache file after the call that the write `w` asked for last was
/// answered by `reply`: a write to the cache that moved `n` bytes has put
/// the next `n` bytes of the buffer where the machine said.
pub open spec fn cache_after_write(w: Write, reply: Reply, buf: Seq<u8>, content: Seq<u8>) -> Seq<u8> {
    if w.phase == WritePhase::Cache && moved(reply, w.len - w.written) {
        store_at(
            content,
            w.offset + w.written,
            buf.subrange(w.written as int, w.written + reply->Count_0),
        )
    } else {
        content
    }
}

/// The cache file holds, at the offset of the write, the bytes of the
/// buffer that the write counts as written.
pub open spec fn holds_written(w: Write, buf: Seq<u8>, content: Seq<u8>) -> bool {
    &&& w.offset + w.written <= content.len()
    &&& content.subrange(w.offset as int, w.offset + w.written) == buf.subrange(
        0,
        w.written as int,
    )
}

/// Every step of a write keeps the cache file in step with its count: what
/// the write counts as written stands in the cache file.
pub proof fn lemma_write_keeps_bytes(w: Write, reply: Reply, buf: Seq<u8>, content: Seq<u8>)
    requires
        w.wf(),
        buf.len() == w.len,
        holds_written(w, buf, content),
    ensures
        holds_written(w.next(reply).0, buf, cache_after_write(w, reply, buf, content)),
        w.next(reply).0.offset == w.offset,
        w.next(reply).0.len == w.len,
        w.next(reply).1 matches Step::Finish(Ok(n)) ==> n == w.next(reply).0.written,
{
    let after = cache_after_write(w, reply, buf, content);
    let next = w.next(reply).0;
    if w.phase == WritePhase::Cache && moved(reply, w.len - w.written) {
        let n = reply->Count_0;
        assert(next.written == w.written + n);
        assert(after.subrange(w.offset as int, w.offset + next.written) =~= buf.subrange(
            0,
            next.written as int,
        )) by {
            assert forall|i: int| 0 <= i < next.written implies after[w.offset + i] == buf[i] by {
                if i < w.written {
                    assert(content.subrange(w.offset as int, w.offset + w.written)[i] == buf.subrange(
                        0,
                        w.written as int,
                    )[i]);
                } else {
                    assert(buf.subrange(w.written as int, w.written + n)[i - w.written] == buf[i]);
                }
            }
        }
    } else {
        assert(next.written == w.written);
    }
}

/// A write begins with nothing written, which every cache file holds that
/// reaches to the offset.
pub proof fn lemma_write_begins_empty(
    handle: Handle,
    offset: u64,
    len: usize,
    buf: Seq<u8>,
    content: Seq<u8>,
)
    requires
        offset <= content.len(),
    ensures
        holds_written(Write::begin_spec(handle, offset, len).0, buf, content),
{
    let w = Write::begin_spec(handle, offset, len).0;
    assert(w.written == 0);
    assert(content.subrange(offset as int, offset as int) =~= buf.subrange(0, 0));
}

/// The buffer of the read after the call that the read `r` asked for last
/// was answered by `reply`: a read that moved `n` bytes has put the bytes
/// of the file at the offset asked for where the machine said.
pub open spec fn buffer_after_read(r: Read, reply: Reply, content: Seq<u8>, buf: Seq<u8>) -> Seq<u8> {
    if r.phase == ReadPhase::Reading && moved(reply, r.len - r.done) {
        Seq::new(
            buf.len(),
            |i: int|
                if r.done <= i < r.done + reply->Count_0 {
                    content[r.offset + i]
                } else {
                    buf[i]
                },
        )
    } else {
        buf
    }
}

/// The buffer holds, in the bytes that the read counts as read, what the
/// file holds at the offset of the read.
pub open spec fn holds_read(r: Read, content: Seq<u8>, buf: Seq<u8>) -> bool {
    buf.subrange(0, r.done as int) == content.subrange(r.offset as int, r.offset + r.done)
}

/// Every step of a read keeps the buffer in step with its count: what the
/// read counts as read is what the file holds there.
pub proof fn lemma_read_keeps_bytes(r: Read, reply: Reply, content: Seq<u8>, buf: Seq<u8>)
    requires
        r.wf(),
        buf.len() == r.len,
        r.offset + r.len <= content.len(),
        holds_read(r, content, buf),
    ensures
        holds_read(r.next(reply).0, content, buffer_after_read(r, reply, content, buf)),
        r.next(reply).0.offset == r.offset,
        r.next(reply).0.len == r.len,
        r.next(reply).1 matches Step::Finish(Ok(n)) ==> n == r.next(reply).0.done,
{
    let after = buffer_after_read(r, reply, content, buf);
    let next = r.next(reply).0;
    if r.phase == ReadPhase::Reading && moved(reply, r.len - r.done) {
        let n = reply->Count_0;
        assert(next.done == r.done + n);
        assert(after.subrange(0, next.done as int) =~= content.subrange(
            r.offset as int,
            r.offset + next.done,
        )) by {
            assert forall|i: int| 0 <= i < next.done implies after[i] == content[r.offset + i] by {
                if i < r.done {
                    assert(buf.subrange(0, r.done as int)[i] == content.subrange(
                        r.offset as int,
                        r.offset + r.done,
                    )[i]);
                }
            }
        }
    } else {
        assert(next.done == r.done);
    }
}

/// What was written is what is read: where a write has `written` bytes of
/// `data` in the cache file, and a read at the same offset of the same
/// file has no more bytes than that in its buffer, these are the first
/// bytes of `data`.
pub proof fn lemma_round_trip(
    w: Write,
    r: Read,
    data: Seq<u8>,
    content: Seq<u8>,
    buf: Seq<u8>,
)
    requires
        holds_written(w, data, content),
        holds_read(r, content, buf),
        r.offset == w.offset,
        r.done <= w.written <= data.len(),
        r.done <= buf.len(),
    ensures
        buf.subrange(0, r.done as int) == data.subrange(0, r.done as int),
{
    assert(buf.subrange(0, r.done as int) =~= data.subrange(0, r.done as int)) by {
        assert forall|i: int| 0 <= i < r.done implies buf[i] == data[i] by {
            assert(buf.subrange(0, r.done as int)[i] == content.subrange(
                r.offset as int,
                r.offset + r.done,
            )[i]);
            assert(content.subrange(w.offset as int, w.offset + w.written)[i] == data.subrange(
                0,
                w.written as int,
            )[i]);
        }
    }
}

/// A write to a clean handle takes the digest off the cache file before
/// anything else, and writes no byte before that is done: while bytes are
/// written and not flushed, the cache file is not marked pristine.
pub proof fn lemma_write_unmarks_first(handle: Handle, offset: u64, len: usize, reply: Reply)
    requires
        !handle.dirty,
        range_end(offset, len) is Some,
    ensures
        Write::begin_spec(handle, offset, len).1 == Step::<usize>::Do(
            Action::SetPristine { pristine: false },
        ),
        Write::begin_spec(handle, offset, len).0.phase == WritePhase::Clearing,
        Write::begin_spec(handle, offset, len).0.next(reply).1 matches Step::Do(
            Action::WriteAt { .. },
        ) ==> reply == Reply::Done,
{
}

/// Once a write has put a byte into the cache file, the handle is dirty
/// when the write ends, however it ends.
pub proof fn lemma_written_is_dirty(w: Write, reply: Reply)
    requires
        w.wf(),
        w.written > 0 || (w.phase == WritePhase::Cache && moved(reply, w.len - w.written)),
        w.phase == WritePhase::Source || w.phase == WritePhase::Cache,
    ensures
        w.next(reply).1 is Finish ==> w.next(reply).0.handle.dirty || (w.next(reply).1
            == Step::<usize>::Finish(Err(RError { e: crate::errno::ENOTSUP, traced: false }))
            && w.next(reply).0.handle.write_through_failed),
{
}

/// A piece goes to the source before it goes to the cache: the cache is
/// written only behind a write to the source that went well, or on a
/// handle whose source has refused writes.
pub proof fn lemma_source_before_cache(w: Write, reply: Reply)
    requires
        w.wf(),
    ensures
        w.next(reply).1 matches Step::Do(Action::WriteAt { side: Side::Cache, skip, offset }) ==> {
            &&& skip == w.next(reply).0.written
            &&& offset == w.offset + skip
            &&& (w.phase == WritePhase::Source && reply is Count)
                || w.next(reply).0.handle.write_through_failed
        },
        w.next(reply).1 matches Step::Do(Action::WriteAt { side: Side::Source, skip, offset }) ==> {
            &&& skip == w.next(reply).0.written
            &&& offset == w.offset + skip
            &&& !w.next(reply).0.handle.write_through_failed
        },
{
}

/// What holds of a flush on its way.
pub open spec fn flush_inv(f: Flush) -> bool {
    match f.phase {
        FlushPhase::Cancelling => !f.handle.dirty,
        FlushPhase::Over => true,
        _ => f.handle.dirty,
    }
}

/// A flush keeps to its order. The cache file is flushed only after it was
/// marked pristine or copied to the source; the source is flushed only
/// after the cache file; and the flush reports that it went to the source
/// only after the source was flushed. The handle is clean then.
pub proof fn lemma_flush_order(f: Flush, reply: Reply)
    requires
        flush_inv(f),
    ensures
        flush_inv(f.next(reply).0),
        f.next(reply).0.phase == FlushPhase::SyncingCache ==> (f.phase == FlushPhase::Marking
            || f.phase == FlushPhase::Copying) && reply == Reply::Done,
        f.next(reply).0.phase == FlushPhase::SyncingSource ==> f.phase == FlushPhase::SyncingCache
            && reply == Reply::Done,
        f.next(reply).1 == Step::<bool>::Finish(Ok(true)) ==> f.phase == FlushPhase::SyncingSource
            && reply == Reply::Done && !f.next(reply).0.handle.dirty,
        f.next(reply).1 == Step::<bool>::Finish(Ok(false)) ==> !f.next(reply).0.handle.dirty,
{
}

/// A flush begins as the handle is. A dirty handle whose writes went
/// through is marked pristine; one whose source refused them is copied to
/// the source.
pub proof fn lemma_flush_begins(handle: Handle)
    ensures
        flush_inv(Flush::begin_spec(handle).0),
        Flush::begin_spec(handle).0.handle == handle,
        handle.dirty && !handle.write_through_failed ==> Flush::begin_spec(handle).1
            == Step::<bool>::Do(Action::SetPristine { pristine: true }),
        handle.dirty && handle.write_through_failed && !handle.has_page_in_thread
            ==> Flush::begin_spec(handle).1 == Step::<bool>::Do(
            Action::Copy { to_cache: false, disable_splice: false },
        ),
{
}

/// A flush that has failed leaves a handle that another flush takes up
/// again: the handle is still dirty, unless the failure was that of a
/// call the flush never makes.
pub proof fn lemma_failed_flush_stays_dirty(f: Flush, reply: Reply)
    requires
        flush_inv(f),
        f.phase != FlushPhase::Over,
        f.phase != FlushPhase::Cancelling,
        f.next(reply).1 matches Step::Finish(Err(_)),
    ensures
        f.next(reply).0.handle.dirty,
{
}

/// A read from a handle whose page-in may still run waits first, for the
/// end of its own range: it reads no byte that the page-in has yet to
/// copy.
pub proof fn lemma_read_waits(handle: Handle, offset: u64, len: usize, info: PageInInfo)
    requires
        handle.has_page_in_thread,
        range_end(offset, len) is Some,
    ensures
        Read::begin_spec(handle, offset, len).1 == Step::<usize>::Do(
            Action::WaitForOffset { offset: (offset + len) as u64, set_dirty: false },
        ),
        info.wait_spec((offset + len) as u64) == Wait::Ready ==> info.offset >= offset + len,
        info.wait_spec((offset + len) as u64) == Wait::Finished ==> info.eof,
{
}

/// The source file after the call that the write `w` asked for last was
/// answered by `reply`, for a source that takes every piece whole: a write
/// to the source that went well has put the rest of the buffer where the
/// machine said.
pub open spec fn source_after_write(w: Write, reply: Reply, buf: Seq<u8>, content: Seq<u8>) -> Seq<
    u8,
> {
    if w.phase == WritePhase::Source && reply is Count {
        store_at(content, w.offset + w.written, buf.subrange(w.written as int, w.len as int))
    } else {
        content
    }
}

/// The source file holds the buffer at the offset of the write, once a
/// piece has gone to it.
pub open spec fn holds_in_source(w: Write, buf: Seq<u8>, content: Seq<u8>) -> bool {
    (w.phase == WritePhase::Cache || w.written > 0) && !w.handle.write_through_failed ==> {
        &&& w.offset + w.len <= content.len()
        &&& content.subrange(w.offset as int, w.offset + w.len) == buf
    }
}

/// Every step of a write that goes through keeps the source ahead of the
/// cache: by the time a piece goes to the cache, the source holds it.
pub proof fn lemma_write_goes_through(w: Write, reply: Reply, buf: Seq<u8>, content: Seq<u8>)
    requires
        w.wf(),
        buf.len() == w.len,
        holds_in_source(w, buf, content),
    ensures
        holds_in_source(w.next(reply).0, buf, source_after_write(w, reply, buf, content)),
{
    let after = source_after_write(w, reply, buf, content);
    let next = w.next(reply).0;
    if w.phase == WritePhase::Source && reply is Count && !w.handle.write_through_failed {
        assert(after.subrange(w.offset as int, w.offset + w.len) =~= buf) by {
            assert forall|i: int| 0 <= i < w.len implies after[w.offset + i] == buf[i] by {
                if i < w.written {
                    assert(content.subrange(w.offset as int, w.offset + w.len)[i] == buf[i]);
                } else {
                    assert(buf.subrange(w.written as int, w.len as int)[i - w.written] == buf[i]);
                }
            }
        }
    }
}

/// What a write has put into the cache file it has put into the source
/// file too, unless the source refused it: the two files hold the same
/// bytes where the write counts them as written.
pub proof fn lemma_source_holds_what_cache_holds(
    w: Write,
    buf: Seq<u8>,
    source: Seq<u8>,
    cache: Seq<u8>,
)
    requires
        w.wf(),
        buf.len() == w.len,
        w.written > 0,
        !w.handle.write_through_failed,
        holds_written(w, buf, cache),
        holds_in_source(w, buf, source),
    ensures
        source.subrange(w.offset as int, w.offset + w.written) == cache.subrange(
            w.offset as int,
            w.offset + w.written,
        ),
{
    let a = source.subrange(w.offset as int, w.offset + w.written);
    let b = cache.subrange(w.offset as int, w.offset + w.written);
    assert forall|i: int| 0 <= i < w.written implies #[trigger] a[i] == b[i] by {
        assert(source.subrange(w.offset as int, w.offset + w.len)[i] == buf[i]);
        assert(b[i] == buf.subrange(0, w.written as int)[i]);
    }
    assert(a =~= b);
}

/// Whether `reply` is one that the file that is read, which holds `from`,
/// can give to the call that the copy `t` asked for last: its size is the
/// true one, a piece lies within the file, and no bytes come only at the
/// end.
pub open spec fn reader_gives(t: Transfer, reply: Reply, from: Seq<u8>) -> bool {
    match t.phase {
        TransferPhase::SizingReader => reply matches Reply::Count(n) ==> n == from.len(),
        TransferPhase::Reading | TransferPhase::SplicingIn => reply matches Reply::Count(n) ==> {
            &&& t.offset + n <= from.len()
            &&& (n == 0 ==> t.offset == from.len())
        },
        _ => true,
    }
}

/// The file that is written, which held `to`, after the call that the copy
/// `t` asked for last was answered by `reply`: a truncation has cut it, and
/// a piece that was moved stands where the machine said.
pub open spec fn writer_after(t: Transfer, reply: Reply, from: Seq<u8>, to: Seq<u8>) -> Seq<u8> {
    match t.phase {
        TransferPhase::Truncating => if reply == Reply::Done && t.size <= to.len() {
            to.take(t.size as int)
        } else {
            to
        },
        TransferPhase::Writing => if reply is Count {
            store_at(to, t.offset as int, from.subrange(t.offset as int, t.offset + t.chunk))
        } else {
            to
        },
        TransferPhase::SplicingOut => if t.next(reply).0.phase == TransferPhase::PostingSplice {
            store_at(
                to,
                t.offset as int,
                from.subrange(t.offset as int, t.offset + reply->Count_0),
            )
        } else {
            to
        },
        _ => to,
    }
}

/// What holds of a copy on its way: the writer holds what the reader
/// holds, as far as the copy has come, and no more than the reader holds
/// once it was measured; the piece on its way lies within the reader.
pub open spec fn copy_inv(t: Transfer, from: Seq<u8>, to: Seq<u8>) -> bool {
    &&& t.offset <= to.len()
    &&& t.offset + (t.chunk - t.moved) <= from.len()
    &&& to.subrange(0, t.offset as int) == from.subrange(0, t.offset as int)
    &&& (t.phase != TransferPhase::SizingReader && t.phase != TransferPhase::Over ==> t.size
        == from.len())
    &&& (t.phase != TransferPhase::SizingReader && t.phase != TransferPhase::SizingWriter
        && t.phase != TransferPhase::Truncating && t.phase != TransferPhase::Over ==> to.len()
        <= from.len())
    &&& (t.phase == TransferPhase::PostingEnd ==> t.offset == from.len())
    &&& (t.phase == TransferPhase::ClosingIn(None) || t.phase == TransferPhase::ClosingOut(None)
        ==> t.offset == from.len() && t.chunk == t.moved)
    &&& (t.phase == TransferPhase::SplicingIn || t.phase == TransferPhase::Reading
        || t.phase == TransferPhase::PostingUser || t.phase == TransferPhase::Piping ==> t.chunk
        == t.moved)
    &&& (t.phase == TransferPhase::Writing ==> t.moved == 0)
}

/// Whether `reply` is one that the file that is written, which holds `to`,
/// can give to the call that the copy `t` asked for last: its size is the
/// true one.
pub open spec fn writer_gives(t: Transfer, reply: Reply, to: Seq<u8>) -> bool {
    t.phase == TransferPhase::SizingWriter ==> (reply matches Reply::Count(n) ==> n == to.len())
}

/// Every step of a copy keeps the writer equal to the reader as far as the
/// copy has come.
pub proof fn lemma_copy_keeps_bytes(t: Transfer, reply: Reply, from: Seq<u8>, to: Seq<u8>)
    requires
        t.wf(),
        copy_inv(t, from, to),
        reader_gives(t, reply, from),
        writer_gives(t, reply, to),
    ensures
        copy_inv(t.next(reply).0, from, writer_after(t, reply, from, to)),
{
    let next = t.next(reply).0;
    let after = writer_after(t, reply, from, to);
    assert(after.subrange(0, 0) =~= from.subrange(0, 0));
    match t.phase {
        TransferPhase::Truncating => {
            if reply == Reply::Done && t.size <= to.len() {
                assert(next.offset == 0);
            }
        },
        TransferPhase::Writing => {
            if reply is Count {
                assert(after.subrange(0, next.offset as int) =~= from.subrange(
                    0,
                    next.offset as int,
                )) by {
                    assert forall|i: int| 0 <= i < next.offset implies after[i] == from[i] by {
                        if i < t.offset {
                            assert(to.subrange(0, t.offset as int)[i] == from.subrange(
                                0,
                                t.offset as int,
                            )[i]);
                        } else {
                            assert(from.subrange(t.offset as int, t.offset + t.chunk)[i
                                - t.offset] == from[i]);
                        }
                    }
                }
            }
        },
        TransferPhase::SplicingOut => {
            if next.phase == TransferPhase::PostingSplice {
                let n = reply->Count_0;
                assert(after.subrange(0, next.offset as int) =~= from.subrange(
                    0,
                    next.offset as int,
                )) by {
                    assert forall|i: int| 0 <= i < next.offset implies after[i] == from[i] by {
                        if i < t.offset {
                            assert(to.subrange(0, t.offset as int)[i] == from.subrange(
                                0,
                                t.offset as int,
                            )[i]);
                        } else {
                            assert(from.subrange(t.offset as int, t.offset + n)[i - t.offset]
                                == from[i]);
                        }
                    }
                }
            }
        },
        _ => {},
    }
}

/// A copy begins with nothing copied.
pub proof fn lemma_copy_begins(disable_splice: bool, from: Seq<u8>, to: Seq<u8>)
    ensures
        copy_inv(Transfer::begin_spec(disable_splice).0, from, to),
{
    assert(to.subrange(0, 0) =~= from.subrange(0, 0));
}

/// A copy that ends well has made the writer equal to the reader.
pub proof fn lemma_copy_is_whole(t: Transfer, reply: Reply, from: Seq<u8>, to: Seq<u8>)
    requires
        t.wf(),
        copy_inv(t, from, to),
        t.next(reply).1 == crate::transfer::Progress::Finish(Ok(())),
    ensures
        to == from,
{
    assert(t.phase == TransferPhase::PostingEnd);
    assert(to =~= to.subrange(0, t.offset as int));
    assert(from =~= from.subrange(0, t.offset as int));
}

/// No file is opened for writing alone: a file that is asked for so is
/// opened for reading too, in the source and in the cache. A cache file
/// that has to be filled is opened so that it can be written, and is
/// created where it is missing.
pub proof fn lemma_never_write_only(flags: u32, valid: bool)
    ensures
        promoted(flags) & O_ACCMODE != O_WRONLY,
        open_cache_flags(flags, valid) & O_ACCMODE != O_WRONLY,
        !valid ==> open_cache_flags(flags, valid) & O_ACCMODE != O_RDONLY,
        !valid ==> open_cache_flags(flags, valid) & O_CREAT == O_CREAT,
        flags & O_ACCMODE != O_WRONLY ==> promoted(flags) == flags,
{
    assert((if flags & 3 == 1 {
        (flags & !3u32) | 2
    } else {
        flags
    }) & 3 != 1) by (bit_vector);
    assert(((flags & !3u32) | 2) & 3 == 2) by (bit_vector);
    let p = promoted(flags);
    assert((p | 0o100) & 0o100 == 0o100) by (bit_vector);
    assert((((p | 0o100) & !3u32) | 2) & 0o100 == 0o100) by (bit_vector);
    assert((((p | 0o100) & !3u32) | 2) & 3 == 2) by (bit_vector);
    assert((p | 0o100) & 3 == p & 3) by (bit_vector);
}

/// A check that is only to look removes nothing.
pub proof fn lemma_check_only_removes_nothing(v: Validate, reply: Reply)
    requires
        v.check_only,
    ensures
        !(v.next(reply).1 matches Step::Do(Action::Unlink { .. })),
        Validate::begin_spec(v.assume_valid, true).0.check_only,
        v.next(reply).0.check_only,
{
}

/// The answer of a check turns to yes only when the cache file was opened
/// and the caller vouches for it, or when its digest was found to be that
/// of the source; and a cache file is removed only when the source is gone
/// or the digest was found to be another.
pub proof fn lemma_valid_means_pristine(v: Validate, reply: Reply)
    ensures
        v.next(reply).0.valid && !v.valid ==> (v.phase == ValidatePhase::OpeningCache
            && v.assume_valid && reply is Fd) || (v.phase == ValidatePhase::Checking && reply
            == Reply::Flag(true)),
        v.next(reply).1 matches Step::Do(Action::Unlink { .. }) ==> (v.phase
            == ValidatePhase::OpeningSource && reply == Reply::Failed(crate::errno::ENOENT)) || (
        v.phase == ValidatePhase::Checking && reply == Reply::Flag(false)),
        v.next(reply).1 == Step::<bool>::Finish(Ok(true)) ==> v.valid && v.phase
            == ValidatePhase::ClosingCache,
        v.next(reply).0.assume_valid == v.assume_valid,
{
}

/// The source is opened unless the file is only read and the cache file
/// stands for it; and a page-in is started exactly for a cache file that
/// has to be filled and is not cut to nothing.
pub proof fn lemma_open_leaves_source_alone(op: Open, reply: Reply)
    ensures
        op.next(reply).1 matches Step::Do(Action::Open { side: Side::Source, flags, .. })
            ==> opens_source(op.next(reply).0.flags, op.next(reply).0.valid) && flags == promoted(
            op.flags,
        ),
        op.next(reply).1 matches Step::Finish(Ok(h)) ==> h.has_page_in_thread == (!op.valid
            && promoted(op.flags) & crate::errno::O_TRUNC == 0),
        op.next(reply).0.flags == op.flags,
{
}

/// A read goes forward: every call that it asks for after the first
/// follows bytes that were read, so a read of `len` bytes asks for no more
/// than `len` calls on the file.
pub proof fn lemma_read_goes_forward(r: Read, reply: Reply)
    requires
        r.wf(),
        r.phase == ReadPhase::Reading,
    ensures
        r.next(reply).1 is Do ==> r.next(reply).0.done > r.done && r.next(reply).0.phase
            == ReadPhase::Reading,
        r.next(reply).1 is Finish ==> r.next(reply).0.phase == ReadPhase::Over,
{
}

/// A write goes forward: every piece that goes to the cache is followed by
/// the end of the write or by a piece that begins further on.
pub proof fn lemma_write_goes_forward(w: Write, reply: Reply)
    requires
        w.wf(),
        w.phase == WritePhase::Cache,
    ensures
        w.next(reply).1 is Do ==> w.next(reply).0.written > w.written,
        w.next(reply).1 is Finish ==> w.next(reply).0.phase == WritePhase::Over,
{
}

/// The write and the cache file after the replies `replies` were given
/// to the write `w`, one after the other, each call having done to the
/// cache file what its reply says.
pub open spec fn write_run(w: Write, replies: Seq<Reply>, buf: Seq<u8>, content: Seq<u8>) -> (
    Write,
    Seq<u8>,
)
    decreases replies.len(),
{
    if replies.len() == 0 {
        (w, content)
    } else {
        write_run(
            w.next(replies[0]).0,
            replies.drop_first(),
            buf,
            cache_after_write(w, replies[0], buf, content),
        )
    }
}

/// The read and its buffer after the replies `replies` were given to the
/// read `r`, one after the other, each call having put into the buffer
/// what its reply says.
pub open spec fn read_run(r: Read, replies: Seq<Reply>, content: Seq<u8>, buf: Seq<u8>) -> (
    Read,
    Seq<u8>,
)
    decreases replies.len(),
{
    if replies.len() == 0 {
        (r, buf)
    } else {
        read_run(
            r.next(replies[0]).0,
            replies.drop_first(),
            content,
            buffer_after_read(r, replies[0], content, buf),
        )
    }
}

/// However the calls of a write are answered, the cache file holds what
/// the write counts as written.
pub proof fn lemma_write_run(w: Write, replies: Seq<Reply>, buf: Seq<u8>, content: Seq<u8>)
    requires
        w.wf(),
        buf.len() == w.len,
        holds_written(w, buf, content),
    ensures
        holds_written(write_run(w, replies, buf, content).0, buf, write_run(w, replies, buf, content).1),
        write_run(w, replies, buf, content).0.wf(),
        write_run(w, replies, buf, content).0.offset == w.offset,
        write_run(w, replies, buf, content).0.len == w.len,
    decreases replies.len(),
{
    if replies.len() > 0 {
        lemma_write_keeps_bytes(w, replies[0], buf, content);
        lemma_write_run(
            w.next(replies[0]).0,
            replies.drop_first(),
            buf,
            cache_after_write(w, replies[0], buf, content),
        );
    }
}

/// However the calls of a read are answered, the buffer holds what the
/// file holds, as far as the read counts bytes as read.
pub proof fn lemma_read_run(r: Read, replies: Seq<Reply>, content: Seq<u8>, buf: Seq<u8>)
    requires
        r.wf(),
        buf.len() == r.len,
        r.offset + r.len <= content.len(),
        holds_read(r, content, buf),
    ensures
        holds_read(read_run(r, replies, content, buf).0, content, read_run(r, replies, content, buf).1),
        read_run(r, replies, content, buf).0.wf(),
        read_run(r, replies, content, buf).0.offset == r.offset,
        read_run(r, replies, content, buf).0.len == r.len,
        read_run(r, replies, content, buf).1.len() == buf.len(),
    decreases replies.len(),
{
    if replies.len() > 0 {
        lemma_read_keeps_bytes(r, replies[0], content, buf);
        lemma_read_run(
            r.next(replies[0]).0,
            replies.drop_first(),
            content,
            buffer_after_read(r, replies[0], content, buf),
        );
    }
}

/// What is written is what is read back.
///
/// Bytes `data` are written to a handle at `offset`, and the write comes,
/// by whatever replies, to count some of them as written. A read of that
/// many bytes at the same offset of the same handle then gives, however its
/// calls are answered and as far as it gets, the bytes that were written.
pub proof fn lemma_written_is_read(
    handle: Handle,
    offset: u64,
    data: Seq<u8>,
    content: Seq<u8>,
    writes: Seq<Reply>,
    reads: Seq<Reply>,
    buf: Seq<u8>,
)
    requires
        data.len() <= usize::MAX,
        range_end(offset, data.len() as usize) is Some,
        offset <= content.len(),
    ensures
        ({
            let begun = Write::begin_spec(handle, offset, data.len() as usize).0;
            let (write, cache) = write_run(begun, writes, data, content);
            let asked = Read::begin_spec(write.handle, offset, write.written).0;
            let (read, got) = read_run(asked, reads, cache, buf.take(write.written as int));
            buf.len() >= write.written ==> read.done <= write.written && got.subrange(
                0,
                read.done as int,
            ) == data.subrange(0, read.done as int)
        }),
{
    let begun = Write::begin_spec(handle, offset, data.len() as usize).0;
    lemma_write_begins_empty(handle, offset, data.len() as usize, data, content);
    lemma_write_run(begun, writes, data, content);
    let (write, cache) = write_run(begun, writes, data, content);
    let asked = Read::begin_spec(write.handle, offset, write.written).0;
    if buf.len() >= write.written {
        let start = buf.take(write.written as int);
        assert(start.subrange(0, 0) =~= cache.subrange(offset as int, offset as int));
        lemma_read_run(asked, reads, cache, start);
        let (read, got) = read_run(asked, reads, cache, start);
        lemma_round_trip(write, read, data, cache, got);
    }
}

/// The call that a flush waits to be answered; none once it is over.
pub open spec fn flush_asks(f: Flush) -> Option<Action> {
    match f.phase {
        FlushPhase::Cancelling => Some(Action::Cancel),
        FlushPhase::WaitingForEof => Some(Action::WaitForEof),
        FlushPhase::Copying => Some(Action::Copy { to_cache: false, disable_splice: false }),
        FlushPhase::Marking => Some(Action::SetPristine { pristine: true }),
        FlushPhase::SyncingCache => Some(Action::Sync { side: Side::Cache }),
        FlushPhase::SyncingSource => Some(Action::Sync { side: Side::Source }),
        FlushPhase::Unmarking(_) => Some(Action::SetPristine { pristine: false }),
        FlushPhase::Over => None,
    }
}

/// A flush and the step it has given belong together: the step asks for
/// the call that the flush waits for, or the flush is over.
pub open spec fn flush_waits(f: Flush, step: Step<bool>) -> bool {
    match step {
        Step::Do(action) => flush_inv(f) && flush_asks(f) == Some(action),
        Step::Finish(result) => f.phase == FlushPhase::Over && (result is Ok ==> !f.handle.dirty),
    }
}

/// The flush, its last step, and the calls that were made with their
/// replies, after the replies `replies` were given to the flush `f`, which
/// has given the step `step`.
pub open spec fn flush_run(f: Flush, step: Step<bool>, replies: Seq<Reply>) -> (
    Flush,
    Step<bool>,
    Seq<(Action, Reply)>,
)
    decreases replies.len(),
{
    if replies.len() == 0 || step is Finish {
        (f, step, Seq::<(Action, Reply)>::empty())
    } else {
        let rest = flush_run(f.next(replies[0]).0, f.next(replies[0]).1, replies.drop_first());
        (rest.0, rest.1, seq![(step->Do_0, replies[0])] + rest.2)
    }
}

/// How many calls a flush still makes before it can report that it went to
/// the source.
pub open spec fn flush_owes(f: Flush) -> nat {
    match f.phase {
        FlushPhase::WaitingForEof => 4,
        FlushPhase::Copying | FlushPhase::Marking => 3,
        FlushPhase::SyncingCache => 2,
        FlushPhase::SyncingSource => 1,
        _ => 0,
    }
}

/// The calls end as a flush that went to the source ends: the cache file
/// was marked pristine or copied to the source, then the cache file was
/// flushed, then the source file, and every one of these calls went well.
pub open spec fn ends_in_sync(calls: Seq<(Action, Reply)>, owed: nat) -> bool {
    let n = calls.len() as int;
    &&& n == owed
    &&& owed >= 1 ==> calls[n - 1] == (Action::Sync { side: Side::Source }, Reply::Done)
    &&& owed >= 2 ==> calls[n - 2] == (Action::Sync { side: Side::Cache }, Reply::Done)
    &&& owed >= 3 ==> (calls[n - 3] == (Action::SetPristine { pristine: true }, Reply::Done)
        || calls[n - 3] == (Action::Copy { to_cache: false, disable_splice: false }, Reply::Done))
}

/// No call was made on a file: at most the page-in was asked to stop.
pub open spec fn touches_nothing(calls: Seq<(Action, Reply)>) -> bool {
    forall|i: int| 0 <= i < calls.len() ==> (#[trigger] calls[i]).0 == Action::Cancel
}

/// However the calls of a flush are answered, it keeps to its order.
pub proof fn lemma_flush_run(f: Flush, step: Step<bool>, replies: Seq<Reply>)
    requires
        flush_waits(f, step),
    ensures
        ({
            let (end, last, calls) = flush_run(f, step, replies);
            &&& flush_waits(end, last)
            &&& (last == Step::<bool>::Finish(Ok(true)) && step is Do ==> flush_owes(f) >= 1
                && ends_in_sync(calls, flush_owes(f)))
            &&& (last == Step::<bool>::Finish(Ok(false)) && step is Do ==> f.phase
                == FlushPhase::Cancelling && touches_nothing(calls))
            &&& (f.phase == FlushPhase::Cancelling ==> end.handle == f.handle)
        }),
    decreases replies.len(),
{
    if replies.len() > 0 && step is Do {
        let reply = replies[0];
        let (f2, s2) = f.next(reply);
        lemma_flush_order(f, reply);
        lemma_flush_run(f2, s2, replies.drop_first());
        let rest = flush_run(f2, s2, replies.drop_first());
        let calls = seq![(step->Do_0, reply)] + rest.2;
        let n = calls.len() as int;
        assert(calls[0] == (step->Do_0, reply));
        assert forall|i: int| 1 <= i < n implies calls[i] == rest.2[i - 1] by {}
        if rest.1 == Step::<bool>::Finish(Ok(true)) {
            if s2 is Do {
                assert(ends_in_sync(rest.2, flush_owes(f2)));
                assert(flush_owes(f) >= 1);
                assert(ends_in_sync(calls, flush_owes(f)));
            } else {
                assert(rest.2.len() == 0);
                assert(f.phase == FlushPhase::SyncingSource && reply == Reply::Done);
            }
        }
        if rest.1 == Step::<bool>::Finish(Ok(false)) {
            if s2 is Do {
                assert(f2.phase == FlushPhase::Cancelling);
            } else {
                assert(rest.2.len() == 0);
                assert(f.phase == FlushPhase::Cancelling);
            }
        }
    }
}

/// After a flush that reports that it went to the source, the cache file
/// is marked as standing for the source, or was copied to it, and both
/// files are flushed.
///
/// Whatever the replies to the calls of a flush of `handle`: where the
/// flush ends with the report that it went to the source, it has made
/// three calls, or four with a wait for the page-in before them, and the
/// last three were the marking of the cache file as pristine, or the copying of
/// the cache file to the source, then the flushing of the cache file, then
/// that of the source file, and all three went well. The handle is clean
/// then. Where it ends with the report that nothing went to the source, no
/// call was made on either file.
pub proof fn lemma_flush_marks_then_syncs(handle: Handle, replies: Seq<Reply>)
    ensures
        ({
            let begun = Flush::begin_spec(handle);
            let (end, last, calls) = flush_run(begun.0, begun.1, replies);
            &&& (last == Step::<bool>::Finish(Ok(true)) ==> (ends_in_sync(calls, 3) || ends_in_sync(
                calls,
                4,
            )) && !end.handle.dirty)
            &&& (last == Step::<bool>::Finish(Ok(false)) ==> touches_nothing(calls) && end.handle
                == handle)
        }),
{
    let begun = Flush::begin_spec(handle);
    lemma_flush_begins(handle);
    lemma_flush_run(begun.0, begun.1, replies);
    let (end, last, calls) = flush_run(begun.0, begun.1, replies);
    if last == Step::<bool>::Finish(Ok(true)) {
        assert(begun.1 is Do);
        assert(flush_owes(begun.0) == 3 || flush_owes(begun.0) == 4);
    }
}

proof fn lemma_flush_copies(f: Flush, step: Step<bool>, replies: Seq<Reply>)
    requires
        flush_waits(f, step),
        flush_owes(f) >= 3,
    ensures
        ({
            let (end, last, calls) = flush_run(f, step, replies);
            last == Step::<bool>::Finish(Ok(true)) ==> calls.len() >= 3 && (calls[calls.len() - 3].0
                == (Action::SetPristine { pristine: true }) <==> f.phase == FlushPhase::Marking)
        }),
    decreases replies.len(),
{
    lemma_flush_run(f, step, replies);
    if replies.len() > 0 && step is Do {
        let reply = replies[0];
        let (f2, s2) = f.next(reply);
        let rest = flush_run(f2, s2, replies.drop_first());
        let calls = seq![(step->Do_0, reply)] + rest.2;
        lemma_flush_order(f, reply);
        lemma_flush_run(f2, s2, replies.drop_first());
        if rest.1 == Step::<bool>::Finish(Ok(true)) {
            assert(s2 is Do);
            assert(calls[0] == (step->Do_0, reply));
            if f.phase == FlushPhase::WaitingForEof {
                assert(f2.phase == FlushPhase::Copying);
                lemma_flush_copies(f2, s2, replies.drop_first());
                assert(calls[1] == rest.2[0]);
            }
        }
    }
}

/// A flush that went to the source has copied the cache file to it where
/// the source had refused a write, and has marked the cache file where it
/// had not.
///
/// Whatever the replies to the calls of a flush of `handle`: where the
/// flush ends with the report that it went to the source, the call before
/// the two that flush the files was the copying of the cache file to the
/// source if the handle says that a write did not go through, and the
/// marking of the cache file as pristine if it does not.
pub proof fn lemma_flush_copies_what_was_refused(handle: Handle, replies: Seq<Reply>)
    ensures
        ({
            let begun = Flush::begin_spec(handle);
            let (end, last, calls) = flush_run(begun.0, begun.1, replies);
            last == Step::<bool>::Finish(Ok(true)) ==> calls.len() >= 3 && calls[calls.len() - 3]
                == (
                if handle.write_through_failed {
                    Action::Copy { to_cache: false, disable_splice: false }
                } else {
                    Action::SetPristine { pristine: true }
                },
                Reply::Done,
            )
        }),
{
    let begun = Flush::begin_spec(handle);
    lemma_flush_begins(handle);
    lemma_flush_run(begun.0, begun.1, replies);
    let (end, last, calls) = flush_run(begun.0, begun.1, replies);
    if last == Step::<bool>::Finish(Ok(true)) {
        assert(begun.1 is Do);
        lemma_flush_copies(begun.0, begun.1, replies);
    }
}

/// A flush after a flush changes nothing.
///
/// Whatever the replies to the calls of a flush of `handle`: where it ends
/// well, a second flush of the handle that it leaves makes no call on
/// either file, leaves the handle as it is, and reports that nothing went
/// to the source.
pub proof fn lemma_flush_is_idempotent(handle: Handle, replies: Seq<Reply>, again: Seq<Reply>)
    ensures
        ({
            let begun = Flush::begin_spec(handle);
            let (end, last, calls) = flush_run(begun.0, begun.1, replies);
            let second = Flush::begin_spec(end.handle);
            let (end2, last2, calls2) = flush_run(second.0, second.1, again);
            last matches Step::Finish(Ok(_)) ==> touches_nothing(calls2) && end2.handle
                == end.handle && (last2 is Finish ==> last2 == Step::<bool>::Finish(Ok(false)))
        }),
{
    let begun = Flush::begin_spec(handle);
    lemma_flush_begins(handle);
    lemma_flush_run(begun.0, begun.1, replies);
    let (end, last, calls) = flush_run(begun.0, begun.1, replies);
    if last matches Step::Finish(Ok(_)) {
        assert(!end.handle.dirty);
        let second = Flush::begin_spec(end.handle);
        lemma_flush_begins(end.handle);
        lemma_flush_run(second.0, second.1, again);
        let (end2, last2, calls2) = flush_run(second.0, second.1, again);
        if second.1 is Finish {
            assert(calls2.len() == 0);
        } else {
            assert(second.0.phase == FlushPhase::Cancelling);
            if again.len() > 0 {
                let f2 = second.0.next(again[0]);
                assert(f2.1 == Step::<bool>::Finish(Ok(false)));
                let rest = flush_run(f2.0, f2.1, again.drop_first());
                assert(rest.2.len() == 0);
                assert(calls2 =~= seq![(Action::Cancel, again[0])]);
            } else {
                assert(calls2.len() == 0);
            }
        }
    }
}

/// The copy, its last step, and the file that is written, after the
/// replies `replies` were given to the copy `t`, which has given the step
/// `step`; the file that is read holds `from`, the one that is written
/// held `to`.
pub open spec fn copy_run(
    t: Transfer,
    step: Progress,
    replies: Seq<Reply>,
    from: Seq<u8>,
    to: Seq<u8>,
) -> (Transfer, Progress, Seq<u8>)
    decreases replies.len(),
{
    if replies.len() == 0 || step is Finish {
        (t, step, to)
    } else {
        copy_run(
            t.next(replies[0]).0,
            t.next(replies[0]).1,
            replies.drop_first(),
            from,
            writer_after(t, replies[0], from, to),
        )
    }
}

/// Whether every one of the replies is one that the two files can give.
pub open spec fn replies_fit(
    t: Transfer,
    step: Progress,
    replies: Seq<Reply>,
    from: Seq<u8>,
    to: Seq<u8>,
) -> bool
    decreases replies.len(),
{
    replies.len() == 0 || step is Finish || (reader_gives(t, replies[0], from) && writer_gives(
        t,
        replies[0],
        to,
    ) && replies_fit(
        t.next(replies[0]).0,
        t.next(replies[0]).1,
        replies.drop_first(),
        from,
        writer_after(t, replies[0], from, to),
    ))
}

proof fn lemma_copy_run(t: Transfer, step: Progress, replies: Seq<Reply>, from: Seq<u8>, to: Seq<u8>)
    requires
        t.wf(),
        copy_inv(t, from, to),
        step is Finish ==> (step == Progress::Finish(Ok(())) ==> to == from),
        replies_fit(t, step, replies, from, to),
    ensures
        copy_run(t, step, replies, from, to).1 == Progress::Finish(Ok(())) ==> copy_run(
            t,
            step,
            replies,
            from,
            to,
        ).2 == from,
    decreases replies.len(),
{
    if replies.len() > 0 && step is Do {
        let reply = replies[0];
        let (t2, s2) = t.next(reply);
        let after = writer_after(t, reply, from, to);
        lemma_copy_keeps_bytes(t, reply, from, to);
        if s2 == Progress::Finish(Ok(())) {
            lemma_copy_is_whole(t, reply, from, to);
            assert(after == to);
        }
        lemma_copy_run(t2, s2, replies.drop_first(), from, after);
    }
}

/// A copy that ends well has made the file that is written equal to the
/// file that is read.
///
/// The file that is read holds `from` and does not change; the file that
/// is written held `to`. Whatever the replies to the calls of the copy, as
/// long as each is one that the two files can give: where the copy ends
/// well, the file that is written holds `from`.
pub proof fn lemma_copy_makes_equal(
    disable_splice: bool,
    replies: Seq<Reply>,
    from: Seq<u8>,
    to: Seq<u8>,
)
    requires
        replies_fit(
            Transfer::begin_spec(disable_splice).0,
            Transfer::begin_spec(disable_splice).1,
            replies,
            from,
            to,
        ),
    ensures
        ({
            let begun = Transfer::begin_spec(disable_splice);
            let (end, last, written) = copy_run(begun.0, begun.1, replies, from, to);
            last == Progress::Finish(Ok(())) ==> written == from
        }),
{
    let begun = Transfer::begin_spec(disable_splice);
    lemma_copy_begins(disable_splice, from, to);
    lemma_copy_run(begun.0, begun.1, replies, from, to);
}

/// The calls that were made, with their replies, after the replies
/// `replies` were given to the write `w`, which has given the step `step`.
pub open spec fn write_calls(w: Write, step: Step<usize>, replies: Seq<Reply>) -> Seq<
    (Action, Reply),
>
    decreases replies.len(),
{
    if replies.len() == 0 || step is Finish {
        Seq::<(Action, Reply)>::empty()
    } else {
        seq![(step->Do_0, replies[0])] + write_calls(
            w.next(replies[0]).0,
            w.next(replies[0]).1,
            replies.drop_first(),
        )
    }
}

proof fn lemma_no_write_after_the_end(w: Write, step: Step<usize>, replies: Seq<Reply>)
    requires
        w.phase == WritePhase::Over || step is Finish,
        step is Do ==> !(step->Do_0 is WriteAt),
    ensures
        forall|i: int|
            0 <= i < write_calls(w, step, replies).len() ==> !((#[trigger] write_calls(
                w,
                step,
                replies,
            )[i]).0 is WriteAt),
    decreases replies.len(),
{
    if replies.len() > 0 && step is Do {
        let next = w.next(replies[0]);
        lemma_no_write_after_the_end(next.0, next.1, replies.drop_first());
        let rest = write_calls(next.0, next.1, replies.drop_first());
        let calls = write_calls(w, step, replies);
        assert forall|i: int| 0 <= i < calls.len() implies !((#[trigger] calls[i]).0 is WriteAt) by {
            if i > 0 {
                assert(calls[i] == rest[i - 1]);
            }
        }
    }
}

/// No byte is written to a clean handle before its cache file is unmarked.
///
/// Whatever the replies to the calls of a write to a handle that is not
/// dirty: the first call takes the digest off the cache file, and a byte
/// is written, to the source or to the cache, only if that call went well.
/// So a cache file that holds bytes that were not flushed is not marked
/// pristine.
pub proof fn lemma_unmarked_before_written(
    handle: Handle,
    offset: u64,
    len: usize,
    replies: Seq<Reply>,
    i: int,
)
    requires
        !handle.dirty,
        range_end(offset, len) is Some,
    ensures
        ({
            let begun = Write::begin_spec(handle, offset, len);
            let calls = write_calls(begun.0, begun.1, replies);
            &&& calls.len() > 0 ==> calls[0].0 == Action::SetPristine { pristine: false }
            &&& 0 <= i < calls.len() && calls[i].0 is WriteAt ==> i > 0 && calls[0].1
                == Reply::Done
        }),
{
    let begun = Write::begin_spec(handle, offset, len);
    let calls = write_calls(begun.0, begun.1, replies);
    if replies.len() > 0 {
        let next = begun.0.next(replies[0]);
        let rest = write_calls(next.0, next.1, replies.drop_first());
        assert(calls[0] == (Action::SetPristine { pristine: false }, replies[0]));
        if replies[0] != Reply::Done {
            lemma_no_write_after_the_end(next.0, next.1, replies.drop_first());
            if 0 < i < calls.len() {
                assert(calls[i] == rest[i - 1]);
            }
        }
    }
}

/// What the result of a write says. A write that ends well has as many
/// bytes in the cache file as it reports; where it reports bytes, the
/// handle is dirty; and it reports none only where none were to be
/// written. A write that reports fewer bytes than it was given ended on a
/// piece that the cache did not take.
pub proof fn lemma_write_result(w: Write, reply: Reply)
    requires
        w.wf(),
    ensures
        w.next(reply).1 matches Step::Finish(Ok(n)) ==> {
            &&& n == w.next(reply).0.written
            &&& (n > 0 ==> w.next(reply).0.handle.dirty)
            &&& (n == 0 ==> w.len == 0 && w.next(reply).0.handle.dirty == w.handle.dirty)
            &&& (n < w.len ==> w.phase == WritePhase::Cache && !moved(reply, w.len - w.written))
        },
{
}

/// Whether `reply` is one that a file which holds `content`, and which
/// does not fail, gives to the call that the read `r` asked for last: a
/// wait ends with a word on the page-in, and a read gives bytes that the
/// file has, and none only at its end.
pub open spec fn file_answers(r: Read, reply: Reply, content: Seq<u8>) -> bool {
    match r.phase {
        ReadPhase::Waiting => reply is Flag,
        ReadPhase::Reading => reply matches Reply::Count(n) && n <= r.len - r.done && r.offset
            + r.done + n <= content.len() && (n == 0 ==> r.offset + r.done >= content.len()),
        ReadPhase::Over => true,
    }
}

/// The read, its last step and its buffer after the replies `replies` were
/// given to the read `r`, which has given the step `step`.
pub open spec fn read_steps(
    r: Read,
    step: Step<usize>,
    replies: Seq<Reply>,
    content: Seq<u8>,
    buf: Seq<u8>,
) -> (Read, Step<usize>, Seq<u8>)
    decreases replies.len(),
{
    if replies.len() == 0 || step is Finish {
        (r, step, buf)
    } else {
        read_steps(
            r.next(replies[0]).0,
            r.next(replies[0]).1,
            replies.drop_first(),
            content,
            buffer_after_read(r, replies[0], content, buf),
        )
    }
}

/// Whether every one of the replies is one that the file gives.
pub open spec fn answers_fit(r: Read, step: Step<usize>, replies: Seq<Reply>, content: Seq<u8>) -> bool
    decreases replies.len(),
{
    replies.len() == 0 || step is Finish || (file_answers(r, replies[0], content) && answers_fit(
        r.next(replies[0]).0,
        r.next(replies[0]).1,
        replies.drop_first(),
        content,
    ))
}

/// A read and the step it has given belong together: the read waits or
/// reads on with bytes still to read, or it has ended with all of them.
pub open spec fn read_waits(r: Read, step: Step<usize>) -> bool {
    match step {
        Step::Do(_) => r.phase == ReadPhase::Waiting || (r.phase == ReadPhase::Reading && r.done
            < r.len),
        Step::Finish(result) => result == Ok::<usize, RError<crate::errno::Errno>>(r.len)
            && r.done == r.len,
    }
}

proof fn lemma_read_steps(
    r: Read,
    step: Step<usize>,
    replies: Seq<Reply>,
    content: Seq<u8>,
    buf: Seq<u8>,
)
    requires
        r.wf(),
        buf.len() == r.len,
        r.offset + r.len <= content.len(),
        holds_read(r, content, buf),
        read_waits(r, step),
        answers_fit(r, step, replies, content),
    ensures
        ({
            let (end, last, got) = read_steps(r, step, replies, content, buf);
            &&& read_waits(end, last)
            &&& holds_read(end, content, got)
            &&& got.len() == buf.len()
            &&& end.offset == r.offset
            &&& end.len == r.len
        }),
    decreases replies.len(),
{
    if replies.len() > 0 && step is Do {
        let reply = replies[0];
        lemma_read_keeps_bytes(r, reply, content, buf);
        lemma_read_steps(
            r.next(reply).0,
            r.next(reply).1,
            replies.drop_first(),
            content,
            buffer_after_read(r, reply, content, buf),
        );
    }
}

/// A read from a file that answers is whole.
///
/// A handle reads `len` bytes at `offset` from a cache file that holds
/// `content` and reaches to the end of the range. Whatever the replies, as
/// long as each is one that the file gives: the read does not fail, and
/// where it ends, it reports `len` bytes, and its buffer holds the bytes of
/// the file at `offset`.
pub proof fn lemma_read_is_whole(
    handle: Handle,
    offset: u64,
    len: usize,
    content: Seq<u8>,
    replies: Seq<Reply>,
    buf: Seq<u8>,
)
    requires
        offset + len <= content.len(),
        range_end(offset, len) is Some,
        buf.len() == len,
        answers_fit(
            Read::begin_spec(handle, offset, len).0,
            Read::begin_spec(handle, offset, len).1,
            replies,
            content,
        ),
    ensures
        ({
            let begun = Read::begin_spec(handle, offset, len);
            let (end, last, got) = read_steps(begun.0, begun.1, replies, content, buf);
            last is Finish ==> last == Step::<usize>::Finish(Ok(len)) && got == content.subrange(
                offset as int,
                offset + len,
            )
        }),
{
    let begun = Read::begin_spec(handle, offset, len);
    assert(buf.subrange(0, 0) =~= content.subrange(offset as int, offset as int));
    lemma_read_steps(begun.0, begun.1, replies, content, buf);
    let (end, last, got) = read_steps(begun.0, begun.1, replies, content, buf);
    if last is Finish {
        assert(got =~= got.subrange(0, len as int));
    }
}

/// What is written is read back, all of it.
///
/// Bytes `data` are written to a handle at `offset`, and the write comes,
/// by whatever replies, to count all of them as written. A read of as many
/// bytes at the same offset of the same handle, from the cache file as the
/// write left it, then reports that many bytes and gives `data`, whenever
/// it ends and the file has answered each of its calls.
pub proof fn lemma_round_trip_is_whole(
    handle: Handle,
    offset: u64,
    data: Seq<u8>,
    content: Seq<u8>,
    writes: Seq<Reply>,
    reads: Seq<Reply>,
    buf: Seq<u8>,
)
    requires
        data.len() <= usize::MAX,
        range_end(offset, data.len() as usize) is Some,
        offset <= content.len(),
        buf.len() == data.len(),
        ({
            let begun = Write::begin_spec(handle, offset, data.len() as usize).0;
            let (write, cache) = write_run(begun, writes, data, content);
            let asked = Read::begin_spec(write.handle, offset, data.len() as usize);
            write.written == data.len() && answers_fit(asked.0, asked.1, reads, cache)
        }),
    ensures
        ({
            let begun = Write::begin_spec(handle, offset, data.len() as usize).0;
            let (write, cache) = write_run(begun, writes, data, content);
            let asked = Read::begin_spec(write.handle, offset, data.len() as usize);
            let (end, last, got) = read_steps(asked.0, asked.1, reads, cache, buf);
            last is Finish ==> last == Step::<usize>::Finish(Ok(data.len() as usize)) && got
                == data
        }),
{
    let len = data.len() as usize;
    let begun = Write::begin_spec(handle, offset, len).0;
    lemma_write_begins_empty(handle, offset, len, data, content);
    lemma_write_run(begun, writes, data, content);
    let (write, cache) = write_run(begun, writes, data, content);
    lemma_read_is_whole(write.handle, offset, len, cache, reads, buf);
    assert(data =~= data.subrange(0, len as int));
}

/// The status of the page-in after the call that the copy `t` asked for
/// last was answered by `reply`: a post that went well has put the bytes
/// copied, and at the end the end, into the status.
pub open spec fn posted_after(t: Transfer, reply: Reply, info: PageInInfo) -> PageInInfo {
    if reply == Reply::Done && (t.phase == TransferPhase::PostingSplice || t.phase
        == TransferPhase::PostingUser || t.phase == TransferPhase::PostingEnd) {
        info.notified(Ok(t.offset), t.phase == TransferPhase::PostingEnd)
    } else {
        info
    }
}

/// What holds of a page-in on its way, of its status and of the two files:
/// the copy is in order, the cache file holds what the source holds as far
/// as the status says, and all of it once the status says that the end is
/// reached.
pub open spec fn pagein_inv(t: Transfer, info: PageInInfo, from: Seq<u8>, to: Seq<u8>) -> bool {
    &&& copy_inv(t, from, to)
    &&& info.offset <= to.len()
    &&& info.offset <= from.len()
    &&& to.subrange(0, info.offset as int) == from.subrange(0, info.offset as int)
    &&& (t.phase == TransferPhase::SizingReader || t.phase == TransferPhase::SizingWriter
        || t.phase == TransferPhase::Truncating ==> info.offset == 0 && !info.eof)
    &&& (info.eof ==> to == from)
}

/// A page-in begins in order, with a status in which nothing is posted.
pub proof fn lemma_page_in_begins(disable_splice: bool, from: Seq<u8>, to: Seq<u8>)
    ensures
        pagein_inv(
            Transfer::begin_spec(disable_splice).0,
            PageInInfo { offset: 0, dirty: false, eof: false, err: None },
            from,
            to,
        ),
{
    lemma_copy_begins(disable_splice, from, to);
    assert(to.subrange(0, 0) =~= from.subrange(0, 0));
}

/// Every step of a page-in keeps the status true: what it says is copied
/// is in the cache file as it is in the source, also when the copy starts
/// over through the buffer.
pub proof fn lemma_page_in_keeps_status(
    t: Transfer,
    reply: Reply,
    info: PageInInfo,
    from: Seq<u8>,
    to: Seq<u8>,
)
    requires
        t.wf(),
        pagein_inv(t, info, from, to),
        reader_gives(t, reply, from),
        writer_gives(t, reply, to),
    ensures
        pagein_inv(
            t.next(reply).0,
            posted_after(t, reply, info),
            from,
            writer_after(t, reply, from, to),
        ),
{
    lemma_copy_keeps_bytes(t, reply, from, to);
    let next = t.next(reply).0;
    let after = writer_after(t, reply, from, to);
    let posted = posted_after(t, reply, info);
    if after != to {
        // a piece of the source was put where it stands in the source, or
        // the file was cut before anything was posted
        assert(posted == info);
        if t.phase != TransferPhase::Truncating {
            let n: int = if t.phase == TransferPhase::Writing {
                t.chunk as int
            } else {
                reply->Count_0 as int
            };
            let piece = from.subrange(t.offset as int, t.offset + n);
            assert(after == store_at(to, t.offset as int, piece));
            assert forall|i: int| 0 <= i < info.offset implies after[i] == from[i] by {
                if t.offset <= i < t.offset + n {
                    assert(piece[i - t.offset] == from[i]);
                } else {
                    assert(to.subrange(0, info.offset as int)[i] == from.subrange(
                        0,
                        info.offset as int,
                    )[i]);
                }
            }
            assert(after.subrange(0, info.offset as int) =~= from.subrange(0, info.offset as int));
            if info.eof {
                assert forall|i: int| 0 <= i < from.len() implies after[i] == from[i] by {
                    if t.offset <= i < t.offset + n {
                        assert(piece[i - t.offset] == from[i]);
                    }
                }
                assert(after =~= from);
            }
        } else {
            assert(after.subrange(0, 0) =~= from.subrange(0, 0));
        }
    } else if posted != info {
        assert(posted.offset == t.offset);
        if posted.eof {
            assert(t.phase == TransferPhase::PostingEnd);
            assert(to =~= to.subrange(0, t.offset as int));
            assert(from =~= from.subrange(0, t.offset as int));
        }
    }
}

/// A request that the status lets go on finds the bytes of the source.
///
/// Where the status of a page-in says, to a request for `len` bytes at
/// `offset` that lie within the source, that it may go on, the cache file
/// holds in that range what the source holds: the request sees no byte
/// that the page-in has yet to copy.
pub proof fn lemma_paged_in_is_source(
    t: Transfer,
    info: PageInInfo,
    from: Seq<u8>,
    to: Seq<u8>,
    offset: u64,
    len: usize,
)
    requires
        pagein_inv(t, info, from, to),
        offset + len <= from.len(),
        offset + len <= u64::MAX,
        info.wait_spec((offset + len) as u64) == Wait::Ready || info.wait_spec(
            (offset + len) as u64,
        ) == Wait::Finished,
    ensures
        offset + len <= to.len(),
        to.subrange(offset as int, offset + len) == from.subrange(offset as int, offset + len),
{
    if !info.eof {
        assert(info.offset >= offset + len);
        assert forall|i: int| offset <= i < offset + len implies to[i] == from[i] by {
            assert(to.subrange(0, info.offset as int)[i] == from.subrange(0, info.offset as int)[i]);
        }
    }
    assert(to.subrange(offset as int, offset + len) =~= from.subrange(offset as int, offset + len));
}

/// A read while the page-in runs gives the bytes of the source.
///
/// A handle whose page-in is on its way reads `len` bytes at `offset`,
/// which lie within the source, and the status has let the read go on. The
/// cache file holds `cache` then; what the page-in writes later changes
/// nothing in the range. Whatever the replies, as long as each is one that
/// the cache file gives: where the read ends, it reports `len` bytes, and
/// they are the bytes of the source, not the zeros of a part that is yet
/// to be copied.
pub proof fn lemma_read_sees_source(
    handle: Handle,
    offset: u64,
    len: usize,
    t: Transfer,
    info: PageInInfo,
    source: Seq<u8>,
    cache: Seq<u8>,
    replies: Seq<Reply>,
    buf: Seq<u8>,
)
    requires
        pagein_inv(t, info, source, cache),
        offset + len <= source.len(),
        range_end(offset, len) is Some,
        buf.len() == len,
        info.wait_spec((offset + len) as u64) == Wait::Ready || info.wait_spec(
            (offset + len) as u64,
        ) == Wait::Finished,
        answers_fit(
            Read::begin_spec(handle, offset, len).0,
            Read::begin_spec(handle, offset, len).1,
            replies,
            cache,
        ),
    ensures
        ({
            let begun = Read::begin_spec(handle, offset, len);
            let (end, last, got) = read_steps(begun.0, begun.1, replies, cache, buf);
            last is Finish ==> last == Step::<usize>::Finish(Ok(len)) && got == source.subrange(
                offset as int,
                offset + len,
            )
        }),
{
    lemma_paged_in_is_source(t, info, source, cache, offset, len);
    lemma_read_is_whole(handle, offset, len, cache, replies, buf);
}

/// A page-in that ends well leaves a whole cache file and says so.
///
/// Where the last step of a page-in ends it well, the cache file holds
/// what the source holds, and the status says that the end is reached and
/// that all bytes of the source are copied; the error in the status is as
/// it was. The cache file is marked pristine with that post unless a write
/// came in, as [`PageInInfo::notify_offset`] says.
pub proof fn lemma_page_in_completes(
    t: Transfer,
    reply: Reply,
    info: PageInInfo,
    from: Seq<u8>,
    to: Seq<u8>,
)
    requires
        t.wf(),
        pagein_inv(t, info, from, to),
        t.next(reply).1 == Progress::Finish(Ok(())),
    ensures
        to == from,
        writer_after(t, reply, from, to) == from,
        posted_after(t, reply, info).eof,
        posted_after(t, reply, info).offset == from.len(),
        posted_after(t, reply, info).err == info.err,
        posted_after(t, reply, info).dirty == info.dirty,
{
    lemma_copy_is_whole(t, reply, from, to);
}

/// The write and the two files after the replies `replies` were given to
/// the write `w`, one after the other: each call has done to the cache
/// file, and to a source file that takes every piece whole, what its reply
/// says.
pub open spec fn write_both(
    w: Write,
    replies: Seq<Reply>,
    buf: Seq<u8>,
    source: Seq<u8>,
    cache: Seq<u8>,
) -> (Write, Seq<u8>, Seq<u8>)
    decreases replies.len(),
{
    if replies.len() == 0 {
        (w, source, cache)
    } else {
        write_both(
            w.next(replies[0]).0,
            replies.drop_first(),
            buf,
            source_after_write(w, replies[0], buf, source),
            cache_after_write(w, replies[0], buf, cache),
        )
    }
}

/// What holds of a write on its way to two files that both held `before`:
/// the cache file holds, beside what it held, the bytes that the write
/// counts as written, and the source file holds all bytes of the buffer
/// from the first piece on that has gone to it.
pub open spec fn sync_inv(
    w: Write,
    buf: Seq<u8>,
    before: Seq<u8>,
    source: Seq<u8>,
    cache: Seq<u8>,
) -> bool {
    let through = !w.handle.write_through_failed;
    &&& w.wf()
    &&& buf.len() == w.len
    &&& w.offset <= before.len()
    &&& cache == store_at(before, w.offset as int, buf.take(w.written as int))
    &&& (w.phase == WritePhase::Source || w.phase == WritePhase::Cache ==> w.written < w.len)
    &&& (through && (w.phase == WritePhase::Cache || w.written > 0) ==> source == store_at(
        before,
        w.offset as int,
        buf,
    ))
    &&& (through && w.written == 0 && w.phase != WritePhase::Cache && w.phase
        != WritePhase::Over ==> source == before)
    &&& (w.len == 0 ==> source == before)
}

proof fn lemma_write_keeps_sync(
    w: Write,
    reply: Reply,
    buf: Seq<u8>,
    before: Seq<u8>,
    source: Seq<u8>,
    cache: Seq<u8>,
)
    requires
        sync_inv(w, buf, before, source, cache),
    ensures
        sync_inv(
            w.next(reply).0,
            buf,
            before,
            source_after_write(w, reply, buf, source),
            cache_after_write(w, reply, buf, cache),
        ),
{
    let next = w.next(reply).0;
    let source2 = source_after_write(w, reply, buf, source);
    let cache2 = cache_after_write(w, reply, buf, cache);
    let o = w.offset as int;
    if w.phase == WritePhase::Cache && moved(reply, w.len - w.written) {
        let n = reply->Count_0 as int;
        let k = w.written as int;
        assert(next.written == k + n);
        assert(cache2 =~= store_at(before, o, buf.take(k + n))) by {
            assert(cache2 == store_at(cache, o + k, buf.subrange(k, k + n)));
        }
    } else {
        assert(next.written == w.written);
    }
    if w.phase == WritePhase::Source && reply is Count {
        let k = w.written as int;
        assert(source2 == store_at(source, o + k, buf.subrange(k, w.len as int)));
        if !w.handle.write_through_failed {
            if k == 0 {
                assert(buf.subrange(0, w.len as int) =~= buf);
            } else {
                assert(source2 =~= source);
            }
        }
    }
}

proof fn lemma_write_both(
    w: Write,
    replies: Seq<Reply>,
    buf: Seq<u8>,
    before: Seq<u8>,
    source: Seq<u8>,
    cache: Seq<u8>,
)
    requires
        sync_inv(w, buf, before, source, cache),
    ensures
        sync_inv(
            write_both(w, replies, buf, source, cache).0,
            buf,
            before,
            write_both(w, replies, buf, source, cache).1,
            write_both(w, replies, buf, source, cache).2,
        ),
        write_both(w, replies, buf, source, cache).0.offset == w.offset,
    decreases replies.len(),
{
    if replies.len() > 0 {
        lemma_write_keeps_sync(w, replies[0], buf, before, source, cache);
        assert(w.next(replies[0]).0.offset == w.offset);
        lemma_write_both(
            w.next(replies[0]).0,
            replies.drop_first(),
            buf,
            before,
            source_after_write(w, replies[0], buf, source),
            cache_after_write(w, replies[0], buf, cache),
        );
    }
}

/// A whole write keeps the two files the same.
///
/// The source file and the cache file hold the same bytes, `before`, and
/// bytes `data` are written to a handle at `offset` within them. Whatever
/// the replies, with a source that takes every piece whole: where the
/// write comes to count all bytes as written and the source has not
/// refused it, the two files hold the same bytes again, and they are
/// `data` put into `before` at `offset`.
///
/// A write that ends short of its bytes leaves in the source a piece that
/// the cache did not take; the files are the same again once the rest is
/// written.
pub proof fn lemma_whole_write_keeps_in_sync(
    handle: Handle,
    offset: u64,
    data: Seq<u8>,
    before: Seq<u8>,
    replies: Seq<Reply>,
)
    requires
        data.len() <= usize::MAX,
        range_end(offset, data.len() as usize) is Some,
        offset <= before.len(),
    ensures
        ({
            let begun = Write::begin_spec(handle, offset, data.len() as usize).0;
            let (write, source, cache) = write_both(begun, replies, data, before, before);
            write.written == data.len() && !write.handle.write_through_failed ==> source == cache
                && cache == store_at(before, offset as int, data)
        }),
{
    let begun = Write::begin_spec(handle, offset, data.len() as usize).0;
    assert(data.take(0) =~= Seq::<u8>::empty());
    assert(store_at(before, offset as int, data.take(0)) =~= before);
    if data.len() == 0 {
        assert(begun.phase != WritePhase::Source && begun.phase != WritePhase::Cache);
    }
    lemma_write_both(begun, replies, data, before, before, before);
    let (write, source, cache) = write_both(begun, replies, data, before, before);
    if write.written == data.len() && !write.handle.write_through_failed {
        assert(data.take(data.len() as int) =~= data);
    }
}

} // verus!

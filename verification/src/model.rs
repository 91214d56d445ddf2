//! The mathematical model of a positional transfer.
//!
//! These spec functions say, over plain sequences and numbers, what a
//! positional read or write does: how many bytes move, what the file holds
//! afterwards, and which failure, if any, a call reports. The executable
//! back-end in [`crate::mem`] is specified entirely in terms of them, and the
//! proof functions at the end state the laws that connect the operations.

use vstd::prelude::*;

use crate::error::IoErrorKind;

verus! {

/// A run of `n` zero bytes: what a sparse region reads back as.
pub open spec fn zeros(n: nat) -> Seq<u8> {
    Seq::new(n, |i: int| 0u8)
}

/// How many bytes a read at `offset` into a destination of length `dst_len`
/// moves out of a file of length `file_len`: everything up to the end of the
/// file, capped by the destination. At or past end-of-file nothing moves.
pub open spec fn read_count(file_len: nat, dst_len: nat, offset: nat) -> nat {
    if offset >= file_len {
        0
    } else if dst_len <= file_len - offset {
        dst_len
    } else {
        (file_len - offset) as nat
    }
}

/// The length of a file of length `file_len` after writing `src_len` bytes at
/// `offset`: a write never shrinks the file, and extends it exactly to the
/// end of the transfer when that lies past the old end. Writing nothing
/// changes nothing, wherever the offset points.
pub open spec fn write_len(file_len: nat, src_len: nat, offset: nat) -> nat {
    if src_len == 0 {
        file_len
    } else if offset + src_len >= file_len {
        (offset + src_len) as nat
    } else {
        file_len
    }
}

/// Byte `i` of a file that held `data` after `src` is written at `offset`:
/// the written range holds `src`, bytes the write did not touch keep their
/// old value, and the gap in front of a write past the old end reads as zero.
pub open spec fn write_byte(data: Seq<u8>, src: Seq<u8>, offset: nat, i: int) -> u8 {
    if offset <= i < offset + src.len() {
        src[i - offset]
    } else if i < data.len() {
        data[i]
    } else {
        0u8
    }
}

/// The whole contents of a file that held `data` after `src` is written at
/// `offset`.
pub open spec fn write_contents(data: Seq<u8>, src: Seq<u8>, offset: nat) -> Seq<u8> {
    Seq::new(write_len(data.len(), src.len(), offset), |i: int| write_byte(data, src, offset, i))
}

/// Which failure a positional read reports, if any. A zero-length request
/// never fails; otherwise a handle without read access is refused, and then a
/// pending interruption, if one is due, aborts the call. With read access and
/// nothing pending the read is owed success.
pub open spec fn read_error_kind(readable: bool, pending: nat, dst_len: nat) -> Option<
    IoErrorKind,
> {
    if dst_len == 0 {
        None
    } else if !readable {
        Some(IoErrorKind::PermissionDenied)
    } else if pending > 0 {
        Some(IoErrorKind::Interrupted)
    } else {
        None
    }
}

/// Which failure a positional write reports, if any. A zero-length request
/// never fails; otherwise a handle without write access is refused, then a
/// pending interruption aborts the call, and then an offset whose transfer
/// would end past the largest representable file is rejected. Otherwise the
/// write is owed success.
pub open spec fn write_error_kind(writable: bool, pending: nat, src_len: nat, offset: nat) -> Option<
    IoErrorKind,
> {
    if src_len == 0 {
        None
    } else if !writable {
        Some(IoErrorKind::PermissionDenied)
    } else if pending > 0 {
        Some(IoErrorKind::Interrupted)
    } else if offset + src_len > usize::MAX as nat {
        Some(IoErrorKind::InvalidOffset)
    } else {
        None
    }
}

/// Round trip: a write of `src` at `offset` leaves exactly `src` in the
/// written range, and a read back at the same offset into a destination of at
/// least `src.len()` bytes reaches all of it.
pub proof fn lemma_write_then_read(data: Seq<u8>, src: Seq<u8>, offset: nat, dst_len: nat)
    ensures
        write_contents(data, src, offset).len() == write_len(data.len(), src.len(), offset),
        src.len() > 0 ==> write_contents(data, src, offset).subrange(
            offset as int,
            (offset + src.len()) as int,
        ) == src,
        dst_len >= src.len() ==> read_count(
            write_contents(data, src, offset).len(),
            dst_len,
            offset,
        ) >= src.len(),
{
    if src.len() > 0 {
        assert(write_contents(data, src, offset).subrange(offset as int, (offset + src.len()) as int)
            =~= src);
    }
}

/// Sparse extension: a write wholly past the old end grows the file exactly
/// to the end of the transfer, keeps every old byte, fills the gap with
/// zeros, and places `src` at `offset`.
pub proof fn lemma_sparse_extension(data: Seq<u8>, src: Seq<u8>, offset: nat)
    requires
        offset > data.len(),
        src.len() > 0,
    ensures
        write_contents(data, src, offset).len() == (offset + src.len()) as int,
        write_contents(data, src, offset).subrange(0, data.len() as int) == data,
        write_contents(data, src, offset).subrange(data.len() as int, offset as int) == zeros(
            (offset - data.len()) as nat,
        ),
        write_contents(data, src, offset).subrange(offset as int, (offset + src.len()) as int) == src,
{
    assert(write_contents(data, src, offset).subrange(0, data.len() as int) =~= data);
    assert(write_contents(data, src, offset).subrange(data.len() as int, offset as int) =~= zeros(
        (offset - data.len()) as nat,
    ));
    assert(write_contents(data, src, offset).subrange(offset as int, (offset + src.len()) as int) =~= src);
}

/// Transient interruption on a read is never retried internally and never
/// turns into another failure: when a read reports `Interrupted`, one
/// interruption was consumed, and the retried call either succeeds — when no
/// interruption is left — or reports `Interrupted` again.
pub proof fn lemma_read_retry_after_interrupt(readable: bool, pending: nat, dst_len: nat)
    requires
        read_error_kind(readable, pending, dst_len) == Some(IoErrorKind::Interrupted),
    ensures
        pending >= 1,
        read_error_kind(readable, (pending - 1) as nat, dst_len) == (if pending == 1 {
            None::<IoErrorKind>
        } else {
            Some(IoErrorKind::Interrupted)
        }),
{
}

/// The write-side counterpart of [`lemma_read_retry_after_interrupt`]: given
/// no fault besides the interruptions — the transfer must not end past the
/// largest representable file — the retried write either succeeds or reports
/// `Interrupted` again.
pub proof fn lemma_write_retry_after_interrupt(
    writable: bool,
    pending: nat,
    src_len: nat,
    offset: nat,
)
    requires
        write_error_kind(writable, pending, src_len, offset) == Some(IoErrorKind::Interrupted),
        offset + src_len <= usize::MAX as nat,
    ensures
        pending >= 1,
        write_error_kind(writable, (pending - 1) as nat, src_len, offset) == (if pending == 1 {
            None::<IoErrorKind>
        } else {
            Some(IoErrorKind::Interrupted)
        }),
{
}

} // verus!

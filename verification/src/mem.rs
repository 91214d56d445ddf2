//! The in-memory back-end.
//!
//! [`MemFile`] holds a regular file as plain data — its bytes, its cursor,
//! which platform family the back-end imitates, the handle's access rights,
//! and how many transient interruptions are still due. The two operations
//! below are the reference implementation of positional I/O: their contracts
//! pin the outcome of every call exactly, in terms of the spec functions of
//! [`crate::model`].

use vstd::prelude::*;

use crate::error::IoError;
use crate::error::IoErrorKind;
use crate::model::read_count;
use crate::model::read_error_kind;
use crate::model::write_contents;
use crate::model::write_error_kind;
use crate::model::write_len;

verus! {

/// The operating-system family a back-end belongs to. The one observable
/// difference between the two is what happens to the handle's cursor: a
/// Windows back-end moves it to the end of a successful transfer, a POSIX
/// back-end never touches it.
#[derive(Clone, Copy, Debug, PartialEq, Eq, Structural)]
pub enum Platform {
    /// POSIX-like hosts: the positional primitives leave the cursor alone.
    Posix,
    /// Windows hosts: a successful positional call repositions the cursor.
    Windows,
}

/// An open regular file held entirely in memory.
///
/// Every field is public: a `MemFile` is a model, and a caller may put it in
/// any state a real open handle could be in. `pending_interrupts` stands for
/// the asynchronous signals that would interrupt the next calls on a real
/// host: each non-trivial call consumes one and fails with
/// [`IoErrorKind::Interrupted`] until none is left.
///
/// The handle stands for a file opened without append-only semantics: the
/// offset a caller passes is always honoured.
#[derive(Debug)]
pub struct MemFile {
    /// The bytes of the file.
    pub data: Vec<u8>,
    /// The cursor: the kernel-maintained current position of the handle.
    pub pos: u64,
    /// Which platform family this back-end imitates.
    pub platform: Platform,
    /// Whether the handle was opened with read access.
    pub readable: bool,
    /// Whether the handle was opened with write access.
    pub writable: bool,
    /// How many transient interruptions are still due before calls go
    /// through.
    pub pending_interrupts: u32,
}

impl MemFile {
    /// An empty file, freshly opened for both directions, with the cursor at
    /// the start and no interruption due.
    pub fn new(platform: Platform) -> (f: MemFile)
        ensures
            f.data@ == Seq::<u8>::empty(),
            f.pos == 0,
            f.platform == platform,
            f.readable,
            f.writable,
            f.pending_interrupts == 0,
    {
        MemFile {
            data: Vec::new(),
            pos: 0,
            platform,
            readable: true,
            writable: true,
            pending_interrupts: 0,
        }
    }
}

/// Reads bytes from `file` starting at the absolute position `offset` into
/// the front of `buf`, and returns how many were moved.
///
/// The contract pins every call down: the count is exactly
/// [`read_count`] of the file length, the destination length and the offset —
/// so a read at or past end-of-file moves nothing — the bytes moved are the
/// file's bytes at `offset`, the rest of `buf` keeps its old content, the
/// file's data never changes, and the call fails exactly when
/// [`read_error_kind`] says so. On a POSIX back-end the cursor is never
/// touched; on a Windows back-end a successful call leaves it at the end of
/// the transfer.
pub fn read_offset(file: &mut MemFile, buf: &mut Vec<u8>, offset: u64) -> (r: Result<
    usize,
    IoError,
>)
    ensures
        final(file).platform == old(file).platform,
        final(file).readable == old(file).readable,
        final(file).writable == old(file).writable,
        final(file).data@ == old(file).data@,
        final(buf)@.len() == old(buf)@.len(),
        old(file).platform == Platform::Posix ==> final(file).pos == old(file).pos,
        r is Ok <==> read_error_kind(
            old(file).readable,
            old(file).pending_interrupts as nat,
            old(buf)@.len(),
        ) is None,
        match r {
            Ok(count) => {
                &&& count <= old(buf)@.len()
                &&& count == read_count(old(file).data@.len(), old(buf)@.len(), offset as nat)
                &&& (forall|j: int|
                    0 <= j < count ==> final(buf)@[j] == old(file).data@[offset as int + j])
                &&& (forall|j: int|
                    count <= j < old(buf)@.len() ==> final(buf)@[j] == old(buf)@[j])
                &&& final(file).pending_interrupts == old(file).pending_interrupts
                &&& (old(file).platform == Platform::Windows ==> final(file).pos as int
                    == offset as int + count)
            },
            Err(e) => {
                &&& read_error_kind(
                    old(file).readable,
                    old(file).pending_interrupts as nat,
                    old(buf)@.len(),
                ) == Some(e.kind)
                &&& e.raw_code is None
                &&& final(buf)@ == old(buf)@
                &&& final(file).pos == old(file).pos
                &&& final(file).pending_interrupts == (if e.kind == IoErrorKind::Interrupted {
                    (old(file).pending_interrupts - 1) as u32
                } else {
                    old(file).pending_interrupts
                })
            },
        },
{
    let dst_len: usize = buf.len();
    if dst_len == 0 {
        if file.platform == Platform::Windows {
            file.pos = offset;
        }
        return Ok(0);
    }
    if !file.readable {
        return Err(IoError { kind: IoErrorKind::PermissionDenied, raw_code: None });
    }
    if file.pending_interrupts > 0 {
        file.pending_interrupts = file.pending_interrupts - 1;
        return Err(IoError { kind: IoErrorKind::Interrupted, raw_code: None });
    }
    let file_len: usize = file.data.len();
    let mut count: usize = 0;
    if offset < file_len as u64 {
        let off: usize = offset as usize;
        let avail: usize = file_len - off;
        count = if dst_len <= avail {
            dst_len
        } else {
            avail
        };
        let mut i: usize = 0;
        while i < count
            invariant
                *file == *old(file),
                off as int == offset as int,
                file_len == file.data@.len(),
                off + count <= file_len,
                count <= dst_len,
                dst_len == buf@.len(),
                i <= count,
                forall|j: int| 0 <= j < i ==> buf@[j] == file.data@[off + j],
                forall|j: int| i <= j < dst_len ==> buf@[j] == old(buf)@[j],
            decreases count - i,
        {
            let b: u8 = file.data[off + i];
            buf[i] = b;
            i = i + 1;
        }
    }
    if file.platform == Platform::Windows {
        file.pos = offset + count as u64;
    }
    Ok(count)
}

/// Writes the bytes of `buf` into `file` at the absolute position `offset`,
/// and returns how many were moved — here always all of them.
///
/// The contract pins every call down: on success the file afterwards is
/// exactly [`write_contents`] of its old bytes, the source and the offset —
/// so old bytes outside the written range survive, and a write past the old
/// end first fills the gap with zeros — and the call fails exactly when
/// [`write_error_kind`] says so, leaving the file as it was. On a POSIX
/// back-end the cursor is never touched; on a Windows back-end a successful
/// call leaves it at the end of the transfer.
pub fn write_offset(file: &mut MemFile, buf: &[u8], offset: u64) -> (r: Result<usize, IoError>)
    ensures
        final(file).platform == old(file).platform,
        final(file).readable == old(file).readable,
        final(file).writable == old(file).writable,
        old(file).platform == Platform::Posix ==> final(file).pos == old(file).pos,
        r is Ok <==> write_error_kind(
            old(file).writable,
            old(file).pending_interrupts as nat,
            buf@.len(),
            offset as nat,
        ) is None,
        match r {
            Ok(count) => {
                &&& count == buf@.len()
                &&& final(file).data@ == write_contents(old(file).data@, buf@, offset as nat)
                &&& final(file).data@.len() == write_len(
                    old(file).data@.len(),
                    buf@.len(),
                    offset as nat,
                )
                &&& final(file).pending_interrupts == old(file).pending_interrupts
                &&& (old(file).platform == Platform::Windows ==> final(file).pos as int
                    == offset as int + count)
            },
            Err(e) => {
                &&& write_error_kind(
                    old(file).writable,
                    old(file).pending_interrupts as nat,
                    buf@.len(),
                    offset as nat,
                ) == Some(e.kind)
                &&& e.raw_code is None
                &&& final(file).data@ == old(file).data@
                &&& final(file).pos == old(file).pos
                &&& final(file).pending_interrupts == (if e.kind == IoErrorKind::Interrupted {
                    (old(file).pending_interrupts - 1) as u32
                } else {
                    old(file).pending_interrupts
                })
            },
        },
{
    let src_len: usize = buf.len();
    if src_len == 0 {
        if file.platform == Platform::Windows {
            file.pos = offset;
        }
        return Ok(0);
    }
    if !file.writable {
        return Err(IoError { kind: IoErrorKind::PermissionDenied, raw_code: None });
    }
    if file.pending_interrupts > 0 {
        file.pending_interrupts = file.pending_interrupts - 1;
        return Err(IoError { kind: IoErrorKind::Interrupted, raw_code: None });
    }
    if offset > usize::MAX as u64 - src_len as u64 {
        return Err(IoError { kind: IoErrorKind::InvalidOffset, raw_code: None });
    }
    let off: usize = offset as usize;
    let ghost old_data: Seq<u8> = file.data@;
    while file.data.len() < off
        invariant
            file.platform == old(file).platform,
            file.readable == old(file).readable,
            file.writable == old(file).writable,
            file.pos == old(file).pos,
            file.pending_interrupts == old(file).pending_interrupts,
            old_data == old(file).data@,
            old_data.len() <= file.data@.len(),
            file.data@.len() <= off || file.data@.len() == old_data.len(),
            forall|j: int|
                0 <= j < file.data@.len() ==> file.data@[j] == (if j < old_data.len() {
                    old_data[j]
                } else {
                    0u8
                }),
        decreases off - file.data@.len(),
    {
        file.data.push(0);
    }
    let ghost padded_len: int = file.data@.len() as int;
    let mut i: usize = 0;
    while i < src_len
        invariant
            file.platform == old(file).platform,
            file.readable == old(file).readable,
            file.writable == old(file).writable,
            file.pos == old(file).pos,
            file.pending_interrupts == old(file).pending_interrupts,
            old_data == old(file).data@,
            i <= src_len,
            src_len == buf@.len(),
            off + src_len <= usize::MAX,
            off as int <= padded_len,
            padded_len == (if old_data.len() > off { old_data.len() as int } else { off as int }),
            file.data@.len() == (if off + i > padded_len {
                off + i
            } else {
                padded_len
            }),
            forall|j: int|
                0 <= j < file.data@.len() ==> file.data@[j] == (if off <= j < off + i {
                    buf@[j - off]
                } else if j < old_data.len() {
                    old_data[j]
                } else {
                    0u8
                }),
        decreases src_len - i,
    {
        let p: usize = off + i;
        if p < file.data.len() {
            file.data[p] = buf[i];
        } else {
            file.data.push(buf[i]);
        }
        i = i + 1;
    }
    proof {
        assert(file.data@ =~= write_contents(old_data, buf@, offset as nat));
    }
    if file.platform == Platform::Windows {
        file.pos = offset + src_len as u64;
    }
    Ok(src_len)
}

} // verus!

//! Positional reads and writes on an open regular file.
//!
//! The crate offers one capability: transfer bytes at a caller-supplied
//! absolute offset, without relying on the handle's current cursor. The two
//! dominant operating-system families expose subtly different primitives for
//! this, and the [`FileExt`] trait states the uniform contract while still
//! documenting the one divergence that cannot be hidden: a Windows-style
//! back-end moves the cursor to the end of the transfer, a POSIX-style
//! back-end leaves it alone.
//!
//! [`mem::MemFile`] is an in-memory back-end with fully specified behaviour;
//! it serves as the verified reference for what the contract means. A
//! back-end over real files delegates to the host kernel and lives outside
//! this crate; the contract it must honour is the one stated here.

use vstd::prelude::*;

pub mod error;
pub mod mem;
pub mod model;

pub use error::IoError;
pub use error::IoErrorKind;
pub use mem::MemFile;
pub use mem::Platform;

verus! {

/// Positional reads and writes on an open regular file.
///
/// Both operations deliberately mirror the single-shot, possibly-short
/// semantics of the underlying kernel primitives: at most the buffer's
/// length moves, a short transfer is not an error, and nothing is retried
/// internally. Looping belongs to the caller.
///
/// The abstract state a back-end exposes is the file's bytes
/// ([`contents`](FileExt::contents)), the handle's cursor
/// ([`cursor`](FileExt::cursor)), whether the back-end is of the Windows
/// family ([`moves_cursor`](FileExt::moves_cursor)), which repositions the
/// cursor to the end of a successful transfer where a POSIX back-end leaves
/// it alone, the handle's access rights ([`can_read`](FileExt::can_read),
/// [`can_write`](FileExt::can_write)), and how many transient interruptions
/// are still due
/// ([`interruptions_pending`](FileExt::interruptions_pending)). Success is
/// owed exactly where the contract says so: a zero-length request always
/// goes through, and so does any request on a handle with the right access
/// when no interruption is due (for a write, provided the transfer ends
/// within the largest representable file). Access rights never change, and
/// an interruption is consumed only by the `Interrupted` failure that
/// reports it — one per failed call, never silently — so a caller can chain
/// calls: what made one call succeed still holds for the next.
///
/// Handles with unusual open modes are outside this contract: a POSIX
/// handle opened append-only may have the kernel ignore the offset on
/// writes, and a Windows handle opened for overlapped I/O is not covered at
/// all.
pub trait FileExt {
    /// The bytes of the file.
    spec fn contents(&self) -> Seq<u8>;

    /// The kernel-maintained current position of the handle.
    spec fn cursor(&self) -> u64;

    /// Whether this back-end repositions the cursor after a successful
    /// positional call, as the Windows primitive does.
    spec fn moves_cursor(&self) -> bool;

    /// Whether the handle has read access: whether reads are owed success
    /// once no interruption is due.
    spec fn can_read(&self) -> bool;

    /// Whether the handle has write access: whether writes whose transfer
    /// ends within the largest representable file are owed success once no
    /// interruption is due.
    spec fn can_write(&self) -> bool;

    /// How many transient interruptions are still due. Each is surfaced as
    /// its own `Interrupted` failure — never retried internally — and is
    /// consumed by exactly that failure.
    spec fn interruptions_pending(&self) -> nat;

    /// Reads bytes starting at the absolute file position `offset` into the
    /// front of `buf`, and returns how many were moved.
    ///
    /// The count never exceeds the buffer's length, and a short read is not
    /// an error. A count of zero with a non-empty buffer means end-of-file
    /// was reached at or before `offset` — and only that: below end-of-file
    /// a successful read moves at least one byte. The file's data is never
    /// changed. Bytes of `buf` past the count keep their old value, and on
    /// failure the whole buffer does. A POSIX back-end never touches the
    /// cursor; a Windows back-end leaves it at the end of a successful
    /// transfer.
    fn read_offset(&mut self, buf: &mut Vec<u8>, offset: u64) -> (r: Result<usize, IoError>)
        ensures
            final(self).contents() == old(self).contents(),
            final(self).moves_cursor() == old(self).moves_cursor(),
            final(self).can_read() == old(self).can_read(),
            final(self).can_write() == old(self).can_write(),
            final(buf)@.len() == old(buf)@.len(),
            !old(self).moves_cursor() ==> final(self).cursor() == old(self).cursor(),
            (old(buf)@.len() == 0 || (old(self).can_read() && old(self).interruptions_pending()
                == 0)) ==> r is Ok,
            match r {
                Ok(count) => {
                    &&& count <= old(buf)@.len()
                    &&& (count > 0 ==> offset as int + count <= old(self).contents().len())
                    &&& (count == 0 && old(buf)@.len() > 0 ==> offset as int >= old(self).contents().len())
                    &&& (forall|j: int|
                        0 <= j < count ==> final(buf)@[j] == old(self).contents()[offset as int
                            + j])
                    &&& (forall|j: int|
                        count <= j < old(buf)@.len() ==> final(buf)@[j] == old(buf)@[j])
                    &&& (old(self).moves_cursor() ==> final(self).cursor() as int == offset as int
                        + count)
                    &&& final(self).interruptions_pending() == old(self).interruptions_pending()
                },
                Err(e) => {
                    &&& final(buf)@ == old(buf)@
                    &&& (e.kind == IoErrorKind::Interrupted ==> old(self).interruptions_pending()
                        > 0 && final(self).interruptions_pending() == old(self).interruptions_pending() - 1)
                    &&& (e.kind != IoErrorKind::Interrupted ==> final(self).interruptions_pending() == old(self).interruptions_pending())
                    &&& (e.kind == IoErrorKind::PermissionDenied ==> !old(self).can_read())
                },
            },
    ;

    /// Writes the bytes of `buf` at the absolute file position `offset`, and
    /// returns how many were moved.
    ///
    /// The count never exceeds the source's length, and a short write is not
    /// an error. On success the file holds exactly the moved bytes at
    /// `offset`; a write past the old end extends the file, and the gap in
    /// front of it reads back as zeros. On failure the file is unchanged. A
    /// POSIX back-end never touches the cursor; a Windows back-end leaves it
    /// at the end of a successful transfer.
    fn write_offset(&mut self, buf: &[u8], offset: u64) -> (r: Result<usize, IoError>)
        ensures
            final(self).moves_cursor() == old(self).moves_cursor(),
            final(self).can_read() == old(self).can_read(),
            final(self).can_write() == old(self).can_write(),
            !old(self).moves_cursor() ==> final(self).cursor() == old(self).cursor(),
            (buf@.len() == 0 || (old(self).can_write() && old(self).interruptions_pending() == 0
                && offset as int + buf@.len() <= usize::MAX as int)) ==> r is Ok,
            match r {
                Ok(count) => {
                    &&& count <= buf@.len()
                    &&& final(self).contents() == model::write_contents(
                        old(self).contents(),
                        buf@.take(count as int),
                        offset as nat,
                    )
                    &&& (old(self).moves_cursor() ==> final(self).cursor() as int == offset as int
                        + count)
                    &&& final(self).interruptions_pending() == old(self).interruptions_pending()
                },
                Err(e) => {
                    &&& final(self).contents() == old(self).contents()
                    &&& (e.kind == IoErrorKind::Interrupted ==> old(self).interruptions_pending()
                        > 0 && final(self).interruptions_pending() == old(self).interruptions_pending() - 1)
                    &&& (e.kind != IoErrorKind::Interrupted ==> final(self).interruptions_pending() == old(self).interruptions_pending())
                    &&& (e.kind == IoErrorKind::PermissionDenied ==> !old(self).can_write())
                },
            },
    ;
}

impl FileExt for mem::MemFile {
    open spec fn contents(&self) -> Seq<u8> {
        self.data@
    }

    open spec fn cursor(&self) -> u64 {
        self.pos
    }

    open spec fn moves_cursor(&self) -> bool {
        self.platform == mem::Platform::Windows
    }

    open spec fn can_read(&self) -> bool {
        self.readable
    }

    open spec fn can_write(&self) -> bool {
        self.writable
    }

    open spec fn interruptions_pending(&self) -> nat {
        self.pending_interrupts as nat
    }

    fn read_offset(&mut self, buf: &mut Vec<u8>, offset: u64) -> (r: Result<usize, IoError>) {
        let r = mem::read_offset(self, buf, offset);
        proof {
            if old(self).platform == mem::Platform::Posix {
                assert(!old(self).moves_cursor());
            }
        }
        r
    }

    fn write_offset(&mut self, buf: &[u8], offset: u64) -> (r: Result<usize, IoError>) {
        let r = mem::write_offset(self, buf, offset);
        proof {
            if r is Ok {
                assert(buf@.take(buf@.len() as int) =~= buf@);
            }
        }
        r
    }
}

} // verus!

use vstd::prelude::*;

verus! {

/// Classification of a kernel-reported I/O failure.
///
/// Every failure is surfaced to the caller unchanged; nothing is retried or
/// recovered internally, and no failure is ever converted into a successful
/// short transfer.
#[derive(Clone, Copy, Debug, PartialEq, Eq, Structural)]
pub enum IoErrorKind {
    /// The kernel aborted the call before any byte moved, typically because
    /// an asynchronous signal arrived. Transient: the caller should retry.
    Interrupted,
    /// The handle lacks the access required for the direction of transfer.
    PermissionDenied,
    /// The handle is closed, invalid, or not a regular file where one is
    /// required.
    BadHandle,
    /// The kernel rejected the offset, for example because the transfer would
    /// end past a maximum the file system imposes.
    InvalidOffset,
    /// The storage is full, a quota was exceeded, or the device reported a
    /// media error.
    StorageExhausted,
    /// Any other kernel-reported failure.
    Other,
}

/// A structured I/O failure: a kind, plus the raw platform code where the
/// host supplies one, preserved for diagnostics.
#[derive(Clone, Copy, Debug, PartialEq, Eq)]
pub struct IoError {
    /// What went wrong, as far as the taxonomy distinguishes it.
    pub kind: IoErrorKind,
    /// The underlying platform error code, if the host reported one.
    pub raw_code: Option<i32>,
}

impl IoError {
    /// True exactly for the one transient kind: an interrupted call moved no
    /// bytes and may simply be retried.
    pub fn is_transient(&self) -> (r: bool)
        ensures
            r <==> self.kind == IoErrorKind::Interrupted,
    {
        self.kind == IoErrorKind::Interrupted
    }
}

} // verus!

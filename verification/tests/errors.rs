//! Failure behaviour: which calls fail, with which kind, and that a
//! transient interruption is surfaced once per pending signal and then goes
//! away.

use file_offset::mem::read_offset;
use file_offset::mem::write_offset;
use file_offset::IoError;
use file_offset::IoErrorKind;
use file_offset::MemFile;
use file_offset::Platform;

fn scratch(bytes: &[u8]) -> MemFile {
    MemFile {
        data: bytes.to_vec(),
        pos: 0,
        platform: Platform::Posix,
        readable: true,
        writable: true,
        pending_interrupts: 0,
    }
}

#[test]
fn interrupted_read_then_retry_succeeds() {
    let mut f = scratch(b"hello");
    f.pending_interrupts = 2;
    let mut dst = vec![0u8; 5];
    for _ in 0..2 {
        let e = read_offset(&mut f, &mut dst, 0).expect_err("interruption is due");
        assert_eq!(e.kind, IoErrorKind::Interrupted);
        assert_eq!(e.raw_code, None);
        assert!(e.is_transient());
        assert_eq!(&dst[..], &[0u8; 5]);
    }
    assert_eq!(read_offset(&mut f, &mut dst, 0), Ok(5));
    assert_eq!(&dst[..], b"hello");
}

#[test]
fn interrupted_write_then_retry_succeeds() {
    let mut f = scratch(b"");
    f.pending_interrupts = 1;
    let e = write_offset(&mut f, b"abc", 0).expect_err("interruption is due");
    assert_eq!(e.kind, IoErrorKind::Interrupted);
    assert!(f.data.is_empty());
    assert_eq!(write_offset(&mut f, b"abc", 0), Ok(3));
    assert_eq!(&f.data[..], b"abc");
}

#[test]
fn read_without_read_access() {
    let mut f = scratch(b"secret");
    f.readable = false;
    let mut dst = vec![0u8; 6];
    let e = read_offset(&mut f, &mut dst, 0).expect_err("no read access");
    assert_eq!(e.kind, IoErrorKind::PermissionDenied);
    assert_eq!(e.raw_code, None);
    assert!(!e.is_transient());
    assert_eq!(&dst[..], &[0u8; 6]);
}

#[test]
fn write_without_write_access() {
    let mut f = scratch(b"keep");
    f.writable = false;
    let e = write_offset(&mut f, b"x", 0).expect_err("no write access");
    assert_eq!(e.kind, IoErrorKind::PermissionDenied);
    assert_eq!(&f.data[..], b"keep");
}

#[test]
fn write_offset_past_maximum() {
    let mut f = scratch(b"");
    let e = write_offset(&mut f, b"x", u64::MAX).expect_err("transfer ends past any maximum");
    assert_eq!(e.kind, IoErrorKind::InvalidOffset);
    assert!(f.data.is_empty());
    assert_eq!(f.pos, 0);
}

#[test]
fn windows_cursor_unchanged_on_failure() {
    let mut f = scratch(b"data");
    f.platform = Platform::Windows;
    f.pos = 3;
    f.pending_interrupts = 1;
    let mut dst = vec![0u8; 2];
    let e = read_offset(&mut f, &mut dst, 0).expect_err("interruption is due");
    assert_eq!(e.kind, IoErrorKind::Interrupted);
    assert_eq!(f.pos, 3);
}

#[test]
fn zero_length_calls_never_fail() {
    let mut f = scratch(b"data");
    f.readable = false;
    f.writable = false;
    f.pending_interrupts = 3;
    let mut dst: Vec<u8> = Vec::new();
    assert_eq!(read_offset(&mut f, &mut dst, 0), Ok(0));
    assert_eq!(write_offset(&mut f, b"", u64::MAX), Ok(0));
    assert_eq!(f.pending_interrupts, 3);
}

#[test]
fn error_value_carries_raw_code() {
    let e = IoError { kind: IoErrorKind::BadHandle, raw_code: Some(9) };
    assert_eq!(e.kind, IoErrorKind::BadHandle);
    assert_eq!(e.raw_code, Some(9));
    assert!(!e.is_transient());
    let full = IoError { kind: IoErrorKind::StorageExhausted, raw_code: Some(28) };
    assert!(!full.is_transient());
    let other = IoError { kind: IoErrorKind::Other, raw_code: None };
    assert!(!other.is_transient());
    let transient = IoError { kind: IoErrorKind::Interrupted, raw_code: Some(4) };
    assert!(transient.is_transient());
}

//! End-to-end scenarios on the in-memory back-end, exercised through the
//! public `FileExt` surface.

use file_offset::FileExt;
use file_offset::MemFile;
use file_offset::Platform;

fn open_file(platform: Platform, bytes: &[u8]) -> MemFile {
    MemFile {
        data: bytes.to_vec(),
        pos: 0,
        platform,
        readable: true,
        writable: true,
        pending_interrupts: 0,
    }
}

#[test]
fn basic_read() {
    let mut f = open_file(Platform::Posix, b"ABCDEFGH");
    let mut dst = vec![0u8; 4];
    let r = f.read_offset(&mut dst, 2);
    assert_eq!(r, Ok(4));
    assert_eq!(&dst[..], b"CDEF");
}

#[test]
fn read_past_end() {
    let mut f = open_file(Platform::Posix, b"ABCDEFGH");
    let mut dst = vec![0u8; 4];
    let r = f.read_offset(&mut dst, 8);
    assert_eq!(r, Ok(0));
    assert_eq!(&dst[..], &[0u8; 4]);
}

#[test]
fn short_read_tolerated() {
    let mut f = open_file(Platform::Posix, b"ABCDEFGH");
    let mut dst = vec![0u8; 100];
    let r = f.read_offset(&mut dst, 6);
    let count = r.expect("read near the end must succeed");
    assert!((2..=100).contains(&count));
    assert_eq!(&dst[..2], b"GH");
    assert_eq!(&dst[count..], &vec![0u8; 100 - count][..]);
}

#[test]
fn basic_write() {
    let mut f = MemFile::new(Platform::Posix);
    let r = f.write_offset(b"xyz", 0);
    assert_eq!(r, Ok(3));
    let mut dst = vec![0u8; 3];
    let r2 = f.read_offset(&mut dst, 0);
    assert_eq!(r2, Ok(3));
    assert_eq!(&dst[..], b"xyz");
}

#[test]
fn sparse_extension() {
    let mut f = MemFile::new(Platform::Posix);
    let r = f.write_offset(b"!", 1024);
    assert_eq!(r, Ok(1));
    assert!(f.data.len() >= 1025);
    let mut gap = vec![9u8; 1024];
    let r2 = f.read_offset(&mut gap, 0);
    assert_eq!(r2, Ok(1024));
    assert!(gap.iter().all(|b| *b == 0));
    let mut last = vec![0u8; 1];
    let r3 = f.read_offset(&mut last, 1024);
    assert_eq!(r3, Ok(1));
    assert_eq!(last[0], b'!');
}

#[test]
fn posix_cursor_unchanged() {
    let mut f = open_file(Platform::Posix, b"ABCDEFGH");
    f.pos = 5;
    let mut dst = vec![0u8; 2];
    let r = f.read_offset(&mut dst, 0);
    assert_eq!(r, Ok(2));
    assert_eq!(f.pos, 5);
}

#[test]
fn windows_cursor_moved() {
    let mut f = open_file(Platform::Windows, b"ABCDEFGH");
    f.pos = 5;
    let mut dst = vec![0u8; 2];
    let r = f.read_offset(&mut dst, 0);
    assert_eq!(r, Ok(2));
    assert_eq!(f.pos, 2);
}

use libxev::file::{fd_word, fill_region, finish_read, finish_write, read_region, File};
use libxev::once::OneShot;
use libxev::status::OsError;

#[test]
fn fd_word_non_negative() {
    assert_eq!(fd_word(0), 0);
    assert_eq!(fd_word(3), 3);
    assert_eq!(fd_word(i32::MAX), i32::MAX as usize);
}

#[test]
fn fd_word_sign_extends() {
    assert_eq!(fd_word(-1), usize::MAX);
    assert_eq!(fd_word(-2), usize::MAX - 1);
    assert_eq!(fd_word(-1) as isize as i32, -1);
    assert_eq!(fd_word(i32::MIN) as isize as i32, i32::MIN);
}

#[test]
fn file_init_status() {
    let mut f = File::new(0x700, 0).unwrap();
    assert_eq!(f.as_raw(), 0x700);
    assert_eq!(File::new(0x700, 9).err(), Some(OsError { code: 9 }));
}

#[test]
fn finish_read_keeps_bytes_read() {
    let mut region = vec![0u8; 16];
    region[..8].copy_from_slice(b"abcdefgh");
    let (got, r) = finish_read(region, 0, 8);
    assert_eq!(&got, b"abcdefgh");
    assert_eq!(r, Ok(8));
}

#[test]
fn finish_read_empty_and_full() {
    assert_eq!(finish_read(vec![1, 2, 3], 0, 0), (Vec::<u8>::new(), Ok(0)));
    assert_eq!(finish_read(vec![1, 2, 3], 1, 3), (vec![1, 2, 3], Ok(3)));
}

#[test]
fn finish_read_error_hands_buffer_back() {
    // A buffer of length 2 grown to a region of 4; the read fails.
    let region = read_region_of(b"xy", 4);
    let (buf, r) = finish_read(region, 2, -5);
    assert_eq!(r, Err(OsError { code: 5 }));
    assert_eq!(&buf, b"xy");
    let (buf, r) = finish_read(vec![0u8; 4], 0, -9);
    assert_eq!(r, Err(OsError { code: 9 }));
    assert!(buf.is_empty());
}

fn read_region_of(bytes: &[u8], cap: usize) -> Vec<u8> {
    fill_region(bytes.to_vec(), cap)
}

#[test]
fn fill_region_exact_length() {
    assert_eq!(fill_region(Vec::new(), 16), vec![0u8; 16]);
    assert_eq!(fill_region(b"ab".to_vec(), 4), vec![b'a', b'b', 0, 0]);
    assert_eq!(fill_region(b"abc".to_vec(), 3), b"abc".to_vec());
}

#[test]
fn finish_write_returns_buffer() {
    let payload = b"hello libxev file".to_vec();
    let (buf, r) = finish_write(payload.clone(), payload.len() as isize);
    assert_eq!(buf, payload);
    assert_eq!(r, Ok(17));
    let (buf, r) = finish_write(payload.clone(), -28);
    assert_eq!(buf, payload);
    assert_eq!(r, Err(OsError { code: 28 }));
}

#[test]
fn oneshot_delivers_once() {
    let mut once = OneShot::new(vec![1u8, 2]);
    assert!(!once.is_spent());
    assert_eq!(once.take(), Some(vec![1, 2]));
    assert!(once.is_spent());
    assert_eq!(once.take(), None);
}

#[test]
fn read_region_spans_capacity() {
    let buf: Vec<u8> = Vec::with_capacity(16);
    let cap = buf.capacity();
    let region = read_region(buf);
    assert_eq!(region.len(), cap);
    assert!(region.len() >= 16);
    assert!(region.iter().all(|b| *b == 0));
    let mut buf = Vec::with_capacity(8);
    buf.extend_from_slice(b"ab");
    let region = read_region(buf);
    assert_eq!(&region[..2], b"ab");
    assert!(region.len() >= 8);
}

use libxev::status::{check_status, decode_rw, OsError};

#[test]
fn status_zero_is_success() {
    assert_eq!(check_status(0), Ok(()));
}

#[test]
fn status_nonzero_is_error() {
    assert_eq!(check_status(2), Err(OsError { code: 2 }));
    assert_eq!(check_status(-22), Err(OsError { code: -22 }));
}

#[test]
fn decode_rw_bytes() {
    assert_eq!(decode_rw(0), Ok(0));
    assert_eq!(decode_rw(17), Ok(17));
    assert_eq!(decode_rw(isize::MAX), Ok(isize::MAX as usize));
}

#[test]
fn decode_rw_errno() {
    // -EBADF
    assert_eq!(decode_rw(-9), Err(OsError { code: 9 }));
    // -EAGAIN
    assert_eq!(decode_rw(-11), Err(OsError { code: 11 }));
}

#[test]
fn decode_rw_narrows_errno() {
    // An error number wider than 32 bits keeps its low 32 bits.
    assert_eq!(decode_rw(-(1isize << 32) - 5), Err(OsError { code: 5 }));
}

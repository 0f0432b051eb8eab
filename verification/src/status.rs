//! Status codes and transfer results reported by the C side.
use vstd::prelude::*;

verus! {

/// An operating-system error, identified by its raw error number.
#[derive(Debug, Clone, Copy, PartialEq, Eq, Structural)]
pub struct OsError {
    pub code: i32,
}

/// What a status code of the C API means: zero is success, any other value
/// is the error number that the call reports.
pub open spec fn spec_status(rc: i32) -> Result<(), OsError> {
    if rc == 0 {
        Ok(())
    } else {
        Err(OsError { code: rc })
    }
}

/// Turn a status code of the C API into a result.
pub fn check_status(rc: i32) -> (r: Result<(), OsError>)
    ensures
        r == spec_status(rc),
        r is Ok <==> rc == 0,
        rc != 0 ==> r == Err::<(), OsError>(OsError { code: rc }),
{
    if rc == 0 {
        Ok(())
    } else {
        Err(OsError { code: rc })
    }
}

/// What a read or write result means: a value `>= 0` is the number of bytes
/// transferred, a negative value is the negated error number (narrowed to
/// the width of an error number).
pub open spec fn spec_transfer(result: isize) -> Result<usize, OsError> {
    if result >= 0 {
        Ok(result as usize)
    } else {
        Err(OsError { code: (-result) as i32 })
    }
}

/// Decode the result of a file read or write.
pub fn decode_rw(result: isize) -> (r: Result<usize, OsError>)
    requires
        result != isize::MIN,
    ensures
        r == spec_transfer(result),
        result >= 0 ==> r == Ok::<usize, OsError>(result as usize),
        result < 0 ==> r == Err::<usize, OsError>(OsError { code: (-result) as i32 }),
{
    if result >= 0 {
        Ok(result as usize)
    } else {
        let negated: isize = -result;
        Err(OsError { code: negated as i32 })
    }
}

/// Only status zero is success: every other status is an error carrying
/// exactly that status as its error number.
pub proof fn lemma_status_meaning(rc: i32)
    ensures
        spec_status(rc) is Ok <==> rc == 0,
        rc != 0 ==> spec_status(rc) == Err::<(), OsError>(OsError { code: rc }),
{
}

/// A byte count reported by a transfer decodes to that same count.
pub proof fn lemma_transfer_count_roundtrip(n: usize)
    requires
        n <= isize::MAX,
    ensures
        spec_transfer(n as isize) == Ok::<usize, OsError>(n),
{
}

/// An error number `e` reported as `-e` decodes to an error carrying exactly
/// `e`, for every error number (EPIPE, ECONNRESET, ETIMEDOUT and all others).
pub proof fn lemma_transfer_errno_roundtrip(e: i32)
    requires
        e > 0,
    ensures
        spec_transfer((-e) as isize) == Err::<usize, OsError>(OsError { code: e }),
{
}

/// Decoding separates successes from failures by sign alone, and never
/// reports error number zero for a failure that fits an error number.
pub proof fn lemma_transfer_sign(result: isize)
    requires
        result != isize::MIN,
    ensures
        spec_transfer(result) is Ok <==> result >= 0,
        result < 0 && -result <= i32::MAX ==> spec_transfer(result) == Err::<usize, OsError>(
            OsError { code: (-result) as i32 },
        ) && (-result) as i32 > 0,
{
}

} // verus!

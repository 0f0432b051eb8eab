//! The file watcher of the extended C API and the decoding of its results.
use vstd::prelude::*;

use crate::status::{check_status, decode_rw, spec_transfer, OsError};

verus! {

/// A file watcher, held by the address of its initialised C storage. The
/// file descriptor is borrowed: the watcher never closes it implicitly.
pub struct File {
    raw: usize,
}

impl File {
    /// The handle always refers to real storage: its address is never zero.
    #[verifier::type_invariant]
    spec fn addr_non_zero(self) -> bool {
        self.raw != 0
    }
}

impl View for File {
    type V = usize;

    closed spec fn view(&self) -> usize {
        self.raw
    }
}

/// The machine word that stands for the descriptor `fd` in the C API: the
/// descriptor itself when it is non-negative, and its two's-complement
/// image in a `usize` when it is negative (so `-1` becomes `usize::MAX`).
pub open spec fn spec_fd_word(fd: i32) -> usize {
    fd as usize
}

/// The word handed to `xev_file_init` for `fd`: the descriptor sign-extended
/// to a machine word.
pub fn fd_word(fd: i32) -> (w: usize)
    ensures
        w == spec_fd_word(fd),
        fd >= 0 ==> w == fd,
{
    let wide: isize = fd as isize;
    let w: usize = wide as usize;
    assert(w == fd as usize) by (bit_vector)
        requires
            wide == fd as isize,
            w == wide as usize,
    ;
    w
}

/// A descriptor survives the trip through its machine word: reading the word
/// back as a signed machine word gives the descriptor, sentinels such as `-1`
/// included.
pub proof fn lemma_fd_word_roundtrip(fd: i32)
    ensures
        spec_fd_word(fd) as isize == fd,
{
    assert((fd as usize) as isize == fd) by (bit_vector);
}

impl File {
    /// Take over the watcher storage at `raw`, given the status that
    /// `xev_file_init` returned for it.
    pub fn new(raw: usize, rc: i32) -> (r: Result<File, OsError>)
        requires
            raw != 0,
        ensures
            match r {
                Ok(f) => rc == 0 && f@ == raw,
                Err(e) => rc != 0 && e == (OsError { code: rc }),
            },
    {
        match check_status(rc) {
            Ok(()) => Ok(File { raw }),
            Err(e) => Err(e),
        }
    }

    /// The address of the underlying `xev_watcher`.
    pub fn as_raw(&mut self) -> (r: usize)
        ensures
            r == old(self)@,
            r != 0,
            *final(self) == *old(self),
    {
        proof {
            use_type_invariant(&*self);
        }
        self.raw
    }
}

/// Wraps `Vec::capacity`. The standard library documents the capacity as
/// the number of elements the vector can hold without reallocating, so it is
/// never less than the length; that is all this states. Its exact value is
/// chosen by the allocator and is left unsaid.
#[verifier::external_body]
fn vec_capacity(v: &Vec<u8>) -> (c: usize)
    ensures
        c >= v.len(),
{
    v.capacity()
}

/// The read region for a buffer whose allocation holds `cap` bytes: exactly
/// `cap` bytes long, with the bytes the buffer already held kept at its start
/// and the rest zeroed.
pub fn fill_region(buf: Vec<u8>, cap: usize) -> (region: Vec<u8>)
    requires
        cap >= buf.len(),
    ensures
        region.len() == cap,
        region@.subrange(0, buf.len() as int) == buf@,
        forall|i: int| buf.len() <= i < cap ==> region@[i] == 0u8,
{
    let mut region = buf;
    region.resize(cap, 0u8);
    region
}

/// The region that an owned read fills: the buffer grown to its whole
/// allocation, whose capacity is the maximum read length (that is,
/// [`fill_region`] with the buffer's capacity). The capacity is chosen by the
/// allocator, so what is stated here is what holds whatever it is; the
/// length of the region is that capacity.
pub fn read_region(buf: Vec<u8>) -> (region: Vec<u8>)
    ensures
        region.len() >= buf.len(),
        region@.subrange(0, buf.len() as int) == buf@,
        forall|i: int| buf.len() <= i < region.len() ==> region@[i] == 0u8,
{
    let cap = vec_capacity(&buf);
    fill_region(buf, cap)
}

/// Finish an owned read. `region` is the read region after the read and
/// `len` the length the buffer had before it was grown to the region. The
/// buffer always comes back: after a successful read it holds exactly the
/// bytes read, at its start; after a failed read it has its former length
/// again (its former contents, as the failed read left the region), and the
/// error comes with it.
pub fn finish_read(region: Vec<u8>, len: usize, result: isize) -> (r: (Vec<u8>, Result<usize, OsError>))
    requires
        result != isize::MIN,
        len <= region.len(),
        result >= 0 ==> result <= region.len(),
    ensures
        r.1 == spec_transfer(result),
        result >= 0 ==> r.0@ == region@.subrange(0, result as int),
        result < 0 ==> r.0@ == region@.subrange(0, len as int),
{
    let decoded = decode_rw(result);
    let mut buf = region;
    match decoded {
        Ok(n) => buf.truncate(n),
        Err(_) => buf.truncate(len),
    }
    (buf, decoded)
}

/// Finish an owned write from `buf`: the buffer comes back unchanged, with the
/// decoded result of the write.
pub fn finish_write(buf: Vec<u8>, result: isize) -> (r: (Vec<u8>, Result<usize, OsError>))
    requires
        result != isize::MIN,
    ensures
        r.0@ == buf@,
        r.1 == spec_transfer(result),
{
    let decoded = decode_rw(result);
    (buf, decoded)
}

} // verus!

//! The `bytes` crate as the library uses it: shared byte buffers and readers
//! over them. Every item here is trusted; the contracts are read from the
//! `bytes` sources.

use vstd::prelude::*;

verus! {

/// A shared, immutable byte buffer.
#[verifier::external_type_specification]
#[verifier::external_body]
pub struct ExBytes(bytes::Bytes);

/// A reader over a buffer.
#[verifier::external_type_specification]
#[verifier::external_body]
#[verifier::reject_recursive_types(B)]
pub struct ExReader<B>(bytes::buf::Reader<B>);

/// The bytes a buffer holds.
pub uninterp spec fn bytes_contents(b: bytes::Bytes) -> Seq<u8>;

/// The bytes a reader over a buffer has not yet handed out.
pub uninterp spec fn reader_remaining(r: bytes::buf::Reader<bytes::Bytes>) -> Seq<u8>;

/// `Bytes::len`: how many bytes the buffer holds.
#[verifier::external_body]
pub fn bytes_len(b: &bytes::Bytes) -> (n: usize)
    ensures
        n == bytes_contents(*b).len(),
{
    b.len()
}

/// `Bytes::deref`: the buffer's bytes as a slice.
#[verifier::external_body]
pub fn bytes_slice(b: &bytes::Bytes) -> (s: &[u8])
    ensures
        s@ == bytes_contents(*b),
{
    std::ops::Deref::deref(b)
}

/// `Bytes::from_static`: a buffer over a static slice, which it holds as
/// it is.
#[verifier::external_body]
pub fn bytes_from_static(s: &'static [u8]) -> (b: bytes::Bytes)
    ensures
        bytes_contents(b) == s@,
{
    bytes::Bytes::from_static(s)
}

/// `Buf::reader` of a `Bytes`: a reader that hands out the buffer's bytes
/// from the start.
#[verifier::external_body]
pub fn bytes_reader(b: bytes::Bytes) -> (r: bytes::buf::Reader<bytes::Bytes>)
    ensures
        reader_remaining(r) == bytes_contents(b),
{
    bytes::Buf::reader(b)
}

/// `io::Read::read` of a `Reader<Bytes>`: copies as many of the remaining
/// bytes as `dst` holds to the front of `dst`, leaves the rest of `dst`
/// alone, and moves past them. It never fails.
#[verifier::external_body]
pub fn reader_read(r: &mut bytes::buf::Reader<bytes::Bytes>, dst: &mut [u8]) -> (res: std::io::Result<usize>)
    ensures
        res matches Ok(n) && {
            let left = reader_remaining(*old(r));
            &&& n == (if old(dst)@.len() < left.len() { old(dst)@.len() } else { left.len() })
            &&& final(dst)@ == left.take(n as int) + old(dst)@.skip(n as int)
            &&& reader_remaining(*final(r)) == left.skip(n as int)
        },
{
    std::io::Read::read(r, dst)
}

} // verus!

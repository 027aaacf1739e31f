//! Big-endian words and the byte buffers of the `bytes` crate.
use bytes::{Buf, BufMut, BytesMut};
use vstd::prelude::*;

verus! {

/// The two bytes of `n`, most significant first.
pub open spec fn be_bytes(n: u16) -> Seq<u8> {
    seq![(n / 256) as u8, (n % 256) as u8]
}

/// The 16-bit value whose bytes, most significant first, are `hi` and `lo`.
pub open spec fn be_value(hi: u8, lo: u8) -> u16 {
    (hi as int * 256 + lo as int) as u16
}

/// Splitting a word into its bytes and joining them again gives the word back.
pub proof fn lemma_be_roundtrip(n: u16)
    ensures
        be_value(be_bytes(n)[0], be_bytes(n)[1]) == n,
{
}

#[verifier::external_type_specification]
#[verifier::external_body]
pub struct ExBytesMut(BytesMut);

/// The bytes that a `BytesMut` holds, in order.
pub uninterp spec fn bytes_mut_content(buf: BytesMut) -> Seq<u8>;

/// `BytesMut::with_capacity`: an empty buffer with room for `capacity`
/// bytes. The contract claims only that it holds nothing.
#[verifier::external_body]
pub(crate) fn bytes_with_capacity(capacity: usize) -> (buf: BytesMut)
    requires
        capacity <= isize::MAX,
    ensures
        bytes_mut_content(buf) == Seq::<u8>::empty(),
{
    BytesMut::with_capacity(capacity)
}

/// `BufMut::put_u16` on a `BytesMut`: appends the two bytes of `n`, most
/// significant first (the source writes `n.to_be_bytes()` with
/// `extend_from_slice`). Growing the buffer doubles its capacity, which
/// panics past `isize::MAX` bytes; the bound keeps clear of that.
#[verifier::external_body]
pub(crate) fn bytes_put_u16(buf: &mut BytesMut, n: u16)
    requires
        bytes_mut_content(*old(buf)).len() + 2 <= isize::MAX / 2,
    ensures
        bytes_mut_content(*final(buf)) == bytes_mut_content(*old(buf)) + be_bytes(n),
{
    buf.put_u16(n)
}

/// `BufMut::put_u8` on a `BytesMut`: appends one byte, under the same
/// bound on growth as `bytes_put_u16`.
#[verifier::external_body]
pub(crate) fn bytes_put_u8(buf: &mut BytesMut, n: u8)
    requires
        bytes_mut_content(*old(buf)).len() + 1 <= isize::MAX / 2,
    ensures
        bytes_mut_content(*final(buf)) == bytes_mut_content(*old(buf)).push(n),
{
    buf.put_u8(n)
}

/// The contents of a `BytesMut` (its `Deref` to `[u8]`) copied into a vector.
#[verifier::external_body]
pub(crate) fn bytes_to_vec(buf: &BytesMut) -> (v: Vec<u8>)
    ensures
        v@ == bytes_mut_content(*buf),
{
    buf.to_vec()
}

/// `Buf::get_u16` on a byte slice: the first two bytes read as a big-endian
/// word. The source panics when fewer than two bytes remain.
#[verifier::external_body]
pub(crate) fn get_u16(bytes: &[u8]) -> (n: u16)
    requires
        bytes@.len() >= 2,
    ensures
        n == be_value(bytes@[0], bytes@[1]),
{
    let mut cursor: &[u8] = bytes;
    cursor.get_u16()
}

} // verus!

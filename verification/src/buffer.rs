//! Trusted view of `bytes::BytesMut`, the growable byte buffer the codec
//! shares with the transport: the buffer's content is named as a byte
//! sequence, and each operation the codec uses states its effect on it.

use vstd::prelude::*;

use bytes::Buf;
use bytes::BytesMut;

use crate::frame::be16;

verus! {

/// Declares bytes::BytesMut so that it can stand in signatures; the value
/// itself stays opaque, and only `buf_bytes` speaks of what it holds.
#[verifier::external_type_specification]
#[verifier::external_body]
pub struct ExBytesMut(BytesMut);

/// The bytes a buffer holds, front to back.
pub uninterp spec fn buf_bytes(b: BytesMut) -> Seq<u8>;

/// Relies on BytesMut::len: the number of bytes the buffer holds.
#[verifier::external_body]
pub(crate) fn buf_len(b: &BytesMut) -> (n: usize)
    ensures
        n == buf_bytes(*b).len(),
{
    b.len()
}

/// Relies on slice::get through BytesMut's deref to `[u8]`: the byte at the
/// given position, if the buffer reaches it.
#[verifier::external_body]
pub(crate) fn buf_byte_at(b: &BytesMut, i: usize) -> (r: Option<u8>)
    ensures
        i < buf_bytes(*b).len() ==> r == Some(buf_bytes(*b)[i as int]),
        i >= buf_bytes(*b).len() ==> r is None,
{
    b.get(i).copied()
}

/// Relies on Buf::copy_to_bytes, which hands out the first `n` bytes and
/// advances the buffer past them; the result is converted to a `Vec`.
#[verifier::external_body]
pub(crate) fn buf_take_front(b: &mut BytesMut, n: usize) -> (r: Vec<u8>)
    requires
        n <= buf_bytes(*old(b)).len(),
    ensures
        r@ == buf_bytes(*old(b)).take(n as int),
        buf_bytes(*final(b)) == buf_bytes(*old(b)).skip(n as int),
{
    b.copy_to_bytes(n).to_vec()
}

/// Relies on Buf::get_u16: reads the first two bytes big-endian and advances
/// the buffer past them.
#[verifier::external_body]
pub(crate) fn buf_read_u16(b: &mut BytesMut) -> (r: u16)
    requires
        buf_bytes(*old(b)).len() >= 2,
    ensures
        r == be16(buf_bytes(*old(b))[0], buf_bytes(*old(b))[1]),
        buf_bytes(*final(b)) == buf_bytes(*old(b)).skip(2),
{
    b.get_u16()
}

/// Relies on BytesMut::extend_from_slice: appends the given bytes at the back.
#[verifier::external_body]
pub(crate) fn buf_append(b: &mut BytesMut, data: &[u8])
    ensures
        buf_bytes(*final(b)) == buf_bytes(*old(b)) + data@,
{
    b.extend_from_slice(data)
}

} // verus!

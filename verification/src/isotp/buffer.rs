//! The byte buffers of the `bytes` crate, as the reassembly logic uses them.

use vstd::prelude::*;
use bytes::{Bytes, BytesMut};
use crate::isotp::bytes_util::resized;

verus! {

#[verifier::external_type_specification]
#[verifier::external_body]
pub struct ExBytesMut(BytesMut);

#[verifier::external_type_specification]
#[verifier::external_body]
pub struct ExBytes(Bytes);

/// The bytes that a `BytesMut` holds.
pub uninterp spec fn bytes_mut_contents(b: BytesMut) -> Seq<u8>;

/// The bytes that a `Bytes` holds.
pub uninterp spec fn bytes_contents(b: Bytes) -> Seq<u8>;

/// `BytesMut::new`: an empty buffer.
#[verifier::external_body]
pub(crate) fn bytes_mut_new() -> (r: BytesMut)
    ensures
        bytes_mut_contents(r) == Seq::<u8>::empty(),
{
    BytesMut::new()
}

/// `BytesMut::len`: the number of bytes held.
#[verifier::external_body]
pub(crate) fn bytes_mut_len(b: &BytesMut) -> (r: usize)
    ensures
        r == bytes_mut_contents(*b).len(),
{
    b.len()
}

/// `BytesMut::extend_from_slice`: appends the slice. It panics when the new
/// length overflows, which `requires` rules out.
#[verifier::external_body]
pub(crate) fn bytes_mut_extend(b: &mut BytesMut, extend: &[u8])
    requires
        bytes_mut_contents(*old(b)).len() + extend@.len() <= isize::MAX,
    ensures
        bytes_mut_contents(*final(b)) == bytes_mut_contents(*old(b)) + extend@,
{
    b.extend_from_slice(extend)
}

/// `BytesMut::clear`: removes every byte.
#[verifier::external_body]
pub(crate) fn bytes_mut_clear(b: &mut BytesMut)
    ensures
        bytes_mut_contents(*final(b)) == Seq::<u8>::empty(),
{
    b.clear()
}

/// `BytesMut::resize`: truncates to `new_len`, or extends with `value` up to it.
#[verifier::external_body]
pub(crate) fn bytes_mut_resize(b: &mut BytesMut, new_len: usize, value: u8)
    requires
        new_len <= isize::MAX,
    ensures
        bytes_mut_contents(*final(b)) == resized(bytes_mut_contents(*old(b)), new_len as nat, value),
{
    b.resize(new_len, value)
}

/// `BytesMut::clone`: a buffer with the same bytes.
#[verifier::external_body]
pub(crate) fn bytes_mut_clone(b: &BytesMut) -> (r: BytesMut)
    ensures
        bytes_mut_contents(r) == bytes_mut_contents(*b),
{
    b.clone()
}

/// `BytesMut::freeze`: an immutable buffer with the same bytes.
#[verifier::external_body]
pub(crate) fn bytes_mut_freeze(b: BytesMut) -> (r: Bytes)
    ensures
        bytes_contents(r) == bytes_mut_contents(b),
{
    b.freeze()
}

/// `Bytes::from(Vec<u8>)`: an immutable buffer with the bytes of the vector.
#[verifier::external_body]
pub(crate) fn bytes_from_vec(v: Vec<u8>) -> (r: Bytes)
    ensures
        bytes_contents(r) == v@,
{
    Bytes::from(v)
}

} // verus!

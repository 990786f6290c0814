//! Pieces of output and input as they are kept and passed on.

use bytes::Bytes;
use vstd::prelude::*;

verus! {

/// The shared, immutable byte strings of the `bytes` crate.
#[verifier::external_type_specification]
#[verifier::external_body]
pub struct ExBytes(bytes::Bytes);

/// The bytes that a chunk holds.
pub uninterp spec fn chunk_bytes(chunk: Bytes) -> Seq<u8>;

/// `Bytes::copy_from_slice`: a chunk with a copy of the bytes of the slice.
#[verifier::external_body]
pub(crate) fn copy_chunk(data: &[u8]) -> (chunk: Bytes)
    ensures
        chunk_bytes(chunk) == data@,
{
    Bytes::copy_from_slice(data)
}

/// `Bytes::from(Vec<u8>)`: a chunk that takes over the bytes of the vector.
#[verifier::external_body]
pub(crate) fn chunk_from(data: Vec<u8>) -> (chunk: Bytes)
    ensures
        chunk_bytes(chunk) == data@,
{
    Bytes::from(data)
}

/// `<Bytes as Clone>::clone`: a second handle on the same bytes.
#[verifier::external_body]
pub(crate) fn share_chunk(chunk: &Bytes) -> (res: Bytes)
    ensures
        chunk_bytes(res) == chunk_bytes(*chunk),
{
    chunk.clone()
}

/// `<[u8]>::to_vec` on what `Bytes` dereferences to: a vector with a copy of the bytes.
#[verifier::external_body]
pub(crate) fn chunk_to_vec(chunk: &Bytes) -> (data: Vec<u8>)
    ensures
        data@ == chunk_bytes(*chunk),
{
    chunk.to_vec()
}

} // verus!

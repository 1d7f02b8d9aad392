//! Audio chunks as they travel to the receivers: `bytes::Bytes`.
use vstd::prelude::*;

verus! {

/// The buffer type of the `bytes` crate, which carries each captured chunk.
#[verifier::external_type_specification]
#[verifier::external_body]
pub struct ExBytes(bytes::Bytes);

/// The bytes that a `bytes::Bytes` holds.
pub uninterp spec fn bytes_content(b: bytes::Bytes) -> Seq<u8>;

/// Calls `bytes::Bytes::copy_from_slice`, which copies `data` into a new
/// buffer: the result holds exactly the bytes of `data`.
#[verifier::external_body]
pub(crate) fn bytes_copy_from_slice(data: &[u8]) -> (r: bytes::Bytes)
    ensures
        bytes_content(r) == data@,
{
    bytes::Bytes::copy_from_slice(data)
}

/// Calls `From<Vec<u8>>` for `bytes::Bytes`, which takes over the vector:
/// the result holds exactly the bytes of `v`.
#[verifier::external_body]
pub(crate) fn bytes_from_vec(v: Vec<u8>) -> (r: bytes::Bytes)
    ensures
        bytes_content(r) == v@,
{
    bytes::Bytes::from(v)
}

} // verus!

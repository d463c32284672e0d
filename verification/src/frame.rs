use vstd::prelude::*;

use bytes::Bytes;

verus! {

/// `bytes::Bytes`, an immutable, cheaply cloneable byte buffer.
#[verifier::external_type_specification]
#[verifier::external_body]
pub struct ExBytes(Bytes);

/// The bytes that a `Bytes` buffer holds, in order.
pub uninterp spec fn bytes_contents(buffer: Bytes) -> Seq<u8>;

/// Calls `<Bytes as From<Vec<u8>>>::from`, which takes over the vector's
/// storage: the buffer holds the vector's bytes, in the same order.
#[verifier::external_body]
pub(crate) fn bytes_from_vec(data: Vec<u8>) -> (buffer: Bytes)
    ensures
        bytes_contents(buffer) == data@,
{
    Bytes::from(data)
}

} // verus!

//! Datagram payloads, held as `bytes::Bytes`.

use vstd::prelude::*;
use bytes::Bytes;

verus! {

/// The payload type, `bytes::Bytes`: an immutable, cheaply cloneable run of
/// bytes. Its fields are private to its crate.
#[verifier::external_type_specification]
#[verifier::external_body]
pub struct ExBytes(bytes::Bytes);

/// The bytes that a payload holds, first to last: what it dereferences to.
pub uninterp spec fn payload_bytes(payload: Bytes) -> Seq<u8>;

/// `Bytes::from(Vec<u8>)`: takes over the vector's allocation. The payload
/// holds the vector's elements up to its length, in order; spare capacity is
/// not part of it.
#[verifier::external_body]
pub(crate) fn payload_from_vec(buf: Vec<u8>) -> (payload: Bytes)
    ensures
        payload_bytes(payload) == buf@,
{
    Bytes::from(buf)
}

} // verus!

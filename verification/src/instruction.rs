use vstd::prelude::*;
use vstd::bytes::spec_u64_from_le_bytes;
use vstd::bytes::spec_u64_to_le_bytes;
use crate::error::TransferError;

verus! {

/// A transfer request as carried in an instruction's payload: the amount to
/// move, in lamports. The wire encoding is exactly eight little-endian bytes
/// — no version byte, no trailing data.
#[derive(Clone, Copy, Debug, PartialEq, Eq, Structural)]
pub struct TransferInstruction {
    /// The requested amount, in lamports.
    pub lamports: u64,
}

/// Relies on borsh's `BorshDeserialize` implementation for `u64`
/// (`try_from_slice`): it succeeds exactly on an eight-byte input, which it
/// reads as one little-endian unsigned 64-bit integer; a shorter input is an
/// unexpected end of data, and a longer one leaves bytes unconsumed, both
/// deserialization errors.
#[verifier::external_body]
fn decode_u64_le(data: &[u8]) -> (r: Option<u64>)
    ensures
        data@.len() == 8 ==> r == Some(spec_u64_from_le_bytes(data@)),
        data@.len() != 8 ==> r is None,
{
    borsh::BorshDeserialize::try_from_slice(data).ok()
}

/// Relies on `borsh::to_vec` with borsh's `BorshSerialize` implementation for
/// `u64`: it writes the value as exactly eight little-endian bytes.
/// Serializing an integer into a fresh byte vector cannot fail, so the unwrap
/// never panics.
#[verifier::external_body]
fn encode_u64_le(v: u64) -> (r: Vec<u8>)
    ensures
        r@ == spec_u64_to_le_bytes(v),
{
    borsh::to_vec(&v).unwrap()
}

impl TransferInstruction {
    /// Decodes an instruction payload. Succeeds exactly on eight-byte
    /// payloads, whose little-endian value becomes the requested amount;
    /// anything shorter or longer is rejected as malformed.
    pub fn try_from_slice(data: &[u8]) -> (r: Result<TransferInstruction, TransferError>)
        ensures
            data@.len() == 8 ==> (r matches Ok(t) && t.lamports == spec_u64_from_le_bytes(data@)),
            data@.len() != 8 ==> r == Err::<TransferInstruction, TransferError>(TransferError::MalformedInstruction),
    {
        match decode_u64_le(data) {
            Some(lamports) => Ok(TransferInstruction { lamports }),
            None => Err(TransferError::MalformedInstruction),
        }
    }

    /// Encodes this request as an instruction payload: the amount as eight
    /// little-endian bytes.
    pub fn try_to_vec(&self) -> (r: Vec<u8>)
        ensures
            r@ == spec_u64_to_le_bytes(self.lamports),
            r@.len() == 8,
    {
        proof {
            vstd::bytes::lemma_auto_spec_u64_to_from_le_bytes();
        }
        encode_u64_le(self.lamports)
    }
}

/// Round-trip law: decoding an encoded request yields the request back, so
/// the eight-byte wire form loses nothing.
pub proof fn lemma_encode_decode_round_trip(t: TransferInstruction)
    ensures
        spec_u64_to_le_bytes(t.lamports).len() == 8,
        spec_u64_from_le_bytes(spec_u64_to_le_bytes(t.lamports)) == t.lamports,
{
    vstd::bytes::lemma_auto_spec_u64_to_from_le_bytes();
}

} // verus!

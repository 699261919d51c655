//! The byte form in which a 64-bit amount travels to and from the
//! confidential computation.

use vstd::prelude::*;
use crate::oracle::{lemma_u64_le_roundtrip, read_u64_le, u64_from_le, u64_to_le};

verus! {

/// Why bytes could not be read.
#[derive(Clone, Copy, Debug, PartialEq, Eq, Structural)]
pub enum CodecError {
    /// Fewer bytes than the value takes.
    ConstraintRaw,
}

/// The eight bytes that carry an amount, lowest byte first.
pub fn prepare_encrypted_u64(value: u64) -> (bytes: Vec<u8>)
    ensures
        bytes@ == u64_to_le(value),
        bytes@.len() == 8,
        u64_from_le(bytes@) == value,
{
    proof {
        lemma_u64_le_roundtrip(value);
    }
    let mut bytes = Vec::new();
    bytes.push((value % 0x100) as u8);
    bytes.push((value / 0x100 % 0x100) as u8);
    bytes.push((value / 0x1_0000 % 0x100) as u8);
    bytes.push((value / 0x100_0000 % 0x100) as u8);
    bytes.push((value / 0x1_0000_0000 % 0x100) as u8);
    bytes.push((value / 0x100_0000_0000 % 0x100) as u8);
    bytes.push((value / 0x1_0000_0000_0000 % 0x100) as u8);
    bytes.push((value / 0x100_0000_0000_0000 % 0x100) as u8);
    assert(bytes@ =~= u64_to_le(value));
    bytes
}

/// Reads an amount from the first eight bytes of `data`; fewer than eight
/// bytes are refused.
pub fn extract_u64_from_encrypted(data: &[u8]) -> (r: Result<u64, CodecError>)
    ensures
        r == if data@.len() < 8 {
            Err::<u64, CodecError>(CodecError::ConstraintRaw)
        } else {
            Ok(u64_from_le(data@.subrange(0, 8)))
        },
{
    if data.len() < 8 {
        return Err(CodecError::ConstraintRaw);
    }
    Ok(read_u64_le(data, 0))
}

/// Reading what was prepared gives the amount back.
pub proof fn lemma_prepare_extract(value: u64)
    ensures
        u64_from_le(u64_to_le(value).subrange(0, 8)) == value,
{
    lemma_u64_le_roundtrip(value);
    assert(u64_to_le(value).subrange(0, 8) =~= u64_to_le(value));
}

} // verus!

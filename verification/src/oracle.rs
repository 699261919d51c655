//! Reading a price out of an oracle account's bytes.

use vstd::prelude::*;
use crate::error::ErrorCode;
use crate::state::{OracleParams, OracleType};

verus! {

/// The price that stands in while no custom oracle is configured.
pub const DEFAULT_ORACLE_PRICE: u64 = 50_000_000_000;

/// Bytes in front of an account's own data.
pub const ACCOUNT_HEADER_LEN: usize = 8;

/// The least length of a custom oracle's account: the header and the
/// oracle's five fields.
pub const CUSTOM_ORACLE_ACCOUNT_LEN: usize = 48;

/// The number that eight bytes stand for, lowest byte first.
pub open spec fn u64_from_le(s: Seq<u8>) -> u64
    recommends
        s.len() == 8,
{
    (s[0] + 0x100 * s[1] + 0x1_0000 * s[2] + 0x100_0000 * s[3] + 0x1_0000_0000 * s[4]
        + 0x100_0000_0000 * s[5] + 0x1_0000_0000_0000 * s[6] + 0x100_0000_0000_0000 * s[7]) as u64
}

/// The eight bytes of a number, lowest first.
pub open spec fn u64_to_le(v: u64) -> Seq<u8> {
    seq![
        (v % 0x100) as u8,
        (v / 0x100 % 0x100) as u8,
        (v / 0x1_0000 % 0x100) as u8,
        (v / 0x100_0000 % 0x100) as u8,
        (v / 0x1_0000_0000 % 0x100) as u8,
        (v / 0x100_0000_0000 % 0x100) as u8,
        (v / 0x1_0000_0000_0000 % 0x100) as u8,
        (v / 0x100_0000_0000_0000 % 0x100) as u8,
    ]
}

/// Reading back the bytes of a number gives the number.
pub proof fn lemma_u64_le_roundtrip(v: u64)
    ensures
        u64_to_le(v).len() == 8,
        u64_from_le(u64_to_le(v)) == v,
{
    let q1 = v / 0x100;
    let q2 = q1 / 0x100;
    let q3 = q2 / 0x100;
    let q4 = q3 / 0x100;
    let q5 = q4 / 0x100;
    let q6 = q5 / 0x100;
    let q7 = q6 / 0x100;
    assert(q2 == v / 0x1_0000);
    assert(q3 == v / 0x100_0000);
    assert(q4 == v / 0x1_0000_0000);
    assert(q5 == v / 0x100_0000_0000);
    assert(q6 == v / 0x1_0000_0000_0000);
    assert(q7 == v / 0x100_0000_0000_0000);
    assert(q7 < 0x100);
    let s = u64_to_le(v);
    assert(s[0] == v % 0x100 && s[1] == q1 % 0x100 && s[2] == q2 % 0x100 && s[3] == q3 % 0x100);
    assert(s[4] == q4 % 0x100 && s[5] == q5 % 0x100 && s[6] == q6 % 0x100 && s[7] == q7);
}

/// Reads the eight bytes at `offset` as a number, lowest byte first.
pub fn read_u64_le(data: &[u8], offset: usize) -> (v: u64)
    requires
        offset + 8 <= data@.len(),
    ensures
        v == u64_from_le(data@.subrange(offset as int, offset + 8)),
{
    let b0 = data[offset] as u64;
    let b1 = data[offset + 1] as u64;
    let b2 = data[offset + 2] as u64;
    let b3 = data[offset + 3] as u64;
    let b4 = data[offset + 4] as u64;
    let b5 = data[offset + 5] as u64;
    let b6 = data[offset + 6] as u64;
    let b7 = data[offset + 7] as u64;
    b0 + 0x100 * b1 + 0x1_0000 * b2 + 0x100_0000 * b3 + 0x1_0000_0000 * b4 + 0x100_0000_0000 * b5
        + 0x1_0000_0000_0000 * b6 + 0x100_0000_0000_0000 * b7
}

/// The price that an oracle account holds: for a custom oracle the number at
/// bytes 8 to 16 of an account of at least 48 bytes, for any other kind the
/// default price.
pub open spec fn oracle_price(oracle: OracleParams, data: Seq<u8>) -> Result<u64, ErrorCode> {
    match oracle.oracle_type {
        OracleType::Custom => if data.len() < CUSTOM_ORACLE_ACCOUNT_LEN {
            Err(ErrorCode::InvalidInput)
        } else {
            Ok(u64_from_le(data.subrange(ACCOUNT_HEADER_LEN as int, ACCOUNT_HEADER_LEN + 8)))
        },
        _ => Ok(DEFAULT_ORACLE_PRICE),
    }
}

/// Reads the price out of the bytes of the custody's oracle account.
pub fn get_price_from_oracle(oracle_params: &OracleParams, oracle_account: &[u8]) -> (r: Result<
    u64,
    ErrorCode,
>)
    ensures
        r == oracle_price(*oracle_params, oracle_account@),
{
    match oracle_params.oracle_type {
        OracleType::Custom => {
            if oracle_account.len() < CUSTOM_ORACLE_ACCOUNT_LEN {
                return Err(ErrorCode::InvalidInput);
            }
            Ok(read_u64_le(oracle_account, ACCOUNT_HEADER_LEN))
        },
        OracleType::Pyth => Ok(DEFAULT_ORACLE_PRICE),
        OracleType::Unset => Ok(DEFAULT_ORACLE_PRICE),
    }
}

} // verus!

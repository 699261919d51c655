//! Addresses of the accounts that hold confidential balances.

use vstd::prelude::*;
use vstd::string::StringSliceAdditionalSpecFns;
use crate::state::Pubkey;

verus! {

/// The address that a program derives from two seeds, with the bump seed
/// that made it valid, if there is one.
pub uninterp spec fn program_address(seed: Seq<u8>, key: Seq<u8>, program_id: Seq<u8>) -> Option<
    (Seq<u8>, u8),
>;

/// `Pubkey::try_find_program_address` of the ledger's key type, which
/// anchor_lang re-exports, on the two seeds `seed` and `key`. The outside
/// function hashes the seeds, a bump seed and the program's id with SHA-256
/// and tries bump seeds from 255 down until the digest is no curve point. The
/// contract claims only that the outcome is a function of the three
/// arguments.
#[verifier::external_body]
fn find_address(seed: &[u8], key: &Pubkey, program_id: &Pubkey) -> (r: Option<(Pubkey, u8)>)
    ensures
        match r {
            Some(found) => program_address(seed@, key@, program_id@) == Some((found.0@, found.1)),
            None => program_address(seed@, key@, program_id@) is None,
        },
{
    let id = anchor_lang::prelude::Pubkey::new_from_array(*program_id);
    anchor_lang::prelude::Pubkey::try_find_program_address(&[seed, key.as_slice()], &id).map(
        |found| (found.0.to_bytes(), found.1),
    )
}

/// The seed of a trader's confidential account.
pub open spec fn confidential_account_seed() -> Seq<u8> {
    "confidential_account".spec_bytes()
}

/// The seed of a mint's vault.
pub open spec fn confidential_vault_seed() -> Seq<u8> {
    "confidential_vault".spec_bytes()
}

/// The address of a trader's confidential account under a program, with its
/// bump seed; none in the rare case that no bump seed yields an address.
pub fn get_confidential_account_pda(program_id: &Pubkey, trader: &Pubkey) -> (r: Option<
    (Pubkey, u8),
>)
    ensures
        match r {
            Some(found) => program_address(confidential_account_seed(), trader@, program_id@)
                == Some((found.0@, found.1)),
            None => program_address(confidential_account_seed(), trader@, program_id@) is None,
        },
{
    find_address("confidential_account".as_bytes(), trader, program_id)
}

/// The address of the vault that a program keeps for a mint, with its bump
/// seed; none in the rare case that no bump seed yields an address.
pub fn get_vault_pda(program_id: &Pubkey, mint: &Pubkey) -> (r: Option<(Pubkey, u8)>)
    ensures
        match r {
            Some(found) => program_address(confidential_vault_seed(), mint@, program_id@) == Some(
                (found.0@, found.1),
            ),
            None => program_address(confidential_vault_seed(), mint@, program_id@) is None,
        },
{
    find_address("confidential_vault".as_bytes(), mint, program_id)
}

} // verus!

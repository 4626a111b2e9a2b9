use vstd::prelude::*;
use crate::address::{
    Address, derive_address, program_address_of, program_state_seed, program_state_seed_bytes,
    same_address, vault_seed, vault_seed_bytes,
};
use crate::error::ErrorCode;

verus! {

/// The persistent record written once at setup: the ledger counter observed then.
#[derive(Clone, Copy, Debug, PartialEq, Eq)]
pub struct ProgramState {
    pub slot: u64,
}

/// An identity together with its native balance.
#[derive(Clone, Copy, Debug, PartialEq, Eq)]
pub struct NativeAccount {
    pub key: Address,
    pub lamports: u64,
}

/// A token balance scoped to one (owner, token type) pair.
#[derive(Clone, Copy, Debug, PartialEq, Eq)]
pub struct TokenAccount {
    pub mint: Address,
    pub owner: Address,
    pub amount: u64,
}

/// Whether `key` is the address derived from `seed` under `program_id`.
pub open spec fn derives_to(seed: Seq<u8>, program_id: Address, key: Address) -> bool {
    match program_address_of(seed, program_id@) {
        Some((k, _)) => k == key@,
        None => false,
    }
}

/// The bump found with the address derived from `seed` under `program_id`.
pub open spec fn bump_of(seed: Seq<u8>, program_id: Address) -> u8 {
    match program_address_of(seed, program_id@) {
        Some((_, b)) => b,
        None => 0,
    }
}

/// Whether `key` is the vault authority of the program `program_id`.
pub open spec fn is_vault(program_id: Address, key: Address) -> bool {
    derives_to(vault_seed(), program_id, key)
}

/// Whether `key` is the program state record of the program `program_id`.
pub open spec fn is_program_state(program_id: Address, key: Address) -> bool {
    derives_to(program_state_seed(), program_id, key)
}

/// Re-derives the address labelled `seed` and checks that `key` is it;
/// returns the bump on success.
fn check_seeds(seed: &Vec<u8>, program_id: &Address, key: &Address) -> (r: Result<u8, ErrorCode>)
    ensures
        match r {
            Ok(b) => program_address_of(seed@, program_id@) == Some((key@, b)),
            Err(e) => e == ErrorCode::ConstraintSeeds && !derives_to(seed@, *program_id, *key),
        },
{
    match derive_address(seed, program_id) {
        Some((k, b)) => {
            if same_address(&k, key) {
                Ok(b)
            } else {
                Err(ErrorCode::ConstraintSeeds)
            }
        },
        None => Err(ErrorCode::ConstraintSeeds),
    }
}

/// Checks that `key` is the vault authority of `program_id`; returns its bump.
pub fn check_vault(program_id: &Address, key: &Address) -> (r: Result<u8, ErrorCode>)
    ensures
        match r {
            Ok(b) => is_vault(*program_id, *key) && b == bump_of(vault_seed(), *program_id),
            Err(e) => e == ErrorCode::ConstraintSeeds && !is_vault(*program_id, *key),
        },
{
    let seed = vault_seed_bytes();
    check_seeds(&seed, program_id, key)
}

/// Checks that `key` is the program state record of `program_id`; returns its bump.
pub fn check_program_state(program_id: &Address, key: &Address) -> (r: Result<u8, ErrorCode>)
    ensures
        match r {
            Ok(b) => is_program_state(*program_id, *key) && b == bump_of(program_state_seed(), *program_id),
            Err(e) => e == ErrorCode::ConstraintSeeds && !is_program_state(*program_id, *key),
        },
{
    let seed = program_state_seed_bytes();
    check_seeds(&seed, program_id, key)
}

} // verus!

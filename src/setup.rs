use vstd::prelude::*;
use crate::address::{program_state_seed, vault_seed, Address};
use crate::error::ErrorCode;
use crate::state::{
    bump_of, check_program_state, check_vault, is_program_state, is_vault, ProgramState,
};

verus! {

/// The accounts of setup: the program state record and the vault authority,
/// each with whether it already holds state.
#[derive(Clone, Copy, Debug, PartialEq, Eq)]
pub struct Initialize {
    pub program_id: Address,
    pub program_state_key: Address,
    /// The record at `program_state_key`, if one was already written.
    pub program_state: Option<ProgramState>,
    pub vault: Address,
    /// Whether storage at `vault` was already allocated.
    pub vault_allocated: bool,
    /// Filled in on success with the bump that derived the program state record.
    pub program_state_bump: u8,
    /// Filled in on success with the bump that derived the vault.
    pub vault_bump: u8,
}

/// The refusal, if any, of setting up with `ctx`.
pub open spec fn initialize_error(ctx: Initialize) -> Option<ErrorCode> {
    if !is_program_state(ctx.program_id, ctx.program_state_key) || !is_vault(ctx.program_id, ctx.vault) {
        Some(ErrorCode::ConstraintSeeds)
    } else if ctx.program_state is Some || ctx.vault_allocated {
        Some(ErrorCode::AlreadyInitialized)
    } else {
        None
    }
}

/// The accounts after a successful setup at ledger counter `counter`.
pub open spec fn initialized(ctx: Initialize, counter: u64) -> Initialize {
    Initialize {
        program_state: Some(ProgramState { slot: counter }),
        vault_allocated: true,
        program_state_bump: bump_of(program_state_seed(), ctx.program_id),
        vault_bump: bump_of(vault_seed(), ctx.program_id),
        ..ctx
    }
}

/// What `initialize` returns, and the accounts it leaves behind.
pub open spec fn initialize_step(ctx: Initialize, counter: u64) -> (Result<(), ErrorCode>, Initialize) {
    match initialize_error(ctx) {
        Some(e) => (Err(e), ctx),
        None => (Ok(()), initialized(ctx, counter)),
    }
}

/// Creates the program state record and the vault authority, recording the
/// ledger counter `counter` as the start of the token lock.
///
/// Fails with `ConstraintSeeds` when either account is not the one derived
/// from its label, and with `AlreadyInitialized` when either already holds
/// state. On failure nothing changes.
pub fn initialize(ctx: &mut Initialize, counter: u64) -> (r: Result<(), ErrorCode>)
    ensures
        (r, *final(ctx)) == initialize_step(*old(ctx), counter),
{
    let state_bump = match check_program_state(&ctx.program_id, &ctx.program_state_key) {
        Ok(b) => b,
        Err(e) => return Err(e),
    };
    let vault_bump = match check_vault(&ctx.program_id, &ctx.vault) {
        Ok(b) => b,
        Err(e) => return Err(e),
    };
    if ctx.program_state.is_some() || ctx.vault_allocated {
        return Err(ErrorCode::AlreadyInitialized);
    }
    ctx.program_state = Some(ProgramState { slot: counter });
    ctx.vault_allocated = true;
    ctx.program_state_bump = state_bump;
    ctx.vault_bump = vault_bump;
    Ok(())
}

} // verus!

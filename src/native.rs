use vstd::prelude::*;
use crate::address::{vault_seed, Address};
use crate::error::ErrorCode;
use crate::state::{bump_of, check_vault, is_vault, NativeAccount};

verus! {

/// The accounts of a native deposit: the depositor and the vault authority.
#[derive(Clone, Copy, Debug, PartialEq, Eq)]
pub struct DepositSol {
    pub program_id: Address,
    pub vault: NativeAccount,
    pub user: NativeAccount,
    /// Filled in on success with the bump that re-derived the vault.
    pub vault_bump: u8,
}

/// The accounts of a native withdrawal: the recipient and the vault authority.
#[derive(Clone, Copy, Debug, PartialEq, Eq)]
pub struct WithdrawSol {
    pub program_id: Address,
    pub vault: NativeAccount,
    pub user: NativeAccount,
    /// Filled in on success with the bump that re-derived the vault.
    pub vault_bump: u8,
}

/// The refusal, if any, of depositing `amount` native units with `ctx`.
pub open spec fn deposit_sol_error(ctx: DepositSol, amount: u64) -> Option<ErrorCode> {
    if !is_vault(ctx.program_id, ctx.vault.key) {
        Some(ErrorCode::ConstraintSeeds)
    } else if ctx.user.lamports < amount || ctx.vault.lamports + amount > u64::MAX {
        Some(ErrorCode::ArithmeticFault)
    } else {
        None
    }
}

/// The accounts after a successful deposit of `amount`.
pub open spec fn deposited_sol(ctx: DepositSol, amount: u64) -> DepositSol {
    DepositSol {
        vault: NativeAccount { lamports: (ctx.vault.lamports + amount) as u64, ..ctx.vault },
        user: NativeAccount { lamports: (ctx.user.lamports - amount) as u64, ..ctx.user },
        vault_bump: bump_of(vault_seed(), ctx.program_id),
        ..ctx
    }
}

/// The refusal, if any, of withdrawing `amount` native units with `ctx`.
pub open spec fn withdraw_sol_error(ctx: WithdrawSol, amount: u64) -> Option<ErrorCode> {
    if !is_vault(ctx.program_id, ctx.vault.key) {
        Some(ErrorCode::ConstraintSeeds)
    } else if ctx.vault.lamports < amount {
        Some(ErrorCode::InsufficientFunds)
    } else if ctx.user.lamports + amount > u64::MAX {
        Some(ErrorCode::ArithmeticFault)
    } else {
        None
    }
}

/// The accounts after a successful withdrawal of `amount`.
pub open spec fn withdrawn_sol(ctx: WithdrawSol, amount: u64) -> WithdrawSol {
    WithdrawSol {
        vault: NativeAccount { lamports: (ctx.vault.lamports - amount) as u64, ..ctx.vault },
        user: NativeAccount { lamports: (ctx.user.lamports + amount) as u64, ..ctx.user },
        vault_bump: bump_of(vault_seed(), ctx.program_id),
        ..ctx
    }
}

/// What `deposit_sol` returns, and the accounts it leaves behind.
pub open spec fn deposit_sol_step(ctx: DepositSol, amount: u64) -> (Result<(), ErrorCode>, DepositSol) {
    match deposit_sol_error(ctx, amount) {
        Some(e) => (Err(e), ctx),
        None => (Ok(()), deposited_sol(ctx, amount)),
    }
}

/// Moves `amount` native units from the signer to the vault authority.
///
/// Fails with `ConstraintSeeds` when `ctx.vault` is not the vault authority,
/// and with `ArithmeticFault` when the signer holds less than `amount` or the
/// vault's balance would overflow. On failure nothing changes.
pub fn deposit_sol(ctx: &mut DepositSol, amount: u64) -> (r: Result<(), ErrorCode>)
    ensures
        (r, *final(ctx)) == deposit_sol_step(*old(ctx), amount),
{
    let bump = match check_vault(&ctx.program_id, &ctx.vault.key) {
        Ok(b) => b,
        Err(e) => return Err(e),
    };
    if ctx.user.lamports < amount || ctx.vault.lamports > u64::MAX - amount {
        return Err(ErrorCode::ArithmeticFault);
    }
    ctx.user.lamports = ctx.user.lamports - amount;
    ctx.vault.lamports = ctx.vault.lamports + amount;
    ctx.vault_bump = bump;
    Ok(())
}

/// What `withdraw_sol` returns, and the accounts it leaves behind.
pub open spec fn withdraw_sol_step(ctx: WithdrawSol, amount: u64) -> (Result<(), ErrorCode>, WithdrawSol) {
    match withdraw_sol_error(ctx, amount) {
        Some(e) => (Err(e), ctx),
        None => (Ok(()), withdrawn_sol(ctx, amount)),
    }
}

/// Moves `amount` native units from the vault authority to the signer.
///
/// No time lock applies. Fails with `ConstraintSeeds` when `ctx.vault` is not
/// the vault authority, with `InsufficientFunds` when the vault holds less
/// than `amount`, and with `ArithmeticFault` when the signer's balance would
/// overflow. On failure nothing changes.
pub fn withdraw_sol(ctx: &mut WithdrawSol, amount: u64) -> (r: Result<(), ErrorCode>)
    ensures
        (r, *final(ctx)) == withdraw_sol_step(*old(ctx), amount),
{
    let bump = match check_vault(&ctx.program_id, &ctx.vault.key) {
        Ok(b) => b,
        Err(e) => return Err(e),
    };
    if ctx.vault.lamports < amount {
        return Err(ErrorCode::InsufficientFunds);
    }
    if ctx.user.lamports > u64::MAX - amount {
        return Err(ErrorCode::ArithmeticFault);
    }
    ctx.vault.lamports = ctx.vault.lamports - amount;
    ctx.user.lamports = ctx.user.lamports + amount;
    ctx.vault_bump = bump;
    Ok(())
}

} // verus!

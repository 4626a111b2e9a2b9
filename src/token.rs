use vstd::prelude::*;
use crate::address::{same_address, vault_seed, Address};
use crate::error::ErrorCode;
use crate::policy::{lock_expired, withdrawal_allowed};
use crate::state::{
    bump_of, check_program_state, check_vault, is_program_state, is_vault, ProgramState,
    TokenAccount,
};

verus! {

/// The accounts of a token deposit.
#[derive(Clone, Copy, Debug, PartialEq, Eq)]
pub struct DepositToken {
    pub program_id: Address,
    pub vault: Address,
    /// The vault's sub-account for `mint`; `None` where it does not exist yet,
    /// in which case the deposit creates it.
    pub vault_token_account: Option<TokenAccount>,
    pub user_token_account: TokenAccount,
    pub mint: Address,
    /// The signer, who authorizes the transfer out of its own sub-account.
    pub user: Address,
    /// Filled in on success with the bump that re-derived the vault.
    pub vault_bump: u8,
}

/// The accounts of a token withdrawal.
#[derive(Clone, Copy, Debug, PartialEq, Eq)]
pub struct WithdrawToken {
    pub program_id: Address,
    pub program_state_key: Address,
    pub program_state: ProgramState,
    pub vault: Address,
    pub vault_token_account: TokenAccount,
    pub user_token_account: TokenAccount,
    pub mint: Address,
    /// The signer, who receives the tokens.
    pub user: Address,
    /// Filled in on success with the bump that re-derived the vault, the
    /// proof of authority presented for the outbound transfer.
    pub vault_bump: u8,
}

/// The refusal, if any, of a sub-account that must hold `mint` for `owner`.
pub open spec fn token_account_error(acc: TokenAccount, mint: Address, owner: Address) -> Option<ErrorCode> {
    if acc.mint@ != mint@ {
        Some(ErrorCode::ConstraintTokenMint)
    } else if acc.owner@ != owner@ {
        Some(ErrorCode::ConstraintTokenOwner)
    } else {
        None
    }
}

/// The refusal, if any, of the token-transfer collaborator moving `amount`
/// from `from` to `to`.
pub open spec fn transfer_error(from: TokenAccount, to: TokenAccount, amount: u64) -> Option<ErrorCode> {
    if from.amount < amount {
        Some(ErrorCode::TransferError)
    } else if to.amount + amount > u64::MAX {
        Some(ErrorCode::ArithmeticFault)
    } else {
        None
    }
}

/// `acc` with `amount` more tokens.
pub open spec fn credited(acc: TokenAccount, amount: u64) -> TokenAccount {
    TokenAccount { amount: (acc.amount + amount) as u64, ..acc }
}

/// `acc` with `amount` fewer tokens.
pub open spec fn debited(acc: TokenAccount, amount: u64) -> TokenAccount {
    TokenAccount { amount: (acc.amount - amount) as u64, ..acc }
}

/// The vault's sub-account for a deposit: the existing one, or a new empty one.
pub open spec fn vault_destination(ctx: DepositToken) -> TokenAccount {
    match ctx.vault_token_account {
        Some(acc) => acc,
        None => TokenAccount { mint: ctx.mint, owner: ctx.vault, amount: 0 },
    }
}

/// The refusal, if any, of depositing `amount` tokens with `ctx`.
pub open spec fn deposit_token_error(ctx: DepositToken, amount: u64) -> Option<ErrorCode> {
    if !is_vault(ctx.program_id, ctx.vault) {
        Some(ErrorCode::ConstraintSeeds)
    } else if token_account_error(vault_destination(ctx), ctx.mint, ctx.vault) is Some {
        token_account_error(vault_destination(ctx), ctx.mint, ctx.vault)
    } else if token_account_error(ctx.user_token_account, ctx.mint, ctx.user) is Some {
        token_account_error(ctx.user_token_account, ctx.mint, ctx.user)
    } else {
        transfer_error(ctx.user_token_account, vault_destination(ctx), amount)
    }
}

/// The accounts after a successful deposit of `amount` tokens.
pub open spec fn deposited_token(ctx: DepositToken, amount: u64) -> DepositToken {
    DepositToken {
        vault_token_account: Some(credited(vault_destination(ctx), amount)),
        user_token_account: debited(ctx.user_token_account, amount),
        vault_bump: bump_of(vault_seed(), ctx.program_id),
        ..ctx
    }
}

/// The refusal, if any, of withdrawing `amount` tokens with `ctx` at ledger
/// counter `counter`.
pub open spec fn withdraw_token_error(ctx: WithdrawToken, counter: u64, amount: u64) -> Option<ErrorCode> {
    if !is_program_state(ctx.program_id, ctx.program_state_key) || !is_vault(ctx.program_id, ctx.vault) {
        Some(ErrorCode::ConstraintSeeds)
    } else if token_account_error(ctx.vault_token_account, ctx.mint, ctx.vault) is Some {
        token_account_error(ctx.vault_token_account, ctx.mint, ctx.vault)
    } else if token_account_error(ctx.user_token_account, ctx.mint, ctx.user) is Some {
        token_account_error(ctx.user_token_account, ctx.mint, ctx.user)
    } else if !lock_expired(ctx.program_state.slot, counter) {
        Some(ErrorCode::WithdrawalTooSoon)
    } else {
        transfer_error(ctx.vault_token_account, ctx.user_token_account, amount)
    }
}

/// The accounts after a successful withdrawal of `amount` tokens.
pub open spec fn withdrawn_token(ctx: WithdrawToken, amount: u64) -> WithdrawToken {
    WithdrawToken {
        vault_token_account: debited(ctx.vault_token_account, amount),
        user_token_account: credited(ctx.user_token_account, amount),
        vault_bump: bump_of(vault_seed(), ctx.program_id),
        ..ctx
    }
}

/// Checks that `acc` holds `mint` and belongs to `owner`.
fn check_token_account(acc: &TokenAccount, mint: &Address, owner: &Address) -> (r: Result<(), ErrorCode>)
    ensures
        r == match token_account_error(*acc, *mint, *owner) {
            Some(e) => Err(e),
            None => Ok(()),
        },
{
    if !same_address(&acc.mint, mint) {
        Err(ErrorCode::ConstraintTokenMint)
    } else if !same_address(&acc.owner, owner) {
        Err(ErrorCode::ConstraintTokenOwner)
    } else {
        Ok(())
    }
}

/// Checks that the token-transfer collaborator can move `amount` from `from`
/// to `to`.
fn check_transfer(from: &TokenAccount, to: &TokenAccount, amount: u64) -> (r: Result<(), ErrorCode>)
    ensures
        r == match transfer_error(*from, *to, amount) {
            Some(e) => Err(e),
            None => Ok(()),
        },
{
    if from.amount < amount {
        Err(ErrorCode::TransferError)
    } else if to.amount > u64::MAX - amount {
        Err(ErrorCode::ArithmeticFault)
    } else {
        Ok(())
    }
}

/// What `deposit_token` returns, and the accounts it leaves behind.
pub open spec fn deposit_token_step(ctx: DepositToken, amount: u64) -> (Result<(), ErrorCode>, DepositToken) {
    match deposit_token_error(ctx, amount) {
        Some(e) => (Err(e), ctx),
        None => (Ok(()), deposited_token(ctx, amount)),
    }
}

/// Moves `amount` tokens from the signer's sub-account to the vault's,
/// creating the vault's sub-account if absent. No lock applies.
///
/// Fails with `ConstraintSeeds` when `ctx.vault` is not the vault authority,
/// with `ConstraintTokenMint` or `ConstraintTokenOwner` when a sub-account is
/// not the one for (`mint`, its owner), with `TransferError` when the signer
/// holds fewer than `amount` tokens, and with `ArithmeticFault` when the
/// vault's balance would overflow. On failure nothing changes.
pub fn deposit_token(ctx: &mut DepositToken, amount: u64) -> (r: Result<(), ErrorCode>)
    ensures
        (r, *final(ctx)) == deposit_token_step(*old(ctx), amount),
{
    let bump = match check_vault(&ctx.program_id, &ctx.vault) {
        Ok(b) => b,
        Err(e) => return Err(e),
    };
    let dest = match ctx.vault_token_account {
        Some(acc) => acc,
        None => TokenAccount { mint: ctx.mint, owner: ctx.vault, amount: 0 },
    };
    if let Err(e) = check_token_account(&dest, &ctx.mint, &ctx.vault) {
        return Err(e);
    }
    if let Err(e) = check_token_account(&ctx.user_token_account, &ctx.mint, &ctx.user) {
        return Err(e);
    }
    if let Err(e) = check_transfer(&ctx.user_token_account, &dest, amount) {
        return Err(e);
    }
    ctx.user_token_account.amount = ctx.user_token_account.amount - amount;
    ctx.vault_token_account = Some(TokenAccount { amount: dest.amount + amount, ..dest });
    ctx.vault_bump = bump;
    Ok(())
}

/// What `withdraw_token` returns, and the accounts it leaves behind.
pub open spec fn withdraw_token_step(ctx: WithdrawToken, counter: u64, amount: u64) -> (Result<(), ErrorCode>, WithdrawToken) {
    match withdraw_token_error(ctx, counter, amount) {
        Some(e) => (Err(e), ctx),
        None => (Ok(()), withdrawn_token(ctx, amount)),
    }
}

/// Moves `amount` tokens from the vault's sub-account to the signer's, with
/// the vault authority proving control by re-deriving its address.
///
/// Fails with `ConstraintSeeds` when the program state record or the vault is
/// not the derived one, with `ConstraintTokenMint` or `ConstraintTokenOwner`
/// when a sub-account is not the one for (`mint`, its owner), with
/// `WithdrawalTooSoon` while `counter < slot + LOCK_DURATION`, with
/// `TransferError` when the vault holds fewer than `amount` tokens, and with
/// `ArithmeticFault` when the signer's balance would overflow. On failure
/// nothing changes.
pub fn withdraw_token(ctx: &mut WithdrawToken, counter: u64, amount: u64) -> (r: Result<(), ErrorCode>)
    ensures
        (r, *final(ctx)) == withdraw_token_step(*old(ctx), counter, amount),
{
    if let Err(e) = check_program_state(&ctx.program_id, &ctx.program_state_key) {
        return Err(e);
    }
    let bump = match check_vault(&ctx.program_id, &ctx.vault) {
        Ok(b) => b,
        Err(e) => return Err(e),
    };
    if let Err(e) = check_token_account(&ctx.vault_token_account, &ctx.mint, &ctx.vault) {
        return Err(e);
    }
    if let Err(e) = check_token_account(&ctx.user_token_account, &ctx.mint, &ctx.user) {
        return Err(e);
    }
    if !withdrawal_allowed(ctx.program_state.slot, counter) {
        return Err(ErrorCode::WithdrawalTooSoon);
    }
    if let Err(e) = check_transfer(&ctx.vault_token_account, &ctx.user_token_account, amount) {
        return Err(e);
    }
    ctx.vault_token_account.amount = ctx.vault_token_account.amount - amount;
    ctx.user_token_account.amount = ctx.user_token_account.amount + amount;
    ctx.vault_bump = bump;
    Ok(())
}

} // verus!

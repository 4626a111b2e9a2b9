use vstd::prelude::*;
use crate::address::Address;
use crate::error::ErrorCode;
use crate::native::{deposit_sol_step, withdraw_sol_step, DepositSol, WithdrawSol};
use crate::policy::LOCK_DURATION;
use crate::setup::{initialize_step, Initialize};
use crate::state::{is_program_state, is_vault, NativeAccount, TokenAccount};
use crate::token::{deposit_token_step, withdraw_token_step, DepositToken, WithdrawToken};

verus! {

/// A native withdrawal of at most the vault's balance succeeds, debits the
/// vault by exactly `amount` and credits the recipient by exactly `amount`
/// (where the recipient's balance has room for it).
pub proof fn lemma_withdraw_sol_within_balance(ctx: WithdrawSol, amount: u64)
    requires
        is_vault(ctx.program_id, ctx.vault.key),
        amount <= ctx.vault.lamports,
        ctx.user.lamports + amount <= u64::MAX,
    ensures
        withdraw_sol_step(ctx, amount).0 is Ok,
        withdraw_sol_step(ctx, amount).1.vault.lamports == ctx.vault.lamports - amount,
        withdraw_sol_step(ctx, amount).1.user.lamports == ctx.user.lamports + amount,
{
}

/// A native withdrawal of more than the vault's balance fails with
/// `InsufficientFunds` and leaves both balances as they were.
pub proof fn lemma_withdraw_sol_beyond_balance(ctx: WithdrawSol, amount: u64)
    requires
        is_vault(ctx.program_id, ctx.vault.key),
        amount > ctx.vault.lamports,
    ensures
        withdraw_sol_step(ctx, amount).0 == Err::<(), ErrorCode>(ErrorCode::InsufficientFunds),
        withdraw_sol_step(ctx, amount).1 == ctx,
{
}

/// The sum of the native balances of `users`.
pub open spec fn native_total(users: Seq<NativeAccount>) -> int
    decreases users.len(),
{
    if users.len() == 0 {
        0
    } else {
        native_total(users.drop_last()) + users.last().lamports
    }
}

/// One native call against the vault: `(user index, is a deposit, amount)`.
/// A call that names no user changes nothing.
pub open spec fn native_apply(
    program_id: Address,
    vault: NativeAccount,
    users: Seq<NativeAccount>,
    call: (int, bool, u64),
) -> (NativeAccount, Seq<NativeAccount>) {
    let (i, deposit, amount) = call;
    if 0 <= i < users.len() {
        if deposit {
            let after = deposit_sol_step(
                DepositSol { program_id, vault, user: users[i], vault_bump: 0 },
                amount,
            ).1;
            (after.vault, users.update(i, after.user))
        } else {
            let after = withdraw_sol_step(
                WithdrawSol { program_id, vault, user: users[i], vault_bump: 0 },
                amount,
            ).1;
            (after.vault, users.update(i, after.user))
        }
    } else {
        (vault, users)
    }
}

/// The vault and users after each of `calls` in turn, successful or not.
pub open spec fn native_run(
    program_id: Address,
    vault: NativeAccount,
    users: Seq<NativeAccount>,
    calls: Seq<(int, bool, u64)>,
) -> (NativeAccount, Seq<NativeAccount>)
    decreases calls.len(),
{
    if calls.len() == 0 {
        (vault, users)
    } else {
        let (v, u) = native_apply(program_id, vault, users, calls[0]);
        native_run(program_id, v, u, calls.subrange(1, calls.len() as int))
    }
}

proof fn lemma_native_total_update(users: Seq<NativeAccount>, i: int, acc: NativeAccount)
    requires
        0 <= i < users.len(),
    ensures
        native_total(users.update(i, acc)) == native_total(users) - users[i].lamports + acc.lamports,
    decreases users.len(),
{
    let updated = users.update(i, acc);
    if i == users.len() - 1 {
        assert(updated.drop_last() =~= users.drop_last());
    } else {
        assert(updated.drop_last() =~= users.drop_last().update(i, acc));
        lemma_native_total_update(users.drop_last(), i, acc);
    }
}

/// Over any sequence of native deposits and withdrawals, successful or not,
/// the vault's balance plus all users' balances stays the same.
pub proof fn lemma_native_total_conserved(
    program_id: Address,
    vault: NativeAccount,
    users: Seq<NativeAccount>,
    calls: Seq<(int, bool, u64)>,
)
    ensures
        native_run(program_id, vault, users, calls).0.lamports + native_total(native_run(program_id, vault, users, calls).1)
            == vault.lamports + native_total(users),
    decreases calls.len(),
{
    if calls.len() > 0 {
        let (i, deposit, amount) = calls[0];
        if 0 <= i < users.len() {
            let (v, u) = native_apply(program_id, vault, users, calls[0]);
            if deposit {
                let after = deposit_sol_step(DepositSol { program_id, vault, user: users[i], vault_bump: 0 }, amount).1;
                lemma_native_total_update(users, i, after.user);
            } else {
                let after = withdraw_sol_step(WithdrawSol { program_id, vault, user: users[i], vault_bump: 0 }, amount).1;
                lemma_native_total_update(users, i, after.user);
            }
            lemma_native_total_conserved(program_id, v, u, calls.subrange(1, calls.len() as int));
        } else {
            lemma_native_total_conserved(program_id, vault, users, calls.subrange(1, calls.len() as int));
        }
    }
}

/// Whether the accounts of a token withdrawal are the derived records and
/// sub-accounts for `mint` of the vault and of the signer.
pub open spec fn withdraw_token_accounts_valid(ctx: WithdrawToken) -> bool {
    &&& is_program_state(ctx.program_id, ctx.program_state_key)
    &&& is_vault(ctx.program_id, ctx.vault)
    &&& ctx.vault_token_account.mint@ == ctx.mint@
    &&& ctx.vault_token_account.owner@ == ctx.vault@
    &&& ctx.user_token_account.mint@ == ctx.mint@
    &&& ctx.user_token_account.owner@ == ctx.user@
}

/// With valid accounts, a token withdrawal before `slot + LOCK_DURATION`
/// fails with `WithdrawalTooSoon`; from then on it succeeds whenever the vault
/// holds `amount` tokens and the signer's balance has room for them.
pub proof fn lemma_withdraw_token_lock(ctx: WithdrawToken, counter: u64, amount: u64)
    requires
        withdraw_token_accounts_valid(ctx),
    ensures
        counter < ctx.program_state.slot + LOCK_DURATION ==> withdraw_token_step(ctx, counter, amount).0
            == Err::<(), ErrorCode>(ErrorCode::WithdrawalTooSoon),
        counter >= ctx.program_state.slot + LOCK_DURATION && amount <= ctx.vault_token_account.amount
            && ctx.user_token_account.amount + amount <= u64::MAX ==> withdraw_token_step(ctx, counter, amount).0 is Ok,
{
}

/// A token deposit with valid accounts succeeds whenever the signer holds
/// `amount` tokens and the vault's balance has room for them, at any ledger
/// counter: no lock applies to deposits.
pub proof fn lemma_deposit_token_unlocked(ctx: DepositToken, amount: u64)
    requires
        is_vault(ctx.program_id, ctx.vault),
        ctx.vault_token_account matches Some(acc) ==> acc.mint@ == ctx.mint@ && acc.owner@ == ctx.vault@
            && acc.amount + amount <= u64::MAX,
        ctx.user_token_account.mint@ == ctx.mint@,
        ctx.user_token_account.owner@ == ctx.user@,
        amount <= ctx.user_token_account.amount,
    ensures
        deposit_token_step(ctx, amount).0 is Ok,
        deposit_token_step(ctx, amount).1.user_token_account.amount == ctx.user_token_account.amount - amount,
{
}

/// The vault authority that a later token withdrawal re-derives is the one
/// created at setup, with the same bump.
pub proof fn lemma_vault_identity_stable(
    init: Initialize,
    counter: u64,
    later: WithdrawToken,
    now: u64,
    amount: u64,
)
    requires
        later.program_id == init.program_id,
        initialize_step(init, counter).0 is Ok,
        withdraw_token_step(later, now, amount).0 is Ok,
    ensures
        later.vault@ == init.vault@,
        withdraw_token_step(later, now, amount).1.vault_bump == initialize_step(init, counter).1.vault_bump,
{
}

} // verus!

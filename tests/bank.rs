use anchor_lang::prelude::Pubkey;
use solbank::address::{program_state_address, same_address, vault_address, Address};
use solbank::error::ErrorCode;
use solbank::native::{deposit_sol, withdraw_sol, DepositSol, WithdrawSol};
use solbank::policy::{withdrawal_allowed, LOCK_DURATION};
use solbank::setup::{initialize, Initialize};
use solbank::state::{check_program_state, check_vault, NativeAccount, ProgramState, TokenAccount};
use solbank::token::{deposit_token, withdraw_token, DepositToken, WithdrawToken};
use std::str::FromStr;

const USER: Address = [9u8; 32];
const MINT: Address = [4u8; 32];
const OTHER: Address = [5u8; 32];

fn program_id() -> Address {
    Pubkey::from_str("2bgE3SRwj5Kq7gfPbeS2V6DxXPacwp9igRrKKf5EbZ8s").unwrap().to_bytes()
}

fn vault() -> (Address, u8) {
    vault_address(&program_id()).unwrap()
}

fn state_key() -> Address {
    program_state_address(&program_id()).unwrap().0
}

fn init_ctx() -> Initialize {
    Initialize {
        program_id: program_id(),
        program_state_key: state_key(),
        program_state: None,
        vault: vault().0,
        vault_allocated: false,
        program_state_bump: 0,
        vault_bump: 0,
    }
}

fn withdraw_sol_ctx(vault_lamports: u64, user_lamports: u64) -> WithdrawSol {
    WithdrawSol {
        program_id: program_id(),
        vault: NativeAccount { key: vault().0, lamports: vault_lamports },
        user: NativeAccount { key: USER, lamports: user_lamports },
        vault_bump: 0,
    }
}

fn deposit_sol_ctx(vault_lamports: u64, user_lamports: u64) -> DepositSol {
    DepositSol {
        program_id: program_id(),
        vault: NativeAccount { key: vault().0, lamports: vault_lamports },
        user: NativeAccount { key: USER, lamports: user_lamports },
        vault_bump: 0,
    }
}

fn deposit_token_ctx(vault_tokens: Option<u64>, user_tokens: u64) -> DepositToken {
    DepositToken {
        program_id: program_id(),
        vault: vault().0,
        vault_token_account: vault_tokens.map(|amount| TokenAccount { mint: MINT, owner: vault().0, amount }),
        user_token_account: TokenAccount { mint: MINT, owner: USER, amount: user_tokens },
        mint: MINT,
        user: USER,
        vault_bump: 0,
    }
}

fn withdraw_token_ctx(slot: u64, vault_tokens: u64, user_tokens: u64) -> WithdrawToken {
    WithdrawToken {
        program_id: program_id(),
        program_state_key: state_key(),
        program_state: ProgramState { slot },
        vault: vault().0,
        vault_token_account: TokenAccount { mint: MINT, owner: vault().0, amount: vault_tokens },
        user_token_account: TokenAccount { mint: MINT, owner: USER, amount: user_tokens },
        mint: MINT,
        user: USER,
        vault_bump: 0,
    }
}

#[test]
fn vault_address_matches_ledger_derivation() {
    let pid = program_id();
    let (key, bump) = vault_address(&pid).unwrap();
    let (expected, expected_bump) = Pubkey::find_program_address(&[b"vault"], &Pubkey::new_from_array(pid));
    assert_eq!(key, expected.to_bytes());
    assert_eq!(bump, expected_bump);
    assert_ne!(key, pid);
    let (state, state_bump) = program_state_address(&pid).unwrap();
    let (expected_state, expected_state_bump) =
        Pubkey::find_program_address(&[b"program_state"], &Pubkey::new_from_array(pid));
    assert_eq!(state, expected_state.to_bytes());
    assert_eq!(state_bump, expected_state_bump);
    assert_ne!(state, key);
}

#[test]
fn vault_derivation_is_deterministic() {
    assert_eq!(vault_address(&program_id()), vault_address(&program_id()));
    let (key, bump) = vault();
    assert_eq!(check_vault(&program_id(), &key), Ok(bump));
    assert_eq!(check_vault(&program_id(), &OTHER), Err(ErrorCode::ConstraintSeeds));
    assert_eq!(check_program_state(&program_id(), &key), Err(ErrorCode::ConstraintSeeds));
}

#[test]
fn same_address_compares_all_bytes() {
    let mut b = USER;
    assert!(same_address(&USER, &b));
    b[31] = 0;
    assert!(!same_address(&USER, &b));
}

#[test]
fn initialize_records_counter() {
    let mut ctx = init_ctx();
    assert_eq!(initialize(&mut ctx, 1000), Ok(()));
    assert_eq!(ctx.program_state, Some(ProgramState { slot: 1000 }));
    assert!(ctx.vault_allocated);
    assert_eq!(ctx.vault_bump, vault().1);
    assert_eq!(ctx.program_state_bump, program_state_address(&program_id()).unwrap().1);
}

#[test]
fn initialize_twice_fails() {
    let mut ctx = init_ctx();
    assert_eq!(initialize(&mut ctx, 1000), Ok(()));
    let before = ctx;
    assert_eq!(initialize(&mut ctx, 2000), Err(ErrorCode::AlreadyInitialized));
    assert_eq!(ctx, before);
    let mut only_vault = init_ctx();
    only_vault.vault_allocated = true;
    assert_eq!(initialize(&mut only_vault, 5), Err(ErrorCode::AlreadyInitialized));
    assert_eq!(only_vault.program_state, None);
}

#[test]
fn initialize_rejects_underived_accounts() {
    let mut ctx = init_ctx();
    ctx.vault = OTHER;
    assert_eq!(initialize(&mut ctx, 1), Err(ErrorCode::ConstraintSeeds));
    let mut ctx = init_ctx();
    ctx.program_state_key = vault().0;
    assert_eq!(initialize(&mut ctx, 1), Err(ErrorCode::ConstraintSeeds));
    assert_eq!(ctx.program_state, None);
}

#[test]
fn withdraw_sol_within_balance_moves_amount() {
    let mut ctx = withdraw_sol_ctx(700, 50);
    assert_eq!(withdraw_sol(&mut ctx, 300), Ok(()));
    assert_eq!(ctx.vault.lamports, 400);
    assert_eq!(ctx.user.lamports, 350);
    assert_eq!(ctx.vault_bump, vault().1);
    let mut all = withdraw_sol_ctx(400, 0);
    assert_eq!(withdraw_sol(&mut all, 400), Ok(()));
    assert_eq!(all.vault.lamports, 0);
    assert_eq!(all.user.lamports, 400);
}

#[test]
fn withdraw_sol_beyond_balance_fails() {
    let mut ctx = withdraw_sol_ctx(700, 50);
    let before = ctx;
    assert_eq!(withdraw_sol(&mut ctx, 701), Err(ErrorCode::InsufficientFunds));
    assert_eq!(ctx, before);
    let mut empty = withdraw_sol_ctx(0, 0);
    assert_eq!(withdraw_sol(&mut empty, 1), Err(ErrorCode::InsufficientFunds));
}

#[test]
fn withdraw_sol_overflow_and_seeds() {
    let mut ctx = withdraw_sol_ctx(1, u64::MAX);
    assert_eq!(withdraw_sol(&mut ctx, 1), Err(ErrorCode::ArithmeticFault));
    assert_eq!(ctx.vault.lamports, 1);
    let mut wrong = withdraw_sol_ctx(10, 0);
    wrong.vault.key = OTHER;
    assert_eq!(withdraw_sol(&mut wrong, 1), Err(ErrorCode::ConstraintSeeds));
}

#[test]
fn deposit_sol_moves_amount() {
    let mut ctx = deposit_sol_ctx(0, 800);
    assert_eq!(deposit_sol(&mut ctx, 500), Ok(()));
    assert_eq!(ctx.vault.lamports, 500);
    assert_eq!(ctx.user.lamports, 300);
    assert_eq!(ctx.vault_bump, vault().1);
}

#[test]
fn deposit_sol_failures() {
    let mut poor = deposit_sol_ctx(0, 10);
    assert_eq!(deposit_sol(&mut poor, 11), Err(ErrorCode::ArithmeticFault));
    assert_eq!(poor.user.lamports, 10);
    let mut full = deposit_sol_ctx(u64::MAX, 10);
    assert_eq!(deposit_sol(&mut full, 1), Err(ErrorCode::ArithmeticFault));
    let mut wrong = deposit_sol_ctx(0, 10);
    wrong.vault.key = USER;
    assert_eq!(deposit_sol(&mut wrong, 1), Err(ErrorCode::ConstraintSeeds));
}

#[test]
fn native_total_conserved_over_sequence() {
    let (vkey, _) = vault();
    let mut vault_acc = NativeAccount { key: vkey, lamports: 0 };
    let mut users = vec![
        NativeAccount { key: USER, lamports: 1000 },
        NativeAccount { key: OTHER, lamports: 250 },
    ];
    let total = |v: &NativeAccount, us: &Vec<NativeAccount>| v.lamports + us.iter().map(|u| u.lamports).sum::<u64>();
    let start = total(&vault_acc, &users);
    let calls: Vec<(usize, bool, u64)> =
        vec![(0, true, 600), (1, true, 300), (1, true, 250), (0, false, 700), (1, false, 900), (1, false, 150)];
    for (i, deposit, amount) in calls {
        if deposit {
            let mut ctx = DepositSol { program_id: program_id(), vault: vault_acc, user: users[i], vault_bump: 0 };
            let _ = deposit_sol(&mut ctx, amount);
            vault_acc = ctx.vault;
            users[i] = ctx.user;
        } else {
            let mut ctx = WithdrawSol { program_id: program_id(), vault: vault_acc, user: users[i], vault_bump: 0 };
            let _ = withdraw_sol(&mut ctx, amount);
            vault_acc = ctx.vault;
            users[i] = ctx.user;
        }
        assert_eq!(total(&vault_acc, &users), start);
    }
    assert_eq!(vault_acc.lamports, 0);
    assert_eq!(users[0].lamports, 1100);
    assert_eq!(users[1].lamports, 150);
}

#[test]
fn withdrawal_gate_boundary() {
    assert_eq!(LOCK_DURATION, 216000);
    assert!(!withdrawal_allowed(1000, 1000 + 215999));
    assert!(withdrawal_allowed(1000, 1000 + 216000));
    assert!(!withdrawal_allowed(0, 0));
    assert!(!withdrawal_allowed(u64::MAX, u64::MAX));
    assert!(withdrawal_allowed(0, u64::MAX));
}

#[test]
fn withdraw_token_locked_then_open() {
    let mut early = withdraw_token_ctx(1000, 80, 0);
    let before = early;
    assert_eq!(withdraw_token(&mut early, 1000 + 215999, 30), Err(ErrorCode::WithdrawalTooSoon));
    assert_eq!(early, before);
    let mut late = withdraw_token_ctx(1000, 80, 0);
    assert_eq!(withdraw_token(&mut late, 1000 + 216000, 30), Ok(()));
    assert_eq!(late.vault_token_account.amount, 50);
    assert_eq!(late.user_token_account.amount, 30);
    assert_eq!(late.vault_bump, vault().1);
}

#[test]
fn withdraw_token_failures() {
    let mut short = withdraw_token_ctx(0, 10, 0);
    assert_eq!(withdraw_token(&mut short, 216000, 11), Err(ErrorCode::TransferError));
    let mut full = withdraw_token_ctx(0, 10, u64::MAX);
    assert_eq!(withdraw_token(&mut full, 216000, 1), Err(ErrorCode::ArithmeticFault));
    let mut mint = withdraw_token_ctx(0, 10, 0);
    mint.user_token_account.mint = OTHER;
    assert_eq!(withdraw_token(&mut mint, 216000, 1), Err(ErrorCode::ConstraintTokenMint));
    let mut owner = withdraw_token_ctx(0, 10, 0);
    owner.vault_token_account.owner = USER;
    assert_eq!(withdraw_token(&mut owner, 216000, 1), Err(ErrorCode::ConstraintTokenOwner));
    let mut state = withdraw_token_ctx(0, 10, 0);
    state.program_state_key = OTHER;
    assert_eq!(withdraw_token(&mut state, 216000, 1), Err(ErrorCode::ConstraintSeeds));
    assert_eq!(state.vault_token_account.amount, 10);
}

#[test]
fn deposit_token_creates_vault_account() {
    let mut ctx = deposit_token_ctx(None, 100);
    assert_eq!(deposit_token(&mut ctx, 40), Ok(()));
    assert_eq!(ctx.vault_token_account, Some(TokenAccount { mint: MINT, owner: vault().0, amount: 40 }));
    assert_eq!(ctx.user_token_account.amount, 60);
    assert_eq!(ctx.vault_bump, vault().1);
}

#[test]
fn deposit_token_ignores_lock() {
    let mut ctx = deposit_token_ctx(Some(5), 100);
    assert_eq!(deposit_token(&mut ctx, 100), Ok(()));
    assert_eq!(ctx.vault_token_account.unwrap().amount, 105);
    assert_eq!(ctx.user_token_account.amount, 0);
}

#[test]
fn deposit_token_failures() {
    let mut short = deposit_token_ctx(Some(0), 10);
    let before = short;
    assert_eq!(deposit_token(&mut short, 11), Err(ErrorCode::TransferError));
    assert_eq!(short, before);
    let mut full = deposit_token_ctx(Some(u64::MAX), 10);
    assert_eq!(deposit_token(&mut full, 1), Err(ErrorCode::ArithmeticFault));
    let mut mint = deposit_token_ctx(None, 10);
    mint.mint = OTHER;
    assert_eq!(deposit_token(&mut mint, 1), Err(ErrorCode::ConstraintTokenMint));
    let mut owner = deposit_token_ctx(None, 10);
    owner.user = OTHER;
    assert_eq!(deposit_token(&mut owner, 1), Err(ErrorCode::ConstraintTokenOwner));
    assert_eq!(owner.vault_token_account, None);
    let mut seeds = deposit_token_ctx(None, 10);
    seeds.vault = USER;
    assert_eq!(deposit_token(&mut seeds, 1), Err(ErrorCode::ConstraintSeeds));
}

#[test]
fn lifecycle_scenario() {
    let mut init = init_ctx();
    assert_eq!(initialize(&mut init, 1000), Ok(()));
    let slot = init.program_state.unwrap().slot;
    assert_eq!(slot, 1000);

    let mut dep = deposit_sol_ctx(0, 500);
    assert_eq!(deposit_sol(&mut dep, 500), Ok(()));
    assert_eq!(dep.vault.lamports, 500);

    let mut early = withdraw_token_ctx(slot, 20, 0);
    assert_eq!(withdraw_token(&mut early, 1000 + 215999, 20), Err(ErrorCode::WithdrawalTooSoon));
    let mut late = withdraw_token_ctx(slot, 20, 0);
    assert_eq!(withdraw_token(&mut late, 1000 + 216000, 20), Ok(()));
    assert_eq!(late.vault_bump, init.vault_bump);
    assert_eq!(late.vault, init.vault);
}

#[test]
fn error_messages() {
    assert_eq!(ErrorCode::InsufficientFunds.message(), "Insufficient funds in vault");
    assert_eq!(ErrorCode::WithdrawalTooSoon.message(), "Cannot withdraw within 24 hours of initialization");
}

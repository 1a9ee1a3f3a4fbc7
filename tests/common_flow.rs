use lending_core::address::{loan_address, pool_address, same_address};
use lending_core::codec::{decode_loan, decode_pool, LOAN_RECORD_LEN, POOL_RECORD_LEN};
use lending_core::instruction::{encode_instruction, LendingInstruction};
use lending_core::processor::{process_instruction, AccountState, Effects, TransferKind};
use lending_core::state::{LendingError, LendingPool, LoanStatus, LOAN_DURATION_SECS};

const PROGRAM: [u8; 32] = [7u8; 32];
const USER: [u8; 32] = [1u8; 32];
const LIQUIDATOR: [u8; 32] = [2u8; 32];
const START: i64 = 1_700_000_000;

fn account(key: [u8; 32], owner: [u8; 32], signer: bool, len: usize) -> AccountState {
    AccountState { key, owner, is_signer: signer, is_writable: true, data: vec![0u8; len] }
}

fn apply(accounts: &mut Vec<AccountState>, e: &Effects) {
    let n = e.pool_data.len();
    accounts[e.pool_index].data[..n].copy_from_slice(&e.pool_data);
    if let Some(d) = &e.loan_data {
        accounts[e.loan_index].data[..d.len()].copy_from_slice(d);
    }
}

fn run(
    accounts: &mut Vec<AccountState>,
    ix: LendingInstruction,
    now: i64,
    valuation: Option<u64>,
) -> Result<Effects, LendingError> {
    let r = process_instruction(&PROGRAM, accounts, &encode_instruction(&ix), now, valuation);
    if let Ok(e) = &r {
        apply(accounts, e);
    }
    r
}

fn pool_key() -> [u8; 32] {
    pool_address(1, &PROGRAM).expect("a pool address")
}

fn pool_account() -> AccountState {
    account(pool_key(), PROGRAM, false, POOL_RECORD_LEN)
}

/// A pool made with seed 1 and holding a deposit of 1000.
fn funded_pool() -> AccountState {
    let mut accts = vec![pool_account()];
    run(&mut accts, LendingInstruction::InitializeLendingPool { pool_seed: 1 }, START, None).unwrap();
    let mut accts = vec![account(USER, USER, true, 0), accts.pop().unwrap()];
    run(&mut accts, LendingInstruction::Deposit { amount: 1000 }, START, None).unwrap();
    accts.pop().unwrap()
}

fn pool_of(acc: &AccountState) -> LendingPool {
    decode_pool(&acc.data).expect("a pool record")
}

/// Accounts `[user, pool, loan]` after a borrow of 500 against 800.
fn with_loan() -> Vec<AccountState> {
    let pool = funded_pool();
    let loan_key = loan_address(&pool.key, 0, &PROGRAM).unwrap();
    let mut accts =
        vec![account(USER, USER, true, 0), pool, account(loan_key, PROGRAM, false, LOAN_RECORD_LEN)];
    run(&mut accts, LendingInstruction::Borrow { amount: 500, collateral_amount: 800 }, START, None)
        .unwrap();
    accts
}

fn liquidation_accounts(accts: Vec<AccountState>) -> Vec<AccountState> {
    let mut it = accts.into_iter();
    let _user = it.next().unwrap();
    let pool = it.next().unwrap();
    let loan = it.next().unwrap();
    vec![account(LIQUIDATOR, LIQUIDATOR, true, 0), account(USER, USER, false, 0), pool, loan]
}

#[test]
fn initialize_pool_gives_empty_pool() {
    let mut accts = vec![pool_account()];
    let e = run(&mut accts, LendingInstruction::InitializeLendingPool { pool_seed: 1 }, START, None)
        .unwrap();
    assert!(e.transfers.is_empty());
    let p = pool_of(&accts[0]);
    assert_eq!(p.total_deposits, 0);
    assert_eq!(p.total_borrows, 0);
    assert_eq!(p.interest_rate, 500);
}

#[test]
fn initialize_twice_fails_and_keeps_record() {
    let mut accts = vec![funded_pool()];
    let before = accts[0].data.clone();
    let r = run(&mut accts, LendingInstruction::InitializeLendingPool { pool_seed: 1 }, START, None);
    assert_eq!(r.unwrap_err(), LendingError::AlreadyInitialized);
    assert_eq!(accts[0].data, before);
    assert_eq!(pool_of(&accts[0]).total_deposits, 1000);
}

#[test]
fn initialize_at_wrong_address_fails() {
    let mut accts = vec![account([9u8; 32], PROGRAM, false, POOL_RECORD_LEN)];
    let r = run(&mut accts, LendingInstruction::InitializeLendingPool { pool_seed: 1 }, START, None);
    assert_eq!(r.unwrap_err(), LendingError::AddressMismatch);
    let mut accts = vec![pool_account()];
    let r = run(&mut accts, LendingInstruction::InitializeLendingPool { pool_seed: 2 }, START, None);
    assert_eq!(r.unwrap_err(), LendingError::AddressMismatch);
}

#[test]
fn initialize_checks_account_metadata() {
    let mut accts = vec![account(pool_key(), [8u8; 32], false, POOL_RECORD_LEN)];
    let r = run(&mut accts, LendingInstruction::InitializeLendingPool { pool_seed: 1 }, START, None);
    assert_eq!(r.unwrap_err(), LendingError::InvalidAccountOwner);
    let mut acc = pool_account();
    acc.is_writable = false;
    let mut accts = vec![acc];
    let r = run(&mut accts, LendingInstruction::InitializeLendingPool { pool_seed: 1 }, START, None);
    assert_eq!(r.unwrap_err(), LendingError::NotWritable);
    let mut accts = vec![account(pool_key(), PROGRAM, false, POOL_RECORD_LEN - 1)];
    let r = run(&mut accts, LendingInstruction::InitializeLendingPool { pool_seed: 1 }, START, None);
    assert_eq!(r.unwrap_err(), LendingError::InvalidAccountData);
    let mut accts = vec![];
    let r = run(&mut accts, LendingInstruction::InitializeLendingPool { pool_seed: 1 }, START, None);
    assert_eq!(r.unwrap_err(), LendingError::InvalidAccountData);
}

#[test]
fn deposit_adds_to_pool() {
    let pool = funded_pool();
    assert_eq!(pool_of(&pool).total_deposits, 1000);
    let mut accts = vec![account(USER, USER, true, 0), pool];
    let e = run(&mut accts, LendingInstruction::Deposit { amount: 234 }, START, None).unwrap();
    assert_eq!(pool_of(&accts[1]).total_deposits, 1234);
    assert_eq!(e.transfers.len(), 1);
    assert_eq!(e.transfers[0].kind, TransferKind::Liquidity);
    assert_eq!(e.transfers[0].amount, 234);
    assert_eq!(e.transfers[0].from, USER);
}

#[test]
fn deposit_overflow_fails() {
    let mut accts = vec![account(USER, USER, true, 0), funded_pool()];
    let r = run(&mut accts, LendingInstruction::Deposit { amount: u64::MAX }, START, None);
    assert_eq!(r.unwrap_err(), LendingError::ArithmeticOverflow);
    assert_eq!(pool_of(&accts[1]).total_deposits, 1000);
}

#[test]
fn deposit_needs_signer_and_pool() {
    let mut accts = vec![account(USER, USER, false, 0), funded_pool()];
    let r = run(&mut accts, LendingInstruction::Deposit { amount: 1 }, START, None);
    assert_eq!(r.unwrap_err(), LendingError::MissingSignature);
    let mut accts = vec![account(USER, USER, true, 0), pool_account()];
    let r = run(&mut accts, LendingInstruction::Deposit { amount: 1 }, START, None);
    assert_eq!(r.unwrap_err(), LendingError::InvalidAccountData);
}

#[test]
fn borrow_with_enough_collateral() {
    let accts = with_loan();
    assert_eq!(pool_of(&accts[1]).total_borrows, 500);
    let loan = decode_loan(&accts[2].data).unwrap();
    assert_eq!(loan.principal, 500);
    assert_eq!(loan.collateral, 800);
    assert_eq!(loan.status, LoanStatus::Active);
    assert_eq!(loan.duration, 2_592_000);
    assert_eq!(loan.duration, LOAN_DURATION_SECS);
    assert_eq!(loan.start_time, START);
    assert_eq!(loan.interest_rate, 500);
    assert_eq!(loan.borrower, USER);
}

#[test]
fn borrow_reports_loan_id_and_transfers() {
    let pool = funded_pool();
    let loan_key = loan_address(&pool.key, 0, &PROGRAM).unwrap();
    let mut accts =
        vec![account(USER, USER, true, 0), pool, account(loan_key, PROGRAM, false, LOAN_RECORD_LEN)];
    let e = run(&mut accts, LendingInstruction::Borrow { amount: 500, collateral_amount: 800 }, START, None)
        .unwrap();
    assert_eq!(e.loan_id, Some(0));
    assert_eq!(e.transfers.len(), 2);
    assert_eq!(e.transfers[0].kind, TransferKind::Collateral);
    assert_eq!(e.transfers[0].amount, 800);
    assert_eq!(e.transfers[1].kind, TransferKind::Liquidity);
    assert_eq!(e.transfers[1].amount, 500);
    assert_eq!(e.transfers[1].to, USER);
    assert_eq!(pool_of(&accts[1]).loans_issued, 1);
}

#[test]
fn borrow_with_too_little_collateral_fails() {
    let pool = funded_pool();
    let loan_key = loan_address(&pool.key, 0, &PROGRAM).unwrap();
    let mut accts =
        vec![account(USER, USER, true, 0), pool, account(loan_key, PROGRAM, false, LOAN_RECORD_LEN)];
    let before = accts[1].data.clone();
    let r = run(&mut accts, LendingInstruction::Borrow { amount: 500, collateral_amount: 600 }, START, None);
    assert_eq!(r.unwrap_err(), LendingError::InsufficientCollateral);
    assert_eq!(accts[1].data, before);
    assert_eq!(pool_of(&accts[1]).total_borrows, 0);
}

#[test]
fn borrow_beyond_liquidity_fails() {
    let pool = funded_pool();
    let loan_key = loan_address(&pool.key, 0, &PROGRAM).unwrap();
    let mut accts =
        vec![account(USER, USER, true, 0), pool, account(loan_key, PROGRAM, false, LOAN_RECORD_LEN)];
    let r = run(&mut accts, LendingInstruction::Borrow { amount: 1001, collateral_amount: 5000 }, START, None);
    assert_eq!(r.unwrap_err(), LendingError::PoolInsufficientLiquidity);
}

#[test]
fn borrow_checks_loan_account() {
    let pool = funded_pool();
    let mut accts =
        vec![account(USER, USER, true, 0), pool, account([3u8; 32], PROGRAM, false, LOAN_RECORD_LEN)];
    let r = run(&mut accts, LendingInstruction::Borrow { amount: 10, collateral_amount: 15 }, START, None);
    assert_eq!(r.unwrap_err(), LendingError::AddressMismatch);
    let mut accts = with_loan();
    let r = run(&mut accts, LendingInstruction::Borrow { amount: 10, collateral_amount: 15 }, START, None);
    assert_eq!(r.unwrap_err(), LendingError::AddressMismatch);
    let mut accts = with_loan();
    accts[1].data = funded_pool().data;
    let r = run(&mut accts, LendingInstruction::Borrow { amount: 10, collateral_amount: 15 }, START, None);
    assert_eq!(r.unwrap_err(), LendingError::AlreadyInitialized);
}

#[test]
fn repay_returns_borrows_to_before() {
    let mut accts = with_loan();
    let e = run(&mut accts, LendingInstruction::Repay { loan_id: 0, amount: 500 }, START, None).unwrap();
    let p = pool_of(&accts[1]);
    assert_eq!(p.total_borrows, 0);
    assert_eq!(p.total_deposits, 1000);
    assert_eq!(decode_loan(&accts[2].data).unwrap().status, LoanStatus::Repaid);
    assert_eq!(e.transfers[1].kind, TransferKind::Collateral);
    assert_eq!(e.transfers[1].amount, 800);
    assert_eq!(e.transfers[1].to, USER);
}

#[test]
fn repay_owes_interest() {
    let mut accts = with_loan();
    let later = START + 31_536_000;
    let r = run(&mut accts, LendingInstruction::Repay { loan_id: 0, amount: 524 }, later, None);
    assert_eq!(r.unwrap_err(), LendingError::InsufficientRepayment);
    run(&mut accts, LendingInstruction::Repay { loan_id: 0, amount: 525 }, later, None).unwrap();
    assert_eq!(pool_of(&accts[1]).total_borrows, 0);
}

#[test]
fn repay_twice_fails() {
    let mut accts = with_loan();
    run(&mut accts, LendingInstruction::Repay { loan_id: 0, amount: 500 }, START, None).unwrap();
    let r = run(&mut accts, LendingInstruction::Repay { loan_id: 0, amount: 500 }, START, None);
    assert_eq!(r.unwrap_err(), LendingError::LoanNotActive);
}

#[test]
fn repay_unknown_loan_fails() {
    let mut accts = with_loan();
    let r = run(&mut accts, LendingInstruction::Repay { loan_id: 1, amount: 500 }, START, None);
    assert_eq!(r.unwrap_err(), LendingError::LoanNotFound);
}

#[test]
fn liquidate_before_deadline_fails() {
    let mut accts = liquidation_accounts(with_loan());
    let r = run(&mut accts, LendingInstruction::Liquidate { loan_id: 0 }, START + 10, Some(800));
    assert_eq!(r.unwrap_err(), LendingError::LoanNotEligibleForLiquidation);
    let r = run(&mut accts, LendingInstruction::Liquidate { loan_id: 0 }, START + 10, None);
    assert_eq!(r.unwrap_err(), LendingError::ValuationUnavailable);
    let at_deadline = START + LOAN_DURATION_SECS;
    let r = run(&mut accts, LendingInstruction::Liquidate { loan_id: 0 }, at_deadline, Some(800));
    assert_eq!(r.unwrap_err(), LendingError::LoanNotEligibleForLiquidation);
}

#[test]
fn liquidate_after_deadline_succeeds() {
    let mut accts = liquidation_accounts(with_loan());
    let now = START + LOAN_DURATION_SECS + 1;
    let e = run(&mut accts, LendingInstruction::Liquidate { loan_id: 0 }, now, None).unwrap();
    assert_eq!(decode_loan(&accts[3].data).unwrap().status, LoanStatus::Liquidated);
    assert_eq!(pool_of(&accts[2]).total_borrows, 0);
    assert_eq!(e.transfers.len(), 1);
    assert_eq!(e.transfers[0].kind, TransferKind::Collateral);
    assert_eq!(e.transfers[0].to, LIQUIDATOR);
    assert_eq!(e.transfers[0].amount, 800);
    let r = run(&mut accts, LendingInstruction::Liquidate { loan_id: 0 }, now, None);
    assert_eq!(r.unwrap_err(), LendingError::LoanNotActive);
}

#[test]
fn liquidate_undercollateralised_loan() {
    let mut accts = liquidation_accounts(with_loan());
    let r = run(&mut accts, LendingInstruction::Liquidate { loan_id: 0 }, START + 10, Some(749));
    assert!(r.is_ok());
    assert_eq!(decode_loan(&accts[3].data).unwrap().status, LoanStatus::Liquidated);
}

#[test]
fn liquidate_needs_the_borrower() {
    let mut accts = liquidation_accounts(with_loan());
    accts[1].key = [5u8; 32];
    let now = START + LOAN_DURATION_SECS + 1;
    let r = run(&mut accts, LendingInstruction::Liquidate { loan_id: 0 }, now, None);
    assert_eq!(r.unwrap_err(), LendingError::InvalidAccountData);
}

#[test]
fn malformed_instruction_fails() {
    let mut accts = vec![funded_pool()];
    let r = process_instruction(&PROGRAM, &mut accts, &[9u8, 0, 0, 0, 0, 0, 0, 0, 0], START, None);
    assert_eq!(r.unwrap_err(), LendingError::DecodeError);
    let r = process_instruction(&PROGRAM, &mut accts, &[1u8, 0, 0], START, None);
    assert_eq!(r.unwrap_err(), LendingError::DecodeError);
}

#[test]
fn pool_address_is_derived() {
    let a = pool_key();
    assert!(!same_address(&a, &PROGRAM));
    assert_eq!(a, pool_address(1, &PROGRAM).unwrap());
    assert_ne!(a, pool_address(2, &PROGRAM).unwrap());
    let id = solana_program::pubkey::Pubkey::new_from_array(PROGRAM);
    let (expected, _) = solana_program::pubkey::Pubkey::find_program_address(
        &[b"lending_pool", &1u64.to_le_bytes()],
        &id,
    );
    assert_eq!(a, expected.to_bytes());
    let l = loan_address(&a, 0, &PROGRAM).unwrap();
    let (expected, _) =
        solana_program::pubkey::Pubkey::find_program_address(&[b"loan", &a, &0u64.to_le_bytes()], &id);
    assert_eq!(l, expected.to_bytes());
}

#[test]
fn other_records_cannot_pose_as_the_pool() {
    let accts = with_loan();
    let loan_acc = accts[2].clone();
    let mut deposit = vec![account(USER, USER, true, 0), loan_acc];
    let r = run(&mut deposit, LendingInstruction::Deposit { amount: 1 }, START, None);
    assert_eq!(r.unwrap_err(), LendingError::InvalidAccountData);

    let mut moved = funded_pool();
    moved.key = [9u8; 32];
    let mut deposit = vec![account(USER, USER, true, 0), moved];
    let r = run(&mut deposit, LendingInstruction::Deposit { amount: 1 }, START, None);
    assert_eq!(r.unwrap_err(), LendingError::InvalidAccountData);

    let mut user_record = account([9u8; 32], PROGRAM, false, 0);
    user_record.data = borsh::to_vec(&("x".repeat(0x50), 0u32, false)).unwrap();
    assert_eq!(user_record.data[0], 0x50);
    let mut deposit = vec![account(USER, USER, true, 0), user_record];
    let r = run(&mut deposit, LendingInstruction::Deposit { amount: 1 }, START, None);
    assert_eq!(r.unwrap_err(), LendingError::InvalidAccountData);
}

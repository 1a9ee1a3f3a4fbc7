use lending_core::codec::{decode_loan, decode_pool, decode_pool_seed, encode_loan, encode_pool};
use lending_core::collateral::{accrued, elapsed_seconds, required_collateral};
use lending_core::instruction::{decode_instruction, encode_instruction, LendingInstruction};
use lending_core::state::{
    borrow, deposit, is_overdue, liquidate, repay, LendingError, LendingPool, Loan, LoanStatus,
};

fn pool(deposits: u64, borrows: u64) -> LendingPool {
    LendingPool { total_deposits: deposits, total_borrows: borrows, interest_rate: 500, loans_issued: 0 }
}

fn loan(status: LoanStatus) -> Loan {
    Loan {
        borrower: [1u8; 32],
        principal: 500,
        collateral: 800,
        start_time: 100,
        duration: 2_592_000,
        interest_rate: 500,
        status,
    }
}

#[test]
fn required_collateral_is_one_and_a_half() {
    assert_eq!(required_collateral(500), 750);
    assert_eq!(required_collateral(0), 0);
    assert_eq!(required_collateral(3), 4);
    assert_eq!(required_collateral(u64::MAX), (u64::MAX as u128) * 3 / 2);
}

#[test]
fn interest_accrues_simply() {
    assert_eq!(accrued(500, 500, 0, 31_536_000), Some(525));
    assert_eq!(accrued(500, 500, 0, 0), Some(500));
    assert_eq!(accrued(500, 500, 10, 5), Some(500));
    assert_eq!(accrued(1_000_000, 1000, 0, 15_768_000), Some(1_050_000));
    assert_eq!(accrued(u64::MAX, u32::MAX, i64::MIN, i64::MAX), None);
    assert_eq!(accrued(u64::MAX, 500, 0, 31_536_000), None);
    assert_eq!(elapsed_seconds(i64::MIN, i64::MAX), u64::MAX as u128);
}

#[test]
fn new_pool_is_empty() {
    let p = LendingPool::new();
    assert_eq!((p.total_deposits, p.total_borrows, p.interest_rate, p.loans_issued), (0, 0, 500, 0));
}

#[test]
fn solvency_holds_over_a_run() {
    let mut p = LendingPool::new();
    p = deposit(&p, 1000).unwrap();
    let (lent, l) = borrow(&p, 1000, 1500, [1u8; 32], 0).unwrap();
    assert!(lent.total_borrows <= lent.total_deposits);
    assert_eq!(borrow(&lent, 1, 2, [1u8; 32], 0).unwrap_err(), LendingError::PoolInsufficientLiquidity);
    let (settled, _) = repay(&lent, &l, 1000, 0).unwrap();
    assert!(settled.total_borrows <= settled.total_deposits);
    assert_eq!(settled.total_borrows, 0);
}

#[test]
fn round_trip_restores_borrows() {
    let start = pool(200, 100);
    let funded = deposit(&start, 300).unwrap();
    let (lent, l) = borrow(&funded, 300, 450, [1u8; 32], 0).unwrap();
    assert_eq!(lent.total_borrows, 400);
    let (settled, _) = repay(&lent, &l, 300, 0).unwrap();
    assert_eq!(settled.total_borrows, funded.total_borrows);
    assert_eq!(settled.total_deposits, 500);
}

#[test]
fn status_only_leaves_active() {
    let p = pool(1000, 500);
    let (_, repaid) = repay(&p, &loan(LoanStatus::Active), 500, 100).unwrap();
    assert_eq!(repaid.status, LoanStatus::Repaid);
    assert_eq!(repay(&p, &repaid, 500, 100).unwrap_err(), LendingError::LoanNotActive);
    assert_eq!(liquidate(&p, &repaid, i64::MAX, None).unwrap_err(), LendingError::LoanNotActive);
    let (_, gone) = liquidate(&p, &loan(LoanStatus::Active), i64::MAX, None).unwrap();
    assert_eq!(gone.status, LoanStatus::Liquidated);
    assert_eq!(repay(&p, &gone, 500, 100).unwrap_err(), LendingError::LoanNotActive);
}

#[test]
fn closing_more_than_borrowed_underflows() {
    let p = pool(1000, 10);
    assert_eq!(repay(&p, &loan(LoanStatus::Active), 500, 100).unwrap_err(), LendingError::Underflow);
}

#[test]
fn repay_overflow_is_reported() {
    let p = pool(u64::MAX, u64::MAX);
    let mut l = loan(LoanStatus::Active);
    l.principal = u64::MAX;
    l.start_time = 0;
    assert_eq!(repay(&p, &l, u64::MAX, 31_536_000).unwrap_err(), LendingError::ArithmeticOverflow);
}

#[test]
fn borrow_counts_loans_and_overflows() {
    let mut p = pool(1000, 0);
    p.loans_issued = u64::MAX;
    assert_eq!(borrow(&p, 1, 2, [1u8; 32], 0).unwrap_err(), LendingError::ArithmeticOverflow);
}

#[test]
fn deadline_is_exclusive() {
    let l = loan(LoanStatus::Active);
    assert!(!is_overdue(&l, 100 + 2_592_000));
    assert!(is_overdue(&l, 100 + 2_592_001));
    let mut far = l;
    far.start_time = i64::MAX;
    far.duration = i64::MAX;
    assert!(!is_overdue(&far, i64::MAX));
}

#[test]
fn records_round_trip() {
    let p = LendingPool { total_deposits: 7, total_borrows: 3, interest_rate: 500, loans_issued: 2 };
    let b = encode_pool(1, &p);
    assert_eq!(b.len(), 37);
    assert_eq!(b[0], 0x50);
    assert_eq!(decode_pool_seed(&b), 1);
    assert_eq!(&b[9..29], &borsh::to_vec(&(7u64, 3u64, 500u32)).unwrap()[..]);
    assert_eq!(decode_pool(&b), Some(p));
    let mut l = loan(LoanStatus::Liquidated);
    l.start_time = -5;
    let b = encode_loan(&l);
    assert_eq!(b.len(), 70);
    let back = decode_loan(&b).unwrap();
    assert_eq!(back.start_time, -5);
    assert_eq!(back.status, LoanStatus::Liquidated);
    assert_eq!(back.borrower, [1u8; 32]);
    assert!(decode_pool(&[0u8; 37]).is_none());
    assert!(decode_loan(&b[..69]).is_none());
    assert!(decode_pool(&b).is_none());
    assert!(decode_loan(&encode_pool(1, &p)).is_none());
}

#[test]
fn instructions_match_borsh_layout() {
    let ix = LendingInstruction::Borrow { amount: 500, collateral_amount: 800 };
    let b = encode_instruction(&ix);
    assert_eq!(b, borsh::to_vec(&(2u8, 500u64, 800u64)).unwrap());
    assert_eq!(decode_instruction(&b), Some(ix));
    let ix = LendingInstruction::Repay { loan_id: 3, amount: 9 };
    assert_eq!(decode_instruction(&encode_instruction(&ix)), Some(ix));
    let ix = LendingInstruction::InitializeLendingPool { pool_seed: 1 };
    assert_eq!(encode_instruction(&ix), borsh::to_vec(&(0u8, 1u64)).unwrap());
    assert_eq!(decode_instruction(&[4u8, 1, 0, 0, 0, 0, 0, 0, 0, 0]), None);
}

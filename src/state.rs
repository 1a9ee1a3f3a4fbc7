use vstd::prelude::*;

use crate::collateral::{
    accrual_overflows,
    accrued,
    accrued_spec,
    required_collateral,
    required_spec,
};

verus! {

/// The rate, in basis points a year, that a new pool lends at (5.00%).
pub const INITIAL_INTEREST_RATE_BPS: u32 = 500;

/// How long a loan runs before it is overdue: 30 days, in seconds.
pub const LOAN_DURATION_SECS: i64 = 2_592_000;

/// Every way in which an instruction can fail.
#[derive(Clone, Copy, Debug, PartialEq, Eq, Structural)]
pub enum LendingError {
    DecodeError,
    InvalidAccountData,
    InvalidAccountOwner,
    MissingSignature,
    NotWritable,
    AddressMismatch,
    AlreadyInitialized,
    InsufficientCollateral,
    PoolInsufficientLiquidity,
    LoanNotFound,
    LoanNotActive,
    InsufficientRepayment,
    LoanNotEligibleForLiquidation,
    ValuationUnavailable,
    ArithmeticOverflow,
    Underflow,
}

/// The aggregate state of one lending market.
///
/// `loans_issued` counts the loans this pool has made; the next loan gets it
/// as its id.
#[derive(Clone, Copy, Debug, PartialEq, Eq, Structural)]
pub struct LendingPool {
    pub total_deposits: u64,
    pub total_borrows: u64,
    pub interest_rate: u32,
    pub loans_issued: u64,
}

/// Where a loan is in its life. `Repaid` and `Liquidated` are terminal.
#[derive(Clone, Copy, Debug, PartialEq, Eq, Structural)]
pub enum LoanStatus {
    Active,
    Repaid,
    Liquidated,
}

/// One borrowing position.
#[derive(Clone, Copy, Debug)]
pub struct Loan {
    pub borrower: [u8; 32],
    pub principal: u64,
    pub collateral: u64,
    pub start_time: i64,
    pub duration: i64,
    pub interest_rate: u32,
    pub status: LoanStatus,
}

impl LendingPool {
    /// The pool is solvent: it has lent no more than it holds.
    pub open spec fn wf(&self) -> bool {
        self.total_borrows <= self.total_deposits
    }

    /// A freshly initialised pool.
    pub open spec fn initial() -> LendingPool {
        LendingPool {
            total_deposits: 0,
            total_borrows: 0,
            interest_rate: INITIAL_INTEREST_RATE_BPS,
            loans_issued: 0,
        }
    }

    /// A freshly initialised pool: nothing deposited or lent, lending at
    /// `INITIAL_INTEREST_RATE_BPS`.
    pub fn new() -> (r: LendingPool)
        ensures
            r == LendingPool::initial(),
            r.wf(),
    {
        LendingPool {
            total_deposits: 0,
            total_borrows: 0,
            interest_rate: INITIAL_INTEREST_RATE_BPS,
            loans_issued: 0,
        }
    }
}

impl Loan {
    /// The moment after which the loan is overdue.
    pub open spec fn deadline(&self) -> int {
        self.start_time + self.duration
    }

    /// The loan may be liquidated because its term is over.
    pub open spec fn overdue_at(&self, now: i64) -> bool {
        now > self.deadline()
    }

    /// The loan's collateral, valued at `value`, no longer covers its
    /// principal at the minimum ratio.
    pub open spec fn undercollateralised_at(&self, value: u64) -> bool {
        value < required_spec(self.principal)
    }
}

/// A status may only stay as it is or leave `Active` for a terminal status.
pub open spec fn status_step(before: LoanStatus, after: LoanStatus) -> bool {
    before == after || (before == LoanStatus::Active && after != LoanStatus::Active)
}

/// `Deposit(amount)`: the pool holds `amount` more.
pub open spec fn deposit_spec(pool: LendingPool, amount: u64) -> Result<LendingPool, LendingError> {
    if pool.total_deposits + amount > u64::MAX {
        Err(LendingError::ArithmeticOverflow)
    } else {
        Ok(LendingPool { total_deposits: (pool.total_deposits + amount) as u64, ..pool })
    }
}

/// `Borrow(amount, collateral_amount)` by `borrower` at `now`: the pool lends
/// `amount` and the new loan, whose id is `pool.loans_issued`, starts now at
/// the pool's rate.
pub open spec fn borrow_spec(
    pool: LendingPool,
    amount: u64,
    collateral_amount: u64,
    borrower: [u8; 32],
    now: i64,
) -> Result<(LendingPool, Loan), LendingError> {
    if collateral_amount < required_spec(amount) {
        Err(LendingError::InsufficientCollateral)
    } else if pool.total_borrows + amount > pool.total_deposits {
        Err(LendingError::PoolInsufficientLiquidity)
    } else if pool.loans_issued == u64::MAX {
        Err(LendingError::ArithmeticOverflow)
    } else {
        Ok(
            (
                LendingPool {
                    total_borrows: (pool.total_borrows + amount) as u64,
                    loans_issued: (pool.loans_issued + 1) as u64,
                    ..pool
                },
                Loan {
                    borrower,
                    principal: amount,
                    collateral: collateral_amount,
                    start_time: now,
                    duration: LOAN_DURATION_SECS,
                    interest_rate: pool.interest_rate,
                    status: LoanStatus::Active,
                },
            ),
        )
    }
}

/// The pool once `loan` is closed: its principal is no longer lent out.
pub open spec fn close_spec(pool: LendingPool, loan: Loan) -> Result<LendingPool, LendingError> {
    if pool.total_borrows < loan.principal {
        Err(LendingError::Underflow)
    } else {
        Ok(LendingPool { total_borrows: (pool.total_borrows - loan.principal) as u64, ..pool })
    }
}

/// `loan` with a new status.
pub open spec fn with_status(loan: Loan, status: LoanStatus) -> Loan {
    Loan { status, ..loan }
}

/// `Repay(amount)` of `loan` at `now`: a payment that covers principal and
/// interest closes the loan as `Repaid`.
pub open spec fn repay_spec(pool: LendingPool, loan: Loan, amount: u64, now: i64) -> Result<
    (LendingPool, Loan),
    LendingError,
> {
    if loan.status != LoanStatus::Active {
        Err(LendingError::LoanNotActive)
    } else if accrual_overflows(loan.principal, loan.interest_rate, loan.start_time, now) {
        Err(LendingError::ArithmeticOverflow)
    } else if amount < accrued_spec(loan.principal, loan.interest_rate, loan.start_time, now) {
        Err(LendingError::InsufficientRepayment)
    } else {
        match close_spec(pool, loan) {
            Err(e) => Err(e),
            Ok(p) => Ok((p, with_status(loan, LoanStatus::Repaid))),
        }
    }
}

/// `Liquidate` of `loan` at `now`, with the collateral's current value if a
/// valuation is at hand. An overdue loan is always eligible; one within its
/// term only when a valuation shows it under-collateralised, and without a
/// valuation that cannot be decided.
pub open spec fn liquidate_spec(
    pool: LendingPool,
    loan: Loan,
    now: i64,
    valuation: Option<u64>,
) -> Result<(LendingPool, Loan), LendingError> {
    if loan.status != LoanStatus::Active {
        Err(LendingError::LoanNotActive)
    } else if !loan.overdue_at(now) && valuation is None {
        Err(LendingError::ValuationUnavailable)
    } else if !loan.overdue_at(now) && !loan.undercollateralised_at(valuation->Some_0) {
        Err(LendingError::LoanNotEligibleForLiquidation)
    } else {
        match close_spec(pool, loan) {
            Err(e) => Err(e),
            Ok(p) => Ok((p, with_status(loan, LoanStatus::Liquidated))),
        }
    }
}

/// Applies a deposit of `amount` to `pool`.
pub fn deposit(pool: &LendingPool, amount: u64) -> (r: Result<LendingPool, LendingError>)
    ensures
        r == deposit_spec(*pool, amount),
        pool.wf() ==> (r matches Ok(p) ==> p.wf()),
{
    match pool.total_deposits.checked_add(amount) {
        None => Err(LendingError::ArithmeticOverflow),
        Some(total) => Ok(LendingPool { total_deposits: total, ..*pool }),
    }
}

/// Opens a loan of `amount` against `collateral_amount` for `borrower` at
/// `now`.
pub fn borrow(
    pool: &LendingPool,
    amount: u64,
    collateral_amount: u64,
    borrower: [u8; 32],
    now: i64,
) -> (r: Result<(LendingPool, Loan), LendingError>)
    ensures
        r == borrow_spec(*pool, amount, collateral_amount, borrower, now),
        pool.wf() ==> (r matches Ok((p, _)) ==> p.wf()),
{
    if (collateral_amount as u128) < required_collateral(amount) {
        return Err(LendingError::InsufficientCollateral);
    }
    if pool.total_borrows > pool.total_deposits || amount > pool.total_deposits
        - pool.total_borrows {
        return Err(LendingError::PoolInsufficientLiquidity);
    }
    if pool.loans_issued == u64::MAX {
        return Err(LendingError::ArithmeticOverflow);
    }
    let next = LendingPool {
        total_borrows: pool.total_borrows + amount,
        loans_issued: pool.loans_issued + 1,
        ..*pool
    };
    let loan = Loan {
        borrower,
        principal: amount,
        collateral: collateral_amount,
        start_time: now,
        duration: LOAN_DURATION_SECS,
        interest_rate: pool.interest_rate,
        status: LoanStatus::Active,
    };
    Ok((next, loan))
}

/// Takes a closed loan's principal off the pool's borrows.
fn close(pool: &LendingPool, loan: &Loan) -> (r: Result<LendingPool, LendingError>)
    ensures
        r == close_spec(*pool, *loan),
{
    if pool.total_borrows < loan.principal {
        Err(LendingError::Underflow)
    } else {
        Ok(LendingPool { total_borrows: pool.total_borrows - loan.principal, ..*pool })
    }
}

/// Repays `loan` with `amount` at `now`.
pub fn repay(pool: &LendingPool, loan: &Loan, amount: u64, now: i64) -> (r: Result<
    (LendingPool, Loan),
    LendingError,
>)
    ensures
        r == repay_spec(*pool, *loan, amount, now),
        pool.wf() ==> (r matches Ok((p, _)) ==> p.wf()),
{
    if loan.status != LoanStatus::Active {
        return Err(LendingError::LoanNotActive);
    }
    let owed = match accrued(loan.principal, loan.interest_rate, loan.start_time, now) {
        None => {
            return Err(LendingError::ArithmeticOverflow);
        },
        Some(v) => v,
    };
    if amount < owed {
        return Err(LendingError::InsufficientRepayment);
    }
    let next = close(pool, loan)?;
    Ok((next, Loan { status: LoanStatus::Repaid, ..*loan }))
}

/// Whether `loan` is past its deadline at `now`.
pub fn is_overdue(loan: &Loan, now: i64) -> (r: bool)
    ensures
        r == loan.overdue_at(now),
{
    (now as i128) > (loan.start_time as i128) + (loan.duration as i128)
}

/// Liquidates `loan` at `now`, given the collateral's current value if known.
pub fn liquidate(pool: &LendingPool, loan: &Loan, now: i64, valuation: Option<u64>) -> (r: Result<
    (LendingPool, Loan),
    LendingError,
>)
    ensures
        r == liquidate_spec(*pool, *loan, now, valuation),
        pool.wf() ==> (r matches Ok((p, _)) ==> p.wf()),
{
    if loan.status != LoanStatus::Active {
        return Err(LendingError::LoanNotActive);
    }
    if !is_overdue(loan, now) {
        match valuation {
            None => {
                return Err(LendingError::ValuationUnavailable);
            },
            Some(value) => {
                if (value as u128) >= required_collateral(loan.principal) {
                    return Err(LendingError::LoanNotEligibleForLiquidation);
                }
            },
        }
    }
    let next = close(pool, loan)?;
    Ok((next, Loan { status: LoanStatus::Liquidated, ..*loan }))
}

/// One transition that a pool can take.
pub enum PoolEvent {
    Deposit { amount: u64 },
    Borrow { amount: u64, collateral_amount: u64, borrower: [u8; 32], now: i64 },
    Repay { loan: Loan, amount: u64, now: i64 },
    Liquidate { loan: Loan, now: i64, valuation: Option<u64> },
}

/// The pool after `event`, or `None` if the event fails.
pub open spec fn apply_event(pool: LendingPool, event: PoolEvent) -> Option<LendingPool> {
    let r = match event {
        PoolEvent::Deposit { amount } => deposit_spec(pool, amount),
        PoolEvent::Borrow { amount, collateral_amount, borrower, now } => match borrow_spec(
            pool,
            amount,
            collateral_amount,
            borrower,
            now,
        ) {
            Ok((p, _)) => Ok(p),
            Err(e) => Err(e),
        },
        PoolEvent::Repay { loan, amount, now } => match repay_spec(pool, loan, amount, now) {
            Ok((p, _)) => Ok(p),
            Err(e) => Err(e),
        },
        PoolEvent::Liquidate { loan, now, valuation } => match liquidate_spec(
            pool,
            loan,
            now,
            valuation,
        ) {
            Ok((p, _)) => Ok(p),
            Err(e) => Err(e),
        },
    };
    match r {
        Ok(p) => Some(p),
        Err(_) => None,
    }
}

/// The pool reached from initialisation by `events`, where a failed event
/// leaves the pool as it was (the host discards a failed instruction).
pub open spec fn pool_after(events: Seq<PoolEvent>) -> LendingPool
    decreases events.len(),
{
    if events.len() == 0 {
        LendingPool::initial()
    } else {
        let before = pool_after(events.drop_last());
        match apply_event(before, events.last()) {
            Some(p) => p,
            None => before,
        }
    }
}

/// Solvency: every pool reachable from initialisation, by any sequence of
/// deposits, borrows, repayments and liquidations (each either applied or
/// failed), has `total_borrows <= total_deposits`.
pub proof fn lemma_reachable_pools_are_solvent(events: Seq<PoolEvent>)
    ensures
        pool_after(events).wf(),
    decreases events.len(),
{
    if events.len() > 0 {
        lemma_reachable_pools_are_solvent(events.drop_last());
    }
}

/// Loan status is one-way: repayment and liquidation succeed only on an
/// `Active` loan and leave it terminal, and a loan that is no longer active
/// cannot be repaid or liquidated again.
pub proof fn lemma_status_moves_one_way(
    pool: LendingPool,
    loan: Loan,
    amount: u64,
    now: i64,
    valuation: Option<u64>,
)
    ensures
        repay_spec(pool, loan, amount, now) matches Ok((_, l)) ==> loan.status
            == LoanStatus::Active && l.status == LoanStatus::Repaid && status_step(
            loan.status,
            l.status,
        ),
        liquidate_spec(pool, loan, now, valuation) matches Ok((_, l)) ==> loan.status
            == LoanStatus::Active && l.status == LoanStatus::Liquidated && status_step(
            loan.status,
            l.status,
        ),
        loan.status != LoanStatus::Active ==> repay_spec(pool, loan, amount, now) == Err::<
            (LendingPool, Loan),
            LendingError,
        >(LendingError::LoanNotActive) && liquidate_spec(pool, loan, now, valuation) == Err::<
            (LendingPool, Loan),
            LendingError,
        >(LendingError::LoanNotActive),
{
}

/// Round trip: after a deposit of `x`, a borrow of `y <= x` with enough
/// collateral succeeds; a payment of at least what the loan owes repays it;
/// and repaying it brings `total_borrows` (and `total_deposits`) back to
/// their values before the borrow.
pub proof fn lemma_borrow_repay_round_trip(
    pool: LendingPool,
    x: u64,
    y: u64,
    collateral_amount: u64,
    borrower: [u8; 32],
    start: i64,
    payment: u64,
    now: i64,
)
    requires
        pool.wf(),
        y <= x,
    ensures
        deposit_spec(pool, x) matches Ok(funded) ==> {
            &&& (collateral_amount >= required_spec(y) && funded.loans_issued < u64::MAX)
                ==> borrow_spec(funded, y, collateral_amount, borrower, start) is Ok
            &&& borrow_spec(funded, y, collateral_amount, borrower, start) matches Ok((lent, loan))
                ==> (repay_spec(lent, loan, payment, now) matches Ok((settled, _)) ==> settled.total_borrows
                == funded.total_borrows && settled.total_deposits == funded.total_deposits)
            &&& borrow_spec(funded, y, collateral_amount, borrower, start) matches Ok((lent, loan))
                ==> ((!accrual_overflows(y, lent.interest_rate, start, now) && payment >= accrued_spec(
                y,
                lent.interest_rate,
                start,
                now,
            )) ==> repay_spec(lent, loan, payment, now) is Ok)
        },
{
}

} // verus!

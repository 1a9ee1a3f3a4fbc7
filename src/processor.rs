use vstd::prelude::*;

use crate::address::{loan_address, loan_address_spec, pool_address, pool_address_spec, same_address, address_view};
use crate::codec::{
    decode_loan,
    decode_pool,
    encode_loan,
    encode_pool,
    holds_record,
    loan_bytes,
    loan_from_bytes,
    decode_pool_seed,
    pool_bytes,
    pool_from_bytes,
    pool_seed_from_bytes,
    written,
    LOAN_RECORD_LEN,
    POOL_RECORD_LEN,
};
use crate::instruction::{decode_instruction, instruction_from_bytes, LendingInstruction};
use crate::state::{
    borrow,
    borrow_spec,
    deposit,
    deposit_spec,
    liquidate,
    liquidate_spec,
    repay,
    repay_spec,
    LendingError,
    LendingPool,
};

verus! {

/// An account as the host hands it to an instruction: its address, the
/// program that owns it, the flags the host has verified, and its data.
#[derive(Clone, Debug)]
pub struct AccountState {
    pub key: [u8; 32],
    pub owner: [u8; 32],
    pub is_signer: bool,
    pub is_writable: bool,
    pub data: Vec<u8>,
}

/// What a transfer moves: the pool's lending currency or collateral.
#[derive(Clone, Copy, Debug, PartialEq, Eq, Structural)]
pub enum TransferKind {
    Liquidity,
    Collateral,
}

/// A movement of value that the host carries out once the instruction
/// succeeds.
#[derive(Clone, Copy, Debug)]
pub struct Transfer {
    pub kind: TransferKind,
    pub from: [u8; 32],
    pub to: [u8; 32],
    pub amount: u64,
}

/// Everything a successful instruction changes: the new data of the pool
/// account (at `pool_index`), of the loan account if it changes (at
/// `loan_index`), the transfers to perform, and the id of a new loan.
#[derive(Clone, Debug)]
pub struct Effects {
    pub pool_index: usize,
    pub pool_data: Vec<u8>,
    pub loan_index: usize,
    pub loan_data: Option<Vec<u8>>,
    pub transfers: Vec<Transfer>,
    pub loan_id: Option<u64>,
}

/// `Effects` as values.
pub struct EffectsModel {
    pub pool_index: int,
    pub pool_data: Seq<u8>,
    pub loan_index: int,
    pub loan_data: Option<Seq<u8>>,
    pub transfers: Seq<Transfer>,
    pub loan_id: Option<u64>,
}

impl View for Effects {
    type V = EffectsModel;

    open spec fn view(&self) -> EffectsModel {
        EffectsModel {
            pool_index: self.pool_index as int,
            pool_data: self.pool_data@,
            loan_index: self.loan_index as int,
            loan_data: match self.loan_data {
                Some(d) => Some(d@),
                None => None,
            },
            transfers: self.transfers@,
            loan_id: self.loan_id,
        }
    }
}

/// The outcome of an instruction as values.
pub open spec fn outcome(r: Result<Effects, LendingError>) -> Result<EffectsModel, LendingError> {
    match r {
        Ok(e) => Ok(e@),
        Err(x) => Err(x),
    }
}

/// Why an account cannot hold program state, if it cannot: this program
/// must own it and the host must let it be written.
pub open spec fn state_account_error(acc: AccountState, program_id: [u8; 32]) -> Option<LendingError> {
    if acc.owner@ != program_id@ {
        Some(LendingError::InvalidAccountOwner)
    } else if !acc.is_writable {
        Some(LendingError::NotWritable)
    } else {
        None
    }
}

/// Whether `derived` is an address and `acc` lives there.
pub open spec fn at_address(acc: AccountState, derived: Option<Seq<u8>>) -> bool {
    derived == Some(acc.key@)
}

/// `InitializeLendingPool(seed)` with accounts `[pool]`, where `derived` is
/// the address derived from `seed`.
pub open spec fn initialize_spec(
    accounts: Seq<AccountState>,
    program_id: [u8; 32],
    seed: u64,
    derived: Option<Seq<u8>>,
) -> Result<EffectsModel, LendingError> {
    if accounts.len() < 1 {
        Err(LendingError::InvalidAccountData)
    } else if state_account_error(accounts[0], program_id) is Some {
        Err(state_account_error(accounts[0], program_id)->Some_0)
    } else if !at_address(accounts[0], derived) {
        Err(LendingError::AddressMismatch)
    } else if holds_record(accounts[0].data@) {
        Err(LendingError::AlreadyInitialized)
    } else if accounts[0].data@.len() < POOL_RECORD_LEN {
        Err(LendingError::InvalidAccountData)
    } else {
        Ok(
            EffectsModel {
                pool_index: 0,
                pool_data: written(accounts[0].data@, pool_bytes(seed, LendingPool::initial())),
                loan_index: 0,
                loan_data: None,
                transfers: seq![],
                loan_id: None,
            },
        )
    }
}

/// Whether `acc` holds a pool and lives at `derived`, the address derived
/// from the seed in its record: so no other kind of record passes as a pool.
pub open spec fn is_pool_account(acc: AccountState, derived: Option<Seq<u8>>) -> bool {
    pool_from_bytes(acc.data@) is Some && at_address(acc, derived)
}

/// The new data of pool account `acc` once it holds `p`; the seed stays.
pub open spec fn pool_written(acc: AccountState, p: LendingPool) -> Seq<u8> {
    written(acc.data@, pool_bytes(pool_seed_from_bytes(acc.data@), p))
}

/// `Deposit(amount)` with accounts `[user, pool]`, where `pool_derived` is
/// the address derived from the seed in the pool's record; the user pays
/// `amount` into the pool.
pub open spec fn deposit_accounts_spec(
    accounts: Seq<AccountState>,
    program_id: [u8; 32],
    amount: u64,
    pool_derived: Option<Seq<u8>>,
) -> Result<EffectsModel, LendingError> {
    if accounts.len() < 2 {
        Err(LendingError::InvalidAccountData)
    } else if !accounts[0].is_signer {
        Err(LendingError::MissingSignature)
    } else if state_account_error(accounts[1], program_id) is Some {
        Err(state_account_error(accounts[1], program_id)->Some_0)
    } else if !is_pool_account(accounts[1], pool_derived) {
        Err(LendingError::InvalidAccountData)
    } else {
        match deposit_spec(pool_from_bytes(accounts[1].data@)->Some_0, amount) {
            Err(e) => Err(e),
            Ok(p) => Ok(
                EffectsModel {
                    pool_index: 1,
                    pool_data: pool_written(accounts[1], p),
                    loan_index: 0,
                    loan_data: None,
                    transfers: seq![
                        Transfer {
                            kind: TransferKind::Liquidity,
                            from: accounts[0].key,
                            to: accounts[1].key,
                            amount,
                        },
                    ],
                    loan_id: None,
                },
            ),
        }
    }
}

/// The checks shared by instructions whose accounts are `[user, pool, loan]`
/// or `[liquidator, borrower, pool, loan]`: `signer` signs, and the pool and
/// loan accounts can hold program state, and the pool account holds a pool
/// and lives at `pool_derived`, the address derived from its seed.
pub open spec fn loan_accounts_error(
    accounts: Seq<AccountState>,
    program_id: [u8; 32],
    signer: int,
    pool: int,
    loan: int,
    pool_derived: Option<Seq<u8>>,
) -> Option<LendingError> {
    if accounts.len() <= loan {
        Some(LendingError::InvalidAccountData)
    } else if !accounts[signer].is_signer {
        Some(LendingError::MissingSignature)
    } else if state_account_error(accounts[pool], program_id) is Some {
        state_account_error(accounts[pool], program_id)
    } else if state_account_error(accounts[loan], program_id) is Some {
        state_account_error(accounts[loan], program_id)
    } else if !is_pool_account(accounts[pool], pool_derived) {
        Some(LendingError::InvalidAccountData)
    } else {
        None
    }
}

/// `Borrow(amount, collateral_amount)` at `now` with accounts `[user, pool,
/// loan]`, where `derived` is the address derived for the pool's next loan
/// and `pool_derived` the one derived from the seed in the pool's record.
/// The user pledges the collateral and receives the amount.
pub open spec fn borrow_accounts_spec(
    accounts: Seq<AccountState>,
    program_id: [u8; 32],
    amount: u64,
    collateral_amount: u64,
    now: i64,
    pool_derived: Option<Seq<u8>>,
    derived: Option<Seq<u8>>,
) -> Result<EffectsModel, LendingError> {
    if loan_accounts_error(accounts, program_id, 0, 1, 2, pool_derived) is Some {
        Err(loan_accounts_error(accounts, program_id, 0, 1, 2, pool_derived)->Some_0)
    } else if !at_address(accounts[2], derived) {
        Err(LendingError::AddressMismatch)
    } else if holds_record(accounts[2].data@) {
        Err(LendingError::AlreadyInitialized)
    } else if accounts[2].data@.len() < LOAN_RECORD_LEN {
        Err(LendingError::InvalidAccountData)
    } else {
        let pool = pool_from_bytes(accounts[1].data@)->Some_0;
        match borrow_spec(pool, amount, collateral_amount, accounts[0].key, now) {
            Err(e) => Err(e),
            Ok((p, l)) => Ok(
                EffectsModel {
                    pool_index: 1,
                    pool_data: pool_written(accounts[1], p),
                    loan_index: 2,
                    loan_data: Some(written(accounts[2].data@, loan_bytes(l))),
                    transfers: seq![
                        Transfer {
                            kind: TransferKind::Collateral,
                            from: accounts[0].key,
                            to: accounts[1].key,
                            amount: collateral_amount,
                        },
                        Transfer {
                            kind: TransferKind::Liquidity,
                            from: accounts[1].key,
                            to: accounts[0].key,
                            amount,
                        },
                    ],
                    loan_id: Some(pool.loans_issued),
                },
            ),
        }
    }
}

/// Why loan `loan_id` cannot be found at account `loan`, where `derived` is
/// the address derived for it: no such loan was issued, the account is not
/// at its address, or it holds no loan.
pub open spec fn loan_lookup_error(
    accounts: Seq<AccountState>,
    pool: int,
    loan: int,
    loan_id: u64,
    derived: Option<Seq<u8>>,
) -> Option<LendingError> {
    if loan_id >= pool_from_bytes(accounts[pool].data@)->Some_0.loans_issued {
        Some(LendingError::LoanNotFound)
    } else if !at_address(accounts[loan], derived) {
        Some(LendingError::AddressMismatch)
    } else if loan_from_bytes(accounts[loan].data@) is None {
        Some(LendingError::LoanNotFound)
    } else {
        None
    }
}

/// `Repay(loan_id, amount)` at `now` with accounts `[user, pool, loan]`,
/// where `derived` is the address derived for the loan and `pool_derived`
/// the one derived from the seed in the pool's record. The user pays
/// `amount`; the collateral goes back to the borrower.
pub open spec fn repay_accounts_spec(
    accounts: Seq<AccountState>,
    program_id: [u8; 32],
    loan_id: u64,
    amount: u64,
    now: i64,
    pool_derived: Option<Seq<u8>>,
    derived: Option<Seq<u8>>,
) -> Result<EffectsModel, LendingError> {
    if loan_accounts_error(accounts, program_id, 0, 1, 2, pool_derived) is Some {
        Err(loan_accounts_error(accounts, program_id, 0, 1, 2, pool_derived)->Some_0)
    } else if loan_lookup_error(accounts, 1, 2, loan_id, derived) is Some {
        Err(loan_lookup_error(accounts, 1, 2, loan_id, derived)->Some_0)
    } else {
        let pool = pool_from_bytes(accounts[1].data@)->Some_0;
        let loan = loan_from_bytes(accounts[2].data@)->Some_0;
        match repay_spec(pool, loan, amount, now) {
            Err(e) => Err(e),
            Ok((p, l)) => Ok(
                EffectsModel {
                    pool_index: 1,
                    pool_data: pool_written(accounts[1], p),
                    loan_index: 2,
                    loan_data: Some(written(accounts[2].data@, loan_bytes(l))),
                    transfers: seq![
                        Transfer {
                            kind: TransferKind::Liquidity,
                            from: accounts[0].key,
                            to: accounts[1].key,
                            amount,
                        },
                        Transfer {
                            kind: TransferKind::Collateral,
                            from: accounts[1].key,
                            to: loan.borrower,
                            amount: loan.collateral,
                        },
                    ],
                    loan_id: None,
                },
            ),
        }
    }
}

/// `Liquidate(loan_id)` at `now` with accounts `[liquidator, borrower, pool,
/// loan]`, given the collateral's current value if known and the address
/// `derived` for the loan, and `pool_derived`, derived from the seed in the
/// pool's record. The collateral goes to the liquidator.
pub open spec fn liquidate_accounts_spec(
    accounts: Seq<AccountState>,
    program_id: [u8; 32],
    loan_id: u64,
    now: i64,
    valuation: Option<u64>,
    pool_derived: Option<Seq<u8>>,
    derived: Option<Seq<u8>>,
) -> Result<EffectsModel, LendingError> {
    if loan_accounts_error(accounts, program_id, 0, 2, 3, pool_derived) is Some {
        Err(loan_accounts_error(accounts, program_id, 0, 2, 3, pool_derived)->Some_0)
    } else if loan_lookup_error(accounts, 2, 3, loan_id, derived) is Some {
        Err(loan_lookup_error(accounts, 2, 3, loan_id, derived)->Some_0)
    } else if loan_from_bytes(accounts[3].data@)->Some_0.borrower@ != accounts[1].key@ {
        Err(LendingError::InvalidAccountData)
    } else {
        let pool = pool_from_bytes(accounts[2].data@)->Some_0;
        let loan = loan_from_bytes(accounts[3].data@)->Some_0;
        match liquidate_spec(pool, loan, now, valuation) {
            Err(e) => Err(e),
            Ok((p, l)) => Ok(
                EffectsModel {
                    pool_index: 2,
                    pool_data: pool_written(accounts[2], p),
                    loan_index: 3,
                    loan_data: Some(written(accounts[3].data@, loan_bytes(l))),
                    transfers: seq![
                        Transfer {
                            kind: TransferKind::Collateral,
                            from: accounts[2].key,
                            to: accounts[0].key,
                            amount: loan.collateral,
                        },
                    ],
                    loan_id: None,
                },
            ),
        }
    }
}

/// Copies `record` over the start of `data`, keeping the rest.
pub(crate) fn write_record(data: &Vec<u8>, record: Vec<u8>) -> (r: Vec<u8>)
    requires
        record@.len() <= data@.len(),
    ensures
        r@ == written(data@, record@),
{
    let mut out = record;
    let start = out.len();
    let mut tail = vstd::slice::slice_to_vec(
        vstd::slice::slice_subrange(data.as_slice(), start, data.len()),
    );
    out.append(&mut tail);
    out
}

/// Checks that an account can hold program state.
pub(crate) fn check_state_account(acc: &AccountState, program_id: &[u8; 32]) -> (r: Result<(), LendingError>)
    ensures
        r matches Err(e) ==> state_account_error(*acc, *program_id) == Some(e),
        r is Ok ==> state_account_error(*acc, *program_id) is None,
{
    if !same_address(&acc.owner, program_id) {
        Err(LendingError::InvalidAccountOwner)
    } else if !acc.is_writable {
        Err(LendingError::NotWritable)
    } else {
        Ok(())
    }
}

/// Whether `acc` lives at `derived`.
fn check_at(acc: &AccountState, derived: &Option<[u8; 32]>) -> (r: bool)
    ensures
        r == at_address(*acc, address_view(*derived)),
{
    match derived {
        Some(a) => same_address(a, &acc.key),
        None => false,
    }
}

/// Runs the checks of `loan_accounts_error` and returns the pool.
fn check_loan_accounts(
    accounts: &[AccountState],
    program_id: &[u8; 32],
    signer: usize,
    pool: usize,
    loan: usize,
    pool_derived: &Option<[u8; 32]>,
) -> (r: Result<(LendingPool, u64), LendingError>)
    requires
        signer < loan,
        pool < loan,
    ensures
        r matches Err(e) ==> loan_accounts_error(accounts@, *program_id, signer as int, pool as int, loan as int, address_view(*pool_derived)) == Some(e),
        r matches Ok((p, seed)) ==> loan_accounts_error(accounts@, *program_id, signer as int, pool as int, loan as int, address_view(*pool_derived)) is None
            && pool_from_bytes(accounts@[pool as int].data@) == Some(p)
            && pool_seed_from_bytes(accounts@[pool as int].data@) == seed,
{
    if accounts.len() <= loan {
        return Err(LendingError::InvalidAccountData);
    }
    if !accounts[signer].is_signer {
        return Err(LendingError::MissingSignature);
    }
    check_state_account(&accounts[pool], program_id)?;
    check_state_account(&accounts[loan], program_id)?;
    let p = match decode_pool(accounts[pool].data.as_slice()) {
        None => {
            return Err(LendingError::InvalidAccountData);
        },
        Some(p) => p,
    };
    if !check_at(&accounts[pool], pool_derived) {
        return Err(LendingError::InvalidAccountData);
    }
    Ok((p, decode_pool_seed(accounts[pool].data.as_slice())))
}

/// Runs the checks of `loan_lookup_error` and returns the loan.
fn lookup_loan(
    accounts: &[AccountState],
    pool_state: &LendingPool,
    pool: usize,
    loan: usize,
    loan_id: u64,
    derived: &Option<[u8; 32]>,
) -> (r: Result<crate::state::Loan, LendingError>)
    requires
        pool < accounts@.len(),
        loan < accounts@.len(),
        pool_from_bytes(accounts@[pool as int].data@) == Some(*pool_state),
    ensures
        r matches Err(e) ==> loan_lookup_error(accounts@, pool as int, loan as int, loan_id, address_view(*derived)) == Some(e),
        r matches Ok(l) ==> loan_lookup_error(accounts@, pool as int, loan as int, loan_id, address_view(*derived)) is None
            && loan_from_bytes(accounts@[loan as int].data@) == Some(l),
{
    if loan_id >= pool_state.loans_issued {
        return Err(LendingError::LoanNotFound);
    }
    if !check_at(&accounts[loan], derived) {
        return Err(LendingError::AddressMismatch);
    }
    match decode_loan(accounts[loan].data.as_slice()) {
        None => Err(LendingError::LoanNotFound),
        Some(l) => Ok(l),
    }
}

/// Initialises the pool made with `seed` in account `accounts[0]`, which
/// must live at `derived`, the address derived from `seed`.
pub fn initialize_pool_accounts(
    accounts: &[AccountState],
    program_id: &[u8; 32],
    seed: u64,
    derived: Option<[u8; 32]>,
) -> (r: Result<Effects, LendingError>)
    ensures
        outcome(r) == initialize_spec(accounts@, *program_id, seed, address_view(derived)),
{
    if accounts.len() < 1 {
        return Err(LendingError::InvalidAccountData);
    }
    let pool = &accounts[0];
    check_state_account(pool, program_id)?;
    if !check_at(pool, &derived) {
        return Err(LendingError::AddressMismatch);
    }
    if pool.data.len() > 0 && pool.data[0] != 0 {
        return Err(LendingError::AlreadyInitialized);
    }
    if pool.data.len() < POOL_RECORD_LEN {
        return Err(LendingError::InvalidAccountData);
    }
    let record = encode_pool(seed, &LendingPool::new());
    let e = Effects {
        pool_index: 0,
        pool_data: write_record(&pool.data, record),
        loan_index: 0,
        loan_data: None,
        transfers: Vec::new(),
        loan_id: None,
    };
    assert(e@.transfers =~= seq![]);
    Ok(e)
}

/// Applies `Deposit(amount)` to accounts `[user, pool]`, where
/// `pool_derived` is the address derived from the seed in the pool's record.
pub fn deposit_accounts(
    accounts: &[AccountState],
    program_id: &[u8; 32],
    amount: u64,
    pool_derived: Option<[u8; 32]>,
) -> (r: Result<Effects, LendingError>)
    ensures
        outcome(r) == deposit_accounts_spec(accounts@, *program_id, amount, address_view(pool_derived)),
{
    if accounts.len() < 2 {
        return Err(LendingError::InvalidAccountData);
    }
    if !accounts[0].is_signer {
        return Err(LendingError::MissingSignature);
    }
    check_state_account(&accounts[1], program_id)?;
    let pool = match decode_pool(accounts[1].data.as_slice()) {
        None => {
            return Err(LendingError::InvalidAccountData);
        },
        Some(p) => p,
    };
    if !check_at(&accounts[1], &pool_derived) {
        return Err(LendingError::InvalidAccountData);
    }
    let seed = decode_pool_seed(accounts[1].data.as_slice());
    let next = deposit(&pool, amount)?;
    let mut transfers: Vec<Transfer> = Vec::new();
    transfers.push(
        Transfer { kind: TransferKind::Liquidity, from: accounts[0].key, to: accounts[1].key, amount },
    );
    assert(transfers@ =~= seq![
        Transfer { kind: TransferKind::Liquidity, from: accounts@[0].key, to: accounts@[1].key, amount },
    ]);
    Ok(
        Effects {
            pool_index: 1,
            pool_data: write_record(&accounts[1].data, encode_pool(seed, &next)),
            loan_index: 0,
            loan_data: None,
            transfers,
            loan_id: None,
        },
    )
}

/// Applies `Borrow(amount, collateral_amount)` at `now` to accounts `[user,
/// pool, loan]`, where `derived` is the address derived for the pool's next
/// loan.
pub fn borrow_accounts(
    accounts: &[AccountState],
    program_id: &[u8; 32],
    amount: u64,
    collateral_amount: u64,
    now: i64,
    pool_derived: Option<[u8; 32]>,
    derived: Option<[u8; 32]>,
) -> (r: Result<Effects, LendingError>)
    ensures
        outcome(r) == borrow_accounts_spec(
            accounts@,
            *program_id,
            amount,
            collateral_amount,
            now,
            address_view(pool_derived),
            address_view(derived),
        ),
{
    let (pool, seed) = check_loan_accounts(accounts, program_id, 0, 1, 2, &pool_derived)?;
    let loan_acc = &accounts[2];
    if !check_at(loan_acc, &derived) {
        return Err(LendingError::AddressMismatch);
    }
    if loan_acc.data.len() > 0 && loan_acc.data[0] != 0 {
        return Err(LendingError::AlreadyInitialized);
    }
    if loan_acc.data.len() < LOAN_RECORD_LEN {
        return Err(LendingError::InvalidAccountData);
    }
    let user = accounts[0].key;
    let pool_key = accounts[1].key;
    let (next, loan) = borrow(&pool, amount, collateral_amount, user, now)?;
    let mut transfers: Vec<Transfer> = Vec::new();
    transfers.push(
        Transfer { kind: TransferKind::Collateral, from: user, to: pool_key, amount: collateral_amount },
    );
    transfers.push(Transfer { kind: TransferKind::Liquidity, from: pool_key, to: user, amount });
    assert(transfers@ =~= seq![
        Transfer { kind: TransferKind::Collateral, from: user, to: pool_key, amount: collateral_amount },
        Transfer { kind: TransferKind::Liquidity, from: pool_key, to: user, amount },
    ]);
    Ok(
        Effects {
            pool_index: 1,
            pool_data: write_record(&accounts[1].data, encode_pool(seed, &next)),
            loan_index: 2,
            loan_data: Some(write_record(&loan_acc.data, encode_loan(&loan))),
            transfers,
            loan_id: Some(pool.loans_issued),
        },
    )
}

/// Applies `Repay(loan_id, amount)` at `now` to accounts `[user, pool,
/// loan]`, where `derived` is the address derived for the loan and
/// `pool_derived` the one derived from the seed in the pool's record.
pub fn repay_accounts(
    accounts: &[AccountState],
    program_id: &[u8; 32],
    loan_id: u64,
    amount: u64,
    now: i64,
    pool_derived: Option<[u8; 32]>,
    derived: Option<[u8; 32]>,
) -> (r: Result<Effects, LendingError>)
    ensures
        outcome(r) == repay_accounts_spec(
            accounts@,
            *program_id,
            loan_id,
            amount,
            now,
            address_view(pool_derived),
            address_view(derived),
        ),
{
    let (pool, seed) = check_loan_accounts(accounts, program_id, 0, 1, 2, &pool_derived)?;
    let loan = lookup_loan(accounts, &pool, 1, 2, loan_id, &derived)?;
    let (next, closed) = repay(&pool, &loan, amount, now)?;
    let user = accounts[0].key;
    let pool_key = accounts[1].key;
    let mut transfers: Vec<Transfer> = Vec::new();
    transfers.push(Transfer { kind: TransferKind::Liquidity, from: user, to: pool_key, amount });
    transfers.push(
        Transfer {
            kind: TransferKind::Collateral,
            from: pool_key,
            to: loan.borrower,
            amount: loan.collateral,
        },
    );
    assert(transfers@ =~= seq![
        Transfer { kind: TransferKind::Liquidity, from: user, to: pool_key, amount },
        Transfer {
            kind: TransferKind::Collateral,
            from: pool_key,
            to: loan.borrower,
            amount: loan.collateral,
        },
    ]);
    Ok(
        Effects {
            pool_index: 1,
            pool_data: write_record(&accounts[1].data, encode_pool(seed, &next)),
            loan_index: 2,
            loan_data: Some(write_record(&accounts[2].data, encode_loan(&closed))),
            transfers,
            loan_id: None,
        },
    )
}

/// Applies `Liquidate(loan_id)` at `now` to accounts `[liquidator, borrower,
/// pool, loan]`, given the collateral's current value if known and the
/// address `derived` for the loan.
pub fn liquidate_accounts(
    accounts: &[AccountState],
    program_id: &[u8; 32],
    loan_id: u64,
    now: i64,
    valuation: Option<u64>,
    pool_derived: Option<[u8; 32]>,
    derived: Option<[u8; 32]>,
) -> (r: Result<Effects, LendingError>)
    ensures
        outcome(r) == liquidate_accounts_spec(
            accounts@,
            *program_id,
            loan_id,
            now,
            valuation,
            address_view(pool_derived),
            address_view(derived),
        ),
{
    let (pool, seed) = check_loan_accounts(accounts, program_id, 0, 2, 3, &pool_derived)?;
    let loan = lookup_loan(accounts, &pool, 2, 3, loan_id, &derived)?;
    if !same_address(&loan.borrower, &accounts[1].key) {
        return Err(LendingError::InvalidAccountData);
    }
    let (next, closed) = liquidate(&pool, &loan, now, valuation)?;
    let mut transfers: Vec<Transfer> = Vec::new();
    transfers.push(
        Transfer {
            kind: TransferKind::Collateral,
            from: accounts[2].key,
            to: accounts[0].key,
            amount: loan.collateral,
        },
    );
    assert(transfers@ =~= seq![
        Transfer {
            kind: TransferKind::Collateral,
            from: accounts@[2].key,
            to: accounts@[0].key,
            amount: loan.collateral,
        },
    ]);
    Ok(
        Effects {
            pool_index: 2,
            pool_data: write_record(&accounts[2].data, encode_pool(seed, &next)),
            loan_index: 3,
            loan_data: Some(write_record(&accounts[3].data, encode_loan(&closed))),
            transfers,
            loan_id: None,
        },
    )
}

/// The address derived for the next loan of the pool at `accounts[1]`, when
/// there are enough accounts and that one holds a pool.
pub open spec fn next_loan_address(accounts: Seq<AccountState>, program_id: [u8; 32]) -> Option<
    Seq<u8>,
> {
    if accounts.len() >= 3 && pool_from_bytes(accounts[1].data@) is Some {
        loan_address_spec(
            accounts[1].key@,
            pool_from_bytes(accounts[1].data@)->Some_0.loans_issued,
            program_id@,
        )
    } else {
        None
    }
}

/// The address derived for loan `loan_id` of the pool at `accounts[pool]`.
pub open spec fn loan_address_at(
    accounts: Seq<AccountState>,
    pool: int,
    loan_id: u64,
    program_id: [u8; 32],
) -> Option<Seq<u8>> {
    if accounts.len() > pool {
        loan_address_spec(accounts[pool].key@, loan_id, program_id@)
    } else {
        None
    }
}

/// The address derived from the seed in the pool record of `accounts[pool]`,
/// when there is such an account and it holds a pool.
pub open spec fn pool_address_at(accounts: Seq<AccountState>, pool: int, program_id: [u8; 32]) -> Option<
    Seq<u8>,
> {
    if 0 <= pool < accounts.len() && pool_from_bytes(accounts[pool].data@) is Some {
        pool_address_spec(pool_seed_from_bytes(accounts[pool].data@), program_id@)
    } else {
        None
    }
}

/// Derives the address that the pool record in `accounts[pool]` belongs at.
fn pool_address_of_record(accounts: &[AccountState], pool: usize, program_id: &[u8; 32]) -> (r:
    Option<[u8; 32]>)
    ensures
        address_view(r) == pool_address_at(accounts@, pool as int, *program_id),
{
    if pool < accounts.len() {
        if let Some(_) = decode_pool(accounts[pool].data.as_slice()) {
            return pool_address(decode_pool_seed(accounts[pool].data.as_slice()), program_id);
        }
    }
    None
}

/// An instruction buffer applied to `accounts` at `now`, given the
/// collateral's current value if known.
pub open spec fn process_spec(
    program_id: [u8; 32],
    accounts: Seq<AccountState>,
    data: Seq<u8>,
    now: i64,
    valuation: Option<u64>,
) -> Result<EffectsModel, LendingError> {
    match instruction_from_bytes(data) {
        None => Err(LendingError::DecodeError),
        Some(LendingInstruction::InitializeLendingPool { pool_seed }) => initialize_spec(
            accounts,
            program_id,
            pool_seed,
            pool_address_spec(pool_seed, program_id@),
        ),
        Some(LendingInstruction::Deposit { amount }) => deposit_accounts_spec(
            accounts,
            program_id,
            amount,
            pool_address_at(accounts, 1, program_id),
        ),
        Some(LendingInstruction::Borrow { amount, collateral_amount }) => borrow_accounts_spec(
            accounts,
            program_id,
            amount,
            collateral_amount,
            now,
            pool_address_at(accounts, 1, program_id),
            next_loan_address(accounts, program_id),
        ),
        Some(LendingInstruction::Repay { loan_id, amount }) => repay_accounts_spec(
            accounts,
            program_id,
            loan_id,
            amount,
            now,
            pool_address_at(accounts, 1, program_id),
            loan_address_at(accounts, 1, loan_id, program_id),
        ),
        Some(LendingInstruction::Liquidate { loan_id }) => liquidate_accounts_spec(
            accounts,
            program_id,
            loan_id,
            now,
            valuation,
            pool_address_at(accounts, 2, program_id),
            loan_address_at(accounts, 2, loan_id, program_id),
        ),
    }
}

/// Decodes an instruction and applies it to `accounts` at `now`. Nothing is
/// written here: on success the caller writes back the effects, and on
/// failure it writes nothing.
pub fn process_instruction(
    program_id: &[u8; 32],
    accounts: &[AccountState],
    data: &[u8],
    now: i64,
    valuation: Option<u64>,
) -> (r: Result<Effects, LendingError>)
    ensures
        outcome(r) == process_spec(*program_id, accounts@, data@, now, valuation),
{
    match decode_instruction(data) {
        None => Err(LendingError::DecodeError),
        Some(LendingInstruction::InitializeLendingPool { pool_seed }) => {
            initialize_pool_accounts(
                accounts,
                program_id,
                pool_seed,
                pool_address(pool_seed, program_id),
            )
        },
        Some(LendingInstruction::Deposit { amount }) => {
            let pool_derived = pool_address_of_record(accounts, 1, program_id);
            deposit_accounts(accounts, program_id, amount, pool_derived)
        },
        Some(LendingInstruction::Borrow { amount, collateral_amount }) => {
            let mut derived: Option<[u8; 32]> = None;
            if accounts.len() >= 3 {
                if let Some(pool) = decode_pool(accounts[1].data.as_slice()) {
                    derived = loan_address(&accounts[1].key, pool.loans_issued, program_id);
                }
            }
            let pool_derived = pool_address_of_record(accounts, 1, program_id);
            borrow_accounts(accounts, program_id, amount, collateral_amount, now, pool_derived, derived)
        },
        Some(LendingInstruction::Repay { loan_id, amount }) => {
            let derived = if accounts.len() > 1 {
                loan_address(&accounts[1].key, loan_id, program_id)
            } else {
                None
            };
            let pool_derived = pool_address_of_record(accounts, 1, program_id);
            repay_accounts(accounts, program_id, loan_id, amount, now, pool_derived, derived)
        },
        Some(LendingInstruction::Liquidate { loan_id }) => {
            let derived = if accounts.len() > 2 {
                loan_address(&accounts[2].key, loan_id, program_id)
            } else {
                None
            };
            let pool_derived = pool_address_of_record(accounts, 2, program_id);
            liquidate_accounts(accounts, program_id, loan_id, now, valuation, pool_derived, derived)
        },
    }
}

/// Initialisation is not idempotent: once it has succeeded, running it again
/// on the same pool account as written (`again`) fails with
/// `AlreadyInitialized`; as a failure it writes nothing, so the record stays
/// as it is.
pub proof fn lemma_initialize_twice_fails(
    accounts: Seq<AccountState>,
    again: Seq<AccountState>,
    program_id: [u8; 32],
    seed: u64,
    derived: Option<Seq<u8>>,
)
    requires
        initialize_spec(accounts, program_id, seed, derived) is Ok,
        again.len() >= 1,
        again[0].key == accounts[0].key,
        again[0].owner == accounts[0].owner,
        again[0].is_writable == accounts[0].is_writable,
        again[0].data@ == initialize_spec(accounts, program_id, seed, derived)->Ok_0.pool_data,
    ensures
        initialize_spec(again, program_id, seed, derived) == Err::<EffectsModel, LendingError>(
            LendingError::AlreadyInitialized,
        ),
{
    assert(again[0].data@[0] == crate::codec::POOL_TAG);
}

} // verus!

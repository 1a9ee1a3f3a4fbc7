use vstd::prelude::*;

use crate::state::{LendingPool, Loan, LoanStatus};
use vstd::bytes::{
    lemma_auto_spec_u32_to_from_le_bytes,
    lemma_auto_spec_u64_to_from_le_bytes,
    spec_u32_from_le_bytes,
    spec_u32_to_le_bytes,
    spec_u64_from_le_bytes,
    spec_u64_to_le_bytes,
    u32_from_le_bytes,
    u32_to_le_bytes,
    u64_from_le_bytes,
    u64_to_le_bytes,
};
use vstd::slice::slice_subrange;

verus! {

/// The first byte of a pool record (ASCII `P`); a zeroed account holds no
/// record.
pub const POOL_TAG: u8 = 0x50;

/// The first byte of a loan record (ASCII `L`).
pub const LOAN_TAG: u8 = 0x4c;

/// Bytes in an encoded pool: tag, seed, deposits, borrows, rate, loans
/// issued.
pub const POOL_RECORD_LEN: usize = 37;

/// Bytes in an encoded loan: tag, borrower, principal, collateral, start
/// time, duration, rate, status.
pub const LOAN_RECORD_LEN: usize = 70;

/// Whether an account's data holds a record of any kind.
pub open spec fn holds_record(data: Seq<u8>) -> bool {
    data.len() > 0 && data[0] != 0
}

/// An `i64` as the eight little-endian bytes of its two's-complement form.
pub open spec fn i64_bytes(x: i64) -> Seq<u8> {
    spec_u64_to_le_bytes(x as u64)
}

/// The `i64` held by eight little-endian bytes.
pub open spec fn i64_from_bytes(b: Seq<u8>) -> i64 {
    spec_u64_from_le_bytes(b) as i64
}

/// The byte that stands for a loan status.
pub open spec fn status_byte(s: LoanStatus) -> u8 {
    match s {
        LoanStatus::Active => 1,
        LoanStatus::Repaid => 2,
        LoanStatus::Liquidated => 3,
    }
}

/// The loan status a byte stands for.
pub open spec fn status_from_byte(b: u8) -> Option<LoanStatus> {
    if b == 1 {
        Some(LoanStatus::Active)
    } else if b == 2 {
        Some(LoanStatus::Repaid)
    } else if b == 3 {
        Some(LoanStatus::Liquidated)
    } else {
        None
    }
}

/// The encoding of the pool made with `seed`. The seed is kept so that the
/// pool's address can be derived again from the record.
pub open spec fn pool_bytes(seed: u64, p: LendingPool) -> Seq<u8> {
    seq![POOL_TAG] + spec_u64_to_le_bytes(seed) + spec_u64_to_le_bytes(p.total_deposits)
        + spec_u64_to_le_bytes(p.total_borrows) + spec_u32_to_le_bytes(p.interest_rate)
        + spec_u64_to_le_bytes(p.loans_issued)
}

/// The pool that account data holds: the pool tag, the seed, then the
/// fields.
pub open spec fn pool_from_bytes(d: Seq<u8>) -> Option<LendingPool> {
    if d.len() >= POOL_RECORD_LEN && d[0] == POOL_TAG {
        Some(
            LendingPool {
                total_deposits: spec_u64_from_le_bytes(d.subrange(9, 17)),
                total_borrows: spec_u64_from_le_bytes(d.subrange(17, 25)),
                interest_rate: spec_u32_from_le_bytes(d.subrange(25, 29)),
                loans_issued: spec_u64_from_le_bytes(d.subrange(29, 37)),
            },
        )
    } else {
        None
    }
}

/// The seed stored in a pool record.
pub open spec fn pool_seed_from_bytes(d: Seq<u8>) -> u64 {
    spec_u64_from_le_bytes(d.subrange(1, 9))
}

/// The encoding of a loan.
pub open spec fn loan_bytes(l: Loan) -> Seq<u8> {
    seq![LOAN_TAG] + l.borrower@ + spec_u64_to_le_bytes(l.principal) + spec_u64_to_le_bytes(
        l.collateral,
    ) + i64_bytes(l.start_time) + i64_bytes(l.duration) + spec_u32_to_le_bytes(l.interest_rate)
        + seq![status_byte(l.status)]
}

/// The loan that account data holds, if any.
pub open spec fn loan_from_bytes(d: Seq<u8>) -> Option<Loan> {
    if d.len() >= LOAN_RECORD_LEN && d[0] == LOAN_TAG && status_from_byte(d[69]) is Some {
        Some(
            Loan {
                borrower: address_at(d, 1),
                principal: spec_u64_from_le_bytes(d.subrange(33, 41)),
                collateral: spec_u64_from_le_bytes(d.subrange(41, 49)),
                start_time: i64_from_bytes(d.subrange(49, 57)),
                duration: i64_from_bytes(d.subrange(57, 65)),
                interest_rate: spec_u32_from_le_bytes(d.subrange(65, 69)),
                status: status_from_byte(d[69])->Some_0,
            },
        )
    } else {
        None
    }
}

/// The address held by the 32 bytes at `at`.
pub open spec fn address_at(d: Seq<u8>, at: int) -> [u8; 32] {
    choose|a: [u8; 32]| a@ == d.subrange(at, at + 32)
}

/// Account data after `record` is written over its start; the rest stays.
pub open spec fn written(data: Seq<u8>, record: Seq<u8>) -> Seq<u8> {
    record + data.subrange(record.len() as int, data.len() as int)
}

/// Appends `bytes` to `out`.
pub(crate) fn push_all(out: &mut Vec<u8>, bytes: Vec<u8>)
    ensures
        final(out)@ == old(out)@ + bytes@,
{
    let mut b = bytes;
    out.append(&mut b);
}

/// Encodes the pool made with `seed`.
pub fn encode_pool(seed: u64, p: &LendingPool) -> (r: Vec<u8>)
    ensures
        r@ == pool_bytes(seed, *p),
        r@.len() == POOL_RECORD_LEN,
{
    proof {
        lemma_auto_spec_u64_to_from_le_bytes();
        lemma_auto_spec_u32_to_from_le_bytes();
    }
    let mut out: Vec<u8> = vec![POOL_TAG];
    push_all(&mut out, u64_to_le_bytes(seed));
    push_all(&mut out, u64_to_le_bytes(p.total_deposits));
    push_all(&mut out, u64_to_le_bytes(p.total_borrows));
    push_all(&mut out, u32_to_le_bytes(p.interest_rate));
    push_all(&mut out, u64_to_le_bytes(p.loans_issued));
    out
}

/// Reads eight little-endian bytes at `at`.
pub(crate) fn read_u64(d: &[u8], at: usize) -> (r: u64)
    requires
        at + 8 <= d@.len(),
    ensures
        r == spec_u64_from_le_bytes(d@.subrange(at as int, at + 8)),
{
    let _n = d.len();
    u64_from_le_bytes(slice_subrange(d, at, at + 8))
}

/// Reads four little-endian bytes at `at`.
fn read_u32(d: &[u8], at: usize) -> (r: u32)
    requires
        at + 4 <= d@.len(),
    ensures
        r == spec_u32_from_le_bytes(d@.subrange(at as int, at + 4)),
{
    let _n = d.len();
    u32_from_le_bytes(slice_subrange(d, at, at + 4))
}

/// Decodes the pool that account data holds.
pub fn decode_pool(d: &[u8]) -> (r: Option<LendingPool>)
    ensures
        r == pool_from_bytes(d@),
{
    if d.len() < POOL_RECORD_LEN || d[0] != POOL_TAG {
        return None;
    }
    Some(
        LendingPool {
            total_deposits: read_u64(d, 9),
            total_borrows: read_u64(d, 17),
            interest_rate: read_u32(d, 25),
            loans_issued: read_u64(d, 29),
        },
    )
}

/// Reads the seed stored in a pool record.
pub fn decode_pool_seed(d: &[u8]) -> (r: u64)
    requires
        pool_from_bytes(d@) is Some,
    ensures
        r == pool_seed_from_bytes(d@),
{
    read_u64(d, 1)
}

/// Decoding an encoded pool gives it back, and its seed.
pub proof fn lemma_pool_round_trip(seed: u64, p: LendingPool)
    ensures
        pool_from_bytes(pool_bytes(seed, p)) == Some(p),
        pool_seed_from_bytes(pool_bytes(seed, p)) == seed,
{
    lemma_auto_spec_u64_to_from_le_bytes();
    lemma_auto_spec_u32_to_from_le_bytes();
    let b = pool_bytes(seed, p);
    assert(b.subrange(1, 9) =~= spec_u64_to_le_bytes(seed));
    assert(b.subrange(9, 17) =~= spec_u64_to_le_bytes(p.total_deposits));
    assert(b.subrange(17, 25) =~= spec_u64_to_le_bytes(p.total_borrows));
    assert(b.subrange(25, 29) =~= spec_u32_to_le_bytes(p.interest_rate));
    assert(b.subrange(29, 37) =~= spec_u64_to_le_bytes(p.loans_issued));
}

/// Pool and loan records are told apart by their first byte, so neither
/// decodes as the other.
pub proof fn lemma_record_kinds_differ(seed: u64, p: LendingPool, l: Loan)
    ensures
        loan_from_bytes(pool_bytes(seed, p)) is None,
        pool_from_bytes(loan_bytes(l)) is None,
{
}

/// Encodes an `i64` as the little-endian bytes of its two's-complement form.
fn i64_to_bytes(x: i64) -> (r: Vec<u8>)
    ensures
        r@ == i64_bytes(x),
{
    u64_to_le_bytes(x as u64)
}

/// Reads an `i64` from eight little-endian bytes at `at`.
fn read_i64(d: &[u8], at: usize) -> (r: i64)
    requires
        at + 8 <= d@.len(),
    ensures
        r == i64_from_bytes(d@.subrange(at as int, at + 8)),
{
    read_u64(d, at) as i64
}

/// The two's-complement bytes of an `i64` read back as it.
proof fn lemma_i64_round_trip(x: i64)
    ensures
        i64_from_bytes(i64_bytes(x)) == x,
{
    lemma_auto_spec_u64_to_from_le_bytes();
    assert(((x as u64) as i64) == x) by (bit_vector);
}

/// Encodes a loan.
pub fn encode_loan(l: &Loan) -> (r: Vec<u8>)
    ensures
        r@ == loan_bytes(*l),
        r@.len() == LOAN_RECORD_LEN,
{
    proof {
        lemma_auto_spec_u64_to_from_le_bytes();
        lemma_auto_spec_u32_to_from_le_bytes();
    }
    let mut out: Vec<u8> = vec![LOAN_TAG];
    push_all(&mut out, vstd::slice::slice_to_vec(vstd::array::array_as_slice(&l.borrower)));
    push_all(&mut out, u64_to_le_bytes(l.principal));
    push_all(&mut out, u64_to_le_bytes(l.collateral));
    push_all(&mut out, i64_to_bytes(l.start_time));
    push_all(&mut out, i64_to_bytes(l.duration));
    push_all(&mut out, u32_to_le_bytes(l.interest_rate));
    let status: u8 = match l.status {
        LoanStatus::Active => 1,
        LoanStatus::Repaid => 2,
        LoanStatus::Liquidated => 3,
    };
    out.push(status);
    out
}

/// Reads the 32 bytes at `at` into an address.
pub(crate) fn read_address(d: &[u8], at: usize) -> (r: [u8; 32])
    requires
        at + 32 <= d@.len(),
    ensures
        r@ == d@.subrange(at as int, at + 32),
{
    let n = d.len();
    let mut a: [u8; 32] = [0u8; 32];
    let mut i: usize = 0;
    while i < 32
        invariant
            0 <= i <= 32,
            at + 32 <= d@.len(),
            n == d@.len(),
            a@.len() == 32,
            forall|j: int| 0 <= j < i ==> a@[j] == d@[at + j],
        decreases 32 - i,
    {
        a[i] = d[at + i];
        i = i + 1;
    }
    assert(a@ =~= d@.subrange(at as int, at + 32));
    a
}

/// An address is determined by its bytes.
pub proof fn lemma_address_at(d: Seq<u8>, at: int, a: [u8; 32])
    requires
        a@ == d.subrange(at, at + 32),
    ensures
        address_at(d, at) == a,
{
    let c = address_at(d, at);
    assert(c@ == d.subrange(at, at + 32));
    assert(c =~= a);
}

/// Decodes the loan that account data holds.
pub fn decode_loan(d: &[u8]) -> (r: Option<Loan>)
    ensures
        r == loan_from_bytes(d@),
{
    if d.len() < LOAN_RECORD_LEN || d[0] != LOAN_TAG {
        return None;
    }
    let status = if d[69] == 1 {
        LoanStatus::Active
    } else if d[69] == 2 {
        LoanStatus::Repaid
    } else if d[69] == 3 {
        LoanStatus::Liquidated
    } else {
        return None;
    };
    let borrower = read_address(d, 1);
    proof {
        lemma_address_at(d@, 1, borrower);
    }
    Some(
        Loan {
            borrower,
            principal: read_u64(d, 33),
            collateral: read_u64(d, 41),
            start_time: read_i64(d, 49),
            duration: read_i64(d, 57),
            interest_rate: read_u32(d, 65),
            status,
        },
    )
}

/// Decoding an encoded loan gives it back.
pub proof fn lemma_loan_round_trip(l: Loan)
    ensures
        loan_from_bytes(loan_bytes(l)) == Some(l),
{
    lemma_auto_spec_u64_to_from_le_bytes();
    lemma_auto_spec_u32_to_from_le_bytes();
    lemma_i64_round_trip(l.start_time);
    lemma_i64_round_trip(l.duration);
    let b = loan_bytes(l);
    assert(b.len() == LOAN_RECORD_LEN);
    assert(b.subrange(1, 33) =~= l.borrower@);
    lemma_address_at(b, 1, l.borrower);
    assert(b.subrange(33, 41) =~= spec_u64_to_le_bytes(l.principal));
    assert(b.subrange(41, 49) =~= spec_u64_to_le_bytes(l.collateral));
    assert(b.subrange(49, 57) =~= i64_bytes(l.start_time));
    assert(b.subrange(57, 65) =~= i64_bytes(l.duration));
    assert(b.subrange(65, 69) =~= spec_u32_to_le_bytes(l.interest_rate));
    assert(b[69] == status_byte(l.status));
}

} // verus!

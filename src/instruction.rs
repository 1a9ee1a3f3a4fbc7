use vstd::prelude::*;

use vstd::bytes::{
    lemma_auto_spec_u64_to_from_le_bytes,
    spec_u64_from_le_bytes,
    spec_u64_to_le_bytes,
    u64_from_le_bytes,
    u64_to_le_bytes,
};
use vstd::slice::slice_subrange;

verus! {

/// The operations of the lending market.
#[derive(Clone, Copy, Debug, PartialEq, Eq, Structural)]
pub enum LendingInstruction {
    InitializeLendingPool { pool_seed: u64 },
    Deposit { amount: u64 },
    Borrow { amount: u64, collateral_amount: u64 },
    Repay { loan_id: u64, amount: u64 },
    Liquidate { loan_id: u64 },
}

/// The encoding of an instruction: a tag byte, then each field as eight
/// little-endian bytes.
pub open spec fn instruction_bytes(i: LendingInstruction) -> Seq<u8> {
    match i {
        LendingInstruction::InitializeLendingPool { pool_seed } => seq![0u8] + spec_u64_to_le_bytes(
            pool_seed,
        ),
        LendingInstruction::Deposit { amount } => seq![1u8] + spec_u64_to_le_bytes(amount),
        LendingInstruction::Borrow { amount, collateral_amount } => seq![2u8]
            + spec_u64_to_le_bytes(amount) + spec_u64_to_le_bytes(collateral_amount),
        LendingInstruction::Repay { loan_id, amount } => seq![3u8] + spec_u64_to_le_bytes(loan_id)
            + spec_u64_to_le_bytes(amount),
        LendingInstruction::Liquidate { loan_id } => seq![4u8] + spec_u64_to_le_bytes(loan_id),
    }
}

/// The first field of an instruction buffer.
pub open spec fn field_a(d: Seq<u8>) -> u64 {
    spec_u64_from_le_bytes(d.subrange(1, 9))
}

/// The second field of an instruction buffer.
pub open spec fn field_b(d: Seq<u8>) -> u64 {
    spec_u64_from_le_bytes(d.subrange(9, 17))
}

/// The instruction a buffer holds: a known tag followed by exactly its
/// fields, and nothing after them.
pub open spec fn instruction_from_bytes(d: Seq<u8>) -> Option<LendingInstruction> {
    if d.len() == 9 && d[0] == 0 {
        Some(LendingInstruction::InitializeLendingPool { pool_seed: field_a(d) })
    } else if d.len() == 9 && d[0] == 1 {
        Some(LendingInstruction::Deposit { amount: field_a(d) })
    } else if d.len() == 17 && d[0] == 2 {
        Some(LendingInstruction::Borrow { amount: field_a(d), collateral_amount: field_b(d) })
    } else if d.len() == 17 && d[0] == 3 {
        Some(LendingInstruction::Repay { loan_id: field_a(d), amount: field_b(d) })
    } else if d.len() == 9 && d[0] == 4 {
        Some(LendingInstruction::Liquidate { loan_id: field_a(d) })
    } else {
        None
    }
}

/// Reads the eight bytes at `at`.
fn read_field(d: &[u8], at: usize) -> (r: u64)
    requires
        at + 8 <= d@.len(),
    ensures
        r == spec_u64_from_le_bytes(d@.subrange(at as int, at + 8)),
{
    let _n = d.len();
    u64_from_le_bytes(slice_subrange(d, at, at + 8))
}

/// Decodes an instruction buffer.
pub fn decode_instruction(d: &[u8]) -> (r: Option<LendingInstruction>)
    ensures
        r == instruction_from_bytes(d@),
{
    let n = d.len();
    if n == 9 && d[0] == 0 {
        Some(LendingInstruction::InitializeLendingPool { pool_seed: read_field(d, 1) })
    } else if n == 9 && d[0] == 1 {
        Some(LendingInstruction::Deposit { amount: read_field(d, 1) })
    } else if n == 17 && d[0] == 2 {
        Some(
            LendingInstruction::Borrow {
                amount: read_field(d, 1),
                collateral_amount: read_field(d, 9),
            },
        )
    } else if n == 17 && d[0] == 3 {
        Some(LendingInstruction::Repay { loan_id: read_field(d, 1), amount: read_field(d, 9) })
    } else if n == 9 && d[0] == 4 {
        Some(LendingInstruction::Liquidate { loan_id: read_field(d, 1) })
    } else {
        None
    }
}

/// Encodes an instruction.
pub fn encode_instruction(i: &LendingInstruction) -> (r: Vec<u8>)
    ensures
        r@ == instruction_bytes(*i),
{
    let (tag, a, b): (u8, u64, Option<u64>) = match *i {
        LendingInstruction::InitializeLendingPool { pool_seed } => (0, pool_seed, None),
        LendingInstruction::Deposit { amount } => (1, amount, None),
        LendingInstruction::Borrow { amount, collateral_amount } => (
            2,
            amount,
            Some(collateral_amount),
        ),
        LendingInstruction::Repay { loan_id, amount } => (3, loan_id, Some(amount)),
        LendingInstruction::Liquidate { loan_id } => (4, loan_id, None),
    };
    let mut out: Vec<u8> = vec![tag];
    let mut first = u64_to_le_bytes(a);
    out.append(&mut first);
    if let Some(b) = b {
        let mut second = u64_to_le_bytes(b);
        out.append(&mut second);
    }
    out
}

/// Decoding an encoded instruction gives it back.
pub proof fn lemma_instruction_round_trip(i: LendingInstruction)
    ensures
        instruction_from_bytes(instruction_bytes(i)) == Some(i),
{
    lemma_auto_spec_u64_to_from_le_bytes();
    let d = instruction_bytes(i);
    match i {
        LendingInstruction::Borrow { amount, collateral_amount } => {
            assert(d.subrange(1, 9) =~= spec_u64_to_le_bytes(amount));
            assert(d.subrange(9, 17) =~= spec_u64_to_le_bytes(collateral_amount));
        },
        LendingInstruction::Repay { loan_id, amount } => {
            assert(d.subrange(1, 9) =~= spec_u64_to_le_bytes(loan_id));
            assert(d.subrange(9, 17) =~= spec_u64_to_le_bytes(amount));
        },
        LendingInstruction::InitializeLendingPool { pool_seed } => {
            assert(d.subrange(1, 9) =~= spec_u64_to_le_bytes(pool_seed));
        },
        LendingInstruction::Deposit { amount } => {
            assert(d.subrange(1, 9) =~= spec_u64_to_le_bytes(amount));
        },
        LendingInstruction::Liquidate { loan_id } => {
            assert(d.subrange(1, 9) =~= spec_u64_to_le_bytes(loan_id));
        },
    }
}

} // verus!

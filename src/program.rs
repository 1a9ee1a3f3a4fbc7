use vstd::prelude::*;

use crate::asset::{
    asset_instruction_from_bytes,
    asset_process_spec,
    decode_asset_instruction,
    process_asset_instruction,
};
use crate::processor::{process_instruction, process_spec, AccountState, Effects, EffectsModel};
use crate::state::LendingError;
use crate::user::{
    decode_user_instruction,
    process_user_instruction,
    user_instruction_from_bytes,
    user_process_spec,
};
use vstd::slice::slice_subrange;

verus! {

/// What a successful instruction of any subsystem changes: the lending
/// market's effects, or the new data of the one account that a registry
/// instruction writes (`accounts[0]`).
#[derive(Debug)]
pub enum Outcome {
    Lending(Effects),
    Record(Vec<u8>),
}

/// `Outcome` as values.
pub enum OutcomeModel {
    Lending(EffectsModel),
    Record(Seq<u8>),
}

/// The outcome of a routed instruction as values.
pub open spec fn routed(r: Result<Outcome, LendingError>) -> Result<OutcomeModel, LendingError> {
    match r {
        Ok(Outcome::Lending(e)) => Ok(OutcomeModel::Lending(e@)),
        Ok(Outcome::Record(d)) => Ok(OutcomeModel::Record(d@)),
        Err(x) => Err(x),
    }
}

/// An instruction buffer of the whole program applied to `accounts`: its
/// first byte picks the lending market (0), the user registry (1) or the
/// asset registry (2), and the rest is that subsystem's instruction.
pub open spec fn program_spec(
    program_id: [u8; 32],
    accounts: Seq<AccountState>,
    data: Seq<u8>,
    now: i64,
    valuation: Option<u64>,
) -> Result<OutcomeModel, LendingError> {
    if data.len() == 0 {
        Err(LendingError::DecodeError)
    } else {
        let rest = data.subrange(1, data.len() as int);
        if data[0] == 0 {
            match process_spec(program_id, accounts, rest, now, valuation) {
                Ok(e) => Ok(OutcomeModel::Lending(e)),
                Err(x) => Err(x),
            }
        } else if data[0] == 1 {
            match user_instruction_from_bytes(rest) {
                None => Err(LendingError::DecodeError),
                Some(op) => match user_process_spec(accounts, program_id, op) {
                    Ok(d) => Ok(OutcomeModel::Record(d)),
                    Err(x) => Err(x),
                },
            }
        } else if data[0] == 2 {
            match asset_instruction_from_bytes(rest) {
                None => Err(LendingError::DecodeError),
                Some(op) => match asset_process_spec(accounts, program_id, op) {
                    Ok(d) => Ok(OutcomeModel::Record(d)),
                    Err(x) => Err(x),
                },
            }
        } else {
            Err(LendingError::DecodeError)
        }
    }
}

/// The one entry point: routes an instruction buffer to the subsystem it
/// names and applies it to `accounts` at `now`, given the collateral's
/// current value if known. Nothing is written here; on failure the caller
/// writes nothing.
pub fn process(
    program_id: &[u8; 32],
    accounts: &[AccountState],
    data: &[u8],
    now: i64,
    valuation: Option<u64>,
) -> (r: Result<Outcome, LendingError>)
    ensures
        routed(r) == program_spec(*program_id, accounts@, data@, now, valuation),
{
    let n = data.len();
    if n == 0 {
        return Err(LendingError::DecodeError);
    }
    let rest = slice_subrange(data, 1, n);
    if data[0] == 0 {
        match process_instruction(program_id, accounts, rest, now, valuation) {
            Ok(e) => Ok(Outcome::Lending(e)),
            Err(x) => Err(x),
        }
    } else if data[0] == 1 {
        match decode_user_instruction(rest) {
            None => Err(LendingError::DecodeError),
            Some(i) => match process_user_instruction(accounts, program_id, i) {
                Ok(d) => Ok(Outcome::Record(d)),
                Err(x) => Err(x),
            },
        }
    } else if data[0] == 2 {
        match decode_asset_instruction(rest) {
            None => Err(LendingError::DecodeError),
            Some(i) => match process_asset_instruction(accounts, program_id, i) {
                Ok(d) => Ok(Outcome::Record(d)),
                Err(x) => Err(x),
            },
        }
    } else {
        Err(LendingError::DecodeError)
    }
}

} // verus!

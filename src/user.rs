use vstd::prelude::*;

use crate::codec::written;
use crate::processor::{state_account_error, AccountState};
use crate::state::LendingError;
use crate::text::{decode_text, encode_text, text_at, text_bytes, text_fits};
use vstd::bytes::{
    lemma_auto_spec_u32_to_from_le_bytes,
    spec_u32_from_le_bytes,
    spec_u32_to_le_bytes,
    u32_from_le_bytes,
    u32_to_le_bytes,
};
use vstd::slice::slice_subrange;

verus! {

broadcast use vstd::utf8::group_utf8_lib;

/// A registered user: a decentralised identifier, a reputation score and
/// whether identity checks have passed.
#[derive(Clone, Debug)]
pub struct User {
    pub did: String,
    pub reputation_score: u32,
    pub kyc_status: bool,
}

/// `User` as values.
pub struct UserModel {
    pub did: Seq<char>,
    pub reputation_score: u32,
    pub kyc_status: bool,
}

impl View for User {
    type V = UserModel;

    open spec fn view(&self) -> UserModel {
        UserModel {
            did: self.did@,
            reputation_score: self.reputation_score,
            kyc_status: self.kyc_status,
        }
    }
}

/// The operations of the user registry.
#[derive(Clone, Debug)]
pub enum UserInstruction {
    CreateUser { did: String },
    UpdateReputation { new_score: u32 },
    SetKycStatus { status: bool },
}

/// `UserInstruction` as values.
pub enum UserOp {
    Create(Seq<char>),
    Reputation(u32),
    Kyc(bool),
}

/// An instruction as values.
pub open spec fn user_op(i: UserInstruction) -> UserOp {
    match i {
        UserInstruction::CreateUser { did } => UserOp::Create(did@),
        UserInstruction::UpdateReputation { new_score } => UserOp::Reputation(new_score),
        UserInstruction::SetKycStatus { status } => UserOp::Kyc(status),
    }
}

/// The encoding of a user: identifier, score, and the flag as one byte.
pub open spec fn user_bytes(u: UserModel) -> Seq<u8> {
    text_bytes(u.did) + spec_u32_to_le_bytes(u.reputation_score) + seq![
        if u.kyc_status {
            1u8
        } else {
            0u8
        },
    ]
}

/// The user that account data holds, from its first byte on; bytes after
/// the record are left alone.
pub open spec fn user_from_bytes(d: Seq<u8>) -> Option<UserModel> {
    if text_at(d, 0) is Some {
        let (did, end) = text_at(d, 0)->Some_0;
        if end + 5 <= d.len() && (d[end + 4] == 0 || d[end + 4] == 1) {
            Some(
                UserModel {
                    did,
                    reputation_score: spec_u32_from_le_bytes(d.subrange(end, end + 4)),
                    kyc_status: d[end + 4] == 1,
                },
            )
        } else {
            None
        }
    } else {
        None
    }
}

/// The instruction a buffer holds: a tag, then the field, and nothing more.
pub open spec fn user_instruction_from_bytes(d: Seq<u8>) -> Option<UserOp> {
    if d.len() > 0 && d[0] == 0 && text_at(d, 1) is Some && text_at(d, 1)->Some_0.1 == d.len() {
        Some(UserOp::Create(text_at(d, 1)->Some_0.0))
    } else if d.len() == 5 && d[0] == 1 {
        Some(UserOp::Reputation(spec_u32_from_le_bytes(d.subrange(1, 5))))
    } else if d.len() == 2 && d[0] == 2 && (d[1] == 0 || d[1] == 1) {
        Some(UserOp::Kyc(d[1] == 1))
    } else {
        None
    }
}

/// A user instruction applied to accounts `[user]`: the new data of that
/// account.
pub open spec fn user_process_spec(
    accounts: Seq<AccountState>,
    program_id: [u8; 32],
    op: UserOp,
) -> Result<Seq<u8>, LendingError> {
    if accounts.len() < 1 {
        Err(LendingError::InvalidAccountData)
    } else if state_account_error(accounts[0], program_id) is Some {
        Err(state_account_error(accounts[0], program_id)->Some_0)
    } else {
        let data = accounts[0].data@;
        match op {
            UserOp::Create(did) => {
                let u = UserModel { did, reputation_score: 0, kyc_status: false };
                if !text_fits(did) || user_bytes(u).len() > data.len() {
                    Err(LendingError::InvalidAccountData)
                } else {
                    Ok(written(data, user_bytes(u)))
                }
            },
            UserOp::Reputation(score) => match user_from_bytes(data) {
                None => Err(LendingError::InvalidAccountData),
                Some(u) => Ok(written(data, user_bytes(UserModel { reputation_score: score, ..u }))),
            },
            UserOp::Kyc(status) => match user_from_bytes(data) {
                None => Err(LendingError::InvalidAccountData),
                Some(u) => Ok(written(data, user_bytes(UserModel { kyc_status: status, ..u }))),
            },
        }
    }
}

/// A new user: no reputation yet and identity checks not passed.
pub fn create_user(did: String) -> (r: User)
    ensures
        r@ == (UserModel { did: did@, reputation_score: 0, kyc_status: false }),
{
    User { did, reputation_score: 0, kyc_status: false }
}

/// Encodes a user, or `None` where the identifier is too long to encode.
pub fn encode_user(u: &User) -> (r: Option<Vec<u8>>)
    ensures
        r is Some <==> text_fits(u@.did),
        r matches Some(b) ==> b@ == user_bytes(u@),
{
    let mut out = encode_text(&u.did)?;
    let mut score = u32_to_le_bytes(u.reputation_score);
    out.append(&mut score);
    out.push(if u.kyc_status { 1u8 } else { 0u8 });
    Some(out)
}

/// Decodes the user that account data holds.
pub fn decode_user(d: &[u8]) -> (r: Option<User>)
    ensures
        match r {
            Some(u) => user_from_bytes(d@) == Some(u@),
            None => user_from_bytes(d@) is None,
        },
{
    let (did, end) = decode_text(d, 0)?;
    if d.len() < 5 || end > d.len() - 5 {
        return None;
    }
    let flag = d[end + 4];
    if flag != 0 && flag != 1 {
        return None;
    }
    let score = u32_from_le_bytes(slice_subrange(d, end, end + 4));
    Some(User { did, reputation_score: score, kyc_status: flag == 1 })
}

/// A decoded user's identifier encodes, and the user's record fits in the
/// data it came from.
proof fn lemma_decoded_user_fits(d: Seq<u8>)
    requires
        user_from_bytes(d) is Some,
    ensures
        text_fits(user_from_bytes(d)->Some_0.did),
        user_bytes(user_from_bytes(d)->Some_0).len() <= d.len(),
{
    lemma_auto_spec_u32_to_from_le_bytes();
    let (did, end) = text_at(d, 0)->Some_0;
    let n = spec_u32_from_le_bytes(d.subrange(0, 4));
    let b = d.subrange(4, 4 + n);
    assert(vstd::utf8::encode_utf8(did) == b);
}

/// Decodes a user instruction buffer.
pub fn decode_user_instruction(d: &[u8]) -> (r: Option<UserInstruction>)
    ensures
        match r {
            Some(i) => user_instruction_from_bytes(d@) == Some(user_op(i)),
            None => user_instruction_from_bytes(d@) is None,
        },
{
    let n = d.len();
    if n == 0 {
        return None;
    }
    if d[0] == 0 {
        let (did, end) = decode_text(d, 1)?;
        if end != n {
            return None;
        }
        Some(UserInstruction::CreateUser { did })
    } else if n == 5 && d[0] == 1 {
        Some(UserInstruction::UpdateReputation { new_score: u32_from_le_bytes(slice_subrange(d, 1, 5)) })
    } else if n == 2 && d[0] == 2 && (d[1] == 0 || d[1] == 1) {
        Some(UserInstruction::SetKycStatus { status: d[1] == 1 })
    } else {
        None
    }
}

/// Applies a user instruction to accounts `[user]` and returns the new data
/// of that account.
pub fn process_user_instruction(
    accounts: &[AccountState],
    program_id: &[u8; 32],
    instruction: UserInstruction,
) -> (r: Result<Vec<u8>, LendingError>)
    ensures
        match r {
            Ok(d) => user_process_spec(accounts@, *program_id, user_op(instruction)) == Ok::<Seq<u8>, LendingError>(d@),
            Err(e) => user_process_spec(accounts@, *program_id, user_op(instruction)) == Err::<Seq<u8>, LendingError>(e),
        },
{
    proof {
        lemma_auto_spec_u32_to_from_le_bytes();
    }
    if accounts.len() < 1 {
        return Err(LendingError::InvalidAccountData);
    }
    let acc = &accounts[0];
    crate::processor::check_state_account(acc, program_id)?;
    let next = match instruction {
        UserInstruction::CreateUser { did } => create_user(did),
        UserInstruction::UpdateReputation { new_score } => {
            let u = match decode_user(acc.data.as_slice()) {
                None => {
                    return Err(LendingError::InvalidAccountData);
                },
                Some(u) => u,
            };
            proof {
                lemma_decoded_user_fits(acc.data@);
            }
            let next = User { reputation_score: new_score, ..u };
            assert(user_bytes(next@).len() == user_bytes(u@).len());
            next
        },
        UserInstruction::SetKycStatus { status } => {
            let u = match decode_user(acc.data.as_slice()) {
                None => {
                    return Err(LendingError::InvalidAccountData);
                },
                Some(u) => u,
            };
            proof {
                lemma_decoded_user_fits(acc.data@);
            }
            let next = User { kyc_status: status, ..u };
            assert(user_bytes(next@).len() == user_bytes(u@).len());
            next
        },
    };
    let record = match encode_user(&next) {
        None => {
            return Err(LendingError::InvalidAccountData);
        },
        Some(b) => b,
    };
    if record.len() > acc.data.len() {
        return Err(LendingError::InvalidAccountData);
    }
    Ok(crate::processor::write_record(&acc.data, record))
}

} // verus!

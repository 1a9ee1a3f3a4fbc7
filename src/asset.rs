use vstd::prelude::*;

use crate::codec::{
    address_at,
    lemma_address_at,
    push_all,
    read_address,
    read_u64,
    written,
};
use crate::processor::{check_state_account, state_account_error, write_record, AccountState};
use crate::state::LendingError;
use crate::text::{decode_text, encode_text, text_at, text_bytes, text_fits};
use vstd::bytes::{lemma_auto_spec_u64_to_from_le_bytes, spec_u64_from_le_bytes, spec_u64_to_le_bytes, u64_to_le_bytes};

verus! {

broadcast use vstd::utf8::group_utf8_lib;

/// A fungible holding: a token and how much of it.
#[derive(Clone, Copy, Debug)]
pub struct DigitalAsset {
    pub token_address: [u8; 32],
    pub amount: u64,
}

/// A tokenised physical item: its NFT and where its metadata lives.
#[derive(Clone, Debug)]
pub struct PhysicalAsset {
    pub nft_address: [u8; 32],
    pub metadata_uri: String,
}

/// A registered asset.
#[derive(Clone, Debug)]
pub enum Asset {
    Digital(DigitalAsset),
    Physical(PhysicalAsset),
}

/// `Asset` as values.
pub enum AssetModel {
    Digital { token_address: [u8; 32], amount: u64 },
    Physical { nft_address: [u8; 32], metadata_uri: Seq<char> },
}

impl View for Asset {
    type V = AssetModel;

    open spec fn view(&self) -> AssetModel {
        match self {
            Asset::Digital(d) => AssetModel::Digital { token_address: d.token_address, amount: d.amount },
            Asset::Physical(p) => AssetModel::Physical {
                nft_address: p.nft_address,
                metadata_uri: p.metadata_uri@,
            },
        }
    }
}

/// The operations of the asset registry.
#[derive(Clone, Debug)]
pub enum AssetInstruction {
    CreateDigitalAsset { token_address: [u8; 32], amount: u64 },
    CreatePhysicalAsset { nft_address: [u8; 32], metadata_uri: String },
    UpdateAssetAmount { new_amount: u64 },
}

/// `AssetInstruction` as values: an asset to create, or a new amount.
pub enum AssetOp {
    Create(AssetModel),
    UpdateAmount(u64),
}

/// An instruction as values.
pub open spec fn asset_op(i: AssetInstruction) -> AssetOp {
    match i {
        AssetInstruction::CreateDigitalAsset { token_address, amount } => AssetOp::Create(
            AssetModel::Digital { token_address, amount },
        ),
        AssetInstruction::CreatePhysicalAsset { nft_address, metadata_uri } => AssetOp::Create(
            AssetModel::Physical { nft_address, metadata_uri: metadata_uri@ },
        ),
        AssetInstruction::UpdateAssetAmount { new_amount } => AssetOp::UpdateAmount(new_amount),
    }
}

/// The encoding of an asset: its kind byte, then its fields.
pub open spec fn asset_fields(a: AssetModel) -> Seq<u8> {
    match a {
        AssetModel::Digital { token_address, amount } => seq![0u8] + token_address@
            + spec_u64_to_le_bytes(amount),
        AssetModel::Physical { nft_address, metadata_uri } => seq![1u8] + nft_address@ + text_bytes(
            metadata_uri,
        ),
    }
}

/// Whether an asset can be encoded.
pub open spec fn asset_fits(a: AssetModel) -> bool {
    match a {
        AssetModel::Digital { .. } => true,
        AssetModel::Physical { metadata_uri, .. } => text_fits(metadata_uri),
    }
}

/// The asset whose fields start at `at` (just after a tag byte), and where
/// they end.
pub open spec fn asset_fields_at(d: Seq<u8>, at: int) -> Option<(AssetModel, int)> {
    if at < 1 || at > d.len() || at + 32 > d.len() {
        None
    } else if d[at - 1] == 0 && at + 40 <= d.len() {
        Some(
            (
                AssetModel::Digital {
                    token_address: address_at(d, at),
                    amount: spec_u64_from_le_bytes(d.subrange(at + 32, at + 40)),
                },
                at + 40,
            ),
        )
    } else if d[at - 1] == 1 && text_at(d, at + 32) is Some {
        Some(
            (
                AssetModel::Physical {
                    nft_address: address_at(d, at),
                    metadata_uri: text_at(d, at + 32)->Some_0.0,
                },
                text_at(d, at + 32)->Some_0.1,
            ),
        )
    } else {
        None
    }
}

/// The asset that account data holds, from its first byte on; bytes after
/// the record are left alone.
pub open spec fn asset_from_bytes(d: Seq<u8>) -> Option<AssetModel> {
    if asset_fields_at(d, 1) is Some {
        Some(asset_fields_at(d, 1)->Some_0.0)
    } else {
        None
    }
}

/// The instruction a buffer holds: a tag, then the fields, and nothing more.
pub open spec fn asset_instruction_from_bytes(d: Seq<u8>) -> Option<AssetOp> {
    if d.len() == 9 && d[0] == 2 {
        Some(AssetOp::UpdateAmount(spec_u64_from_le_bytes(d.subrange(1, 9))))
    } else if d.len() >= 1 && (d[0] == 0 || d[0] == 1) && asset_fields_at(d, 1) is Some
        && asset_fields_at(d, 1)->Some_0.1 == d.len() {
        Some(AssetOp::Create(asset_fields_at(d, 1)->Some_0.0))
    } else {
        None
    }
}

/// An asset instruction applied to accounts `[asset]`: the new data of that
/// account. Only a digital asset has an amount to update.
pub open spec fn asset_process_spec(
    accounts: Seq<AccountState>,
    program_id: [u8; 32],
    op: AssetOp,
) -> Result<Seq<u8>, LendingError> {
    if accounts.len() < 1 {
        Err(LendingError::InvalidAccountData)
    } else if state_account_error(accounts[0], program_id) is Some {
        Err(state_account_error(accounts[0], program_id)->Some_0)
    } else {
        let data = accounts[0].data@;
        match op {
            AssetOp::Create(a) => {
                if !asset_fits(a) || asset_fields(a).len() > data.len() {
                    Err(LendingError::InvalidAccountData)
                } else {
                    Ok(written(data, asset_fields(a)))
                }
            },
            AssetOp::UpdateAmount(amount) => match asset_from_bytes(data) {
                Some(AssetModel::Digital { token_address, .. }) => Ok(
                    written(data, asset_fields(AssetModel::Digital { token_address, amount })),
                ),
                _ => Err(LendingError::InvalidAccountData),
            },
        }
    }
}

/// Encodes an asset record, or `None` where its text is too long.
pub fn encode_asset(a: &Asset) -> (r: Option<Vec<u8>>)
    ensures
        r is Some <==> asset_fits(a@),
        r matches Some(b) ==> b@ == asset_fields(a@),
{
    match a {
        Asset::Digital(d) => {
            let mut out: Vec<u8> = vec![0u8];
            push_all(&mut out, vstd::slice::slice_to_vec(vstd::array::array_as_slice(&d.token_address)));
            push_all(&mut out, u64_to_le_bytes(d.amount));
            Some(out)
        },
        Asset::Physical(p) => {
            let mut out: Vec<u8> = vec![1u8];
            push_all(&mut out, vstd::slice::slice_to_vec(vstd::array::array_as_slice(&p.nft_address)));
            let uri = encode_text(&p.metadata_uri)?;
            push_all(&mut out, uri);
            Some(out)
        },
    }
}

/// Decodes the asset whose fields start at `at`, after its tag byte.
fn decode_asset_fields(d: &[u8], at: usize) -> (r: Option<(Asset, usize)>)
    requires
        at >= 1,
    ensures
        match r {
            Some((a, end)) => asset_fields_at(d@, at as int) == Some((a@, end as int)),
            None => asset_fields_at(d@, at as int) is None,
        },
{
    let n = d.len();
    if at > n || n - at < 32 {
        return None;
    }
    let address = read_address(d, at);
    proof {
        lemma_address_at(d@, at as int, address);
    }
    if d[at - 1] == 0 && n - at >= 40 {
        let amount = read_u64(d, at + 32);
        Some((Asset::Digital(DigitalAsset { token_address: address, amount }), at + 40))
    } else if d[at - 1] == 1 {
        let (uri, end) = decode_text(d, at + 32)?;
        Some((Asset::Physical(PhysicalAsset { nft_address: address, metadata_uri: uri }), end))
    } else {
        None
    }
}

/// Decodes the asset that account data holds.
pub fn decode_asset(d: &[u8]) -> (r: Option<Asset>)
    ensures
        match r {
            Some(a) => asset_from_bytes(d@) == Some(a@),
            None => asset_from_bytes(d@) is None,
        },
{
    let (a, _end) = decode_asset_fields(d, 1)?;
    Some(a)
}

/// Decodes an asset instruction buffer.
pub fn decode_asset_instruction(d: &[u8]) -> (r: Option<AssetInstruction>)
    ensures
        match r {
            Some(i) => asset_instruction_from_bytes(d@) == Some(asset_op(i)),
            None => asset_instruction_from_bytes(d@) is None,
        },
{
    let n = d.len();
    if n == 9 && d[0] == 2 {
        return Some(AssetInstruction::UpdateAssetAmount { new_amount: read_u64(d, 1) });
    }
    if n < 1 || (d[0] != 0 && d[0] != 1) {
        return None;
    }
    let (a, end) = decode_asset_fields(d, 1)?;
    if end != n {
        return None;
    }
    match a {
        Asset::Digital(x) => Some(
            AssetInstruction::CreateDigitalAsset { token_address: x.token_address, amount: x.amount },
        ),
        Asset::Physical(p) => Some(
            AssetInstruction::CreatePhysicalAsset {
                nft_address: p.nft_address,
                metadata_uri: p.metadata_uri,
            },
        ),
    }
}

/// Applies an asset instruction to accounts `[asset]` and returns the new
/// data of that account.
pub fn process_asset_instruction(
    accounts: &[AccountState],
    program_id: &[u8; 32],
    instruction: AssetInstruction,
) -> (r: Result<Vec<u8>, LendingError>)
    ensures
        match r {
            Ok(d) => asset_process_spec(accounts@, *program_id, asset_op(instruction)) == Ok::<Seq<u8>, LendingError>(d@),
            Err(e) => asset_process_spec(accounts@, *program_id, asset_op(instruction)) == Err::<Seq<u8>, LendingError>(e),
        },
{
    proof {
        lemma_auto_spec_u64_to_from_le_bytes();
    }
    if accounts.len() < 1 {
        return Err(LendingError::InvalidAccountData);
    }
    let acc = &accounts[0];
    check_state_account(acc, program_id)?;
    let next = match instruction {
        AssetInstruction::CreateDigitalAsset { token_address, amount } => {
            Asset::Digital(DigitalAsset { token_address, amount })
        },
        AssetInstruction::CreatePhysicalAsset { nft_address, metadata_uri } => {
            Asset::Physical(PhysicalAsset { nft_address, metadata_uri })
        },
        AssetInstruction::UpdateAssetAmount { new_amount } => {
            match decode_asset(acc.data.as_slice()) {
                Some(Asset::Digital(d)) => {
                    let next = Asset::Digital(DigitalAsset { amount: new_amount, ..d });
                    assert(asset_fields(next@).len() <= acc.data@.len());
                    next
                },
                _ => {
                    return Err(LendingError::InvalidAccountData);
                },
            }
        },
    };
    let record = match encode_asset(&next) {
        None => {
            return Err(LendingError::InvalidAccountData);
        },
        Some(b) => b,
    };
    if record.len() > acc.data.len() {
        return Err(LendingError::InvalidAccountData);
    }
    Ok(write_record(&acc.data, record))
}

} // verus!

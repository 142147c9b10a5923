//! The wire format: flat, fixed-offset binary instruction payloads with
//! little-endian integers and fixed-width byte fields, no length prefixes.
//! Each parser checks the payload's declared length and reads every field at
//! its fixed offset; its contract pins each field to the exact bytes it came
//! from.
use vstd::prelude::*;

use vstd::bytes::{spec_u64_from_le_bytes, u64_from_le_bytes};
use vstd::slice::{slice_subrange, slice_to_vec};

use crate::errors::TreasuryError;
use crate::proposal::{stream_type_from_u8, StreamType, VoteKind};

verus! {

/// The instruction set, one discriminant byte each, in wire order. The last
/// four are declared for a later phase and decode but have no handler.
#[derive(Clone, Copy, Debug, PartialEq, Eq, Structural)]
pub enum MultiSignatureInstructions {
    InitMultisigVault,
    AddMember,
    CreateStreamProposal,
    VoteOnProposal,
    DepositTokens,
    ExecuteApprovedProposal,
    ClaimStreamPayment,
    RemoveMember,
    UpdateThreshold,
    PauseResumeStream,
    EmergencyPause,
}

/// The wire value of each instruction; `None` for an out-of-range byte.
pub open spec fn instruction_from_u8(value: u8) -> Option<MultiSignatureInstructions> {
    if value == 0 {
        Some(MultiSignatureInstructions::InitMultisigVault)
    } else if value == 1 {
        Some(MultiSignatureInstructions::AddMember)
    } else if value == 2 {
        Some(MultiSignatureInstructions::CreateStreamProposal)
    } else if value == 3 {
        Some(MultiSignatureInstructions::VoteOnProposal)
    } else if value == 4 {
        Some(MultiSignatureInstructions::DepositTokens)
    } else if value == 5 {
        Some(MultiSignatureInstructions::ExecuteApprovedProposal)
    } else if value == 6 {
        Some(MultiSignatureInstructions::ClaimStreamPayment)
    } else if value == 7 {
        Some(MultiSignatureInstructions::RemoveMember)
    } else if value == 8 {
        Some(MultiSignatureInstructions::UpdateThreshold)
    } else if value == 9 {
        Some(MultiSignatureInstructions::PauseResumeStream)
    } else if value == 10 {
        Some(MultiSignatureInstructions::EmergencyPause)
    } else {
        None
    }
}

impl MultiSignatureInstructions {
    /// Decodes an instruction from its discriminant byte.
    pub fn try_from(value: &u8) -> (r: Result<MultiSignatureInstructions, TreasuryError>)
        ensures
            match r {
                Ok(ix) => instruction_from_u8(*value) == Some(ix),
                Err(e) => instruction_from_u8(*value) is None && e
                    == TreasuryError::InvalidInstructionData,
            },
    {
        match *value {
            0 => Ok(MultiSignatureInstructions::InitMultisigVault),
            1 => Ok(MultiSignatureInstructions::AddMember),
            2 => Ok(MultiSignatureInstructions::CreateStreamProposal),
            3 => Ok(MultiSignatureInstructions::VoteOnProposal),
            4 => Ok(MultiSignatureInstructions::DepositTokens),
            5 => Ok(MultiSignatureInstructions::ExecuteApprovedProposal),
            6 => Ok(MultiSignatureInstructions::ClaimStreamPayment),
            7 => Ok(MultiSignatureInstructions::RemoveMember),
            8 => Ok(MultiSignatureInstructions::UpdateThreshold),
            9 => Ok(MultiSignatureInstructions::PauseResumeStream),
            10 => Ok(MultiSignatureInstructions::EmergencyPause),
            _ => Err(TreasuryError::InvalidInstructionData),
        }
    }
}

/// The signed value of eight little-endian bytes, as two's complement.
pub open spec fn spec_i64_from_le_bytes(s: Seq<u8>) -> int {
    let u = spec_u64_from_le_bytes(s) as int;
    if u < 0x8000_0000_0000_0000 {
        u
    } else {
        u - 0x1_0000_0000_0000_0000
    }
}

/// Reads a little-endian `u64` at `offset`.
pub fn read_u64(data: &[u8], offset: usize) -> (r: u64)
    requires
        offset + 8 <= data@.len(),
    ensures
        r == spec_u64_from_le_bytes(data@.subrange(offset as int, offset + 8)),
{
    proof {
        assert(data@.len() == vstd::slice::spec_slice_len(data));
    }
    let s = slice_subrange(data, offset, offset + 8);
    u64_from_le_bytes(s)
}

/// Reads a little-endian `i64` at `offset`.
pub fn read_i64(data: &[u8], offset: usize) -> (r: i64)
    requires
        offset + 8 <= data@.len(),
    ensures
        r as int == spec_i64_from_le_bytes(data@.subrange(offset as int, offset + 8)),
{
    let u = read_u64(data, offset);
    if u < 0x8000_0000_0000_0000u64 {
        u as i64
    } else {
        ((u as i128) - 0x1_0000_0000_0000_0000i128) as i64
    }
}

/// Copies the `len` bytes at `offset` into a fresh vector.
pub fn read_bytes(data: &[u8], offset: usize, len: usize) -> (r: Vec<u8>)
    requires
        offset + len <= data@.len(),
    ensures
        r@ == data@.subrange(offset as int, offset + len),
{
    proof {
        assert(data@.len() == vstd::slice::spec_slice_len(data));
    }
    let s = slice_subrange(data, offset, offset + len);
    slice_to_vec(s)
}

/// The fields of an `InitMultisigVault` payload (132 bytes).
#[derive(Debug)]
pub struct InitVaultArgs {
    pub multisig_id: u64,
    /// Fixed 12-byte name field.
    pub name: Vec<u8>,
    /// Fixed 80-byte description field.
    pub description: Vec<u8>,
    pub member_count: u64,
    pub threshold: u64,
    pub proposal_expiry: i64,
    pub minimum_balance: u64,
}

/// Parses an `InitMultisigVault` payload:
/// `[multisig_id:u64][name:12B][description:80B][member_count:u64][threshold:u64][proposal_expiry:i64][minimum_balance:u64]`.
pub fn parse_init_multisig_vault(data: &[u8]) -> (r: Result<InitVaultArgs, TreasuryError>)
    ensures
        match r {
            Ok(a) => {
                &&& data@.len() >= 132
                &&& a.multisig_id == spec_u64_from_le_bytes(data@.subrange(0, 8))
                &&& a.name@ == data@.subrange(8, 20)
                &&& a.description@ == data@.subrange(20, 100)
                &&& a.member_count == spec_u64_from_le_bytes(data@.subrange(100, 108))
                &&& a.threshold == spec_u64_from_le_bytes(data@.subrange(108, 116))
                &&& a.proposal_expiry as int == spec_i64_from_le_bytes(data@.subrange(116, 124))
                &&& a.minimum_balance == spec_u64_from_le_bytes(data@.subrange(124, 132))
            },
            Err(e) => data@.len() < 132 && e == TreasuryError::InvalidInstructionData,
        },
{
    if data.len() < 132 {
        return Err(TreasuryError::InvalidInstructionData);
    }
    Ok(
        InitVaultArgs {
            multisig_id: read_u64(data, 0),
            name: read_bytes(data, 8, 12),
            description: read_bytes(data, 20, 80),
            member_count: read_u64(data, 100),
            threshold: read_u64(data, 108),
            proposal_expiry: read_i64(data, 116),
            minimum_balance: read_u64(data, 124),
        },
    )
}

/// The fields of an `AddMember` payload (8 bytes).
#[derive(Debug)]
pub struct AddMemberArgs {
    pub multisig_id: u64,
}

/// Parses an `AddMember` payload: `[multisig_id:u64]`.
pub fn parse_add_member(data: &[u8]) -> (r: Result<AddMemberArgs, TreasuryError>)
    ensures
        match r {
            Ok(a) => data@.len() >= 8 && a.multisig_id == spec_u64_from_le_bytes(
                data@.subrange(0, 8),
            ),
            Err(e) => data@.len() < 8 && e == TreasuryError::InvalidInstructionData,
        },
{
    if data.len() < 8 {
        return Err(TreasuryError::InvalidInstructionData);
    }
    Ok(AddMemberArgs { multisig_id: read_u64(data, 0) })
}

/// The fields of a `CreateStreamProposal` payload (186 bytes).
#[derive(Debug)]
pub struct CreateProposalArgs {
    pub proposal_id: u64,
    pub multisig_id: u64,
    pub stream_type: StreamType,
    pub required_threshold: u8,
    pub voting_deadline: i64,
    /// Fixed 32-byte name field.
    pub stream_name: Vec<u8>,
    /// Fixed 128-byte description field.
    pub stream_description: Vec<u8>,
}

/// Parses a `CreateStreamProposal` payload:
/// `[proposal_id:u64][multisig_id:u64][stream_type:u8][required_threshold:u8][voting_deadline:i64][stream_name:32B][stream_description:128B]`.
pub fn parse_create_stream_proposal(data: &[u8]) -> (r: Result<
    CreateProposalArgs,
    TreasuryError,
>)
    ensures
        match r {
            Ok(a) => {
                &&& data@.len() >= 186
                &&& a.proposal_id == spec_u64_from_le_bytes(data@.subrange(0, 8))
                &&& a.multisig_id == spec_u64_from_le_bytes(data@.subrange(8, 16))
                &&& stream_type_from_u8(data@[16]) == Some(a.stream_type)
                &&& a.required_threshold == data@[17]
                &&& a.voting_deadline as int == spec_i64_from_le_bytes(data@.subrange(18, 26))
                &&& a.stream_name@ == data@.subrange(26, 58)
                &&& a.stream_description@ == data@.subrange(58, 186)
                &&& a.stream_name@.len() == 32
                &&& a.stream_description@.len() == 128
            },
            Err(e) => {
                if data@.len() < 186 {
                    e == TreasuryError::InvalidInstructionData
                } else {
                    stream_type_from_u8(data@[16]) is None && e
                        == TreasuryError::InvalidAccountData
                }
            },
        },
{
    if data.len() < 186 {
        return Err(TreasuryError::InvalidInstructionData);
    }
    let stream_type_raw: u8 = *vstd::slice::slice_index_get(data, 16);
    let stream_type = match StreamType::try_from(&stream_type_raw) {
        Ok(t) => t,
        Err(e) => {
            return Err(e);
        },
    };
    Ok(
        CreateProposalArgs {
            proposal_id: read_u64(data, 0),
            multisig_id: read_u64(data, 8),
            stream_type,
            required_threshold: *vstd::slice::slice_index_get(data, 17),
            voting_deadline: read_i64(data, 18),
            stream_name: read_bytes(data, 26, 32),
            stream_description: read_bytes(data, 58, 128),
        },
    )
}

/// The fields of a `VoteOnProposal` payload (24 bytes).
#[derive(Debug)]
pub struct VoteArgs {
    pub proposal_id: u64,
    pub multisig_id: u64,
    pub vote_kind: VoteKind,
}

/// Parses a `VoteOnProposal` payload:
/// `[proposal_id:u64][multisig_id:u64][vote_kind:u64]`, where 0 approves, 1
/// rejects and larger values are rejected.
pub fn parse_vote_on_proposal(data: &[u8]) -> (r: Result<VoteArgs, TreasuryError>)
    ensures
        match r {
            Ok(a) => {
                &&& data@.len() >= 24
                &&& a.proposal_id == spec_u64_from_le_bytes(data@.subrange(0, 8))
                &&& a.multisig_id == spec_u64_from_le_bytes(data@.subrange(8, 16))
                &&& spec_u64_from_le_bytes(data@.subrange(16, 24)) <= 1
                &&& a.vote_kind == (if spec_u64_from_le_bytes(data@.subrange(16, 24)) == 0 {
                    VoteKind::Approve
                } else {
                    VoteKind::Reject
                })
            },
            Err(e) => {
                if data@.len() < 24 {
                    e == TreasuryError::InvalidInstructionData
                } else {
                    spec_u64_from_le_bytes(data@.subrange(16, 24)) > 1 && e
                        == TreasuryError::InvalidInstructionData
                }
            },
        },
{
    if data.len() < 24 {
        return Err(TreasuryError::InvalidInstructionData);
    }
    let vote_type = read_u64(data, 16);
    if vote_type > 1 {
        return Err(TreasuryError::InvalidInstructionData);
    }
    Ok(
        VoteArgs {
            proposal_id: read_u64(data, 0),
            multisig_id: read_u64(data, 8),
            vote_kind: if vote_type == 0 {
                VoteKind::Approve
            } else {
                VoteKind::Reject
            },
        },
    )
}

/// The fields of a `DepositTokens` payload (16 bytes).
#[derive(Debug)]
pub struct DepositArgs {
    pub multisig_id: u64,
    pub amount: u64,
}

/// Parses a `DepositTokens` payload: `[multisig_id:u64][amount:u64]`.
pub fn parse_deposit_funds(data: &[u8]) -> (r: Result<DepositArgs, TreasuryError>)
    ensures
        match r {
            Ok(a) => {
                &&& data@.len() >= 16
                &&& a.multisig_id == spec_u64_from_le_bytes(data@.subrange(0, 8))
                &&& a.amount == spec_u64_from_le_bytes(data@.subrange(8, 16))
            },
            Err(e) => data@.len() < 16 && e == TreasuryError::InvalidInstructionData,
        },
{
    if data.len() < 16 {
        return Err(TreasuryError::InvalidInstructionData);
    }
    Ok(DepositArgs { multisig_id: read_u64(data, 0), amount: read_u64(data, 8) })
}

/// The fields of an `InitStreamPayment` payload (24 bytes, exact length
/// required).
#[derive(Debug)]
pub struct StreamPaymentArgs {
    pub total_amount: u64,
    pub start_time: i64,
    pub end_time: i64,
}

/// Parses an `InitStreamPayment` payload:
/// `[total_amount:u64][start_time:i64][end_time:i64]`, exactly 24 bytes.
pub fn parse_init_stream_payment(data: &[u8]) -> (r: Result<StreamPaymentArgs, TreasuryError>)
    ensures
        match r {
            Ok(a) => {
                &&& data@.len() == 24
                &&& a.total_amount == spec_u64_from_le_bytes(data@.subrange(0, 8))
                &&& a.start_time as int == spec_i64_from_le_bytes(data@.subrange(8, 16))
                &&& a.end_time as int == spec_i64_from_le_bytes(data@.subrange(16, 24))
            },
            Err(e) => data@.len() != 24 && e == TreasuryError::InvalidInstructionData,
        },
{
    if data.len() != 24 {
        return Err(TreasuryError::InvalidInstructionData);
    }
    Ok(
        StreamPaymentArgs {
            total_amount: read_u64(data, 0),
            start_time: read_i64(data, 8),
            end_time: read_i64(data, 16),
        },
    )
}

/// The fields of an `InitializeBatchState` payload (9 bytes).
#[derive(Debug)]
pub struct InitBatchArgs {
    pub batch_id: u64,
    pub total_recipients: u8,
}

/// Parses an `InitializeBatchState` payload:
/// `[batch_id:u64][total_recipients:u8]`.
pub fn parse_init_batch_state(data: &[u8]) -> (r: Result<InitBatchArgs, TreasuryError>)
    ensures
        match r {
            Ok(a) => {
                &&& data@.len() >= 9
                &&& a.batch_id == spec_u64_from_le_bytes(data@.subrange(0, 8))
                &&& a.total_recipients == data@[8]
            },
            Err(e) => data@.len() < 9 && e == TreasuryError::InvalidInstructionData,
        },
{
    if data.len() < 9 {
        return Err(TreasuryError::InvalidInstructionData);
    }
    Ok(
        InitBatchArgs {
            batch_id: read_u64(data, 0),
            total_recipients: *vstd::slice::slice_index_get(data, 8),
        },
    )
}

/// The fields of a direct token transfer payload (8 bytes).
#[derive(Debug)]
pub struct TransferArgs {
    pub amount: u64,
}

/// Parses a direct transfer payload: `[amount:u64]`.
pub fn parse_transfer_tokens(data: &[u8]) -> (r: Result<TransferArgs, TreasuryError>)
    ensures
        match r {
            Ok(a) => data@.len() >= 8 && a.amount == spec_u64_from_le_bytes(
                data@.subrange(0, 8),
            ),
            Err(e) => data@.len() < 8 && e == TreasuryError::InvalidInstructionData,
        },
{
    if data.len() < 8 {
        return Err(TreasuryError::InvalidInstructionData);
    }
    Ok(TransferArgs { amount: read_u64(data, 0) })
}

/// The fields of a vesting-vault deposit payload (40 bytes).
#[derive(Debug)]
pub struct VestingDepositArgs {
    /// Fixed 32-byte company tag.
    pub company_name: Vec<u8>,
    pub deposit_amount: u64,
}

/// Parses a vesting-vault deposit payload:
/// `[company_name:32B][deposit_amount:u64]`.
pub fn parse_vesting_deposit(data: &[u8]) -> (r: Result<VestingDepositArgs, TreasuryError>)
    ensures
        match r {
            Ok(a) => {
                &&& data@.len() >= 40
                &&& a.company_name@ == data@.subrange(0, 32)
                &&& a.company_name@.len() == 32
                &&& a.deposit_amount == spec_u64_from_le_bytes(data@.subrange(32, 40))
            },
            Err(e) => data@.len() < 40 && e == TreasuryError::InvalidInstructionData,
        },
{
    if data.len() < 40 {
        return Err(TreasuryError::InvalidInstructionData);
    }
    Ok(
        VestingDepositArgs {
            company_name: read_bytes(data, 0, 32),
            deposit_amount: read_u64(data, 32),
        },
    )
}

/// The fields of an `InitBeneficiary` payload (64 bytes).
#[derive(Debug)]
pub struct InitBeneficiaryArgs {
    /// Fixed 32-byte company tag.
    pub company_name: Vec<u8>,
    pub cliff_period: i64,
    pub start_time: i64,
    pub end_time: i64,
    pub vesting_amount: u64,
}

/// Parses an `InitBeneficiary` payload:
/// `[company_name:32B][cliff_period:i64][start_time:i64][end_time:i64][vesting_amount:u64]`.
pub fn parse_init_beneficiary(data: &[u8]) -> (r: Result<InitBeneficiaryArgs, TreasuryError>)
    ensures
        match r {
            Ok(a) => {
                &&& data@.len() >= 64
                &&& a.company_name@ == data@.subrange(0, 32)
                &&& a.company_name@.len() == 32
                &&& a.cliff_period as int == spec_i64_from_le_bytes(data@.subrange(32, 40))
                &&& a.start_time as int == spec_i64_from_le_bytes(data@.subrange(40, 48))
                &&& a.end_time as int == spec_i64_from_le_bytes(data@.subrange(48, 56))
                &&& a.vesting_amount == spec_u64_from_le_bytes(data@.subrange(56, 64))
            },
            Err(e) => data@.len() < 64 && e == TreasuryError::InvalidInstructionData,
        },
{
    if data.len() < 64 {
        return Err(TreasuryError::InvalidInstructionData);
    }
    Ok(
        InitBeneficiaryArgs {
            company_name: read_bytes(data, 0, 32),
            cliff_period: read_i64(data, 32),
            start_time: read_i64(data, 40),
            end_time: read_i64(data, 48),
            vesting_amount: read_u64(data, 56),
        },
    )
}

/// Parses a claim payload's fixed 32-byte company tag.
pub fn parse_company_name(data: &[u8]) -> (r: Result<Vec<u8>, TreasuryError>)
    ensures
        match r {
            Ok(name) => {
                &&& data@.len() >= 32
                &&& name@ == data@.subrange(0, 32)
                &&& name@.len() == 32
            },
            Err(e) => data@.len() < 32 && e == TreasuryError::InvalidInstructionData,
        },
{
    if data.len() < 32 {
        return Err(TreasuryError::InvalidInstructionData);
    }
    Ok(read_bytes(data, 0, 32))
}

} // verus!

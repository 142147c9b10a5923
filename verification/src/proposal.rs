//! The proposal state machine: creation, vote casting, quorum evaluation and
//! the execution decision that dispatches into one disbursement strategy.
//!
//! A proposal moves forward only: `Active` to `Approved` or `Rejected` when a
//! vote brings the matching count to the required threshold, and `Approved`
//! to `Executed` (batch payments and direct transfers) or back to a long-lived
//! `Active` (streaming and vesting, which create ongoing obligations). After
//! each recorded vote the rejection count is compared against the threshold
//! before the approval count, so on a simultaneous tie rejection would win;
//! in reachable states the two counts cannot reach the threshold in the same
//! call, since a vote increments only one of them and the proposal leaves
//! `Active` as soon as either side decides.
use vstd::prelude::*;

use crate::errors::TreasuryError;
use crate::keys::{
    check_keys_disjoint, check_keys_unique, check_no_zero_keys, find_key, has_key, is_zero_key,
    keys_disjoint, keys_unique, pubkey_eq, Pubkey,
};
use crate::vault::MultiSignatureVault;

verus! {

/// The four disbursement strategies, plus two tags the execution path does
/// not support.
#[derive(Clone, Copy, Debug, PartialEq, Eq, Structural)]
pub enum StreamType {
    BatchPayments,
    TokenSwaps,
    TokenTransfers,
    PaymentStreaming,
    Vesting,
    OneTimePayment,
}

/// The wire value of each stream type tag; `None` for an out-of-range byte.
pub open spec fn stream_type_from_u8(value: u8) -> Option<StreamType> {
    if value == 0 {
        Some(StreamType::BatchPayments)
    } else if value == 1 {
        Some(StreamType::TokenSwaps)
    } else if value == 2 {
        Some(StreamType::TokenTransfers)
    } else if value == 3 {
        Some(StreamType::PaymentStreaming)
    } else if value == 4 {
        Some(StreamType::Vesting)
    } else if value == 5 {
        Some(StreamType::OneTimePayment)
    } else {
        None
    }
}

impl StreamType {
    /// Decodes a stream type tag from its wire byte.
    pub fn try_from(value: &u8) -> (r: Result<StreamType, TreasuryError>)
        ensures
            match r {
                Ok(t) => stream_type_from_u8(*value) == Some(t),
                Err(e) => stream_type_from_u8(*value) is None && e
                    == TreasuryError::InvalidAccountData,
            },
    {
        match *value {
            0 => Ok(StreamType::BatchPayments),
            1 => Ok(StreamType::TokenSwaps),
            2 => Ok(StreamType::TokenTransfers),
            3 => Ok(StreamType::PaymentStreaming),
            4 => Ok(StreamType::Vesting),
            5 => Ok(StreamType::OneTimePayment),
            _ => Err(TreasuryError::InvalidAccountData),
        }
    }

    /// The wire byte of this stream type tag.
    pub fn as_u8(&self) -> (r: u8)
        ensures
            stream_type_from_u8(r) == Some(*self),
    {
        match self {
            StreamType::BatchPayments => 0,
            StreamType::TokenSwaps => 1,
            StreamType::TokenTransfers => 2,
            StreamType::PaymentStreaming => 3,
            StreamType::Vesting => 4,
            StreamType::OneTimePayment => 5,
        }
    }
}

/// Every status a proposal record can carry on the wire.
#[derive(Clone, Copy, Debug, PartialEq, Eq, Structural)]
pub enum ProposalStatus {
    Draft,
    Pending,
    UnderReview,
    Approved,
    Executed,
    Active,
    Completed,
    Rejected,
    Expired,
    Failed,
    Cancelled,
    Revoked,
    Paused,
    Disputed,
    RequiresUpdate,
}

/// The wire value of each proposal status; `None` for an out-of-range byte.
pub open spec fn proposal_status_from_u8(value: u8) -> Option<ProposalStatus> {
    if value == 0 {
        Some(ProposalStatus::Draft)
    } else if value == 1 {
        Some(ProposalStatus::Pending)
    } else if value == 2 {
        Some(ProposalStatus::UnderReview)
    } else if value == 3 {
        Some(ProposalStatus::Approved)
    } else if value == 4 {
        Some(ProposalStatus::Executed)
    } else if value == 5 {
        Some(ProposalStatus::Active)
    } else if value == 6 {
        Some(ProposalStatus::Completed)
    } else if value == 7 {
        Some(ProposalStatus::Rejected)
    } else if value == 8 {
        Some(ProposalStatus::Expired)
    } else if value == 9 {
        Some(ProposalStatus::Failed)
    } else if value == 10 {
        Some(ProposalStatus::Cancelled)
    } else if value == 11 {
        Some(ProposalStatus::Revoked)
    } else if value == 12 {
        Some(ProposalStatus::Paused)
    } else if value == 13 {
        Some(ProposalStatus::Disputed)
    } else if value == 14 {
        Some(ProposalStatus::RequiresUpdate)
    } else {
        None
    }
}

impl ProposalStatus {
    /// Decodes a proposal status from its wire byte.
    pub fn try_from(value: &u8) -> (r: Result<ProposalStatus, TreasuryError>)
        ensures
            match r {
                Ok(s) => proposal_status_from_u8(*value) == Some(s),
                Err(e) => proposal_status_from_u8(*value) is None && e
                    == TreasuryError::InvalidAccountData,
            },
    {
        match *value {
            0 => Ok(ProposalStatus::Draft),
            1 => Ok(ProposalStatus::Pending),
            2 => Ok(ProposalStatus::UnderReview),
            3 => Ok(ProposalStatus::Approved),
            4 => Ok(ProposalStatus::Executed),
            5 => Ok(ProposalStatus::Active),
            6 => Ok(ProposalStatus::Completed),
            7 => Ok(ProposalStatus::Rejected),
            8 => Ok(ProposalStatus::Expired),
            9 => Ok(ProposalStatus::Failed),
            10 => Ok(ProposalStatus::Cancelled),
            11 => Ok(ProposalStatus::Revoked),
            12 => Ok(ProposalStatus::Paused),
            13 => Ok(ProposalStatus::Disputed),
            14 => Ok(ProposalStatus::RequiresUpdate),
            _ => Err(TreasuryError::InvalidAccountData),
        }
    }

    /// The wire byte of this proposal status.
    pub fn as_u8(&self) -> (r: u8)
        ensures
            proposal_status_from_u8(r) == Some(*self),
    {
        match self {
            ProposalStatus::Draft => 0,
            ProposalStatus::Pending => 1,
            ProposalStatus::UnderReview => 2,
            ProposalStatus::Approved => 3,
            ProposalStatus::Executed => 4,
            ProposalStatus::Active => 5,
            ProposalStatus::Completed => 6,
            ProposalStatus::Rejected => 7,
            ProposalStatus::Expired => 8,
            ProposalStatus::Failed => 9,
            ProposalStatus::Cancelled => 10,
            ProposalStatus::Revoked => 11,
            ProposalStatus::Paused => 12,
            ProposalStatus::Disputed => 13,
            ProposalStatus::RequiresUpdate => 14,
        }
    }
}

/// A vote is either an approval or a rejection.
#[derive(Clone, Copy, Debug, PartialEq, Eq, Structural)]
pub enum VoteKind {
    Approve,
    Reject,
}

/// The record of one proposal: its description, its vote sets and its status.
#[derive(Clone, Debug)]
pub struct StreamProposal {
    pub proposer: Pubkey,
    /// Fixed 32-byte name field.
    pub stream_name: Vec<u8>,
    /// Fixed 128-byte description field.
    pub stream_description: Vec<u8>,
    pub proposal_id: u64,
    pub multisig_id: u64,
    pub stream_type: StreamType,
    pub created_at: i64,
    pub voting_deadline: i64,
    /// The filled approval slots; at most 10 entries, unique, never all-zero.
    pub approvals: Vec<Pubkey>,
    pub approval_count: u8,
    /// The filled rejection slots; at most 10 entries, unique, never all-zero.
    pub rejections: Vec<Pubkey>,
    pub rejection_count: u8,
    pub total_vote_count: u64,
    pub required_threshold: u8,
    pub status: ProposalStatus,
}

impl StreamProposal {
    /// Well-formedness: the fixed text fields have their declared widths, the
    /// vote counts agree with their slot arrays, no voter appears twice in a
    /// set or in both sets, and no slot holds the all-zero address.
    pub open spec fn wf(self) -> bool {
        &&& self.stream_name@.len() == 32
        &&& self.stream_description@.len() == 128
        &&& self.approvals@.len() <= 10
        &&& self.rejections@.len() <= 10
        &&& self.approval_count == self.approvals@.len()
        &&& self.rejection_count == self.rejections@.len()
        &&& self.total_vote_count == self.approvals@.len() + self.rejections@.len()
        &&& keys_unique(self.approvals@)
        &&& keys_unique(self.rejections@)
        &&& keys_disjoint(self.approvals@, self.rejections@)
        &&& forall|i: int| 0 <= i < self.approvals@.len() ==> !is_zero_key(
            #[trigger] self.approvals@[i],
        )
        &&& forall|i: int| 0 <= i < self.rejections@.len() ==> !is_zero_key(
            #[trigger] self.rejections@[i],
        )
    }

    /// Decides [`Self::wf`] at run time, so a host can validate a record it
    /// read from storage before operating on it.
    pub fn check_wf(&self) -> (r: bool)
        ensures
            r == self.wf(),
    {
        if self.stream_name.len() != 32 {
            return false;
        }
        if self.stream_description.len() != 128 {
            return false;
        }
        if self.approvals.len() > 10 || self.rejections.len() > 10 {
            return false;
        }
        if self.approval_count as usize != self.approvals.len() {
            return false;
        }
        if self.rejection_count as usize != self.rejections.len() {
            return false;
        }
        if self.total_vote_count != self.approval_count as u64 + self.rejection_count as u64 {
            return false;
        }
        if !check_keys_unique(&self.approvals) || !check_keys_unique(&self.rejections) {
            return false;
        }
        if !check_keys_disjoint(&self.approvals, &self.rejections) {
            return false;
        }
        if !check_no_zero_keys(&self.approvals) || !check_no_zero_keys(&self.rejections) {
            return false;
        }
        true
    }

    /// The validation a proposal creation runs, in order; `None` means it
    /// passes.
    pub open spec fn create_checks(
        vault: MultiSignatureVault,
        proposer: Pubkey,
        required_threshold: u8,
        voting_deadline: i64,
        now: i64,
    ) -> Option<TreasuryError> {
        if voting_deadline <= now {
            Some(TreasuryError::InvalidInstructionData)
        } else if !vault.is_member(proposer) {
            Some(TreasuryError::InvalidInstructionData)
        } else if required_threshold == 0 || required_threshold > vault.member_count {
            Some(TreasuryError::InvalidInstructionData)
        } else {
            None
        }
    }

    /// Initializes a fresh proposal with empty vote sets and status `Active`.
    ///
    /// The proposer must be a current vault member, the required threshold
    /// must lie in `[1, member_count]`, and the voting deadline must be
    /// strictly in the future.
    pub fn create(
        proposer: Pubkey,
        vault: &MultiSignatureVault,
        proposal_id: u64,
        multisig_id: u64,
        stream_type: StreamType,
        required_threshold: u8,
        voting_deadline: i64,
        stream_name: Vec<u8>,
        stream_description: Vec<u8>,
        now: i64,
    ) -> (r: Result<StreamProposal, TreasuryError>)
        requires
            stream_name@.len() == 32,
            stream_description@.len() == 128,
        ensures
            match r {
                Ok(p) => {
                    &&& Self::create_checks(*vault, proposer, required_threshold, voting_deadline, now)
                        is None
                    &&& p.proposer@ == proposer@
                    &&& p.stream_name@ == stream_name@
                    &&& p.stream_description@ == stream_description@
                    &&& p.proposal_id == proposal_id
                    &&& p.multisig_id == multisig_id
                    &&& p.stream_type == stream_type
                    &&& p.created_at == now
                    &&& p.voting_deadline == voting_deadline
                    &&& p.approvals@.len() == 0
                    &&& p.approval_count == 0
                    &&& p.rejections@.len() == 0
                    &&& p.rejection_count == 0
                    &&& p.total_vote_count == 0
                    &&& p.required_threshold == required_threshold
                    &&& p.status == ProposalStatus::Active
                    &&& p.wf()
                },
                Err(e) => Self::create_checks(
                    *vault,
                    proposer,
                    required_threshold,
                    voting_deadline,
                    now,
                ) == Some(e),
            },
    {
        if voting_deadline <= now {
            return Err(TreasuryError::InvalidInstructionData);
        }
        if !vault.has_member(&proposer) {
            return Err(TreasuryError::InvalidInstructionData);
        }
        if required_threshold == 0 || required_threshold as u64 > vault.member_count {
            return Err(TreasuryError::InvalidInstructionData);
        }
        Ok(
            StreamProposal {
                proposer,
                stream_name,
                stream_description,
                proposal_id,
                multisig_id,
                stream_type,
                created_at: now,
                voting_deadline,
                approvals: Vec::new(),
                approval_count: 0,
                rejections: Vec::new(),
                rejection_count: 0,
                total_vote_count: 0,
                required_threshold,
                status: ProposalStatus::Active,
            },
        )
    }

    /// The validation a vote cast runs, in order; `None` means it passes.
    pub open spec fn vote_checks(
        p: Self,
        vault: MultiSignatureVault,
        voter: Pubkey,
        multisig_id: u64,
        kind: VoteKind,
        now: i64,
    ) -> Option<TreasuryError> {
        if p.multisig_id != multisig_id {
            Some(TreasuryError::InvalidAccountData)
        } else if now > p.voting_deadline {
            Some(TreasuryError::DeadlinePassed)
        } else if p.status != ProposalStatus::Active {
            Some(TreasuryError::ProposalNotActive)
        } else if !vault.is_active {
            Some(TreasuryError::VaultInactive)
        } else if !vault.is_member(voter) {
            Some(TreasuryError::NotAMember)
        } else if has_key(p.approvals@, voter) || has_key(p.rejections@, voter) {
            Some(TreasuryError::AlreadyVoted)
        } else if (kind == VoteKind::Approve && p.approvals@.len() >= 10) || (kind
            == VoteKind::Reject && p.rejections@.len() >= 10) {
            Some(TreasuryError::InvalidAccountData)
        } else {
            None
        }
    }

    /// The status a proposal takes after a vote, given its new counts: the
    /// rejection side is evaluated first.
    pub open spec fn status_after_vote(self, approvals: int, rejections: int) -> ProposalStatus {
        if rejections >= self.required_threshold {
            ProposalStatus::Rejected
        } else if approvals >= self.required_threshold {
            ProposalStatus::Approved
        } else {
            self.status
        }
    }

    /// Records one member's vote and evaluates the threshold.
    ///
    /// Fails unless the supplied multisig id matches the record, the deadline
    /// has not passed, the proposal is `Active`, the vault is active, the
    /// voter is a member and has not voted either way. On success the chosen
    /// set gains the voter, the matching count and the total grow by one, and
    /// the status flips to `Rejected` or `Approved` when the matching count
    /// reaches the required threshold. Both counts are non-decreasing. On
    /// failure the record is unchanged.
    pub fn cast_vote(
        &mut self,
        vault: &MultiSignatureVault,
        voter: &Pubkey,
        multisig_id: u64,
        kind: VoteKind,
        now: i64,
    ) -> (r: Result<(), TreasuryError>)
        requires
            old(self).wf(),
            vault.wf(),
        ensures
            final(self).wf(),
            final(self).approval_count >= old(self).approval_count,
            final(self).rejection_count >= old(self).rejection_count,
            match r {
                Ok(()) => {
                    &&& Self::vote_checks(*old(self), *vault, *voter, multisig_id, kind, now)
                        is None
                    &&& (kind == VoteKind::Approve ==> final(self).approvals@ == old(
                        self,
                    ).approvals@.push(*voter) && final(self).rejections@ == old(self).rejections@)
                    &&& (kind == VoteKind::Reject ==> final(self).rejections@ == old(
                        self,
                    ).rejections@.push(*voter) && final(self).approvals@ == old(self).approvals@)
                    &&& final(self).approval_count == old(self).approval_count + (
                    if kind == VoteKind::Approve {
                        1int
                    } else {
                        0int
                    })
                    &&& final(self).rejection_count == old(self).rejection_count + (
                    if kind == VoteKind::Reject {
                        1int
                    } else {
                        0int
                    })
                    &&& final(self).total_vote_count == old(self).total_vote_count + 1
                    &&& final(self).status == old(self).status_after_vote(
                        final(self).approval_count as int,
                        final(self).rejection_count as int,
                    )
                    &&& final(self).proposer@ == old(self).proposer@
                    &&& final(self).stream_name@ == old(self).stream_name@
                    &&& final(self).stream_description@ == old(self).stream_description@
                    &&& final(self).proposal_id == old(self).proposal_id
                    &&& final(self).multisig_id == old(self).multisig_id
                    &&& final(self).stream_type == old(self).stream_type
                    &&& final(self).created_at == old(self).created_at
                    &&& final(self).voting_deadline == old(self).voting_deadline
                    &&& final(self).required_threshold == old(self).required_threshold
                },
                Err(e) => {
                    &&& Self::vote_checks(*old(self), *vault, *voter, multisig_id, kind, now)
                        == Some(e)
                    &&& *final(self) == *old(self)
                },
            },
    {
        if self.multisig_id != multisig_id {
            return Err(TreasuryError::InvalidAccountData);
        }
        if now > self.voting_deadline {
            return Err(TreasuryError::DeadlinePassed);
        }
        if self.status != ProposalStatus::Active {
            return Err(TreasuryError::ProposalNotActive);
        }
        if !vault.is_active {
            return Err(TreasuryError::VaultInactive);
        }
        if !vault.has_member(voter) {
            return Err(TreasuryError::NotAMember);
        }
        if find_key(&self.approvals, voter) || find_key(&self.rejections, voter) {
            return Err(TreasuryError::AlreadyVoted);
        }
        match kind {
            VoteKind::Approve => {
                if self.approvals.len() >= 10 {
                    return Err(TreasuryError::InvalidAccountData);
                }
                self.approvals.push(*voter);
                self.approval_count = self.approval_count + 1;
                self.total_vote_count = self.total_vote_count + 1;
            },
            VoteKind::Reject => {
                if self.rejections.len() >= 10 {
                    return Err(TreasuryError::InvalidAccountData);
                }
                self.rejections.push(*voter);
                self.rejection_count = self.rejection_count + 1;
                self.total_vote_count = self.total_vote_count + 1;
            },
        }
        if self.rejection_count >= self.required_threshold {
            self.status = ProposalStatus::Rejected;
        } else if self.approval_count >= self.required_threshold {
            self.status = ProposalStatus::Approved;
        }
        Ok(())
    }

    /// Holds when the proposal may be executed: the deadline has not passed,
    /// the vault is active, the approvals have reached the vault's threshold
    /// and outnumber the rejections, and the status is `Approved`.
    pub open spec fn spec_can_execute(
        self,
        vault: MultiSignatureVault,
        now: i64,
    ) -> bool {
        &&& now <= self.voting_deadline
        &&& vault.is_active
        &&& self.approval_count >= vault.threshold
        &&& self.approval_count > self.rejection_count
        &&& self.status == ProposalStatus::Approved
    }

    /// Evaluates whether the proposal may be executed now.
    pub fn can_execute_proposal(&self, vault: &MultiSignatureVault, now: i64) -> (r: bool)
        ensures
            r == self.spec_can_execute(*vault, now),
    {
        if now > self.voting_deadline {
            return false;
        }
        if !vault.is_active {
            return false;
        }
        if (self.approval_count as u64) < vault.threshold {
            return false;
        }
        if self.approval_count <= self.rejection_count {
            return false;
        }
        if self.status != ProposalStatus::Approved {
            return false;
        }
        true
    }

    /// The authorization checks an execution runs, in order; `None` means
    /// they pass.
    pub open spec fn execution_auth_checks(
        self,
        vault: MultiSignatureVault,
        executor: Pubkey,
    ) -> Option<TreasuryError> {
        if !vault.is_member(executor) {
            Some(TreasuryError::NotAMember)
        } else if !has_key(self.approvals@, executor) {
            Some(TreasuryError::InvalidAccountData)
        } else if self.multisig_id != vault.id {
            Some(TreasuryError::InvalidAccountData)
        } else {
            None
        }
    }

    /// Checks that the executor is a vault member, approved this proposal,
    /// and that the proposal belongs to this vault.
    pub fn verify_multisig_execution(
        &self,
        vault: &MultiSignatureVault,
        executor: &Pubkey,
    ) -> (r: Result<(), TreasuryError>)
        ensures
            match r {
                Ok(()) => self.execution_auth_checks(*vault, *executor) is None,
                Err(e) => self.execution_auth_checks(*vault, *executor) == Some(e),
            },
    {
        if !vault.has_member(executor) {
            return Err(TreasuryError::NotAMember);
        }
        if !find_key(&self.approvals, executor) {
            return Err(TreasuryError::InvalidAccountData);
        }
        if self.multisig_id != vault.id {
            return Err(TreasuryError::InvalidAccountData);
        }
        Ok(())
    }

    /// The full validation an execution runs, in order; `None` means it
    /// passes.
    pub open spec fn execute_checks(
        self,
        vault: MultiSignatureVault,
        executor: Pubkey,
        now: i64,
    ) -> Option<TreasuryError> {
        if now > self.voting_deadline {
            Some(TreasuryError::DeadlinePassed)
        } else if !vault.is_active {
            Some(TreasuryError::VaultInactive)
        } else if self.approval_count < vault.threshold {
            Some(TreasuryError::InvalidAccountData)
        } else if self.approval_count <= self.rejection_count {
            Some(TreasuryError::InvalidAccountData)
        } else if self.status != ProposalStatus::Approved {
            Some(TreasuryError::InvalidAccountData)
        } else if self.execution_auth_checks(vault, executor) is Some {
            self.execution_auth_checks(vault, executor)
        } else if self.stream_type == StreamType::TokenSwaps || self.stream_type
            == StreamType::OneTimePayment {
            Some(TreasuryError::InvalidInstructionData)
        } else {
            None
        }
    }

    /// Decides the execution of an approved proposal and advances its status.
    ///
    /// Fails with a distinct deadline error when the voting deadline has
    /// passed, whatever the vote counts. On success it returns the strategy
    /// to dispatch into and sets the status to `Executed` for batch payments
    /// and direct transfers, or leaves it `Active` for streaming and vesting,
    /// which stay live after activation. The host performs the strategy's
    /// fund movement; if that fails, nothing of the record is persisted.
    pub fn execute_proposal(
        &mut self,
        vault: &MultiSignatureVault,
        executor: &Pubkey,
        now: i64,
    ) -> (r: Result<StreamType, TreasuryError>)
        requires
            old(self).wf(),
            vault.wf(),
        ensures
            final(self).wf(),
            match r {
                Ok(t) => {
                    &&& Self::execute_checks(*old(self), *vault, *executor, now) is None
                    &&& t == old(self).stream_type
                    &&& final(self).status == (if t == StreamType::BatchPayments || t
                        == StreamType::TokenTransfers {
                        ProposalStatus::Executed
                    } else {
                        ProposalStatus::Active
                    })
                    &&& final(self).approvals@ == old(self).approvals@
                    &&& final(self).rejections@ == old(self).rejections@
                    &&& final(self).approval_count == old(self).approval_count
                    &&& final(self).rejection_count == old(self).rejection_count
                    &&& final(self).total_vote_count == old(self).total_vote_count
                    &&& final(self).proposer@ == old(self).proposer@
                    &&& final(self).stream_name@ == old(self).stream_name@
                    &&& final(self).stream_description@ == old(self).stream_description@
                    &&& final(self).proposal_id == old(self).proposal_id
                    &&& final(self).multisig_id == old(self).multisig_id
                    &&& final(self).stream_type == old(self).stream_type
                    &&& final(self).created_at == old(self).created_at
                    &&& final(self).voting_deadline == old(self).voting_deadline
                    &&& final(self).required_threshold == old(self).required_threshold
                },
                Err(e) => {
                    &&& Self::execute_checks(*old(self), *vault, *executor, now) == Some(e)
                    &&& *final(self) == *old(self)
                },
            },
    {
        if now > self.voting_deadline {
            return Err(TreasuryError::DeadlinePassed);
        }
        if !vault.is_active {
            return Err(TreasuryError::VaultInactive);
        }
        if (self.approval_count as u64) < vault.threshold {
            return Err(TreasuryError::InvalidAccountData);
        }
        if self.approval_count <= self.rejection_count {
            return Err(TreasuryError::InvalidAccountData);
        }
        if self.status != ProposalStatus::Approved {
            return Err(TreasuryError::InvalidAccountData);
        }
        if let Err(e) = self.verify_multisig_execution(vault, executor) {
            return Err(e);
        }
        match self.stream_type {
            StreamType::BatchPayments => {
                self.status = ProposalStatus::Executed;
                Ok(StreamType::BatchPayments)
            },
            StreamType::TokenTransfers => {
                self.status = ProposalStatus::Executed;
                Ok(StreamType::TokenTransfers)
            },
            StreamType::PaymentStreaming => {
                self.status = ProposalStatus::Active;
                Ok(StreamType::PaymentStreaming)
            },
            StreamType::Vesting => {
                self.status = ProposalStatus::Active;
                Ok(StreamType::Vesting)
            },
            _ => Err(TreasuryError::InvalidInstructionData),
        }
    }
}

} // verus!

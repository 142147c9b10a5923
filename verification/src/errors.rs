//! The error taxonomy of the verified core: malformed input, authorization
//! failure, state-precondition failure and arithmetic failure, each surfaced
//! as a distinct code so callers can tell retry-worthy conditions from
//! permanent ones.
//!
//! Conditions the host alone can observe — a missing signature, a wrongly
//! owned or still-empty account, an insufficient token balance — are
//! reported by the host with its own error codes before the verified logic
//! runs; this enum covers every way the logic itself refuses to act.
use vstd::prelude::*;

verus! {

/// Every way an operation of this library can refuse to act. No operation
/// commits a partial state change: an error always leaves records unchanged.
#[derive(Clone, Copy, Debug, PartialEq, Eq, Structural)]
pub enum TreasuryError {
    /// The instruction payload is malformed: wrong length or a field out of
    /// range.
    InvalidInstructionData,
    /// A record's contents do not satisfy the operation's preconditions.
    InvalidAccountData,
    /// A counter or amount computation would overflow.
    ArithmeticOverflow,
    /// A supplied address does not match the one derived from the record's
    /// identifying inputs.
    AddressMismatch,
    /// The proposal's voting deadline has passed.
    DeadlinePassed,
    /// The voter already cast a vote on this proposal.
    AlreadyVoted,
    /// The proposal is not in the `Active` state.
    ProposalNotActive,
    /// The vault is not active.
    VaultInactive,
    /// The caller is not a member of the vault.
    NotAMember,
    /// The vault's member slots are exhausted.
    MemberCapacityReached,
    /// The batch already processed all of its recipients.
    BatchAlreadyCompleted,
}

impl TreasuryError {
    /// A short stable name for the error, for hosts that print diagnostics.
    pub fn name(&self) -> (r: &'static str) {
        match self {
            TreasuryError::InvalidInstructionData => "invalid instruction data",
            TreasuryError::InvalidAccountData => "invalid account data",
            TreasuryError::ArithmeticOverflow => "arithmetic overflow",
            TreasuryError::AddressMismatch => "address mismatch",
            TreasuryError::DeadlinePassed => "voting deadline passed",
            TreasuryError::AlreadyVoted => "already voted",
            TreasuryError::ProposalNotActive => "proposal not active",
            TreasuryError::VaultInactive => "vault inactive",
            TreasuryError::NotAMember => "not a vault member",
            TreasuryError::MemberCapacityReached => "member capacity reached",
            TreasuryError::BatchAlreadyCompleted => "batch already completed",
        }
    }
}

} // verus!

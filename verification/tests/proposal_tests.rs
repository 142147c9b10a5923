use multisig_treasury::errors::TreasuryError;
use multisig_treasury::keys::Pubkey;
use multisig_treasury::proposal::{ProposalStatus, StreamProposal, StreamType, VoteKind};
use multisig_treasury::vault::MultiSignatureVault;

fn key(n: u8) -> Pubkey {
    [n; 32]
}

/// A vault with `member_count` members keyed 10, 11, ... and the given
/// threshold, administered by key 1.
fn vault_with_members(member_count: u64, threshold: u64) -> MultiSignatureVault {
    let mut v = MultiSignatureVault::create(
        key(1),
        &key(2),
        key(3),
        7,
        member_count,
        threshold,
        86400,
        0,
        0,
        0,
        0,
    )
    .unwrap();
    for i in 0..member_count {
        v.add_member(&key(1), &key(10 + i as u8), 0).unwrap();
    }
    v
}

fn sample_proposal(vault: &MultiSignatureVault, required_threshold: u8) -> StreamProposal {
    StreamProposal::create(
        key(10),
        vault,
        1,
        7,
        StreamType::TokenTransfers,
        required_threshold,
        1000,
        vec![0u8; 32],
        vec![0u8; 128],
        100,
    )
    .unwrap()
}

#[test]
fn test_create_proposal_fields() {
    let v = vault_with_members(3, 2);
    let p = sample_proposal(&v, 2);
    assert_eq!(p.proposer, key(10));
    assert_eq!(p.proposal_id, 1);
    assert_eq!(p.multisig_id, 7);
    assert_eq!(p.stream_type, StreamType::TokenTransfers);
    assert_eq!(p.created_at, 100);
    assert_eq!(p.voting_deadline, 1000);
    assert_eq!(p.approval_count, 0);
    assert_eq!(p.rejection_count, 0);
    assert_eq!(p.total_vote_count, 0);
    assert_eq!(p.required_threshold, 2);
    assert_eq!(p.status, ProposalStatus::Active);
}

#[test]
fn test_create_proposal_rejects_past_deadline() {
    let v = vault_with_members(3, 2);
    let r = StreamProposal::create(
        key(10),
        &v,
        1,
        7,
        StreamType::TokenTransfers,
        2,
        100,
        vec![0u8; 32],
        vec![0u8; 128],
        100,
    );
    assert_eq!(r.unwrap_err(), TreasuryError::InvalidInstructionData);
}

#[test]
fn test_create_proposal_rejects_non_member() {
    let v = vault_with_members(3, 2);
    let r = StreamProposal::create(
        key(99),
        &v,
        1,
        7,
        StreamType::TokenTransfers,
        2,
        1000,
        vec![0u8; 32],
        vec![0u8; 128],
        100,
    );
    assert_eq!(r.unwrap_err(), TreasuryError::InvalidInstructionData);
}

#[test]
fn test_create_proposal_rejects_bad_threshold() {
    // The vault was declared with 3 members and 3 were added afterwards, so
    // its recorded member count is 6; thresholds must lie in [1, 6].
    let v = vault_with_members(3, 2);
    assert_eq!(v.member_count, 6);
    for t in [0u8, 7u8] {
        let r = StreamProposal::create(
            key(10),
            &v,
            1,
            7,
            StreamType::TokenTransfers,
            t,
            1000,
            vec![0u8; 32],
            vec![0u8; 128],
            100,
        );
        assert_eq!(r.unwrap_err(), TreasuryError::InvalidInstructionData);
    }
}

#[test]
fn test_two_approvals_reach_threshold_then_rejection_has_no_effect() {
    // Vault with member_count=3, threshold=2; two approvals flip the
    // proposal to Approved; a later rejection by the third member is
    // refused and the status stays Approved.
    let v = vault_with_members(3, 2);
    let mut p = sample_proposal(&v, 2);
    p.cast_vote(&v, &key(10), 7, VoteKind::Approve, 200).unwrap();
    assert_eq!(p.status, ProposalStatus::Active);
    assert_eq!(p.approval_count, 1);
    p.cast_vote(&v, &key(11), 7, VoteKind::Approve, 201).unwrap();
    assert_eq!(p.status, ProposalStatus::Approved);
    assert_eq!(p.approval_count, 2);
    assert_eq!(p.total_vote_count, 2);
    let r = p.cast_vote(&v, &key(12), 7, VoteKind::Reject, 202);
    assert_eq!(r.unwrap_err(), TreasuryError::ProposalNotActive);
    assert_eq!(p.status, ProposalStatus::Approved);
    assert_eq!(p.rejection_count, 0);
}

#[test]
fn test_rejections_reach_threshold() {
    let v = vault_with_members(3, 2);
    let mut p = sample_proposal(&v, 2);
    p.cast_vote(&v, &key(10), 7, VoteKind::Reject, 200).unwrap();
    p.cast_vote(&v, &key(11), 7, VoteKind::Reject, 201).unwrap();
    assert_eq!(p.status, ProposalStatus::Rejected);
    assert_eq!(p.rejection_count, 2);
}

#[test]
fn test_vote_after_deadline_fails() {
    let v = vault_with_members(3, 2);
    let mut p = sample_proposal(&v, 2);
    let r = p.cast_vote(&v, &key(10), 7, VoteKind::Approve, 1001);
    assert_eq!(r.unwrap_err(), TreasuryError::DeadlinePassed);
}

#[test]
fn test_vote_wrong_multisig_id_fails() {
    let v = vault_with_members(3, 2);
    let mut p = sample_proposal(&v, 2);
    let r = p.cast_vote(&v, &key(10), 8, VoteKind::Approve, 200);
    assert_eq!(r.unwrap_err(), TreasuryError::InvalidAccountData);
}

#[test]
fn test_vote_inactive_vault_fails() {
    let mut v = vault_with_members(3, 2);
    let mut p = sample_proposal(&v, 2);
    v.is_active = false;
    let r = p.cast_vote(&v, &key(10), 7, VoteKind::Approve, 200);
    assert_eq!(r.unwrap_err(), TreasuryError::VaultInactive);
}

#[test]
fn test_vote_by_non_member_fails() {
    let v = vault_with_members(3, 2);
    let mut p = sample_proposal(&v, 2);
    let r = p.cast_vote(&v, &key(99), 7, VoteKind::Approve, 200);
    assert_eq!(r.unwrap_err(), TreasuryError::NotAMember);
}

#[test]
fn test_double_vote_fails_either_way() {
    let v = vault_with_members(3, 3);
    let mut p = sample_proposal(&v, 3);
    p.cast_vote(&v, &key(10), 7, VoteKind::Approve, 200).unwrap();
    let r = p.cast_vote(&v, &key(10), 7, VoteKind::Approve, 201);
    assert_eq!(r.unwrap_err(), TreasuryError::AlreadyVoted);
    let r = p.cast_vote(&v, &key(10), 7, VoteKind::Reject, 202);
    assert_eq!(r.unwrap_err(), TreasuryError::AlreadyVoted);
    assert_eq!(p.approval_count, 1);
    assert_eq!(p.rejection_count, 0);
    assert_eq!(p.total_vote_count, 1);
}

#[test]
fn test_vote_counts_never_decrease() {
    let v = vault_with_members(3, 3);
    let mut p = sample_proposal(&v, 3);
    let mut last_approvals = 0u8;
    let mut last_rejections = 0u8;
    let votes = [
        (10u8, VoteKind::Approve),
        (11u8, VoteKind::Reject),
        (12u8, VoteKind::Approve),
    ];
    for (voter, kind) in votes {
        let _ = p.cast_vote(&v, &key(voter), 7, kind, 200);
        assert!(p.approval_count >= last_approvals);
        assert!(p.rejection_count >= last_rejections);
        last_approvals = p.approval_count;
        last_rejections = p.rejection_count;
    }
}

#[test]
fn test_execute_after_deadline_fails_with_deadline_error() {
    // Even with enough approvals, execution after the voting deadline fails
    // with the distinct deadline error.
    let v = vault_with_members(3, 2);
    let mut p = sample_proposal(&v, 2);
    p.cast_vote(&v, &key(10), 7, VoteKind::Approve, 200).unwrap();
    p.cast_vote(&v, &key(11), 7, VoteKind::Approve, 201).unwrap();
    assert_eq!(p.status, ProposalStatus::Approved);
    let r = p.execute_proposal(&v, &key(10), 1001);
    assert_eq!(r.unwrap_err(), TreasuryError::DeadlinePassed);
    assert_eq!(p.status, ProposalStatus::Approved);
}

#[test]
fn test_execute_direct_transfer_marks_executed() {
    let v = vault_with_members(3, 2);
    let mut p = sample_proposal(&v, 2);
    p.cast_vote(&v, &key(10), 7, VoteKind::Approve, 200).unwrap();
    p.cast_vote(&v, &key(11), 7, VoteKind::Approve, 201).unwrap();
    let t = p.execute_proposal(&v, &key(10), 300).unwrap();
    assert_eq!(t, StreamType::TokenTransfers);
    assert_eq!(p.status, ProposalStatus::Executed);
}

#[test]
fn test_execute_streaming_stays_active() {
    let v = vault_with_members(3, 2);
    let mut p = StreamProposal::create(
        key(10),
        &v,
        1,
        7,
        StreamType::PaymentStreaming,
        2,
        1000,
        vec![0u8; 32],
        vec![0u8; 128],
        100,
    )
    .unwrap();
    p.cast_vote(&v, &key(10), 7, VoteKind::Approve, 200).unwrap();
    p.cast_vote(&v, &key(11), 7, VoteKind::Approve, 201).unwrap();
    let t = p.execute_proposal(&v, &key(11), 300).unwrap();
    assert_eq!(t, StreamType::PaymentStreaming);
    assert_eq!(p.status, ProposalStatus::Active);
}

#[test]
fn test_execute_requires_executor_approval() {
    let v = vault_with_members(3, 2);
    let mut p = sample_proposal(&v, 2);
    p.cast_vote(&v, &key(10), 7, VoteKind::Approve, 200).unwrap();
    p.cast_vote(&v, &key(11), 7, VoteKind::Approve, 201).unwrap();
    // Member 12 never approved.
    let r = p.execute_proposal(&v, &key(12), 300);
    assert_eq!(r.unwrap_err(), TreasuryError::InvalidAccountData);
    // Key 99 is no member at all.
    let r = p.execute_proposal(&v, &key(99), 300);
    assert_eq!(r.unwrap_err(), TreasuryError::NotAMember);
}

#[test]
fn test_execute_unapproved_proposal_fails() {
    let v = vault_with_members(3, 2);
    let mut p = sample_proposal(&v, 2);
    p.cast_vote(&v, &key(10), 7, VoteKind::Approve, 200).unwrap();
    assert!(!p.can_execute_proposal(&v, 300));
    let r = p.execute_proposal(&v, &key(10), 300);
    assert_eq!(r.unwrap_err(), TreasuryError::InvalidAccountData);
}

#[test]
fn test_can_execute_proposal_conditions() {
    let v = vault_with_members(3, 2);
    let mut p = sample_proposal(&v, 2);
    p.cast_vote(&v, &key(10), 7, VoteKind::Approve, 200).unwrap();
    p.cast_vote(&v, &key(11), 7, VoteKind::Approve, 201).unwrap();
    assert!(p.can_execute_proposal(&v, 300));
    assert!(!p.can_execute_proposal(&v, 1001));
    let mut inactive = vault_with_members(3, 2);
    inactive.is_active = false;
    assert!(!p.can_execute_proposal(&inactive, 300));
}

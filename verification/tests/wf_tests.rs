use multisig_treasury::batch::{BatchState, BatchTransfer};
use multisig_treasury::keys::Pubkey;
use multisig_treasury::proposal::{ProposalStatus, StreamProposal, StreamType};
use multisig_treasury::stream::PaymentStreamingInfo;
use multisig_treasury::vault::MultiSignatureVault;
use multisig_treasury::vesting::{VestingContractInfo, VestingRecordInfo};

fn key(n: u8) -> Pubkey {
    [n; 32]
}

#[test]
fn test_vault_check_wf() {
    let mut v = MultiSignatureVault::create(
        key(1),
        &key(2),
        key(3),
        7,
        3,
        2,
        86400,
        0,
        0,
        0,
        0,
    )
    .unwrap();
    assert!(v.check_wf());
    // A duplicated member slot breaks well-formedness.
    v.member_keys = vec![key(10), key(10)];
    assert!(!v.check_wf());
    // A zero slot breaks it too.
    v.member_keys = vec![key(10), key(0)];
    assert!(!v.check_wf());
    // A threshold above the member count breaks it.
    v.member_keys = vec![key(10), key(11)];
    v.threshold = 99;
    assert!(!v.check_wf());
}

#[test]
fn test_proposal_check_wf() {
    let mut base = MultiSignatureVault::create(key(1), &key(2), key(3), 7, 3, 2, 86400, 0, 0, 0, 0)
        .unwrap();
    base.add_member(&key(1), &key(10), 0).unwrap();
    let mut p = StreamProposal::create(
        key(10),
        &base,
        1,
        7,
        StreamType::TokenTransfers,
        2,
        1000,
        vec![0u8; 32],
        vec![0u8; 128],
        100,
    )
    .unwrap();
    assert!(p.check_wf());
    // A count out of step with its slots breaks well-formedness.
    p.approval_count = 1;
    assert!(!p.check_wf());
    p.approval_count = 0;
    // The same voter in both sets breaks it.
    p.approvals = vec![key(10)];
    p.approval_count = 1;
    p.rejections = vec![key(10)];
    p.rejection_count = 1;
    p.total_vote_count = 2;
    assert!(!p.check_wf());
    assert_eq!(p.status, ProposalStatus::Active);
}

#[test]
fn test_stream_check_wf() {
    let mut s = PaymentStreamingInfo::init_stream_payment(
        key(1),
        key(2),
        key(3),
        key(4),
        1000,
        0,
        86400,
    )
    .unwrap();
    assert!(s.check_wf());
    s.withdrawn_amount = 1001;
    assert!(!s.check_wf());
}

#[test]
fn test_vesting_check_wf() {
    let c = VestingContractInfo::init_vesting_contract(key(1), vec![7u8; 32], key(2), key(3), 0, 0, 0);
    assert!(c.check_wf());
    // More claimed than ever deposited breaks well-formedness.
    let mut over = c.clone();
    over.total_claimed_tokens = 1;
    assert!(!over.check_wf());
    // A contract marked fully claimed must be claimed to its vested total.
    let mut stale = c.clone();
    stale.total_vested_tokens = 10;
    stale.fully_claimed = true;
    assert!(!stale.check_wf());
    let rec = VestingRecordInfo {
        beneficiary: key(5),
        mint: key(2),
        total_vested_tokens: 100,
        total_claimed_tokens_by_beneficiary: 0,
        cliff_period: 10,
        vault_bump: 0,
        vesting_contract_info_bump: 0,
        bump: 0,
        beneficiary_ata: key(6),
        has_claimed: false,
        start_time: 0,
        end_time: 100,
    };
    assert!(rec.check_wf());
    let mut bad = rec;
    bad.cliff_period = -1;
    assert!(!bad.check_wf());
    // A record marked claimed must be claimed in full.
    let mut half = rec;
    half.has_claimed = true;
    half.total_claimed_tokens_by_beneficiary = 50;
    assert!(!half.check_wf());
}

#[test]
fn test_batch_check_wf() {
    let mut b = BatchState::initialize_batch_state(1, key(1), key(2), 2, 0);
    assert!(b.check_wf());
    b.processed_count = 3;
    assert!(!b.check_wf());
    b.processed_count = 1;
    b.is_completed = 1;
    assert!(!b.check_wf());

    let mut t = BatchTransfer::new(1, 10);
    assert!(t.check_wf());
    t.num_recipients = 1;
    assert!(!t.check_wf());
}

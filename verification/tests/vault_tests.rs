use multisig_treasury::errors::TreasuryError;
use multisig_treasury::keys::Pubkey;
use multisig_treasury::vault::MultiSignatureVault;

fn key(n: u8) -> Pubkey {
    [n; 32]
}

fn sample_vault(member_count: u64, threshold: u64) -> MultiSignatureVault {
    MultiSignatureVault::create(
        key(1),
        &key(2),
        key(3),
        7,
        member_count,
        threshold,
        86400,
        1_000_000,
        1_640_995_200,
        254,
        253,
    )
    .unwrap()
}

#[test]
fn test_create_vault_fields() {
    let v = sample_vault(3, 2);
    assert_eq!(v.id, 7);
    assert_eq!(v.admin, key(1));
    assert!(v.is_active);
    assert_eq!(v.member_count, 3);
    assert_eq!(v.member_keys.len(), 0);
    assert_eq!(v.threshold, 2);
    assert_eq!(v.proposal_expiry, 86400);
    assert_eq!(v.treasury_vault, key(3));
    assert_eq!(v.created_at, 1_640_995_200);
    assert_eq!(v.last_updated, 1_640_995_200);
    assert_eq!(v.minimum_balance, 1_000_000);
    assert_eq!(v.total_proposals, 0);
    assert_eq!(v.bump, 254);
    assert_eq!(v.treasury_vault_bump, 253);
}

#[test]
fn test_create_vault_rejects_bad_member_count() {
    let r = MultiSignatureVault::create(
        key(1),
        &key(2),
        key(3),
        7,
        0,
        1,
        86400,
        0,
        0,
        0,
        0,
    );
    assert_eq!(r.unwrap_err(), TreasuryError::InvalidInstructionData);
    let r = MultiSignatureVault::create(
        key(1),
        &key(2),
        key(3),
        7,
        11,
        1,
        86400,
        0,
        0,
        0,
        0,
    );
    assert_eq!(r.unwrap_err(), TreasuryError::InvalidInstructionData);
}

#[test]
fn test_create_vault_rejects_bad_threshold() {
    let r = MultiSignatureVault::create(key(1), &key(2), key(3), 7, 3, 0, 86400, 0, 0, 0, 0);
    assert_eq!(r.unwrap_err(), TreasuryError::InvalidInstructionData);
    let r = MultiSignatureVault::create(key(1), &key(2), key(3), 7, 3, 4, 86400, 0, 0, 0, 0);
    assert_eq!(r.unwrap_err(), TreasuryError::InvalidInstructionData);
}

#[test]
fn test_create_vault_rejects_nonpositive_expiry() {
    let r = MultiSignatureVault::create(key(1), &key(2), key(3), 7, 3, 2, 0, 0, 0, 0, 0);
    assert_eq!(r.unwrap_err(), TreasuryError::InvalidInstructionData);
    let r = MultiSignatureVault::create(key(1), &key(2), key(3), 7, 3, 2, -5, 0, 0, 0, 0);
    assert_eq!(r.unwrap_err(), TreasuryError::InvalidInstructionData);
}

#[test]
fn test_create_vault_rejects_zero_mint() {
    let r = MultiSignatureVault::create(key(1), &[0u8; 32], key(3), 7, 3, 2, 86400, 0, 0, 0, 0);
    assert_eq!(r.unwrap_err(), TreasuryError::InvalidAccountData);
}

#[test]
fn test_add_member_success_updates_count_and_time() {
    let mut v = sample_vault(3, 2);
    let r = v.add_member(&key(1), &key(10), 1_641_000_000);
    assert!(r.is_ok());
    assert_eq!(v.member_count, 4);
    assert_eq!(v.member_keys, vec![key(10)]);
    assert_eq!(v.last_updated, 1_641_000_000);
    // Threshold still lies in [1, member_count] after the mutation.
    assert!(1 <= v.threshold && v.threshold <= v.member_count);
}

#[test]
fn test_add_member_requires_admin() {
    let mut v = sample_vault(3, 2);
    let r = v.add_member(&key(9), &key(10), 0);
    assert_eq!(r.unwrap_err(), TreasuryError::InvalidAccountData);
    assert_eq!(v.member_keys.len(), 0);
}

#[test]
fn test_add_member_rejects_inactive_vault() {
    let mut v = sample_vault(3, 2);
    v.is_active = false;
    let r = v.add_member(&key(1), &key(10), 0);
    assert_eq!(r.unwrap_err(), TreasuryError::InvalidAccountData);
}

#[test]
fn test_add_member_rejects_duplicate() {
    let mut v = sample_vault(3, 2);
    v.add_member(&key(1), &key(10), 0).unwrap();
    let r = v.add_member(&key(1), &key(10), 1);
    assert_eq!(r.unwrap_err(), TreasuryError::InvalidAccountData);
    assert_eq!(v.member_keys.len(), 1);
}

#[test]
fn test_add_member_rejects_zero_key() {
    let mut v = sample_vault(3, 2);
    let r = v.add_member(&key(1), &[0u8; 32], 0);
    assert_eq!(r.unwrap_err(), TreasuryError::InvalidAccountData);
}

#[test]
fn test_add_eleventh_member_fails_with_capacity_error() {
    let mut v = sample_vault(10, 2);
    for i in 0..10u8 {
        v.add_member(&key(1), &key(100 + i), i as i64).unwrap();
    }
    assert_eq!(v.member_keys.len(), 10);
    let r = v.add_member(&key(1), &key(200), 99);
    assert_eq!(r.unwrap_err(), TreasuryError::MemberCapacityReached);
    assert_eq!(v.member_keys.len(), 10);
    assert_eq!(v.member_count, 20);
}

#[test]
fn test_authorize_deposit() {
    // The vault's recorded treasury is key(3); a deposit must name exactly
    // that account.
    let v = sample_vault(3, 2);
    assert!(v.authorize_deposit(&key(1), &key(3), 500).is_ok());
    assert_eq!(
        v.authorize_deposit(&key(1), &key(3), 0).unwrap_err(),
        TreasuryError::InvalidInstructionData
    );
    assert_eq!(
        v.authorize_deposit(&key(9), &key(3), 500).unwrap_err(),
        TreasuryError::InvalidAccountData
    );
    assert_eq!(
        v.authorize_deposit(&key(1), &key(4), 500).unwrap_err(),
        TreasuryError::AddressMismatch
    );
}

#[test]
fn test_has_member() {
    let mut v = sample_vault(3, 2);
    v.add_member(&key(1), &key(10), 0).unwrap();
    assert!(v.has_member(&key(10)));
    assert!(!v.has_member(&key(11)));
}

//! The vault registry: membership, admin authority and the approval
//! threshold for one jointly controlled treasury.
//!
//! Member slots are a fixed-capacity set of at most 10 addresses, unique and
//! never the all-zero address. The threshold always lies between 1 and the
//! recorded member count; both facts are part of [`MultiSignatureVault::wf`]
//! and every mutating operation preserves them.
use vstd::prelude::*;

use crate::errors::TreasuryError;
use crate::keys::{
    check_keys_unique, check_no_zero_keys, find_key, has_key, is_zero_key, is_zero_key_exec,
    keys_unique, pubkey_eq, Pubkey,
};

verus! {

/// The record of one vault: its identity, configuration and member set.
#[derive(Clone, Debug)]
pub struct MultiSignatureVault {
    pub id: u64,
    pub admin: Pubkey,
    pub is_active: bool,
    pub member_count: u64,
    /// The filled member slots; at most 10 entries, unique, never all-zero.
    pub member_keys: Vec<Pubkey>,
    pub threshold: u64,
    pub proposal_expiry: i64,
    pub total_proposals: u64,
    pub treasury_vault: Pubkey,
    pub created_at: i64,
    pub last_updated: i64,
    pub minimum_balance: u64,
    pub active_proposals: u64,
    pub executed_proposals: u64,
    pub bump: u8,
    pub treasury_vault_bump: u8,
}

impl MultiSignatureVault {
    /// Well-formedness: the threshold lies in `[1, member_count]`, the member
    /// slots hold at most 10 unique non-zero addresses, and the recorded
    /// member count never runs ahead of the slots by more than the capacity.
    pub open spec fn wf(self) -> bool {
        &&& 1 <= self.threshold
        &&& self.threshold <= self.member_count
        &&& self.member_count <= 10 + self.member_keys@.len()
        &&& self.member_keys@.len() <= 10
        &&& keys_unique(self.member_keys@)
        &&& forall|i: int| 0 <= i < self.member_keys@.len() ==> !is_zero_key(
            #[trigger] self.member_keys@[i],
        )
    }

    /// Holds when `k` occupies one of the vault's member slots.
    pub open spec fn is_member(self, k: Pubkey) -> bool {
        has_key(self.member_keys@, k)
    }

    /// Decides [`Self::wf`] at run time, so a host can validate a record it
    /// read from storage before operating on it.
    pub fn check_wf(&self) -> (r: bool)
        ensures
            r == self.wf(),
    {
        if self.threshold < 1 {
            return false;
        }
        if self.threshold > self.member_count {
            return false;
        }
        if self.member_keys.len() > 10 {
            return false;
        }
        if self.member_count > 10 + self.member_keys.len() as u64 {
            return false;
        }
        if !check_keys_unique(&self.member_keys) {
            return false;
        }
        if !check_no_zero_keys(&self.member_keys) {
            return false;
        }
        true
    }

    /// The validation a vault creation runs, in order; `None` means it passes.
    pub open spec fn create_checks(
        mint: Pubkey,
        member_count: u64,
        threshold: u64,
        proposal_expiry: i64,
    ) -> Option<TreasuryError> {
        if member_count == 0 || member_count > 10 {
            Some(TreasuryError::InvalidInstructionData)
        } else if threshold == 0 || threshold > member_count {
            Some(TreasuryError::InvalidInstructionData)
        } else if proposal_expiry <= 0 {
            Some(TreasuryError::InvalidInstructionData)
        } else if is_zero_key(mint) {
            Some(TreasuryError::InvalidAccountData)
        } else {
            None
        }
    }

    /// Allocates a fresh vault record with no member slots filled.
    ///
    /// Fails if the declared member count is outside `[1, 10]`, the threshold
    /// is outside `[1, member_count]`, the proposal expiry is not a positive
    /// duration, or the mint is the all-zero address. The host supplies the
    /// current time and the two disambiguation nonces of the derived
    /// addresses.
    pub fn create(
        admin: Pubkey,
        mint: &Pubkey,
        treasury_vault: Pubkey,
        multisig_id: u64,
        member_count: u64,
        threshold: u64,
        proposal_expiry: i64,
        minimum_balance: u64,
        now: i64,
        bump: u8,
        treasury_vault_bump: u8,
    ) -> (r: Result<MultiSignatureVault, TreasuryError>)
        ensures
            match r {
                Ok(v) => {
                    &&& Self::create_checks(*mint, member_count, threshold, proposal_expiry)
                        is None
                    &&& v.id == multisig_id
                    &&& v.admin@ == admin@
                    &&& v.is_active
                    &&& v.member_count == member_count
                    &&& v.member_keys@.len() == 0
                    &&& v.threshold == threshold
                    &&& v.proposal_expiry == proposal_expiry
                    &&& v.total_proposals == 0
                    &&& v.treasury_vault@ == treasury_vault@
                    &&& v.created_at == now
                    &&& v.last_updated == now
                    &&& v.minimum_balance == minimum_balance
                    &&& v.active_proposals == 0
                    &&& v.executed_proposals == 0
                    &&& v.bump == bump
                    &&& v.treasury_vault_bump == treasury_vault_bump
                    &&& v.wf()
                },
                Err(e) => Self::create_checks(*mint, member_count, threshold, proposal_expiry)
                    == Some(e),
            },
    {
        if member_count == 0 || member_count > 10 {
            return Err(TreasuryError::InvalidInstructionData);
        }
        if threshold == 0 || threshold > member_count {
            return Err(TreasuryError::InvalidInstructionData);
        }
        if proposal_expiry <= 0 {
            return Err(TreasuryError::InvalidInstructionData);
        }
        if is_zero_key_exec(mint) {
            return Err(TreasuryError::InvalidAccountData);
        }
        Ok(
            MultiSignatureVault {
                id: multisig_id,
                admin,
                is_active: true,
                member_count,
                member_keys: Vec::new(),
                threshold,
                proposal_expiry,
                total_proposals: 0,
                treasury_vault,
                created_at: now,
                last_updated: now,
                minimum_balance,
                active_proposals: 0,
                executed_proposals: 0,
                bump,
                treasury_vault_bump,
            },
        )
    }

    /// The validation an `add_member` call runs, in order; `None` means it
    /// passes.
    pub open spec fn add_member_checks(v: Self, admin: Pubkey, member: Pubkey) -> Option<
        TreasuryError,
    > {
        if v.admin@ != admin@ {
            Some(TreasuryError::InvalidAccountData)
        } else if !v.is_active {
            Some(TreasuryError::InvalidAccountData)
        } else if is_zero_key(member) {
            Some(TreasuryError::InvalidAccountData)
        } else if has_key(v.member_keys@, member) {
            Some(TreasuryError::InvalidAccountData)
        } else if v.member_keys@.len() >= 10 {
            Some(TreasuryError::MemberCapacityReached)
        } else {
            None
        }
    }

    /// Adds `member` to the vault's member set.
    ///
    /// Only the recorded admin may call; fails if the vault is inactive, the
    /// member is the all-zero address or already present, or all 10 slots are
    /// taken. On success the member count grows by one and `last_updated`
    /// takes the supplied time. On failure the record is unchanged.
    pub fn add_member(&mut self, admin: &Pubkey, member: &Pubkey, now: i64) -> (r: Result<
        (),
        TreasuryError,
    >)
        requires
            old(self).wf(),
        ensures
            final(self).wf(),
            match r {
                Ok(()) => {
                    &&& Self::add_member_checks(*old(self), *admin, *member) is None
                    &&& final(self).member_keys@ == old(self).member_keys@.push(*member)
                    &&& final(self).member_count == old(self).member_count + 1
                    &&& final(self).last_updated == now
                    &&& final(self).id == old(self).id
                    &&& final(self).admin@ == old(self).admin@
                    &&& final(self).is_active == old(self).is_active
                    &&& final(self).threshold == old(self).threshold
                    &&& final(self).proposal_expiry == old(self).proposal_expiry
                    &&& final(self).total_proposals == old(self).total_proposals
                    &&& final(self).treasury_vault@ == old(self).treasury_vault@
                    &&& final(self).created_at == old(self).created_at
                    &&& final(self).minimum_balance == old(self).minimum_balance
                    &&& final(self).active_proposals == old(self).active_proposals
                    &&& final(self).executed_proposals == old(self).executed_proposals
                    &&& final(self).bump == old(self).bump
                    &&& final(self).treasury_vault_bump == old(self).treasury_vault_bump
                },
                Err(e) => {
                    &&& Self::add_member_checks(*old(self), *admin, *member) == Some(e)
                    &&& *final(self) == *old(self)
                },
            },
    {
        if !pubkey_eq(&self.admin, admin) {
            return Err(TreasuryError::InvalidAccountData);
        }
        if !self.is_active {
            return Err(TreasuryError::InvalidAccountData);
        }
        if is_zero_key_exec(member) {
            return Err(TreasuryError::InvalidAccountData);
        }
        if find_key(&self.member_keys, member) {
            return Err(TreasuryError::InvalidAccountData);
        }
        if self.member_keys.len() >= 10 {
            return Err(TreasuryError::MemberCapacityReached);
        }
        self.member_keys.push(*member);
        self.member_count = self.member_count + 1;
        self.last_updated = now;
        Ok(())
    }

    /// The validation a treasury deposit runs, in order; `None` means it
    /// passes.
    pub open spec fn deposit_checks(
        v: Self,
        admin: Pubkey,
        treasury_vault: Pubkey,
        amount: u64,
    ) -> Option<TreasuryError> {
        if amount == 0 {
            Some(TreasuryError::InvalidInstructionData)
        } else if v.admin@ != admin@ {
            Some(TreasuryError::InvalidAccountData)
        } else if v.treasury_vault@ != treasury_vault@ {
            Some(TreasuryError::AddressMismatch)
        } else {
            None
        }
    }

    /// Authorizes a deposit of `amount` into the vault's treasury.
    ///
    /// Only the recorded admin may deposit, the amount must be nonzero, and
    /// the supplied treasury account must be the one the vault record binds,
    /// so a deposit can never feed an account the disbursement paths do not
    /// draw from. The fund movement itself is the host's atomic transfer
    /// primitive; the vault record does not change.
    pub fn authorize_deposit(
        &self,
        admin: &Pubkey,
        treasury_vault: &Pubkey,
        amount: u64,
    ) -> (r: Result<(), TreasuryError>)
        ensures
            match r {
                Ok(()) => Self::deposit_checks(*self, *admin, *treasury_vault, amount) is None,
                Err(e) => Self::deposit_checks(*self, *admin, *treasury_vault, amount)
                    == Some(e),
            },
    {
        if amount == 0 {
            return Err(TreasuryError::InvalidInstructionData);
        }
        if !pubkey_eq(&self.admin, admin) {
            return Err(TreasuryError::InvalidAccountData);
        }
        if !pubkey_eq(&self.treasury_vault, treasury_vault) {
            return Err(TreasuryError::AddressMismatch);
        }
        Ok(())
    }

    /// Scans the member slots for `member`.
    pub fn has_member(&self, member: &Pubkey) -> (r: bool)
        ensures
            r == self.is_member(*member),
    {
        find_key(&self.member_keys, member)
    }
}

} // verus!

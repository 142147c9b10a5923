//! Vesting: per-beneficiary linear unlock of an allotted amount, gated by an
//! initial cliff period.
//!
//! A `VestingContractInfo` aggregates the creator's deposits; each
//! beneficiary holds an independent `VestingRecordInfo`. A claim fails until
//! the cliff is reached, and is refused outright when it would pay out more
//! than the deposits still cover, so the contract's claimed total never
//! exceeds its vested total. Once a claim succeeds, the record is marked
//! fully claimed in one step — every successful claim is final rather than
//! a partial pro-rata withdrawal — while the contract's claimed total
//! accumulates the actually paid amount and `fully_claimed` holds exactly
//! while the claimed total equals the vested total.
use vstd::prelude::*;

use vstd::arithmetic::mul::lemma_mul_upper_bound;

use crate::arith::lemma_pro_rata_bounds;
use crate::errors::TreasuryError;
use crate::keys::{pubkey_eq, Pubkey};

verus! {

/// The record of one vesting contract: the creator's aggregate accounting.
#[derive(Clone, Debug)]
pub struct VestingContractInfo {
    pub creator: Pubkey,
    /// Fixed 32-byte company tag; also an input of the record's derived
    /// address.
    pub company_name: Vec<u8>,
    pub mint: Pubkey,
    /// Tokens the creator has deposited into the vault.
    pub total_vested_tokens: u64,
    /// Tokens currently accounted as available for distribution.
    pub total_available_tokens: u64,
    /// Tokens allotted to beneficiaries across all records.
    pub total_locked_tokens: u64,
    /// Tokens paid out to beneficiaries so far.
    pub total_claimed_tokens: u64,
    pub vault_account: Pubkey,
    pub created_at: i64,
    pub vault_bump: u8,
    pub bump: u8,
    pub is_active: bool,
    pub fully_claimed: bool,
}

/// The record of one beneficiary's vesting schedule and claim state.
#[derive(Clone, Copy, Debug)]
pub struct VestingRecordInfo {
    pub beneficiary: Pubkey,
    pub mint: Pubkey,
    pub total_vested_tokens: u64,
    pub total_claimed_tokens_by_beneficiary: u64,
    pub cliff_period: i64,
    pub vault_bump: u8,
    pub vesting_contract_info_bump: u8,
    pub bump: u8,
    pub beneficiary_ata: Pubkey,
    pub has_claimed: bool,
    pub start_time: i64,
    pub end_time: i64,
}

impl VestingContractInfo {
    /// Well-formedness: the company tag has its declared width, beneficiaries
    /// have never been paid more than the creator deposited, and a contract
    /// marked fully claimed is claimed to exactly its vested total.
    pub open spec fn wf(self) -> bool {
        &&& self.company_name@.len() == 32
        &&& self.total_claimed_tokens <= self.total_vested_tokens
        &&& (self.fully_claimed ==> self.total_claimed_tokens == self.total_vested_tokens)
    }

    /// Decides [`Self::wf`] at run time, so a host can validate a record it
    /// read from storage before operating on it.
    pub fn check_wf(&self) -> (r: bool)
        ensures
            r == self.wf(),
    {
        self.company_name.len() == 32 && self.total_claimed_tokens <= self.total_vested_tokens
            && (!self.fully_claimed || self.total_claimed_tokens == self.total_vested_tokens)
    }

    /// Initializes a fresh, active vesting contract with zeroed accounting.
    pub fn init_vesting_contract(
        creator: Pubkey,
        company_name: Vec<u8>,
        mint: Pubkey,
        vault_account: Pubkey,
        now: i64,
        vault_bump: u8,
        bump: u8,
    ) -> (r: VestingContractInfo)
        requires
            company_name@.len() == 32,
        ensures
            r.creator@ == creator@,
            r.company_name@ == company_name@,
            r.mint@ == mint@,
            r.total_vested_tokens == 0,
            r.total_available_tokens == 0,
            r.total_locked_tokens == 0,
            r.total_claimed_tokens == 0,
            r.vault_account@ == vault_account@,
            r.created_at == now,
            r.vault_bump == vault_bump,
            r.bump == bump,
            r.is_active,
            !r.fully_claimed,
            r.wf(),
    {
        VestingContractInfo {
            creator,
            company_name,
            mint,
            total_vested_tokens: 0,
            total_available_tokens: 0,
            total_locked_tokens: 0,
            total_claimed_tokens: 0,
            vault_account,
            created_at: now,
            vault_bump,
            bump,
            is_active: true,
            fully_claimed: false,
        }
    }

    /// The validation a deposit into the vesting vault runs; `None` means it
    /// passes.
    pub open spec fn deposit_checks(c: Self, deposit_amount: u64) -> Option<TreasuryError> {
        if c.total_vested_tokens + deposit_amount > u64::MAX || c.total_available_tokens
            + deposit_amount > u64::MAX {
            Some(TreasuryError::ArithmeticOverflow)
        } else {
            None
        }
    }

    /// Records a deposit of `deposit_amount` into the vesting vault: both the
    /// vested and the available totals grow by it, and a contract marked
    /// fully claimed loses that mark once the deposit leaves the claimed
    /// total short of the new vested total, so the mark keeps meaning
    /// "claimed up to everything deposited". The host performs the token
    /// transfer; if that fails, nothing of the record is persisted.
    pub fn deposit_tokens(&mut self, deposit_amount: u64) -> (r: Result<(), TreasuryError>)
        requires
            old(self).wf(),
        ensures
            final(self).wf(),
            match r {
                Ok(()) => {
                    &&& Self::deposit_checks(*old(self), deposit_amount) is None
                    &&& final(self).total_vested_tokens == old(self).total_vested_tokens
                        + deposit_amount
                    &&& final(self).total_available_tokens == old(self).total_available_tokens
                        + deposit_amount
                    &&& final(self).total_locked_tokens == old(self).total_locked_tokens
                    &&& final(self).total_claimed_tokens == old(self).total_claimed_tokens
                    &&& final(self).creator@ == old(self).creator@
                    &&& final(self).company_name@ == old(self).company_name@
                    &&& final(self).mint@ == old(self).mint@
                    &&& final(self).vault_account@ == old(self).vault_account@
                    &&& final(self).created_at == old(self).created_at
                    &&& final(self).vault_bump == old(self).vault_bump
                    &&& final(self).bump == old(self).bump
                    &&& final(self).is_active == old(self).is_active
                    &&& final(self).fully_claimed == (old(self).fully_claimed && final(self).total_claimed_tokens == final(self).total_vested_tokens)
                },
                Err(e) => {
                    &&& Self::deposit_checks(*old(self), deposit_amount) == Some(e)
                    &&& *final(self) == *old(self)
                },
            },
    {
        let vested = match self.total_vested_tokens.checked_add(deposit_amount) {
            Some(v) => v,
            None => {
                return Err(TreasuryError::ArithmeticOverflow);
            },
        };
        let available = match self.total_available_tokens.checked_add(deposit_amount) {
            Some(v) => v,
            None => {
                return Err(TreasuryError::ArithmeticOverflow);
            },
        };
        self.total_vested_tokens = vested;
        self.total_available_tokens = available;
        if self.total_claimed_tokens < self.total_vested_tokens {
            self.fully_claimed = false;
        }
        Ok(())
    }

    /// The validation a beneficiary initialization runs, in order; `None`
    /// means it passes.
    pub open spec fn init_beneficiary_checks(
        c: Self,
        creator: Pubkey,
        cliff_period: i64,
        start_time: i64,
        end_time: i64,
        vesting_amount: u64,
    ) -> Option<TreasuryError> {
        if start_time >= end_time {
            Some(TreasuryError::InvalidInstructionData)
        } else if vesting_amount == 0 {
            Some(TreasuryError::InvalidInstructionData)
        } else if cliff_period < 0 {
            Some(TreasuryError::InvalidInstructionData)
        } else if c.creator@ != creator@ {
            Some(TreasuryError::InvalidAccountData)
        } else if !c.is_active {
            Some(TreasuryError::InvalidAccountData)
        } else if c.total_available_tokens + vesting_amount > u64::MAX
            || c.total_locked_tokens + vesting_amount > u64::MAX {
            Some(TreasuryError::ArithmeticOverflow)
        } else {
            None
        }
    }

    /// Allots `vesting_amount` to a new beneficiary: creates the
    /// beneficiary's record with its schedule and adds the amount to the
    /// contract's available and locked totals.
    ///
    /// Only the recorded creator of an active contract may call; the
    /// schedule's window must be non-empty, the amount nonzero and the cliff
    /// non-negative. On failure the contract is unchanged.
    pub fn init_beneficiary(
        &mut self,
        creator: &Pubkey,
        beneficiary: Pubkey,
        mint: Pubkey,
        beneficiary_ata: Pubkey,
        cliff_period: i64,
        start_time: i64,
        end_time: i64,
        vesting_amount: u64,
        record_bump: u8,
    ) -> (r: Result<VestingRecordInfo, TreasuryError>)
        requires
            old(self).wf(),
        ensures
            final(self).wf(),
            match r {
                Ok(rec) => {
                    &&& Self::init_beneficiary_checks(
                        *old(self),
                        *creator,
                        cliff_period,
                        start_time,
                        end_time,
                        vesting_amount,
                    ) is None
                    &&& rec.beneficiary@ == beneficiary@
                    &&& rec.mint@ == mint@
                    &&& rec.total_vested_tokens == vesting_amount
                    &&& rec.total_claimed_tokens_by_beneficiary == 0
                    &&& rec.cliff_period == cliff_period
                    &&& rec.vault_bump == old(self).vault_bump
                    &&& rec.vesting_contract_info_bump == old(self).bump
                    &&& rec.bump == record_bump
                    &&& rec.beneficiary_ata@ == beneficiary_ata@
                    &&& !rec.has_claimed
                    &&& rec.start_time == start_time
                    &&& rec.end_time == end_time
                    &&& rec.wf()
                    &&& final(self).total_available_tokens == old(self).total_available_tokens
                        + vesting_amount
                    &&& final(self).total_locked_tokens == old(self).total_locked_tokens
                        + vesting_amount
                    &&& final(self).total_vested_tokens == old(self).total_vested_tokens
                    &&& final(self).total_claimed_tokens == old(self).total_claimed_tokens
                    &&& final(self).creator@ == old(self).creator@
                    &&& final(self).company_name@ == old(self).company_name@
                    &&& final(self).mint@ == old(self).mint@
                    &&& final(self).vault_account@ == old(self).vault_account@
                    &&& final(self).created_at == old(self).created_at
                    &&& final(self).vault_bump == old(self).vault_bump
                    &&& final(self).bump == old(self).bump
                    &&& final(self).is_active == old(self).is_active
                    &&& final(self).fully_claimed == old(self).fully_claimed
                },
                Err(e) => {
                    &&& Self::init_beneficiary_checks(
                        *old(self),
                        *creator,
                        cliff_period,
                        start_time,
                        end_time,
                        vesting_amount,
                    ) == Some(e)
                    &&& *final(self) == *old(self)
                },
            },
    {
        if start_time >= end_time {
            return Err(TreasuryError::InvalidInstructionData);
        }
        if vesting_amount == 0 {
            return Err(TreasuryError::InvalidInstructionData);
        }
        if cliff_period < 0 {
            return Err(TreasuryError::InvalidInstructionData);
        }
        if !pubkey_eq(&self.creator, creator) {
            return Err(TreasuryError::InvalidAccountData);
        }
        if !self.is_active {
            return Err(TreasuryError::InvalidAccountData);
        }
        let available = match self.total_available_tokens.checked_add(vesting_amount) {
            Some(v) => v,
            None => {
                return Err(TreasuryError::ArithmeticOverflow);
            },
        };
        let locked = match self.total_locked_tokens.checked_add(vesting_amount) {
            Some(v) => v,
            None => {
                return Err(TreasuryError::ArithmeticOverflow);
            },
        };
        self.total_available_tokens = available;
        self.total_locked_tokens = locked;
        Ok(
            VestingRecordInfo {
                beneficiary,
                mint,
                total_vested_tokens: vesting_amount,
                total_claimed_tokens_by_beneficiary: 0,
                cliff_period,
                vault_bump: self.vault_bump,
                vesting_contract_info_bump: self.bump,
                bump: record_bump,
                beneficiary_ata,
                has_claimed: false,
                start_time,
                end_time,
            },
        )
    }
}

impl VestingRecordInfo {
    /// Well-formedness: the window is non-empty, the cliff is non-negative,
    /// the beneficiary never claimed more than their allotment, and a record
    /// marked claimed is claimed in full.
    pub open spec fn wf(self) -> bool {
        &&& self.start_time < self.end_time
        &&& self.cliff_period >= 0
        &&& self.total_claimed_tokens_by_beneficiary <= self.total_vested_tokens
        &&& (self.has_claimed ==> self.total_claimed_tokens_by_beneficiary
            == self.total_vested_tokens)
    }

    /// Decides [`Self::wf`] at run time, so a host can validate a record it
    /// read from storage before operating on it.
    pub fn check_wf(&self) -> (r: bool)
        ensures
            r == self.wf(),
    {
        self.start_time < self.end_time && self.cliff_period >= 0
            && self.total_claimed_tokens_by_beneficiary <= self.total_vested_tokens && (
        !self.has_claimed || self.total_claimed_tokens_by_beneficiary
            == self.total_vested_tokens)
    }

    /// The raw claimable amount at `now`, before the cliff gate: the whole
    /// unclaimed remainder at or after the end, otherwise the elapsed share
    /// of the allotment less what was already claimed (possibly negative).
    pub open spec fn spec_claimable(self, now: int) -> int {
        if now >= self.end_time {
            self.total_vested_tokens - self.total_claimed_tokens_by_beneficiary
        } else {
            self.total_vested_tokens * (now - self.start_time) / (self.end_time
                - self.start_time) - self.total_claimed_tokens_by_beneficiary
        }
    }
}

/// The validation a claim runs, in order; `None` means it passes. The
/// arithmetic conditions mirror the checked operations of the claim: an
/// unrepresentable unlock time, window or elapsed time fails the claim
/// rather than wrapping.
pub open spec fn claim_checks(
    c: VestingContractInfo,
    rec: VestingRecordInfo,
    now: i64,
) -> Option<TreasuryError> {
    if now < rec.start_time {
        Some(TreasuryError::InvalidAccountData)
    } else if !c.is_active {
        Some(TreasuryError::InvalidAccountData)
    } else if rec.start_time + rec.cliff_period > i64::MAX {
        Some(TreasuryError::InvalidAccountData)
    } else if now < rec.start_time + rec.cliff_period {
        Some(TreasuryError::InvalidAccountData)
    } else if now < rec.end_time && rec.end_time - rec.start_time > i64::MAX {
        Some(TreasuryError::InvalidAccountData)
    } else if now < rec.end_time && now - rec.start_time > i64::MAX {
        Some(TreasuryError::InvalidAccountData)
    } else if rec.spec_claimable(now as int) < 0 {
        Some(TreasuryError::InvalidAccountData)
    } else if rec.spec_claimable(now as int) == 0 {
        Some(TreasuryError::InvalidAccountData)
    } else if c.total_claimed_tokens + rec.spec_claimable(now as int) > u64::MAX {
        Some(TreasuryError::InvalidAccountData)
    } else if c.total_claimed_tokens + rec.spec_claimable(now as int) > c.total_vested_tokens {
        Some(TreasuryError::InvalidAccountData)
    } else {
        None
    }
}

/// Pays out a beneficiary's claim and finalizes their record.
///
/// Fails until the cliff is reached, while the contract is inactive, when
/// nothing is claimable, when a checked computation cannot represent its
/// result, or when the claim would pay out more than deposits still cover —
/// the situation in which the vault's token transfer would fail. On success
/// the returned amount is what the host transfers from the vault; the
/// record is marked claimed in full, the contract's claimed total grows by
/// the paid amount and never exceeds the vested total, and `fully_claimed`
/// holds exactly when the claimed total reaches the vested total. On
/// failure both records are unchanged.
pub fn claim_vested_tokens(
    contract: &mut VestingContractInfo,
    record: &mut VestingRecordInfo,
    now: i64,
) -> (r: Result<u64, TreasuryError>)
    requires
        old(record).wf(),
        old(contract).wf(),
    ensures
        final(record).wf(),
        final(contract).wf(),
        final(contract).total_claimed_tokens <= final(contract).total_vested_tokens,
        match r {
            Ok(amount) => {
                &&& claim_checks(*old(contract), *old(record), now) is None
                &&& amount == old(record).spec_claimable(now as int)
                &&& amount > 0
                &&& final(record).total_claimed_tokens_by_beneficiary == final(record).total_vested_tokens
                &&& final(record).has_claimed
                &&& final(record).beneficiary@ == old(record).beneficiary@
                &&& final(record).mint@ == old(record).mint@
                &&& final(record).total_vested_tokens == old(record).total_vested_tokens
                &&& final(record).cliff_period == old(record).cliff_period
                &&& final(record).vault_bump == old(record).vault_bump
                &&& final(record).vesting_contract_info_bump == old(record).vesting_contract_info_bump
                &&& final(record).bump == old(record).bump
                &&& final(record).beneficiary_ata@ == old(record).beneficiary_ata@
                &&& final(record).start_time == old(record).start_time
                &&& final(record).end_time == old(record).end_time
                &&& final(contract).total_claimed_tokens == old(contract).total_claimed_tokens
                    + amount
                &&& final(contract).fully_claimed == (final(contract).total_claimed_tokens
                    == final(contract).total_vested_tokens)
                &&& final(contract).total_vested_tokens == old(contract).total_vested_tokens
                &&& final(contract).total_available_tokens == old(contract).total_available_tokens
                &&& final(contract).total_locked_tokens == old(contract).total_locked_tokens
                &&& final(contract).creator@ == old(contract).creator@
                &&& final(contract).company_name@ == old(contract).company_name@
                &&& final(contract).mint@ == old(contract).mint@
                &&& final(contract).vault_account@ == old(contract).vault_account@
                &&& final(contract).created_at == old(contract).created_at
                &&& final(contract).vault_bump == old(contract).vault_bump
                &&& final(contract).bump == old(contract).bump
                &&& final(contract).is_active == old(contract).is_active
            },
            Err(e) => {
                &&& claim_checks(*old(contract), *old(record), now) == Some(e)
                &&& *final(contract) == *old(contract)
                &&& *final(record) == *old(record)
            },
        },
{
    if now < record.start_time {
        return Err(TreasuryError::InvalidAccountData);
    }
    if !contract.is_active {
        return Err(TreasuryError::InvalidAccountData);
    }
    let total_vested_tokens = record.total_vested_tokens;
    let total_claimed_tokens = record.total_claimed_tokens_by_beneficiary;
    let unlock_time = match record.start_time.checked_add(record.cliff_period) {
        Some(t) => t,
        None => {
            return Err(TreasuryError::InvalidAccountData);
        },
    };
    if now < unlock_time {
        return Err(TreasuryError::InvalidAccountData);
    }
    let claimable_tokens: u64 = if now >= record.end_time {
        total_vested_tokens - total_claimed_tokens
    } else {
        let total_vesting_duration = match record.end_time.checked_sub(record.start_time) {
            Some(d) => d,
            None => {
                return Err(TreasuryError::InvalidAccountData);
            },
        };
        let elapsed_time = match now.checked_sub(record.start_time) {
            Some(t) => t,
            None => {
                return Err(TreasuryError::InvalidAccountData);
            },
        };
        proof {
            lemma_mul_upper_bound(
                total_vested_tokens as int,
                0xffff_ffff_ffff_ffffint,
                elapsed_time as int,
                0xffff_ffff_ffff_ffffint,
            );
            lemma_pro_rata_bounds(
                total_vested_tokens as int,
                elapsed_time as int,
                total_vesting_duration as int,
            );
        }
        let total_unlocked: u64 = ((total_vested_tokens as u128) * (elapsed_time as u128) / (
        total_vesting_duration as u128)) as u64;
        match total_unlocked.checked_sub(total_claimed_tokens) {
            Some(c) => c,
            None => {
                return Err(TreasuryError::InvalidAccountData);
            },
        }
    };
    if claimable_tokens == 0 {
        return Err(TreasuryError::InvalidAccountData);
    }
    let new_total_claimed = match contract.total_claimed_tokens.checked_add(claimable_tokens) {
        Some(t) => t,
        None => {
            return Err(TreasuryError::InvalidAccountData);
        },
    };
    if new_total_claimed > contract.total_vested_tokens {
        return Err(TreasuryError::InvalidAccountData);
    }
    record.total_claimed_tokens_by_beneficiary = total_vested_tokens;
    record.has_claimed = true;
    contract.total_claimed_tokens = new_total_claimed;
    if contract.total_claimed_tokens >= contract.total_vested_tokens {
        contract.fully_claimed = true;
    }
    Ok(claimable_tokens)
}

/// Before the cliff is reached, a claim always fails: nothing is claimable
/// for `now < start_time + cliff_period`.
pub proof fn lemma_no_claim_before_cliff(
    c: VestingContractInfo,
    rec: VestingRecordInfo,
    now: i64,
)
    requires
        rec.wf(),
        now < rec.start_time + rec.cliff_period,
    ensures
        claim_checks(c, rec, now) is Some,
{
}

} // verus!

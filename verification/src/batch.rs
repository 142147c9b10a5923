//! Batch payments: a durable `BatchState` tracks how many recipients of a
//! batch have been paid, and a `BatchTransfer` record names the recipients
//! and the fixed amount each receives.
//!
//! A batch is designed to be processed incrementally across calls: each call
//! pays a list of recipients and advances `processed_count`; the batch is
//! marked completed once every recipient is processed, and further calls are
//! rejected.
use vstd::prelude::*;

use crate::errors::TreasuryError;
use crate::keys::{find_key, has_key, pubkey_eq, Pubkey};

verus! {

/// The durable progress record of one batch.
#[derive(Clone, Copy, Debug)]
pub struct BatchState {
    pub batch_id: u64,
    pub authority: Pubkey,
    pub mint: Pubkey,
    pub total_recipients: u8,
    pub processed_count: u8,
    /// 0 while recipients remain, 1 once all are processed.
    pub is_completed: u8,
    pub bump: u8,
}

impl BatchState {
    /// Well-formedness: the processed count never exceeds the declared
    /// total, the completed flag is 0 or 1, and a completed batch has
    /// processed every recipient.
    pub open spec fn wf(self) -> bool {
        &&& self.processed_count <= self.total_recipients
        &&& self.is_completed <= 1
        &&& (self.is_completed == 1 ==> self.processed_count == self.total_recipients)
    }

    /// Decides [`Self::wf`] at run time, so a host can validate a record it
    /// read from storage before operating on it.
    pub fn check_wf(&self) -> (r: bool)
        ensures
            r == self.wf(),
    {
        self.processed_count <= self.total_recipients && self.is_completed <= 1 && (
        self.is_completed != 1 || self.processed_count == self.total_recipients)
    }

    /// Initializes a fresh batch record with nothing processed.
    pub fn initialize_batch_state(
        batch_id: u64,
        authority: Pubkey,
        mint: Pubkey,
        total_recipients: u8,
        bump: u8,
    ) -> (r: BatchState)
        ensures
            r.batch_id == batch_id,
            r.authority@ == authority@,
            r.mint@ == mint@,
            r.total_recipients == total_recipients,
            r.processed_count == 0,
            r.is_completed == 0,
            r.bump == bump,
            r.wf(),
    {
        BatchState {
            batch_id,
            authority,
            mint,
            total_recipients,
            processed_count: 0,
            is_completed: 0,
            bump,
        }
    }

    /// Whether every recipient of the batch has been processed.
    pub fn is_completed(&self) -> (r: bool)
        ensures
            r == (self.is_completed != 0),
    {
        self.is_completed != 0
    }

    /// Marks the batch completed; callable only once every recipient has
    /// been processed.
    pub fn mark_completed(&mut self)
        requires
            old(self).wf(),
            old(self).processed_count == old(self).total_recipients,
        ensures
            final(self).wf(),
            final(self).is_completed == 1,
            final(self).batch_id == old(self).batch_id,
            final(self).authority@ == old(self).authority@,
            final(self).mint@ == old(self).mint@,
            final(self).total_recipients == old(self).total_recipients,
            final(self).processed_count == old(self).processed_count,
            final(self).bump == old(self).bump,
    {
        self.is_completed = 1;
    }

    /// Counts one more recipient as processed, marking the batch completed
    /// when it was the last one; callable only while recipients remain.
    pub fn increment_processed(&mut self)
        requires
            old(self).wf(),
            old(self).processed_count < old(self).total_recipients,
        ensures
            final(self).wf(),
            final(self).processed_count == old(self).processed_count + 1,
            final(self).is_completed == (if old(self).processed_count + 1 == old(
                self,
            ).total_recipients {
                1u8
            } else {
                old(self).is_completed
            }),
            final(self).batch_id == old(self).batch_id,
            final(self).authority@ == old(self).authority@,
            final(self).mint@ == old(self).mint@,
            final(self).total_recipients == old(self).total_recipients,
            final(self).bump == old(self).bump,
    {
        self.processed_count = self.processed_count + 1;
        if self.processed_count >= self.total_recipients {
            self.mark_completed();
        }
    }

    /// Rejects the call unless `expected_authority` is the batch's recorded
    /// authority.
    pub fn validate_authority(&self, expected_authority: &Pubkey) -> (r: Result<
        (),
        TreasuryError,
    >)
        ensures
            r is Ok <==> self.authority@ == expected_authority@,
            r is Err ==> r == Err::<(), TreasuryError>(TreasuryError::InvalidAccountData),
    {
        if !pubkey_eq(&self.authority, expected_authority) {
            return Err(TreasuryError::InvalidAccountData);
        }
        Ok(())
    }

    /// Rejects the call unless `expected_mint` is the batch's recorded mint.
    pub fn validate_mint(&self, expected_mint: &Pubkey) -> (r: Result<(), TreasuryError>)
        ensures
            r is Ok <==> self.mint@ == expected_mint@,
            r is Err ==> r == Err::<(), TreasuryError>(TreasuryError::InvalidAccountData),
    {
        if !pubkey_eq(&self.mint, expected_mint) {
            return Err(TreasuryError::InvalidAccountData);
        }
        Ok(())
    }
}

/// The recipients of one batch and the fixed amount each receives.
#[derive(Clone, Debug)]
pub struct BatchTransfer {
    pub batch_id: u64,
    pub num_recipients: u8,
    pub amount_per_recipient: u64,
    /// The filled recipient slots; at most 10 entries.
    pub recipients: Vec<Pubkey>,
}

impl BatchTransfer {
    /// Well-formedness: the recipient count agrees with its slots, capped at
    /// 10.
    pub open spec fn wf(self) -> bool {
        &&& self.recipients@.len() == self.num_recipients
        &&& self.num_recipients <= 10
    }

    /// Decides [`Self::wf`] at run time, so a host can validate a record it
    /// read from storage before operating on it.
    pub fn check_wf(&self) -> (r: bool)
        ensures
            r == self.wf(),
    {
        self.recipients.len() == self.num_recipients as usize && self.num_recipients <= 10
    }

    /// A fresh transfer record with no recipients.
    pub fn new(batch_id: u64, amount_per_recipient: u64) -> (r: BatchTransfer)
        ensures
            r.batch_id == batch_id,
            r.num_recipients == 0,
            r.amount_per_recipient == amount_per_recipient,
            r.recipients@.len() == 0,
            r.wf(),
    {
        BatchTransfer { batch_id, num_recipients: 0, amount_per_recipient, recipients: Vec::new() }
    }

    /// Appends a recipient; fails once all 10 slots are taken, leaving the
    /// record unchanged.
    pub fn add_recipient(&mut self, recipient: Pubkey) -> (r: Result<(), TreasuryError>)
        requires
            old(self).wf(),
        ensures
            final(self).wf(),
            match r {
                Ok(()) => {
                    &&& old(self).num_recipients < 10
                    &&& final(self).recipients@ == old(self).recipients@.push(recipient)
                    &&& final(self).num_recipients == old(self).num_recipients + 1
                    &&& final(self).batch_id == old(self).batch_id
                    &&& final(self).amount_per_recipient == old(self).amount_per_recipient
                },
                Err(e) => {
                    &&& old(self).num_recipients >= 10
                    &&& e == TreasuryError::InvalidInstructionData
                    &&& *final(self) == *old(self)
                },
            },
    {
        if self.num_recipients >= 10 {
            return Err(TreasuryError::InvalidInstructionData);
        }
        self.recipients.push(recipient);
        self.num_recipients = self.num_recipients + 1;
        Ok(())
    }

    /// The recipients added so far.
    pub fn get_active_recipients(&self) -> (r: &Vec<Pubkey>)
        ensures
            r@ == self.recipients@,
    {
        &self.recipients
    }

    /// The total the batch needs: the per-recipient amount times the number
    /// of recipients, saturating at the largest representable amount.
    pub fn total_amount_needed(&self) -> (r: u64)
        ensures
            r == (if self.amount_per_recipient * self.num_recipients > u64::MAX {
                u64::MAX as int
            } else {
                self.amount_per_recipient * self.num_recipients
            }),
    {
        match self.amount_per_recipient.checked_mul(self.num_recipients as u64) {
            Some(v) => v,
            None => u64::MAX,
        }
    }
}

/// The validation a batch-transfer call runs, in order; `None` means it
/// passes. `provided` holds the addresses of the recipient accounts the
/// caller supplied alongside the instruction.
pub open spec fn batch_transfer_checks(
    bs: BatchState,
    bt: BatchTransfer,
    provided: Seq<Pubkey>,
    creator: Pubkey,
    mint: Pubkey,
) -> Option<TreasuryError> {
    if bs.authority@ != creator@ {
        Some(TreasuryError::InvalidAccountData)
    } else if bs.mint@ != mint@ {
        Some(TreasuryError::InvalidAccountData)
    } else if bs.batch_id != bt.batch_id {
        Some(TreasuryError::InvalidAccountData)
    } else if bs.is_completed != 0 {
        Some(TreasuryError::BatchAlreadyCompleted)
    } else if bs.processed_count + bt.num_recipients > bs.total_recipients {
        Some(TreasuryError::InvalidAccountData)
    } else if exists|i: int|
        0 <= i < bt.recipients@.len() && !has_key(provided, #[trigger] bt.recipients@[i]) {
        Some(TreasuryError::InvalidAccountData)
    } else {
        None
    }
}

/// Processes one batch-transfer call: checks that the caller is the batch's
/// authority with the right mint and matching batch ids, that the batch is
/// not yet completed and does not overshoot its declared total, and that
/// every listed recipient's account was supplied. On success the processed
/// count advances by the number of recipients and the batch is marked
/// completed once it reaches the total; the host then pays each recipient
/// the fixed amount, and if any transfer fails nothing is persisted. On
/// failure the record is unchanged.
pub fn process_batch_transfer(
    batch_state: &mut BatchState,
    batch_transfer: &BatchTransfer,
    provided_accounts: &Vec<Pubkey>,
    creator: &Pubkey,
    mint: &Pubkey,
) -> (r: Result<(), TreasuryError>)
    requires
        old(batch_state).wf(),
        batch_transfer.wf(),
    ensures
        final(batch_state).wf(),
        match r {
            Ok(()) => {
                &&& batch_transfer_checks(
                    *old(batch_state),
                    *batch_transfer,
                    provided_accounts@,
                    *creator,
                    *mint,
                ) is None
                &&& final(batch_state).processed_count == old(batch_state).processed_count
                    + batch_transfer.num_recipients
                &&& final(batch_state).is_completed == (if final(batch_state).processed_count
                    == old(batch_state).total_recipients {
                    1u8
                } else {
                    0u8
                })
                &&& final(batch_state).batch_id == old(batch_state).batch_id
                &&& final(batch_state).authority@ == old(batch_state).authority@
                &&& final(batch_state).mint@ == old(batch_state).mint@
                &&& final(batch_state).total_recipients == old(batch_state).total_recipients
                &&& final(batch_state).bump == old(batch_state).bump
            },
            Err(e) => {
                &&& batch_transfer_checks(
                    *old(batch_state),
                    *batch_transfer,
                    provided_accounts@,
                    *creator,
                    *mint,
                ) == Some(e)
                &&& *final(batch_state) == *old(batch_state)
            },
        },
{
    if let Err(e) = batch_state.validate_authority(creator) {
        return Err(e);
    }
    if let Err(e) = batch_state.validate_mint(mint) {
        return Err(e);
    }
    if batch_state.batch_id != batch_transfer.batch_id {
        return Err(TreasuryError::InvalidAccountData);
    }
    if batch_state.is_completed() {
        return Err(TreasuryError::BatchAlreadyCompleted);
    }
    if batch_state.processed_count as u64 + batch_transfer.num_recipients as u64
        > batch_state.total_recipients as u64 {
        return Err(TreasuryError::InvalidAccountData);
    }
    let mut i: usize = 0;
    while i < batch_transfer.recipients.len()
        invariant
            i <= batch_transfer.recipients@.len(),
            *batch_state == *old(batch_state),
            old(batch_state).wf(),
            batch_transfer.wf(),
            old(batch_state).authority@ == creator@,
            old(batch_state).mint@ == mint@,
            old(batch_state).batch_id == batch_transfer.batch_id,
            old(batch_state).is_completed == 0,
            old(batch_state).processed_count + batch_transfer.num_recipients <= old(
                batch_state,
            ).total_recipients,
            forall|j: int| 0 <= j < i ==> has_key(
                provided_accounts@,
                #[trigger] batch_transfer.recipients@[j],
            ),
        decreases batch_transfer.recipients@.len() - i,
    {
        if !find_key(provided_accounts, &batch_transfer.recipients[i]) {
            proof {
                assert(exists|k: int|
                    0 <= k < batch_transfer.recipients@.len() && !has_key(
                        provided_accounts@,
                        #[trigger] batch_transfer.recipients@[k],
                    )) by {
                    assert(!has_key(
                        provided_accounts@,
                        batch_transfer.recipients@[i as int],
                    ));
                }
            }
            return Err(TreasuryError::InvalidAccountData);
        }
        i += 1;
    }
    batch_state.processed_count = batch_state.processed_count + batch_transfer.num_recipients;
    if batch_state.processed_count == batch_state.total_recipients {
        batch_state.is_completed = 1;
    } else {
        batch_state.is_completed = 0;
    }
    Ok(())
}

} // verus!

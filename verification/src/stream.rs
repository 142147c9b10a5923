//! Payment streaming: continuous linear unlock of a fixed total amount over
//! a time window.
//!
//! The withdrawable-amount function is the core algorithm: time is clamped to
//! the window's end, nothing unlocks before the start, the full remainder
//! unlocks at or after the end, and in between the unlocked share grows
//! linearly with elapsed time (integer division; the dust remainder is
//! accepted and never separately accounted). The proof functions at the end
//! state the laws of that function: it is zero at or before the start, equals
//! the whole remainder at or after the end, never exceeds the remainder, and
//! is monotonically non-decreasing in the clock for a fixed withdrawn amount.
use vstd::prelude::*;

use vstd::arithmetic::mul::lemma_mul_upper_bound;

use crate::arith::{lemma_pro_rata_bounds, lemma_pro_rata_monotonic};
use crate::errors::TreasuryError;
use crate::keys::{pubkey_eq, Pubkey};

verus! {

/// The record of one payment stream.
#[derive(Clone, Copy, Debug)]
pub struct PaymentStreamingInfo {
    pub sender: Pubkey,
    pub recipient: Pubkey,
    pub sender_token_account: Pubkey,
    pub recipient_token_account: Pubkey,
    pub total_amount: u64,
    pub amount_per_hour: u64,
    pub start_time: i64,
    pub end_time: i64,
    pub withdrawn_amount: u64,
    pub is_active: bool,
}

impl PaymentStreamingInfo {
    /// Well-formedness: the window is non-empty and the recipient has never
    /// withdrawn more than the stream's total.
    pub open spec fn wf(self) -> bool {
        &&& self.start_time < self.end_time
        &&& self.withdrawn_amount <= self.total_amount
    }

    /// Decides [`Self::wf`] at run time, so a host can validate a record it
    /// read from storage before operating on it.
    pub fn check_wf(&self) -> (r: bool)
        ensures
            r == self.wf(),
    {
        self.start_time < self.end_time && self.withdrawn_amount <= self.total_amount
    }

    /// The clock clamped to the window's end.
    pub open spec fn effective_time(self, now: int) -> int {
        if now > self.end_time {
            self.end_time as int
        } else {
            now
        }
    }

    /// The amount unlocked by `now`: the whole total at or after the end,
    /// otherwise the elapsed share of the total.
    pub open spec fn spec_available(self, now: int) -> int {
        let eff = self.effective_time(now);
        if eff >= self.end_time {
            self.total_amount as int
        } else {
            self.total_amount * (eff - self.start_time) / (self.end_time - self.start_time)
        }
    }

    /// The amount the recipient may withdraw at `now`: zero before the
    /// stream starts, otherwise the unlocked amount less what was already
    /// withdrawn, floored at zero.
    pub open spec fn spec_withdrawable(self, now: int) -> int {
        let eff = self.effective_time(now);
        if eff - self.start_time <= 0 {
            0
        } else {
            let available = self.spec_available(now);
            if available > self.withdrawn_amount {
                available - self.withdrawn_amount
            } else {
                0
            }
        }
    }

    /// The validation a stream initialization runs, in order; `None` means
    /// it passes. The window must be non-empty and span at least one hour.
    pub open spec fn init_checks(
        total_amount: u64,
        start_time: i64,
        end_time: i64,
    ) -> Option<TreasuryError> {
        if total_amount == 0 {
            Some(TreasuryError::InvalidInstructionData)
        } else if start_time >= end_time {
            Some(TreasuryError::InvalidInstructionData)
        } else if (end_time - start_time) / 3600 <= 0 {
            Some(TreasuryError::InvalidInstructionData)
        } else {
            None
        }
    }

    /// Initializes a fresh stream record.
    ///
    /// The total must be nonzero and the window non-empty and at least an
    /// hour long; the hourly rate is the total divided by the whole hours of
    /// the window, with any remainder accepted as dust.
    pub fn init_stream_payment(
        sender: Pubkey,
        recipient: Pubkey,
        sender_token_account: Pubkey,
        recipient_token_account: Pubkey,
        total_amount: u64,
        start_time: i64,
        end_time: i64,
    ) -> (r: Result<PaymentStreamingInfo, TreasuryError>)
        ensures
            match r {
                Ok(s) => {
                    &&& Self::init_checks(total_amount, start_time, end_time) is None
                    &&& s.sender@ == sender@
                    &&& s.recipient@ == recipient@
                    &&& s.sender_token_account@ == sender_token_account@
                    &&& s.recipient_token_account@ == recipient_token_account@
                    &&& s.total_amount == total_amount
                    &&& s.amount_per_hour == total_amount as int / ((end_time - start_time)
                        / 3600)
                    &&& s.start_time == start_time
                    &&& s.end_time == end_time
                    &&& s.withdrawn_amount == 0
                    &&& s.is_active
                    &&& s.wf()
                },
                Err(e) => Self::init_checks(total_amount, start_time, end_time) == Some(e),
            },
    {
        if total_amount == 0 {
            return Err(TreasuryError::InvalidInstructionData);
        }
        if start_time >= end_time {
            return Err(TreasuryError::InvalidInstructionData);
        }
        let duration_seconds: i128 = end_time as i128 - start_time as i128;
        let duration_hours: i128 = duration_seconds / 3600;
        if duration_hours <= 0 {
            return Err(TreasuryError::InvalidInstructionData);
        }
        let amount_per_hour: u64 = total_amount / (duration_hours as u64);
        Ok(
            PaymentStreamingInfo {
                sender,
                recipient,
                sender_token_account,
                recipient_token_account,
                total_amount,
                amount_per_hour,
                start_time,
                end_time,
                withdrawn_amount: 0,
                is_active: true,
            },
        )
    }

    /// The validation a withdrawal runs, in order; `None` means it passes.
    pub open spec fn withdraw_checks(
        s: Self,
        recipient: Pubkey,
        sender_token_account: Pubkey,
        recipient_token_account: Pubkey,
        now: i64,
    ) -> Option<TreasuryError> {
        if !s.is_active {
            Some(TreasuryError::InvalidAccountData)
        } else if s.recipient@ != recipient@ {
            Some(TreasuryError::InvalidAccountData)
        } else if s.sender_token_account@ != sender_token_account@ {
            Some(TreasuryError::InvalidAccountData)
        } else if s.recipient_token_account@ != recipient_token_account@ {
            Some(TreasuryError::InvalidAccountData)
        } else if now < s.start_time {
            Some(TreasuryError::InvalidAccountData)
        } else if s.spec_withdrawable(now as int) == 0 {
            Some(TreasuryError::InvalidInstructionData)
        } else {
            None
        }
    }

    /// Withdraws everything currently withdrawable to the recipient.
    ///
    /// Only the recorded recipient, through the recorded token accounts, may
    /// withdraw; the stream must be active, started, and have a nonzero
    /// withdrawable amount. On success the returned amount is added to
    /// `withdrawn_amount` and the stream deactivates once the window has
    /// ended. The host performs the token transfer of the returned amount;
    /// if that fails, nothing of the record is persisted. On failure the
    /// record is unchanged.
    pub fn withdraw(
        &mut self,
        recipient: &Pubkey,
        sender_token_account: &Pubkey,
        recipient_token_account: &Pubkey,
        now: i64,
    ) -> (r: Result<u64, TreasuryError>)
        requires
            old(self).wf(),
        ensures
            final(self).wf(),
            match r {
                Ok(w) => {
                    &&& Self::withdraw_checks(
                        *old(self),
                        *recipient,
                        *sender_token_account,
                        *recipient_token_account,
                        now,
                    ) is None
                    &&& w == old(self).spec_withdrawable(now as int)
                    &&& w > 0
                    &&& final(self).withdrawn_amount == old(self).withdrawn_amount + w
                    &&& final(self).is_active == (now < old(self).end_time)
                    &&& final(self).sender@ == old(self).sender@
                    &&& final(self).recipient@ == old(self).recipient@
                    &&& final(self).sender_token_account@ == old(self).sender_token_account@
                    &&& final(self).recipient_token_account@ == old(
                        self,
                    ).recipient_token_account@
                    &&& final(self).total_amount == old(self).total_amount
                    &&& final(self).amount_per_hour == old(self).amount_per_hour
                    &&& final(self).start_time == old(self).start_time
                    &&& final(self).end_time == old(self).end_time
                },
                Err(e) => {
                    &&& Self::withdraw_checks(
                        *old(self),
                        *recipient,
                        *sender_token_account,
                        *recipient_token_account,
                        now,
                    ) == Some(e)
                    &&& *final(self) == *old(self)
                },
            },
    {
        if !self.is_active {
            return Err(TreasuryError::InvalidAccountData);
        }
        if !pubkey_eq(&self.recipient, recipient) {
            return Err(TreasuryError::InvalidAccountData);
        }
        if !pubkey_eq(&self.sender_token_account, sender_token_account) {
            return Err(TreasuryError::InvalidAccountData);
        }
        if !pubkey_eq(&self.recipient_token_account, recipient_token_account) {
            return Err(TreasuryError::InvalidAccountData);
        }
        if now < self.start_time {
            return Err(TreasuryError::InvalidAccountData);
        }
        let withdrawable_amount = calculate_withdrawable_amount(self, now);
        if withdrawable_amount == 0 {
            return Err(TreasuryError::InvalidInstructionData);
        }
        proof {
            self.lemma_withdrawable_le_remaining(now as int);
        }
        self.withdrawn_amount = self.withdrawn_amount + withdrawable_amount;
        if now >= self.end_time {
            self.is_active = false;
        }
        Ok(withdrawable_amount)
    }

    /// The validation a cancellation runs, in order; `None` means it passes.
    pub open spec fn cancel_checks(s: Self, sender: Pubkey, recipient: Pubkey) -> Option<
        TreasuryError,
    > {
        if !s.is_active {
            Some(TreasuryError::InvalidAccountData)
        } else if s.sender@ != sender@ {
            Some(TreasuryError::InvalidAccountData)
        } else if s.recipient@ != recipient@ {
            Some(TreasuryError::InvalidAccountData)
        } else {
            None
        }
    }

    /// Cancels an active stream: pays the recipient what is still owed at
    /// `now` (possibly zero) and deactivates the stream, after which the
    /// host returns authority over the source funds to the sender.
    ///
    /// Only the recorded sender may cancel. On failure the record is
    /// unchanged.
    pub fn cancel(&mut self, sender: &Pubkey, recipient: &Pubkey, now: i64) -> (r: Result<
        u64,
        TreasuryError,
    >)
        requires
            old(self).wf(),
        ensures
            final(self).wf(),
            match r {
                Ok(w) => {
                    &&& Self::cancel_checks(*old(self), *sender, *recipient) is None
                    &&& w == old(self).spec_withdrawable(now as int)
                    &&& final(self).withdrawn_amount == old(self).withdrawn_amount + w
                    &&& !final(self).is_active
                    &&& final(self).sender@ == old(self).sender@
                    &&& final(self).recipient@ == old(self).recipient@
                    &&& final(self).sender_token_account@ == old(self).sender_token_account@
                    &&& final(self).recipient_token_account@ == old(
                        self,
                    ).recipient_token_account@
                    &&& final(self).total_amount == old(self).total_amount
                    &&& final(self).amount_per_hour == old(self).amount_per_hour
                    &&& final(self).start_time == old(self).start_time
                    &&& final(self).end_time == old(self).end_time
                },
                Err(e) => {
                    &&& Self::cancel_checks(*old(self), *sender, *recipient) == Some(e)
                    &&& *final(self) == *old(self)
                },
            },
    {
        if !self.is_active {
            return Err(TreasuryError::InvalidAccountData);
        }
        if !pubkey_eq(&self.sender, sender) {
            return Err(TreasuryError::InvalidAccountData);
        }
        if !pubkey_eq(&self.recipient, recipient) {
            return Err(TreasuryError::InvalidAccountData);
        }
        let withdrawable_for_recipient = calculate_withdrawable_amount(self, now);
        proof {
            self.lemma_withdrawable_le_remaining(now as int);
        }
        self.is_active = false;
        self.withdrawn_amount = self.withdrawn_amount + withdrawable_for_recipient;
        Ok(withdrawable_for_recipient)
    }

    /// The withdrawable amount never exceeds what has not been withdrawn.
    pub proof fn lemma_withdrawable_le_remaining(self, now: int)
        requires
            self.wf(),
        ensures
            0 <= self.spec_withdrawable(now),
            self.spec_withdrawable(now) <= self.total_amount - self.withdrawn_amount,
    {
        let eff = self.effective_time(now);
        if eff - self.start_time > 0 && eff < self.end_time {
            lemma_pro_rata_bounds(
                self.total_amount as int,
                eff - self.start_time,
                self.end_time - self.start_time,
            );
        }
    }

    /// The withdrawable amount is zero at or before the stream's start.
    pub proof fn lemma_withdrawable_zero_before_start(self, now: int)
        requires
            self.wf(),
            now <= self.start_time,
        ensures
            self.spec_withdrawable(now) == 0,
    {
    }

    /// At or after the stream's end the whole remainder is withdrawable.
    pub proof fn lemma_withdrawable_all_after_end(self, now: int)
        requires
            self.wf(),
            now >= self.end_time,
        ensures
            self.spec_withdrawable(now) == self.total_amount - self.withdrawn_amount,
    {
    }

    /// For a fixed withdrawn amount, the withdrawable amount never decreases
    /// as the clock advances.
    pub proof fn lemma_withdrawable_monotonic(self, now1: int, now2: int)
        requires
            self.wf(),
            now1 <= now2,
        ensures
            self.spec_withdrawable(now1) <= self.spec_withdrawable(now2),
    {
        let eff1 = self.effective_time(now1);
        let eff2 = self.effective_time(now2);
        let start = self.start_time as int;
        let end = self.end_time as int;
        let total = self.total_amount as int;
        self.lemma_withdrawable_le_remaining(now1);
        self.lemma_withdrawable_le_remaining(now2);
        if eff1 - start > 0 {
            if eff1 < end && eff2 < end {
                lemma_pro_rata_monotonic(total, eff1 - start, eff2 - start, end - start);
            } else if eff1 < end && eff2 >= end {
                lemma_pro_rata_bounds(total, eff1 - start, end - start);
            }
        }
    }
}

/// The withdrawable amount of a stream at a given time; mirrors
/// [`PaymentStreamingInfo::spec_withdrawable`] exactly.
pub fn calculate_withdrawable_amount(stream_info: &PaymentStreamingInfo, current_time: i64) -> (r:
    u64)
    requires
        stream_info.wf(),
    ensures
        r == stream_info.spec_withdrawable(current_time as int),
{
    let start_time = stream_info.start_time;
    let end_time = stream_info.end_time;
    let total_amount = stream_info.total_amount;
    let withdrawn_amount = stream_info.withdrawn_amount;

    let effective_current_time: i64 = if current_time > end_time {
        end_time
    } else {
        current_time
    };

    let elapsed_seconds: i128 = effective_current_time as i128 - start_time as i128;
    if elapsed_seconds <= 0 {
        return 0;
    }

    let total_available: u64 = if effective_current_time >= end_time {
        total_amount
    } else {
        let total_duration_seconds: i128 = end_time as i128 - start_time as i128;
        proof {
            lemma_mul_upper_bound(
                total_amount as int,
                0xffff_ffff_ffff_ffffint,
                elapsed_seconds as int,
                0xffff_ffff_ffff_ffffint,
            );
            lemma_pro_rata_bounds(
                total_amount as int,
                elapsed_seconds as int,
                total_duration_seconds as int,
            );
        }
        let unlocked: u128 = (total_amount as u128) * (elapsed_seconds as u128) / (
        total_duration_seconds as u128);
        unlocked as u64
    };

    if total_available > withdrawn_amount {
        total_available - withdrawn_amount
    } else {
        0
    }
}

} // verus!

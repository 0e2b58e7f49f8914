//! Early-exit redemption economics with anti-replay blacklisting.
//!
//! A locker may carry one redeemer per receipt asset: a pool funded by its
//! admin that converts an escrow's current voting power into receipt tokens
//! at a configured rate, for escrows opened strictly before a cutoff date.
//! A withdrawal drains the escrow into the treasury, pays out
//! `voting_power / redemption_rate` (rounded down, the remainder staying
//! with the pool), and writes a blacklist record for the escrow so the same
//! escrow can never redeem twice. Admin handover is two-phase: the current
//! admin names a pending admin, who must accept before gaining control.
//!
//! Every operation is modelled as a context holding the records and caller
//! identities involved, mirroring how the hosting environment assembles an
//! instruction; each mutating method returns the audit event it emits. The
//! token movements themselves are the ledger's work.

use vstd::prelude::*;

use crate::locker::{Escrow, Locker};
use crate::power::{voting_power_fits, voting_power_of};
use crate::pubkey::Pubkey;

verus! {

/// An early-exit pool: rate, cutoff, funded balance and its authorities.
#[derive(Clone, Copy, PartialEq, Eq, Structural, Debug)]
pub struct LockerRedeemer {
    /// The locker whose escrows may redeem here.
    pub locker: Pubkey,
    /// The pool's administrator.
    pub admin: Pubkey,
    /// The identity offered the admin role; zero when none is pending.
    pub pending_admin: Pubkey,
    /// The receipt asset paid out on redemption.
    pub receipt_mint: Pubkey,
    /// `1` while active; any other value pauses redemptions.
    pub status: u8,
    /// Voting power per receipt token; always positive.
    pub redemption_rate: u64,
    /// Where a redeemed escrow's principal is sent.
    pub treasury: Pubkey,
    /// Only escrows started strictly before this date may redeem.
    pub cutoff_date: i64,
    /// The pool's funded receipt-token balance.
    pub amount: u64,
}

/// The replay-prevention marker for one (locker, escrow) pair. A record
/// with a zero timestamp stands for "no entry".
#[derive(Clone, Copy, PartialEq, Eq, Structural, Debug)]
pub struct Blacklist {
    /// The locker the entry belongs to.
    pub locker: Pubkey,
    /// The escrow barred from redeeming.
    pub escrow: Pubkey,
    /// The escrow's owner when the entry was written.
    pub owner: Pubkey,
    /// When the entry was written; `0` means no entry.
    pub timestamp: i64,
}

/// Errors of the redemption state machine.
#[derive(Clone, Copy, PartialEq, Eq, Structural, Debug)]
pub enum LockedVoterError {
    /// The caller is not the admin or pending admin required here.
    Unauthorized,
    /// A checked balance update could not be applied.
    OperationFailed,
    /// The pool's funded balance cannot cover the payout, or there is
    /// nothing to withdraw.
    InsufficientFunds,
    /// The redeemer is paused.
    RedeemerNotActive,
    /// The escrow holds nothing to redeem.
    EscrowEmpty,
    /// A blacklist entry bars this escrow from redeeming.
    EscrowBlacklisted,
    /// The escrow was started at or after the cutoff date.
    EscrowTooRecent,
    /// A zero redemption rate was supplied.
    InvalidRedemptionRate,
    /// The new redemption rate equals the current one.
    RedemptionRateSameAsPrevious,
    /// The cutoff date is not strictly in the past.
    InvalidCutoffDate,
    /// The voting-power computation could not be represented.
    ArithmeticOverflow,
}

/// The redeemer invariant: the rate is positive, so payout division is
/// always defined.
pub open spec fn redeemer_wf(r: LockerRedeemer) -> bool {
    r.redemption_rate > 0
}

/// Whether a blacklist record holds an entry.
pub open spec fn blacklisted(b: Blacklist) -> bool {
    b.timestamp != 0
}

/// Records and identities for creating a redeemer.
#[derive(Clone, Copy, PartialEq, Eq, Structural, Debug)]
pub struct CreateRedeemer {
    /// The locker being given a redeemer.
    pub locker: Pubkey,
    /// The receipt asset to pay out.
    pub receipt_mint: Pubkey,
    /// The treasury that will receive redeemed principal.
    pub treasury: Pubkey,
    /// The deployer; becomes the admin.
    pub payer: Pubkey,
}

impl CreateRedeemer {
    /// Creates the redeemer: the rate must be positive and the cutoff date
    /// strictly before the current time — eligibility is always
    /// retrospective. Starts active, funded with zero.
    pub fn create_redeemer(&self, redemption_rate: u64, cutoff_date: i64, now: i64) -> (r: Result<
        LockerRedeemer,
        LockedVoterError,
    >)
        ensures
            match r {
                Ok(rd) => {
                    &&& redemption_rate != 0
                    &&& cutoff_date < now
                    &&& rd == (LockerRedeemer {
                        locker: self.locker,
                        admin: self.payer,
                        pending_admin: Pubkey::zero_key(),
                        receipt_mint: self.receipt_mint,
                        status: 1u8,
                        redemption_rate,
                        treasury: self.treasury,
                        cutoff_date,
                        amount: 0u64,
                    })
                    &&& redeemer_wf(rd)
                },
                Err(e) => {
                    &&& !(redemption_rate != 0 && cutoff_date < now)
                    &&& (e == LockedVoterError::InvalidRedemptionRate <==> redemption_rate == 0)
                    &&& (e == LockedVoterError::InvalidCutoffDate <==> redemption_rate != 0
                        && cutoff_date >= now)
                },
            },
    {
        if redemption_rate == 0 {
            return Err(LockedVoterError::InvalidRedemptionRate);
        }
        if cutoff_date >= now {
            return Err(LockedVoterError::InvalidCutoffDate);
        }
        Ok(
            LockerRedeemer {
                locker: self.locker,
                admin: self.payer,
                pending_admin: Pubkey::zero(),
                receipt_mint: self.receipt_mint,
                status: 1,
                redemption_rate,
                treasury: self.treasury,
                cutoff_date,
                amount: 0,
            },
        )
    }
}

/// Records and identities for offering the admin role.
#[derive(Clone, Copy, PartialEq, Eq, Structural, Debug)]
pub struct UpdateRedeemerAdmin {
    /// The locker the redeemer belongs to.
    pub locker: Pubkey,
    /// The redeemer whose admin is handed over.
    pub redeemer: LockerRedeemer,
    /// The caller; must be the current admin.
    pub current_admin: Pubkey,
    /// The identity offered the role.
    pub new_admin: Pubkey,
}

impl UpdateRedeemerAdmin {
    /// First half of the two-phase handover: the current admin names a
    /// pending admin. Control only moves once the pending admin accepts.
    pub fn update_redeemer_admin(&mut self) -> (r: Result<(), LockedVoterError>)
        ensures
            match r {
                Ok(_) => {
                    &&& old(self).current_admin == old(self).redeemer.admin
                    &&& *final(self) == (UpdateRedeemerAdmin {
                        redeemer: (LockerRedeemer {
                            pending_admin: old(self).new_admin,
                            ..old(self).redeemer
                        }),
                        ..*old(self)
                    })
                },
                Err(e) => {
                    &&& old(self).current_admin != old(self).redeemer.admin
                    &&& e == LockedVoterError::Unauthorized
                    &&& *final(self) == *old(self)
                },
            },
    {
        if self.current_admin.id != self.redeemer.admin.id {
            return Err(LockedVoterError::Unauthorized);
        }
        self.redeemer.pending_admin = self.new_admin;
        Ok(())
    }
}

/// Records and identities for accepting the admin role.
#[derive(Clone, Copy, PartialEq, Eq, Structural, Debug)]
pub struct AcceptRedeemerAdmin {
    /// The locker the redeemer belongs to.
    pub locker: Pubkey,
    /// The redeemer whose pending admin accepts.
    pub redeemer: LockerRedeemer,
    /// The caller; must be the pending admin.
    pub pending_admin: Pubkey,
}

impl AcceptRedeemerAdmin {
    /// Second half of the handover: only the pending admin may accept;
    /// the role moves and the pending slot is cleared.
    pub fn accept_redeemer_admin(&mut self) -> (r: Result<(), LockedVoterError>)
        ensures
            match r {
                Ok(_) => {
                    &&& old(self).pending_admin == old(self).redeemer.pending_admin
                    &&& old(self).redeemer.pending_admin != Pubkey::zero_key()
                    &&& *final(self) == (AcceptRedeemerAdmin {
                        redeemer: (LockerRedeemer {
                            admin: old(self).redeemer.pending_admin,
                            pending_admin: Pubkey::zero_key(),
                            ..old(self).redeemer
                        }),
                        ..*old(self)
                    })
                },
                Err(e) => {
                    &&& (old(self).pending_admin != old(self).redeemer.pending_admin || old(
                        self,
                    ).redeemer.pending_admin == Pubkey::zero_key())
                    &&& e == LockedVoterError::Unauthorized
                    &&& *final(self) == *old(self)
                },
            },
    {
        if self.redeemer.pending_admin.id == 0 || self.pending_admin.id
            != self.redeemer.pending_admin.id {
            return Err(LockedVoterError::Unauthorized);
        }
        self.redeemer.admin = self.redeemer.pending_admin;
        self.redeemer.pending_admin = Pubkey::zero();
        Ok(())
    }
}

/// Audit record of a treasury change.
#[derive(Clone, Copy, PartialEq, Eq, Structural, Debug)]
pub struct UpdateTreasuryEvent {
    /// The locker.
    pub locker: Pubkey,
    /// The treasury before the change.
    pub previous_treasury: Pubkey,
    /// The treasury after the change.
    pub new_treasury: Pubkey,
    /// The admin that made the change.
    pub admin: Pubkey,
    /// When the change was made.
    pub timestamp: i64,
}

/// Records and identities for swapping the treasury.
#[derive(Clone, Copy, PartialEq, Eq, Structural, Debug)]
pub struct UpdateTreasury {
    /// The locker the redeemer belongs to.
    pub locker: Pubkey,
    /// The redeemer whose treasury is replaced.
    pub redeemer: LockerRedeemer,
    /// The destination for principal recovered from future redemptions.
    pub new_treasury: Pubkey,
    /// The caller; must be the admin.
    pub payer: Pubkey,
}

impl UpdateTreasury {
    /// Swaps the treasury; only the admin may call.
    pub fn update_treasury(&mut self, now: i64) -> (r: Result<
        UpdateTreasuryEvent,
        LockedVoterError,
    >)
        ensures
            match r {
                Ok(ev) => {
                    &&& old(self).payer == old(self).redeemer.admin
                    &&& *final(self) == (UpdateTreasury {
                        redeemer: (LockerRedeemer {
                            treasury: old(self).new_treasury,
                            ..old(self).redeemer
                        }),
                        ..*old(self)
                    })
                    &&& ev == (UpdateTreasuryEvent {
                        locker: old(self).locker,
                        previous_treasury: old(self).redeemer.treasury,
                        new_treasury: old(self).new_treasury,
                        admin: old(self).payer,
                        timestamp: now,
                    })
                },
                Err(e) => {
                    &&& old(self).payer != old(self).redeemer.admin
                    &&& e == LockedVoterError::Unauthorized
                    &&& *final(self) == *old(self)
                },
            },
    {
        if self.payer.id != self.redeemer.admin.id {
            return Err(LockedVoterError::Unauthorized);
        }
        let previous_treasury = self.redeemer.treasury;
        self.redeemer.treasury = self.new_treasury;
        Ok(
            UpdateTreasuryEvent {
                locker: self.locker,
                previous_treasury,
                new_treasury: self.new_treasury,
                admin: self.payer,
                timestamp: now,
            },
        )
    }
}

/// Audit record of a status flip.
#[derive(Clone, Copy, PartialEq, Eq, Structural, Debug)]
pub struct ToggleRedeemerEvent {
    /// The locker.
    pub locker: Pubkey,
    /// The status after the flip; `1` is active.
    pub new_status: u8,
    /// The admin that flipped it.
    pub admin: Pubkey,
    /// When the flip was made.
    pub timestamp: i64,
}

/// Records and identities for pausing or reactivating a redeemer.
#[derive(Clone, Copy, PartialEq, Eq, Structural, Debug)]
pub struct ToggleRedeemer {
    /// The locker the redeemer belongs to.
    pub locker: Pubkey,
    /// The redeemer whose status is flipped.
    pub redeemer: LockerRedeemer,
    /// The caller; must be the admin.
    pub payer: Pubkey,
}

impl ToggleRedeemer {
    /// Sets the redeemer's status; only the admin may call. A status of
    /// `1` activates redemptions, anything else pauses them.
    pub fn toggle_redeemer(&mut self, toggle_to: u8, now: i64) -> (r: Result<
        ToggleRedeemerEvent,
        LockedVoterError,
    >)
        ensures
            match r {
                Ok(ev) => {
                    &&& old(self).payer == old(self).redeemer.admin
                    &&& *final(self) == (ToggleRedeemer {
                        redeemer: (LockerRedeemer { status: toggle_to, ..old(self).redeemer }),
                        ..*old(self)
                    })
                    &&& ev == (ToggleRedeemerEvent {
                        locker: old(self).locker,
                        new_status: toggle_to,
                        admin: old(self).payer,
                        timestamp: now,
                    })
                },
                Err(e) => {
                    &&& old(self).payer != old(self).redeemer.admin
                    &&& e == LockedVoterError::Unauthorized
                    &&& *final(self) == *old(self)
                },
            },
    {
        if self.payer.id != self.redeemer.admin.id {
            return Err(LockedVoterError::Unauthorized);
        }
        self.redeemer.status = toggle_to;
        Ok(
            ToggleRedeemerEvent {
                locker: self.locker,
                new_status: toggle_to,
                admin: self.payer,
                timestamp: now,
            },
        )
    }
}

/// Audit record of a redemption-rate change.
#[derive(Clone, Copy, PartialEq, Eq, Structural, Debug)]
pub struct UpdateRedemptionRateEvent {
    /// The locker.
    pub locker: Pubkey,
    /// The rate before the change.
    pub previous_rate: u64,
    /// The rate after the change.
    pub new_rate: u64,
    /// The admin that made the change.
    pub admin: Pubkey,
    /// When the change was made.
    pub timestamp: i64,
}

/// Records and identities for changing the redemption rate.
#[derive(Clone, Copy, PartialEq, Eq, Structural, Debug)]
pub struct UpdateRedemptionRate {
    /// The locker the redeemer belongs to.
    pub locker: Pubkey,
    /// The redeemer whose rate is replaced.
    pub redeemer: LockerRedeemer,
    /// The caller; must be the admin.
    pub payer: Pubkey,
}

impl UpdateRedemptionRate {
    /// Replaces the redemption rate; only the admin may call, zero is
    /// rejected, and the new rate must differ from the current one so the
    /// change is observable.
    pub fn update_redemption_rate(&mut self, new_rate: u64, now: i64) -> (r: Result<
        UpdateRedemptionRateEvent,
        LockedVoterError,
    >)
        ensures
            match r {
                Ok(ev) => {
                    &&& old(self).payer == old(self).redeemer.admin
                    &&& new_rate != 0
                    &&& new_rate != old(self).redeemer.redemption_rate
                    &&& *final(self) == (UpdateRedemptionRate {
                        redeemer: (LockerRedeemer {
                            redemption_rate: new_rate,
                            ..old(self).redeemer
                        }),
                        ..*old(self)
                    })
                    &&& redeemer_wf(final(self).redeemer)
                    &&& ev == (UpdateRedemptionRateEvent {
                        locker: old(self).locker,
                        previous_rate: old(self).redeemer.redemption_rate,
                        new_rate,
                        admin: old(self).payer,
                        timestamp: now,
                    })
                },
                Err(e) => {
                    &&& !(old(self).payer == old(self).redeemer.admin && new_rate != 0 && new_rate
                        != old(self).redeemer.redemption_rate)
                    &&& (e == LockedVoterError::Unauthorized <==> old(self).payer != old(
                        self,
                    ).redeemer.admin)
                    &&& (e == LockedVoterError::InvalidRedemptionRate <==> old(self).payer == old(
                        self,
                    ).redeemer.admin && new_rate == 0)
                    &&& (e == LockedVoterError::RedemptionRateSameAsPrevious <==> old(self).payer
                        == old(self).redeemer.admin && new_rate != 0 && new_rate == old(
                        self,
                    ).redeemer.redemption_rate)
                    &&& *final(self) == *old(self)
                },
            },
    {
        if self.payer.id != self.redeemer.admin.id {
            return Err(LockedVoterError::Unauthorized);
        }
        if new_rate == 0 {
            return Err(LockedVoterError::InvalidRedemptionRate);
        }
        if new_rate == self.redeemer.redemption_rate {
            return Err(LockedVoterError::RedemptionRateSameAsPrevious);
        }
        let previous_rate = self.redeemer.redemption_rate;
        self.redeemer.redemption_rate = new_rate;
        Ok(
            UpdateRedemptionRateEvent {
                locker: self.locker,
                previous_rate,
                new_rate,
                admin: self.payer,
                timestamp: now,
            },
        )
    }
}

/// Audit record of a deposit into the pool.
#[derive(Clone, Copy, PartialEq, Eq, Structural, Debug)]
pub struct AddFundsEvent {
    /// The locker.
    pub locker: Pubkey,
    /// The receipt asset deposited.
    pub receipt_mint: Pubkey,
    /// The amount deposited.
    pub amount: u64,
    /// The admin that deposited.
    pub admin: Pubkey,
    /// When the deposit was made.
    pub timestamp: i64,
}

/// Records and identities for funding the pool.
#[derive(Clone, Copy, PartialEq, Eq, Structural, Debug)]
pub struct AddFunds {
    /// The locker the redeemer belongs to.
    pub locker: Pubkey,
    /// The redeemer being funded.
    pub redeemer: LockerRedeemer,
    /// The caller; must be the admin.
    pub payer: Pubkey,
}

/// The error an [`AddFunds::add_funds`] call reports, or `None` when it
/// succeeds.
pub open spec fn add_funds_error(
    redeemer: LockerRedeemer,
    payer: Pubkey,
    amount: u64,
) -> Option<LockedVoterError> {
    if payer != redeemer.admin {
        Some(LockedVoterError::Unauthorized)
    } else if redeemer.amount + amount > u64::MAX {
        Some(LockedVoterError::OperationFailed)
    } else {
        None
    }
}

/// The redeemer after a successful deposit of `amount`.
pub open spec fn after_add_funds(redeemer: LockerRedeemer, amount: u64) -> LockerRedeemer {
    LockerRedeemer { amount: (redeemer.amount + amount) as u64, ..redeemer }
}

impl AddFunds {
    /// Deposits `amount` receipt tokens into the pool; only the admin may
    /// call, and the balance update is checked.
    pub fn add_funds(&mut self, amount: u64, now: i64) -> (r: Result<
        AddFundsEvent,
        LockedVoterError,
    >)
        ensures
            match r {
                Ok(ev) => {
                    &&& add_funds_error(old(self).redeemer, old(self).payer, amount) is None
                    &&& *final(self) == (AddFunds {
                        redeemer: after_add_funds(old(self).redeemer, amount),
                        ..*old(self)
                    })
                    &&& ev == (AddFundsEvent {
                        locker: old(self).locker,
                        receipt_mint: old(self).redeemer.receipt_mint,
                        amount,
                        admin: old(self).payer,
                        timestamp: now,
                    })
                },
                Err(e) => {
                    &&& add_funds_error(old(self).redeemer, old(self).payer, amount) == Some(e)
                    &&& *final(self) == *old(self)
                },
            },
    {
        if self.payer.id != self.redeemer.admin.id {
            return Err(LockedVoterError::Unauthorized);
        }
        let next_amount: u64 = match self.redeemer.amount.checked_add(amount) {
            Some(a) => a,
            None => {
                return Err(LockedVoterError::OperationFailed);
            },
        };
        self.redeemer.amount = next_amount;
        Ok(
            AddFundsEvent {
                locker: self.locker,
                receipt_mint: self.redeemer.receipt_mint,
                amount,
                admin: self.payer,
                timestamp: now,
            },
        )
    }
}

/// Audit record of draining the pool.
#[derive(Clone, Copy, PartialEq, Eq, Structural, Debug)]
pub struct RemoveAllFundsEvent {
    /// The locker.
    pub locker: Pubkey,
    /// The receipt asset withdrawn.
    pub receipt_mint: Pubkey,
    /// The amount withdrawn: the whole funded balance.
    pub amount: u64,
    /// The admin that withdrew.
    pub admin: Pubkey,
    /// When the withdrawal was made.
    pub timestamp: i64,
}

/// Records and identities for draining the pool.
#[derive(Clone, Copy, PartialEq, Eq, Structural, Debug)]
pub struct RemoveAllFunds {
    /// The locker the redeemer belongs to.
    pub locker: Pubkey,
    /// The redeemer being drained.
    pub redeemer: LockerRedeemer,
    /// The caller; must be the admin.
    pub payer: Pubkey,
}

/// The error a [`RemoveAllFunds::remove_all_funds`] call reports, or
/// `None` when it succeeds.
pub open spec fn remove_all_funds_error(
    redeemer: LockerRedeemer,
    payer: Pubkey,
) -> Option<LockedVoterError> {
    if payer != redeemer.admin {
        Some(LockedVoterError::Unauthorized)
    } else if redeemer.amount == 0 {
        Some(LockedVoterError::InsufficientFunds)
    } else {
        None
    }
}

impl RemoveAllFunds {
    /// Withdraws the pool's whole funded balance back to the admin; the
    /// event reports exactly the amount handed back, and the balance is
    /// left at zero.
    pub fn remove_all_funds(&mut self, now: i64) -> (r: Result<
        RemoveAllFundsEvent,
        LockedVoterError,
    >)
        ensures
            match r {
                Ok(ev) => {
                    &&& remove_all_funds_error(old(self).redeemer, old(self).payer) is None
                    &&& *final(self) == (RemoveAllFunds {
                        redeemer: (LockerRedeemer { amount: 0u64, ..old(self).redeemer }),
                        ..*old(self)
                    })
                    &&& ev == (RemoveAllFundsEvent {
                        locker: old(self).locker,
                        receipt_mint: old(self).redeemer.receipt_mint,
                        amount: old(self).redeemer.amount,
                        admin: old(self).payer,
                        timestamp: now,
                    })
                },
                Err(e) => {
                    &&& remove_all_funds_error(old(self).redeemer, old(self).payer) == Some(e)
                    &&& *final(self) == *old(self)
                },
            },
    {
        if self.payer.id != self.redeemer.admin.id {
            return Err(LockedVoterError::Unauthorized);
        }
        if self.redeemer.amount == 0 {
            return Err(LockedVoterError::InsufficientFunds);
        }
        let removed: u64 = self.redeemer.amount;
        self.redeemer.amount = 0;
        Ok(
            RemoveAllFundsEvent {
                locker: self.locker,
                receipt_mint: self.redeemer.receipt_mint,
                amount: removed,
                admin: self.payer,
                timestamp: now,
            },
        )
    }
}

/// Law: `add_funds(x)` followed by `remove_all_funds`, with no redemption
/// in between, hands back exactly the prior balance plus `x` and leaves
/// the funded balance at zero. The deposit must leave something to
/// withdraw: the round trip is stated for a non-empty pool.
pub proof fn lemma_funding_round_trip(redeemer: LockerRedeemer, admin: Pubkey, x: u64)
    requires
        add_funds_error(redeemer, admin, x) is None,
        redeemer.amount + x > 0,
    ensures
        remove_all_funds_error(after_add_funds(redeemer, x), admin) is None,
        after_add_funds(redeemer, x).amount == redeemer.amount + x,
        (LockerRedeemer { amount: 0u64, ..after_add_funds(redeemer, x) }).amount == 0,
{
}

/// Audit record of a manual blacklist addition.
#[derive(Clone, Copy, PartialEq, Eq, Structural, Debug)]
pub struct AddBlacklistEntryEvent {
    /// The locker.
    pub locker: Pubkey,
    /// The escrow barred from redeeming.
    pub escrow: Pubkey,
    /// The escrow's owner.
    pub owner: Pubkey,
    /// The admin that wrote the entry.
    pub admin: Pubkey,
    /// When the entry was written.
    pub timestamp: i64,
}

/// Records and identities for manually blacklisting an escrow.
#[derive(Clone, Copy, PartialEq, Eq, Structural, Debug)]
pub struct AddBlacklistEntry {
    /// The locker the redeemer belongs to.
    pub locker: Pubkey,
    /// The redeemer whose admin is acting.
    pub redeemer: LockerRedeemer,
    /// The identity of the escrow to bar.
    pub escrow_key: Pubkey,
    /// The escrow to bar.
    pub escrow: Escrow,
    /// The blacklist record for this (locker, escrow) pair; empty unless
    /// an entry already exists.
    pub blacklist: Blacklist,
    /// The caller; must be the admin.
    pub payer: Pubkey,
}

impl AddBlacklistEntry {
    /// Writes a blacklist entry for the escrow by hand, independent of the
    /// automatic one a withdrawal writes; only the admin may call, and an
    /// escrow cannot be blacklisted twice.
    pub fn add_blacklist_entry(&mut self, now: i64) -> (r: Result<
        AddBlacklistEntryEvent,
        LockedVoterError,
    >)
        requires
            1 <= now,
        ensures
            match r {
                Ok(ev) => {
                    &&& old(self).payer == old(self).redeemer.admin
                    &&& !blacklisted(old(self).blacklist)
                    &&& *final(self) == (AddBlacklistEntry {
                        blacklist: (Blacklist {
                            locker: old(self).locker,
                            escrow: old(self).escrow_key,
                            owner: old(self).escrow.owner,
                            timestamp: now,
                        }),
                        ..*old(self)
                    })
                    &&& blacklisted(final(self).blacklist)
                    &&& ev == (AddBlacklistEntryEvent {
                        locker: old(self).locker,
                        escrow: old(self).escrow_key,
                        owner: old(self).escrow.owner,
                        admin: old(self).payer,
                        timestamp: now,
                    })
                },
                Err(e) => {
                    &&& !(old(self).payer == old(self).redeemer.admin && !blacklisted(
                        old(self).blacklist,
                    ))
                    &&& (e == LockedVoterError::Unauthorized <==> old(self).payer != old(
                        self,
                    ).redeemer.admin)
                    &&& (e == LockedVoterError::EscrowBlacklisted <==> old(self).payer == old(
                        self,
                    ).redeemer.admin && blacklisted(old(self).blacklist))
                    &&& *final(self) == *old(self)
                },
            },
    {
        if self.payer.id != self.redeemer.admin.id {
            return Err(LockedVoterError::Unauthorized);
        }
        if self.blacklist.timestamp != 0 {
            return Err(LockedVoterError::EscrowBlacklisted);
        }
        self.blacklist = Blacklist {
            locker: self.locker,
            escrow: self.escrow_key,
            owner: self.escrow.owner,
            timestamp: now,
        };
        Ok(
            AddBlacklistEntryEvent {
                locker: self.locker,
                escrow: self.escrow_key,
                owner: self.escrow.owner,
                admin: self.payer,
                timestamp: now,
            },
        )
    }
}

/// Audit record of a manual blacklist removal.
#[derive(Clone, Copy, PartialEq, Eq, Structural, Debug)]
pub struct RemoveBlacklistEntryEvent {
    /// The locker.
    pub locker: Pubkey,
    /// The escrow allowed to redeem again.
    pub escrow: Pubkey,
    /// The escrow's owner.
    pub owner: Pubkey,
    /// The admin that removed the entry.
    pub admin: Pubkey,
    /// When the entry was removed.
    pub timestamp: i64,
}

/// Records and identities for lifting a blacklist entry.
#[derive(Clone, Copy, PartialEq, Eq, Structural, Debug)]
pub struct RemoveBlacklistEntry {
    /// The locker the redeemer belongs to.
    pub locker: Pubkey,
    /// The redeemer whose admin is acting.
    pub redeemer: LockerRedeemer,
    /// The identity of the barred escrow.
    pub escrow_key: Pubkey,
    /// The barred escrow.
    pub escrow: Escrow,
    /// The existing blacklist record for this (locker, escrow) pair.
    pub blacklist: Blacklist,
    /// The caller; must be the admin.
    pub payer: Pubkey,
}

impl RemoveBlacklistEntry {
    /// Lifts the blacklist entry, allowing the escrow to redeem again;
    /// only the admin may call. On success the record is cleared and the
    /// environment discards it.
    pub fn remove_blacklist_entry(&mut self, now: i64) -> (r: Result<
        RemoveBlacklistEntryEvent,
        LockedVoterError,
    >)
        requires
            blacklisted(old(self).blacklist),
        ensures
            match r {
                Ok(ev) => {
                    &&& old(self).payer == old(self).redeemer.admin
                    &&& *final(self) == (RemoveBlacklistEntry {
                        blacklist: (Blacklist {
                            locker: Pubkey::zero_key(),
                            escrow: Pubkey::zero_key(),
                            owner: Pubkey::zero_key(),
                            timestamp: 0i64,
                        }),
                        ..*old(self)
                    })
                    &&& !blacklisted(final(self).blacklist)
                    &&& ev == (RemoveBlacklistEntryEvent {
                        locker: old(self).locker,
                        escrow: old(self).escrow_key,
                        owner: old(self).escrow.owner,
                        admin: old(self).payer,
                        timestamp: now,
                    })
                },
                Err(e) => {
                    &&& old(self).payer != old(self).redeemer.admin
                    &&& e == LockedVoterError::Unauthorized
                    &&& *final(self) == *old(self)
                },
            },
    {
        if self.payer.id != self.redeemer.admin.id {
            return Err(LockedVoterError::Unauthorized);
        }
        self.blacklist = Blacklist {
            locker: Pubkey::zero(),
            escrow: Pubkey::zero(),
            owner: Pubkey::zero(),
            timestamp: 0,
        };
        Ok(
            RemoveBlacklistEntryEvent {
                locker: self.locker,
                escrow: self.escrow_key,
                owner: self.escrow.owner,
                admin: self.payer,
                timestamp: now,
            },
        )
    }
}

/// Audit record of an instant withdrawal. As in the emitted ledger event,
/// `amount` is the receipt payout handed to the owner.
#[derive(Clone, Copy, PartialEq, Eq, Structural, Debug)]
pub struct InstantWithdrawEvent {
    /// The locker.
    pub locker: Pubkey,
    /// The escrow that was drained.
    pub escrow: Pubkey,
    /// The escrow's owner.
    pub owner: Pubkey,
    /// The receipt amount paid out.
    pub amount: u64,
    /// When the withdrawal was made.
    pub timestamp: i64,
}

/// Records and identities for an instant withdrawal: an escrow exits its
/// lock early by forfeiting the principal to the treasury in exchange for
/// receipt tokens sized by its current voting power.
#[derive(Clone, Copy, PartialEq, Eq, Structural, Debug)]
pub struct InstantWithdraw {
    /// The locker the escrow is locked under; its rules size the payout.
    pub locker: Locker,
    /// The redeemer paying out.
    pub redeemer: LockerRedeemer,
    /// The identity of the escrow being drained.
    pub escrow_key: Pubkey,
    /// The escrow being drained.
    pub escrow: Escrow,
    /// The escrow's owner, the signer of the withdrawal.
    pub escrow_owner: Pubkey,
    /// The blacklist record for this (locker, escrow) pair; empty unless
    /// an entry already exists.
    pub blacklist: Blacklist,
}

/// The error [`InstantWithdraw::validate`] reports, or `None` when every
/// eligibility check passes. The checks run in this order: the escrow
/// holds something, no blacklist entry exists, the redeemer is active, and
/// the escrow was started strictly before the cutoff date.
pub open spec fn validate_error(s: InstantWithdraw) -> Option<LockedVoterError> {
    if s.escrow.amount == 0 {
        Some(LockedVoterError::EscrowEmpty)
    } else if blacklisted(s.blacklist) {
        Some(LockedVoterError::EscrowBlacklisted)
    } else if s.redeemer.status != 1 {
        Some(LockedVoterError::RedeemerNotActive)
    } else if s.escrow.escrow_started_at >= s.redeemer.cutoff_date {
        Some(LockedVoterError::EscrowTooRecent)
    } else {
        None
    }
}

/// The receipt payout of a withdrawal at `now`: the escrow's voting power
/// divided by the redemption rate, rounded down — the fractional remainder
/// is deliberately forfeited to the pool.
pub open spec fn receipt_amount_of(s: InstantWithdraw, now: i64) -> int {
    voting_power_of(
        s.escrow.amount,
        s.locker.params.max_vote_multiplier,
        s.escrow.escrow_ends_at,
        now,
        s.locker.params.max_duration,
    ) / (s.redeemer.redemption_rate as int)
}

/// The error an [`InstantWithdraw::instant_withdraw`] call reports, or
/// `None` when it succeeds: the eligibility checks, then the voting-power
/// computation, then the pool's checked balance update.
pub open spec fn instant_withdraw_error(s: InstantWithdraw, now: i64) -> Option<
    LockedVoterError,
> {
    if validate_error(s) is Some {
        validate_error(s)
    } else if !voting_power_fits(
        s.escrow.amount,
        s.locker.params.max_vote_multiplier,
        s.escrow.escrow_ends_at,
        now,
        s.locker.params.max_duration,
    ) {
        Some(LockedVoterError::ArithmeticOverflow)
    } else if s.redeemer.amount < receipt_amount_of(s, now) {
        Some(LockedVoterError::InsufficientFunds)
    } else {
        None
    }
}

/// The state a successful withdrawal at `now` leaves behind: the pool paid
/// the receipt amount, the escrow was zeroed, and the blacklist entry was
/// written with the withdrawal time.
pub open spec fn after_instant_withdraw(s: InstantWithdraw, now: i64) -> InstantWithdraw {
    InstantWithdraw {
        redeemer: (LockerRedeemer {
            amount: (s.redeemer.amount - receipt_amount_of(s, now)) as u64,
            ..s.redeemer
        }),
        escrow: (Escrow {
            amount: 0u64,
            escrow_started_at: 0i64,
            escrow_ends_at: 0i64,
            ..s.escrow
        }),
        blacklist: (Blacklist {
            locker: s.escrow.locker,
            escrow: s.escrow_key,
            owner: s.escrow_owner,
            timestamp: now,
        }),
        ..s
    }
}

impl InstantWithdraw {
    /// Checks the withdrawal's eligibility, in order: the escrow holds
    /// something, no blacklist entry exists for it, the redeemer is
    /// active, and the escrow predates the cutoff. Reads only; the
    /// withdrawal itself runs the same checks again before mutating.
    pub fn validate(&self) -> (r: Result<(), LockedVoterError>)
        ensures
            match r {
                Ok(_) => validate_error(*self) is None,
                Err(e) => validate_error(*self) == Some(e),
            },
    {
        if self.escrow.amount == 0 {
            return Err(LockedVoterError::EscrowEmpty);
        }
        if self.blacklist.timestamp != 0 {
            return Err(LockedVoterError::EscrowBlacklisted);
        }
        if self.redeemer.status != 1 {
            return Err(LockedVoterError::RedeemerNotActive);
        }
        if self.escrow.escrow_started_at >= self.redeemer.cutoff_date {
            return Err(LockedVoterError::EscrowTooRecent);
        }
        Ok(())
    }

    /// Drains the escrow early: the whole locked balance goes to the
    /// treasury, the owner receives `voting_power / redemption_rate`
    /// receipt tokens out of the pool (checked subtraction — the pool must
    /// cover it), the escrow is zeroed, and a blacklist entry with the
    /// withdrawal time bars the escrow from redeeming again. All checks
    /// precede every mutation, so a failed call changes nothing.
    pub fn instant_withdraw(&mut self, now: i64) -> (r: Result<
        InstantWithdrawEvent,
        LockedVoterError,
    >)
        requires
            1 <= now,
            crate::locker::locker_params_valid(old(self).locker.params),
            redeemer_wf(old(self).redeemer),
            old(self).escrow.owner == old(self).escrow_owner,
        ensures
            match r {
                Ok(ev) => {
                    &&& instant_withdraw_error(*old(self), now) is None
                    &&& *final(self) == after_instant_withdraw(*old(self), now)
                    &&& blacklisted(final(self).blacklist)
                    &&& ev == (InstantWithdrawEvent {
                        locker: old(self).escrow.locker,
                        escrow: old(self).escrow_key,
                        owner: old(self).escrow_owner,
                        amount: receipt_amount_of(*old(self), now) as u64,
                        timestamp: now,
                    })
                },
                Err(e) => {
                    &&& instant_withdraw_error(*old(self), now) == Some(e)
                    &&& *final(self) == *old(self)
                },
            },
    {
        if self.escrow.amount == 0 {
            return Err(LockedVoterError::EscrowEmpty);
        }
        if self.blacklist.timestamp != 0 {
            return Err(LockedVoterError::EscrowBlacklisted);
        }
        if self.redeemer.status != 1 {
            return Err(LockedVoterError::RedeemerNotActive);
        }
        if self.escrow.escrow_started_at >= self.redeemer.cutoff_date {
            return Err(LockedVoterError::EscrowTooRecent);
        }
        let power: u64 = match self.escrow.voting_power(&self.locker.params, now) {
            Ok(p) => p,
            Err(_) => {
                return Err(LockedVoterError::ArithmeticOverflow);
            },
        };
        let receipt_amount: u64 = power / self.redeemer.redemption_rate;
        let next_pool: u64 = match self.redeemer.amount.checked_sub(receipt_amount) {
            Some(a) => a,
            None => {
                return Err(LockedVoterError::InsufficientFunds);
            },
        };
        self.redeemer.amount = next_pool;
        self.escrow.amount = 0;
        self.escrow.escrow_started_at = 0;
        self.escrow.escrow_ends_at = 0;
        self.blacklist = Blacklist {
            locker: self.escrow.locker,
            escrow: self.escrow_key,
            owner: self.escrow_owner,
            timestamp: now,
        };
        Ok(
            InstantWithdrawEvent {
                locker: self.escrow.locker,
                escrow: self.escrow_key,
                owner: self.escrow_owner,
                amount: receipt_amount,
                timestamp: now,
            },
        )
    }
}

/// Law: a second instant withdrawal against the same blacklist record must
/// fail. A successful withdrawal at `now >= 1` leaves the blacklist entry
/// set, and any later withdrawal context carrying that record is rejected:
/// as a blacklisted (or already emptied) escrow, before anything changes.
pub proof fn lemma_no_double_redemption(
    first: InstantWithdraw,
    now: i64,
    second: InstantWithdraw,
    later: i64,
)
    requires
        1 <= now,
        instant_withdraw_error(first, now) is None,
        second.blacklist == after_instant_withdraw(first, now).blacklist,
    ensures
        instant_withdraw_error(second, later) is Some,
        second.escrow.amount > 0 ==> instant_withdraw_error(second, later) == Some(
            LockedVoterError::EscrowBlacklisted,
        ),
{
}

} // verus!

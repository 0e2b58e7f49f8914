//! Time-locked escrows and their voting power.
//!
//! A locker holds the DAO-wide locking rules — duration bounds, the maximum
//! voting multiplier, whether a whitelist gates indirect calls — and the
//! aggregate locked supply. Each depositor owns one escrow under it: a
//! locked balance with a lock window and a vote delegate. Locking more
//! tokens may extend the window but can never shorten it, and all balance
//! arithmetic is checked. The escrow's voting power is the pure decay curve
//! of [`crate::power`], evaluated against an externally supplied time.
//!
//! Token transfers themselves are the ledger's work; these operations
//! compute and return the amounts the environment must move.

use vstd::prelude::*;

use crate::govern;
use crate::govern::{Governor, Proposal, Vote};
use crate::power::{
    lemma_bonus_bounded, remaining_lock_time, voting_power_fits, voting_power_of,
};
use crate::pubkey::Pubkey;
use vstd::arithmetic::mul::lemma_mul_upper_bound;

verus! {

/// DAO-wide locking rules.
#[derive(Clone, Copy, PartialEq, Eq, Structural, Debug)]
pub struct LockerParams {
    /// Whether indirect lock calls must present a whitelist entry.
    pub whitelist_enabled: bool,
    /// Voting power per token at a full lock; at least `1`.
    pub max_vote_multiplier: u8,
    /// Shortest accepted lock duration, in seconds; never negative.
    pub min_duration: i64,
    /// Longest accepted lock duration, in seconds; at least `min_duration`.
    pub max_duration: i64,
}

/// The configuration root for token locking under one DAO.
#[derive(Clone, Copy, PartialEq, Eq, Structural, Debug)]
pub struct Locker {
    /// The token this locker locks.
    pub token_mint: Pubkey,
    /// The governor whose proposals locked tokens vote on.
    pub governor: Pubkey,
    /// Total amount currently locked across all escrows.
    pub locked_supply: u64,
    /// The locking rules.
    pub params: LockerParams,
}

/// One depositor's locked balance and lock window.
#[derive(Clone, Copy, PartialEq, Eq, Structural, Debug)]
pub struct Escrow {
    /// The locker the escrow belongs to.
    pub locker: Pubkey,
    /// The depositor.
    pub owner: Pubkey,
    /// The locked balance.
    pub amount: u64,
    /// When the current lock was (re)started; `0` when empty.
    pub escrow_started_at: i64,
    /// When the lock ends; `0` when empty.
    pub escrow_ends_at: i64,
    /// The identity allowed to vote with this escrow's power.
    pub vote_delegate: Pubkey,
}

/// Permission for one program to lock into escrows of one locker.
#[derive(Clone, Copy, PartialEq, Eq, Structural, Debug)]
pub struct LockerWhitelistEntry {
    /// The locker the entry belongs to.
    pub locker: Pubkey,
    /// The program allowed to invoke the lock operation.
    pub program_id: Pubkey,
    /// The only escrow owner the entry covers; zero covers every owner.
    pub owner: Pubkey,
}

/// How a lock call reached the locker.
#[derive(Clone, Copy, PartialEq, Eq, Structural, Debug)]
pub enum LockCaller {
    /// The escrow owner signed the transaction directly.
    Direct,
    /// Another program invoked the lock on the owner's behalf.
    Program {
        /// The invoking program.
        program_id: Pubkey,
    },
}

/// Errors of the locking state machine.
#[derive(Clone, Copy, PartialEq, Eq, Structural, Debug)]
pub enum ErrorCode {
    /// Rejected locker parameters: negative or inverted duration bounds, or
    /// a multiplier below one.
    InvalidLockerParams,
    /// Lock duration below the locker's minimum.
    LockupDurationTooShort,
    /// Lock duration above the locker's maximum.
    LockupDurationTooLong,
    /// A refresh would have shortened the remaining lock time.
    RefreshCannotShorten,
    /// The escrow's lock has not ended yet.
    EscrowNotEnded,
    /// The locker has a whitelist, and no entry was presented.
    MustProvideWhitelist,
    /// The locker has a whitelist; indirect calls must present their entry.
    MustCallLockWithWhitelistEntry,
    /// The locker has no whitelist; the permissionless call must be used.
    MustCallLockPermissionless,
    /// The presented whitelist entry does not cover the invoking program.
    ProgramNotWhitelisted,
    /// The presented whitelist entry does not cover this escrow's owner.
    EscrowOwnerNotWhitelisted,
    /// The caller is not the required owner, delegate or governance
    /// authority.
    Unauthorized,
    /// A checked addition, subtraction or multiplication could not be
    /// represented.
    ArithmeticOverflow,
}

/// Whether locker parameters are acceptable: non-negative ordered duration
/// bounds and a multiplier of at least one.
pub open spec fn locker_params_valid(p: LockerParams) -> bool {
    0 <= p.min_duration && p.min_duration <= p.max_duration && p.max_vote_multiplier >= 1
}

/// The escrow invariant: a funded escrow's window is properly ordered.
pub open spec fn escrow_wf(e: Escrow) -> bool {
    e.amount > 0 ==> e.escrow_started_at <= e.escrow_ends_at
}

/// Creates a [`Locker`] with zero locked supply; rejects parameters that
/// break the locker invariant.
pub fn new_locker(token_mint: Pubkey, governor: Pubkey, params: LockerParams) -> (r: Result<
    Locker,
    ErrorCode,
>)
    ensures
        match r {
            Ok(l) => {
                &&& locker_params_valid(params)
                &&& l == (Locker { token_mint, governor, locked_supply: 0, params })
            },
            Err(e) => {
                &&& !locker_params_valid(params)
                &&& e == ErrorCode::InvalidLockerParams
            },
        },
{
    if !(0 <= params.min_duration && params.min_duration <= params.max_duration
        && params.max_vote_multiplier >= 1) {
        return Err(ErrorCode::InvalidLockerParams);
    }
    Ok(Locker { token_mint, governor, locked_supply: 0, params })
}

/// Creates an empty escrow for `owner` under the locker at `locker_key`;
/// the owner starts as their own vote delegate.
pub fn new_escrow(locker_key: Pubkey, owner: Pubkey) -> (r: Escrow)
    ensures
        r == (Escrow {
            locker: locker_key,
            owner,
            amount: 0u64,
            escrow_started_at: 0i64,
            escrow_ends_at: 0i64,
            vote_delegate: owner,
        }),
        escrow_wf(r),
{
    Escrow {
        locker: locker_key,
        owner,
        amount: 0,
        escrow_started_at: 0,
        escrow_ends_at: 0,
        vote_delegate: owner,
    }
}

/// The error a [`lock_tokens`] call reports, or `None` when it succeeds:
/// the checks run in this order and the first failure wins.
pub open spec fn lock_error(
    locker: Locker,
    escrow: Escrow,
    amount: u64,
    duration: i64,
    now: i64,
) -> Option<ErrorCode> {
    if duration < locker.params.min_duration {
        Some(ErrorCode::LockupDurationTooShort)
    } else if duration > locker.params.max_duration {
        Some(ErrorCode::LockupDurationTooLong)
    } else if now + duration > i64::MAX {
        Some(ErrorCode::ArithmeticOverflow)
    } else if now + duration < escrow.escrow_ends_at {
        Some(ErrorCode::RefreshCannotShorten)
    } else if escrow.amount + amount > u64::MAX {
        Some(ErrorCode::ArithmeticOverflow)
    } else if locker.locked_supply + amount > u64::MAX {
        Some(ErrorCode::ArithmeticOverflow)
    } else {
        None
    }
}

/// The escrow state a successful lock of `amount` for `duration` at `now`
/// leaves behind.
pub open spec fn after_lock(escrow: Escrow, amount: u64, duration: i64, now: i64) -> Escrow {
    Escrow {
        amount: (escrow.amount + amount) as u64,
        escrow_started_at: now,
        escrow_ends_at: (now + duration) as i64,
        ..escrow
    }
}

/// The locking algorithm shared by every lock variant, once authorization
/// is settled: checks the duration bounds, refuses to shorten the window,
/// and adds `amount` to the escrow and the aggregate supply with checked
/// arithmetic. On any failure nothing changes.
pub fn lock_tokens(
    locker: &mut Locker,
    escrow: &mut Escrow,
    amount: u64,
    duration: i64,
    now: i64,
) -> (r: Result<(), ErrorCode>)
    requires
        locker_params_valid(old(locker).params),
    ensures
        final(locker).params == old(locker).params,
        match r {
            Ok(_) => {
                &&& lock_error(*old(locker), *old(escrow), amount, duration, now) is None
                &&& *final(escrow) == after_lock(*old(escrow), amount, duration, now)
                &&& *final(locker) == (Locker {
                    locked_supply: (old(locker).locked_supply + amount) as u64,
                    ..*old(locker)
                })
                &&& escrow_wf(*final(escrow))
            },
            Err(e) => {
                &&& lock_error(*old(locker), *old(escrow), amount, duration, now) == Some(e)
                &&& *final(locker) == *old(locker)
                &&& *final(escrow) == *old(escrow)
            },
        },
{
    if duration < locker.params.min_duration {
        return Err(ErrorCode::LockupDurationTooShort);
    }
    if duration > locker.params.max_duration {
        return Err(ErrorCode::LockupDurationTooLong);
    }
    let next_ends_at: i64 = match now.checked_add(duration) {
        Some(t) => t,
        None => {
            return Err(ErrorCode::ArithmeticOverflow);
        },
    };
    if next_ends_at < escrow.escrow_ends_at {
        return Err(ErrorCode::RefreshCannotShorten);
    }
    let next_amount: u64 = match escrow.amount.checked_add(amount) {
        Some(a) => a,
        None => {
            return Err(ErrorCode::ArithmeticOverflow);
        },
    };
    let next_supply: u64 = match locker.locked_supply.checked_add(amount) {
        Some(s) => s,
        None => {
            return Err(ErrorCode::ArithmeticOverflow);
        },
    };
    escrow.amount = next_amount;
    escrow.escrow_started_at = now;
    escrow.escrow_ends_at = next_ends_at;
    locker.locked_supply = next_supply;
    Ok(())
}

/// Law: a refresh can never shorten the remaining lock time. Whenever the
/// requested duration is inside the locker's bounds but would end the lock
/// before the current window does, the lock reports exactly the
/// shorten-prevention error — for every such duration.
pub proof fn lemma_lock_cannot_shorten(
    locker: Locker,
    escrow: Escrow,
    amount: u64,
    duration: i64,
    now: i64,
)
    requires
        locker_params_valid(locker.params),
        locker.params.min_duration <= duration <= locker.params.max_duration,
        now + duration < escrow.escrow_ends_at,
    ensures
        lock_error(locker, escrow, amount, duration, now) == Some(ErrorCode::RefreshCannotShorten),
{
}

impl Escrow {
    /// The escrow's voting power at `now` under the given locker rules: the
    /// decay curve of [`crate::power`], computed with checked arithmetic
    /// and failing fast when a step cannot be represented.
    ///
    /// Pure: reads the escrow, mutates nothing.
    pub fn voting_power(&self, params: &LockerParams, now: i64) -> (r: Result<u64, ErrorCode>)
        requires
            locker_params_valid(*params),
        ensures
            match r {
                Ok(p) => {
                    &&& voting_power_fits(
                        self.amount,
                        params.max_vote_multiplier,
                        self.escrow_ends_at,
                        now,
                        params.max_duration,
                    )
                    &&& p == voting_power_of(
                        self.amount,
                        params.max_vote_multiplier,
                        self.escrow_ends_at,
                        now,
                        params.max_duration,
                    )
                },
                Err(e) => {
                    &&& !voting_power_fits(
                        self.amount,
                        params.max_vote_multiplier,
                        self.escrow_ends_at,
                        now,
                        params.max_duration,
                    )
                    &&& e == ErrorCode::ArithmeticOverflow
                },
            },
    {
        let ghost spec_remaining = remaining_lock_time(
            self.escrow_ends_at,
            now,
            params.max_duration,
        );
        let remaining: u64 = if self.escrow_ends_at <= now {
            0
        } else {
            let diff: i128 = self.escrow_ends_at as i128 - now as i128;
            if diff >= params.max_duration as i128 {
                params.max_duration as u64
            } else {
                diff as u64
            }
        };
        assert(remaining as int == spec_remaining);
        if remaining == 0 {
            return Ok(self.amount);
        }
        let multiplier: u8 = params.max_vote_multiplier;
        let bonus_base: u64 = match self.amount.checked_mul((multiplier - 1) as u64) {
            Some(b) => b,
            None => {
                return Err(ErrorCode::ArithmeticOverflow);
            },
        };
        proof {
            lemma_mul_upper_bound(
                bonus_base as int,
                u64::MAX as int,
                remaining as int,
                u64::MAX as int,
            );
        }
        let scaled: u128 = (bonus_base as u128) * (remaining as u128);
        let bonus_wide: u128 = scaled / (params.max_duration as u128);
        proof {
            lemma_bonus_bounded(bonus_base as int, remaining as int, params.max_duration);
        }
        let bonus: u64 = bonus_wide as u64;
        match self.amount.checked_add(bonus) {
            Some(total) => Ok(total),
            None => Err(ErrorCode::ArithmeticOverflow),
        }
    }
}

/// What a whitelist entry demands of an indirect lock call: the entry
/// must cover the invoking program, and cover this escrow's owner (a zero
/// owner covers everyone).
pub open spec fn whitelist_gate_error(
    entry: LockerWhitelistEntry,
    program_id: Pubkey,
    escrow_owner: Pubkey,
) -> Option<ErrorCode> {
    if entry.program_id != program_id {
        Some(ErrorCode::ProgramNotWhitelisted)
    } else if entry.owner != Pubkey::zero_key() && entry.owner != escrow_owner {
        Some(ErrorCode::EscrowOwnerNotWhitelisted)
    } else {
        None
    }
}

/// Applies [`whitelist_gate_error`] in executable code.
fn check_whitelist_gate(
    entry: &LockerWhitelistEntry,
    program_id: Pubkey,
    escrow_owner: Pubkey,
) -> (r: Result<(), ErrorCode>)
    ensures
        match r {
            Ok(_) => whitelist_gate_error(*entry, program_id, escrow_owner) is None,
            Err(e) => whitelist_gate_error(*entry, program_id, escrow_owner) == Some(e),
        },
{
    if entry.program_id.id != program_id.id {
        return Err(ErrorCode::ProgramNotWhitelisted);
    }
    if entry.owner.id != 0 && entry.owner.id != escrow_owner.id {
        return Err(ErrorCode::EscrowOwnerNotWhitelisted);
    }
    Ok(())
}

/// The authorization gate of the deprecated combined lock call.
pub open spec fn lock_gate_error(
    params: LockerParams,
    escrow_owner: Pubkey,
    caller: LockCaller,
    entry: Option<LockerWhitelistEntry>,
) -> Option<ErrorCode> {
    if !params.whitelist_enabled {
        None
    } else {
        match caller {
            LockCaller::Direct => None,
            LockCaller::Program { program_id } => match entry {
                None => Some(ErrorCode::MustProvideWhitelist),
                Some(e) => whitelist_gate_error(e, program_id, escrow_owner),
            },
        }
    }
}

/// Stakes `amount` into the escrow for `duration`, gating indirect callers
/// through the locker's whitelist when one is enabled. Deprecated in favour
/// of the dedicated variants below, which make the caller's situation
/// explicit; all of them run the same [`lock_tokens`] algorithm.
pub fn lock(
    locker: &mut Locker,
    escrow: &mut Escrow,
    caller: LockCaller,
    entry: Option<&LockerWhitelistEntry>,
    amount: u64,
    duration: i64,
    now: i64,
) -> (r: Result<(), ErrorCode>)
    requires
        locker_params_valid(old(locker).params),
    ensures
        match r {
            Ok(_) => {
                &&& lock_gate_error(
                    old(locker).params,
                    old(escrow).owner,
                    caller,
                    match entry {
                        Some(e) => Some(*e),
                        None => None,
                    },
                ) is None
                &&& lock_error(*old(locker), *old(escrow), amount, duration, now) is None
                &&& *final(escrow) == after_lock(*old(escrow), amount, duration, now)
                &&& *final(locker) == (Locker {
                    locked_supply: (old(locker).locked_supply + amount) as u64,
                    ..*old(locker)
                })
            },
            Err(e) => {
                &&& Some(e) == {
                    let gate = lock_gate_error(
                        old(locker).params,
                        old(escrow).owner,
                        caller,
                        match entry {
                            Some(en) => Some(*en),
                            None => None,
                        },
                    );
                    if gate is Some {
                        gate
                    } else {
                        lock_error(*old(locker), *old(escrow), amount, duration, now)
                    }
                }
                &&& *final(locker) == *old(locker)
                &&& *final(escrow) == *old(escrow)
            },
        },
{
    if locker.params.whitelist_enabled {
        match caller {
            LockCaller::Direct => {},
            LockCaller::Program { program_id } => {
                match entry {
                    None => {
                        return Err(ErrorCode::MustProvideWhitelist);
                    },
                    Some(e) => {
                        check_whitelist_gate(e, program_id, escrow.owner)?;
                    },
                }
            },
        }
    }
    lock_tokens(locker, escrow, amount, duration, now)
}

/// Stakes into the escrow when the locker has a whitelist and the owner
/// calls directly — an indirect caller is sent to
/// [`lock_with_whitelist_entry`], and without a whitelist the
/// permissionless call must be used.
pub fn lock_with_whitelist(
    locker: &mut Locker,
    escrow: &mut Escrow,
    caller: LockCaller,
    amount: u64,
    duration: i64,
    now: i64,
) -> (r: Result<(), ErrorCode>)
    requires
        locker_params_valid(old(locker).params),
    ensures
        match r {
            Ok(_) => {
                &&& old(locker).params.whitelist_enabled
                &&& caller == LockCaller::Direct
                &&& lock_error(*old(locker), *old(escrow), amount, duration, now) is None
                &&& *final(escrow) == after_lock(*old(escrow), amount, duration, now)
                &&& *final(locker) == (Locker {
                    locked_supply: (old(locker).locked_supply + amount) as u64,
                    ..*old(locker)
                })
            },
            Err(e) => {
                &&& Some(e) == {
                    if !old(locker).params.whitelist_enabled {
                        Some(ErrorCode::MustCallLockPermissionless)
                    } else if caller != LockCaller::Direct {
                        Some(ErrorCode::MustCallLockWithWhitelistEntry)
                    } else {
                        lock_error(*old(locker), *old(escrow), amount, duration, now)
                    }
                }
                &&& *final(locker) == *old(locker)
                &&& *final(escrow) == *old(escrow)
            },
        },
{
    if !locker.params.whitelist_enabled {
        return Err(ErrorCode::MustCallLockPermissionless);
    }
    match caller {
        LockCaller::Program { .. } => {
            return Err(ErrorCode::MustCallLockWithWhitelistEntry);
        },
        LockCaller::Direct => {},
    }
    lock_tokens(locker, escrow, amount, duration, now)
}

/// Stakes into the escrow on behalf of its owner from another program,
/// presenting the whitelist entry that permits the call.
pub fn lock_with_whitelist_entry(
    locker: &mut Locker,
    escrow: &mut Escrow,
    entry: &LockerWhitelistEntry,
    program_id: Pubkey,
    amount: u64,
    duration: i64,
    now: i64,
) -> (r: Result<(), ErrorCode>)
    requires
        locker_params_valid(old(locker).params),
    ensures
        match r {
            Ok(_) => {
                &&& old(locker).params.whitelist_enabled
                &&& whitelist_gate_error(*entry, program_id, old(escrow).owner) is None
                &&& lock_error(*old(locker), *old(escrow), amount, duration, now) is None
                &&& *final(escrow) == after_lock(*old(escrow), amount, duration, now)
                &&& *final(locker) == (Locker {
                    locked_supply: (old(locker).locked_supply + amount) as u64,
                    ..*old(locker)
                })
            },
            Err(e) => {
                &&& Some(e) == {
                    if !old(locker).params.whitelist_enabled {
                        Some(ErrorCode::MustCallLockPermissionless)
                    } else if whitelist_gate_error(*entry, program_id, old(escrow).owner) is Some {
                        whitelist_gate_error(*entry, program_id, old(escrow).owner)
                    } else {
                        lock_error(*old(locker), *old(escrow), amount, duration, now)
                    }
                }
                &&& *final(locker) == *old(locker)
                &&& *final(escrow) == *old(escrow)
            },
        },
{
    if !locker.params.whitelist_enabled {
        return Err(ErrorCode::MustCallLockPermissionless);
    }
    check_whitelist_gate(entry, program_id, escrow.owner)?;
    lock_tokens(locker, escrow, amount, duration, now)
}

/// Stakes into the escrow when the locker has no whitelist; with one
/// enabled, callers must present their entry instead.
pub fn lock_permissionless(
    locker: &mut Locker,
    escrow: &mut Escrow,
    amount: u64,
    duration: i64,
    now: i64,
) -> (r: Result<(), ErrorCode>)
    requires
        locker_params_valid(old(locker).params),
    ensures
        match r {
            Ok(_) => {
                &&& !old(locker).params.whitelist_enabled
                &&& lock_error(*old(locker), *old(escrow), amount, duration, now) is None
                &&& *final(escrow) == after_lock(*old(escrow), amount, duration, now)
                &&& *final(locker) == (Locker {
                    locked_supply: (old(locker).locked_supply + amount) as u64,
                    ..*old(locker)
                })
            },
            Err(e) => {
                &&& Some(e) == {
                    if old(locker).params.whitelist_enabled {
                        Some(ErrorCode::MustCallLockWithWhitelistEntry)
                    } else {
                        lock_error(*old(locker), *old(escrow), amount, duration, now)
                    }
                }
                &&& *final(locker) == *old(locker)
                &&& *final(escrow) == *old(escrow)
            },
        },
{
    if locker.params.whitelist_enabled {
        return Err(ErrorCode::MustCallLockWithWhitelistEntry);
    }
    lock_tokens(locker, escrow, amount, duration, now)
}

/// Returns all staked tokens of an ended lock: zeroes the escrow's balance
/// and window, removes the balance from the aggregate supply, and reports
/// the amount the ledger must hand back to the owner. Only the owner may
/// call, and only once the lock has ended.
pub fn exit(locker: &mut Locker, escrow: &mut Escrow, caller: Pubkey, now: i64) -> (r: Result<
    u64,
    ErrorCode,
>)
    ensures
        match r {
            Ok(returned) => {
                &&& caller == old(escrow).owner
                &&& now >= old(escrow).escrow_ends_at
                &&& old(locker).locked_supply >= old(escrow).amount
                &&& returned == old(escrow).amount
                &&& *final(escrow) == (Escrow {
                    amount: 0u64,
                    escrow_started_at: 0i64,
                    escrow_ends_at: 0i64,
                    ..*old(escrow)
                })
                &&& *final(locker) == (Locker {
                    locked_supply: (old(locker).locked_supply - old(escrow).amount) as u64,
                    ..*old(locker)
                })
                &&& escrow_wf(*final(escrow))
            },
            Err(e) => {
                &&& !(caller == old(escrow).owner && now >= old(escrow).escrow_ends_at && old(
                    locker,
                ).locked_supply >= old(escrow).amount)
                &&& (e == ErrorCode::Unauthorized <==> caller != old(escrow).owner)
                &&& (e == ErrorCode::EscrowNotEnded <==> caller == old(escrow).owner && now < old(
                    escrow,
                ).escrow_ends_at)
                &&& (e == ErrorCode::ArithmeticOverflow <==> caller == old(escrow).owner && now
                    >= old(escrow).escrow_ends_at && old(locker).locked_supply < old(
                    escrow,
                ).amount)
                &&& *final(locker) == *old(locker)
                &&& *final(escrow) == *old(escrow)
            },
        },
{
    if caller != escrow.owner {
        return Err(ErrorCode::Unauthorized);
    }
    if now < escrow.escrow_ends_at {
        return Err(ErrorCode::EscrowNotEnded);
    }
    let returned: u64 = escrow.amount;
    let next_supply: u64 = match locker.locked_supply.checked_sub(returned) {
        Some(s) => s,
        None => {
            return Err(ErrorCode::ArithmeticOverflow);
        },
    };
    escrow.amount = 0;
    escrow.escrow_started_at = 0;
    escrow.escrow_ends_at = 0;
    locker.locked_supply = next_supply;
    Ok(returned)
}

/// The error a [`cast_vote`] call reports, or `None` when it succeeds: the
/// delegate check, then the voting-power computation, then the vote
/// recording under the governor's electorate.
pub open spec fn cast_vote_error(
    locker: Locker,
    escrow: Escrow,
    governor: Governor,
    proposal: Proposal,
    vote: Vote,
    caller: Pubkey,
    side: u8,
    now: i64,
) -> Option<govern::ErrorCode> {
    if caller != escrow.vote_delegate {
        Some(govern::ErrorCode::Unauthorized)
    } else if !voting_power_fits(
        escrow.amount,
        locker.params.max_vote_multiplier,
        escrow.escrow_ends_at,
        now,
        locker.params.max_duration,
    ) {
        Some(govern::ErrorCode::ArithmeticOverflow)
    } else {
        govern::set_vote_error(
            governor,
            proposal,
            vote,
            governor.electorate,
            side,
            voting_power_of(
                escrow.amount,
                locker.params.max_vote_multiplier,
                escrow.escrow_ends_at,
                now,
                locker.params.max_duration,
            ) as u64,
            now,
        )
    }
}

/// Casts a vote with the escrow's current voting power: only the escrow's
/// vote delegate may call; the power is computed from the decay curve at
/// `now` and recorded on the proposal by the locker acting as the
/// governor's electorate. Returns the weight that was recorded.
pub fn cast_vote(
    locker: &Locker,
    escrow: &Escrow,
    governor: &Governor,
    proposal: &mut Proposal,
    vote: &mut Vote,
    caller: Pubkey,
    side: u8,
    now: i64,
) -> (r: Result<u64, govern::ErrorCode>)
    requires
        locker_params_valid(locker.params),
        govern::valid_side(old(vote).side),
    ensures
        match r {
            Ok(weight) => {
                &&& cast_vote_error(
                    *locker,
                    *escrow,
                    *governor,
                    *old(proposal),
                    *old(vote),
                    caller,
                    side,
                    now,
                ) is None
                &&& weight == voting_power_of(
                    escrow.amount,
                    locker.params.max_vote_multiplier,
                    escrow.escrow_ends_at,
                    now,
                    locker.params.max_duration,
                )
                &&& *final(proposal) == govern::after_add(
                    govern::after_sub(*old(proposal), old(vote).side, old(vote).weight),
                    side,
                    weight,
                )
                &&& *final(vote) == (Vote { side, weight, ..*old(vote) })
            },
            Err(e) => {
                &&& cast_vote_error(
                    *locker,
                    *escrow,
                    *governor,
                    *old(proposal),
                    *old(vote),
                    caller,
                    side,
                    now,
                ) == Some(e)
                &&& *final(proposal) == *old(proposal)
                &&& *final(vote) == *old(vote)
            },
        },
{
    if caller.id != escrow.vote_delegate.id {
        return Err(govern::ErrorCode::Unauthorized);
    }
    let weight: u64 = match escrow.voting_power(&locker.params, now) {
        Ok(p) => p,
        Err(_) => {
            return Err(govern::ErrorCode::ArithmeticOverflow);
        },
    };
    govern::set_vote(governor, proposal, vote, governor.electorate, side, weight, now)?;
    Ok(weight)
}

/// Points the escrow's voting power at a new delegate; only the owner may
/// call.
pub fn set_vote_delegate(escrow: &mut Escrow, caller: Pubkey, new_delegate: Pubkey) -> (r: Result<
    Pubkey,
    ErrorCode,
>)
    ensures
        match r {
            Ok(prev) => {
                &&& caller == old(escrow).owner
                &&& prev == old(escrow).vote_delegate
                &&& *final(escrow) == (Escrow { vote_delegate: new_delegate, ..*old(escrow) })
            },
            Err(e) => {
                &&& caller != old(escrow).owner
                &&& e == ErrorCode::Unauthorized
                &&& *final(escrow) == *old(escrow)
            },
        },
{
    if caller.id != escrow.owner.id {
        return Err(ErrorCode::Unauthorized);
    }
    let prev = escrow.vote_delegate;
    escrow.vote_delegate = new_delegate;
    Ok(prev)
}

/// Replaces the locker's parameters; only the owner of the governor's
/// execution service may call, and the locker invariant must hold of the
/// new parameters. Returns the previous parameters for the audit record.
pub fn set_locker_params(
    locker: &mut Locker,
    governor: &Governor,
    caller: Pubkey,
    params: LockerParams,
) -> (r: Result<LockerParams, ErrorCode>)
    ensures
        match r {
            Ok(prev) => {
                &&& caller == governor.smart_wallet
                &&& locker_params_valid(params)
                &&& prev == old(locker).params
                &&& *final(locker) == (Locker { params, ..*old(locker) })
            },
            Err(e) => {
                &&& !(caller == governor.smart_wallet && locker_params_valid(params))
                &&& (e == ErrorCode::Unauthorized <==> caller != governor.smart_wallet)
                &&& (e == ErrorCode::InvalidLockerParams <==> caller == governor.smart_wallet
                    && !locker_params_valid(params))
                &&& *final(locker) == *old(locker)
            },
        },
{
    if caller.id != governor.smart_wallet.id {
        return Err(ErrorCode::Unauthorized);
    }
    if !(0 <= params.min_duration && params.min_duration <= params.max_duration
        && params.max_vote_multiplier >= 1) {
        return Err(ErrorCode::InvalidLockerParams);
    }
    let prev = locker.params;
    locker.params = params;
    Ok(prev)
}

/// Whitelists `program_id` to lock into escrows under the locker at
/// `locker_key`, optionally restricted to one escrow owner (zero covers
/// every owner). Only the owner of the governor's execution service may
/// call.
pub fn approve_program_lock_privilege(
    governor: &Governor,
    caller: Pubkey,
    locker_key: Pubkey,
    program_id: Pubkey,
    owner: Pubkey,
) -> (r: Result<LockerWhitelistEntry, ErrorCode>)
    ensures
        match r {
            Ok(entry) => {
                &&& caller == governor.smart_wallet
                &&& entry == (LockerWhitelistEntry { locker: locker_key, program_id, owner })
            },
            Err(e) => {
                &&& caller != governor.smart_wallet
                &&& e == ErrorCode::Unauthorized
            },
        },
{
    if caller.id != governor.smart_wallet.id {
        return Err(ErrorCode::Unauthorized);
    }
    Ok(LockerWhitelistEntry { locker: locker_key, program_id, owner })
}

/// Revokes a whitelist entry; only the owner of the governor's execution
/// service may call. On success the environment discards the record.
pub fn revoke_program_lock_privilege(governor: &Governor, caller: Pubkey) -> (r: Result<
    (),
    ErrorCode,
>)
    ensures
        match r {
            Ok(_) => caller == governor.smart_wallet,
            Err(e) => caller != governor.smart_wallet && e == ErrorCode::Unauthorized,
        },
{
    if caller.id != governor.smart_wallet.id {
        return Err(ErrorCode::Unauthorized);
    }
    Ok(())
}

} // verus!

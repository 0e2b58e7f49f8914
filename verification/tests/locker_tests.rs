use tribeca::govern::{
    activate_proposal, create_governor, create_proposal, new_vote, ErrorCode as GovernError,
    GovernanceParameters,
};
use tribeca::locker::{
    approve_program_lock_privilege, cast_vote, exit, lock, lock_permissionless,
    lock_with_whitelist, lock_with_whitelist_entry, lock_tokens, new_escrow, new_locker,
    revoke_program_lock_privilege, set_locker_params, set_vote_delegate, ErrorCode, Escrow,
    LockCaller, Locker, LockerParams, LockerWhitelistEntry,
};
use tribeca::pubkey::Pubkey;

const DAY: i64 = 86400;
const YEAR: i64 = 365 * DAY;

fn key(id: u64) -> Pubkey {
    Pubkey { id }
}

fn open_params() -> LockerParams {
    LockerParams {
        whitelist_enabled: false,
        max_vote_multiplier: 4,
        min_duration: 1,
        max_duration: YEAR,
    }
}

fn locker_with(params: LockerParams) -> Locker {
    new_locker(key(20), key(9), params).unwrap()
}

#[test]
fn new_locker_initializes() {
    let l = locker_with(open_params());
    assert_eq!(l.token_mint, key(20));
    assert_eq!(l.governor, key(9));
    assert_eq!(l.locked_supply, 0);
    assert_eq!(l.params, open_params());
}

#[test]
fn new_locker_rejects_bad_params() {
    let inverted = LockerParams { min_duration: 10, max_duration: 5, ..open_params() };
    assert_eq!(new_locker(key(20), key(9), inverted), Err(ErrorCode::InvalidLockerParams));
    let zero_multiplier = LockerParams { max_vote_multiplier: 0, ..open_params() };
    assert_eq!(new_locker(key(20), key(9), zero_multiplier), Err(ErrorCode::InvalidLockerParams));
    let negative = LockerParams { min_duration: -1, ..open_params() };
    assert_eq!(new_locker(key(20), key(9), negative), Err(ErrorCode::InvalidLockerParams));
}

#[test]
fn new_escrow_is_zeroed() {
    let e = new_escrow(key(21), key(30));
    assert_eq!(e.locker, key(21));
    assert_eq!(e.owner, key(30));
    assert_eq!(e.amount, 0);
    assert_eq!(e.escrow_started_at, 0);
    assert_eq!(e.escrow_ends_at, 0);
    assert_eq!(e.vote_delegate, key(30));
}

#[test]
fn lock_adds_and_sets_window() {
    let mut l = locker_with(open_params());
    let mut e = new_escrow(key(21), key(30));
    lock_permissionless(&mut l, &mut e, 1000, YEAR, 100).unwrap();
    assert_eq!(e.amount, 1000);
    assert_eq!(e.escrow_started_at, 100);
    assert_eq!(e.escrow_ends_at, 100 + YEAR);
    assert_eq!(l.locked_supply, 1000);
    // Locking more later extends the window and accumulates.
    lock_permissionless(&mut l, &mut e, 500, YEAR, 200).unwrap();
    assert_eq!(e.amount, 1500);
    assert_eq!(e.escrow_started_at, 200);
    assert_eq!(e.escrow_ends_at, 200 + YEAR);
    assert_eq!(l.locked_supply, 1500);
}

#[test]
fn lock_duration_bounds() {
    let mut l = locker_with(LockerParams { min_duration: DAY, ..open_params() });
    let mut e = new_escrow(key(21), key(30));
    assert_eq!(
        lock_permissionless(&mut l, &mut e, 1000, DAY - 1, 100),
        Err(ErrorCode::LockupDurationTooShort)
    );
    assert_eq!(
        lock_permissionless(&mut l, &mut e, 1000, YEAR + 1, 100),
        Err(ErrorCode::LockupDurationTooLong)
    );
    assert_eq!(e.amount, 0);
    assert_eq!(l.locked_supply, 0);
}

#[test]
fn lock_refresh_cannot_shorten() {
    // Any second lock whose end would precede the committed end fails,
    // whatever the amount.
    let mut l = locker_with(open_params());
    let mut e = new_escrow(key(21), key(30));
    lock_permissionless(&mut l, &mut e, 1000, YEAR, 100).unwrap();
    let ends = e.escrow_ends_at;
    assert_eq!(
        lock_permissionless(&mut l, &mut e, 1, YEAR - DAY, 100),
        Err(ErrorCode::RefreshCannotShorten)
    );
    assert_eq!(
        lock_permissionless(&mut l, &mut e, 0, 1, 101),
        Err(ErrorCode::RefreshCannotShorten)
    );
    assert_eq!(e.escrow_ends_at, ends);
    assert_eq!(e.amount, 1000);
}

#[test]
fn lock_window_overflow_fails() {
    let mut l = locker_with(open_params());
    let mut e = new_escrow(key(21), key(30));
    assert_eq!(
        lock_permissionless(&mut l, &mut e, 1000, YEAR, i64::MAX - 100),
        Err(ErrorCode::ArithmeticOverflow)
    );
}

#[test]
fn lock_amount_overflow_fails() {
    let mut l = locker_with(open_params());
    let mut e = new_escrow(key(21), key(30));
    lock_permissionless(&mut l, &mut e, u64::MAX, YEAR, 100).unwrap();
    assert_eq!(
        lock_permissionless(&mut l, &mut e, 1, YEAR, 200),
        Err(ErrorCode::ArithmeticOverflow)
    );
    assert_eq!(e.amount, u64::MAX);
}

#[test]
fn lock_permissionless_refused_with_whitelist() {
    let mut l = locker_with(LockerParams { whitelist_enabled: true, ..open_params() });
    let mut e = new_escrow(key(21), key(30));
    assert_eq!(
        lock_permissionless(&mut l, &mut e, 1000, YEAR, 100),
        Err(ErrorCode::MustCallLockWithWhitelistEntry)
    );
}

#[test]
fn lock_with_whitelist_gates_callers() {
    let mut l = locker_with(LockerParams { whitelist_enabled: true, ..open_params() });
    let mut e = new_escrow(key(21), key(30));
    lock_with_whitelist(&mut l, &mut e, LockCaller::Direct, 1000, YEAR, 100).unwrap();
    assert_eq!(e.amount, 1000);
    assert_eq!(
        lock_with_whitelist(
            &mut l,
            &mut e,
            LockCaller::Program { program_id: key(60) },
            1,
            YEAR,
            200
        ),
        Err(ErrorCode::MustCallLockWithWhitelistEntry)
    );
    let mut open = locker_with(open_params());
    assert_eq!(
        lock_with_whitelist(&mut open, &mut e, LockCaller::Direct, 1, YEAR, 200),
        Err(ErrorCode::MustCallLockPermissionless)
    );
}

#[test]
fn lock_with_whitelist_entry_checks_entry() {
    let mut l = locker_with(LockerParams { whitelist_enabled: true, ..open_params() });
    let mut e = new_escrow(key(21), key(30));
    let entry = LockerWhitelistEntry { locker: key(21), program_id: key(60), owner: key(0) };
    lock_with_whitelist_entry(&mut l, &mut e, &entry, key(60), 1000, YEAR, 100).unwrap();
    assert_eq!(e.amount, 1000);
    assert_eq!(
        lock_with_whitelist_entry(&mut l, &mut e, &entry, key(61), 1, YEAR, 200),
        Err(ErrorCode::ProgramNotWhitelisted)
    );
    let owned = LockerWhitelistEntry { owner: key(31), ..entry };
    assert_eq!(
        lock_with_whitelist_entry(&mut l, &mut e, &owned, key(60), 1, YEAR, 200),
        Err(ErrorCode::EscrowOwnerNotWhitelisted)
    );
    let mut open = locker_with(open_params());
    assert_eq!(
        lock_with_whitelist_entry(&mut open, &mut e, &entry, key(60), 1, YEAR, 200),
        Err(ErrorCode::MustCallLockPermissionless)
    );
}

#[test]
fn deprecated_lock_requires_entry_for_programs() {
    let mut l = locker_with(LockerParams { whitelist_enabled: true, ..open_params() });
    let mut e = new_escrow(key(21), key(30));
    // The owner calling directly needs no entry even with a whitelist.
    lock(&mut l, &mut e, LockCaller::Direct, None, 1000, YEAR, 100).unwrap();
    assert_eq!(e.amount, 1000);
    assert_eq!(
        lock(
            &mut l,
            &mut e,
            LockCaller::Program { program_id: key(60) },
            None,
            1,
            YEAR,
            200
        ),
        Err(ErrorCode::MustProvideWhitelist)
    );
    let entry = LockerWhitelistEntry { locker: key(21), program_id: key(60), owner: key(0) };
    lock(
        &mut l,
        &mut e,
        LockCaller::Program { program_id: key(60) },
        Some(&entry),
        1,
        YEAR,
        200,
    )
    .unwrap();
    assert_eq!(e.amount, 1001);
}

#[test]
fn voting_power_scenario_full_year() {
    // A 1000-token lock for the full 365 days at multiplier 4 is worth
    // 4000 right away, 2500 after 182.5 days, and 1000 at the end.
    let mut l = locker_with(open_params());
    let mut e = new_escrow(key(21), key(30));
    let start: i64 = 1_000_000;
    lock_permissionless(&mut l, &mut e, 1000, YEAR, start).unwrap();
    assert_eq!(e.voting_power(&l.params, start).unwrap(), 4000);
    let halfway: i64 = start + YEAR / 2;
    assert_eq!(e.voting_power(&l.params, halfway).unwrap(), 2500);
    assert_eq!(e.voting_power(&l.params, start + YEAR).unwrap(), 1000);
    // And it stays at the bare amount after the lock has ended.
    assert_eq!(e.voting_power(&l.params, start + 2 * YEAR).unwrap(), 1000);
}

#[test]
fn voting_power_monotone_in_amount_and_time() {
    let l = locker_with(open_params());
    let now: i64 = 1_000_000;
    let small = Escrow {
        amount: 500,
        escrow_started_at: now,
        escrow_ends_at: now + YEAR / 3,
        ..new_escrow(key(21), key(30))
    };
    let large = Escrow { amount: 900, ..small };
    // Non-decreasing in amount.
    assert!(
        small.voting_power(&l.params, now).unwrap() <= large.voting_power(&l.params, now).unwrap()
    );
    // Non-increasing as the clock advances.
    let mut previous = large.voting_power(&l.params, now).unwrap();
    for step in 1..10i64 {
        let later = now + step * (YEAR / 20);
        let current = large.voting_power(&l.params, later).unwrap();
        assert!(current <= previous);
        previous = current;
    }
}

#[test]
fn voting_power_empty_escrow_is_zero() {
    let l = locker_with(open_params());
    let e = new_escrow(key(21), key(30));
    assert_eq!(e.voting_power(&l.params, 100).unwrap(), 0);
}

#[test]
fn voting_power_overflow_reported() {
    let l = locker_with(LockerParams { max_vote_multiplier: 255, ..open_params() });
    let now: i64 = 1_000_000;
    let e = Escrow {
        amount: u64::MAX,
        escrow_started_at: now,
        escrow_ends_at: now + YEAR,
        ..new_escrow(key(21), key(30))
    };
    assert_eq!(e.voting_power(&l.params, now), Err(ErrorCode::ArithmeticOverflow));
}

#[test]
fn exit_returns_balance_after_end() {
    let mut l = locker_with(open_params());
    let mut e = new_escrow(key(21), key(30));
    lock_permissionless(&mut l, &mut e, 1000, YEAR, 100).unwrap();
    assert_eq!(exit(&mut l, &mut e, key(30), 50 + YEAR), Err(ErrorCode::EscrowNotEnded));
    assert_eq!(exit(&mut l, &mut e, key(31), 100 + YEAR), Err(ErrorCode::Unauthorized));
    let returned = exit(&mut l, &mut e, key(30), 100 + YEAR).unwrap();
    assert_eq!(returned, 1000);
    assert_eq!(e.amount, 0);
    assert_eq!(e.escrow_started_at, 0);
    assert_eq!(e.escrow_ends_at, 0);
    assert_eq!(l.locked_supply, 0);
}

#[test]
fn cast_vote_records_current_power() {
    let gov_params =
        GovernanceParameters { voting_period: 1000, quorum_votes: 10, timelock_delay_seconds: 0 };
    // The locker is the governor's electorate.
    let mut governor = create_governor(key(21), key(2), gov_params).unwrap();
    let mut proposal = create_proposal(&mut governor, key(9), key(3), Vec::new(), 100).unwrap();
    activate_proposal(&governor, &mut proposal, key(21), 200).unwrap();
    let mut vote = new_vote(key(40), key(30));

    let mut l = locker_with(open_params());
    let mut e = new_escrow(key(21), key(30));
    lock_permissionless(&mut l, &mut e, 1000, YEAR, 200).unwrap();

    let weight = cast_vote(&l, &e, &governor, &mut proposal, &mut vote, key(30), 2, 200).unwrap();
    assert_eq!(weight, 4000);
    assert_eq!(proposal.for_votes, 4000);
    assert_eq!(vote.side, 2);
    assert_eq!(vote.weight, 4000);

    // Only the delegate may cast.
    assert_eq!(
        cast_vote(&l, &e, &governor, &mut proposal, &mut vote, key(31), 1, 300),
        Err(GovernError::Unauthorized)
    );
}

#[test]
fn set_vote_delegate_owner_only() {
    let mut e = new_escrow(key(21), key(30));
    assert_eq!(set_vote_delegate(&mut e, key(31), key(32)), Err(ErrorCode::Unauthorized));
    let prev = set_vote_delegate(&mut e, key(30), key(32)).unwrap();
    assert_eq!(prev, key(30));
    assert_eq!(e.vote_delegate, key(32));
}

#[test]
fn set_locker_params_governance_only() {
    let gov_params =
        GovernanceParameters { voting_period: 1000, quorum_votes: 10, timelock_delay_seconds: 0 };
    let governor = create_governor(key(1), key(2), gov_params).unwrap();
    let mut l = locker_with(open_params());
    let next = LockerParams { max_vote_multiplier: 10, ..open_params() };
    assert_eq!(set_locker_params(&mut l, &governor, key(1), next), Err(ErrorCode::Unauthorized));
    let bad = LockerParams { min_duration: 9, max_duration: 3, ..next };
    assert_eq!(
        set_locker_params(&mut l, &governor, key(2), bad),
        Err(ErrorCode::InvalidLockerParams)
    );
    let prev = set_locker_params(&mut l, &governor, key(2), next).unwrap();
    assert_eq!(prev, open_params());
    assert_eq!(l.params, next);
}

#[test]
fn whitelist_privileges_governance_only() {
    let gov_params =
        GovernanceParameters { voting_period: 1000, quorum_votes: 10, timelock_delay_seconds: 0 };
    let governor = create_governor(key(1), key(2), gov_params).unwrap();
    assert_eq!(
        approve_program_lock_privilege(&governor, key(1), key(21), key(60), key(0)),
        Err(ErrorCode::Unauthorized)
    );
    let entry = approve_program_lock_privilege(&governor, key(2), key(21), key(60), key(0)).unwrap();
    assert_eq!(entry, LockerWhitelistEntry { locker: key(21), program_id: key(60), owner: key(0) });
    assert_eq!(revoke_program_lock_privilege(&governor, key(1)), Err(ErrorCode::Unauthorized));
    revoke_program_lock_privilege(&governor, key(2)).unwrap();
}

#[test]
fn lock_tokens_is_the_shared_algorithm() {
    // The shared core behaves exactly like the permissionless variant.
    let mut l1 = locker_with(open_params());
    let mut e1 = new_escrow(key(21), key(30));
    lock_tokens(&mut l1, &mut e1, 1000, YEAR, 100).unwrap();
    let mut l2 = locker_with(open_params());
    let mut e2 = new_escrow(key(21), key(30));
    lock_permissionless(&mut l2, &mut e2, 1000, YEAR, 100).unwrap();
    assert_eq!(e1, e2);
    assert_eq!(l1, l2);
}

use contributor_cache::contributors::{Contributor, ContributorsState};
use contributor_cache::policy::{decide, Outcome, ONE_DAY_SECS, ONE_HOUR_SECS};
use contributor_cache::scheduler::{apply_refresh, RefreshOutcome};
use contributor_cache::store::ContributorsStore;

fn alice() -> Contributor {
    Contributor {
        username: "alice".to_string(),
        avatar_url: "https://example.test/alice.png".to_string(),
        commits: 8,
        repositories: Vec::new(),
    }
}

#[test]
fn demotion_table_matches_rule() {
    // Populating + failure -> PopulatingError
    let (st, iv) = apply_refresh(ContributorsState::Populating, RefreshOutcome::Failure, 1);
    assert_eq!(st, ContributorsState::PopulatingError);
    assert_eq!(iv, ONE_HOUR_SECS);

    // PopulatingError + failure -> PopulatingError (unchanged)
    let (st, _) = apply_refresh(ContributorsState::PopulatingError, RefreshOutcome::Failure, 2);
    assert_eq!(st, ContributorsState::PopulatingError);

    // Fresh + failure -> Outdated with the same data
    let (st, iv) = apply_refresh(
        ContributorsState::Fresh(100, vec![alice()]),
        RefreshOutcome::Failure,
        200,
    );
    assert_eq!(st, ContributorsState::Outdated(vec![alice()]));
    assert_eq!(iv, ONE_HOUR_SECS);

    // Outdated + failure -> Outdated (unchanged)
    let (st, _) =
        apply_refresh(ContributorsState::Outdated(vec![alice()]), RefreshOutcome::Failure, 300);
    assert_eq!(st, ContributorsState::Outdated(vec![alice()]));

    // Any state + success -> Fresh(now, data)
    for prior in [
        ContributorsState::Populating,
        ContributorsState::PopulatingError,
        ContributorsState::Outdated(Vec::new()),
        ContributorsState::Fresh(1, Vec::new()),
    ] {
        let (st, iv) = apply_refresh(prior, RefreshOutcome::Success(vec![alice()]), 400);
        assert_eq!(st, ContributorsState::Fresh(400, vec![alice()]));
        assert_eq!(iv, ONE_DAY_SECS);
    }
}

#[test]
fn outcome_sequences_follow_the_rule() {
    // success, failure, failure, success: data is never lost once obtained.
    let mut state = ContributorsState::Populating;
    let mut now = 1_000u64;
    for (ok, expected) in [
        (true, ContributorsState::Fresh(1_001, vec![alice()])),
        (false, ContributorsState::Outdated(vec![alice()])),
        (false, ContributorsState::Outdated(vec![alice()])),
        (true, ContributorsState::Fresh(1_004, vec![alice()])),
    ] {
        now += 1;
        let outcome = if ok {
            RefreshOutcome::Success(vec![alice()])
        } else {
            RefreshOutcome::Failure
        };
        let (next, _) = apply_refresh(state, outcome, now);
        assert_eq!(next, expected);
        state = next;
    }
}

#[test]
fn store_starts_populating_and_hands_out_snapshots() {
    let mut store = ContributorsStore::new();
    assert_eq!(store.read(), ContributorsState::Populating);

    store.write(ContributorsState::Fresh(7, vec![alice()]));
    let snapshot = store.read();
    assert_eq!(snapshot, ContributorsState::Fresh(7, vec![alice()]));

    // The snapshot is an owned copy: rewriting the store leaves it intact.
    store.write(ContributorsState::PopulatingError);
    assert_eq!(snapshot, ContributorsState::Fresh(7, vec![alice()]));
    assert_eq!(store.read(), ContributorsState::PopulatingError);
}

#[test]
fn end_to_end_refresh_cycle() {
    let mut store = ContributorsStore::new();
    let mut now = 50_000u64;

    // First tick fails: the cache reports the failure and asks for an hour.
    let (st, interval) = apply_refresh(store.read(), RefreshOutcome::Failure, now);
    store.write(st);
    assert_eq!(store.read(), ContributorsState::PopulatingError);
    assert_eq!(interval, ONE_HOUR_SECS);
    match decide(store.read(), now) {
        Outcome::Unavailable { retry_after_secs } => assert_eq!(retry_after_secs, ONE_HOUR_SECS),
        other => panic!("expected Unavailable, got {other:?}"),
    }

    // Next tick succeeds with one contributor.
    now += interval;
    let (st, interval) =
        apply_refresh(store.read(), RefreshOutcome::Success(vec![alice()]), now);
    store.write(st);
    assert_eq!(store.read(), ContributorsState::Fresh(now, vec![alice()]));
    assert_eq!(interval, ONE_DAY_SECS);
    match decide(store.read(), now + 10) {
        Outcome::Available { data, cache_lifetime_secs } => {
            assert_eq!(data, vec![alice()]);
            assert_eq!(cache_lifetime_secs, ONE_DAY_SECS - 10);
        }
        other => panic!("expected Available, got {other:?}"),
    }

    // The following tick fails: data is kept, freshness claim dropped.
    now += interval;
    let (st, _) = apply_refresh(store.read(), RefreshOutcome::Failure, now);
    store.write(st);
    assert_eq!(store.read(), ContributorsState::Outdated(vec![alice()]));
    match decide(store.read(), now) {
        Outcome::Available { data, cache_lifetime_secs } => {
            assert_eq!(data, vec![alice()]);
            assert_eq!(cache_lifetime_secs, ONE_HOUR_SECS);
        }
        other => panic!("expected Available, got {other:?}"),
    }
}

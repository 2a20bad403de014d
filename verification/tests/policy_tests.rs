use contributor_cache::contributors::{Contributor, ContributorsState};
use contributor_cache::policy::{decide, Outcome, ONE_DAY_SECS, ONE_HOUR_SECS, RETRY_SOON_SECS};

fn alice() -> Contributor {
    Contributor {
        username: "alice".to_string(),
        avatar_url: "https://example.test/alice.png".to_string(),
        commits: 8,
        repositories: Vec::new(),
    }
}

#[test]
fn decide_populating_is_unavailable_soon() {
    for now in [0u64, 1, 1_000_000_000] {
        match decide(ContributorsState::Populating, now) {
            Outcome::Unavailable { retry_after_secs } => {
                assert_eq!(retry_after_secs, RETRY_SOON_SECS);
                assert_eq!(retry_after_secs, 10);
            }
            other => panic!("expected Unavailable, got {other:?}"),
        }
    }
}

#[test]
fn decide_populating_error_is_unavailable_one_hour() {
    for now in [0u64, 42, u64::MAX] {
        match decide(ContributorsState::PopulatingError, now) {
            Outcome::Unavailable { retry_after_secs } => {
                assert_eq!(retry_after_secs, ONE_HOUR_SECS);
                assert_eq!(retry_after_secs, 3600);
            }
            other => panic!("expected Unavailable, got {other:?}"),
        }
    }
}

#[test]
fn decide_fresh_at_fetch_time_has_full_window() {
    let t = 1_700_000_000u64;
    match decide(ContributorsState::Fresh(t, vec![alice()]), t) {
        Outcome::Available { data, cache_lifetime_secs } => {
            assert_eq!(cache_lifetime_secs, ONE_DAY_SECS);
            assert_eq!(cache_lifetime_secs, 86400);
            assert_eq!(data, vec![alice()]);
        }
        other => panic!("expected Available, got {other:?}"),
    }
}

#[test]
fn decide_fresh_after_twenty_five_hours_clamps_to_zero() {
    let t = 1_700_000_000u64;
    let now = t + 25 * 3600;
    match decide(ContributorsState::Fresh(t, vec![alice()]), now) {
        Outcome::Available { data, cache_lifetime_secs } => {
            assert_eq!(cache_lifetime_secs, 0);
            assert_eq!(data, vec![alice()]);
        }
        other => panic!("expected Available, got {other:?}"),
    }
}

#[test]
fn decide_fresh_partway_counts_down() {
    let t = 1_000u64;
    match decide(ContributorsState::Fresh(t, Vec::new()), t + 3600) {
        Outcome::Available { cache_lifetime_secs, .. } => {
            assert_eq!(cache_lifetime_secs, ONE_DAY_SECS - 3600);
        }
        other => panic!("expected Available, got {other:?}"),
    }
}

#[test]
fn decide_outdated_is_available_one_hour() {
    for now in [0u64, 7, u64::MAX] {
        match decide(ContributorsState::Outdated(vec![alice()]), now) {
            Outcome::Available { data, cache_lifetime_secs } => {
                assert_eq!(cache_lifetime_secs, ONE_HOUR_SECS);
                assert_eq!(data, vec![alice()]);
            }
            other => panic!("expected Available, got {other:?}"),
        }
    }
}

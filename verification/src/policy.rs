//! Freshness policy: a pure translation of a cache state snapshot into an
//! HTTP-facing outcome, either data with a cache lifetime or an
//! unavailability signal with a retry hint.

use vstd::prelude::*;
use crate::contributors::{Contributor, ContributorModel, ContributorsState, ContributorsStateModel};
use crate::contributors::contributors_view;

verus! {

/// Retry hint while the first fetch is still inbound, in seconds.
pub const RETRY_SOON_SECS: u64 = 10;

/// One hour, in seconds.
pub const ONE_HOUR_SECS: u64 = 60 * 60;

/// One day, in seconds: the freshness window of a successful fetch.
pub const ONE_DAY_SECS: u64 = 60 * 60 * 24;

/// HTTP-facing outcome of reading the cache.
#[derive(Debug, PartialEq)]
pub enum Outcome {
    /// No data can be served; the caller should retry after the given
    /// number of seconds.
    Unavailable { retry_after_secs: u64 },
    /// Data is served; caches may keep it for the given number of seconds.
    Available { data: Vec<Contributor>, cache_lifetime_secs: u64 },
}

/// Mathematical model of an [`Outcome`].
#[verifier::ext_equal]
pub enum OutcomeModel {
    Unavailable { retry_after_secs: u64 },
    Available { data: Seq<ContributorModel>, cache_lifetime_secs: u64 },
}

impl View for Outcome {
    type V = OutcomeModel;

    open spec fn view(&self) -> OutcomeModel {
        match self {
            Outcome::Unavailable { retry_after_secs } => OutcomeModel::Unavailable {
                retry_after_secs: *retry_after_secs,
            },
            Outcome::Available { data, cache_lifetime_secs } => OutcomeModel::Available {
                data: contributors_view(data@),
                cache_lifetime_secs: *cache_lifetime_secs,
            },
        }
    }
}

/// Seconds left of the freshness window opened at `fetched_at`, clamped at
/// zero; a `fetched_at` in the future counts as if no time had elapsed.
pub open spec fn spec_remaining_lifetime(fetched_at: u64, now: u64) -> u64 {
    let elapsed: int = if now >= fetched_at {
        now - fetched_at
    } else {
        0
    };
    if elapsed >= ONE_DAY_SECS {
        0u64
    } else {
        (ONE_DAY_SECS - elapsed) as u64
    }
}

/// The outcome owed for each cache state:
/// still populating asks for a retry very soon; a failed first population
/// mirrors the scheduler's one-hour retry cadence; outdated data is served
/// with a short lifetime; fresh data is served for whatever is left of its
/// freshness window.
pub open spec fn spec_decide(state: ContributorsStateModel, now: u64) -> OutcomeModel {
    match state {
        ContributorsStateModel::Populating => OutcomeModel::Unavailable {
            retry_after_secs: RETRY_SOON_SECS,
        },
        ContributorsStateModel::PopulatingError => OutcomeModel::Unavailable {
            retry_after_secs: ONE_HOUR_SECS,
        },
        ContributorsStateModel::Outdated(data) => OutcomeModel::Available {
            data,
            cache_lifetime_secs: ONE_HOUR_SECS,
        },
        ContributorsStateModel::Fresh(fetched_at, data) => OutcomeModel::Available {
            data,
            cache_lifetime_secs: spec_remaining_lifetime(fetched_at, now),
        },
    }
}

/// Translates a cache state snapshot into the outcome owed for it.
///
/// Pure: the result depends on the snapshot and the given clock reading
/// alone, and is defined for every state and every `now`.
pub fn decide(state: ContributorsState, now: u64) -> (r: Outcome)
    ensures
        r@ == spec_decide(state@, now),
{
    match state {
        ContributorsState::Populating => Outcome::Unavailable {
            retry_after_secs: RETRY_SOON_SECS,
        },
        ContributorsState::PopulatingError => Outcome::Unavailable {
            retry_after_secs: ONE_HOUR_SECS,
        },
        ContributorsState::Outdated(data) => Outcome::Available {
            data,
            cache_lifetime_secs: ONE_HOUR_SECS,
        },
        ContributorsState::Fresh(fetched_at, data) => {
            let elapsed: u64 = if now >= fetched_at {
                now - fetched_at
            } else {
                0
            };
            let lifetime: u64 = if elapsed >= ONE_DAY_SECS {
                0
            } else {
                ONE_DAY_SECS - elapsed
            };
            Outcome::Available { data, cache_lifetime_secs: lifetime }
        },
    }
}

/// While the cache is populating, every clock reading is told to retry
/// after ten seconds.
pub proof fn lemma_decide_populating(now: u64)
    ensures
        spec_decide(ContributorsStateModel::Populating, now) == (OutcomeModel::Unavailable {
            retry_after_secs: RETRY_SOON_SECS,
        }),
{
}

/// After a failed first population, every clock reading is told to retry
/// after one hour.
pub proof fn lemma_decide_populating_error(now: u64)
    ensures
        spec_decide(ContributorsStateModel::PopulatingError, now) == (OutcomeModel::Unavailable {
            retry_after_secs: ONE_HOUR_SECS,
        }),
{
}

/// Outdated data is served with a one-hour lifetime, whatever the clock says.
pub proof fn lemma_decide_outdated(data: Seq<ContributorModel>, now: u64)
    ensures
        spec_decide(ContributorsStateModel::Outdated(data), now) == (OutcomeModel::Available {
            data,
            cache_lifetime_secs: ONE_HOUR_SECS,
        }),
{
}

/// Fresh data read at the moment it was fetched is served with the whole
/// freshness window as its lifetime.
pub proof fn lemma_decide_fresh_full_window(fetched_at: u64, data: Seq<ContributorModel>)
    ensures
        spec_decide(ContributorsStateModel::Fresh(fetched_at, data), fetched_at)
            == (OutcomeModel::Available { data, cache_lifetime_secs: ONE_DAY_SECS }),
{
}

/// Fresh data read after its freshness window has passed is served with a
/// lifetime clamped at zero, never a negative one.
pub proof fn lemma_decide_fresh_clamped(fetched_at: u64, data: Seq<ContributorModel>, now: u64)
    requires
        now >= fetched_at,
        now - fetched_at >= ONE_DAY_SECS,
    ensures
        spec_decide(ContributorsStateModel::Fresh(fetched_at, data), now)
            == (OutcomeModel::Available { data, cache_lifetime_secs: 0u64 }),
{
}

} // verus!

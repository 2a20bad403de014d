//! Refresh scheduler decisions: how one refresh outcome drives the cache
//! state and the delay before the next attempt.
//!
//! The surrounding runtime owns the timer and the fetch; this module owns
//! the decision. A successful refresh stamps the clock and installs fresh
//! data for the next full day; a failed refresh demotes the current state
//! without discarding previously obtained data and shortens the next
//! attempt to one hour.

use vstd::prelude::*;
use crate::contributors::{Contributor, ContributorModel, ContributorsState, ContributorsStateModel};
use crate::contributors::contributors_view;
use crate::policy::{ONE_DAY_SECS, ONE_HOUR_SECS};

verus! {

/// What one aggregation cycle produced: the merged list, or a fetch failure.
#[derive(Debug, PartialEq)]
pub enum RefreshOutcome {
    /// The cycle fetched and merged every eligible repository.
    Success(Vec<Contributor>),
    /// Some fetch failed; no partial result is kept.
    Failure,
}

/// Mathematical model of a [`RefreshOutcome`].
#[verifier::ext_equal]
pub enum RefreshOutcomeModel {
    Success(Seq<ContributorModel>),
    Failure,
}

impl View for RefreshOutcome {
    type V = RefreshOutcomeModel;

    open spec fn view(&self) -> RefreshOutcomeModel {
        match self {
            RefreshOutcome::Success(data) => RefreshOutcomeModel::Success(contributors_view(data@)),
            RefreshOutcome::Failure => RefreshOutcomeModel::Failure,
        }
    }
}

/// Demotion rule on a failed refresh: a never-populated cache records the
/// failure, fresh data loses its freshness claim but is kept, and an
/// already degraded state stays as it is.
pub open spec fn spec_demote(state: ContributorsStateModel) -> ContributorsStateModel {
    match state {
        ContributorsStateModel::Populating => ContributorsStateModel::PopulatingError,
        ContributorsStateModel::Fresh(_, data) => ContributorsStateModel::Outdated(data),
        _ => state,
    }
}

/// The cache state after one refresh outcome: success installs
/// `Fresh(now, data)`, failure applies the demotion rule.
pub open spec fn spec_next_state(
    state: ContributorsStateModel,
    outcome: RefreshOutcomeModel,
    now: u64,
) -> ContributorsStateModel {
    match outcome {
        RefreshOutcomeModel::Success(data) => ContributorsStateModel::Fresh(now, data),
        RefreshOutcomeModel::Failure => spec_demote(state),
    }
}

/// The delay, in seconds, before the next refresh attempt: a day after a
/// success, an hour after a failure.
pub open spec fn spec_next_interval(outcome: RefreshOutcomeModel) -> u64 {
    match outcome {
        RefreshOutcomeModel::Success(_) => ONE_DAY_SECS,
        RefreshOutcomeModel::Failure => ONE_HOUR_SECS,
    }
}

/// Applies one refresh outcome to the current cache state, returning the
/// next state and the delay, in seconds, before the next attempt.
pub fn apply_refresh(state: ContributorsState, outcome: RefreshOutcome, now: u64) -> (r: (
    ContributorsState,
    u64,
))
    ensures
        r.0@ == spec_next_state(state@, outcome@, now),
        r.1 == spec_next_interval(outcome@),
{
    match outcome {
        RefreshOutcome::Success(data) => (ContributorsState::Fresh(now, data), ONE_DAY_SECS),
        RefreshOutcome::Failure => {
            let demoted = match state {
                ContributorsState::Populating => ContributorsState::PopulatingError,
                ContributorsState::Fresh(_, data) => ContributorsState::Outdated(data),
                other => other,
            };
            (demoted, ONE_HOUR_SECS)
        },
    }
}

/// Whether a state holds data obtained from some successful aggregation.
pub open spec fn spec_has_data(state: ContributorsStateModel) -> bool {
    state is Fresh || state is Outdated
}

/// The data a state holds, where it holds any.
pub open spec fn spec_state_data(state: ContributorsStateModel) -> Seq<ContributorModel>
    recommends
        spec_has_data(state),
{
    match state {
        ContributorsStateModel::Fresh(_, data) => data,
        ContributorsStateModel::Outdated(data) => data,
        _ => Seq::empty(),
    }
}

/// One refresh step out of the scheduler's history: the outcome it saw and
/// the clock reading it stamped.
pub struct RefreshStep {
    pub outcome: RefreshOutcomeModel,
    pub now: u64,
}

/// The cache state after a whole history of refresh steps, each applied by
/// the demotion rule.
pub open spec fn spec_run_refreshes(
    init: ContributorsStateModel,
    steps: Seq<RefreshStep>,
) -> ContributorsStateModel
    decreases steps.len(),
{
    if steps.len() == 0 {
        init
    } else {
        let prev = spec_run_refreshes(init, steps.drop_last());
        spec_next_state(prev, steps.last().outcome, steps.last().now)
    }
}

/// One step never regresses: a state that holds data leads only to states
/// that hold data, and a failure never discards data already held.
pub proof fn lemma_step_no_regression(
    state: ContributorsStateModel,
    outcome: RefreshOutcomeModel,
    now: u64,
)
    requires
        spec_has_data(state),
    ensures
        spec_has_data(spec_next_state(state, outcome, now)),
        outcome is Failure ==> spec_state_data(spec_next_state(state, outcome, now))
            == spec_state_data(state),
{
}

/// No history of refresh steps regresses: once some step in a history has
/// succeeded, the state after the whole history still holds data.
pub proof fn lemma_run_no_regression(init: ContributorsStateModel, steps: Seq<RefreshStep>, i: int)
    requires
        0 <= i < steps.len(),
        steps[i].outcome is Success,
    ensures
        spec_has_data(spec_run_refreshes(init, steps)),
    decreases steps.len(),
{
    if i == steps.len() - 1 {
    } else {
        lemma_run_no_regression(init, steps.drop_last(), i);
        lemma_step_no_regression(
            spec_run_refreshes(init, steps.drop_last()),
            steps.last().outcome,
            steps.last().now,
        );
    }
}

/// The timestamp a fresh state carries, where it is fresh.
pub open spec fn spec_fresh_at(state: ContributorsStateModel) -> u64
    recommends
        state is Fresh,
{
    match state {
        ContributorsStateModel::Fresh(at, _) => at,
        _ => 0u64,
    }
}

/// A fresh state out of a non-empty history comes from its last step, and
/// that step was a success whose clock reading it carries: a failure never
/// produces a fresh state.
pub proof fn lemma_run_fresh_stamp(init: ContributorsStateModel, steps: Seq<RefreshStep>)
    requires
        steps.len() > 0,
        spec_run_refreshes(init, steps) is Fresh,
    ensures
        steps.last().outcome is Success,
        spec_fresh_at(spec_run_refreshes(init, steps)) == steps.last().now,
{
}

/// Fresh timestamps are monotonic along any history whose clock readings
/// are non-decreasing and no earlier than an initially fresh timestamp: a
/// later fresh state never carries an older timestamp than an earlier one.
pub proof fn lemma_run_timestamps_monotonic(
    init: ContributorsStateModel,
    steps: Seq<RefreshStep>,
    m: int,
    n: int,
)
    requires
        0 <= m <= n <= steps.len(),
        forall|k1: int, k2: int|
            0 <= k1 <= k2 < steps.len() ==> #[trigger] steps[k1].now <= #[trigger] steps[k2].now,
        init is Fresh ==> forall|k: int|
            0 <= k < steps.len() ==> #[trigger] steps[k].now >= spec_fresh_at(init),
        spec_run_refreshes(init, steps.take(m)) is Fresh,
        spec_run_refreshes(init, steps.take(n)) is Fresh,
    ensures
        spec_fresh_at(spec_run_refreshes(init, steps.take(m))) <= spec_fresh_at(
            spec_run_refreshes(init, steps.take(n)),
        ),
{
    if m > 0 {
        lemma_run_fresh_stamp(init, steps.take(m));
        assert(steps.take(m).last() == steps[m - 1]);
    }
    if n > 0 {
        lemma_run_fresh_stamp(init, steps.take(n));
        assert(steps.take(n).last() == steps[n - 1]);
    }
    if m == 0 {
        assert(steps.take(0) =~= Seq::<RefreshStep>::empty());
        assert(spec_run_refreshes(init, steps.take(0)) == init);
    }
}

/// Fresh timestamps never move backwards in one step: as long as the clock
/// reading is no older than the current stamp, a refresh that leaves the
/// state fresh never lowers its timestamp.
pub proof fn lemma_fresh_timestamp_monotonic(
    state: ContributorsStateModel,
    outcome: RefreshOutcomeModel,
    now: u64,
    fetched_at: u64,
)
    requires
        state matches ContributorsStateModel::Fresh(at, _) && at == fetched_at,
        now >= fetched_at,
        spec_next_state(state, outcome, now) is Fresh,
    ensures
        spec_next_state(state, outcome, now) matches ContributorsStateModel::Fresh(at2, _)
            && at2 >= fetched_at,
{
}

} // verus!

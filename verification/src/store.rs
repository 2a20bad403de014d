//! Cache state store: a holder of the current cache state that hands out
//! whole-value snapshots.
//!
//! A reader gets an owned copy of the state, never a reference into it, so
//! a snapshot stays valid however the store is rewritten afterwards. The
//! surrounding runtime wraps the store in whatever shared-access primitive
//! it uses; every mutation is a single whole-value replacement, so there is
//! no partially constructed state a reader could ever observe.

use vstd::prelude::*;
use crate::contributors::{ContributorsState, ContributorsStateModel};

verus! {

/// Holder of the current cache state.
pub struct ContributorsStore {
    state: ContributorsState,
}

impl View for ContributorsStore {
    type V = ContributorsStateModel;

    closed spec fn view(&self) -> ContributorsStateModel {
        self.state@
    }
}

impl ContributorsStore {
    /// A store starts out populating: no fetch has ever completed.
    pub fn new() -> (s: Self)
        ensures
            s@ == ContributorsStateModel::Populating,
    {
        ContributorsStore { state: ContributorsState::Populating }
    }

    /// Snapshot of the current state: an owned copy whose model is exactly
    /// the store's.
    pub fn read(&self) -> (r: ContributorsState)
        ensures
            r@ == self@,
    {
        self.state.clone()
    }

    /// Replaces the whole state in one step.
    pub fn write(&mut self, state: ContributorsState)
        ensures
            final(self)@ == state@,
    {
        self.state = state;
    }
}

} // verus!

//! The store: the one place where the application state lives and changes.

use crate::state::{reduce, reduce_spec, Action, AppState, AppStateView};
use vstd::prelude::*;

verus! {

/// Holds the current state. It changes only through `dispatch`, which runs
/// the reducer.
pub struct Store {
    state: AppState,
}

impl View for Store {
    type V = AppStateView;

    closed spec fn view(&self) -> AppStateView {
        self.state@
    }
}

impl Store {
    /// A store that starts from `initial_state`.
    pub fn new(initial_state: AppState) -> (store: Store)
        ensures
            store@ == initial_state@,
    {
        Store { state: initial_state }
    }

    /// Replaces the state by what the reducer makes of it and `action`.
    pub fn dispatch(&mut self, action: Action)
        ensures
            final(self)@ == reduce_spec(old(self)@, action@),
    {
        self.state = reduce(self.state.clone(), action);
    }

    /// A copy of the current state. Later dispatches do not change it.
    pub fn get_state(&self) -> (snapshot: AppState)
        ensures
            snapshot@ == self@,
    {
        self.state.clone()
    }
}

} // verus!

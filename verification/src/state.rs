//! The application state, the actions that change it, and the reducer.

use vstd::prelude::*;
use vstd::std_specs::cmp::PartialEqSpecImpl;

verus! {

/// The region of the screen that has the focus.
#[derive(PartialEq, Eq, Clone, Copy, Debug, Structural)]
pub enum ActiveWindow {
    Menu,
    URL,
    Main,
    Footer,
}

/// How the keyboard is read: as commands, or as text for the URL line.
#[derive(PartialEq, Eq, Clone, Copy, Debug, Structural)]
pub enum Mode {
    Normal,
    Insert,
}

/// A request to change the state. The reducer is the only reader.
#[derive(Debug)]
pub enum Action {
    Noop,
    ChangeURI(String),
    ChangeMode(Mode),
    SetFirstRender,
}

/// An action with its text as a sequence of characters.
pub enum ActionView {
    Noop,
    ChangeURI(Seq<char>),
    ChangeMode(Mode),
    SetFirstRender,
}

impl View for Action {
    type V = ActionView;

    open spec fn view(&self) -> ActionView {
        match *self {
            Action::Noop => ActionView::Noop,
            Action::ChangeURI(uri) => ActionView::ChangeURI(uri@),
            Action::ChangeMode(mode) => ActionView::ChangeMode(mode),
            Action::SetFirstRender => ActionView::SetFirstRender,
        }
    }
}

impl Clone for Action {
    fn clone(&self) -> (copy: Self)
        ensures
            copy@ == self@,
    {
        match self {
            Action::Noop => Action::Noop,
            Action::ChangeURI(uri) => Action::ChangeURI(uri.clone()),
            Action::ChangeMode(mode) => Action::ChangeMode(*mode),
            Action::SetFirstRender => Action::SetFirstRender,
        }
    }
}

/// Everything the dashboard remembers between two frames.
#[derive(Debug)]
pub struct AppState {
    pub url_input: String,
    pub active_window: ActiveWindow,
    pub mode: Mode,
    pub is_first_render: bool,
}

/// A state with its URL as a sequence of characters.
pub struct AppStateView {
    pub url_input: Seq<char>,
    pub active_window: ActiveWindow,
    pub mode: Mode,
    pub is_first_render: bool,
}

impl View for AppState {
    type V = AppStateView;

    open spec fn view(&self) -> AppStateView {
        AppStateView {
            url_input: self.url_input@,
            active_window: self.active_window,
            mode: self.mode,
            is_first_render: self.is_first_render,
        }
    }
}

/// The endpoint that the URL line holds at startup.
pub const DEFAULT_URL: &'static str = "https://rickandmortyapi.com/graphql";

/// The state at startup: the default endpoint in a focused URL line, being
/// edited, with no frame drawn yet.
pub open spec fn initial_state() -> AppStateView {
    AppStateView {
        url_input: DEFAULT_URL@,
        active_window: ActiveWindow::URL,
        mode: Mode::Insert,
        is_first_render: true,
    }
}

impl Default for AppState {
    fn default() -> (state: Self)
        ensures
            state@ == initial_state(),
    {
        AppState {
            url_input: DEFAULT_URL.to_owned(),
            active_window: ActiveWindow::URL,
            mode: Mode::Insert,
            is_first_render: true,
        }
    }
}

impl Clone for AppState {
    fn clone(&self) -> (copy: Self)
        ensures
            copy@ == self@,
    {
        AppState {
            url_input: self.url_input.clone(),
            active_window: self.active_window,
            mode: self.mode,
            is_first_render: self.is_first_render,
        }
    }
}

impl PartialEq for AppState {
    fn eq(&self, other: &Self) -> (equal: bool) {
        self.url_input == other.url_input && self.active_window == other.active_window
            && self.mode == other.mode && self.is_first_render == other.is_first_render
    }
}

impl PartialEqSpecImpl for AppState {
    open spec fn obeys_eq_spec() -> bool {
        true
    }

    open spec fn eq_spec(&self, other: &Self) -> bool {
        self@ == other@
    }
}

/// The state that follows `state` when `action` is applied.
pub open spec fn reduce_spec(state: AppStateView, action: ActionView) -> AppStateView {
    match action {
        ActionView::Noop => state,
        ActionView::ChangeURI(uri) => AppStateView { url_input: uri, ..state },
        ActionView::ChangeMode(mode) => AppStateView { mode, ..state },
        ActionView::SetFirstRender => AppStateView { is_first_render: false, ..state },
    }
}

/// The reducer: applies one action to one state. It reads nothing else and
/// touches nothing else.
pub fn reduce(state: AppState, action: Action) -> (next: AppState)
    ensures
        next@ == reduce_spec(state@, action@),
{
    let mut state = state;
    match action {
        Action::Noop => {},
        Action::ChangeURI(uri) => {
            state.url_input = uri;
        },
        Action::ChangeMode(mode) => {
            state.mode = mode;
        },
        Action::SetFirstRender => {
            state.is_first_render = false;
        },
    }
    state
}

/// The state after a run of actions, applied in order.
pub open spec fn reduce_all(state: AppStateView, actions: Seq<ActionView>) -> AppStateView
    decreases actions.len(),
{
    if actions.len() == 0 {
        state
    } else {
        reduce_all(reduce_spec(state, actions[0]), actions.drop_first())
    }
}

/// A change of mode changes the mode and nothing else, so asking for the
/// mode that is already active changes nothing at all.
pub proof fn lemma_change_mode(state: AppStateView, mode: Mode)
    ensures
        reduce_spec(state, ActionView::ChangeMode(mode)) == (AppStateView { mode, ..state }),
        state.mode == mode ==> reduce_spec(state, ActionView::ChangeMode(mode)) == state,
{
}

/// Every action is idempotent: dispatched twice in a row it leaves the state
/// where the first dispatch put it.
pub proof fn lemma_reduce_idempotent(state: AppStateView, action: ActionView)
    ensures
        reduce_spec(reduce_spec(state, action), action) == reduce_spec(state, action),
{
}

/// No action brings the first frame back: once it is recorded as drawn, it
/// stays so whatever is dispatched afterwards, and however much of it.
pub proof fn lemma_first_render_stays_off(state: AppStateView, actions: Seq<ActionView>)
    requires
        !state.is_first_render,
    ensures
        !reduce_all(state, actions).is_first_render,
    decreases actions.len(),
{
    if actions.len() > 0 {
        lemma_first_render_stays_off(reduce_spec(state, actions[0]), actions.drop_first());
    }
}

/// Recording the first frame as drawn does so, and changes nothing else.
pub proof fn lemma_set_first_render(state: AppStateView)
    ensures
        reduce_spec(state, ActionView::SetFirstRender) == (AppStateView {
            is_first_render: false,
            ..state
        }),
{
}

} // verus!

//! The interaction loop, one turn at a time.
//!
//! The loop itself runs outside this library, where the terminal and the
//! query transport are. In each turn it asks `frame` what to draw, draws it,
//! performs what `settle_cursor` lists, waits for one event, hands it to
//! `handle_event`, and performs what comes back: terminal operations first,
//! then the command.

use crate::graphql::{CharacterDataField, CharacterDataFieldView, GraphQLResponse};
use crate::pipeline::Event;
use crate::query::{formatted_query, QueryError, QUERY_LAYOUT};
use crate::screen::{
    column_after, column_defined, compose_screen, get_position_x, option_view, screen_of,
    ActiveMainPane, Screen, TabMenuItem, CURSOR_ROW, PLACEHOLDER,
};
use crate::state::{reduce_spec, Action, ActionView, AppState, AppStateView, Mode};
use crate::store::Store;
use vstd::prelude::*;

verus! {

/// A key press, as far as the dashboard tells keys apart.
#[derive(Copy, Clone, Debug, PartialEq, Eq, Structural)]
pub enum Key {
    Char(char),
    Esc,
    Backspace,
    Other,
}

/// Something for the owner of the terminal to do.
#[derive(Copy, Clone, Debug, PartialEq, Eq, Structural)]
pub enum TerminalOp {
    /// Put the cursor at this column and row.
    SetCursor(u16, u16),
    ShowCursor,
    HideCursor,
    /// Give the terminal back its line discipline.
    DisableRawMode,
}

/// What the loop does once the terminal operations of a turn are done.
#[derive(Copy, Clone, Debug, PartialEq, Eq, Structural)]
pub enum Command {
    /// Go on with the next turn.
    Continue,
    /// Run the query transport, hand a payload to `fetch_completed`, and let
    /// a failure end the loop.
    Fetch,
    /// End the loop.
    Quit,
}

/// The answer to one event.
#[derive(Debug)]
pub struct Reaction {
    pub terminal: Vec<TerminalOp>,
    pub command: Command,
}

/// A reaction with its operations as a sequence.
pub struct ReactionView {
    pub terminal: Seq<TerminalOp>,
    pub command: Command,
}

impl View for Reaction {
    type V = ReactionView;

    open spec fn view(&self) -> ReactionView {
        ReactionView { terminal: self.terminal@, command: self.command }
    }
}

/// The URL line after `key` in insert mode: a character goes to the end,
/// backspace takes the last one off, and on an empty line takes nothing.
pub open spec fn edited(url: Seq<char>, key: Key) -> Seq<char> {
    match key {
        Key::Char(c) => url.push(c),
        Key::Backspace => if url.len() > 0 {
            url.drop_last()
        } else {
            url
        },
        _ => url,
    }
}

/// The action that `event` stands for in `state`.
pub open spec fn action_for(state: AppStateView, event: Event<Key>) -> ActionView {
    match event {
        Event::Tick => ActionView::Noop,
        Event::Input(key) => match state.mode {
            Mode::Normal => if key == Key::Char('i') {
                ActionView::ChangeMode(Mode::Insert)
            } else {
                ActionView::Noop
            },
            Mode::Insert => match key {
                Key::Esc => ActionView::ChangeMode(Mode::Normal),
                Key::Char(_) | Key::Backspace => ActionView::ChangeURI(
                    edited(state.url_input, key),
                ),
                Key::Other => ActionView::Noop,
            },
        },
    }
}

/// The tab selection after `event`: in normal mode `c` selects the
/// collections and `e` the execution tab with its left half active.
pub open spec fn tab_after(mode: Mode, tab: TabMenuItem, event: Event<Key>) -> TabMenuItem {
    if mode == Mode::Normal && event == Event::Input(Key::Char('c')) {
        TabMenuItem::Collection
    } else if mode == Mode::Normal && event == Event::Input(Key::Char('e')) {
        TabMenuItem::Execution(ActiveMainPane::Left)
    } else {
        tab
    }
}

/// What leaves the terminal as the dashboard found it.
pub open spec fn restore_ops() -> Seq<TerminalOp> {
    seq![TerminalOp::DisableRawMode, TerminalOp::ShowCursor]
}

/// What the loop is told to do about `event` in `mode`: in normal mode `q`
/// restores the terminal and quits and the space bar fetches; in insert
/// mode escape hides the cursor.
pub open spec fn reaction_to(mode: Mode, event: Event<Key>) -> ReactionView {
    if mode == Mode::Normal && event == Event::Input(Key::Char('q')) {
        ReactionView { terminal: restore_ops(), command: Command::Quit }
    } else if mode == Mode::Normal && event == Event::Input(Key::Char(' ')) {
        ReactionView { terminal: Seq::empty(), command: Command::Fetch }
    } else if mode == Mode::Insert && event == Event::Input(Key::Esc) {
        ReactionView { terminal: seq![TerminalOp::HideCursor], command: Command::Continue }
    } else {
        ReactionView { terminal: Seq::empty(), command: Command::Continue }
    }
}

/// The operations that leave the terminal as the dashboard found it. They
/// are part of the reaction to `q`; the owner of the terminal performs them
/// on every other way out as well.
pub fn restore_terminal() -> (ops: Vec<TerminalOp>)
    ensures
        ops@ == restore_ops(),
{
    let mut ops: Vec<TerminalOp> = Vec::new();
    ops.push(TerminalOp::DisableRawMode);
    ops.push(TerminalOp::ShowCursor);
    assert(ops@ =~= restore_ops());
    ops
}

/// What can end the loop against the user's will.
#[derive(Copy, Clone, Debug, PartialEq, Eq, Structural)]
pub enum Failure {
    /// The terminal could not be set up, drawn to, or restored.
    Terminal,
    /// The event pipeline is gone.
    Channel,
    /// The query transport failed.
    Transport,
    /// The query or the payload could not be put into text.
    Format,
}

/// How the loop ended.
#[derive(Copy, Clone, Debug, PartialEq, Eq, Structural)]
pub enum LoopEnd {
    Quit,
    Failed(Failure),
}

/// The exit code of the process: 0 after `q`, 1 after any failure.
pub open spec fn exit_code_of(end: LoopEnd) -> u8 {
    match end {
        LoopEnd::Quit => 0,
        LoopEnd::Failed(_) => 1,
    }
}

pub fn exit_code(end: LoopEnd) -> (code: u8)
    ensures
        code == exit_code_of(end),
{
    match end {
        LoopEnd::Quit => 0,
        LoopEnd::Failed(_) => 1,
    }
}

/// What the interaction loop holds, as values.
pub struct DashboardView {
    pub state: AppStateView,
    pub tab: TabMenuItem,
    pub result: Option<GraphQLResponse<CharacterDataFieldView>>,
}

/// The dashboard after `event`.
pub open spec fn after_event(before: DashboardView, event: Event<Key>) -> DashboardView {
    DashboardView {
        state: reduce_spec(before.state, action_for(before.state, event)),
        tab: tab_after(before.state.mode, before.tab, event),
        result: before.result,
    }
}

/// The cursor after a frame: behind the text of the URL line and visible in
/// insert mode, hidden otherwise; after the first frame it is put behind the
/// text once more.
pub open spec fn cursor_ops(state: AppStateView) -> Seq<TerminalOp> {
    let place = TerminalOp::SetCursor(column_after(state.url_input.len()), CURSOR_ROW);
    let shown = if state.mode == Mode::Insert {
        seq![place, TerminalOp::ShowCursor]
    } else {
        seq![TerminalOp::HideCursor]
    };
    if state.is_first_render {
        shown.push(place)
    } else {
        shown
    }
}

/// The dashboard once the cursor is settled: the first frame is recorded as
/// drawn, through the reducer, and nothing else changes.
pub open spec fn settled(before: DashboardView) -> DashboardView {
    DashboardView {
        state: if before.state.is_first_render {
            reduce_spec(before.state, ActionView::SetFirstRender)
        } else {
            before.state
        },
        ..before
    }
}

/// The state of the interaction loop: the store, the tab selection, and the
/// payload of the last fetch that succeeded.
pub struct Dashboard {
    store: Store,
    active_menu_item: TabMenuItem,
    resp: Option<GraphQLResponse<CharacterDataField>>,
}

impl View for Dashboard {
    type V = DashboardView;

    closed spec fn view(&self) -> DashboardView {
        DashboardView {
            state: self.store@,
            tab: self.active_menu_item,
            result: option_view(self.resp),
        }
    }
}

impl Dashboard {
    /// The dashboard at startup: the state in `initial_state`, the execution
    /// tab with its left half active, and no result.
    pub fn new(initial_state: AppState) -> (dashboard: Dashboard)
        ensures
            dashboard@ == (DashboardView {
                state: initial_state@,
                tab: TabMenuItem::Execution(ActiveMainPane::Left),
                result: None,
            }),
    {
        Dashboard {
            store: Store::new(initial_state),
            active_menu_item: TabMenuItem::Execution(ActiveMainPane::Left),
            resp: None,
        }
    }

    /// A copy of the current state.
    pub fn state(&self) -> (snapshot: AppState)
        ensures
            snapshot@ == self@.state,
    {
        self.store.get_state()
    }

    /// The current tab selection.
    pub fn tab(&self) -> (tab: TabMenuItem)
        ensures
            tab == self@.tab,
    {
        self.active_menu_item
    }

    /// The payload of the last fetch that succeeded, if any did.
    pub fn result(&self) -> (result: &Option<GraphQLResponse<CharacterDataField>>)
        ensures
            option_view(*result) == self@.result,
    {
        &self.resp
    }

    /// The frame for the current turn, with the query on display in the left
    /// half of the main pane. `printed` is the payload that the dashboard
    /// holds, as the result pane is to show it, and `None` while it holds
    /// none: then the pane shows the placeholder. Nothing changes, and the
    /// call always succeeds.
    pub fn frame(&self, printed: Option<String>) -> (frame: Result<Screen, QueryError>)
        requires
            printed is Some <==> self@.result is Some,
        ensures
            frame.is_ok(),
            frame.unwrap()@ == screen_of(
                self@.state,
                self@.tab,
                QUERY_LAYOUT@,
                option_view(printed),
            ),
            self@.result is None ==> frame.unwrap()@.result_text == PLACEHOLDER@,
    {
        match formatted_query() {
            Ok(layout) => {
                let state = self.store.get_state();
                Ok(compose_screen(&state, self.active_menu_item, layout, printed))
            },
            Err(error) => Err(error),
        }
    }

    /// Says where the cursor goes once the frame is drawn, and records the
    /// first frame as drawn. The URL must have a cursor column.
    pub fn settle_cursor(&mut self) -> (ops: Vec<TerminalOp>)
        requires
            column_defined(old(self)@.state.url_input.len()),
        ensures
            ops@ == cursor_ops(old(self)@.state),
            final(self)@ == settled(old(self)@),
    {
        let state = self.store.get_state();
        let mut ops: Vec<TerminalOp> = Vec::new();
        let column = get_position_x(state.url_input.as_str());
        match state.mode {
            Mode::Insert => {
                ops.push(TerminalOp::SetCursor(column, CURSOR_ROW));
                ops.push(TerminalOp::ShowCursor);
            },
            Mode::Normal => {
                ops.push(TerminalOp::HideCursor);
            },
        }
        if state.is_first_render {
            ops.push(TerminalOp::SetCursor(column, CURSOR_ROW));
            self.store.dispatch(Action::SetFirstRender);
        }
        ops
    }

    /// Consumes one event. Every event is accepted in every mode; those that
    /// the mode has no use for change nothing.
    pub fn handle_event(&mut self, event: Event<Key>) -> (reaction: Reaction)
        ensures
            final(self)@ == after_event(old(self)@, event),
            reaction@ == reaction_to(old(self)@.state.mode, event),
    {
        let state = self.store.get_state();
        let mut terminal: Vec<TerminalOp> = Vec::new();
        let mut command = Command::Continue;
        match event {
            Event::Tick => {},
            Event::Input(key) => match state.mode {
                Mode::Normal => match key {
                    Key::Char(c) => {
                        if c == 'q' {
                            terminal = restore_terminal();
                            command = Command::Quit;
                        } else if c == 'c' {
                            self.active_menu_item = TabMenuItem::Collection;
                        } else if c == 'i' {
                            self.store.dispatch(Action::ChangeMode(Mode::Insert));
                        } else if c == 'e' {
                            self.active_menu_item = TabMenuItem::Execution(ActiveMainPane::Left);
                        } else if c == ' ' {
                            command = Command::Fetch;
                        }
                    },
                    _ => {},
                },
                Mode::Insert => match key {
                    Key::Esc => {
                        terminal.push(TerminalOp::HideCursor);
                        self.store.dispatch(Action::ChangeMode(Mode::Normal));
                    },
                    Key::Char(c) => {
                        let mut url = state.url_input;
                        url.push(c);
                        self.store.dispatch(Action::ChangeURI(url));
                    },
                    Key::Backspace => {
                        let mut url = state.url_input;
                        url.pop();
                        self.store.dispatch(Action::ChangeURI(url));
                    },
                    Key::Other => {},
                },
            },
        }
        assert(terminal@ =~= reaction_to(state.mode, event).terminal);
        Reaction { terminal, command }
    }

    /// Takes the payload of a fetch that succeeded. It replaces the last one
    /// whole.
    pub fn fetch_completed(&mut self, payload: GraphQLResponse<CharacterDataField>)
        ensures
            final(self)@ == (DashboardView { result: Some(payload@), ..old(self)@ }),
    {
        self.resp = Some(payload);
    }
}

/// Editing the URL: in insert mode a character key puts exactly that
/// character at the end of the URL, backspace takes exactly the last
/// character off, and backspace on an empty URL changes nothing. No other
/// part of the dashboard moves.
pub proof fn lemma_url_edits(before: DashboardView, key: Key)
    requires
        before.state.mode == Mode::Insert,
    ensures
        after_event(before, Event::Input(key)).tab == before.tab,
        after_event(before, Event::Input(key)).result == before.result,
        key is Char || key is Backspace ==> after_event(before, Event::Input(key)).state == (
        AppStateView { url_input: edited(before.state.url_input, key), ..before.state }),
        key matches Key::Char(c) ==> after_event(before, Event::Input(key)).state.url_input
            == before.state.url_input.push(c),
        key is Backspace && before.state.url_input.len() > 0 ==> after_event(
            before,
            Event::Input(key),
        ).state.url_input == before.state.url_input.drop_last(),
        key is Backspace && before.state.url_input.len() == 0 ==> after_event(
            before,
            Event::Input(key),
        ) == before,
{
}

/// A character typed and then taken back leaves the dashboard as it was.
pub proof fn lemma_backspace_undoes_char(before: DashboardView, c: char)
    requires
        before.state.mode == Mode::Insert,
    ensures
        after_event(after_event(before, Event::Input(Key::Char(c))), Event::Input(Key::Backspace))
            == before,
{
    assert(before.state.url_input.push(c).drop_last() =~= before.state.url_input);
}

/// A tick changes nothing and asks for nothing, in either mode.
pub proof fn lemma_tick_is_idle(before: DashboardView)
    ensures
        after_event(before, Event::Tick) == before,
        reaction_to(before.state.mode, Event::Tick) == (ReactionView {
            terminal: Seq::empty(),
            command: Command::Continue,
        }),
{
}

/// The loop ends on `q` in normal mode and on nothing else.
pub proof fn lemma_quit_only_on_q(mode: Mode, event: Event<Key>)
    ensures
        reaction_to(mode, event).command == Command::Quit <==> mode == Mode::Normal && event
            == Event::Input(Key::Char('q')),
{
}

/// One turn of the loop, seen from outside: the event that it consumed and,
/// where it ran the transport with success, the payload that came back.
pub struct Turn {
    pub event: Event<Key>,
    pub fetched: Option<GraphQLResponse<CharacterDataFieldView>>,
}

/// The dashboard after one turn: the cursor is settled, the event handled,
/// and a payload taken in where the event asked for a fetch.
pub open spec fn after_turn(before: DashboardView, turn: Turn) -> DashboardView {
    let handled = after_event(settled(before), turn.event);
    if reaction_to(settled(before).state.mode, turn.event).command == Command::Fetch
        && turn.fetched is Some {
        DashboardView { result: turn.fetched, ..handled }
    } else {
        handled
    }
}

/// The dashboard after a run of turns.
pub open spec fn after_turns(before: DashboardView, turns: Seq<Turn>) -> DashboardView
    decreases turns.len(),
{
    if turns.len() == 0 {
        before
    } else {
        after_turns(after_turn(before, turns[0]), turns.drop_first())
    }
}

/// How often a run of turns records the first frame as drawn.
pub open spec fn first_render_dispatches(before: DashboardView, turns: Seq<Turn>) -> nat
    decreases turns.len(),
{
    if turns.len() == 0 {
        0
    } else {
        let here: nat = if before.state.is_first_render {
            1
        } else {
            0
        };
        here + first_render_dispatches(after_turn(before, turns[0]), turns.drop_first())
    }
}

/// The first frame is recorded at most once: in the first turn of a run
/// that starts before the first frame, and never in a run that starts after
/// it. Once a turn has passed, no frame is the first one again.
pub proof fn lemma_first_render_once(before: DashboardView, turns: Seq<Turn>)
    ensures
        first_render_dispatches(before, turns) <= 1,
        !before.state.is_first_render ==> first_render_dispatches(before, turns) == 0,
        !before.state.is_first_render || turns.len() > 0 ==> !after_turns(
            before,
            turns,
        ).state.is_first_render,
    decreases turns.len(),
{
    if turns.len() > 0 {
        lemma_first_render_once(after_turn(before, turns[0]), turns.drop_first());
    }
}

} // verus!

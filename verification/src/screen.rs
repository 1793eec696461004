//! What a frame shows: the tab selection, the colours that follow from it,
//! and the text of each pane, as plain values for a renderer to paint.

use crate::state::{ActiveWindow, AppState, AppStateView};
use vstd::prelude::*;
use vstd::std_specs::convert::FromSpecImpl;
use vstd::string::StrSliceExecFns;

verus! {

/// One half of the main pane.
#[derive(Copy, Clone, Debug, PartialEq, Eq, Structural)]
pub enum ActiveMainPane {
    Left,
    Right,
}

/// The tab that the menu shows as selected. The execution tab remembers
/// which half of the main pane is active.
#[derive(Copy, Clone, Debug, PartialEq, Eq, Structural)]
pub enum TabMenuItem {
    Execution(ActiveMainPane),
    Collection,
}

/// The colours that borders are drawn in.
#[derive(Copy, Clone, Debug, PartialEq, Eq, Structural)]
pub enum Color {
    Red,
    Magenta,
    White,
}

impl From<ActiveMainPane> for usize {
    fn from(_input: ActiveMainPane) -> (index: usize) {
        0
    }
}

impl FromSpecImpl<ActiveMainPane> for usize {
    open spec fn obeys_from_spec() -> bool {
        true
    }

    open spec fn from_spec(_input: ActiveMainPane) -> usize {
        0
    }
}

/// The place of a tab in the menu: collections first, then execution.
pub open spec fn tab_index(tab: TabMenuItem) -> usize {
    match tab {
        TabMenuItem::Execution(_) => 1,
        TabMenuItem::Collection => 0,
    }
}

impl From<TabMenuItem> for usize {
    fn from(input: TabMenuItem) -> (index: usize) {
        match input {
            TabMenuItem::Execution(_) => 1,
            TabMenuItem::Collection => 0,
        }
    }
}

impl FromSpecImpl<TabMenuItem> for usize {
    open spec fn obeys_from_spec() -> bool {
        true
    }

    open spec fn from_spec(input: TabMenuItem) -> usize {
        tab_index(input)
    }
}

/// The border colour of `pane` under the selection `menu_item`: magenta for
/// the half of the main pane that lies across from the active one, white for
/// everything else.
pub open spec fn color_of(menu_item: TabMenuItem, pane: ActiveMainPane) -> Color {
    match (menu_item, pane) {
        (TabMenuItem::Execution(ActiveMainPane::Left), ActiveMainPane::Right) => Color::Magenta,
        (TabMenuItem::Execution(ActiveMainPane::Right), ActiveMainPane::Left) => Color::Magenta,
        _ => Color::White,
    }
}

/// The border colour of one half of the main pane.
pub fn get_color(menu_item: TabMenuItem, pane: ActiveMainPane) -> (color: Color)
    ensures
        color == color_of(menu_item, pane),
{
    match (menu_item, pane) {
        (TabMenuItem::Execution(ActiveMainPane::Left), ActiveMainPane::Right) => Color::Magenta,
        (TabMenuItem::Execution(ActiveMainPane::Right), ActiveMainPane::Left) => Color::Magenta,
        _ => Color::White,
    }
}

/// How far the text of the URL line stands from the left edge of the screen.
pub const CURSOR_OFFSET: u16 = 2;

/// The screen row of the URL line.
pub const CURSOR_ROW: u16 = 6;

/// Whether a text of `len` characters has a cursor column. The two lengths
/// that fit the column's type while the column behind them does not have
/// none.
pub open spec fn column_defined(len: nat) -> bool {
    len + CURSOR_OFFSET <= u16::MAX || len > u16::MAX
}

/// The column behind a text of `len` characters on the URL line. A length
/// that does not fit the column's type counts as no text at all, which puts
/// the cursor at the offset.
pub open spec fn column_after(len: nat) -> u16
    recommends
        column_defined(len),
{
    if len <= u16::MAX {
        (len + CURSOR_OFFSET) as u16
    } else {
        CURSOR_OFFSET
    }
}

/// Whether the cursor has a column when the URL line holds `input`.
pub fn has_column(input: &str) -> (defined: bool)
    ensures
        defined == column_defined(input@.len()),
{
    let len: usize = input.unicode_len();
    len <= (u16::MAX - CURSOR_OFFSET) as usize || len > u16::MAX as usize
}

/// The column at which the cursor stands when the URL line holds `input`.
pub fn get_position_x(input: &str) -> (column: u16)
    requires
        column_defined(input@.len()),
    ensures
        column == column_after(input@.len()),
{
    let len: usize = input.unicode_len();
    if len <= (u16::MAX - CURSOR_OFFSET) as usize {
        len as u16 + CURSOR_OFFSET
    } else {
        CURSOR_OFFSET
    }
}

/// An optional value by the view of what it holds.
pub open spec fn option_view<T: View>(value: Option<T>) -> Option<T::V> {
    match value {
        Some(inner) => Some(inner@),
        None => None,
    }
}

/// What the result pane shows before any fetch has completed.
pub const PLACEHOLDER: &'static str = " nothing.";

/// The text of the result pane: the last payload as it was printed, or the
/// placeholder where there is none yet.
pub open spec fn result_text_of(printed: Option<Seq<char>>) -> Seq<char> {
    match printed {
        Some(text) => text,
        None => PLACEHOLDER@,
    }
}

/// The text for the result pane.
pub fn result_text(printed: Option<String>) -> (text: String)
    ensures
        text@ == result_text_of(option_view(printed)),
{
    match printed {
        Some(payload) => payload,
        None => PLACEHOLDER.to_owned(),
    }
}

/// One frame, ready to paint. The menu and the footer hold fixed text; what
/// varies is here.
#[derive(Debug)]
pub struct Screen {
    /// The place of the selected tab in the menu.
    pub selected_tab: usize,
    /// The text of the URL line.
    pub url_text: String,
    /// The border colour of the URL line, where it has one of its own.
    pub url_border: Option<Color>,
    /// The left half of the main pane: the query.
    pub query_text: String,
    pub query_border: Color,
    /// The right half of the main pane: the result.
    pub result_text: String,
    pub result_border: Color,
}

/// A frame with its texts as sequences of characters.
pub struct ScreenView {
    pub selected_tab: usize,
    pub url_text: Seq<char>,
    pub url_border: Option<Color>,
    pub query_text: Seq<char>,
    pub query_border: Color,
    pub result_text: Seq<char>,
    pub result_border: Color,
}

impl View for Screen {
    type V = ScreenView;

    open spec fn view(&self) -> ScreenView {
        ScreenView {
            selected_tab: self.selected_tab,
            url_text: self.url_text@,
            url_border: self.url_border,
            query_text: self.query_text@,
            query_border: self.query_border,
            result_text: self.result_text@,
            result_border: self.result_border,
        }
    }
}

/// The frame for `state` under the selection `tab`, with `query` in the left
/// half of the main pane and the printed payload, if any, in the right one.
/// The URL line is framed in red while it has the focus.
pub open spec fn screen_of(
    state: AppStateView,
    tab: TabMenuItem,
    query: Seq<char>,
    printed: Option<Seq<char>>,
) -> ScreenView {
    ScreenView {
        selected_tab: tab_index(tab),
        url_text: state.url_input,
        url_border: if state.active_window == ActiveWindow::URL {
            Some(Color::Red)
        } else {
            None
        },
        query_text: query,
        query_border: color_of(tab, ActiveMainPane::Left),
        result_text: result_text_of(printed),
        result_border: color_of(tab, ActiveMainPane::Right),
    }
}

/// Lays out one frame. The state is only read.
pub fn compose_screen(
    state: &AppState,
    tab: TabMenuItem,
    query: String,
    printed: Option<String>,
) -> (screen: Screen)
    ensures
        screen@ == screen_of(state@, tab, query@, option_view(printed)),
{
    let url_border = match state.active_window {
        ActiveWindow::URL => Some(Color::Red),
        _ => None,
    };
    Screen {
        selected_tab: usize::from(tab),
        url_text: state.url_input.clone(),
        url_border,
        query_text: query,
        query_border: get_color(tab, ActiveMainPane::Left),
        result_text: result_text(printed),
        result_border: get_color(tab, ActiveMainPane::Right),
    }
}

} // verus!

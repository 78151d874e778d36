//! Input modes and event dispatch: every key event is routed by the active
//! mode, checked in priority order quit dialog > filter editing > detail view
//! > normal.

use crate::filter::is_hash_shaped;
use crate::record::Transaction;
use crate::state::{
    bottom_spec, same_details, same_log, same_modes, same_session, scroll_down_n,
    scroll_down_spec, scroll_up_n, scroll_up_spec, AppState, ScrollState,
};
use vstd::prelude::*;
use vstd::string::*;

verus! {

/// The keys the dispatcher tells apart.
#[derive(Debug, Clone, Copy, PartialEq, Eq, Structural)]
pub enum KeyCode {
    Char(char),
    Enter,
    Esc,
    Backspace,
    Delete,
    Left,
    Right,
    Up,
    Down,
    Home,
    End,
    PageUp,
    PageDown,
    Other,
}

/// A key press with the modifiers the dispatcher reads.
#[derive(Debug, Clone, Copy, PartialEq, Eq, Structural)]
pub struct KeyEvent {
    pub code: KeyCode,
    pub ctrl: bool,
    pub shift: bool,
}

/// The active input mode, derived from the state's flags.
#[derive(Debug, Clone, Copy, PartialEq, Eq, Structural)]
pub enum Mode {
    Normal,
    FilterEditing,
    DetailsOpen,
    QuitConfirm,
}

/// Everything the event loop applies to the state.
#[derive(Debug)]
pub enum AppEvent {
    Input(KeyEvent),
    Transaction(Transaction),
    Connected,
    Disconnected(String),
    TransactionFetched(Transaction),
    TransactionNotFound(String),
}

/// The mode, by priority: quit dialog, filter editing, detail view, normal.
pub open spec fn mode_of(s: &AppState) -> Mode {
    if s.quit_confirmation {
        Mode::QuitConfirm
    } else if s.filter@.active {
        Mode::FilterEditing
    } else if s.show_details {
        Mode::DetailsOpen
    } else {
        Mode::Normal
    }
}

pub open spec fn is_char(key: KeyEvent, c: char) -> bool {
    key.code == KeyCode::Char(c)
}

/// Only the filter has changed.
pub open spec fn only_filter_changed(o: &AppState, n: &AppState) -> bool {
    &&& same_log(o, n)
    &&& same_session(o, n)
    &&& same_details(o, n)
    &&& n.quit_confirmation == o.quit_confirmation
    &&& n.pending_tx_fetch == o.pending_tx_fetch
}

/// The viewport is `s` and nothing else has changed.
pub open spec fn viewport_moved_to(o: &AppState, n: &AppState, s: ScrollState) -> bool {
    &&& n.scroll_state == s
    &&& n.transactions@ == o.transactions@
    &&& n.max_transactions == o.max_transactions
    &&& n.show_new_on_top == o.show_new_on_top
    &&& same_session(o, n)
    &&& same_details(o, n)
    &&& same_modes(o, n)
}

/// Quitting was asked for: with confirmation the dialog opens, without it
/// the quit flag is set.
pub open spec fn quit_requested(o: &AppState, n: &AppState) -> bool {
    &&& if o.config.confirm_quit {
        n.quit_confirmation && n.should_quit == o.should_quit
    } else {
        n.should_quit && n.quit_confirmation == o.quit_confirmation
    }
    &&& same_log(o, n)
    &&& same_details(o, n)
    &&& n.stats == o.stats
    &&& n.config == o.config
    &&& n.filter@ == o.filter@
    &&& n.pending_tx_fetch == o.pending_tx_fetch
}

/// The filter query is emptied, editing ends and the viewport goes to the top.
pub open spec fn filter_dropped(o: &AppState, n: &AppState) -> bool {
    &&& n.filter@.query.len() == 0
    &&& !n.filter@.active
    &&& n.filter@.cursor == 0
    &&& n.scroll_state == (ScrollState { offset: 0, selected: 0 })
    &&& n.transactions@ == o.transactions@
    &&& n.max_transactions == o.max_transactions
    &&& n.show_new_on_top == o.show_new_on_top
    &&& same_session(o, n)
    &&& same_details(o, n)
    &&& n.quit_confirmation == o.quit_confirmation
    &&& n.pending_tx_fetch == o.pending_tx_fetch
}

/// The effect of a key in the quit dialog: `y`/`Y` quits, `n`/`N`/Esc
/// returns to the previous mode, anything else does nothing.
pub open spec fn quit_dialog_step(o: &AppState, n: &AppState, key: KeyEvent) -> bool {
    if is_char(key, 'y') || is_char(key, 'Y') {
        &&& n.should_quit
        &&& n.quit_confirmation == o.quit_confirmation
        &&& n.stats == o.stats
        &&& n.config == o.config
        &&& same_log(o, n)
        &&& same_details(o, n)
        &&& same_modes(o, n)
    } else if is_char(key, 'n') || is_char(key, 'N') || key.code == KeyCode::Esc {
        &&& !n.quit_confirmation
        &&& n.should_quit == o.should_quit
        &&& n.stats == o.stats
        &&& n.config == o.config
        &&& same_log(o, n)
        &&& same_details(o, n)
        &&& n.filter@ == o.filter@
        &&& n.pending_tx_fetch == o.pending_tx_fetch
    } else {
        *n == *o
    }
}

/// The effect of a key in the detail view: Esc, Enter or `q` closes it,
/// arrows and page keys scroll it, Home or `g` goes to its top.
pub open spec fn details_step(o: &AppState, n: &AppState, key: KeyEvent) -> bool {
    let d = o.details_scroll_offset;
    let rest = same_log(o, n) && same_session(o, n) && same_modes(o, n);
    if key.code == KeyCode::Esc || key.code == KeyCode::Enter || is_char(key, 'q') {
        rest && !n.show_details && n.selected_transaction is None && n.details_scroll_offset == 0
    } else if key.code == KeyCode::Up || is_char(key, 'k') || key.code == KeyCode::Down
        || is_char(key, 'j') || key.code == KeyCode::PageUp || key.code == KeyCode::PageDown
        || key.code == KeyCode::Home || is_char(key, 'g') {
        &&& rest
        &&& n.show_details == o.show_details
        &&& n.selected_transaction == o.selected_transaction
        &&& n.details_scroll_offset == if key.code == KeyCode::Up || is_char(key, 'k') {
            if d > 0 {
                d - 1
            } else {
                0
            }
        } else if key.code == KeyCode::Down || is_char(key, 'j') {
            if d < usize::MAX {
                d + 1
            } else {
                usize::MAX as int
            }
        } else if key.code == KeyCode::PageUp {
            if d > 10 {
                d - 10
            } else {
                0
            }
        } else if key.code == KeyCode::PageDown {
            if d + 10 <= usize::MAX {
                d + 10
            } else {
                usize::MAX as int
            }
        } else {
            0
        }
    } else {
        *n == *o
    }
}

/// The effect of a key while the filter is edited: Esc drops the filter,
/// Enter keeps the query, ends editing, resets the viewport and asks for a
/// lookup when the query is a well-formed hash; characters and editing keys
/// edit the query.
pub open spec fn filter_step(o: &AppState, n: &AppState, key: KeyEvent) -> bool {
    let f = o.filter@;
    let g = n.filter@;
    if key.code == KeyCode::Esc {
        filter_dropped(o, n)
    } else if key.code == KeyCode::Enter {
        &&& g.query == f.query
        &&& !g.active
        &&& n.scroll_state == (ScrollState { offset: 0, selected: 0 })
        &&& n.transactions@ == o.transactions@
        &&& n.max_transactions == o.max_transactions
        &&& n.show_new_on_top == o.show_new_on_top
        &&& same_session(o, n)
        &&& same_details(o, n)
        &&& n.quit_confirmation == o.quit_confirmation
        &&& if is_hash_shaped(f.query) {
            n.pending_tx_fetch is Some && n.pending_tx_fetch->0@ == f.query
        } else {
            n.pending_tx_fetch == o.pending_tx_fetch
        }
    } else if key.code is Char {
        &&& only_filter_changed(o, n)
        &&& g.query == f.query.insert(f.cursor as int, key.code->Char_0)
        &&& g.cursor == f.cursor + 1
        &&& g.active == f.active
    } else if key.code == KeyCode::Backspace {
        &&& only_filter_changed(o, n)
        &&& g.active == f.active
        &&& if f.cursor > 0 {
            g.query == f.query.remove(f.cursor - 1) && g.cursor == f.cursor - 1
        } else {
            g == f
        }
    } else if key.code == KeyCode::Delete {
        &&& only_filter_changed(o, n)
        &&& g.active == f.active
        &&& g.cursor == f.cursor
        &&& g.query == if f.cursor < f.query.len() {
            f.query.remove(f.cursor as int)
        } else {
            f.query
        }
    } else if key.code == KeyCode::Left || key.code == KeyCode::Right || key.code
        == KeyCode::Home || key.code == KeyCode::End {
        &&& only_filter_changed(o, n)
        &&& g.active == f.active
        &&& g.query == f.query
        &&& g.cursor == if key.code == KeyCode::Left {
            if f.cursor > 0 {
                (f.cursor - 1) as nat
            } else {
                0
            }
        } else if key.code == KeyCode::Right {
            if f.cursor < f.query.len() {
                f.cursor + 1
            } else {
                f.query.len()
            }
        } else if key.code == KeyCode::Home {
            0
        } else {
            f.query.len()
        }
    } else {
        *n == *o
    }
}

/// The effect of a key in normal mode.
pub open spec fn main_step(o: &AppState, n: &AppState, key: KeyEvent) -> bool {
    let s = o.scroll_state;
    let len = o.transactions@.len();
    if is_char(key, 'q') || (is_char(key, 'c') && key.ctrl) {
        quit_requested(o, n)
    } else if key.code == KeyCode::Esc {
        if o.filter@.query.len() > 0 {
            filter_dropped(o, n)
        } else {
            quit_requested(o, n)
        }
    } else if is_char(key, '/') {
        &&& only_filter_changed(o, n)
        &&& n.filter@.active
        &&& n.filter@.query == o.filter@.query
        &&& n.filter@.cursor == o.filter@.query.len()
    } else if is_char(key, '\\') {
        filter_dropped(o, n)
    } else if key.code == KeyCode::Up || is_char(key, 'k') {
        viewport_moved_to(o, n, scroll_up_spec(s))
    } else if key.code == KeyCode::Down || is_char(key, 'j') {
        viewport_moved_to(o, n, scroll_down_spec(s, len))
    } else if key.code == KeyCode::PageUp {
        viewport_moved_to(o, n, scroll_up_n(s, 10))
    } else if key.code == KeyCode::PageDown {
        viewport_moved_to(o, n, scroll_down_n(s, len, 10))
    } else if key.code == KeyCode::Home || is_char(key, 'g') {
        viewport_moved_to(o, n, ScrollState { offset: 0, selected: 0 })
    } else if key.code == KeyCode::End || is_char(key, 'G') {
        viewport_moved_to(o, n, bottom_spec(len))
    } else if is_char(key, 'r') {
        &&& !n.stats.connected
        &&& n.stats.last_error == o.stats.last_error
        &&& n.stats.total_transactions == o.stats.total_transactions
        &&& n.config == o.config
        &&& n.should_quit == o.should_quit
        &&& same_log(o, n)
        &&& same_details(o, n)
        &&& same_modes(o, n)
    } else if is_char(key, 't') {
        &&& n.transactions@ == o.transactions@.reverse()
        &&& n.show_new_on_top == !o.show_new_on_top
        &&& n.scroll_state == (ScrollState { offset: 0, selected: 0 })
        &&& n.max_transactions == o.max_transactions
        &&& same_session(o, n)
        &&& same_details(o, n)
        &&& same_modes(o, n)
    } else if is_char(key, 'c') || (is_char(key, 'C') && key.shift) {
        &&& n.transactions@.len() == 0
        &&& n.scroll_state == (ScrollState { offset: 0, selected: 0 })
        &&& n.selected_transaction is None
        &&& !n.show_details
        &&& n.details_scroll_offset == o.details_scroll_offset
        &&& n.max_transactions == o.max_transactions
        &&& n.show_new_on_top == o.show_new_on_top
        &&& same_session(o, n)
        &&& same_modes(o, n)
    } else if key.code == KeyCode::Enter {
        &&& same_log(o, n)
        &&& same_session(o, n)
        &&& same_modes(o, n)
        &&& if s.selected < len {
            &&& n.selected_transaction == Some(o.transactions@[s.selected as int])
            &&& n.show_details
            &&& n.details_scroll_offset == 0
        } else {
            same_details(o, n)
        }
    } else {
        *n == *o
    }
}

/// The effect of a key: the step of the active mode.
pub open spec fn key_step(o: &AppState, n: &AppState, key: KeyEvent) -> bool {
    match mode_of(o) {
        Mode::QuitConfirm => quit_dialog_step(o, n, key),
        Mode::FilterEditing => filter_step(o, n, key),
        Mode::DetailsOpen => details_step(o, n, key),
        Mode::Normal => main_step(o, n, key),
    }
}

impl AppState {
    /// The active input mode.
    pub fn mode(&self) -> (r: Mode)
        ensures
            r == mode_of(self),
    {
        if self.quit_confirmation {
            Mode::QuitConfirm
        } else if self.filter.is_active() {
            Mode::FilterEditing
        } else if self.show_details {
            Mode::DetailsOpen
        } else {
            Mode::Normal
        }
    }

    /// Clears the filter, leaves editing and resets the viewport.
    fn drop_filter(&mut self)
        requires
            old(self).wf(),
        ensures
            final(self).wf(),
            filter_dropped(old(self), final(self)),
    {
        self.filter.clear();
        self.filter.deactivate();
        self.scroll_state = ScrollState { offset: 0, selected: 0 };
    }

    /// Asks to quit, through the dialog when the settings want confirmation.
    fn request_quit(&mut self)
        requires
            old(self).wf(),
        ensures
            final(self).wf(),
            quit_requested(old(self), final(self)),
    {
        if self.config.confirm_quit {
            self.quit_confirmation = true;
        } else {
            self.quit();
        }
    }
}

/// Handles a key in the quit dialog.
fn handle_quit_confirmation(key: KeyEvent, state: &mut AppState)
    requires
        old(state).wf(),
    ensures
        final(state).wf(),
        quit_dialog_step(old(state), final(state), key),
{
    match key.code {
        KeyCode::Char('y') | KeyCode::Char('Y') => state.quit(),
        KeyCode::Char('n') | KeyCode::Char('N') | KeyCode::Esc => state.quit_confirmation = false,
        _ => {},
    }
}

/// Handles a key in the detail view.
fn handle_details_navigation(key: KeyEvent, state: &mut AppState)
    requires
        old(state).wf(),
    ensures
        final(state).wf(),
        details_step(old(state), final(state), key),
{
    match key.code {
        KeyCode::Esc | KeyCode::Enter | KeyCode::Char('q') => state.hide_transaction_details(),
        KeyCode::Up | KeyCode::Char('k') => state.scroll_details_up(),
        KeyCode::Down | KeyCode::Char('j') => state.scroll_details_down(),
        KeyCode::PageUp => state.scroll_details_page_up(),
        KeyCode::PageDown => state.scroll_details_page_down(),
        KeyCode::Home | KeyCode::Char('g') => state.details_scroll_offset = 0,
        _ => {},
    }
}

/// Handles a key while the filter is edited.
fn handle_filter_input(key: KeyEvent, state: &mut AppState)
    requires
        old(state).wf(),
    ensures
        final(state).wf(),
        filter_step(old(state), final(state), key),
{
    match key.code {
        KeyCode::Esc => state.drop_filter(),
        KeyCode::Enter => {
            if state.filter.is_transaction_hash() {
                state.pending_tx_fetch = Some(state.filter.query());
            }
            state.filter.deactivate();
            state.scroll_state = ScrollState { offset: 0, selected: 0 };
        },
        KeyCode::Char(c) => state.filter.add_char(c),
        KeyCode::Backspace => state.filter.delete_char_before_cursor(),
        KeyCode::Delete => state.filter.delete_char_at_cursor(),
        KeyCode::Left => state.filter.move_cursor_left(),
        KeyCode::Right => state.filter.move_cursor_right(),
        KeyCode::Home => state.filter.move_cursor_to_start(),
        KeyCode::End => state.filter.move_cursor_to_end(),
        _ => {},
    }
}

/// Handles a key in normal mode.
fn handle_main_navigation(key: KeyEvent, state: &mut AppState)
    requires
        old(state).wf(),
    ensures
        final(state).wf(),
        main_step(old(state), final(state), key),
{
    match key.code {
        KeyCode::Char('q') => state.request_quit(),
        KeyCode::Esc => {
            if state.filter.has_query() {
                state.drop_filter();
            } else {
                state.request_quit();
            }
        },
        KeyCode::Char('c') if key.ctrl => state.request_quit(),
        KeyCode::Char('/') => state.filter.activate(),
        KeyCode::Char('\\') => state.drop_filter(),
        KeyCode::Up | KeyCode::Char('k') => state.scroll_up(),
        KeyCode::Down | KeyCode::Char('j') => state.scroll_down(),
        KeyCode::PageUp => state.page_up(),
        KeyCode::PageDown => state.page_down(),
        KeyCode::Home | KeyCode::Char('g') => state.jump_to_top(),
        KeyCode::End | KeyCode::Char('G') => state.jump_to_bottom(),
        KeyCode::Char('r') => state.set_connected(false),
        KeyCode::Char('t') => state.toggle_sort_order(),
        KeyCode::Char('c') => state.clear_transactions(),
        KeyCode::Char('C') if key.shift => state.clear_transactions(),
        KeyCode::Enter => state.show_transaction_details(),
        _ => {},
    }
}

/// Routes a key event by the active mode.
pub fn handle_key_event(key: KeyEvent, state: &mut AppState)
    requires
        old(state).wf(),
    ensures
        final(state).wf(),
        key_step(old(state), final(state), key),
{
    if state.quit_confirmation {
        handle_quit_confirmation(key, state)
    } else if state.filter.is_active() {
        handle_filter_input(key, state)
    } else if state.show_details {
        handle_details_navigation(key, state)
    } else {
        handle_main_navigation(key, state)
    }
}

/// The message recorded when a lookup finds no transaction.
pub open spec fn not_found_message(hash: Seq<char>) -> Seq<char> {
    "Transaction not found: "@ + hash
}

/// The effect of an event on the state.
pub open spec fn event_step(o: &AppState, n: &AppState, event: AppEvent, now_ms: u64) -> bool {
    match event {
        AppEvent::Input(key) => key_step(o, n, key),
        AppEvent::Transaction(tx) => {
            &&& n.transactions@ == crate::state::after_insert(
                o.transactions@,
                o.max_transactions,
                o.show_new_on_top,
                tx,
            )
            &&& n.scroll_state == crate::state::scroll_after_insert(
                o.scroll_state,
                o.transactions@,
                o.max_transactions,
                o.show_new_on_top,
            )
            &&& n.max_transactions == o.max_transactions
            &&& n.show_new_on_top == o.show_new_on_top
            &&& n.stats.total_transactions == crate::state::counted(o.stats.total_transactions, 1)
            &&& n.stats.connected == o.stats.connected
            &&& n.stats.last_error == o.stats.last_error
            &&& n.stats.start_time == o.stats.start_time
            &&& n.config == o.config
            &&& n.should_quit == o.should_quit
            &&& same_details(o, n)
            &&& same_modes(o, n)
        },
        AppEvent::Connected => {
            &&& n.stats.connected
            &&& n.stats.last_error is None
            &&& n.stats.total_transactions == o.stats.total_transactions
            &&& n.stats.start_time == o.stats.start_time
            &&& n.config == o.config
            &&& n.should_quit == o.should_quit
            &&& same_log(o, n)
            &&& same_details(o, n)
            &&& same_modes(o, n)
        },
        AppEvent::Disconnected(e) => {
            &&& !n.stats.connected
            &&& n.stats.last_error == Some(e)
            &&& n.stats.total_transactions == o.stats.total_transactions
            &&& n.stats.start_time == o.stats.start_time
            &&& n.config == o.config
            &&& n.should_quit == o.should_quit
            &&& same_log(o, n)
            &&& same_details(o, n)
            &&& same_modes(o, n)
        },
        AppEvent::TransactionFetched(tx) => {
            &&& n.selected_transaction == Some(tx)
            &&& n.show_details
            &&& n.details_scroll_offset == 0
            &&& same_log(o, n)
            &&& same_session(o, n)
            &&& same_modes(o, n)
        },
        AppEvent::TransactionNotFound(hash) => {
            &&& !n.stats.connected
            &&& n.stats.last_error is Some
            &&& n.stats.last_error->0@ == not_found_message(hash@)
            &&& n.stats.total_transactions == o.stats.total_transactions
            &&& n.stats.start_time == o.stats.start_time
            &&& n.config == o.config
            &&& n.should_quit == o.should_quit
            &&& same_log(o, n)
            &&& same_details(o, n)
            &&& same_modes(o, n)
        },
    }
}

impl AppEvent {
    /// Applies the event to the state; `now_ms` is the monotonic clock.
    pub fn process(self, state: &mut AppState, now_ms: u64)
        requires
            old(state).wf(),
        ensures
            final(state).wf(),
            event_step(old(state), final(state), self, now_ms),
    {
        match self {
            AppEvent::Input(key) => handle_key_event(key, state),
            AppEvent::Transaction(tx) => state.add_transaction(tx, now_ms),
            AppEvent::Connected => state.set_connected(true),
            AppEvent::Disconnected(error) => state.set_error(error),
            AppEvent::TransactionFetched(tx) => state.show_fetched_transaction(tx),
            AppEvent::TransactionNotFound(hash) => {
                let prefix = String::from_str("Transaction not found: ");
                let message = prefix.concat(hash.as_str());
                state.set_error(message);
            },
        }
    }
}

/// Applies one event to the state.
pub fn handle_event(event: AppEvent, state: &mut AppState, now_ms: u64)
    requires
        old(state).wf(),
    ensures
        final(state).wf(),
        event_step(old(state), final(state), event, now_ms),
{
    event.process(state, now_ms)
}

} // verus!

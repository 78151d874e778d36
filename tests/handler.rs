use web3_tx_stream::handler::{handle_event, handle_key_event, AppEvent, KeyCode, KeyEvent, Mode};
use web3_tx_stream::record::Transaction;
use web3_tx_stream::state::{AppState, Config, ScrollState};

fn key(code: KeyCode) -> KeyEvent {
    KeyEvent { code, ctrl: false, shift: false }
}

fn ch(c: char) -> KeyEvent {
    key(KeyCode::Char(c))
}

fn rec(n: u32) -> Transaction {
    Transaction {
        hash: format!("0x{:064x}", n),
        from: format!("0x{:040x}", n),
        to: None,
        value: "0.0000".to_string(),
        gas_limit: "21000".to_string(),
        gas_price: None,
        data: "0x".to_string(),
        function_sig: None,
        timestamp: 0,
        block_number: None,
        status: None,
        gas_used: None,
        effective_gas_price: None,
    }
}

fn fresh() -> AppState {
    AppState::new(Config::new("ws://localhost:8545".to_string()), 0, 0)
}

#[test]
fn quit_dialog_round_trip() {
    let mut s = fresh();
    assert_eq!(s.mode(), Mode::Normal);
    handle_key_event(ch('q'), &mut s);
    assert_eq!(s.mode(), Mode::QuitConfirm);
    assert!(!s.should_quit);
    handle_key_event(ch('n'), &mut s);
    assert_eq!(s.mode(), Mode::Normal);
    assert!(!s.should_quit);
    handle_key_event(ch('q'), &mut s);
    handle_key_event(ch('y'), &mut s);
    assert!(s.should_quit);
}

#[test]
fn immediate_quit_without_confirmation() {
    let mut config = Config::new("ws://x".to_string());
    config.confirm_quit = false;
    let mut s = AppState::new(config, 0, 0);
    handle_key_event(ch('q'), &mut s);
    assert!(s.should_quit);
    assert!(!s.quit_confirmation);
}

#[test]
fn esc_and_ctrl_c_in_normal_mode() {
    let mut s = fresh();
    handle_key_event(key(KeyCode::Esc), &mut s);
    assert_eq!(s.mode(), Mode::QuitConfirm);
    handle_key_event(key(KeyCode::Esc), &mut s);
    assert_eq!(s.mode(), Mode::Normal);
    handle_key_event(KeyEvent { code: KeyCode::Char('c'), ctrl: true, shift: false }, &mut s);
    assert_eq!(s.mode(), Mode::QuitConfirm);
    handle_key_event(ch('x'), &mut s);
    assert_eq!(s.mode(), Mode::QuitConfirm);
    handle_key_event(ch('N'), &mut s);
    assert_eq!(s.mode(), Mode::Normal);
}

#[test]
fn filter_editing_round_trip() {
    let mut s = fresh();
    for n in 0..3 {
        s.add_transaction(rec(n), 0);
    }
    s.scroll_down();
    handle_key_event(ch('/'), &mut s);
    assert_eq!(s.mode(), Mode::FilterEditing);
    for c in "0x1q".chars() {
        handle_key_event(ch(c), &mut s);
    }
    assert_eq!(s.filter.query(), "0x1q");
    assert!(!s.should_quit);
    handle_key_event(key(KeyCode::Backspace), &mut s);
    handle_key_event(key(KeyCode::Home), &mut s);
    handle_key_event(key(KeyCode::Delete), &mut s);
    assert_eq!(s.filter.query(), "x1");
    handle_key_event(key(KeyCode::End), &mut s);
    handle_key_event(key(KeyCode::Left), &mut s);
    handle_key_event(key(KeyCode::Right), &mut s);
    assert_eq!(s.filter.cursor_position(), 2);
    handle_key_event(key(KeyCode::Enter), &mut s);
    assert_eq!(s.mode(), Mode::Normal);
    assert_eq!(s.filter.query(), "x1");
    assert!(s.pending_tx_fetch.is_none());
    assert_eq!(s.scroll_state, ScrollState { offset: 0, selected: 0 });
    // Esc in normal mode with a query drops the filter instead of quitting.
    handle_key_event(key(KeyCode::Esc), &mut s);
    assert_eq!(s.mode(), Mode::Normal);
    assert!(!s.filter.has_query());
}

#[test]
fn hash_query_requests_lookup() {
    let mut s = fresh();
    handle_key_event(ch('/'), &mut s);
    let hash = format!("0x{}", "9".repeat(64));
    for c in hash.chars() {
        handle_key_event(ch(c), &mut s);
    }
    handle_key_event(key(KeyCode::Enter), &mut s);
    assert_eq!(s.pending_tx_fetch.as_deref(), Some(hash.as_str()));
}

#[test]
fn details_mode_keys() {
    let mut s = fresh();
    handle_key_event(key(KeyCode::Enter), &mut s);
    assert_eq!(s.mode(), Mode::Normal);
    s.add_transaction(rec(1), 0);
    handle_key_event(key(KeyCode::Enter), &mut s);
    assert_eq!(s.mode(), Mode::DetailsOpen);
    handle_key_event(ch('j'), &mut s);
    handle_key_event(key(KeyCode::PageDown), &mut s);
    assert_eq!(s.details_scroll_offset, 11);
    handle_key_event(ch('g'), &mut s);
    assert_eq!(s.details_scroll_offset, 0);
    handle_key_event(ch('t'), &mut s);
    assert!(s.show_new_on_top);
    handle_key_event(ch('q'), &mut s);
    assert_eq!(s.mode(), Mode::Normal);
    assert!(!s.should_quit);
}

#[test]
fn normal_mode_actions() {
    let mut s = fresh();
    for n in 0..3 {
        s.add_transaction(rec(n), 0);
    }
    s.set_connected(true);
    handle_key_event(ch('r'), &mut s);
    assert!(!s.stats.connected);
    handle_key_event(ch('t'), &mut s);
    assert!(!s.show_new_on_top);
    handle_key_event(ch('G'), &mut s);
    assert_eq!(s.scroll_state.selected, 2);
    handle_key_event(key(KeyCode::Up), &mut s);
    assert_eq!(s.scroll_state.selected, 1);
    handle_key_event(ch('C'), &mut s);
    assert_eq!(s.transactions.len(), 3);
    handle_key_event(KeyEvent { code: KeyCode::Char('C'), ctrl: false, shift: true }, &mut s);
    assert!(s.transactions.is_empty());
    s.add_transaction(rec(5), 0);
    handle_key_event(ch('c'), &mut s);
    assert!(s.transactions.is_empty());
}

#[test]
fn events_update_state() {
    let mut s = fresh();
    handle_event(AppEvent::Transaction(rec(1)), &mut s, 0);
    assert_eq!(s.transactions.len(), 1);
    handle_event(AppEvent::Connected, &mut s, 0);
    assert!(s.stats.connected);
    handle_event(AppEvent::Disconnected("lost".to_string()), &mut s, 0);
    assert!(!s.stats.connected);
    assert_eq!(s.stats.last_error.as_deref(), Some("lost"));
    handle_event(AppEvent::TransactionNotFound("0xabc".to_string()), &mut s, 0);
    assert_eq!(s.stats.last_error.as_deref(), Some("Transaction not found: 0xabc"));
    handle_event(AppEvent::TransactionFetched(rec(9)), &mut s, 0);
    assert_eq!(s.mode(), Mode::DetailsOpen);
    assert_eq!(s.selected_transaction.as_ref().unwrap().hash, rec(9).hash);
    handle_event(AppEvent::Input(key(KeyCode::Esc)), &mut s, 0);
    assert_eq!(s.mode(), Mode::Normal);
}

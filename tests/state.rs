use web3_tx_stream::record::Transaction;
use web3_tx_stream::state::{parse_unsigned, AppState, Config, ScrollState};

fn rec(n: u32) -> Transaction {
    Transaction {
        hash: format!("0x{:064x}", n),
        from: format!("0x{:040x}", n + 1000),
        to: Some(format!("0x{:040x}", n + 2000)),
        value: "0.0010".to_string(),
        gas_limit: "21000".to_string(),
        gas_price: None,
        data: "0x".to_string(),
        function_sig: None,
        timestamp: n as i64,
        block_number: None,
        status: None,
        gas_used: None,
        effective_gas_price: None,
    }
}

fn state_with_capacity(cap: usize) -> AppState {
    let mut config = Config::new("ws://localhost:8545".to_string());
    config.max_transactions = cap;
    AppState::new(config, 0, 0)
}

fn hashes(s: &AppState) -> Vec<String> {
    s.transactions.iter().map(|t| t.hash.clone()).collect()
}

#[test]
fn down_on_empty_log_is_noop() {
    let mut s = state_with_capacity(10);
    s.scroll_down();
    assert_eq!(s.scroll_state, ScrollState { offset: 0, selected: 0 });
    s.page_down();
    s.jump_to_bottom();
    assert_eq!(s.scroll_state, ScrollState { offset: 0, selected: 0 });
}

#[test]
fn prepend_full_log_evicts_oldest() {
    let mut s = state_with_capacity(3);
    for n in 1..=4 {
        s.add_transaction(rec(n), 0);
    }
    assert_eq!(hashes(&s), vec![rec(4).hash, rec(3).hash, rec(2).hash]);
    assert!(!hashes(&s).contains(&rec(1).hash));
    assert_eq!(s.stats.total_transactions, 4);
}

#[test]
fn log_never_exceeds_capacity() {
    for &top in &[true, false] {
        let mut s = state_with_capacity(5);
        if !top {
            s.toggle_sort_order();
        }
        for n in 0..40 {
            s.add_transaction(rec(n), 0);
            assert!(s.transactions.len() <= 5);
        }
        assert_eq!(s.transactions.len(), 5);
    }
}

#[test]
fn insertion_order_by_direction() {
    let mut s = state_with_capacity(4);
    for n in 0..4 {
        s.add_transaction(rec(n), 0);
    }
    assert_eq!(hashes(&s), vec![rec(3).hash, rec(2).hash, rec(1).hash, rec(0).hash]);

    let mut a = state_with_capacity(4);
    a.toggle_sort_order();
    for n in 0..4 {
        a.add_transaction(rec(n), 0);
    }
    assert_eq!(hashes(&a), vec![rec(0).hash, rec(1).hash, rec(2).hash, rec(3).hash]);
    a.add_transaction(rec(9), 0);
    assert_eq!(hashes(&a), vec![rec(1).hash, rec(2).hash, rec(3).hash, rec(9).hash]);
}

#[test]
fn toggle_twice_restores_order() {
    let mut s = state_with_capacity(10);
    for n in 0..6 {
        s.add_transaction(rec(n), 0);
    }
    let before = hashes(&s);
    s.scroll_down();
    s.toggle_sort_order();
    assert!(!s.show_new_on_top);
    let mut reversed = before.clone();
    reversed.reverse();
    assert_eq!(hashes(&s), reversed);
    assert_eq!(s.scroll_state, ScrollState { offset: 0, selected: 0 });
    s.toggle_sort_order();
    assert!(s.show_new_on_top);
    assert_eq!(hashes(&s), before);
}

#[test]
fn viewport_follows_and_stays_in_bounds() {
    let mut s = state_with_capacity(3);
    for n in 0..3 {
        s.add_transaction(rec(n), 0);
    }
    s.jump_to_bottom();
    assert_eq!(s.scroll_state, ScrollState { offset: 0, selected: 2 });
    // The selected record is evicted: the cursor stays on the last row.
    s.add_transaction(rec(7), 0);
    assert_eq!(s.scroll_state.selected, 2);
    assert!(s.scroll_state.offset <= s.scroll_state.selected);
    s.scroll_up();
    assert_eq!(s.scroll_state.selected, 1);
    // A new record on top moves the cursor down with its record.
    let mut big = state_with_capacity(100);
    for n in 0..5 {
        big.add_transaction(rec(n), 0);
    }
    big.scroll_down();
    let viewed = big.transactions[big.scroll_state.selected].hash.clone();
    big.add_transaction(rec(50), 0);
    assert_eq!(big.transactions[big.scroll_state.selected].hash, viewed);
}

#[test]
fn paging_and_window() {
    let mut s = state_with_capacity(100);
    for n in 0..50 {
        s.add_transaction(rec(n), 0);
    }
    s.page_down();
    assert_eq!(s.scroll_state, ScrollState { offset: 0, selected: 10 });
    s.page_down();
    s.page_down();
    assert_eq!(s.scroll_state, ScrollState { offset: 11, selected: 30 });
    s.page_up();
    assert_eq!(s.scroll_state, ScrollState { offset: 11, selected: 20 });
    s.jump_to_bottom();
    assert_eq!(s.scroll_state, ScrollState { offset: 30, selected: 49 });
    s.jump_to_top();
    assert_eq!(s.scroll_state, ScrollState { offset: 0, selected: 0 });
}

#[test]
fn details_and_clear() {
    let mut s = state_with_capacity(10);
    s.show_transaction_details();
    assert!(!s.show_details);
    for n in 0..3 {
        s.add_transaction(rec(n), 0);
    }
    s.scroll_down();
    s.show_transaction_details();
    assert!(s.show_details);
    assert_eq!(s.selected_transaction.as_ref().unwrap().hash, rec(1).hash);
    s.scroll_details_down();
    s.scroll_details_page_down();
    assert_eq!(s.details_scroll_offset, 11);
    s.scroll_details_page_up();
    s.scroll_details_up();
    s.scroll_details_up();
    assert_eq!(s.details_scroll_offset, 0);
    s.clear_transactions();
    assert!(s.transactions.is_empty());
    assert!(!s.show_details);
    assert!(s.selected_transaction.is_none());
    assert_eq!(s.scroll_state, ScrollState { offset: 0, selected: 0 });
}

#[test]
fn connection_flags() {
    let mut s = state_with_capacity(10);
    s.set_error("boom".to_string());
    assert!(!s.stats.connected);
    assert_eq!(s.stats.last_error.as_deref(), Some("boom"));
    s.set_connected(false);
    assert_eq!(s.stats.last_error.as_deref(), Some("boom"));
    s.set_connected(true);
    assert!(s.stats.connected);
    assert!(s.stats.last_error.is_none());
    s.quit();
    assert!(s.should_quit);
}

#[test]
fn throughput_figures() {
    let mut config = Config::new("ws://x".to_string());
    config.max_transactions = 100;
    let mut s = AppState::new(config, 0, 1_000);
    for n in 0..30 {
        s.add_transaction(rec(n), 1_500);
    }
    assert_eq!(s.stats.transactions_per_second_tenths, 0);
    s.add_transaction(rec(99), 4_000);
    assert_eq!(s.stats.transactions_per_second_tenths, 103);
    assert_eq!(s.stats.last_perf_update_ms, 4_000);
    assert!(s.stats.memory_usage_bytes >= 31 * 500);
}

#[test]
fn filtered_positions() {
    let mut s = state_with_capacity(10);
    for n in 0..4 {
        s.add_transaction(rec(n), 0);
    }
    assert_eq!(s.filtered_indices(), vec![0, 1, 2, 3]);
    for c in format!("{:040x}", 1002).chars() {
        s.filter.add_char(c);
    }
    assert_eq!(s.filtered_indices(), vec![1]);
}

#[test]
fn settings_from_environment_texts() {
    let c = Config::load(None, None, None, None);
    assert_eq!(c.rpc_url, "wss://base-rpc.publicnode.com");
    assert_eq!(c.max_transactions, 1000);
    assert_eq!(c.reconnect_attempts, 10);
    assert_eq!(c.reconnect_delay, 5000);
    let c = Config::load(Some("ws://localhost:8545".to_string()), Some("250"), Some("+3"), Some("x1"));
    assert_eq!(c.rpc_url, "ws://localhost:8545");
    assert_eq!(c.max_transactions, 250);
    assert_eq!(c.reconnect_attempts, 3);
    assert_eq!(c.reconnect_delay, 5000);
    let c = Config::load(None, Some(""), Some("4294967296"), Some("18446744073709551615"));
    assert_eq!(c.max_transactions, 1000);
    assert_eq!(c.reconnect_attempts, 10);
    assert_eq!(c.reconnect_delay, u64::MAX);
}

#[test]
fn unsigned_parsing_matches_std() {
    for text in ["0", "42", "+7", "007", "", "+", "-1", "1a", " 1", "99999999999999999999", "18446744073709551615"] {
        assert_eq!(parse_unsigned(text, u64::MAX), text.parse::<u64>().ok(), "{text}");
    }
    assert_eq!(parse_unsigned("256", 255), None);
    assert_eq!(parse_unsigned("255", 255), Some(255));
}

#[test]
fn capacity_zero_keeps_nothing() {
    let mut s = state_with_capacity(0);
    s.add_transaction(rec(1), 0);
    assert!(s.transactions.is_empty());
    s.toggle_sort_order();
    s.add_transaction(rec(2), 0);
    assert!(s.transactions.is_empty());
    assert_eq!(s.stats.total_transactions, 2);
    assert_eq!(s.scroll_state, ScrollState { offset: 0, selected: 0 });
    let c = Config::load(None, Some("0"), None, None);
    assert_eq!(c.max_transactions, 0);
}

#[test]
fn cursor_stays_inside_window() {
    let mut s = state_with_capacity(100);
    for n in 0..60 {
        s.add_transaction(rec(n), 0);
    }
    for _ in 0..45 {
        s.scroll_down();
        assert!(s.scroll_state.offset <= s.scroll_state.selected);
        assert!(s.scroll_state.selected < s.scroll_state.offset + 20);
    }
    assert_eq!(s.scroll_state, ScrollState { offset: 26, selected: 45 });
    for n in 100..110 {
        s.add_transaction(rec(n), 0);
        assert!(s.scroll_state.selected < s.scroll_state.offset + 20);
    }
    assert_eq!(s.scroll_state, ScrollState { offset: 36, selected: 55 });
}

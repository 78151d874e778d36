use web3_tx_stream::batch::TransactionBatch;
use web3_tx_stream::event_loop::{apply_batch, EventLoop};
use web3_tx_stream::handler::{AppEvent, KeyCode, KeyEvent};
use web3_tx_stream::record::Transaction;
use web3_tx_stream::render::RenderState;
use web3_tx_stream::state::{AppState, Config};

fn rec(n: u32) -> Transaction {
    Transaction {
        hash: format!("0x{:064x}", n),
        from: format!("0x{:040x}", n),
        to: None,
        value: "0.0000".to_string(),
        gas_limit: "21000".to_string(),
        gas_price: None,
        data: "0x".to_string(),
        function_sig: None,
        timestamp: 0,
        block_number: None,
        status: None,
        gas_used: None,
        effective_gas_price: None,
    }
}

#[test]
fn ten_records_make_a_batch() {
    let mut b = TransactionBatch::new(1000);
    for n in 0..9 {
        assert!(b.add(rec(n), 1000 + n as u64).is_none());
    }
    let out = b.add(rec(9), 1020).expect("tenth record flushes");
    let got: Vec<String> = out.iter().map(|t| t.hash.clone()).collect();
    let want: Vec<String> = (0..10).map(|n| rec(n).hash).collect();
    assert_eq!(got, want);
    assert!(b.flush(1030).is_none());
}

#[test]
fn timeout_flush_drains_pending() {
    let mut b = TransactionBatch::new(0);
    assert!(b.flush_if_timeout(100).is_none());
    assert!(b.add(rec(1), 10).is_none());
    assert!(b.add(rec(2), 20).is_none());
    assert!(b.flush_if_timeout(50).is_none());
    let out = b.flush_if_timeout(51).expect("timed out");
    assert_eq!(out.len(), 2);
    assert_eq!(out[0].hash, rec(1).hash);
    assert_eq!(out[1].hash, rec(2).hash);
    assert!(b.flush_if_timeout(500).is_none());
}

#[test]
fn late_record_flushes_at_once() {
    let mut b = TransactionBatch::new(0);
    let out = b.add(rec(1), 51).expect("batch older than the timeout");
    assert_eq!(out.len(), 1);
    assert!(b.add(rec(2), 60).is_none());
    let out = b.flush(70).expect("one pending");
    assert_eq!(out[0].hash, rec(2).hash);
}

#[test]
fn render_throttle() {
    let mut r = RenderState::new(0);
    assert!(!r.should_render(10));
    assert!(r.should_render(16));
    r.mark_rendered(16);
    assert!(!r.should_render(100));
    r.request_render();
    assert!(!r.should_render(31));
    assert!(r.should_render(32));
}

#[test]
fn loop_applies_batches_in_order() {
    let mut state = AppState::new(Config::new("ws://x".to_string()), 0, 0);
    let mut lp = EventLoop::new(0);
    for n in 0..9 {
        lp.on_record(&mut state, rec(n), 1);
    }
    assert!(state.transactions.is_empty());
    lp.on_record(&mut state, rec(9), 2);
    assert_eq!(state.transactions.len(), 10);
    assert_eq!(state.transactions[0].hash, rec(9).hash);
    lp.on_record(&mut state, rec(10), 3);
    assert_eq!(state.transactions.len(), 10);
    assert!(lp.on_tick(&mut state, 60));
    assert_eq!(state.transactions.len(), 11);
    assert!(!lp.on_tick(&mut state, 70));
    lp.on_app_event(&mut state, AppEvent::Connected, 80);
    assert!(state.stats.connected);
    assert!(lp.on_tick(&mut state, 90));
    let quit = lp.on_key(&mut state, KeyEvent { code: KeyCode::Char('q'), ctrl: false, shift: false });
    assert!(!quit);
    let quit = lp.on_key(&mut state, KeyEvent { code: KeyCode::Char('y'), ctrl: false, shift: false });
    assert!(quit);
}

#[test]
fn applying_a_batch_keeps_arrival_order() {
    let mut config = Config::new("ws://x".to_string());
    config.max_transactions = 3;
    let mut state = AppState::new(config, 0, 0);
    state.toggle_sort_order();
    apply_batch(&mut state, (0..5).map(rec).collect(), 0);
    let got: Vec<String> = state.transactions.iter().map(|t| t.hash.clone()).collect();
    assert_eq!(got, vec![rec(2).hash, rec(3).hash, rec(4).hash]);
}

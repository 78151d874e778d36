use web3_tx_stream::handler::AppEvent;
use web3_tx_stream::record::Transaction;
use web3_tx_stream::supervisor::{
    lookup_event, Command, LookupOutcome, ReconnectSupervisor, SupervisorEvent, SupervisorState,
};

#[test]
fn two_failures_then_connected() {
    let mut sup = ReconnectSupervisor::new(5000);
    let mut log: Vec<String> = Vec::new();
    let events = vec![
        SupervisorEvent::Start,
        SupervisorEvent::ConnectFailed("refused".to_string()),
        SupervisorEvent::DelayElapsed,
        SupervisorEvent::ConnectFailed("refused".to_string()),
        SupervisorEvent::DelayElapsed,
        SupervisorEvent::ConnectSucceeded,
        SupervisorEvent::SubscribeSucceeded,
    ];
    for e in events {
        let (emit, command) = sup.step(e);
        match emit {
            Some(AppEvent::Disconnected(m)) => log.push(format!("disconnected: {}", m)),
            Some(AppEvent::Connected) => log.push("connected".to_string()),
            Some(_) => log.push("other".to_string()),
            None => {}
        }
        match command {
            Command::Wait(ms) => log.push(format!("wait {}", ms)),
            Command::Forward => log.push("forward".to_string()),
            _ => {}
        }
    }
    assert_eq!(
        log,
        vec![
            "disconnected: Connection error: refused",
            "wait 5000",
            "disconnected: Connection error: refused",
            "wait 5000",
            "connected",
            "forward",
        ]
    );
    assert_eq!(sup.state, SupervisorState::Streaming);
}

#[test]
fn stream_end_and_closed_receiver_both_retry() {
    let mut sup = ReconnectSupervisor::new(10);
    sup.step(SupervisorEvent::Start);
    sup.step(SupervisorEvent::ConnectSucceeded);
    let (emit, cmd) = sup.step(SupervisorEvent::SubscribeFailed("no".to_string()));
    assert!(matches!(emit, Some(AppEvent::Disconnected(ref m)) if m == "Subscription error: no"));
    assert_eq!(cmd, Command::Wait(10));
    assert_eq!(sup.step(SupervisorEvent::DelayElapsed).1, Command::Connect);
    sup.step(SupervisorEvent::ConnectSucceeded);
    sup.step(SupervisorEvent::SubscribeSucceeded);
    let (emit, cmd) = sup.step(SupervisorEvent::StreamEnded);
    assert!(matches!(emit, Some(AppEvent::Disconnected(ref m)) if m == "Stream ended"));
    assert_eq!(cmd, Command::Wait(10));
    assert_eq!(sup.step(SupervisorEvent::DelayElapsed).1, Command::Connect);
    sup.step(SupervisorEvent::ConnectSucceeded);
    assert_eq!(sup.step(SupervisorEvent::SubscribeSucceeded).1, Command::Forward);
    // Nobody reads the records any more: only this connection's forwarding ends.
    let (emit, cmd) = sup.step(SupervisorEvent::DownstreamClosed);
    assert!(emit.is_none());
    assert_eq!(cmd, Command::Wait(10));
    assert_eq!(sup.state, SupervisorState::Waiting);
    assert_eq!(sup.step(SupervisorEvent::DelayElapsed).1, Command::Connect);
    assert_eq!(sup.state, SupervisorState::Connecting);
}

#[test]
fn unexpected_events_change_nothing() {
    let mut sup = ReconnectSupervisor::new(10);
    let (emit, cmd) = sup.step(SupervisorEvent::DelayElapsed);
    assert!(emit.is_none());
    assert_eq!(cmd, Command::Nothing);
    assert_eq!(sup.state, SupervisorState::Idle);
}

#[test]
fn lookup_results_become_events() {
    let tx = Transaction {
        hash: "0x1".to_string(),
        from: "0x2".to_string(),
        to: None,
        value: "0.0000".to_string(),
        gas_limit: "0".to_string(),
        gas_price: None,
        data: "0x".to_string(),
        function_sig: None,
        timestamp: 0,
        block_number: None,
        status: None,
        gas_used: None,
        effective_gas_price: None,
    };
    assert!(matches!(lookup_event("0x1".to_string(), LookupOutcome::Found(tx)), AppEvent::TransactionFetched(_)));
    assert!(matches!(lookup_event("0x1".to_string(), LookupOutcome::NotFound), AppEvent::TransactionNotFound(ref h) if h == "0x1"));
    assert!(matches!(lookup_event("0x1".to_string(), LookupOutcome::ConnectFailed("x".to_string())), AppEvent::Disconnected(ref m) if m == "Connection error: x"));
    assert!(matches!(lookup_event("0x1".to_string(), LookupOutcome::FetchFailed("y".to_string())), AppEvent::Disconnected(ref m) if m == "Failed to fetch transaction: y"));
}

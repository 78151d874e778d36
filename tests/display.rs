use web3_tx_stream::display::{format_rpc_url, format_runtime, truncate_string, truncate_url};

#[test]
fn test_format_rpc_url() {
    assert_eq!(format_rpc_url("wss://base-rpc.publicnode.com"), "Base PublicNode");
    assert_eq!(format_rpc_url("https://base-mainnet.g.alchemy.com/v2/abc"), "Base Mainnet");
    assert_eq!(format_rpc_url("ws://localhost:8545"), "Local Node");
    assert_eq!(format_rpc_url("wss://custom.provider.com/rpc"), "custom.provider.com");
    assert_eq!(format_rpc_url("http://127.0.0.1:8545"), "Local Node");
    assert_eq!(format_rpc_url("wss://mainnet.infura.io/ws/v3/key"), "Ethereum Mainnet (Infura)");
}

#[test]
fn rpc_labels_without_scheme() {
    assert_eq!(format_rpc_url("node.example.org/path"), "node.example.org");
    assert_eq!(format_rpc_url("https://arb1.arbitrum.io/rpc"), "Arbitrum One");
    assert_eq!(format_rpc_url(""), "");
}

#[test]
fn truncation() {
    assert_eq!(truncate_string("short", 10), "short");
    assert_eq!(truncate_string("abcdefghij", 8), "abcde...");
    assert_eq!(truncate_url("wss://host.example.com/a/b"), "host.example.com");
    assert_eq!(truncate_url("wss://host.example.com"), "host.example.com");
    let long = "x".repeat(50);
    assert_eq!(truncate_url(&long), format!("{}...", "x".repeat(37)));
}

#[test]
fn runtime_text() {
    assert_eq!(format_runtime(0), "0s");
    assert_eq!(format_runtime(59), "59s");
    assert_eq!(format_runtime(61), "1m 1s");
    assert_eq!(format_runtime(3600), "1h 0m");
    assert_eq!(format_runtime(7322), "2h 2m");
}

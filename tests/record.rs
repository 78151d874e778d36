use std::borrow::Cow;
use web3_tx_stream::decoder::{decode_function, function_category, FunctionCategory};
use web3_tx_stream::record::{enhance_with_receipt, format_ether, input_data_text, parse_transaction, Transaction};

fn sample() -> Transaction {
    Transaction {
        hash: "0x123".to_string(),
        from: "0x456".to_string(),
        to: Some("0x789".to_string()),
        value: "0.5".to_string(),
        gas_limit: "21000".to_string(),
        gas_price: Some("30".to_string()),
        data: "0x".to_string(),
        function_sig: None,
        timestamp: 0,
        block_number: None,
        status: None,
        gas_used: None,
        effective_gas_price: None,
    }
}

#[test]
fn test_has_data() {
    let mut tx = sample();

    // Empty data
    assert!(!tx.has_data());

    // Has data
    tx.data = "0xa9059cbb000000000000000000000000".to_string();
    assert!(tx.has_data());

    // Empty string
    tx.data = "".to_string();
    assert!(!tx.has_data());
}

#[test]
fn test_short_methods_no_allocation() {
    let tx = sample();

    // These should not allocate for short strings
    assert!(matches!(tx.short_hash(), Cow::Borrowed(_)));
    assert!(matches!(tx.short_from(), Cow::Borrowed(_)));
    assert!(matches!(tx.short_to(), Cow::Borrowed(_)));
}

#[test]
fn short_forms_of_long_values() {
    let mut tx = sample();
    tx.hash = "0x1234567890abcdef".to_string();
    tx.from = "0xabcdef0123456789".to_string();
    tx.to = None;
    assert_eq!(tx.short_hash(), "0x1234...cdef");
    assert_eq!(tx.short_from(), "0xabcd...6789");
    assert_eq!(tx.short_to(), "Contract Creation");
    assert!(tx.is_contract_creation());
    tx.to = Some("0x00112233445566778899".to_string());
    assert_eq!(tx.short_to(), "0x0011...8899");
    assert!(!tx.is_contract_creation());
}

#[test]
fn data_preview_and_function_name() {
    let mut tx = sample();
    assert_eq!(tx.short_data(), "-");
    assert_eq!(tx.function_name(), "Unknown");
    tx.data = "0xa9059cbb0000".to_string();
    assert_eq!(tx.short_data(), "0xa9059cbb");
    tx.data = "0xabc".to_string();
    assert_eq!(tx.short_data(), "0xabc");
    tx.function_sig = decode_function("0xa9059cbb0000");
    assert_eq!(tx.function_name(), "transfer");
}

#[test]
fn decoding_selectors() {
    let sig = decode_function("0x38ed1739ffff").unwrap();
    assert_eq!(sig.selector, "0x38ed1739");
    assert_eq!(sig.name, "swapExactTokensForTokens");
    assert_eq!(decode_function("0x23b872dd").unwrap().name, "transferFrom");
    assert_eq!(decode_function("0x1cff79cd00").unwrap().name, "execute");
    assert!(decode_function("0xa9059cb").is_none());
    assert!(decode_function("0xffffffff00").is_none());
    assert!(decode_function("").is_none());
}

#[test]
fn function_categories() {
    assert_eq!(function_category("transfer"), FunctionCategory::Transfer);
    assert_eq!(function_category("swapExactETHForTokens"), FunctionCategory::Swap);
    assert_eq!(function_category("removeLiquidityETH"), FunctionCategory::Liquidity);
    assert_eq!(function_category("setApprovalForAll"), FunctionCategory::Approval);
    assert_eq!(function_category("deposit"), FunctionCategory::Mint);
    assert_eq!(function_category("exit"), FunctionCategory::Withdrawal);
    assert_eq!(function_category("bridgeERC20"), FunctionCategory::Bridge);
    assert_eq!(function_category("getReward"), FunctionCategory::Staking);
    assert_eq!(function_category("castVoteBySig"), FunctionCategory::Governance);
    assert_eq!(function_category("execute"), FunctionCategory::Governance);
    assert_eq!(function_category("Unknown"), FunctionCategory::Unknown);
}

#[test]
fn ether_formatting() {
    assert_eq!(format_ether(0), "0.0000");
    assert_eq!(format_ether(1_000_000_000_000_000_000), "1.0000");
    assert_eq!(format_ether(1_234_567_000_000_000_000), "1.2345");
    assert_eq!(format_ether(1_500_000_000_000_000), "0.001500");
    assert_eq!(format_ether(1), "0.000000");
    assert_eq!(format_ether(42_000_000_000_000_000_000), "42.0000");
}

#[test]
fn calldata_as_hex() {
    assert_eq!(input_data_text(&[]), "0x");
    assert_eq!(input_data_text(&[0xa9, 0x05, 0x9c, 0xbb, 0x0f]), "0xa9059cbb0f");
}

#[test]
fn building_and_enriching_a_record() {
    let tx = parse_transaction(
        "0xaa".to_string(),
        "0xbb".to_string(),
        None,
        2_000_000_000_000_000_000,
        21000,
        Some(30_000_000_000),
        &[0x09, 0x5e, 0xa7, 0xb3, 0x01],
        77,
    );
    assert_eq!(tx.value, "2.0000");
    assert_eq!(tx.gas_limit, "21000");
    assert_eq!(tx.gas_price.as_deref(), Some("30000000000"));
    assert_eq!(tx.data, "0x095ea7b301");
    assert_eq!(tx.function_name(), "approve");
    assert_eq!(tx.timestamp, 77);
    assert!(tx.block_number.is_none());
    let tx = enhance_with_receipt(tx, Some(12), true, 50_000, 7);
    assert_eq!(tx.block_number, Some(12));
    assert_eq!(tx.status, Some(true));
    assert_eq!(tx.gas_used.as_deref(), Some("50000"));
    assert_eq!(tx.effective_gas_price.as_deref(), Some("7"));
    assert_eq!(tx.hash, "0xaa");
}

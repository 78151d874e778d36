use web3_tx_stream::filter::{matches_lowered, FilterState, FilterStats};
use web3_tx_stream::record::Transaction;

fn record(hash: &str, from: &str, to: Option<&str>) -> Transaction {
    Transaction {
        hash: hash.to_string(),
        from: from.to_string(),
        to: to.map(|t| t.to_string()),
        value: "1.0".to_string(),
        gas_limit: "21000".to_string(),
        gas_price: Some("30".to_string()),
        data: "0x".to_string(),
        function_sig: None,
        timestamp: 0,
        block_number: None,
        status: None,
        gas_used: None,
        effective_gas_price: None,
    }
}

fn filter_with(query: &str) -> FilterState {
    let mut f = FilterState::new();
    for c in query.chars() {
        f.add_char(c);
    }
    f
}

#[test]
fn test_filter_matches() {
    let mut filter = filter_with("0x123");
    filter.activate();
    assert_eq!(filter.cursor_position(), 5);

    let tx = record("0xabc", "0x123456", Some("0x789"));

    assert!(filter.matches(&tx));
}

#[test]
fn test_filter_input_operations() {
    let mut filter = FilterState::new();

    filter.add_char('0');
    filter.add_char('x');
    assert_eq!(filter.query(), "0x");
    assert_eq!(filter.cursor_position(), 2);

    filter.move_cursor_left();
    filter.add_char('_');
    assert_eq!(filter.query(), "0_x");

    filter.delete_char_before_cursor();
    assert_eq!(filter.query(), "0x");
}

#[test]
fn empty_query_matches_every_record() {
    let filter = FilterState::new();
    assert!(filter.matches(&record("0xabc", "0xdef", None)));
    assert!(filter.matches(&record("", "", Some(""))));
}

#[test]
fn own_hash_matches_case_insensitively() {
    let hash = format!("0x{}", "AbCd".repeat(16));
    let tx = record(&hash, "0x1111", None);
    assert!(filter_with(&hash).matches(&tx));
    assert!(filter_with(&hash.to_uppercase()).matches(&tx));
    assert!(filter_with(&hash.to_lowercase()).matches(&tx));
}

#[test]
fn full_hash_query_needs_exact_match() {
    let hash = format!("0x{}", "ab".repeat(32));
    let other = format!("0x{}", "cd".repeat(32));
    let longer = format!("{}ff", hash);
    let tx = record(&longer, "0x1111", Some("0x2222"));
    let f = filter_with(&hash);
    assert!(f.is_transaction_hash());
    assert!(!f.matches(&tx));
    assert!(!filter_with(&other).matches(&record(&hash, "0x1", None)));
    // A partial query still matches the hash by substring.
    assert!(filter_with("0xabab").matches(&tx));
}

#[test]
fn recipient_and_missing_recipient() {
    let tx = record("0xaaa", "0xbbb", Some("0xC0FFEE"));
    assert!(filter_with("c0ffee").matches(&tx));
    assert!(!filter_with("c0ffee").matches(&record("0xaaa", "0xbbb", None)));
}

#[test]
fn hash_shape_detection() {
    assert!(filter_with(&format!("0x{}", "0aF9".repeat(16))).is_transaction_hash());
    assert!(!filter_with(&format!("0x{}", "0aF9".repeat(15))).is_transaction_hash());
    assert!(!filter_with(&format!("0x{}g", "0".repeat(63))).is_transaction_hash());
    assert!(!filter_with(&format!("1x{}", "0".repeat(64))).is_transaction_hash());
}

#[test]
fn lowered_rule_directly() {
    let q: Vec<char> = "abc".chars().collect();
    let h: Vec<char> = "xxabcxx".chars().collect();
    let f: Vec<char> = "zzz".chars().collect();
    assert!(matches_lowered(&q, false, &h, &f, None));
    assert!(!matches_lowered(&q, true, &h, &f, None));
    assert!(matches_lowered(&q, true, &q, &f, None));
    let t: Vec<char> = "0abc".chars().collect();
    assert!(matches_lowered(&q, true, &h, &f, Some(&t)));
}

#[test]
fn cursor_editing_bounds() {
    let mut f = filter_with("ab");
    f.move_cursor_right();
    assert_eq!(f.cursor_position(), 2);
    f.delete_char_at_cursor();
    assert_eq!(f.query(), "ab");
    f.move_cursor_to_start();
    f.move_cursor_left();
    assert_eq!(f.cursor_position(), 0);
    f.delete_char_before_cursor();
    assert_eq!(f.query(), "ab");
    f.delete_char_at_cursor();
    assert_eq!(f.query(), "b");
    f.move_cursor_to_end();
    assert_eq!(f.cursor_position(), 1);
    assert!(f.has_query());
    f.clear();
    assert!(!f.has_query());
    assert_eq!(f.cursor_position(), 0);
    f.activate();
    assert!(f.is_active());
    f.deactivate();
    assert!(!f.is_active());
}

#[test]
fn filter_stats_text() {
    assert_eq!(FilterStats::new(12, 12).display_text(), "12 transactions");
    assert_eq!(FilterStats::new(120, 7).display_text(), "7/120 transactions");
    assert_eq!(FilterStats::new(0, 0).display_text(), "0 transactions");
}

#[test]
fn query_split_at_cursor() {
    let mut f = filter_with("abcd");
    assert_eq!(f.cursor_parts(), ("abcd".to_string(), None, String::new()));
    f.move_cursor_left();
    f.move_cursor_left();
    assert_eq!(f.cursor_parts(), ("ab".to_string(), Some('c'), "d".to_string()));
    f.move_cursor_to_start();
    assert_eq!(f.cursor_parts(), (String::new(), Some('a'), "bcd".to_string()));
}

//! Names and numbers as text.

use jsonrpc_interface::text::{decimal_string, is_reserved, str_eq};

#[test]
fn decimal_string_writes_base_ten() {
    assert_eq!(decimal_string(0), "0");
    assert_eq!(decimal_string(7), "7");
    assert_eq!(decimal_string(9), "9");
    assert_eq!(decimal_string(10), "10");
    assert_eq!(decimal_string(99), "99");
    assert_eq!(decimal_string(100), "100");
    assert_eq!(decimal_string(1234567890), "1234567890");
    assert_eq!(decimal_string(usize::MAX), usize::MAX.to_string());
}

#[test]
fn str_eq_compares_characters() {
    assert!(str_eq("", ""));
    assert!(str_eq("wrapping_add", "wrapping_add"));
    assert!(!str_eq("wrapping_add", "wrapping_ade"));
    assert!(!str_eq("add", "adds"));
    assert!(!str_eq("adds", "add"));
    assert!(str_eq("größe", "größe"));
    assert!(!str_eq("große", "größe"));
}

#[test]
fn rpc_prefix_is_reserved() {
    assert!(is_reserved("rpc."));
    assert!(is_reserved("rpc.discover"));
    assert!(!is_reserved("rpc"));
    assert!(!is_reserved("rpc_discover"));
    assert!(!is_reserved("Rpc.discover"));
    assert!(!is_reserved("xrpc.discover"));
    assert!(!is_reserved(""));
    assert!(!is_reserved("é.rpc."));
}

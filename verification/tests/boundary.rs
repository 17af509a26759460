use sd_mobile_core::boundary::{safe_cstring, Callback};

#[test]
fn test_safe_cstring_strips_nulls() {
    // Test that embedded null bytes are stripped
    let input = "hello\0world\0test";
    let result = safe_cstring(input);
    assert_eq!(result.to_str(), "helloworldtest");
}

#[test]
fn test_safe_cstring_empty_string() {
    // Test empty string handling
    let result = safe_cstring("");
    assert_eq!(result.to_str(), "");
}

#[test]
fn test_safe_cstring_normal_string() {
    // Test normal string without nulls
    let input = "normal string without nulls";
    let result = safe_cstring(input);
    assert_eq!(result.to_str(), input);
}

#[test]
fn test_safe_cstring_unicode() {
    // Test unicode handling
    let input = "hello\u{1F600}world"; // Contains emoji
    let result = safe_cstring(input);
    assert_eq!(result.to_str(), input);
}

#[test]
fn test_safe_cstring_only_nulls() {
    // Test string with only null bytes
    let input = "\0\0\0";
    let result = safe_cstring(input);
    assert_eq!(result.to_str(), "");
}

#[test]
fn safe_cstring_is_idempotent() {
    let once = safe_cstring("a\0b\0\0c\0");
    let twice = safe_cstring(once.to_str());
    assert_eq!(once.to_str(), "abc");
    assert_eq!(twice.to_str(), once.to_str());
    assert_eq!(twice, once);
}

#[test]
fn safe_cstring_keeps_order_and_edges() {
    assert_eq!(safe_cstring("\0start").to_str(), "start");
    assert_eq!(safe_cstring("end\0").to_str(), "end");
    assert_eq!(safe_cstring("\u{e9}\0\u{4e2d}\0\u{1F600}").to_str(), "\u{e9}\u{4e2d}\u{1F600}");
}

#[test]
fn terminated_string_has_no_null_and_converts() {
    let text = safe_cstring("{\"a\":\"x\0y\"}");
    assert!(!text.to_str().contains('\0'));
    assert!(!text.is_empty());
    assert!(safe_cstring("\0").is_empty());
    assert_eq!(text.into_string(), String::from("{\"a\":\"xy\"}"));
}

#[test]
fn callback_is_callable_only_with_a_function() {
    assert!(!Callback { function: 0, data: 0 }.is_callable());
    assert!(!Callback { function: 0, data: 64 }.is_callable());
    assert!(Callback { function: 4096, data: 0 }.is_callable());
    assert!(Callback { function: usize::MAX, data: 8 }.is_callable());
}

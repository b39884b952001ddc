use zizmor_core::text::{extract_fenced_expression, str_contains, str_eq, str_eq_ignore_ascii_case};

#[test]
fn fenced_expression_spans() {
    assert_eq!(extract_fenced_expression("${{ foo }}"), Some((0, 10)));
    assert_eq!(extract_fenced_expression("a ${{ foo }} b"), Some((2, 12)));
    assert_eq!(extract_fenced_expression("${{}}"), Some((0, 5)));
    assert_eq!(extract_fenced_expression("plain text"), None);
    assert_eq!(extract_fenced_expression("${{ unterminated"), None);
    // A `}}` inside a single-quoted string does not close the fence.
    assert_eq!(extract_fenced_expression("${{ '}}' }}"), Some((0, 11)));
    assert_eq!(extract_fenced_expression("${{ '}} }}"), None);
}

#[test]
fn string_helpers() {
    assert!(str_eq_ignore_ascii_case("Actions", "aCTIONS"));
    assert!(!str_eq_ignore_ascii_case("actions", "action"));
    assert!(str_contains("refs/release-1", "release"));
    assert!(str_contains("abc", ""));
    assert!(!str_contains("main", "release"));
    assert!(str_eq("abc", "abc"));
    assert!(!str_eq("abc", "abd"));
}

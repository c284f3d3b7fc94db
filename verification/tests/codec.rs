use quill::codec::{format_i64, parse_i64};

#[test]
fn integers_print_and_parse_back() {
    for n in [0i64, 7, -7, 1704067200123, i64::MAX, i64::MIN] {
        let text = format_i64(n);
        assert_eq!(text, n.to_string());
        assert_eq!(parse_i64(&text), Some(n));
    }
}

#[test]
fn malformed_integers_are_refused() {
    assert_eq!(parse_i64(""), None);
    assert_eq!(parse_i64("-"), None);
    assert_eq!(parse_i64("12a"), None);
    assert_eq!(parse_i64("9223372036854775808"), None);
    assert_eq!(parse_i64("+5"), "+5".parse::<i64>().ok());
}

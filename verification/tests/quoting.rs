use singboard::quoting::ps_single_quoted;
use singboard::elevation::quote_arg;

#[test]
fn arguments_keep_backslashes_and_escape_quotes() {
    assert_eq!(quote_arg(""), "\"\"");
    assert_eq!(quote_arg("plain"), "\"plain\"");
    assert_eq!(quote_arg(r"a\\b"), r#""a\\b""#);
    assert_eq!(quote_arg(r#"a\"b"#), r#""a\\\"b""#);
    assert_eq!(quote_arg(r"end\\"), r#""end\\\\""#);
}

#[test]
fn powershell_literals_double_single_quotes() {
    assert_eq!(ps_single_quoted("it's"), "'it''s'");
    assert_eq!(ps_single_quoted(""), "''");
    assert_eq!(ps_single_quoted("''"), "''''''");
}

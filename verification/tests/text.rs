use ia_get_core::text::trim_trailing_newlines;

#[test]
fn trim_trailing_newlines_only() {
    assert_eq!(trim_trailing_newlines("secret\n".to_string()), "secret");
    assert_eq!(trim_trailing_newlines("secret\r\n".to_string()), "secret");
    assert_eq!(trim_trailing_newlines(" secret ".to_string()), " secret ");
}

#[test]
fn trim_trailing_newlines_takes_the_whole_run() {
    assert_eq!(trim_trailing_newlines("\n\u{e9}\n\r\n\r".to_string()), "\n\u{e9}");
    assert_eq!(trim_trailing_newlines("\r\n\n".to_string()), "");
    assert_eq!(trim_trailing_newlines("".to_string()), "");
    assert_eq!(trim_trailing_newlines("a\n ".to_string()), "a\n ");
}

use pizza_freak::escape::escape_default;

#[test]
fn escape_default_agrees_with_std_on_every_char() {
    let mut c = 0u32;
    while c <= 0x10ffff {
        if let Some(ch) = char::from_u32(c) {
            let text = ch.to_string();
            let expected: String = ch.escape_default().collect();
            assert_eq!(escape_default(&text), expected);
        }
        c += 1;
    }
}

#[test]
fn escape_default_on_a_line() {
    assert_eq!(escape_default("a\tb\r\n"), "a\\tb\\r\\n");
    assert_eq!(escape_default("it's \"x\\y\""), "it\\'s \\\"x\\\\y\\\"");
    assert_eq!(escape_default("❤\n!"), "\\u{2764}\\n!");
    assert_eq!(escape_default("\u{0}\u{7f}\u{10ffff}"), "\\u{0}\\u{7f}\\u{10ffff}");
    assert_eq!(escape_default(""), "");
    assert_eq!(escape_default(" ~"), " ~");
}

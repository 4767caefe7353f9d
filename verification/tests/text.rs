use remote_shell::text::{char_is_whitespace, decimal_text, same_text, trim, trim_end};

#[test]
fn whitespace_agrees_with_the_standard_library_on_every_character() {
    let mut code: u32 = 0;
    while code <= 0x10FFFF {
        if let Some(c) = char::from_u32(code) {
            assert_eq!(char_is_whitespace(c), c.is_whitespace(), "U+{:04X}", code);
        }
        code += 1;
    }
}

#[test]
fn whitespace_holds_the_listed_code_points() {
    let listed = [
        '\u{09}', '\u{0A}', '\u{0B}', '\u{0C}', '\u{0D}', ' ', '\u{85}', '\u{A0}', '\u{1680}',
        '\u{2000}', '\u{2005}', '\u{200A}', '\u{2028}', '\u{2029}', '\u{202F}', '\u{205F}',
        '\u{3000}',
    ];
    for c in listed {
        assert!(char_is_whitespace(c));
    }
    for c in ['a', '0', '/', '\u{08}', '\u{0E}', '\u{1F}', '\u{180E}', '\u{200B}', '\u{FEFF}'] {
        assert!(!char_is_whitespace(c));
    }
}

#[test]
fn trim_removes_both_ends_only() {
    assert_eq!(trim("  cd /tmp \n"), "cd /tmp");
    assert_eq!(trim("/home/user\n"), "/home/user");
    assert_eq!(trim("a  b"), "a  b");
    assert_eq!(trim("\t a \u{3000}b\r\n"), "a \u{3000}b");
}

#[test]
fn trim_of_nothing_but_whitespace_is_empty() {
    assert_eq!(trim(""), "");
    assert_eq!(trim(" "), "");
    assert_eq!(trim(" \t\r\n\u{A0}\u{2003}"), "");
}

#[test]
fn trim_keeps_text_without_outer_whitespace() {
    assert_eq!(trim("x"), "x");
    assert_eq!(trim("pwd"), "pwd");
    assert_eq!(trim("\u{e9}t\u{e9}"), "\u{e9}t\u{e9}");
}

#[test]
fn trim_agrees_with_the_standard_library() {
    let samples = [
        "",
        " ",
        "a",
        " a",
        "a ",
        " a ",
        "\n\n/var/log\n",
        "  cd   /tmp  ",
        "\u{2028}x\u{2029}",
        "\u{85}\u{A0}cd\u{1680}",
        "na\u{ef}ve \u{1F600} ",
        "\u{200B} zero width is kept \u{200B}",
    ];
    for s in samples {
        assert_eq!(trim(s), s.trim());
    }
}

#[test]
fn trim_end_removes_trailing_whitespace_only() {
    assert_eq!(trim_end("/home/user\n"), "/home/user");
    assert_eq!(trim_end("  /home/user \r\n"), "  /home/user");
    assert_eq!(trim_end("a b"), "a b");
    assert_eq!(trim_end(""), "");
    assert_eq!(trim_end(" \t\n"), "");
}

#[test]
fn trim_end_agrees_with_the_standard_library() {
    let samples = ["", " ", "a", " a", "a ", " a ", "\n/var\n\n", "\u{3000}x\u{3000}", "x\u{200B} "];
    for s in samples {
        assert_eq!(trim_end(s), s.trim_end());
    }
}

#[test]
fn same_text_compares_characters() {
    assert!(same_text("", ""));
    assert!(same_text("user@host:22", "user@host:22"));
    assert!(!same_text("user@host:22", "user@host:23"));
    assert!(!same_text("user@host:22", "user@host:2"));
    assert!(!same_text("a", ""));
    assert!(same_text("h\u{f4}te", "h\u{f4}te"));
    assert!(!same_text("h\u{f4}te", "hote"));
}

#[test]
fn decimal_text_writes_base_ten() {
    assert_eq!(decimal_text(0), "0");
    assert_eq!(decimal_text(7), "7");
    assert_eq!(decimal_text(10), "10");
    assert_eq!(decimal_text(22), "22");
    assert_eq!(decimal_text(2222), "2222");
    assert_eq!(decimal_text(10000), "10000");
    assert_eq!(decimal_text(65535), "65535");
}

#[test]
fn decimal_text_agrees_with_the_standard_library_on_every_port() {
    let mut n: u16 = 0;
    loop {
        assert_eq!(decimal_text(n), n.to_string());
        if n == u16::MAX {
            break;
        }
        n += 1;
    }
}

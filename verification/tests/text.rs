use mendel_shell::text::{str_eq, trim, white_space};

#[test]
fn white_space_agrees_with_the_standard_library_on_every_character() {
    let mut code: u32 = 0;
    while code <= 0x10FFFF {
        if let Some(c) = char::from_u32(code) {
            assert_eq!(white_space(c), c.is_whitespace(), "U+{:04X}", code);
        }
        code += 1;
    }
}

#[test]
fn trim_removes_white_space_at_both_ends_only() {
    assert_eq!(trim("  a b \t\n"), "a b");
    assert_eq!(trim("a"), "a");
    assert_eq!(trim("\u{3000}x\u{85}"), "x");
    assert_eq!(trim("é \u{2003} ü"), "é \u{2003} ü");
}

#[test]
fn trim_of_blank_text_is_empty() {
    assert_eq!(trim(""), "");
    assert_eq!(trim(" \r\n\t\u{a0}\u{2028}"), "");
}

#[test]
fn trim_agrees_with_the_standard_library() {
    let samples = [
        "",
        " ",
        "x",
        " x",
        "x ",
        "\n/Users/x/doc.md\n",
        "\u{1680}\u{2000}path with spaces\u{200a}\u{202f}\u{205f}",
        "\u{200b}zero width is kept\u{200b}",
        "\u{180e}mongolian separator is kept",
    ];
    for s in samples {
        assert_eq!(trim(s), s.trim());
    }
}

#[test]
fn str_eq_compares_contents() {
    assert!(str_eq("", ""));
    assert!(str_eq("open", "open"));
    assert!(!str_eq("open", "opem"));
    assert!(!str_eq("open", "open "));
    assert!(!str_eq("é", "e"));
    assert!(str_eq("日本語", "日本語"));
}

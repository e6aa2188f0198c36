use usfx_to_tsv::text::{is_white_space_char, trim};

#[test]
fn white_space_is_the_unicode_property() {
    let mut code: u32 = 0;
    while code <= 0x10ffff {
        if let Some(c) = char::from_u32(code) {
            assert_eq!(is_white_space_char(c), c.is_whitespace(), "U+{code:04X}");
        }
        code += 1;
    }
}

#[test]
fn white_space_characters_by_name() {
    for c in ['\t', '\n', '\u{b}', '\u{c}', '\r', ' ', '\u{85}', '\u{a0}', '\u{1680}', '\u{2000}', '\u{200a}', '\u{2028}', '\u{2029}', '\u{202f}', '\u{205f}', '\u{3000}'] {
        assert!(is_white_space_char(c), "{c:?}");
    }
    for c in ['a', '0', '^', '\u{8}', '\u{e}', '\u{1f}', '\u{200b}', '\u{180e}', '\u{feff}', '\u{2060}', '\u{84}', '\u{86}'] {
        assert!(!is_white_space_char(c), "{c:?}");
    }
}

#[test]
fn trim_removes_white_space_at_both_ends_only() {
    assert_eq!(trim("  In the beginning \n"), "In the beginning");
    assert_eq!(trim("In"), "In");
    assert_eq!(trim(" In"), "In");
    assert_eq!(trim("In "), "In");
    assert_eq!(trim("a \t b"), "a \t b");
    assert_eq!(trim("\u{3000}a\u{a0}b\u{2003}"), "a\u{a0}b");
}

#[test]
fn trim_of_white_space_alone_is_empty() {
    assert_eq!(trim(""), "");
    assert_eq!(trim(" "), "");
    assert_eq!(trim("\n"), "");
    assert_eq!(trim(" \t\r\n\u{85}\u{2028}"), "");
}

#[test]
fn trim_keeps_characters_that_only_look_blank() {
    assert_eq!(trim("\u{200b}a\u{feff}"), "\u{200b}a\u{feff}");
}

#[test]
fn trim_agrees_with_the_standard_library() {
    let samples = [
        "", " ", "a", " a", "a ", " a ", "\n\na\n\n", "\u{a0}x\u{a0}", "é ", " 创世记 ", "\t\u{1680}word\u{205f}\r",
        "a  b", "\u{e000} ", " \u{10ffff}",
    ];
    for sample in samples {
        assert_eq!(trim(sample), sample.trim(), "{sample:?}");
    }
}

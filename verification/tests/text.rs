use jokebox::text::{bool_str, decimal_string, is_whitespace, same_text, trim};

#[test]
fn decimal_string_writes_single_digits() {
    let digits = ["0", "1", "2", "3", "4", "5", "6", "7", "8", "9"];
    for n in 0u32..10 {
        assert_eq!(decimal_string(n), digits[n as usize]);
    }
}

#[test]
fn decimal_string_writes_known_numbers() {
    assert_eq!(decimal_string(10), "10");
    assert_eq!(decimal_string(42), "42");
    assert_eq!(decimal_string(100), "100");
    assert_eq!(decimal_string(1009), "1009");
    assert_eq!(decimal_string(4294967295), "4294967295");
}

#[test]
fn decimal_string_agrees_with_the_standard_library() {
    let mut n: u32 = 1;
    for _ in 0..2000 {
        assert_eq!(decimal_string(n), n.to_string());
        n = n.wrapping_mul(1664525).wrapping_add(1013904223);
    }
    for n in 0u32..1200 {
        assert_eq!(decimal_string(n), n.to_string());
    }
}

#[test]
fn bool_str_names_both_values() {
    assert_eq!(bool_str(true), "true");
    assert_eq!(bool_str(false), "false");
}

#[test]
fn is_whitespace_agrees_with_the_standard_library_on_every_character() {
    for code in 0u32..=0x10ffff {
        if let Some(c) = char::from_u32(code) {
            assert_eq!(is_whitespace(c), c.is_whitespace(), "U+{:04X}", code);
        }
    }
}

#[test]
fn trim_takes_white_space_from_both_ends_only() {
    assert_eq!(trim("  single \n"), "single");
    assert_eq!(trim("two part"), "two part");
    assert_eq!(trim("\t two  part \r\n"), "two  part");
    assert_eq!(trim(""), "");
    assert_eq!(trim(" \n\t "), "");
    assert_eq!(trim("x"), "x");
    assert_eq!(trim(" x"), "x");
    assert_eq!(trim("x "), "x");
}

#[test]
fn trim_knows_white_space_beyond_ascii() {
    assert_eq!(trim("\u{3000}twopart\u{a0}"), "twopart");
    assert_eq!(trim("\u{2003}\u{85}a\u{2028}b\u{205f}"), "a\u{2028}b");
    assert_eq!(trim("\u{200b}single"), "\u{200b}single");
    assert_eq!(trim("\u{e9}t\u{e9} "), "\u{e9}t\u{e9}");
}

#[test]
fn trim_agrees_with_the_standard_library() {
    let pieces = ["", " ", "\n", "a", "\u{3000}", "b c", "\t", "\u{1f600}", "\u{a0}", "z"];
    for first in pieces {
        for second in pieces {
            for third in pieces {
                let text = format!("{}{}{}", first, second, third);
                assert_eq!(trim(&text), text.trim(), "{:?}", text);
            }
        }
    }
}

#[test]
fn same_text_compares_characters() {
    assert!(same_text("single", "single"));
    assert!(same_text("", ""));
    assert!(!same_text("single", "Single"));
    assert!(!same_text("single", "single "));
    assert!(!same_text("single", "twopart"));
    assert!(!same_text("", "x"));
}

use heygpt::text::{
    join_words, newline_rule_applies, same_text, starts_with_newline, strip_leading_space, visible,
    white_space,
};

#[test]
fn white_space_agrees_with_the_standard_library_on_every_character() {
    let mut code: u32 = 0;
    while code <= 0x10FFFF {
        if let Some(c) = char::from_u32(code) {
            assert_eq!(white_space(c), c.is_whitespace(), "U+{:04X}", code);
        }
        code += 1;
    }
}

#[test]
fn white_space_knows_the_common_characters() {
    assert!(white_space(' '));
    assert!(white_space('\n'));
    assert!(white_space('\t'));
    assert!(white_space('\r'));
    assert!(white_space('\u{3000}'));
    assert!(!white_space('a'));
    assert!(!white_space('0'));
    assert!(!white_space('\u{200B}'));
}

#[test]
fn strip_leading_space_removes_only_the_front() {
    assert_eq!(strip_leading_space("\n\n  Hello \n"), "Hello \n");
    assert_eq!(strip_leading_space("Hello"), "Hello");
    assert_eq!(strip_leading_space(""), "");
    assert_eq!(strip_leading_space(" \t\r\n"), "");
    assert_eq!(strip_leading_space("\u{2003}\u{e9}t\u{e9}"), "\u{e9}t\u{e9}");
}

#[test]
fn strip_leading_space_agrees_with_trim_start() {
    let samples = ["", "\n", "\nHello", "  a b  ", "\u{85}\u{a0}x", "x\n", "\u{1680}\u{2028}\u{2029}\u{202f}\u{205f}z"];
    for sample in samples {
        assert_eq!(strip_leading_space(sample), sample.trim_start());
    }
}

#[test]
fn starts_with_newline_looks_at_the_first_character() {
    assert!(starts_with_newline("\n"));
    assert!(starts_with_newline("\nHello"));
    assert!(!starts_with_newline(""));
    assert!(!starts_with_newline(" \n"));
    assert!(!starts_with_newline("Hello\n"));
}

#[test]
fn visible_strips_only_while_nothing_is_kept() {
    assert_eq!(visible("", false, "\n\nHello".to_string()), "Hello");
    assert_eq!(visible("", false, "\n  Hello".to_string()), "Hello");
    assert_eq!(visible("Hi", false, "\nHello".to_string()), "\nHello");
    assert_eq!(visible("", false, "  Hello".to_string()), "  Hello");
    assert_eq!(visible("", false, "Hello\nWorld".to_string()), "Hello\nWorld");
    assert_eq!(visible("", false, "\n".to_string()), "");
}

#[test]
fn visible_strips_at_most_once() {
    assert_eq!(visible("", true, "\nHello".to_string()), "\nHello");
    assert_eq!(visible("", true, "\n".to_string()), "\n");
    assert_eq!(visible("Hi", true, "\nHello".to_string()), "\nHello");
}

#[test]
fn newline_rule_applies_needs_all_three() {
    assert!(newline_rule_applies("", false, "\nHello"));
    assert!(newline_rule_applies("", false, "\n"));
    assert!(!newline_rule_applies("", true, "\nHello"));
    assert!(!newline_rule_applies("x", false, "\nHello"));
    assert!(!newline_rule_applies("", false, " \nHello"));
    assert!(!newline_rule_applies("", false, ""));
}

#[test]
fn join_words_puts_one_space_between_words() {
    assert_eq!(join_words(&vec![]), "");
    assert_eq!(join_words(&vec!["hello".to_string()]), "hello");
    assert_eq!(
        join_words(&vec!["how".to_string(), "are".to_string(), "you?".to_string()]),
        "how are you?"
    );
    assert_eq!(join_words(&vec!["".to_string(), "x".to_string()]), " x");
}

#[test]
fn same_text_compares_characters() {
    assert!(same_text(&"[DONE]".to_string(), "[DONE]"));
    assert!(!same_text(&"[DONE] ".to_string(), "[DONE]"));
    assert!(!same_text(&"".to_string(), "[DONE]"));
}

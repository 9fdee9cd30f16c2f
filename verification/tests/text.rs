use autoloop_engine::text::{blank, decimal_text, same_text, trim, white_space};

#[test]
fn white_space_is_what_unicode_says() {
    for c in '\0'..=char::MAX {
        assert_eq!(white_space(c), c.is_whitespace(), "{c:?}");
    }
}

#[test]
fn trimming_agrees_with_the_standard_library() {
    let texts = [
        "", " ", "\n\t ", "a", " a", "a ", "  a b\t", "\u{a0}x\u{3000}", "é \u{2003}", "\u{200b}x",
    ];
    for text in texts {
        assert_eq!(trim(text), text.trim());
        assert_eq!(blank(text), text.trim().is_empty());
    }
}

#[test]
fn texts_are_the_same_to_the_letter() {
    assert!(same_text("auto", "auto"));
    assert!(same_text("", ""));
    assert!(!same_text("auto", "Auto"));
    assert!(!same_text("auto", "autoloop"));
}

#[test]
fn numbers_are_written_in_decimal() {
    for n in [0u32, 7, 9, 10, 11, 99, 100, 1_000, 65_536, 4_294_967_295] {
        assert_eq!(decimal_text(n), n.to_string());
    }
}

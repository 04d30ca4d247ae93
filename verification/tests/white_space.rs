use hi_back::text::{blank, slice_between, slice_from, white_space};

#[test]
fn white_space_agrees_with_std_on_every_char() {
    let mut code: u32 = 0;
    while code <= 0x10FFFF {
        if let Some(c) = char::from_u32(code) {
            assert_eq!(white_space(c), c.is_whitespace(), "U+{:04X}", code);
        }
        code += 1;
    }
}

#[test]
fn white_space_knows_the_common_ones() {
    assert!(white_space(' '));
    assert!(white_space('\t'));
    assert!(white_space('\n'));
    assert!(white_space('\r'));
    assert!(white_space('\u{00A0}'));
    assert!(white_space('\u{3000}'));
}

#[test]
fn white_space_turns_down_the_rest() {
    assert!(!white_space('a'));
    assert!(!white_space('0'));
    assert!(!white_space('_'));
    assert!(!white_space('\u{0008}'));
    assert!(!white_space('\u{000E}'));
    assert!(!white_space('\u{180E}'));
    assert!(!white_space('\u{200B}'));
    assert!(!white_space('\u{FEFF}'));
}

#[test]
fn blank_on_the_empty_text() {
    assert!(blank(""));
}

#[test]
fn blank_on_white_space_only() {
    assert!(blank(" "));
    assert!(blank(" \t\r\n"));
    assert!(blank("\u{2003}\u{3000} "));
}

#[test]
fn blank_sees_a_single_letter() {
    assert!(!blank("a"));
    assert!(!blank("   a"));
    assert!(!blank("a   "));
    assert!(!blank("  \u{200B}  "));
}

#[test]
fn blank_agrees_with_trim() {
    let samples = [
        "",
        " ",
        "home",
        " home",
        "\n\n",
        " \u{0085} ",
        "\u{00A0}x",
        "\u{1680}\u{2000}\u{200A}\u{2028}\u{2029}\u{202F}\u{205F}",
        "\u{200B}",
        ".",
    ];
    for s in samples {
        assert_eq!(blank(s), s.trim().is_empty(), "{:?}", s);
    }
}

#[test]
fn slice_between_cuts_by_bytes() {
    assert_eq!(slice_between("I'm Alex", 4, 8), "Alex");
    assert_eq!(slice_between("I'm Alex", 0, 3), "I'm");
    assert_eq!(slice_between("I'm Alex", 0, 8), "I'm Alex");
}

#[test]
fn slice_between_may_be_empty() {
    assert_eq!(slice_between("abc", 0, 0), "");
    assert_eq!(slice_between("abc", 2, 2), "");
    assert_eq!(slice_between("abc", 3, 3), "");
    assert_eq!(slice_between("", 0, 0), "");
}

#[test]
fn slice_between_counts_bytes_not_chars() {
    // 'é' and 'ë' take two bytes each.
    let text = "é I'm Zoë!";
    assert_eq!(slice_between(text, 7, 11), "Zoë");
    assert_eq!(slice_between(text, 0, 2), "é");
    assert_eq!(slice_between(text, 11, 12), "!");
}

#[test]
fn slice_from_gives_the_rest() {
    assert_eq!(slice_from("i am bob ", 8), " ");
    assert_eq!(slice_from("i am bob ", 9), "");
    assert_eq!(slice_from("i am bob ", 0), "i am bob ");
    assert_eq!(slice_from("I'm Zoë!", 8), "!");
}

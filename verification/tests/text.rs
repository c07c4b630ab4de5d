use agent_hooks::text::decimal_text;
use agent_hooks::text::same_text;
use agent_hooks::text::signed_decimal_text;
use agent_hooks::text::trim_text;

#[test]
fn numbers_are_written_in_decimal() {
    for n in [0, 1, 9, 10, 11, 99, 100, 101, 5_000, 4_294_967_295, u64::MAX - 1, u64::MAX] {
        assert_eq!(decimal_text(n), n.to_string());
    }
    for n in [0, 1, -1, 9, -9, 10, -10, 127, 255, -255, i32::MAX, i32::MIN] {
        assert_eq!(signed_decimal_text(n), n.to_string());
    }
    assert_eq!(signed_decimal_text(-42), "-42");
}

#[test]
fn texts_are_compared_by_their_characters() {
    for a in ["", "a", "b", "ab", "ba", "é", "e\u{301}", "越"] {
        for b in ["", "a", "b", "ab", "ba", "é", "e\u{301}", "越"] {
            assert_eq!(same_text(a, b), a == b);
        }
    }
}

#[test]
fn white_space_is_trimmed_at_both_ends_only() {
    for text in [
        "",
        " ",
        "\n",
        " \t\r\n",
        "x",
        " x",
        "x ",
        "  x y\t\tz \n",
        "\u{a0}é\u{3000}",
        "{\"decision\":\"allow\"}\n",
        "a\nb\n\n",
    ] {
        assert_eq!(trim_text(text), text.trim());
    }
    assert_eq!(trim_text("\n Hello\tworld\t\n"), "Hello\tworld");
}

#[test]
fn every_white_space_character_is_trimmed() {
    let listed = |c: u32| {
        matches!(
            c,
            0x9..=0xD
                | 0x20
                | 0x85
                | 0xA0
                | 0x1680
                | 0x2000..=0x200A
                | 0x2028
                | 0x2029
                | 0x202F
                | 0x205F
                | 0x3000
        )
    };
    for code in 0..=0x10FFFF {
        if let Some(c) = char::from_u32(code) {
            let text = String::from(c);
            assert_eq!(trim_text(&text).is_empty(), listed(code), "{code:x}");
        }
    }
}

use yeye_floating_clock::text::{push_decimal, push_decimal_pad2, take_chars, trim, white_space};
use yeye_floating_clock::weather::weather_city;

#[test]
fn trimming_removes_unicode_white_space_at_both_ends() {
    assert_eq!(weather_city("  a b  "), Ok("a b"));
    assert_eq!(weather_city("\u{85}\u{2028}x\u{205f}"), Ok("x"));
    assert_eq!(weather_city("\u{200b}x"), Ok("\u{200b}x"));
}

#[test]
fn taking_characters_counts_characters_not_bytes() {
    assert_eq!(take_chars("城市城市", 2), "城市");
    assert_eq!(take_chars("ab", 5), "ab");
    assert_eq!(take_chars("abc", 0), "");
}

#[test]
fn decimals_are_written_without_leading_zeros() {
    let mut s = String::from("n=");
    push_decimal(&mut s, 0);
    push_decimal(&mut s, 4_294_967_295);
    assert_eq!(s, "n=04294967295");
    let mut p = String::new();
    push_decimal_pad2(&mut p, 7);
    push_decimal_pad2(&mut p, 10);
    assert_eq!(p, "0710");
}

#[test]
fn trim_agrees_with_the_standard_library() {
    let samples = [
        "", " ", "  a b  ", "\u{3000}北京\u{a0}", "\u{200b}x\u{200b}", "\t\n\r\u{b}\u{c}x",
        "x\u{1680}\u{2000}\u{200a}\u{2028}\u{2029}\u{202f}\u{205f}", "\u{180e}y",
    ];
    for s in samples {
        assert_eq!(trim(s), s.trim(), "{s:?}");
    }
}

#[test]
fn white_space_agrees_with_the_standard_library() {
    for v in 0u32..0x3100 {
        if let Some(c) = char::from_u32(v) {
            assert_eq!(white_space(c), c.is_whitespace(), "{v:#x}");
        }
    }
}

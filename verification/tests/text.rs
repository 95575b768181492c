use img_extract::text::{decimal_string, trim};

#[test]
fn trim_removes_whitespace_at_both_ends() {
    assert_eq!(trim("  a b  "), "a b");
    assert_eq!(trim("\t\n\x0b\x0c\r x\u{85}\u{a0}\u{1680}\u{2000}\u{200a}\u{2028}\u{2029}\u{202f}\u{205f}\u{3000}"), "x");
    assert_eq!(trim("x"), "x");
    assert_eq!(trim(" x"), "x");
    assert_eq!(trim("x "), "x");
}

#[test]
fn trim_of_whitespace_is_empty() {
    assert_eq!(trim(""), "");
    assert_eq!(trim(" "), "");
    assert_eq!(trim(" \n\t "), "");
}

#[test]
fn trim_agrees_with_the_standard_library() {
    let samples = [
        "", " ", "a", " a", "a ", " a ", "  a  b  ", "\u{200b}a\u{200b}", "\u{feff} a", "é ", " 越 ",
        "\u{180e}x\u{180e}", "\u{1f600}  ", "  \u{1f600}",
    ];
    for sample in samples {
        assert_eq!(trim(sample), sample.trim(), "{:?}", sample);
    }
}

#[test]
fn decimal_string_writes_every_byte() {
    assert_eq!(decimal_string(0), "0");
    assert_eq!(decimal_string(7), "7");
    assert_eq!(decimal_string(9), "9");
    assert_eq!(decimal_string(10), "10");
    assert_eq!(decimal_string(42), "42");
    assert_eq!(decimal_string(99), "99");
    assert_eq!(decimal_string(100), "100");
    assert_eq!(decimal_string(101), "101");
    assert_eq!(decimal_string(110), "110");
    assert_eq!(decimal_string(255), "255");
    for n in 0..=255u8 {
        assert_eq!(decimal_string(n), n.to_string());
    }
}

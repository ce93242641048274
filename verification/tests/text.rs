use backend_supervisor::text::{
    contains, digit_value, equal, is_whitespace, lines, push_decimal, push_signed_decimal,
    starts_with, to_chars, trim,
};

fn samples() -> Vec<&'static str> {
    vec![
        "",
        " ",
        "a",
        "  a  ",
        "\t\r\n a b \n\r\t",
        "\u{a0}x\u{3000}",
        "\u{85}\u{1680}\u{2000}\u{200a}\u{2028}\u{2029}\u{202f}\u{205f}",
        "\u{200b}x\u{200b}",
        "\u{feff}x",
        "a\nb",
        "a\nb\n",
        "a\r\nb\r\n",
        "a\rb",
        "a\r",
        "a\r\r\n",
        "\n",
        "\n\n",
        "\r\n",
        "\r",
        "x\n\ny",
        "línea uno\nlínea dos\r\n\u{1F600}",
        "no newline at end",
        "KEY=value\n# comment\n\n  SPACED = yes \n",
    ]
}

#[test]
fn to_chars_keeps_every_character() {
    for s in samples() {
        assert_eq!(to_chars(s), s.chars().collect::<Vec<char>>());
    }
}

#[test]
fn whitespace_is_what_the_standard_library_trims() {
    let mut code: u32 = 0;
    while code <= 0x10FFFF {
        if let Some(c) = char::from_u32(code) {
            assert_eq!(is_whitespace(c), c.is_whitespace(), "U+{:04X}", code);
        }
        code += 1;
    }
}

#[test]
fn trim_agrees_with_the_standard_library() {
    for s in samples() {
        assert_eq!(trim(s), s.trim());
    }
    assert_eq!(trim("  hello world \n"), "hello world");
    assert_eq!(trim(" \t "), "");
}

#[test]
fn lines_agree_with_the_standard_library() {
    for s in samples() {
        let expected: Vec<String> = s.lines().map(|l| l.to_string()).collect();
        assert_eq!(lines(s), expected, "{:?}", s);
    }
}

#[test]
fn lines_on_fixed_values() {
    assert_eq!(lines(""), Vec::<String>::new());
    assert_eq!(lines("a\nb\n"), vec!["a".to_string(), "b".to_string()]);
    assert_eq!(lines("a\r\n\r\nb"), vec!["a".to_string(), "".to_string(), "b".to_string()]);
    assert_eq!(lines("tail\r"), vec!["tail\r".to_string()]);
    assert_eq!(lines("\n"), vec!["".to_string()]);
}

#[test]
fn contains_agrees_with_the_standard_library() {
    let hays = ["", "a", "node /app/dist/index.js", "aaab", "abcabd", "été été", "xyz"];
    let needles = ["", "a", "ab", "abd", "aab", "node", "/app/dist/index.js", "té é", "z", "zz"];
    for hay in hays {
        for needle in needles {
            assert_eq!(contains(hay, needle), hay.contains(needle), "{:?} in {:?}", needle, hay);
            assert_eq!(starts_with(hay, needle), hay.starts_with(needle));
            assert_eq!(equal(hay, needle), hay == needle);
        }
    }
}

#[test]
fn decimal_agrees_with_the_standard_library() {
    let values = [0u64, 1, 9, 10, 11, 99, 100, 3000, 65535, 65536, 1234567890, u64::MAX];
    for value in values {
        let mut out = String::from("n=");
        push_decimal(&mut out, value);
        assert_eq!(out, format!("n={}", value));
    }
    let signed = [0i64, 1, -1, 10, -10, 2147483647, -2147483648, i64::MAX, i64::MIN];
    for value in signed {
        let mut out = String::new();
        push_signed_decimal(&mut out, value);
        assert_eq!(out, value.to_string());
    }
    let mut out = String::new();
    push_decimal(&mut out, 3000);
    assert_eq!(out, "3000");
}

#[test]
fn digit_value_reads_the_ten_digits_only() {
    assert_eq!(digit_value('0'), Some(0));
    assert_eq!(digit_value('7'), Some(7));
    assert_eq!(digit_value('9'), Some(9));
    assert_eq!(digit_value('/'), None);
    assert_eq!(digit_value(':'), None);
    assert_eq!(digit_value('a'), None);
    assert_eq!(digit_value('\u{0663}'), None);
}

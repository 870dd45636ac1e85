use zora_bot::text::{char_is_whitespace, parse_u64, push_decimal, trim};

#[test]
fn decimal_spelling_of_numbers() {
    let mut s = String::new();
    push_decimal(&mut s, 0);
    assert_eq!(s, "0");
    let mut s = String::from("x=");
    push_decimal(&mut s, 1234567890);
    assert_eq!(s, "x=1234567890");
    let mut s = String::new();
    push_decimal(&mut s, u64::MAX);
    assert_eq!(s, "18446744073709551615");
}

#[test]
fn parse_accepts_what_std_accepts() {
    for text in ["0", "60", "+300", "007", "18446744073709551615", "", "+", "-1", "1.5", " 1", "18446744073709551616", "99999999999999999999", "12a"] {
        assert_eq!(parse_u64(text), text.parse::<u64>().ok(), "text {:?}", text);
    }
}

#[test]
fn trim_matches_std() {
    for text in ["  !check_channel \n", "\t\u{a0}x y\u{3000}", "   ", "", "abc", "\u{2028}a\u{85}", "\u{200b}a"] {
        assert_eq!(trim(text), text.trim(), "text {:?}", text);
    }
}

#[test]
fn whitespace_matches_std() {
    for code in 0u32..0x3100 {
        if let Some(c) = char::from_u32(code) {
            assert_eq!(char_is_whitespace(c), c.is_whitespace(), "char {:?}", c);
        }
    }
}

#[test]
fn decimal_then_parse_gives_number_back() {
    for n in [0u64, 1, 9, 10, 99, 100, 4096, 1_000_000_007, u64::MAX - 1, u64::MAX] {
        let mut s = String::new();
        push_decimal(&mut s, n);
        assert_eq!(parse_u64(&s), Some(n));
    }
}

#[test]
fn trimming_twice_is_trimming_once() {
    for text in ["  a b  ", "\n\t", "x", " \u{2003}!notify_this_channel\u{2003} "] {
        assert_eq!(trim(trim(text)), trim(text));
    }
}

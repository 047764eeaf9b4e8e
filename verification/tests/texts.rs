use tosub::text::{append_decimal, is_text_before, parse_u64};

fn decimal(n: u64) -> String {
    let mut out = String::new();
    append_decimal(&mut out, n);
    out
}

#[test]
fn numbers_in_decimal_notation() {
    for n in [0, 1, 9, 10, 99, 100, 1234567890, u64::MAX - 1, u64::MAX] {
        assert_eq!(decimal(n), format!("{n}"));
    }
}

#[test]
fn decimal_is_appended() {
    let mut out = "n=".to_string();
    append_decimal(&mut out, 42);
    assert_eq!(out, "n=42");
}

#[test]
fn numbers_are_read_back() {
    for n in [0, 7, 10, 65535, u64::MAX] {
        assert_eq!(parse_u64(&decimal(n)), Some(n));
    }
}

#[test]
fn reading_numbers_follows_the_standard_library() {
    let texts = [
        "", "+", "-", "0", "00", "+0", "007", "+12", "++1", "-1", "1-", " 1", "1 ", "1a", "٣",
        "18446744073709551615", "18446744073709551616", "+18446744073709551615",
        "018446744073709551615", "99999999999999999999999",
    ];
    for text in texts {
        assert_eq!(parse_u64(text), text.parse::<u64>().ok(), "{text}");
    }
}

#[test]
fn order_of_texts_follows_the_standard_library() {
    let texts = ["", "a", "A", "b", "ab", "abc", "ä", "\u{ffff}", "\u{10000}", "a/b", "a-b"];
    for a in texts {
        for b in texts {
            assert_eq!(is_text_before(a, b), a < b, "{a} {b}");
        }
    }
}

use schedule_bot::text::{contains, i64_text, last_digit, parse_i64, split};

#[test]
fn contains_finds_substrings() {
    assert!(contains("week-3", "week-"));
    assert!(contains("week", "week"));
    assert!(!contains("week", "week-"));
    assert!(!contains("week", "day"));
    assert!(contains("today", "day"));
    assert!(contains("abc", ""));
    assert!(!contains("", "a"));
}

#[test]
fn split_keeps_empty_pieces() {
    assert_eq!(split("day,123,0", ','), vec!["day", "123", "0"]);
    assert_eq!(split("", ','), vec![""]);
    assert_eq!(split("a,", ','), vec!["a", ""]);
    assert_eq!(split(",a", ','), vec!["", "a"]);
    assert_eq!(split("Пн,Вт", ','), vec!["Пн", "Вт"]);
}

#[test]
fn parse_i64_follows_std() {
    for s in ["12", "-5", "+7", "0", "007", "", "-", "+", "1a", " 1", "9223372036854775807",
        "9223372036854775808", "-9223372036854775808", "-9223372036854775809",
        "123456789012345678901234567890", "+-1", "٣"] {
        assert_eq!(parse_i64(s), s.parse::<i64>().ok(), "input {:?}", s);
    }
}

#[test]
fn i64_text_matches_display() {
    for v in [0i64, 7, -7, 10, 1234567890, i64::MAX, i64::MIN, -1] {
        assert_eq!(i64_text(v), v.to_string());
    }
}

#[test]
fn decimal_text_reads_back() {
    for v in [0i64, 42, -42, i64::MAX, i64::MIN] {
        assert_eq!(parse_i64(&i64_text(v)), Some(v));
    }
}

#[test]
fn last_digit_reads_the_final_character() {
    assert_eq!(last_digit("week-3"), Some(3));
    assert_eq!(last_digit("week-x"), None);
    assert_eq!(last_digit(""), None);
    assert_eq!(last_digit("٣"), None);
}

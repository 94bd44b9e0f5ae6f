use gamba::args::{parse_args, Flags};
use gamba::text::{
    ascii_lowercase, chars_of, i64_text, join_strings, parse_i64, parse_u64, split_whitespace,
    u64_text, white_space,
};

#[test]
fn decimal_text_of_numbers() {
    assert_eq!(u64_text(0), "0");
    assert_eq!(u64_text(7), "7");
    assert_eq!(u64_text(1234567890), "1234567890");
    assert_eq!(u64_text(u64::MAX), u64::MAX.to_string());
    assert_eq!(i64_text(-42), "-42");
    assert_eq!(i64_text(i64::MIN), i64::MIN.to_string());
    assert_eq!(i64_text(i64::MAX), i64::MAX.to_string());
}

#[test]
fn parse_i64_matches_std() {
    let cases = [
        "", "+", "-", "0", "-0", "+0", "12", "+12", "-12", "12a", " 12", "1 2", "007",
        "9223372036854775807", "9223372036854775808", "-9223372036854775808",
        "-9223372036854775809", "99999999999999999999999", "--1", "+-1", "١٢", "5k",
    ];
    for c in cases {
        assert_eq!(parse_i64(c), c.parse::<i64>().ok(), "case {:?}", c);
    }
}

#[test]
fn parse_u64_matches_std() {
    let cases = [
        "", "+", "-", "0", "-0", "+7", "-7", "18446744073709551615", "18446744073709551616",
        "12x", "439862794511450133",
    ];
    for c in cases {
        assert_eq!(parse_u64(c), c.parse::<u64>().ok(), "case {:?}", c);
    }
}

#[test]
fn decimal_round_trip_on_values() {
    for x in [0i64, 1, -1, 10, -10, 999, i64::MIN, i64::MAX, 123456789] {
        assert_eq!(parse_i64(&i64_text(x)), Some(x));
    }
    for x in [0u64, 9, 10, u64::MAX] {
        assert_eq!(parse_u64(&u64_text(x)), Some(x));
    }
}

#[test]
fn white_space_matches_std_for_every_char() {
    for u in 0u32..=0x10FFFF {
        if let Some(c) = char::from_u32(u) {
            assert_eq!(white_space(c), c.is_whitespace(), "char {:x}", u);
        }
    }
}

#[test]
fn split_matches_std() {
    let cases = [
        "", "   ", "&g 100", "  &lb   alltime  -p 3 ", "a\tb\nc", "x\u{3000}y\u{85}z",
        "héllo wörld", "\u{2003}&help\u{2003}gamble\u{2003}",
    ];
    for c in cases {
        let ours = split_whitespace(c);
        let std: Vec<&str> = c.split_whitespace().collect();
        assert_eq!(ours, std, "case {:?}", c);
    }
}

#[test]
fn ascii_lowercase_matches_std() {
    for c in ["ALLTIME", "Streak", "ÄBC", "mIxEd123", ""] {
        assert_eq!(ascii_lowercase(c), c.to_ascii_lowercase());
    }
}

#[test]
fn chars_and_join() {
    assert_eq!(chars_of("añb"), vec!['a', 'ñ', 'b']);
    let parts = vec!["a".to_string(), "bc".to_string(), "d".to_string()];
    assert_eq!(join_strings(&parts, ", "), "a, bc, d");
    assert_eq!(join_strings(&Vec::new(), ", "), "");
    assert_eq!(join_strings(&vec!["x".to_string()], "\n"), "x");
}

#[test]
fn flags_read_after_write() {
    let mut f = Flags::new();
    assert_eq!(f.get("p"), None);
    f.insert("p".to_string(), "3");
    f.insert("q".to_string(), "x");
    assert_eq!(f.get("p"), Some("3"));
    f.insert("p".to_string(), "4");
    assert_eq!(f.get("p"), Some("4"));
    assert_eq!(f.get("q"), Some("x"));
    assert_eq!(f.get("r"), None);
}

#[test]
fn args_without_flags_drop_the_command() {
    let (pos, flags) = parse_args(vec!["&g", "100", "extra"]);
    assert_eq!(pos, vec!["100", "extra"]);
    assert_eq!(flags.get("p"), None);
    let (pos, _) = parse_args(Vec::new());
    assert!(pos.is_empty());
}

#[test]
fn flags_and_their_values_are_removed() {
    let (pos, flags) = parse_args(vec!["&lb", "-p", "2"]);
    assert!(pos.is_empty());
    assert_eq!(flags.get("p"), Some("2"));
    let (pos, flags) = parse_args(vec!["&lb", "streak", "-P", "3", "x"]);
    assert_eq!(pos, vec!["streak", "x"]);
    assert_eq!(flags.get("p"), Some("3"));
    let (pos, flags) = parse_args(vec!["&lb", "-p", "2", "x", "y"]);
    assert_eq!(pos, vec!["x", "y"]);
    assert_eq!(flags.get("p"), Some("2"));
}

#[test]
fn a_later_flag_wins_and_a_trailing_flag_stays() {
    let (pos, flags) = parse_args(vec!["&g", "-p", "1", "-p", "5", "-q"]);
    assert_eq!(pos, vec!["-q"]);
    assert_eq!(flags.get("p"), Some("5"));
    assert_eq!(flags.get("q"), None);
}

#[test]
fn a_lone_dash_is_no_flag() {
    let (pos, flags) = parse_args(vec!["&g", "-", "x"]);
    assert_eq!(pos, vec!["-", "x"]);
    assert_eq!(flags.get(""), None);
}

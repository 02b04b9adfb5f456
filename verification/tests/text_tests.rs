use qrush::text::{
    joined, split_fields, format_bool, format_i64, format_u64, is_whitespace, parse_u64,
    parse_usize, split_all, split_once, str_eq, strip_prefix,
};

#[test]
fn formats_unsigned_numbers() {
    assert_eq!(format_u64(0), "0");
    assert_eq!(format_u64(7), "7");
    assert_eq!(format_u64(1234567890), "1234567890");
    assert_eq!(format_u64(u64::MAX), "18446744073709551615");
}

#[test]
fn formats_signed_numbers() {
    assert_eq!(format_i64(-42), "-42");
    assert_eq!(format_i64(0), "0");
    assert_eq!(format_i64(1704105015), "1704105015");
    assert_eq!(format_i64(i64::MIN), "-9223372036854775808");
}

#[test]
fn formats_booleans() {
    assert_eq!(format_bool(true), "true");
    assert_eq!(format_bool(false), "false");
}

#[test]
fn parses_like_std() {
    for s in ["42", "+7", "", "+", "-1", "007", "12a", " 5", "18446744073709551615", "18446744073709551616", "99999999999999999999999"] {
        assert_eq!(parse_u64(s), s.parse::<u64>().ok(), "input {:?}", s);
        assert_eq!(parse_usize(s), s.parse::<usize>().ok(), "input {:?}", s);
    }
}

#[test]
fn splits_fields_like_split_whitespace() {
    for s in ["0 * * * * *", "  a  b ", "\t x\u{3000}y\n", "", "   ", "0  */5 * * * *", "a\u{a0}b"] {
        let expected: Vec<String> = s.split_whitespace().map(|f| f.to_string()).collect();
        assert_eq!(split_fields(s), expected, "input {:?}", s);
    }
    assert!(is_whitespace('\u{2028}'));
    assert!(!is_whitespace('x'));
}

#[test]
fn splits_like_std() {
    for s in ["a,,b", "default", "", ",", "critical,default"] {
        let expected: Vec<String> = s.split(',').map(String::from).collect();
        assert_eq!(split_all(s, ','), expected, "input {:?}", s);
    }
}

#[test]
fn splits_once_at_the_first_separator() {
    assert_eq!(split_once("admin:pa:ss", ':'), Some(("admin".to_string(), "pa:ss".to_string())));
    assert_eq!(split_once("admin", ':'), None);
    assert_eq!(split_once(":x", ':'), Some((String::new(), "x".to_string())));
}

#[test]
fn strips_and_compares() {
    assert_eq!(strip_prefix("snm:cron:jobs:daily", "snm:cron:jobs:"), Some("daily"));
    assert_eq!(strip_prefix("snm:job:1", "snm:cron:jobs:"), None);
    assert_eq!(strip_prefix("ab", "abc"), None);
    assert!(str_eq("héllo", "héllo"));
    assert!(!str_eq("a", "ab"));
    assert_eq!(joined("snm:", "queue"), "snm:queue");
}

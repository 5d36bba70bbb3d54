use nanogpt_cli::json::{read_json, show_json, Json};
use nanogpt_cli::letter::{eq_ignore_case, to_ascii_lower};
use nanogpt_cli::lines::{join, lines, repeat, split_on, take_word};
use nanogpt_cli::number::{read_i32, read_unsigned, write_decimal, write_signed};
use nanogpt_cli::order::{text_leq, texts_leq};
use nanogpt_cli::search::{
    count, has, replace, replace_once, split_once, starts_with, strip_prefix, strip_suffix,
};
use nanogpt_cli::stamp::{is_earlier, show_full, show_short, Timestamp};
use nanogpt_cli::text::{is_blank, is_space, trim, trim_start};

#[test]
fn white_space_is_what_unicode_says() {
    for n in 0..=0x10ffffu32 {
        if let Some(c) = char::from_u32(n) {
            assert_eq!(is_space(c), c.is_whitespace(), "{:x}", n);
        }
    }
}

#[test]
fn trimming_goes_by_white_space() {
    for s in ["", "  ", " a b ", "\u{2003}x\u{3000}", "ab", "\n\tz", "z\r\n"] {
        assert_eq!(trim(s), s.trim());
        assert_eq!(trim_start(s), s.trim_start());
        assert_eq!(is_blank(s), s.trim().is_empty());
        assert_eq!(trim(trim(s)), trim(s));
    }
}

#[test]
fn numbers_are_written_and_read_back() {
    for n in [0u64, 7, 10, 99, 100, 65_535, u64::MAX] {
        let text = write_decimal(n);
        assert_eq!(text, n.to_string());
        assert_eq!(read_unsigned(&text, u64::MAX), Some(n));
    }
    for n in [0, 1, -1, 42, -42, i32::MAX, i32::MIN] {
        let text = write_signed(n);
        assert_eq!(text, n.to_string());
        assert_eq!(read_i32(&text), Some(n));
    }
}

#[test]
fn numbers_are_read_as_the_standard_library_reads_them() {
    for s in [
        "", "+", "-", "+5", "-5", "007", " 5", "5 ", "1_0", "x", "18446744073709551615",
        "18446744073709551616", "99999999999999999999999", "2147483647", "2147483648",
        "-2147483648", "-2147483649", "+-1", "٣",
    ] {
        assert_eq!(read_unsigned(s, u64::MAX), s.parse::<u64>().ok(), "{:?}", s);
        assert_eq!(read_i32(s), s.parse::<i32>().ok(), "{:?}", s);
    }
    assert_eq!(read_unsigned("256", 255), None);
    assert_eq!(read_unsigned("255", 255), Some(255));
}

#[test]
fn texts_are_searched() {
    assert!(starts_with("data: x", "data: "));
    assert!(!starts_with("dat", "data"));
    assert!(has("abcabc", "ca"));
    assert!(has("abc", ""));
    assert!(!has("abc", "abcd"));
    assert_eq!(strip_prefix("/models", "/"), Some("models"));
    assert_eq!(strip_prefix("models", "/"), None);
    assert_eq!(strip_suffix("x]]>", "]]>"), Some("x"));
    assert_eq!(split_once("a=b=c", "="), Some(("a", "b=c")));
    assert_eq!(split_once("abc", "="), None);
    assert_eq!(replace("aaa", "aa", "b"), "ba");
    assert_eq!(replace("é-é", "é", "e"), "e-e");
    assert_eq!(replace_once("xax", "x", "yy"), "yyax");
    assert_eq!(count("aaaa", "aa"), 2);
    assert_eq!(count("abc", "z"), 0);
}

#[test]
fn texts_are_cut_into_lines() {
    for s in ["", "a", "a\n", "a\r\nb", "a\n\nb", "\n", "\r", "a\rb\n", "x\r\r\n"] {
        let want: Vec<String> = s.lines().map(|l| l.to_string()).collect();
        assert_eq!(lines(s), want, "{:?}", s);
        let pieces: Vec<String> = s.split('\n').map(|l| l.to_string()).collect();
        assert_eq!(split_on(s, '\n'), pieces, "{:?}", s);
    }
    assert_eq!(take_word("  one two"), "one");
    assert_eq!(take_word("   "), "");
    assert_eq!(join(&vec!["a".to_string(), "b".to_string()], ", "), "a, b");
    assert_eq!(join(&vec![], ", "), "");
    assert_eq!(repeat('*', 3), "***");
}

#[test]
fn letters_are_lowered() {
    assert_eq!(to_ascii_lower("AbC É"), "abc É");
    assert!(eq_ignore_case("OFF", "off"));
    assert!(!eq_ignore_case("É", "é"));
}

#[test]
fn texts_are_ordered_by_code_point() {
    for (a, b) in [("", "a"), ("a", "ab"), ("a", "b"), ("Z", "a"), ("é", "z"), ("a", "a")] {
        assert_eq!(text_leq(a, b), a <= b);
        assert_eq!(text_leq(b, a), b <= a);
    }
    let one = vec!["a".to_string()];
    let two = vec!["a".to_string(), "b".to_string()];
    assert!(texts_leq(&one, &two));
    assert!(!texts_leq(&two, &one));
}

#[test]
fn points_in_time_are_shown() {
    let t = Timestamp { secs: 1_700_000_000, nanos: 0 };
    assert_eq!(show_short(t), "11-14 22:13");
    assert_eq!(show_full(t), "2023-11-14 22:13:20 UTC");
    let later = Timestamp { secs: 1_700_000_000, nanos: 1 };
    assert!(is_earlier(t, later));
    assert!(!is_earlier(later, t));
    assert!(!is_earlier(t, t));
    assert_eq!(show_short(Timestamp { secs: i64::MAX, nanos: 0 }), "");
}

#[test]
fn json_is_read_and_laid_out() {
    let value = read_json("{\"b\":[1,2.5,null],\"a\":{\"x\":\"y\"},\"c\":true}").unwrap();
    assert_eq!(value.get("c"), Some(&Json::Bool(true)));
    assert_eq!(value.get("b").and_then(|b| b.at(1)).and_then(|n| n.as_number()), Some("2.5"));
    assert_eq!(value.get("a").and_then(|a| a.get("x")).and_then(|x| x.as_text()), Some("y"));
    assert_eq!(value.get("z"), None);
    assert_eq!(
        show_json(&read_json("{\"a\":[1]}").unwrap()),
        "{\n  \"a\": [\n    1\n  ]\n}"
    );
    assert_eq!(value.copy(), value);
    for number in ["0.1", "123456.789e3", "-0", "1e300", "5e-324", "-7", "18446744073709551615"] {
        let once: serde_json::Value = serde_json::from_str(number).unwrap();
        let shown = show_json(&read_json(number).unwrap());
        assert_eq!(shown, serde_json::to_string_pretty(&once).unwrap());
    }
    let mut digits: u64 = 88_172_645_463_325_252;
    for _ in 0..20_000 {
        digits ^= digits << 13;
        digits ^= digits >> 7;
        digits ^= digits << 17;
        let number = format!("{}.{}e{}", digits % 10, digits, (digits % 600) as i64 - 300);
        let once: serde_json::Value = serde_json::from_str(&number).unwrap();
        assert_eq!(show_json(&read_json(&number).unwrap()), once.to_string());
    }
    assert!(read_json("{").is_none());
    assert!(read_json("1 2").is_none());
}

use minirobot::common::api::format_size;
use minirobot::text::{
    contains_chars, decimal_string, ends_with_chars, find_chars, from_chars, join_chars,
    lex_leq_chars, lines_chars, pad_left_str, pad_right_str, parse_i32_chars, parse_uint_chars,
    replace_chars, rfind_char_chars, signed_decimal_string, sort_rows, split_chars,
    starts_with_chars, to_chars, trim_chars, trim_chars_by, trim_end_matches_chars, trim_str,
    words_chars, Sep,
};

fn c(s: &str) -> Vec<char> {
    s.chars().collect()
}

fn s(v: &Vec<char>) -> String {
    v.iter().collect()
}

fn all(v: &Vec<Vec<char>>) -> Vec<String> {
    v.iter().map(s).collect()
}

#[test]
fn chars_go_both_ways() {
    assert_eq!(to_chars("héllo ✓"), c("héllo ✓"));
    assert_eq!(from_chars(&c("héllo ✓")), "héllo ✓");
    assert_eq!(from_chars(&Vec::new()), "");
}

#[test]
fn trim_is_that_of_std() {
    for text in ["", " ", "  a b \t\n", "\u{3000}x\u{a0}", "x", " \r\n", "a\u{200b}"] {
        assert_eq!(s(&trim_chars(&c(text))), text.trim());
        assert_eq!(trim_str(text), text.trim());
    }
    assert_eq!(s(&trim_chars_by(&c("\"\"a\"b\"\""), Sep::Char('"'))), "a\"b");
    assert_eq!(s(&trim_chars_by(&c("\"\""), Sep::Char('"'))), "");
}

#[test]
fn prefixes_suffixes_and_finds_are_those_of_std() {
    let cases = [("fn test_a(", "fn "), ("abc", ""), ("", ""), ("", "a"), ("ab", "abc"), ("aXbXc", "X")];
    for (text, pat) in cases {
        assert_eq!(starts_with_chars(&c(text), &c(pat)), text.starts_with(pat));
        assert_eq!(ends_with_chars(&c(text), &c(pat)), text.ends_with(pat));
        assert_eq!(contains_chars(&c(text), &c(pat)), text.contains(pat));
        assert_eq!(find_chars(&c(text), &c(pat)), text.find(pat));
    }
    assert_eq!(find_chars(&c("a test_ test_"), &c("test_")), Some(2));
    assert_eq!(rfind_char_chars(&c("::1:80"), ':'), Some(3));
    assert_eq!(rfind_char_chars(&c("none"), ':'), None);
}

#[test]
fn lines_are_those_of_std() {
    for text in ["", "a", "a\n", "a\nb", "a\r\nb\r\n", "\n\n", "a\r", "a\r\r\n", "\r\n", "x\n\ny"] {
        let want: Vec<String> = text.lines().map(|l| l.to_string()).collect();
        assert_eq!(all(&lines_chars(&c(text))), want, "{:?}", text);
    }
}

#[test]
fn words_are_those_of_std() {
    for text in ["", "  ", "a", " a  b\tc\n", "Mem:   16 8 4", "\u{3000}x"] {
        let want: Vec<String> = text.split_whitespace().map(|l| l.to_string()).collect();
        assert_eq!(all(&words_chars(&c(text))), want, "{:?}", text);
    }
}

#[test]
fn pieces_are_those_of_std() {
    for text in ["", ":", "a:b", "a::b:", "Socket(s):  2", "no colon"] {
        let want: Vec<String> = text.split(':').map(|l| l.to_string()).collect();
        assert_eq!(all(&split_chars(&c(text), Sep::Char(':'))), want, "{:?}", text);
    }
}

#[test]
fn numbers_are_read_as_std_reads_them() {
    for text in ["0", "7", "+7", "007", "255", "256", "", "+", "-1", "1 ", " 1", "1a", "++1", "99999999999999999999"] {
        assert_eq!(
            parse_uint_chars(&c(text), 255),
            text.parse::<u8>().ok().map(|n| n as u128),
            "{:?}",
            text
        );
        assert_eq!(
            parse_uint_chars(&c(text), u64::MAX as u128),
            text.parse::<u64>().ok().map(|n| n as u128),
            "{:?}",
            text
        );
    }
    assert_eq!(parse_uint_chars(&c("340282366920938463463374607431768211455"), u128::MAX), Some(u128::MAX));
    assert_eq!(parse_uint_chars(&c("340282366920938463463374607431768211456"), u128::MAX), None);
    for text in ["0", "-0", "-1", "+1", "2147483647", "2147483648", "-2147483648", "-2147483649", "-", "-+1", "+-1", "--1", ""] {
        assert_eq!(parse_i32_chars(&c(text)), text.parse::<i32>().ok(), "{:?}", text);
    }
}

#[test]
fn numbers_are_written_as_std_writes_them() {
    for n in [0u128, 9, 10, 11, 99, 100, 1024, 4294967295, u128::MAX] {
        assert_eq!(decimal_string(n), n.to_string());
    }
    for n in [0i64, -1, 1, -1024, i64::MIN, i64::MAX] {
        assert_eq!(signed_decimal_string(n), n.to_string());
    }
}

#[test]
fn replace_is_that_of_std() {
    let cases = [
        ("tests/a/b_test.rs", ".rs", ""),
        ("a.rs.rs", ".rs", ""),
        ("NAME=\"x\"", "NAME=", ""),
        ("aaa", "aa", "b"),
        ("abc", "x", "y"),
        ("", "x", "y"),
        ("xx", "x", "xx"),
        ("abc", "", "-"),
        ("", "", "-"),
        ("é✓", "", ""),
        ("a", "", "xy"),
    ];
    for (text, pat, with) in cases {
        assert_eq!(s(&replace_chars(&c(text), &c(pat), &c(with))), text.replace(pat, with));
    }
}

#[test]
fn trailing_repetitions_are_cut_as_std_cuts_them() {
    let cases = [("a_test.rs", "_test.rs"), ("a_test.rs_test.rs", "_test.rs"), ("_test.rs", "_test.rs"), ("80%%", "%"), ("80", "%"), ("", "%"), ("abc", ""), ("", "")];
    for (text, pat) in cases {
        assert_eq!(s(&trim_end_matches_chars(&c(text), &c(pat))), text.trim_end_matches(pat));
    }
}

#[test]
fn join_is_that_of_std() {
    let parts = vec![c("a"), c("b"), c(""), c("c d")];
    assert_eq!(s(&join_chars(&parts, 0, &c(" "))), "a b  c d");
    assert_eq!(s(&join_chars(&parts, 3, &c(" "))), "c d");
    assert_eq!(s(&join_chars(&parts, 4, &c(" "))), "");
}

#[test]
fn padding_is_that_of_std() {
    for text in ["", "ab", "abcd", "abcdef", "é✓"] {
        assert_eq!(pad_right_str(text, 4), format!("{:<4}", text));
        assert_eq!(pad_left_str(text, 4), format!("{:>4}", text));
    }
}

#[test]
fn dictionary_order_is_that_of_std() {
    let names = ["", "a", "ab", "b", "a_test.rs", "B", "é", "z", "a\u{10ffff}"];
    for x in names {
        for y in names {
            assert_eq!(lex_leq_chars(&c(x), &c(y)), x <= y, "{:?} {:?}", x, y);
        }
    }
}

#[test]
fn rows_are_sorted() {
    let rows = vec![c("b_test.rs"), c("a_test.rs"), c("c_test.rs"), c("a_test.rs"), c("")];
    let mut want: Vec<String> = all(&rows);
    want.sort();
    assert_eq!(all(&sort_rows(&rows)), want);
    assert_eq!(all(&sort_rows(&Vec::new())), Vec::<String>::new());
}

fn float_size(size: u64) -> String {
    let units = ["bytes", "KB", "MB", "GB", "TB"];
    let mut size = size as f64;
    let mut unit = 0;
    while size >= 1024.0 && unit < units.len() - 1 {
        size /= 1024.0;
        unit += 1;
    }
    format!("{:.0} {}", size, units[unit])
}

#[test]
fn sizes_in_words() {
    assert_eq!(format_size(0), "0 bytes");
    assert_eq!(format_size(1023), "1023 bytes");
    assert_eq!(format_size(1024), "1 KB");
    assert_eq!(format_size(1536), "2 KB");
    assert_eq!(format_size(2560), "2 KB");
    assert_eq!(format_size(1024 * 1024), "1 MB");
    assert_eq!(format_size(16 * 1024 * 1024 * 1024), "16 GB");
    assert_eq!(format_size(u64::MAX), "16777216 TB");
}

#[test]
fn sizes_in_words_are_those_of_floating_point() {
    let mut samples: Vec<u64> = vec![0, 1, 511, 512, 1023, 1024, 1025, 1535, 1536, 1537, 2559, 2560, 2561, 3584];
    for shift in 10..64u32 {
        let p = 1u64 << shift;
        for d in [0u64, 1, 2, 3, 511, 512, 513, 1023] {
            samples.push(p.wrapping_sub(d));
            samples.push(p.wrapping_add(d));
            samples.push((p / 2).wrapping_mul(3).wrapping_add(d));
            samples.push((p / 2).wrapping_mul(5).wrapping_sub(d));
        }
    }
    samples.push(u64::MAX);
    samples.push(u64::MAX - 1023);
    samples.push((1u64 << 53) + 1);
    samples.push((1u64 << 54) + 2);
    samples.push((1u64 << 54) + 6);
    let mut x: u64 = 0x9e3779b97f4a7c15;
    for _ in 0..20000 {
        x ^= x << 13;
        x ^= x >> 7;
        x ^= x << 17;
        samples.push(x);
        samples.push(x >> (x % 64));
    }
    for size in samples {
        assert_eq!(format_size(size), float_size(size), "{}", size);
    }
}

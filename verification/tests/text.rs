use cbar::luaapi::utf8;
use cbar::number::{hex_digit, parse_hex, push_decimal, push_hex};
use cbar::text::{
    char_is_whitespace, chars_eq, chars_of, find_in, split_at_first, str_eq, trim_end,
};

#[test]
fn chars_are_copied() {
    assert_eq!(chars_of("aé日"), vec!['a', 'é', '日']);
    assert_eq!(chars_of(""), Vec::<char>::new());
}

#[test]
fn finds_the_leftmost_occurrence() {
    let hay = chars_of("a>>b>>c");
    assert_eq!(find_in(&hay, &chars_of(">>")), Some(1));
    assert_eq!(find_in(&hay, &chars_of("c")), Some(6));
    assert_eq!(find_in(&hay, &chars_of("d")), None);
    assert_eq!(find_in(&hay, &chars_of("")), Some(0));
    assert_eq!(find_in(&chars_of(""), &chars_of("")), Some(0));
    assert_eq!(find_in(&chars_of(">"), &chars_of(">>")), None);
    assert_eq!(find_in(&chars_of("a>b>>"), &chars_of(">>")), Some(3));
}

#[test]
fn splits_once() {
    assert_eq!(split_at_first("a,b,c", ","), Some(("a", "b,c")));
    assert_eq!(split_at_first(",", ","), Some(("", "")));
    assert_eq!(split_at_first("abc", ","), None);
    assert_eq!(split_at_first("é>>日>>x", ">>"), Some(("é", "日>>x")));
    assert_eq!(split_at_first(">>>", ">>"), Some(("", ">")));
}

#[test]
fn compares_texts() {
    assert!(str_eq("abc", "abc"));
    assert!(str_eq("", ""));
    assert!(!str_eq("abc", "abd"));
    assert!(!str_eq("abc", "ab"));
    assert!(!str_eq("ab", "abc"));
    assert!(chars_eq(&chars_of("abc"), "abc"));
    assert!(!chars_eq(&chars_of("abc"), "ab"));
    assert!(!chars_eq(&chars_of("ab"), "abc"));
    assert!(!chars_eq(&chars_of("abc"), "abx"));
    assert!(chars_eq(&chars_of(""), ""));
}

#[test]
fn white_space_is_what_the_standard_library_says() {
    for code in 0..=0x10FFFFu32 {
        if let Some(c) = char::from_u32(code) {
            assert_eq!(char_is_whitespace(c), c.is_whitespace(), "U+{:04X}", code);
        }
    }
}

#[test]
fn trims_the_end_only() {
    assert_eq!(trim_end("abc\n"), "abc");
    assert_eq!(trim_end("abc\r\n"), "abc");
    assert_eq!(trim_end("  abc \t \u{3000}"), "  abc");
    assert_eq!(trim_end("\n\n"), "");
    assert_eq!(trim_end(""), "");
    assert_eq!(trim_end("abc"), "abc");
    assert_eq!(trim_end("a b\u{a0}"), "a b");
}

#[test]
fn reads_hexadecimal_digits() {
    assert_eq!(hex_digit('0'), Some(0));
    assert_eq!(hex_digit('9'), Some(9));
    assert_eq!(hex_digit('a'), Some(10));
    assert_eq!(hex_digit('f'), Some(15));
    assert_eq!(hex_digit('A'), Some(10));
    assert_eq!(hex_digit('F'), Some(15));
    assert_eq!(hex_digit('g'), None);
    assert_eq!(hex_digit('G'), None);
    assert_eq!(hex_digit('/'), None);
    assert_eq!(hex_digit(':'), None);
    assert_eq!(hex_digit('@'), None);
    assert_eq!(hex_digit('`'), None);
    assert_eq!(hex_digit('٣'), None);
}

#[test]
fn reads_hexadecimal_numbers_as_the_standard_library_does() {
    let tokens = [
        "", "+", "-", "0", "00", "ff", "FF", "fF", "+ff", "-ff", "++1", "+-1", "0x1", "1 ", " 1",
        "1_0", "g", "ffffffffffffffff", "10000000000000000", "0000000000000000000001",
        "+ffffffffffffffff", "fffffffffffffffff", "７",
    ];
    for token in tokens {
        assert_eq!(parse_hex(token), usize::from_str_radix(token, 16).ok(), "{:?}", token);
    }
}

#[test]
fn writes_numbers() {
    for n in [0usize, 1, 9, 10, 15, 16, 255, 256, 4095, 0xdead_beef, usize::MAX] {
        let mut hex = String::from("x");
        push_hex(&mut hex, n);
        assert_eq!(hex, format!("x{:x}", n));
        let mut dec = String::from("y");
        push_decimal(&mut dec, n);
        assert_eq!(dec, format!("y{}", n));
        assert_eq!(parse_hex(&hex[1..]), Some(n));
    }
}

#[test]
fn counts_characters() {
    assert_eq!(utf8::len(""), 0);
    assert_eq!(utf8::len("abc"), 3);
    assert_eq!(utf8::len("aé日🙂"), 4);
}

fn reference_sub(s: &str, begin: usize, end: Option<usize>) -> Option<String> {
    let mut indices = s.char_indices();
    let end = end.unwrap_or(usize::MAX);
    if begin > end {
        Some(String::new())
    } else {
        let begin = indices.nth(begin.checked_sub(1)?).map_or(s.len(), |x| x.0);
        let end = indices.nth(end.checked_sub(begin)?).map_or(s.len(), |x| x.0);
        Some(s[begin..end].to_string())
    }
}

#[test]
fn cuts_by_character_positions() {
    assert_eq!(utf8::sub("hello", 1, None), Some("hello".to_string()));
    assert_eq!(utf8::sub("hello", 2, None), Some("ello".to_string()));
    assert_eq!(utf8::sub("hello", 1, Some(1)), Some("he".to_string()));
    assert_eq!(utf8::sub("hello", 2, Some(3)), Some("ell".to_string()));
    assert_eq!(utf8::sub("hello", 3, Some(2)), Some(String::new()));
    assert_eq!(utf8::sub("hello", 0, Some(2)), None);
    assert_eq!(utf8::sub("hello", 0, None), None);
    assert_eq!(utf8::sub("hello", 6, None), Some(String::new()));
    assert_eq!(utf8::sub("hello", 9, Some(9)), Some(String::new()));
    assert_eq!(utf8::sub("", 1, None), Some(String::new()));
    assert_eq!(utf8::sub("日本語", 2, None), Some("本語".to_string()));
    assert_eq!(utf8::sub("日本語", 3, Some(3)), None);
    assert_eq!(utf8::sub("日本語", 2, Some(3)), Some("本".to_string()));
    assert_eq!(utf8::sub("日本語", 1, Some(1)), Some("日本".to_string()));
}

#[test]
fn cuts_as_the_iterator_does() {
    for s in ["", "a", "hello", "日本語", "aé日🙂z", "éé"] {
        for begin in 0..8 {
            for end in [None, Some(0), Some(1), Some(2), Some(3), Some(5), Some(9), Some(usize::MAX)] {
                assert_eq!(
                    utf8::sub(s, begin, end),
                    reference_sub(s, begin, end),
                    "{:?} {} {:?}",
                    s,
                    begin,
                    end
                );
            }
        }
    }
}

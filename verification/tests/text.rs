use gpg_tui::text::{
    chars_of, copy_of, copy_strings, copy_strings_range, decimal_string, find_char,
    hexadecimal_string, join, join_from, lines, parse_u16, rfind_char, split, split_whitespace,
    starts_with_char, str_eq, string_of, string_of_range, to_ascii_lowercase, trim, widest_line,
};

fn strings(items: &[&str]) -> Vec<String> {
    items.iter().map(|v| v.to_string()).collect()
}

#[test]
fn test_split_whitespace() {
    assert_eq!(strings(&["a", "bc", "d"]), split_whitespace("  a\tbc\u{a0}\n d "));
    assert_eq!(Vec::<String>::new(), split_whitespace(""));
    assert_eq!(Vec::<String>::new(), split_whitespace(" \u{3000} \r\n"));
    assert_eq!(strings(&["äöü"]), split_whitespace("äöü"));
    assert_eq!(
        "x  y z".split_whitespace().map(String::from).collect::<Vec<_>>(),
        split_whitespace("x  y z")
    );
}

#[test]
fn test_join() {
    assert_eq!("", join(&Vec::new(), ", "));
    assert_eq!("a", join(&strings(&["a"]), ", "));
    assert_eq!("a, b, ", join(&strings(&["a", "b", ""]), ", "));
    assert_eq!("b c", join_from(&strings(&["a", "b", "c"]), 1, " "));
    assert_eq!("", join_from(&strings(&["a"]), 1, " "));
    assert_eq!("", join_from(&strings(&["a"]), 9, " "));
}

#[test]
fn test_lines() {
    assert_eq!(strings(&["a", "", "b"]), lines("a\n\nb"));
    assert_eq!(strings(&["a", "b"]), lines("a\r\nb\n"));
    assert_eq!(strings(&["", "a\rb", "c\r"]), lines("\na\rb\nc\r"));
    assert_eq!(strings(&["\r", ""]), lines("\r\r\n\n"));
    assert_eq!(Vec::<String>::new(), lines(""));
    for text in ["", "\n", "a", "a\n", "\r\n\r", "x\r\n\ny\r", "ä\n\n\n"] {
        assert_eq!(
            text.lines().map(String::from).collect::<Vec<_>>(),
            lines(text),
            "{:?}",
            text
        );
    }
    assert_eq!(3, widest_line(&strings(&["a", "äöü", "xy"])));
    assert_eq!(0, widest_line(&Vec::new()));
}

#[test]
fn test_trim_and_split() {
    assert_eq!("a b", trim(" \t a b\u{2003}\n"));
    assert_eq!("", trim(""));
    assert_eq!("", trim(" \n "));
    assert_eq!("x", trim("x"));
    assert_eq!(strings(&["a", "", "b", ""]), split("a,,b,", ','));
    assert_eq!(strings(&[""]), split("", ','));
    assert_eq!(strings(&["q"]), split("q", ','));
    assert_eq!(strings(&["q", "C-c/d", "escape"]), split("q,C-c/d,escape", ','));
}

#[test]
fn test_numbers() {
    assert_eq!("0", decimal_string(0));
    assert_eq!("10", decimal_string(10));
    assert_eq!("18446744073709551615", decimal_string(u64::MAX));
    assert_eq!("0", hexadecimal_string(0));
    assert_eq!("1f", hexadecimal_string(31));
    assert_eq!("ffffffffffffffff", hexadecimal_string(u64::MAX));
    assert_eq!(Some(0), parse_u16("0"));
    assert_eq!(Some(65535), parse_u16("65535"));
    assert_eq!(Some(7), parse_u16("+007"));
    assert_eq!(Some(65535), parse_u16("0000065535"));
    for text in ["", "+", "-1", "65536", "99999999999999999999", "1 ", " 1", "1a", "١", "++1"] {
        assert_eq!(None, parse_u16(text), "{:?}", text);
        assert_eq!(text.parse::<u16>().ok(), parse_u16(text));
    }
}

#[test]
fn test_characters() {
    let chars = chars_of("aäb/c/");
    assert_eq!(vec!['a', 'ä', 'b', '/', 'c', '/'], chars);
    assert_eq!("aäb/c/", string_of(&chars));
    assert_eq!("äb", string_of_range(&chars, 1, 3));
    assert_eq!("", string_of_range(&chars, 2, 2));
    assert_eq!(Some(3), find_char(&chars, '/'));
    assert_eq!(Some(5), rfind_char(&chars, '/'));
    assert_eq!(None, find_char(&chars, 'x'));
    assert_eq!(None, rfind_char(&Vec::new(), 'x'));
    assert!(str_eq("ä", "ä") && !str_eq("a", "ä") && !str_eq("", "a"));
    assert!(starts_with_char(":x", ':') && !starts_with_char("", ':'));
    assert_eq!("abc-äÄ", to_ascii_lowercase("AbC-äÄ"));
    assert_eq!("x", copy_of("x"));
    let all = strings(&["a", "b", "c"]);
    assert_eq!(all, copy_strings(&all));
    assert_eq!(strings(&["b"]), copy_strings_range(&all, 1, 2));
}

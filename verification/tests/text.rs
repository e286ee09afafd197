use b2bua::text::{
    chars_of, contains, format_decimal, format_socket, lines, parse_u16, replace, starts_with,
    text_of, trim, white_space, words,
};

fn strings(parts: Vec<Vec<char>>) -> Vec<String> {
    parts.iter().map(text_of).collect()
}

const SAMPLES: [&str; 22] = [
    "",
    "\n",
    "\r\n",
    "\r",
    "a",
    "a\n",
    "a\r\n",
    "a\r",
    "a\r\r\n",
    "a\n\nb",
    "a\nb\r",
    "\n\r\n\n",
    " a ",
    "\ta\u{a0}b\u{3000}",
    "a  b\u{2003}c",
    "  ",
    "\u{85}x\u{2028}y",
    "é ü\nş",
    "one two  three\n",
    "\u{200b}x\u{200b}",
    "m=audio 1 2 3",
    "x\u{b}y\u{c}z",
];

#[test]
fn white_space_is_that_of_unicode() {
    for code in 0..=0x10ffffu32 {
        if let Some(c) = char::from_u32(code) {
            assert_eq!(white_space(c), c.is_whitespace(), "{:x}", code);
        }
    }
}

#[test]
fn lines_words_and_trim_are_those_of_str() {
    for s in SAMPLES {
        let v = chars_of(s);
        let expected: Vec<String> = s.lines().map(|l| l.to_string()).collect();
        assert_eq!(strings(lines(&v)), expected, "{:?}", s);
        let expected: Vec<String> = s.split_whitespace().map(|l| l.to_string()).collect();
        assert_eq!(strings(words(&v)), expected, "{:?}", s);
        assert_eq!(text_of(&trim(&v)), s.trim(), "{:?}", s);
    }
}

#[test]
fn ports_are_parsed_as_by_str() {
    for s in [
        "", "+", "-", "0", "00", "+0", "-0", "7", "65535", "65536", "99999999999999999999", "+5060",
        "++1", "1+", " 1", "1 ", "1_0", "0x10", "000065535", "٣", "12a", "655350",
    ] {
        assert_eq!(parse_u16(&chars_of(s)), s.parse::<u16>().ok(), "{:?}", s);
    }
}

#[test]
fn numbers_are_written_in_base_ten() {
    for n in [0u32, 1, 9, 10, 11, 99, 100, 5060, 65535, 86400, u32::MAX] {
        assert_eq!(format_decimal(n), n.to_string());
    }
    assert_eq!(format_socket("10.0.0.1", 30000), "10.0.0.1:30000");
}

#[test]
fn every_port_reads_back() {
    for n in 0..=u16::MAX {
        let text = format_decimal(n as u32);
        assert_eq!(parse_u16(&chars_of(&text)), Some(n));
    }
}

#[test]
fn patterns_are_found_and_replaced_as_by_str() {
    for s in ["", "http", "http://", "http://a", "xhttp://http://y", "hhttp://", "http:/", "ahttp"] {
        let v = chars_of(s);
        assert_eq!(starts_with(&v, "http://"), s.starts_with("http://"));
        assert_eq!(contains(&v, "http://"), s.contains("http://"));
        assert_eq!(text_of(&replace(&v, "http://", "https://")), s.replace("http://", "https://"));
    }
    assert!(contains(&chars_of("abc"), ""));
    assert_eq!(text_of(&replace(&chars_of("aaa"), "aa", "b")), "aaa".replace("aa", "b"));
}

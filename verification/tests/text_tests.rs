use wark::judger::io_fast::normalize;
use wark::text::{
    chars_of, decimal_string, first_word_of, is_whitespace, join_lines, parse_decimal, remove_all,
    split_lines, trim, trim_end, trim_start,
};

fn chars(text: &str) -> Vec<char> {
    text.chars().collect()
}

fn text(chars: &[char]) -> String {
    chars.iter().collect()
}

fn samples() -> Vec<&'static str> {
    vec![
        "",
        "\n",
        "\n\n",
        "a",
        "a\n",
        "a\nb",
        "a\nb\n",
        "a\r\nb\r\n",
        "a\r\r\nb",
        "a\rb\n",
        "abc\r",
        "  hello  \n  world  \n",
        "\n\n  x \t\n\n",
        "\t\ttabs\t\t\nspaces   \n\n\n",
        "trailing\u{a0}\nnb\u{2003}space\u{3000}\n",
        "\u{feff}bom\n",
        "caf\u{e9}\n\u{1f600}  \n",
        " \n \n ",
        "\r\n\r\n",
        "x\u{85}\ny\u{2028}z\u{2029}",
        "1 2 3\n4 5 6\n",
        "no newline at all",
        "\u{b}vertical\u{c}\n",
    ]
}

#[test]
fn numbers_are_written_in_decimal() {
    assert_eq!(decimal_string(0), "0");
    assert_eq!(decimal_string(7), "7");
    assert_eq!(decimal_string(10), "10");
    assert_eq!(decimal_string(2048), "2048");
    assert_eq!(decimal_string(1_000_000_001), "1000000001");
    assert_eq!(decimal_string(u64::MAX), "18446744073709551615");
}

#[test]
fn decimal_agrees_with_the_standard_library() {
    let mut n: u64 = 1;
    for _ in 0..64 {
        for m in [n - 1, n, n + 1] {
            assert_eq!(decimal_string(m), m.to_string());
        }
        n = n.wrapping_mul(2).max(2);
    }
    for m in 0..2000u64 {
        assert_eq!(decimal_string(m), m.to_string());
    }
}

#[test]
fn white_space_is_what_the_standard_library_calls_so() {
    for code in 0..=0x10ffffu32 {
        if let Some(c) = char::from_u32(code) {
            assert_eq!(is_whitespace(c), c.is_whitespace(), "U+{:04X}", code);
        }
    }
}

#[test]
fn the_characters_of_a_text_are_kept() {
    for sample in samples() {
        assert_eq!(chars_of(sample), chars(sample));
    }
}

#[test]
fn trimming_agrees_with_the_standard_library() {
    for sample in samples() {
        let given = chars(sample);
        assert_eq!(text(&trim_end(&given)), sample.trim_end(), "{:?}", sample);
        assert_eq!(text(&trim_start(&given)), sample.trim_start(), "{:?}", sample);
        assert_eq!(text(&trim(&given)), sample.trim(), "{:?}", sample);
    }
}

#[test]
fn a_text_has_one_more_line_than_newlines() {
    assert_eq!(split_lines(&chars("")), vec![chars("")]);
    assert_eq!(split_lines(&chars("a")), vec![chars("a")]);
    assert_eq!(split_lines(&chars("a\n")), vec![chars("a"), chars("")]);
    assert_eq!(split_lines(&chars("a\n\nb")), vec![chars("a"), chars(""), chars("b")]);
    assert_eq!(split_lines(&chars("\n")), vec![chars(""), chars("")]);
    assert_eq!(split_lines(&chars("a\r\nb")), vec![chars("a\r"), chars("b")]);
}

#[test]
fn joining_puts_a_newline_between_the_pieces() {
    assert_eq!(text(&join_lines(&vec![])), "");
    assert_eq!(text(&join_lines(&vec![chars("a")])), "a");
    assert_eq!(text(&join_lines(&vec![chars("a"), chars("b")])), "a\nb");
    assert_eq!(text(&join_lines(&vec![chars(""), chars(""), chars("c")])), "\n\nc");
    assert_eq!(text(&join_lines(&vec![chars("a"), chars("")])), "a\n");
}

#[test]
fn splitting_and_joining_give_the_text_back() {
    for sample in samples() {
        assert_eq!(text(&join_lines(&split_lines(&chars(sample)))), sample);
    }
}

#[test]
fn normalizing_strips_line_ends_and_the_whole() {
    assert_eq!(normalize("hello\n"), "hello");
    assert_eq!(normalize("  a  \n b \n\n"), "a\n b");
    assert_eq!(normalize("1 2 3   \r\n4 5 6\t\r\n"), "1 2 3\n4 5 6");
    assert_eq!(normalize("\n\n x\n\n y \n\n"), "x\n\n y");
    assert_eq!(normalize(""), "");
    assert_eq!(normalize(" \n \n"), "");
}

#[test]
fn normalizing_agrees_with_the_standard_library() {
    for sample in samples() {
        let expected = sample
            .lines()
            .map(|line| line.trim_end())
            .collect::<Vec<_>>()
            .join("\n")
            .trim()
            .to_string();
        assert_eq!(normalize(sample), expected, "{:?}", sample);
    }
}

#[test]
fn decimal_numbers_are_read() {
    assert_eq!(parse_decimal("0", u64::MAX), Some(0));
    assert_eq!(parse_decimal("33000", 0xffff), Some(33000));
    assert_eq!(parse_decimal("+42", 100), Some(42));
    assert_eq!(parse_decimal("007", 100), Some(7));
    assert_eq!(parse_decimal("65535", 0xffff), Some(65535));
    assert_eq!(parse_decimal("18446744073709551615", u64::MAX), Some(u64::MAX));
}

#[test]
fn what_is_no_decimal_number_is_not_read() {
    for text in ["", "+", "-1", "-0", " 1", "1 ", "1_000", "0x10", "12a", "++1", "1.0", "\u{663}"] {
        assert_eq!(parse_decimal(text, u64::MAX), None, "{:?}", text);
    }
}

#[test]
fn a_number_above_the_maximum_is_not_read() {
    assert_eq!(parse_decimal("65536", 0xffff), None);
    assert_eq!(parse_decimal("4294967296", 0xffff_ffff), None);
    assert_eq!(parse_decimal("18446744073709551616", u64::MAX), None);
    assert_eq!(parse_decimal("99999999999999999999999999", u64::MAX), None);
    assert_eq!(parse_decimal("000000000000000000000000000001", 1), Some(1));
}

#[test]
fn reading_agrees_with_the_standard_library() {
    let texts = [
        "", "0", "1", "+1", "-1", "+", "-", "00", "+00012", "255", "256", "65535", "65536",
        "4294967295", "4294967296", "18446744073709551615", "18446744073709551616", "1e3", " 7",
        "7 ", "١٢٣", "12345678901234567890", "0000000000000000000000000000000065535",
    ];
    for text in texts {
        assert_eq!(parse_decimal(text, u64::MAX), text.parse::<u64>().ok(), "{:?}", text);
        assert_eq!(
            parse_decimal(text, u32::MAX as u64),
            text.parse::<u32>().ok().map(u64::from),
            "{:?}",
            text
        );
        assert_eq!(
            parse_decimal(text, u16::MAX as u64),
            text.parse::<u16>().ok().map(u64::from),
            "{:?}",
            text
        );
    }
}

#[test]
fn every_occurrence_of_a_pattern_is_taken_out() {
    assert_eq!(remove_all("Bearer abc", "Bearer "), "abc");
    assert_eq!(remove_all("abc", "Bearer "), "abc");
    assert_eq!(remove_all("Bearer Bearer abc", "Bearer "), "abc");
    assert_eq!(remove_all("xBearer yBearer ", "Bearer "), "xy");
    assert_eq!(remove_all("Bearer", "Bearer "), "Bearer");
    assert_eq!(remove_all("", "Bearer "), "");
    assert_eq!(remove_all("aaa", "aa"), "a");
    assert_eq!(remove_all("BeaBearer rer x", "Bearer "), "Bearer x");
}

#[test]
fn taking_out_agrees_with_the_standard_library() {
    let texts = [
        "", "Bearer ", "Bearer token", "bearer token", "Bearer  token", "tokenBearer ",
        "BearBearer er ", "aaaa", "abababa", "caf\u{e9} Bearer \u{1f600}",
    ];
    for text in texts {
        for pattern in ["Bearer ", "a", "aa", "aba", "\u{e9} "] {
            assert_eq!(remove_all(text, pattern), text.replace(pattern, ""), "{:?}", text);
        }
    }
}

#[test]
fn the_first_word_skips_leading_white_space() {
    assert_eq!(first_word_of("  two words"), "two");
    assert_eq!(first_word_of("one"), "one");
    assert_eq!(first_word_of("\n\t"), "");
}

fn words(alphabet: &[char], longest: usize) -> Vec<String> {
    let mut all = vec![String::new()];
    let mut last = vec![String::new()];
    for _ in 0..longest {
        let mut next = Vec::new();
        for word in &last {
            for c in alphabet {
                let mut longer = word.clone();
                longer.push(*c);
                next.push(longer);
            }
        }
        all.extend(next.iter().cloned());
        last = next;
    }
    all
}

#[test]
fn normalizing_agrees_with_the_standard_library_on_every_short_text() {
    for text in words(&[' ', '\n', '\r', 'a', '\u{a0}', '\t'], 6) {
        let expected = text
            .lines()
            .map(|line| line.trim_end())
            .collect::<Vec<_>>()
            .join("\n")
            .trim()
            .to_string();
        assert_eq!(normalize(&text), expected, "{:?}", text);
    }
}

#[test]
fn reading_agrees_with_the_standard_library_on_every_short_text() {
    for text in words(&['+', '-', '0', '2', '5', '9', ' '], 5) {
        assert_eq!(
            parse_decimal(&text, u8::MAX as u64),
            text.parse::<u8>().ok().map(u64::from),
            "{:?}",
            text
        );
        assert_eq!(
            parse_decimal(&text, u16::MAX as u64),
            text.parse::<u16>().ok().map(u64::from),
            "{:?}",
            text
        );
    }
}

#[test]
fn taking_out_agrees_with_the_standard_library_on_every_short_text() {
    let patterns = words(&['a', 'b'], 3);
    for text in words(&['a', 'b', 'c'], 7) {
        for pattern in patterns.iter().filter(|pattern| !pattern.is_empty()) {
            assert_eq!(remove_all(&text, pattern), text.replace(pattern.as_str(), ""));
        }
    }
}

#[test]
fn the_first_word_agrees_with_the_standard_library_on_every_short_text() {
    for text in words(&[' ', '\n', 'a', 'b', '\u{3000}'], 6) {
        let expected = text.split_whitespace().next().unwrap_or("");
        assert_eq!(first_word_of(&text), expected, "{:?}", text);
    }
}

#[test]
fn what_was_written_in_decimal_is_read_back() {
    for n in (0..5000u64).chain([u64::MAX, u64::MAX - 1, 1 << 32, 999_999_999_999]) {
        assert_eq!(parse_decimal(&decimal_string(n), u64::MAX), Some(n));
    }
}

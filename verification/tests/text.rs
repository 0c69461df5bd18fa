use ral_gen::text::{
    append_decimal, append_hex, build_doc_comment, chars_of, indent, join, repeat, split_lines,
    string_of, to_ascii_lower, to_ascii_lowercase,
};

fn lines(s: &str) -> Vec<String> {
    split_lines(s)
}

fn decimal(n: u64) -> String {
    let mut s = String::from("n=");
    append_decimal(&mut s, n);
    s
}

fn hex(n: u64) -> String {
    let mut s = String::from("n=");
    append_hex(&mut s, n);
    s
}

#[test]
fn doc_comment_prefixes_every_line() {
    assert_eq!(build_doc_comment("///", "first\nsecond"), "/// first\n/// second\n");
}

#[test]
fn doc_comment_of_nothing_is_empty() {
    assert_eq!(build_doc_comment("//!", ""), "");
}

#[test]
fn doc_comment_keeps_empty_lines() {
    assert_eq!(build_doc_comment("    ///", "a\n\nb\n"), "    /// a\n    /// \n    /// b\n");
}

#[test]
fn doc_comment_agrees_with_the_standard_lines() {
    for doc in ["", "x", "x\n", "x\r\ny", "\n", "\r\n\r\n", "a\rb", "tail\r", "é\nü"] {
        let mut expected = String::new();
        for line in doc.lines() {
            expected.push_str("/// ");
            expected.push_str(line);
            expected.push('\n');
        }
        assert_eq!(build_doc_comment("///", doc), expected);
    }
}

#[test]
fn indent_joins_lines_without_final_line_feed() {
    assert_eq!(indent("a\n\nb\n", 1), "    a\n    \n    b");
}

#[test]
fn indent_by_two_levels_and_by_none() {
    assert_eq!(indent("a\nb", 2), "        a\n        b");
    assert_eq!(indent("a\nb\n", 0), "a\nb");
    assert_eq!(indent("", 3), "");
}

#[test]
fn lines_end_at_line_feeds() {
    assert_eq!(lines("one\ntwo\nthree"), vec!["one", "two", "three"]);
    assert_eq!(lines("one\ntwo\n"), vec!["one", "two"]);
    assert_eq!(lines("one\n\n"), vec!["one", ""]);
    assert_eq!(lines("\n"), vec![""]);
    assert_eq!(lines(""), Vec::<String>::new());
}

#[test]
fn carriage_return_before_line_feed_is_dropped() {
    assert_eq!(lines("one\r\ntwo\r\n"), vec!["one", "two"]);
    assert_eq!(lines("one\r\r\ntwo"), vec!["one\r", "two"]);
    assert_eq!(lines("\r\n"), vec![""]);
}

#[test]
fn lone_carriage_return_stays() {
    assert_eq!(lines("one\rtwo"), vec!["one\rtwo"]);
    assert_eq!(lines("one\r"), vec!["one\r"]);
}

#[test]
fn lines_agree_with_the_standard_lines() {
    for s in ["", "a", "a\n", "a\nb", "a\r\nb\r\n", "\n\n\n", "\r", "\r\n\r", "x\r\n\ny", "ü\r\nö"] {
        let expected: Vec<String> = s.lines().map(|l| l.to_string()).collect();
        assert_eq!(lines(s), expected);
    }
}

#[test]
fn join_puts_the_separator_between_neighbours() {
    let parts = vec!["a".to_string(), "b".to_string(), "c".to_string()];
    assert_eq!(join(&parts, ", "), "a, b, c");
    assert_eq!(join(&parts[..1].to_vec(), ", "), "a");
    assert_eq!(join(&Vec::new(), ", "), "");
    assert_eq!(join(&vec![String::new(), String::new()], "-"), "-");
}

#[test]
fn repeat_writes_the_unit_count_times() {
    assert_eq!(repeat("ab", 0), "");
    assert_eq!(repeat("ab", 3), "ababab");
}

#[test]
fn decimal_digits() {
    assert_eq!(decimal(0), "n=0");
    assert_eq!(decimal(7), "n=7");
    assert_eq!(decimal(10), "n=10");
    assert_eq!(decimal(4096), "n=4096");
    assert_eq!(decimal(u64::MAX), "n=18446744073709551615");
}

#[test]
fn hexadecimal_digits() {
    assert_eq!(hex(0), "n=0x0");
    assert_eq!(hex(9), "n=0x9");
    assert_eq!(hex(10), "n=0xa");
    assert_eq!(hex(255), "n=0xff");
    assert_eq!(hex(0x4001_0C00), "n=0x40010c00");
    assert_eq!(hex(u64::MAX), "n=0xffffffffffffffff");
}

#[test]
fn digits_agree_with_the_standard_formatting() {
    for n in [0u64, 1, 9, 10, 15, 16, 99, 100, 255, 256, 65535, 1 << 32, u64::MAX - 1] {
        assert_eq!(decimal(n), format!("n={}", n));
        assert_eq!(hex(n), format!("n={:#x}", n));
    }
}

#[test]
fn characters_and_back() {
    let chars = chars_of("aé_z");
    assert_eq!(chars, vec!['a', 'é', '_', 'z']);
    assert_eq!(string_of(&chars, 1, 3), "é_");
    assert_eq!(string_of(&chars, 2, 2), "");
    assert_eq!(string_of(&chars, 0, 4), "aé_z");
}

#[test]
fn capital_letters_are_lowered() {
    assert_eq!(to_ascii_lower('A'), 'a');
    assert_eq!(to_ascii_lower('Z'), 'z');
    assert_eq!(to_ascii_lower('m'), 'm');
    assert_eq!(to_ascii_lower('@'), '@');
    assert_eq!(to_ascii_lower('['), '[');
    assert_eq!(to_ascii_lower('É'), 'É');
    assert_eq!(to_ascii_lowercase("STM32F103xB"), "stm32f103xb");
    assert_eq!(to_ascii_lowercase(""), "");
}

#[test]
fn lowering_agrees_with_the_standard_function() {
    for s in ["", "ABC", "MiXed_09", "ÄÖÜ-Z"] {
        assert_eq!(to_ascii_lowercase(s), s.to_ascii_lowercase());
    }
}

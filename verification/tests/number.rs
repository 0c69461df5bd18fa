use ral_gen::markup::leading;
use ral_gen::number::{members, overflows, reads_maximum, reads_zero};
use svd_parser::svd::DimElement;

fn codes(text: &str) -> Vec<u32> {
    text.chars().map(u32::from).collect()
}

fn read_like_the_parser(text: &str) -> Option<u32> {
    let text = text.trim();
    if text.starts_with("0x") || text.starts_with("0X") {
        u32::from_str_radix(&text[2..], 16).ok()
    } else if text.starts_with('#') {
        u32::from_str_radix(&text.to_lowercase()[1..].replace('x', "0"), 2).ok()
    } else if text.starts_with("0b") {
        u32::from_str_radix(&text[2..].replace('x', "0"), 2).ok()
    } else {
        text.parse::<u32>().ok()
    }
}

fn range_like_the_parser(text: &str) -> Option<(u32, u32)> {
    if !text.starts_with('[') || !text.ends_with(']') {
        return None;
    }
    let mut parts = text[1..text.len() - 1].split(':');
    let end = parts.next()?.parse::<u32>().ok()?;
    let start = parts.next()?.parse::<u32>().ok()?;
    Some((end, start))
}

fn spellings() -> Vec<String> {
    let marks = ["", "0x", "0X", "#", "0b", "0B", "x", "0"];
    let signs = ["", "+", "-", "++"];
    let zeros = ["", "0", "000", "x", "X0x", "00x"];
    let bodies = [
        "",
        "0",
        "1",
        "4294967295",
        "4294967294",
        "4294967296",
        "42949672950",
        "429496729",
        "ffffffff",
        "FFFFFFFF",
        "FfFfFfFf",
        "fffffff",
        "fffffffff",
        "fffffffe",
        "11111111111111111111111111111111",
        "1111111111111111111111111111111",
        "111111111111111111111111111111111",
        "11111111111111111111111111111110",
        "1111111111111111111111111111111x",
        "4294967295 ",
        "4294 967295",
    ];
    let spaces = [("", ""), (" ", "\n"), ("\t\r", "\u{a0}"), ("\u{2003}", "\u{3000}\u{85}"), ("_", "")];
    let mut all = Vec::new();
    for mark in marks {
        for sign in signs {
            for zero in zeros {
                for body in bodies {
                    for (before, after) in spaces {
                        all.push(format!("{}{}{}{}{}{}", before, mark, sign, zero, body, after));
                    }
                }
            }
        }
    }
    all
}

#[test]
fn greatest_number_is_told_as_the_parser_reads_it() {
    let mut found = 0;
    for text in spellings() {
        let t = codes(&text);
        let expected = read_like_the_parser(&text) == Some(u32::MAX);
        assert_eq!(reads_maximum(&t, 0, t.len()), expected, "{:?}", text);
        if expected {
            found += 1;
        }
    }
    assert!(found > 100);
}

#[test]
fn zero_is_told_as_the_parser_reads_it() {
    let mut found = 0;
    for text in spellings() {
        let t = codes(&text);
        let expected = read_like_the_parser(&text) == Some(0);
        assert_eq!(reads_zero(&t, 0, t.len()), expected, "{:?}", text);
        if expected {
            found += 1;
        }
    }
    assert!(found > 100);
}

#[test]
fn numbers_are_told_in_a_part_of_the_text() {
    let t = codes("xx 4294967295 yy0");
    assert!(reads_maximum(&t, 2, 14));
    assert!(reads_maximum(&t, 3, 13));
    assert!(!reads_maximum(&t, 1, 14));
    assert!(!reads_maximum(&t, 3, 12));
    assert!(!reads_maximum(&t, 0, t.len()));
    assert!(reads_zero(&t, 16, 17));
    assert!(!reads_zero(&t, 15, 17));
    assert!(!reads_zero(&t, 17, 17));
}

#[test]
fn overflowing_range_is_told_as_the_parser_reads_it() {
    let ends = ["4294967295", "+4294967295", "04294967295", "4294967294", "7", "", " 4294967295", "0xffffffff"];
    let starts = ["0", "+0", "000", "1", "", "0 ", "-0", "x"];
    let tails = ["", ":", ":9", ":x:y"];
    let frames = [("[", "]"), ("", "]"), ("[", ""), (" [", "]"), ("[", "] "), ("[[", "]"), ("[", "]]")];
    let mut found = 0;
    for end in ends {
        for start in starts {
            for tail in tails {
                for (open, close) in frames {
                    for colon in [":", ";", ""] {
                        let text = format!("{}{}{}{}{}{}", open, end, colon, start, tail, close);
                        let expected = range_like_the_parser(&text) == Some((u32::MAX, 0));
                        let t = codes(&text);
                        assert_eq!(overflows(&t, 0, t.len()), expected, "{:?}", text);
                        if expected {
                            found += 1;
                        }
                    }
                }
            }
        }
    }
    assert!(found >= 18);
    for text in ["", "[", "]", "[]", "[:]", "[:0]", "[4294967295:]"] {
        let t = codes(text);
        assert!(!overflows(&t, 0, t.len()));
    }
}

#[test]
fn members_are_counted_as_the_parser_writes_them_out() {
    let parts = ["0", "3", "+7", "007", "19", "200", "", " 1", "A", "-1", "1,2"];
    for low in parts {
        for high in parts {
            for (before, after) in [("", ""), (" ", "\n"), ("\u{a0}", "\t")] {
                let text = format!("{}{}-{}{}", before, low, high, after);
                let expected = match text.trim().split_once('-') {
                    Some((low, high)) => match (low.parse::<u32>(), high.parse::<u32>()) {
                        (Ok(low), Ok(high)) if low <= high => u64::from(high - low) + 1,
                        _ => 0,
                    },
                    None => 0,
                };
                let t = codes(&text);
                assert_eq!(members(&t, 0, t.len()), expected, "{:?}", text);
                let written = DimElement::parse_indexes(text.trim()).map_or(0, |v| v.len());
                if expected > 0 {
                    assert_eq!(written as u64, expected, "{:?}", text);
                } else {
                    assert!(written <= text.len());
                }
            }
        }
    }
    for (text, expected) in [
        ("0-4294967295", 0x1_0000_0000u64),
        ("1-4294967295", 0xffff_ffff),
        ("4294967295-4294967295", 1),
        ("0-4294967296", 0),
        ("5", 0),
        ("a,b,c", 0),
        ("", 0),
        ("-", 0),
    ] {
        let t = codes(text);
        assert_eq!(members(&t, 0, t.len()), expected, "{:?}", text);
    }
}

#[test]
fn leading_text_joins_text_sections_and_references() {
    let read = |text: &str| {
        let chars: Vec<char> = text.chars().collect();
        leading(&chars, 0).map(|codes| {
            codes.into_iter().map(|c| char::from_u32(c).unwrap()).collect::<String>()
        })
    };
    assert_eq!(read("31</msb>"), Some("31".to_string()));
    assert_eq!(read("4<![CDATA[29]]>4<![CDATA[]]><![CDATA[9&#54;]]>7<a>"), Some("42949&#54;7".to_string()));
    assert_eq!(read("&#52;&#x32;&quot;&amp;&apos;&lt;&gt;&#x10FFFF;<"), Some("42\"&'<>\u{10ffff}".to_string()));
    assert_eq!(read("&#xD800;&#1114112;&#9;<"), Some("\u{fffd}\u{fffd}\t".to_string()));
    assert_eq!(read("<!-- c -->7</msb>"), Some(String::new()));
    assert_eq!(read("7<?p?>8</msb>"), Some("7".to_string()));
    assert_eq!(read("7"), None);
    assert_eq!(read(""), None);
    assert_eq!(read("7<![CDATA[8</msb>"), None);
    for broken in ["&", "&;", "&#;", "&#x;", "&#X34;", "&#52", "&amp", "&AMP;", "&nbsp;", "&#0;", "&#8;", "&#xFFFE;", "&#65535;", "&#4294967296;", "&# 52;", "&#+52;"] {
        assert_eq!(read(&format!("1{}2<", broken)), None, "{}", broken);
    }
}

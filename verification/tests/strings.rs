use tunnelize::common::strings::{chars_of, decimal_string, parse_u16_text, replace, split_once_at};

fn parse(text: &str) -> Option<u16> {
    parse_u16_text(&chars_of(text))
}

#[test]
fn parse_u16_agrees_with_std() {
    for text in [
        "0", "7", "+7", "65535", "65536", "99999999999", "", "+", "-1", "1a", " 1", "00012", "++1",
        "٣",
    ] {
        assert_eq!(parse(text), text.parse::<u16>().ok(), "{:?}", text);
    }
}

#[test]
fn replace_agrees_with_std() {
    for (text, pattern, with) in [
        ("aaa", "aa", "b"),
        ("http://x/http://", "http://", ""),
        ("{a}{a}", "{a}", "xy"),
        ("none", "zz", "q"),
    ] {
        let out = replace(&chars_of(text), &chars_of(pattern), &chars_of(with));
        assert_eq!(out.iter().collect::<String>(), text.replace(pattern, with));
    }
}

#[test]
fn split_once_agrees_with_std() {
    for text in ["a:b", ":b", "a:", "a", "a:b:c", ""] {
        let ours = split_once_at(&chars_of(text), ':')
            .map(|(a, b)| (a.iter().collect::<String>(), b.iter().collect::<String>()));
        let std = text.split_once(':').map(|(a, b)| (a.to_string(), b.to_string()));
        assert_eq!(ours, std);
    }
}

#[test]
fn decimal_text() {
    assert_eq!(decimal_string(0), "0");
    assert_eq!(decimal_string(1234567), "1234567");
}

use spotify_api::form::{push_byte, push_component, push_pairs, query_string};

fn owned(pairs: &[(&str, &str)]) -> Vec<(String, String)> {
    pairs.iter().map(|(k, v)| (k.to_string(), v.to_string())).collect()
}

fn component(text: &str) -> String {
    let mut out = String::new();
    push_component(&mut out, text);
    out
}

#[test]
fn every_byte_has_its_form() {
    for byte in 0u8..=255 {
        let mut out = "x".to_string();
        push_byte(&mut out, byte);
        let expected = match byte {
            b'*' | b'-' | b'.' | b'_' | b'0'..=b'9' | b'A'..=b'Z' | b'a'..=b'z' => {
                format!("x{}", byte as char)
            }
            b' ' => "x+".to_string(),
            _ => format!("x%{:02X}", byte),
        };
        assert_eq!(out, expected);
    }
}

#[test]
fn component_is_encoded_by_its_utf8_bytes() {
    assert_eq!(component(""), "");
    assert_eq!(component("abc-XYZ_0.9*"), "abc-XYZ_0.9*");
    assert_eq!(component("a b+c"), "a+b%2Bc");
    assert_eq!(component("100%"), "100%25");
    assert_eq!(component("\u{e9}"), "%C3%A9");
    assert_eq!(component("\u{20ac}"), "%E2%82%AC");
    assert_eq!(component("\u{1f3b5}"), "%F0%9F%8E%B5");
    assert_eq!(component("k=v&l"), "k%3Dv%26l");
}

#[test]
fn component_is_appended_to_what_is_there() {
    let mut out = "https://h/?q=".to_string();
    push_component(&mut out, "daft punk");
    assert_eq!(out, "https://h/?q=daft+punk");
}

#[test]
fn pairs_are_joined_by_ampersand() {
    assert_eq!(query_string(&owned(&[])), "");
    assert_eq!(query_string(&owned(&[("k", "v")])), "k=v");
    assert_eq!(query_string(&owned(&[("", "")])), "=");
    assert_eq!(query_string(&owned(&[("a", "1"), ("b", "2"), ("c", "3")])), "a=1&b=2&c=3");
    assert_eq!(query_string(&owned(&[("a b", "c&d"), ("e", "")])), "a+b=c%26d&e=");
    let mut out = "?".to_string();
    push_pairs(&mut out, &owned(&[("x", "y"), ("z", "")]));
    assert_eq!(out, "?x=y&z=");
}

#[test]
fn a_query_string_reads_back_as_its_pairs() {
    let pairs = owned(&[("q", "a&b=c d"), ("\u{e9}", "100%"), ("", "+")]);
    let text = query_string(&pairs);
    assert_eq!(text, "q=a%26b%3Dc+d&%C3%A9=100%25&=%2B");
    let read: Vec<(String, String)> = text
        .split('&')
        .map(|item| {
            let (key, value) = item.split_once('=').unwrap();
            (unescape(key), unescape(value))
        })
        .collect();
    assert_eq!(read, pairs);
}

fn unescape(text: &str) -> String {
    let bytes = text.as_bytes();
    let mut out = Vec::new();
    let mut i = 0;
    while i < bytes.len() {
        if bytes[i] == b'%' {
            let hex = std::str::from_utf8(&bytes[i + 1..i + 3]).unwrap();
            out.push(u8::from_str_radix(hex, 16).unwrap());
            i += 3;
        } else if bytes[i] == b'+' {
            out.push(b' ');
            i += 1;
        } else {
            out.push(bytes[i]);
            i += 1;
        }
    }
    String::from_utf8(out).unwrap()
}

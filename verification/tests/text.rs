//! Texts, numbers, addresses and maps.

use talia::address::{loopback_address, parse_ipv4};
use talia::digits::{decimal_text, hex16_text, parse_u64};
use talia::hash::fnv1a64;
use talia::split::{cut_once, fields, split_lines, split_words};
use talia::text::{blank_text, chars_of, starts_with, text_of, trim_text, white_space};
use talia::text_map::TextMap;
use talia::time::Duration;

fn chars(s: &str) -> Vec<char> {
    chars_of(s)
}

fn owned(parts: Vec<&[char]>) -> Vec<String> {
    parts.into_iter().map(text_of).collect()
}

const TEXTS: [&str; 14] = [
    "",
    " ",
    "a",
    " a b\t c ",
    "\n",
    "a\n",
    "a\r\nb\rc\n\nd",
    "\r\n",
    "a,b,,c,",
    ",",
    "\u{3000}x\u{a0}",
    "\u{e9}\u{1f600}",
    "a - b - c",
    "-",
];

#[test]
fn white_space_is_that_of_unicode() {
    for code in 0..=0x10ffffu32 {
        if let Some(c) = char::from_u32(code) {
            assert_eq!(white_space(c), c.is_whitespace());
        }
    }
}

#[test]
fn texts_are_cut_as_the_standard_library_cuts_them() {
    for text in TEXTS {
        let list = chars(text);
        assert_eq!(text_of(&list), text);
        assert_eq!(trim_text(text), text.trim());
        assert_eq!(blank_text(text), text.trim().is_empty());
        let lines: Vec<&str> = text.lines().collect();
        assert_eq!(owned(split_lines(&list)), lines);
        let words: Vec<&str> = text.split_whitespace().collect();
        assert_eq!(owned(split_words(&list)), words);
        let parts: Vec<&str> = text.split(',').collect();
        assert_eq!(owned(fields(&list, ',')), parts);
        let cut = cut_once(&list, &chars(" - ")).map(|(a, b)| (text_of(a), text_of(b)));
        let expected = text
            .split_once(" - ")
            .map(|(a, b)| (a.to_string(), b.to_string()));
        assert_eq!(cut, expected);
        assert!(starts_with(text, ""));
        assert_eq!(starts_with(text, "a"), text.starts_with('a'));
    }
}

#[test]
fn numbers_are_read_as_the_standard_library_reads_them() {
    for text in [
        "0",
        "007",
        "+5",
        "+",
        "",
        "-1",
        "12a",
        "18446744073709551615",
        "18446744073709551616",
        "99999999999999999999999",
        "\u{661}",
    ] {
        assert_eq!(parse_u64(&chars(text)), text.parse::<u64>().ok());
    }
    for n in [0, 9, 10, 12_345, u64::MAX] {
        assert_eq!(decimal_text(n), n.to_string());
        assert_eq!(parse_u64(&chars(&decimal_text(n))), Some(n));
        assert_eq!(hex16_text(n), format!("{n:016x}"));
    }
}

#[test]
fn hashes_are_those_of_fnv1a() {
    assert_eq!(fnv1a64(b""), 0xcbf2_9ce4_8422_2325);
    assert_eq!(fnv1a64(b"a"), 0xaf63_dc4c_8601_ec8c);
    assert_eq!(fnv1a64(b"foobar"), 0x8594_4171_f739_67e8);
}

#[test]
fn loopback_addresses_are_told_from_others() {
    for address in [
        "127.0.0.1",
        "127.255.0.9",
        "::1",
        "0:0:0:0:0:0:0:1",
        "0::1",
        "::0:1",
        "0:0::0:0001",
        "::0.0.0.1",
        "0:0:0:0:0:0:0.0.0.1",
        "0:0:0:0:0:0::1",
        "0::0:0:0:0:0:1",
        "::0:0:0:0:0:0:1",
        "0:0:0:0:0::0.0.0.1",
        "::0:0:0:0:0:0.0.0.1",
    ] {
        assert!(loopback_address(&chars(address)), "{}", address);
    }
    for address in [
        "",
        "127",
        "127.0.0",
        "127.0.0.1.1",
        "127.0.0.1 ",
        "127.0.0.1:80",
        "0127.0.0.1",
        "1.127.0.1",
        "::",
        ":",
        ":1",
        "1::",
        "::1:",
        "0:0:0:0:0:0:1",
        "0:0:0:0:0:0:0:0:1",
        "0:0:0:0:0:0:0::1:0",
        "::g",
        "::00001",
        "::0.0.0.1:0",
        "0.0.0.1::",
        "::ffff:127.0.0.1",
        "0:0:0:0:0:0:0::1",
        "0:0:0:0:0:0:0::",
        "0::0:0:0:0:0:0:1",
        "::0:0:0:0:0:0:0:1",
        "0:0:0:0:0:0::0.0.0.1",
        "0:0:0:0:0:0:0:0.0.0.1",
        "0:0:0.0.0.1",
        "0.0.0.1:0",
        "::1::",
        ":::1",
        "::01.0.0.1",
        "::0.0.0.01",
        "[::1]",
        "::1%0",
        "localhost",
    ] {
        assert!(!loopback_address(&chars(address)), "{}", address);
    }
    assert_eq!(parse_ipv4(&chars("1.20.0.255")), Some(vec![1, 20, 0, 255]));
    assert_eq!(parse_ipv4(&chars("1.20.00.255")), None);
    assert_eq!(parse_ipv4(&chars("1.20.256.255")), None);
}

#[test]
fn maps_keep_their_keys_in_order() {
    let mut map: TextMap<u64> = TextMap::new();
    for (key, value) in [("b", 1), ("a", 2), ("\u{e9}", 3), ("b", 4), ("ab", 5)] {
        map.insert(key.to_string(), value);
    }

    let listed = |map: &TextMap<u64>| -> Vec<(String, u64)> {
        (0..map.len())
            .map(|i| (map.key_at(i).clone(), *map.value_at(i)))
            .collect()
    };
    let pair = |key: &str, value: u64| (key.to_string(), value);
    assert_eq!(
        listed(&map),
        [pair("a", 2), pair("ab", 5), pair("b", 4), pair("\u{e9}", 3)]
    );
    assert_eq!(map.get("ab"), Some(&5));
    assert_eq!(map.get("c"), None);
    let copy = map.clone();
    assert_eq!(map.remove("ab"), Some(5));
    assert_eq!(map.remove("ab"), None);
    assert_eq!(map.len(), 3);
    assert!(copy.contains_key("ab"));
}

#[test]
fn spans_are_counted_in_nanoseconds() {
    assert_eq!(Duration::from_secs(2).nanos, 2_000_000_000);
    assert_eq!(Duration::from_millis(3), Duration::from_nanos(3_000_000));
    assert_eq!(
        Duration::from_secs(u64::MAX).nanos,
        u64::MAX as u128 * 1_000_000_000
    );
}

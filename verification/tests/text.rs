use memefs::text::{extension, known_extension, parse_u64, push_decimal};

fn decimal_of(n: u16) -> String {
    let mut out = String::new();
    push_decimal(&mut out, n);
    out
}

#[test]
fn extension_is_what_follows_the_last_dot() {
    assert_eq!(extension("cat.jpg"), Some("jpg"));
    assert_eq!(extension("archive.tar.gz"), Some("gz"));
    assert_eq!(extension("Cat.JPG"), Some("JPG"));
    assert_eq!(extension("a.b"), Some("b"));
    assert_eq!(extension("..."), Some(""));
    assert_eq!(extension("..a"), Some("a"));
}

#[test]
fn extension_after_a_closing_dot_is_empty() {
    assert_eq!(extension("cat."), Some(""));
}

#[test]
fn a_name_without_a_dot_has_no_extension() {
    assert_eq!(extension("cat"), None);
    assert_eq!(extension(""), None);
}

#[test]
fn a_name_whose_only_dot_leads_it_has_no_extension() {
    assert_eq!(extension(".jpg"), None);
    assert_eq!(extension("."), None);
}

#[test]
fn the_parent_directory_has_no_extension() {
    assert_eq!(extension(".."), None);
}

#[test]
fn extension_of_a_name_beyond_ascii() {
    assert_eq!(extension("вода.png"), Some("png"));
    assert_eq!(extension("cat.пнг"), Some("пнг"));
}

#[test]
fn extension_agrees_with_the_standard_path() {
    for name in [
        "", ".", "..", "...", "a", "a.", ".a", "a.b", "a.b.c", "..a", ".a.b", "a..b", "cat.jpg",
        "cat.JPG", "no extension", "dots.in.the.middle.png", "trailing.dot.", ".hidden",
        ".hidden.png", "%2Fencoded.webm", "a b.mp4",
    ] {
        let expected = std::path::Path::new(name).extension().and_then(|ext| ext.to_str());
        assert_eq!(extension(name), expected, "for the name {:?}", name);
    }
}

#[test]
fn the_five_known_extensions_are_known() {
    assert_eq!(known_extension("png"), Some("png"));
    assert_eq!(known_extension("jpg"), Some("jpg"));
    assert_eq!(known_extension("jpeg"), Some("jpeg"));
    assert_eq!(known_extension("mp4"), Some("mp4"));
    assert_eq!(known_extension("webm"), Some("webm"));
}

#[test]
fn known_extensions_are_known_in_capitals_too() {
    assert_eq!(known_extension("PNG"), Some("png"));
    assert_eq!(known_extension("Jpg"), Some("jpg"));
    assert_eq!(known_extension("jPeG"), Some("jpeg"));
    assert_eq!(known_extension("MP4"), Some("mp4"));
    assert_eq!(known_extension("WebM"), Some("webm"));
}

#[test]
fn other_extensions_are_unknown() {
    assert_eq!(known_extension(""), None);
    assert_eq!(known_extension("gif"), None);
    assert_eq!(known_extension("pn"), None);
    assert_eq!(known_extension("pngg"), None);
    assert_eq!(known_extension("jp g"), None);
    assert_eq!(known_extension("html"), None);
    assert_eq!(known_extension("mp3"), None);
    assert_eq!(known_extension("p\u{2115}g"), None);
    assert_eq!(known_extension("\u{212A}"), None);
    assert_eq!(known_extension("0ng"), None);
}

#[test]
fn decimal_of_small_and_large_numbers() {
    assert_eq!(decimal_of(0), "0");
    assert_eq!(decimal_of(7), "7");
    assert_eq!(decimal_of(10), "10");
    assert_eq!(decimal_of(20), "20");
    assert_eq!(decimal_of(109), "109");
    assert_eq!(decimal_of(12345), "12345");
    assert_eq!(decimal_of(u16::MAX), "65535");
}

#[test]
fn decimal_is_written_behind_what_is_there() {
    let mut out = String::from("limit=");
    push_decimal(&mut out, 600);
    assert_eq!(out, "limit=600");
}

#[test]
fn decimal_agrees_with_the_standard_formatting() {
    for n in [0u16, 1, 9, 10, 11, 99, 100, 101, 999, 1000, 9999, 10000, 65535] {
        assert_eq!(decimal_of(n), n.to_string());
    }
}

#[test]
fn digits_are_read_as_a_number() {
    assert_eq!(parse_u64(b"0"), Some(0));
    assert_eq!(parse_u64(b"7"), Some(7));
    assert_eq!(parse_u64(b"1000"), Some(1000));
    assert_eq!(parse_u64(b"007"), Some(7));
    assert_eq!(parse_u64(b"18446744073709551615"), Some(u64::MAX));
}

#[test]
fn a_leading_plus_sign_is_read_over() {
    assert_eq!(parse_u64(b"+5"), Some(5));
    assert_eq!(parse_u64(b"+0"), Some(0));
}

#[test]
fn a_number_beyond_u64_is_not_read() {
    assert_eq!(parse_u64(b"18446744073709551616"), None);
    assert_eq!(parse_u64(b"99999999999999999999"), None);
    assert_eq!(parse_u64(b"184467440737095516150"), None);
}

#[test]
fn text_that_is_no_number_is_not_read() {
    assert_eq!(parse_u64(b""), None);
    assert_eq!(parse_u64(b"+"), None);
    assert_eq!(parse_u64(b"-5"), None);
    assert_eq!(parse_u64(b"++5"), None);
    assert_eq!(parse_u64(b"5+"), None);
    assert_eq!(parse_u64(b" 5"), None);
    assert_eq!(parse_u64(b"5 "), None);
    assert_eq!(parse_u64(b"12a"), None);
    assert_eq!(parse_u64(b"1_000"), None);
    assert_eq!(parse_u64(b"1.5"), None);
    assert_eq!(parse_u64(b"0x10"), None);
    assert_eq!(parse_u64(&[0xff, 0x31]), None);
}

#[test]
fn numbers_are_read_as_the_standard_parser_reads_them() {
    for text in ["0", "42", "+42", "-42", "", "+", "4 2", "18446744073709551615", "18446744073709551616"] {
        assert_eq!(parse_u64(text.as_bytes()), text.parse::<u64>().ok());
    }
}

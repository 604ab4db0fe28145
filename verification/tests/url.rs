use shortlink::url::{check_scheme, normalize, scheme_allowed, ParsedUrl, ValidationError};

fn ok(raw: &[u8]) -> String {
    match normalize(raw) {
        Ok(url) => url,
        Err(e) => panic!("rejected: {:?}", e),
    }
}

fn rejected(raw: &[u8]) -> ValidationError {
    match normalize(raw) {
        Ok(url) => panic!("accepted as {}", url),
        Err(e) => e,
    }
}

#[test]
fn normalize_keeps_a_canonical_url() {
    assert_eq!(ok(b"https://example.com/page"), "https://example.com/page");
    assert_eq!(ok(b"http://example.com/a/b?c=d"), "http://example.com/a/b?c=d");
}

#[test]
fn normalize_trims_surrounding_white_space() {
    assert_eq!(ok(b"  https://example.com/page \r\n"), "https://example.com/page");
    assert_eq!(ok(b"\thttps://example.com/page\x0b\x0c"), "https://example.com/page");
}

#[test]
fn normalize_trims_unicode_white_space() {
    let raw = "\u{3000}\u{a0}https://example.com/page\u{2003}\u{2028}\u{85}";
    assert_eq!(ok(raw.as_bytes()), "https://example.com/page");
    let raw = "\u{1680}\u{2000}\u{200a}https://example.com/\u{2029}\u{202f}\u{205f}";
    assert_eq!(ok(raw.as_bytes()), "https://example.com/");
}

#[test]
fn normalize_does_not_trim_other_characters() {
    // U+200B (zero width space) and U+180E are not white space: they stay,
    // and the parser decides.
    let e = rejected("\u{200b}https://example.com/".as_bytes());
    assert!(matches!(e, ValidationError::MalformedUrl { .. }), "{:?}", e);
    assert_eq!(
        ok("https://example.com/\u{180e}".as_bytes()),
        "https://example.com/\u{180e}"
    );
}

#[test]
fn normalize_rejects_white_space_inside() {
    let e = rejected(b"https://example.com/a b");
    assert!(matches!(e, ValidationError::MalformedUrl { .. }), "{:?}", e);
}

#[test]
fn normalize_lowers_the_scheme() {
    assert_eq!(ok(b"HTTP://example.com/x"), "http://example.com/x");
    assert_eq!(ok(b"HttpS://example.com/x"), "https://example.com/x");
}

#[test]
fn normalize_gives_an_empty_path_a_slash() {
    assert_eq!(ok(b"http://example.com"), "http://example.com/");
    assert_eq!(ok(b"https://example.com?q=1"), "https://example.com/?q=1");
}

#[test]
fn normalize_drops_the_fragment() {
    assert_eq!(ok(b"https://example.com/a?b=c#frag"), "https://example.com/a?b=c");
}

#[test]
fn normalize_collapses_equivalent_submissions() {
    let a = ok(b"https://example.com");
    let b = ok(b" HTTPS://example.com/ ");
    let c = ok(b"https://example.com/#top");
    assert_eq!(a, b);
    assert_eq!(a, c);
}

#[test]
fn normalize_is_stable() {
    let inputs: [&[u8]; 8] = [
        b"https://example.com/page",
        b"  HTTP://Example.com  ",
        b"http://example.com",
        b"https://example.com?q=1",
        b"https://example.com/a?b=c#frag",
        b"https://user:pw@example.com:8443/x/y/?z",
        b"http://[::1]:8080/",
        b"https://example.com/%7Euser",
    ];
    for raw in inputs {
        let once = ok(raw);
        let twice = ok(once.as_bytes());
        assert_eq!(once, twice);
    }
}

#[test]
fn normalize_is_not_stable_where_white_space_ends_the_canonical_text() {
    // Dropping the fragment uncovers a white space character at the end of
    // the path, which the next normalisation trims.
    let once = ok("https://example.com/a\u{3000}#frag".as_bytes());
    assert_eq!(once, "https://example.com/a\u{3000}");
    let twice = ok(once.as_bytes());
    assert_eq!(twice, "https://example.com/a");
}

#[test]
fn normalize_is_not_stable_at_the_parser_s_length_limit() {
    // The longest text that the parser takes; the slash that the canonical
    // form adds makes it one byte too long to be read again.
    let mut raw = String::from("http://");
    while raw.len() < 65534 {
        raw.push('a');
    }
    let once = ok(raw.as_bytes());
    assert_eq!(once.len(), 65535);
    assert!(once.ends_with("a/"));
    let e = rejected(once.as_bytes());
    assert!(matches!(e, ValidationError::MalformedUrl { .. }), "{:?}", e);
}

#[test]
fn normalize_rejects_text_beyond_the_parser_s_length_limit() {
    let mut raw = String::from("http://example.com/");
    while raw.len() < 65535 {
        raw.push('a');
    }
    let e = rejected(raw.as_bytes());
    assert!(matches!(e, ValidationError::MalformedUrl { .. }), "{:?}", e);
}

#[test]
fn normalize_rejects_invalid_utf8() {
    let e = rejected(&[0xff, 0xfe, 0xfd]);
    assert!(matches!(e, ValidationError::EncodingError { .. }), "{:?}", e);
    let e = rejected(b"https://example.com/\xc3\x28");
    assert!(matches!(e, ValidationError::EncodingError { .. }), "{:?}", e);
    // A truncated sequence.
    let e = rejected(b"https://example.com/\xe2\x82");
    assert!(matches!(e, ValidationError::EncodingError { .. }), "{:?}", e);
}

#[test]
fn normalize_rejects_the_ftp_scheme() {
    assert_eq!(
        rejected(b"ftp://example.com/x"),
        ValidationError::UnsupportedScheme { scheme: "ftp".to_string() }
    );
}

#[test]
fn normalize_rejects_other_schemes() {
    assert_eq!(
        rejected(b"ws://example.com/x"),
        ValidationError::UnsupportedScheme { scheme: "ws".to_string() }
    );
    assert_eq!(
        rejected(b"file://host/etc/passwd"),
        ValidationError::UnsupportedScheme { scheme: "file".to_string() }
    );
    assert_eq!(
        rejected(b"httpx://example.com/"),
        ValidationError::UnsupportedScheme { scheme: "httpx".to_string() }
    );
}

#[test]
fn normalize_rejects_a_host_and_path_without_scheme() {
    let e = rejected(b"example.com/x");
    assert!(matches!(e, ValidationError::MalformedUrl { .. }), "{:?}", e);
}

#[test]
fn normalize_rejects_a_missing_scheme() {
    assert_eq!(rejected(b"example.com"), ValidationError::MissingScheme);
    assert_eq!(rejected(b"/just/a/path"), ValidationError::MissingScheme);
    assert_eq!(rejected(b"/"), ValidationError::MissingScheme);
}

#[test]
fn normalize_rejects_text_that_is_no_url() {
    let e = rejected(b"not a url");
    assert!(matches!(e, ValidationError::MalformedUrl { .. }), "{:?}", e);
    assert!(e.message().starts_with("invalid url: "), "{}", e.message());
}

#[test]
fn normalize_rejects_empty_input() {
    let e = rejected(b"");
    assert!(matches!(e, ValidationError::MalformedUrl { .. }), "{:?}", e);
    let e = rejected(b"   \n");
    assert!(matches!(e, ValidationError::MalformedUrl { .. }), "{:?}", e);
}

#[test]
fn normalize_rejects_a_scheme_without_authority() {
    let e = rejected(b"http://");
    assert!(matches!(e, ValidationError::MalformedUrl { .. }), "{:?}", e);
}

#[test]
fn message_of_each_error() {
    assert_eq!(ValidationError::MissingScheme.message(), "url missing scheme");
    assert_eq!(
        ValidationError::UnsupportedScheme { scheme: "ftp".to_string() }.message(),
        "unsupported url scheme: ftp"
    );
    assert_eq!(
        ValidationError::MalformedUrl { detail: "invalid format".to_string() }.message(),
        "invalid url: invalid format"
    );
    assert_eq!(
        ValidationError::EncodingError { detail: "bad byte".to_string() }.message(),
        "invalid utf-8 in url: bad byte"
    );
}

#[test]
fn message_carries_the_decoder_s_words() {
    let e = rejected(&[0x68, 0x74, 0xff]);
    let detail = match &e {
        ValidationError::EncodingError { detail } => detail.clone(),
        other => panic!("{:?}", other),
    };
    assert!(!detail.is_empty());
    assert_eq!(e.message(), format!("invalid utf-8 in url: {}", detail));
}

#[test]
fn message_carries_the_parser_s_words() {
    let e = rejected(b"http://");
    let detail = match &e {
        ValidationError::MalformedUrl { detail } => detail.clone(),
        other => panic!("{:?}", other),
    };
    assert!(!detail.is_empty());
    assert_eq!(e.message(), format!("invalid url: {}", detail));
}

#[test]
fn scheme_allowed_is_exact() {
    assert!(scheme_allowed(&"http".to_string()));
    assert!(scheme_allowed(&"https".to_string()));
    assert!(!scheme_allowed(&"HTTP".to_string()));
    assert!(!scheme_allowed(&"ftp".to_string()));
    assert!(!scheme_allowed(&"".to_string()));
    assert!(!scheme_allowed(&"httpss".to_string()));
    assert!(!scheme_allowed(&"htt".to_string()));
}

#[test]
fn check_scheme_accepts_http_and_https() {
    let parsed = ParsedUrl { text: "http://a/".to_string(), scheme: Some("http".to_string()) };
    assert_eq!(check_scheme(parsed), Ok("http://a/".to_string()));
    let parsed = ParsedUrl { text: "https://a/".to_string(), scheme: Some("https".to_string()) };
    assert_eq!(check_scheme(parsed), Ok("https://a/".to_string()));
}

#[test]
fn check_scheme_rejects_a_missing_scheme() {
    let parsed = ParsedUrl { text: "a".to_string(), scheme: None };
    assert_eq!(check_scheme(parsed), Err(ValidationError::MissingScheme));
}

#[test]
fn check_scheme_rejects_another_scheme() {
    let parsed = ParsedUrl { text: "ftp://a/".to_string(), scheme: Some("ftp".to_string()) };
    assert_eq!(
        check_scheme(parsed),
        Err(ValidationError::UnsupportedScheme { scheme: "ftp".to_string() })
    );
}

fn white_space(c: char) -> bool {
    matches!(
        c as u32,
        0x09..=0x0d
            | 0x20
            | 0x85
            | 0xa0
            | 0x1680
            | 0x2000..=0x200a
            | 0x2028
            | 0x2029
            | 0x202f
            | 0x205f
            | 0x3000
    )
}

fn trimmed_away(c: char) -> bool {
    let base = "https://example.com/x";
    let before = normalize(format!("{}{}", c, base).as_bytes());
    let after = normalize(format!("{}{}", base, c).as_bytes());
    let both = normalize(format!("{}{}{}", c, base, c).as_bytes());
    let is_base = |r: &Result<String, ValidationError>| matches!(r, Ok(url) if url == base);
    assert_eq!(is_base(&before), is_base(&both), "{:?}", c);
    assert_eq!(is_base(&after), is_base(&both), "{:?}", c);
    is_base(&both)
}

#[test]
fn normalize_trims_exactly_the_white_space_characters() {
    // Every character up to U+3100, but `#`, which opens a fragment.
    for n in 0..=0x3100u32 {
        let c = match char::from_u32(n) {
            Some(c) => c,
            None => panic!("{:x}", n),
        };
        if c == '#' {
            continue;
        }
        assert_eq!(trimmed_away(c), white_space(c), "U+{:04X}", n);
    }
}

#[test]
fn normalize_trims_no_character_beyond_the_ideographic_space() {
    let mut n = 0x3101u32;
    while n <= 0x10ffff {
        if let Some(c) = char::from_u32(n) {
            assert!(!trimmed_away(c), "U+{:04X}", n);
        }
        n += 0x83;
    }
    for c in ['\u{feff}', '\u{e000}', '\u{ffff}', '\u{10000}', '\u{e0020}', '\u{10ffff}'] {
        assert!(!trimmed_away(c), "{:?}", c);
    }
}

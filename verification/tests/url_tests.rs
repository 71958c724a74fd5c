use studio::url::{ensure_url_scheme, urlencoding_simple};

#[test]
fn keeps_https_url() {
    assert_eq!(ensure_url_scheme("https://example.com/a?b=c"), "https://example.com/a?b=c");
}

#[test]
fn keeps_http_url_and_trims_it() {
    assert_eq!(ensure_url_scheme("  http://example.com/\n"), "http://example.com/");
}

#[test]
fn trims_unicode_white_space() {
    assert_eq!(ensure_url_scheme("\u{3000}example.com\u{a0}"), "https://example.com");
}

#[test]
fn adds_https_to_host_name() {
    assert_eq!(ensure_url_scheme("example.com"), "https://example.com");
    assert_eq!(ensure_url_scheme("docs.rs/serde"), "https://docs.rs/serde");
}

#[test]
fn searches_text_with_space() {
    assert_eq!(
        ensure_url_scheme("hello world"),
        "https://www.google.com/search?q=hello+world"
    );
    assert_eq!(ensure_url_scheme("a.b c"), "https://www.google.com/search?q=a.b+c");
}

#[test]
fn searches_word_without_dot() {
    assert_eq!(ensure_url_scheme("rust"), "https://www.google.com/search?q=rust");
    assert_eq!(ensure_url_scheme("   "), "https://www.google.com/search?q=");
}

#[test]
fn scheme_check_is_case_sensitive() {
    assert_eq!(ensure_url_scheme("HTTP://X.Y"), "https://HTTP://X.Y");
}

#[test]
fn normalising_twice_changes_nothing() {
    for input in ["example.com", " rust lang ", "https://a.b", "x", "ü.de", "50% off"] {
        let once = ensure_url_scheme(input);
        assert_eq!(ensure_url_scheme(&once), once);
        assert!(once.starts_with("http://") || once.starts_with("https://"));
    }
}

#[test]
fn encodes_reserved_bytes() {
    assert_eq!(urlencoding_simple("a b&c=d"), "a+b%26c%3Dd");
    assert_eq!(urlencoding_simple("-_.~AZaz09"), "-_.~AZaz09");
    assert_eq!(urlencoding_simple("é"), "%C3%A9");
    assert_eq!(urlencoding_simple("/?#"), "%2F%3F%23");
    assert_eq!(urlencoding_simple(""), "");
}

#[test]
fn encoding_uses_only_safe_characters() {
    let e = urlencoding_simple("Grüße, \u{1F600} & 100%!\t");
    assert!(e
        .chars()
        .all(|c| c.is_ascii_alphanumeric() || "-_.~+%".contains(c)));
    assert_eq!(e, "Gr%C3%BC%C3%9Fe%2C+%F0%9F%98%80+%26+100%25%21%09");
}

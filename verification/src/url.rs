//! URL normalisation for the browser's address field.

use vstd::prelude::*;
use vstd::string::StringSliceAdditionalSpecFns;
use crate::text::{lemma_trim_white_space_ends, lemma_trim_white_space_idempotent, is_white_space, chars_contain, chars_of, chars_start_with, push_char, starts_with, trim, trim_white_space};

verus! {

/// Bytes that pass through URL encoding unchanged: ASCII letters, digits and `-_.~`.
pub open spec fn is_unreserved_byte(b: u8) -> bool {
    ||| 0x41 <= b <= 0x5a
    ||| 0x61 <= b <= 0x7a
    ||| 0x30 <= b <= 0x39
    ||| b == 0x2d
    ||| b == 0x5f
    ||| b == 0x2e
    ||| b == 0x7e
}

/// The upper-case hexadecimal digit for `n` (`n < 16`).
pub open spec fn hex_digit_char(n: int) -> char {
    if n < 10 {
        (48 + n) as char
    } else {
        (55 + n) as char
    }
}

/// The encoding of one byte: itself if unreserved, `+` for a space, else `%XX`.
pub open spec fn encode_byte(b: u8) -> Seq<char> {
    if is_unreserved_byte(b) {
        seq![b as char]
    } else if b == 0x20 {
        seq!['+']
    } else {
        seq!['%', hex_digit_char((b / 16) as int), hex_digit_char((b % 16) as int)]
    }
}

/// The form encoding of a byte string, byte by byte.
pub open spec fn url_encode_bytes(bs: Seq<u8>) -> Seq<char>
    decreases bs.len(),
{
    if bs.len() == 0 {
        seq![]
    } else {
        url_encode_bytes(bs.drop_last()) + encode_byte(bs.last())
    }
}

/// The address the browser loads for what the user typed: the trimmed text
/// itself when it already has an `http://` or `https://` scheme, `https://`
/// before it when it looks like a host name (it has a dot and no space),
/// and otherwise a web search for it.
pub open spec fn url_with_scheme(url: Seq<char>) -> Seq<char> {
    let t = trim_white_space(url);
    if starts_with(t, "http://"@) || starts_with(t, "https://"@) {
        t
    } else if t.contains('.') && !t.contains(' ') {
        "https://"@ + t
    } else {
        "https://www.google.com/search?q="@ + url_encode_bytes(vstd::utf8::encode_utf8(t))
    }
}

/// Characters that can appear in a form-encoded string: unreserved ASCII, `+` and `%`.
pub open spec fn is_url_safe_char(c: char) -> bool {
    ||| 'A' <= c <= 'Z'
    ||| 'a' <= c <= 'z'
    ||| '0' <= c <= '9'
    ||| c == '-'
    ||| c == '_'
    ||| c == '.'
    ||| c == '~'
    ||| c == '+'
    ||| c == '%'
}

/// Form encoding only ever produces URL-safe characters, whatever the input bytes.
pub proof fn lemma_url_encode_bytes_safe(bs: Seq<u8>)
    ensures
        forall|i: int|
            0 <= i < url_encode_bytes(bs).len() ==> is_url_safe_char(#[trigger] url_encode_bytes(bs)[i]),
    decreases bs.len(),
{
    if bs.len() > 0 {
        lemma_url_encode_bytes_safe(bs.drop_last());
        let b = bs.last();
        assert(b / 16 < 16);
        assert(b % 16 < 16);
        let e = encode_byte(b);
        assert forall|j: int| 0 <= j < e.len() implies is_url_safe_char(#[trigger] e[j]) by {
            if is_unreserved_byte(b) {
                assert(e[j] == b as char);
            }
        }
        let prev = url_encode_bytes(bs.drop_last());
        assert(url_encode_bytes(bs) == prev + e);
        assert forall|i: int| 0 <= i < url_encode_bytes(bs).len() implies is_url_safe_char(
            #[trigger] url_encode_bytes(bs)[i],
        ) by {
            if i < prev.len() {
                assert(url_encode_bytes(bs)[i] == prev[i]);
            } else {
                assert(url_encode_bytes(bs)[i] == e[i - prev.len()]);
            }
        }
    }
}

/// Whatever the user typed, the address loaded has an `http://` or `https://` scheme.
pub proof fn lemma_url_with_scheme_has_scheme(url: Seq<char>)
    ensures
        starts_with(url_with_scheme(url), "http://"@) || starts_with(url_with_scheme(url), "https://"@),
{
    reveal_strlit("https://");
    reveal_strlit("https://www.google.com/search?q=");
    let t = trim_white_space(url);
    if starts_with(t, "http://"@) || starts_with(t, "https://"@) {
    } else if t.contains('.') && !t.contains(' ') {
        assert(("https://"@ + t).subrange(0, 8) =~= "https://"@);
    } else {
        let r = "https://www.google.com/search?q="@ + url_encode_bytes(vstd::utf8::encode_utf8(t));
        assert(r.subrange(0, 8) =~= "https://"@);
    }
}

/// A string that begins and ends with non-white-space characters is its own trim.
proof fn lemma_trim_white_space_fixed(s: Seq<char>)
    requires
        s.len() > 0,
        !is_white_space(s[0]),
        !is_white_space(s.last()),
    ensures
        trim_white_space(s) == s,
{
}

/// Normalising an address that was already normalised changes nothing.
pub proof fn lemma_url_with_scheme_idempotent(url: Seq<char>)
    ensures
        url_with_scheme(url_with_scheme(url)) == url_with_scheme(url),
{
    reveal_strlit("https://");
    reveal_strlit("https://www.google.com/search?q=");
    let t = trim_white_space(url);
    let r = url_with_scheme(url);
    lemma_trim_white_space_ends(url);
    lemma_url_with_scheme_has_scheme(url);
    if starts_with(t, "http://"@) || starts_with(t, "https://"@) {
        lemma_trim_white_space_idempotent(url);
        assert(trim_white_space(r) == r);
    } else if t.contains('.') && !t.contains(' ') {
        assert(t.len() > 0);
        let p = "https://"@;
        assert(r == p + t);
        assert(r[0] == 'h');
        assert(r.last() == t.last());
        lemma_trim_white_space_fixed(r);
    } else {
        let g = "https://www.google.com/search?q="@;
        let e = url_encode_bytes(vstd::utf8::encode_utf8(t));
        assert(r == g + e);
        assert(r[0] == 'h');
        if e.len() == 0 {
            assert(r.last() == '=');
        } else {
            lemma_url_encode_bytes_safe(vstd::utf8::encode_utf8(t));
            assert(r.last() == e[e.len() - 1]);
            assert(is_url_safe_char(e[e.len() - 1]));
        }
        lemma_trim_white_space_fixed(r);
    }
}

fn hex_digit(n: u8) -> (c: char)
    requires
        n < 16,
    ensures
        c == hex_digit_char(n as int),
{
    if n < 10 {
        (48u8 + n) as char
    } else {
        (55u8 + n) as char
    }
}

fn is_unreserved(b: u8) -> (r: bool)
    ensures
        r == is_unreserved_byte(b),
{
    (0x41 <= b && b <= 0x5a) || (0x61 <= b && b <= 0x7a) || (0x30 <= b && b <= 0x39) || b == 0x2d
        || b == 0x5f || b == 0x2e || b == 0x7e
}

/// Form-encodes the UTF-8 bytes of `s`: unreserved bytes stay, a space
/// becomes `+`, every other byte becomes `%` and two upper-case hex digits.
pub fn urlencoding_simple(s: &str) -> (r: String)
    ensures
        r@ == url_encode_bytes(s.spec_bytes()),
{
    let bytes = s.as_bytes();
    let mut result = String::new();
    let mut i: usize = 0;
    while i < bytes.len()
        invariant
            bytes@ == s.spec_bytes(),
            i <= bytes@.len(),
            result@ == url_encode_bytes(bytes@.take(i as int)),
        decreases bytes@.len() - i,
    {
        let b: u8 = bytes[i];
        proof {
            assert(bytes@.take(i + 1).drop_last() =~= bytes@.take(i as int));
            assert(bytes@.take(i + 1).last() == b);
        }
        if is_unreserved(b) {
            push_char(&mut result, b as char);
        } else if b == 0x20 {
            push_char(&mut result, '+');
        } else {
            push_char(&mut result, '%');
            push_char(&mut result, hex_digit(b / 16));
            push_char(&mut result, hex_digit(b % 16));
        }
        assert(result@ =~= url_encode_bytes(bytes@.take(i + 1)));
        i = i + 1;
    }
    assert(bytes@.take(bytes@.len() as int) =~= bytes@);
    result
}

/// Turns what the user typed into an address to load (see `url_with_scheme`).
pub fn ensure_url_scheme(url: &str) -> (r: String)
    ensures
        r@ == url_with_scheme(url@),
{
    let trimmed = trim(url);
    let cs = chars_of(trimmed);
    if chars_start_with(&cs, "http://") || chars_start_with(&cs, "https://") {
        trimmed.to_string()
    } else if chars_contain(&cs, '.') && !chars_contain(&cs, ' ') {
        let mut r = "https://".to_string();
        r.append(trimmed);
        r
    } else {
        let mut r = "https://www.google.com/search?q=".to_string();
        let encoded = urlencoding_simple(trimmed);
        r.append(encoded.as_str());
        r
    }
}

/// The value of an upper-case hexadecimal digit.
pub open spec fn hex_value(c: char) -> int {
    if '0' <= c <= '9' {
        c as int - 48
    } else {
        c as int - 55
    }
}

/// Form decoding, read from the end: `%XY` is the byte with hexadecimal
/// digits `XY`, `+` is a space, and any other character is its own byte.
pub open spec fn form_decode(cs: Seq<char>) -> Seq<u8>
    decreases cs.len(),
{
    if cs.len() == 0 {
        seq![]
    } else if cs.len() >= 3 && cs[cs.len() - 3] == '%' {
        form_decode(cs.subrange(0, cs.len() - 3)).push(
            (hex_value(cs[cs.len() - 2]) * 16 + hex_value(cs[cs.len() - 1])) as u8,
        )
    } else if cs.last() == '+' {
        form_decode(cs.drop_last()).push(0x20u8)
    } else {
        form_decode(cs.drop_last()).push(cs.last() as u8)
    }
}

/// Neither of the last two characters of a form encoding is `%`.
proof fn lemma_encoding_ends_without_percent(bs: Seq<u8>)
    ensures
        url_encode_bytes(bs).len() >= 1 ==> url_encode_bytes(bs).last() != '%',
        url_encode_bytes(bs).len() >= 2 ==> url_encode_bytes(bs)[url_encode_bytes(bs).len() - 2]
            != '%',
    decreases bs.len(),
{
    if bs.len() > 0 {
        let p = url_encode_bytes(bs.drop_last());
        let b = bs.last();
        let e = encode_byte(b);
        lemma_encoding_ends_without_percent(bs.drop_last());
        assert(url_encode_bytes(bs) == p + e);
        assert(b / 16 < 16 && b % 16 < 16);
        if e.len() == 1 && p.len() >= 1 {
            assert((p + e)[(p + e).len() - 2] == p.last());
        }
    }
}

/// Decoding what form encoding produced gives back the bytes: `+` only ever
/// stands for a space and every other byte that is not unreserved is
/// written as `%` and its two hexadecimal digits.
pub proof fn lemma_url_encode_bytes_decodes(bs: Seq<u8>)
    ensures
        form_decode(url_encode_bytes(bs)) == bs,
    decreases bs.len(),
{
    if bs.len() > 0 {
        let rest = bs.drop_last();
        let p = url_encode_bytes(rest);
        let b = bs.last();
        let e = encode_byte(b);
        let cs = url_encode_bytes(bs);
        lemma_url_encode_bytes_decodes(rest);
        lemma_encoding_ends_without_percent(rest);
        assert(cs == p + e);
        assert(b / 16 < 16 && b % 16 < 16);
        if e.len() == 3 {
            assert(cs[cs.len() - 3] == '%');
            assert(cs.subrange(0, cs.len() - 3) =~= p);
            assert(cs[cs.len() - 2] == hex_digit_char((b / 16) as int));
            assert(cs[cs.len() - 1] == hex_digit_char((b % 16) as int));
            assert(hex_value(hex_digit_char((b / 16) as int)) == b / 16);
            assert(hex_value(hex_digit_char((b % 16) as int)) == b % 16);
        } else {
            assert(cs.drop_last() =~= p);
            if cs.len() >= 3 {
                assert(cs[cs.len() - 3] == p[p.len() - 2]);
            }
        }
        assert(form_decode(cs) =~= bs);
    }
}

/// Form encoding never maps two byte strings to the same text.
pub proof fn lemma_url_encode_bytes_injective(a: Seq<u8>, b: Seq<u8>)
    requires
        url_encode_bytes(a) == url_encode_bytes(b),
    ensures
        a == b,
{
    lemma_url_encode_bytes_decodes(a);
    lemma_url_encode_bytes_decodes(b);
}

/// Text made of ASCII letters, digits, `-_.~` and spaces is encoded
/// character for character: each space as `+`, everything else as itself.
pub proof fn lemma_url_encode_plain_text(bs: Seq<u8>)
    requires
        forall|i: int| 0 <= i < bs.len() ==> is_unreserved_byte(#[trigger] bs[i]) || bs[i] == 0x20,
    ensures
        url_encode_bytes(bs).len() == bs.len(),
        forall|i: int|
            0 <= i < bs.len() ==> #[trigger] url_encode_bytes(bs)[i] == (if bs[i] == 0x20 {
                '+'
            } else {
                bs[i] as char
            }),
    decreases bs.len(),
{
    if bs.len() > 0 {
        let rest = bs.drop_last();
        assert forall|i: int| 0 <= i < rest.len() implies is_unreserved_byte(#[trigger] rest[i])
            || rest[i] == 0x20 by {
            assert(rest[i] == bs[i]);
        }
        lemma_url_encode_plain_text(rest);
        let p = url_encode_bytes(rest);
        assert(url_encode_bytes(bs) == p + encode_byte(bs.last()));
        assert(is_unreserved_byte(bs[bs.len() - 1]) || bs[bs.len() - 1] == 0x20);
        assert forall|i: int| 0 <= i < bs.len() implies #[trigger] url_encode_bytes(bs)[i] == (if bs[i]
            == 0x20 {
            '+'
        } else {
            bs[i] as char
        }) by {
            if i < rest.len() {
                assert(rest[i] == bs[i]);
            }
        }
    }
}

/// The address depends only on the trimmed input: white space around what
/// the user typed changes nothing.
pub proof fn lemma_url_with_scheme_ignores_surrounding_space(url: Seq<char>)
    ensures
        url_with_scheme(url) == url_with_scheme(trim_white_space(url)),
{
    lemma_trim_white_space_idempotent(url);
}

/// When the input becomes a search, the query decodes back to exactly the
/// UTF-8 bytes of the trimmed input.
pub proof fn lemma_search_query_decodes(url: Seq<char>)
    ensures
        ({
            let t = trim_white_space(url);
            let g = "https://www.google.com/search?q="@;
            !(starts_with(t, "http://"@) || starts_with(t, "https://"@)) && !(t.contains('.')
                && !t.contains(' ')) ==> starts_with(url_with_scheme(url), g) && form_decode(
                url_with_scheme(url).subrange(g.len() as int, url_with_scheme(url).len() as int),
            ) == vstd::utf8::encode_utf8(t)
        }),
{
    let t = trim_white_space(url);
    let g = "https://www.google.com/search?q="@;
    let q = url_encode_bytes(vstd::utf8::encode_utf8(t));
    if !(starts_with(t, "http://"@) || starts_with(t, "https://"@)) && !(t.contains('.')
        && !t.contains(' ')) {
        let r = url_with_scheme(url);
        assert(r == g + q);
        assert(r.subrange(0, g.len() as int) =~= g);
        assert(r.subrange(g.len() as int, r.len() as int) =~= q);
        lemma_url_encode_bytes_decodes(vstd::utf8::encode_utf8(t));
    }
}

/// Input that, once trimmed, already has an `http://` or `https://` scheme is
/// loaded exactly as typed (without the surrounding white space).
pub proof fn lemma_url_with_scheme_keeps_full_urls(url: Seq<char>)
    requires
        starts_with(trim_white_space(url), "http://"@) || starts_with(
            trim_white_space(url),
            "https://"@,
        ),
    ensures
        url_with_scheme(url) == trim_white_space(url),
{
}

/// Input that, once trimmed, has no scheme but a dot and no space is taken
/// for a host name and loaded over `https://`.
pub proof fn lemma_url_with_scheme_host_names(url: Seq<char>)
    requires
        !starts_with(trim_white_space(url), "http://"@),
        !starts_with(trim_white_space(url), "https://"@),
        trim_white_space(url).contains('.'),
        !trim_white_space(url).contains(' '),
    ensures
        url_with_scheme(url) == "https://"@ + trim_white_space(url),
{
}

} // verus!

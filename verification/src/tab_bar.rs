//! Titles shown on the buttons of the tab bar.

use vstd::prelude::*;
use vstd::string::StringSliceAdditionalSpecFns;
use vstd::utf8::{decode_utf8, encode_utf8, is_char_boundary};

verus! {

/// The title a tab button shows: `New Tab` for an untitled tab; a title of
/// more than 20 UTF-8 bytes is cut to its first 17 bytes followed by `...`.
pub open spec fn tab_button_title_of(title: Seq<char>) -> Seq<char> {
    if title.len() == 0 {
        "New Tab"@
    } else if encode_utf8(title).len() > 20 {
        decode_utf8(encode_utf8(title).subrange(0, 17)) + "..."@
    } else {
        title
    }
}

/// The title shown on the button of a tab titled `title`.
///
/// A title longer than 20 bytes is cut at byte 17, which must therefore
/// fall on a character boundary.
pub fn tab_button_title(title: &str) -> (r: String)
    requires
        encode_utf8(title@).len() <= 20 || is_char_boundary(encode_utf8(title@), 17),
    ensures
        r@ == tab_button_title_of(title@),
{
    if title.is_empty() {
        return "New Tab".to_string();
    }
    if title.as_bytes().len() > 20 {
        let (head, _tail) = title.split_at(17);
        proof {
            broadcast use vstd::utf8::encode_utf8_decode_utf8;

            assert(decode_utf8(encode_utf8(head@)) == head@);
        }
        let mut r = head.to_string();
        r.append("...");
        r
    } else {
        title.to_string()
    }
}

/// The UTF-8 encoding of a concatenation is the concatenation of the encodings.
pub proof fn lemma_encode_utf8_concat(a: Seq<char>, b: Seq<char>)
    ensures
        encode_utf8(a + b) == encode_utf8(a) + encode_utf8(b),
    decreases a.len(),
{
    if a.len() == 0 {
        assert(a + b =~= b);
    } else {
        lemma_encode_utf8_concat(a.drop_first(), b);
        assert((a + b).drop_first() =~= a.drop_first() + b);
        assert((a + b)[0] == a[0]);
    }
}

/// An ASCII string encodes to as many bytes as it has characters.
proof fn lemma_ascii_literal_len(s: Seq<char>)
    requires
        vstd::utf8::is_ascii_chars(s),
    ensures
        encode_utf8(s).len() == s.len(),
{
    vstd::utf8::is_ascii_chars_encode_utf8(s);
}

/// A tab button never shows more than 20 bytes of text. A title longer than
/// that is shown as its first 17 bytes followed by `...`; a shorter title is
/// shown as it is, and an empty one as `New Tab`.
pub proof fn lemma_tab_button_title_fits(title: Seq<char>)
    requires
        encode_utf8(title).len() <= 20 || is_char_boundary(encode_utf8(title), 17),
    ensures
        encode_utf8(tab_button_title_of(title)).len() <= 20,
        encode_utf8(title).len() > 20 ==> ({
            let shown = encode_utf8(tab_button_title_of(title));
            &&& shown.len() == 20
            &&& shown.subrange(0, 17) == encode_utf8(title).subrange(0, 17)
            &&& shown.subrange(17, 20) == seq![46u8, 46u8, 46u8]
        }),
        0 < title.len() && encode_utf8(title).len() <= 20 ==> tab_button_title_of(title) == title,
        title.len() == 0 ==> tab_button_title_of(title) == "New Tab"@,
{
    reveal_strlit("New Tab");
    reveal_strlit("...");
    assert(vstd::utf8::is_ascii_chars("New Tab"@));
    assert(vstd::utf8::is_ascii_chars("..."@));
    lemma_ascii_literal_len("New Tab"@);
    lemma_ascii_literal_len("..."@);
    vstd::utf8::is_ascii_chars_encode_utf8("..."@);
    let bytes = encode_utf8(title);
    if title.len() > 0 && bytes.len() > 20 {
        vstd::utf8::encode_utf8_valid_utf8(title);
        let head = bytes.subrange(0, 17);
        vstd::utf8::valid_utf8_split(bytes, 17);
        vstd::utf8::decode_utf8_encode_utf8(head);
        lemma_encode_utf8_concat(decode_utf8(head), "..."@);
        let shown = encode_utf8(tab_button_title_of(title));
        assert(shown == head + encode_utf8("..."@));
        assert(shown.subrange(0, 17) =~= head);
        assert(shown.subrange(17, 20) =~= seq![46u8, 46u8, 46u8]);
    }
}

} // verus!

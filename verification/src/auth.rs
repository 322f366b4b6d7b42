//! The API-key check of the container pilot.
use vstd::prelude::*;
use vstd::utf8::{decode_utf8, encode_utf8, encode_utf8_decode_utf8, is_ascii_chars, is_ascii_chars_encode_utf8};

verus! {

/// A byte that a header value may hold when read as text: visible ASCII
/// or a horizontal tab.
pub open spec fn is_visible_ascii(b: u8) -> bool {
    (32 <= b && b < 127) || b == 9
}

/// Every byte of `bytes` is visible ASCII.
pub open spec fn all_visible_ascii(bytes: Seq<u8>) -> bool {
    forall|i: int| 0 <= i < bytes.len() ==> is_visible_ascii(#[trigger] bytes[i])
}

/// The header value read as text: its bytes as characters when they are
/// all visible ASCII, and the empty text when they are not or when the
/// header is missing.
pub open spec fn header_text(header: Option<Seq<u8>>) -> Seq<char> {
    match header {
        Some(bytes) => if all_visible_ascii(bytes) {
            Seq::new(bytes.len(), |i: int| bytes[i] as char)
        } else {
            Seq::empty()
        },
        None => Seq::empty(),
    }
}

/// A request whose API-key header is `header` may use the API protected by
/// `api_key`: the header, read as text, equals the key.
pub open spec fn authorized(header: Option<Seq<u8>>, api_key: Seq<char>) -> bool {
    header_text(header) == api_key
}

/// Whether every byte is visible ASCII, as `HeaderValue::to_str` decides
/// whether a header value can be read as text.
pub fn is_visible_text(bytes: &[u8]) -> (res: bool)
    ensures
        res == all_visible_ascii(bytes@),
{
    let mut i: usize = 0;
    while i < bytes.len()
        invariant
            i <= bytes.len(),
            forall|j: int| 0 <= j < i ==> is_visible_ascii(#[trigger] bytes@[j]),
        decreases bytes.len() - i,
    {
        let b = bytes[i];
        if !((32 <= b && b < 127) || b == 9) {
            return false;
        }
        i = i + 1;
    }
    true
}

/// Whether two byte strings are equal.
pub(crate) fn bytes_equal(a: &[u8], b: &[u8]) -> (res: bool)
    ensures
        res == (a@ == b@),
{
    if a.len() != b.len() {
        return false;
    }
    let mut i: usize = 0;
    while i < a.len()
        invariant
            a.len() == b.len(),
            i <= a.len(),
            forall|j: int| 0 <= j < i ==> a@[j] == b@[j],
        decreases a.len() - i,
    {
        if a[i] != b[i] {
            return false;
        }
        i = i + 1;
    }
    assert(a@ =~= b@);
    true
}

/// For visible-ASCII bytes, the bytes equal the UTF-8 encoding of `key`
/// exactly when the bytes read as text equal `key`.
pub(crate) proof fn lemma_visible_bytes_match_key(bytes: Seq<u8>, key: Seq<char>)
    requires
        all_visible_ascii(bytes),
    ensures
        (bytes == encode_utf8(key)) == (header_text(Some(bytes)) == key),
{
    let text = header_text(Some(bytes));
    assert forall|i: int| 0 <= i < text.len() implies '\0' <= #[trigger] text[i] <= '\u{7f}' by {
        assert(is_visible_ascii(bytes[i]));
    }
    assert(is_ascii_chars(text));
    is_ascii_chars_encode_utf8(text);
    assert forall|i: int| 0 <= i < bytes.len() implies #[trigger] encode_utf8(text)[i] == bytes[i] by {
        assert(text[i] as u8 == encode_utf8(text)[i]);
        assert(is_visible_ascii(bytes[i]));
    }
    assert(encode_utf8(text) =~= bytes);
    if bytes == encode_utf8(key) {
        encode_utf8_decode_utf8(key);
        encode_utf8_decode_utf8(text);
    }
}

/// A character that a header value read as text can hold.
pub open spec fn is_visible_char(c: char) -> bool {
    (' ' <= c && c <= '~') || c == '\t'
}

/// Without the header, only the empty key lets a request through.
pub proof fn law_missing_header(api_key: Seq<char>)
    ensures
        authorized(None, api_key) <==> api_key.len() == 0,
{
    if api_key.len() == 0 {
        assert(api_key =~= Seq::<char>::empty());
    }
}

/// A request that sends a key of visible characters, as its UTF-8 bytes,
/// is let through by exactly that key.
pub proof fn law_key_accepted(api_key: Seq<char>, other: Seq<char>)
    requires
        forall|i: int| 0 <= i < api_key.len() ==> is_visible_char(#[trigger] api_key[i]),
    ensures
        authorized(Some(encode_utf8(api_key)), api_key),
        authorized(Some(encode_utf8(api_key)), other) <==> other == api_key,
{
    assert(is_ascii_chars(api_key));
    is_ascii_chars_encode_utf8(api_key);
    let bytes = encode_utf8(api_key);
    assert forall|i: int| 0 <= i < bytes.len() implies is_visible_ascii(#[trigger] bytes[i]) by {
        assert(api_key[i] as u8 == bytes[i]);
        assert(is_visible_char(api_key[i]));
    }
    lemma_visible_bytes_match_key(bytes, api_key);
}

/// A key that holds a character no header text can hold lets no request
/// through.
pub proof fn law_unmatchable_key(header: Option<Seq<u8>>, api_key: Seq<char>, i: int)
    requires
        0 <= i < api_key.len(),
        !is_visible_char(api_key[i]),
    ensures
        !authorized(header, api_key),
{
    let text = header_text(header);
    if text == api_key {
        match header {
            Some(bytes) => {
                assert(all_visible_ascii(bytes));
                assert(is_visible_ascii(bytes[i]));
                assert(text[i] == bytes[i] as char);
            },
            None => {},
        }
    }
}

} // verus!

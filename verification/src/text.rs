//! Header values as text: which strings a header value can hold, and how the
//! bytes of a value read as characters.

use crate::headers::{is_field, is_field_byte, is_text};
use vstd::prelude::*;
use vstd::utf8::{
    decode_utf8, encode_scalar, encode_utf8, encode_utf8_decode_utf8, is_ascii_chars,
    is_ascii_chars_encode_utf8,
};

verus! {

/// Bytes read as characters, one for one. For ASCII bytes this is the text
/// that they spell.
pub open spec fn ascii_text(bytes: Seq<u8>) -> Seq<char> {
    Seq::new(bytes.len(), |i: int| bytes[i] as char)
}

/// A character that a header value may hold: anything but the ASCII control
/// characters, the tab excepted.
pub open spec fn is_field_char(c: char) -> bool {
    (32 <= c as u32 && c as u32 != 127) || c as u32 == 9
}

/// A string that can be written into a header value: each of its characters
/// is one that a header value may hold.
pub open spec fn is_encodable(text: Seq<char>) -> bool {
    forall|i: int| 0 <= i < text.len() ==> is_field_char(#[trigger] text[i])
}

/// Text bytes are ASCII, so they decode to the characters that they spell,
/// and those characters encode back to the same bytes.
pub proof fn lemma_text_decodes(bytes: Seq<u8>)
    requires
        is_text(bytes),
    ensures
        decode_utf8(bytes) == ascii_text(bytes),
        encode_utf8(ascii_text(bytes)) == bytes,
        is_encodable(ascii_text(bytes)),
{
    let chars = ascii_text(bytes);
    assert forall|i: int| 0 <= i < chars.len() implies '\0' <= #[trigger] chars[i] <= '\u{7f}' by {
        assert(bytes[i] < 128);
    }
    assert(is_ascii_chars(chars));
    is_ascii_chars_encode_utf8(chars);
    assert forall|i: int| 0 <= i < bytes.len() implies encode_utf8(chars)[i] == bytes[i] by {
        assert(chars[i] as u8 == encode_utf8(chars)[i]);
        assert(bytes[i] < 128);
    }
    assert(encode_utf8(chars) =~= bytes);
    encode_utf8_decode_utf8(chars);
    assert forall|i: int| 0 <= i < chars.len() implies is_field_char(#[trigger] chars[i]) by {
        assert(bytes[i] < 128);
    }
}

/// A character may stand in a header value exactly if each byte of its
/// UTF-8 encoding may.
pub proof fn lemma_field_char_bytes(c: char)
    ensures
        is_field(encode_scalar(c as u32)) <==> is_field_char(c),
{
    let v = c as u32;
    let bytes = encode_scalar(v);
    if v <= 0x7f {
        assert((v & 0x7f) as u8 == v) by (bit_vector)
            requires
                v <= 0x7f,
        ;
        assert(bytes.len() == 1 && bytes[0] == v);
        if is_field_char(c) {
            assert(is_field(bytes));
        }
        if is_field(bytes) {
            assert(is_field_byte(bytes[0]));
        }
    } else {
        assert(forall|x: u32| 0xC0u8 | ((x >> 6) & 0x1F) as u8 >= 0x80) by (bit_vector);
        assert(forall|x: u32| 0xE0u8 | ((x >> 12) & 0x0F) as u8 >= 0x80) by (bit_vector);
        assert(forall|x: u32| 0xF0u8 | ((x >> 18) & 0x7) as u8 >= 0x80) by (bit_vector);
        assert(forall|x: u32| 0x80u8 | (x & 0x3F) as u8 >= 0x80) by (bit_vector);
        assert(forall|x: u32| 0x80u8 | ((x >> 6) & 0x3F) as u8 >= 0x80) by (bit_vector);
        assert(forall|x: u32| 0x80u8 | ((x >> 12) & 0x3F) as u8 >= 0x80) by (bit_vector);
        assert forall|i: int| 0 <= i < bytes.len() implies is_field_byte(#[trigger] bytes[i]) by {
            assert(bytes[i] >= 0x80);
        }
    }
}

/// Bytes joined end to end may stand in a header value exactly if both
/// parts may.
pub proof fn lemma_field_concat(a: Seq<u8>, b: Seq<u8>)
    ensures
        is_field(a + b) <==> is_field(a) && is_field(b),
{
    let joined = a + b;
    if is_field(joined) {
        assert forall|i: int| 0 <= i < a.len() implies is_field_byte(#[trigger] a[i]) by {
            assert(joined[i] == a[i]);
        }
        assert forall|i: int| 0 <= i < b.len() implies is_field_byte(#[trigger] b[i]) by {
            assert(joined[a.len() + i] == b[i]);
        }
    }
    if is_field(a) && is_field(b) {
        assert forall|i: int| 0 <= i < joined.len() implies is_field_byte(#[trigger] joined[i]) by {
            if i < a.len() {
                assert(joined[i] == a[i]);
            } else {
                assert(joined[i] == b[i - a.len()]);
            }
        }
    }
}

/// A string can be written into a header value exactly if its UTF-8 bytes
/// are all bytes that a header value may hold.
pub proof fn lemma_encodable_bytes(text: Seq<char>)
    ensures
        is_encodable(text) <==> is_field(encode_utf8(text)),
    decreases text.len(),
{
    if text.len() == 0 {
        assert(encode_utf8(text).len() == 0);
    } else {
        let rest = text.drop_first();
        lemma_encodable_bytes(rest);
        lemma_field_char_bytes(text[0]);
        lemma_field_concat(encode_scalar(text[0] as u32), encode_utf8(rest));
        if is_encodable(text) {
            assert forall|i: int| 0 <= i < rest.len() implies is_field_char(#[trigger] rest[i]) by {
                assert(rest[i] == text[i + 1]);
            }
        }
        if is_encodable(rest) && is_field_char(text[0]) {
            assert forall|i: int| 0 <= i < text.len() implies is_field_char(#[trigger] text[i]) by {
                if i > 0 {
                    assert(text[i] == rest[i - 1]);
                }
            }
        }
    }
}

/// Two strings joined end to end can be written into a header value exactly
/// if both can.
pub proof fn lemma_encodable_concat(a: Seq<char>, b: Seq<char>)
    ensures
        is_encodable(a + b) <==> is_encodable(a) && is_encodable(b),
{
    let joined = a + b;
    if is_encodable(joined) {
        assert forall|i: int| 0 <= i < a.len() implies is_field_char(#[trigger] a[i]) by {
            assert(joined[i] == a[i]);
        }
        assert forall|i: int| 0 <= i < b.len() implies is_field_char(#[trigger] b[i]) by {
            assert(joined[a.len() + i] == b[i]);
        }
    }
    if is_encodable(a) && is_encodable(b) {
        assert forall|i: int| 0 <= i < joined.len() implies is_field_char(#[trigger] joined[i]) by {
            if i < a.len() {
                assert(joined[i] == a[i]);
            } else {
                assert(joined[i] == b[i - a.len()]);
            }
        }
    }
}

} // verus!

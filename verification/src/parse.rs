//! Response text decoding.
//!
//! Xtream servers frequently base64-encode EPG titles and descriptions.
//! This module decodes such fields transparently and leaves plain text alone.

use crate::text::{is_white_space, owned, trim_white, trim_white_space};
use base64::Engine;
use vstd::prelude::*;
use vstd::string::StringSliceAdditionalSpecFns;
use vstd::utf8::{decode_utf8, valid_utf8};

verus! {

// ---------------------------------------------------------------------------
// Standard base64 (RFC 4648 alphabet, canonical `=` padding)
// ---------------------------------------------------------------------------

/// The ASCII symbol of a 6-bit value in the standard base64 alphabet.
pub open spec fn base64_symbol(v: int) -> u8 {
    if v < 26 {
        (65 + v) as u8
    } else if v < 52 {
        (97 + (v - 26)) as u8
    } else if v < 62 {
        (48 + (v - 52)) as u8
    } else if v == 62 {
        43u8
    } else {
        47u8
    }
}

/// The padded standard base64 encoding of `bytes`.
pub open spec fn standard_base64(bytes: Seq<u8>) -> Seq<u8>
    decreases bytes.len(),
{
    if bytes.len() == 0 {
        seq![]
    } else if bytes.len() == 1 {
        let b0 = bytes[0] as int;
        seq![base64_symbol(b0 / 4), base64_symbol((b0 % 4) * 16), 61u8, 61u8]
    } else if bytes.len() == 2 {
        let b0 = bytes[0] as int;
        let b1 = bytes[1] as int;
        seq![
            base64_symbol(b0 / 4),
            base64_symbol((b0 % 4) * 16 + b1 / 16),
            base64_symbol((b1 % 16) * 4),
            61u8,
        ]
    } else {
        let b0 = bytes[0] as int;
        let b1 = bytes[1] as int;
        let b2 = bytes[2] as int;
        seq![
            base64_symbol(b0 / 4),
            base64_symbol((b0 % 4) * 16 + b1 / 16),
            base64_symbol((b1 % 16) * 4 + b2 / 64),
            base64_symbol(b2 % 64),
        ] + standard_base64(bytes.subrange(3, bytes.len() as int))
    }
}

proof fn lemma_symbol_injective(x: int, y: int)
    requires
        0 <= x < 64,
        0 <= y < 64,
        base64_symbol(x) == base64_symbol(y),
    ensures
        x == y,
{
}

proof fn lemma_symbol_not_pad(x: int)
    requires
        0 <= x < 64,
    ensures
        base64_symbol(x) != 61u8,
{
}

proof fn lemma_group_injective(a0: u8, a1: u8, a2: u8, b0: u8, b1: u8, b2: u8)
    requires
        a0 / 4 == b0 / 4,
        (a0 % 4) * 16 + a1 / 16 == (b0 % 4) * 16 + b1 / 16,
        (a1 % 16) * 4 + a2 / 64 == (b1 % 16) * 4 + b2 / 64,
        a2 % 64 == b2 % 64,
    ensures
        a0 == b0,
        a1 == b1,
        a2 == b2,
{
    assert(a0 == b0 && a1 == b1 && a2 == b2) by (bit_vector)
        requires
            a0 / 4 == b0 / 4,
            (a0 % 4) * 16 + a1 / 16 == (b0 % 4) * 16 + b1 / 16,
            (a1 % 16) * 4 + a2 / 64 == (b1 % 16) * 4 + b2 / 64,
            a2 % 64 == b2 % 64,
    ;
}

proof fn lemma_base64_shape(bytes: Seq<u8>)
    ensures
        bytes.len() == 0 <==> standard_base64(bytes).len() == 0,
        bytes.len() > 0 ==> standard_base64(bytes).len() >= 4,
        bytes.len() == 1 ==> standard_base64(bytes)[2] == 61u8,
        bytes.len() >= 2 ==> standard_base64(bytes)[2] != 61u8,
        bytes.len() == 2 ==> standard_base64(bytes)[3] == 61u8,
        bytes.len() >= 3 ==> standard_base64(bytes)[3] != 61u8,
    decreases bytes.len(),
{
    if bytes.len() >= 2 {
        let b0 = bytes[0] as int;
        let b1 = bytes[1] as int;
        lemma_symbol_not_pad((b1 % 16) * 4 + if bytes.len() >= 3 { bytes[2] as int / 64 } else { 0 });
        if bytes.len() >= 3 {
            lemma_symbol_not_pad(bytes[2] as int % 64);
            lemma_base64_shape(bytes.subrange(3, bytes.len() as int));
        }
    }
}

/// Distinct byte strings have distinct standard base64 encodings.
pub proof fn lemma_base64_injective(a: Seq<u8>, b: Seq<u8>)
    requires
        standard_base64(a) == standard_base64(b),
    ensures
        a == b,
    decreases a.len(),
{
    lemma_base64_shape(a);
    lemma_base64_shape(b);
    let ea = standard_base64(a);
    if a.len() == 0 {
        assert(b.len() == 0);
        assert(a =~= b);
    } else {
        assert(b.len() > 0);
        let a0 = a[0];
        let b0 = b[0];
        if a.len() == 1 {
            assert(b.len() == 1);
            lemma_symbol_injective(a0 as int / 4, b0 as int / 4);
            lemma_symbol_injective((a0 as int % 4) * 16, (b0 as int % 4) * 16);
            lemma_group_injective(a0, 0, 0, b0, 0, 0);
            assert(a =~= b);
        } else if a.len() == 2 {
            assert(b.len() == 2);
            let a1 = a[1];
            let b1 = b[1];
            lemma_symbol_injective(a0 as int / 4, b0 as int / 4);
            lemma_symbol_injective(
                (a0 as int % 4) * 16 + a1 as int / 16,
                (b0 as int % 4) * 16 + b1 as int / 16,
            );
            lemma_symbol_injective((a1 as int % 16) * 4, (b1 as int % 16) * 4);
            lemma_group_injective(a0, a1, 0, b0, b1, 0);
            assert(a =~= b);
        } else {
            assert(b.len() >= 3);
            let a1 = a[1];
            let b1 = b[1];
            let a2 = a[2];
            let b2 = b[2];
            let ta = a.subrange(3, a.len() as int);
            let tb = b.subrange(3, b.len() as int);
            let ha = seq![
                base64_symbol(a0 as int / 4),
                base64_symbol((a0 as int % 4) * 16 + a1 as int / 16),
                base64_symbol((a1 as int % 16) * 4 + a2 as int / 64),
                base64_symbol(a2 as int % 64),
            ];
            let hb = seq![
                base64_symbol(b0 as int / 4),
                base64_symbol((b0 as int % 4) * 16 + b1 as int / 16),
                base64_symbol((b1 as int % 16) * 4 + b2 as int / 64),
                base64_symbol(b2 as int % 64),
            ];
            assert(ea == ha + standard_base64(ta));
            assert(standard_base64(b) == hb + standard_base64(tb));
            assert(ea[0] == ha[0] && ea[1] == ha[1] && ea[2] == ha[2] && ea[3] == ha[3]);
            assert(ea[0] == hb[0] && ea[1] == hb[1] && ea[2] == hb[2] && ea[3] == hb[3]);
            lemma_symbol_injective(a0 as int / 4, b0 as int / 4);
            lemma_symbol_injective(
                (a0 as int % 4) * 16 + a1 as int / 16,
                (b0 as int % 4) * 16 + b1 as int / 16,
            );
            lemma_symbol_injective(
                (a1 as int % 16) * 4 + a2 as int / 64,
                (b1 as int % 16) * 4 + b2 as int / 64,
            );
            lemma_symbol_injective(a2 as int % 64, b2 as int % 64);
            lemma_group_injective(a0, a1, a2, b0, b1, b2);
            assert(standard_base64(a).subrange(4, ea.len() as int) =~= standard_base64(ta));
            assert(standard_base64(b).subrange(4, ea.len() as int) =~= standard_base64(tb));
            lemma_base64_injective(ta, tb);
            assert(a.len() == b.len());
            assert forall|i: int| 0 <= i < a.len() implies a[i] == b[i] by {
                if i >= 3 {
                    assert(a[i] == ta[i - 3]);
                    assert(b[i] == tb[i - 3]);
                }
            }
            assert(a =~= b);
        }
    }
}

/// Decodes `text` with the `base64` crate's `STANDARD` engine.
///
/// That engine uses the standard alphabet, requires canonical `=` padding and
/// rejects non-zero trailing bits, so it succeeds exactly on the canonical
/// padded encodings: the contract states that the decoded bytes encode back
/// to `text`, and that no byte string does when decoding fails.
#[verifier::external_body]
fn decode_standard_base64(text: &str) -> (decoded: Option<Vec<u8>>)
    ensures
        match decoded {
            Some(bytes) => standard_base64(bytes@) == text.spec_bytes(),
            None => forall|bytes: Seq<u8>| standard_base64(bytes) != text.spec_bytes(),
        },
{
    base64::engine::general_purpose::STANDARD.decode(text).ok()
}

/// `String::from_utf8`: the text the bytes encode when they are valid UTF-8.
#[verifier::external_body]
fn utf8_text(bytes: Vec<u8>) -> (text: Option<String>)
    ensures
        match text {
            Some(s) => valid_utf8(bytes@) && s@ == decode_utf8(bytes@),
            None => !valid_utf8(bytes@),
        },
{
    String::from_utf8(bytes).ok()
}

// ---------------------------------------------------------------------------
// Base64 field decoding
// ---------------------------------------------------------------------------

/// Whether `bytes` is what `input` decodes to: the white-space-trimmed input
/// is the standard base64 encoding of `bytes`.
pub open spec fn base64_decodes_to(input: Seq<char>, bytes: Seq<u8>) -> bool {
    standard_base64(bytes) == vstd::utf8::encode_utf8(trim_white(input))
}

/// Whether `input` is replaced by `decoded`: it decodes to bytes that are
/// valid UTF-8 for `decoded`.
pub open spec fn decodes_as_text(input: Seq<char>, decoded: Seq<char>) -> bool {
    exists|bytes: Seq<u8>|
        #![trigger base64_decodes_to(input, bytes)]
        base64_decodes_to(input, bytes) && valid_utf8(bytes) && decode_utf8(bytes) == decoded
}

/// Whether `input` has a base64 text reading.
pub open spec fn has_text_reading(input: Seq<char>) -> bool {
    exists|decoded: Seq<char>| decodes_as_text(input, decoded)
}

/// The text of a field as the server meant it: the base64 text reading of
/// `input` when there is one, otherwise `input` itself.
pub open spec fn field_text(input: Seq<char>) -> Seq<char> {
    if input.len() > 0 && has_text_reading(input) {
        choose|decoded: Seq<char>| decodes_as_text(input, decoded)
    } else {
        input
    }
}

/// A field has at most one base64 text reading.
pub proof fn lemma_text_reading_unique(input: Seq<char>, d1: Seq<char>, d2: Seq<char>)
    requires
        decodes_as_text(input, d1),
        decodes_as_text(input, d2),
    ensures
        d1 == d2,
{
    let b1 = choose|bytes: Seq<u8>|
        #![trigger base64_decodes_to(input, bytes)]
        base64_decodes_to(input, bytes) && valid_utf8(bytes) && decode_utf8(bytes) == d1;
    let b2 = choose|bytes: Seq<u8>|
        #![trigger base64_decodes_to(input, bytes)]
        base64_decodes_to(input, bytes) && valid_utf8(bytes) && decode_utf8(bytes) == d2;
    lemma_base64_injective(b1, b2);
}

/// Plain-text law: a field without a base64 text reading is kept exactly
/// as it is, surrounding white space included; one with a reading becomes
/// that reading.
pub proof fn lemma_plain_text_unchanged(input: Seq<char>, decoded: Seq<char>)
    ensures
        !has_text_reading(input) ==> field_text(input) == input,
        input.len() > 0 && decodes_as_text(input, decoded) ==> field_text(input) == decoded,
{
    if input.len() > 0 && decodes_as_text(input, decoded) {
        let d = choose|d: Seq<char>| decodes_as_text(input, d);
        lemma_text_reading_unique(input, d, decoded);
    }
}

/// Whether a byte is a symbol of the standard base64 alphabet or the `=` pad.
pub open spec fn is_base64_byte(b: u8) -> bool {
    b == 43 || b == 47 || (48 <= b <= 57) || b == 61 || (65 <= b <= 90) || (97 <= b <= 122)
}

proof fn lemma_base64_alphabet(bytes: Seq<u8>)
    ensures
        forall|i: int|
            0 <= i < standard_base64(bytes).len() ==> is_base64_byte(
                #[trigger] standard_base64(bytes)[i],
            ),
    decreases bytes.len(),
{
    if bytes.len() >= 3 {
        let rest = bytes.subrange(3, bytes.len() as int);
        lemma_base64_alphabet(rest);
        let e = standard_base64(bytes);
        assert forall|i: int| 4 <= i < e.len() implies is_base64_byte(#[trigger] e[i]) by {
            assert(e[i] == standard_base64(rest)[i - 4]);
        }
    }
}

/// Decoding law: a field that holds the standard base64 encoding of the
/// UTF-8 bytes of a text is decoded to exactly that text.
pub proof fn lemma_base64_text_decodes(text: Seq<char>, field: Seq<char>)
    requires
        vstd::utf8::is_ascii_chars(field),
        vstd::utf8::encode_utf8(field) == standard_base64(vstd::utf8::encode_utf8(text)),
    ensures
        field_text(field) == text,
{
    let bytes = vstd::utf8::encode_utf8(text);
    vstd::utf8::encode_utf8_valid_utf8(text);
    vstd::utf8::encode_utf8_decode_utf8(text);
    vstd::utf8::is_ascii_chars_encode_utf8(field);
    lemma_base64_shape(bytes);
    lemma_base64_alphabet(bytes);
    if text.len() == 0 {
        assert(bytes.len() == 0);
        assert(field.len() == 0);
        assert(field =~= text);
    } else {
        assert(bytes.len() > 0) by {
            vstd::utf8::encode_utf8_first_scalar(text);
        }
        let enc = standard_base64(bytes);
        assert(field.len() > 0);
        assert forall|i: int| 0 <= i < field.len() implies !is_white_space(#[trigger] field[i]) by {
            assert(field[i] as u8 == enc[i]);
            assert(is_base64_byte(enc[i]));
            assert('\0' <= field[i] <= '\u{7f}');
        }
        assert(!is_white_space(field[0]));
        assert(!is_white_space(field.last()));
        assert(trim_white(field) == field);
        assert(base64_decodes_to(field, bytes));
        assert(decodes_as_text(field, text));
        assert(has_text_reading(field));
        let d = choose|d: Seq<char>| decodes_as_text(field, d);
        lemma_text_reading_unique(field, d, text);
    }
}

/// A field none of whose base64 decodings is valid UTF-8 has no text reading.
proof fn lemma_no_text_reading(input: Seq<char>)
    requires
        forall|b: Seq<u8>| #[trigger] base64_decodes_to(input, b) ==> !valid_utf8(b),
    ensures
        !has_text_reading(input),
{
    if has_text_reading(input) {
        let d = choose|d: Seq<char>| decodes_as_text(input, d);
        let b = choose|b: Seq<u8>|
            #![trigger base64_decodes_to(input, b)]
            base64_decodes_to(input, b) && valid_utf8(b) && decode_utf8(b) == d;
        assert(!valid_utf8(b));
    }
}

/// Attempt to decode a base64-encoded string.
///
/// Returns the decoded UTF-8 string if the (trimmed) input is valid base64
/// that decodes to valid UTF-8. Returns the input string unchanged
/// otherwise.
pub fn maybe_decode_base64(input: &str) -> (text: String)
    ensures
        text@ == field_text(input@),
        !has_text_reading(input@) ==> text@ == input@,
        forall|bytes: Seq<u8>|
            #![trigger base64_decodes_to(input@, bytes)]
            input@.len() > 0 && base64_decodes_to(input@, bytes) && valid_utf8(bytes)
                ==> text@ == decode_utf8(bytes),
{
    if input.is_empty() {
        return String::new();
    }
    let trimmed = trim_white_space(input);
    match decode_standard_base64(trimmed.as_str()) {
        Some(bytes) => {
            let ghost raw = bytes@;
            match utf8_text(bytes) {
                Some(decoded) => {
                    proof {
                        assert(base64_decodes_to(input@, raw));
                        assert(decodes_as_text(input@, decoded@));
                        let d = choose|d: Seq<char>| decodes_as_text(input@, d);
                        lemma_text_reading_unique(input@, d, decoded@);
                        assert forall|b: Seq<u8>|
                            #![trigger base64_decodes_to(input@, b)]
                            input@.len() > 0 && base64_decodes_to(input@, b) && valid_utf8(b)
                                implies decoded@ == decode_utf8(b) by {
                            lemma_base64_injective(b, raw);
                        }
                    }
                    decoded
                },
                None => {
                    proof {
                        assert forall|b: Seq<u8>| #[trigger]
                            base64_decodes_to(input@, b) implies !valid_utf8(b) by {
                            lemma_base64_injective(b, raw);
                        }
                        lemma_no_text_reading(input@);
                    }
                    owned(input)
                },
            }
        },
        None => {
            proof {
                assert forall|b: Seq<u8>| #[trigger]
                    base64_decodes_to(input@, b) implies !valid_utf8(b) by {
                    assert(standard_base64(b) == vstd::utf8::encode_utf8(trimmed@));
                }
                lemma_no_text_reading(input@);
            }
            owned(input)
        },
    }
}

/// Decode an EPG title/description field: present fields are decoded with
/// `maybe_decode_base64`, absent ones stay absent.
pub fn decode_epg_field(field: &Option<String>) -> (decoded: Option<String>)
    ensures
        match field {
            Some(f) => decoded is Some && decoded->0@ == field_text(f@),
            None => decoded is None,
        },
{
    match field {
        Some(s) => Some(maybe_decode_base64(s.as_str())),
        None => None,
    }
}

} // verus!

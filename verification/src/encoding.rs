use vstd::prelude::*;
use crate::text::spec_hex_digit;
use hmac::{Hmac, Mac};
use sha2::Sha512;
use base64::Engine;

verus! {

/// Lowercase hexadecimal rendering of bytes, two digits per byte, high
/// nibble first.
pub open spec fn spec_hex_lower(bytes: Seq<u8>) -> Seq<char>
    decreases bytes.len(),
{
    if bytes.len() == 0 {
        Seq::empty()
    } else {
        spec_hex_lower(bytes.drop_last()) + seq![
            spec_hex_digit((bytes.last() / 16) as nat),
            spec_hex_digit((bytes.last() % 16) as nat),
        ]
    }
}

/// The character of a 6-bit value in the URL-safe base64 alphabet
/// `A-Z a-z 0-9 - _`.
pub open spec fn spec_b64url_char(v: nat) -> char {
    if v < 26 {
        (65 + v) as char
    } else if v < 52 {
        (71 + v) as char
    } else if v < 62 {
        (v - 4) as char
    } else if v == 62 {
        '-'
    } else {
        '_'
    }
}

/// URL-safe base64 without padding: each group of three bytes becomes
/// four characters; a final group of two bytes becomes three characters
/// and a final single byte two.
pub open spec fn spec_b64url_nopad(b: Seq<u8>) -> Seq<char>
    decreases b.len(),
{
    if b.len() == 0 {
        Seq::empty()
    } else if b.len() == 1 {
        seq![spec_b64url_char((b[0] / 4) as nat), spec_b64url_char(((b[0] % 4) * 16) as nat)]
    } else if b.len() == 2 {
        seq![
            spec_b64url_char((b[0] / 4) as nat),
            spec_b64url_char(((b[0] % 4) * 16 + b[1] / 16) as nat),
            spec_b64url_char(((b[1] % 16) * 4) as nat),
        ]
    } else {
        seq![
            spec_b64url_char((b[0] / 4) as nat),
            spec_b64url_char(((b[0] % 4) * 16 + b[1] / 16) as nat),
            spec_b64url_char(((b[1] % 16) * 4 + b[2] / 64) as nat),
            spec_b64url_char((b[2] % 64) as nat),
        ] + spec_b64url_nopad(b.skip(3))
    }
}

/// A character of the URL-safe base64 alphabet.
pub open spec fn spec_is_b64url_char(c: char) -> bool {
    ('A' <= c <= 'Z') || ('a' <= c <= 'z') || ('0' <= c <= '9') || c == '-' || c == '_'
}

/// A lowercase hexadecimal digit.
pub open spec fn spec_is_hex_lower_char(c: char) -> bool {
    ('0' <= c <= '9') || ('a' <= c <= 'f')
}

/// The hyphenated lowercase form of a UUID: 36 characters, hyphens at
/// positions 8, 13, 18 and 23 and lowercase hex digits elsewhere.
pub open spec fn spec_is_hyphenated_uuid(s: Seq<char>) -> bool {
    &&& s.len() == 36
    &&& forall|i: int| 0 <= i < 36 ==> #[trigger] s[i] == '-' <==> (i == 8 || i == 13 || i == 18 || i == 23)
    &&& forall|i: int| 0 <= i < 36 && i != 8 && i != 13 && i != 18 && i != 23
            ==> spec_is_hex_lower_char(#[trigger] s[i])
}

/// Characters serde_json writes for `c` inside a JSON string.
pub open spec fn spec_json_escape_char(c: char) -> Seq<char> {
    if c == '"' {
        seq!['\\', '"']
    } else if c == '\\' {
        seq!['\\', '\\']
    } else if c == '\x08' {
        seq!['\\', 'b']
    } else if c == '\x0c' {
        seq!['\\', 'f']
    } else if c == '\n' {
        seq!['\\', 'n']
    } else if c == '\r' {
        seq!['\\', 'r']
    } else if c == '\t' {
        seq!['\\', 't']
    } else if (c as u32) < 0x20 {
        seq!['\\', 'u', '0', '0', spec_hex_digit((c as u32 / 16) as nat), spec_hex_digit((c as u32 % 16) as nat)]
    } else {
        seq![c]
    }
}

/// The escaped contents of a JSON string holding `s`.
pub open spec fn spec_json_escape(s: Seq<char>) -> Seq<char>
    decreases s.len(),
{
    if s.len() == 0 {
        Seq::empty()
    } else {
        spec_json_escape(s.drop_last()) + spec_json_escape_char(s.last())
    }
}

/// A JSON string literal holding `s`.
pub open spec fn spec_json_string(s: Seq<char>) -> Seq<char> {
    seq!['"'] + spec_json_escape(s) + seq!['"']
}

/// HMAC-SHA512 tag of `message` under `key`.
pub uninterp spec fn spec_hmac_sha512(key: Seq<u8>, message: Seq<u8>) -> Seq<u8>;

/// `hex::encode`: lowercase hex, two digits per byte.
#[verifier::external_body]
pub(crate) fn hex_encode(bytes: &[u8]) -> (s: String)
    ensures
        s@ == spec_hex_lower(bytes@),
{
    hex::encode(bytes)
}

/// `base64::engine::general_purpose::URL_SAFE_NO_PAD.encode`: URL-safe
/// base64 without padding. The crate panics when the encoded length
/// overflows `usize`; such inputs are excluded.
#[verifier::external_body]
pub(crate) fn b64url_nopad_encode(bytes: &[u8]) -> (s: String)
    requires
        (bytes@.len() / 3) * 4 + 3 <= usize::MAX,
    ensures
        s@ == spec_b64url_nopad(bytes@),
{
    base64::engine::general_purpose::URL_SAFE_NO_PAD.encode(bytes)
}

/// `Hmac::<Sha512>::new_from_slice(key)`, `update(message)`, `finalize()`:
/// the 64-byte HMAC-SHA512 tag. For HMAC `new_from_slice` accepts keys of
/// every length (the crate's code returns `Ok` unconditionally), so the
/// `expect` never fires.
#[verifier::external_body]
pub(crate) fn hmac_sha512(key: &[u8], message: &[u8]) -> (tag: Vec<u8>)
    ensures
        tag@ == spec_hmac_sha512(key@, message@),
        tag@.len() == 64,
{
    let mut mac = Hmac::<Sha512>::new_from_slice(key).expect("HMAC accepts keys of any length");
    mac.update(message);
    mac.finalize().into_bytes().to_vec()
}

/// `serde_json::to_string` of a string: the JSON string literal holding
/// it, with '"', '\\' and control characters escaped as serde_json escapes
/// them. Serializing a string into an in-memory buffer cannot fail (the
/// crate's only errors there come from the writer), so the `expect`
/// never fires.
#[verifier::external_body]
pub(crate) fn json_string(s: &str) -> (r: String)
    ensures
        r@ == spec_json_string(s@),
{
    serde_json::to_string(s).expect("a string serializes into memory")
}

/// `uuid::Uuid::new_v4().to_string()`: a random version-4 UUID in its
/// hyphenated lowercase form. Which UUID comes back is not stated: it
/// rests on the random number generator.
#[verifier::external_body]
pub(crate) fn new_uuid_v4_string() -> (s: String)
    ensures
        spec_is_hyphenated_uuid(s@),
{
    uuid::Uuid::new_v4().to_string()
}

/// Every character of a URL-safe base64 encoding is in the URL-safe
/// alphabet (in particular none is a '.').
pub proof fn lemma_b64url_alphabet(b: Seq<u8>)
    ensures
        forall|i: int| 0 <= i < spec_b64url_nopad(b).len() ==> spec_is_b64url_char(#[trigger] spec_b64url_nopad(b)[i]),
    decreases b.len(),
{
    assert forall|v: nat| v < 64 implies spec_is_b64url_char(#[trigger] spec_b64url_char(v)) by {
        if v < 26 {
            assert('A' as nat == 65);
        } else if v < 52 {
            assert('a' as nat == 97);
        } else if v < 62 {
            assert('0' as nat == 48);
        }
    }
    let s = spec_b64url_nopad(b);
    if b.len() >= 1 {
        assert(b[0] / 4 < 64);
        assert((b[0] % 4) * 16 < 64);
    }
    if b.len() >= 2 {
        assert((b[0] % 4) * 16 + b[1] / 16 < 64);
        assert((b[1] % 16) * 4 < 64);
    }
    if b.len() >= 3 {
        assert((b[1] % 16) * 4 + b[2] / 64 < 64);
        assert(b[2] % 64 < 64);
        lemma_b64url_alphabet(b.skip(3));
        let rest = spec_b64url_nopad(b.skip(3));
        assert forall|i: int| 0 <= i < s.len() implies spec_is_b64url_char(#[trigger] s[i]) by {
            if i >= 4 {
                assert(s[i] == rest[i - 4]);
            }
        }
    }
}

/// Every character of a lowercase hex rendering is a hex digit.
pub proof fn lemma_hex_lower_digits(b: Seq<u8>)
    ensures
        spec_hex_lower(b).len() == 2 * b.len(),
        forall|i: int| 0 <= i < spec_hex_lower(b).len() ==> spec_is_hex_lower_char(#[trigger] spec_hex_lower(b)[i]),
    decreases b.len(),
{
    if b.len() > 0 {
        lemma_hex_lower_digits(b.drop_last());
        assert forall|v: nat| v < 16 implies spec_is_hex_lower_char(#[trigger] spec_hex_digit(v)) by {
            assert('0' as nat == 48);
            assert('a' as nat == 97);
        }
        let prev = spec_hex_lower(b.drop_last());
        let s = spec_hex_lower(b);
        assert forall|i: int| 0 <= i < s.len() implies spec_is_hex_lower_char(#[trigger] s[i]) by {
            if i < prev.len() {
                assert(s[i] == prev[i]);
            }
        }
    }
}

} // verus!

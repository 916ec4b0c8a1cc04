use vstd::prelude::*;
use vstd::utf8::encode_utf8;
use crate::encoding::{
    b64url_nopad_encode, hex_encode, hmac_sha512, lemma_b64url_alphabet, lemma_hex_lower_digits,
    new_uuid_v4_string,
    spec_b64url_nopad, spec_hex_lower, spec_hmac_sha512, spec_is_b64url_char,
    spec_is_hyphenated_uuid,
};
use crate::text::{push_dec_u128, spec_dec_nat};

verus! {

/// Most characters the access key and nonce of a token may have together:
/// beyond it the encoded token's length could overflow a 32-bit `usize`.
pub const MAX_TOKEN_FIELD_CHARS: usize = 0x1000_0000;

/// The JWT header Upbit tokens carry.
pub open spec fn spec_jwt_header() -> Seq<char> {
    "{\"alg\":\"HS256\",\"typ\":\"JWT\"}"@
}

/// The JWT payload: access key, nonce and timestamp, and for a request
/// with a query the query's hash and its algorithm name.
pub open spec fn spec_jwt_payload(
    access_key: Seq<char>,
    nonce: Seq<char>,
    timestamp_ms: nat,
    query_hash: Option<Seq<char>>,
) -> Seq<char> {
    let common = "{\"access_key\":\""@ + access_key + "\",\"nonce\":\""@ + nonce + "\",\"timestamp\":"@
        + spec_dec_nat(timestamp_ms);
    match query_hash {
        None => common + "}"@,
        Some(h) => common + ",\"query_hash\":\""@ + h + "\",\"query_hash_alg\":\"SHA512\"}"@,
    }
}

/// The hash of a query string: lowercase hex of its HMAC-SHA512 tag
/// under the secret key.
pub open spec fn spec_query_hash(secret_key: Seq<char>, query: Seq<char>) -> Seq<char> {
    spec_hex_lower(spec_hmac_sha512(encode_utf8(secret_key), encode_utf8(query)))
}

/// The signed part of a token: header and payload, each URL-safe base64
/// without padding, joined by '.'.
pub open spec fn spec_signing_input(
    access_key: Seq<char>,
    secret_key: Seq<char>,
    nonce: Seq<char>,
    timestamp_ms: nat,
    query: Option<Seq<char>>,
) -> Seq<char> {
    let query_hash = match query {
        Some(q) => Some(spec_query_hash(secret_key, q)),
        None => None,
    };
    spec_b64url_nopad(encode_utf8(spec_jwt_header())) + "."@
        + spec_b64url_nopad(encode_utf8(spec_jwt_payload(access_key, nonce, timestamp_ms, query_hash)))
}

/// The bearer token for a request: the signing input, '.', and the
/// URL-safe base64 of its HMAC-SHA512 tag under the secret key.
pub open spec fn spec_token(
    access_key: Seq<char>,
    secret_key: Seq<char>,
    nonce: Seq<char>,
    timestamp_ms: nat,
    query: Option<Seq<char>>,
) -> Seq<char> {
    let m = spec_signing_input(access_key, secret_key, nonce, timestamp_ms, query);
    m + "."@ + spec_b64url_nopad(spec_hmac_sha512(encode_utf8(secret_key), encode_utf8(m)))
}

/// Upbit API credentials; they sign requests.
pub struct Credentials {
    access_key: String,
    secret_key: String,
}

impl Credentials {
    pub closed spec fn spec_access_key(&self) -> Seq<char> {
        self.access_key@
    }

    pub closed spec fn spec_secret_key(&self) -> Seq<char> {
        self.secret_key@
    }

    /// Credentials from an access key and a secret key.
    pub fn new(access_key: String, secret_key: String) -> (c: Self)
        ensures
            c.spec_access_key() == access_key@,
            c.spec_secret_key() == secret_key@,
    {
        Credentials { access_key, secret_key }
    }

    /// The access key.
    pub fn access_key(&self) -> (k: &str)
        ensures
            k@ == self.spec_access_key(),
    {
        self.access_key.as_str()
    }

    /// The token for a request made at `timestamp_ms` (milliseconds since
    /// the Unix epoch) with the given `nonce`, signing `query` when the
    /// request has one.
    pub fn create_token_with_nonce(&self, nonce: &str, timestamp_ms: u128, query: Option<&str>) -> (token: String)
        requires
            self.spec_access_key().len() + nonce@.len() <= MAX_TOKEN_FIELD_CHARS,
        ensures
            token@ == spec_token(
                self.spec_access_key(),
                self.spec_secret_key(),
                nonce@,
                timestamp_ms as nat,
                match query { Some(q) => Some(q@), None => None },
            ),
    {
        let secret = self.secret_key.as_str().as_bytes();
        let mut payload = String::new();
        payload.append("{\"access_key\":\"");
        payload.append(self.access_key.as_str());
        payload.append("\",\"nonce\":\"");
        payload.append(nonce);
        payload.append("\",\"timestamp\":");
        push_dec_u128(&mut payload, timestamp_ms);
        let ghost qh: Option<Seq<char>> = match query {
            Some(q) => Some(spec_query_hash(self.spec_secret_key(), q@)),
            None => None,
        };
        match query {
            Some(q) => {
                let tag = hmac_sha512(secret, q.as_bytes());
                let hash = hex_encode(tag.as_slice());
                proof { lemma_hex_lower_digits(tag@); }
                payload.append(",\"query_hash\":\"");
                payload.append(hash.as_str());
                payload.append("\",\"query_hash_alg\":\"SHA512\"}");
            },
            None => {
                payload.append("}");
            },
        }
        assert(payload@ =~= spec_jwt_payload(self.spec_access_key(), nonce@, timestamp_ms as nat, qh));
        proof {
            lemma_payload_len(self.spec_access_key(), nonce@, timestamp_ms as nat, qh, query);
            lemma_utf8_len(payload@);
            lemma_utf8_len(spec_jwt_header());
        }
        let header = "{\"alg\":\"HS256\",\"typ\":\"JWT\"}";
        proof { reveal_strlit("{\"alg\":\"HS256\",\"typ\":\"JWT\"}"); }
        let header_b64 = b64url_nopad_encode(header.as_bytes());
        let payload_b64 = b64url_nopad_encode(payload.as_str().as_bytes());
        let mut message = String::new();
        message.append(header_b64.as_str());
        message.append(".");
        message.append(payload_b64.as_str());
        let ghost m = spec_signing_input(
            self.spec_access_key(), self.spec_secret_key(), nonce@, timestamp_ms as nat,
            match query { Some(q) => Some(q@), None => None });
        assert(message@ =~= m);
        let signature_tag = hmac_sha512(secret, message.as_str().as_bytes());
        let signature = b64url_nopad_encode(signature_tag.as_slice());
        let mut token = message;
        token.append(".");
        token.append(signature.as_str());
        token
    }

    /// The token for a request made at `timestamp_ms`, under a fresh
    /// random nonce (a version-4 UUID), signing `query` when given.
    pub fn create_token(&self, query: Option<&str>, timestamp_ms: u128) -> (token: String)
        requires
            self.spec_access_key().len() + 36 <= MAX_TOKEN_FIELD_CHARS,
        ensures
            exists|nonce: Seq<char>| spec_is_hyphenated_uuid(nonce) && token@ == spec_token(
                self.spec_access_key(),
                self.spec_secret_key(),
                nonce,
                timestamp_ms as nat,
                match query { Some(q) => Some(q@), None => None },
            ),
    {
        let nonce = new_uuid_v4_string();
        self.create_token_with_nonce(nonce.as_str(), timestamp_ms, query)
    }
}

/// `10^k`.
pub open spec fn spec_pow10(k: nat) -> nat
    decreases k,
{
    if k == 0 { 1 } else { 10 * spec_pow10((k - 1) as nat) }
}

/// A number below `10^k` (k >= 1) has at most `k` decimal digits.
pub proof fn lemma_dec_len(n: nat, k: nat)
    requires
        k >= 1,
        n < spec_pow10(k),
    ensures
        spec_dec_nat(n).len() <= k,
    decreases n,
{
    if n >= 10 {
        let p = spec_pow10((k - 1) as nat);
        assert(k >= 2) by {
            if k == 1 {
                assert(spec_pow10(0) == 1);
            }
        }
        assert(n / 10 < p) by (nonlinear_arith)
            requires n < 10 * p, n >= 10;
        lemma_dec_len(n / 10, (k - 1) as nat);
    }
}

/// The UTF-8 encoding takes at most four bytes per character.
pub proof fn lemma_utf8_len(s: Seq<char>)
    ensures
        encode_utf8(s).len() <= 4 * s.len(),
    decreases s.len(),
{
    if s.len() > 0 {
        lemma_utf8_len(s.drop_first());
    }
}

/// Bounds the payload length so that its encodings fit the machine.
proof fn lemma_payload_len(
    access_key: Seq<char>,
    nonce: Seq<char>,
    timestamp_ms: nat,
    query_hash: Option<Seq<char>>,
    query: Option<&str>,
)
    requires
        access_key.len() + nonce.len() <= MAX_TOKEN_FIELD_CHARS,
        timestamp_ms <= u128::MAX,
        query_hash matches Some(h) ==> h.len() == 128,
    ensures
        spec_jwt_payload(access_key, nonce, timestamp_ms, query_hash).len() <= MAX_TOKEN_FIELD_CHARS + 400,
{
    reveal_strlit("{\"access_key\":\"");
    reveal_strlit("\",\"nonce\":\"");
    reveal_strlit("\",\"timestamp\":");
    reveal_strlit("}");
    reveal_strlit(",\"query_hash\":\"");
    reveal_strlit("\",\"query_hash_alg\":\"SHA512\"}");
    reveal_with_fuel(spec_pow10, 40);
    assert(u128::MAX < spec_pow10(39));
    lemma_dec_len(timestamp_ms, 39);
}

/// A token consists of three URL-safe base64 segments (header, payload,
/// signature) separated by two dots.
pub proof fn lemma_token_segments(
    access_key: Seq<char>,
    secret_key: Seq<char>,
    nonce: Seq<char>,
    timestamp_ms: nat,
    query: Option<Seq<char>>,
)
    ensures
        ({
            let query_hash = match query {
                Some(q) => Some(spec_query_hash(secret_key, q)),
                None => None,
            };
            let h = spec_b64url_nopad(encode_utf8(spec_jwt_header()));
            let p = spec_b64url_nopad(encode_utf8(spec_jwt_payload(access_key, nonce, timestamp_ms, query_hash)));
            let s = spec_b64url_nopad(spec_hmac_sha512(encode_utf8(secret_key), encode_utf8(h + "."@ + p)));
            &&& spec_token(access_key, secret_key, nonce, timestamp_ms, query) == h + "."@ + p + "."@ + s
            &&& forall|i: int| 0 <= i < h.len() ==> spec_is_b64url_char(#[trigger] h[i])
            &&& forall|i: int| 0 <= i < p.len() ==> spec_is_b64url_char(#[trigger] p[i])
            &&& forall|i: int| 0 <= i < s.len() ==> spec_is_b64url_char(#[trigger] s[i])
        }),
{
    let query_hash = match query {
        Some(q) => Some(spec_query_hash(secret_key, q)),
        None => None,
    };
    let hb = encode_utf8(spec_jwt_header());
    let pb = encode_utf8(spec_jwt_payload(access_key, nonce, timestamp_ms, query_hash));
    let h = spec_b64url_nopad(hb);
    let p = spec_b64url_nopad(pb);
    let sb = spec_hmac_sha512(encode_utf8(secret_key), encode_utf8(h + "."@ + p));
    lemma_b64url_alphabet(hb);
    lemma_b64url_alphabet(pb);
    lemma_b64url_alphabet(sb);
}

} // verus!

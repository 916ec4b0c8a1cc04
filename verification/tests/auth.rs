use base64::Engine;
use hmac::{Hmac, Mac};
use sha2::Sha512;
use upbit_trading_bot::auth::Credentials;

fn reference_hmac(key: &[u8], msg: &[u8]) -> Vec<u8> {
    let mut mac = Hmac::<Sha512>::new_from_slice(key).unwrap();
    mac.update(msg);
    mac.finalize().into_bytes().to_vec()
}

fn b64(bytes: &[u8]) -> String {
    base64::engine::general_purpose::URL_SAFE_NO_PAD.encode(bytes)
}

fn reference_token(ak: &str, sk: &str, nonce: &str, ts: u128, query: Option<&str>) -> String {
    let mut payload = format!(r#"{{"access_key":"{}","nonce":"{}","timestamp":{}}}"#, ak, nonce, ts);
    if let Some(q) = query {
        let hash = hex::encode(reference_hmac(sk.as_bytes(), q.as_bytes()));
        payload = format!(
            r#"{{"access_key":"{}","nonce":"{}","timestamp":{},"query_hash":"{}","query_hash_alg":"SHA512"}}"#,
            ak, nonce, ts, hash
        );
    }
    let message = format!("{}.{}", b64(br#"{"alg":"HS256","typ":"JWT"}"#), b64(payload.as_bytes()));
    let sig = b64(&reference_hmac(sk.as_bytes(), message.as_bytes()));
    format!("{}.{}", message, sig)
}

#[test]
fn token_without_query_matches_reference() {
    let c = Credentials::new("access".to_string(), "secret".to_string());
    let t = c.create_token_with_nonce("11111111-2222-4333-8444-555555555555", 1_700_000_000_123, None);
    assert_eq!(
        t,
        reference_token("access", "secret", "11111111-2222-4333-8444-555555555555", 1_700_000_000_123, None)
    );
    assert!(t.starts_with("eyJhbGciOiJIUzI1NiIsInR5cCI6IkpXVCJ9."));
}

#[test]
fn token_with_query_matches_reference() {
    let c = Credentials::new("AK".to_string(), "SK-secret".to_string());
    let q = "market=KRW-BTC&side=bid&ord_type=price&price=10000";
    let t = c.create_token_with_nonce("nonce", 0, Some(q));
    assert_eq!(t, reference_token("AK", "SK-secret", "nonce", 0, Some(q)));
    let payload = t.split('.').nth(1).unwrap();
    let decoded = String::from_utf8(base64::engine::general_purpose::URL_SAFE_NO_PAD.decode(payload).unwrap()).unwrap();
    assert!(decoded.contains("\"query_hash_alg\":\"SHA512\""));
    assert!(decoded.contains("\"timestamp\":0,"));
}

#[test]
fn token_has_three_segments() {
    let c = Credentials::new("a.b".to_string(), "s".to_string());
    let t = c.create_token(Some("uuid=x"), 42);
    assert_eq!(t.split('.').count(), 3);
    assert!(t.chars().all(|ch| ch.is_ascii_alphanumeric() || ch == '-' || ch == '_' || ch == '.'));
}

#[test]
fn create_token_uses_a_fresh_uuid_nonce() {
    let c = Credentials::new("key".to_string(), "secret".to_string());
    let t1 = c.create_token(None, 1);
    let t2 = c.create_token(None, 1);
    assert_ne!(t1, t2);
    let payload = t1.split('.').nth(1).unwrap();
    let decoded = String::from_utf8(base64::engine::general_purpose::URL_SAFE_NO_PAD.decode(payload).unwrap()).unwrap();
    let nonce = decoded.split("\"nonce\":\"").nth(1).unwrap().split('"').next().unwrap();
    assert_eq!(nonce.len(), 36);
    assert_eq!(nonce.as_bytes()[14], b'4');
}

#[test]
fn access_key_is_kept() {
    let c = Credentials::new("my-key".to_string(), "my-secret".to_string());
    assert_eq!(c.access_key(), "my-key");
}

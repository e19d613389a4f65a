use apns_client::client::{clock_seconds, resolve_id};
use apns_client::request::{device_url, encode_notification, frame_body};
use apns_client::response::{classify, classify_reason};
use apns_client::signer::sign_token;
use apns_client::token::{reusable_token, CachedToken};
use apns_client::{ApplePushClient, Notification, Priority, PushRequest, SendError};

use ring::rand::SystemRandom;
use ring::signature::{EcdsaKeyPair, ECDSA_P256_SHA256_FIXED_SIGNING};

fn test_key() -> Vec<u8> {
    let rng = SystemRandom::new();
    EcdsaKeyPair::generate_pkcs8(&ECDSA_P256_SHA256_FIXED_SIGNING, &rng)
        .unwrap()
        .as_ref()
        .to_vec()
}

fn test_client() -> ApplePushClient {
    match ApplePushClient::new("TEAM123456", "KEY1234567", &test_key()) {
        Ok(c) => c,
        Err(_) => panic!("a generated key must be accepted"),
    }
}

fn notification() -> Notification {
    Notification {
        id: None,
        device_token: "abcdef0123".to_string(),
        topic: "com.example.app".to_string(),
        payload: b"{\"alert\":\"hello\"}".to_vec(),
        expiration: None,
        priority: None,
        collapse_id: None,
    }
}

fn header<'a>(req: &'a PushRequest, name: &str) -> Option<&'a str> {
    req.headers.iter().find(|h| h.0 == name).map(|h| h.1.as_str())
}

fn encode(n: &Notification, id: u128) -> PushRequest {
    match encode_notification(n, "tok", id, true) {
        Ok(r) => r,
        Err(_) => panic!("the notification must encode"),
    }
}

#[test]
fn token_reused_within_margin() {
    let mut c = test_client();
    let first = c.generate_jwt_at(1_000).ok().unwrap();
    let second = c.generate_jwt_at(1_000 + 3_539).ok().unwrap();
    assert_eq!(first, second);
    assert_eq!(c.jwt.as_ref().unwrap().cached_at, 1_000);
    assert_eq!(c.jwt.as_ref().unwrap().token, first);
    assert_eq!(first.split('.').count(), 3);
}

#[test]
fn token_regenerated_after_margin() {
    let mut c = test_client();
    let first = c.generate_jwt_at(1_000).ok().unwrap();
    let second = c.generate_jwt_at(1_000 + 3_541).ok().unwrap();
    assert_ne!(first, second);
    assert_eq!(c.jwt.as_ref().unwrap().cached_at, 4_541);
    assert_eq!(c.jwt.as_ref().unwrap().token, second);
}

#[test]
fn token_regenerated_at_exact_margin() {
    let cached = Some(CachedToken { token: "t".to_string(), cached_at: 100 });
    assert_eq!(reusable_token(&cached, 100 + 3_539), Some("t".to_string()));
    assert_eq!(reusable_token(&cached, 100 + 3_540), None);
    assert_eq!(reusable_token(&None, 100), None);
}

#[test]
fn sign_failure_leaves_cache() {
    let mut c = test_client();
    assert!(matches!(c.generate_jwt_at(-5), Err(SendError::Clock)));
    assert!(c.jwt.is_none());
}

#[test]
fn sign_token_rejects_time_before_epoch() {
    let c = test_client();
    assert!(matches!(sign_token(&c.jwt_key, "T", "K", -1), Err(SendError::Clock)));
    assert!(sign_token(&c.jwt_key, "T", "K", 0).is_ok());
}

#[test]
fn malformed_key_is_a_configuration_error() {
    let r = ApplePushClient::new("TEAM", "KID", b"not a key");
    assert!(matches!(r, Err(SendError::Configuration)));
}

#[test]
fn header_mapping_with_optional_fields() {
    let mut n = notification();
    n.expiration = Some(1_700_000_000);
    n.priority = Some(Priority::Immediate);
    n.collapse_id = Some("abc".to_string());
    let req = encode(&n, 1);
    assert_eq!(header(&req, "apns-expiration"), Some("1700000000"));
    assert_eq!(header(&req, "apns-priority"), Some("10"));
    assert_eq!(header(&req, "apns-collapse-id"), Some("abc"));
    assert_eq!(header(&req, "authorization"), Some("bearer tok"));
    assert_eq!(header(&req, "apns-topic"), Some("com.example.app"));
    assert_eq!(req.headers.len(), 6);
}

#[test]
fn header_mapping_without_optional_fields() {
    let req = encode(&notification(), 1);
    assert_eq!(header(&req, "apns-expiration"), None);
    assert_eq!(header(&req, "apns-priority"), None);
    assert_eq!(header(&req, "apns-collapse-id"), None);
    assert_eq!(req.headers.len(), 3);
}

#[test]
fn power_conserving_priority_is_five() {
    let mut n = notification();
    n.priority = Some(Priority::PowerConserving);
    let req = encode(&n, 1);
    assert_eq!(header(&req, "apns-priority"), Some("5"));
    assert_eq!(Priority::PowerConserving.to_int(), 5);
}

#[test]
fn apns_id_is_hyphenated_uuid() {
    let req = encode(&notification(), 0x0123_4567_89ab_cdef_0011_2233_4455_6677);
    assert_eq!(header(&req, "apns-id"), Some("01234567-89ab-cdef-0011-223344556677"));
}

#[test]
fn explicit_id_is_returned() {
    let mut c = test_client();
    let mut n = notification();
    n.id = Some(42);
    let (id, req) = c.prepare_at(&n, 1_000, 7).ok().unwrap();
    assert_eq!(id, 42);
    assert_eq!(header(&req, "apns-id"), Some("00000000-0000-0000-0000-00000000002a"));
    assert_eq!(resolve_id(Some(42), 7), 42);
}

#[test]
fn generated_id_matches_sent_header() {
    let mut c = test_client();
    let (id, req) = c.prepare(&notification()).ok().unwrap();
    let sent = header(&req, "apns-id").unwrap().to_string();
    assert_eq!(sent, uuid::Uuid::from_u128(id).to_string());
    let (id2, _) = c.prepare_at(&notification(), 1_000, 9).ok().unwrap();
    assert_eq!(id2, 9);
}

#[test]
fn prepared_request_carries_cached_token() {
    let mut c = test_client();
    let (_, req) = c.prepare_at(&notification(), 1_000, 9).ok().unwrap();
    let token = c.jwt.as_ref().unwrap().token.clone();
    assert_eq!(header(&req, "authorization").unwrap(), format!("bearer {}", token));
    assert_eq!(req.url, "https://api.push.apple.com/3/device/abcdef0123");
    assert_eq!(req.body, b"{\"aps\":{\"alert\":\"hello\"}}".to_vec());
}

#[test]
fn success_status_returns_id() {
    assert!(matches!(classify(200, b"not json at all", 5), Ok(5)));
    assert!(matches!(ApplePushClient::finish(200, b"", 5), Ok(5)));
}

#[test]
fn failure_status_with_reason() {
    let e = classify(400, b"{\"reason\":\"BadDeviceToken\"}", 5).err().unwrap();
    assert_eq!(e.status, 400);
    assert_eq!(e.reason, "BadDeviceToken");
    match ApplePushClient::finish(400, b"{\"reason\":\"BadDeviceToken\"}", 5) {
        Err(SendError::Api(a)) => {
            assert_eq!(a.status, 400);
            assert_eq!(a.reason, "BadDeviceToken");
        }
        _ => panic!("expected an api error"),
    }
}

#[test]
fn failure_status_with_unparseable_body() {
    let e = classify(500, b"<html>oops</html>", 5).err().unwrap();
    assert_eq!(e.status, 500);
    assert_eq!(e.reason, "unknown");
    let e = classify_reason(503, None, 5).err().unwrap();
    assert_eq!(e.reason, "unknown");
    let e = classify_reason(410, Some("Unregistered".to_string()), 5).err().unwrap();
    assert_eq!((e.status, e.reason.as_str()), (410, "Unregistered"));
}

#[test]
fn collapse_id_of_sixty_four_bytes_is_kept() {
    let mut n = notification();
    let long = "c".repeat(64);
    n.collapse_id = Some(long.clone());
    let req = encode(&n, 1);
    assert_eq!(header(&req, "apns-collapse-id"), Some(long.as_str()));
}

#[test]
fn invalid_header_characters_are_an_encoding_error() {
    let mut n = notification();
    n.topic = "com.example\napp".to_string();
    assert!(matches!(encode_notification(&n, "tok", 1, true), Err(SendError::Encoding)));
    let mut n = notification();
    n.collapse_id = Some("a\u{7f}b".to_string());
    assert!(matches!(encode_notification(&n, "tok", 1, true), Err(SendError::Encoding)));
    let mut n = notification();
    n.topic = "tab\tok".to_string();
    assert!(encode_notification(&n, "tok", 1, true).is_ok());
}

#[test]
fn payload_that_is_not_json_is_an_encoding_error() {
    let mut n = notification();
    n.payload = b"{\"alert\":".to_vec();
    assert!(matches!(encode_notification(&n, "tok", 1, true), Err(SendError::Encoding)));
}

#[test]
fn urls_for_both_gateways() {
    assert_eq!(device_url(true, "abc"), "https://api.push.apple.com/3/device/abc");
    assert_eq!(device_url(false, "abc"), "https://api.development.push.apple.com/3/device/abc");
}

#[test]
fn set_production_keeps_token() {
    let mut c = test_client();
    let t = c.generate_jwt_at(1_000).ok().unwrap();
    c.set_production(false);
    assert!(!c.production);
    assert_eq!(c.build_url("d"), "https://api.development.push.apple.com/3/device/d");
    assert_eq!(c.generate_jwt_at(1_001).ok().unwrap(), t);
}

#[test]
fn body_frames_payload() {
    assert_eq!(frame_body(&b"{}".to_vec()), b"{\"aps\":{}}".to_vec());
    assert_eq!(frame_body(&Vec::new()), b"{\"aps\":}".to_vec());
}

#[test]
fn clock_reading_conversion() {
    assert!(matches!(clock_seconds(None), Err(SendError::Clock)));
    assert!(matches!(clock_seconds(Some(u64::MAX)), Err(SendError::Clock)));
    assert!(matches!(clock_seconds(Some(1_700_000_000)), Ok(1_700_000_000)));
}

#[test]
fn send_path_reuses_token_within_margin() {
    let mut c = test_client();
    let (_, first) = c.prepare_at(&notification(), 5_000, 1).ok().unwrap();
    let (_, second) = c.prepare_at(&notification(), 5_000 + 3_000, 2).ok().unwrap();
    assert_eq!(header(&first, "authorization"), header(&second, "authorization"));
    let (_, third) = c.prepare_at(&notification(), 5_000 + 3_600, 3).ok().unwrap();
    assert_ne!(header(&first, "authorization"), header(&third, "authorization"));
    assert_eq!(c.jwt.as_ref().unwrap().cached_at, 8_600);
}

#[test]
fn decimal_text_of_integers() {
    assert_eq!(apns_client::request::decimal(0), "0");
    assert_eq!(apns_client::request::decimal(10), "10");
    assert_eq!(apns_client::request::decimal(1_700_000_000), "1700000000");
    assert_eq!(apns_client::request::decimal(u64::MAX), "18446744073709551615");
}

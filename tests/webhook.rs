use ed25519_dalek::{Signature, Signer, SigningKey, Verifier};
use qq_bot::error::AppError;
use qq_bot::event::{EventType, QQBotEvent};
use qq_bot::intake::{dispatch_route, route_webhook, WebhookReply};
use qq_bot::validation::{sign_validation, validate_webhook, webhook_seed, ValidationResponse};

fn envelope(op: u8, d: Option<&str>, t: Option<&str>) -> QQBotEvent {
    QQBotEvent {
        id: None,
        op,
        d: d.map(|x| serde_json::from_str(x).unwrap()),
        s: None,
        t: t.map(|x| x.to_string()),
    }
}

fn expected_signature(secret: &str, message: &str) -> String {
    let seed = webhook_seed(secret);
    let seed: [u8; 32] = seed.as_slice().try_into().unwrap();
    hex::encode(SigningKey::from_bytes(&seed).sign(message.as_bytes()).to_bytes())
}

#[test]
fn seed_repeats_short_secret() {
    assert_eq!(webhook_seed("SEED"), b"SEEDSEEDSEEDSEEDSEEDSEEDSEEDSEED".to_vec());
    assert_eq!(webhook_seed("abc").len(), 32);
    assert_eq!(&webhook_seed("abc")[..7], b"abcabca");
    assert_eq!(webhook_seed("abc")[31], b'b');
}

#[test]
fn seed_truncates_long_secret() {
    let long = "0123456789abcdefghijklmnopqrstuvwxyz";
    assert_eq!(webhook_seed(long), long.as_bytes()[..32].to_vec());
    let exact = "0123456789abcdef0123456789abcdef";
    assert_eq!(webhook_seed(exact), exact.as_bytes().to_vec());
}

#[test]
fn webhook_validation_scenario() {
    let payload = envelope(13, Some(r#"{"event_ts":"1700000000","plain_token":"abc"}"#), None);
    match route_webhook(&payload, "SEED") {
        WebhookReply::Validated(v) => {
            assert_eq!(v.plain_token, "abc");
            assert_eq!(v.signature, expected_signature("SEED", "1700000000abc"));
            assert_eq!(v.signature.len(), 128);
        }
        other => panic!("unexpected {:?}", other),
    }
}

#[test]
fn signature_verifies_with_derived_public_key() {
    for (secret, ts, tok) in [("SEED", "1700000000", "abc"), ("naf7Gk2", "1", ""), ("x", "", "tok")] {
        let v = sign_validation(ts, tok, secret);
        let seed: [u8; 32] = webhook_seed(secret).as_slice().try_into().unwrap();
        let public = SigningKey::from_bytes(&seed).verifying_key();
        let bytes: [u8; 64] = hex::decode(&v.signature).unwrap().try_into().unwrap();
        let message = format!("{}{}", ts, tok);
        assert!(public.verify(message.as_bytes(), &Signature::from_bytes(&bytes)).is_ok());
    }
}

#[test]
fn validate_webhook_needs_both_members() {
    let ok = envelope(13, Some(r#"{"event_ts":"5","plain_token":"p"}"#), None);
    let v = validate_webhook(&ok, "secret").unwrap();
    assert_eq!(v.plain_token, "p");
    assert_eq!(v.signature, expected_signature("secret", "5p"));
    assert!(validate_webhook(&envelope(13, Some(r#"{"event_ts":"5"}"#), None), "secret").is_none());
    assert!(validate_webhook(&envelope(13, Some(r#"{"event_ts":5,"plain_token":"p"}"#), None), "secret").is_none());
    assert!(validate_webhook(&envelope(13, None, None), "secret").is_none());
}

#[test]
fn response_hex_is_lowercase_in_order() {
    let r = ValidationResponse::from_signature("t".to_string(), &[0x00, 0xab, 0x10, 0xff]);
    assert_eq!(r.signature, "00ab10ff");
    assert_eq!(r.plain_token, "t");
}

#[test]
fn route_acknowledges_dispatch() {
    assert!(matches!(route_webhook(&envelope(0, Some("{}"), None), "s"), WebhookReply::Acknowledge));
}

#[test]
fn route_rejects_other_opcodes() {
    match route_webhook(&envelope(1, None, None), "s") {
        WebhookReply::Rejected(e) => {
            assert_eq!(e.status_code(), 400);
            assert_eq!(e.message(), "Unsupported opcode: 1");
        }
        other => panic!("unexpected {:?}", other),
    }
    match route_webhook(&envelope(200, None, None), "s") {
        WebhookReply::Rejected(AppError::ValidationError(m)) => assert_eq!(m, "Invalid opcode: 200"),
        other => panic!("unexpected {:?}", other),
    }
}

#[test]
fn route_rejects_malformed_validation() {
    match route_webhook(&envelope(13, Some(r#"{"plain_token":"abc"}"#), None), "SEED") {
        WebhookReply::Rejected(e) => {
            assert_eq!(e.status_code(), 400);
            assert_eq!(e.message(), "Invalid validation payload");
        }
        other => panic!("unexpected {:?}", other),
    }
    match route_webhook(&envelope(13, Some(r#"{"event_ts":"1","plain_token":"abc"}"#), None), "") {
        WebhookReply::Rejected(e) => assert_eq!(e.status_code(), 500),
        other => panic!("unexpected {:?}", other),
    }
}

#[test]
fn dispatch_route_by_type() {
    assert_eq!(
        dispatch_route(&envelope(0, None, Some("GROUP_AT_MESSAGE_CREATE"))).unwrap(),
        Some(EventType::GroupAtMessageCreate)
    );
    assert_eq!(
        dispatch_route(&envelope(0, None, Some("C2C_MESSAGE_CREATE"))).unwrap(),
        Some(EventType::C2CMessageCreate)
    );
    assert_eq!(dispatch_route(&envelope(0, None, Some("READY"))).unwrap(), None);
    assert_eq!(dispatch_route(&envelope(0, None, None)).unwrap(), None);
    match dispatch_route(&envelope(0, None, Some("NOPE"))) {
        Err(AppError::ValidationError(m)) => assert_eq!(m, "Unknown event type: NOPE"),
        other => panic!("unexpected {:?}", other),
    }
}

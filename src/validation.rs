//! Webhook validation: the Ed25519 challenge-response that proves the bot
//! holds its client secret.

use vstd::prelude::*;
use vstd::string::*;
use crate::event::QQBotEvent;
use vstd::utf8::encode_utf8;
use crate::event::payload_string_member;
use crate::json::payload_string;

verus! {

/// Length of an Ed25519 secret seed, in bytes.
pub const SEED_LENGTH: usize = 32;

/// The secret repeated until it is at least 32 bytes long, then cut to
/// exactly 32 bytes.
pub open spec fn seed32(secret: Seq<u8>) -> Seq<u8>
    recommends
        secret.len() > 0,
{
    Seq::new(32, |i: int| secret[i % (secret.len() as int)])
}

/// The lowercase hexadecimal digits, by value.
pub open spec fn hex_digits() -> Seq<char> {
    seq!['0', '1', '2', '3', '4', '5', '6', '7', '8', '9', 'a', 'b', 'c', 'd', 'e', 'f']
}

/// Lowercase hexadecimal text of `b`: two digits per byte, high half first.
pub open spec fn hex_lower(b: Seq<u8>) -> Seq<char>
    decreases b.len(),
{
    if b.len() == 0 {
        Seq::empty()
    } else {
        hex_lower(b.drop_last()) + seq![hex_digits()[(b.last() / 16) as int], hex_digits()[(b.last() % 16) as int]]
    }
}

/// The 64-byte Ed25519 signature of `message` under the signing key whose
/// 32-byte seed is `seed`.
pub uninterp spec fn ed25519_signature(seed: Seq<u8>, message: Seq<u8>) -> Seq<u8>;

/// Relies on `hex::encode`: lowercase hexadecimal, two digits per byte, in order.
#[verifier::external_body]
fn hex_encode(b: &[u8]) -> (r: String)
    ensures
        r@ == hex_lower(b@),
{
    hex::encode(b)
}

/// Relies on ed25519-dalek: `SigningKey::from_bytes` on the seed, then
/// `Signer::sign` on the message, whose `Signature::to_bytes` is returned.
/// Ed25519 signing is deterministic.
#[verifier::external_body]
fn sign_ed25519(seed: &[u8], message: &[u8]) -> (r: Vec<u8>)
    requires
        seed@.len() == 32,
    ensures
        r@ == ed25519_signature(seed@, message@),
        r@.len() == 64,
{
    let seed: &[u8; 32] = seed.try_into().unwrap();
    let key = ed25519_dalek::SigningKey::from_bytes(seed);
    ed25519_dalek::Signer::sign(&key, message).to_bytes().to_vec()
}

/// The answer to a validation challenge.
#[derive(Debug, Clone)]
pub struct ValidationResponse {
    pub plain_token: String,
    /// Lowercase hex of the signature.
    pub signature: String,
}

pub struct ValidationResponseView {
    pub plain_token: Seq<char>,
    pub signature: Seq<char>,
}

impl View for ValidationResponse {
    type V = ValidationResponseView;

    open spec fn view(&self) -> ValidationResponseView {
        ValidationResponseView { plain_token: self.plain_token@, signature: self.signature@ }
    }
}

/// The correct answer to the challenge `(event_ts, plain_token)` for
/// `secret`: the token, and the hex of the signature of the UTF-8 bytes of
/// `event_ts` followed by those of `plain_token`.
pub open spec fn validation_answer(event_ts: Seq<char>, plain_token: Seq<char>, secret: Seq<char>) -> ValidationResponseView {
    ValidationResponseView {
        plain_token,
        signature: hex_lower(
            ed25519_signature(seed32(encode_utf8(secret)), encode_utf8(event_ts) + encode_utf8(plain_token)),
        ),
    }
}

/// Hex text has two digits per byte.
pub proof fn lemma_hex_lower_len(b: Seq<u8>)
    ensures
        hex_lower(b).len() == 2 * b.len(),
    decreases b.len(),
{
    if b.len() > 0 {
        lemma_hex_lower_len(b.drop_last());
    }
}

fn push_all(v: &mut Vec<u8>, b: &[u8])
    ensures
        final(v)@ == old(v)@ + b@,
{
    let mut i: usize = 0;
    while i < b.len()
        invariant
            i <= b@.len(),
            v@ == old(v)@ + b@.subrange(0, i as int),
        decreases b@.len() - i,
    {
        v.push(b[i]);
        i = i + 1;
        assert(b@.subrange(0, i as int) =~= b@.subrange(0, i as int - 1).push(b@[i as int - 1]));
    }
    assert(b@.subrange(0, b@.len() as int) =~= b@);
}

/// The 32-byte signing seed derived from `secret`.
pub fn webhook_seed(secret: &str) -> (r: Vec<u8>)
    requires
        secret.spec_bytes().len() > 0,
    ensures
        r@ == seed32(secret.spec_bytes()),
{
    let bytes = secret.as_bytes();
    let n = bytes.len();
    let mut seed: Vec<u8> = Vec::new();
    let mut i: usize = 0;
    while i < SEED_LENGTH
        invariant
            n == bytes@.len(),
            bytes@ == secret.spec_bytes(),
            n > 0,
            i <= 32,
            seed@ =~= seed32(bytes@).subrange(0, i as int),
        decreases 32 - i,
    {
        seed.push(bytes[i % n]);
        i = i + 1;
    }
    seed
}

impl ValidationResponse {
    /// The response carrying `plain_token` and the hex text of `signature`.
    pub fn from_signature(plain_token: String, signature: &[u8]) -> (r: ValidationResponse)
        ensures
            r@ == (ValidationResponseView { plain_token: plain_token@, signature: hex_lower(signature@) }),
    {
        ValidationResponse { plain_token, signature: hex_encode(signature) }
    }
}

/// Signs `event_ts || plain_token` with the key seeded from `secret`.
pub fn sign_validation(event_ts: &str, plain_token: &str, secret: &str) -> (r: ValidationResponse)
    requires
        secret.spec_bytes().len() > 0,
    ensures
        r@ == validation_answer(event_ts@, plain_token@, secret@),
        r@.signature.len() == 128,
{
    let seed = webhook_seed(secret);
    let mut message: Vec<u8> = Vec::new();
    push_all(&mut message, event_ts.as_bytes());
    push_all(&mut message, plain_token.as_bytes());
    let signature = sign_ed25519(seed.as_slice(), message.as_slice());
    proof {
        lemma_hex_lower_len(signature@);
    }
    ValidationResponse::from_signature(plain_token.to_owned(), signature.as_slice())
}

/// Answers the validation challenge in `payload.d` (`event_ts` and
/// `plain_token`, both strings); `None` when the payload lacks either.
pub fn validate_webhook(payload: &QQBotEvent, secret: &str) -> (r: Option<ValidationResponse>)
    requires
        secret.spec_bytes().len() > 0,
    ensures
        match (payload_string(payload.d, "event_ts"@), payload_string(payload.d, "plain_token"@)) {
            (Some(ts), Some(tok)) => r matches Some(v) && v@ == validation_answer(ts, tok, secret@),
            _ => r is None,
        },
        r matches Some(v) ==> v@.signature.len() == 128,
{
    let event_ts = payload_string_member(&payload.d, "event_ts");
    let plain_token = payload_string_member(&payload.d, "plain_token");
    match (event_ts, plain_token) {
        (Some(ts), Some(tok)) => Some(sign_validation(ts.as_str(), tok.as_str(), secret)),
        _ => None,
    }
}

} // verus!

//! Routing of webhook deliveries: what the intake endpoint answers for each
//! envelope, and which handler a Dispatch goes to.

use vstd::prelude::*;
use vstd::string::*;
use crate::error::AppError;
use crate::event::{event_type_of, opcode_of, EventType, OpCode, QQBotEvent};
use crate::json::payload_string;
use crate::text::{decimal, decimal_text};
use crate::validation::{validate_webhook, validation_answer, ValidationResponse};

verus! {

/// The intake endpoint's answer to one envelope.
#[derive(Debug)]
pub enum WebhookReply {
    /// Respond `{op: 12}` at once and run the dispatch on a detached task.
    Acknowledge,
    /// Respond with the validation answer.
    Validated(ValidationResponse),
    /// Respond with the error's status and message.
    Rejected(AppError),
}

pub open spec fn unsupported_opcode_text(op: u8) -> Seq<char> {
    "Unsupported opcode: "@ + decimal(op as nat)
}

pub open spec fn invalid_opcode_text(op: u8) -> Seq<char> {
    "Invalid opcode: "@ + decimal(op as nat)
}

fn with_number(prefix: &str, n: u8) -> (r: String)
    ensures
        r@ == prefix@ + decimal(n as nat),
{
    let mut r = String::from_str(prefix);
    r.append(decimal_text(n as u64).as_str());
    r
}

/// Routes a webhook envelope by its opcode: Dispatch is acknowledged,
/// WebhookValidate answered, anything else rejected as a validation error.
pub fn route_webhook(payload: &QQBotEvent, secret: &str) -> (r: WebhookReply)
    ensures
        opcode_of(payload.op) == Some(OpCode::Dispatch) ==> r is Acknowledge,
        opcode_of(payload.op) == Some(OpCode::WebhookValidate) && secret@.len() == 0
            ==> (r matches WebhookReply::Rejected(AppError::InternalServerError(m)) && m@ == "client secret is empty"@),
        opcode_of(payload.op) == Some(OpCode::WebhookValidate) && secret@.len() > 0 ==> match (
            payload_string(payload.d, "event_ts"@),
            payload_string(payload.d, "plain_token"@),
        ) {
            (Some(ts), Some(tok)) => r matches WebhookReply::Validated(v) && v@ == validation_answer(ts, tok, secret@),
            _ => r matches WebhookReply::Rejected(AppError::ValidationError(m)) && m@ == "Invalid validation payload"@,
        },
        r matches WebhookReply::Validated(v) ==> v@.signature.len() == 128,
        (opcode_of(payload.op) matches Some(op) && op != OpCode::Dispatch && op != OpCode::WebhookValidate)
            ==> (r matches WebhookReply::Rejected(AppError::ValidationError(m)) && m@ == unsupported_opcode_text(payload.op)),
        opcode_of(payload.op) is None
            ==> (r matches WebhookReply::Rejected(AppError::ValidationError(m)) && m@ == invalid_opcode_text(payload.op)),
{
    match OpCode::from_code(payload.op) {
        Some(OpCode::Dispatch) => WebhookReply::Acknowledge,
        Some(OpCode::WebhookValidate) => {
            if secret.is_empty() {
                WebhookReply::Rejected(AppError::InternalServerError(String::from_str("client secret is empty")))
            } else {
                match validate_webhook(payload, secret) {
                    Some(v) => WebhookReply::Validated(v),
                    None => WebhookReply::Rejected(
                        AppError::ValidationError(String::from_str("Invalid validation payload")),
                    ),
                }
            }
        },
        Some(_) => WebhookReply::Rejected(AppError::ValidationError(with_number("Unsupported opcode: ", payload.op))),
        None => WebhookReply::Rejected(AppError::ValidationError(with_number("Invalid opcode: ", payload.op))),
    }
}

/// Which handler a webhook Dispatch goes to: `None` for an envelope without
/// a type tag and for READY and RESUMED, which no handler receives; an
/// unknown tag is a validation error.
pub fn dispatch_route(payload: &QQBotEvent) -> (r: Result<Option<EventType>, AppError>)
    ensures
        payload.t is None ==> r == Ok::<Option<EventType>, AppError>(None),
        payload.t matches Some(t) ==> match event_type_of(t@) {
            Some(EventType::GroupAtMessageCreate) => r == Ok::<Option<EventType>, AppError>(Some(EventType::GroupAtMessageCreate)),
            Some(EventType::C2CMessageCreate) => r == Ok::<Option<EventType>, AppError>(Some(EventType::C2CMessageCreate)),
            Some(_) => r == Ok::<Option<EventType>, AppError>(None),
            None => r matches Err(AppError::ValidationError(m)) && m@ == "Unknown event type: "@ + t@,
        },
{
    match &payload.t {
        None => Ok(None),
        Some(t) => match EventType::parse(t.as_str()) {
            Some(EventType::GroupAtMessageCreate) => Ok(Some(EventType::GroupAtMessageCreate)),
            Some(EventType::C2CMessageCreate) => Ok(Some(EventType::C2CMessageCreate)),
            Some(_) => Ok(None),
            None => {
                let mut m = String::from_str("Unknown event type: ");
                m.append(t.as_str());
                Err(AppError::ValidationError(m))
            },
        },
    }
}

} // verus!

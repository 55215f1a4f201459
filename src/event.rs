//! The gateway wire envelope and its opcode taxonomy.

use vstd::prelude::*;
use vstd::string::*;
use crate::json::{payload_string, payload_u64, string_member, u64_member};

verus! {

/// Gateway opcodes, as numbered on the wire.
#[derive(Debug, Clone, Copy, PartialEq, Eq, Structural)]
pub enum OpCode {
    Dispatch,
    Heartbeat,
    Identify,
    /// Reattach to an existing session.
    Resume,
    /// Peer-requested reconnect.
    Reconnect,
    /// The peer rejected the session.
    InvalidSession,
    Hello,
    /// Acknowledgement of a heartbeat.
    HeartbeatACK,
    CallbackACK,
    WebhookValidate,
}

/// The number that stands for `op` on the wire.
pub open spec fn opcode_number(op: OpCode) -> u8 {
    match op {
        OpCode::Dispatch => 0,
        OpCode::Heartbeat => 1,
        OpCode::Identify => 2,
        OpCode::Resume => 6,
        OpCode::Reconnect => 7,
        OpCode::InvalidSession => 9,
        OpCode::Hello => 10,
        OpCode::HeartbeatACK => 11,
        OpCode::CallbackACK => 12,
        OpCode::WebhookValidate => 13,
    }
}

/// The opcode that the wire number `n` stands for, if any.
pub open spec fn opcode_of(n: u8) -> Option<OpCode> {
    if n == 0 {
        Some(OpCode::Dispatch)
    } else if n == 1 {
        Some(OpCode::Heartbeat)
    } else if n == 2 {
        Some(OpCode::Identify)
    } else if n == 6 {
        Some(OpCode::Resume)
    } else if n == 7 {
        Some(OpCode::Reconnect)
    } else if n == 9 {
        Some(OpCode::InvalidSession)
    } else if n == 10 {
        Some(OpCode::Hello)
    } else if n == 11 {
        Some(OpCode::HeartbeatACK)
    } else if n == 12 {
        Some(OpCode::CallbackACK)
    } else if n == 13 {
        Some(OpCode::WebhookValidate)
    } else {
        None
    }
}

/// Decoding a number gives back exactly the opcode that was encoded, and a
/// number that decodes at all is the encoding of what it decodes to.
pub proof fn lemma_opcode_round_trip(op: OpCode, n: u8)
    ensures
        opcode_of(opcode_number(op)) == Some(op),
        opcode_of(n) matches Some(o) ==> opcode_number(o) == n,
{
}

impl OpCode {
    /// The wire number of this opcode.
    pub fn code(self) -> (r: u8)
        ensures
            r == opcode_number(self),
    {
        match self {
            OpCode::Dispatch => 0,
            OpCode::Heartbeat => 1,
            OpCode::Identify => 2,
            OpCode::Resume => 6,
            OpCode::Reconnect => 7,
            OpCode::InvalidSession => 9,
            OpCode::Hello => 10,
            OpCode::HeartbeatACK => 11,
            OpCode::CallbackACK => 12,
            OpCode::WebhookValidate => 13,
        }
    }

    /// The opcode with wire number `n`, or `None` for a number outside the taxonomy.
    pub fn from_code(n: u8) -> (r: Option<OpCode>)
        ensures
            r == opcode_of(n),
    {
        match n {
            0 => Some(OpCode::Dispatch),
            1 => Some(OpCode::Heartbeat),
            2 => Some(OpCode::Identify),
            6 => Some(OpCode::Resume),
            7 => Some(OpCode::Reconnect),
            9 => Some(OpCode::InvalidSession),
            10 => Some(OpCode::Hello),
            11 => Some(OpCode::HeartbeatACK),
            12 => Some(OpCode::CallbackACK),
            13 => Some(OpCode::WebhookValidate),
            _ => None,
        }
    }
}

impl From<OpCode> for u8 {
    fn from(op: OpCode) -> (r: u8) {
        op.code()
    }
}

impl vstd::std_specs::convert::FromSpecImpl<OpCode> for u8 {
    open spec fn obeys_from_spec() -> bool {
        true
    }

    open spec fn from_spec(op: OpCode) -> u8 {
        opcode_number(op)
    }
}

/// The gateway and webhook wire envelope.
#[derive(Debug, Clone)]
pub struct QQBotEvent {
    /// Event id, used by webhook delivery.
    pub id: Option<String>,
    /// Opcode number.
    pub op: u8,
    /// Opcode-specific payload.
    pub d: Option<serde_json::Value>,
    /// Sequence number, present on dispatched events.
    pub s: Option<u64>,
    /// Event type tag of a Dispatch.
    pub t: Option<String>,
}

/// The Dispatch event types that the library routes.
#[derive(Debug, Clone, Copy, PartialEq, Eq, Structural)]
pub enum EventType {
    GroupAtMessageCreate,
    Ready,
    C2CMessageCreate,
    Resumed,
}

/// The event type that the tag `t` names, if any.
pub open spec fn event_type_of(t: Seq<char>) -> Option<EventType> {
    if t == "GROUP_AT_MESSAGE_CREATE"@ {
        Some(EventType::GroupAtMessageCreate)
    } else if t == "READY"@ {
        Some(EventType::Ready)
    } else if t == "C2C_MESSAGE_CREATE"@ {
        Some(EventType::C2CMessageCreate)
    } else if t == "RESUMED"@ {
        Some(EventType::Resumed)
    } else {
        None
    }
}

impl EventType {
    /// Reads an event type tag.
    pub fn parse(t: &str) -> (r: Option<EventType>)
        ensures
            r == event_type_of(t@),
    {
        let tag = String::from_str(t);
        if tag == String::from_str("GROUP_AT_MESSAGE_CREATE") {
            Some(EventType::GroupAtMessageCreate)
        } else if tag == String::from_str("READY") {
            Some(EventType::Ready)
        } else if tag == String::from_str("C2C_MESSAGE_CREATE") {
            Some(EventType::C2CMessageCreate)
        } else if tag == String::from_str("RESUMED") {
            Some(EventType::Resumed)
        } else {
            None
        }
    }
}

/// What the session manager reads from an inbound envelope.
#[derive(Debug, Clone)]
pub struct Frame {
    pub op: u8,
    pub s: Option<u64>,
    pub t: Option<String>,
    /// `d.session_id`, when it is a string.
    pub session_id: Option<String>,
    /// `d.heartbeat_interval`, when it is an unsigned integer.
    pub heartbeat_interval: Option<u64>,
}

/// A [`Frame`] with its texts as character sequences.
pub struct FrameView {
    pub op: u8,
    pub s: Option<u64>,
    pub t: Option<Seq<char>>,
    pub session_id: Option<Seq<char>>,
    pub heartbeat_interval: Option<u64>,
}

impl View for Frame {
    type V = FrameView;

    open spec fn view(&self) -> FrameView {
        FrameView {
            op: self.op,
            s: self.s,
            t: self.t.deep_view(),
            session_id: self.session_id.deep_view(),
            heartbeat_interval: self.heartbeat_interval,
        }
    }
}

/// The string member `key` of an optional payload.
pub(crate) fn payload_string_member(d: &Option<serde_json::Value>, key: &str) -> (r: Option<String>)
    ensures
        r.deep_view() == payload_string(*d, key@),
{
    match d {
        Some(v) => string_member(v, key),
        None => None,
    }
}

/// The unsigned integer member `key` of an optional payload.
fn payload_u64_member(d: &Option<serde_json::Value>, key: &str) -> (r: Option<u64>)
    ensures
        r == payload_u64(*d, key@),
{
    match d {
        Some(v) => u64_member(v, key),
        None => None,
    }
}

impl QQBotEvent {
    /// The fields of this envelope that the session manager acts on.
    pub fn frame(&self) -> (f: Frame)
        ensures
            f.op == self.op,
            f.s == self.s,
            f.t.deep_view() == self.t.deep_view(),
            f.session_id.deep_view() == payload_string(self.d, "session_id"@),
            f.heartbeat_interval == payload_u64(self.d, "heartbeat_interval"@),
    {
        let t = match &self.t {
            Some(t) => Some(t.clone()),
            None => None,
        };
        Frame {
            op: self.op,
            s: self.s,
            t,
            session_id: payload_string_member(&self.d, "session_id"),
            heartbeat_interval: payload_u64_member(&self.d, "heartbeat_interval"),
        }
    }
}

} // verus!

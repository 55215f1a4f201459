//! The gateway session manager: the state machine that drives one logical
//! session across websocket connections. The caller performs the I/O, feeds
//! each event to [`WebSocketManager::step`] and carries out the action that
//! comes back.

use vstd::prelude::*;
use crate::backoff::{
    GatewaySettings, jitter_high, jitter_low, next_reconnect_delay, reconnect_delay, sample_between,
};
use crate::error::{WebSocketError, WebSocketErrorView};
use crate::event::{event_type_of, opcode_of, EventType, Frame, FrameView, OpCode};
use crate::rest::authorization;
use crate::session::{empty_session, updated, SessionState, SessionView};

verus! {

/// Where the current connection stands.
#[derive(Debug, Clone, Copy, PartialEq, Eq, Structural)]
pub enum Phase {
    /// No connection, or the last one has ended.
    Disconnected,
    /// Connected; no Hello yet.
    AwaitingHello,
    /// Handshake sent; heartbeating at the given interval.
    Steady { heartbeat_interval_ms: u64, awaiting_ack: bool },
}

/// A frame the manager asks to send.
#[derive(Debug)]
pub enum Outbound {
    /// `{op: 1, d: seq}`, with `null` when there is no sequence number.
    Heartbeat { last_seq: Option<u64> },
    /// `{op: 2, d: {token, intents, shard}}`.
    Identify { token: String, intents: u32, shard: (u32, u32) },
    /// `{op: 6, d: {token, session_id, seq}}`.
    Resume { token: String, session_id: String, seq: u64 },
}

pub enum OutboundView {
    Heartbeat { last_seq: Option<u64> },
    Identify { token: Seq<char>, intents: u32, shard: (u32, u32) },
    Resume { token: Seq<char>, session_id: Seq<char>, seq: u64 },
}

impl View for Outbound {
    type V = OutboundView;

    open spec fn view(&self) -> OutboundView {
        match self {
            Outbound::Heartbeat { last_seq } => OutboundView::Heartbeat { last_seq: *last_seq },
            Outbound::Identify { token, intents, shard } => OutboundView::Identify {
                token: token@,
                intents: *intents,
                shard: *shard,
            },
            Outbound::Resume { token, session_id, seq } => OutboundView::Resume {
                token: token@,
                session_id: session_id@,
                seq: *seq,
            },
        }
    }
}

pub open spec fn outbound_op(f: OutboundView) -> OpCode {
    match f {
        OutboundView::Heartbeat { .. } => OpCode::Heartbeat,
        OutboundView::Identify { .. } => OpCode::Identify,
        OutboundView::Resume { .. } => OpCode::Resume,
    }
}

impl Outbound {
    /// The opcode this frame is sent under.
    pub fn op(&self) -> (r: OpCode)
        ensures
            r == outbound_op(self@),
    {
        match self {
            Outbound::Heartbeat { .. } => OpCode::Heartbeat,
            Outbound::Identify { .. } => OpCode::Identify,
            Outbound::Resume { .. } => OpCode::Resume,
        }
    }
}

/// An event of the connection, handed to the manager by the caller.
#[derive(Debug)]
pub enum GatewayInput {
    /// A websocket was established.
    Opened,
    /// A text frame arrived and decoded.
    Frame(Frame),
    /// The heartbeat interval elapsed.
    HeartbeatTick,
    /// The ACK timer armed with a heartbeat fired.
    AckTimeout,
    /// The transport failed or closed, or a send failed.
    Lost(WebSocketError),
}

pub enum GatewayInputView {
    Opened,
    Frame(FrameView),
    HeartbeatTick,
    AckTimeout,
    Lost(WebSocketErrorView),
}

impl View for GatewayInput {
    type V = GatewayInputView;

    open spec fn view(&self) -> GatewayInputView {
        match self {
            GatewayInput::Opened => GatewayInputView::Opened,
            GatewayInput::Frame(f) => GatewayInputView::Frame(f@),
            GatewayInput::HeartbeatTick => GatewayInputView::HeartbeatTick,
            GatewayInput::AckTimeout => GatewayInputView::AckTimeout,
            GatewayInput::Lost(e) => GatewayInputView::Lost(e@),
        }
    }
}

/// What the caller is to do next.
#[derive(Debug)]
pub enum GatewayAction {
    /// Nothing; keep reading.
    Wait,
    /// Send the Identify or Resume frame and start the heartbeat timer, whose
    /// first tick comes one full interval from now.
    Handshake { frame: Outbound, heartbeat_interval_ms: u64 },
    /// Send a heartbeat; arm the ACK timer if asked (else the armed one stays).
    Heartbeat { frame: Outbound, arm_ack_timer: bool },
    /// A HeartbeatACK arrived: disarm the ACK timer.
    AckReceived,
    /// Decode the payload for this event type and hand it to the handler on a
    /// detached task.
    Deliver(EventType),
    /// Close the websocket; the attempt ends with this outcome.
    End(Result<(), WebSocketError>),
}

pub enum GatewayActionView {
    Wait,
    Handshake { frame: OutboundView, heartbeat_interval_ms: u64 },
    Heartbeat { frame: OutboundView, arm_ack_timer: bool },
    AckReceived,
    Deliver(EventType),
    End(Result<(), WebSocketErrorView>),
}

impl View for GatewayAction {
    type V = GatewayActionView;

    open spec fn view(&self) -> GatewayActionView {
        match self {
            GatewayAction::Wait => GatewayActionView::Wait,
            GatewayAction::Handshake { frame, heartbeat_interval_ms } => GatewayActionView::Handshake {
                frame: frame@,
                heartbeat_interval_ms: *heartbeat_interval_ms,
            },
            GatewayAction::Heartbeat { frame, arm_ack_timer } => GatewayActionView::Heartbeat {
                frame: frame@,
                arm_ack_timer: *arm_ack_timer,
            },
            GatewayAction::AckReceived => GatewayActionView::AckReceived,
            GatewayAction::Deliver(t) => GatewayActionView::Deliver(*t),
            GatewayAction::End(Ok(())) => GatewayActionView::End(Ok(())),
            GatewayAction::End(Err(e)) => GatewayActionView::End(Err(e@)),
        }
    }
}

/// The manager as a mathematical value.
pub struct ManagerView {
    pub wss_url: Seq<char>,
    pub token: Seq<char>,
    pub settings: GatewaySettings,
    pub session: SessionView,
    pub resume_count: u32,
    pub phase: Phase,
}

/// The credential as sent in Identify and Resume.
pub open spec fn bot_token(token: Seq<char>) -> Seq<char> {
    "QQBot "@ + token
}

/// The frame that opens a session on a fresh connection: Resume when both
/// fields of Session State are present, Identify otherwise.
pub open spec fn handshake_frame(g: ManagerView) -> OutboundView {
    match (g.session.session_id, g.session.last_seq) {
        (Some(id), Some(seq)) => OutboundView::Resume { token: bot_token(g.token), session_id: id, seq },
        _ => OutboundView::Identify { token: bot_token(g.token), intents: g.settings.intents, shard: (0, 1) },
    }
}

pub open spec fn with_phase(g: ManagerView, p: Phase) -> ManagerView {
    ManagerView { phase: p, ..g }
}

pub open spec fn with_session(g: ManagerView, s: SessionView) -> ManagerView {
    ManagerView { session: s, ..g }
}

/// Routing of a Dispatch by its type tag. READY installs its session id
/// when that is non-empty; an empty one counts as absent.
pub open spec fn dispatch_step(g: ManagerView, f: FrameView) -> (ManagerView, GatewayActionView) {
    match f.t {
        None => (g, GatewayActionView::Wait),
        Some(t) => match event_type_of(t) {
            Some(EventType::Ready) => match f.session_id {
                Some(id) if id.len() > 0 => (with_session(g, updated(g.session, Some(id), None)), GatewayActionView::Wait),
                _ => (g, GatewayActionView::Wait),
            },
            Some(EventType::GroupAtMessageCreate) => (g, GatewayActionView::Deliver(EventType::GroupAtMessageCreate)),
            Some(EventType::C2CMessageCreate) => (g, GatewayActionView::Deliver(EventType::C2CMessageCreate)),
            _ => (g, GatewayActionView::Wait),
        },
    }
}

/// A frame received in steady state: the sequence number is recorded first,
/// then the opcode decides.
pub open spec fn steady_frame_step(g: ManagerView, f: FrameView, interval: u64, awaiting: bool) -> (ManagerView, GatewayActionView) {
    let g1 = with_session(g, updated(g.session, None, f.s));
    match opcode_of(f.op) {
        Some(OpCode::Dispatch) => dispatch_step(g1, f),
        Some(OpCode::Heartbeat) => (
            with_phase(g1, Phase::Steady { heartbeat_interval_ms: interval, awaiting_ack: true }),
            GatewayActionView::Heartbeat {
                frame: OutboundView::Heartbeat { last_seq: g1.session.last_seq },
                arm_ack_timer: !awaiting,
            },
        ),
        Some(OpCode::Reconnect) => (with_phase(g1, Phase::Disconnected), GatewayActionView::End(Ok(()))),
        Some(OpCode::InvalidSession) => (
            with_phase(with_session(g1, empty_session()), Phase::Disconnected),
            GatewayActionView::End(Err(WebSocketErrorView::InvalidSession)),
        ),
        Some(OpCode::HeartbeatACK) => (
            with_phase(g1, Phase::Steady { heartbeat_interval_ms: interval, awaiting_ack: false }),
            GatewayActionView::AckReceived,
        ),
        _ => (g1, GatewayActionView::Wait),
    }
}

/// One transition of the session manager.
pub open spec fn gateway_step(g: ManagerView, input: GatewayInputView) -> (ManagerView, GatewayActionView) {
    match input {
        GatewayInputView::Opened => match g.phase {
            Phase::Disconnected => (with_phase(g, Phase::AwaitingHello), GatewayActionView::Wait),
            _ => (g, GatewayActionView::Wait),
        },
        GatewayInputView::Frame(f) => match g.phase {
            Phase::Disconnected => (g, GatewayActionView::Wait),
            Phase::AwaitingHello => if f.op == 10 {
                match f.heartbeat_interval {
                    Some(n) if n > 0 => (
                        with_phase(g, Phase::Steady { heartbeat_interval_ms: n, awaiting_ack: false }),
                        GatewayActionView::Handshake { frame: handshake_frame(g), heartbeat_interval_ms: n },
                    ),
                    _ => (
                        with_phase(g, Phase::Disconnected),
                        GatewayActionView::End(Err(WebSocketErrorView::MissingHeartbeatInterval)),
                    ),
                }
            } else {
                (g, GatewayActionView::Wait)
            },
            Phase::Steady { heartbeat_interval_ms, awaiting_ack } => steady_frame_step(g, f, heartbeat_interval_ms, awaiting_ack),
        },
        GatewayInputView::HeartbeatTick => match g.phase {
            Phase::Steady { heartbeat_interval_ms, awaiting_ack: false } => (
                with_phase(g, Phase::Steady { heartbeat_interval_ms, awaiting_ack: true }),
                GatewayActionView::Heartbeat {
                    frame: OutboundView::Heartbeat { last_seq: g.session.last_seq },
                    arm_ack_timer: true,
                },
            ),
            _ => (g, GatewayActionView::Wait),
        },
        GatewayInputView::AckTimeout => match g.phase {
            Phase::Steady { awaiting_ack: true, .. } => (
                with_phase(g, Phase::Disconnected),
                GatewayActionView::End(Err(WebSocketErrorView::HeartbeatTimeout)),
            ),
            _ => (g, GatewayActionView::Wait),
        },
        GatewayInputView::Lost(e) => (with_phase(g, Phase::Disconnected), GatewayActionView::End(Err(e))),
    }
}

/// The manager after an attempt that ended cleanly.
pub open spec fn after_success(g: ManagerView) -> ManagerView {
    ManagerView { resume_count: 0, ..g }
}

/// The manager after a failed attempt, with `base` as the sampled base delay.
pub open spec fn after_failure(g: ManagerView, base: u64) -> ManagerView {
    ManagerView { resume_count: reconnect_delay(g.settings, g.resume_count, base).1, ..g }
}

/// Maintains one logical gateway session across websocket connections.
#[derive(Debug)]
pub struct WebSocketManager {
    wss_url: String,
    token: String,
    settings: GatewaySettings,
    state: SessionState,
    resume_count: u32,
    phase: Phase,
}

impl View for WebSocketManager {
    type V = ManagerView;

    closed spec fn view(&self) -> ManagerView {
        ManagerView {
            wss_url: self.wss_url@,
            token: self.token@,
            settings: self.settings,
            session: self.state@,
            resume_count: self.resume_count,
            phase: self.phase,
        }
    }
}

impl WebSocketManager {
    /// A manager for `wss_url` authenticating with `token`, with the default
    /// constants and an empty Session State.
    pub fn new(wss_url: String, token: String) -> (r: WebSocketManager)
        ensures
            r@ == (ManagerView {
                wss_url: wss_url@,
                token: token@,
                settings: GatewaySettings::standard_spec(),
                session: empty_session(),
                resume_count: 0,
                phase: Phase::Disconnected,
            }),
    {
        WebSocketManager::with_settings(wss_url, token, GatewaySettings::standard())
    }

    /// A manager with the given constants and an empty Session State.
    pub fn with_settings(wss_url: String, token: String, settings: GatewaySettings) -> (r: WebSocketManager)
        ensures
            r@ == (ManagerView {
                wss_url: wss_url@,
                token: token@,
                settings,
                session: empty_session(),
                resume_count: 0,
                phase: Phase::Disconnected,
            }),
    {
        WebSocketManager {
            wss_url,
            token,
            settings,
            state: SessionState::new(),
            resume_count: 0,
            phase: Phase::Disconnected,
        }
    }

    pub fn wss_url(&self) -> (r: &str)
        ensures
            r@ == self@.wss_url,
    {
        self.wss_url.as_str()
    }

    pub fn settings(&self) -> (r: GatewaySettings)
        ensures
            r == self@.settings,
    {
        self.settings
    }

    pub fn phase(&self) -> (r: Phase)
        ensures
            r == self@.phase,
    {
        self.phase
    }

    pub fn resume_count(&self) -> (r: u32)
        ensures
            r == self@.resume_count,
    {
        self.resume_count
    }

    pub fn session(&self) -> (r: &SessionState)
        ensures
            r@ == self@.session,
    {
        &self.state
    }

    /// `QQBot <token>`.
    fn bot_token(&self) -> (r: String)
        ensures
            r@ == bot_token(self@.token),
    {
        authorization(self.token.as_str())
    }

    /// A heartbeat carrying the current sequence number.
    fn send_heartbeat(&self) -> (r: Outbound)
        ensures
            r@ == (OutboundView::Heartbeat { last_seq: self@.session.last_seq }),
    {
        Outbound::Heartbeat { last_seq: self.state.get_last_seq() }
    }

    fn send_identify(&self) -> (r: Outbound)
        ensures
            r@ == (OutboundView::Identify { token: bot_token(self@.token), intents: self@.settings.intents, shard: (0u32, 1u32) }),
    {
        Outbound::Identify { token: self.bot_token(), intents: self.settings.intents, shard: (0, 1) }
    }

    fn send_resume(&self, session_id: String, seq: u64) -> (r: Outbound)
        ensures
            r@ == (OutboundView::Resume { token: bot_token(self@.token), session_id: session_id@, seq }),
    {
        Outbound::Resume { token: self.bot_token(), session_id, seq }
    }

    fn handshake(&self) -> (r: Outbound)
        ensures
            r@ == handshake_frame(self@),
    {
        match (self.state.get_session_id(), self.state.get_last_seq()) {
            (Some(id), Some(seq)) => self.send_resume(id, seq),
            _ => self.send_identify(),
        }
    }

    fn handle_dispatch(&mut self, frame: Frame) -> (r: GatewayAction)
        ensures
            (final(self)@, r@) == dispatch_step(old(self)@, frame@),
    {
        match frame.t {
            None => GatewayAction::Wait,
            Some(t) => match EventType::parse(t.as_str()) {
                Some(EventType::Ready) => match frame.session_id {
                    Some(id) => {
                        if !id.as_str().is_empty() {
                            let _ = self.state.update(Some(id), None);
                        }
                        GatewayAction::Wait
                    },
                    None => GatewayAction::Wait,
                },
                Some(EventType::GroupAtMessageCreate) => GatewayAction::Deliver(EventType::GroupAtMessageCreate),
                Some(EventType::C2CMessageCreate) => GatewayAction::Deliver(EventType::C2CMessageCreate),
                _ => GatewayAction::Wait,
            },
        }
    }

    fn handle_steady_frame(&mut self, frame: Frame, interval: u64, awaiting: bool) -> (r: GatewayAction)
        ensures
            (final(self)@, r@) == steady_frame_step(old(self)@, frame@, interval, awaiting),
    {
        let _ = self.state.update(None, frame.s);
        match OpCode::from_code(frame.op) {
            Some(OpCode::Dispatch) => self.handle_dispatch(frame),
            Some(OpCode::Heartbeat) => {
                self.phase = Phase::Steady { heartbeat_interval_ms: interval, awaiting_ack: true };
                GatewayAction::Heartbeat { frame: self.send_heartbeat(), arm_ack_timer: !awaiting }
            },
            Some(OpCode::Reconnect) => {
                self.phase = Phase::Disconnected;
                GatewayAction::End(Ok(()))
            },
            Some(OpCode::InvalidSession) => {
                self.state.clear();
                self.phase = Phase::Disconnected;
                GatewayAction::End(Err(WebSocketError::InvalidSession))
            },
            Some(OpCode::HeartbeatACK) => {
                self.phase = Phase::Steady { heartbeat_interval_ms: interval, awaiting_ack: false };
                GatewayAction::AckReceived
            },
            _ => GatewayAction::Wait,
        }
    }

    /// The attempt ended cleanly: the count of consecutive failures resets.
    pub fn attempt_succeeded(&mut self)
        ensures
            final(self)@ == after_success(old(self)@),
    {
        self.resume_count = 0;
    }

    /// The attempt failed and `base` was sampled as the base delay: returns
    /// the sleep before the next attempt, in milliseconds, and counts the failure.
    pub fn apply_reconnect_delay(&mut self, base: u64) -> (r: u64)
        ensures
            final(self)@ == after_failure(old(self)@, base),
            r == reconnect_delay(old(self)@.settings, old(self)@.resume_count, base).0,
    {
        let (delay, count) = next_reconnect_delay(&self.settings, self.resume_count, base);
        self.resume_count = count;
        delay
    }

    /// The attempt failed: samples the base delay within 20% of the
    /// configured one and returns the sleep before the next attempt.
    pub fn handle_reconnect_delay(&mut self) -> (r: u64)
        ensures
            exists|base: u64|
                jitter_low(old(self)@.settings) <= base <= jitter_high(old(self)@.settings)
                && final(self)@ == after_failure(old(self)@, base)
                && r == reconnect_delay(old(self)@.settings, old(self)@.resume_count, base).0,
    {
        let (low, high) = self.settings.jitter_range();
        let base = if self.resume_count >= self.settings.max_resume_retries {
            low
        } else {
            sample_between(low, high)
        };
        self.apply_reconnect_delay(base)
    }

    /// Advances the state machine by one event and says what to do.
    pub fn step(&mut self, input: GatewayInput) -> (r: GatewayAction)
        ensures
            final(self)@ == gateway_step(old(self)@, input@).0,
            r@ == gateway_step(old(self)@, input@).1,
    {
        match input {
            GatewayInput::Opened => {
                if let Phase::Disconnected = self.phase {
                    self.phase = Phase::AwaitingHello;
                }
                GatewayAction::Wait
            },
            GatewayInput::Frame(frame) => match self.phase {
                Phase::Disconnected => GatewayAction::Wait,
                Phase::AwaitingHello => {
                    if frame.op == 10 {
                        match frame.heartbeat_interval {
                            Some(n) if n > 0 => {
                                let frame = self.handshake();
                                self.phase = Phase::Steady { heartbeat_interval_ms: n, awaiting_ack: false };
                                GatewayAction::Handshake { frame, heartbeat_interval_ms: n }
                            },
                            _ => {
                                self.phase = Phase::Disconnected;
                                GatewayAction::End(Err(WebSocketError::MissingHeartbeatInterval))
                            },
                        }
                    } else {
                        GatewayAction::Wait
                    }
                },
                Phase::Steady { heartbeat_interval_ms, awaiting_ack } => {
                    self.handle_steady_frame(frame, heartbeat_interval_ms, awaiting_ack)
                },
            },
            GatewayInput::HeartbeatTick => match self.phase {
                Phase::Steady { heartbeat_interval_ms, awaiting_ack: false } => {
                    let frame = self.send_heartbeat();
                    self.phase = Phase::Steady { heartbeat_interval_ms, awaiting_ack: true };
                    GatewayAction::Heartbeat { frame, arm_ack_timer: true }
                },
                _ => GatewayAction::Wait,
            },
            GatewayInput::AckTimeout => match self.phase {
                Phase::Steady { awaiting_ack: true, .. } => {
                    self.phase = Phase::Disconnected;
                    GatewayAction::End(Err(WebSocketError::HeartbeatTimeout))
                },
                _ => GatewayAction::Wait,
            },
            GatewayInput::Lost(e) => {
                self.phase = Phase::Disconnected;
                GatewayAction::End(Err(e))
            },
        }
    }
}

} // verus!

//! Facts about runs of the session manager: what holds over any sequence of
//! events fed to [`crate::gateway::WebSocketManager::step`].

use vstd::prelude::*;
use crate::error::WebSocketErrorView;
use crate::event::{event_type_of, EventType, FrameView};
use crate::gateway::{
    after_failure, after_success, bot_token, gateway_step, GatewayActionView, GatewayInputView,
    ManagerView, OutboundView, Phase,
};
use crate::session::{empty_session, merge_seq, seq_no_later, updated};

verus! {

/// The manager after feeding it `inputs` in order.
pub open spec fn run(g: ManagerView, inputs: Seq<GatewayInputView>) -> ManagerView
    decreases inputs.len(),
{
    if inputs.len() == 0 {
        g
    } else {
        gateway_step(run(g, inputs.drop_last()), inputs.last()).0
    }
}

/// The manager just before the event at index `k`.
pub open spec fn state_before(g: ManagerView, inputs: Seq<GatewayInputView>, k: int) -> ManagerView {
    run(g, inputs.take(k))
}

/// The action answering the event at index `k`.
pub open spec fn action_at(g: ManagerView, inputs: Seq<GatewayInputView>, k: int) -> GatewayActionView {
    gateway_step(state_before(g, inputs, k), inputs[k]).1
}

pub open spec fn is_invalid_session_frame(i: GatewayInputView) -> bool {
    i matches GatewayInputView::Frame(f) && f.op == 9
}

pub open spec fn is_heartbeat_request(i: GatewayInputView) -> bool {
    i matches GatewayInputView::Frame(f) && f.op == 1
}

pub open spec fn is_ready(f: FrameView) -> bool {
    f.op == 0 && (f.t matches Some(t) && event_type_of(t) == Some(EventType::Ready))
}

pub open spec fn has_session_id(g: ManagerView) -> bool {
    g.session.session_id matches Some(id) && id.len() > 0
}

pub open spec fn ack_outstanding(g: ManagerView) -> bool {
    g.phase matches Phase::Steady { awaiting_ack: true, .. }
}

/// The action closes a wait for a HeartbeatACK: one arrived, or the connection ends.
pub open spec fn ends_ack_wait(a: GatewayActionView) -> bool {
    a is AckReceived || a is End
}

proof fn lemma_state_before_next(g: ManagerView, inputs: Seq<GatewayInputView>, k: int)
    requires
        0 <= k < inputs.len(),
    ensures
        state_before(g, inputs, k + 1) == gateway_step(state_before(g, inputs, k), inputs[k]).0,
{
    assert(inputs.take(k + 1).drop_last() =~= inputs.take(k));
    assert(inputs.take(k + 1).last() == inputs[k]);
}

proof fn lemma_state_before_start(g: ManagerView, inputs: Seq<GatewayInputView>)
    ensures
        state_before(g, inputs, 0) == g,
{
    assert(inputs.take(0) =~= Seq::<GatewayInputView>::empty());
}

proof fn lemma_step_keeps_session_id(g: ManagerView, i: GatewayInputView)
    requires
        has_session_id(g),
        !is_invalid_session_frame(i),
    ensures
        has_session_id(gateway_step(g, i).0),
{
}

proof fn lemma_session_id_prefix(g: ManagerView, inputs: Seq<GatewayInputView>, k: int)
    requires
        1 <= k <= inputs.len(),
        has_session_id(state_before(g, inputs, 1)),
        forall|m: int| 1 <= m < inputs.len() ==> !is_invalid_session_frame(#[trigger] inputs[m]),
    ensures
        has_session_id(state_before(g, inputs, k)),
    decreases k,
{
    if k > 1 {
        lemma_session_id_prefix(g, inputs, k - 1);
        lemma_state_before_next(g, inputs, k - 1);
        lemma_step_keeps_session_id(state_before(g, inputs, k - 1), inputs[k - 1]);
    }
}

/// Once a READY with a non-empty session id has been processed in steady
/// state, the session id is present and non-empty after every later event,
/// until an InvalidSession frame arrives.
pub proof fn lemma_session_id_kept_until_invalid_session(g: ManagerView, inputs: Seq<GatewayInputView>)
    requires
        inputs.len() > 0,
        g.phase is Steady,
        inputs[0] matches GatewayInputView::Frame(f) && is_ready(f) && (f.session_id matches Some(id) && id.len() > 0),
        forall|m: int| 1 <= m < inputs.len() ==> !is_invalid_session_frame(#[trigger] inputs[m]),
    ensures
        forall|k: int| 1 <= k <= inputs.len() ==> has_session_id(#[trigger] state_before(g, inputs, k)),
{
    lemma_state_before_start(g, inputs);
    lemma_state_before_next(g, inputs, 0);
    assert forall|k: int| 1 <= k <= inputs.len() implies has_session_id(#[trigger] state_before(g, inputs, k)) by {
        lemma_session_id_prefix(g, inputs, k);
    }
}

proof fn lemma_step_keeps_seq_order(g: ManagerView, i: GatewayInputView)
    requires
        !is_invalid_session_frame(i),
    ensures
        seq_no_later(g.session.last_seq, gateway_step(g, i).0.session.last_seq),
{
}

proof fn lemma_seq_order_prefix(g: ManagerView, inputs: Seq<GatewayInputView>, j: int, k: int)
    requires
        0 <= j <= k <= inputs.len(),
        forall|m: int| 0 <= m < inputs.len() ==> !is_invalid_session_frame(#[trigger] inputs[m]),
    ensures
        seq_no_later(state_before(g, inputs, j).session.last_seq, state_before(g, inputs, k).session.last_seq),
    decreases k - j,
{
    if k > j {
        lemma_seq_order_prefix(g, inputs, j, k - 1);
        lemma_state_before_next(g, inputs, k - 1);
        lemma_step_keeps_seq_order(state_before(g, inputs, k - 1), inputs[k - 1]);
    }
}

/// Within one session (no InvalidSession frame among the events), `last_seq`
/// never decreases: an absent value may become present, a present one never
/// goes down or away.
pub proof fn lemma_last_seq_monotonic(g: ManagerView, inputs: Seq<GatewayInputView>)
    requires
        forall|m: int| 0 <= m < inputs.len() ==> !is_invalid_session_frame(#[trigger] inputs[m]),
    ensures
        forall|j: int, k: int|
            0 <= j <= k <= inputs.len() ==> seq_no_later(
                #[trigger] state_before(g, inputs, j).session.last_seq,
                #[trigger] state_before(g, inputs, k).session.last_seq,
            ),
{
    assert forall|j: int, k: int| 0 <= j <= k <= inputs.len() implies seq_no_later(
        state_before(g, inputs, j).session.last_seq,
        state_before(g, inputs, k).session.last_seq,
    ) by {
        lemma_seq_order_prefix(g, inputs, j, k);
    }
}

proof fn lemma_ack_wait_prefix(g: ManagerView, inputs: Seq<GatewayInputView>, i: int, k: int)
    requires
        0 <= i < k <= inputs.len(),
        action_at(g, inputs, i) is Heartbeat,
        forall|m: int| i < m < k ==> !ends_ack_wait(#[trigger] action_at(g, inputs, m)),
    ensures
        ack_outstanding(state_before(g, inputs, k)),
    decreases k - i,
{
    lemma_state_before_next(g, inputs, k - 1);
    if k - 1 > i {
        lemma_ack_wait_prefix(g, inputs, i, k - 1);
        assert(!ends_ack_wait(action_at(g, inputs, k - 1)));
    }
}

/// Between two heartbeats, the second sent on the manager's own timer, either
/// a HeartbeatACK was received or the connection ended; and when the ACK
/// timer fires while a heartbeat is unanswered, the connection ends as a
/// heartbeat timeout.
pub proof fn lemma_heartbeat_acknowledged_or_timed_out(g: ManagerView, inputs: Seq<GatewayInputView>, i: int, j: int)
    requires
        0 <= i < j < inputs.len(),
        action_at(g, inputs, i) is Heartbeat,
    ensures
        action_at(g, inputs, j) is Heartbeat && !is_heartbeat_request(inputs[j])
            ==> exists|k: int| i < k < j && ends_ack_wait(#[trigger] action_at(g, inputs, k)),
        (forall|m: int| i < m < j ==> !ends_ack_wait(#[trigger] action_at(g, inputs, m))) && inputs[j] is AckTimeout
            ==> action_at(g, inputs, j) == GatewayActionView::End(Err(WebSocketErrorView::HeartbeatTimeout)),
{
    if forall|m: int| i < m < j ==> !ends_ack_wait(#[trigger] action_at(g, inputs, m)) {
        lemma_ack_wait_prefix(g, inputs, i, j);
    }
}

/// A READY in steady state installs its session id, records its sequence
/// number by the max rule, and invokes no handler.
pub proof fn lemma_ready_installs_session_id(g: ManagerView, f: FrameView, id: Seq<char>)
    requires
        g.phase is Steady,
        is_ready(f),
        f.session_id == Some(id),
        id.len() > 0,
    ensures
        gateway_step(g, GatewayInputView::Frame(f)).0.session.session_id == Some(id),
        gateway_step(g, GatewayInputView::Frame(f)).0.session.last_seq == updated(g.session, None, f.s).last_seq,
        gateway_step(g, GatewayInputView::Frame(f)).0.phase == g.phase,
        gateway_step(g, GatewayInputView::Frame(f)).1 is Wait,
{
}

/// In steady state, a frame carrying sequence number `n` that is not an
/// InvalidSession leaves `last_seq` at the larger of the stored value and `n`.
pub proof fn lemma_frame_records_seq(g: ManagerView, f: FrameView, n: u64)
    requires
        g.phase is Steady,
        f.s == Some(n),
        f.op != 9,
    ensures
        gateway_step(g, GatewayInputView::Frame(f)).0.session.last_seq == Some(merge_seq(g.session.last_seq, n)),
{
}

/// A Reconnect frame in steady state with a session in place ends the attempt
/// cleanly and keeps Session State; the handshake of the next connection
/// resumes that session from the latest sequence number.
pub proof fn lemma_reconnect_resumes(g: ManagerView, reconnect: FrameView, hello: FrameView, n: u64)
    requires
        g.phase is Steady,
        reconnect.op == 7,
        g.session.session_id is Some,
        g.session.last_seq is Some,
        hello.op == 10,
        hello.heartbeat_interval == Some(n),
        n > 0,
    ensures
        gateway_step(g, GatewayInputView::Frame(reconnect)).1 == GatewayActionView::End(Ok(())),
        gateway_step(
            gateway_step(after_success(gateway_step(g, GatewayInputView::Frame(reconnect)).0), GatewayInputView::Opened).0,
            GatewayInputView::Frame(hello),
        ).1 == (GatewayActionView::Handshake {
            frame: OutboundView::Resume {
                token: bot_token(g.token),
                session_id: g.session.session_id.unwrap(),
                seq: updated(g.session, None, reconnect.s).last_seq.unwrap(),
            },
            heartbeat_interval_ms: n,
        }),
{
}

/// An InvalidSession frame in steady state clears Session State and ends the
/// attempt; after the failure is counted, the handshake of the next
/// connection is an Identify.
pub proof fn lemma_invalid_session_identifies(g: ManagerView, invalid: FrameView, base: u64, hello: FrameView, n: u64)
    requires
        g.phase is Steady,
        invalid.op == 9,
        hello.op == 10,
        hello.heartbeat_interval == Some(n),
        n > 0,
    ensures
        gateway_step(g, GatewayInputView::Frame(invalid)).1 == GatewayActionView::End(Err(WebSocketErrorView::InvalidSession)),
        gateway_step(g, GatewayInputView::Frame(invalid)).0.session == empty_session(),
        gateway_step(
            gateway_step(after_failure(gateway_step(g, GatewayInputView::Frame(invalid)).0, base), GatewayInputView::Opened).0,
            GatewayInputView::Frame(hello),
        ).1 == (GatewayActionView::Handshake {
            frame: OutboundView::Identify { token: bot_token(g.token), intents: g.settings.intents, shard: (0u32, 1u32) },
            heartbeat_interval_ms: n,
        }),
{
}

} // verus!

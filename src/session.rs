//! Session State: the session id and the last sequence number seen, which
//! outlive individual websocket connections.

use vstd::prelude::*;
use crate::error::WebSocketError;

verus! {

/// The two fields of Session State.
#[derive(Debug, Clone)]
pub struct SessionData {
    pub session_id: Option<String>,
    pub last_seq: Option<u64>,
}

/// Session State with the session id as a character sequence.
pub struct SessionView {
    pub session_id: Option<Seq<char>>,
    pub last_seq: Option<u64>,
}

impl View for SessionData {
    type V = SessionView;

    open spec fn view(&self) -> SessionView {
        SessionView { session_id: self.session_id.deep_view(), last_seq: self.last_seq }
    }
}

/// The state with neither field set.
pub open spec fn empty_session() -> SessionView {
    SessionView { session_id: None, last_seq: None }
}

/// The larger of an optional stored sequence number and a received one.
pub open spec fn merge_seq(stored: Option<u64>, received: u64) -> u64 {
    match stored {
        Some(old) => if old >= received { old } else { received },
        None => received,
    }
}

/// `a` is no later than `b`: an absent sequence number precedes every present one.
pub open spec fn seq_no_later(a: Option<u64>, b: Option<u64>) -> bool {
    match (a, b) {
        (None, _) => true,
        (Some(x), Some(y)) => x <= y,
        (Some(_), None) => false,
    }
}

/// The state after an update: a given session id replaces the stored one, a
/// given sequence number is merged so that the stored one never decreases.
pub open spec fn updated(v: SessionView, session_id: Option<Seq<char>>, seq: Option<u64>) -> SessionView {
    SessionView {
        session_id: match session_id {
            Some(id) => Some(id),
            None => v.session_id,
        },
        last_seq: match seq {
            Some(s) => Some(merge_seq(v.last_seq, s)),
            None => v.last_seq,
        },
    }
}

/// Session State as owned by one gateway session manager.
#[derive(Debug)]
pub struct SessionState {
    data: SessionData,
}

impl View for SessionState {
    type V = SessionView;

    closed spec fn view(&self) -> SessionView {
        self.data@
    }
}

impl SessionState {
    /// An empty Session State.
    pub fn new() -> (r: SessionState)
        ensures
            r@ == empty_session(),
    {
        SessionState { data: SessionData { session_id: None, last_seq: None } }
    }

    /// Installs `session_id` when given, and raises the sequence number to
    /// `last_seq` when given and larger.
    pub fn update(&mut self, session_id: Option<String>, last_seq: Option<u64>) -> (r: Result<(), WebSocketError>)
        ensures
            final(self)@ == updated(old(self)@, session_id.deep_view(), last_seq),
            r is Ok,
    {
        if let Some(id) = session_id {
            self.data.session_id = Some(id);
        }
        if let Some(s) = last_seq {
            let merged = match self.data.last_seq {
                Some(old) => if old >= s { old } else { s },
                None => s,
            };
            self.data.last_seq = Some(merged);
        }
        Ok(())
    }

    /// Forgets the session: both fields become absent.
    pub fn clear(&mut self)
        ensures
            final(self)@ == empty_session(),
    {
        self.data = SessionData { session_id: None, last_seq: None };
    }

    pub fn get_session_id(&self) -> (r: Option<String>)
        ensures
            r.deep_view() == self@.session_id,
    {
        match &self.data.session_id {
            Some(id) => Some(id.clone()),
            None => None,
        }
    }

    pub fn get_last_seq(&self) -> (r: Option<u64>)
        ensures
            r == self@.last_seq,
    {
        self.data.last_seq
    }

    /// A snapshot of both fields.
    pub fn snapshot(&self) -> (r: SessionData)
        ensures
            r@ == self@,
    {
        SessionData { session_id: self.get_session_id(), last_seq: self.data.last_seq }
    }
}

} // verus!

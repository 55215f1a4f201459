//! Error taxonomy of the gateway session, the REST client and the intake server.

use vstd::prelude::*;
use vstd::string::*;
use crate::text::{decimal, decimal_text};

verus! {

/// Why a gateway connection attempt ended.
#[derive(Debug, Clone)]
pub enum WebSocketError {
    /// Transport-level error opening or reading the websocket.
    ConnectionFailed(String),
    Io(String),
    /// A frame could not be encoded or decoded.
    Serialization(String),
    /// The peer sent Close or the stream ended.
    ConnectionClosed,
    /// No HeartbeatACK arrived in time.
    HeartbeatTimeout,
    /// An outbound write failed.
    SendFailed(String),
    /// The Hello frame carried no positive heartbeat interval.
    MissingHeartbeatInterval,
    /// The peer rejected the session.
    InvalidSession,
    Other(String),
}

/// A [`WebSocketError`] with its messages as character sequences.
pub enum WebSocketErrorView {
    ConnectionFailed(Seq<char>),
    Io(Seq<char>),
    Serialization(Seq<char>),
    ConnectionClosed,
    HeartbeatTimeout,
    SendFailed(Seq<char>),
    MissingHeartbeatInterval,
    InvalidSession,
    Other(Seq<char>),
}

impl View for WebSocketError {
    type V = WebSocketErrorView;

    open spec fn view(&self) -> WebSocketErrorView {
        match self {
            WebSocketError::ConnectionFailed(m) => WebSocketErrorView::ConnectionFailed(m@),
            WebSocketError::Io(m) => WebSocketErrorView::Io(m@),
            WebSocketError::Serialization(m) => WebSocketErrorView::Serialization(m@),
            WebSocketError::ConnectionClosed => WebSocketErrorView::ConnectionClosed,
            WebSocketError::HeartbeatTimeout => WebSocketErrorView::HeartbeatTimeout,
            WebSocketError::SendFailed(m) => WebSocketErrorView::SendFailed(m@),
            WebSocketError::MissingHeartbeatInterval => WebSocketErrorView::MissingHeartbeatInterval,
            WebSocketError::InvalidSession => WebSocketErrorView::InvalidSession,
            WebSocketError::Other(m) => WebSocketErrorView::Other(m@),
        }
    }
}

/// Failures of the REST client.
#[derive(Debug, Clone)]
pub enum ClientError {
    /// The HTTP request failed; the transport's message.
    NetworkError(String),
    /// A response body did not decode; the decoder's message.
    ParseError(String),
    AuthFailed { status: u16, response: String },
    ServerError { status: u16, response: String },
    PostMessageFailed(String),
    GetWssEndpointFailed(String),
    Unknown(String),
}

/// Failures surfaced by the intake server.
#[derive(Debug, Clone)]
pub enum AppError {
    ClientError(ClientError),
    DatabaseError(String),
    NetworkError(String),
    /// A payload did not decode; the decoder's message.
    SerializationError(String),
    ValidationError(String),
    InternalServerError(String),
}

/// The HTTP status that reports `e`: 401 for a failed authentication, 400 for
/// validation and parse errors, 500 otherwise.
pub open spec fn app_error_status(e: AppError) -> u16 {
    match e {
        AppError::ClientError(ClientError::AuthFailed { .. }) => 401,
        AppError::ClientError(ClientError::ParseError(_)) => 400,
        AppError::ClientError(_) => 500,
        AppError::ValidationError(_) => 400,
        AppError::SerializationError(_) => 400,
        _ => 500,
    }
}

/// `<label>status=<status>, response=<response>`.
pub open spec fn status_text(label: Seq<char>, status: u16, response: Seq<char>) -> Seq<char> {
    label + "status="@ + decimal(status as nat) + ", response="@ + response
}

/// The description of a REST client error.
pub open spec fn client_error_text(e: ClientError) -> Seq<char> {
    match e {
        ClientError::NetworkError(m) => "Network request failed: "@ + m@,
        ClientError::ParseError(m) => "Failed to parse JSON response: "@ + m@,
        ClientError::AuthFailed { status, response } => status_text("Authentication failed: "@, status, response@),
        ClientError::ServerError { status, response } => status_text("Server error: "@, status, response@),
        ClientError::PostMessageFailed(m) => "Failed to post message: "@ + m@,
        ClientError::GetWssEndpointFailed(m) => "Failed to get WSS endpoint: "@ + m@,
        ClientError::Unknown(m) => "Unknown error: "@ + m@,
    }
}

/// The `error` text of the JSON body that reports `e`.
pub open spec fn app_error_text(e: AppError) -> Seq<char> {
    match e {
        AppError::ClientError(c) => client_error_text(c),
        AppError::DatabaseError(m) => "Database error: "@ + m@,
        AppError::NetworkError(m) => "Network error: "@ + m@,
        AppError::SerializationError(m) => m@,
        AppError::ValidationError(m) => m@,
        AppError::InternalServerError(m) => "Internal server error: "@ + m@,
    }
}

fn prefixed(prefix: &str, m: &String) -> (r: String)
    ensures
        r@ == prefix@ + m@,
{
    let mut r = String::from_str(prefix);
    r.append(m.as_str());
    r
}

fn status_line(label: &str, status: u16, response: &String) -> (r: String)
    ensures
        r@ == status_text(label@, status, response@),
{
    let mut r = String::from_str(label);
    r.append("status=");
    r.append(decimal_text(status as u64).as_str());
    r.append(", response=");
    r.append(response.as_str());
    r
}

impl ClientError {
    pub fn describe(&self) -> (r: String)
        ensures
            r@ == client_error_text(*self),
    {
        match self {
            ClientError::NetworkError(m) => prefixed("Network request failed: ", m),
            ClientError::ParseError(m) => prefixed("Failed to parse JSON response: ", m),
            ClientError::AuthFailed { status, response } => status_line("Authentication failed: ", *status, response),
            ClientError::ServerError { status, response } => status_line("Server error: ", *status, response),
            ClientError::PostMessageFailed(m) => prefixed("Failed to post message: ", m),
            ClientError::GetWssEndpointFailed(m) => prefixed("Failed to get WSS endpoint: ", m),
            ClientError::Unknown(m) => prefixed("Unknown error: ", m),
        }
    }
}

impl AppError {
    /// The HTTP status of the response that reports this error.
    pub fn status_code(&self) -> (r: u16)
        ensures
            r == app_error_status(*self),
    {
        match self {
            AppError::ClientError(ClientError::AuthFailed { .. }) => 401,
            AppError::ClientError(ClientError::ParseError(_)) => 400,
            AppError::ClientError(_) => 500,
            AppError::ValidationError(_) => 400,
            AppError::SerializationError(_) => 400,
            _ => 500,
        }
    }

    /// The `error` text of the response that reports this error.
    pub fn message(&self) -> (r: String)
        ensures
            r@ == app_error_text(*self),
    {
        match self {
            AppError::ClientError(c) => c.describe(),
            AppError::DatabaseError(m) => prefixed("Database error: ", m),
            AppError::NetworkError(m) => prefixed("Network error: ", m),
            AppError::SerializationError(m) => m.clone(),
            AppError::ValidationError(m) => m.clone(),
            AppError::InternalServerError(m) => prefixed("Internal server error: ", m),
        }
    }
}

} // verus!

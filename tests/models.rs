use qq_bot::config::{get_config, Config};
use qq_bot::error::{AppError, ClientError};
use qq_bot::event::{EventType, OpCode};
use qq_bot::handler::DefaultEventHandler;
use qq_bot::message::{Author, C2CAuthor, C2CMessage, GroupMessage, MessageScene, PostMessageBody};
use qq_bot::rest::{
    access_token, auth_url, authorization, c2c_messages_url, check_auth, check_gateway, check_post,
    gateway_url, group_messages_url, is_success,
};
use qq_bot::session::SessionState;

#[test]
fn opcode_numbers_round_trip() {
    let all = [
        (OpCode::Dispatch, 0u8),
        (OpCode::Heartbeat, 1),
        (OpCode::Identify, 2),
        (OpCode::Resume, 6),
        (OpCode::Reconnect, 7),
        (OpCode::InvalidSession, 9),
        (OpCode::Hello, 10),
        (OpCode::HeartbeatACK, 11),
        (OpCode::CallbackACK, 12),
        (OpCode::WebhookValidate, 13),
    ];
    for (op, n) in all {
        assert_eq!(op.code(), n);
        assert_eq!(u8::from(op), n);
        assert_eq!(OpCode::from_code(n), Some(op));
    }
    for n in [3u8, 4, 5, 8, 14, 255] {
        assert_eq!(OpCode::from_code(n), None);
    }
}

#[test]
fn event_type_tags() {
    assert_eq!(EventType::parse("READY"), Some(EventType::Ready));
    assert_eq!(EventType::parse("RESUMED"), Some(EventType::Resumed));
    assert_eq!(EventType::parse("GROUP_AT_MESSAGE_CREATE"), Some(EventType::GroupAtMessageCreate));
    assert_eq!(EventType::parse("C2C_MESSAGE_CREATE"), Some(EventType::C2CMessageCreate));
    assert_eq!(EventType::parse("ready"), None);
    assert_eq!(EventType::parse(""), None);
}

#[test]
fn session_update_merges_sequence() {
    let mut s = SessionState::new();
    assert_eq!(s.get_session_id(), None);
    assert!(s.update(None, Some(5)).is_ok());
    assert_eq!(s.get_last_seq(), Some(5));
    s.update(None, Some(3)).unwrap();
    assert_eq!(s.get_last_seq(), Some(5));
    s.update(Some("A".to_string()), None).unwrap();
    assert_eq!(s.get_session_id().as_deref(), Some("A"));
    assert_eq!(s.get_last_seq(), Some(5));
    s.update(Some("B".to_string()), Some(8)).unwrap();
    let snap = s.snapshot();
    assert_eq!(snap.session_id.as_deref(), Some("B"));
    assert_eq!(snap.last_seq, Some(8));
    s.update(None, None).unwrap();
    assert_eq!(s.get_session_id().as_deref(), Some("B"));
    s.clear();
    assert_eq!(s.get_session_id(), None);
    assert_eq!(s.get_last_seq(), None);
}

#[test]
fn post_body_builders() {
    let b = PostMessageBody::from_msg_type(2);
    assert_eq!(b.msg_type, 2);
    assert!(b.msg_id.is_none() && b.content.is_none() && b.event_id.is_none());
    assert!(b.msg_seq.is_none() && b.is_wakeup.is_none());
    let b = b
        .with_content("hi".to_string())
        .with_msg_id("m1".to_string())
        .with_event_id("e1".to_string())
        .with_msg_seq("3".to_string())
        .with_is_wakeup(true);
    assert_eq!(b.content.as_deref(), Some("hi"));
    assert_eq!(b.msg_id.as_deref(), Some("m1"));
    assert_eq!(b.event_id.as_deref(), Some("e1"));
    assert_eq!(b.msg_seq.as_deref(), Some("3"));
    assert_eq!(b.is_wakeup, Some(true));
    assert_eq!(b.msg_type, 2);
}

#[test]
fn default_handler_echoes() {
    let g = GroupMessage {
        author: Author { id: "a".into(), member_openid: "m".into(), union_openid: "u".into() },
        content: "hello".into(),
        group_id: "g".into(),
        group_openid: "go".into(),
        id: "msg-1".into(),
        message_scene: MessageScene { source: "default".into() },
        message_type: 0,
        timestamp: "2024".into(),
    };
    let r = DefaultEventHandler.group_reply(&g);
    assert_eq!(r.msg_type, 0);
    assert_eq!(r.content.as_deref(), Some("收到消息: hello"));
    assert_eq!(r.msg_id.as_deref(), Some("msg-1"));
    assert!(r.event_id.is_none());
    let c = C2CMessage {
        author: C2CAuthor { user_openid: "uo".into() },
        content: "yo".into(),
        id: "msg-2".into(),
        timestamp: "t".into(),
    };
    let r = DefaultEventHandler.c2c_reply(&c);
    assert_eq!(r.content.as_deref(), Some("收到消息: yo"));
    assert_eq!(r.msg_id.as_deref(), Some("msg-2"));
}

#[test]
fn config_requires_both_values() {
    let c: Config = get_config(Some("102".into()), Some("sec".into())).unwrap();
    assert_eq!(c.app_id, "102");
    assert_eq!(c.client_secret, "sec");
    assert!(get_config(None, Some("sec".into())).is_none());
    assert!(get_config(Some("102".into()), None).is_none());
    assert!(get_config(Some("".into()), Some("sec".into())).is_none());
    assert!(get_config(Some("102".into()), Some("".into())).is_none());
}

#[test]
fn rest_endpoints_and_header() {
    assert_eq!(auth_url(), "https://bots.qq.com/app/getAppAccessToken");
    assert_eq!(gateway_url(), "https://api.sgroup.qq.com/gateway");
    assert_eq!(group_messages_url("G1"), "https://api.sgroup.qq.com/v2/groups/G1/messages");
    assert_eq!(c2c_messages_url("U1"), "https://api.sgroup.qq.com/v2/users/U1/messages");
    assert_eq!(authorization("tok"), "QQBot tok");
}

#[test]
fn response_status_judgement() {
    assert!(is_success(200) && is_success(204) && is_success(299));
    assert!(!is_success(199) && !is_success(300) && !is_success(404));
    assert!(check_auth(200, "ok".into()).is_ok());
    match check_auth(302, "moved".into()) {
        Err(ClientError::AuthFailed { status, response }) => {
            assert_eq!(status, 302);
            assert_eq!(response, "moved");
        }
        other => panic!("unexpected {:?}", other),
    }
    match check_post(500, "boom".into()) {
        Err(ClientError::PostMessageFailed(m)) => assert_eq!(m, "status: 500, response: boom"),
        other => panic!("unexpected {:?}", other),
    }
    match check_gateway(401, "no".into()) {
        Err(ClientError::GetWssEndpointFailed(m)) => assert_eq!(m, "status: 401, response: no"),
        other => panic!("unexpected {:?}", other),
    }
    assert!(check_post(201, "".into()).is_ok());
    match check_post(0, "".into()) {
        Err(ClientError::PostMessageFailed(m)) => assert_eq!(m, "status: 0, response: "),
        other => panic!("unexpected {:?}", other),
    }
    match check_gateway(65535, "x".into()) {
        Err(ClientError::GetWssEndpointFailed(m)) => assert_eq!(m, "status: 65535, response: x"),
        other => panic!("unexpected {:?}", other),
    }
    assert_eq!(access_token(Some("t".into())).unwrap(), "t");
    match access_token(None) {
        Err(ClientError::Unknown(m)) => assert_eq!(m, "No access token available"),
        other => panic!("unexpected {:?}", other),
    }
}

#[test]
fn app_error_status_and_message() {
    let auth = AppError::ClientError(ClientError::AuthFailed { status: 401, response: "bad".into() });
    assert_eq!(auth.status_code(), 401);
    assert_eq!(auth.message(), "Authentication failed: status=401, response=bad");
    let parse = AppError::ClientError(ClientError::ParseError("eof".into()));
    assert_eq!(parse.status_code(), 400);
    assert_eq!(parse.message(), "Failed to parse JSON response: eof");
    let other = AppError::ClientError(ClientError::Unknown("x".into()));
    assert_eq!(other.status_code(), 500);
    assert_eq!(other.message(), "Unknown error: x");
    let server = AppError::ClientError(ClientError::ServerError { status: 503, response: "down".into() });
    assert_eq!(server.message(), "Server error: status=503, response=down");
    assert_eq!(AppError::ValidationError("v".into()).status_code(), 400);
    assert_eq!(AppError::ValidationError("v".into()).message(), "v");
    assert_eq!(AppError::SerializationError("s".into()).status_code(), 400);
    assert_eq!(AppError::DatabaseError("d".into()).status_code(), 500);
    assert_eq!(AppError::DatabaseError("d".into()).message(), "Database error: d");
    assert_eq!(AppError::NetworkError("n".into()).message(), "Network error: n");
    assert_eq!(AppError::InternalServerError("i".into()).status_code(), 500);
    assert_eq!(AppError::InternalServerError("i".into()).message(), "Internal server error: i");
}

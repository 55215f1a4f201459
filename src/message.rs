//! Chat message payloads and the body of an outbound message.

use vstd::prelude::*;

verus! {

/// Body of a message POST; absent fields are left out on the wire.
#[derive(Debug, Clone)]
pub struct PostMessageBody {
    pub msg_type: u8,
    pub msg_id: Option<String>,
    pub content: Option<String>,
    pub event_id: Option<String>,
    pub msg_seq: Option<String>,
    pub is_wakeup: Option<bool>,
}

pub struct PostMessageBodyView {
    pub msg_type: u8,
    pub msg_id: Option<Seq<char>>,
    pub content: Option<Seq<char>>,
    pub event_id: Option<Seq<char>>,
    pub msg_seq: Option<Seq<char>>,
    pub is_wakeup: Option<bool>,
}

impl View for PostMessageBody {
    type V = PostMessageBodyView;

    open spec fn view(&self) -> PostMessageBodyView {
        PostMessageBodyView {
            msg_type: self.msg_type,
            msg_id: self.msg_id.deep_view(),
            content: self.content.deep_view(),
            event_id: self.event_id.deep_view(),
            msg_seq: self.msg_seq.deep_view(),
            is_wakeup: self.is_wakeup,
        }
    }
}

impl PostMessageBody {
    /// A body of the given message type with every optional field absent.
    pub fn from_msg_type(msg_type: u8) -> (r: PostMessageBody)
        ensures
            r@ == (PostMessageBodyView {
                msg_type,
                msg_id: None,
                content: None,
                event_id: None,
                msg_seq: None,
                is_wakeup: None,
            }),
    {
        PostMessageBody { msg_type, msg_id: None, content: None, event_id: None, msg_seq: None, is_wakeup: None }
    }

    pub fn with_content(self, content: String) -> (r: PostMessageBody)
        ensures
            r@ == (PostMessageBodyView { content: Some(content@), ..self@ }),
    {
        PostMessageBody { content: Some(content), ..self }
    }

    pub fn with_msg_id(self, msg_id: String) -> (r: PostMessageBody)
        ensures
            r@ == (PostMessageBodyView { msg_id: Some(msg_id@), ..self@ }),
    {
        PostMessageBody { msg_id: Some(msg_id), ..self }
    }

    pub fn with_event_id(self, event_id: String) -> (r: PostMessageBody)
        ensures
            r@ == (PostMessageBodyView { event_id: Some(event_id@), ..self@ }),
    {
        PostMessageBody { event_id: Some(event_id), ..self }
    }

    pub fn with_msg_seq(self, msg_seq: String) -> (r: PostMessageBody)
        ensures
            r@ == (PostMessageBodyView { msg_seq: Some(msg_seq@), ..self@ }),
    {
        PostMessageBody { msg_seq: Some(msg_seq), ..self }
    }

    pub fn with_is_wakeup(self, is_wakeup: bool) -> (r: PostMessageBody)
        ensures
            r@ == (PostMessageBodyView { is_wakeup: Some(is_wakeup), ..self@ }),
    {
        PostMessageBody { is_wakeup: Some(is_wakeup), ..self }
    }
}

/// A group message that mentions the bot.
#[derive(Debug, Clone)]
pub struct GroupMessage {
    pub author: Author,
    pub content: String,
    pub group_id: String,
    pub group_openid: String,
    pub id: String,
    pub message_scene: MessageScene,
    pub message_type: u8,
    pub timestamp: String,
}

#[derive(Debug, Clone)]
pub struct Author {
    pub id: String,
    pub member_openid: String,
    pub union_openid: String,
}

#[derive(Debug, Clone)]
pub struct MessageScene {
    pub source: String,
}

/// A direct (user to bot) message.
#[derive(Debug, Clone)]
pub struct C2CMessage {
    pub author: C2CAuthor,
    pub content: String,
    pub id: String,
    pub timestamp: String,
}

#[derive(Debug, Clone)]
pub struct C2CAuthor {
    pub user_openid: String,
}

} // verus!

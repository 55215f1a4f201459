//! The default handler's replies: echo the received text back.

use vstd::prelude::*;
use vstd::string::*;
use crate::message::{C2CMessage, GroupMessage, PostMessageBody, PostMessageBodyView};

verus! {

/// A handler that answers every message by quoting it.
#[derive(Debug, Clone, Copy)]
pub struct DefaultEventHandler;

/// A text reply (message type 0) to the message `id`, saying that `content`
/// was received.
pub open spec fn echo_reply(content: Seq<char>, id: Seq<char>) -> PostMessageBodyView {
    PostMessageBodyView {
        msg_type: 0,
        msg_id: Some(id),
        content: Some("收到消息: "@ + content),
        event_id: None,
        msg_seq: None,
        is_wakeup: None,
    }
}

fn echo(content: &String, id: &String) -> (r: PostMessageBody)
    ensures
        r@ == echo_reply(content@, id@),
{
    let mut text = String::from_str("收到消息: ");
    text.append(content.as_str());
    PostMessageBody::from_msg_type(0).with_content(text).with_msg_id(id.clone())
}

impl DefaultEventHandler {
    /// The reply to a group message, to be posted to its `group_openid`.
    pub fn group_reply(&self, message: &GroupMessage) -> (r: PostMessageBody)
        ensures
            r@ == echo_reply(message.content@, message.id@),
    {
        echo(&message.content, &message.id)
    }

    /// The reply to a direct message, to be posted to its author's `user_openid`.
    pub fn c2c_reply(&self, message: &C2CMessage) -> (r: PostMessageBody)
        ensures
            r@ == echo_reply(message.content@, message.id@),
    {
        echo(&message.content, &message.id)
    }
}

} // verus!

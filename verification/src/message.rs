//! The data exchanged with the completion service.

use vstd::prelude::*;
use vstd::string::*;

verus! {

/// One turn of a conversation.
#[derive(Debug, PartialEq, Eq)]
pub struct Message {
    /// Who speaks: `system`, `user` or `assistant`.
    pub role: String,
    /// What is said.
    pub content: String,
}

/// A `Message` as two sequences of characters.
pub struct MessageView {
    pub role: Seq<char>,
    pub content: Seq<char>,
}

impl View for Message {
    type V = MessageView;

    open spec fn view(&self) -> MessageView {
        MessageView { role: self.role@, content: self.content@ }
    }
}

/// The message with no role and no content, from which a streamed reply grows.
pub open spec fn empty_message() -> MessageView {
    MessageView { role: Seq::empty(), content: Seq::empty() }
}

/// The message by which the user says `content`.
pub open spec fn user_message(content: Seq<char>) -> MessageView {
    MessageView { role: "user"@, content }
}

/// The views of the messages, in order.
pub open spec fn views(messages: Seq<Message>) -> Seq<MessageView> {
    Seq::new(messages.len(), |i: int| messages[i]@)
}

impl Message {
    /// A message of the user.
    pub fn user(content: String) -> (r: Message)
        ensures
            r@ == user_message(content@),
    {
        Message { role: String::from_str("user"), content }
    }
}

impl Default for Message {
    fn default() -> (r: Message)
        ensures
            r@ == empty_message(),
    {
        Message { role: String::new(), content: String::new() }
    }
}

impl Clone for Message {
    fn clone(&self) -> (r: Message)
        ensures
            r == *self,
    {
        Message { role: self.role.clone(), content: self.content.clone() }
    }
}

/// Copies a transcript.
pub fn copy_messages(messages: &Vec<Message>) -> (r: Vec<Message>)
    ensures
        r@ == messages@,
{
    let mut out: Vec<Message> = Vec::new();
    let mut i: usize = 0;
    while i < messages.len()
        invariant
            i <= messages.len(),
            out@ == messages@.take(i as int),
        decreases messages.len() - i,
    {
        out.push(messages[i].clone());
        assert(messages@.take(i + 1) == messages@.take(i as int).push(messages@[i as int]));
        i += 1;
    }
    assert(messages@.take(i as int) == messages@);
    out
}

} // verus!

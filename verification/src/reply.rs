//! The reply that comes in one piece.

use crate::error::{ChatError, ChatErrorView};
use crate::message::{Message, MessageView};
use crate::text::{visible, visible_fragment};
use crate::wire::{completion_of, decode_completion, Completion};
use vstd::prelude::*;

verus! {

/// The reply among the candidates: the message of the first one, its content
/// as it is seen when it is the first fragment of a message. No candidate is
/// an error.
pub open spec fn first_reply(candidates: Seq<MessageView>) -> Result<MessageView, ChatErrorView> {
    if candidates.len() == 0 {
        Err(ChatErrorView::EmptyChoices)
    } else {
        Ok(
            MessageView {
                role: candidates[0].role,
                content: visible_fragment(Seq::empty(), false, candidates[0].content),
            },
        )
    }
}

/// The reply that a whole body gives.
pub open spec fn reply_of(body: Seq<char>) -> Result<MessageView, ChatErrorView> {
    match completion_of(body) {
        Ok(candidates) => first_reply(candidates),
        Err(error) => Err(error),
    }
}

/// Picks the reply among the candidates of a decoded body.
pub fn first_message(completion: Completion) -> (r: Result<Message, ChatError>)
    ensures
        match r {
            Ok(message) => first_reply(completion@) == Ok::<MessageView, ChatErrorView>(message@),
            Err(error) => first_reply(completion@) == Err::<MessageView, ChatErrorView>(error@),
        },
{
    let mut choices = completion.choices;
    if choices.len() == 0 {
        return Err(ChatError::EmptyChoices);
    }
    let first: Message = choices.remove(0);
    assert(first@ == completion@[0]);
    proof {
        reveal_strlit("");
    }
    let content = visible("", false, first.content);
    Ok(Message { role: first.role, content })
}

/// Decodes the body of a reply that came in one piece and picks the reply.
/// Its content is what the caller shows, followed by a line end.
pub fn read_reply(body: &str) -> (r: Result<Message, ChatError>)
    ensures
        match r {
            Ok(message) => reply_of(body@) == Ok::<MessageView, ChatErrorView>(message@),
            Err(error) => reply_of(body@) == Err::<MessageView, ChatErrorView>(error@),
        },
{
    match decode_completion(body) {
        Ok(completion) => first_message(completion),
        Err(error) => Err(error),
    }
}

} // verus!

//! What can go wrong, and how it is reported.

use vstd::prelude::*;
use vstd::string::*;

verus! {

/// A failure of the client. Each one ends the request at hand.
#[derive(Debug, PartialEq, Eq)]
pub enum ChatError {
    /// No API key was configured.
    MissingApiKey,
    /// The line editor failed; the text says how.
    Input(String),
    /// The event stream broke; the text says how.
    Transport(String),
    /// A payload is not JSON; the text is the parser's complaint.
    InvalidJson(String),
    /// A payload is JSON of another shape than the service promises.
    UnexpectedShape,
    /// A payload offers no candidate completion.
    EmptyChoices,
}

/// A `ChatError` with its texts as sequences of characters.
pub enum ChatErrorView {
    MissingApiKey,
    Input(Seq<char>),
    Transport(Seq<char>),
    InvalidJson(Seq<char>),
    UnexpectedShape,
    EmptyChoices,
}

impl View for ChatError {
    type V = ChatErrorView;

    open spec fn view(&self) -> ChatErrorView {
        match self {
            ChatError::MissingApiKey => ChatErrorView::MissingApiKey,
            ChatError::Input(detail) => ChatErrorView::Input(detail@),
            ChatError::Transport(detail) => ChatErrorView::Transport(detail@),
            ChatError::InvalidJson(detail) => ChatErrorView::InvalidJson(detail@),
            ChatError::UnexpectedShape => ChatErrorView::UnexpectedShape,
            ChatError::EmptyChoices => ChatErrorView::EmptyChoices,
        }
    }
}

impl ChatErrorView {
    /// The message shown to the user.
    pub open spec fn description(self) -> Seq<char> {
        match self {
            ChatErrorView::MissingApiKey => "OPENAI_API_KEY not set"@,
            ChatErrorView::Input(detail) => "Readline error: "@ + detail,
            ChatErrorView::Transport(detail) => "EventSource stream error: "@ + detail,
            ChatErrorView::InvalidJson(detail) => detail,
            ChatErrorView::UnexpectedShape => "unexpected shape of the response"@,
            ChatErrorView::EmptyChoices => "the response holds no choices"@,
        }
    }
}

impl ChatError {
    /// The message shown to the user.
    pub fn describe(&self) -> (r: String)
        ensures
            r@ == self@.description(),
    {
        match self {
            ChatError::MissingApiKey => String::from_str("OPENAI_API_KEY not set"),
            ChatError::Input(detail) => String::from_str("Readline error: ").concat(
                detail.as_str(),
            ),
            ChatError::Transport(detail) => String::from_str("EventSource stream error: ").concat(
                detail.as_str(),
            ),
            ChatError::InvalidJson(detail) => detail.clone(),
            ChatError::UnexpectedShape => String::from_str("unexpected shape of the response"),
            ChatError::EmptyChoices => String::from_str("the response holds no choices"),
        }
    }
}

} // verus!

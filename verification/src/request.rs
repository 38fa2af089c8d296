//! What the client is told at startup, and what it sends.

use crate::message::{views, Message, MessageView};
use crate::text::texts;
use vstd::prelude::*;

verus! {

/// What the command line gives. It is fixed for the life of a session.
///
/// A sampling number is carried as the bit pattern of the IEEE 754 double
/// that was given, so that it reaches the service unchanged.
#[derive(Debug, PartialEq, Eq)]
pub struct Options {
    /// Ask for the reply in one piece.
    pub no_stream: bool,
    /// The model that answers.
    pub model: String,
    /// The sampling temperature, if one was given.
    pub temperature: Option<u64>,
    /// The probability mass of nucleus sampling, if one was given.
    pub top_p: Option<u64>,
    /// The words of the prompt. None of them selects the interactive mode.
    pub prompt: Vec<String>,
}

/// `Options` as plain values.
pub struct OptionsView {
    pub no_stream: bool,
    pub model: Seq<char>,
    pub temperature: Option<u64>,
    pub top_p: Option<u64>,
    pub prompt: Seq<Seq<char>>,
}

impl View for Options {
    type V = OptionsView;

    open spec fn view(&self) -> OptionsView {
        OptionsView {
            no_stream: self.no_stream,
            model: self.model@,
            temperature: self.temperature,
            top_p: self.top_p,
            prompt: texts(self.prompt@),
        }
    }
}

/// The body of a request for a completion.
#[derive(Debug, PartialEq, Eq)]
pub struct Request {
    /// The model that answers.
    pub model: String,
    /// Whether the reply is to be streamed.
    pub stream: bool,
    /// The whole transcript, oldest message first.
    pub messages: Vec<Message>,
    /// The sampling temperature; absent, the service takes its own.
    pub temperature: Option<u64>,
    /// The probability mass of nucleus sampling; absent, the service takes its own.
    pub top_p: Option<u64>,
}

/// A `Request` as plain values.
pub struct RequestView {
    pub model: Seq<char>,
    pub stream: bool,
    pub messages: Seq<MessageView>,
    pub temperature: Option<u64>,
    pub top_p: Option<u64>,
}

impl View for Request {
    type V = RequestView;

    open spec fn view(&self) -> RequestView {
        RequestView {
            model: self.model@,
            stream: self.stream,
            messages: views(self.messages@),
            temperature: self.temperature,
            top_p: self.top_p,
        }
    }
}

/// One HTTP POST: where it goes, what authorizes it, what it carries.
#[derive(Debug, PartialEq, Eq)]
pub struct Call {
    /// The address of the completion endpoint.
    pub url: String,
    /// The value of the `Authorization` header.
    pub authorization: String,
    /// The body, to be sent as JSON.
    pub body: Request,
}

/// A `Call` as plain values.
pub struct CallView {
    pub url: Seq<char>,
    pub authorization: Seq<char>,
    pub body: RequestView,
}

impl View for Call {
    type V = CallView;

    open spec fn view(&self) -> CallView {
        CallView { url: self.url@, authorization: self.authorization@, body: self.body@ }
    }
}

/// The request that `options` and a transcript give: the model and the
/// sampling numbers as they were given, streaming unless it was switched off,
/// and every message of the transcript.
pub open spec fn request_of(options: OptionsView, messages: Seq<MessageView>) -> RequestView {
    RequestView {
        model: options.model,
        stream: !options.no_stream,
        messages,
        temperature: options.temperature,
        top_p: options.top_p,
    }
}

/// The call that carries `body` to the service at `api_base` under `api_key`.
pub open spec fn call_of(api_base: Seq<char>, api_key: Seq<char>, body: RequestView) -> CallView {
    CallView {
        url: api_base + "/chat/completions"@,
        authorization: "Bearer "@ + api_key,
        body,
    }
}

} // verus!

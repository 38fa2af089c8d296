//! What the service sends, decoded from JSON into plain values.

use crate::error::{ChatError, ChatErrorView};
use crate::json::{error_text, json_error_text, json_parse, json_shape, member, parse, JsonShape};
use crate::message::{views, Message, MessageView};
use vstd::prelude::*;
use vstd::string::*;

verus! {

/// One increment of a streamed reply: a piece of the role, a piece of the
/// content, both or neither.
#[derive(Debug, PartialEq, Eq)]
pub struct Delta {
    pub role: Option<String>,
    pub content: Option<String>,
}

/// A `Delta` with its pieces as sequences of characters.
pub struct DeltaView {
    pub role: Option<Seq<char>>,
    pub content: Option<Seq<char>>,
}

/// The characters of a text that may be absent.
pub open spec fn text_view(text: Option<String>) -> Option<Seq<char>> {
    match text {
        Some(t) => Some(t@),
        None => None,
    }
}

impl View for Delta {
    type V = DeltaView;

    open spec fn view(&self) -> DeltaView {
        DeltaView { role: text_view(self.role), content: text_view(self.content) }
    }
}

/// One data frame of a streamed reply: a delta for each candidate.
#[derive(Debug, PartialEq, Eq)]
pub struct StreamFrame {
    pub choices: Vec<Delta>,
}

impl View for StreamFrame {
    type V = Seq<DeltaView>;

    open spec fn view(&self) -> Seq<DeltaView> {
        Seq::new(self.choices@.len(), |i: int| self.choices@[i]@)
    }
}

/// A reply that came in one piece: a message for each candidate.
#[derive(Debug, PartialEq, Eq)]
pub struct Completion {
    pub choices: Vec<Message>,
}

impl View for Completion {
    type V = Seq<MessageView>;

    open spec fn view(&self) -> Seq<MessageView> {
        views(self.choices@)
    }
}

/// The string under `key`, where the member may be missing or `null`:
/// `Some(None)` then, `Some(Some(text))` for a string, `None` for anything
/// else.
pub open spec fn optional_text(members: Map<Seq<char>, serde_json::Value>, key: Seq<char>) -> Option<
    Option<Seq<char>>,
> {
    if !members.contains_key(key) {
        Some(None)
    } else {
        match json_shape(members[key]) {
            JsonShape::Null => Some(None),
            JsonShape::Text(text) => Some(Some(text)),
            _ => None,
        }
    }
}

/// The string under `key`, where the member must be there and be a string.
pub open spec fn required_text(members: Map<Seq<char>, serde_json::Value>, key: Seq<char>) -> Option<
    Seq<char>,
> {
    if members.contains_key(key) {
        match json_shape(members[key]) {
            JsonShape::Text(text) => Some(text),
            _ => None,
        }
    } else {
        None
    }
}

/// The members of the object that the object `value` holds under `key`.
pub open spec fn object_under(value: serde_json::Value, key: Seq<char>) -> Option<
    Map<Seq<char>, serde_json::Value>,
> {
    match json_shape(value) {
        JsonShape::Object(members) => if members.contains_key(key) {
            match json_shape(members[key]) {
                JsonShape::Object(inner) => Some(inner),
                _ => None,
            }
        } else {
            None
        },
        _ => None,
    }
}

/// The elements of the array that the object `document` holds under
/// `choices`.
pub open spec fn choice_items(document: serde_json::Value) -> Option<Seq<serde_json::Value>> {
    match json_shape(document) {
        JsonShape::Object(members) => if members.contains_key("choices"@) {
            match json_shape(members["choices"@]) {
                JsonShape::Array(items) => Some(items),
                _ => None,
            }
        } else {
            None
        },
        _ => None,
    }
}

/// The delta of one candidate: `{"delta": {"role"?: string, "content"?: string}}`.
pub open spec fn choice_delta(choice: serde_json::Value) -> Option<DeltaView> {
    match object_under(choice, "delta"@) {
        Some(delta) => match (optional_text(delta, "role"@), optional_text(delta, "content"@)) {
            (Some(role), Some(content)) => Some(DeltaView { role, content }),
            _ => None,
        },
        None => None,
    }
}

/// The message of one candidate: `{"message": {"role": string, "content": string}}`.
pub open spec fn choice_message(choice: serde_json::Value) -> Option<MessageView> {
    match object_under(choice, "message"@) {
        Some(message) => match (required_text(message, "role"@), required_text(message, "content"@)) {
            (Some(role), Some(content)) => Some(MessageView { role, content }),
            _ => None,
        },
        None => None,
    }
}

/// The deltas of all candidates, if the document is
/// `{"choices": [candidate, ...]}` and every candidate has the shape of
/// `choice_delta`.
pub open spec fn document_deltas(document: serde_json::Value) -> Option<Seq<DeltaView>> {
    match choice_items(document) {
        Some(items) => if forall|i: int| 0 <= i < items.len() ==> choice_delta(#[trigger] items[i]) is Some {
            Some(Seq::new(items.len(), |i: int| choice_delta(items[i])->0))
        } else {
            None
        },
        None => None,
    }
}

/// The messages of all candidates, if the document is
/// `{"choices": [candidate, ...]}` and every candidate has the shape of
/// `choice_message`.
pub open spec fn document_messages(document: serde_json::Value) -> Option<Seq<MessageView>> {
    match choice_items(document) {
        Some(items) => if forall|i: int| 0 <= i < items.len() ==> choice_message(#[trigger] items[i]) is Some {
            Some(Seq::new(items.len(), |i: int| choice_message(items[i])->0))
        } else {
            None
        },
        None => None,
    }
}

/// What a streamed payload decodes to: its deltas, `InvalidJson` with the
/// parser's complaint where it is not JSON, `UnexpectedShape` where it is
/// JSON of another shape.
pub open spec fn frame_of(payload: Seq<char>) -> Result<Seq<DeltaView>, ChatErrorView> {
    match json_parse(payload) {
        Ok(document) => match document_deltas(document) {
            Some(deltas) => Ok(deltas),
            None => Err(ChatErrorView::UnexpectedShape),
        },
        Err(error) => Err(ChatErrorView::InvalidJson(json_error_text(error))),
    }
}

/// What the body of a whole reply decodes to: its messages, `InvalidJson`
/// with the parser's complaint where it is not JSON, `UnexpectedShape` where
/// it is JSON of another shape.
pub open spec fn completion_of(body: Seq<char>) -> Result<Seq<MessageView>, ChatErrorView> {
    match json_parse(body) {
        Ok(document) => match document_messages(document) {
            Some(messages) => Ok(messages),
            None => Err(ChatErrorView::UnexpectedShape),
        },
        Err(error) => Err(ChatErrorView::InvalidJson(json_error_text(error))),
    }
}

/// Reads the elements of the array that the object `document` holds under
/// `choices`; nothing where `document` is no object or holds no such array.
pub fn read_choice_items(document: &serde_json::Value) -> (r: Option<&Vec<serde_json::Value>>)
    ensures
        match r {
            Some(items) => choice_items(*document) == Some(items@),
            None => choice_items(*document) is None,
        },
{
    match member(document, "choices") {
        Some(choices) => choices.as_array(),
        None => None,
    }
}

/// Reads the object that the object `value` holds under `key`; nothing where
/// `value` is no object or holds no object there.
pub fn read_object_under<'a>(value: &'a serde_json::Value, key: &str) -> (r: Option<
    &'a serde_json::Value,
>)
    ensures
        match r {
            Some(inner) => json_shape(*inner) matches JsonShape::Object(members) && object_under(
                *value,
                key@,
            ) == Some(members),
            None => object_under(*value, key@) is None,
        },
{
    match member(value, key) {
        Some(inner) => if inner.is_object() {
            Some(inner)
        } else {
            None
        },
        None => None,
    }
}

/// Reads a string that may be missing or `null`.
fn read_optional_text(object: &serde_json::Value, key: &str) -> (r: Option<Option<String>>)
    requires
        json_shape(*object) is Object,
    ensures
        match r {
            Some(text) => optional_text(json_shape(*object)->Object_0, key@) == Some(
                text_view(text),
            ),
            None => optional_text(json_shape(*object)->Object_0, key@) is None,
        },
{
    match member(object, key) {
        None => Some(None),
        Some(value) => if value.is_null() {
            Some(None)
        } else {
            match value.as_str() {
                Some(text) => Some(Some(String::from_str(text))),
                None => None,
            }
        },
    }
}

/// Reads a string that must be there.
fn read_required_text(object: &serde_json::Value, key: &str) -> (r: Option<String>)
    requires
        json_shape(*object) is Object,
    ensures
        text_view(r) == required_text(json_shape(*object)->Object_0, key@),
{
    match member(object, key) {
        None => None,
        Some(value) => match value.as_str() {
            Some(text) => Some(String::from_str(text)),
            None => None,
        },
    }
}

/// Reads the delta of one candidate; nothing where the candidate has another
/// shape than `choice_delta` describes.
pub fn read_choice_delta(choice: &serde_json::Value) -> (r: Option<Delta>)
    ensures
        match r {
            Some(delta) => choice_delta(*choice) == Some(delta@),
            None => choice_delta(*choice) is None,
        },
{
    match read_object_under(choice, "delta") {
        Some(delta) => {
            let role = read_optional_text(delta, "role");
            let content = read_optional_text(delta, "content");
            match (role, content) {
                (Some(role), Some(content)) => Some(Delta { role, content }),
                _ => None,
            }
        },
        None => None,
    }
}

/// Reads the message of one candidate; nothing where the candidate has
/// another shape than `choice_message` describes.
pub fn read_choice_message(choice: &serde_json::Value) -> (r: Option<Message>)
    ensures
        match r {
            Some(message) => choice_message(*choice) == Some(message@),
            None => choice_message(*choice) is None,
        },
{
    match read_object_under(choice, "message") {
        Some(message) => {
            let role = read_required_text(message, "role");
            let content = read_required_text(message, "content");
            match (role, content) {
                (Some(role), Some(content)) => Some(Message { role, content }),
                _ => None,
            }
        },
        None => None,
    }
}

/// Reads the deltas of all candidates of a document; nothing where the
/// document or one of its candidates has another shape.
pub fn read_deltas(document: &serde_json::Value) -> (r: Option<Vec<Delta>>)
    ensures
        match r {
            Some(deltas) => document_deltas(*document) == Some(
                Seq::new(deltas@.len(), |i: int| deltas@[i]@),
            ),
            None => document_deltas(*document) is None,
        },
{
    let items = match read_choice_items(document) {
        Some(items) => items,
        None => { return None; },
    };
    let mut deltas: Vec<Delta> = Vec::new();
    let mut i: usize = 0;
    while i < items.len()
        invariant
            i <= items.len(),
            deltas@.len() == i,
            choice_items(*document) == Some(items@),
            forall|j: int| 0 <= j < i ==> choice_delta(#[trigger] items@[j]) == Some(deltas@[j]@),
        decreases items.len() - i,
    {
        match read_choice_delta(&items[i]) {
            Some(delta) => {
                deltas.push(delta);
            },
            None => {
                return None;
            },
        }
        i += 1;
    }
    assert(Seq::new(items@.len(), |i: int| choice_delta(items@[i])->0) =~= Seq::new(
        deltas@.len(),
        |i: int| deltas@[i]@,
    ));
    Some(deltas)
}

/// Reads the messages of all candidates of a document; nothing where the
/// document or one of its candidates has another shape.
pub fn read_messages(document: &serde_json::Value) -> (r: Option<Vec<Message>>)
    ensures
        match r {
            Some(messages) => document_messages(*document) == Some(views(messages@)),
            None => document_messages(*document) is None,
        },
{
    let items = match read_choice_items(document) {
        Some(items) => items,
        None => { return None; },
    };
    let mut messages: Vec<Message> = Vec::new();
    let mut i: usize = 0;
    while i < items.len()
        invariant
            i <= items.len(),
            messages@.len() == i,
            choice_items(*document) == Some(items@),
            forall|j: int| 0 <= j < i ==> choice_message(#[trigger] items@[j]) == Some(messages@[j]@),
        decreases items.len() - i,
    {
        match read_choice_message(&items[i]) {
            Some(message) => {
                messages.push(message);
            },
            None => {
                return None;
            },
        }
        i += 1;
    }
    assert(Seq::new(items@.len(), |i: int| choice_message(items@[i])->0) =~= views(messages@));
    Some(messages)
}

/// Decodes the payload of one data frame of a streamed reply.
pub fn decode_frame(payload: &str) -> (r: Result<StreamFrame, ChatError>)
    ensures
        match r {
            Ok(frame) => frame_of(payload@) == Ok::<Seq<DeltaView>, ChatErrorView>(frame@),
            Err(error) => frame_of(payload@) == Err::<Seq<DeltaView>, ChatErrorView>(error@),
        },
{
    match parse(payload) {
        Ok(document) => match read_deltas(&document) {
            Some(choices) => Ok(StreamFrame { choices }),
            None => Err(ChatError::UnexpectedShape),
        },
        Err(error) => Err(ChatError::InvalidJson(error_text(&error))),
    }
}

/// Decodes the body of a reply that came in one piece.
pub fn decode_completion(body: &str) -> (r: Result<Completion, ChatError>)
    ensures
        match r {
            Ok(completion) => completion_of(body@) == Ok::<Seq<MessageView>, ChatErrorView>(
                completion@,
            ),
            Err(error) => completion_of(body@) == Err::<Seq<MessageView>, ChatErrorView>(error@),
        },
{
    match parse(body) {
        Ok(document) => match read_messages(&document) {
            Some(choices) => Ok(Completion { choices }),
            None => Err(ChatError::UnexpectedShape),
        },
        Err(error) => Err(ChatError::InvalidJson(error_text(&error))),
    }
}

} // verus!

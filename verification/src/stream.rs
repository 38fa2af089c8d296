//! The reducer of a streamed reply: it takes the events of the stream one by
//! one, says what to show for each, and ends with one message.

use crate::error::{ChatError, ChatErrorView};
use crate::json::{json_error_text, json_parse};
use crate::message::{empty_message, Message, MessageView};
use crate::text::{
    begins_with_newline, meets_newline_rule, newline_rule_applies, same_text, visible,
    visible_fragment,
};
use crate::wire::{decode_frame, frame_of, Delta, DeltaView, StreamFrame};
use vstd::prelude::*;
use vstd::string::*;

verus! {

/// Where a reducer stands.
#[derive(Debug, Clone, Copy, PartialEq, Eq)]
pub enum StreamState {
    /// No data frame was taken in yet.
    Open,
    /// At least one data frame was taken in.
    Accumulating,
    /// The sentinel came: the message is complete.
    Done,
    /// The stream broke or a frame was refused: there is no message.
    Failed,
}

/// One occurrence on the event stream.
#[derive(Debug, PartialEq, Eq)]
pub enum StreamEvent {
    /// The stream was opened.
    Opened,
    /// A data frame, with its payload.
    Data(String),
    /// The transport failed; the text says how.
    Broken(String),
}

/// A `StreamEvent` with its text as a sequence of characters.
pub enum StreamEventView {
    Opened,
    Data(Seq<char>),
    Broken(Seq<char>),
}

impl View for StreamEvent {
    type V = StreamEventView;

    open spec fn view(&self) -> StreamEventView {
        match self {
            StreamEvent::Opened => StreamEventView::Opened,
            StreamEvent::Data(payload) => StreamEventView::Data(payload@),
            StreamEvent::Broken(detail) => StreamEventView::Broken(detail@),
        }
    }
}

/// What the driver of the stream does after an event.
#[derive(Debug, PartialEq, Eq)]
pub enum StreamAction {
    /// Nothing to show; take the next event.
    Idle,
    /// Show this text at once, then take the next event.
    Show(String),
    /// End the line, release the stream and take the message.
    Finish,
    /// Release the stream and fail with this error.
    Abort(ChatError),
}

/// A `StreamAction` with its text as a sequence of characters.
pub enum StreamActionView {
    Idle,
    Show(Seq<char>),
    Finish,
    Abort(ChatErrorView),
}

impl View for StreamAction {
    type V = StreamActionView;

    open spec fn view(&self) -> StreamActionView {
        match self {
            StreamAction::Idle => StreamActionView::Idle,
            StreamAction::Show(text) => StreamActionView::Show(text@),
            StreamAction::Finish => StreamActionView::Finish,
            StreamAction::Abort(error) => StreamActionView::Abort(error@),
        }
    }
}

/// Folds the events of one streamed reply into one message.
pub struct StreamReducer {
    state: StreamState,
    message: Message,
    stripped: bool,
}

/// A `StreamReducer` as plain values.
pub struct ReducerView {
    /// Where the reducer stands.
    pub state: StreamState,
    /// The message as far as it has grown.
    pub message: MessageView,
    /// Whether a content piece of this message was stripped already.
    pub stripped: bool,
}

impl View for StreamReducer {
    type V = ReducerView;

    closed spec fn view(&self) -> ReducerView {
        ReducerView { state: self.state, message: self.message@, stripped: self.stripped }
    }
}

/// The payload that ends a stream. It is never decoded.
pub open spec fn sentinel() -> Seq<char> {
    "[DONE]"@
}

/// The reducer before any event.
pub open spec fn fresh() -> ReducerView {
    ReducerView { state: StreamState::Open, message: empty_message(), stripped: false }
}

/// Whether the reducer still takes events in.
pub open spec fn is_running(state: StreamState) -> bool {
    state is Open || state is Accumulating
}

/// The part of the content of one delta that is shown and kept, if the delta
/// has content.
pub open spec fn seen(reducer: ReducerView, delta: DeltaView) -> Option<Seq<char>> {
    match delta.content {
        Some(piece) => Some(visible_fragment(reducer.message.content, reducer.stripped, piece)),
        None => None,
    }
}

/// Whether one delta has content that meets the leading-newline rule.
pub open spec fn strips(reducer: ReducerView, delta: DeltaView) -> bool {
    delta.content matches Some(piece) && meets_newline_rule(
        reducer.message.content,
        reducer.stripped,
        piece,
    )
}

/// The message after one delta: a piece of the role is appended as it is, a
/// piece of the content as `visible_fragment` gives it.
pub open spec fn grown(reducer: ReducerView, delta: DeltaView) -> MessageView {
    MessageView {
        role: match delta.role {
            Some(piece) => reducer.message.role + piece,
            None => reducer.message.role,
        },
        content: match seen(reducer, delta) {
            Some(piece) => reducer.message.content + piece,
            None => reducer.message.content,
        },
    }
}

/// What is shown for one delta: the visible part of its content, if it has
/// content.
pub open spec fn shown(reducer: ReducerView, delta: DeltaView) -> StreamActionView {
    match seen(reducer, delta) {
        Some(piece) => StreamActionView::Show(piece),
        None => StreamActionView::Idle,
    }
}

/// The reducer and the action after an error: a running reducer fails, any
/// other stays as it is.
pub open spec fn after_error(reducer: ReducerView, error: ChatErrorView) -> (
    ReducerView,
    StreamActionView,
) {
    if is_running(reducer.state) {
        (
            ReducerView { state: StreamState::Failed, ..reducer },
            StreamActionView::Abort(error),
        )
    } else {
        (reducer, StreamActionView::Idle)
    }
}

/// The reducer and the action after a decoded frame: the delta of the first
/// candidate is taken in; a frame without candidates is an error.
pub open spec fn after_frame(reducer: ReducerView, frame: Seq<DeltaView>) -> (
    ReducerView,
    StreamActionView,
) {
    if !is_running(reducer.state) {
        (reducer, StreamActionView::Idle)
    } else if frame.len() == 0 {
        after_error(reducer, ChatErrorView::EmptyChoices)
    } else {
        (
            ReducerView {
                state: StreamState::Accumulating,
                message: grown(reducer, frame[0]),
                stripped: reducer.stripped || strips(reducer, frame[0]),
            },
            shown(reducer, frame[0]),
        )
    }
}

/// The reducer and the action after an event.
pub open spec fn after_event(reducer: ReducerView, event: StreamEventView) -> (
    ReducerView,
    StreamActionView,
) {
    if !is_running(reducer.state) {
        (reducer, StreamActionView::Idle)
    } else {
        match event {
            StreamEventView::Opened => (reducer, StreamActionView::Idle),
            StreamEventView::Broken(detail) => after_error(
                reducer,
                ChatErrorView::Transport(detail),
            ),
            StreamEventView::Data(payload) => if payload == sentinel() {
                (
                    ReducerView { state: StreamState::Done, ..reducer },
                    StreamActionView::Finish,
                )
            } else {
                match frame_of(payload) {
                    Ok(frame) => after_frame(reducer, frame),
                    Err(error) => after_error(reducer, error),
                }
            },
        }
    }
}

impl StreamReducer {
    /// A reducer for a stream that has given nothing yet.
    pub fn new() -> (r: StreamReducer)
        ensures
            r@ == fresh(),
    {
        StreamReducer { state: StreamState::Open, message: Message::default(), stripped: false }
    }

    /// Where the reducer stands.
    pub fn state(&self) -> (r: StreamState)
        ensures
            r == self@.state,
    {
        self.state
    }

    /// The message as far as it has grown.
    pub fn message(&self) -> (r: &Message)
        ensures
            r@ == self@.message,
    {
        &self.message
    }

    /// Whether a content piece of this message was stripped already.
    pub fn has_stripped(&self) -> (r: bool)
        ensures
            r == self@.stripped,
    {
        self.stripped
    }

    /// Whether the reducer still takes events in.
    pub fn running(&self) -> (r: bool)
        ensures
            r == is_running(self@.state),
    {
        match self.state {
            StreamState::Open => true,
            StreamState::Accumulating => true,
            StreamState::Done => false,
            StreamState::Failed => false,
        }
    }

    /// Fails with `error`, unless the reducer has ended already.
    pub fn fail(&mut self, error: ChatError) -> (action: StreamAction)
        ensures
            (final(self)@, action@) == after_error(old(self)@, error@),
    {
        if self.running() {
            self.state = StreamState::Failed;
            StreamAction::Abort(error)
        } else {
            StreamAction::Idle
        }
    }

    /// Takes in one decoded frame.
    pub fn accept(&mut self, frame: StreamFrame) -> (action: StreamAction)
        ensures
            (final(self)@, action@) == after_frame(old(self)@, frame@),
    {
        if !self.running() {
            return StreamAction::Idle;
        }
        let mut choices = frame.choices;
        if choices.len() == 0 {
            return self.fail(ChatError::EmptyChoices);
        }
        let delta: Delta = choices.remove(0);
        assert(delta@ == frame@[0]);
        self.state = StreamState::Accumulating;
        match delta.role {
            Some(piece) => {
                self.message.role.append(piece.as_str());
            },
            None => {},
        }
        match delta.content {
            Some(piece) => {
                let strip = newline_rule_applies(
                    self.message.content.as_str(),
                    self.stripped,
                    piece.as_str(),
                );
                let text = visible(self.message.content.as_str(), self.stripped, piece);
                self.message.content.append(text.as_str());
                self.stripped = self.stripped || strip;
                StreamAction::Show(text)
            },
            None => StreamAction::Idle,
        }
    }

    /// Takes in one event of the stream.
    pub fn step(&mut self, event: StreamEvent) -> (action: StreamAction)
        ensures
            (final(self)@, action@) == after_event(old(self)@, event@),
    {
        if !self.running() {
            return StreamAction::Idle;
        }
        match event {
            StreamEvent::Opened => StreamAction::Idle,
            StreamEvent::Broken(detail) => self.fail(ChatError::Transport(detail)),
            StreamEvent::Data(payload) => {
                if same_text(&payload, "[DONE]") {
                    self.state = StreamState::Done;
                    StreamAction::Finish
                } else {
                    match decode_frame(payload.as_str()) {
                        Ok(frame) => self.accept(frame),
                        Err(error) => self.fail(error),
                    }
                }
            },
        }
    }

    /// The message, unless the reducer failed.
    pub fn into_message(self) -> (r: Option<Message>)
        ensures
            match r {
                Some(message) => !(self@.state is Failed) && message@ == self@.message,
                None => self@.state is Failed,
            },
    {
        match self.state {
            StreamState::Failed => None,
            _ => Some(self.message),
        }
    }
}

/// The reducer after a run of events, taken in order.
pub open spec fn after_events(reducer: ReducerView, events: Seq<StreamEventView>) -> ReducerView
    decreases events.len(),
{
    if events.len() == 0 {
        reducer
    } else {
        after_event(after_events(reducer, events.drop_last()), events.last()).0
    }
}

/// One data frame for each payload, in order.
pub open spec fn data_events(payloads: Seq<Seq<char>>) -> Seq<StreamEventView> {
    Seq::new(payloads.len(), |i: int| StreamEventView::Data(payloads[i]))
}

/// The pieces one after the other.
pub open spec fn concatenation(pieces: Seq<Seq<char>>) -> Seq<char>
    decreases pieces.len(),
{
    if pieces.len() == 0 {
        Seq::empty()
    } else {
        concatenation(pieces.drop_last()) + pieces.last()
    }
}

/// The pieces one after the other, the first as it is seen at the start of a
/// message: without its leading white space if it starts with a line feed.
pub open spec fn concatenation_from_empty(pieces: Seq<Seq<char>>) -> Seq<char> {
    if pieces.len() == 0 {
        Seq::empty()
    } else {
        visible_fragment(Seq::empty(), false, pieces[0]) + concatenation(pieces.skip(1))
    }
}

/// Whether `payload` is a frame whose first delta carries `piece` as content
/// and no role.
pub open spec fn carries_content_only(payload: Seq<char>, piece: Seq<char>) -> bool {
    &&& payload != sentinel()
    &&& frame_of(payload) matches Ok(frame)
    &&& frame.len() > 0
    &&& frame[0] == (DeltaView { role: None, content: Some(piece) })
}

/// Whether each piece but the first that starts with a line feed comes after
/// a piece that is not empty.
pub open spec fn newline_follows_content(pieces: Seq<Seq<char>>) -> bool {
    forall|j: int|
        1 <= j < pieces.len() && begins_with_newline(#[trigger] pieces[j]) ==> exists|i: int|
            0 <= i < j && (#[trigger] pieces[i]).len() > 0
}

proof fn lemma_content_after_pieces(payloads: Seq<Seq<char>>, pieces: Seq<Seq<char>>, n: int)
    requires
        payloads.len() == pieces.len(),
        0 <= n <= pieces.len(),
        forall|i: int|
            0 <= i < pieces.len() ==> carries_content_only(#[trigger] payloads[i], pieces[i]),
        newline_follows_content(pieces),
    ensures
        ({
            let reducer = after_events(fresh(), data_events(payloads.take(n)));
            &&& is_running(reducer.state)
            &&& reducer.message.role == Seq::<char>::empty()
            &&& reducer.message.content == concatenation_from_empty(pieces.take(n))
            &&& reducer.message.content.len() == 0 && !reducer.stripped ==> forall|i: int|
                0 <= i < n ==> (#[trigger] pieces[i]).len() == 0
        }),
    decreases n,
{
    if n > 0 {
        lemma_content_after_pieces(payloads, pieces, n - 1);
        let events = data_events(payloads.take(n));
        assert(events.drop_last() == data_events(payloads.take(n - 1)));
        assert(events.last() == StreamEventView::Data(payloads[n - 1]));
        assert(carries_content_only(payloads[n - 1], pieces[n - 1]));
        let before = after_events(fresh(), data_events(payloads.take(n - 1)));
        let after = after_events(fresh(), events);
        let piece = pieces[n - 1];
        if n == 1 {
            assert(pieces.take(1).skip(1) == Seq::<Seq<char>>::empty());
            assert(pieces.take(1)[0] == piece);
        } else {
            assert(pieces.take(n).skip(1).drop_last() == pieces.take(n - 1).skip(1));
            assert(pieces.take(n).skip(1).last() == piece);
            assert(pieces.take(n)[0] == pieces.take(n - 1)[0]);
            assert(!meets_newline_rule(before.message.content, before.stripped, piece));
        }
        assert(after.message.content == before.message.content + visible_fragment(
            before.message.content,
            before.stripped,
            piece,
        ));
        if after.message.content.len() == 0 && !after.stripped {
            assert(piece.len() == 0);
            assert forall|i: int| 0 <= i < n implies (#[trigger] pieces[i]).len() == 0 by {}
        }
    }
}

/// When a stream gives content-only frames with the pieces `c1, ..., cn` and
/// then the sentinel, the reducer ends in `Done` with the content
/// `c1 + ... + cn`, except that `c1` loses its leading white space if it
/// starts with a line feed. This holds of every run but those in which a
/// later piece starts with a line feed and every piece before it is empty:
/// there the rule meets that later piece.
pub proof fn lemma_content_is_concatenation(payloads: Seq<Seq<char>>, pieces: Seq<Seq<char>>)
    requires
        payloads.len() == pieces.len(),
        forall|i: int|
            0 <= i < pieces.len() ==> carries_content_only(#[trigger] payloads[i], pieces[i]),
        newline_follows_content(pieces),
    ensures
        ({
            let last = after_event(
                after_events(fresh(), data_events(payloads)),
                StreamEventView::Data(sentinel()),
            );
            &&& last.0.state is Done
            &&& last.1 is Finish
            &&& last.0.message.role == Seq::<char>::empty()
            &&& last.0.message.content == concatenation_from_empty(pieces)
        }),
{
    lemma_content_after_pieces(payloads, pieces, pieces.len() as int);
    assert(payloads.take(payloads.len() as int) == payloads);
    assert(pieces.take(pieces.len() as int) == pieces);
}

/// The content that the pieces fold to, and whether one of them was stripped:
/// each piece is appended as `visible_fragment` gives it for what was kept
/// and stripped before it.
pub open spec fn folded_content(pieces: Seq<Seq<char>>) -> (Seq<char>, bool)
    decreases pieces.len(),
{
    if pieces.len() == 0 {
        (Seq::empty(), false)
    } else {
        let (kept, stripped) = folded_content(pieces.drop_last());
        (
            kept + visible_fragment(kept, stripped, pieces.last()),
            stripped || meets_newline_rule(kept, stripped, pieces.last()),
        )
    }
}

/// When a stream gives content-only frames with the pieces `c1, ..., cn` and
/// then the sentinel, the reducer ends in `Done` with the content
/// `folded_content` of the pieces, whatever they are.
pub proof fn lemma_content_is_folded(payloads: Seq<Seq<char>>, pieces: Seq<Seq<char>>)
    requires
        payloads.len() == pieces.len(),
        forall|i: int|
            0 <= i < pieces.len() ==> carries_content_only(#[trigger] payloads[i], pieces[i]),
    ensures
        ({
            let before = after_events(fresh(), data_events(payloads));
            let last = after_event(before, StreamEventView::Data(sentinel()));
            &&& is_running(before.state)
            &&& before.stripped == folded_content(pieces).1
            &&& last.0.state is Done
            &&& last.1 is Finish
            &&& last.0.message.role == Seq::<char>::empty()
            &&& last.0.message.content == folded_content(pieces).0
        }),
    decreases pieces.len(),
{
    if pieces.len() > 0 {
        let n = pieces.len() as int;
        lemma_content_is_folded(payloads.drop_last(), pieces.drop_last());
        let events = data_events(payloads);
        assert(events.drop_last() == data_events(payloads.drop_last()));
        assert(events.last() == StreamEventView::Data(payloads[n - 1]));
        assert(carries_content_only(payloads[n - 1], pieces[n - 1]));
    }
}

/// The leading-newline rule is met at most once in a message: once a piece
/// was stripped, every later piece is taken whole, and no event takes the
/// mark away.
pub proof fn lemma_rule_applies_once(
    reducer: ReducerView,
    event: StreamEventView,
    kept: Seq<char>,
    piece: Seq<char>,
)
    requires
        reducer.stripped,
    ensures
        after_event(reducer, event).0.stripped,
        visible_fragment(kept, true, piece) == piece,
{
}

/// A delta only adds to the message: what was kept before it stays in front,
/// unchanged.
pub proof fn lemma_grown_extends(reducer: ReducerView, delta: DeltaView)
    ensures
        reducer.message.role.is_prefix_of(grown(reducer, delta).role),
        reducer.message.content.is_prefix_of(grown(reducer, delta).content),
{
}

/// A frame whose first delta has neither role nor content leaves the message
/// as it is, and the mark of the leading-newline rule with it, however often
/// it comes.
pub proof fn lemma_bare_frame_keeps_message(reducer: ReducerView, frame: Seq<DeltaView>)
    requires
        frame.len() > 0,
        frame[0].role is None,
        frame[0].content is None,
    ensures
        after_frame(reducer, frame).0.message == reducer.message,
        after_frame(reducer, frame).0.stripped == reducer.stripped,
        after_frame(reducer, frame).1 is Idle,
        after_frame(after_frame(reducer, frame).0, frame).0 == after_frame(reducer, frame).0,
{
}

/// A reducer that has ended stays as it is and asks for nothing, whatever
/// events follow.
pub proof fn lemma_ended_is_final(reducer: ReducerView, events: Seq<StreamEventView>)
    requires
        !is_running(reducer.state),
    ensures
        after_events(reducer, events) == reducer,
    decreases events.len(),
{
    if events.len() > 0 {
        lemma_ended_is_final(reducer, events.drop_last());
    }
}

/// A payload that is neither the sentinel nor JSON makes a running reducer
/// fail with the parser's complaint, and no event after it brings the reducer
/// out of `Failed`: so `into_message` gives nothing.
pub proof fn lemma_invalid_json_fails(
    reducer: ReducerView,
    payload: Seq<char>,
    later: Seq<StreamEventView>,
)
    requires
        is_running(reducer.state),
        payload != sentinel(),
        json_parse(payload) is Err,
    ensures
        after_event(reducer, StreamEventView::Data(payload)).0.state is Failed,
        after_event(reducer, StreamEventView::Data(payload)).1 == StreamActionView::Abort(
            ChatErrorView::InvalidJson(json_error_text(json_parse(payload)->Err_0)),
        ),
        after_events(after_event(reducer, StreamEventView::Data(payload)).0, later).state is Failed,
{
    lemma_ended_is_final(after_event(reducer, StreamEventView::Data(payload)).0, later);
}

} // verus!

//! The conversation: its transcript, and what to do next at each point.

use crate::error::{ChatError, ChatErrorView};
use crate::message::{copy_messages, user_message, views, Message, MessageView};
use crate::request::{call_of, request_of, Call, CallView, Options, OptionsView, Request};
use crate::text::{join_words, joined};
use vstd::prelude::*;
use vstd::string::*;

verus! {

/// Where a session stands.
#[derive(Debug, Clone, Copy, PartialEq, Eq)]
pub enum Phase {
    /// Nothing was asked yet.
    Start,
    /// A line of input is awaited.
    ReadPrompt,
    /// A request is under way.
    AwaitingResponse,
    /// The session is over.
    Done,
}

/// What the line editor gave.
#[derive(Debug, PartialEq, Eq)]
pub enum Input {
    /// A line, without its line end.
    Line(String),
    /// The user interrupted the input.
    Interrupted,
    /// The input ended.
    Eof,
    /// The editor failed; the text says how.
    Failed(String),
}

/// An `Input` with its text as a sequence of characters.
pub enum InputView {
    Line(Seq<char>),
    Interrupted,
    Eof,
    Failed(Seq<char>),
}

impl View for Input {
    type V = InputView;

    open spec fn view(&self) -> InputView {
        match self {
            Input::Line(line) => InputView::Line(line@),
            Input::Interrupted => InputView::Interrupted,
            Input::Eof => InputView::Eof,
            Input::Failed(detail) => InputView::Failed(detail@),
        }
    }
}

/// What the driver of an interactive session does after an input.
#[derive(Debug, PartialEq, Eq)]
pub enum Step {
    /// The line was empty: ask again. Nothing was recorded or sent.
    Prompt,
    /// The line was recorded: make this call, then hand in the reply.
    Send(Call),
    /// The input is over: show this word and leave.
    Quit(String),
    /// Fail with this error.
    Fail(ChatError),
}

/// A `Step` as plain values.
pub enum StepView {
    Prompt,
    Send(CallView),
    Quit(Seq<char>),
    Fail(ChatErrorView),
}

impl View for Step {
    type V = StepView;

    open spec fn view(&self) -> StepView {
        match self {
            Step::Prompt => StepView::Prompt,
            Step::Send(call) => StepView::Send(call@),
            Step::Quit(word) => StepView::Quit(word@),
            Step::Fail(error) => StepView::Fail(error@),
        }
    }
}

/// One conversation with the service.
pub struct Session {
    options: Options,
    api_key: String,
    api_base: String,
    messages: Vec<Message>,
    phase: Phase,
}

/// A `Session` as plain values.
pub struct SessionView {
    pub options: OptionsView,
    pub api_key: Seq<char>,
    pub api_base: Seq<char>,
    pub messages: Seq<MessageView>,
    pub phase: Phase,
}

impl View for Session {
    type V = SessionView;

    closed spec fn view(&self) -> SessionView {
        SessionView {
            options: self.options@,
            api_key: self.api_key@,
            api_base: self.api_base@,
            messages: views(self.messages@),
            phase: self.phase,
        }
    }
}

/// The base address of the service where none is configured.
pub open spec fn default_api_base() -> Seq<char> {
    "https://api.openai.com/v1"@
}

impl SessionView {
    /// Whether the session reads its prompts line by line: it does when the
    /// command line gave no prompt.
    pub open spec fn interactive(self) -> bool {
        self.options.prompt.len() == 0
    }

    /// The call that sends the whole transcript.
    pub open spec fn call(self) -> CallView {
        call_of(self.api_base, self.api_key, request_of(self.options, self.messages))
    }

    /// The session with `prompt` recorded as a message of the user, and a
    /// request under way.
    pub open spec fn asked(self, prompt: Seq<char>) -> SessionView {
        SessionView {
            messages: self.messages.push(user_message(prompt)),
            phase: Phase::AwaitingResponse,
            ..self
        }
    }

    /// The session in another phase.
    pub open spec fn moved(self, phase: Phase) -> SessionView {
        SessionView { phase, ..self }
    }

    /// The session after the one-shot prompt was asked: the words of the
    /// command line, joined by single spaces.
    pub open spec fn after_one_shot(self) -> SessionView {
        self.asked(joined(self.options.prompt, " "@))
    }

    /// The session and the step after an input.
    pub open spec fn after_input(self, input: InputView) -> (SessionView, StepView) {
        match input {
            InputView::Line(line) => if line.len() == 0 {
                (self.moved(Phase::ReadPrompt), StepView::Prompt)
            } else {
                (self.asked(line), StepView::Send(self.asked(line).call()))
            },
            InputView::Interrupted => (self.moved(Phase::Done), StepView::Quit("CTRL-C"@)),
            InputView::Eof => (self.moved(Phase::Done), StepView::Quit("CTRL-D"@)),
            InputView::Failed(detail) => (
                self.moved(Phase::Done),
                StepView::Fail(ChatErrorView::Input(detail)),
            ),
        }
    }

    /// The session after the reply to the request under way: an interactive
    /// session records it and awaits the next line, a one-shot session is
    /// over.
    pub open spec fn after_reply(self, reply: MessageView) -> SessionView {
        if self.interactive() {
            SessionView {
                messages: self.messages.push(reply),
                phase: Phase::ReadPrompt,
                ..self
            }
        } else {
            self.moved(Phase::Done)
        }
    }
}

/// The session that `Session::new` makes.
pub open spec fn started(options: OptionsView, api_key: Seq<char>, api_base: Seq<char>) -> SessionView {
    SessionView { options, api_key, api_base, messages: Seq::empty(), phase: Phase::Start }
}

impl Session {
    /// A session with an empty transcript.
    pub fn new(options: Options, api_key: String, api_base: String) -> (r: Session)
        ensures
            r@ == started(options@, api_key@, api_base@),
    {
        let r = Session { options, api_key, api_base, messages: Vec::new(), phase: Phase::Start };
        assert(views(r.messages@) =~= Seq::empty());
        r
    }

    /// A session from what the environment holds: the API key must be there,
    /// the base address has a default.
    pub fn configure(options: Options, api_key: Option<String>, api_base: Option<String>) -> (r:
        Result<Session, ChatError>)
        ensures
            match r {
                Ok(session) => api_key matches Some(key) && session@ == started(
                    options@,
                    key@,
                    match api_base {
                        Some(base) => base@,
                        None => default_api_base(),
                    },
                ),
                Err(error) => api_key is None && error@ == ChatErrorView::MissingApiKey,
            },
    {
        match api_key {
            Some(key) => {
                let base = match api_base {
                    Some(base) => base,
                    None => String::from_str("https://api.openai.com/v1"),
                };
                Ok(Session::new(options, key, base))
            },
            None => Err(ChatError::MissingApiKey),
        }
    }

    /// Where the session stands.
    pub fn phase(&self) -> (r: Phase)
        ensures
            r == self@.phase,
    {
        self.phase
    }

    /// The transcript so far, oldest message first.
    pub fn transcript(&self) -> (r: &Vec<Message>)
        ensures
            views(r@) == self@.messages,
    {
        &self.messages
    }

    /// Whether the session reads its prompts line by line.
    pub fn is_interactive(&self) -> (r: bool)
        ensures
            r == self@.interactive(),
    {
        self.options.prompt.len() == 0
    }

    /// The body of the request that sends the whole transcript.
    pub fn request(&self) -> (r: Request)
        ensures
            r@ == request_of(self@.options, self@.messages),
    {
        Request {
            model: self.options.model.clone(),
            stream: !self.options.no_stream,
            messages: copy_messages(&self.messages),
            temperature: self.options.temperature,
            top_p: self.options.top_p,
        }
    }

    /// The call that sends the whole transcript.
    pub fn call(&self) -> (r: Call)
        ensures
            r@ == self@.call(),
    {
        Call {
            url: self.api_base.clone().concat("/chat/completions"),
            authorization: String::from_str("Bearer ").concat(self.api_key.as_str()),
            body: self.request(),
        }
    }

    /// Asks the prompt of the command line: records it as the one message of
    /// the user and gives the call to make.
    pub fn run_one_shot(&mut self) -> (call: Call)
        requires
            old(self)@.phase is Start,
            !old(self)@.interactive(),
        ensures
            final(self)@ == old(self)@.after_one_shot(),
            call@ == final(self)@.call(),
    {
        let prompt = join_words(&self.options.prompt);
        let ghost before = views(self.messages@);
        self.messages.push(Message::user(prompt));
        assert(views(self.messages@) =~= before.push(user_message(prompt@)));
        self.phase = Phase::AwaitingResponse;
        self.call()
    }

    /// Takes one input of the line editor and says what to do next. An empty
    /// line changes nothing and sends nothing.
    pub fn run_interactive(&mut self, input: Input) -> (step: Step)
        requires
            old(self)@.phase is Start || old(self)@.phase is ReadPrompt,
            old(self)@.interactive(),
        ensures
            (final(self)@, step@) == old(self)@.after_input(input@),
            input@ == InputView::Line(Seq::empty()) ==> step is Prompt && final(self)@.messages == old(
                self,
            )@.messages,
    {
        match input {
            Input::Line(line) => {
                if line.as_str().is_empty() {
                    self.phase = Phase::ReadPrompt;
                    Step::Prompt
                } else {
                    let ghost before = views(self.messages@);
                    self.messages.push(Message::user(line));
                    assert(views(self.messages@) =~= before.push(user_message(line@)));
                    self.phase = Phase::AwaitingResponse;
                    Step::Send(self.call())
                }
            },
            Input::Interrupted => {
                self.phase = Phase::Done;
                Step::Quit(String::from_str("CTRL-C"))
            },
            Input::Eof => {
                self.phase = Phase::Done;
                Step::Quit(String::from_str("CTRL-D"))
            },
            Input::Failed(detail) => {
                self.phase = Phase::Done;
                Step::Fail(ChatError::Input(detail))
            },
        }
    }

    /// Takes the reply to the request under way.
    pub fn record_reply(&mut self, reply: Message)
        requires
            old(self)@.phase is AwaitingResponse,
        ensures
            final(self)@ == old(self)@.after_reply(reply@),
    {
        if self.is_interactive() {
            let ghost before = views(self.messages@);
            self.messages.push(reply);
            assert(views(self.messages@) =~= before.push(reply@));
            self.phase = Phase::ReadPrompt;
        } else {
            self.phase = Phase::Done;
        }
    }
}

/// The session after whole turns: for each prompt in order, the line is
/// taken in and the reply to it is recorded.
pub open spec fn after_turns(
    session: SessionView,
    prompts: Seq<Seq<char>>,
    replies: Seq<MessageView>,
) -> SessionView
    decreases prompts.len(),
{
    if prompts.len() == 0 {
        session
    } else {
        after_turns(session, prompts.drop_last(), replies.drop_last()).after_input(
            InputView::Line(prompts.last()),
        ).0.after_reply(replies.last())
    }
}

/// Whether turn `i` stands in the transcript: its prompt as a message of the
/// user at place `2i`, the reply to it at place `2i + 1`.
pub open spec fn holds_turn(
    messages: Seq<MessageView>,
    i: int,
    prompt: Seq<char>,
    reply: MessageView,
) -> bool {
    &&& 2 * i + 1 < messages.len()
    &&& messages[2 * i] == user_message(prompt)
    &&& messages[2 * i + 1] == reply
}

/// What a session holds after whole turns, and that it is ready for the next
/// line.
proof fn lemma_after_turns(
    session: SessionView,
    prompts: Seq<Seq<char>>,
    replies: Seq<MessageView>,
)
    requires
        session.interactive(),
        session.messages.len() == 0,
        session.phase is Start,
        prompts.len() == replies.len(),
        forall|i: int| 0 <= i < prompts.len() ==> (#[trigger] prompts[i]).len() > 0,
    ensures
        after_turns(session, prompts, replies).options == session.options,
        after_turns(session, prompts, replies).api_key == session.api_key,
        after_turns(session, prompts, replies).api_base == session.api_base,
        after_turns(session, prompts, replies).phase is Start || after_turns(
            session,
            prompts,
            replies,
        ).phase is ReadPrompt,
        after_turns(session, prompts, replies).messages.len() == 2 * prompts.len(),
        forall|i: int|
            0 <= i < prompts.len() ==> #[trigger] holds_turn(
                after_turns(session, prompts, replies).messages,
                i,
                prompts[i],
                replies[i],
            ),
    decreases prompts.len(),
{
    if prompts.len() > 0 {
        let n = prompts.len() as int;
        let earlier = prompts.drop_last();
        let before = after_turns(session, earlier, replies.drop_last());
        lemma_after_turns(session, earlier, replies.drop_last());
        let last = after_turns(session, prompts, replies);
        assert(prompts.last().len() > 0);
        assert(before.interactive());
        assert(last.messages == before.messages.push(user_message(prompts.last())).push(
            replies.last(),
        ));
        assert forall|i: int| 0 <= i < n implies #[trigger] holds_turn(
            last.messages,
            i,
            prompts[i],
            replies[i],
        ) by {
            if i < n - 1 {
                assert(holds_turn(before.messages, i, earlier[i], replies.drop_last()[i]));
            }
        }
        assert(last.messages.len() == 2 * n);
        assert(last.phase is ReadPrompt);
    } else {
        assert(after_turns(session, prompts, replies) == session);
    }
}

/// The step that the prompt of turn `i` gets, after the `i` turns before it.
pub open spec fn step_of_turn(
    session: SessionView,
    prompts: Seq<Seq<char>>,
    replies: Seq<MessageView>,
    i: int,
) -> StepView {
    after_turns(session, prompts.take(i), replies.take(i)).after_input(
        InputView::Line(prompts[i]),
    ).1
}

/// After `k` turns of an interactive session the transcript holds exactly
/// `2k` messages, in the order in which they came: the prompt of turn `i` as
/// a message of the user at place `2i`, the reply to it at place `2i + 1`.
/// The request of each turn carries every message that came before it and the
/// prompt of the turn, unchanged: the first `2i + 1` messages of that
/// transcript. The options, the key and the base address never change.
pub proof fn lemma_transcript_grows(
    options: OptionsView,
    api_key: Seq<char>,
    api_base: Seq<char>,
    prompts: Seq<Seq<char>>,
    replies: Seq<MessageView>,
)
    requires
        options.prompt.len() == 0,
        prompts.len() == replies.len(),
        forall|i: int| 0 <= i < prompts.len() ==> (#[trigger] prompts[i]).len() > 0,
    ensures
        ({
            let first = started(options, api_key, api_base);
            let last = after_turns(first, prompts, replies);
            &&& last.options == options
            &&& last.api_key == api_key
            &&& last.api_base == api_base
            &&& last.messages.len() == 2 * prompts.len()
            &&& forall|i: int|
                0 <= i < prompts.len() ==> #[trigger] holds_turn(
                    last.messages,
                    i,
                    prompts[i],
                    replies[i],
                )
            &&& forall|i: int|
                0 <= i < prompts.len() ==> #[trigger] step_of_turn(first, prompts, replies, i)
                    == StepView::Send(
                    call_of(
                        api_base,
                        api_key,
                        request_of(options, last.messages.take(2 * i + 1)),
                    ),
                )
        }),
{
    let first = started(options, api_key, api_base);
    let last = after_turns(first, prompts, replies);
    lemma_after_turns(first, prompts, replies);
    assert forall|i: int| 0 <= i < prompts.len() implies #[trigger] step_of_turn(
        first,
        prompts,
        replies,
        i,
    ) == StepView::Send(
        call_of(api_base, api_key, request_of(options, last.messages.take(2 * i + 1))),
    ) by {
        let before = after_turns(first, prompts.take(i), replies.take(i));
        lemma_after_turns(first, prompts.take(i), replies.take(i));
        let sent = before.asked(prompts[i]).messages;
        let kept = last.messages.take(2 * i + 1);
        assert(holds_turn(last.messages, i, prompts[i], replies[i]));
        assert(sent.len() == kept.len());
        assert forall|j: int| 0 <= j < sent.len() implies sent[j] == kept[j] by {
            let t = j / 2;
            if j < 2 * i {
                assert(holds_turn(before.messages, t, prompts.take(i)[t], replies.take(i)[t]));
                assert(holds_turn(last.messages, t, prompts[t], replies[t]));
            }
        }
        assert(sent =~= kept);
        assert(prompts[i].len() > 0);
        assert(before.after_input(InputView::Line(prompts[i])).1 == StepView::Send(
            before.asked(prompts[i]).call(),
        ));
    }
}

/// An empty line changes nothing in the transcript and sends nothing, in
/// whatever state the session is.
pub proof fn lemma_empty_line_is_ignored(session: SessionView)
    ensures
        session.after_input(InputView::Line(Seq::empty())).1 is Prompt,
        session.after_input(InputView::Line(Seq::empty())).0.messages == session.messages,
        session.after_input(InputView::Line(Seq::empty())).0.options == session.options,
{
}

/// A one-shot session sends one request, which carries one message: the
/// words of the prompt, joined by single spaces, said by the user.
pub proof fn lemma_one_shot_sends_the_prompt(
    options: OptionsView,
    api_key: Seq<char>,
    api_base: Seq<char>,
)
    ensures
        started(options, api_key, api_base).after_one_shot().call().body.messages == seq![
            user_message(joined(options.prompt, " "@)),
        ],
        started(options, api_key, api_base).after_one_shot().phase is AwaitingResponse,
{
    let sent = started(options, api_key, api_base).after_one_shot().call().body.messages;
    assert(sent =~= seq![user_message(joined(options.prompt, " "@))]);
}

} // verus!

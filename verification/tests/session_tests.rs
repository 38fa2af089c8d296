use heygpt::error::ChatError;
use heygpt::message::Message;
use heygpt::request::{Call, Options, Request};
use heygpt::session::{Input, Phase, Session, Step};

fn options(prompt: &[&str]) -> Options {
    Options {
        no_stream: false,
        model: "gpt-3.5-turbo".to_string(),
        temperature: None,
        top_p: None,
        prompt: prompt.iter().map(|w| w.to_string()).collect(),
    }
}

fn session(prompt: &[&str]) -> Session {
    Session::new(options(prompt), "KEY".to_string(), "https://example.test/v1".to_string())
}

fn message(role: &str, content: &str) -> Message {
    Message { role: role.to_string(), content: content.to_string() }
}

fn call(messages: Vec<Message>) -> Call {
    Call {
        url: "https://example.test/v1/chat/completions".to_string(),
        authorization: "Bearer KEY".to_string(),
        body: Request {
            model: "gpt-3.5-turbo".to_string(),
            stream: true,
            messages,
            temperature: None,
            top_p: None,
        },
    }
}

#[test]
fn new_session_is_empty() {
    let s = session(&[]);
    assert_eq!(s.phase(), Phase::Start);
    assert!(s.transcript().is_empty());
    assert!(s.is_interactive());
    assert!(!session(&["hi"]).is_interactive());
}

#[test]
fn configure_needs_the_key_and_has_a_default_base() {
    let s = Session::configure(options(&["hi"]), Some("K".to_string()), None).unwrap();
    let c = s.call();
    assert_eq!(c.url, "https://api.openai.com/v1/chat/completions");
    assert_eq!(c.authorization, "Bearer K");
    let s = Session::configure(options(&["hi"]), Some("K".to_string()), Some("http://localhost:1/v1".to_string())).unwrap();
    assert_eq!(s.call().url, "http://localhost:1/v1/chat/completions");
    match Session::configure(options(&["hi"]), None, Some("http://localhost:1/v1".to_string())) {
        Err(error) => assert_eq!(error, ChatError::MissingApiKey),
        Ok(_) => panic!("a session without a key"),
    }
}

#[test]
fn request_carries_the_options() {
    let mut o = options(&["hi"]);
    o.no_stream = true;
    o.model = "gpt-4".to_string();
    o.temperature = Some(0.8f64.to_bits());
    let s = Session::new(o, "K".to_string(), "B".to_string());
    let r = s.request();
    assert_eq!(r.model, "gpt-4");
    assert!(!r.stream);
    assert_eq!(r.temperature, Some(0.8f64.to_bits()));
    assert_eq!(r.top_p, None);
    assert!(r.messages.is_empty());
}

#[test]
fn one_shot_sends_the_joined_prompt() {
    let mut s = session(&["how", "are", "you?"]);
    let c = s.run_one_shot();
    assert_eq!(c, call(vec![message("user", "how are you?")]));
    assert_eq!(s.phase(), Phase::AwaitingResponse);
    s.record_reply(message("assistant", "fine"));
    assert_eq!(s.phase(), Phase::Done);
    assert_eq!(s.transcript(), &vec![message("user", "how are you?")]);
}

#[test]
fn an_empty_line_changes_nothing_and_sends_nothing() {
    let mut s = session(&[]);
    assert_eq!(s.run_interactive(Input::Line(String::new())), Step::Prompt);
    assert!(s.transcript().is_empty());
    assert_eq!(s.phase(), Phase::ReadPrompt);
    s.run_interactive(Input::Line("hi".to_string()));
    s.record_reply(message("assistant", "hello"));
    assert_eq!(s.run_interactive(Input::Line(String::new())), Step::Prompt);
    assert_eq!(s.transcript().len(), 2);
    assert_eq!(s.phase(), Phase::ReadPrompt);
}

#[test]
fn the_transcript_grows_by_two_messages_a_turn() {
    let mut s = session(&[]);
    let mut expected: Vec<Message> = Vec::new();
    for k in 0..5 {
        let prompt = format!("question {}", k);
        let reply = format!("answer {}", k);
        expected.push(message("user", &prompt));
        let step = s.run_interactive(Input::Line(prompt));
        assert_eq!(step, Step::Send(call(expected.clone())));
        assert_eq!(s.phase(), Phase::AwaitingResponse);
        assert_eq!(s.transcript().len(), 2 * k + 1);
        expected.push(message("assistant", &reply));
        s.record_reply(message("assistant", &reply));
        assert_eq!(s.phase(), Phase::ReadPrompt);
        assert_eq!(s.transcript(), &expected);
        assert_eq!(s.transcript().len(), 2 * (k + 1));
    }
}

#[test]
fn a_line_of_blanks_is_a_prompt() {
    let mut s = session(&[]);
    let step = s.run_interactive(Input::Line(" ".to_string()));
    assert_eq!(step, Step::Send(call(vec![message("user", " ")])));
}

#[test]
fn the_end_of_input_ends_the_session() {
    let mut s = session(&[]);
    assert_eq!(s.run_interactive(Input::Eof), Step::Quit("CTRL-D".to_string()));
    assert_eq!(s.phase(), Phase::Done);
    let mut s = session(&[]);
    assert_eq!(s.run_interactive(Input::Interrupted), Step::Quit("CTRL-C".to_string()));
    assert_eq!(s.phase(), Phase::Done);
    assert!(s.transcript().is_empty());
}

#[test]
fn a_failure_of_the_editor_is_an_error() {
    let mut s = session(&[]);
    let step = s.run_interactive(Input::Failed("Io(broken pipe)".to_string()));
    assert_eq!(step, Step::Fail(ChatError::Input("Io(broken pipe)".to_string())));
    assert_eq!(s.phase(), Phase::Done);
}

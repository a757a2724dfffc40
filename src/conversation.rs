//! The conversation around the turns: the messages sent with each request,
//! how much history is kept, and what an empty input means.
use vstd::prelude::*;
use vstd::string::*;

verus! {

/// One message of the conversation, tagged with its role (`user` or `assistant`).
#[derive(Debug, PartialEq, Eq)]
pub struct Message {
    pub role: String,
    pub content: String,
}

pub struct MessageView {
    pub role: Seq<char>,
    pub content: Seq<char>,
}

impl View for Message {
    type V = MessageView;

    open spec fn view(&self) -> MessageView {
        MessageView { role: self.role@, content: self.content@ }
    }
}

pub open spec fn message_views(ms: Seq<Message>) -> Seq<MessageView> {
    ms.map_values(|m: Message| m@)
}

/// The most messages that are sent as context; beyond it the oldest exchange
/// of two messages is dropped.
pub const HISTORY_LIMIT: usize = 10;

/// The history that a new user message is added to: nothing outside context
/// mode; otherwise the history, less its oldest two messages when it holds
/// more than the limit.
pub open spec fn kept_history(h: Seq<MessageView>, context_mode: bool) -> Seq<MessageView> {
    if !context_mode {
        Seq::empty()
    } else if h.len() > HISTORY_LIMIT {
        h.subrange(2, h.len() as int)
    } else {
        h
    }
}

/// What to do after the user was asked for input.
#[derive(Debug, Clone, Copy, PartialEq, Eq, Structural)]
pub enum InputAction {
    /// Send the conversation, which now ends with the user's message.
    Send,
    /// The input ended once: ask the user to end it again to leave.
    ConfirmExit,
    /// The input ended a second time: leave.
    Exit,
}

pub struct SessionView {
    pub messages: Seq<MessageView>,
    pub context_mode: bool,
    pub interrupted: bool,
}

/// The state of an interactive session between turns.
pub struct ChatSession {
    messages: Vec<Message>,
    context_mode: bool,
    interrupted: bool,
}

impl View for ChatSession {
    type V = SessionView;

    closed spec fn view(&self) -> SessionView {
        SessionView {
            messages: message_views(self.messages@),
            context_mode: self.context_mode,
            interrupted: self.interrupted,
        }
    }
}

impl ChatSession {
    pub fn new(context_mode: bool) -> (r: ChatSession)
        ensures
            r@.messages == Seq::<MessageView>::empty(),
            r@.context_mode == context_mode,
            !r@.interrupted,
    {
        let r = ChatSession { messages: Vec::new(), context_mode, interrupted: false };
        assert(message_views(r.messages@) =~= Seq::<MessageView>::empty());
        r
    }

    /// The messages to send with the next request.
    pub fn messages(&self) -> (r: &Vec<Message>)
        ensures
            message_views(r@) == self@.messages,
    {
        &self.messages
    }

    /// Takes what the user entered: a line, or `None` when the input ended.
    /// A line becomes the last user message, after the history policy; an end
    /// of input asks for confirmation the first time and leaves the second.
    pub fn on_input(&mut self, input: Option<String>) -> (r: InputAction)
        ensures
            final(self)@.context_mode == old(self)@.context_mode,
            match input {
                Some(line) => {
                    &&& r == InputAction::Send
                    &&& final(self)@.interrupted == old(self)@.interrupted
                    &&& final(self)@.messages == kept_history(old(self)@.messages, old(self)@.context_mode).push(
                        MessageView { role: "user"@, content: line@ },
                    )
                },
                None => {
                    &&& r == (if old(self)@.interrupted { InputAction::Exit } else { InputAction::ConfirmExit })
                    &&& final(self)@.interrupted
                    &&& final(self)@.messages == old(self)@.messages
                },
            },
    {
        match input {
            None => {
                if self.interrupted {
                    InputAction::Exit
                } else {
                    self.interrupted = true;
                    InputAction::ConfirmExit
                }
            },
            Some(line) => {
                let ghost h = self.messages@;
                if !self.context_mode {
                    self.messages = Vec::new();
                    assert(message_views(self.messages@) =~= Seq::<MessageView>::empty());
                } else if self.messages.len() > HISTORY_LIMIT {
                    self.messages.remove(0);
                    self.messages.remove(0);
                    assert(message_views(self.messages@) =~= message_views(h).subrange(2, h.len() as int));
                }
                let ghost kept = self.messages@;
                self.messages.push(Message { role: String::from_str("user"), content: line });
                assert(message_views(self.messages@) =~= message_views(kept).push(self.messages@.last()@));
                InputAction::Send
            },
        }
    }

    /// Adds the assistant's reply of the turn that just ended.
    pub fn record_reply(&mut self, text: String)
        ensures
            final(self)@.context_mode == old(self)@.context_mode,
            final(self)@.interrupted == old(self)@.interrupted,
            final(self)@.messages == old(self)@.messages.push(MessageView { role: "assistant"@, content: text@ }),
    {
        let ghost h = self.messages@;
        self.messages.push(Message { role: String::from_str("assistant"), content: text });
        assert(message_views(self.messages@) =~= message_views(h).push(self.messages@.last()@));
    }
}

/// One line of the conversation log: `<timestamp> <role>: <content>` and a
/// line feed.
pub fn log_line(timestamp: &str, role: &str, content: &str) -> (r: String)
    ensures
        r@ == timestamp@ + " "@ + role@ + ": "@ + content@ + "\n"@,
{
    let mut r = String::from_str(timestamp);
    r.append(" ");
    r.append(role);
    r.append(": ");
    r.append(content);
    r.append("\n");
    r
}

/// Reads an on/off setting: `true` or `false`, nothing else.
pub fn parse_flag(value: &str) -> (r: Option<bool>)
    ensures
        r == (if value@ == "true"@ {
            Some(true)
        } else if value@ == "false"@ {
            Some(false)
        } else {
            None
        }),
{
    let v = String::from_str(value);
    if v == String::from_str("true") {
        Some(true)
    } else if v == String::from_str("false") {
        Some(false)
    } else {
        None
    }
}

/// The model used when none is chosen.
pub open spec fn default_model() -> Seq<char> {
    "gpt-3.5-turbo"@
}

/// The chat models that the client may be pointed at.
pub open spec fn supported_models() -> Seq<Seq<char>> {
    seq![
        "gpt-4"@,
        "gpt-4-0314"@,
        "gpt-4-32k"@,
        "gpt-4-32k-0314"@,
        "gpt-3.5-turbo"@,
        "gpt-3.5-turbo-0301"@,
    ]
}

pub fn is_supported_model(name: &str) -> (r: bool)
    ensures
        r == supported_models().contains(name@),
{
    let n = String::from_str(name);
    let r = n == String::from_str("gpt-4") || n == String::from_str("gpt-4-0314")
        || n == String::from_str("gpt-4-32k") || n == String::from_str("gpt-4-32k-0314")
        || n == String::from_str("gpt-3.5-turbo") || n == String::from_str("gpt-3.5-turbo-0301");
    proof {
        let m = supported_models();
        assert(m[0] == "gpt-4"@ && m[1] == "gpt-4-0314"@ && m[2] == "gpt-4-32k"@);
        assert(m[3] == "gpt-4-32k-0314"@ && m[4] == "gpt-3.5-turbo"@ && m[5] == "gpt-3.5-turbo-0301"@);
        if m.contains(name@) {
            let i = choose|i: int| 0 <= i < m.len() && m[i] == name@;
            assert(r);
        }
        if r {
            assert(m.len() == 6);
        }
    }
    r
}

/// The model to use: the one chosen, when it is supported; the default when
/// none is chosen; `None` when an unsupported one is chosen.
pub fn select_model(chosen: Option<&str>) -> (r: Option<String>)
    ensures
        match chosen {
            None => r is Some && r->0@ == default_model(),
            Some(name) => if supported_models().contains(name@) {
                r is Some && r->0@ == name@
            } else {
                r is None
            },
        },
{
    match chosen {
        None => Some(String::from_str("gpt-3.5-turbo")),
        Some(name) => {
            if is_supported_model(name) {
                Some(String::from_str(name))
            } else {
                None
            }
        },
    }
}

} // verus!

//! The chat in the terminal, without the terminal: what a key does to the
//! conversation, and what the arriving answer does to it.
//!
//! The caller draws, reads keys and runs the stream.

use vstd::prelude::*;
use vstd::string::*;

use crate::provider::types::ChatRequest;
use crate::provider::types::ChatRequestView;
use crate::text::after_chars;
use crate::text::has_prefix;
use crate::text::pop_char;
use crate::text::push_char;
use crate::text::starts_with;
use crate::text::str_eq;
use crate::text::trim;
use crate::text::trimmed;

verus! {

/// The milliseconds between two drawings of the screen.
pub const TICK_MILLIS: u64 = 33;

/// What the conversation shows when it opens.
pub const GREETING: &'static str =
    "Type a message and press Enter. Commands: /quit, /clear, /model <name>";

/// Who speaks in a line of the conversation.
#[derive(Clone, Copy, Debug, PartialEq, Eq, Structural)]
pub enum Role {
    System,
    User,
    Assistant,
    Error,
}

impl Role {
    /// What stands before a line of this role.
    pub fn label(self) -> (r: &'static str)
        ensures
            r@ == match self {
                Role::System => "system: "@,
                Role::User => "user: "@,
                Role::Assistant => "assistant: "@,
                Role::Error => "error: "@,
            },
    {
        match self {
            Role::System => "system: ",
            Role::User => "user: ",
            Role::Assistant => "assistant: ",
            Role::Error => "error: ",
        }
    }

    /// Whether the label of this role is drawn in bold.
    pub fn is_bold(self) -> (r: bool)
        ensures
            r == (self == Role::User || self == Role::Error),
    {
        match self {
            Role::User => true,
            Role::Error => true,
            _ => false,
        }
    }
}

/// A line of the conversation.
#[derive(Debug, PartialEq, Eq)]
pub struct ChatLine {
    pub role: Role,
    pub text: String,
}

/// A [`ChatLine`] with its text as a sequence of characters.
pub struct ChatLineView {
    pub role: Role,
    pub text: Seq<char>,
}

impl View for ChatLine {
    type V = ChatLineView;

    open spec fn view(&self) -> ChatLineView {
        ChatLineView { role: self.role, text: self.text@ }
    }
}

/// The lines of a conversation, in order.
pub open spec fn lines_view(lines: Seq<ChatLine>) -> Seq<ChatLineView> {
    Seq::new(lines.len(), |i: int| lines[i]@)
}

/// The keys that mean something to the chat.
#[derive(Clone, Copy, Debug, PartialEq, Eq, Structural)]
pub enum Key {
    Char(char),
    Backspace,
    Enter,
    Esc,
    Other,
}

/// A key as it was pressed: with or without the control key.
#[derive(Clone, Copy, Debug, PartialEq, Eq, Structural)]
pub struct KeyPress {
    pub key: Key,
    pub control: bool,
}

/// What comes from the stream of an answer.
#[derive(Debug, PartialEq, Eq)]
pub enum StreamMsg {
    /// The next piece of the answer.
    Chunk(String),
    /// The answer is complete.
    Done,
    /// The answer broke off, for the reason given.
    Error(String),
}

/// What the caller is to do after a key.
#[derive(Debug, PartialEq, Eq)]
pub enum KeyAction {
    /// Go on.
    Continue,
    /// Leave the chat.
    Quit,
    /// Ask this of the provider, and feed the answer back as it arrives.
    Ask(ChatRequest),
}

/// A [`KeyAction`] with its texts as sequences of characters.
pub enum KeyActionView {
    Continue,
    Quit,
    Ask(ChatRequestView),
}

impl View for KeyAction {
    type V = KeyActionView;

    open spec fn view(&self) -> KeyActionView {
        match *self {
            KeyAction::Continue => KeyActionView::Continue,
            KeyAction::Quit => KeyActionView::Quit,
            KeyAction::Ask(request) => KeyActionView::Ask(request@),
        }
    }
}

/// The chat: what has been typed, what has been said, which model is
/// asked, and whether an answer is arriving.
#[derive(Debug, PartialEq, Eq)]
pub struct TuiState {
    pub input: String,
    pub lines: Vec<ChatLine>,
    pub model: String,
    pub streaming: bool,
}

/// A [`TuiState`] with its texts as sequences of characters.
pub struct TuiView {
    pub input: Seq<char>,
    pub lines: Seq<ChatLineView>,
    pub model: Seq<char>,
    pub streaming: bool,
}

impl View for TuiState {
    type V = TuiView;

    open spec fn view(&self) -> TuiView {
        TuiView {
            input: self.input@,
            lines: lines_view(self.lines@),
            model: self.model@,
            streaming: self.streaming,
        }
    }
}

/// A step of the chat: the state after it, and what it asks of the caller.
pub struct KeyStep {
    pub state: TuiView,
    pub action: KeyActionView,
}

/// The command that sets the model, with the space behind it.
pub open spec fn model_command() -> Seq<char> {
    "/model "@
}

impl TuiView {
    /// The chat as it opens, for the given model.
    pub open spec fn opening(model: Seq<char>) -> TuiView {
        TuiView {
            input: Seq::empty(),
            lines: seq![ChatLineView { role: Role::System, text: GREETING@ }],
            model,
            streaming: false,
        }
    }

    /// The chat with one more line.
    pub open spec fn say(self, role: Role, text: Seq<char>) -> TuiView {
        TuiView { lines: self.lines.push(ChatLineView { role, text }), ..self }
    }

    /// What the enter key does: the input, without the white space at
    /// its ends, is a command or a question, and the input is cleared.
    pub open spec fn after_enter(self) -> KeyStep {
        let message = trimmed(self.input);
        let cleared = TuiView { input: Seq::empty(), ..self };
        if message.len() == 0 {
            KeyStep { state: cleared, action: KeyActionView::Continue }
        } else if message == "/quit"@ {
            KeyStep { state: cleared, action: KeyActionView::Quit }
        } else if message == "/clear"@ {
            KeyStep {
                state: TuiView { lines: Seq::empty(), ..cleared },
                action: KeyActionView::Continue,
            }
        } else if starts_with(message, model_command()) {
            let model = trimmed(message.skip(model_command().len() as int));
            KeyStep {
                state: TuiView { model, ..cleared }.say(Role::System, "model set to: "@ + model),
                action: KeyActionView::Continue,
            }
        } else if self.streaming {
            KeyStep {
                state: cleared.say(Role::System, "(streaming in progress; wait for completion)"@),
                action: KeyActionView::Continue,
            }
        } else {
            KeyStep {
                state: TuiView { streaming: true, ..cleared }.say(Role::User, message).say(
                    Role::Assistant,
                    Seq::empty(),
                ),
                action: KeyActionView::Ask(
                    ChatRequestView {
                        model: self.model,
                        prompt: message,
                        include_directories: Seq::empty(),
                    },
                ),
            }
        }
    }

    /// What a key does.
    pub open spec fn after_key(self, press: KeyPress) -> KeyStep {
        if press.control && press.key == Key::Char('c') {
            KeyStep { state: self, action: KeyActionView::Quit }
        } else {
            match press.key {
                Key::Esc => KeyStep { state: self, action: KeyActionView::Quit },
                Key::Char(c) => KeyStep {
                    state: TuiView { input: self.input.push(c), ..self },
                    action: KeyActionView::Continue,
                },
                Key::Backspace => KeyStep {
                    state: TuiView {
                        input: if self.input.len() > 0 {
                            self.input.drop_last()
                        } else {
                            self.input
                        },
                        ..self
                    },
                    action: KeyActionView::Continue,
                },
                Key::Enter => self.after_enter(),
                Key::Other => KeyStep { state: self, action: KeyActionView::Continue },
            }
        }
    }

    /// What a message of the stream does: a chunk is added to the last
    /// line if that is the assistant's; the end, or a failure, ends the
    /// streaming, and a failure is shown.
    pub open spec fn after_stream(self, msg: StreamMsgView) -> TuiView {
        match msg {
            StreamMsgView::Chunk(text) => if self.lines.len() > 0 && self.lines.last().role
                == Role::Assistant {
                TuiView {
                    lines: self.lines.drop_last().push(
                        ChatLineView {
                            role: Role::Assistant,
                            text: self.lines.last().text + text,
                        },
                    ),
                    ..self
                }
            } else {
                self
            },
            StreamMsgView::Done => TuiView { streaming: false, ..self },
            StreamMsgView::Error(text) => TuiView { streaming: false, ..self }.say(
                Role::Error,
                text,
            ),
        }
    }
}

/// A [`StreamMsg`] with its text as a sequence of characters.
pub enum StreamMsgView {
    Chunk(Seq<char>),
    Done,
    Error(Seq<char>),
}

impl View for StreamMsg {
    type V = StreamMsgView;

    open spec fn view(&self) -> StreamMsgView {
        match *self {
            StreamMsg::Chunk(text) => StreamMsgView::Chunk(text@),
            StreamMsg::Done => StreamMsgView::Done,
            StreamMsg::Error(text) => StreamMsgView::Error(text@),
        }
    }
}

impl TuiState {
    /// The chat as it opens, for the given model.
    pub fn new(model: String) -> (r: TuiState)
        ensures
            r@ == TuiView::opening(model@),
    {
        let mut lines: Vec<ChatLine> = Vec::new();
        lines.push(ChatLine { role: Role::System, text: String::from_str(GREETING) });
        let state = TuiState { input: String::new(), lines, model, streaming: false };
        assert(state@.lines =~= TuiView::opening(model@).lines);
        state
    }

    fn say(&mut self, role: Role, text: String)
        ensures
            final(self)@ == old(self)@.say(role, text@),
    {
        let ghost before = lines_view(self.lines@);
        self.lines.push(ChatLine { role, text });
        assert(lines_view(self.lines@) =~= before.push(ChatLineView { role, text: text@ }));
    }

    fn enter(&mut self) -> (r: KeyAction)
        ensures
            final(self)@ == old(self)@.after_enter().state,
            r@ == old(self)@.after_enter().action,
    {
        let message = String::from_str(trim(self.input.as_str()));
        self.input = String::new();
        if message.as_str().is_empty() {
            return KeyAction::Continue;
        }
        if str_eq(message.as_str(), "/quit") {
            return KeyAction::Quit;
        }
        if str_eq(message.as_str(), "/clear") {
            self.lines = Vec::new();
            assert(lines_view(self.lines@) =~= Seq::<ChatLineView>::empty());
            return KeyAction::Continue;
        }
        if has_prefix(message.as_str(), "/model ") {
            proof {
                reveal_strlit("/model ");
            }
            let model = String::from_str(trim(after_chars(message.as_str(), 7)));
            let mut notice = String::from_str("model set to: ");
            notice.append(model.as_str());
            self.model = model;
            self.say(Role::System, notice);
            return KeyAction::Continue;
        }
        if self.streaming {
            self.say(Role::System, String::from_str("(streaming in progress; wait for completion)"));
            return KeyAction::Continue;
        }
        self.streaming = true;
        self.say(Role::User, message.clone());
        self.say(Role::Assistant, String::new());
        let include_directories: Vec<String> = Vec::new();
        let request = ChatRequest { model: self.model.clone(), prompt: message, include_directories };
        assert(request@.include_directories =~= Seq::<Seq<char>>::empty());
        KeyAction::Ask(request)
    }

    /// Takes a key.
    ///
    /// Control-C and escape leave the chat. A character is added to the
    /// input, backspace takes the last one away, and enter sends the input.
    pub fn handle_key(&mut self, press: KeyPress) -> (r: KeyAction)
        ensures
            final(self)@ == old(self)@.after_key(press).state,
            r@ == old(self)@.after_key(press).action,
    {
        if press.control {
            match press.key {
                Key::Char(c) => {
                    if c == 'c' {
                        return KeyAction::Quit;
                    }
                },
                _ => {},
            }
        }
        match press.key {
            Key::Esc => KeyAction::Quit,
            Key::Char(c) => {
                push_char(&mut self.input, c);
                KeyAction::Continue
            },
            Key::Backspace => {
                let _ = pop_char(&mut self.input);
                KeyAction::Continue
            },
            Key::Enter => self.enter(),
            Key::Other => KeyAction::Continue,
        }
    }

    /// Takes a message of the stream of the answer.
    pub fn on_stream(&mut self, msg: StreamMsg)
        ensures
            final(self)@ == old(self)@.after_stream(msg@),
    {
        match msg {
            StreamMsg::Chunk(text) => {
                let ghost before = lines_view(self.lines@);
                match self.lines.pop() {
                    Some(mut last) => {
                        assert(lines_view(self.lines@) =~= before.drop_last());
                        assert(last@ == before.last());
                        if last.role == Role::Assistant {
                            last.text.append(text.as_str());
                        }
                        self.lines.push(last);
                        assert(lines_view(self.lines@) =~= before.drop_last().push(last@));
                        assert(before.drop_last().push(before.last()) =~= before);
                    },
                    None => {
                        assert(lines_view(self.lines@) =~= before);
                    },
                }
            },
            StreamMsg::Done => {
                self.streaming = false;
            },
            StreamMsg::Error(text) => {
                self.streaming = false;
                self.say(Role::Error, text);
            },
        }
    }
}

/// The column of the cursor in the input box.
pub open spec fn cursor_at(area_x: u16, area_width: u16, typed: nat) -> int {
    let wanted = area_x + 1 + typed;
    let last = area_x + if area_width >= 2 {
        area_width - 2
    } else {
        0
    };
    let column = if wanted <= last {
        wanted
    } else {
        last
    };
    if column > u16::MAX {
        u16::MAX as int
    } else {
        column
    }
}

/// The column of the cursor in an input box that begins at column
/// `area_x` and is `area_width` wide, after `typed` characters: behind
/// what is typed, and never beyond the inside of the box or the screen.
pub fn cursor_column(area_x: u16, area_width: u16, typed: usize) -> (r: u16)
    ensures
        r == cursor_at(area_x, area_width, typed as nat),
{
    let inside: u16 = if area_width >= 2 {
        area_width - 2
    } else {
        0
    };
    let last: u32 = area_x as u32 + inside as u32;
    let column: u32 = if typed >= 0x1_0000 {
        last
    } else {
        let wanted: u32 = area_x as u32 + 1 + typed as u32;
        if wanted <= last {
            wanted
        } else {
            last
        }
    };
    if column > 0xffff {
        0xffff
    } else {
        column as u16
    }
}

/// The title of the chat.
pub fn title(model: &str) -> (r: String)
    ensures
        r@ == "gemini tui \u{2014} model: "@ + model@,
{
    let mut out = String::from_str("gemini tui \u{2014} model: ");
    out.append(model);
    out
}

/// Control-C and escape leave the chat whatever its state, and change nothing.
pub proof fn lemma_always_a_way_out(state: TuiView)
    ensures
        state.after_key(KeyPress { key: Key::Esc, control: false }).action is Quit,
        state.after_key(KeyPress { key: Key::Char('c'), control: true }).action is Quit,
        state.after_key(KeyPress { key: Key::Esc, control: false }).state == state,
        state.after_key(KeyPress { key: Key::Char('c'), control: true }).state == state,
{
}

/// While an answer arrives no second question is asked: only a chat
/// that is not streaming asks, and by asking it begins to stream.
pub proof fn lemma_one_answer_at_a_time(state: TuiView, press: KeyPress)
    ensures
        state.after_key(press).action is Ask ==> !state.streaming && state.after_key(
            press,
        ).state.streaming,
        !(state.after_key(press).action is Ask) ==> state.after_key(press).state.streaming
            == state.streaming,
{
}

/// Backspace undoes a character: typing one and taking it away leaves
/// the input as it was.
pub proof fn lemma_backspace_undoes_typing(state: TuiView, c: char)
    ensures
        state.after_key(KeyPress { key: Key::Char(c), control: false }).state.after_key(
            KeyPress { key: Key::Backspace, control: false },
        ).state == state,
{
    assert(state.input.push(c).drop_last() =~= state.input);
}

} // verus!

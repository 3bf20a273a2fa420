use gemini_cli::provider::types::ChatRequest;
use gemini_cli::text::after_chars;
use gemini_cli::text::has_prefix;
use gemini_cli::tui::cursor_column;
use gemini_cli::tui::title;
use gemini_cli::tui::ChatLine;
use gemini_cli::tui::Key;
use gemini_cli::tui::KeyAction;
use gemini_cli::tui::KeyPress;
use gemini_cli::tui::Role;
use gemini_cli::tui::StreamMsg;
use gemini_cli::tui::TuiState;
use gemini_cli::tui::GREETING;
use gemini_cli::tui::TICK_MILLIS;

fn press(key: Key) -> KeyPress {
    KeyPress { key, control: false }
}

fn line(role: Role, text: &str) -> ChatLine {
    ChatLine { role, text: text.to_string() }
}

fn typed(state: &mut TuiState, text: &str) {
    for c in text.chars() {
        assert_eq!(state.handle_key(press(Key::Char(c))), KeyAction::Continue);
    }
}

fn greeting() -> ChatLine {
    line(Role::System, "Type a message and press Enter. Commands: /quit, /clear, /model <name>")
}

#[test]
fn chat_opens_with_the_greeting() {
    let state = TuiState::new("m".to_string());
    assert_eq!(
        state,
        TuiState {
            input: String::new(),
            lines: vec![greeting()],
            model: "m".to_string(),
            streaming: false,
        }
    );
    assert_eq!(GREETING, greeting().text);
    assert_eq!(TICK_MILLIS, 33);
}

#[test]
fn characters_are_typed_and_taken_back() {
    let mut state = TuiState::new("m".to_string());
    typed(&mut state, "h\u{e9}y");
    assert_eq!(state.input, "h\u{e9}y");
    assert_eq!(state.handle_key(press(Key::Backspace)), KeyAction::Continue);
    assert_eq!(state.input, "h\u{e9}");
    assert_eq!(state.handle_key(press(Key::Backspace)), KeyAction::Continue);
    assert_eq!(state.input, "h");
    assert_eq!(state.handle_key(press(Key::Backspace)), KeyAction::Continue);
    assert_eq!(state.handle_key(press(Key::Backspace)), KeyAction::Continue);
    assert_eq!(state.input, "");
}

#[test]
fn escape_and_control_c_quit() {
    let mut state = TuiState::new("m".to_string());
    typed(&mut state, "abc");
    assert_eq!(state.handle_key(press(Key::Esc)), KeyAction::Quit);
    assert_eq!(state.handle_key(KeyPress { key: Key::Char('c'), control: true }), KeyAction::Quit);
    assert_eq!(state.input, "abc");
    // control with another character types it
    assert_eq!(
        state.handle_key(KeyPress { key: Key::Char('x'), control: true }),
        KeyAction::Continue
    );
    assert_eq!(state.input, "abcx");
    assert_eq!(state.handle_key(KeyPress { key: Key::Esc, control: true }), KeyAction::Quit);
}

#[test]
fn other_keys_do_nothing() {
    let mut state = TuiState::new("m".to_string());
    typed(&mut state, "a");
    assert_eq!(state.handle_key(press(Key::Other)), KeyAction::Continue);
    assert_eq!(state.input, "a");
    assert_eq!(state.lines, vec![greeting()]);
}

#[test]
fn enter_on_blank_input_clears_it() {
    let mut state = TuiState::new("m".to_string());
    typed(&mut state, "  \t ");
    assert_eq!(state.handle_key(press(Key::Enter)), KeyAction::Continue);
    assert_eq!(state.input, "");
    assert_eq!(state.lines, vec![greeting()]);
}

#[test]
fn quit_command_quits() {
    let mut state = TuiState::new("m".to_string());
    typed(&mut state, "  /quit ");
    assert_eq!(state.handle_key(press(Key::Enter)), KeyAction::Quit);
    assert_eq!(state.input, "");
}

#[test]
fn clear_command_clears_the_lines() {
    let mut state = TuiState::new("m".to_string());
    typed(&mut state, "/clear");
    assert_eq!(state.handle_key(press(Key::Enter)), KeyAction::Continue);
    assert_eq!(state.lines, vec![]);
    assert_eq!(state.input, "");
}

#[test]
fn model_command_sets_the_model() {
    let mut state = TuiState::new("m".to_string());
    typed(&mut state, "/model   gemini-2  ");
    assert_eq!(state.handle_key(press(Key::Enter)), KeyAction::Continue);
    assert_eq!(state.model, "gemini-2");
    assert_eq!(state.lines, vec![greeting(), line(Role::System, "model set to: gemini-2")]);
}

#[test]
fn model_command_without_a_name_is_a_question() {
    let mut state = TuiState::new("m".to_string());
    typed(&mut state, "/model");
    match state.handle_key(press(Key::Enter)) {
        KeyAction::Ask(request) => assert_eq!(request.prompt, "/model"),
        other => panic!("unexpected action: {:?}", other),
    }
    assert_eq!(state.model, "m");
}

#[test]
fn a_question_is_asked_of_the_current_model() {
    let mut state = TuiState::new("m".to_string());
    typed(&mut state, "  hello there ");
    assert_eq!(
        state.handle_key(press(Key::Enter)),
        KeyAction::Ask(ChatRequest {
            model: "m".to_string(),
            prompt: "hello there".to_string(),
            include_directories: vec![],
        })
    );
    assert_eq!(
        state,
        TuiState {
            input: String::new(),
            lines: vec![greeting(), line(Role::User, "hello there"), line(Role::Assistant, "")],
            model: "m".to_string(),
            streaming: true,
        }
    );
}

#[test]
fn no_second_question_while_an_answer_arrives() {
    let mut state = TuiState::new("m".to_string());
    typed(&mut state, "one");
    assert!(matches!(state.handle_key(press(Key::Enter)), KeyAction::Ask(_)));
    typed(&mut state, "two");
    assert_eq!(state.handle_key(press(Key::Enter)), KeyAction::Continue);
    assert_eq!(
        state.lines,
        vec![
            greeting(),
            line(Role::User, "one"),
            line(Role::Assistant, ""),
            line(Role::System, "(streaming in progress; wait for completion)"),
        ]
    );
    assert!(state.streaming);
    state.on_stream(StreamMsg::Done);
    typed(&mut state, "two");
    assert!(matches!(state.handle_key(press(Key::Enter)), KeyAction::Ask(_)));
}

#[test]
fn chunks_are_added_to_the_answer() {
    let mut state = TuiState::new("m".to_string());
    typed(&mut state, "q");
    assert!(matches!(state.handle_key(press(Key::Enter)), KeyAction::Ask(_)));
    state.on_stream(StreamMsg::Chunk("Hel".to_string()));
    state.on_stream(StreamMsg::Chunk("lo".to_string()));
    assert_eq!(
        state.lines,
        vec![greeting(), line(Role::User, "q"), line(Role::Assistant, "Hello")]
    );
    assert!(state.streaming);
    state.on_stream(StreamMsg::Done);
    assert!(!state.streaming);
    assert_eq!(state.lines.len(), 3);
}

#[test]
fn chunks_after_another_line_are_dropped() {
    let mut state = TuiState::new("m".to_string());
    state.on_stream(StreamMsg::Chunk("lost".to_string()));
    assert_eq!(state.lines, vec![greeting()]);
    let mut state = TuiState::new("m".to_string());
    state.lines = vec![];
    state.on_stream(StreamMsg::Chunk("lost".to_string()));
    assert_eq!(state.lines, vec![]);
}

#[test]
fn a_failure_ends_the_answer_and_is_shown() {
    let mut state = TuiState::new("m".to_string());
    typed(&mut state, "q");
    assert!(matches!(state.handle_key(press(Key::Enter)), KeyAction::Ask(_)));
    state.on_stream(StreamMsg::Chunk("par".to_string()));
    state.on_stream(StreamMsg::Error("network stream error".to_string()));
    assert!(!state.streaming);
    assert_eq!(
        state.lines,
        vec![
            greeting(),
            line(Role::User, "q"),
            line(Role::Assistant, "par"),
            line(Role::Error, "network stream error"),
        ]
    );
}

#[test]
fn roles_have_labels_and_weights() {
    assert_eq!(Role::System.label(), "system: ");
    assert_eq!(Role::User.label(), "user: ");
    assert_eq!(Role::Assistant.label(), "assistant: ");
    assert_eq!(Role::Error.label(), "error: ");
    assert!(Role::User.is_bold());
    assert!(Role::Error.is_bold());
    assert!(!Role::System.is_bold());
    assert!(!Role::Assistant.is_bold());
}

#[test]
fn cursor_stays_inside_the_box() {
    // x = area_x + 1 + typed, at most area_x + width - 2
    assert_eq!(cursor_column(0, 80, 0), 1);
    assert_eq!(cursor_column(0, 80, 10), 11);
    assert_eq!(cursor_column(5, 80, 10), 16);
    assert_eq!(cursor_column(0, 80, 77), 78);
    assert_eq!(cursor_column(0, 80, 78), 78);
    assert_eq!(cursor_column(0, 80, 1_000_000), 78);
    assert_eq!(cursor_column(3, 1, 5), 3);
    assert_eq!(cursor_column(3, 0, 0), 3);
    assert_eq!(cursor_column(3, 2, 0), 3);
    assert_eq!(cursor_column(3, 3, 0), 4);
    assert_eq!(cursor_column(u16::MAX, u16::MAX, 7), u16::MAX);
    assert_eq!(cursor_column(u16::MAX - 1, 10, 0), u16::MAX);
    assert_eq!(cursor_column(0, u16::MAX, 65_535), 65_533);
    assert_eq!(cursor_column(0, u16::MAX, usize::MAX), 65_533);
}

#[test]
fn title_names_the_model() {
    assert_eq!(title("gemini-1.5-flash"), "gemini tui \u{2014} model: gemini-1.5-flash");
}

#[test]
fn prefixes_are_compared_by_characters() {
    assert!(has_prefix("/model x", "/model "));
    assert!(has_prefix("/model ", "/model "));
    assert!(!has_prefix("/model", "/model "));
    assert!(!has_prefix("/Model x", "/model "));
    assert!(has_prefix("anything", ""));
    assert!(has_prefix("", ""));
    assert!(!has_prefix("", "a"));
    assert!(has_prefix("\u{e9}t\u{e9}", "\u{e9}"));
    assert!(!has_prefix("\u{e9}", "e"));
    assert_eq!(after_chars("\u{e9}t\u{e9}", 1), "t\u{e9}");
    assert_eq!(after_chars("abc", 0), "abc");
    assert_eq!(after_chars("abc", 3), "");
    assert_eq!(after_chars("abc", 4), "");
    assert_eq!(after_chars("", usize::MAX), "");
}

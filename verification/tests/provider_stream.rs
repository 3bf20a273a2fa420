use gemini_cli::provider::google::Candidate;
use gemini_cli::provider::google::Content;
use gemini_cli::provider::google::Part;
use gemini_cli::provider::google::StreamGenerateContentResponse;
use gemini_cli::provider::stream::PumpAction;
use gemini_cli::provider::stream::StreamPump;
use gemini_cli::provider::stub::StubProvider;
use gemini_cli::provider::stub::STUB_DELAY_MILLIS;
use gemini_cli::provider::stub::STUB_QUEUE_CAPACITY;
use gemini_cli::provider::types::ChatChunk;
use gemini_cli::provider::types::ChatRequest;
use gemini_cli::provider::types::ProviderError;
use gemini_cli::provider::types::Stage;

fn answer(texts: &[&str]) -> Result<StreamGenerateContentResponse, String> {
    Ok(StreamGenerateContentResponse {
        candidates: vec![Candidate {
            content: Some(Content {
                role: Some("model".to_string()),
                parts: texts.iter().map(|t| Part { text: Some(t.to_string()) }).collect(),
            }),
        }],
    })
}

fn chunk(text: &str) -> PumpAction {
    PumpAction::Send(Ok(ChatChunk { text: text.to_string() }))
}

#[test]
fn no_pump_for_a_failure_status() {
    assert!(StreamPump::open(404).is_none());
    assert!(StreamPump::open(500).is_none());
    assert!(StreamPump::open(199).is_none());
    assert!(StreamPump::open(200).is_some());
    assert!(StreamPump::open(299).is_some());
}

#[test]
fn events_become_chunks_in_order() {
    let mut pump = StreamPump::open(200).unwrap();
    assert!(!pump.is_stopped());
    let a = pump.on_bytes(b"data: {\"one\"}\n\ndata: {\"two\"}\n\n");
    assert_eq!(a, PumpAction::Decode("{\"one\"}".to_string()));
    assert_eq!(pump.on_decoded(answer(&["Hel", "lo"])), chunk("Hello"));
    assert_eq!(pump.on_sent(true), PumpAction::Decode("{\"two\"}".to_string()));
    assert_eq!(pump.on_decoded(answer(&[" world"])), chunk(" world"));
    assert_eq!(pump.on_sent(true), PumpAction::Read);
    assert_eq!(pump.on_end(), PumpAction::Stop);
    assert!(pump.is_stopped());
}

#[test]
fn an_event_split_between_pieces_is_decoded_once() {
    let mut pump = StreamPump::open(200).unwrap();
    assert_eq!(pump.on_bytes(b"data: {\"a\":"), PumpAction::Read);
    assert_eq!(pump.on_bytes(b"1}\n"), PumpAction::Read);
    assert_eq!(pump.on_bytes(b"\n"), PumpAction::Decode("{\"a\":1}".to_string()));
}

#[test]
fn blank_data_and_other_lines_are_passed_over() {
    let mut pump = StreamPump::open(200).unwrap();
    let a = pump.on_bytes(b"event: x\ndata:  \n\n: ping\ndata: {}\n\n");
    assert_eq!(a, PumpAction::Decode("{}".to_string()));
}

#[test]
fn only_blank_events_ask_for_more() {
    let mut pump = StreamPump::open(200).unwrap();
    assert_eq!(pump.on_bytes(b"data:\n\ndata: \t\n\nretry: 5\n"), PumpAction::Read);
}

#[test]
fn an_answer_without_text_is_passed_over() {
    let mut pump = StreamPump::open(200).unwrap();
    assert_eq!(
        pump.on_bytes(b"data: {\"a\"}\n\ndata: {\"b\"}\n\n"),
        PumpAction::Decode("{\"a\"}".to_string())
    );
    // no chunk for an answer without text: on to the next event
    assert_eq!(pump.on_decoded(answer(&[])), PumpAction::Decode("{\"b\"}".to_string()));
    assert_eq!(
        pump.on_decoded(Ok(StreamGenerateContentResponse { candidates: vec![] })),
        PumpAction::Read
    );
}

#[test]
fn malformed_json_is_sent_and_ends_the_stream() {
    let mut pump = StreamPump::open(200).unwrap();
    assert_eq!(
        pump.on_bytes(b"data: nonsense\n\ndata: {}\n\n"),
        PumpAction::Decode("nonsense".to_string())
    );
    assert_eq!(
        pump.on_decoded(Err("expected value at line 1".to_string())),
        PumpAction::Send(Err(ProviderError::MalformedJson {
            detail: "expected value at line 1".to_string()
        }))
    );
    assert_eq!(pump.on_sent(true), PumpAction::Stop);
    assert!(pump.is_stopped());
}

#[test]
fn a_line_that_is_not_utf8_is_sent_and_ends_the_stream() {
    let mut pump = StreamPump::open(200).unwrap();
    assert_eq!(
        pump.on_bytes(b"data: \xff\n\ndata: {}\n\n"),
        PumpAction::Send(Err(ProviderError::InvalidUtf8))
    );
    assert_eq!(pump.on_sent(true), PumpAction::Stop);
}

#[test]
fn a_lost_connection_is_sent_and_ends_the_stream() {
    let mut pump = StreamPump::open(200).unwrap();
    assert_eq!(pump.on_bytes(b"data: {"), PumpAction::Read);
    assert_eq!(
        pump.on_read_error("connection reset".to_string()),
        PumpAction::Send(Err(ProviderError::Transport {
            stage: Stage::Stream,
            detail: "connection reset".to_string()
        }))
    );
    assert_eq!(pump.on_sent(false), PumpAction::Stop);
    assert!(pump.is_stopped());
}

#[test]
fn a_consumer_that_is_gone_ends_the_stream() {
    let mut pump = StreamPump::open(200).unwrap();
    assert_eq!(
        pump.on_bytes(b"data: {1}\n\ndata: {2}\n\n"),
        PumpAction::Decode("{1}".to_string())
    );
    assert_eq!(pump.on_decoded(answer(&["x"])), chunk("x"));
    assert_eq!(pump.on_sent(false), PumpAction::Stop);
    assert!(pump.is_stopped());
}

#[test]
fn a_stopped_pump_stays_stopped() {
    let mut pump = StreamPump::open(200).unwrap();
    assert_eq!(pump.on_end(), PumpAction::Stop);
    assert_eq!(pump.on_bytes(b"data: {}\n\n"), PumpAction::Stop);
    assert_eq!(pump.on_decoded(answer(&["x"])), PumpAction::Stop);
    assert_eq!(pump.on_read_error("x".to_string()), PumpAction::Stop);
    assert_eq!(pump.on_sent(true), PumpAction::Stop);
    assert!(pump.is_stopped());
}

#[test]
fn the_end_of_the_body_drops_what_is_unfinished() {
    let mut pump = StreamPump::open(200).unwrap();
    assert_eq!(pump.on_bytes(b"data: {}\n"), PumpAction::Read);
    assert_eq!(pump.on_end(), PumpAction::Stop);
}

#[test]
fn stub_is_named_stub() {
    assert_eq!(StubProvider::new().name(), "stub");
    assert_eq!(STUB_QUEUE_CAPACITY, 32);
    assert_eq!(STUB_DELAY_MILLIS, 120);
}

#[test]
fn stub_script_echoes_the_prompt() {
    let request = ChatRequest {
        model: "gemini-x".to_string(),
        prompt: "what is up?".to_string(),
        include_directories: vec!["/a".to_string(), "b \"c\"".to_string()],
    };
    let script = StubProvider::new().script(request);
    let texts: Vec<String> = script.into_iter().map(|c| c.text).collect();
    assert_eq!(
        texts,
        vec![
            "[stub provider]\nmodel: gemini-x\ninclude_directories: [\"/a\", \"b \\\"c\\\"\"]\n\n"
                .to_string(),
            "You said: ".to_string(),
            "what is up?".to_string(),
            "\n\n".to_string(),
            "(This is streaming scaffolding; Phase A does not call Gemini APIs yet.)".to_string(),
        ]
    );
}

#[test]
fn stub_script_with_no_directories() {
    let request = ChatRequest {
        model: "m".to_string(),
        prompt: "".to_string(),
        include_directories: vec![],
    };
    let script = StubProvider::new().script(request);
    assert_eq!(script.len(), 5);
    assert_eq!(script[0].text, "[stub provider]\nmodel: m\ninclude_directories: []\n\n");
    assert_eq!(script[2].text, "");
}

#[test]
fn stub_stops_at_the_first_chunk_not_taken_after_the_header() {
    let stub = StubProvider::new();
    assert!(stub.goes_on(0, true));
    assert!(stub.goes_on(0, false));
    assert!(stub.goes_on(1, true));
    assert!(!stub.goes_on(1, false));
    assert!(!stub.goes_on(4, false));
    assert!(!stub.goes_on(usize::MAX, false));
}

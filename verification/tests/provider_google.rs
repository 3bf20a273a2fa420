use gemini_cli::provider::google::extract_text;
use gemini_cli::provider::google::request_body;
use gemini_cli::provider::google::Candidate;
use gemini_cli::provider::google::Content;
use gemini_cli::provider::google::GoogleAuth;
use gemini_cli::provider::google::GoogleProvider;
use gemini_cli::provider::google::Part;
use gemini_cli::provider::google::StreamGenerateContentRequest;
use gemini_cli::provider::google::StreamGenerateContentResponse;
use gemini_cli::provider::google::GOOGLE_API_BASE;
use gemini_cli::provider::google::GOOGLE_QUEUE_CAPACITY;
use gemini_cli::provider::types::ChatChunk;
use gemini_cli::provider::types::ChatRequest;
use gemini_cli::provider::types::ProviderError;
use gemini_cli::provider::types::Stage;
use gemini_cli::text::is_blank;
use gemini_cli::text::join;
use gemini_cli::text::str_eq;
use gemini_cli::web::is_success;

fn part(text: Option<&str>) -> Part {
    Part { text: text.map(|s| s.to_string()) }
}

fn candidate(parts: Vec<Part>) -> Candidate {
    Candidate { content: Some(Content { role: Some("model".to_string()), parts }) }
}

fn response(candidates: Vec<Candidate>) -> StreamGenerateContentResponse {
    StreamGenerateContentResponse { candidates }
}

fn key_provider(key: &str) -> GoogleProvider {
    GoogleProvider::new(GoogleAuth::ApiKey(key.to_string())).unwrap()
}

fn bearer_provider(token: &str) -> GoogleProvider {
    GoogleProvider::new(GoogleAuth::BearerToken(token.to_string())).unwrap()
}

#[test]
fn text_of_two_parts_is_concatenated() {
    let r = response(vec![candidate(vec![part(Some("x")), part(Some("y"))])]);
    assert_eq!(extract_text(&r), Some("xy".to_string()));
}

#[test]
fn candidate_with_no_parts_gives_no_chunk() {
    let r = response(vec![candidate(vec![])]);
    assert_eq!(extract_text(&r), None);
}

#[test]
fn no_candidate_gives_no_chunk() {
    assert_eq!(extract_text(&response(vec![])), None);
}

#[test]
fn candidate_without_content_gives_no_chunk() {
    let r = response(vec![Candidate { content: None }, candidate(vec![part(Some("later"))])]);
    assert_eq!(extract_text(&r), None);
}

#[test]
fn parts_without_text_are_skipped() {
    let r = response(vec![candidate(vec![part(None), part(Some("a")), part(None), part(Some("b"))])]);
    assert_eq!(extract_text(&r), Some("ab".to_string()));
}

#[test]
fn empty_texts_give_no_chunk() {
    let r = response(vec![candidate(vec![part(Some("")), part(None), part(Some(""))])]);
    assert_eq!(extract_text(&r), None);
}

#[test]
fn only_the_first_candidate_counts() {
    let r = response(vec![candidate(vec![part(Some("first"))]), candidate(vec![part(Some("second"))])]);
    assert_eq!(extract_text(&r), Some("first".to_string()));
}

#[test]
fn request_body_is_one_user_content_of_one_part() {
    let body = request_body("hello there".to_string());
    assert_eq!(
        body,
        StreamGenerateContentRequest {
            contents: vec![Content {
                role: Some("user".to_string()),
                parts: vec![Part { text: Some("hello there".to_string()) }],
            }],
        }
    );
}

#[test]
fn provider_is_named_google() {
    assert_eq!(key_provider("k").name(), "google");
}

#[test]
fn url_with_api_key_carries_key_and_alt() {
    let url = key_provider("k-123").build_url("gemini-1.5-flash").unwrap();
    assert_eq!(
        url,
        "https://generativelanguage.googleapis.com/v1beta/models/gemini-1.5-flash:streamGenerateContent?key=k-123&alt=sse"
    );
}

#[test]
fn url_with_bearer_token_carries_alt_only() {
    let url = bearer_provider("tok").build_url("gemini-1.5-pro").unwrap();
    assert_eq!(
        url,
        "https://generativelanguage.googleapis.com/v1beta/models/gemini-1.5-pro:streamGenerateContent?alt=sse"
    );
}

#[test]
fn api_key_is_percent_encoded_in_the_query() {
    let url = key_provider("a b&c=d").build_url("m").unwrap();
    assert_eq!(
        url,
        "https://generativelanguage.googleapis.com/v1beta/models/m:streamGenerateContent?key=a+b%26c%3Dd&alt=sse"
    );
}

#[test]
fn model_with_a_query_keeps_its_query_before_alt() {
    let url = bearer_provider("tok").build_url("m?x=1").unwrap();
    assert_eq!(
        url,
        "https://generativelanguage.googleapis.com/v1beta/models/m?x=1:streamGenerateContent&alt=sse"
    );
}

#[test]
fn key_that_is_too_long_for_a_url_is_refused() {
    let long = "k".repeat(0x1000_0001);
    assert_eq!(
        key_provider(&long).build_url("m"),
        Err(ProviderError::InvalidUrl {
            reference: "v1beta/models/m:streamGenerateContent".to_string()
        })
    );
}

#[test]
fn api_base_is_googles() {
    assert_eq!(GOOGLE_API_BASE, "https://generativelanguage.googleapis.com/");
    assert_eq!(GOOGLE_QUEUE_CAPACITY, 64);
}

#[test]
fn headers_with_api_key_hold_the_content_type_only() {
    let h = key_provider("k").headers().unwrap();
    assert_eq!(h.len(), 1);
    assert_eq!(h.get("content-type").unwrap().as_bytes(), b"application/json");
    assert!(h.get("authorization").is_none());
}

#[test]
fn headers_with_bearer_token_hold_the_authorization() {
    let h = bearer_provider("ya29.token").headers().unwrap();
    assert_eq!(h.len(), 2);
    assert_eq!(h.get("content-type").unwrap().as_bytes(), b"application/json");
    assert_eq!(h.get("authorization").unwrap().as_bytes(), b"Bearer ya29.token");
    assert_eq!(h.get_all("authorization").iter().count(), 1);
}

#[test]
fn token_with_a_line_feed_cannot_stand_in_a_header() {
    assert_eq!(bearer_provider("bad\ntoken").headers(), Err(ProviderError::InvalidHeader));
    assert_eq!(bearer_provider("bad\u{7f}").headers(), Err(ProviderError::InvalidHeader));
    assert_eq!(bearer_provider("bad\0").headers(), Err(ProviderError::InvalidHeader));
}

#[test]
fn token_with_tab_or_high_bytes_can_stand_in_a_header() {
    let h = bearer_provider("a\tb").headers().unwrap();
    assert_eq!(h.get("authorization").unwrap().as_bytes(), b"Bearer a\tb");
    let h = bearer_provider("caf\u{e9}").headers().unwrap();
    assert_eq!(h.get("authorization").unwrap().as_bytes(), "Bearer caf\u{e9}".as_bytes());
}

#[test]
fn provider_error_messages() {
    assert_eq!(
        ProviderError::Upstream { status: 429, body: "slow".to_string() }.message(),
        "Gemini API error: HTTP 429 Too Many Requests: slow"
    );
    assert_eq!(
        ProviderError::Transport { stage: Stage::Start, detail: "dns".to_string() }.message(),
        "failed to start Gemini request: dns"
    );
    assert_eq!(
        ProviderError::Transport { stage: Stage::Stream, detail: "reset".to_string() }.message(),
        "network stream error: reset"
    );
    assert_eq!(ProviderError::InvalidUtf8.message(), "SSE line is not valid UTF-8");
    assert_eq!(
        ProviderError::MalformedJson { detail: "EOF".to_string() }.message(),
        "failed to parse SSE JSON: EOF"
    );
    assert_eq!(ProviderError::ChannelClosed.message(), "the consumer of the stream is gone");
    assert_eq!(
        ProviderError::InvalidUrl { reference: "x y".to_string() }.message(),
        "invalid URL: x y"
    );
    assert_eq!(ProviderError::InvalidHeader.message(), "failed to parse header value");
}

#[test]
fn provider_values_clone_equal() {
    let e = ProviderError::Upstream { status: 500, body: "b".to_string() };
    assert_eq!(e.clone(), e);
    let c = ChatChunk { text: "t".to_string() };
    assert_eq!(c.clone(), c);
    let r = ChatRequest {
        model: "m".to_string(),
        prompt: "p".to_string(),
        include_directories: vec!["d".to_string()],
    };
    assert_eq!(r.clone(), r);
    let a = GoogleAuth::BearerToken("t".to_string());
    assert_eq!(a.clone(), a);
}

#[test]
fn success_is_two_hundred_to_two_ninety_nine() {
    assert!(!is_success(199));
    assert!(is_success(200));
    assert!(is_success(204));
    assert!(is_success(299));
    assert!(!is_success(300));
    assert!(!is_success(404));
    assert!(!is_success(0));
    assert!(!is_success(u16::MAX));
}

#[test]
fn blank_is_nothing_but_white_space() {
    assert!(is_blank(""));
    assert!(is_blank("  \t\r\n "));
    assert!(is_blank("\u{a0}\u{2003}"));
    assert!(!is_blank(" a "));
    assert!(!is_blank("\u{200b}"));
}

#[test]
fn join_puts_the_separator_between_neighbours() {
    assert_eq!(join(&vec![], ", "), "");
    assert_eq!(join(&vec!["a".to_string()], ", "), "a");
    assert_eq!(join(&vec!["a".to_string(), "b".to_string(), "".to_string()], ", "), "a, b, ");
}

#[test]
fn str_eq_compares_texts() {
    assert!(str_eq("", ""));
    assert!(str_eq("slow_down", "slow_down"));
    assert!(!str_eq("slow_down", "slow_dowm"));
    assert!(!str_eq("slow_down", "slow_down "));
    assert!(!str_eq("a", ""));
    assert!(str_eq("\u{20ac}", "\u{20ac}"));
}

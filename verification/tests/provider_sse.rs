use gemini_cli::provider::sse::memchr;
use gemini_cli::provider::sse::take_line;
use gemini_cli::provider::sse::SseEvent;
use gemini_cli::provider::sse::SseParser;
use gemini_cli::provider::types::ProviderError;

fn data(text: &str) -> Result<SseEvent, ProviderError> {
    Ok(SseEvent::Data(text.to_string()))
}

fn other() -> Result<SseEvent, ProviderError> {
    Ok(SseEvent::Other)
}

#[test]
fn one_data_event_in_one_call() {
    let mut p = SseParser::new();
    assert_eq!(p.push(b"data: hello\n\n"), vec![data("hello")]);
}

#[test]
fn one_data_event_across_two_calls() {
    let mut p = SseParser::new();
    assert_eq!(p.push(b"data: hel"), vec![]);
    assert_eq!(p.push(b"lo\n\n"), vec![data("hello")]);
}

#[test]
fn data_lines_are_joined_by_line_feeds() {
    let mut p = SseParser::new();
    assert_eq!(p.push(b"data: a\ndata: b\n\n"), vec![data("a\nb")]);
}

#[test]
fn three_data_lines_are_joined() {
    let mut p = SseParser::new();
    assert_eq!(p.push(b"data: a\ndata:\ndata: c\n\n"), vec![data("a\n\nc")]);
}

#[test]
fn byte_by_byte_gives_the_same_events() {
    let input = b"event: x\ndata: a\r\ndata: b\n\ndata:c\n\n: note\n\ndata: tail";
    let mut whole = SseParser::new();
    let at_once = whole.push(input);
    let mut p = SseParser::new();
    let mut piecewise = Vec::new();
    for b in input.iter() {
        piecewise.extend(p.push(&[*b]));
    }
    assert_eq!(piecewise, at_once);
    assert_eq!(at_once, vec![other(), data("a\nb"), data("c"), other()]);
    // both have the same unfinished rest
    assert_eq!(p, whole);
    assert_eq!(p.push(b"\n\n"), vec![data("tail")]);
}

#[test]
fn every_split_point_gives_the_same_events() {
    let input = b"data: one\ndata: two\r\n\r\nid: 7\ndata:three\n\n";
    let mut whole = SseParser::new();
    let expected = whole.push(input);
    assert_eq!(expected, vec![data("one\ntwo"), other(), data("three")]);
    for cut in 0..=input.len() {
        let mut p = SseParser::new();
        let mut got = p.push(&input[..cut]);
        got.extend(p.push(&input[cut..]));
        assert_eq!(got, expected);
        assert_eq!(p, whole);
    }
}

#[test]
fn carriage_return_before_line_feed_is_no_part_of_the_line() {
    let mut p = SseParser::new();
    assert_eq!(p.push(b"data: hi\r\n\r\n"), vec![data("hi")]);
}

#[test]
fn only_one_carriage_return_is_taken_off() {
    let mut p = SseParser::new();
    assert_eq!(p.push(b"data: hi\r\r\n\n"), vec![data("hi\r")]);
    // a line that is only a carriage return is blank
    let mut p = SseParser::new();
    assert_eq!(p.push(b"data: x\n\r\n"), vec![data("x")]);
}

#[test]
fn only_one_space_after_the_colon_is_taken_off() {
    let mut p = SseParser::new();
    assert_eq!(p.push(b"data:  two\n\n"), vec![data(" two")]);
    let mut p = SseParser::new();
    assert_eq!(p.push(b"data:none\n\n"), vec![data("none")]);
}

#[test]
fn empty_data_line_gives_empty_data() {
    let mut p = SseParser::new();
    assert_eq!(p.push(b"data:\n\n"), vec![data("")]);
    let mut p = SseParser::new();
    assert_eq!(p.push(b"data: \n\n"), vec![data("")]);
}

#[test]
fn blank_line_without_data_reports_nothing() {
    let mut p = SseParser::new();
    assert_eq!(p.push(b"\n\n\r\n"), vec![]);
}

#[test]
fn other_fields_and_comments_are_reported_as_other() {
    let mut p = SseParser::new();
    assert_eq!(
        p.push(b"event: message\nid: 1\nretry: 10\n: comment\ndatax: no\nDATA: no\n"),
        vec![other(), other(), other(), other(), other(), other()]
    );
}

#[test]
fn other_lines_do_not_disturb_the_data() {
    let mut p = SseParser::new();
    assert_eq!(p.push(b"data: a\nevent: e\ndata: b\n\n"), vec![other(), data("a\nb")]);
}

#[test]
fn data_is_reset_after_each_event() {
    let mut p = SseParser::new();
    assert_eq!(p.push(b"data: a\n\ndata: b\n\n\n"), vec![data("a"), data("b")]);
}

#[test]
fn line_that_is_not_utf8_is_reported_and_keeps_the_data() {
    let mut p = SseParser::new();
    let out = p.push(b"data: a\ndata: \xff\xfe\ndata: b\n\n");
    assert_eq!(out, vec![Err(ProviderError::InvalidUtf8), data("a\nb")]);
}

#[test]
fn truncated_utf8_is_not_utf8() {
    let mut p = SseParser::new();
    assert_eq!(p.push(b"data: \xe2\x82\n"), vec![Err(ProviderError::InvalidUtf8)]);
}

#[test]
fn data_may_hold_any_unicode() {
    let mut p = SseParser::new();
    let out = p.push("data: h\u{e9}llo \u{20ac} \u{1f600}\n\n".as_bytes());
    assert_eq!(out, vec![data("h\u{e9}llo \u{20ac} \u{1f600}")]);
}

#[test]
fn a_character_split_between_pieces_is_put_together() {
    let bytes = "data: \u{20ac}\n\n".as_bytes();
    let mut p = SseParser::new();
    assert_eq!(p.push(&bytes[..7]), vec![]);
    assert_eq!(p.push(&bytes[7..]), vec![data("\u{20ac}")]);
}

#[test]
fn unfinished_line_waits() {
    let mut p = SseParser::new();
    assert_eq!(p.push(b"data: no end"), vec![]);
    assert_eq!(p.push(b" yet"), vec![]);
    assert_eq!(p.push(b"\n"), vec![]);
    assert_eq!(p.push(b"\n"), vec![data("no end yet")]);
}

#[test]
fn empty_piece_changes_nothing() {
    let mut p = SseParser::new();
    assert_eq!(p.push(b""), vec![]);
    assert_eq!(p, SseParser::new());
}

#[test]
fn take_line_handles_each_kind_of_line() {
    assert_eq!(take_line(b"", None), (None, None));
    assert_eq!(take_line(b"", Some("x".to_string())), (Some(data("x")), None));
    assert_eq!(take_line(b"data: y", None), (None, Some("y".to_string())));
    assert_eq!(
        take_line(b"data: y", Some("x".to_string())),
        (None, Some("x\ny".to_string()))
    );
    assert_eq!(take_line(b"id: 3", Some("x".to_string())), (Some(other()), Some("x".to_string())));
    assert_eq!(
        take_line(b"\xc0", Some("x".to_string())),
        (Some(Err(ProviderError::InvalidUtf8)), Some("x".to_string()))
    );
    assert_eq!(take_line(b"data", None), (Some(other()), None));
    assert_eq!(take_line(b"data:", None), (None, Some("".to_string())));
}

#[test]
fn memchr_finds_the_first_occurrence() {
    assert_eq!(memchr(b'\n', b"ab\ncd\n"), Some(2));
    assert_eq!(memchr(b'a', b"ab\ncd\n"), Some(0));
    assert_eq!(memchr(b'x', b"ab\ncd\n"), None);
    assert_eq!(memchr(b'x', b""), None);
    assert_eq!(memchr(0, &[1, 0, 0]), Some(1));
}

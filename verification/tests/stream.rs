use quill::prompts::ChatMessage;
use quill::stream::{
    anthropic_event, compatible_event, decode_line, endpoint_url, responses_event, split_system,
    sse_payload, SseBuffer, StreamEvent, StreamProtocol,
};

fn delta(e: StreamEvent) -> Option<String> {
    match e {
        StreamEvent::Delta(d) => Some(d),
        _ => None,
    }
}

fn msg(role: &str, content: &str) -> ChatMessage {
    ChatMessage { role: role.to_string(), content: content.to_string() }
}

#[test]
fn buffer_splits_lines_across_chunks() {
    let mut b = SseBuffer::new();
    b.push("data: {\"a\"");
    assert_eq!(b.next_line(), None);
    b.push(":1}\n  data: x  \nrest");
    assert_eq!(b.next_line().as_deref(), Some("data: {\"a\":1}"));
    assert_eq!(b.next_line().as_deref(), Some("data: x"));
    assert_eq!(b.next_line(), None);
    b.push("\n");
    assert_eq!(b.next_line().as_deref(), Some("rest"));
}

#[test]
fn payload_only_from_data_lines() {
    assert_eq!(sse_payload("data: {}").as_deref(), Some("{}"));
    assert_eq!(sse_payload("event: ping"), None);
    assert_eq!(sse_payload("data:{}"), None);
}

#[test]
fn anthropic_events() {
    let d = anthropic_event(r#"{"type":"content_block_delta","delta":{"text":"Hi"}}"#);
    assert_eq!(delta(d).as_deref(), Some("Hi"));
    assert!(matches!(anthropic_event(r#"{"type":"message_stop"}"#), StreamEvent::Done));
    assert!(matches!(anthropic_event(r#"{"type":"ping"}"#), StreamEvent::Ignore));
    assert!(matches!(anthropic_event("not json"), StreamEvent::Ignore));
}

#[test]
fn compatible_events() {
    assert!(matches!(compatible_event("[DONE]"), StreamEvent::Done));
    let d = compatible_event(r#"{"choices":[{"delta":{"content":"ok"}}]}"#);
    assert_eq!(delta(d).as_deref(), Some("ok"));
    assert!(matches!(compatible_event(r#"{"choices":[{"delta":{}}]}"#), StreamEvent::Ignore));
}

#[test]
fn responses_events() {
    let d = responses_event(r#"{"type":"response.output_text.delta","delta":"x"}"#);
    assert_eq!(delta(d).as_deref(), Some("x"));
    assert!(matches!(responses_event(r#"{"type":"response.completed"}"#), StreamEvent::Done));
    assert!(matches!(responses_event(r#"{"type":"response.created"}"#), StreamEvent::Ignore));
}

#[test]
fn lines_decode_by_protocol() {
    assert!(matches!(decode_line(StreamProtocol::Compatible, "data: [DONE]"), StreamEvent::Done));
    assert!(matches!(decode_line(StreamProtocol::Anthropic, "data: [DONE]"), StreamEvent::Ignore));
    assert!(matches!(decode_line(StreamProtocol::Responses, ": keep-alive"), StreamEvent::Ignore));
}

#[test]
fn system_messages_are_split_out() {
    let msgs = vec![msg("system", "a"), msg("user", "q"), msg("system", "b"), msg("assistant", "r")];
    let (system, rest) = split_system(&msgs);
    assert_eq!(system, "a\n\nb");
    assert_eq!(rest.len(), 2);
    assert_eq!((rest[0].role.as_str(), rest[0].content.as_str()), ("user", "q"));
    assert_eq!((rest[1].role.as_str(), rest[1].content.as_str()), ("assistant", "r"));
    let (none, all) = split_system(&vec![msg("user", "q")]);
    assert_eq!(none, "");
    assert_eq!(all.len(), 1);
    let (empty_first, _) = split_system(&vec![msg("system", ""), msg("system", "x")]);
    assert_eq!(empty_first, "\n\nx");
}

#[test]
fn endpoints_drop_trailing_slashes() {
    assert_eq!(endpoint_url("http://localhost:11434//", "/v1/chat/completions"), "http://localhost:11434/v1/chat/completions");
    assert_eq!(endpoint_url("https://x.test/api", "/responses"), "https://x.test/api/responses");
}

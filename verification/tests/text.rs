use base64::Engine;
use quill::chats::{encode_chat_cursor, ChatCursor};
use quill::text::trim;

#[test]
fn trim_drops_unicode_white_space_only() {
    assert_eq!(trim("\u{3000}\u{a0}\t word \u{2029}\u{85}"), "word");
    assert_eq!(trim("\u{200b}x"), "\u{200b}x");
}

#[test]
fn cursor_ids_are_escaped_as_json_strings() {
    let c = ChatCursor { pinned: false, updated_at: 5, id: "a\"b\\c\nd\u{1}e".to_string() };
    let text = encode_chat_cursor(&c);
    let bytes = base64::engine::general_purpose::URL_SAFE_NO_PAD.decode(text).unwrap();
    assert_eq!(
        String::from_utf8(bytes).unwrap(),
        "{\"pinned\":false,\"updated_at\":5,\"id\":\"a\\\"b\\\\c\\nd\\u0001e\"}"
    );
}

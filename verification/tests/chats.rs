use quill::chats::{
    chat_bump_applies, new_chat_message, chat_page_size, chat_search_pattern, decode_chat_cursor_bytes, encode_chat_cursor,
    new_chat_title, ChatCursor,
};

#[test]
fn test_chat_cursor_round_trip() {
    let cursor = ChatCursor {
        pinned: true,
        updated_at: 1704067200123,
        id: "chat:id/with symbols".to_string(),
    };
    let bytes = decode_chat_cursor_bytes(&encode_chat_cursor(&cursor)).unwrap();
    let v: serde_json::Value = serde_json::from_slice(&bytes).unwrap();
    assert_eq!(v["pinned"], serde_json::Value::Bool(true));
    assert_eq!(v["updated_at"].as_i64(), Some(1704067200123));
    assert_eq!(v["id"].as_str(), Some("chat:id/with symbols"));
    assert_eq!(decode_chat_cursor_bytes("not base64!"), None);
}

#[test]
fn search_pattern_escapes_like_metacharacters() {
    assert_eq!(chat_search_pattern("50%_Off\\"), "%50\\%\\_off\\\\%");
}

#[test]
fn page_size_and_titles() {
    assert_eq!(new_chat_title(None), "New chat");
    assert_eq!(new_chat_title(Some("Mine".to_string())), "Mine");
    assert!(chat_page_size(Some(0)) >= 1);
}

#[test]
fn chat_bump_is_last_writer_wins() {
    assert!(chat_bump_applies(100, "dev-b", 101, "dev-a"));
    assert!(!chat_bump_applies(100, "dev-b", 99, "dev-z"));
    assert!(chat_bump_applies(100, "dev-a", 100, "dev-b"));
    assert!(!chat_bump_applies(100, "dev-b", 100, "dev-a"));
    assert!(!chat_bump_applies(100, "dev-a", 100, "dev-a"));
    assert!(chat_bump_applies(100, "dev", 100, "dev-a"));
}

#[test]
fn saved_messages_are_stamped_now() {
    let m = new_chat_message("m1".into(), "c1".into(), "user".into(), "hi".into(), None, None, 7);
    assert_eq!((m.created_at, m.updated_at), (7, 7));
    assert_eq!(m.role, "user");
}

use quill::assist::{
    plan_ai_chat, plan_ai_explain, plan_ai_generate_title, plan_ai_lookup, plan_ai_translate,
};
use quill::prompts::{ai_settings, AiRequestError, AiSettings, ChatMessage, Credentials, StreamBackend};

fn settings(provider: &str, auth: &str) -> AiSettings {
    ai_settings(Some(provider.to_string()), None, None, None, Some(auth.to_string()))
}

#[test]
fn lookup_refuses_a_gloss_without_language_before_checking_the_key() {
    let r = plan_ai_lookup(
        &settings("anthropic", "api_key"),
        String::new(),
        "en",
        "   ",
        "true",
        "w",
        "s",
        None,
        None,
        "1",
        None,
    );
    assert_eq!(r.unwrap_err(), AiRequestError::LookupTranslationLanguageNotConfigured);
    let r = plan_ai_lookup(
        &settings("anthropic", "api_key"),
        String::new(),
        "en",
        "zh",
        "true",
        "w",
        "s",
        None,
        None,
        "1",
        None,
    );
    assert_eq!(r.unwrap_err(), AiRequestError::NotConfigured);
}

#[test]
fn lookup_plan_for_ollama_without_key() {
    let p = plan_ai_lookup(
        &ai_settings(None, None, None, None, None),
        String::new(),
        "en",
        "",
        "false",
        "ephemeral",
        "An ephemeral joy.",
        Some("Essays"),
        None,
        "req-7",
        Some("definition".to_string()),
    )
    .unwrap();
    assert_eq!(p.event, "ai-lookup-chunk-req-7");
    assert_eq!(p.max_tokens, Some(128));
    assert_eq!(p.model, "llama3.2");
    assert!(matches!(&p.credentials, Credentials::ApiKey(k) if k.is_empty()));
    assert!(matches!(
        &p.backend,
        StreamBackend::Compatible { url, keep_alive: Some(k) } if url == "http://localhost:11434" && k == "30m"
    ));
    assert_eq!(p.messages.len(), 2);
    assert_eq!(p.messages[0].role, "system");
    assert!(p.messages[0].content.contains("dictionary-style definition"));
    assert_eq!(p.messages[1].role, "user");
    assert_eq!(
        p.messages[1].content,
        "Word/phrase: \"ephemeral\"\nSurrounding text: \"An ephemeral joy.\"\nBook: \"Essays\""
    );
}

#[test]
fn lookup_default_kind_is_the_full_answer() {
    let p = plan_ai_lookup(
        &settings("anthropic", "api_key"),
        "sk".to_string(),
        "en",
        " zh ",
        "true",
        "w",
        "s",
        None,
        None,
        "9",
        None,
    )
    .unwrap();
    assert_eq!(p.max_tokens, Some(256));
    assert!(p.messages[0].content.contains("[[QUILL_TRANSLATION]]"));
    assert!(p.messages[0].content.contains("Chinese (Simplified)"));
    assert!(matches!(&p.backend, StreamBackend::Anthropic { url } if url == "https://api.anthropic.com"));
}

#[test]
fn explain_streams_on_the_lookup_channel_without_budget() {
    assert_eq!(
        plan_ai_explain(&settings("openai", "api_key"), String::new(), "en", "p", None, None, None, "1").unwrap_err(),
        AiRequestError::NotConfigured
    );
    let p = plan_ai_explain(
        &settings("openai", "oauth"),
        String::new(),
        "zh",
        "A passage.",
        Some("A passage."),
        None,
        Some("One"),
        "abc",
    )
    .unwrap();
    assert_eq!(p.event, "ai-lookup-chunk-abc");
    assert_eq!(p.max_tokens, None);
    assert!(matches!(p.credentials, Credentials::OAuth));
    assert!(matches!(&p.backend, StreamBackend::Responses { url } if url == "https://chatgpt.com/backend-api/codex"));
    assert!(p.messages[0].content.starts_with("Respond entirely in Chinese (Simplified)."));
    assert_eq!(p.messages[1].content, "Passage: \"A passage.\"\nChapter: \"One\"");
}

#[test]
fn title_is_never_refused_and_capped() {
    let p = plan_ai_generate_title(&settings("openai", "api_key"), String::new(), "zh", "hi", "hello", "t1");
    assert_eq!(p.event, "ai-title-chunk-t1");
    assert_eq!(p.max_tokens, Some(32));
    assert!(p.messages[0].content.contains("Generate the title in Chinese."));
    assert_eq!(p.messages[1].content, "User: hi\nAssistant: hello");
}

#[test]
fn chat_puts_the_book_before_the_history() {
    let history = vec![ChatMessage { role: "user".to_string(), content: "Why?".to_string() }];
    assert_eq!(
        plan_ai_chat(&settings("anthropic", "api_key"), String::new(), "en", history.clone(), None, None, None)
            .unwrap_err(),
        AiRequestError::NotConfigured
    );
    let p = plan_ai_chat(
        &settings("anthropic", "api_key"),
        "key".to_string(),
        "en",
        history,
        Some("Dune"),
        Some("Herbert"),
        Some("Ch. 3"),
    )
    .unwrap();
    assert_eq!(p.event, "ai-stream-chunk");
    assert_eq!(p.messages.len(), 2);
    assert!(p.messages[0]
        .content
        .ends_with("The user is currently reading \"Dune\" by Herbert. They are on: Ch. 3."));
    assert_eq!(p.messages[1].content, "Why?");
    assert!(matches!(&p.credentials, Credentials::ApiKey(k) if k == "key"));
}

#[test]
fn translate_gives_context_only_when_longer() {
    let p = plan_ai_translate(&settings("ollama", "api_key"), String::new(), "ja", "word", Some("a longer word here"), "x")
        .unwrap();
    assert_eq!(p.event, "ai-translate-chunk-x");
    assert!(p.messages[0].content.contains("translated into Japanese"));
    assert!(p.messages[0].content.contains("a longer word here"));
    assert_eq!(p.messages[1].content, "word");
    let q = plan_ai_translate(&settings("ollama", "api_key"), String::new(), "xx", "word", Some("w"), "x").unwrap();
    assert!(q.messages[0].content.contains("Translate the following passage into xx"));
}

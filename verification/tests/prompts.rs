use quill::prompts::{explain_system_prompt, lookup_system_prompt, LOOKUP_TRANSLATION_MARKER};

#[test]
fn explain_prompt_asks_for_brevity_and_no_headers() {
    let p = explain_system_prompt("en");
    assert!(p.contains("2–3 sentences"), "must request a short answer");
    assert!(p.contains("headers or labels"), "must forbid headers/labels");
    assert!(p.contains("in context"), "must be context-aware");
}

#[test]
fn explain_prompt_english_has_no_language_directive() {
    let p = explain_system_prompt("en");
    assert!(!p.contains("Respond entirely in"));
}

#[test]
fn explain_prompt_non_english_prepends_response_language() {
    let zh = explain_system_prompt("zh");
    assert!(zh.starts_with("Respond entirely in Chinese (Simplified)."));

    let fr = explain_system_prompt("fr");
    assert!(fr.starts_with("Respond entirely in fr."));
}

#[test]
fn explain_prompt_never_has_translation_gloss() {
    for lang in ["en", "zh", "fr"] {
        let p = explain_system_prompt(lang);
        assert!(
            !p.to_lowercase().contains("translation of the"),
            "explain must not carry ai_lookup's word-gloss logic (lang={lang})"
        );
    }
}

#[test]
fn lookup_definition_prompt_marks_translation_when_target_differs() {
    let p = lookup_system_prompt("definition", "en", "zh", true);
    assert!(p.contains(LOOKUP_TRANSLATION_MARKER));
    assert!(p.contains("Chinese (Simplified)"));

    let non_english_lookup = lookup_system_prompt("definition", "zh", "en", true);
    assert!(non_english_lookup.contains(LOOKUP_TRANSLATION_MARKER));
    assert!(non_english_lookup.contains("English"));
    assert!(non_english_lookup
        .contains("After that first line, respond entirely in Chinese (Simplified)."));

    let same_language = lookup_system_prompt("definition", "en", "en", true);
    assert!(!same_language.contains(LOOKUP_TRANSLATION_MARKER));

    let disabled = lookup_system_prompt("definition", "en", "zh", false);
    assert!(!disabled.contains(LOOKUP_TRANSLATION_MARKER));
}

#[test]
fn lookup_context_prompt_never_marks_english_translation() {
    let p = lookup_system_prompt("context", "en", "zh", true);
    assert!(!p.contains(LOOKUP_TRANSLATION_MARKER));
    assert!(!p.to_lowercase().contains("brief translation"));
}

#[test]
fn lookup_prompt_uses_lookup_language_names() {
    let zh = lookup_system_prompt("definition", "zh", "en", true);
    assert!(zh.contains("respond entirely in Chinese (Simplified)."));
}

#[test]
fn lookup_prompt_marker_only_with_gloss_even_for_odd_codes() {
    // A language code with brackets that does not spell the marker.
    let p = lookup_system_prompt("context", "x[[y]]", "fr", true);
    assert!(!p.contains(LOOKUP_TRANSLATION_MARKER));
    assert!(p.contains("espond entirely in x[[y]]"));
    let p = lookup_system_prompt("definition", "x[[y]]", "fr", true);
    assert!(p.contains(LOOKUP_TRANSLATION_MARKER));
    let p = lookup_system_prompt("full", "x[[y]]", "x[[y]]", true);
    assert!(!p.contains(LOOKUP_TRANSLATION_MARKER));
}

#[test]
fn lookup_prompt_names_answer_language_for_every_kind() {
    for kind in ["definition", "context", "full"] {
        let p = lookup_system_prompt(kind, "de", "", false);
        assert!(p.contains("espond entirely in German"), "{kind}");
        let p = lookup_system_prompt(kind, "en", "fr", false);
        assert!(!p.contains("espond entirely in"), "{kind}");
    }
    let p = lookup_system_prompt("definition", "ja", "en", true);
    assert!(p.contains("After that first line, respond entirely in Japanese"));
}

//! Prompt and request construction for the reading assistant: the
//! lookup / explain / title / chat / translation prompts, the settings
//! defaults they read, and which streaming backend serves a request.
use vstd::prelude::*;

use crate::text::{owned, str_eq, trim, trim_spec};
use vstd::string::StringSliceAdditionalSpecFns;
use vstd::utf8::{decode_utf8, encode_utf8, encode_utf8_decode_utf8, is_char_boundary};

verus! {

/// One message of a chat exchange sent to a model.
#[derive(Debug, Clone)]
pub struct ChatMessage {
    pub role: String,
    pub content: String,
}

/// One streamed piece of a model's answer, as emitted to the UI.
#[derive(Debug, Clone)]
pub struct AiStreamChunk {
    pub delta: String,
    pub done: bool,
}

/// Marker the lookup prompt asks the model to put before its translation gloss.
pub const LOOKUP_TRANSLATION_MARKER: &'static str = "[[QUILL_TRANSLATION]]";

pub const TRANSLATION_PREFIX_HEAD: &'static str =
    "Before the definition, provide a brief translation of the word/phrase in ";

pub const TRANSLATION_PREFIX_MID: &'static str = ". The first line MUST be exactly `";

pub const TRANSLATION_PREFIX_TAIL: &'static str = "` followed immediately by the brief translation, then a newline. This marker is required machine-readable metadata, not a header. Keep the translation to a few words — no explanation, just the meaning. After that first line, proceed with the definition as usual. Do not put the marker anywhere except the first line.\n\n";

pub const RESPOND_IN: &'static str = "Respond entirely in ";

pub const AFTER_FIRST_LINE_RESPOND_IN: &'static str = "After that first line, respond entirely in ";

pub const PARAGRAPH_END: &'static str = ".\n\n";

pub const DEFINITION_BODY: &'static str = "You are a reading assistant embedded in an ebook reader. The user selected a word or phrase and wants a dictionary-style definition.\n\nGive: pronunciation in IPA (if English), part of speech, and a concise definition in 1–2 sentences.\n\nIf the selection is a proper noun (person, place, historical event), give a brief factual identification instead.\n\nBe concise. No headers or labels.";

pub const CONTEXT_BODY: &'static str = "You are a reading assistant embedded in an ebook reader. The user selected a word or phrase and wants to understand how it's used in the surrounding passage.\n\nExplain how the word is used in context. Consider the author's intent, tone, or any literary/idiomatic significance. Keep it to 2–3 sentences.\n\nBe concise. No headers or labels.";

pub const FULL_BODY: &'static str = "You are a reading assistant embedded in an ebook reader. The user selected a word or phrase and wants to understand it.\n\nRespond in two parts:\n\n1. **Definition** — Give a dictionary-style entry: the word, pronunciation in IPA (if it's an English word), part of speech, and a concise definition in one sentence.\n\n2. **In context** — Explain how the word is used in the given passage. Consider the author's intent, tone, or any literary/idiomatic significance. Keep it to 2–3 sentences.\n\nIf the selection is a proper noun (person, place, historical event), replace the dictionary definition with a brief factual identification, then explain its relevance in context.\n\nDo not use headers or labels like \"Definition:\" or \"In context:\". Separate the two parts with a line break. Be concise.";

pub const EXPLAIN_BODY: &'static str = "You are a reading assistant embedded in an ebook reader. The user selected a sentence or passage and wants to understand it in context.\n\nIn 2–3 sentences, explain what it means and why it matters here — clarify any difficult phrasing, allusion, or tone. Be direct and concise. Do not restate the passage, add headers or labels, or pad with preamble. Plain prose only.";

/// Display name of a lookup language code; unknown codes are shown as-is.
pub open spec fn language_name_spec(code: Seq<char>) -> Seq<char> {
    if code == "zh"@ {
        "Chinese (Simplified)"@
    } else if code == "ja"@ {
        "Japanese"@
    } else if code == "ko"@ {
        "Korean"@
    } else if code == "es"@ {
        "Spanish"@
    } else if code == "fr"@ {
        "French"@
    } else if code == "de"@ {
        "German"@
    } else {
        code
    }
}

/// Display name of a lookup language code; unknown codes are shown as-is.
pub fn language_name(code: &str) -> (r: String)
    ensures
        r@ == language_name_spec(code@),
{
    if str_eq(code, "zh") {
        owned("Chinese (Simplified)")
    } else if str_eq(code, "ja") {
        owned("Japanese")
    } else if str_eq(code, "ko") {
        owned("Korean")
    } else if str_eq(code, "es") {
        owned("Spanish")
    } else if str_eq(code, "fr") {
        owned("French")
    } else if str_eq(code, "de") {
        owned("German")
    } else {
        owned(code)
    }
}

/// Whether a lookup prompt carries the translation gloss: asked for, and
/// the gloss language is set and differs from the answer language.
pub open spec fn shows_translation(language: Seq<char>, gloss: Seq<char>, show: bool) -> bool {
    show && gloss.len() > 0 && gloss != language
}

/// The translation-gloss preamble of a definition prompt, or nothing.
pub open spec fn translation_prefix_spec(language: Seq<char>, gloss: Seq<char>, show: bool) -> Seq<
    char,
> {
    if shows_translation(language, gloss, show) {
        TRANSLATION_PREFIX_HEAD@ + language_name_spec(gloss) + TRANSLATION_PREFIX_MID@
            + LOOKUP_TRANSLATION_MARKER@ + TRANSLATION_PREFIX_TAIL@
    } else {
        Seq::empty()
    }
}

/// The answer-language directive of a definition prompt, or nothing for English.
pub open spec fn definition_language_prefix_spec(
    language: Seq<char>,
    gloss: Seq<char>,
    show: bool,
) -> Seq<char> {
    if language != "en"@ {
        if shows_translation(language, gloss, show) {
            AFTER_FIRST_LINE_RESPOND_IN@ + language_name_spec(language) + PARAGRAPH_END@
        } else {
            RESPOND_IN@ + language_name_spec(language) + PARAGRAPH_END@
        }
    } else {
        Seq::empty()
    }
}

/// The answer-language directive of a context prompt, or nothing for English.
pub open spec fn context_language_prefix_spec(language: Seq<char>) -> Seq<char> {
    if language != "en"@ {
        RESPOND_IN@ + language_name_spec(language) + PARAGRAPH_END@
    } else {
        Seq::empty()
    }
}

/// The system prompt of a word lookup of the given kind (`definition`,
/// `context`, anything else meaning the two-part answer).
pub open spec fn lookup_system_prompt_spec(
    kind: Seq<char>,
    language: Seq<char>,
    gloss: Seq<char>,
    show: bool,
) -> Seq<char> {
    let def_prefix = translation_prefix_spec(language, gloss, show)
        + definition_language_prefix_spec(language, gloss, show);
    if kind == "definition"@ {
        def_prefix + DEFINITION_BODY@
    } else if kind == "context"@ {
        context_language_prefix_spec(language) + CONTEXT_BODY@
    } else {
        def_prefix + FULL_BODY@
    }
}

/// Builds the system prompt of a word lookup.
pub fn lookup_system_prompt(
    kind: &str,
    language: &str,
    lookup_translation_language: &str,
    show_translation: bool,
) -> (r: String)
    ensures
        r@ == lookup_system_prompt_spec(kind@, language@, lookup_translation_language@, show_translation),
{
    let should_show_translation = show_translation && !lookup_translation_language.is_empty()
        && !str_eq(lookup_translation_language, language);
    let mut def_prefix = String::new();
    if should_show_translation {
        def_prefix.append(TRANSLATION_PREFIX_HEAD);
        let gloss_name = language_name(lookup_translation_language);
        def_prefix.append(gloss_name.as_str());
        def_prefix.append(TRANSLATION_PREFIX_MID);
        def_prefix.append(LOOKUP_TRANSLATION_MARKER);
        def_prefix.append(TRANSLATION_PREFIX_TAIL);
    }
    assert(def_prefix@ =~= translation_prefix_spec(
        language@,
        lookup_translation_language@,
        show_translation,
    ));
    let english = str_eq(language, "en");
    if !english {
        let name = language_name(language);
        if should_show_translation {
            def_prefix.append(AFTER_FIRST_LINE_RESPOND_IN);
        } else {
            def_prefix.append(RESPOND_IN);
        }
        def_prefix.append(name.as_str());
        def_prefix.append(PARAGRAPH_END);
    }
    assert(def_prefix@ =~= translation_prefix_spec(
        language@,
        lookup_translation_language@,
        show_translation,
    ) + definition_language_prefix_spec(language@, lookup_translation_language@, show_translation));
    if str_eq(kind, "definition") {
        def_prefix.append(DEFINITION_BODY);
        def_prefix
    } else if str_eq(kind, "context") {
        let mut ctx = String::new();
        if !english {
            ctx.append(RESPOND_IN);
            let name = language_name(language);
            ctx.append(name.as_str());
            ctx.append(PARAGRAPH_END);
        }
        assert(ctx@ =~= context_language_prefix_spec(language@));
        ctx.append(CONTEXT_BODY);
        ctx
    } else {
        def_prefix.append(FULL_BODY);
        def_prefix
    }
}

/// The system prompt of a passage explanation: a response-language
/// directive for non-English answers (`zh` named, other codes as-is), then
/// the fixed brevity instructions.
pub open spec fn explain_system_prompt_spec(language: Seq<char>) -> Seq<char> {
    let prefix = if language != "en"@ {
        let name = if language == "zh"@ {
            "Chinese (Simplified)"@
        } else {
            language
        };
        RESPOND_IN@ + name + PARAGRAPH_END@
    } else {
        Seq::empty()
    };
    prefix + EXPLAIN_BODY@
}

/// Builds the system prompt of a passage explanation.
pub fn explain_system_prompt(language: &str) -> (r: String)
    ensures
        r@ == explain_system_prompt_spec(language@),
{
    let mut out = String::new();
    if !str_eq(language, "en") {
        out.append(RESPOND_IN);
        if str_eq(language, "zh") {
            out.append("Chinese (Simplified)");
        } else {
            out.append(language);
        }
        out.append(PARAGRAPH_END);
    }
    out.append(EXPLAIN_BODY);
    out
}


/// Display name of a translation target language; unknown codes as-is.
pub open spec fn lang_display_name_spec(code: Seq<char>) -> Seq<char> {
    if code == "en"@ {
        "English"@
    } else if code == "zh"@ {
        "Chinese (Simplified)"@
    } else if code == "ja"@ {
        "Japanese"@
    } else if code == "ko"@ {
        "Korean"@
    } else if code == "es"@ {
        "Spanish"@
    } else if code == "fr"@ {
        "French"@
    } else if code == "de"@ {
        "German"@
    } else if code == "pt"@ {
        "Portuguese"@
    } else if code == "ru"@ {
        "Russian"@
    } else if code == "ar"@ {
        "Arabic"@
    } else if code == "it"@ {
        "Italian"@
    } else {
        code
    }
}

/// Display name of a translation target language; unknown codes as-is.
pub fn lang_display_name(code: &str) -> (r: String)
    ensures
        r@ == lang_display_name_spec(code@),
{
    if str_eq(code, "en") {
        owned("English")
    } else if str_eq(code, "zh") {
        owned("Chinese (Simplified)")
    } else if str_eq(code, "ja") {
        owned("Japanese")
    } else if str_eq(code, "ko") {
        owned("Korean")
    } else if str_eq(code, "es") {
        owned("Spanish")
    } else if str_eq(code, "fr") {
        owned("French")
    } else if str_eq(code, "de") {
        owned("German")
    } else if str_eq(code, "pt") {
        owned("Portuguese")
    } else if str_eq(code, "ru") {
        owned("Russian")
    } else if str_eq(code, "ar") {
        owned("Arabic")
    } else if str_eq(code, "it") {
        owned("Italian")
    } else {
        owned(code)
    }
}

/// `opt`'s characters, or `default` when absent.
pub open spec fn or_default(opt: Option<String>, default: Seq<char>) -> Seq<char> {
    match opt {
        Some(s) => s@,
        None => default,
    }
}

fn unwrap_or_str(opt: Option<String>, default: &str) -> (r: String)
    ensures
        r@ == or_default(opt, default@),
{
    match opt {
        Some(s) => s,
        None => owned(default),
    }
}

/// The provider settings every AI command reads, defaults applied.
#[derive(Debug, Clone)]
pub struct AiSettings {
    pub provider: String,
    pub model: String,
    pub base_url: Option<String>,
    pub keep_alive: String,
    pub auth_mode: String,
}

/// Applies the defaults to the raw `settings` rows of an AI command:
/// provider `ollama`, model `llama3.2`, keep-alive `30m`, auth `api_key`.
pub fn ai_settings(
    provider: Option<String>,
    model: Option<String>,
    base_url: Option<String>,
    keep_alive: Option<String>,
    auth_mode: Option<String>,
) -> (r: AiSettings)
    ensures
        r.provider@ == or_default(provider, "ollama"@),
        r.model@ == or_default(model, "llama3.2"@),
        r.base_url == base_url,
        r.keep_alive@ == or_default(keep_alive, "30m"@),
        r.auth_mode@ == or_default(auth_mode, "api_key"@),
{
    AiSettings {
        provider: unwrap_or_str(provider, "ollama"),
        model: unwrap_or_str(model, "llama3.2"),
        base_url,
        keep_alive: unwrap_or_str(keep_alive, "30m"),
        auth_mode: unwrap_or_str(auth_mode, "api_key"),
    }
}

/// The language a reading-assistant prompt answers in: the
/// `lookup_language` setting, else the system `language`, else English.
pub fn reading_language(lookup_language: Option<String>, language: Option<String>) -> (r: String)
    ensures
        r@ == match lookup_language {
            Some(l) => l@,
            None => or_default(language, "en"@),
        },
{
    match lookup_language {
        Some(l) => l,
        None => unwrap_or_str(language, "en"),
    }
}

/// Whether requests go through the OpenAI OAuth (Responses API) path.
pub open spec fn uses_oauth_spec(s: AiSettings) -> bool {
    s.auth_mode@ == "oauth"@ && s.provider@ == "openai"@
}

/// Whether requests go through the OpenAI OAuth (Responses API) path.
pub fn uses_oauth(s: &AiSettings) -> (b: bool)
    ensures
        b == uses_oauth_spec(*s),
{
    str_eq(s.auth_mode.as_str(), "oauth") && str_eq(s.provider.as_str(), "openai")
}

/// Why an AI request was refused before it was sent.
#[derive(Debug, Clone, PartialEq, Eq)]
pub enum AiRequestError {
    /// No API key for a provider that needs one.
    NotConfigured,
    /// A translation gloss was asked for without a gloss language.
    LookupTranslationLanguageNotConfigured,
}

impl AiRequestError {
    /// The error code the frontend matches on.
    pub fn code(&self) -> (r: String)
        ensures
            r@ == match self {
                AiRequestError::NotConfigured => "AI_NOT_CONFIGURED"@,
                AiRequestError::LookupTranslationLanguageNotConfigured => "LOOKUP_TRANSLATION_LANGUAGE_NOT_CONFIGURED"@,
            },
    {
        match self {
            AiRequestError::NotConfigured => owned("AI_NOT_CONFIGURED"),
            AiRequestError::LookupTranslationLanguageNotConfigured => owned(
                "LOOKUP_TRANSLATION_LANGUAGE_NOT_CONFIGURED",
            ),
        }
    }
}

/// How a request authenticates.
#[derive(Debug, Clone)]
pub enum Credentials {
    /// Fetch a fresh OAuth token (and account id) before sending.
    OAuth,
    /// Send with this API key (possibly empty, for Ollama).
    ApiKey(String),
}

/// Chooses the credentials of a request. OAuth when the OpenAI OAuth path
/// is configured; otherwise the stored key, refused as `NotConfigured` when
/// it is empty, the provider is not `ollama`, and `require_key` is set.
pub fn credentials(settings: &AiSettings, stored_key: String, require_key: bool) -> (r: Result<
    Credentials,
    AiRequestError,
>)
    ensures
        uses_oauth_spec(*settings) ==> r matches Ok(Credentials::OAuth),
        !uses_oauth_spec(*settings) ==> (r matches Err(AiRequestError::NotConfigured) <==> (
        require_key && stored_key@.len() == 0 && settings.provider@ != "ollama"@)),
        !uses_oauth_spec(*settings) ==> (r is Ok ==> r == Ok::<Credentials, AiRequestError>(
            Credentials::ApiKey(stored_key),
        )),
        r is Err ==> r matches Err(AiRequestError::NotConfigured),
{
    if uses_oauth(settings) {
        Ok(Credentials::OAuth)
    } else if require_key && stored_key.as_str().is_empty() && !str_eq(
        settings.provider.as_str(),
        "ollama",
    ) {
        Err(AiRequestError::NotConfigured)
    } else {
        Ok(Credentials::ApiKey(stored_key))
    }
}

/// A lookup that shows a translation gloss needs a gloss language.
pub fn check_lookup_translation(show_translation: &str, gloss_language: &str) -> (r: Result<
    (),
    AiRequestError,
>)
    ensures
        r is Err <==> (show_translation@ == "true"@ && trim_spec(gloss_language@).len() == 0),
        r is Err ==> r == Err::<(), AiRequestError>(
            AiRequestError::LookupTranslationLanguageNotConfigured,
        ),
{
    if str_eq(show_translation, "true") && trim(gloss_language).as_str().is_empty() {
        Err(AiRequestError::LookupTranslationLanguageNotConfigured)
    } else {
        Ok(())
    }
}

/// `label: "value"` on a line of its own, as the user messages write
/// optional context.
pub open spec fn quoted_line(label: Seq<char>, value: Seq<char>) -> Seq<char> {
    "\n"@ + label + ": \""@ + value + "\""@
}

/// An optional quoted line: empty when the value is absent.
pub open spec fn opt_quoted_line(label: Seq<char>, value: Option<&str>) -> Seq<char> {
    match value {
        Some(v) => quoted_line(label, v@),
        None => Seq::empty(),
    }
}

fn append_quoted_line(out: &mut String, label: &str, value: &str)
    ensures
        final(out)@ == old(out)@ + quoted_line(label@, value@),
{
    out.append("\n");
    out.append(label);
    out.append(": \"");
    out.append(value);
    out.append("\"");
    assert(final(out)@ =~= old(out)@ + quoted_line(label@, value@));
}

fn append_opt_quoted_line(out: &mut String, label: &str, value: Option<&str>)
    ensures
        final(out)@ == old(out)@ + opt_quoted_line(label@, value),
{
    match value {
        Some(v) => append_quoted_line(out, label, v),
        None => {
            assert(old(out)@ + opt_quoted_line(label@, value) =~= old(out)@);
        },
    }
}

/// The user message of a word lookup.
pub open spec fn lookup_user_content_spec(
    word: Seq<char>,
    sentence: Seq<char>,
    book_title: Option<&str>,
    chapter: Option<&str>,
) -> Seq<char> {
    "Word/phrase: \""@ + word + "\"\nSurrounding text: \""@ + sentence + "\""@
        + opt_quoted_line("Book"@, book_title) + opt_quoted_line("Chapter"@, chapter)
}

/// Builds the user message of a word lookup.
pub fn lookup_user_content(
    word: &str,
    sentence: &str,
    book_title: Option<&str>,
    chapter: Option<&str>,
) -> (r: String)
    ensures
        r@ == lookup_user_content_spec(word@, sentence@, book_title, chapter),
{
    let mut out = owned("Word/phrase: \"");
    out.append(word);
    out.append("\"\nSurrounding text: \"");
    out.append(sentence);
    out.append("\"");
    append_opt_quoted_line(&mut out, "Book", book_title);
    append_opt_quoted_line(&mut out, "Chapter", chapter);
    assert(out@ =~= lookup_user_content_spec(word@, sentence@, book_title, chapter));
    out
}

/// The lookup kind, `full` when none is given.
pub fn lookup_kind(kind: Option<String>) -> (r: String)
    ensures
        r@ == or_default(kind, "full"@),
{
    unwrap_or_str(kind, "full")
}

/// Output budget of a lookup: short for a definition, a little more for
/// the in-context note, most for the two-part answer.
pub open spec fn lookup_max_tokens_spec(kind: Seq<char>) -> u32 {
    if kind == "definition"@ {
        128u32
    } else if kind == "context"@ {
        192u32
    } else {
        256u32
    }
}

/// Output budget of a lookup of the given kind.
pub fn lookup_max_tokens(kind: &str) -> (r: u32)
    ensures
        r == lookup_max_tokens_spec(kind@),
{
    if str_eq(kind, "definition") {
        128
    } else if str_eq(kind, "context") {
        192
    } else {
        256
    }
}

/// The user message of a passage explanation. The surrounding text is
/// included only when it is non-empty and differs from the passage.
pub open spec fn explain_user_content_spec(
    passage: Seq<char>,
    surrounding: Option<&str>,
    book_title: Option<&str>,
    chapter: Option<&str>,
) -> Seq<char> {
    let ctx = match surrounding {
        Some(c) => if c@.len() > 0 && c@ != passage {
            quoted_line("Surrounding text"@, c@)
        } else {
            Seq::empty()
        },
        None => Seq::empty(),
    };
    "Passage: \""@ + passage + "\""@ + ctx + opt_quoted_line("Book"@, book_title)
        + opt_quoted_line("Chapter"@, chapter)
}

/// Builds the user message of a passage explanation.
pub fn explain_user_content(
    passage: &str,
    surrounding: Option<&str>,
    book_title: Option<&str>,
    chapter: Option<&str>,
) -> (r: String)
    ensures
        r@ == explain_user_content_spec(passage@, surrounding, book_title, chapter),
{
    let mut out = owned("Passage: \"");
    out.append(passage);
    out.append("\"");
    match surrounding {
        Some(c) => {
            if !c.is_empty() && !str_eq(c, passage) {
                append_quoted_line(&mut out, "Surrounding text", c);
            }
        },
        None => {},
    }
    append_opt_quoted_line(&mut out, "Book", book_title);
    append_opt_quoted_line(&mut out, "Chapter", chapter);
    assert(out@ =~= explain_user_content_spec(passage@, surrounding, book_title, chapter));
    out
}

/// A system message followed by a user message.
pub open spec fn system_and_user(system: Seq<char>, user: Seq<char>, msgs: Seq<ChatMessage>) -> bool {
    &&& msgs.len() == 2
    &&& msgs[0].role@ == "system"@
    &&& msgs[0].content@ == system
    &&& msgs[1].role@ == "user"@
    &&& msgs[1].content@ == user
}

/// The two messages of a one-shot request.
pub fn system_user_messages(system: String, user: String) -> (r: Vec<ChatMessage>)
    ensures
        system_and_user(system@, user@, r@),
{
    let mut v: Vec<ChatMessage> = Vec::new();
    v.push(ChatMessage { role: owned("system"), content: system });
    v.push(ChatMessage { role: owned("user"), content: user });
    v
}


/// Whether the UTF-8 form of `s` fits in memory (its length is a `usize`).
pub open spec fn fits(s: Seq<char>) -> bool {
    encode_utf8(s).len() <= usize::MAX
}

/// At most the first 200 bytes of a message, as the title prompt quotes it.
pub open spec fn title_snippet_spec(s: Seq<char>) -> Seq<char> {
    if encode_utf8(s).len() > 200 {
        decode_utf8(encode_utf8(s).subrange(0, 200))
    } else {
        s
    }
}

/// Whether cutting `s` at byte 200 splits no character; only then can the
/// title prompt quote it.
pub open spec fn title_snippet_ok(s: Seq<char>) -> bool {
    encode_utf8(s).len() > 200 ==> is_char_boundary(encode_utf8(s), 200)
}

fn title_snippet(s: &str) -> (r: &str)
    requires
        fits(s@),
        title_snippet_ok(s@),
    ensures
        r@ == title_snippet_spec(s@),
{
    if s.len() > 200 {
        let (head, _tail) = s.split_at(200);
        proof {
            assert(head.spec_bytes() =~= s.spec_bytes().subrange(0, 200));
            encode_utf8_decode_utf8(head@);
            assert(head@ == decode_utf8(encode_utf8(head@)));
        }
        head
    } else {
        s
    }
}

pub const TITLE_INSTRUCTION_HEAD: &'static str =
    "Generate a very short title (3-6 words) for the following chat exchange.";

pub const TITLE_INSTRUCTION_TAIL: &'static str =
    " Respond with ONLY the title, no quotes, no punctuation at the end.";

pub const TITLE_CHINESE_HINT: &'static str = " Generate the title in Chinese.";

/// The system instruction of the chat-title request.
pub open spec fn title_system_spec(language: Seq<char>) -> Seq<char> {
    TITLE_INSTRUCTION_HEAD@ + (if language == "zh"@ {
        TITLE_CHINESE_HINT@
    } else {
        Seq::empty()
    }) + TITLE_INSTRUCTION_TAIL@
}

/// The user message of the chat-title request.
pub open spec fn title_user_spec(user_message: Seq<char>, assistant_message: Seq<char>) -> Seq<
    char,
> {
    "User: "@ + title_snippet_spec(user_message) + "\nAssistant: "@ + title_snippet_spec(
        assistant_message,
    )
}

/// The messages asking for a short title of a chat exchange, quoting at
/// most 200 bytes of each side.
pub fn title_messages(user_message: &str, assistant_message: &str, language: &str) -> (r: Vec<
    ChatMessage,
>)
    requires
        fits(user_message@),
        fits(assistant_message@),
        title_snippet_ok(user_message@),
        title_snippet_ok(assistant_message@),
    ensures
        system_and_user(
            title_system_spec(language@),
            title_user_spec(user_message@, assistant_message@),
            r@,
        ),
{
    let mut system = owned(TITLE_INSTRUCTION_HEAD);
    if str_eq(language, "zh") {
        system.append(TITLE_CHINESE_HINT);
    }
    system.append(TITLE_INSTRUCTION_TAIL);
    assert(system@ =~= title_system_spec(language@));
    let mut user = owned("User: ");
    user.append(title_snippet(user_message));
    user.append("\nAssistant: ");
    user.append(title_snippet(assistant_message));
    assert(user@ =~= title_user_spec(user_message@, assistant_message@));
    system_user_messages(system, user)
}

pub const CHAT_SYSTEM_BASE: &'static str =
    "You are a helpful reading assistant. Help the user understand and discuss the book they are reading.";

/// The system message of a book chat: what is being read, by whom, where,
/// and a Chinese-response directive for `zh`.
pub open spec fn chat_system_spec(
    book_title: Option<&str>,
    book_author: Option<&str>,
    current_chapter: Option<&str>,
    language: Seq<char>,
) -> Seq<char> {
    let book = match book_title {
        Some(t) => "\n\nThe user is currently reading \""@ + t@ + "\""@ + match book_author {
            Some(a) => " by "@ + a@,
            None => Seq::empty(),
        } + "."@ + match current_chapter {
            Some(c) => " They are on: "@ + c@ + "."@,
            None => Seq::empty(),
        },
        None => Seq::empty(),
    };
    CHAT_SYSTEM_BASE@ + book + if language == "zh"@ {
        " Always respond in Chinese (Simplified)."@
    } else {
        Seq::empty()
    }
}

/// Builds the system message of a book chat.
pub fn chat_system_content(
    book_title: Option<&str>,
    book_author: Option<&str>,
    current_chapter: Option<&str>,
    language: &str,
) -> (r: String)
    ensures
        r@ == chat_system_spec(book_title, book_author, current_chapter, language@),
{
    let mut out = owned(CHAT_SYSTEM_BASE);
    match book_title {
        Some(t) => {
            out.append("\n\nThe user is currently reading \"");
            out.append(t);
            out.append("\"");
            match book_author {
                Some(a) => {
                    out.append(" by ");
                    out.append(a);
                },
                None => {},
            }
            out.append(".");
            match current_chapter {
                Some(c) => {
                    out.append(" They are on: ");
                    out.append(c);
                    out.append(".");
                },
                None => {},
            }
        },
        None => {},
    }
    if str_eq(language, "zh") {
        out.append(" Always respond in Chinese (Simplified).");
    }
    assert(out@ =~= chat_system_spec(book_title, book_author, current_chapter, language@));
    out
}

/// The messages of a chat request: the system message, then the history.
pub fn chat_messages(system: String, history: Vec<ChatMessage>) -> (r: Vec<ChatMessage>)
    ensures
        r@.len() == history@.len() + 1,
        r@[0].role@ == "system"@,
        r@[0].content@ == system@,
        r@.skip(1) == history@,
{
    let mut out: Vec<ChatMessage> = Vec::new();
    out.push(ChatMessage { role: owned("system"), content: system });
    let ghost h = history@;
    let mut history = history;
    out.append(&mut history);
    assert(out@.skip(1) =~= h);
    out
}

/// The language a passage is translated into: the explicit target, else
/// the `native_language` setting, else English.
pub fn translation_target(target_language: Option<String>, native_language: Option<String>) -> (r:
    String)
    ensures
        r@ == match target_language {
            Some(t) => t@,
            None => or_default(native_language, "en"@),
        },
{
    match target_language {
        Some(t) => t,
        None => unwrap_or_str(native_language, "en"),
    }
}

pub const TRANSLATE_HEAD: &'static str = "You are a translator embedded in an ebook reader. ";

pub const TRANSLATE_SELECTION: &'static str =
    "The user selected a portion of text they want translated into ";

pub const TRANSLATE_CONTEXT_HEAD: &'static str = ".\n\nFull paragraph for context:\n\"";

pub const TRANSLATE_CONTEXT_TAIL: &'static str = "\"\n\nTranslate ONLY the selected portion below — not the full paragraph. Use the surrounding context to ensure accuracy of meaning, tone, and any pronouns or references.\n\nProduce only the translation. No commentary, no labels, no original text.";

pub const TRANSLATE_PASSAGE: &'static str = "Translate the following passage into ";

pub const TRANSLATE_PASSAGE_TAIL: &'static str = ".\n\nProduce only the translation. No commentary, no labels, no original text. Preserve paragraph structure and tone.";

/// Whether the surrounding paragraph is given to the translator: present,
/// different from the selection and longer than it (in bytes).
pub open spec fn has_translation_context(text: Seq<char>, context: Option<&str>) -> bool {
    match context {
        Some(c) => c@ != text && encode_utf8(c@).len() > encode_utf8(text).len(),
        None => false,
    }
}

/// The translator's system prompt.
pub open spec fn translate_system_spec(
    target_name: Seq<char>,
    text: Seq<char>,
    context: Option<&str>,
) -> Seq<char> {
    if has_translation_context(text, context) {
        TRANSLATE_HEAD@ + TRANSLATE_SELECTION@ + target_name + TRANSLATE_CONTEXT_HEAD@
            + context.unwrap()@ + TRANSLATE_CONTEXT_TAIL@
    } else {
        TRANSLATE_HEAD@ + TRANSLATE_PASSAGE@ + target_name + TRANSLATE_PASSAGE_TAIL@
    }
}

/// Builds the translator's system prompt for a selection, translating into
/// `target_language` (a code, shown by its display name).
pub fn translate_system_prompt(target_language: &str, text: &str, context: Option<&str>) -> (r:
    String)
    requires
        fits(text@),
        context matches Some(c) ==> fits(c@),
    ensures
        r@ == translate_system_spec(lang_display_name_spec(target_language@), text@, context),
{
    let target_name = lang_display_name(target_language);
    let mut out = owned(TRANSLATE_HEAD);
    let with_context = match context {
        Some(c) => !str_eq(c, text) && c.len() > text.len(),
        None => false,
    };
    assert(with_context == has_translation_context(text@, context));
    if with_context {
        out.append(TRANSLATE_SELECTION);
        out.append(target_name.as_str());
        out.append(TRANSLATE_CONTEXT_HEAD);
        match context {
            Some(c) => out.append(c),
            None => {},
        }
        out.append(TRANSLATE_CONTEXT_TAIL);
    } else {
        out.append(TRANSLATE_PASSAGE);
        out.append(target_name.as_str());
        out.append(TRANSLATE_PASSAGE_TAIL);
    }
    assert(out@ =~= translate_system_spec(
        lang_display_name_spec(target_language@),
        text@,
        context,
    ));
    out
}

/// Which streaming backend serves a request, with its endpoint.
#[derive(Debug, Clone)]
pub enum StreamBackend {
    /// Anthropic Messages API.
    Anthropic { url: String },
    /// OpenAI Responses API over the ChatGPT OAuth backend.
    Responses { url: String },
    /// Any OpenAI-compatible `/v1/chat/completions` endpoint (Ollama too).
    Compatible { url: String, keep_alive: Option<String> },
}

pub const ANTHROPIC_DEFAULT_URL: &'static str = "https://api.anthropic.com";

pub const CODEX_BACKEND_URL: &'static str = "https://chatgpt.com/backend-api/codex";

pub const OLLAMA_DEFAULT_URL: &'static str = "http://localhost:11434";

/// Routes a request: Anthropic by provider, the Responses API for OpenAI
/// OAuth, every other provider to an OpenAI-compatible endpoint (Ollama
/// keeping its keep-alive).
pub open spec fn stream_backend_spec(s: AiSettings, r: StreamBackend) -> bool {
    if s.provider@ == "anthropic"@ {
        r matches StreamBackend::Anthropic { url } && url@ == or_default(
            s.base_url,
            ANTHROPIC_DEFAULT_URL@,
        )
    } else if uses_oauth_spec(s) {
        r matches StreamBackend::Responses { url } && url@ == CODEX_BACKEND_URL@
    } else {
        r matches StreamBackend::Compatible { url, keep_alive } && url@ == or_default(
            s.base_url,
            OLLAMA_DEFAULT_URL@,
        ) && (if s.provider@ == "ollama"@ {
            keep_alive matches Some(k) && k@ == s.keep_alive@
        } else {
            keep_alive is None
        })
    }
}

/// Routing of a request: Anthropic exactly for provider `anthropic`, at its
/// base URL (Anthropic's by default); the ChatGPT Responses backend exactly
/// for provider `openai` signed in with OAuth; every other request, `openai`
/// with an API key among them, to an OpenAI-compatible endpoint at its base
/// URL (Ollama's local one by default), with a keep-alive only for Ollama.
pub proof fn law_stream_backend_routing(s: AiSettings, r: StreamBackend)
    requires
        stream_backend_spec(s, r),
    ensures
        (r is Anthropic) <==> s.provider@ == "anthropic"@,
        (r is Responses) <==> (s.auth_mode@ == "oauth"@ && s.provider@ == "openai"@),
        (r is Compatible) <==> (s.provider@ != "anthropic"@ && !(s.auth_mode@ == "oauth"@ && s.provider@
            == "openai"@)),
        r matches StreamBackend::Anthropic { url } ==> url@ == (match s.base_url {
            Some(b) => b@,
            None => "https://api.anthropic.com"@,
        }),
        r matches StreamBackend::Responses { url } ==> url@ == "https://chatgpt.com/backend-api/codex"@,
        r matches StreamBackend::Compatible { url, keep_alive } ==> url@ == (match s.base_url {
            Some(b) => b@,
            None => "http://localhost:11434"@,
        }) && (keep_alive is Some <==> s.provider@ == "ollama"@) && (keep_alive matches Some(k) ==> k@
            == s.keep_alive@),
{
    reveal_strlit("anthropic");
    reveal_strlit("openai");
    assert("anthropic"@.len() != "openai"@.len());
}

/// Chooses the streaming backend of a request.
pub fn stream_backend(s: &AiSettings) -> (r: StreamBackend)
    ensures
        stream_backend_spec(*s, r),
{
    if str_eq(s.provider.as_str(), "anthropic") {
        StreamBackend::Anthropic { url: unwrap_or_str(s.base_url.clone(), ANTHROPIC_DEFAULT_URL) }
    } else if uses_oauth(s) {
        StreamBackend::Responses { url: owned(CODEX_BACKEND_URL) }
    } else {
        let keep_alive = if str_eq(s.provider.as_str(), "ollama") {
            Some(s.keep_alive.clone())
        } else {
            None
        };
        StreamBackend::Compatible {
            url: unwrap_or_str(s.base_url.clone(), OLLAMA_DEFAULT_URL),
            keep_alive,
        }
    }
}

/// The per-request event channel: `prefix` followed by the request id.
pub fn event_name(prefix: &str, request_id: &str) -> (r: String)
    ensures
        r@ == prefix@ + request_id@,
{
    let mut out = owned(prefix);
    out.append(request_id);
    out
}

/// What the UI receives when streaming fails: the error text as a delta,
/// then the closing chunk.
pub fn stream_error_chunks(message: &str) -> (r: Vec<AiStreamChunk>)
    ensures
        r@.len() == 2,
        r@[0].delta@ == "Error: "@ + message@,
        !r@[0].done,
        r@[1].delta@.len() == 0,
        r@[1].done,
{
    let mut first = owned("Error: ");
    first.append(message);
    let mut v: Vec<AiStreamChunk> = Vec::new();
    v.push(AiStreamChunk { delta: first, done: false });
    v.push(AiStreamChunk { delta: String::new(), done: true });
    v
}


/// Whether `m` occurs in `s`.
pub open spec fn has_infix(s: Seq<char>, m: Seq<char>) -> bool {
    exists|i: int| 0 <= i && i + m.len() <= s.len() && #[trigger] s.subrange(i, i + m.len()) == m
}

proof fn lemma_infix_at(s: Seq<char>, m: Seq<char>, i: int)
    requires
        0 <= i,
        i + m.len() <= s.len(),
        s.subrange(i, i + m.len()) =~= m,
    ensures
        has_infix(s, m),
{
}

/// A lookup in any language but English tells the model to answer in that
/// language, by its display name, whatever the kind; a lookup in English
/// carries no such directive: its prompt is the answer body, after the
/// translation preamble when the gloss is shown.
pub proof fn law_lookup_answer_language(kind: Seq<char>, language: Seq<char>, gloss: Seq<char>, show: bool)
    ensures
        language != "en"@ ==> has_infix(
            lookup_system_prompt_spec(kind, language, gloss, show),
            "espond entirely in "@ + language_name_spec(language),
        ),
        language == "en"@ ==> lookup_system_prompt_spec(kind, language, gloss, show) == (if kind == "context"@ {
            CONTEXT_BODY@
        } else if kind == "definition"@ {
            translation_prefix_spec(language, gloss, show) + DEFINITION_BODY@
        } else {
            translation_prefix_spec(language, gloss, show) + FULL_BODY@
        }),
{
    let p = lookup_system_prompt_spec(kind, language, gloss, show);
    let name = language_name_spec(language);
    let m = "espond entirely in "@ + name;
    reveal_strlit("espond entirely in ");
    reveal_strlit("Respond entirely in ");
    reveal_strlit("After that first line, respond entirely in ");
    reveal_strlit("definition");
    reveal_strlit("context");
    assert("definition"@.len() != "context"@.len());
    let tp = translation_prefix_spec(language, gloss, show);
    let dl = definition_language_prefix_spec(language, gloss, show);
    if language != "en"@ {
        let ctx = kind == "context"@;
        let pre = if ctx { Seq::<char>::empty() } else { translation_prefix_spec(language, gloss, show) };
        let lead = if !ctx && shows_translation(language, gloss, show) {
            AFTER_FIRST_LINE_RESPOND_IN@
        } else {
            RESPOND_IN@
        };
        let body = if ctx {
            CONTEXT_BODY@
        } else if kind == "definition"@ {
            DEFINITION_BODY@
        } else {
            FULL_BODY@
        };
        if ctx {
            assert(context_language_prefix_spec(language) == lead + name + PARAGRAPH_END@);
        } else {
            assert(dl == lead + name + PARAGRAPH_END@);
        }
        assert(p =~= pre + (lead + name + PARAGRAPH_END@) + body);
        let i = pre.len() + lead.len() - 19;
        assert(lead.subrange(lead.len() - 19, lead.len() as int) =~= "espond entirely in "@);
        assert(p.subrange(i, i + m.len()) =~= m);
        lemma_infix_at(p, m, i);
    } else {
        assert(dl =~= Seq::<char>::empty());
        assert(context_language_prefix_spec(language) =~= Seq::<char>::empty());
        assert(tp + dl =~= tp);
        assert(p =~= (if kind == "context"@ {
            CONTEXT_BODY@
        } else if kind == "definition"@ {
            translation_prefix_spec(language, gloss, show) + DEFINITION_BODY@
        } else {
            translation_prefix_spec(language, gloss, show) + FULL_BODY@
        }));
    }
}

/// Whether `s` holds no `[`.
pub open spec fn no_bracket(s: Seq<char>) -> bool {
    forall|i: int| 0 <= i < s.len() ==> #[trigger] s[i] != '['
}

proof fn lemma_no_bracket_concat(a: Seq<char>, b: Seq<char>)
    requires
        no_bracket(a),
        no_bracket(b),
    ensures
        no_bracket(a + b),
{
    assert forall|i: int| 0 <= i < (a + b).len() implies #[trigger] (a + b)[i] != '[' by {
        if i < a.len() {
            assert((a + b)[i] == a[i]);
        } else {
            assert((a + b)[i] == b[i - a.len()]);
        }
    }
}

proof fn lemma_no_bracket_no_marker(s: Seq<char>)
    requires
        no_bracket(s),
    ensures
        !has_infix(s, LOOKUP_TRANSLATION_MARKER@),
{
    reveal_strlit("[[QUILL_TRANSLATION]]");
    let m = LOOKUP_TRANSLATION_MARKER@;
    if has_infix(s, m) {
        let i = choose|i: int| 0 <= i && i + m.len() <= s.len() && #[trigger] s.subrange(i, i + m.len()) == m;
        assert(s.subrange(i, i + m.len())[0] == s[i]);
        assert(m[0] == '[');
    }
}

proof fn lemma_fixed_texts_no_bracket()
    ensures
        no_bracket(RESPOND_IN@),
        no_bracket(AFTER_FIRST_LINE_RESPOND_IN@),
        no_bracket(PARAGRAPH_END@),
        no_bracket(DEFINITION_BODY@),
        no_bracket(CONTEXT_BODY@),
        no_bracket(FULL_BODY@),
{
    reveal_strlit("Respond entirely in ");
    reveal_strlit("After that first line, respond entirely in ");
    reveal_strlit(".\n\n");
    reveal_strlit("You are a reading assistant embedded in an ebook reader. The user selected a word or phrase and wants a dictionary-style definition.\n\nGive: pronunciation in IPA (if English), part of speech, and a concise definition in 1–2 sentences.\n\nIf the selection is a proper noun (person, place, historical event), give a brief factual identification instead.\n\nBe concise. No headers or labels.");
    reveal_strlit("You are a reading assistant embedded in an ebook reader. The user selected a word or phrase and wants to understand how it's used in the surrounding passage.\n\nExplain how the word is used in context. Consider the author's intent, tone, or any literary/idiomatic significance. Keep it to 2–3 sentences.\n\nBe concise. No headers or labels.");
    reveal_strlit("You are a reading assistant embedded in an ebook reader. The user selected a word or phrase and wants to understand it.\n\nRespond in two parts:\n\n1. **Definition** — Give a dictionary-style entry: the word, pronunciation in IPA (if it's an English word), part of speech, and a concise definition in one sentence.\n\n2. **In context** — Explain how the word is used in the given passage. Consider the author's intent, tone, or any literary/idiomatic significance. Keep it to 2–3 sentences.\n\nIf the selection is a proper noun (person, place, historical event), replace the dictionary definition with a brief factual identification, then explain its relevance in context.\n\nDo not use headers or labels like \"Definition:\" or \"In context:\". Separate the two parts with a line break. Be concise.");
}

proof fn lemma_fixed_texts_no_close()
    ensures
        no_close(PARAGRAPH_END@),
        no_close(DEFINITION_BODY@),
        no_close(CONTEXT_BODY@),
        no_close(FULL_BODY@),
{
    reveal_strlit(".\n\n");
    reveal_strlit("You are a reading assistant embedded in an ebook reader. The user selected a word or phrase and wants a dictionary-style definition.\n\nGive: pronunciation in IPA (if English), part of speech, and a concise definition in 1–2 sentences.\n\nIf the selection is a proper noun (person, place, historical event), give a brief factual identification instead.\n\nBe concise. No headers or labels.");
    reveal_strlit("You are a reading assistant embedded in an ebook reader. The user selected a word or phrase and wants to understand how it's used in the surrounding passage.\n\nExplain how the word is used in context. Consider the author's intent, tone, or any literary/idiomatic significance. Keep it to 2–3 sentences.\n\nBe concise. No headers or labels.");
    reveal_strlit("You are a reading assistant embedded in an ebook reader. The user selected a word or phrase and wants to understand it.\n\nRespond in two parts:\n\n1. **Definition** — Give a dictionary-style entry: the word, pronunciation in IPA (if it's an English word), part of speech, and a concise definition in one sentence.\n\n2. **In context** — Explain how the word is used in the given passage. Consider the author's intent, tone, or any literary/idiomatic significance. Keep it to 2–3 sentences.\n\nIf the selection is a proper noun (person, place, historical event), replace the dictionary definition with a brief factual identification, then explain its relevance in context.\n\nDo not use headers or labels like \"Definition:\" or \"In context:\". Separate the two parts with a line break. Be concise.");
}

/// Whether `s` holds no `]`.
pub open spec fn no_close(s: Seq<char>) -> bool {
    forall|i: int| 0 <= i < s.len() ==> #[trigger] s[i] != ']'
}

proof fn lemma_no_close_concat(a: Seq<char>, b: Seq<char>)
    requires
        no_close(a),
        no_close(b),
    ensures
        no_close(a + b),
{
    assert forall|i: int| 0 <= i < (a + b).len() implies #[trigger] (a + b)[i] != ']' by {
        if i < a.len() {
            assert((a + b)[i] == a[i]);
        } else {
            assert((a + b)[i] == b[i - a.len()]);
        }
    }
}

/// The marker opens with `[` and closes with `]`, so between a text with no
/// `[` and one with no `]` it can only occur inside what stands between.
proof fn lemma_marker_inside(a: Seq<char>, n: Seq<char>, b: Seq<char>)
    requires
        no_bracket(a),
        no_close(b),
        has_infix(a + n + b, LOOKUP_TRANSLATION_MARKER@),
    ensures
        has_infix(n, LOOKUP_TRANSLATION_MARKER@),
{
    reveal_strlit("[[QUILL_TRANSLATION]]");
    let m = LOOKUP_TRANSLATION_MARKER@;
    let s = a + n + b;
    let i = choose|i: int| 0 <= i && i + m.len() <= s.len() && #[trigger] s.subrange(i, i + m.len()) == m;
    assert(s.subrange(i, i + m.len())[0] == s[i]);
    assert(m[0] == '[');
    if i < a.len() {
        assert(s[i] == a[i]);
    }
    let j = i + m.len() - 1;
    assert(s.subrange(i, i + m.len())[m.len() - 1] == s[j]);
    assert(m[m.len() - 1] == ']');
    if j >= a.len() + n.len() {
        assert(s[j] == b[j - a.len() - n.len()]);
    }
    let k = i - a.len();
    assert(n.subrange(k, k + m.len()) =~= s.subrange(i, i + m.len()));
    lemma_infix_at(n, m, k);
}

/// A known code's display name never holds the marker, and an unknown code
/// is shown as it is.
proof fn lemma_language_name_marker(code: Seq<char>)
    ensures
        has_infix(language_name_spec(code), LOOKUP_TRANSLATION_MARKER@) ==> has_infix(code, LOOKUP_TRANSLATION_MARKER@),
{
    reveal_strlit("zh");
    reveal_strlit("ja");
    reveal_strlit("ko");
    reveal_strlit("es");
    reveal_strlit("fr");
    reveal_strlit("de");
    reveal_strlit("Chinese (Simplified)");
    reveal_strlit("Japanese");
    reveal_strlit("Korean");
    reveal_strlit("Spanish");
    reveal_strlit("French");
    reveal_strlit("German");
    let name = language_name_spec(code);
    if name != code {
        assert(no_bracket(name));
        lemma_no_bracket_no_marker(name);
    }
}

/// The lookup prompt asks for the marked translation gloss exactly when a
/// gloss is wanted: the kind is not `context`, a translation is asked for,
/// and the gloss language is set and differs from the answer language.
/// (Where no gloss is wanted, an answer-language code that itself spells
/// the marker is left out: an unknown code is written into the prompt as
/// it is.)
pub proof fn law_lookup_marker_iff_gloss(kind: Seq<char>, language: Seq<char>, gloss: Seq<char>, show: bool)
    requires
        (kind == "context"@ || !shows_translation(language, gloss, show)) ==> !has_infix(
            language,
            LOOKUP_TRANSLATION_MARKER@,
        ),
    ensures
        has_infix(lookup_system_prompt_spec(kind, language, gloss, show), LOOKUP_TRANSLATION_MARKER@)
            <==> (kind != "context"@ && shows_translation(language, gloss, show)),
{
    let p = lookup_system_prompt_spec(kind, language, gloss, show);
    let m = LOOKUP_TRANSLATION_MARKER@;
    let name = language_name_spec(language);
    reveal_strlit("definition");
    reveal_strlit("context");
    assert("definition"@.len() != "context"@.len());
    lemma_fixed_texts_no_bracket();
    lemma_fixed_texts_no_close();
    lemma_language_name_marker(language);
    let ctx = context_language_prefix_spec(language);
    let dl = definition_language_prefix_spec(language, gloss, show);
    let tp = translation_prefix_spec(language, gloss, show);
    if kind == "context"@ || !shows_translation(language, gloss, show) {
        let body = if kind == "context"@ {
            CONTEXT_BODY@
        } else if kind == "definition"@ {
            DEFINITION_BODY@
        } else {
            FULL_BODY@
        };
        if language == "en"@ {
            if kind != "context"@ {
                assert(tp + dl =~= dl);
            }
            assert(p =~= body);
            lemma_no_bracket_no_marker(p);
        } else {
            let lead = if kind != "context"@ && shows_translation(language, gloss, show) {
                AFTER_FIRST_LINE_RESPOND_IN@
            } else {
                RESPOND_IN@
            };
            lemma_no_close_concat(PARAGRAPH_END@, body);
            if kind != "context"@ {
                assert(tp + dl =~= dl);
            }
            assert(p =~= lead + name + (PARAGRAPH_END@ + body));
            if has_infix(p, m) {
                lemma_marker_inside(lead, name, PARAGRAPH_END@ + body);
            }
        }
    } else {
        let body = if kind == "definition"@ { DEFINITION_BODY@ } else { FULL_BODY@ };
        let head = TRANSLATION_PREFIX_HEAD@ + language_name_spec(gloss) + TRANSLATION_PREFIX_MID@;
        let rest = TRANSLATION_PREFIX_TAIL@ + dl + body;
        assert(p =~= head + m + rest);
        let i = head.len() as int;
        assert((head + m + rest).subrange(i, i + m.len()) =~= m);
        assert(p.subrange(i, i + m.len()) == m);
    }
}

} // verus!

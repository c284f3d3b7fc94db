//! The reading-assistant commands up to the network: from the settings a
//! command read, the stored API key and the user's request, either the
//! refusal the frontend shows or everything the streaming call needs.
use vstd::prelude::*;

use crate::prompts::{
    chat_messages, chat_system_content, chat_system_spec, credentials, event_name,
    explain_system_prompt, explain_system_prompt_spec, explain_user_content,
    explain_user_content_spec, fits, lang_display_name_spec, lookup_kind, lookup_max_tokens,
    lookup_max_tokens_spec, lookup_system_prompt, lookup_system_prompt_spec, lookup_user_content,
    lookup_user_content_spec, or_default, stream_backend, stream_backend_spec, system_and_user,
    system_user_messages, title_messages, title_snippet_ok, title_system_spec, title_user_spec,
    translate_system_prompt, translate_system_spec, uses_oauth_spec, AiRequestError, AiSettings,
    ChatMessage, Credentials, StreamBackend,
};
use crate::text::{owned, str_eq, trim, trim_spec};

verus! {

/// A request ready to stream: where it goes, how it authenticates, the
/// model, the messages, the event channel the answer is emitted on, and
/// the output budget when there is one.
#[derive(Debug)]
pub struct StreamPlan {
    pub backend: StreamBackend,
    pub credentials: Credentials,
    pub model: String,
    pub messages: Vec<ChatMessage>,
    pub event: String,
    pub max_tokens: Option<u32>,
}

/// A provider other than Ollama, outside the OpenAI OAuth path, with no
/// stored key: such a request cannot be sent.
pub open spec fn key_missing(s: AiSettings, key: Seq<char>) -> bool {
    !uses_oauth_spec(s) && key.len() == 0 && s.provider@ != "ollama"@
}

/// The plan goes where the settings route it, with their model, and
/// authenticates by OAuth on the OpenAI OAuth path, else with the key.
pub open spec fn routed(s: AiSettings, key: Seq<char>, p: StreamPlan) -> bool {
    &&& stream_backend_spec(s, p.backend)
    &&& p.model@ == s.model@
    &&& if uses_oauth_spec(s) {
        p.credentials is OAuth
    } else {
        p.credentials matches Credentials::ApiKey(k) && k@ == key
    }
}

/// A word lookup that asks for a translation gloss without a gloss language.
pub open spec fn gloss_missing(show_translation: Seq<char>, gloss_language: Seq<char>) -> bool {
    show_translation == "true"@ && trim_spec(gloss_language).len() == 0
}

fn route(settings: &AiSettings, creds: Credentials, messages: Vec<ChatMessage>, event: String, max_tokens: Option<u32>) -> (p: StreamPlan)
    ensures
        stream_backend_spec(*settings, p.backend),
        p.model@ == settings.model@,
        p.credentials == creds,
        p.messages == messages,
        p.event == event,
        p.max_tokens == max_tokens,
{
    StreamPlan {
        backend: stream_backend(settings),
        credentials: creds,
        model: settings.model.clone(),
        messages,
        event,
        max_tokens,
    }
}

/// `ai_lookup`: a word or phrase explained in its sentence. A gloss asked
/// for without a gloss language is refused first, then a missing key; the
/// prompt follows the lookup kind (`full` by default) and answers in
/// `language`, glossing into the trimmed gloss language when `show_translation`
/// is `true`; the budget follows the kind; the answer streams on
/// `ai-lookup-chunk-<request id>`.
pub fn plan_ai_lookup(
    settings: &AiSettings,
    stored_key: String,
    language: &str,
    gloss_language: &str,
    show_translation: &str,
    word: &str,
    sentence: &str,
    book_title: Option<&str>,
    chapter: Option<&str>,
    request_id: &str,
    kind: Option<String>,
) -> (r: Result<StreamPlan, AiRequestError>)
    ensures
        gloss_missing(show_translation@, gloss_language@) ==> r matches Err(
            AiRequestError::LookupTranslationLanguageNotConfigured,
        ),
        !gloss_missing(show_translation@, gloss_language@) && key_missing(*settings, stored_key@)
            ==> r matches Err(AiRequestError::NotConfigured),
        !gloss_missing(show_translation@, gloss_language@) && !key_missing(*settings, stored_key@)
            ==> (r matches Ok(p) && routed(*settings, stored_key@, p) && system_and_user(
            lookup_system_prompt_spec(
                or_default(kind, "full"@),
                language@,
                trim_spec(gloss_language@),
                show_translation@ == "true"@,
            ),
            lookup_user_content_spec(word@, sentence@, book_title, chapter),
            p.messages@,
        ) && p.event@ == "ai-lookup-chunk-"@ + request_id@ && p.max_tokens == Some(
            lookup_max_tokens_spec(or_default(kind, "full"@)),
        )),
{
    let show = str_eq(show_translation, "true");
    let gloss = trim(gloss_language);
    if show && gloss.as_str().is_empty() {
        return Err(AiRequestError::LookupTranslationLanguageNotConfigured);
    }
    let creds = match credentials(settings, stored_key, true) {
        Ok(c) => c,
        Err(e) => return Err(e),
    };
    let kind = lookup_kind(kind);
    let system = lookup_system_prompt(kind.as_str(), language, gloss.as_str(), show);
    let user = lookup_user_content(word, sentence, book_title, chapter);
    let messages = system_user_messages(system, user);
    let event = event_name("ai-lookup-chunk-", request_id);
    let max_tokens = lookup_max_tokens(kind.as_str());
    Ok(route(settings, creds, messages, event, Some(max_tokens)))
}

/// `ai_explain`: a passage explained in context, refused without a key;
/// no output budget, so the answer is never cut mid-sentence; it streams
/// on the lookup channel `ai-lookup-chunk-<request id>`.
pub fn plan_ai_explain(
    settings: &AiSettings,
    stored_key: String,
    language: &str,
    passage: &str,
    surrounding: Option<&str>,
    book_title: Option<&str>,
    chapter: Option<&str>,
    request_id: &str,
) -> (r: Result<StreamPlan, AiRequestError>)
    ensures
        key_missing(*settings, stored_key@) ==> r matches Err(AiRequestError::NotConfigured),
        !key_missing(*settings, stored_key@) ==> (r matches Ok(p) && routed(*settings, stored_key@, p)
            && system_and_user(
            explain_system_prompt_spec(language@),
            explain_user_content_spec(passage@, surrounding, book_title, chapter),
            p.messages@,
        ) && p.event@ == "ai-lookup-chunk-"@ + request_id@ && p.max_tokens is None),
{
    let creds = match credentials(settings, stored_key, true) {
        Ok(c) => c,
        Err(e) => return Err(e),
    };
    let system = explain_system_prompt(language);
    let user = explain_user_content(passage, surrounding, book_title, chapter);
    let messages = system_user_messages(system, user);
    let event = event_name("ai-lookup-chunk-", request_id);
    Ok(route(settings, creds, messages, event, None))
}

/// `ai_generate_title`: a short title for a chat exchange. It is never
/// refused (an empty key is sent as is); it quotes at most 200 bytes of
/// each side, is capped at 32 tokens and streams on
/// `ai-title-chunk-<request id>`.
pub fn plan_ai_generate_title(
    settings: &AiSettings,
    stored_key: String,
    language: &str,
    user_message: &str,
    assistant_message: &str,
    request_id: &str,
) -> (p: StreamPlan)
    requires
        fits(user_message@),
        fits(assistant_message@),
        title_snippet_ok(user_message@),
        title_snippet_ok(assistant_message@),
    ensures
        routed(*settings, stored_key@, p),
        system_and_user(
            title_system_spec(language@),
            title_user_spec(user_message@, assistant_message@),
            p.messages@,
        ),
        p.event@ == "ai-title-chunk-"@ + request_id@,
        p.max_tokens == Some(32u32),
{
    let creds = match credentials(settings, stored_key, false) {
        Ok(c) => c,
        Err(_) => {
            // Without a required key, `credentials` refuses nothing.
            proof {
                assert(false);
            }
            Credentials::OAuth
        },
    };
    let messages = title_messages(user_message, assistant_message, language);
    let event = event_name("ai-title-chunk-", request_id);
    route(settings, creds, messages, event, Some(32))
}

/// The fixed channel the book chat streams on.
pub const CHAT_EVENT: &'static str = "ai-stream-chunk";

/// `ai_chat`: the conversation so far behind a system message about the
/// book being read, refused without a key; no output budget; it streams
/// on `ai-stream-chunk`.
pub fn plan_ai_chat(
    settings: &AiSettings,
    stored_key: String,
    language: &str,
    history: Vec<ChatMessage>,
    book_title: Option<&str>,
    book_author: Option<&str>,
    current_chapter: Option<&str>,
) -> (r: Result<StreamPlan, AiRequestError>)
    ensures
        key_missing(*settings, stored_key@) ==> r matches Err(AiRequestError::NotConfigured),
        !key_missing(*settings, stored_key@) ==> (r matches Ok(p) && routed(*settings, stored_key@, p)
            && p.messages@.len() == history@.len() + 1 && p.messages@[0].role@ == "system"@
            && p.messages@[0].content@ == chat_system_spec(
            book_title,
            book_author,
            current_chapter,
            language@,
        ) && p.messages@.skip(1) == history@ && p.event@ == CHAT_EVENT@ && p.max_tokens is None),
{
    let creds = match credentials(settings, stored_key, true) {
        Ok(c) => c,
        Err(e) => return Err(e),
    };
    let system = chat_system_content(book_title, book_author, current_chapter, language);
    let messages = chat_messages(system, history);
    Ok(route(settings, creds, messages, owned(CHAT_EVENT), None))
}

/// `ai_translate_passage`: the selection translated into `target_language`
/// (a code, named in the prompt), with the surrounding paragraph as context
/// when it is longer than the selection; refused without a key; it streams
/// on `ai-translate-chunk-<request id>`.
pub fn plan_ai_translate(
    settings: &AiSettings,
    stored_key: String,
    target_language: &str,
    text: &str,
    context: Option<&str>,
    request_id: &str,
) -> (r: Result<StreamPlan, AiRequestError>)
    requires
        fits(text@),
        context matches Some(c) ==> fits(c@),
    ensures
        key_missing(*settings, stored_key@) ==> r matches Err(AiRequestError::NotConfigured),
        !key_missing(*settings, stored_key@) ==> (r matches Ok(p) && routed(*settings, stored_key@, p)
            && system_and_user(
            translate_system_spec(lang_display_name_spec(target_language@), text@, context),
            text@,
            p.messages@,
        ) && p.event@ == "ai-translate-chunk-"@ + request_id@ && p.max_tokens is None),
{
    let creds = match credentials(settings, stored_key, true) {
        Ok(c) => c,
        Err(e) => return Err(e),
    };
    let system = translate_system_prompt(target_language, text, context);
    let messages = system_user_messages(system, owned(text));
    let event = event_name("ai-translate-chunk-", request_id);
    Ok(route(settings, creds, messages, event, None))
}

} // verus!

//! Server-sent-event streams of the model backends: the line buffer the
//! network chunks accumulate in, the `data: ` payload of a line, what each
//! backend's events mean, and the request pieces built from the messages.
use vstd::prelude::*;

use crate::prompts::ChatMessage;
use crate::text::{is_prefix, owned, starts_with, str_eq, trim, trim_spec};

verus! {

/// The string found at a JSON pointer in the document `text` parses to:
/// `None` when the text is not JSON or no string sits there. The pointer
/// syntax and JSON grammar are serde_json's and are named here, not
/// restated.
pub uninterp spec fn json_pointer_str(text: Seq<char>, pointer: Seq<char>) -> Option<Seq<char>>;

/// Calls `serde_json::from_str` for a `Value`, then `Value::pointer`, and
/// keeps the result when it is a JSON string.
#[verifier::external_body]
pub(crate) fn json_str_at(text: &str, pointer: &str) -> (r: Option<String>)
    ensures
        match r {
            Some(s) => json_pointer_str(text@, pointer@) == Some(s@),
            None => json_pointer_str(text@, pointer@) is None,
        },
{
    let v: serde_json::Value = match serde_json::from_str(text) {
        Ok(v) => v,
        Err(_) => return None,
    };
    match v.pointer(pointer) {
        Some(serde_json::Value::String(s)) => Some(s.clone()),
        _ => None,
    }
}

/// The index of the first `\n` in `s`, if any.
pub open spec fn first_newline(s: Seq<char>) -> Option<int> {
    if exists|k: int| 0 <= k < s.len() && s[k] == '\n' {
        Some(choose|k: int| 0 <= k < s.len() && s[k] == '\n' && forall|j: int| 0 <= j < k ==> s[j] != '\n')
    } else {
        None
    }
}

/// Received text not yet split into lines.
pub struct SseBuffer {
    buf: String,
}

impl View for SseBuffer {
    type V = Seq<char>;

    closed spec fn view(&self) -> Seq<char> {
        self.buf@
    }
}

impl SseBuffer {
    /// Nothing received.
    pub fn new() -> (b: Self)
        ensures
            b@.len() == 0,
    {
        SseBuffer { buf: String::new() }
    }

    /// Appends a received chunk.
    pub fn push(&mut self, text: &str)
        ensures
            final(self)@ == old(self)@ + text@,
    {
        self.buf.append(text);
    }

    /// Takes the first complete line off the buffer, trimmed of
    /// whitespace; `None`, leaving the buffer as it is, while no newline
    /// has arrived. Nothing else is lost: the raw line, its newline and
    /// what stays make up the old buffer.
    pub fn next_line(&mut self) -> (r: Option<String>)
        ensures
            match r {
                Some(line) => exists|k: int| {
                    &&& 0 <= k < old(self)@.len()
                    &&& old(self)@[k] == '\n'
                    &&& (forall|j: int| 0 <= j < k ==> old(self)@[j] != '\n')
                    &&& line@ == trim_spec(old(self)@.subrange(0, k))
                    &&& final(self)@ == old(self)@.subrange(k + 1, old(self)@.len() as int)
                },
                None => final(self)@ == old(self)@ && forall|j: int| 0 <= j < old(self)@.len() ==> old(self)@[j] != '\n',
            },
    {
        let n = self.buf.as_str().unicode_len();
        let mut k: usize = 0;
        while k < n
            invariant
                self.buf@ == old(self)@,
                n == self.buf@.len(),
                k <= n,
                forall|j: int| 0 <= j < k ==> self.buf@[j] != '\n',
            decreases n - k,
        {
            if self.buf.as_str().get_char(k) == '\n' {
                let line = trim(self.buf.as_str().substring_char(0, k));
                let rest = owned(self.buf.as_str().substring_char(k + 1, n));
                self.buf = rest;
                proof {
                    let kk = k as int;
                    assert(0 <= kk < old(self)@.len() && old(self)@[kk] == '\n'
                        && (forall|j: int| 0 <= j < kk ==> old(self)@[j] != '\n')
                        && line@ == trim_spec(old(self)@.subrange(0, kk))
                        && self@ == old(self)@.subrange(kk + 1, old(self)@.len() as int));
                }
                return Some(line);
            }
            k = k + 1;
        }
        None
    }
}

/// Taking lines off a buffer loses nothing: the old buffer is the raw
/// line, its newline, and what stays.
pub proof fn law_sse_lines_lossless(old_buf: Seq<char>, k: int)
    requires
        0 <= k < old_buf.len(),
        old_buf[k] == '\n',
    ensures
        old_buf == old_buf.subrange(0, k) + seq!['\n'] + old_buf.subrange(k + 1, old_buf.len() as int),
{
    assert(old_buf =~= old_buf.subrange(0, k) + seq!['\n'] + old_buf.subrange(k + 1, old_buf.len() as int));
}

/// The prefix of an event's payload line.
pub const SSE_DATA_PREFIX: &'static str = "data: ";

/// The payload of a `data: ` line.
pub open spec fn sse_payload_spec(line: Seq<char>) -> Option<Seq<char>> {
    if is_prefix(SSE_DATA_PREFIX@, line) {
        Some(line.subrange(SSE_DATA_PREFIX@.len() as int, line.len() as int))
    } else {
        None
    }
}

/// The payload after `data: `, or `None` for any other line.
pub fn sse_payload(line: &str) -> (r: Option<String>)
    ensures
        match r {
            Some(p) => sse_payload_spec(line@) == Some(p@),
            None => sse_payload_spec(line@) is None,
        },
{
    proof {
        reveal_strlit("data: ");
    }
    if starts_with(line, SSE_DATA_PREFIX) {
        let n = line.unicode_len();
        Some(owned(line.substring_char(6, n)))
    } else {
        None
    }
}

/// What one event of a stream means for the answer.
#[derive(Debug)]
pub enum StreamEvent {
    /// More answer text.
    Delta(String),
    /// The answer is complete.
    Done,
    /// Nothing for the answer (keep-alives, other event types, text that
    /// is not JSON).
    Ignore,
}

/// The event a payload stands for, in spec terms.
pub enum EventSpec {
    Delta(Seq<char>),
    Done,
    Ignore,
}

/// An event as its spec value.
pub open spec fn event_view(e: StreamEvent) -> EventSpec {
    match e {
        StreamEvent::Delta(d) => EventSpec::Delta(d@),
        StreamEvent::Done => EventSpec::Done,
        StreamEvent::Ignore => EventSpec::Ignore,
    }
}

/// The string at `pointer` as answer text, if there is one.
pub open spec fn delta_at(data: Seq<char>, pointer: Seq<char>) -> EventSpec {
    match json_pointer_str(data, pointer) {
        Some(d) => EventSpec::Delta(d),
        None => EventSpec::Ignore,
    }
}

/// Anthropic's messages stream: `content_block_delta` carries text at
/// `delta.text`; `message_stop` ends the answer.
pub open spec fn anthropic_event_spec(data: Seq<char>) -> EventSpec {
    match json_pointer_str(data, "/type"@) {
        Some(t) => if t == "content_block_delta"@ {
            delta_at(data, "/delta/text"@)
        } else if t == "message_stop"@ {
            EventSpec::Done
        } else {
            EventSpec::Ignore
        },
        None => EventSpec::Ignore,
    }
}

/// OpenAI-compatible chat completions: `[DONE]` ends the answer; text sits
/// at `choices[0].delta.content`.
pub open spec fn compatible_event_spec(data: Seq<char>) -> EventSpec {
    if data == "[DONE]"@ {
        EventSpec::Done
    } else {
        delta_at(data, "/choices/0/delta/content"@)
    }
}

/// OpenAI's Responses API: `response.output_text.delta` carries text at
/// `delta`; `response.completed` ends the answer.
pub open spec fn responses_event_spec(data: Seq<char>) -> EventSpec {
    match json_pointer_str(data, "/type"@) {
        Some(t) => if t == "response.output_text.delta"@ {
            delta_at(data, "/delta"@)
        } else if t == "response.completed"@ {
            EventSpec::Done
        } else {
            EventSpec::Ignore
        },
        None => EventSpec::Ignore,
    }
}

/// The text at `pointer` as an event.
fn delta_event(data: &str, pointer: &str) -> (e: StreamEvent)
    ensures
        event_view(e) == delta_at(data@, pointer@),
{
    match json_str_at(data, pointer) {
        Some(d) => StreamEvent::Delta(d),
        None => StreamEvent::Ignore,
    }
}

/// Decodes one Anthropic payload.
pub fn anthropic_event(data: &str) -> (e: StreamEvent)
    ensures
        event_view(e) == anthropic_event_spec(data@),
{
    match json_str_at(data, "/type") {
        Some(t) => {
            if str_eq(t.as_str(), "content_block_delta") {
                delta_event(data, "/delta/text")
            } else if str_eq(t.as_str(), "message_stop") {
                StreamEvent::Done
            } else {
                StreamEvent::Ignore
            }
        },
        None => StreamEvent::Ignore,
    }
}

/// Decodes one OpenAI-compatible payload.
pub fn compatible_event(data: &str) -> (e: StreamEvent)
    ensures
        event_view(e) == compatible_event_spec(data@),
{
    if str_eq(data, "[DONE]") {
        StreamEvent::Done
    } else {
        delta_event(data, "/choices/0/delta/content")
    }
}

/// Decodes one Responses API payload.
pub fn responses_event(data: &str) -> (e: StreamEvent)
    ensures
        event_view(e) == responses_event_spec(data@),
{
    match json_str_at(data, "/type") {
        Some(t) => {
            if str_eq(t.as_str(), "response.output_text.delta") {
                delta_event(data, "/delta")
            } else if str_eq(t.as_str(), "response.completed") {
                StreamEvent::Done
            } else {
                StreamEvent::Ignore
            }
        },
        None => StreamEvent::Ignore,
    }
}

/// Which wire protocol a stream speaks.
#[derive(Debug, Clone, Copy, PartialEq, Eq, Structural)]
pub enum StreamProtocol {
    Anthropic,
    Compatible,
    Responses,
}

/// What a received line means: only `data: ` lines carry events.
pub open spec fn line_event_spec(p: StreamProtocol, line: Seq<char>) -> EventSpec {
    match sse_payload_spec(line) {
        Some(data) => match p {
            StreamProtocol::Anthropic => anthropic_event_spec(data),
            StreamProtocol::Compatible => compatible_event_spec(data),
            StreamProtocol::Responses => responses_event_spec(data),
        },
        None => EventSpec::Ignore,
    }
}

/// Decodes one trimmed line of a stream.
pub fn decode_line(p: StreamProtocol, line: &str) -> (e: StreamEvent)
    ensures
        event_view(e) == line_event_spec(p, line@),
{
    match sse_payload(line) {
        Some(data) => match p {
            StreamProtocol::Anthropic => anthropic_event(data.as_str()),
            StreamProtocol::Compatible => compatible_event(data.as_str()),
            StreamProtocol::Responses => responses_event(data.as_str()),
        },
        None => StreamEvent::Ignore,
    }
}

/// A `data: ` line decodes by the protocol of its stream, read from the
/// JSON it carries: Anthropic's `content_block_delta` gives the text at
/// `delta.text` and `message_stop` ends the answer; a chat-completions
/// stream ends on `[DONE]` and otherwise gives the text at
/// `choices[0].delta.content`; the Responses API's
/// `response.output_text.delta` gives the text at `delta` and
/// `response.completed` ends the answer. Any other line is ignored.
pub proof fn law_stream_line_by_protocol(data: Seq<char>, line: Seq<char>)
    ensures
        ({
            let l = "data: "@ + data;
            let ty = json_pointer_str(data, "/type"@);
            &&& ty == Some("response.output_text.delta"@) ==> line_event_spec(StreamProtocol::Responses, l) == (
            match json_pointer_str(data, "/delta"@) {
                Some(d) => EventSpec::Delta(d),
                None => EventSpec::Ignore,
            })
            &&& ty == Some("response.completed"@) ==> line_event_spec(StreamProtocol::Responses, l) == EventSpec::Done
            &&& (ty is None || (ty != Some("response.output_text.delta"@) && ty != Some("response.completed"@)))
                ==> line_event_spec(StreamProtocol::Responses, l) == EventSpec::Ignore
            &&& ty == Some("content_block_delta"@) ==> line_event_spec(StreamProtocol::Anthropic, l) == (
            match json_pointer_str(data, "/delta/text"@) {
                Some(d) => EventSpec::Delta(d),
                None => EventSpec::Ignore,
            })
            &&& ty == Some("message_stop"@) ==> line_event_spec(StreamProtocol::Anthropic, l) == EventSpec::Done
            &&& (ty is None || (ty != Some("content_block_delta"@) && ty != Some("message_stop"@)))
                ==> line_event_spec(StreamProtocol::Anthropic, l) == EventSpec::Ignore
            &&& data == "[DONE]"@ ==> line_event_spec(StreamProtocol::Compatible, l) == EventSpec::Done
            &&& data != "[DONE]"@ ==> line_event_spec(StreamProtocol::Compatible, l) == (
            match json_pointer_str(data, "/choices/0/delta/content"@) {
                Some(d) => EventSpec::Delta(d),
                None => EventSpec::Ignore,
            })
        }),
        !is_prefix("data: "@, line) ==> line_event_spec(StreamProtocol::Responses, line) == EventSpec::Ignore
            && line_event_spec(StreamProtocol::Anthropic, line) == EventSpec::Ignore
            && line_event_spec(StreamProtocol::Compatible, line) == EventSpec::Ignore,
{
    reveal_strlit("data: ");
    let l = "data: "@ + data;
    assert(is_prefix(SSE_DATA_PREFIX@, l)) by {
        assert(l.subrange(0, 6) =~= "data: "@);
    }
    assert(l.subrange(6, l.len() as int) =~= data);
    assert(sse_payload_spec(l) == Some(data));
    reveal_strlit("response.output_text.delta");
    reveal_strlit("response.completed");
    reveal_strlit("content_block_delta");
    reveal_strlit("message_stop");
    assert("response.output_text.delta"@.len() != "response.completed"@.len());
    assert("content_block_delta"@.len() != "message_stop"@.len());
}

/// The contents of the system messages, joined by blank lines.
pub open spec fn system_text_spec(msgs: Seq<ChatMessage>) -> Seq<char>
    decreases msgs.len(),
{
    if msgs.len() == 0 {
        Seq::empty()
    } else {
        let rest = system_text_spec(msgs.drop_last());
        let m = msgs.last();
        if m.role@ == "system"@ {
            if !has_system(msgs.drop_last()) {
                m.content@
            } else {
                rest + "\n\n"@ + m.content@
            }
        } else {
            rest
        }
    }
}

/// Without system messages there is no system text.
proof fn lemma_no_system_no_text(msgs: Seq<ChatMessage>)
    requires
        !has_system(msgs),
    ensures
        system_text_spec(msgs).len() == 0,
    decreases msgs.len(),
{
    if msgs.len() > 0 {
        let pre = msgs.drop_last();
        assert(!has_system(pre)) by {
            if has_system(pre) {
                let j = choose|j: int| 0 <= j < pre.len() && #[trigger] pre[j].role@ == "system"@;
                assert(msgs[j] == pre[j]);
            }
        }
        assert(msgs[msgs.len() - 1] == msgs.last());
        lemma_no_system_no_text(pre);
    }
}

/// Whether any message is a system message.
pub open spec fn has_system(msgs: Seq<ChatMessage>) -> bool {
    exists|i: int| 0 <= i < msgs.len() && #[trigger] msgs[i].role@ == "system"@
}

/// The non-system messages, in order.
pub open spec fn conversation_spec(msgs: Seq<ChatMessage>) -> Seq<ChatMessage> {
    msgs.filter(|m: ChatMessage| m.role@ != "system"@)
}

/// Splits the messages the way the Anthropic and Responses APIs want them:
/// the system messages' contents joined by a blank line, and the rest in
/// order (as role and content copies).
pub fn split_system(msgs: &Vec<ChatMessage>) -> (r: (String, Vec<ChatMessage>))
    ensures
        r.0@ == system_text_spec(msgs@),
        r.1@.len() == conversation_spec(msgs@).len(),
        forall|i: int| 0 <= i < r.1@.len() ==> (#[trigger] r.1@[i]).role@ == conversation_spec(msgs@)[i].role@
            && r.1@[i].content@ == conversation_spec(msgs@)[i].content@,
{
    let mut system = String::new();
    let mut any_system = false;
    let mut rest: Vec<ChatMessage> = Vec::new();
    let mut i: usize = 0;
    while i < msgs.len()
        invariant
            i <= msgs.len(),
            system@ == system_text_spec(msgs@.subrange(0, i as int)),
            any_system == has_system(msgs@.subrange(0, i as int)),
            rest@.len() == conversation_spec(msgs@.subrange(0, i as int)).len(),
            forall|j: int| 0 <= j < rest@.len() ==> (#[trigger] rest@[j]).role@ == conversation_spec(msgs@.subrange(0, i as int))[j].role@
                && rest@[j].content@ == conversation_spec(msgs@.subrange(0, i as int))[j].content@,
        decreases msgs.len() - i,
    {
        let ghost pre = msgs@.subrange(0, i as int);
        let ghost next = msgs@.subrange(0, i + 1);
        let m = &msgs[i];
        proof {
            assert(next =~= pre.push(*m));
            assert(next.drop_last() =~= pre);
            pre.lemma_filter_push(*m, |x: ChatMessage| x.role@ != "system"@);
            assert(next.last() == *m);
            if !any_system {
                lemma_no_system_no_text(pre);
            }
            assert(has_system(next) == (any_system || m.role@ == "system"@)) by {
                if m.role@ == "system"@ {
                    assert(next[i as int] == *m);
                }
                if any_system {
                    let j = choose|j: int| 0 <= j < pre.len() && #[trigger] pre[j].role@ == "system"@;
                    assert(next[j] == pre[j]);
                }
                if has_system(next) {
                    let j = choose|j: int| 0 <= j < next.len() && #[trigger] next[j].role@ == "system"@;
                    if j < i {
                        assert(pre[j] == next[j]);
                    }
                }
            }
        }
        if str_eq(m.role.as_str(), "system") {
            if any_system {
                system.append("\n\n");
            }
            system.append(m.content.as_str());
            any_system = true;
        } else {
            rest.push(ChatMessage { role: owned(m.role.as_str()), content: owned(m.content.as_str()) });
        }
        i = i + 1;
    }
    assert(msgs@.subrange(0, msgs@.len() as int) =~= msgs@);
    (system, rest)
}

/// `base` without its trailing slashes (`str::trim_end_matches('/')`).
pub open spec fn trim_trailing_slashes(base: Seq<char>) -> Seq<char>
    decreases base.len(),
{
    if base.len() > 0 && base.last() == '/' {
        trim_trailing_slashes(base.drop_last())
    } else {
        base
    }
}

/// An endpoint under a base URL: the base without trailing slashes, then
/// `path`.
pub fn endpoint_url(base: &str, path: &str) -> (r: String)
    ensures
        r@ == trim_trailing_slashes(base@) + path@,
{
    let mut end = base.unicode_len();
    assert(base@.subrange(0, end as int) =~= base@);
    while end > 0 && base.get_char(end - 1) == '/'
        invariant
            end <= base@.len(),
            trim_trailing_slashes(base@) == trim_trailing_slashes(base@.subrange(0, end as int)),
        decreases end,
    {
        let ghost cur = base@.subrange(0, end as int);
        assert(cur.drop_last() =~= base@.subrange(0, end - 1));
        assert(cur.last() == '/');
        end = end - 1;
    }
    let mut out = owned(base.substring_char(0, end));
    out.append(path);
    out
}

} // verus!

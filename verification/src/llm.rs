//! LLM chat: the system prompt, the framing of streamed provider replies,
//! and which part of a streamed event carries the generated text.
use vstd::prelude::*;
use crate::llm_client::{ChatMessage, trim_trailing_slashes, endpoint_url};
use crate::openid::{ascii_lower, eq_ignore_ascii_case, eq_ignore_ascii_case_chars, opt_str_view};
use crate::prompt_injection::{
    detect_injection_attempt, injection_matches, injection_reason, injection_score,
    sanitize_user_input, sanitized, INJECTION_SCORE_THRESHOLD,
};
use crate::text::{
    append_chars, append_str, chars_to_string, replace_all, replace_str, starts_with,
    str_to_chars, trim, trim_exec,
};

verus! {

/// The default system prompt for RAG chat; "{{chunks}}" stands for the
/// retrieved context.
pub const DEFAULT_SYSTEM_PROMPT: &'static str = "You are a helpful assistant that answers questions based on the provided context.

Context:
{{chunks}}

When answering, always cite the specific chunk number (e.g., 'According to Chunk 1' or 'As mentioned in Chunk 2 and Chunk 3') to reference where your information comes from. If the context doesn't contain relevant information to answer the question, say so explicitly.";

/// The prompt used: the custom prompt unless it is missing or blank.
pub open spec fn chosen_prompt(custom_prompt: Option<Seq<char>>) -> Seq<char> {
    match custom_prompt {
        Some(p) => if trim(p).len() > 0 {
            p
        } else {
            DEFAULT_SYSTEM_PROMPT@
        },
        None => DEFAULT_SYSTEM_PROMPT@,
    }
}

/// Builds the effective system prompt: the custom or default prompt with
/// every "{{chunks}}" replaced by the context.
pub fn build_system_prompt(custom_prompt: Option<&str>, context: &str) -> (r: String)
    ensures
        r@ == replace_all(
            chosen_prompt(
                match custom_prompt {
                    Some(p) => Some(p@),
                    None => None,
                },
            ),
            "{{chunks}}"@,
            context@,
        ),
{
    let prompt: &str = match custom_prompt {
        Some(p) => {
            let c = str_to_chars(p);
            let t = trim_exec(c.as_slice());
            if t.len() > 0 {
                p
            } else {
                DEFAULT_SYSTEM_PROMPT
            }
        },
        None => DEFAULT_SYSTEM_PROMPT,
    };
    proof {
        reveal_strlit("{{chunks}}");
    }
    let pc = str_to_chars(prompt);
    let r = replace_str(pc.as_slice(), "{{chunks}}", context);
    chars_to_string(r.as_slice())
}

/// The question put to the model.
pub open spec fn user_prompt(query: Seq<char>) -> Seq<char> {
    "Question: "@ + query
        + "\n\nPlease provide a helpful answer based on the context provided."@
}

/// Builds the user prompt for a query.
pub fn build_user_prompt(query: &str) -> (r: String)
    ensures
        r@ == user_prompt(query@),
{
    let mut out: Vec<char> = Vec::new();
    append_str(&mut out, "Question: ");
    append_str(&mut out, query);
    append_str(&mut out, "\n\nPlease provide a helpful answer based on the context provided.");
    chars_to_string(out.as_slice())
}

/// The two prompts of a chat request.
pub struct ChatPrompts {
    pub system_prompt: String,
    pub user_prompt: String,
}

/// Prepares a chat request. A query that looks like an injection attempt
/// is rejected with "query rejected: <reason>"; otherwise the system prompt
/// carries the retrieved context and the user prompt the sanitized query.
pub fn prepare_chat_prompts(query: &str, context: &str, custom_prompt: Option<&str>) -> (r: Result<
    ChatPrompts,
    String,
>)
    ensures
        r is Err <==> injection_score(query@) >= INJECTION_SCORE_THRESHOLD,
        r matches Err(msg) ==> msg@ == "query rejected: "@ + injection_reason(
            injection_score(query@),
            injection_matches(query@),
        ),
        r matches Ok(p) ==> p.system_prompt@ == replace_all(
            chosen_prompt(opt_str_view(custom_prompt)),
            "{{chunks}}"@,
            context@,
        ) && p.user_prompt@ == user_prompt(sanitized(query@)),
{
    match detect_injection_attempt(query) {
        Some(reason) => {
            let mut out: Vec<char> = Vec::new();
            append_str(&mut out, "query rejected: ");
            append_str(&mut out, reason.as_str());
            Err(chars_to_string(out.as_slice()))
        },
        None => {
            let clean = sanitize_user_input(query);
            let system_prompt = build_system_prompt(custom_prompt, context);
            let user_prompt = build_user_prompt(clean.as_str());
            Ok(ChatPrompts { system_prompt, user_prompt })
        },
    }
}

/// Prepares a streaming chat request: the query goes into the user prompt
/// as it is.
pub fn prepare_stream_prompts(query: &str, context: &str, custom_prompt: Option<&str>) -> (r:
    ChatPrompts)
    ensures
        r.system_prompt@ == replace_all(
            chosen_prompt(opt_str_view(custom_prompt)),
            "{{chunks}}"@,
            context@,
        ),
        r.user_prompt@ == user_prompt(query@),
{
    ChatPrompts {
        system_prompt: build_system_prompt(custom_prompt, context),
        user_prompt: build_user_prompt(query),
    }
}

/// The token limit of a request: 2000 when none is given, and at least 1.
pub fn effective_max_tokens(max_tokens: Option<i32>) -> (r: i32)
    ensures
        r == match max_tokens {
            Some(m) => if m >= 1 {
                m
            } else {
                1
            },
            None => 2000,
        },
{
    match max_tokens {
        Some(m) => if m >= 1 {
            m
        } else {
            1
        },
        None => 2000,
    }
}

/// The providers a chat model can be served by.
#[derive(PartialEq, Eq, Structural, Clone, Copy)]
pub enum LlmProvider {
    Internal,
    OpenAi,
    Cohere,
}

/// The provider a configured provider name selects, compared without case.
/// (Unicode lowercasing maps no non-ASCII character onto a letter of these
/// names, so ASCII case folding decides the same.)
pub open spec fn provider_of(name: Seq<char>) -> Option<LlmProvider> {
    if eq_ignore_ascii_case(name, "internal"@) {
        Some(LlmProvider::Internal)
    } else if eq_ignore_ascii_case(name, "openai"@) {
        Some(LlmProvider::OpenAi)
    } else if eq_ignore_ascii_case(name, "cohere"@) {
        Some(LlmProvider::Cohere)
    } else {
        None
    }
}

/// A provider name selects the same provider whatever its ASCII case.
pub proof fn lemma_provider_ignores_case(a: Seq<char>, b: Seq<char>)
    requires
        eq_ignore_ascii_case(a, b),
    ensures
        provider_of(a) == provider_of(b),
{
    assert forall|n: Seq<char>| eq_ignore_ascii_case(a, n) <==> eq_ignore_ascii_case(b, n) by {
        if eq_ignore_ascii_case(a, n) {
            assert forall|i: int| 0 <= i < b.len() implies ascii_lower(#[trigger] b[i]) == ascii_lower(n[i]) by {
                assert(ascii_lower(a[i]) == ascii_lower(b[i]));
            }
        }
        if eq_ignore_ascii_case(b, n) {
            assert forall|i: int| 0 <= i < a.len() implies ascii_lower(#[trigger] a[i]) == ascii_lower(n[i]) by {
                assert(ascii_lower(a[i]) == ascii_lower(b[i]));
            }
        }
    }
    assert(eq_ignore_ascii_case(a, "internal"@) == eq_ignore_ascii_case(b, "internal"@));
    assert(eq_ignore_ascii_case(a, "openai"@) == eq_ignore_ascii_case(b, "openai"@));
    assert(eq_ignore_ascii_case(a, "cohere"@) == eq_ignore_ascii_case(b, "cohere"@));
}

/// Selects the provider of a model, or fails with "unsupported LLM
/// provider: <name>".
pub fn parse_provider(name: &str) -> (r: Result<LlmProvider, String>)
    ensures
        r matches Ok(p) ==> provider_of(name@) == Some(p),
        r matches Err(msg) ==> provider_of(name@) is None && msg@ == "unsupported LLM provider: "@
            + name@,
{
    let n = str_to_chars(name);
    let internal = str_to_chars("internal");
    let openai = str_to_chars("openai");
    let cohere = str_to_chars("cohere");
    if eq_ignore_ascii_case_chars(n.as_slice(), internal.as_slice()) {
        Ok(LlmProvider::Internal)
    } else if eq_ignore_ascii_case_chars(n.as_slice(), openai.as_slice()) {
        Ok(LlmProvider::OpenAi)
    } else if eq_ignore_ascii_case_chars(n.as_slice(), cohere.as_slice()) {
        Ok(LlmProvider::Cohere)
    } else {
        let mut out: Vec<char> = Vec::new();
        append_str(&mut out, "unsupported LLM provider: ");
        append_chars(&mut out, n.as_slice());
        Err(chars_to_string(out.as_slice()))
    }
}

/// The URL a chat request goes to: the inference service's chat endpoint
/// for the internal provider (its stream endpoint when streaming), and the
/// provider's chat API under its base URL otherwise.
pub open spec fn provider_chat_url_spec(provider: LlmProvider, base_url: Seq<char>, streaming: bool) -> Seq<char> {
    match provider {
        LlmProvider::Internal => trim_trailing_slashes(base_url) + if streaming {
            "/api/chat/stream"@
        } else {
            "/api/chat"@
        },
        LlmProvider::OpenAi => base_url + "/v1/chat/completions"@,
        LlmProvider::Cohere => base_url + "/chat"@,
    }
}

/// Builds the URL a chat request goes to.
pub fn provider_chat_url(provider: LlmProvider, base_url: &str, streaming: bool) -> (r: String)
    ensures
        r@ == provider_chat_url_spec(provider, base_url@, streaming),
{
    match provider {
        LlmProvider::Internal => if streaming {
            endpoint_url(base_url, "/api/chat/stream")
        } else {
            endpoint_url(base_url, "/api/chat")
        },
        LlmProvider::OpenAi => {
            let mut out: Vec<char> = Vec::new();
            append_str(&mut out, base_url);
            append_str(&mut out, "/v1/chat/completions");
            chars_to_string(out.as_slice())
        },
        LlmProvider::Cohere => {
            let mut out: Vec<char> = Vec::new();
            append_str(&mut out, base_url);
            append_str(&mut out, "/chat");
            chars_to_string(out.as_slice())
        },
    }
}

/// The API key of an external provider, or "API key not configured for
/// <provider>" when the model has none.
pub fn require_api_key(api_key: Option<&str>, provider_label: &str) -> (r: Result<String, String>)
    ensures
        match api_key {
            Some(k) => r matches Ok(v) && v@ == k@,
            None => r matches Err(msg) && msg@ == "API key not configured for "@ + provider_label@,
        },
{
    match api_key {
        Some(k) => Ok(k.to_string()),
        None => {
            let mut out: Vec<char> = Vec::new();
            append_str(&mut out, "API key not configured for ");
            append_str(&mut out, provider_label);
            Err(chars_to_string(out.as_slice()))
        },
    }
}

/// The Authorization header value for an API key.
pub fn bearer_authorization(api_key: &str) -> (r: String)
    ensures
        r@ == "Bearer "@ + api_key@,
{
    let mut out: Vec<char> = Vec::new();
    append_str(&mut out, "Bearer ");
    append_str(&mut out, api_key);
    chars_to_string(out.as_slice())
}

/// A message of the chat's history, with its completion status.
pub struct HistoryMessage {
    pub role: String,
    pub content: String,
    pub status: String,
}

/// The role and text of the completed messages of a history, in order.
pub open spec fn completed_history(h: Seq<HistoryMessage>) -> Seq<(Seq<char>, Seq<char>)>
    decreases h.len(),
{
    if h.len() == 0 {
        seq![]
    } else {
        let prev = completed_history(h.drop_last());
        if h.last().status@ == "complete"@ {
            prev.push((h.last().role@, h.last().content@))
        } else {
            prev
        }
    }
}

/// The role and text of each message.
pub open spec fn message_views(v: Seq<ChatMessage>) -> Seq<(Seq<char>, Seq<char>)> {
    v.map_values(|m: ChatMessage| (m.role@, m.content@))
}

/// The messages sent to the inference service: the system prompt, the
/// completed messages of the history, and the user prompt.
pub fn build_internal_messages(system_prompt: &str, history: &[HistoryMessage], user_prompt: &str) -> (r: Vec<ChatMessage>)
    ensures
        message_views(r@) == seq![("system"@, system_prompt@)] + completed_history(history@)
            + seq![("user"@, user_prompt@)],
{
    let mut messages: Vec<ChatMessage> = Vec::new();
    messages.push(ChatMessage { role: "system".to_string(), content: system_prompt.to_string() });
    let mut i: usize = 0;
    while i < history.len()
        invariant
            i <= history.len(),
            message_views(messages@) == seq![("system"@, system_prompt@)] + completed_history(
                history@.take(i as int),
            ),
        decreases history.len() - i,
    {
        let ghost before = messages@;
        assert(history@.take(i + 1).drop_last() =~= history@.take(i as int));
        let m = &history[i];
        if m.status == "complete".to_string() {
            messages.push(ChatMessage { role: m.role.clone(), content: m.content.clone() });
            assert(message_views(messages@) =~= message_views(before).push((m.role@, m.content@)));
        }
        i = i + 1;
    }
    assert(history@.take(history.len() as int) =~= history@);
    let ghost before = messages@;
    messages.push(ChatMessage { role: "user".to_string(), content: user_prompt.to_string() });
    assert(message_views(messages@) =~= message_views(before).push(("user"@, user_prompt@)));
    messages
}

/// The fields of a provider's stream event that carry text: the content of
/// the first choice's delta (OpenAI), and the event type and the delta
/// message's text (Cohere), each when it is a string.
pub struct StreamChunk {
    pub choice_delta_content: Option<String>,
    pub event_type: Option<String>,
    pub delta_message_text: Option<String>,
}

/// The generated text of a provider's stream event: for "openai" the first
/// choice's delta content; for "cohere" the delta message's text of a
/// "content-delta" event; nothing for any other provider name.
pub open spec fn stream_content(provider: Seq<char>, chunk: StreamChunk) -> Option<Seq<char>> {
    if provider == "openai"@ {
        match chunk.choice_delta_content {
            Some(c) => Some(c@),
            None => None,
        }
    } else if provider == "cohere"@ {
        match chunk.event_type {
            Some(t) => if t@ == "content-delta"@ {
                match chunk.delta_message_text {
                    Some(c) => Some(c@),
                    None => None,
                }
            } else {
                None
            },
            None => None,
        }
    } else {
        None
    }
}

/// Extracts the generated text of a provider's stream event.
pub fn extract_stream_content(provider: &str, chunk: &StreamChunk) -> (r: Option<String>)
    ensures
        match r {
            Some(c) => stream_content(provider@, *chunk) == Some(c@),
            None => stream_content(provider@, *chunk) is None,
        },
{
    let p = str_to_chars(provider);
    if crate::text::chars_eq_str(p.as_slice(), "openai") {
        match &chunk.choice_delta_content {
            Some(c) => Some(c.clone()),
            None => None,
        }
    } else if crate::text::chars_eq_str(p.as_slice(), "cohere") {
        match &chunk.event_type {
            Some(t) => {
                let tc = str_to_chars(t.as_str());
                if crate::text::chars_eq_str(tc.as_slice(), "content-delta") {
                    match &chunk.delta_message_text {
                        Some(c) => Some(c.clone()),
                        None => None,
                    }
                } else {
                    None
                }
            },
            None => None,
        }
    } else {
        None
    }
}

/// The complete lines (each ended by '\n', without it) and the unfinished
/// rest of a received stream.
pub open spec fn sse_lines(s: Seq<char>) -> (Seq<Seq<char>>, Seq<char>)
    decreases s.len(),
{
    if s.len() == 0 {
        (seq![], seq![])
    } else {
        let prev = sse_lines(s.drop_last());
        if s.last() == '\n' {
            (prev.0.push(prev.1), seq![])
        } else {
            (prev.0, prev.1.push(s.last()))
        }
    }
}

/// The data of an event line: the trimmed line after a "data: " prefix.
pub open spec fn sse_payload(line: Seq<char>) -> Option<Seq<char>> {
    if starts_with(trim(line), "data: "@) {
        Some(trim(line).skip(6))
    } else {
        None
    }
}

/// The payloads of the lines up to the first "[DONE]", and whether the
/// stream ended with "[DONE]"; without `ends_on_done` every payload counts.
pub open spec fn stream_events(lines: Seq<Seq<char>>, ends_on_done: bool) -> (Seq<Seq<char>>, bool)
    decreases lines.len(),
{
    if lines.len() == 0 {
        (seq![], false)
    } else {
        let prev = stream_events(lines.drop_last(), ends_on_done);
        if prev.1 {
            prev
        } else {
            match sse_payload(lines.last()) {
                Some(p) => if ends_on_done && p == "[DONE]"@ {
                    (prev.0, true)
                } else {
                    (prev.0.push(p), false)
                },
                None => prev,
            }
        }
    }
}

/// The framing of a streamed reply: text is received in pieces; each
/// complete line that carries data yields its payload, and, for a provider's
/// stream, the payload "[DONE]" ends the stream.
pub struct SseBuffer {
    buffer: Vec<char>,
    ends_on_done: bool,
}

/// What receiving a piece of text produced.
pub struct SseBatch {
    /// The payloads of the lines completed by the piece, in order.
    pub payloads: Vec<String>,
    /// The stream ended.
    pub done: bool,
}

impl SseBuffer {
    /// The received text not yet ended by a newline.
    pub closed spec fn pending(&self) -> Seq<char> {
        self.buffer@
    }

    /// The payload "[DONE]" ends this stream.
    pub closed spec fn ends_on_done(&self) -> bool {
        self.ends_on_done
    }

    /// An empty buffer for a provider's stream, which "[DONE]" ends.
    pub fn new() -> (r: Self)
        ensures
            r.pending() == Seq::<char>::empty(),
            r.ends_on_done(),
    {
        SseBuffer { buffer: Vec::new(), ends_on_done: true }
    }

    /// An empty buffer for the inference service's stream, in which every
    /// payload is data.
    pub fn without_end_marker() -> (r: Self)
        ensures
            r.pending() == Seq::<char>::empty(),
            !r.ends_on_done(),
    {
        SseBuffer { buffer: Vec::new(), ends_on_done: false }
    }

    fn line_payload(line: &[char]) -> (r: Option<Vec<char>>)
        ensures
            match r {
                Some(p) => sse_payload(line@) == Some(p@),
                None => sse_payload(line@) is None,
            },
    {
        let t = trim_exec(line);
        let prefix = str_to_chars("data: ");
        proof {
            reveal_strlit("data: ");
        }
        if crate::text::matches_at_exec(t.as_slice(), prefix.as_slice(), 0) {
            let mut out: Vec<char> = Vec::new();
            let mut k: usize = 6;
            while k < t.len()
                invariant
                    6 <= k <= t.len(),
                    out@ == t@.subrange(6, k as int),
                decreases t.len() - k,
            {
                out.push(t[k]);
                assert(t@.subrange(6, k + 1) =~= t@.subrange(6, k as int).push(t@[k as int]));
                k = k + 1;
            }
            assert(t@.subrange(6, t.len() as int) =~= t@.skip(6));
            Some(out)
        } else {
            None
        }
    }

    /// Receives a piece of text.
    pub fn push(&mut self, text: &str) -> (r: SseBatch)
        ensures
            r.payloads@.map_values(|p: String| p@) == stream_events(
                sse_lines(old(self).pending() + text@).0,
                old(self).ends_on_done(),
            ).0,
            r.done == stream_events(sse_lines(old(self).pending() + text@).0, old(self).ends_on_done()).1,
            final(self).ends_on_done() == old(self).ends_on_done(),
            !r.done ==> final(self).pending() == sse_lines(old(self).pending() + text@).1,
    {
        let mut all: Vec<char> = Vec::new();
        crate::text::append_chars(&mut all, self.buffer.as_slice());
        crate::text::append_str(&mut all, text);
        let ghost lines: Seq<Seq<char>> = seq![];
        let mut cur: Vec<char> = Vec::new();
        let mut payloads: Vec<String> = Vec::new();
        let mut i: usize = 0;
        while i < all.len()
            invariant
                i <= all.len(),
                all@ == old(self).pending() + text@,
                sse_lines(all@.take(i as int)) == (lines, cur@),
                stream_events(lines, self.ends_on_done) == (payloads@.map_values(|p: String| p@), false),
                self.ends_on_done == old(self).ends_on_done,
            decreases all.len() - i,
        {
            assert(all@.take(i + 1).drop_last() =~= all@.take(i as int));
            let c = all[i];
            if c == '\n' {
                let ghost new_lines = lines.push(cur@);
                assert(new_lines.drop_last() =~= lines);
                match Self::line_payload(cur.as_slice()) {
                    Some(p) => {
                        if self.ends_on_done && crate::text::chars_eq_str(p.as_slice(), "[DONE]") {
                            proof {
                                lemma_stream_events_done_stays(all@.take(i + 1), all@, self.ends_on_done);
                            }
                            self.buffer = Vec::new();
                            return SseBatch { payloads, done: true };
                        }
                        let ghost before = payloads@;
                        payloads.push(chars_to_string(p.as_slice()));
                        assert(payloads@.map_values(|q: String| q@) =~= before.map_values(|q: String| q@).push(p@));
                    },
                    None => {},
                }
                proof {
                    lines = new_lines;
                }
                cur = Vec::new();
            } else {
                cur.push(c);
            }
            i = i + 1;
        }
        assert(all@.take(all.len() as int) =~= all@);
        self.buffer = cur;
        SseBatch { payloads, done: false }
    }
}

/// Text without a line break completes no line.
proof fn lemma_sse_lines_no_newline(s: Seq<char>)
    requires
        !s.contains('\n'),
    ensures
        sse_lines(s) == (Seq::<Seq<char>>::empty(), s),
    decreases s.len(),
{
    if s.len() > 0 {
        assert(!s.drop_last().contains('\n')) by {
            if s.drop_last().contains('\n') {
                let k = choose|k: int| 0 <= k < s.drop_last().len() && s.drop_last()[k] == '\n';
                assert(s[k] == '\n');
            }
        }
        lemma_sse_lines_no_newline(s.drop_last());
        assert(s.last() != '\n') by {
            assert(s[s.len() - 1] == s.last());
        }
        assert(s.drop_last().push(s.last()) =~= s);
    }
}

/// The unfinished rest of a stream holds no line break.
proof fn lemma_sse_rest_no_newline(s: Seq<char>)
    ensures
        !sse_lines(s).1.contains('\n'),
    decreases s.len(),
{
    if s.len() > 0 {
        lemma_sse_rest_no_newline(s.drop_last());
        let prev = sse_lines(s.drop_last()).1;
        if s.last() != '\n' {
            assert forall|k: int| 0 <= k < prev.push(s.last()).len() implies prev.push(s.last())[k] != '\n' by {
                if k < prev.len() {
                    assert(prev.push(s.last())[k] == prev[k]);
                    assert(!(prev[k] == '\n' && 0 <= k < prev.len()));
                }
            }
        }
    }
}

/// The lines of a text received after `x`: those of `x`, then those that
/// the rest of `x` and the new text complete.
proof fn lemma_sse_lines_append(x: Seq<char>, y: Seq<char>)
    ensures
        sse_lines(x + y).0 == sse_lines(x).0 + sse_lines(sse_lines(x).1 + y).0,
        sse_lines(x + y).1 == sse_lines(sse_lines(x).1 + y).1,
    decreases y.len(),
{
    let r = sse_lines(x).1;
    if y.len() == 0 {
        assert(x + y =~= x);
        assert(r + y =~= r);
        lemma_sse_rest_no_newline(x);
        lemma_sse_lines_no_newline(r);
        assert(sse_lines(x).0 + Seq::<Seq<char>>::empty() =~= sse_lines(x).0);
    } else {
        let y2 = y.drop_last();
        lemma_sse_lines_append(x, y2);
        assert((x + y).drop_last() =~= x + y2);
        assert((r + y).drop_last() =~= r + y2);
        assert((x + y).last() == y.last());
        assert((r + y).last() == y.last());
        let a = sse_lines(x).0;
        let b = sse_lines(r + y2);
        if y.last() == '\n' {
            assert((a + b.0).push(b.1) =~= a + b.0.push(b.1));
        } else {
            assert(sse_lines(x + y).0 == a + b.0);
        }
    }
}

/// The events of more lines, before the end: those of the first lines,
/// then those of the others.
proof fn lemma_stream_events_append(l1: Seq<Seq<char>>, l2: Seq<Seq<char>>, ends_on_done: bool)
    requires
        !stream_events(l1, ends_on_done).1,
    ensures
        stream_events(l1 + l2, ends_on_done).0 == stream_events(l1, ends_on_done).0 + stream_events(
            l2,
            ends_on_done,
        ).0,
        stream_events(l1 + l2, ends_on_done).1 == stream_events(l2, ends_on_done).1,
    decreases l2.len(),
{
    if l2.len() == 0 {
        assert(l1 + l2 =~= l1);
        assert(stream_events(l1, ends_on_done).0 + Seq::<Seq<char>>::empty() =~= stream_events(
            l1,
            ends_on_done,
        ).0);
    } else {
        let l2b = l2.drop_last();
        lemma_stream_events_append(l1, l2b, ends_on_done);
        assert((l1 + l2).drop_last() =~= l1 + l2b);
        assert((l1 + l2).last() == l2.last());
        let e1 = stream_events(l1, ends_on_done).0;
        let e2 = stream_events(l2b, ends_on_done).0;
        match sse_payload(l2.last()) {
            Some(p) => {
                assert((e1 + e2).push(p) =~= e1 + e2.push(p));
            },
            None => {},
        }
    }
}

/// Receiving a stream's text in two pieces gives what receiving it at once
/// gives: the payloads of the first piece's lines, then those the second
/// piece completes, with the same end and the same unfinished rest.
pub proof fn lemma_sse_split_receive(pending: Seq<char>, a: Seq<char>, b: Seq<char>, ends_on_done: bool)
    requires
        !stream_events(sse_lines(pending + a).0, ends_on_done).1,
    ensures
        stream_events(sse_lines(pending + a + b).0, ends_on_done).0 == stream_events(
            sse_lines(pending + a).0,
            ends_on_done,
        ).0 + stream_events(sse_lines(sse_lines(pending + a).1 + b).0, ends_on_done).0,
        stream_events(sse_lines(pending + a + b).0, ends_on_done).1 == stream_events(
            sse_lines(sse_lines(pending + a).1 + b).0,
            ends_on_done,
        ).1,
        sse_lines(pending + a + b).1 == sse_lines(sse_lines(pending + a).1 + b).1,
{
    lemma_sse_lines_append(pending + a, b);
    lemma_stream_events_append(
        sse_lines(pending + a).0,
        sse_lines(sse_lines(pending + a).1 + b).0,
        ends_on_done,
    );
}

/// Once the stream has ended, receiving more text changes nothing.
pub proof fn lemma_stream_events_done_stays(prefix: Seq<char>, all: Seq<char>, ends_on_done: bool)
    requires
        prefix.len() <= all.len(),
        prefix == all.take(prefix.len() as int),
        stream_events(sse_lines(prefix).0, ends_on_done).1,
    ensures
        stream_events(sse_lines(all).0, ends_on_done) == stream_events(sse_lines(prefix).0, ends_on_done),
    decreases all.len() - prefix.len(),
{
    if prefix.len() < all.len() {
        let next = all.take(prefix.len() + 1int);
        assert(next.drop_last() =~= prefix);
        let lines = sse_lines(prefix).0;
        let rest = sse_lines(prefix).1;
        if next.last() == '\n' {
            assert(lines.push(rest).drop_last() =~= lines);
        }
        assert(stream_events(sse_lines(next).0, ends_on_done) == stream_events(lines, ends_on_done));
        assert(next =~= all.take(next.len() as int));
        lemma_stream_events_done_stays(next, all, ends_on_done);
    } else {
        assert(all =~= prefix);
    }
}

} // verus!

//! The inference service's chat client: its endpoints, its message type and
//! what an event of its stream means.
use vstd::prelude::*;
use crate::text::{append_chars, append_str, chars_to_string, str_to_chars};

verus! {

/// A chat message: the sender's role ("system", "user" or "assistant") and
/// the text.
pub struct ChatMessage {
    pub role: String,
    pub content: String,
}

/// `s` without its trailing '/' characters.
pub open spec fn trim_trailing_slashes(s: Seq<char>) -> Seq<char>
    decreases s.len(),
{
    if s.len() > 0 && s.last() == '/' {
        trim_trailing_slashes(s.drop_last())
    } else {
        s
    }
}

/// The service's reply to a chat completion.
pub struct ChatResponse {
    /// The generated message.
    pub message: ChatMessage,
    /// The model that generated it.
    pub model: String,
    /// The number of tokens generated.
    pub tokens_generated: usize,
    /// Why generation stopped (length, stop, eos, error).
    pub finish_reason: String,
}

/// The error for a refused request: "LLM inference API returned <status>:
/// <text>", with "Unknown error" when the reply's text could not be read.
pub fn inference_error_message(status: &str, text: Option<&str>) -> (r: String)
    ensures
        r@ == "LLM inference API returned "@ + status@ + ": "@ + match text {
            Some(t) => t@,
            None => "Unknown error"@,
        },
{
    let mut out: Vec<char> = Vec::new();
    append_str(&mut out, "LLM inference API returned ");
    append_str(&mut out, status);
    append_str(&mut out, ": ");
    match text {
        Some(t) => append_str(&mut out, t),
        None => append_str(&mut out, "Unknown error"),
    }
    chars_to_string(out.as_slice())
}

/// The URL of an endpoint of the inference service: its base URL without
/// trailing slashes, then the endpoint's path.
pub fn endpoint_url(base_url: &str, path: &str) -> (r: String)
    ensures
        r@ == trim_trailing_slashes(base_url@) + path@,
{
    let c = str_to_chars(base_url);
    let mut n: usize = c.len();
    assert(c@.take(n as int) =~= c@);
    while n > 0 && c[n - 1] == '/'
        invariant
            n <= c.len(),
            trim_trailing_slashes(c@.take(n as int)) == trim_trailing_slashes(c@),
        decreases n,
    {
        assert(c@.take(n - 1) =~= c@.take(n as int).drop_last());
        n = n - 1;
    }
    let mut out: Vec<char> = Vec::new();
    let mut k: usize = 0;
    while k < n
        invariant
            k <= n <= c.len(),
            out@ == c@.take(k as int),
        decreases n - k,
    {
        out.push(c[k]);
        assert(c@.take(k + 1) =~= c@.take(k as int).push(c@[k as int]));
        k = k + 1;
    }
    append_str(&mut out, path);
    chars_to_string(out.as_slice())
}

/// A base URL gives the same endpoint URLs with or without a trailing '/'.
pub proof fn lemma_trailing_slash_ignored(base_url: Seq<char>, path: Seq<char>)
    ensures
        trim_trailing_slashes(base_url.push('/')) + path == trim_trailing_slashes(base_url) + path,
{
    assert(base_url.push('/').drop_last() =~= base_url);
}

/// The URL of the chat completion endpoint.
pub fn chat_url(base_url: &str) -> (r: String)
    ensures
        r@ == trim_trailing_slashes(base_url@) + "/api/chat"@,
{
    endpoint_url(base_url, "/api/chat")
}

/// The URL of the streaming chat completion endpoint.
pub fn chat_stream_url(base_url: &str) -> (r: String)
    ensures
        r@ == trim_trailing_slashes(base_url@) + "/api/chat/stream"@,
{
    endpoint_url(base_url, "/api/chat/stream")
}

/// What one event of the service's stream means.
pub enum InferenceStreamStep {
    /// A piece of generated text.
    Data(String),
    /// The service reported an error; the stream ends with it.
    Failed(String),
    /// The event carries neither.
    Skip,
}

/// Reads an event of the service's stream from its "content" and "error"
/// fields (each when it is a string): content is data, otherwise an error
/// ends the stream with "Stream error: <error>".
pub fn inference_stream_step(content: Option<&str>, error: Option<&str>) -> (r: InferenceStreamStep)
    ensures
        content matches Some(c) ==> (r matches InferenceStreamStep::Data(d) && d@ == c@),
        content is None ==> (error matches Some(e) ==> (r matches InferenceStreamStep::Failed(m)
            && m@ == "Stream error: "@ + e@)),
        content is None && error is None ==> r is Skip,
{
    match content {
        Some(c) => InferenceStreamStep::Data(c.to_string()),
        None => match error {
            Some(e) => {
                let mut out: Vec<char> = Vec::new();
                append_str(&mut out, "Stream error: ");
                let ec = str_to_chars(e);
                append_chars(&mut out, ec.as_slice());
                InferenceStreamStep::Failed(chars_to_string(out.as_slice()))
            },
            None => InferenceStreamStep::Skip,
        },
    }
}

} // verus!

//! Testing an embedder: where the test request goes, and how its outcome
//! is reported.
use vstd::prelude::*;
use crate::errors::ApiError;
use crate::llm_client::{endpoint_url, trim_trailing_slashes};
use crate::text::{
    append_chars, append_str, chars_to_string, decimal, decimal_chars, ends_with, ends_with_str,
    str_to_chars,
};

verus! {

/// The text embedded by an embedder test.
pub const EMBEDDER_TEST_TEXT: &'static str = "This is a test embedding request to verify the embedder is working correctly.";

/// The kinds of embedder that can be tested.
#[derive(PartialEq, Eq, Structural, Clone, Copy)]
pub enum EmbedderKind {
    OpenAi,
    Cohere,
    Internal,
}

/// Where an embedder test goes and with which model.
pub struct EmbedderTestTarget {
    pub kind: EmbedderKind,
    pub url: String,
    pub model: String,
    /// The embedder's API key is sent as a bearer token, when it has one.
    pub sends_api_key: bool,
}

/// The configured model, or the default one.
pub open spec fn model_or(configured: Option<Seq<char>>, default: Seq<char>) -> Seq<char> {
    match configured {
        Some(m) => m,
        None => default,
    }
}

/// The target of an embedder test: OpenAI's embeddings endpoint, Cohere's
/// embed endpoint (the base URL when it already names it), or the embedding
/// inference service; the provider name must match exactly.
pub open spec fn embedder_test_target_spec(
    provider: Seq<char>,
    base_url: Seq<char>,
    inference_url: Seq<char>,
    configured_model: Option<Seq<char>>,
) -> Option<(EmbedderKind, Seq<char>, Seq<char>, bool)> {
    if provider == "openai"@ {
        Some(
            (
                EmbedderKind::OpenAi,
                trim_trailing_slashes(base_url) + "/embeddings"@,
                model_or(configured_model, "text-embedding-ada-002"@),
                true,
            ),
        )
    } else if provider == "cohere"@ {
        let base = trim_trailing_slashes(base_url);
        Some(
            (
                EmbedderKind::Cohere,
                if ends_with(base, "/embed"@) {
                    base
                } else {
                    base + "/embed"@
                },
                model_or(configured_model, "embed-english-v3.0"@),
                true,
            ),
        )
    } else if provider == "internal"@ {
        Some(
            (
                EmbedderKind::Internal,
                trim_trailing_slashes(inference_url) + "/api/embed"@,
                model_or(configured_model, "BAAI/bge-small-en-v1.5"@),
                false,
            ),
        )
    } else {
        None
    }
}

pub(crate) fn model_or_exec(configured: Option<&str>, default: &str) -> (r: String)
    ensures
        r@ == model_or(
            match configured {
                Some(m) => Some(m@),
                None => None,
            },
            default@,
        ),
{
    match configured {
        Some(m) => m.to_string(),
        None => default.to_string(),
    }
}

/// Plans an embedder test, or fails with "unsupported provider: <name>".
pub fn embedder_test_target(
    provider: &str,
    base_url: &str,
    inference_url: &str,
    configured_model: Option<&str>,
) -> (r: Result<EmbedderTestTarget, String>)
    ensures
        match embedder_test_target_spec(
            provider@,
            base_url@,
            inference_url@,
            match configured_model {
                Some(m) => Some(m@),
                None => None,
            },
        ) {
            Some(t) => r matches Ok(target) && target.kind == t.0 && target.url@ == t.1
                && target.model@ == t.2 && target.sends_api_key == t.3,
            None => r matches Err(m) && m@ == "unsupported provider: "@ + provider@,
        },
{
    let p = str_to_chars(provider);
    if crate::text::chars_eq_str(p.as_slice(), "openai") {
        Ok(EmbedderTestTarget {
            kind: EmbedderKind::OpenAi,
            url: endpoint_url(base_url, "/embeddings"),
            model: model_or_exec(configured_model, "text-embedding-ada-002"),
            sends_api_key: true,
        })
    } else if crate::text::chars_eq_str(p.as_slice(), "cohere") {
        let base = endpoint_url(base_url, "");
        proof {
            reveal_strlit("");
            assert(base@ == trim_trailing_slashes(base_url@));
        }
        let bc = str_to_chars(base.as_str());
        let url = if ends_with_str(bc.as_slice(), "/embed") {
            base
        } else {
            endpoint_url(base_url, "/embed")
        };
        Ok(EmbedderTestTarget {
            kind: EmbedderKind::Cohere,
            url,
            model: model_or_exec(configured_model, "embed-english-v3.0"),
            sends_api_key: true,
        })
    } else if crate::text::chars_eq_str(p.as_slice(), "internal") {
        Ok(EmbedderTestTarget {
            kind: EmbedderKind::Internal,
            url: endpoint_url(inference_url, "/api/embed"),
            model: model_or_exec(configured_model, "BAAI/bge-small-en-v1.5"),
            sends_api_key: false,
        })
    } else {
        let mut out: Vec<char> = Vec::new();
        append_str(&mut out, "unsupported provider: ");
        append_chars(&mut out, p.as_slice());
        Err(chars_to_string(out.as_slice()))
    }
}

/// How a test request failed to get a reply.
pub enum TransportFailure {
    Timeout,
    Connect,
    /// Any other failure, with its text.
    Other(String),
}

/// The message for a test request without reply; the inference service's
/// messages name it.
pub fn transport_error_message(kind: EmbedderKind, failure: TransportFailure) -> (r: String)
    ensures
        match failure {
            TransportFailure::Timeout => r@ == if kind == EmbedderKind::Internal {
                "request timeout (embedding-inference-api may be loading models)"@
            } else {
                "request timeout (check network/firewall)"@
            },
            TransportFailure::Connect => r@ == if kind == EmbedderKind::Internal {
                "failed to connect (check embedding-inference-api URL)"@
            } else {
                "failed to connect (check base URL)"@
            },
            TransportFailure::Other(e) => r == e,
        },
{
    match failure {
        TransportFailure::Timeout => match kind {
            EmbedderKind::Internal => "request timeout (embedding-inference-api may be loading models)".to_string(),
            _ => "request timeout (check network/firewall)".to_string(),
        },
        TransportFailure::Connect => match kind {
            EmbedderKind::Internal => "failed to connect (check embedding-inference-api URL)".to_string(),
            _ => "failed to connect (check base URL)".to_string(),
        },
        TransportFailure::Other(e) => e,
    }
}

/// The message for an error status: "HTTP <status>: " then the reply's
/// text when it could be read (OpenAI's never is), else a hint.
pub open spec fn http_error_text(kind: EmbedderKind, status: Seq<char>, body: Option<Seq<char>>) -> Seq<char> {
    "HTTP "@ + status + ": "@ + match kind {
        EmbedderKind::OpenAi => "check API key and base URL"@,
        EmbedderKind::Cohere => match body {
            Some(b) => b,
            None => "check API key and base URL"@,
        },
        EmbedderKind::Internal => match body {
            Some(b) => b,
            None => "check embedding-inference-api URL"@,
        },
    }
}

/// Builds the message for an error status of a test request.
pub fn http_error_message(kind: EmbedderKind, status: &str, body: Option<&str>) -> (r: String)
    ensures
        r@ == http_error_text(
            kind,
            status@,
            match body {
                Some(b) => Some(b@),
                None => None,
            },
        ),
{
    let mut out: Vec<char> = Vec::new();
    append_str(&mut out, "HTTP ");
    append_str(&mut out, status);
    append_str(&mut out, ": ");
    match kind {
        EmbedderKind::OpenAi => append_str(&mut out, "check API key and base URL"),
        EmbedderKind::Cohere => match body {
            Some(b) => append_str(&mut out, b),
            None => append_str(&mut out, "check API key and base URL"),
        },
        EmbedderKind::Internal => match body {
            Some(b) => append_str(&mut out, b),
            None => append_str(&mut out, "check embedding-inference-api URL"),
        },
    }
    chars_to_string(out.as_slice())
}

/// What a test reply says about the embedding size: the length of
/// `data[0].embedding` (OpenAI), of `embeddings[0]` (Cohere), or
/// `dimensions` and else the length of `embeddings[0]` (inference service),
/// each when it is an array (a number for `dimensions`).
pub struct EmbedReply {
    pub data_embedding_len: Option<usize>,
    pub dimensions: Option<u64>,
    /// The `embeddings` array, with the length of each element that is an
    /// array.
    pub embeddings: Option<Vec<Option<usize>>>,
}

/// The embedding size a reply reports, or why it cannot be read.
pub open spec fn reply_dimensions_spec(kind: EmbedderKind, reply: EmbedReply) -> Result<nat, Seq<char>> {
    match kind {
        EmbedderKind::OpenAi => match reply.data_embedding_len {
            Some(n) => Ok(n as nat),
            None => Err("unexpected response format"@),
        },
        EmbedderKind::Cohere => match reply.embeddings {
            Some(v) => if v@.len() > 0 && v@[0] is Some {
                Ok(v@[0]->0 as nat)
            } else {
                Err("unexpected response format (check model)"@)
            },
            None => Err("unexpected response format (check model)"@),
        },
        EmbedderKind::Internal => match reply.dimensions {
            Some(d) => Ok((d as usize) as nat),
            None => match reply.embeddings {
                Some(v) => if v@.len() == 0 {
                    Err("empty embeddings array"@)
                } else if v@[0] is Some {
                    Ok(v@[0]->0 as nat)
                } else {
                    Err("unexpected embedding format"@)
                },
                None => Err("unexpected response format"@),
            },
        },
    }
}

/// Reads the embedding size from a test reply.
pub fn reply_dimensions(kind: EmbedderKind, reply: &EmbedReply) -> (r: Result<usize, String>)
    ensures
        match reply_dimensions_spec(kind, *reply) {
            Ok(n) => r matches Ok(d) && d as nat == n,
            Err(m) => r matches Err(e) && e@ == m,
        },
{
    match kind {
        EmbedderKind::OpenAi => match reply.data_embedding_len {
            Some(n) => Ok(n),
            None => Err("unexpected response format".to_string()),
        },
        EmbedderKind::Cohere => match &reply.embeddings {
            Some(v) => if v.len() > 0 {
                match v[0] {
                    Some(n) => Ok(n),
                    None => Err("unexpected response format (check model)".to_string()),
                }
            } else {
                Err("unexpected response format (check model)".to_string())
            },
            None => Err("unexpected response format (check model)".to_string()),
        },
        EmbedderKind::Internal => match reply.dimensions {
            Some(d) => {
                #[verifier::truncate]
                let n = d as usize;
                Ok(n)
            },
            None => match &reply.embeddings {
                Some(v) => if v.len() == 0 {
                    Err("empty embeddings array".to_string())
                } else {
                    match v[0] {
                        Some(n) => Ok(n),
                        None => Err("unexpected embedding format".to_string()),
                    }
                },
                None => Err("unexpected response format".to_string()),
            },
        },
    }
}

/// The reply to a successful embedder test.
pub struct TestEmbedderResponse {
    pub success: bool,
    pub message: String,
    pub dimensions: Option<usize>,
}

/// Reports an embedder test: success with the embedding size, or an
/// internal error "embedder test failed: <reason>".
pub fn embedder_test_outcome(result: Result<usize, String>) -> (r: Result<TestEmbedderResponse, ApiError>)
    ensures
        match result {
            Ok(d) => r matches Ok(resp) && resp.success && resp.dimensions == Some(d) && resp.message@
                == "embedder test successful - received "@ + decimal(d as nat) + " dimensional embeddings"@,
            Err(e) => r matches Err(ApiError::Internal(m)) && m@ == "embedder test failed: "@ + e@,
        },
{
    match result {
        Ok(d) => {
            let mut out: Vec<char> = Vec::new();
            append_str(&mut out, "embedder test successful - received ");
            append_chars(&mut out, decimal_chars(d as u64).as_slice());
            append_str(&mut out, " dimensional embeddings");
            Ok(TestEmbedderResponse { success: true, message: chars_to_string(out.as_slice()), dimensions: Some(d) })
        },
        Err(e) => {
            let mut out: Vec<char> = Vec::new();
            append_str(&mut out, "embedder test failed: ");
            append_str(&mut out, e.as_str());
            Err(ApiError::Internal(chars_to_string(out.as_slice())))
        },
    }
}

} // verus!

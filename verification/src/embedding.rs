//! Embedding a query: which endpoint, model and credentials a provider's
//! request uses.
use vstd::prelude::*;
use crate::api::embedders::{model_or, model_or_exec, EmbedderKind};
use crate::llm_client::{endpoint_url, trim_trailing_slashes};
use crate::text::{append_str, chars_to_string, str_to_chars, trim, trim_exec};

verus! {

/// How a query is embedded: the endpoint, the model, and the API key sent
/// as a bearer token, if any.
pub struct EmbeddingRequest {
    pub kind: EmbedderKind,
    pub url: String,
    pub model: String,
    pub bearer: Option<String>,
}

/// The request that embeds a query, or why there is none. OpenAI and Cohere
/// need a non-blank base URL and an API key; the inference service needs
/// neither. Provider names match exactly.
pub open spec fn embedding_request_spec(
    provider: Seq<char>,
    base_url: Seq<char>,
    api_key: Option<Seq<char>>,
    configured_model: Option<Seq<char>>,
    inference_url: Seq<char>,
) -> Result<(EmbedderKind, Seq<char>, Seq<char>, Option<Seq<char>>), Seq<char>> {
    if provider == "openai"@ {
        if trim(base_url).len() == 0 {
            Err("Invalid embedder configuration: base_url cannot be empty for OpenAI provider"@)
        } else if api_key is None {
            Err("API key required for provider: "@ + provider)
        } else {
            Ok(
                (
                    EmbedderKind::OpenAi,
                    trim_trailing_slashes(base_url) + "/embeddings"@,
                    model_or(configured_model, "text-embedding-3-small"@),
                    api_key,
                ),
            )
        }
    } else if provider == "cohere"@ {
        if trim(base_url).len() == 0 {
            Err("Invalid embedder configuration: base_url cannot be empty for Cohere provider"@)
        } else if api_key is None {
            Err("API key required for provider: "@ + provider)
        } else {
            Ok(
                (
                    EmbedderKind::Cohere,
                    base_url,
                    model_or(configured_model, "embed-english-v3.0"@),
                    api_key,
                ),
            )
        }
    } else if provider == "internal"@ {
        Ok(
            (
                EmbedderKind::Internal,
                trim_trailing_slashes(inference_url) + "/api/embed"@,
                model_or(configured_model, "BAAI/bge-small-en-v1.5"@),
                None,
            ),
        )
    } else {
        Err("Unsupported embedding provider: "@ + provider)
    }
}

fn opt_view(o: Option<&str>) -> (r: Option<String>)
    ensures
        match o {
            Some(s) => r matches Some(t) && t@ == s@,
            None => r is None,
        },
{
    match o {
        Some(s) => Some(s.to_string()),
        None => None,
    }
}

fn prefixed(prefix: &str, rest: &str) -> (r: String)
    ensures
        r@ == prefix@ + rest@,
{
    let mut out: Vec<char> = Vec::new();
    append_str(&mut out, prefix);
    append_str(&mut out, rest);
    chars_to_string(out.as_slice())
}

/// Plans the request that embeds a query with an embedder. `inference_url`
/// is the embedding inference service's base URL.
pub fn embedding_request(
    provider: &str,
    base_url: &str,
    api_key: Option<&str>,
    configured_model: Option<&str>,
    inference_url: &str,
) -> (r: Result<EmbeddingRequest, String>)
    ensures
        match embedding_request_spec(
            provider@,
            base_url@,
            match api_key {
                Some(k) => Some(k@),
                None => None,
            },
            match configured_model {
                Some(m) => Some(m@),
                None => None,
            },
            inference_url@,
        ) {
            Ok(t) => r matches Ok(req) && req.kind == t.0 && req.url@ == t.1 && req.model@ == t.2
                && match req.bearer {
                Some(b) => t.3 == Some(b@),
                None => t.3 is None,
            },
            Err(m) => r matches Err(e) && e@ == m,
        },
{
    let p = str_to_chars(provider);
    if crate::text::chars_eq_str(p.as_slice(), "openai") {
        let b = str_to_chars(base_url);
        if trim_exec(b.as_slice()).len() == 0 {
            return Err(
                "Invalid embedder configuration: base_url cannot be empty for OpenAI provider".to_string(),
            );
        }
        if api_key.is_none() {
            return Err(prefixed("API key required for provider: ", provider));
        }
        Ok(EmbeddingRequest {
            kind: EmbedderKind::OpenAi,
            url: endpoint_url(base_url, "/embeddings"),
            model: model_or_exec(configured_model, "text-embedding-3-small"),
            bearer: opt_view(api_key),
        })
    } else if crate::text::chars_eq_str(p.as_slice(), "cohere") {
        let b = str_to_chars(base_url);
        if trim_exec(b.as_slice()).len() == 0 {
            return Err(
                "Invalid embedder configuration: base_url cannot be empty for Cohere provider".to_string(),
            );
        }
        if api_key.is_none() {
            return Err(prefixed("API key required for provider: ", provider));
        }
        Ok(EmbeddingRequest {
            kind: EmbedderKind::Cohere,
            url: base_url.to_string(),
            model: model_or_exec(configured_model, "embed-english-v3.0"),
            bearer: opt_view(api_key),
        })
    } else if crate::text::chars_eq_str(p.as_slice(), "internal") {
        Ok(EmbeddingRequest {
            kind: EmbedderKind::Internal,
            url: endpoint_url(inference_url, "/api/embed"),
            model: model_or_exec(configured_model, "BAAI/bge-small-en-v1.5"),
            bearer: None,
        })
    } else {
        Err(prefixed("Unsupported embedding provider: ", provider))
    }
}

} // verus!

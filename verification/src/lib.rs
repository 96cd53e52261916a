//! Verified request-handling logic of the semantic explorer API: prompt
//! injection screening, retrieval context assembly, authentication helpers,
//! rate limiting and idempotency decisions, audit events and status reports.

pub mod text;
pub mod pattern;
pub mod prompt_injection;
pub mod metadata;
pub mod hashing;
pub mod errors;
pub mod openid;
pub mod auth;
pub mod rate_limit;
pub mod idempotency;
pub mod status;
pub mod health;
pub mod clock;
pub mod audit;
pub mod rag;
pub mod api;
pub mod llm_client;
pub mod llm;
pub mod device_flow;
pub mod models;
pub mod observability;
pub mod search;
pub mod chat_stream;
pub mod embedding;

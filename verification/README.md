# semantic_explorer_api

The request-handling logic of the Semantic Explorer API server, written in
Verus and verified against its specifications.

- `src/` — the verified library: prompt-injection screening and sanitizing,
  retrieval context assembly and chunk-reference rewriting, LLM prompts and
  streamed-reply framing, OIDC and device-flow helpers, owner keys, rate
  limiting and idempotency decisions, audit events, health and broker
  status reports, search and embedder-test decisions, and request
  parameter defaults and validation.
- `tests/` — tests of the library on concrete values.
- `app/` — a thin server around the library: the health endpoints, the
  JSON forms of the library's replies, the loops that drive the library's
  step functions (streamed chat answers, authentication, idempotent
  requests), JSON parsing of streamed events, and the parts of retrieval
  that compute with floating point numbers. The database, broker and
  object-store endpoints are not part of it.

Calls into `regex`, `sha2`, `chrono`, `url` and the clock go through small
trusted wrappers whose contracts are documented next to them.

# aigw

A gateway library that speaks one canonical chat model and maps it onto the
wire formats of several model providers (Anthropic Messages, OpenAI Chat
Completions and Responses, Gemini, and OpenAI-compatible services).

The library under `src/` is written in Verus. Every function there carries a
contract over mathematical models (`Seq`, `Map`, spec functions and views),
and the laws that span several functions stand as public proof functions.

Layout:

- `src/canonical/` – the provider-neutral request, response, stream and error
  model, with its text forms.
- `src/anthropic/`, `src/openai/`, `src/gemini/`, `src/compat/` – request
  building, response and stream decoding, header and transport rules for each
  provider.
- `src/json.rs`, `src/http_headers.rs`, `src/string_map.rs`, `src/text.rs` –
  the JSON value model, header lists, ordered string maps and text helpers
  that the contracts speak of. Parsing and rendering JSON text is done by
  `serde_json`, and header names are checked by `http`, behind small trusted
  wrappers whose contracts name what those crates compute.
- `app/` – plain Rust around the library: serde types, HTTP clients,
  server-sent-event plumbing and configuration loading.
- `tests/` – tests that run the compiled library against concrete values.

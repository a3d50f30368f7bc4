# vllm-responses

Core of a stateless `/v1/responses` service, and the token-aware marker matching
that its output parsers rest on, written in Verus: executable Rust whose
behaviour is stated in contracts and proved.

- `src/` is the verified library.
  - `types`, `chat`, `error`: the data, each type with a ghost counterpart.
  - `input`, `convert`, `prepare`: from a request to a chat request.
  - `output`, `stream`: from chat events to output items and stream events;
    `output::laws` states what holds of whole runs.
  - `custom_tool`: the function shim of custom tools, and the decoder that
    streams a custom tool's input.
  - `marker`: markers guarded by token identity, and the scanner that stops in
    front of them.
  - `json`, `text`: what is taken from `serde_json` and the standard library.
- `app/` is the HTTP service around it: wire types, handler, and the interface
  to a chat engine.
- `tests/` exercises the library.

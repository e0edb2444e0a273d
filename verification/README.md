# mistral_rs_client

Client of [mistral.rs](https://github.com/EricLBuehler/mistral.rs), a local server of language
models with an OpenAI-compatible API, verified with Verus.

* `src/` is the library: settings, requests, answers, and the event stream of a streamed chat.
  It does no input or output. Every function has a contract; `src/laws.rs` states what holds of
  them together.
* `app/` sends the requests over HTTP and decodes the answers.
* `tests/` runs the library.

Numbers that are only passed on (temperature, top-p, embeddings) have a type parameter `F`, and
so have the HTTP client (`C`), the runtime in which a model is loaded (`R`) and the loaded model
(`M`).

Calls into `base64`, `chrono`, `secrecy`, `serde_json` and a few string functions of the standard
library are believed, not proved. Each stands in a small function whose comment says what is
claimed of it: see `src/image.rs`, `src/time.rs`, `src/secret.rs`, `src/json.rs`, `src/text.rs`.

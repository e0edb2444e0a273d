//! Client of mistral.rs, a local server of language models with an OpenAI-compatible API.
//!
//! The crate holds what a client decides and computes: how settings become a provider, how
//! chats, prompts and texts become requests, and what the answers mean. It performs no
//! input or output: requests are returned ready to be sent, and answers are taken decoded.
//!
//! * [`builder`], [`provider`]: from settings to a client or an embedded model.
//! * [`client`], [`request`]: the configuration, and the requests that follow from it.
//! * [`response`], [`embedding`], [`models`], [`sse`]: what is read out of the answers.
//! * [`chat`], [`backend`], [`error`]: the vocabulary.
//! * [`text`], [`image`], [`json`], [`secret`], [`time`]: text, and the values of other
//!   crates that pass through.
//! * [`laws`]: what holds of all of this together.

pub mod backend;
pub mod builder;
pub mod chat;
pub mod client;
pub mod embedding;
pub mod error;
pub mod image;
pub mod json;
pub mod laws;
pub mod models;
pub mod provider;
pub mod request;
pub mod response;
pub mod secret;
pub mod sse;
pub mod text;
pub mod time;

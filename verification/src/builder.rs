//! The builder in which the settings of a provider are gathered.

use vstd::prelude::*;

use crate::backend::{effort_name, GoogleServiceTier, LLMBackend, ReasoningEffort};
use crate::chat::StructuredOutputFormat;
use crate::secret;
use crate::secret::ApiKey;

verus! {

/// The settings gathered so far. `F` is the type of the sampling numbers.
pub struct BuilderState<F> {
    pub backend: Option<LLMBackend>,
    pub api_key: Option<ApiKey>,
    pub base_url: Option<String>,
    pub model: Option<String>,
    pub max_tokens: Option<u32>,
    pub temperature: Option<F>,
    pub system: Option<String>,
    pub timeout_seconds: Option<u64>,
    pub normalize_response: Option<bool>,
    pub top_p: Option<F>,
    pub top_k: Option<u32>,
    pub reasoning: Option<bool>,
    pub reasoning_effort: Option<String>,
    pub reasoning_budget_tokens: Option<u32>,
    pub json_schema: Option<StructuredOutputFormat>,
    pub google_service_tier: Option<GoogleServiceTier>,
    pub quantization: Option<String>,
}

/// The state in which nothing is set.
pub open spec fn nothing_set<F>() -> BuilderState<F> {
    BuilderState {
        backend: None,
        api_key: None,
        base_url: None,
        model: None,
        max_tokens: None,
        temperature: None,
        system: None,
        timeout_seconds: None,
        normalize_response: None,
        top_p: None,
        top_k: None,
        reasoning: None,
        reasoning_effort: None,
        reasoning_budget_tokens: None,
        json_schema: None,
        google_service_tier: None,
        quantization: None,
    }
}

impl<F> BuilderState<F> {
    /// A state in which nothing is set.
    pub fn new() -> (state: BuilderState<F>)
        ensures
            state == nothing_set::<F>(),
    {
        BuilderState {
            backend: None,
            api_key: None,
            base_url: None,
            model: None,
            max_tokens: None,
            temperature: None,
            system: None,
            timeout_seconds: None,
            normalize_response: None,
            top_p: None,
            top_k: None,
            reasoning: None,
            reasoning_effort: None,
            reasoning_budget_tokens: None,
            json_schema: None,
            google_service_tier: None,
            quantization: None,
        }
    }

    /// The characters of the API key, if one is set.
    pub open spec fn api_key_text(self) -> Option<Seq<char>> {
        match self.api_key {
            Some(key) => Some(secret::key_text(key)),
            None => None,
        }
    }
}

/// Builder for configuring and instantiating LLM providers.
pub struct LLMBuilder<F> {
    pub state: BuilderState<F>,
}

impl<F> Default for LLMBuilder<F> {
    /// A builder in which nothing is set.
    fn default() -> (builder: LLMBuilder<F>)
        ensures
            builder.state == nothing_set::<F>(),
    {
        LLMBuilder { state: BuilderState::new() }
    }
}

impl<F> LLMBuilder<F> {
    /// Creates a new empty builder instance with default values.
    pub fn new() -> (builder: LLMBuilder<F>)
        ensures
            builder.state == nothing_set::<F>(),
    {
        Self::default()
    }

    /// Sets the backend provider to use.
    pub fn backend(self, backend: LLMBackend) -> (builder: LLMBuilder<F>)
        ensures
            builder.state == (BuilderState { backend: Some(backend), ..self.state }),
    {
        LLMBuilder { state: BuilderState { backend: Some(backend), ..self.state } }
    }

    /// Sets the API key for authentication.
    pub fn api_key(self, key: String) -> (builder: LLMBuilder<F>)
        ensures
            builder.state.api_key_text() == Some(key@),
            builder.state == (BuilderState { api_key: builder.state.api_key, ..self.state }),
    {
        LLMBuilder { state: BuilderState { api_key: Some(secret::seal(key)), ..self.state } }
    }

    /// Sets the base URL for API requests.
    pub fn base_url(self, url: String) -> (builder: LLMBuilder<F>)
        ensures
            builder.state == (BuilderState { base_url: Some(url), ..self.state }),
    {
        LLMBuilder { state: BuilderState { base_url: Some(url), ..self.state } }
    }

    /// Sets the model identifier to use.
    pub fn model(self, model: String) -> (builder: LLMBuilder<F>)
        ensures
            builder.state == (BuilderState { model: Some(model), ..self.state }),
    {
        LLMBuilder { state: BuilderState { model: Some(model), ..self.state } }
    }

    /// Sets the maximum number of tokens to generate.
    pub fn max_tokens(self, max_tokens: u32) -> (builder: LLMBuilder<F>)
        ensures
            builder.state == (BuilderState { max_tokens: Some(max_tokens), ..self.state }),
    {
        LLMBuilder { state: BuilderState { max_tokens: Some(max_tokens), ..self.state } }
    }

    /// Sets the temperature for controlling response randomness (0.0-1.0).
    pub fn temperature(self, temperature: F) -> (builder: LLMBuilder<F>)
        ensures
            builder.state == (BuilderState { temperature: Some(temperature), ..self.state }),
    {
        LLMBuilder { state: BuilderState { temperature: Some(temperature), ..self.state } }
    }

    /// Sets the system prompt/context.
    pub fn system(self, system: String) -> (builder: LLMBuilder<F>)
        ensures
            builder.state == (BuilderState { system: Some(system), ..self.state }),
    {
        LLMBuilder { state: BuilderState { system: Some(system), ..self.state } }
    }

    /// Sets the reasoning effort level.
    pub fn reasoning_effort(self, reasoning_effort: ReasoningEffort) -> (builder: LLMBuilder<F>)
        ensures
            builder.state.reasoning_effort.deep_view() == Some(effort_name(reasoning_effort)),
            builder.state == (BuilderState {
                reasoning_effort: builder.state.reasoning_effort,
                ..self.state
            }),
    {
        LLMBuilder {
            state: BuilderState {
                reasoning_effort: Some(reasoning_effort.to_string()),
                ..self.state
            },
        }
    }

    /// Sets the reasoning flag.
    pub fn reasoning(self, reasoning: bool) -> (builder: LLMBuilder<F>)
        ensures
            builder.state == (BuilderState { reasoning: Some(reasoning), ..self.state }),
    {
        LLMBuilder { state: BuilderState { reasoning: Some(reasoning), ..self.state } }
    }

    /// Sets the reasoning budget tokens.
    pub fn reasoning_budget_tokens(self, reasoning_budget_tokens: u32) -> (builder: LLMBuilder<F>)
        ensures
            builder.state == (BuilderState {
                reasoning_budget_tokens: Some(reasoning_budget_tokens),
                ..self.state
            }),
    {
        LLMBuilder {
            state: BuilderState {
                reasoning_budget_tokens: Some(reasoning_budget_tokens),
                ..self.state
            },
        }
    }

    /// Sets the request timeout in seconds.
    pub fn timeout_seconds(self, timeout_seconds: u64) -> (builder: LLMBuilder<F>)
        ensures
            builder.state == (BuilderState {
                timeout_seconds: Some(timeout_seconds),
                ..self.state
            }),
    {
        LLMBuilder { state: BuilderState { timeout_seconds: Some(timeout_seconds), ..self.state } }
    }

    /// Changes nothing: whether an answer is streamed is chosen with each request.
    pub fn stream(self, _stream: bool) -> (builder: LLMBuilder<F>)
        ensures
            builder == self,
    {
        self
    }

    /// Sets whether to normalize responses.
    pub fn normalize_response(self, normalize_response: bool) -> (builder: LLMBuilder<F>)
        ensures
            builder.state == (BuilderState {
                normalize_response: Some(normalize_response),
                ..self.state
            }),
    {
        LLMBuilder {
            state: BuilderState { normalize_response: Some(normalize_response), ..self.state },
        }
    }

    /// Sets the top_p sampling parameter.
    pub fn top_p(self, top_p: F) -> (builder: LLMBuilder<F>)
        ensures
            builder.state == (BuilderState { top_p: Some(top_p), ..self.state }),
    {
        LLMBuilder { state: BuilderState { top_p: Some(top_p), ..self.state } }
    }

    /// Sets the top_k sampling parameter.
    pub fn top_k(self, top_k: u32) -> (builder: LLMBuilder<F>)
        ensures
            builder.state == (BuilderState { top_k: Some(top_k), ..self.state }),
    {
        LLMBuilder { state: BuilderState { top_k: Some(top_k), ..self.state } }
    }

    /// Sets the Google service tier (standard, flex, or priority).
    ///
    /// Only applies when using the Google backend. Controls the cost/latency/reliability
    /// tradeoff.
    pub fn google_service_tier(self, service_tier: GoogleServiceTier) -> (builder: LLMBuilder<F>)
        ensures
            builder.state == (BuilderState {
                google_service_tier: Some(service_tier),
                ..self.state
            }),
    {
        LLMBuilder {
            state: BuilderState { google_service_tier: Some(service_tier), ..self.state },
        }
    }

    /// Sets the quantization level for embedded mistral.rs models.
    ///
    /// Only applies when using the MistralRs backend with embedded mode.
    /// Use "q4" for 4-bit, "q8" for 8-bit, or "none" for no quantization.
    /// Default is 4-bit quantization for lower memory usage.
    ///
    /// Embedded mode is automatically enabled when the model identifier
    /// contains a '/' (e.g., "Qwen/Qwen3-4B").
    pub fn quantization(self, quantization: String) -> (builder: LLMBuilder<F>)
        ensures
            builder.state == (BuilderState { quantization: Some(quantization), ..self.state }),
    {
        LLMBuilder { state: BuilderState { quantization: Some(quantization), ..self.state } }
    }
}

} // verus!

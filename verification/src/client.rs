//! The client of a mistral.rs server: its configuration and the requests that it makes.

use std::sync::Arc;
use vstd::prelude::*;

use crate::chat;
use crate::chat::{ChatMessage, StructuredOutputFormat, Tool};
use crate::error::{LLMError, LLMErrorView};
use crate::request;
use crate::request::{
    ChatRequestView, CompletionRequest, CompletionRequestView, EmbeddingRequestView,
    MistralRsChatMessage, MistralRsChatRequest, MistralRsCompletionRequest,
    MistralRsEmbeddingRequest, MistralRsMessageContent,
};
use crate::text;

verus! {

/// The message with which chats that hold sound are refused.
pub const AUDIO_UNSUPPORTED: &'static str = "Audio messages are not supported by mistral.rs chat";

/// Configuration of a [`MistralRs`] client.
///
/// `F` is the type of the sampling numbers, which are only passed on.
#[derive(Debug)]
pub struct MistralRsConfig<F> {
    /// Base URL of the server.
    pub base_url: String,
    /// API key for authentication, if the server asks for one.
    pub api_key: Option<String>,
    /// Model identifier.
    pub model: String,
    /// Maximum tokens to generate in responses.
    pub max_tokens: Option<u32>,
    /// Sampling temperature for response randomness.
    pub temperature: Option<F>,
    /// System prompt to guide model behavior.
    pub system: Option<String>,
    /// Request timeout in seconds.
    pub timeout_seconds: Option<u64>,
    /// Top-p (nucleus) sampling parameter.
    pub top_p: Option<F>,
    /// Top-k sampling parameter.
    pub top_k: Option<u32>,
    /// JSON schema for structured output.
    pub json_schema: Option<StructuredOutputFormat>,
    /// Available tools for the model to use.
    pub tools: Option<Vec<Tool>>,
}

/// Client of a mistral.rs server with its OpenAI-compatible API.
///
/// `C` is the type of the HTTP client, which is only kept. The configuration is shared, so
/// that cloning is cheap.
#[derive(Debug)]
pub struct MistralRs<F, C> {
    /// Shared configuration.
    pub config: Arc<MistralRsConfig<F>>,
    /// HTTP client for making requests.
    pub client: C,
}

impl<F, C: Clone> Clone for MistralRs<F, C> {
    /// A client with the same configuration and a clone of the HTTP client.
    fn clone(&self) -> (copy: Self)
        ensures
            copy.config == self.config,
            cloned(self.client, copy.client),
    {
        MistralRs { config: self.config.clone(), client: self.client.clone() }
    }
}

/// The HTTP method of a request.
#[derive(Debug, Clone, Copy, PartialEq, Eq, Structural)]
pub enum Method {
    Get,
    Post,
}

/// A request that is ready to be sent.
#[derive(Debug)]
pub struct ApiCall<B> {
    pub method: Method,
    pub url: String,
    /// The token for bearer authentication, if there is one.
    pub bearer: Option<String>,
    /// How long to wait for the answer, if there is a limit.
    pub timeout_seconds: Option<u64>,
    /// What is sent as JSON.
    pub body: B,
}

/// A [`MistralRsConfig`] with its texts as sequences of characters.
pub ghost struct ConfigView<F> {
    pub base_url: Seq<char>,
    pub api_key: Option<Seq<char>>,
    pub model: Seq<char>,
    pub max_tokens: Option<u32>,
    pub temperature: Option<F>,
    pub system: Option<Seq<char>>,
    pub timeout_seconds: Option<u64>,
    pub top_p: Option<F>,
    pub top_k: Option<u32>,
    pub json_schema: Option<StructuredOutputFormat>,
    pub tools: Option<Vec<Tool>>,
}

/// An [`ApiCall`] as a value.
pub ghost struct ApiCallView<V> {
    pub method: Method,
    pub url: Seq<char>,
    pub bearer: Option<Seq<char>>,
    pub timeout_seconds: Option<u64>,
    pub body: V,
}

impl<F> View for MistralRsConfig<F> {
    type V = ConfigView<F>;

    open spec fn view(&self) -> ConfigView<F> {
        ConfigView {
            base_url: self.base_url@,
            api_key: self.api_key.deep_view(),
            model: self.model@,
            max_tokens: self.max_tokens,
            temperature: self.temperature,
            system: self.system.deep_view(),
            timeout_seconds: self.timeout_seconds,
            top_p: self.top_p,
            top_k: self.top_k,
            json_schema: self.json_schema,
            tools: self.tools,
        }
    }
}

impl<B: DeepView> DeepView for ApiCall<B> {
    type V = ApiCallView<B::V>;

    open spec fn deep_view(&self) -> ApiCallView<B::V> {
        ApiCallView {
            method: self.method,
            url: self.url@,
            bearer: self.bearer.deep_view(),
            timeout_seconds: self.timeout_seconds,
            body: self.body.deep_view(),
        }
    }
}

/// The model name: the given one, or `default`.
pub open spec fn model_or_default(model: Option<Seq<char>>) -> Seq<char> {
    match model {
        Some(model) => model,
        None => "default"@,
    }
}

/// The chat messages that are sent: the system prompt first, if there is one.
pub open spec fn conversation(system: Option<Seq<char>>, messages: Seq<ChatMessage>) -> Seq<
    request::MessageView,
> {
    match system {
        Some(prompt) => seq![request::system_message(prompt)] + request::messages_of(messages),
        None => request::messages_of(messages),
    }
}

/// The body of a chat request.
pub open spec fn chat_body<F>(
    config: ConfigView<F>,
    messages: Seq<ChatMessage>,
    tools: Option<Seq<Tool>>,
    stream: bool,
) -> ChatRequestView<F> {
    ChatRequestView {
        model: config.model,
        messages: conversation(config.system, messages),
        stream,
        max_tokens: config.max_tokens,
        temperature: config.temperature,
        top_p: config.top_p,
        tools: match tools {
            Some(tools) => Some(request::tools_of(tools)),
            None => None,
        },
        response_format: request::response_format_of(config.json_schema),
    }
}

/// A request to the server of `config`, with its key and its timeout.
pub open spec fn call_to<F, V>(
    config: ConfigView<F>,
    method: Method,
    path: Seq<char>,
    body: V,
) -> ApiCallView<V> {
    ApiCallView {
        method,
        url: config.base_url + path,
        bearer: config.api_key,
        timeout_seconds: config.timeout_seconds,
        body,
    }
}

/// The outcome of preparing a request, with its texts as sequences of characters.
pub open spec fn prepared<B: DeepView>(outcome: Result<ApiCall<B>, LLMError>) -> Result<
    ApiCallView<B::V>,
    LLMErrorView,
> {
    match outcome {
        Ok(call) => Ok(call.deep_view()),
        Err(error) => Err(error@),
    }
}

/// `call`, or the refusal of a configuration without a base URL.
pub open spec fn with_base_url<F, V>(config: ConfigView<F>, call: ApiCallView<V>) -> Result<
    ApiCallView<V>,
    LLMErrorView,
> {
    if config.base_url.len() == 0 {
        Err(LLMErrorView::InvalidRequest("Missing base_url"@))
    } else {
        Ok(call)
    }
}

/// What is sent to have a chat answered, or why nothing is.
pub open spec fn chat_with_tools_outcome<F>(
    config: ConfigView<F>,
    messages: Seq<ChatMessage>,
    tools: Option<Seq<Tool>>,
) -> Result<ApiCallView<ChatRequestView<F>>, LLMErrorView> {
    if chat::has_audio(messages) {
        Err(LLMErrorView::InvalidRequest(AUDIO_UNSUPPORTED@))
    } else {
        with_base_url(
            config,
            call_to(
                config,
                Method::Post,
                "/v1/chat/completions"@,
                chat_body(config, messages, tools, false),
            ),
        )
    }
}

/// What is sent to have a chat answered token by token, or why nothing is.
pub open spec fn chat_stream_outcome<F>(
    config: ConfigView<F>,
    messages: Seq<ChatMessage>,
) -> Result<ApiCallView<ChatRequestView<F>>, LLMErrorView> {
    if chat::has_audio(messages) {
        Err(LLMErrorView::InvalidRequest(AUDIO_UNSUPPORTED@))
    } else {
        Ok(
            call_to(
                config,
                Method::Post,
                "/v1/chat/completions"@,
                chat_body(config, messages, None, true),
            ),
        )
    }
}

/// What is sent to have a text completed, or why nothing is.
pub open spec fn complete_outcome<F>(config: ConfigView<F>, prompt: Seq<char>) -> Result<
    ApiCallView<CompletionRequestView<F>>,
    LLMErrorView,
> {
    with_base_url(
        config,
        call_to(
            config,
            Method::Post,
            "/v1/completions"@,
            CompletionRequestView {
                model: config.model,
                prompt,
                max_tokens: config.max_tokens,
                temperature: config.temperature,
            },
        ),
    )
}

/// What is sent to have texts embedded, or why nothing is.
pub open spec fn embed_outcome<F>(config: ConfigView<F>, input: Seq<Seq<char>>) -> Result<
    ApiCallView<EmbeddingRequestView>,
    LLMErrorView,
> {
    with_base_url(
        config,
        call_to(
            config,
            Method::Post,
            "/v1/embeddings"@,
            EmbeddingRequestView { model: config.model, input },
        ),
    )
}

/// What is sent to learn which models there are, or why nothing is.
pub open spec fn list_models_outcome<F>(config: ConfigView<F>) -> Result<
    ApiCallView<()>,
    LLMErrorView,
> {
    with_base_url(config, call_to(config, Method::Get, "/v1/models"@, ()))
}

fn duplicate(text: &Option<String>) -> (copy: Option<String>)
    ensures
        copy == *text,
{
    match text {
        Some(text) => Some(text.clone()),
        None => None,
    }
}

impl<F: Copy, C> MistralRs<F, C> {
    /// Creates a client with the specified configuration.
    ///
    /// `make_client` makes the HTTP client; it is given the request timeout in seconds, if
    /// there is one.
    pub fn new<B: FnOnce(Option<u64>) -> C>(
        make_client: B,
        base_url: String,
        api_key: Option<String>,
        model: Option<String>,
        max_tokens: Option<u32>,
        temperature: Option<F>,
        timeout_seconds: Option<u64>,
        system: Option<String>,
        top_p: Option<F>,
        top_k: Option<u32>,
        json_schema: Option<StructuredOutputFormat>,
        tools: Option<Vec<Tool>>,
    ) -> (made: MistralRs<F, C>)
        requires
            call_requires(make_client, (timeout_seconds,)),
        ensures
            call_ensures(make_client, (timeout_seconds,), made.client),
            made.config@ == (ConfigView {
                base_url: base_url@,
                api_key: api_key.deep_view(),
                model: model_or_default(model.deep_view()),
                max_tokens,
                temperature,
                system: system.deep_view(),
                timeout_seconds,
                top_p,
                top_k,
                json_schema,
                tools,
            }),
    {
        Self::with_client(
            make_client(timeout_seconds),
            base_url,
            api_key,
            model,
            max_tokens,
            temperature,
            timeout_seconds,
            system,
            top_p,
            top_k,
            json_schema,
            tools,
        )
    }

    /// Creates a client with a custom HTTP client.
    pub fn with_client(
        client: C,
        base_url: String,
        api_key: Option<String>,
        model: Option<String>,
        max_tokens: Option<u32>,
        temperature: Option<F>,
        timeout_seconds: Option<u64>,
        system: Option<String>,
        top_p: Option<F>,
        top_k: Option<u32>,
        json_schema: Option<StructuredOutputFormat>,
        tools: Option<Vec<Tool>>,
    ) -> (made: MistralRs<F, C>)
        ensures
            made.client == client,
            made.config@ == (ConfigView {
                base_url: base_url@,
                api_key: api_key.deep_view(),
                model: model_or_default(model.deep_view()),
                max_tokens,
                temperature,
                system: system.deep_view(),
                timeout_seconds,
                top_p,
                top_k,
                json_schema,
                tools,
            }),
    {
        MistralRs {
            config: Arc::new(
                MistralRsConfig {
                    base_url,
                    api_key,
                    model: match model {
                        Some(model) => model,
                        None => "default".to_owned(),
                    },
                    max_tokens,
                    temperature,
                    system,
                    timeout_seconds,
                    top_p,
                    top_k,
                    json_schema,
                    tools,
                },
            ),
            client,
        }
    }

    pub fn base_url(&self) -> (url: &str)
        ensures
            url@ == self.config.base_url@,
    {
        self.config.base_url.as_str()
    }

    pub fn api_key(&self) -> (key: Option<&str>)
        ensures
            key.deep_view() == self.config.api_key.deep_view(),
    {
        match &self.config.api_key {
            Some(key) => Some(key.as_str()),
            None => None,
        }
    }

    pub fn model(&self) -> (model: &str)
        ensures
            model@ == self.config.model@,
    {
        self.config.model.as_str()
    }

    pub fn max_tokens(&self) -> (limit: Option<u32>)
        ensures
            limit == self.config.max_tokens,
    {
        self.config.max_tokens
    }

    pub fn temperature(&self) -> (temperature: Option<F>)
        ensures
            temperature == self.config.temperature,
    {
        self.config.temperature
    }

    pub fn timeout_seconds(&self) -> (timeout: Option<u64>)
        ensures
            timeout == self.config.timeout_seconds,
    {
        self.config.timeout_seconds
    }

    pub fn system(&self) -> (prompt: Option<&str>)
        ensures
            prompt.deep_view() == self.config.system.deep_view(),
    {
        match &self.config.system {
            Some(prompt) => Some(prompt.as_str()),
            None => None,
        }
    }

    pub fn top_p(&self) -> (top_p: Option<F>)
        ensures
            top_p == self.config.top_p,
    {
        self.config.top_p
    }

    pub fn top_k(&self) -> (top_k: Option<u32>)
        ensures
            top_k == self.config.top_k,
    {
        self.config.top_k
    }

    pub fn json_schema(&self) -> (format: Option<&StructuredOutputFormat>)
        ensures
            match format {
                Some(format) => self.config.json_schema == Some(*format),
                None => self.config.json_schema is None,
            },
    {
        match &self.config.json_schema {
            Some(format) => Some(format),
            None => None,
        }
    }

    pub fn tools(&self) -> (tools: Option<&[Tool]>)
        ensures
            match tools {
                Some(tools) => self.config.tools matches Some(all) && tools@ == all@,
                None => self.config.tools is None,
            },
    {
        match &self.config.tools {
            Some(tools) => Some(tools.as_slice()),
            None => None,
        }
    }

    pub fn client(&self) -> (client: &C)
        ensures
            *client == self.client,
    {
        &self.client
    }

    /// The body of a chat request: the system prompt, then the messages, with the tools and
    /// the limits that apply.
    pub fn make_chat_request<'a>(
        &'a self,
        messages: &'a [ChatMessage],
        tools: Option<&'a [Tool]>,
        stream: bool,
    ) -> (body: MistralRsChatRequest<'a, F>)
        ensures
            body.deep_view() == chat_body(
                self.config@,
                messages@,
                match tools {
                    Some(tools) => Some(tools@),
                    None => None,
                },
                stream,
            ),
    {
        let mut chat_messages = request::chat_messages(messages);
        match &self.config.system {
            Some(system) => {
                let ghost before = chat_messages.deep_view();
                let first = MistralRsChatMessage {
                    role: "system",
                    content: Some(MistralRsMessageContent::Text(system.as_str())),
                };
                chat_messages.insert(0, first);
                proof {
                    assert(chat_messages.deep_view() =~= seq![first.deep_view()] + before);
                }
            },
            None => {},
        }
        let sent_tools = match tools {
            Some(tools) => Some(request::chat_tools(tools)),
            None => None,
        };
        MistralRsChatRequest {
            model: self.config.model.clone(),
            messages: chat_messages,
            stream,
            max_tokens: self.config.max_tokens,
            temperature: self.config.temperature,
            top_p: self.config.top_p,
            tools: sent_tools,
            response_format: request::response_format(&self.config.json_schema),
        }
    }

    /// A request to the server, with the key and the timeout of the configuration.
    fn call<B: DeepView>(&self, method: Method, path: &str, body: B) -> (call: ApiCall<B>)
        ensures
            call.deep_view() == call_to(self.config@, method, path@, body.deep_view()),
    {
        ApiCall {
            method,
            url: text::joined(self.config.base_url.as_str(), path),
            bearer: duplicate(&self.config.api_key),
            timeout_seconds: self.config.timeout_seconds,
            body,
        }
    }

    /// Refuses to go on without a base URL.
    fn ensure_base_url(&self) -> (checked: Result<(), LLMError>)
        ensures
            checked is Ok <==> self.config@.base_url.len() > 0,
            checked matches Err(error) ==> error@ == LLMErrorView::InvalidRequest(
                "Missing base_url"@,
            ),
    {
        if self.config.base_url.as_str().is_empty() {
            Err(LLMError::InvalidRequest("Missing base_url".to_owned()))
        } else {
            Ok(())
        }
    }

    /// The request that has a chat answered.
    ///
    /// Sound is refused, and so is a configuration without a base URL.
    pub fn chat_with_tools_request<'a>(
        &'a self,
        messages: &'a [ChatMessage],
        tools: Option<&'a [Tool]>,
    ) -> (outcome: Result<ApiCall<MistralRsChatRequest<'a, F>>, LLMError>)
        ensures
            prepared(outcome) == chat_with_tools_outcome(
                self.config@,
                messages@,
                match tools {
                    Some(tools) => Some(tools@),
                    None => None,
                },
            ),
    {
        chat::ensure_no_audio(messages, AUDIO_UNSUPPORTED)?;
        self.ensure_base_url()?;
        let body = self.make_chat_request(messages, tools, false);
        Ok(self.call(Method::Post, "/v1/chat/completions", body))
    }

    /// The request that has a chat answered token by token.
    ///
    /// Sound is refused.
    pub fn chat_stream_request<'a>(&'a self, messages: &'a [ChatMessage]) -> (outcome: Result<
        ApiCall<MistralRsChatRequest<'a, F>>,
        LLMError,
    >)
        ensures
            prepared(outcome) == chat_stream_outcome(self.config@, messages@),
    {
        chat::ensure_no_audio(messages, AUDIO_UNSUPPORTED)?;
        let body = self.make_chat_request(messages, None, true);
        Ok(self.call(Method::Post, "/v1/chat/completions", body))
    }

    /// The request that has a text completed.
    ///
    /// A configuration without a base URL is refused.
    pub fn complete_request(&self, req: &CompletionRequest) -> (outcome: Result<
        ApiCall<MistralRsCompletionRequest<F>>,
        LLMError,
    >)
        ensures
            prepared(outcome) == complete_outcome(self.config@, req.prompt@),
    {
        self.ensure_base_url()?;
        let body = MistralRsCompletionRequest {
            model: self.config.model.clone(),
            prompt: req.prompt.clone(),
            max_tokens: self.config.max_tokens,
            temperature: self.config.temperature,
        };
        Ok(self.call(Method::Post, "/v1/completions", body))
    }

    /// The request that has texts embedded.
    ///
    /// A configuration without a base URL is refused.
    pub fn embed_request(&self, input: Vec<String>) -> (outcome: Result<
        ApiCall<MistralRsEmbeddingRequest>,
        LLMError,
    >)
        ensures
            prepared(outcome) == embed_outcome(self.config@, input.deep_view()),
    {
        self.ensure_base_url()?;
        let body = MistralRsEmbeddingRequest { model: self.config.model.clone(), input };
        Ok(self.call(Method::Post, "/v1/embeddings", body))
    }

    /// The request for the list of models.
    ///
    /// A configuration without a base URL is refused.
    pub fn list_models_request(&self) -> (outcome: Result<ApiCall<()>, LLMError>)
        ensures
            prepared(outcome) == list_models_outcome(self.config@),
    {
        self.ensure_base_url()?;
        Ok(self.call(Method::Get, "/v1/models", ()))
    }

    /// Speech to text, which mistral.rs does not offer.
    pub fn transcribe(&self, _audio: Vec<u8>) -> (text: Result<String, LLMError>)
        ensures
            text matches Err(error) && error@ == LLMErrorView::ProviderError(
                "mistral.rs does not implement speech to text endpoint yet."@,
            ),
    {
        Err(
            LLMError::ProviderError(
                "mistral.rs does not implement speech to text endpoint yet.".to_owned(),
            ),
        )
    }

    /// Text to speech, which mistral.rs does not offer.
    pub fn speech(&self, _text: &str) -> (audio: Result<Vec<u8>, LLMError>)
        ensures
            audio matches Err(error) && error@ == LLMErrorView::ProviderError(
                "mistral.rs does not implement text to speech endpoint yet."@,
            ),
    {
        Err(
            LLMError::ProviderError(
                "mistral.rs does not implement text to speech endpoint yet.".to_owned(),
            ),
        )
    }
}

} // verus!

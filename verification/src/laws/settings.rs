//! What becomes of the settings: in the builder, in a client, in an embedded model.

use vstd::prelude::*;

use crate::backend::{GoogleServiceTier, LLMBackend, MistralRsQuantization, ReasoningEffort};
use crate::builder::{BuilderState, LLMBuilder};
use crate::chat::{ChatMessage, StructuredOutputFormat, Tool};
use crate::client::{ApiCall, MistralRs};
use crate::error::LLMError;
use crate::laws::requests::{
    law_chat_is_posted, law_chat_is_sent_whole, law_models_are_asked_for, law_prompt_is_posted,
    law_streamed_chat_is_posted, law_texts_are_posted,
};
use crate::provider::{
    asks_for_embedded, build_mistral_rs, embedded_with_runtime, quantization_level, EmbeddedModel,
    MistralRsMode,
};
use crate::request::{
    CompletionRequest, MistralRsChatRequest, MistralRsCompletionRequest, MistralRsEmbeddingRequest,
    MistralRsMessageContent,
};
use crate::secret::key_text;

verus! {

/// In a new builder nothing is set.
pub proof fn law_new_builder_has_nothing_set<F>(
    state: BuilderState<F>,
    builder: LLMBuilder<F>,
    default: LLMBuilder<F>,
)
    requires
        call_ensures(BuilderState::<F>::new, (), state),
        call_ensures(LLMBuilder::<F>::new, (), builder),
        call_ensures(LLMBuilder::<F>::default, (), default),
    ensures
        builder.state == state,
        default.state == state,
        state.backend is None,
        state.api_key is None,
        state.base_url is None,
        state.model is None,
        state.max_tokens is None,
        state.temperature is None,
        state.system is None,
        state.timeout_seconds is None,
        state.normalize_response is None,
        state.top_p is None,
        state.top_k is None,
        state.reasoning is None,
        state.reasoning_effort is None,
        state.reasoning_budget_tokens is None,
        state.json_schema is None,
        state.google_service_tier is None,
        state.quantization is None,
{
}

/// A text that is set is there as it was given, and no other setting changes.
pub proof fn law_texts_that_are_set_are_kept<F>(
    builder: LLMBuilder<F>,
    text: String,
    after: LLMBuilder<F>,
)
    ensures
        call_ensures(LLMBuilder::<F>::base_url, (builder, text), after) ==> after.state == (
        BuilderState { base_url: Some(text), ..builder.state }),
        call_ensures(LLMBuilder::<F>::model, (builder, text), after) ==> after.state == (
        BuilderState { model: Some(text), ..builder.state }),
        call_ensures(LLMBuilder::<F>::system, (builder, text), after) ==> after.state == (
        BuilderState { system: Some(text), ..builder.state }),
        call_ensures(LLMBuilder::<F>::quantization, (builder, text), after) ==> after.state == (
        BuilderState { quantization: Some(text), ..builder.state }),
        call_ensures(LLMBuilder::<F>::api_key, (builder, text), after) ==> {
            &&& after.state.api_key matches Some(key)
            &&& key_text(key) == text@
            &&& after.state == (BuilderState { api_key: Some(key), ..builder.state })
        },
{
}

/// A number that is set is there as it was given, and no other setting changes.
pub proof fn law_numbers_that_are_set_are_kept<F>(
    builder: LLMBuilder<F>,
    sampling: F,
    count: u32,
    seconds: u64,
    after: LLMBuilder<F>,
)
    ensures
        call_ensures(LLMBuilder::<F>::temperature, (builder, sampling), after) ==> after.state == (
        BuilderState { temperature: Some(sampling), ..builder.state }),
        call_ensures(LLMBuilder::<F>::top_p, (builder, sampling), after) ==> after.state == (
        BuilderState { top_p: Some(sampling), ..builder.state }),
        call_ensures(LLMBuilder::<F>::top_k, (builder, count), after) ==> after.state == (
        BuilderState { top_k: Some(count), ..builder.state }),
        call_ensures(LLMBuilder::<F>::max_tokens, (builder, count), after) ==> after.state == (
        BuilderState { max_tokens: Some(count), ..builder.state }),
        call_ensures(LLMBuilder::<F>::reasoning_budget_tokens, (builder, count), after)
            ==> after.state == (BuilderState {
            reasoning_budget_tokens: Some(count),
            ..builder.state
        }),
        call_ensures(LLMBuilder::<F>::timeout_seconds, (builder, seconds), after) ==> after.state
            == (BuilderState { timeout_seconds: Some(seconds), ..builder.state }),
{
}

/// A choice that is set is there as it was made, and no other setting changes. Whether to
/// stream is no setting: it changes nothing.
pub proof fn law_choices_that_are_set_are_kept<F>(
    builder: LLMBuilder<F>,
    backend: LLMBackend,
    effort: ReasoningEffort,
    tier: GoogleServiceTier,
    flag: bool,
    after: LLMBuilder<F>,
)
    ensures
        call_ensures(LLMBuilder::<F>::backend, (builder, backend), after) ==> after.state == (
        BuilderState { backend: Some(backend), ..builder.state }),
        call_ensures(LLMBuilder::<F>::reasoning_effort, (builder, effort), after) ==> {
            &&& after.state.reasoning_effort matches Some(name)
            &&& name@ == match effort {
                ReasoningEffort::Low => "low"@,
                ReasoningEffort::Medium => "medium"@,
                ReasoningEffort::High => "high"@,
            }
            &&& after.state == (BuilderState { reasoning_effort: Some(name), ..builder.state })
        },
        call_ensures(LLMBuilder::<F>::google_service_tier, (builder, tier), after) ==> after.state
            == (BuilderState { google_service_tier: Some(tier), ..builder.state }),
        call_ensures(LLMBuilder::<F>::reasoning, (builder, flag), after) ==> after.state == (
        BuilderState { reasoning: Some(flag), ..builder.state }),
        call_ensures(LLMBuilder::<F>::normalize_response, (builder, flag), after) ==> after.state
            == (BuilderState { normalize_response: Some(flag), ..builder.state }),
        call_ensures(LLMBuilder::<F>::stream, (builder, flag), after) ==> after == builder,
{
}

/// Each reasoning effort has its name.
pub proof fn law_efforts_have_their_names(effort: &ReasoningEffort, name: String)
    requires
        call_ensures(ReasoningEffort::to_string, (effort,), name),
    ensures
        effort is Low ==> name@ == "low"@,
        effort is Medium ==> name@ == "medium"@,
        effort is High ==> name@ == "high"@,
{
}

/// A client has what it is made of, each setting whatever the others are; without a model it
/// is for the model `default`.
pub proof fn law_client_has_what_it_is_made_of<F: Copy, C>(
    client: C,
    base_url: String,
    api_key: Option<String>,
    model: Option<String>,
    max_tokens: Option<u32>,
    temperature: Option<F>,
    timeout_seconds: Option<u64>,
    system: Option<String>,
    top_p: Option<F>,
    top_k: Option<u32>,
    json_schema: Option<StructuredOutputFormat>,
    tools: Option<Vec<Tool>>,
    made: MistralRs<F, C>,
)
    requires
        call_ensures(
            MistralRs::<F, C>::with_client,
            (
                client,
                base_url,
                api_key,
                model,
                max_tokens,
                temperature,
                timeout_seconds,
                system,
                top_p,
                top_k,
                json_schema,
                tools,
            ),
            made,
        ),
    ensures
        made.client == client,
        made.config.base_url@ == base_url@,
        made.config.api_key.deep_view() == api_key.deep_view(),
        model matches Some(model) ==> made.config.model@ == model@,
        model is None ==> made.config.model@ == "default"@,
        made.config.max_tokens == max_tokens,
        made.config.temperature == temperature,
        made.config.timeout_seconds == timeout_seconds,
        made.config.system.deep_view() == system.deep_view(),
        made.config.top_p == top_p,
        made.config.top_k == top_k,
        made.config.json_schema == json_schema,
        made.config.tools == tools,
{
}

/// A client that makes its own HTTP client has what it is made of too, and the HTTP client is
/// one that is made for its timeout.
pub proof fn law_new_client_has_what_it_is_made_of<F: Copy, C, B: FnOnce(Option<u64>) -> C>(
    make_client: B,
    base_url: String,
    api_key: Option<String>,
    model: Option<String>,
    max_tokens: Option<u32>,
    temperature: Option<F>,
    timeout_seconds: Option<u64>,
    system: Option<String>,
    top_p: Option<F>,
    top_k: Option<u32>,
    json_schema: Option<StructuredOutputFormat>,
    tools: Option<Vec<Tool>>,
    made: MistralRs<F, C>,
)
    requires
        call_ensures(
            MistralRs::<F, C>::new::<B>,
            (
                make_client,
                base_url,
                api_key,
                model,
                max_tokens,
                temperature,
                timeout_seconds,
                system,
                top_p,
                top_k,
                json_schema,
                tools,
            ),
            made,
        ),
    ensures
        call_ensures(make_client, (timeout_seconds,), made.client),
        made.config.base_url@ == base_url@,
        made.config.api_key.deep_view() == api_key.deep_view(),
        model matches Some(model) ==> made.config.model@ == model@,
        model is None ==> made.config.model@ == "default"@,
        made.config.max_tokens == max_tokens,
        made.config.temperature == temperature,
        made.config.timeout_seconds == timeout_seconds,
        made.config.system.deep_view() == system.deep_view(),
        made.config.top_p == top_p,
        made.config.top_k == top_k,
        made.config.json_schema == json_schema,
        made.config.tools == tools,
{
}

/// A client tells its configuration as it is.
pub proof fn law_client_tells_its_configuration<F: Copy, C>(
    client: &MistralRs<F, C>,
    text: &str,
    optional_text: Option<&str>,
    count: Option<u32>,
    sampling: Option<F>,
    seconds: Option<u64>,
    format: Option<&StructuredOutputFormat>,
    tools: Option<&[Tool]>,
    http: &C,
)
    ensures
        call_ensures(MistralRs::<F, C>::base_url, (client,), text) ==> text@
            == client.config.base_url@,
        call_ensures(MistralRs::<F, C>::model, (client,), text) ==> text@ == client.config.model@,
        call_ensures(MistralRs::<F, C>::api_key, (client,), optional_text)
            ==> optional_text.deep_view() == client.config.api_key.deep_view(),
        call_ensures(MistralRs::<F, C>::system, (client,), optional_text)
            ==> optional_text.deep_view() == client.config.system.deep_view(),
        call_ensures(MistralRs::<F, C>::max_tokens, (client,), count) ==> count
            == client.config.max_tokens,
        call_ensures(MistralRs::<F, C>::top_k, (client,), count) ==> count == client.config.top_k,
        call_ensures(MistralRs::<F, C>::temperature, (client,), sampling) ==> sampling
            == client.config.temperature,
        call_ensures(MistralRs::<F, C>::top_p, (client,), sampling) ==> sampling
            == client.config.top_p,
        call_ensures(MistralRs::<F, C>::timeout_seconds, (client,), seconds) ==> seconds
            == client.config.timeout_seconds,
        call_ensures(MistralRs::<F, C>::json_schema, (client,), format) ==> match format {
            Some(format) => client.config.json_schema == Some(*format),
            None => client.config.json_schema is None,
        },
        call_ensures(MistralRs::<F, C>::tools, (client,), tools) ==> match tools {
            Some(tools) => client.config.tools matches Some(all) && tools@ == all@,
            None => client.config.tools is None,
        },
        call_ensures(MistralRs::<F, C>::client, (client,), http) ==> *http == client.client,
{
}

/// Four bits stand for themselves and for no setting at all, eight bits for themselves, and
/// every other setting for no quantization.
pub proof fn law_quantization_is_as_named(
    setting: &Option<String>,
    level: MistralRsQuantization,
    unset: MistralRsQuantization,
)
    requires
        call_ensures(quantization_level, (setting,), level),
        call_ensures(MistralRsQuantization::default, (), unset),
    ensures
        unset is Q4,
        setting is None ==> level is Q4,
        setting matches Some(name) ==> {
            &&& level is Q4 <==> name@ == "q4"@ || name@ == "4"@
            &&& level is Q8 <==> name@ == "q8"@ || name@ == "8"@
        },
{
    reveal_strlit("q4");
    reveal_strlit("4");
    reveal_strlit("q8");
    reveal_strlit("8");
    assert("q4"@[1] == '4' && "q8"@[1] == '8' && "4"@[0] == '4' && "8"@[0] == '8');
}

/// Settings whose model has a separator in its name, where models can be embedded, and no
/// others, give no client of a server. A client of a server has every one of its settings,
/// each whatever the others are; without a base URL it is one of a local server, and without a
/// model it is for the model `default`. What it owns of the settings it takes with it, and
/// nothing else is changed.
pub proof fn law_server_client_has_the_settings<
    F: Copy,
    C,
    M,
    R,
    B: FnOnce(Option<u64>) -> C,
    S: FnOnce() -> Result<R, String>,
    L: FnOnce(R, EmbeddedModel<F>) -> Result<M, LLMError>,
>(
    state: &mut BuilderState<F>,
    tools: Option<Vec<Tool>>,
    embedding: bool,
    make_client: B,
    start: S,
    load: L,
    built: Result<MistralRsMode<F, C, M>, LLMError>,
)
    requires
        call_ensures(
            build_mistral_rs::<F, C, M, R, B, S, L>,
            (state, tools, embedding, make_client, start, load),
            built,
        ),
        !embedding || old(state).model is None || !(old(state).model->0@.contains('/') || old(
            state,
        ).model->0@.contains('\\')),
    ensures
        built matches Ok(MistralRsMode::Server(client)) && {
            &&& call_ensures(make_client, (old(state).timeout_seconds,), client.client)
            &&& old(state).base_url matches Some(url) ==> client.config.base_url@ == url@
            &&& old(state).base_url is None ==> client.config.base_url@ == "http://localhost:1234"@
            &&& match (old(state).api_key, client.config.api_key) {
                (Some(key), Some(text)) => text@ == key_text(key),
                (None, None) => true,
                _ => false,
            }
            &&& old(state).model matches Some(model) ==> client.config.model@ == model@
            &&& old(state).model is None ==> client.config.model@ == "default"@
            &&& client.config.max_tokens == old(state).max_tokens
            &&& client.config.temperature == old(state).temperature
            &&& client.config.system.deep_view() == old(state).system.deep_view()
            &&& client.config.timeout_seconds == old(state).timeout_seconds
            &&& client.config.top_p == old(state).top_p
            &&& client.config.top_k == old(state).top_k
            &&& client.config.json_schema == old(state).json_schema
            &&& client.config.tools == tools
        },
        final(state).base_url is None,
        final(state).api_key is None,
        final(state).system is None,
        final(state).json_schema is None,
        embedding ==> final(state).model == old(state).model,
        !embedding ==> final(state).model is None,
        final(state).backend == old(state).backend,
        final(state).max_tokens == old(state).max_tokens,
        final(state).temperature == old(state).temperature,
        final(state).timeout_seconds == old(state).timeout_seconds,
        final(state).normalize_response == old(state).normalize_response,
        final(state).top_p == old(state).top_p,
        final(state).top_k == old(state).top_k,
        final(state).reasoning == old(state).reasoning,
        final(state).reasoning_effort == old(state).reasoning_effort,
        final(state).reasoning_budget_tokens == old(state).reasoning_budget_tokens,
        final(state).google_service_tier == old(state).google_service_tier,
        final(state).quantization == old(state).quantization,
{
    lemma_default_is_no_path();
    assert(!(embedding && asks_for_embedded(*old(state))));
}

/// The settings out of which a client is built are in everything that it sends: the model
/// everywhere, the limits and the sampling numbers in every chat and completion, the system
/// prompt at the head of every chat, the key and the timeout on every request, and every
/// request goes to an address of the server that is set.
pub proof fn law_built_client_sends_the_settings<
    'a,
    F: Copy,
    C,
    M,
    R,
    B: FnOnce(Option<u64>) -> C,
    S: FnOnce() -> Result<R, String>,
    L: FnOnce(R, EmbeddedModel<F>) -> Result<M, LLMError>,
>(
    state: &mut BuilderState<F>,
    tools: Option<Vec<Tool>>,
    embedding: bool,
    make_client: B,
    start: S,
    load: L,
    client: &'a MistralRs<F, C>,
    messages: &'a [ChatMessage],
    offered: Option<&'a [Tool]>,
    chat: ApiCall<MistralRsChatRequest<'a, F>>,
    streamed: ApiCall<MistralRsChatRequest<'a, F>>,
    req: &CompletionRequest,
    completion: ApiCall<MistralRsCompletionRequest<F>>,
    input: Vec<String>,
    embedded: ApiCall<MistralRsEmbeddingRequest>,
    listed: ApiCall<()>,
)
    requires
        call_ensures(
            build_mistral_rs::<F, C, M, R, B, S, L>,
            (state, tools, embedding, make_client, start, load),
            Ok(MistralRsMode::Server(*client)),
        ),
        call_ensures(
            MistralRs::<F, C>::chat_with_tools_request,
            (client, messages, offered),
            Ok(chat),
        ),
        call_ensures(MistralRs::<F, C>::chat_stream_request, (client, messages), Ok(streamed)),
        call_ensures(MistralRs::<F, C>::complete_request, (client, req), Ok(completion)),
        call_ensures(MistralRs::<F, C>::embed_request, (client, input), Ok(embedded)),
        call_ensures(MistralRs::<F, C>::list_models_request, (client,), Ok(listed)),
    ensures
        chat.body.temperature == old(state).temperature,
        streamed.body.temperature == old(state).temperature,
        completion.body.temperature == old(state).temperature,
        chat.body.top_p == old(state).top_p,
        streamed.body.top_p == old(state).top_p,
        chat.body.max_tokens == old(state).max_tokens,
        streamed.body.max_tokens == old(state).max_tokens,
        completion.body.max_tokens == old(state).max_tokens,
        ({
            let model = match old(state).model {
                Some(model) => model@,
                None => "default"@,
            };
            &&& chat.body.model@ == model
            &&& streamed.body.model@ == model
            &&& completion.body.model@ == model
            &&& embedded.body.model@ == model
        }),
        ({
            let schema = match old(state).json_schema {
                Some(format) => format.schema,
                None => None,
            };
            &&& schema == match chat.body.response_format {
                Some(demand) => Some(demand.json_schema.schema),
                None => None,
            }
            &&& schema == match streamed.body.response_format {
                Some(demand) => Some(demand.json_schema.schema),
                None => None,
            }
        }),
        old(state).system matches Some(prompt) ==> {
            &&& chat.body.messages@.len() == messages@.len() + 1
            &&& streamed.body.messages@.len() == messages@.len() + 1
            &&& chat.body.messages@[0].role@ == "system"@
            &&& streamed.body.messages@[0].role@ == "system"@
            &&& chat.body.messages@[0].content matches Some(MistralRsMessageContent::Text(text))
                && text@ == prompt@
            &&& streamed.body.messages@[0].content matches Some(MistralRsMessageContent::Text(text))
                && text@ == prompt@
        },
        ({
            let server = match old(state).base_url {
                Some(url) => url@,
                None => "http://localhost:1234"@,
            };
            &&& chat.url@ == server + "/v1/chat/completions"@
            &&& streamed.url@ == server + "/v1/chat/completions"@
            &&& completion.url@ == server + "/v1/completions"@
            &&& embedded.url@ == server + "/v1/embeddings"@
            &&& listed.url@ == server + "/v1/models"@
        }),
        ({
            let key = match old(state).api_key {
                Some(key) => Some(key_text(key)),
                None => None,
            };
            &&& chat.bearer.deep_view() == key
            &&& streamed.bearer.deep_view() == key
            &&& completion.bearer.deep_view() == key
            &&& embedded.bearer.deep_view() == key
            &&& listed.bearer.deep_view() == key
        }),
        chat.timeout_seconds == old(state).timeout_seconds,
        streamed.timeout_seconds == old(state).timeout_seconds,
        completion.timeout_seconds == old(state).timeout_seconds,
        embedded.timeout_seconds == old(state).timeout_seconds,
        listed.timeout_seconds == old(state).timeout_seconds,
{
    law_chat_is_sent_whole(client, messages, offered, false, chat.body, 0, 0);
    law_chat_is_sent_whole(client, messages, None, true, streamed.body, 0, 0);
    law_chat_is_posted(client, messages, offered, Ok(chat));
    law_streamed_chat_is_posted(client, messages, Ok(streamed));
    law_prompt_is_posted(client, req, Ok(completion));
    law_texts_are_posted(client, input, Ok(embedded), 0);
    law_models_are_asked_for(client, Ok(listed));
}

/// The model `default` is not one to be embedded.
proof fn lemma_default_is_no_path()
    ensures
        !"default"@.contains('/'),
        !"default"@.contains('\\'),
{
    reveal_strlit("default");
    assert("default"@ =~= seq!['d', 'e', 'f', 'a', 'u', 'l', 't']);
}

/// Settings whose model has a separator in its name, where models can be embedded, give no
/// client of a server. If no runtime can be started, the reason is the error, and the settings
/// stay whole. Else the model that is loaded has every one of its settings, each whatever the
/// others are, what the loading gives is what is built, and what the model owns of the settings
/// it takes with it.
pub proof fn law_embedded_model_has_the_settings<
    F: Copy,
    C,
    M,
    R,
    B: FnOnce(Option<u64>) -> C,
    S: FnOnce() -> Result<R, String>,
    L: FnOnce(R, EmbeddedModel<F>) -> Result<M, LLMError>,
>(
    state: &mut BuilderState<F>,
    tools: Option<Vec<Tool>>,
    make_client: B,
    start: S,
    load: L,
    built: Result<MistralRsMode<F, C, M>, LLMError>,
)
    requires
        call_ensures(
            build_mistral_rs::<F, C, M, R, B, S, L>,
            (state, tools, true, make_client, start, load),
            built,
        ),
        old(state).model matches Some(name) && (name@.contains('/') || name@.contains('\\')),
    ensures
        exists|started: Result<R, String>|
            {
                &&& #[trigger] call_ensures(start, (), started)
                &&& match started {
                    Err(reason) => {
                        &&& built matches Err(LLMError::ProviderError(message))
                        &&& message@ == "Failed to create runtime: "@ + reason@
                        &&& *final(state) == *old(state)
                    },
                    Ok(runtime) => {
                        &&& *final(state) == (BuilderState {
                            system: None,
                            json_schema: None,
                            ..*old(state)
                        })
                        &&& exists|model: EmbeddedModel<F>, loaded: Result<M, LLMError>|
                            {
                                &&& #[trigger] call_ensures(load, (runtime, model), loaded)
                                &&& match loaded {
                                    Ok(ready) => built matches Ok(MistralRsMode::Embedded(mode))
                                        && mode == ready,
                                    Err(error) => built matches Err(failure) && failure == error,
                                }
                                &&& model.model@ == old(state).model->0@
                                &&& old(state).quantization is None ==> model.quantization is Q4
                                &&& old(state).quantization matches Some(level) ==> {
                                    &&& model.quantization is Q4 <==> level@ == "q4"@ || level@
                                        == "4"@
                                    &&& model.quantization is Q8 <==> level@ == "q8"@ || level@
                                        == "8"@
                                }
                                &&& model.max_tokens == old(state).max_tokens
                                &&& model.temperature == old(state).temperature
                                &&& model.system.deep_view() == old(state).system.deep_view()
                                &&& model.top_p == old(state).top_p
                                &&& model.top_k == old(state).top_k
                                &&& model.json_schema == old(state).json_schema
                                &&& model.tools == tools
                            }
                    },
                }
            },
{
    reveal_strlit("q4");
    reveal_strlit("4");
    reveal_strlit("q8");
    reveal_strlit("8");
    assert("q4"@[1] == '4' && "q8"@[1] == '8' && "4"@[0] == '4' && "8"@[0] == '8');
    assert(asks_for_embedded(*old(state)));
}

/// With a runtime, the model has every one of its settings, and takes with it what it owns of
/// them. Without one, the reason is the error, and the settings stay whole.
pub proof fn law_embedded_model_waits_for_its_runtime<F: Copy, R>(
    state: &mut BuilderState<F>,
    tools: Option<Vec<Tool>>,
    started: Result<R, String>,
    ready: Result<(R, EmbeddedModel<F>), LLMError>,
)
    requires
        call_ensures(embedded_with_runtime::<F, R>, (state, tools, started), ready),
    ensures
        match started {
            Err(reason) => {
                &&& ready matches Err(LLMError::ProviderError(message))
                &&& message@ == "Failed to create runtime: "@ + reason@
                &&& *final(state) == *old(state)
            },
            Ok(runtime) => {
                &&& *final(state) == (BuilderState {
                    system: None,
                    json_schema: None,
                    ..*old(state)
                })
                &&& ready matches Ok(pair)
                &&& pair.0 == runtime
                &&& old(state).model matches Some(name) ==> pair.1.model@ == name@
                &&& old(state).model is None ==> pair.1.model@ == "default"@
                &&& old(state).quantization is None ==> pair.1.quantization is Q4
                &&& old(state).quantization matches Some(level) ==> {
                    &&& pair.1.quantization is Q4 <==> level@ == "q4"@ || level@ == "4"@
                    &&& pair.1.quantization is Q8 <==> level@ == "q8"@ || level@ == "8"@
                }
                &&& pair.1.max_tokens == old(state).max_tokens
                &&& pair.1.temperature == old(state).temperature
                &&& pair.1.system.deep_view() == old(state).system.deep_view()
                &&& pair.1.top_p == old(state).top_p
                &&& pair.1.top_k == old(state).top_k
                &&& pair.1.json_schema == old(state).json_schema
                &&& pair.1.tools == tools
            },
        },
{
    reveal_strlit("q4");
    reveal_strlit("4");
    reveal_strlit("q8");
    reveal_strlit("8");
    assert("q4"@[1] == '4' && "q8"@[1] == '8' && "4"@[0] == '4' && "8"@[0] == '8');
}

} // verus!

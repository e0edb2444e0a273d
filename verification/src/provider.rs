//! From the settings of a builder to a mistral.rs provider.

use vstd::prelude::*;

use crate::backend::MistralRsQuantization;
use crate::builder::BuilderState;
use crate::chat::{StructuredOutputFormat, Tool};
use crate::client::{model_or_default, ConfigView, MistralRs};
use crate::error::{LLMError, LLMErrorView};
use crate::secret;
use crate::text;

verus! {

/// A provider as it comes out of a builder. `M` is the type of a model that has been loaded
/// into the process.
pub enum MistralRsMode<F, C, M> {
    /// A client of a running server.
    Server(MistralRs<F, C>),
    /// A model that has been loaded into the process.
    Embedded(M),
}

/// What an embedded model is loaded with.
pub struct EmbeddedModel<F> {
    pub model: String,
    pub quantization: MistralRsQuantization,
    pub max_tokens: Option<u32>,
    pub temperature: Option<F>,
    pub system: Option<String>,
    pub top_p: Option<F>,
    pub top_k: Option<u32>,
    pub json_schema: Option<StructuredOutputFormat>,
    pub tools: Option<Vec<Tool>>,
}

/// An [`EmbeddedModel`] with its texts as sequences of characters.
pub ghost struct EmbeddedModelView<F> {
    pub model: Seq<char>,
    pub quantization: MistralRsQuantization,
    pub max_tokens: Option<u32>,
    pub temperature: Option<F>,
    pub system: Option<Seq<char>>,
    pub top_p: Option<F>,
    pub top_k: Option<u32>,
    pub json_schema: Option<StructuredOutputFormat>,
    pub tools: Option<Vec<Tool>>,
}

impl<F> View for EmbeddedModel<F> {
    type V = EmbeddedModelView<F>;

    open spec fn view(&self) -> EmbeddedModelView<F> {
        EmbeddedModelView {
            model: self.model@,
            quantization: self.quantization,
            max_tokens: self.max_tokens,
            temperature: self.temperature,
            system: self.system.deep_view(),
            top_p: self.top_p,
            top_k: self.top_k,
            json_schema: self.json_schema,
            tools: self.tools,
        }
    }
}

/// Whether a model identifier is that of a model to be embedded: a repository or a path.
pub open spec fn names_embedded_model(model: Seq<char>) -> bool {
    model.contains('/') || model.contains('\\')
}

/// The quantization that a setting stands for.
pub open spec fn quantization_of(setting: Option<Seq<char>>) -> MistralRsQuantization {
    match setting {
        Some(level) => if level == "q4"@ || level == "4"@ {
            MistralRsQuantization::Q4
        } else if level == "q8"@ || level == "8"@ {
            MistralRsQuantization::Q8
        } else {
            MistralRsQuantization::Unquantized
        },
        None => MistralRsQuantization::Q4,
    }
}

/// The address of the server: the one that is set, or that of a local server.
pub open spec fn server_url(setting: Option<Seq<char>>) -> Seq<char> {
    match setting {
        Some(url) => url,
        None => "http://localhost:1234"@,
    }
}

/// Whether the settings ask for an embedded model.
pub open spec fn asks_for_embedded<F>(state: BuilderState<F>) -> bool {
    names_embedded_model(model_or_default(state.model.deep_view()))
}

/// The configuration of a client of a server, out of the settings.
pub open spec fn server_config<F>(state: BuilderState<F>, tools: Option<Vec<Tool>>) -> ConfigView<
    F,
> {
    ConfigView {
        base_url: server_url(state.base_url.deep_view()),
        api_key: state.api_key_text(),
        model: model_or_default(state.model.deep_view()),
        max_tokens: state.max_tokens,
        temperature: state.temperature,
        system: state.system.deep_view(),
        timeout_seconds: state.timeout_seconds,
        top_p: state.top_p,
        top_k: state.top_k,
        json_schema: state.json_schema,
        tools,
    }
}

/// What an embedded model is loaded with, out of the settings.
pub open spec fn embedded_model<F>(
    state: BuilderState<F>,
    tools: Option<Vec<Tool>>,
) -> EmbeddedModelView<F> {
    EmbeddedModelView {
        model: model_or_default(state.model.deep_view()),
        quantization: quantization_of(state.quantization.deep_view()),
        max_tokens: state.max_tokens,
        temperature: state.temperature,
        system: state.system.deep_view(),
        top_p: state.top_p,
        top_k: state.top_k,
        json_schema: state.json_schema,
        tools,
    }
}

/// Whether a provider is an embedded model: models can be loaded into the process, and the
/// settings ask for one.
pub open spec fn is_embedded<F>(state: BuilderState<F>, embedding: bool) -> bool {
    embedding && asks_for_embedded(state)
}

/// What is left of the settings when a client of a server has taken over its part.
pub open spec fn settings_left_by_server<F>(
    state: BuilderState<F>,
    embedding: bool,
) -> BuilderState<F> {
    BuilderState {
        base_url: None,
        api_key: None,
        system: None,
        json_schema: None,
        model: if embedding {
            state.model
        } else {
            None
        },
        ..state
    }
}

/// What is left of the settings when an embedded model has taken over its part.
pub open spec fn settings_left_by_embedded<F>(state: BuilderState<F>) -> BuilderState<F> {
    BuilderState { system: None, json_schema: None, ..state }
}

/// The error for a runtime that could not be started, for the reason `reason`.
pub open spec fn runtime_error(reason: Seq<char>) -> LLMErrorView {
    LLMErrorView::ProviderError("Failed to create runtime: "@ + reason)
}

/// Whether `built` is the client of a server that the settings describe.
pub open spec fn built_server<F, C, M, B: FnOnce(Option<u64>) -> C>(
    state: BuilderState<F>,
    tools: Option<Vec<Tool>>,
    make_client: B,
    built: Result<MistralRsMode<F, C, M>, LLMError>,
) -> bool {
    &&& built matches Ok(MistralRsMode::Server(client))
    &&& client.config@ == server_config(state, tools)
    &&& call_ensures(make_client, (state.timeout_seconds,), client.client)
}

/// Whether `built` is what `load` gave for the embedded model that the settings describe.
pub open spec fn built_embedded<F, C, M, R, L: FnOnce(R, EmbeddedModel<F>) -> Result<M, LLMError>>(
    state: BuilderState<F>,
    tools: Option<Vec<Tool>>,
    load: L,
    runtime: R,
    built: Result<MistralRsMode<F, C, M>, LLMError>,
) -> bool {
    exists|model: EmbeddedModel<F>, loaded: Result<M, LLMError>|
        {
            &&& model@ == embedded_model(state, tools)
            &&& #[trigger] call_ensures(load, (runtime, model), loaded)
            &&& match loaded {
                Ok(loaded) => built == Ok::<MistralRsMode<F, C, M>, LLMError>(
                    MistralRsMode::Embedded(loaded),
                ),
                Err(error) => built == Err::<MistralRsMode<F, C, M>, LLMError>(error),
            }
        }
}

/// The quantization that a setting stands for.
pub fn quantization_level(setting: &Option<String>) -> (level: MistralRsQuantization)
    ensures
        level == quantization_of(setting.deep_view()),
{
    match setting {
        Some(level) => {
            let level = level.as_str();
            if text::same_text(level, "q4") || text::same_text(level, "4") {
                MistralRsQuantization::Q4
            } else if text::same_text(level, "q8") || text::same_text(level, "8") {
                MistralRsQuantization::Q8
            } else {
                MistralRsQuantization::Unquantized
            }
        },
        None => MistralRsQuantization::default(),
    }
}

/// The API key in the clear, if one is set.
fn exposed_key(key: Option<secret::ApiKey>) -> (exposed: Option<String>)
    ensures
        exposed.deep_view() == match key {
            Some(key) => Some(secret::key_text(key)),
            None => None,
        },
{
    match key {
        Some(key) => Some(secret::expose(&key).clone()),
        None => None,
    }
}

/// The name of the model: the one that is set, or `default`.
fn model_name(setting: &Option<String>) -> (model: String)
    ensures
        model@ == model_or_default(setting.deep_view()),
{
    match setting {
        Some(model) => model.clone(),
        None => "default".to_owned(),
    }
}

/// The runtime of an embedded model with what the model is loaded with, once it is known
/// whether the runtime was started.
///
/// Where it was, the model takes over the system prompt and the schema. Where it was not,
/// that is the error, with the reason given, and the settings stay whole.
pub fn embedded_with_runtime<F: Copy, R>(
    state: &mut BuilderState<F>,
    tools: Option<Vec<Tool>>,
    started: Result<R, String>,
) -> (ready: Result<(R, EmbeddedModel<F>), LLMError>)
    ensures
        match started {
            Ok(runtime) => {
                &&& ready matches Ok(pair) && pair.0 == runtime && pair.1@ == embedded_model(
                    *old(state),
                    tools,
                )
                &&& *final(state) == settings_left_by_embedded(*old(state))
            },
            Err(reason) => {
                &&& ready matches Err(error) && error@ == runtime_error(reason@)
                &&& *final(state) == *old(state)
            },
        },
{
    match started {
        Ok(runtime) => {
            let model = EmbeddedModel {
                model: model_name(&state.model),
                quantization: quantization_level(&state.quantization),
                max_tokens: state.max_tokens,
                temperature: state.temperature,
                system: state.system.take(),
                top_p: state.top_p,
                top_k: state.top_k,
                json_schema: state.json_schema.take(),
                tools,
            };
            Ok((runtime, model))
        },
        Err(reason) => Err(
            LLMError::ProviderError(text::joined("Failed to create runtime: ", reason.as_str())),
        ),
    }
}

/// Builds a mistral.rs provider out of the settings.
///
/// `embedding` says whether models can be loaded into the process. If they can, a model
/// identifier with a separator in it asks for an embedded model; any other, and every one
/// if they cannot, is the name of a model on a server.
///
/// * `make_client` makes the HTTP client for a server; it is given the request timeout in
///   seconds, if there is one.
/// * `start` starts the runtime in which a model is loaded, or says why it could not.
/// * `load` loads a model in that runtime.
///
/// A provider takes over some of the settings, whether or not its model can be loaded. If
/// no runtime can be started, the settings stay whole.
pub fn build_mistral_rs<
    F: Copy,
    C,
    M,
    R,
    B: FnOnce(Option<u64>) -> C,
    S: FnOnce() -> Result<R, String>,
    L: FnOnce(R, EmbeddedModel<F>) -> Result<M, LLMError>,
>(
    state: &mut BuilderState<F>,
    tools: Option<Vec<Tool>>,
    embedding: bool,
    make_client: B,
    start: S,
    load: L,
) -> (built: Result<MistralRsMode<F, C, M>, LLMError>)
    requires
        call_requires(make_client, (old(state).timeout_seconds,)),
        call_requires(start, ()),
        forall|runtime: R, model: EmbeddedModel<F>| call_requires(load, (runtime, model)),
    ensures
        !is_embedded(*old(state), embedding) ==> {
            &&& built_server(*old(state), tools, make_client, built)
            &&& *final(state) == settings_left_by_server(*old(state), embedding)
        },
        is_embedded(*old(state), embedding) ==> exists|started: Result<R, String>|
            {
                &&& #[trigger] call_ensures(start, (), started)
                &&& match started {
                    Ok(runtime) => {
                        &&& built_embedded(*old(state), tools, load, runtime, built)
                        &&& *final(state) == settings_left_by_embedded(*old(state))
                    },
                    Err(reason) => {
                        &&& built matches Err(error) && error@ == runtime_error(reason@)
                        &&& *final(state) == *old(state)
                    },
                }
            },
{
    let model = model_name(&state.model);
    if embedding && (text::contains_char(model.as_str(), '/') || text::contains_char(
        model.as_str(),
        '\\',
    )) {
        match embedded_with_runtime(state, tools, start()) {
            Ok((runtime, model)) => match load(runtime, model) {
                Ok(loaded) => Ok(MistralRsMode::Embedded(loaded)),
                Err(error) => Err(error),
            },
            Err(error) => Err(error),
        }
    } else {
        if !embedding {
            state.model = None;
        }
        let base_url = match state.base_url.take() {
            Some(url) => url,
            None => "http://localhost:1234".to_owned(),
        };
        let api_key = exposed_key(state.api_key.take());
        Ok(
            MistralRsMode::Server(
                MistralRs::new(
                    make_client,
                    base_url,
                    api_key,
                    Some(model),
                    state.max_tokens,
                    state.temperature,
                    state.timeout_seconds,
                    state.system.take(),
                    state.top_p,
                    state.top_k,
                    state.json_schema.take(),
                    tools,
                ),
            ),
        )
    }
}

} // verus!

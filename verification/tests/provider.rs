use std::sync::Arc;

use mistral_rs_client::backend::{GoogleServiceTier, MistralRsQuantization};
use mistral_rs_client::builder::{BuilderState, LLMBuilder};
use mistral_rs_client::chat::{
    ChatMessage, ChatRole, FunctionTool, MessageType, StructuredOutputFormat, Tool,
};
use mistral_rs_client::client::MistralRs;
use mistral_rs_client::error::LLMError;
use mistral_rs_client::provider::{
    build_mistral_rs, embedded_with_runtime, quantization_level, EmbeddedModel, MistralRsMode,
};
use mistral_rs_client::request::{CompletionRequest, MistralRsMessageContent};

/// Builds with a runtime and a model that stand for themselves.
fn build(
    state: &mut BuilderState<f32>,
    tools: Option<Vec<Tool>>,
    embedding: bool,
) -> MistralRsMode<f32, Option<u64>, EmbeddedModel<f32>> {
    build_mistral_rs(
        state,
        tools,
        embedding,
        |timeout| timeout,
        || Ok("runtime"),
        |runtime, model| {
            assert_eq!(runtime, "runtime");
            Ok(model)
        },
    )
    .unwrap()
}

fn server(state: &mut BuilderState<f32>, embedding: bool) -> MistralRs<f32, Option<u64>> {
    match build(state, None, embedding) {
        MistralRsMode::Server(client) => client,
        MistralRsMode::Embedded(_) => panic!("a server was expected"),
    }
}

fn embedded(state: &mut BuilderState<f32>) -> EmbeddedModel<f32> {
    match build(state, None, true) {
        MistralRsMode::Embedded(model) => model,
        MistralRsMode::Server(_) => panic!("an embedded model was expected"),
    }
}

/// Settings that ask for an embedded model.
fn embedded_settings() -> BuilderState<f32> {
    let mut state = LLMBuilder::new()
        .base_url("http://host".to_string())
        .api_key("k".to_string())
        .model("a/b".to_string())
        .quantization("8".to_string())
        .max_tokens(256)
        .temperature(0.7)
        .system("s".to_string())
        .top_p(0.5)
        .top_k(4)
        .state;
    state.json_schema = Some(format());
    state
}

fn format() -> StructuredOutputFormat {
    StructuredOutputFormat { name: "f".to_string(), description: None, schema: None, strict: None }
}

fn tool() -> Tool {
    Tool {
        tool_type: "function".to_string(),
        function: FunctionTool {
            name: "t".to_string(),
            description: "d".to_string(),
            parameters: serde_json::Value::Null,
        },
    }
}

#[test]
fn nothing_set_gives_a_local_client() {
    for embedding in [false, true] {
        let client = server(&mut LLMBuilder::new().state, embedding);
        assert_eq!(client.base_url(), "http://localhost:1234");
        assert_eq!(client.model(), "default");
        assert_eq!(client.api_key(), None);
        assert_eq!(client.system(), None);
        assert_eq!(client.max_tokens(), None);
        assert_eq!(client.temperature(), None);
        assert_eq!(client.timeout_seconds(), None);
        assert_eq!(client.top_p(), None);
        assert_eq!(client.top_k(), None);
        assert!(client.json_schema().is_none());
        assert!(client.tools().is_none());
        assert_eq!(*client.client(), None);
    }
}

#[test]
fn server_settings_reach_the_client() {
    let mut state = LLMBuilder::new()
        .base_url("http://host".to_string())
        .api_key("k".to_string())
        .model("m".to_string())
        .max_tokens(5)
        .temperature(0.5)
        .timeout_seconds(7)
        .system("s".to_string())
        .top_p(0.25)
        .top_k(3)
        .state;
    state.json_schema = Some(format());
    let client = match build(&mut state, Some(vec![tool()]), true) {
        MistralRsMode::Server(client) => client,
        MistralRsMode::Embedded(_) => panic!("a server was expected"),
    };
    assert_eq!(client.base_url(), "http://host");
    assert_eq!(client.api_key(), Some("k"));
    assert_eq!(client.model(), "m");
    assert_eq!(client.max_tokens(), Some(5));
    assert_eq!(client.temperature(), Some(0.5));
    assert_eq!(client.timeout_seconds(), Some(7));
    assert_eq!(client.system(), Some("s"));
    assert_eq!(client.top_p(), Some(0.25));
    assert_eq!(client.top_k(), Some(3));
    assert_eq!(client.json_schema().unwrap().name, "f");
    assert_eq!(client.tools().unwrap().len(), 1);
    assert_eq!(client.tools().unwrap()[0].function.name, "t");
    assert_eq!(*client.client(), Some(7));
}

#[test]
fn what_a_client_takes_over_is_gone() {
    let mut state = LLMBuilder::<f32>::new()
        .base_url("http://host".to_string())
        .api_key("k".to_string())
        .model("m".to_string())
        .system("s".to_string())
        .timeout_seconds(7)
        .quantization("q8".to_string())
        .state;
    state.json_schema = Some(format());
    let first = server(&mut state, true);
    assert_eq!(first.model(), "m");
    assert!(state.base_url.is_none());
    assert!(state.api_key.is_none());
    assert!(state.system.is_none());
    assert!(state.json_schema.is_none());
    assert_eq!(state.model.as_deref(), Some("m"));
    assert_eq!(state.timeout_seconds, Some(7));
    assert_eq!(state.quantization.as_deref(), Some("q8"));
    let second = server(&mut state, false);
    assert_eq!(second.base_url(), "http://localhost:1234");
    assert_eq!(second.api_key(), None);
    assert_eq!(second.model(), "m");
    assert!(state.model.is_none());
}

#[test]
fn a_separator_asks_for_an_embedded_model() {
    for name in ["Qwen/Qwen3-4B", "/", "C:\\models\\m", "trailing/"] {
        let mut state = LLMBuilder::new().model(name.to_string()).state;
        assert_eq!(embedded(&mut state).model, name);
    }
    for name in ["default", "", "qwen3-4b", "a|b"] {
        let mut state = LLMBuilder::new().model(name.to_string()).state;
        assert_eq!(server(&mut state, true).model(), name);
    }
}

#[test]
fn a_separator_is_part_of_the_name_where_nothing_can_be_embedded() {
    let mut state = LLMBuilder::new().model("Qwen/Qwen3-4B".to_string()).state;
    assert_eq!(server(&mut state, false).model(), "Qwen/Qwen3-4B");
}

#[test]
fn embedded_settings_reach_the_model() {
    let mut state = embedded_settings();
    let model = embedded(&mut state);
    assert_eq!(model.model, "a/b");
    assert_eq!(model.quantization, MistralRsQuantization::Q8);
    assert_eq!(model.max_tokens, Some(256));
    assert_eq!(model.temperature, Some(0.7));
    assert_eq!(model.system.as_deref(), Some("s"));
    assert_eq!(model.top_p, Some(0.5));
    assert_eq!(model.top_k, Some(4));
    assert_eq!(model.json_schema.unwrap().name, "f");
    assert!(model.tools.is_none());
    assert!(state.system.is_none());
    assert!(state.json_schema.is_none());
    assert_eq!(state.base_url.as_deref(), Some("http://host"));
    assert!(state.api_key.is_some());
    assert_eq!(state.model.as_deref(), Some("a/b"));
}

#[test]
fn settings_stay_whole_without_a_runtime() {
    let mut state = embedded_settings();
    let whole = format!("{:?}", embedded_settings().json_schema);
    let built = build_mistral_rs(
        &mut state,
        Some(vec![tool()]),
        true,
        |timeout| timeout,
        || Err::<(), String>("no threads".to_string()),
        |(), model| Ok(model),
    );
    match built {
        Err(LLMError::ProviderError(message)) => {
            assert_eq!(message, "Failed to create runtime: no threads");
        }
        _ => panic!("an error was expected"),
    }
    assert_eq!(state.system.as_deref(), Some("s"));
    assert_eq!(format!("{:?}", state.json_schema), whole);
    assert_eq!(state.base_url.as_deref(), Some("http://host"));
    assert!(state.api_key.is_some());
    assert_eq!(state.model.as_deref(), Some("a/b"));
    let model = embedded(&mut state);
    assert_eq!(model.system.as_deref(), Some("s"));
    assert_eq!(model.json_schema.unwrap().name, "f");
}

#[test]
fn a_model_that_cannot_be_loaded_is_the_error() {
    let mut state = embedded_settings();
    let built = build_mistral_rs(
        &mut state,
        None,
        true,
        |timeout| timeout,
        || Ok(7),
        |runtime: i32, model| {
            assert_eq!(runtime, 7);
            Err::<(), LLMError>(LLMError::HttpError(format!("no {}", model.model)))
        },
    );
    match built {
        Err(LLMError::HttpError(message)) => assert_eq!(message, "no a/b"),
        _ => panic!("an error was expected"),
    }
    assert!(state.system.is_none());
    assert!(state.json_schema.is_none());
    assert_eq!(state.model.as_deref(), Some("a/b"));
}

#[test]
fn a_server_needs_no_runtime() {
    let mut state = LLMBuilder::<f32>::new().model("m".to_string()).state;
    let built = build_mistral_rs(
        &mut state,
        None,
        true,
        |timeout| timeout,
        || Err::<(), String>("no threads".to_string()),
        |(), model| Ok(model),
    );
    assert!(matches!(built, Ok(MistralRsMode::Server(_))));
}

#[test]
fn a_started_runtime_comes_with_the_model() {
    let mut state = embedded_settings();
    match embedded_with_runtime(&mut state, Some(vec![tool()]), Ok(3)) {
        Ok((runtime, model)) => {
            assert_eq!(runtime, 3);
            assert_eq!(model.model, "a/b");
            assert_eq!(model.system.as_deref(), Some("s"));
            assert_eq!(model.tools.unwrap()[0].function.name, "t");
        }
        Err(_) => panic!("a model was expected"),
    }
    assert!(state.system.is_none());
    let failed = embedded_with_runtime::<f32, ()>(&mut state, None, Err(String::new()));
    match failed {
        Err(LLMError::ProviderError(message)) => {
            assert_eq!(message, "Failed to create runtime: ");
        }
        _ => panic!("an error was expected"),
    }
}

#[test]
fn a_clone_shares_the_configuration() {
    let mut state = LLMBuilder::new()
        .base_url("http://host".to_string())
        .model("m".to_string())
        .timeout_seconds(7)
        .state;
    let client = server(&mut state, true);
    let copy = client.clone();
    assert!(Arc::ptr_eq(&client.config, &copy.config));
    assert_eq!(copy.base_url(), "http://host");
    assert_eq!(copy.model(), "m");
    assert_eq!(*copy.client(), Some(7));
    assert_eq!(
        copy.list_models_request().unwrap().url,
        client.list_models_request().unwrap().url
    );
}

#[test]
fn quantization_levels() {
    assert_eq!(quantization_level(&None), MistralRsQuantization::Q4);
    assert_eq!(MistralRsQuantization::default(), MistralRsQuantization::Q4);
    for (setting, level) in [
        ("q4", MistralRsQuantization::Q4),
        ("4", MistralRsQuantization::Q4),
        ("q8", MistralRsQuantization::Q8),
        ("8", MistralRsQuantization::Q8),
        ("none", MistralRsQuantization::Unquantized),
        ("Q4", MistralRsQuantization::Unquantized),
        ("", MistralRsQuantization::Unquantized),
    ] {
        assert_eq!(quantization_level(&Some(setting.to_string())), level);
    }
}

#[test]
fn google_tier_and_quantization_do_not_matter_to_a_server() {
    let plain = server(&mut LLMBuilder::new().model("m".to_string()).state, true);
    let other = server(
        &mut LLMBuilder::new()
            .model("m".to_string())
            .google_service_tier(GoogleServiceTier::Priority)
            .quantization("q8".to_string())
            .state,
        true,
    );
    assert_eq!(format!("{:?}", plain.config), format!("{:?}", other.config));
}

#[test]
fn settings_reach_every_request() {
    let mut state = LLMBuilder::new()
        .base_url("http://host".to_string())
        .api_key("k".to_string())
        .model("m".to_string())
        .timeout_seconds(7)
        .system("s".to_string())
        .state;
    let client = server(&mut state, true);
    let messages = [ChatMessage {
        role: ChatRole::User,
        message_type: MessageType::Text,
        content: "hi".to_string(),
    }];
    for call in [
        client.chat_with_tools_request(&messages, None).unwrap(),
        client.chat_stream_request(&messages).unwrap(),
    ] {
        assert_eq!(call.url, "http://host/v1/chat/completions");
        assert_eq!((call.bearer.as_deref(), call.timeout_seconds), (Some("k"), Some(7)));
        assert_eq!(call.body.model, "m");
        assert_eq!(call.body.messages.len(), 2);
        assert_eq!(call.body.messages[0].role, "system");
        assert!(matches!(
            call.body.messages[0].content,
            Some(MistralRsMessageContent::Text("s"))
        ));
    }
    let call = client.complete_request(&CompletionRequest { prompt: "p".to_string() }).unwrap();
    assert_eq!(call.url, "http://host/v1/completions");
    assert_eq!((call.bearer.as_deref(), call.timeout_seconds), (Some("k"), Some(7)));
    let call = client.embed_request(vec!["t".to_string()]).unwrap();
    assert_eq!(call.url, "http://host/v1/embeddings");
    assert_eq!((call.bearer.as_deref(), call.timeout_seconds), (Some("k"), Some(7)));
    let call = client.list_models_request().unwrap();
    assert_eq!(call.url, "http://host/v1/models");
    assert_eq!((call.bearer.as_deref(), call.timeout_seconds), (Some("k"), Some(7)));
}

#[test]
fn a_client_without_a_base_url_refuses_nothing_but_audio() {
    let client = server(&mut LLMBuilder::new().state, true);
    assert!(client.chat_with_tools_request(&[], None).is_ok());
    assert!(client.chat_stream_request(&[]).is_ok());
    assert!(client.embed_request(vec![]).is_ok());
    assert_eq!(client.list_models_request().unwrap().url, "http://localhost:1234/v1/models");
    let audio = [ChatMessage {
        role: ChatRole::User,
        message_type: MessageType::Audio(vec![]),
        content: String::new(),
    }];
    assert!(client.chat_with_tools_request(&audio, None).is_err());
    assert!(client.chat_stream_request(&audio).is_err());
}

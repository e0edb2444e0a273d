use mistral_rs_client::backend::{GoogleServiceTier, LLMBackend, ReasoningEffort};
use mistral_rs_client::builder::{BuilderState, LLMBuilder};
use mistral_rs_client::provider::{build_mistral_rs, MistralRsMode};

fn builder() -> LLMBuilder<f32> {
    LLMBuilder::new()
}

fn assert_nothing_set(state: &BuilderState<f32>) {
    assert!(state.backend.is_none());
    assert!(state.api_key.is_none());
    assert!(state.base_url.is_none());
    assert!(state.model.is_none());
    assert!(state.max_tokens.is_none());
    assert!(state.temperature.is_none());
    assert!(state.system.is_none());
    assert!(state.timeout_seconds.is_none());
    assert!(state.normalize_response.is_none());
    assert!(state.top_p.is_none());
    assert!(state.top_k.is_none());
    assert!(state.reasoning.is_none());
    assert!(state.reasoning_effort.is_none());
    assert!(state.reasoning_budget_tokens.is_none());
    assert!(state.json_schema.is_none());
    assert!(state.google_service_tier.is_none());
    assert!(state.quantization.is_none());
}

#[test]
fn new_and_default_builders_are_empty() {
    assert_nothing_set(&builder().state);
    assert_nothing_set(&LLMBuilder::<f32>::default().state);
    assert_nothing_set(&BuilderState::new());
}

#[test]
fn every_setting_is_kept() {
    let state = builder()
        .backend(LLMBackend::MistralRs)
        .base_url("http://host:1".to_string())
        .model("m".to_string())
        .max_tokens(256)
        .temperature(0.7)
        .system("be brief".to_string())
        .reasoning_effort(ReasoningEffort::High)
        .reasoning(true)
        .reasoning_budget_tokens(99)
        .timeout_seconds(30)
        .normalize_response(false)
        .top_p(0.9)
        .top_k(40)
        .google_service_tier(GoogleServiceTier::Flex)
        .quantization("q8".to_string())
        .state;
    assert_eq!(state.backend, Some(LLMBackend::MistralRs));
    assert_eq!(state.base_url.as_deref(), Some("http://host:1"));
    assert_eq!(state.model.as_deref(), Some("m"));
    assert_eq!(state.max_tokens, Some(256));
    assert_eq!(state.temperature, Some(0.7));
    assert_eq!(state.system.as_deref(), Some("be brief"));
    assert_eq!(state.reasoning_effort.as_deref(), Some("high"));
    assert_eq!(state.reasoning, Some(true));
    assert_eq!(state.reasoning_budget_tokens, Some(99));
    assert_eq!(state.timeout_seconds, Some(30));
    assert_eq!(state.normalize_response, Some(false));
    assert_eq!(state.top_p, Some(0.9));
    assert_eq!(state.top_k, Some(40));
    assert_eq!(state.google_service_tier, Some(GoogleServiceTier::Flex));
    assert_eq!(state.quantization.as_deref(), Some("q8"));
    assert!(state.api_key.is_none());
    assert!(state.json_schema.is_none());
}

#[test]
fn the_last_setting_wins() {
    let state = builder().model("a".to_string()).max_tokens(1).model("b".to_string()).state;
    assert_eq!(state.model.as_deref(), Some("b"));
    assert_eq!(state.max_tokens, Some(1));
}

#[test]
fn stream_changes_nothing() {
    assert_nothing_set(&builder().stream(true).stream(false).state);
}

#[test]
fn reasoning_efforts_have_names() {
    assert_eq!(ReasoningEffort::Low.to_string(), "low");
    assert_eq!(ReasoningEffort::Medium.to_string(), "medium");
    assert_eq!(ReasoningEffort::High.to_string(), "high");
}

#[test]
fn an_api_key_comes_out_as_it_went_in() {
    let mut state = builder().api_key("clé-1".to_string()).state;
    assert!(state.api_key.is_some());
    let built = build_mistral_rs(
        &mut state,
        None,
        false,
        |_timeout| (),
        || Err::<(), String>(String::new()),
        |(), model| Ok(model),
    );
    match built {
        Ok(MistralRsMode::Server(client)) => assert_eq!(client.api_key(), Some("clé-1")),
        _ => panic!("a server was expected"),
    }
    assert!(state.api_key.is_none());
}

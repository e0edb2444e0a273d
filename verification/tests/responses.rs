use mistral_rs_client::backend::LLMBackend;
use mistral_rs_client::embedding::{
    check_indices, embed_response, MistralRsEmbeddingData, MistralRsEmbeddingResponse,
};
use mistral_rs_client::error::LLMError;
use mistral_rs_client::models::{MistralRsModelData, MistralRsModelListResponse};
use mistral_rs_client::response::{
    completion_response, MistralRsChatResponse, MistralRsChoice, MistralRsFunctionCall,
    MistralRsResponseMessage, MistralRsToolCall, MistralRsUsage,
};
use serde_json::Value;

fn json(text: &str) -> Value {
    serde_json::from_str(text).unwrap()
}

fn choice(content: Option<&str>, tool_calls: Option<Vec<MistralRsToolCall>>) -> MistralRsChoice {
    MistralRsChoice {
        message: MistralRsResponseMessage { content: content.map(str::to_string), tool_calls },
        finish_reason: None,
    }
}

fn response(choices: Vec<MistralRsChoice>) -> MistralRsChatResponse {
    MistralRsChatResponse { id: None, choices, usage: None }
}

fn tool_call(id: &str, arguments: &str) -> MistralRsToolCall {
    MistralRsToolCall {
        id: id.to_string(),
        call_type: "function".to_string(),
        function: MistralRsFunctionCall { name: "f".to_string(), arguments: json(arguments) },
    }
}

#[test]
fn the_text_is_that_of_the_first_choice() {
    let two = response(vec![choice(Some("one"), None), choice(Some("two"), None)]);
    assert_eq!(two.text().as_deref(), Some("one"));
    assert_eq!(two.to_string(), "one");
    let silent = response(vec![choice(None, None), choice(Some("two"), None)]);
    assert_eq!(silent.text(), None);
    assert_eq!(silent.to_string(), "");
    let none = response(vec![]);
    assert_eq!(none.text(), None);
    assert_eq!(none.to_string(), "");
}

#[test]
fn tool_calls_are_those_of_the_first_choice() {
    let calls = vec![tool_call("1", "{\"b\": [1, 2.5], \"a\": \"x\"}"), tool_call("2", "null")];
    let calls = response(vec![choice(None, Some(calls)), choice(None, None)]).tool_calls().unwrap();
    assert_eq!(calls.len(), 2);
    assert_eq!(calls[0].id, "1");
    assert_eq!(calls[0].call_type, "function");
    assert_eq!(calls[0].function.name, "f");
    assert_eq!(calls[0].function.arguments, "{\"a\":\"x\",\"b\":[1,2.5]}");
    assert_eq!(calls[1].id, "2");
    assert_eq!(calls[1].function.arguments, "null");
    assert!(response(vec![choice(Some("x"), None)]).tool_calls().is_none());
    assert!(response(vec![]).tool_calls().is_none());
    assert_eq!(response(vec![choice(None, Some(vec![]))]).tool_calls().unwrap().len(), 0);
}

#[test]
fn arguments_given_as_a_string_stay_quoted() {
    let call = tool_call("1", "\"{}\"");
    let calls = response(vec![choice(None, Some(vec![call]))]).tool_calls().unwrap();
    assert_eq!(calls[0].function.arguments, "\"{}\"");
}

#[test]
fn arguments_that_cannot_be_written_out_are_empty() {
    let call = tool_call("1", "{}");
    assert_eq!(call.to_tool_call(None).function.arguments, "");
    assert_eq!(call.to_tool_call(Some("[1]".to_string())).function.arguments, "[1]");
    assert_eq!(call.to_tool_call(None).id, "1");
}

#[test]
fn missing_counts_are_zero() {
    let mut answer = response(vec![]);
    assert!(answer.usage().is_none());
    answer.usage = Some(MistralRsUsage {
        prompt_tokens: Some(3),
        completion_tokens: None,
        total_tokens: Some(u32::MAX),
    });
    let usage = answer.usage().unwrap();
    assert_eq!(usage.prompt_tokens, 3);
    assert_eq!(usage.completion_tokens, 0);
    assert_eq!(usage.total_tokens, u32::MAX);
    assert!(usage.completion_tokens_details.is_none());
    assert!(usage.prompt_tokens_details.is_none());
}

#[test]
fn a_completion_is_the_text_of_the_first_choice() {
    let answer = json("{\"choices\": [{\"text\": \"upon a time\"}, {\"text\": \"more\"}]}");
    assert_eq!(completion_response(&answer).unwrap().text, "upon a time");
    let empty = json("{\"choices\": [{\"text\": \"\"}]}");
    assert_eq!(completion_response(&empty).unwrap().text, "");
}

#[test]
fn a_completion_without_text_is_an_error() {
    for answer in [
        "null",
        "[]",
        "{}",
        "{\"choices\": []}",
        "{\"choices\": {\"0\": {\"text\": \"x\"}}}",
        "{\"choices\": [{}]}",
        "{\"choices\": [{\"text\": 1}]}",
        "{\"choices\": [[\"text\"], {\"text\": \"x\"}]}",
        "{\"Choices\": [{\"text\": \"x\"}]}",
    ] {
        assert!(matches!(
            completion_response(&json(answer)),
            Err(LLMError::ProviderError(message)) if message == "No answer returned by mistral.rs"
        ));
    }
}

fn embeddings(data: Vec<(usize, Vec<f32>)>) -> MistralRsEmbeddingResponse<f32> {
    MistralRsEmbeddingResponse {
        data: data
            .into_iter()
            .map(|(index, embedding)| MistralRsEmbeddingData { index, embedding })
            .collect(),
    }
}

#[test]
fn embeddings_come_back_in_place() {
    let answer = embeddings(vec![(2, vec![0.2]), (0, vec![0.5, 1.0]), (1, vec![])]);
    assert!(check_indices(&answer));
    assert_eq!(embed_response(answer), vec![vec![0.5, 1.0], vec![], vec![0.2]]);
    assert_eq!(embed_response(embeddings(vec![])), Vec::<Vec<f32>>::new());
}

#[test]
fn the_last_embedding_for_a_place_counts() {
    let answer = embeddings(vec![(1, vec![1.0]), (1, vec![2.0]), (1, vec![3.0])]);
    assert_eq!(embed_response(answer), vec![vec![], vec![3.0], vec![]]);
}

#[test]
fn indices_out_of_range_are_noticed() {
    assert!(!check_indices(&embeddings(vec![(1, vec![])])));
    assert!(!check_indices(&embeddings(vec![(0, vec![]), (usize::MAX, vec![])])));
    assert!(check_indices(&embeddings(vec![(0, vec![])])));
}

fn model(id: &str, created: Option<i64>) -> MistralRsModelData {
    MistralRsModelData { id: id.to_string(), created, extra: json("{\"object\": \"model\"}") }
}

#[test]
fn models_are_listed_in_order() {
    let list =
        MistralRsModelListResponse { data: vec![model("b", None), model("a", Some(5))] };
    assert_eq!(list.get_models(), ["b", "a"]);
    let raw = list.get_models_raw();
    assert_eq!(raw.len(), 2);
    assert_eq!(raw[1].get_id(), "a");
    assert_eq!(raw[1].created, Some(5));
    assert_eq!(raw[1].get_raw(), json("{\"object\": \"model\"}"));
    assert_eq!(list.get_backend(), LLMBackend::MistralRs);
}

#[test]
fn creation_times() {
    let first = -8_334_601_228_800;
    let last = 8_210_266_876_799;
    for (created, instant) in [
        (None, 0),
        (Some(0), 0),
        (Some(1_700_000_000), 1_700_000_000),
        (Some(-1), -1),
        (Some(first), first),
        (Some(first - 1), 0),
        (Some(last), last),
        (Some(last + 1), 0),
        (Some(i64::MIN), 0),
        (Some(i64::MAX), 0),
    ] {
        assert_eq!(model("m", created).get_created_at(), instant);
    }
    assert_eq!(chrono::DateTime::<chrono::Utc>::MIN_UTC.timestamp(), first);
    assert_eq!(chrono::DateTime::<chrono::Utc>::MAX_UTC.timestamp(), last);
}

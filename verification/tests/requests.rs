use mistral_rs_client::chat::{
    ensure_no_audio, ChatMessage, ChatRole, FunctionCall, FunctionTool, ImageMime, MessageType,
    StructuredOutputFormat, Tool, ToolCall,
};
use mistral_rs_client::client::{Method, MistralRs, AUDIO_UNSUPPORTED};
use mistral_rs_client::error::LLMError;
use mistral_rs_client::image::image_url;
use mistral_rs_client::request::{
    CompletionRequest, MistralRsChatMessage, MistralRsMessageContent, MistralRsTool,
};
use serde_json::Value;

fn message(role: ChatRole, message_type: MessageType, content: &str) -> ChatMessage {
    ChatMessage { role, message_type, content: content.to_string() }
}

fn text(content: &str) -> ChatMessage {
    message(ChatRole::User, MessageType::Text, content)
}

fn audio() -> ChatMessage {
    message(ChatRole::User, MessageType::Audio(vec![1]), "listen")
}

fn tool(name: &str) -> Tool {
    Tool {
        tool_type: "anything".to_string(),
        function: FunctionTool {
            name: name.to_string(),
            description: "what it does".to_string(),
            parameters: Value::from(vec![1, 2]),
        },
    }
}

fn client(base_url: &str) -> MistralRs<f32, ()> {
    MistralRs::with_client(
        (),
        base_url.to_string(),
        Some("key".to_string()),
        Some("m".to_string()),
        Some(64),
        Some(0.5),
        Some(9),
        Some("be brief".to_string()),
        Some(0.25),
        Some(3),
        None,
        None,
    )
}

fn bare(base_url: &str, format: Option<StructuredOutputFormat>) -> MistralRs<f32, ()> {
    MistralRs::with_client(
        (),
        base_url.to_string(),
        None,
        None,
        None,
        None,
        None,
        None,
        None,
        None,
        format,
        None,
    )
}

fn content_text(message: &MistralRsChatMessage) -> String {
    match &message.content {
        Some(MistralRsMessageContent::Text(text)) => text.to_string(),
        _ => panic!("a text was expected"),
    }
}

fn content_url(message: &MistralRsChatMessage) -> String {
    match &message.content {
        Some(MistralRsMessageContent::Multimodal(parts)) => {
            assert_eq!(parts.len(), 1);
            assert_eq!(parts[0].content_type, "image_url");
            assert!(parts[0].text.is_none());
            parts[0].image_url.as_ref().unwrap().url.clone()
        }
        _ => panic!("an image was expected"),
    }
}

fn is_invalid_request<T>(outcome: &Result<T, LLMError>, expected: &str) -> bool {
    matches!(outcome, Err(LLMError::InvalidRequest(message)) if message == expected)
}

#[test]
fn a_client_is_made_with_the_timeout() {
    let made: MistralRs<f32, Option<u64>> = MistralRs::new(
        |timeout| timeout,
        "http://host".to_string(),
        None,
        None,
        None,
        None,
        Some(12),
        None,
        None,
        None,
        None,
        None,
    );
    assert_eq!(*made.client(), Some(12));
    assert_eq!(made.timeout_seconds(), Some(12));
    assert_eq!(made.model(), "default");
    assert_eq!(made.base_url(), "http://host");
}

#[test]
fn images_become_data_urls() {
    let url = |data: &[u8]| image_url(&data.to_vec());
    assert_eq!(url(b""), "data:image/jpeg;base64,");
    assert_eq!(url(b"f"), "data:image/jpeg;base64,Zg==");
    assert_eq!(url(b"fo"), "data:image/jpeg;base64,Zm8=");
    assert_eq!(url(b"foo"), "data:image/jpeg;base64,Zm9v");
    assert_eq!(url(b"foob"), "data:image/jpeg;base64,Zm9vYg==");
    assert_eq!(url(b"hello world~"), "data:image/jpeg;base64,aGVsbG8gd29ybGR+");
    assert_eq!(url(&[0xff, 0xff, 0xff, 0x00]), "data:image/jpeg;base64,////AA==");
    assert_eq!(url(&[0, 16, 131, 16, 81, 135]), "data:image/jpeg;base64,ABCDEFGH");
}

#[test]
fn different_images_have_different_urls() {
    let images: [&[u8]; 6] = [b"", b"\0", b"\0\0", b"\0\0\0", b"a", b"b"];
    for (i, a) in images.iter().enumerate() {
        for (j, b) in images.iter().enumerate() {
            assert_eq!(image_url(&a.to_vec()) == image_url(&b.to_vec()), i == j);
        }
    }
}

#[test]
fn messages_are_sent_by_their_type() {
    let said = text("hi");
    let sent = MistralRsChatMessage::from(&said);
    assert_eq!(sent.role, "user");
    assert_eq!(content_text(&sent), "hi");

    let answered = message(ChatRole::Assistant, MessageType::Text, "ho");
    let sent = MistralRsChatMessage::from(&answered);
    assert_eq!(sent.role, "assistant");
    assert_eq!(content_text(&sent), "ho");

    let image =
        message(ChatRole::User, MessageType::Image((ImageMime::PNG, b"foo".to_vec())), "caption");
    assert_eq!(
        content_url(&MistralRsChatMessage::from(&image)),
        "data:image/jpeg;base64,Zm9v"
    );

    let linked =
        message(ChatRole::User, MessageType::ImageURL("http://i/1.png".to_string()), "caption");
    assert_eq!(content_url(&MistralRsChatMessage::from(&linked)), "http://i/1.png");

    let call = || ToolCall {
        id: "1".to_string(),
        call_type: "function".to_string(),
        function: FunctionCall { name: "f".to_string(), arguments: "{}".to_string() },
    };
    for other in [
        MessageType::Pdf(vec![1]),
        MessageType::Audio(vec![1]),
        MessageType::ToolUse(vec![call()]),
        MessageType::ToolResult(vec![call()]),
    ] {
        let other = message(ChatRole::User, other, "text");
        assert_eq!(content_text(&MistralRsChatMessage::from(&other)), "text");
    }
}

#[test]
fn tools_are_sent_as_functions() {
    let sent = MistralRsTool::from(&tool("lookup"));
    assert_eq!(sent.tool_type, "function");
    assert_eq!(sent.function.name, "lookup");
    assert_eq!(sent.function.description, "what it does");
    assert_eq!(sent.function.parameters, Value::from(vec![1, 2]));
}

#[test]
fn a_chat_request_holds_the_whole_conversation() {
    let client = client("http://host");
    let messages = [text("one"), message(ChatRole::Assistant, MessageType::Text, "two"), text("three")];
    let tools = [tool("a"), tool("b")];
    let call = client.chat_with_tools_request(&messages, Some(&tools)).unwrap();
    assert_eq!(call.method, Method::Post);
    assert_eq!(call.url, "http://host/v1/chat/completions");
    assert_eq!(call.bearer.as_deref(), Some("key"));
    assert_eq!(call.timeout_seconds, Some(9));
    let body = call.body;
    assert_eq!(body.model, "m");
    assert!(!body.stream);
    assert_eq!(body.max_tokens, Some(64));
    assert_eq!(body.temperature, Some(0.5));
    assert_eq!(body.top_p, Some(0.25));
    assert!(body.response_format.is_none());
    let roles: Vec<&str> = body.messages.iter().map(|m| m.role).collect();
    assert_eq!(roles, ["system", "user", "assistant", "user"]);
    let texts: Vec<String> = body.messages.iter().map(content_text).collect();
    assert_eq!(texts, ["be brief", "one", "two", "three"]);
    let names: Vec<String> =
        body.tools.unwrap().iter().map(|t| t.function.name.clone()).collect();
    assert_eq!(names, ["a", "b"]);
}

#[test]
fn without_a_system_prompt_the_messages_stand_alone() {
    let client = bare("http://host", None);
    let messages = [text("one")];
    let body = client.make_chat_request(&messages, None, true);
    assert_eq!(body.model, "default");
    assert_eq!(body.messages.len(), 1);
    assert_eq!(content_text(&body.messages[0]), "one");
    assert!(body.stream);
    assert!(body.tools.is_none());
    assert!(body.max_tokens.is_none());
    assert!(client.make_chat_request(&[], None, false).messages.is_empty());
}

#[test]
fn a_schema_becomes_a_response_format() {
    let format = |schema| StructuredOutputFormat {
        name: "n".to_string(),
        description: None,
        schema,
        strict: Some(true),
    };
    let with_schema = bare("http://host", Some(format(Some(Value::from("schema")))));
    let demand = with_schema.make_chat_request(&[], None, false).response_format.unwrap();
    assert_eq!(demand.format_type, "json_schema");
    assert_eq!(demand.json_schema.schema, Value::from("schema"));
    let without_schema = bare("http://host", Some(format(None)));
    assert!(without_schema.make_chat_request(&[], None, false).response_format.is_none());
}

#[test]
fn streaming_changes_only_the_flag() {
    let client = client("http://host");
    let messages = [text("one")];
    let whole = client.chat_with_tools_request(&messages, None).unwrap();
    let mut streamed = client.chat_stream_request(&messages).unwrap();
    assert!(streamed.body.stream);
    streamed.body.stream = false;
    assert_eq!(format!("{:?}", whole), format!("{:?}", streamed));
}

#[test]
fn audio_is_refused() {
    let client = client("http://host");
    let messages = [text("one"), audio()];
    assert!(is_invalid_request(
        &client.chat_with_tools_request(&messages, None),
        "Audio messages are not supported by mistral.rs chat"
    ));
    assert!(is_invalid_request(&client.chat_stream_request(&messages), AUDIO_UNSUPPORTED));
    let nowhere = bare("", None);
    assert!(is_invalid_request(
        &nowhere.chat_with_tools_request(&messages, None),
        AUDIO_UNSUPPORTED
    ));
    assert!(ensure_no_audio(&[text("one")], "no").is_ok());
    assert!(ensure_no_audio(&[], "no").is_ok());
    assert!(is_invalid_request(&ensure_no_audio(&[audio()], "no"), "no"));
}

#[test]
fn a_missing_base_url_is_refused() {
    let client = bare("", None);
    let missing = "Missing base_url";
    assert!(is_invalid_request(&client.chat_with_tools_request(&[text("one")], None), missing));
    let prompt = CompletionRequest { prompt: "p".to_string() };
    assert!(is_invalid_request(&client.complete_request(&prompt), missing));
    assert!(is_invalid_request(&client.embed_request(vec![]), missing));
    assert!(is_invalid_request(&client.list_models_request(), missing));
    let streamed = client.chat_stream_request(&[text("one")]).unwrap().url;
    assert_eq!(streamed, "/v1/chat/completions");
}

#[test]
fn completion_embedding_and_model_requests() {
    let client = client("http://host");
    let call =
        client.complete_request(&CompletionRequest { prompt: "once".to_string() }).unwrap();
    assert_eq!(call.method, Method::Post);
    assert_eq!(call.url, "http://host/v1/completions");
    assert_eq!(call.bearer.as_deref(), Some("key"));
    assert_eq!(call.timeout_seconds, Some(9));
    assert_eq!(call.body.model, "m");
    assert_eq!(call.body.prompt, "once");
    assert_eq!(call.body.max_tokens, Some(64));
    assert_eq!(call.body.temperature, Some(0.5));

    let call = client.embed_request(vec!["a".to_string(), "b".to_string()]).unwrap();
    assert_eq!(call.method, Method::Post);
    assert_eq!(call.url, "http://host/v1/embeddings");
    assert_eq!(call.bearer.as_deref(), Some("key"));
    assert_eq!(call.body.model, "m");
    assert_eq!(call.body.input, ["a", "b"]);

    let call = client.list_models_request().unwrap();
    assert_eq!(call.method, Method::Get);
    assert_eq!(call.url, "http://host/v1/models");
    assert_eq!(call.bearer.as_deref(), Some("key"));
    assert_eq!(call.timeout_seconds, Some(9));
    assert!(bare("http://host", None).list_models_request().unwrap().bearer.is_none());
}

#[test]
fn speech_is_not_offered() {
    let client = client("http://host");
    assert!(matches!(
        client.transcribe(vec![1]),
        Err(LLMError::ProviderError(message))
            if message == "mistral.rs does not implement speech to text endpoint yet."
    ));
    assert!(matches!(
        client.speech("hi"),
        Err(LLMError::ProviderError(message))
            if message == "mistral.rs does not implement text to speech endpoint yet."
    ));
}

//! What is sent, told by what was asked for.

use vstd::prelude::*;

use crate::chat::{
    ensure_no_audio, is_audio, ChatMessage, ChatRole, MessageType, StructuredOutputFormat, Tool,
};
use crate::client::{ApiCall, Method, MistralRs};
use crate::error::LLMError;
use crate::image::{base64_text, image_url, image_url_text, law_image_url_determines_image};
use crate::request::{
    chat_messages, chat_tools, image_content, message_of, messages_of, response_format, tools_of,
    CompletionRequest, ContentView, MistralRsChatMessage, MistralRsChatRequest,
    MistralRsCompletionRequest, MistralRsEmbeddingRequest, MistralRsMessageContent,
    MistralRsResponseFormat, MistralRsTool,
};

verus! {

/// A message goes out under the name of its role. An image, whatever its format, goes out as
/// the one part of a multimodal content: by its bytes in base64, or by its address. Everything
/// else goes out as its text.
pub proof fn law_message_is_sent<'a>(message: &'a ChatMessage, sent: MistralRsChatMessage<'a>)
    requires
        call_ensures(MistralRsChatMessage::from, (message,), sent),
    ensures
        sent.role@ == match message.role {
            ChatRole::User => "user"@,
            ChatRole::Assistant => "assistant"@,
        },
        match message.message_type {
            MessageType::Image((_, data)) => {
                &&& sent.content matches Some(MistralRsMessageContent::Multimodal(parts))
                &&& parts@.len() == 1
                &&& parts@[0].content_type@ == "image_url"@
                &&& parts@[0].text is None
                &&& parts@[0].image_url matches Some(address)
                &&& address.url@ == "data:image/jpeg;base64,"@ + base64_text(data@)
            },
            MessageType::ImageURL(url) => {
                &&& sent.content matches Some(MistralRsMessageContent::Multimodal(parts))
                &&& parts@.len() == 1
                &&& parts@[0].content_type@ == "image_url"@
                &&& parts@[0].text is None
                &&& parts@[0].image_url matches Some(address)
                &&& address.url@ == url@
            },
            _ => {
                &&& sent.content matches Some(MistralRsMessageContent::Text(text))
                &&& text@ == message.content@
            },
        },
{
    lemma_sent_content(*message, sent);
}

/// A sent content is that of its message's image or text.
proof fn lemma_sent_content(message: ChatMessage, sent: MistralRsChatMessage)
    requires
        sent.deep_view() == message_of(message),
    ensures
        match message.message_type {
            MessageType::Image((_, data)) => is_image_at(
                sent.content,
                "data:image/jpeg;base64,"@ + base64_text(data@),
            ),
            MessageType::ImageURL(url) => is_image_at(sent.content, url@),
            _ => sent.content matches Some(MistralRsMessageContent::Text(text)) && text@
                == message.content@,
        },
{
    let content = sent.content->0;
    match message.message_type {
        MessageType::Image((_, data)) => {
            lemma_image_content(content, image_url_text(data@));
        },
        MessageType::ImageURL(url) => {
            lemma_image_content(content, url@);
        },
        _ => {
            assert(content.deep_view() == ContentView::Text(message.content@));
        },
    }
}

/// Whether `content` is nothing but the image at `url`.
spec fn is_image_at(content: Option<MistralRsMessageContent>, url: Seq<char>) -> bool {
    &&& content matches Some(MistralRsMessageContent::Multimodal(parts))
    &&& parts@.len() == 1
    &&& parts@[0].content_type@ == "image_url"@
    &&& parts@[0].text is None
    &&& parts@[0].image_url matches Some(address)
    &&& address.url@ == url
}

/// A content that is an image as a value is one as it is sent.
proof fn lemma_image_content(content: MistralRsMessageContent, url: Seq<char>)
    requires
        content.deep_view() == image_content(url),
    ensures
        is_image_at(Some(content), url),
{
    match content {
        MistralRsMessageContent::Multimodal(parts) => {
            assert(parts.deep_view().len() == 1);
            assert(parts.deep_view()[0] == parts@[0].deep_view());
        },
        MistralRsMessageContent::Text(_) => {},
    }
}

/// Images with different bytes are sent differently, and images with the same bytes are sent
/// alike, whatever their formats are said to be.
pub proof fn law_images_are_told_apart<'a>(
    first: &'a ChatMessage,
    second: &'a ChatMessage,
    first_sent: MistralRsChatMessage<'a>,
    second_sent: MistralRsChatMessage<'a>,
)
    requires
        first.message_type is Image,
        second.message_type is Image,
        call_ensures(MistralRsChatMessage::from, (first,), first_sent),
        call_ensures(MistralRsChatMessage::from, (second,), second_sent),
    ensures
        match (first_sent.content, second_sent.content) {
            (
                Some(MistralRsMessageContent::Multimodal(one)),
                Some(MistralRsMessageContent::Multimodal(other)),
            ) => {
                &&& one@.len() == 1 && other@.len() == 1
                &&& one@[0].image_url is Some && other@[0].image_url is Some
                &&& one@[0].image_url->0.url@ == other@[0].image_url->0.url@
                    <==> first.message_type->Image_0.1@ == second.message_type->Image_0.1@
            },
            _ => false,
        },
{
    law_message_is_sent(first, first_sent);
    law_message_is_sent(second, second_sent);
    let one = first.message_type->Image_0.1@;
    let other = second.message_type->Image_0.1@;
    if image_url_text(one) == image_url_text(other) {
        law_image_url_determines_image(one, other);
    }
}

/// The address of an image is the base64 of its bytes behind the name of its form.
pub proof fn law_image_url_holds_the_bytes(data: &Vec<u8>, url: String)
    requires
        call_ensures(image_url, (data,), url),
    ensures
        url@ == "data:image/jpeg;base64,"@ + base64_text(data@),
{
}

/// Messages are sent one by one and in order: each as it is sent alone.
pub proof fn law_messages_are_sent_in_order<'a>(
    messages: &'a [ChatMessage],
    sent: Vec<MistralRsChatMessage<'a>>,
    i: int,
    alone: MistralRsChatMessage<'a>,
)
    requires
        call_ensures(chat_messages, (messages,), sent),
    ensures
        sent@.len() == messages@.len(),
        0 <= i < messages@.len() && call_ensures(MistralRsChatMessage::from, (&messages@[i],), alone)
            ==> {
            &&& sent@[i].role@ == alone.role@
            &&& match (sent@[i].content, alone.content) {
                (
                    Some(MistralRsMessageContent::Text(one)),
                    Some(MistralRsMessageContent::Text(other)),
                ) => one@ == other@,
                (
                    Some(MistralRsMessageContent::Multimodal(one)),
                    Some(MistralRsMessageContent::Multimodal(other)),
                ) => {
                    &&& one@.len() == 1 && other@.len() == 1
                    &&& one@[0].content_type@ == other@[0].content_type@
                    &&& one@[0].image_url matches Some(address)
                    &&& other@[0].image_url matches Some(same)
                    &&& address.url@ == same.url@
                },
                _ => false,
            }
        },
{
    assert(sent.deep_view().len() == messages@.len());
    if 0 <= i < messages@.len() && call_ensures(
        MistralRsChatMessage::from,
        (&messages@[i],),
        alone,
    ) {
        assert(sent.deep_view()[i] == messages_of(messages@)[i]);
        lemma_sent_content(messages@[i], sent@[i]);
        lemma_sent_content(messages@[i], alone);
    }
}

/// A tool is sent as a function, with the name, the description and the parameters of its
/// function.
pub proof fn law_tool_is_sent(tool: &Tool, sent: MistralRsTool)
    requires
        call_ensures(MistralRsTool::from, (tool,), sent),
    ensures
        sent.tool_type@ == "function"@,
        sent.function.name@ == tool.function.name@,
        sent.function.description@ == tool.function.description@,
        sent.function.parameters == tool.function.parameters,
{
}

/// Tools are sent one by one and in order.
pub proof fn law_tools_are_sent_in_order(tools: &[Tool], sent: Vec<MistralRsTool>, i: int)
    requires
        call_ensures(chat_tools, (tools,), sent),
    ensures
        sent@.len() == tools@.len(),
        0 <= i < tools@.len() ==> {
            &&& sent@[i].tool_type@ == "function"@
            &&& sent@[i].function.name@ == tools@[i].function.name@
            &&& sent@[i].function.description@ == tools@[i].function.description@
            &&& sent@[i].function.parameters == tools@[i].function.parameters
        },
{
    assert(sent.deep_view().len() == tools@.len());
    if 0 <= i < tools@.len() {
        assert(sent.deep_view()[i] == tools_of(tools@)[i]);
    }
}

/// A schema is demanded of the answer exactly where one is set, and it is that schema.
pub proof fn law_schema_is_demanded(
    format: &Option<StructuredOutputFormat>,
    demand: Option<MistralRsResponseFormat>,
)
    requires
        call_ensures(response_format, (format,), demand),
    ensures
        demand is Some <==> format is Some && format->0.schema is Some,
        demand matches Some(demand) ==> {
            &&& demand.format_type@ == "json_schema"@
            &&& format->0.schema == Some(demand.json_schema.schema)
        },
{
}

/// The body of a chat has the model and the limits of the configuration, the schema that is
/// set there, and the tools that are offered, in order. Its messages are the system prompt, if
/// there is one, and then the messages of the chat, in order, each with its role and with its
/// image or its text. This holds of a body that is made alone, and of the body of a request
/// that has a chat answered, at once or token by token.
pub proof fn law_chat_is_sent_whole<'a, F: Copy, C>(
    client: &'a MistralRs<F, C>,
    messages: &'a [ChatMessage],
    tools: Option<&'a [Tool]>,
    stream: bool,
    body: MistralRsChatRequest<'a, F>,
    i: int,
    j: int,
)
    requires
        ({
            ||| call_ensures(
                MistralRs::<F, C>::make_chat_request,
                (client, messages, tools, stream),
                body,
            )
            ||| !stream && exists|call: ApiCall<MistralRsChatRequest<'a, F>>|
                {
                    &&& #[trigger] call_ensures(
                        MistralRs::<F, C>::chat_with_tools_request,
                        (client, messages, tools),
                        Ok(call),
                    )
                    &&& call.body == body
                }
            ||| stream && tools is None && exists|call: ApiCall<MistralRsChatRequest<'a, F>>|
                {
                    &&& #[trigger] call_ensures(
                        MistralRs::<F, C>::chat_stream_request,
                        (client, messages),
                        Ok(call),
                    )
                    &&& call.body == body
                }
        }),
    ensures
        body.model@ == client.config.model@,
        body.stream == stream,
        body.max_tokens == client.config.max_tokens,
        body.temperature == client.config.temperature,
        body.top_p == client.config.top_p,
        body.response_format is Some <==> client.config.json_schema is Some
            && client.config.json_schema->0.schema is Some,
        body.response_format matches Some(demand) ==> {
            &&& demand.format_type@ == "json_schema"@
            &&& client.config.json_schema->0.schema == Some(demand.json_schema.schema)
        },
        body.tools is Some <==> tools is Some,
        body.tools matches Some(sent) ==> {
            &&& sent@.len() == tools->0@.len()
            &&& 0 <= j < sent@.len() ==> {
                &&& sent@[j].tool_type@ == "function"@
                &&& sent@[j].function.name@ == tools->0@[j].function.name@
                &&& sent@[j].function.description@ == tools->0@[j].function.description@
                &&& sent@[j].function.parameters == tools->0@[j].function.parameters
            }
        },
        body.messages@.len() == messages@.len() + if client.config.system is Some {
            1int
        } else {
            0
        },
        client.config.system matches Some(prompt) ==> {
            &&& body.messages@[0].role@ == "system"@
            &&& body.messages@[0].content matches Some(MistralRsMessageContent::Text(text))
            &&& text@ == prompt@
        },
        0 <= i < messages@.len() ==> {
            let sent = body.messages@[if client.config.system is Some {
                i + 1
            } else {
                i
            }];
            &&& sent.role@ == match messages@[i].role {
                ChatRole::User => "user"@,
                ChatRole::Assistant => "assistant"@,
            }
            &&& match messages@[i].message_type {
                MessageType::Image((_, data)) => {
                    &&& sent.content matches Some(MistralRsMessageContent::Multimodal(parts))
                    &&& parts@.len() == 1
                    &&& parts@[0].content_type@ == "image_url"@
                    &&& parts@[0].text is None
                    &&& parts@[0].image_url matches Some(address)
                    &&& address.url@ == "data:image/jpeg;base64,"@ + base64_text(data@)
                },
                MessageType::ImageURL(url) => {
                    &&& sent.content matches Some(MistralRsMessageContent::Multimodal(parts))
                    &&& parts@.len() == 1
                    &&& parts@[0].content_type@ == "image_url"@
                    &&& parts@[0].text is None
                    &&& parts@[0].image_url matches Some(address)
                    &&& address.url@ == url@
                },
                _ => {
                    &&& sent.content matches Some(MistralRsMessageContent::Text(text))
                    &&& text@ == messages@[i].content@
                },
            }
        },
{
    let start: int = if client.config@.system is Some {
        1
    } else {
        0
    };
    assert(body.messages.deep_view().len() == messages@.len() + start);
    if client.config@.system is Some {
        assert(body.messages.deep_view()[0] == body.messages@[0].deep_view());
    }
    if 0 <= i < messages@.len() {
        assert(body.messages.deep_view()[i + start] == messages_of(messages@)[i]);
        assert(body.messages.deep_view()[i + start] == body.messages@[i + start].deep_view());
        lemma_sent_content(messages@[i], body.messages@[i + start]);
    }
    match (body.tools, tools) {
        (Some(sent), Some(tools)) => {
            assert(sent.deep_view() == tools_of(tools@));
            assert(sent.deep_view().len() == tools@.len());
            if 0 <= j < tools@.len() {
                assert(sent.deep_view()[j] == tools_of(tools@)[j]);
            }
        },
        _ => {},
    }
}

/// Sound among the messages is refused, with the message that is given; nothing else is.
pub proof fn law_sound_is_refused(
    messages: &[ChatMessage],
    unsupported: &str,
    checked: Result<(), LLMError>,
)
    requires
        call_ensures(ensure_no_audio, (messages, unsupported), checked),
    ensures
        checked is Ok <==> forall|i: int|
            0 <= i < messages@.len() ==> !((#[trigger] messages@[i]).message_type is Audio),
        checked matches Err(error) ==> error matches LLMError::InvalidRequest(message)
            && message@ == unsupported@,
{
    assert(forall|i: int|
        0 <= i < messages@.len() ==> (is_audio(#[trigger] messages@[i])
            <==> messages@[i].message_type is Audio));
}

/// A chat is refused for the sound in it, and then for want of a base URL; else it is posted
/// to the chat address of the server, with the key and the timeout of the configuration.
pub proof fn law_chat_is_posted<'a, F: Copy, C>(
    client: &'a MistralRs<F, C>,
    messages: &'a [ChatMessage],
    tools: Option<&'a [Tool]>,
    outcome: Result<ApiCall<MistralRsChatRequest<'a, F>>, LLMError>,
)
    requires
        call_ensures(
            MistralRs::<F, C>::chat_with_tools_request,
            (client, messages, tools),
            outcome,
        ),
    ensures
        ({
            let sound = exists|i: int|
                0 <= i < messages@.len() && (#[trigger] messages@[i]).message_type is Audio;
            match outcome {
                Ok(call) => {
                    &&& !sound && client.config.base_url@.len() > 0
                    &&& call.method == Method::Post
                    &&& call.url@ == client.config.base_url@ + "/v1/chat/completions"@
                    &&& call.bearer.deep_view() == client.config.api_key.deep_view()
                    &&& call.timeout_seconds == client.config.timeout_seconds
                },
                Err(LLMError::InvalidRequest(message)) => if sound {
                    message@ == "Audio messages are not supported by mistral.rs chat"@
                } else {
                    client.config.base_url@.len() == 0 && message@ == "Missing base_url"@
                },
                Err(_) => false,
            }
        }),
{
    assert(forall|i: int|
        0 <= i < messages@.len() ==> (is_audio(#[trigger] messages@[i])
            <==> messages@[i].message_type is Audio));
}

/// A chat to be answered token by token is refused for the sound in it, and for nothing else;
/// it is posted to the chat address of the server, with the key and the timeout of the
/// configuration.
pub proof fn law_streamed_chat_is_posted<'a, F: Copy, C>(
    client: &'a MistralRs<F, C>,
    messages: &'a [ChatMessage],
    outcome: Result<ApiCall<MistralRsChatRequest<'a, F>>, LLMError>,
)
    requires
        call_ensures(MistralRs::<F, C>::chat_stream_request, (client, messages), outcome),
    ensures
        ({
            let sound = exists|i: int|
                0 <= i < messages@.len() && (#[trigger] messages@[i]).message_type is Audio;
            match outcome {
                Ok(call) => {
                    &&& !sound
                    &&& call.method == Method::Post
                    &&& call.url@ == client.config.base_url@ + "/v1/chat/completions"@
                    &&& call.bearer.deep_view() == client.config.api_key.deep_view()
                    &&& call.timeout_seconds == client.config.timeout_seconds
                },
                Err(LLMError::InvalidRequest(message)) => sound && message@
                    == "Audio messages are not supported by mistral.rs chat"@,
                Err(_) => false,
            }
        }),
{
    assert(forall|i: int|
        0 <= i < messages@.len() ==> (is_audio(#[trigger] messages@[i])
            <==> messages@[i].message_type is Audio));
}

/// A text to be completed is posted to the completion address of the server as it is, with
/// the model, the limits, the key and the timeout of the configuration; it is refused for want
/// of a base URL, and for nothing else.
pub proof fn law_prompt_is_posted<F: Copy, C>(
    client: &MistralRs<F, C>,
    req: &CompletionRequest,
    outcome: Result<ApiCall<MistralRsCompletionRequest<F>>, LLMError>,
)
    requires
        call_ensures(MistralRs::<F, C>::complete_request, (client, req), outcome),
    ensures
        match outcome {
            Ok(call) => {
                &&& client.config.base_url@.len() > 0
                &&& call.method == Method::Post
                &&& call.url@ == client.config.base_url@ + "/v1/completions"@
                &&& call.bearer.deep_view() == client.config.api_key.deep_view()
                &&& call.timeout_seconds == client.config.timeout_seconds
                &&& call.body.model@ == client.config.model@
                &&& call.body.prompt@ == req.prompt@
                &&& call.body.max_tokens == client.config.max_tokens
                &&& call.body.temperature == client.config.temperature
            },
            Err(LLMError::InvalidRequest(message)) => client.config.base_url@.len() == 0
                && message@ == "Missing base_url"@,
            Err(_) => false,
        },
{
}

/// Texts to be embedded are posted to the embedding address of the server, all of them and in
/// order, with the model, the key and the timeout of the configuration; they are refused for
/// want of a base URL, and for nothing else.
pub proof fn law_texts_are_posted<F: Copy, C>(
    client: &MistralRs<F, C>,
    input: Vec<String>,
    outcome: Result<ApiCall<MistralRsEmbeddingRequest>, LLMError>,
    i: int,
)
    requires
        call_ensures(MistralRs::<F, C>::embed_request, (client, input), outcome),
    ensures
        match outcome {
            Ok(call) => {
                &&& client.config.base_url@.len() > 0
                &&& call.method == Method::Post
                &&& call.url@ == client.config.base_url@ + "/v1/embeddings"@
                &&& call.bearer.deep_view() == client.config.api_key.deep_view()
                &&& call.timeout_seconds == client.config.timeout_seconds
                &&& call.body.model@ == client.config.model@
                &&& call.body.input@.len() == input@.len()
                &&& 0 <= i < input@.len() ==> call.body.input@[i]@ == input@[i]@
            },
            Err(LLMError::InvalidRequest(message)) => client.config.base_url@.len() == 0
                && message@ == "Missing base_url"@,
            Err(_) => false,
        },
{
    if let Ok(call) = outcome {
        assert(call.body.input.deep_view() == input.deep_view());
        assert(call.body.input.deep_view().len() == input.deep_view().len());
        if 0 <= i < input@.len() {
            assert(call.body.input.deep_view()[i] == input.deep_view()[i]);
        }
    }
}

/// The list of models is asked of the server with the key and the timeout of the
/// configuration; it is not asked for want of a base URL, and for nothing else.
pub proof fn law_models_are_asked_for<F: Copy, C>(
    client: &MistralRs<F, C>,
    outcome: Result<ApiCall<()>, LLMError>,
)
    requires
        call_ensures(MistralRs::<F, C>::list_models_request, (client,), outcome),
    ensures
        match outcome {
            Ok(call) => {
                &&& client.config.base_url@.len() > 0
                &&& call.method == Method::Get
                &&& call.url@ == client.config.base_url@ + "/v1/models"@
                &&& call.bearer.deep_view() == client.config.api_key.deep_view()
                &&& call.timeout_seconds == client.config.timeout_seconds
            },
            Err(LLMError::InvalidRequest(message)) => client.config.base_url@.len() == 0
                && message@ == "Missing base_url"@,
            Err(_) => false,
        },
{
}

/// Speech is neither understood nor spoken.
pub proof fn law_speech_is_not_offered<F: Copy, C>(
    client: &MistralRs<F, C>,
    audio: Vec<u8>,
    text: &str,
    heard: Result<String, LLMError>,
    spoken: Result<Vec<u8>, LLMError>,
)
    requires
        call_ensures(MistralRs::<F, C>::transcribe, (client, audio), heard),
        call_ensures(MistralRs::<F, C>::speech, (client, text), spoken),
    ensures
        heard matches Err(LLMError::ProviderError(message)) && message@
            == "mistral.rs does not implement speech to text endpoint yet."@,
        spoken matches Err(LLMError::ProviderError(message)) && message@
            == "mistral.rs does not implement text to speech endpoint yet."@,
{
}

} // verus!

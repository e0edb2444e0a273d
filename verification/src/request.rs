//! The bodies of the requests, in the shape of the OpenAI-compatible API.

use vstd::prelude::*;

use crate::chat::{ChatMessage, ChatRole, MessageType, StructuredOutputFormat, Tool};
use crate::image;
use crate::json;

verus! {

/// The body of a chat request.
///
/// `F` is the type of the sampling numbers, which are only passed on.
#[derive(Debug)]
pub struct MistralRsChatRequest<'a, F> {
    pub model: String,
    pub messages: Vec<MistralRsChatMessage<'a>>,
    pub stream: bool,
    pub max_tokens: Option<u32>,
    pub temperature: Option<F>,
    pub top_p: Option<F>,
    pub tools: Option<Vec<MistralRsTool>>,
    pub response_format: Option<MistralRsResponseFormat>,
}

/// One message of a chat request.
#[derive(Debug)]
pub struct MistralRsChatMessage<'a> {
    pub role: &'a str,
    pub content: Option<MistralRsMessageContent<'a>>,
}

/// What a message holds: a text, or parts of different kinds.
#[derive(Debug)]
pub enum MistralRsMessageContent<'a> {
    Text(&'a str),
    Multimodal(Vec<MistralRsContentPart>),
}

#[derive(Debug)]
pub struct MistralRsContentPart {
    pub content_type: String,
    pub text: Option<String>,
    pub image_url: Option<MistralRsImageUrl>,
}

#[derive(Debug)]
pub struct MistralRsImageUrl {
    pub url: String,
}

/// A tool that the model may call.
#[derive(Debug)]
pub struct MistralRsTool {
    pub tool_type: String,
    pub function: MistralRsFunctionTool,
}

#[derive(Debug)]
pub struct MistralRsFunctionTool {
    pub name: String,
    pub description: String,
    pub parameters: serde_json::Value,
}

/// The form that the answer must have: `{"type": .., "json_schema": {"schema": ..}}`.
#[derive(Debug)]
pub struct MistralRsResponseFormat {
    pub format_type: String,
    pub json_schema: MistralRsJsonSchema,
}

#[derive(Debug)]
pub struct MistralRsJsonSchema {
    pub schema: serde_json::Value,
}

/// A text to be completed.
#[derive(Debug)]
pub struct CompletionRequest {
    pub prompt: String,
}

/// The body of a text completion request. Limits that are not set are sent as null.
#[derive(Debug)]
pub struct MistralRsCompletionRequest<F> {
    pub model: String,
    pub prompt: String,
    pub max_tokens: Option<u32>,
    pub temperature: Option<F>,
}

/// The body of an embedding request.
#[derive(Debug)]
pub struct MistralRsEmbeddingRequest {
    pub model: String,
    pub input: Vec<String>,
}

/// A [`MistralRsChatRequest`] as a value.
pub ghost struct ChatRequestView<F> {
    pub model: Seq<char>,
    pub messages: Seq<MessageView>,
    pub stream: bool,
    pub max_tokens: Option<u32>,
    pub temperature: Option<F>,
    pub top_p: Option<F>,
    pub tools: Option<Seq<ToolView>>,
    pub response_format: Option<ResponseFormatView>,
}

/// A [`MistralRsChatMessage`] as a value.
pub ghost struct MessageView {
    pub role: Seq<char>,
    pub content: Option<ContentView>,
}

/// A [`MistralRsMessageContent`] as a value.
pub ghost enum ContentView {
    Text(Seq<char>),
    Multimodal(Seq<PartView>),
}

/// A [`MistralRsContentPart`] as a value.
pub ghost struct PartView {
    pub content_type: Seq<char>,
    pub text: Option<Seq<char>>,
    pub image_url: Option<Seq<char>>,
}

/// A [`MistralRsTool`] as a value.
pub ghost struct ToolView {
    pub tool_type: Seq<char>,
    pub name: Seq<char>,
    pub description: Seq<char>,
    pub parameters: serde_json::Value,
}

/// A [`MistralRsResponseFormat`] as a value.
pub ghost struct ResponseFormatView {
    pub format_type: Seq<char>,
    pub schema: serde_json::Value,
}

/// A [`MistralRsCompletionRequest`] as a value.
pub ghost struct CompletionRequestView<F> {
    pub model: Seq<char>,
    pub prompt: Seq<char>,
    pub max_tokens: Option<u32>,
    pub temperature: Option<F>,
}

/// A [`MistralRsEmbeddingRequest`] as a value.
pub ghost struct EmbeddingRequestView {
    pub model: Seq<char>,
    pub input: Seq<Seq<char>>,
}

impl<'a, F> DeepView for MistralRsChatRequest<'a, F> {
    type V = ChatRequestView<F>;

    open spec fn deep_view(&self) -> ChatRequestView<F> {
        ChatRequestView {
            model: self.model@,
            messages: self.messages.deep_view(),
            stream: self.stream,
            max_tokens: self.max_tokens,
            temperature: self.temperature,
            top_p: self.top_p,
            tools: self.tools.deep_view(),
            response_format: self.response_format.deep_view(),
        }
    }
}

impl<'a> DeepView for MistralRsChatMessage<'a> {
    type V = MessageView;

    open spec fn deep_view(&self) -> MessageView {
        MessageView { role: self.role@, content: self.content.deep_view() }
    }
}

impl<'a> DeepView for MistralRsMessageContent<'a> {
    type V = ContentView;

    open spec fn deep_view(&self) -> ContentView {
        match self {
            MistralRsMessageContent::Text(text) => ContentView::Text(text@),
            MistralRsMessageContent::Multimodal(parts) => ContentView::Multimodal(
                parts.deep_view(),
            ),
        }
    }
}

impl DeepView for MistralRsContentPart {
    type V = PartView;

    open spec fn deep_view(&self) -> PartView {
        PartView {
            content_type: self.content_type@,
            text: self.text.deep_view(),
            image_url: self.image_url.deep_view(),
        }
    }
}

impl DeepView for MistralRsImageUrl {
    type V = Seq<char>;

    open spec fn deep_view(&self) -> Seq<char> {
        self.url@
    }
}

impl DeepView for MistralRsTool {
    type V = ToolView;

    open spec fn deep_view(&self) -> ToolView {
        ToolView {
            tool_type: self.tool_type@,
            name: self.function.name@,
            description: self.function.description@,
            parameters: self.function.parameters,
        }
    }
}

impl DeepView for MistralRsResponseFormat {
    type V = ResponseFormatView;

    open spec fn deep_view(&self) -> ResponseFormatView {
        ResponseFormatView { format_type: self.format_type@, schema: self.json_schema.schema }
    }
}

impl<F> DeepView for MistralRsCompletionRequest<F> {
    type V = CompletionRequestView<F>;

    open spec fn deep_view(&self) -> CompletionRequestView<F> {
        CompletionRequestView {
            model: self.model@,
            prompt: self.prompt@,
            max_tokens: self.max_tokens,
            temperature: self.temperature,
        }
    }
}

impl DeepView for MistralRsEmbeddingRequest {
    type V = EmbeddingRequestView;

    open spec fn deep_view(&self) -> EmbeddingRequestView {
        EmbeddingRequestView { model: self.model@, input: self.input.deep_view() }
    }
}

/// The name of a role.
pub open spec fn role_name(role: ChatRole) -> Seq<char> {
    match role {
        ChatRole::User => "user"@,
        ChatRole::Assistant => "assistant"@,
    }
}

/// A content that is nothing but the image at `url`.
pub open spec fn image_content(url: Seq<char>) -> ContentView {
    ContentView::Multimodal(
        seq![PartView { content_type: "image_url"@, text: None, image_url: Some(url) }],
    )
}

/// How a message is sent: images as the only part of a multimodal content, everything else
/// as its text.
pub open spec fn message_of(message: ChatMessage) -> MessageView {
    MessageView {
        role: role_name(message.role),
        content: Some(
            match message.message_type {
                MessageType::Image((_, data)) => image_content(image::image_url_text(data@)),
                MessageType::ImageURL(url) => image_content(url@),
                _ => ContentView::Text(message.content@),
            },
        ),
    }
}

/// How messages are sent, in order.
pub open spec fn messages_of(messages: Seq<ChatMessage>) -> Seq<MessageView> {
    messages.map_values(|message: ChatMessage| message_of(message))
}

/// How a system prompt is sent.
pub open spec fn system_message(prompt: Seq<char>) -> MessageView {
    MessageView { role: "system"@, content: Some(ContentView::Text(prompt)) }
}

/// How a tool is sent.
pub open spec fn tool_of(tool: Tool) -> ToolView {
    ToolView {
        tool_type: "function"@,
        name: tool.function.name@,
        description: tool.function.description@,
        parameters: tool.function.parameters,
    }
}

/// How tools are sent, in order.
pub open spec fn tools_of(tools: Seq<Tool>) -> Seq<ToolView> {
    tools.map_values(|tool: Tool| tool_of(tool))
}

/// What is demanded of the form of the answer. A demand without a schema demands nothing.
pub open spec fn response_format_of(format: Option<StructuredOutputFormat>) -> Option<
    ResponseFormatView,
> {
    match format {
        Some(format) => match format.schema {
            Some(schema) => Some(ResponseFormatView { format_type: "json_schema"@, schema }),
            None => None,
        },
        None => None,
    }
}

/// A content that is nothing but the image at `url`.
fn image_part<'a>(url: String) -> (content: MistralRsMessageContent<'a>)
    ensures
        content.deep_view() == image_content(url@),
{
    let mut parts: Vec<MistralRsContentPart> = Vec::new();
    parts.push(
        MistralRsContentPart {
            content_type: "image_url".to_owned(),
            text: None,
            image_url: Some(MistralRsImageUrl { url }),
        },
    );
    let content = MistralRsMessageContent::Multimodal(parts);
    proof {
        assert(parts.deep_view() =~= seq![
            PartView { content_type: "image_url"@, text: None, image_url: Some(url@) },
        ]);
    }
    content
}

impl<'a> MistralRsChatMessage<'a> {
    /// The form in which a message is sent.
    pub fn from(msg: &'a ChatMessage) -> (sent: MistralRsChatMessage<'a>)
        ensures
            sent.deep_view() == message_of(*msg),
    {
        let role = match msg.role {
            ChatRole::User => "user",
            ChatRole::Assistant => "assistant",
        };
        let content = match &msg.message_type {
            MessageType::Text => Some(MistralRsMessageContent::Text(msg.content.as_str())),
            MessageType::Image((_mime, data)) => Some(image_part(image::image_url(data))),
            MessageType::ImageURL(url) => Some(image_part(url.clone())),
            _ => Some(MistralRsMessageContent::Text(msg.content.as_str())),
        };
        MistralRsChatMessage { role, content }
    }
}

impl MistralRsTool {
    /// The form in which a tool is sent.
    pub fn from(tool: &Tool) -> (sent: MistralRsTool)
        ensures
            sent.deep_view() == tool_of(*tool),
    {
        MistralRsTool {
            tool_type: "function".to_owned(),
            function: MistralRsFunctionTool {
                name: tool.function.name.clone(),
                description: tool.function.description.clone(),
                parameters: json::copied(&tool.function.parameters),
            },
        }
    }
}

/// The form in which messages are sent.
pub fn chat_messages<'a>(messages: &'a [ChatMessage]) -> (sent: Vec<MistralRsChatMessage<'a>>)
    ensures
        sent.deep_view() == messages_of(messages@),
{
    let mut sent: Vec<MistralRsChatMessage<'a>> = Vec::new();
    let mut i: usize = 0;
    while i < messages.len()
        invariant
            i <= messages@.len(),
            sent@.len() == i,
            forall|j: int|
                0 <= j < i ==> (#[trigger] sent@[j]).deep_view() == message_of(messages@[j]),
        decreases messages@.len() - i,
    {
        sent.push(MistralRsChatMessage::from(&messages[i]));
        i += 1;
    }
    proof {
        assert(sent.deep_view() =~= messages_of(messages@));
    }
    sent
}

/// The form in which tools are sent.
pub fn chat_tools(tools: &[Tool]) -> (sent: Vec<MistralRsTool>)
    ensures
        sent.deep_view() == tools_of(tools@),
{
    let mut sent: Vec<MistralRsTool> = Vec::new();
    let mut i: usize = 0;
    while i < tools.len()
        invariant
            i <= tools@.len(),
            sent@.len() == i,
            forall|j: int| 0 <= j < i ==> (#[trigger] sent@[j]).deep_view() == tool_of(tools@[j]),
        decreases tools@.len() - i,
    {
        sent.push(MistralRsTool::from(&tools[i]));
        i += 1;
    }
    proof {
        assert(sent.deep_view() =~= tools_of(tools@));
    }
    sent
}

/// What is demanded of the form of the answer.
pub fn response_format(format: &Option<StructuredOutputFormat>) -> (demand: Option<
    MistralRsResponseFormat,
>)
    ensures
        demand.deep_view() == response_format_of(*format),
{
    match format {
        Some(format) => match &format.schema {
            Some(schema) => Some(
                MistralRsResponseFormat {
                    format_type: "json_schema".to_owned(),
                    json_schema: MistralRsJsonSchema { schema: json::copied(schema) },
                },
            ),
            None => None,
        },
        None => None,
    }
}

} // verus!

//! The vocabulary of a chat: messages, tools, tool calls, usage figures.

use vstd::prelude::*;

use crate::error::{LLMError, LLMErrorView};

verus! {

/// Who speaks in a chat.
#[derive(Debug, Clone, Copy, PartialEq, Eq, Structural)]
pub enum ChatRole {
    User,
    Assistant,
}

/// The format of an image.
#[derive(Debug, Clone, Copy, PartialEq, Eq, Structural)]
pub enum ImageMime {
    JPEG,
    PNG,
    GIF,
    WEBP,
}

/// What a message is, besides its text.
#[derive(Debug)]
pub enum MessageType {
    /// Nothing but the text.
    Text,
    /// An image, by its bytes.
    Image((ImageMime, Vec<u8>)),
    /// A PDF document, by its bytes.
    Pdf(Vec<u8>),
    /// An image, by its address.
    ImageURL(String),
    /// Sound, by its bytes.
    Audio(Vec<u8>),
    /// Calls that the model makes.
    ToolUse(Vec<ToolCall>),
    /// What the calls gave.
    ToolResult(Vec<ToolCall>),
}

/// One message of a chat.
#[derive(Debug)]
pub struct ChatMessage {
    pub role: ChatRole,
    pub message_type: MessageType,
    pub content: String,
}

/// A call of a tool by the model.
#[derive(Debug)]
pub struct ToolCall {
    pub id: String,
    pub call_type: String,
    pub function: FunctionCall,
}

/// The function that a tool call is for, with its arguments as JSON text.
#[derive(Debug)]
pub struct FunctionCall {
    pub name: String,
    pub arguments: String,
}

/// A tool that the model may call.
#[derive(Debug)]
pub struct Tool {
    pub tool_type: String,
    pub function: FunctionTool,
}

/// The function behind a tool, with the JSON schema of its parameters.
#[derive(Debug)]
pub struct FunctionTool {
    pub name: String,
    pub description: String,
    pub parameters: serde_json::Value,
}

/// A demand that the answer be JSON of a given schema.
#[derive(Debug)]
pub struct StructuredOutputFormat {
    pub name: String,
    pub description: Option<String>,
    pub schema: Option<serde_json::Value>,
    pub strict: Option<bool>,
}

/// How many tokens an exchange took.
#[derive(Debug)]
pub struct Usage {
    pub prompt_tokens: u32,
    pub completion_tokens: u32,
    pub total_tokens: u32,
    pub completion_tokens_details: Option<CompletionTokensDetails>,
    pub prompt_tokens_details: Option<PromptTokensDetails>,
}

#[derive(Debug)]
pub struct CompletionTokensDetails {
    pub reasoning_tokens: Option<u32>,
    pub audio_tokens: Option<u32>,
}

#[derive(Debug)]
pub struct PromptTokensDetails {
    pub cached_tokens: Option<u32>,
    pub audio_tokens: Option<u32>,
}

/// A [`ToolCall`] with its texts as sequences of characters.
pub ghost struct ToolCallView {
    pub id: Seq<char>,
    pub call_type: Seq<char>,
    pub name: Seq<char>,
    pub arguments: Seq<char>,
}

impl DeepView for ToolCall {
    type V = ToolCallView;

    open spec fn deep_view(&self) -> ToolCallView {
        ToolCallView {
            id: self.id@,
            call_type: self.call_type@,
            name: self.function.name@,
            arguments: self.function.arguments@,
        }
    }
}

/// Whether a message is sound.
pub open spec fn is_audio(message: ChatMessage) -> bool {
    message.message_type is Audio
}

/// Whether any message is sound.
pub open spec fn has_audio(messages: Seq<ChatMessage>) -> bool {
    exists|i: int| 0 <= i < messages.len() && is_audio(#[trigger] messages[i])
}

/// Refuses messages that hold sound, with the message `unsupported`.
pub fn ensure_no_audio(messages: &[ChatMessage], unsupported: &str) -> (checked: Result<
    (),
    LLMError,
>)
    ensures
        checked is Ok <==> !has_audio(messages@),
        checked matches Err(error) ==> error@ == LLMErrorView::InvalidRequest(unsupported@),
{
    let mut i: usize = 0;
    while i < messages.len()
        invariant
            i <= messages@.len(),
            forall|j: int| 0 <= j < i ==> !is_audio(#[trigger] messages@[j]),
        decreases messages@.len() - i,
    {
        match &messages[i].message_type {
            MessageType::Audio(_) => {
                assert(is_audio(messages@[i as int]));
                return Err(LLMError::InvalidRequest(unsupported.to_owned()));
            },
            _ => {},
        }
        i += 1;
    }
    Ok(())
}

} // verus!

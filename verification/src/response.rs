//! What the server answers, and what is read out of it.

use vstd::prelude::*;

use crate::chat::{FunctionCall, ToolCall, ToolCallView, Usage};
use crate::error::{LLMError, LLMErrorView};
use crate::json;

verus! {

/// The answer to a chat request.
#[derive(Debug)]
pub struct MistralRsChatResponse {
    pub id: Option<String>,
    pub choices: Vec<MistralRsChoice>,
    pub usage: Option<MistralRsUsage>,
}

#[derive(Debug)]
pub struct MistralRsChoice {
    pub message: MistralRsResponseMessage,
    pub finish_reason: Option<String>,
}

#[derive(Debug)]
pub struct MistralRsResponseMessage {
    pub content: Option<String>,
    pub tool_calls: Option<Vec<MistralRsToolCall>>,
}

#[derive(Debug)]
pub struct MistralRsToolCall {
    pub id: String,
    pub call_type: String,
    pub function: MistralRsFunctionCall,
}

/// A function call with its arguments as a JSON document.
#[derive(Debug)]
pub struct MistralRsFunctionCall {
    pub name: String,
    pub arguments: serde_json::Value,
}

/// Token counts, as far as the server gives them.
#[derive(Debug)]
pub struct MistralRsUsage {
    pub prompt_tokens: Option<u32>,
    pub completion_tokens: Option<u32>,
    pub total_tokens: Option<u32>,
}

/// The completed text.
#[derive(Debug)]
pub struct CompletionResponse {
    pub text: String,
}

/// `count`, or zero where there is none.
pub open spec fn count_or_zero(count: Option<u32>) -> u32 {
    match count {
        Some(count) => count,
        None => 0,
    }
}

/// A tool call with its arguments written out as `arguments`, or as no text at all where
/// they cannot be written out.
pub open spec fn tool_call_of(
    call: MistralRsToolCall,
    arguments: Option<Seq<char>>,
) -> ToolCallView {
    ToolCallView {
        id: call.id@,
        call_type: call.call_type@,
        name: call.function.name@,
        arguments: match arguments {
            Some(text) => text,
            None => Seq::empty(),
        },
    }
}

/// Tool calls with the JSON texts of their arguments, in order.
pub open spec fn tool_calls_of(calls: Seq<MistralRsToolCall>) -> Seq<ToolCallView> {
    calls.map_values(
        |call: MistralRsToolCall|
            tool_call_of(call, json::json_text(json::json_of(call.function.arguments))),
    )
}

impl MistralRsChatResponse {
    /// The message of the first choice, if there is a choice.
    pub open spec fn first_message(self) -> Option<MistralRsResponseMessage> {
        if self.choices@.len() > 0 {
            Some(self.choices@[0].message)
        } else {
            None
        }
    }

    /// The text of the first choice, if there is one.
    pub open spec fn text_view(self) -> Option<Seq<char>> {
        match self.first_message() {
            Some(message) => message.content.deep_view(),
            None => None,
        }
    }

    /// The tool calls of the first choice, if it lists any.
    pub open spec fn tool_calls_view(self) -> Option<Seq<ToolCallView>> {
        match self.first_message() {
            Some(message) => match message.tool_calls {
                Some(calls) => Some(tool_calls_of(calls@)),
                None => None,
            },
            None => None,
        }
    }

    /// The text of the first choice; the empty text where there is none.
    pub fn to_string(&self) -> (shown: String)
        ensures
            shown@ == match self.text_view() {
                Some(text) => text,
                None => Seq::empty(),
            },
    {
        match self.text() {
            Some(text) => text,
            None => String::new(),
        }
    }

    /// The text of the first choice, if there is one.
    pub fn text(&self) -> (text: Option<String>)
        ensures
            text.deep_view() == self.text_view(),
    {
        if self.choices.len() == 0 {
            return None;
        }
        match &self.choices[0].message.content {
            Some(content) => Some(content.clone()),
            None => None,
        }
    }

    /// The tool calls of the first choice, if it lists any.
    pub fn tool_calls(&self) -> (calls: Option<Vec<ToolCall>>)
        ensures
            calls.deep_view() == self.tool_calls_view(),
    {
        if self.choices.len() == 0 {
            return None;
        }
        match &self.choices[0].message.tool_calls {
            Some(received) => {
                let mut calls: Vec<ToolCall> = Vec::new();
                let mut i: usize = 0;
                while i < received.len()
                    invariant
                        i <= received@.len(),
                        calls@.len() == i,
                        forall|j: int|
                            0 <= j < i ==> (#[trigger] calls@[j]).deep_view() == tool_call_of(
                                received@[j],
                                json::json_text(
                                    json::json_of(received@[j].function.arguments),
                                ),
                            ),
                    decreases received@.len() - i,
                {
                    let arguments = match json::to_text(&received[i].function.arguments) {
                        Ok(text) => Some(text),
                        Err(_) => None,
                    };
                    calls.push(received[i].to_tool_call(arguments));
                    i += 1;
                }
                proof {
                    assert(calls.deep_view() =~= tool_calls_of(received@));
                }
                Some(calls)
            },
            None => None,
        }
    }

    /// The token counts, with zero for each count that the server leaves out.
    pub fn usage(&self) -> (usage: Option<Usage>)
        ensures
            usage == match self.usage {
                Some(counts) => Some(
                    Usage {
                        prompt_tokens: count_or_zero(counts.prompt_tokens),
                        completion_tokens: count_or_zero(counts.completion_tokens),
                        total_tokens: count_or_zero(counts.total_tokens),
                        completion_tokens_details: None,
                        prompt_tokens_details: None,
                    },
                ),
                None => None,
            },
    {
        match &self.usage {
            Some(counts) => Some(
                Usage {
                    prompt_tokens: counts.prompt_tokens.unwrap_or(0),
                    completion_tokens: counts.completion_tokens.unwrap_or(0),
                    total_tokens: counts.total_tokens.unwrap_or(0),
                    completion_tokens_details: None,
                    prompt_tokens_details: None,
                },
            ),
            None => None,
        }
    }
}

impl MistralRsToolCall {
    /// The call with `arguments` as the text of its arguments, empty where there is none.
    pub fn to_tool_call(&self, arguments: Option<String>) -> (call: ToolCall)
        ensures
            call.deep_view() == tool_call_of(*self, arguments.deep_view()),
    {
        ToolCall {
            id: self.id.clone(),
            call_type: self.call_type.clone(),
            function: FunctionCall {
                name: self.function.name.clone(),
                arguments: match arguments {
                    Some(text) => text,
                    None => String::new(),
                },
            },
        }
    }
}

/// The text in the answer to a completion request: that of its first choice.
pub open spec fn completion_text(answer: json::Json) -> Option<Seq<char>> {
    answer.member("choices"@).element(0).member("text"@).text()
}

/// The completed text in the answer to a completion request.
///
/// An answer without a first choice, or whose first choice has no text, is an error.
pub fn completion_response(answer: &serde_json::Value) -> (response: Result<
    CompletionResponse,
    LLMError,
>)
    ensures
        match completion_text(json::json_of(*answer)) {
            Some(text) => response matches Ok(completion) && completion.text@ == text,
            None => response matches Err(error) && error@ == LLMErrorView::ProviderError(
                "No answer returned by mistral.rs"@,
            ),
        },
{
    let choices = json::member(answer, "choices");
    let first = json::element(choices, 0);
    match json::as_text(json::member(first, "text")) {
        Some(text) => Ok(CompletionResponse { text: text.to_owned() }),
        None => Err(LLMError::ProviderError("No answer returned by mistral.rs".to_owned())),
    }
}

} // verus!

//! What is read out of the answers, told by what the server sent.

use vstd::prelude::*;

use crate::backend::LLMBackend;
use crate::chat::{ToolCall, Usage};
use crate::embedding::{
    check_indices, embed_response, embedding_at, MistralRsEmbeddingData, MistralRsEmbeddingResponse,
};
use crate::error::LLMError;
use crate::json::{json_of, json_text, Json};
use crate::laws::lemma_embedding_found;
use crate::models::{MistralRsModelData, MistralRsModelListResponse};
use crate::response::{
    completion_response, tool_calls_of, CompletionResponse, MistralRsChatResponse,
    MistralRsToolCall,
};

verus! {

/// The text of an answer is that of its first choice, every character of it, and there is
/// none exactly where the first choice has none or there is no choice. Shown, it is the same,
/// and empty where there is none.
pub proof fn law_text_is_that_of_the_first_choice(
    answer: &MistralRsChatResponse,
    text: Option<String>,
    shown: String,
)
    requires
        call_ensures(MistralRsChatResponse::text, (answer,), text),
        call_ensures(MistralRsChatResponse::to_string, (answer,), shown),
    ensures
        answer.choices@.len() == 0 ==> text is None && shown@.len() == 0,
        answer.choices@.len() > 0 ==> match answer.choices@[0].message.content {
            Some(content) => {
                &&& text matches Some(text) && text@ == content@
                &&& shown@ == content@
            },
            None => text is None && shown@.len() == 0,
        },
{
}

/// The tool calls of an answer are those of its first choice: as many, in order, each with
/// its own identifier, its own type, the name of its own function, and as arguments the JSON
/// text of its own arguments.
pub proof fn law_tool_calls_are_those_of_the_first_choice(
    answer: &MistralRsChatResponse,
    calls: Option<Vec<ToolCall>>,
    i: int,
)
    requires
        call_ensures(MistralRsChatResponse::tool_calls, (answer,), calls),
    ensures
        answer.choices@.len() == 0 ==> calls is None,
        answer.choices@.len() > 0 ==> match answer.choices@[0].message.tool_calls {
            Some(received) => {
                &&& calls matches Some(calls)
                &&& calls@.len() == received@.len()
                &&& 0 <= i < received@.len() ==> {
                    &&& calls@[i].id@ == received@[i].id@
                    &&& calls@[i].call_type@ == received@[i].call_type@
                    &&& calls@[i].function.name@ == received@[i].function.name@
                    &&& match json_text(json_of(received@[i].function.arguments)) {
                        Some(text) => calls@[i].function.arguments@ == text,
                        None => calls@[i].function.arguments@.len() == 0,
                    }
                }
            },
            None => calls is None,
        },
{
    if answer.choices@.len() > 0 {
        match (answer.choices@[0].message.tool_calls, calls) {
            (Some(received), Some(calls)) => {
                assert(calls.deep_view() == tool_calls_of(received@));
                assert(calls.deep_view().len() == received@.len());
                if 0 <= i < received@.len() {
                    assert(calls.deep_view()[i] == tool_calls_of(received@)[i]);
                    assert(calls.deep_view()[i] == calls@[i].deep_view());
                }
            },
            _ => {},
        }
    }
}

/// A tool call keeps its identifier, its type and the name of its function, and takes the
/// arguments that are written out for it; it has none where none are.
pub proof fn law_tool_call_keeps_what_it_is(
    received: &MistralRsToolCall,
    arguments: Option<String>,
    call: ToolCall,
)
    requires
        call_ensures(MistralRsToolCall::to_tool_call, (received, arguments), call),
    ensures
        call.id@ == received.id@,
        call.call_type@ == received.call_type@,
        call.function.name@ == received.function.name@,
        arguments matches Some(text) ==> call.function.arguments@ == text@,
        arguments is None ==> call.function.arguments@.len() == 0,
{
}

/// The token counts are those that the server gives, each by itself, and zero for each that
/// it leaves out; there are none exactly where it gives none at all.
pub proof fn law_usage_is_what_the_server_counts(
    answer: &MistralRsChatResponse,
    usage: Option<Usage>,
)
    requires
        call_ensures(MistralRsChatResponse::usage, (answer,), usage),
    ensures
        usage is Some <==> answer.usage is Some,
        usage matches Some(usage) ==> {
            let counts = answer.usage->0;
            &&& usage.prompt_tokens == if counts.prompt_tokens is Some {
                counts.prompt_tokens->0
            } else {
                0
            }
            &&& usage.completion_tokens == if counts.completion_tokens is Some {
                counts.completion_tokens->0
            } else {
                0
            }
            &&& usage.total_tokens == if counts.total_tokens is Some {
                counts.total_tokens->0
            } else {
                0
            }
            &&& usage.completion_tokens_details is None
            &&& usage.prompt_tokens_details is None
        },
{
}

/// An object whose member `choices` is a list that begins with an object whose member `text`
/// is a string completes the text with that string, every character of it.
pub proof fn law_completion_is_the_text_of_the_first_choice(
    answer: &serde_json::Value,
    members: Map<Seq<char>, Json>,
    choices: Seq<Json>,
    choice: Map<Seq<char>, Json>,
    text: Seq<char>,
    response: Result<CompletionResponse, LLMError>,
)
    requires
        json_of(*answer) == Json::Object(members),
        members.dom().contains("choices"@),
        members["choices"@] == Json::Array(choices),
        choices.len() > 0,
        choices[0] == Json::Object(choice),
        choice.dom().contains("text"@),
        choice["text"@] == Json::Text(text),
        call_ensures(completion_response, (answer,), response),
    ensures
        response matches Ok(completion) && completion.text@ == text,
{
}

/// An answer completes a text only if it is an object whose member `choices` is a list that
/// begins with an object whose member `text` is a string; every other answer is an error.
pub proof fn law_completion_needs_a_first_choice_with_a_text(
    answer: &serde_json::Value,
    response: Result<CompletionResponse, LLMError>,
)
    requires
        call_ensures(completion_response, (answer,), response),
    ensures
        match response {
            Ok(completion) => {
                &&& json_of(*answer) matches Json::Object(members)
                &&& members.dom().contains("choices"@)
                &&& members["choices"@] matches Json::Array(choices)
                &&& choices.len() > 0
                &&& choices[0] matches Json::Object(choice)
                &&& choice.dom().contains("text"@)
                &&& choice["text"@] == Json::Text(completion.text@)
            },
            Err(LLMError::ProviderError(message)) => message@
                == "No answer returned by mistral.rs"@,
            Err(_) => false,
        },
{
}

/// The indices of an answer are in range exactly where each is below the number of
/// embeddings.
pub proof fn law_indices_are_below_the_count<F>(
    response: &MistralRsEmbeddingResponse<F>,
    in_range: bool,
)
    requires
        call_ensures(check_indices::<F>, (response,), in_range),
    ensures
        in_range <==> forall|i: int|
            0 <= i < response.data@.len() ==> (#[trigger] response.data@[i]).index
                < response.data@.len(),
{
}

/// There is one place for each embedding of the answer. The last embedding that is given for
/// a place is in it, number by number, and a place for which none is given is empty.
pub proof fn law_last_embedding_is_in_its_place<F>(
    response: MistralRsEmbeddingResponse<F>,
    embeddings: Vec<Vec<F>>,
    k: int,
    place: int,
)
    requires
        call_ensures(embed_response::<F>, (response,), embeddings),
        forall|i: int|
            0 <= i < response.data@.len() ==> (#[trigger] response.data@[i]).index
                < response.data@.len(),
    ensures
        embeddings@.len() == response.data@.len(),
        0 <= k < response.data@.len() && (forall|later: int|
            k < later < response.data@.len() ==> (#[trigger] response.data@[later]).index
                != response.data@[k].index) ==> embeddings@[response.data@[k].index as int]@
            == response.data@[k].embedding@,
        0 <= place < embeddings@.len() && (forall|i: int|
            0 <= i < response.data@.len() ==> (#[trigger] response.data@[i]).index != place)
            ==> embeddings@[place]@.len() == 0,
{
    let data = response.data@;
    if 0 <= k < data.len() && (forall|later: int|
        k < later < data.len() ==> (#[trigger] data[later]).index != data[k].index) {
        lemma_embedding_found(data, k);
        assert(embeddings@[data[k].index as int]@ == embedding_at(data, data[k].index as int));
    }
    if 0 <= place < embeddings@.len() && (forall|i: int|
        0 <= i < data.len() ==> (#[trigger] data[i]).index != place) {
        lemma_none_for_the_place(data, place);
        assert(embeddings@[place]@ == embedding_at(data, place));
    }
}

/// A place for which no embedding is given is empty.
proof fn lemma_none_for_the_place<F>(data: Seq<MistralRsEmbeddingData<F>>, place: int)
    requires
        forall|i: int| 0 <= i < data.len() ==> (#[trigger] data[i]).index != place,
    ensures
        embedding_at(data, place).len() == 0,
    decreases data.len(),
{
    if data.len() > 0 {
        lemma_none_for_the_place(data.drop_last(), place);
    }
}

/// A list of models names them all, in its order, and hands each out as the server gave it.
pub proof fn law_models_are_listed_in_order(
    list: &MistralRsModelListResponse,
    names: Vec<String>,
    models: Vec<MistralRsModelData>,
    backend: LLMBackend,
    i: int,
)
    requires
        call_ensures(MistralRsModelListResponse::get_models, (list,), names),
        call_ensures(MistralRsModelListResponse::get_models_raw, (list,), models),
        call_ensures(MistralRsModelListResponse::get_backend, (list,), backend),
    ensures
        names@.len() == list.data@.len(),
        models@.len() == list.data@.len(),
        0 <= i < list.data@.len() ==> {
            &&& names@[i]@ == list.data@[i].id@
            &&& models@[i].id@ == list.data@[i].id@
            &&& models@[i].created == list.data@[i].created
            &&& models@[i].extra == list.data@[i].extra
        },
        backend is MistralRs,
{
}

/// A model has the identifier and the further description that the server gives. It was made
/// at the instant that the server gives, if a calendar holds that instant (from the year
/// -262143 to the year 262142), and at the epoch otherwise.
pub proof fn law_model_is_what_the_server_says(
    model: &MistralRsModelData,
    id: String,
    instant: i64,
    raw: serde_json::Value,
)
    requires
        call_ensures(MistralRsModelData::get_id, (model,), id),
        call_ensures(MistralRsModelData::get_created_at, (model,), instant),
        call_ensures(MistralRsModelData::get_raw, (model,), raw),
    ensures
        id@ == model.id@,
        raw == model.extra,
        model.created is None ==> instant == 0,
        model.created matches Some(seconds) ==> instant == if -8_334_601_228_800 <= seconds
            <= 8_210_266_876_799 {
            seconds
        } else {
            0
        },
{
}

} // verus!

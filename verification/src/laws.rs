//! What holds of the crate as a whole, and, in the modules below, of what each operation gives
//! for what it is given.

pub mod answers;
pub mod requests;
pub mod settings;
pub mod stream;

use vstd::prelude::*;

use crate::backend::GoogleServiceTier;
use crate::builder::{nothing_set, BuilderState};
use crate::chat::{has_audio, ChatMessage, Tool};
use crate::client::{
    chat_stream_outcome, chat_with_tools_outcome, complete_outcome, conversation,
    embed_outcome, list_models_outcome, model_or_default, ApiCallView, ConfigView,
    MistralRs, AUDIO_UNSUPPORTED,
};
use crate::embedding::{embedding_at, indices_in_range, MistralRsEmbeddingData};
use crate::error::LLMErrorView;
use crate::models::instant_or_epoch;
use crate::provider::{
    asks_for_embedded, embedded_model, is_embedded, server_config, server_url,
    settings_left_by_server,
};
use crate::request::{messages_of, system_message, ChatRequestView};
use crate::sse::{
    decoded_in_order, decodes_alike, decodes_to, event_content, events_answer, events_content,
    gives_answer, joined_answer, lemma_line_payloads_joined, lemma_line_payloads_one, line_payload,
    payloads, text_or_empty, MistralRsStreamChunk,
};
use crate::text::{
    is_white_space, lemma_lines_joined, lemma_single_line, lines, trimmed, trimmed_end,
    trimmed_start,
};
use crate::time;

verus! {

/// Whether a request goes to the server that is set, with the key and the timeout that are
/// set.
pub open spec fn goes_out_as_set<F, V>(state: BuilderState<F>, call: ApiCallView<V>) -> bool {
    &&& server_url(state.base_url.deep_view()).is_prefix_of(call.url)
    &&& call.bearer == state.api_key_text()
    &&& call.timeout_seconds == state.timeout_seconds
}

/// The API key, the base URL and the timeout that are set on a builder are those of every
/// request that the client built out of it makes.
pub proof fn law_settings_reach_every_request<F>(
    state: BuilderState<F>,
    tools: Option<Vec<Tool>>,
    messages: Seq<ChatMessage>,
    offered: Option<Seq<Tool>>,
    prompt: Seq<char>,
    input: Seq<Seq<char>>,
)
    ensures
        ({
            let config = server_config(state, tools);
            &&& chat_with_tools_outcome(config, messages, offered) matches Ok(call)
                ==> goes_out_as_set(state, call)
            &&& chat_stream_outcome(config, messages) matches Ok(call) ==> goes_out_as_set(
                state,
                call,
            )
            &&& complete_outcome(config, prompt) matches Ok(call) ==> goes_out_as_set(state, call)
            &&& embed_outcome(config, input) matches Ok(call) ==> goes_out_as_set(state, call)
            &&& list_models_outcome(config) matches Ok(call) ==> goes_out_as_set(state, call)
        }),
{
    let base = server_url(state.base_url.deep_view());
    assert forall|path: Seq<char>| base.is_prefix_of(#[trigger] (base + path)) by {
        assert((base + path).subrange(0, base.len() as int) =~= base);
    }
}

/// The model and the system prompt that are set on a builder are those of every chat that
/// the client built out of it sends: the prompt as its first message.
pub proof fn law_settings_open_every_chat<F>(
    state: BuilderState<F>,
    tools: Option<Vec<Tool>>,
    messages: Seq<ChatMessage>,
    offered: Option<Seq<Tool>>,
)
    ensures
        ({
            let config = server_config(state, tools);
            &&& chat_with_tools_outcome(config, messages, offered) matches Ok(call)
                ==> opened_as_set(state, call.body)
            &&& chat_stream_outcome(config, messages) matches Ok(call) ==> opened_as_set(
                state,
                call.body,
            )
        }),
{
}

/// Whether a chat is for the model that is set, and begins with the system prompt that is
/// set, if one is.
pub open spec fn opened_as_set<F>(state: BuilderState<F>, body: ChatRequestView<F>) -> bool {
    &&& body.model == model_or_default(state.model.deep_view())
    &&& state.system.deep_view() matches Some(prompt) ==> body.messages.len() > 0
        && body.messages[0] == system_message(prompt)
}

/// A client built without a base URL talks to a local server, and refuses nothing but sound.
pub proof fn law_local_server_by_default<F>(
    state: BuilderState<F>,
    tools: Option<Vec<Tool>>,
    messages: Seq<ChatMessage>,
    offered: Option<Seq<Tool>>,
    prompt: Seq<char>,
    input: Seq<Seq<char>>,
)
    requires
        state.base_url is None,
    ensures
        ({
            let config = server_config(state, tools);
            &&& config.base_url == "http://localhost:1234"@
            &&& chat_with_tools_outcome(config, messages, offered) is Ok <==> !has_audio(messages)
            &&& chat_stream_outcome(config, messages) is Ok <==> !has_audio(messages)
            &&& complete_outcome(config, prompt) is Ok
            &&& embed_outcome(config, input) is Ok
            &&& list_models_outcome(config) is Ok
        }),
{
    reveal_strlit("http://localhost:1234");
}

/// Settings in which nothing is set give a client of a local server, for the model
/// `default`, without a key; never an embedded model.
pub proof fn law_nothing_set_gives_local_client<F>(tools: Option<Vec<Tool>>)
    ensures
        !asks_for_embedded(nothing_set::<F>()),
        server_config(nothing_set::<F>(), tools) == (ConfigView::<F> {
            base_url: "http://localhost:1234"@,
            api_key: None,
            model: "default"@,
            max_tokens: None,
            temperature: None,
            system: None,
            timeout_seconds: None,
            top_p: None,
            top_k: None,
            json_schema: None,
            tools,
        }),
{
    reveal_strlit("default");
    assert("default"@ =~= seq!['d', 'e', 'f', 'a', 'u', 'l', 't']);
}

/// A chat that holds sound is refused, whatever else is configured.
pub proof fn law_audio_is_refused<F>(
    config: ConfigView<F>,
    messages: Seq<ChatMessage>,
    offered: Option<Seq<Tool>>,
)
    requires
        has_audio(messages),
    ensures
        chat_with_tools_outcome(config, messages, offered) == Err::<
            ApiCallView<ChatRequestView<F>>,
            LLMErrorView,
        >(LLMErrorView::InvalidRequest(AUDIO_UNSUPPORTED@)),
        chat_stream_outcome(config, messages) == Err::<
            ApiCallView<ChatRequestView<F>>,
            LLMErrorView,
        >(LLMErrorView::InvalidRequest(AUDIO_UNSUPPORTED@)),
{
}

/// A client without a base URL refuses every request but a streamed chat.
pub proof fn law_missing_base_url_is_refused<F>(
    config: ConfigView<F>,
    messages: Seq<ChatMessage>,
    offered: Option<Seq<Tool>>,
    prompt: Seq<char>,
    input: Seq<Seq<char>>,
)
    requires
        config.base_url.len() == 0,
    ensures
        ({
            let missing = LLMErrorView::InvalidRequest("Missing base_url"@);
            &&& !has_audio(messages) ==> chat_with_tools_outcome(config, messages, offered) == Err::<
                ApiCallView<ChatRequestView<F>>,
                LLMErrorView,
            >(missing)
            &&& complete_outcome(config, prompt) matches Err(error) && error == missing
            &&& embed_outcome(config, input) matches Err(error) && error == missing
            &&& list_models_outcome(config) matches Err(error) && error == missing
        }),
{
}

/// A streamed chat asks for what the same chat without tools asks for, and for streaming.
pub proof fn law_streaming_changes_only_the_flag<F>(
    config: ConfigView<F>,
    messages: Seq<ChatMessage>,
)
    requires
        config.base_url.len() > 0,
    ensures
        match (
            chat_stream_outcome(config, messages),
            chat_with_tools_outcome(config, messages, None),
        ) {
            (Ok(streamed), Ok(whole)) => streamed == (ApiCallView {
                body: ChatRequestView { stream: true, ..whole.body },
                ..whole
            }) && !whole.body.stream,
            (Err(streamed), Err(whole)) => streamed == whole,
            _ => false,
        },
{
}

/// A conversation is sent whole and in order: the system prompt first if there is one, then
/// one message for each message, each with a content, and none of them as `system`.
pub proof fn law_conversation_in_order(system: Option<Seq<char>>, messages: Seq<ChatMessage>)
    ensures
        ({
            let sent = conversation(system, messages);
            let start: int = if system is Some {
                1
            } else {
                0
            };
            &&& sent.len() == messages.len() + start
            &&& system matches Some(prompt) ==> sent[0] == system_message(prompt)
            &&& sent.skip(start) == messages_of(messages)
            &&& forall|i: int|
                start <= i < sent.len() ==> (#[trigger] sent[i]).content is Some && sent[i].role
                    != "system"@
        }),
{
    reveal_strlit("system");
    reveal_strlit("user");
    reveal_strlit("assistant");
    assert("system"@.len() == 6 && "user"@.len() == 4 && "assistant"@.len() == 9);
    let sent = conversation(system, messages);
    let start: int = if system is Some {
        1
    } else {
        0
    };
    assert(sent.skip(start) =~= messages_of(messages));
    assert forall|i: int| start <= i < sent.len() implies (#[trigger] sent[i]).content is Some
        && sent[i].role != "system"@ by {
        assert(sent[i] == messages_of(messages)[i - start]);
    }
}

/// The Google service tier has no effect on a mistral.rs provider.
pub proof fn law_google_tier_does_not_matter<F>(
    state: BuilderState<F>,
    tier: Option<GoogleServiceTier>,
    tools: Option<Vec<Tool>>,
)
    ensures
        ({
            let other = BuilderState { google_service_tier: tier, ..state };
            &&& asks_for_embedded(other) == asks_for_embedded(state)
            &&& server_config(other, tools) == server_config(state, tools)
            &&& embedded_model(other, tools) == embedded_model(state, tools)
        }),
{
}

/// The quantization has no effect on a client of a server.
pub proof fn law_quantization_is_for_embedded_models<F>(
    state: BuilderState<F>,
    quantization: Option<String>,
    tools: Option<Vec<Tool>>,
)
    ensures
        ({
            let other = BuilderState { quantization, ..state };
            &&& asks_for_embedded(other) == asks_for_embedded(state)
            &&& server_config(other, tools) == server_config(state, tools)
        }),
{
}

/// A model identifier with a slash in it asks for an embedded model.
pub proof fn law_slash_asks_for_embedded<F>(
    state: BuilderState<F>,
    owner: Seq<char>,
    name: Seq<char>,
)
    requires
        state.model.deep_view() == Some(owner + seq!['/'] + name),
    ensures
        asks_for_embedded(state),
{
    let model = owner + seq!['/'] + name;
    assert(model_or_default(state.model.deep_view()) == model);
    assert(model[owner.len() as int] == '/');
}

/// What a client of a server took over is not there for a second one: it has no key and no
/// system prompt, demands no schema, and talks to a local server.
pub proof fn law_settings_are_handed_over<F>(
    state: BuilderState<F>,
    embedding: bool,
    tools: Option<Vec<Tool>>,
)
    requires
        !is_embedded(state, embedding),
    ensures
        ({
            let again = server_config(settings_left_by_server(state, embedding), tools);
            &&& again.base_url == "http://localhost:1234"@
            &&& again.api_key is None
            &&& again.system is None
            &&& again.json_schema is None
            &&& again.timeout_seconds == state.timeout_seconds
            &&& again.max_tokens == state.max_tokens
        }),
{
}

/// A clone of a client has its client's configuration, and with it makes the same requests.
pub proof fn law_clones_share_the_configuration<F, C: Clone>(
    client: MistralRs<F, C>,
    copy: MistralRs<F, C>,
)
    requires
        cloned(client, copy),
    ensures
        copy.config == client.config,
        copy.config@ == client.config@,
{
}

/// An event stream may be read in stretches: at a line feed, the events of what comes before
/// it and of what comes after it are the events of the whole, in order.
pub proof fn law_stream_splits_at_line_feeds(before: Seq<char>, after: Seq<char>)
    ensures
        payloads(before + seq!['\n'] + after) == payloads(before) + payloads(after),
{
    lemma_lines_joined(before, after);
    lemma_line_payloads_joined(lines(before), lines(after));
}

/// A line that carries nothing (a blank line, a comment, the end-of-stream mark, another
/// field) may be left out of an event stream.
pub proof fn law_idle_lines_do_not_matter(before: Seq<char>, line: Seq<char>, after: Seq<char>)
    requires
        !line.contains('\n'),
        line_payload(line) is None,
    ensures
        payloads(before + seq!['\n'] + line + seq!['\n'] + after) == payloads(
            before + seq!['\n'] + after,
        ),
{
    law_stream_splits_at_line_feeds(before, line + seq!['\n'] + after);
    law_stream_splits_at_line_feeds(line, after);
    law_stream_splits_at_line_feeds(before, after);
    assert(before + seq!['\n'] + (line + seq!['\n'] + after) =~= before + seq!['\n'] + line + seq![
        '\n',
    ] + after);
    lemma_single_line(line);
    lemma_line_payloads_one(line);
    assert(payloads(line) + payloads(after) =~= payloads(after));
}

/// A comment carries nothing.
pub proof fn law_comments_carry_nothing(comment: Seq<char>)
    ensures
        line_payload(seq![':'] + comment) is None,
{
    let line = seq![':'] + comment;
    assert(line[0] == ':');
    assert(trimmed_start(line) == line);
    lemma_trimmed_end_keeps_first(line);
}

/// What does not begin with white space keeps its first character when its end is trimmed.
proof fn lemma_trimmed_end_keeps_first(line: Seq<char>)
    requires
        line.len() > 0,
        !is_white_space(line[0]),
    ensures
        trimmed_end(line).len() > 0,
        trimmed_end(line)[0] == line[0],
    decreases line.len(),
{
    if is_white_space(line.last()) {
        lemma_trimmed_end_keeps_first(line.drop_last());
    }
}

/// A carriage return before a line feed does not matter: lines may end in either way.
pub proof fn law_carriage_returns_do_not_matter(line: Seq<char>)
    ensures
        line_payload(line.push('\r')) == line_payload(line),
{
    lemma_trimmed_pushed(line, '\r');
}

/// White space behind a line is trimmed with the rest.
proof fn lemma_trimmed_pushed(line: Seq<char>, space: char)
    requires
        is_white_space(space),
    ensures
        trimmed(line.push(space)) == trimmed(line),
    decreases line.len(),
{
    let longer = line.push(space);
    if line.len() == 0 {
        assert(longer.drop_first() =~= line);
        assert(trimmed_start(longer) == trimmed_start(longer.drop_first()));
    } else if is_white_space(line[0]) {
        assert(longer.drop_first() =~= line.drop_first().push(space));
        lemma_trimmed_pushed(line.drop_first(), space);
    } else {
        assert(longer.drop_last() =~= line);
    }
}

/// The text of events that come in two runs is the text of the first run and then that of
/// the second; a failure in the first run is the failure of the whole.
pub proof fn law_events_join(
    first: Seq<Result<MistralRsStreamChunk, String>>,
    second: Seq<Result<MistralRsStreamChunk, String>>,
)
    ensures
        events_content(first + second) == match events_content(first) {
            Err(message) => Err(message),
            Ok(before) => match events_content(second) {
                Err(message) => Err(message),
                Ok(after) => Ok(before + after),
            },
        },
    decreases second.len(),
{
    if second.len() == 0 {
        assert(first + second =~= first);
        match events_content(first) {
            Ok(before) => {
                assert(before + Seq::<char>::empty() =~= before);
            },
            Err(_) => {},
        }
    } else {
        law_events_join(first, second.drop_last());
        assert((first + second).drop_last() =~= first + second.drop_last());
        assert((first + second).last() == second.last());
        match (events_content(first), events_content(second.drop_last()), second.last()) {
            (Ok(before), Ok(middle), Ok(event)) => {
                let last = crate::sse::choices_content(event.choices@);
                assert((before + middle) + last =~= before + (middle + last));
            },
            _ => {},
        }
    }
}

/// A stretch of an event stream that carries nothing gives nothing, whatever the decoder.
pub proof fn law_nothing_carried_gives_nothing<D: Fn(&str) -> Result<MistralRsStreamChunk, String>>(
    decode: D,
    chunk: Seq<char>,
    answer: Result<Option<Seq<char>>, LLMErrorView>,
)
    requires
        payloads(chunk).len() == 0,
        gives_answer(decode, chunk, answer),
    ensures
        answer == Ok::<Option<Seq<char>>, LLMErrorView>(None),
{
}

/// If the decoder reads each event of a stretch of an event stream in one way, the stretch
/// has one answer.
pub proof fn law_stream_answer_is_determined<D: Fn(&str) -> Result<MistralRsStreamChunk, String>>(
    decode: D,
    chunk: Seq<char>,
    one: Result<Option<Seq<char>>, LLMErrorView>,
    other: Result<Option<Seq<char>>, LLMErrorView>,
)
    requires
        decodes_alike(decode, payloads(chunk)),
        gives_answer(decode, chunk, one),
        gives_answer(decode, chunk, other),
    ensures
        one == other,
{
    let events = choose|events: Seq<Result<MistralRsStreamChunk, String>>|
        #![trigger events_answer(events)]
        decoded_in_order(decode, payloads(chunk), events) && one == events_answer(events);
    let again = choose|events: Seq<Result<MistralRsStreamChunk, String>>|
        #![trigger events_answer(events)]
        decoded_in_order(decode, payloads(chunk), events) && other == events_answer(events);
    assert forall|i: int| 0 <= i < events.len() && i < again.len() implies event_content(
        #[trigger] events[i],
    ) == event_content(again[i]) by {
        assert(decodes_to(decode, payloads(chunk)[i], events[i]));
        assert(decodes_to(decode, payloads(chunk)[i], again[i]));
    }
    if events.len() < again.len() {
        assert(event_content(events.last()) == event_content(again[events.len() - 1]));
    }
    if again.len() < events.len() {
        assert(event_content(events[again.len() - 1]) == event_content(again.last()));
    }
    lemma_content_alike(events, again);
}

/// Events that are alike one by one are alike together.
proof fn lemma_content_alike(
    events: Seq<Result<MistralRsStreamChunk, String>>,
    again: Seq<Result<MistralRsStreamChunk, String>>,
)
    requires
        events.len() == again.len(),
        forall|i: int|
            0 <= i < events.len() ==> event_content(#[trigger] events[i]) == event_content(
                again[i],
            ),
    ensures
        events_content(events) == events_content(again),
    decreases events.len(),
{
    if events.len() > 0 {
        assert(event_content(events.last()) == event_content(again.last()));
        lemma_content_alike(events.drop_last(), again.drop_last());
    }
}

/// An event stream may be read in stretches of whole lines: what a stretch that ends in a
/// line feed can give and what the stretch behind it can give, the two together can give,
/// joined. A stretch behind a failure is not read. This holds of every decoder.
pub proof fn law_stretches_join<D: Fn(&str) -> Result<MistralRsStreamChunk, String>>(
    decode: D,
    first: Seq<char>,
    second: Seq<char>,
    before: Result<Option<Seq<char>>, LLMErrorView>,
    after: Result<Option<Seq<char>>, LLMErrorView>,
)
    requires
        first.len() > 0,
        first.last() == '\n',
        gives_answer(decode, first, before),
        before is Ok ==> gives_answer(decode, second, after),
    ensures
        gives_answer(decode, first + second, joined_answer(before, after)),
{
    lemma_payloads_of_stretches(first, second);
    let whole = payloads(first + second);
    let events = choose|events: Seq<Result<MistralRsStreamChunk, String>>|
        #![trigger events_answer(events)]
        decoded_in_order(decode, payloads(first), events) && before == events_answer(events);
    if before is Err {
        lemma_failure_is_last(events);
        assert forall|i: int| 0 <= i < events.len() implies decodes_to(
            decode,
            #[trigger] whole[i],
            events[i],
        ) by {
            assert(decodes_to(decode, payloads(first)[i], events[i]));
        }
        assert(decoded_in_order(decode, whole, events));
    } else {
        let more = choose|events: Seq<Result<MistralRsStreamChunk, String>>|
            #![trigger events_answer(events)]
            decoded_in_order(decode, payloads(second), events) && after == events_answer(events);
        lemma_content_of_decoded(events);
        let joined = events + more;
        assert forall|i: int| 0 <= i < joined.len() implies decodes_to(
            decode,
            #[trigger] whole[i],
            joined[i],
        ) by {
            if i < events.len() {
                assert(decodes_to(decode, payloads(first)[i], events[i]));
            } else {
                let j = i - events.len();
                assert(decodes_to(decode, payloads(second)[j], more[j]));
            }
        }
        assert(decoded_in_order(decode, whole, joined));
        law_events_join(events, more);
        assert(events_answer(joined) == joined_answer(before, after));
    }
}

/// A stretch of an event stream that ends in a line feed and the stretch behind it give
/// together nothing but what the two can give, joined. This holds of every decoder.
pub proof fn law_stretches_split<D: Fn(&str) -> Result<MistralRsStreamChunk, String>>(
    decode: D,
    first: Seq<char>,
    second: Seq<char>,
    whole: Result<Option<Seq<char>>, LLMErrorView>,
) -> (parts: (Result<Option<Seq<char>>, LLMErrorView>, Result<Option<Seq<char>>, LLMErrorView>))
    requires
        first.len() > 0,
        first.last() == '\n',
        gives_answer(decode, first + second, whole),
    ensures
        gives_answer(decode, first, parts.0),
        parts.0 is Ok ==> gives_answer(decode, second, parts.1),
        whole == joined_answer(parts.0, parts.1),
{
    lemma_payloads_of_stretches(first, second);
    let events = choose|events: Seq<Result<MistralRsStreamChunk, String>>|
        #![trigger events_answer(events)]
        decoded_in_order(decode, payloads(first + second), events) && whole == events_answer(
            events,
        );
    let count = payloads(first).len() as int;
    if whole is Ok {
        lemma_content_of_decoded(events);
    } else {
        lemma_failure_is_last(events);
    }
    if events.len() <= count && whole is Err {
        assert forall|i: int| 0 <= i < events.len() implies decodes_to(
            decode,
            #[trigger] payloads(first)[i],
            events[i],
        ) by {
            assert(decodes_to(decode, payloads(first + second)[i], events[i]));
        }
        assert(decoded_in_order(decode, payloads(first), events));
        (whole, whole)
    } else {
        let head = events.take(count);
        let tail = events.skip(count);
        assert(head + tail =~= events);
        assert forall|i: int| 0 <= i < head.len() implies decodes_to(
            decode,
            #[trigger] payloads(first)[i],
            head[i],
        ) by {
            assert(decodes_to(decode, payloads(first + second)[i], events[i]));
        }
        assert forall|i: int| 0 <= i < tail.len() implies decodes_to(
            decode,
            #[trigger] payloads(second)[i],
            tail[i],
        ) by {
            assert(decodes_to(decode, payloads(first + second)[i + count], events[i + count]));
        }
        assert(decoded_in_order(decode, payloads(first), head));
        assert(decoded_in_order(decode, payloads(second), tail));
        law_events_join(head, tail);
        lemma_decoded_have_content(head);
        (events_answer(head), events_answer(tail))
    }
}

/// An event stream may be read in stretches of whole lines: if the decoder reads each event
/// in one way, the answer of a stretch that ends in a line feed and the stretch behind it is
/// the failure of the first, else the failure of the second, else the two texts joined, and
/// nothing only where neither has any.
pub proof fn law_answers_join_at_line_feeds<D: Fn(&str) -> Result<MistralRsStreamChunk, String>>(
    decode: D,
    first: Seq<char>,
    second: Seq<char>,
    before: Result<Option<Seq<char>>, LLMErrorView>,
    after: Result<Option<Seq<char>>, LLMErrorView>,
    whole: Result<Option<Seq<char>>, LLMErrorView>,
)
    requires
        decodes_alike(decode, payloads(first + second)),
        first.len() > 0,
        first.last() == '\n',
        gives_answer(decode, first, before),
        before is Ok ==> gives_answer(decode, second, after),
        gives_answer(decode, first + second, whole),
    ensures
        whole == joined_answer(before, after),
        before matches Err(error) ==> whole == Err::<Option<Seq<char>>, LLMErrorView>(error),
        before is Ok ==> (after matches Err(error) ==> whole == Err::<
            Option<Seq<char>>,
            LLMErrorView,
        >(error)),
        before matches Ok(x) ==> (after matches Ok(y) ==> (whole matches Ok(z) && {
            &&& text_or_empty(z) == text_or_empty(x) + text_or_empty(y)
            &&& z is None <==> x is None && y is None
        })),
{
    law_stretches_join(decode, first, second, before, after);
    law_stream_answer_is_determined(decode, first + second, whole, joined_answer(before, after));
}

/// What two stretches carry, the first of them made of whole lines, is carried one behind
/// the other.
proof fn lemma_payloads_of_stretches(first: Seq<char>, second: Seq<char>)
    requires
        first.len() > 0,
        first.last() == '\n',
    ensures
        payloads(first + second) == payloads(first) + payloads(second),
{
    let lines_before = first.drop_last();
    let nothing = Seq::<char>::empty();
    law_stream_splits_at_line_feeds(lines_before, nothing);
    law_stream_splits_at_line_feeds(lines_before, second);
    assert(lines_before + seq!['\n'] + nothing =~= first);
    assert(lines_before + seq!['\n'] + second =~= first + second);
    lemma_single_line(nothing);
    lemma_line_payloads_one(nothing);
    assert(payloads(first) =~= payloads(lines_before));
}

/// Events whose text is known could all be decoded.
proof fn lemma_content_of_decoded(events: Seq<Result<MistralRsStreamChunk, String>>)
    requires
        events_content(events) is Ok,
    ensures
        forall|i: int| 0 <= i < events.len() ==> (#[trigger] events[i]) is Ok,
    decreases events.len(),
{
    if events.len() > 0 {
        lemma_content_of_decoded(events.drop_last());
        assert forall|i: int| 0 <= i < events.len() implies (#[trigger] events[i]) is Ok by {
            if i < events.len() - 1 {
                assert(events.drop_last()[i] is Ok);
            }
        }
    }
}

/// Events that could all be decoded have a text.
pub proof fn lemma_decoded_have_content(events: Seq<Result<MistralRsStreamChunk, String>>)
    requires
        forall|i: int| 0 <= i < events.len() ==> (#[trigger] events[i]) is Ok,
    ensures
        events_content(events) is Ok,
    decreases events.len(),
{
    if events.len() > 0 {
        lemma_decoded_have_content(events.drop_last());
    }
}

/// Where only the last event may have failed and one has, it is the last.
proof fn lemma_failure_is_last(events: Seq<Result<MistralRsStreamChunk, String>>)
    requires
        forall|i: int| 0 <= i < events.len() - 1 ==> (#[trigger] events[i]) is Ok,
        events_content(events) is Err,
    ensures
        events.len() > 0,
        events.last() is Err,
{
    lemma_decoded_have_content(events.drop_last());
}

/// Embeddings for different texts all come back, each in the place of its text.
pub proof fn law_embeddings_in_place<F>(data: Seq<MistralRsEmbeddingData<F>>, k: int)
    requires
        indices_in_range(data),
        forall|i: int, j: int|
            0 <= i < j < data.len() ==> (#[trigger] data[i]).index != (#[trigger] data[j]).index,
        0 <= k < data.len(),
    ensures
        embedding_at(data, data[k].index as int) == data[k].embedding@,
{
    lemma_embedding_found(data, k);
}

/// The last embedding for a text is the one that counts.
pub proof fn lemma_embedding_found<F>(data: Seq<MistralRsEmbeddingData<F>>, k: int)
    requires
        0 <= k < data.len(),
        forall|j: int| k < j < data.len() ==> (#[trigger] data[j]).index != data[k].index,
    ensures
        embedding_at(data, data[k].index as int) == data[k].embedding@,
    decreases data.len(),
{
    if k + 1 < data.len() {
        assert(data.last().index != data[k].index);
        assert(data.drop_last()[k] == data[k]);
        lemma_embedding_found(data.drop_last(), k);
    }
}

/// The instant of a model is one that a `chrono::DateTime` can stand for, whatever the
/// server says, and it is what the server says wherever that is such an instant.
pub proof fn law_created_at_is_an_instant(created: Option<i64>)
    ensures
        time::FIRST_SECOND <= instant_or_epoch(created) <= time::LAST_SECOND,
        created matches Some(seconds) && time::FIRST_SECOND <= seconds <= time::LAST_SECOND
            ==> instant_or_epoch(created) == created->0,
{
}

} // verus!

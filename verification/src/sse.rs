//! The streaming chat API: server-sent events and the text tokens they carry.

use vstd::prelude::*;
use vstd::string::StringExecFns;

use crate::error::{LLMError, LLMErrorView};
use crate::text;

verus! {

/// One decoded event of a streamed chat answer.
#[derive(Debug)]
pub struct MistralRsStreamChunk {
    pub id: Option<String>,
    pub choices: Vec<MistralRsStreamChoice>,
}

#[derive(Debug)]
pub struct MistralRsStreamChoice {
    pub delta: MistralRsStreamDelta,
    pub finish_reason: Option<String>,
}

#[derive(Debug)]
pub struct MistralRsStreamDelta {
    pub content: Option<String>,
    pub tool_calls: Option<Vec<MistralRsStreamToolCall>>,
}

#[derive(Debug)]
pub struct MistralRsStreamToolCall {
    pub index: Option<usize>,
    pub id: Option<String>,
    pub call_type: Option<String>,
    pub function: Option<MistralRsStreamFunction>,
}

#[derive(Debug)]
pub struct MistralRsStreamFunction {
    pub name: Option<String>,
    pub arguments: Option<String>,
}

/// What a line of an event stream carries for the decoder: what follows `data: `, unless
/// that is the end-of-stream mark. Blank lines, comments and other fields carry nothing.
pub open spec fn line_payload(line: Seq<char>) -> Option<Seq<char>> {
    let inner = text::trimmed(line);
    if inner.len() == 0 || inner[0] == ':' {
        None
    } else {
        match text::without_prefix(inner, "data: "@) {
            Some(data) => if data == "[DONE]"@ {
                None
            } else {
                Some(data)
            },
            None => None,
        }
    }
}

/// What the given lines carry for the decoder, in order.
pub open spec fn line_payloads(lines: Seq<Seq<char>>) -> Seq<Seq<char>> {
    lines.filter_map(|line: Seq<char>| line_payload(line))
}

/// What the lines of `chunk` carry for the decoder, in order.
pub open spec fn payloads(chunk: Seq<char>) -> Seq<Seq<char>> {
    line_payloads(text::lines(chunk))
}

/// The text tokens of the given choices, one behind the other.
pub open spec fn choices_content(choices: Seq<MistralRsStreamChoice>) -> Seq<char>
    decreases choices.len(),
{
    if choices.len() == 0 {
        Seq::empty()
    } else {
        choices_content(choices.drop_last()) + match choices.last().delta.content {
            Some(content) => content@,
            None => Seq::empty(),
        }
    }
}

/// The text of all decoded events, or the message of the first that could not be decoded.
pub open spec fn events_content(
    events: Seq<Result<MistralRsStreamChunk, String>>,
) -> Result<Seq<char>, Seq<char>>
    decreases events.len(),
{
    if events.len() == 0 {
        Ok(Seq::empty())
    } else {
        match events_content(events.drop_last()) {
            Err(message) => Err(message),
            Ok(before) => match events.last() {
                Err(message) => Err(message@),
                Ok(event) => Ok(before + choices_content(event.choices@)),
            },
        }
    }
}

/// What is reported for decoded events: their text, nothing if there is none, or the first
/// failure to decode one.
pub open spec fn events_answer(
    events: Seq<Result<MistralRsStreamChunk, String>>,
) -> Result<Option<Seq<char>>, LLMErrorView> {
    match events_content(events) {
        Err(message) => Err(LLMErrorView::JsonError(message)),
        Ok(content) => Ok(
            if content.len() == 0 {
                None
            } else {
                Some(content)
            },
        ),
    }
}

/// `answer` with its text and its error as values.
pub open spec fn answer_view(
    answer: Result<Option<String>, LLMError>,
) -> Result<Option<Seq<char>>, LLMErrorView> {
    match answer {
        Err(error) => Err(error@),
        Ok(content) => Ok(content.deep_view()),
    }
}

/// Whether `decode` can give `event` for the text `payload`.
pub open spec fn decodes_to<D: Fn(&str) -> Result<MistralRsStreamChunk, String>>(
    decode: D,
    payload: Seq<char>,
    event: Result<MistralRsStreamChunk, String>,
) -> bool {
    exists|data: &str| data@ == payload && #[trigger] call_ensures(decode, (data,), event)
}

/// Whether `events` are what `decode` gave for `payloads`: one event each, in order, up to
/// and including the first failure.
pub open spec fn decoded_in_order<D: Fn(&str) -> Result<MistralRsStreamChunk, String>>(
    decode: D,
    payloads: Seq<Seq<char>>,
    events: Seq<Result<MistralRsStreamChunk, String>>,
) -> bool {
    &&& events.len() <= payloads.len()
    &&& forall|i: int|
        0 <= i < events.len() ==> decodes_to(decode, #[trigger] payloads[i], events[i])
    &&& forall|i: int| 0 <= i < events.len() - 1 ==> (#[trigger] events[i]) is Ok
    &&& events.len() < payloads.len() ==> events.len() > 0 && events.last() is Err
}

/// The text of a decoded event, or the message of one that could not be decoded.
pub open spec fn event_content(event: Result<MistralRsStreamChunk, String>) -> Result<
    Seq<char>,
    Seq<char>,
> {
    match event {
        Ok(event) => Ok(choices_content(event.choices@)),
        Err(message) => Err(message@),
    }
}

/// Whether `decode` reads each of `payloads` in one way, however often it is asked: as the
/// same text, or as the same failure.
pub open spec fn decodes_alike<D: Fn(&str) -> Result<MistralRsStreamChunk, String>>(
    decode: D,
    payloads: Seq<Seq<char>>,
) -> bool {
    forall|
        i: int,
        one: Result<MistralRsStreamChunk, String>,
        other: Result<MistralRsStreamChunk, String>,
    |
        0 <= i < payloads.len() && #[trigger] decodes_to(decode, payloads[i], one)
            && #[trigger] decodes_to(decode, payloads[i], other) ==> event_content(one)
            == event_content(other)
}

/// Whether a stretch of an event stream can give `answer`, its events being decoded by
/// `decode`.
pub open spec fn gives_answer<D: Fn(&str) -> Result<MistralRsStreamChunk, String>>(
    decode: D,
    chunk: Seq<char>,
    answer: Result<Option<Seq<char>>, LLMErrorView>,
) -> bool {
    exists|events: Seq<Result<MistralRsStreamChunk, String>>|
        #![trigger events_answer(events)]
        decoded_in_order(decode, payloads(chunk), events) && answer == events_answer(events)
}

/// The text of an answer; without one, the empty text.
pub open spec fn text_or_empty(content: Option<Seq<char>>) -> Seq<char> {
    match content {
        Some(content) => content,
        None => Seq::empty(),
    }
}

/// The answer of two stretches of an event stream, one behind the other: the failure of the
/// first, else that of the second, else their texts joined, and nothing if neither has any.
pub open spec fn joined_answer(
    before: Result<Option<Seq<char>>, LLMErrorView>,
    after: Result<Option<Seq<char>>, LLMErrorView>,
) -> Result<Option<Seq<char>>, LLMErrorView> {
    match (before, after) {
        (Err(error), _) => Err(error),
        (Ok(_), Err(error)) => Err(error),
        (Ok(None), Ok(None)) => Ok(None),
        (Ok(before), Ok(after)) => Ok(Some(text_or_empty(before) + text_or_empty(after))),
    }
}

/// The payloads of joined line sequences are the joined payloads.
pub proof fn lemma_line_payloads_joined(first: Seq<Seq<char>>, second: Seq<Seq<char>>)
    ensures
        line_payloads(first + second) == line_payloads(first) + line_payloads(second),
    decreases second.len(),
{
    if second.len() == 0 {
        assert(first + second =~= first);
        assert(line_payloads(second) =~= Seq::empty());
        assert(line_payloads(first) + line_payloads(second) =~= line_payloads(first));
    } else {
        lemma_line_payloads_joined(first, second.drop_last());
        assert((first + second).drop_last() =~= first + second.drop_last());
        assert((first + second).last() == second.last());
        assert(line_payloads(first + second) =~= line_payloads(first) + line_payloads(second));
    }
}

/// The payload of a single line.
pub proof fn lemma_line_payloads_one(line: Seq<char>)
    ensures
        line_payloads(seq![line]) == match line_payload(line) {
            Some(data) => seq![data],
            None => Seq::<Seq<char>>::empty(),
        },
{
    assert(seq![line].drop_last() =~= Seq::<Seq<char>>::empty());
    reveal_with_fuel(Seq::filter_map, 2);
    assert(line_payloads(seq![line]) =~= match line_payload(line) {
        Some(data) => seq![data],
        None => Seq::<Seq<char>>::empty(),
    });
}

/// What `line` carries for the decoder.
fn payload_of_line<'a>(line: &'a str) -> (payload: Option<&'a str>)
    ensures
        match payload {
            Some(data) => line_payload(line@) == Some(data@),
            None => line_payload(line@) is None,
        },
{
    let inner = text::trim(line);
    proof {
        reveal_strlit(":");
        assert(inner@.len() > 0 ==> (":"@.is_prefix_of(inner@) <==> inner@[0] == ':')) by {
            assert(":"@ =~= seq![':']);
            if inner@.len() > 0 {
                assert(inner@.subrange(0, 1) =~= seq![inner@[0]]);
                assert(seq![':'][0] == ':');
                assert(seq![inner@[0]][0] == inner@[0]);
            }
        }
    }
    if inner.is_empty() || text::strip_prefix(inner, ":").is_some() {
        return None;
    }
    match text::strip_prefix(inner, "data: ") {
        Some(data) => if text::same_text(data, "[DONE]") {
            None
        } else {
            Some(data)
        },
        None => None,
    }
}

/// Adds the text tokens of `event` to `collected`.
fn collect_event(collected: &mut String, event: &MistralRsStreamChunk)
    ensures
        final(collected)@ == old(collected)@ + choices_content(event.choices@),
{
    let ghost before = collected@;
    let mut i: usize = 0;
    proof {
        assert(event.choices@.take(0) =~= Seq::<MistralRsStreamChoice>::empty());
        assert(before + Seq::<char>::empty() =~= before);
    }
    while i < event.choices.len()
        invariant
            i <= event.choices@.len(),
            collected@ == before + choices_content(event.choices@.take(i as int)),
        decreases event.choices@.len() - i,
    {
        let ghost so_far = event.choices@.take(i as int);
        let ghost with_next = event.choices@.take(i + 1);
        proof {
            assert(with_next.drop_last() =~= so_far);
            assert(with_next.last() == event.choices@[i as int]);
        }
        match &event.choices[i].delta.content {
            Some(content) => {
                collected.append(content.as_str());
            },
            None => {},
        }
        proof {
            assert(collected@ =~= before + choices_content(with_next));
        }
        i += 1;
    }
    proof {
        assert(event.choices@.take(i as int) =~= event.choices@);
    }
}

/// Joins the text tokens of decoded events.
///
/// The first event that could not be decoded makes the whole answer an error with its
/// message. Events without any text give `None`.
pub fn collect_stream_content(events: &Vec<Result<MistralRsStreamChunk, String>>) -> (answer:
    Result<Option<String>, LLMError>)
    ensures
        answer_view(answer) == events_answer(events@),
{
    let mut collected = String::new();
    let mut i: usize = 0;
    proof {
        assert(events@.take(0) =~= Seq::<Result<MistralRsStreamChunk, String>>::empty());
    }
    while i < events.len()
        invariant
            i <= events@.len(),
            events_content(events@.take(i as int)) == Ok::<Seq<char>, Seq<char>>(collected@),
        decreases events@.len() - i,
    {
        proof {
            assert(events@.take(i + 1).drop_last() =~= events@.take(i as int));
            assert(events@.take(i + 1).last() == events@[i as int]);
        }
        match &events[i] {
            Ok(event) => {
                collect_event(&mut collected, event);
            },
            Err(message) => {
                proof {
                    lemma_first_failure(events@, i as int);
                }
                return Err(LLMError::JsonError(message.clone()));
            },
        }
        i += 1;
    }
    proof {
        assert(events@.take(i as int) =~= events@);
    }
    if collected.as_str().is_empty() {
        Ok(None)
    } else {
        Ok(Some(collected))
    }
}

/// Events after the first failure do not matter.
proof fn lemma_first_failure(events: Seq<Result<MistralRsStreamChunk, String>>, i: int)
    requires
        0 <= i < events.len(),
        events_content(events.take(i + 1)) is Err,
    ensures
        events_content(events) == events_content(events.take(i + 1)),
    decreases events.len(),
{
    if i + 1 == events.len() {
        assert(events.take(i + 1) =~= events);
    } else {
        assert(events.drop_last().take(i + 1) =~= events.take(i + 1));
        lemma_first_failure(events.drop_last(), i);
    }
}

/// Reads a stretch of an event stream: whole lines, as they came from the server.
///
/// `decode` turns the JSON text of one event into the event, or into a message that says
/// why it is none.
///
/// * `Ok(Some(text))`: the text tokens of all events of the stretch, joined.
/// * `Ok(None)`: no event carried text (comments, the end-of-stream mark, empty tokens).
/// * `Err(LLMError::JsonError(message))`: the first event that could not be decoded.
pub fn parse_mistral_rs_sse<D: Fn(&str) -> Result<MistralRsStreamChunk, String>>(
    chunk: &str,
    decode: D,
) -> (answer: Result<Option<String>, LLMError>)
    requires
        forall|data: &str| call_requires(decode, (data,)),
    ensures
        gives_answer(decode, chunk@, answer_view(answer)),
        payloads(chunk@).len() == 0 ==> answer == Ok::<Option<String>, LLMError>(None),
{
    let mut events: Vec<Result<MistralRsStreamChunk, String>> = Vec::new();
    let mut rest: &str = chunk;
    let mut more = true;
    let ghost mut seen = Seq::<Seq<char>>::empty();
    proof {
        assert(seen + payloads(rest@) =~= payloads(chunk@));
    }
    while more
        invariant
            forall|data: &str| call_requires(decode, (data,)),
            more ==> payloads(chunk@) == seen + payloads(rest@),
            !more ==> payloads(chunk@) == seen,
            events@.len() == seen.len(),
            forall|i: int|
                0 <= i < seen.len() ==> decodes_to(decode, #[trigger] seen[i], events@[i]),
            forall|i: int| 0 <= i < events@.len() ==> (#[trigger] events@[i]) is Ok,
        decreases
                if more {
                    rest@.len() + 1
                } else {
                    0
                },
    {
        let line = match text::split_once(rest, '\n') {
            Some((line, after)) => {
                rest = after;
                proof {
                    text::lemma_lines_joined(line@, after@);
                    text::lemma_single_line(line@);
                    lemma_line_payloads_joined(seq![line@], text::lines(after@));
                }
                line
            },
            None => {
                more = false;
                proof {
                    text::lemma_single_line(rest@);
                }
                rest
            },
        };
        proof {
            lemma_line_payloads_one(line@);
        }
        match payload_of_line(line) {
            Some(data) => {
                proof {
                    seen = seen.push(data@);
                    if more {
                        assert(payloads(chunk@) =~= seen + payloads(rest@));
                    } else {
                        assert(payloads(chunk@) =~= seen);
                    }
                }
                let event = decode(data);
                let failed = event.is_err();
                events.push(event);
                assert(decodes_to(decode, data@, event));
                if failed {
                    assert(decoded_in_order(decode, payloads(chunk@), events@)) by {
                        assert forall|i: int| 0 <= i < events@.len() implies decodes_to(
                            decode,
                            #[trigger] payloads(chunk@)[i],
                            events@[i],
                        ) by {
                            assert(payloads(chunk@)[i] == seen[i]);
                        }
                    }
                    return collect_stream_content(&events);
                }
            },
            None => {
                proof {
                    if more {
                        assert(payloads(chunk@) =~= seen + payloads(rest@));
                    } else {
                        assert(payloads(chunk@) =~= seen);
                    }
                }
            },
        }
    }
    assert(decoded_in_order(decode, payloads(chunk@), events@));
    collect_stream_content(&events)
}

/// Takes the whole lines, each with its line feed (the byte 10), out of what has been
/// received, and leaves what may be the beginning of a line.
pub fn take_whole_lines(received: &mut Vec<u8>) -> (whole_lines: Vec<u8>)
    ensures
        whole_lines@ + final(received)@ == old(received)@,
        whole_lines@.len() > 0 ==> whole_lines@.last() == 10,
        !final(received)@.contains(10u8),
{
    let ghost before = received@;
    let mut end = received.len();
    while end > 0 && received[end - 1] != 10
        invariant
            end <= received@.len(),
            received@ == before,
            forall|i: int| end <= i < received@.len() ==> received@[i] != 10,
        decreases end,
    {
        end -= 1;
    }
    let rest = received.split_off(end);
    let mut whole_lines: Vec<u8> = rest;
    std::mem::swap(received, &mut whole_lines);
    proof {
        assert(whole_lines@ + received@ =~= before);
    }
    whole_lines
}

} // verus!

//! What a streamed answer says, told by the lines of its event stream.

use vstd::prelude::*;
use vstd::seq_lib::lemma_flatten_concat;

use crate::error::LLMError;
use crate::laws::{law_events_join, lemma_decoded_have_content};
use crate::sse::{
    answer_view, choices_content, collect_stream_content, decoded_in_order, decodes_to,
    events_answer, events_content, lemma_line_payloads_one, line_payload, parse_mistral_rs_sse,
    payloads, take_whole_lines, MistralRsStreamChoice, MistralRsStreamChunk,
};
use crate::text::{is_white_space, lemma_single_line, trimmed, trimmed_end, trimmed_start};

verus! {

/// The text of one choice is its token, every character of it, white space included; a choice
/// without a token has no text, and neither have no choices at all.
pub proof fn law_text_of_a_choice_is_its_token(choice: MistralRsStreamChoice)
    ensures
        choices_content(Seq::empty()).len() == 0,
        choice.delta.content matches Some(token) ==> choices_content(seq![choice]) == token@,
        choice.delta.content is None ==> choices_content(seq![choice]).len() == 0,
{
    reveal_with_fuel(choices_content, 2);
    assert(seq![choice].drop_last() =~= Seq::<MistralRsStreamChoice>::empty());
    match choice.delta.content {
        Some(token) => {
            assert(Seq::<char>::empty() + token@ =~= token@);
        },
        None => {},
    }
}

/// The text of choices is the text of the first of them and then that of the rest.
pub proof fn law_texts_of_choices_join(
    first: Seq<MistralRsStreamChoice>,
    second: Seq<MistralRsStreamChoice>,
)
    ensures
        choices_content(first + second) == choices_content(first) + choices_content(second),
    decreases second.len(),
{
    if second.len() == 0 {
        assert(first + second =~= first);
        assert(choices_content(first) + choices_content(second) =~= choices_content(first));
    } else {
        law_texts_of_choices_join(first, second.drop_last());
        assert((first + second).drop_last() =~= first + second.drop_last());
        assert((first + second).last() == second.last());
        assert(choices_content(first + second) =~= choices_content(first) + choices_content(
            second,
        ));
    }
}

/// The text of one event is the text of its choices, and a failure is its message.
pub proof fn law_text_of_an_event_is_that_of_its_choices(
    event: Result<MistralRsStreamChunk, String>,
)
    ensures
        events_content(seq![event]) == match event {
            Ok(event) => Ok::<Seq<char>, Seq<char>>(choices_content(event.choices@)),
            Err(message) => Err(message@),
        },
        events_content(Seq::empty()) == Ok::<Seq<char>, Seq<char>>(Seq::empty()),
{
    reveal_with_fuel(events_content, 2);
    assert(seq![event].drop_last() =~= Seq::<Result<MistralRsStreamChunk, String>>::empty());
    match event {
        Ok(event) => {
            assert(Seq::<char>::empty() + choices_content(event.choices@) =~= choices_content(
                event.choices@,
            ));
        },
        Err(_) => {},
    }
}

/// The text of choices is their tokens, one behind the other.
proof fn lemma_tokens_of_choices(choices: Seq<MistralRsStreamChoice>, tokens: Seq<Seq<char>>)
    requires
        tokens.len() == choices.len(),
        forall|j: int|
            0 <= j < tokens.len() ==> #[trigger] tokens[j] == match choices[j].delta.content {
                Some(token) => token@,
                None => Seq::empty(),
            },
    ensures
        choices_content(choices) == tokens.flatten(),
    decreases choices.len(),
{
    if choices.len() > 0 {
        lemma_tokens_of_choices(choices.drop_last(), tokens.drop_last());
        assert(tokens.drop_last().push(tokens.last()) =~= tokens);
        tokens.drop_last().lemma_flatten_push(tokens.last());
        assert(tokens.last() == tokens[choices.len() - 1]);
    }
}

/// The text of events that could all be decoded is all their tokens, one behind the other.
proof fn lemma_tokens_of_events(
    events: Seq<Result<MistralRsStreamChunk, String>>,
    tokens: Seq<Seq<Seq<char>>>,
)
    requires
        tokens.len() == events.len(),
        forall|i: int|
            0 <= i < events.len() ==> {
                &&& #[trigger] events[i] matches Ok(event)
                &&& tokens[i].len() == event.choices@.len()
                &&& forall|j: int|
                    0 <= j < tokens[i].len() ==> #[trigger] tokens[i][j] == match event.choices@[j]
                        .delta.content {
                        Some(token) => token@,
                        None => Seq::empty(),
                    }
            },
    ensures
        events_content(events) == Ok::<Seq<char>, Seq<char>>(tokens.flatten().flatten()),
    decreases events.len(),
{
    if events.len() == 0 {
        assert(tokens.flatten() =~= Seq::<Seq<char>>::empty());
        assert(tokens.flatten().flatten() =~= Seq::<char>::empty());
    } else {
        let before = tokens.drop_last();
        assert forall|i: int| 0 <= i < events.drop_last().len() implies {
            &&& #[trigger] events.drop_last()[i] matches Ok(event)
            &&& before[i].len() == event.choices@.len()
            &&& forall|j: int|
                0 <= j < before[i].len() ==> #[trigger] before[i][j] == match event.choices@[j]
                    .delta.content {
                    Some(token) => token@,
                    None => Seq::empty(),
                }
        } by {
            assert(events.drop_last()[i] == events[i]);
            assert(before[i] == tokens[i]);
        }
        lemma_tokens_of_events(events.drop_last(), before);
        assert(before.push(tokens.last()) =~= tokens);
        before.lemma_flatten_push(tokens.last());
        lemma_flatten_concat(before.flatten(), tokens.last());
        let last = events[events.len() - 1];
        assert(last is Ok);
        lemma_tokens_of_choices(last->Ok_0.choices@, tokens.last());
    }
}

/// The answer of events that could all be decoded is all their tokens, in order and joined,
/// every character of them; it is nothing exactly where they hold no character.
pub proof fn law_tokens_are_joined(
    events: &Vec<Result<MistralRsStreamChunk, String>>,
    tokens: Seq<Seq<Seq<char>>>,
    answer: Result<Option<String>, LLMError>,
)
    requires
        call_ensures(collect_stream_content, (events,), answer),
        tokens.len() == events@.len(),
        forall|i: int|
            0 <= i < events@.len() ==> {
                &&& #[trigger] events@[i] matches Ok(event)
                &&& tokens[i].len() == event.choices@.len()
                &&& forall|j: int|
                    0 <= j < tokens[i].len() ==> #[trigger] tokens[i][j] == match event.choices@[j]
                        .delta.content {
                        Some(token) => token@,
                        None => Seq::empty(),
                    }
            },
    ensures
        match answer {
            Ok(Some(text)) => text@ == tokens.flatten().flatten() && text@.len() > 0,
            Ok(None) => tokens.flatten().flatten().len() == 0,
            Err(_) => false,
        },
{
    lemma_tokens_of_events(events@, tokens);
}

/// The answer of events of which one could not be decoded is the message of the first such.
pub proof fn law_first_failure_is_the_answer(
    events: &Vec<Result<MistralRsStreamChunk, String>>,
    k: int,
    answer: Result<Option<String>, LLMError>,
)
    requires
        call_ensures(collect_stream_content, (events,), answer),
        0 <= k < events@.len(),
        forall|i: int| 0 <= i < k ==> (#[trigger] events@[i]) is Ok,
        events@[k] is Err,
    ensures
        answer matches Err(LLMError::JsonError(message)) && message@ == events@[k]->Err_0@,
{
    lemma_first_failure_counts(events@, k);
}

/// Of events of which one could not be decoded, the first such decides.
proof fn lemma_first_failure_counts(events: Seq<Result<MistralRsStreamChunk, String>>, k: int)
    requires
        0 <= k < events.len(),
        forall|i: int| 0 <= i < k ==> (#[trigger] events[i]) is Ok,
        events[k] is Err,
    ensures
        events_content(events) == Err::<Seq<char>, Seq<char>>(events[k]->Err_0@),
{
    let read = events.take(k + 1);
    assert(read.drop_last() =~= events.take(k));
    assert(read.last() == events[k]);
    lemma_decoded_have_content(events.take(k));
    law_events_join(read, events.skip(k + 1));
    assert(read + events.skip(k + 1) =~= events);
}

/// The answer of a stretch of an event stream whose events are all read as holding `tokens`
/// is all these tokens, in order and joined, every character of them; it is nothing exactly
/// where they hold no character.
pub proof fn law_stretch_says_its_tokens<D: Fn(&str) -> Result<MistralRsStreamChunk, String>>(
    chunk: &str,
    decode: D,
    tokens: Seq<Seq<Seq<char>>>,
    answer: Result<Option<String>, LLMError>,
)
    requires
        call_ensures(parse_mistral_rs_sse::<D>, (chunk, decode), answer),
        tokens.len() == payloads(chunk@).len(),
        forall|i: int, data: &str, event: Result<MistralRsStreamChunk, String>|
            #![trigger payloads(chunk@)[i], call_ensures(decode, (data,), event)]
            0 <= i < tokens.len() && data@ == payloads(chunk@)[i] && call_ensures(
                decode,
                (data,),
                event,
            ) ==> {
                &&& event matches Ok(event)
                &&& tokens[i].len() == event.choices@.len()
                &&& forall|j: int|
                    0 <= j < tokens[i].len() ==> #[trigger] tokens[i][j] == match event.choices@[j]
                        .delta.content {
                        Some(token) => token@,
                        None => Seq::empty(),
                    }
            },
    ensures
        match answer {
            Ok(Some(text)) => text@ == tokens.flatten().flatten() && text@.len() > 0,
            Ok(None) => tokens.flatten().flatten().len() == 0,
            Err(_) => false,
        },
{
    let texts = payloads(chunk@);
    let events = choose|events: Seq<Result<MistralRsStreamChunk, String>>|
        #![trigger events_answer(events)]
        decoded_in_order(decode, texts, events) && answer_view(answer)
            == events_answer(events);
    assert forall|i: int| 0 <= i < events.len() implies {
        &&& #[trigger] events[i] matches Ok(event)
        &&& tokens[i].len() == event.choices@.len()
        &&& forall|j: int|
            0 <= j < tokens[i].len() ==> #[trigger] tokens[i][j] == match event.choices@[j]
                .delta.content {
                Some(token) => token@,
                None => Seq::empty(),
            }
    } by {
        assert(decodes_to(decode, texts[i], events[i]));
    }
    if events.len() < texts.len() {
        assert(events[events.len() - 1] is Ok);
    }
    lemma_tokens_of_events(events, tokens);
}

/// The answer of a stretch of an event stream of which one event cannot be decoded is the
/// message of the first such.
pub proof fn law_stretch_fails_with_its_first_failure<D: Fn(&str) -> Result<MistralRsStreamChunk, String>>(
    chunk: &str,
    decode: D,
    k: int,
    message: Seq<char>,
    answer: Result<Option<String>, LLMError>,
)
    requires
        call_ensures(parse_mistral_rs_sse::<D>, (chunk, decode), answer),
        0 <= k < payloads(chunk@).len(),
        forall|i: int, data: &str, event: Result<MistralRsStreamChunk, String>|
            #![trigger payloads(chunk@)[i], call_ensures(decode, (data,), event)]
            0 <= i < k && data@ == payloads(chunk@)[i] && call_ensures(decode, (data,), event)
                ==> event is Ok,
        forall|data: &str, event: Result<MistralRsStreamChunk, String>|
            data@ == payloads(chunk@)[k] && #[trigger] call_ensures(decode, (data,), event)
                ==> (event matches Err(failure) && failure@ == message),
    ensures
        answer matches Err(LLMError::JsonError(text)) && text@ == message,
{
    let texts = payloads(chunk@);
    let events = choose|events: Seq<Result<MistralRsStreamChunk, String>>|
        #![trigger events_answer(events)]
        decoded_in_order(decode, texts, events) && answer_view(answer)
            == events_answer(events);
    assert forall|i: int| 0 <= i < events.len() && i < k implies (#[trigger] events[i]) is Ok by {
        assert(decodes_to(decode, texts[i], events[i]));
    }
    if events.len() <= k {
        assert(events[events.len() - 1] is Ok);
    }
    assert(decodes_to(decode, texts[k], events[k]));
    lemma_first_failure_counts(events, k);
}

/// A stretch of one line carries what its line carries.
pub proof fn law_line_alone_carries_its_payload(line: Seq<char>)
    requires
        !line.contains('\n'),
    ensures
        payloads(line) == match line_payload(line) {
            Some(data) => seq![data],
            None => Seq::empty(),
        },
{
    lemma_single_line(line);
    lemma_line_payloads_one(line);
}

/// A line carries what follows `data: `, up to the white space at its end; the white space
/// around the line does not matter. The end-of-stream mark is carried by no line.
pub proof fn law_data_line_carries_its_data(before: Seq<char>, data: Seq<char>, after: Seq<char>)
    requires
        forall|i: int| 0 <= i < before.len() ==> is_white_space(#[trigger] before[i]),
        forall|i: int| 0 <= i < after.len() ==> is_white_space(#[trigger] after[i]),
        data.len() > 0,
        !is_white_space(data.last()),
    ensures
        line_payload(before + "data: "@ + data + after) == if data == "[DONE]"@ {
            None
        } else {
            Some(data)
        },
{
    reveal_strlit("data: ");
    let inner = "data: "@ + data;
    lemma_trimmed_inside(before, inner, after);
    assert(before + "data: "@ + data + after =~= before + inner + after);
    assert(inner[0] == 'd');
    assert(inner.skip("data: "@.len() as int) =~= data);
    assert("data: "@.is_prefix_of(inner)) by {
        assert(inner.subrange(0, "data: "@.len() as int) =~= "data: "@);
    }
}

/// A line that carries something is one with `data: ` in front of it, and white space only
/// around it; what it carries does not end in white space, and is not the end-of-stream mark.
pub proof fn law_only_data_lines_carry(line: Seq<char>) -> (around: (Seq<char>, Seq<char>))
    requires
        line_payload(line) is Some,
    ensures
        line == around.0 + "data: "@ + line_payload(line)->0 + around.1,
        forall|i: int| 0 <= i < around.0.len() ==> is_white_space(#[trigger] around.0[i]),
        forall|i: int| 0 <= i < around.1.len() ==> is_white_space(#[trigger] around.1[i]),
        line_payload(line)->0.len() > 0,
        !is_white_space(line_payload(line)->0.last()),
        line_payload(line)->0 != "[DONE]"@,
{
    reveal_strlit("data: ");
    let data = line_payload(line)->0;
    let around = lemma_trimmed_around(line);
    let inner = trimmed(line);
    assert(inner =~= "data: "@ + data) by {
        assert(inner.subrange(0, "data: "@.len() as int) =~= "data: "@);
    }
    if data.len() == 0 {
        assert(inner.last() == ' ');
    }
    assert(line =~= around.0 + "data: "@ + data + around.1);
    around
}

/// White space around a text that neither begins nor ends with any is what is trimmed.
proof fn lemma_trimmed_inside(before: Seq<char>, inner: Seq<char>, after: Seq<char>)
    requires
        forall|i: int| 0 <= i < before.len() ==> is_white_space(#[trigger] before[i]),
        forall|i: int| 0 <= i < after.len() ==> is_white_space(#[trigger] after[i]),
        inner.len() > 0,
        !is_white_space(inner[0]),
        !is_white_space(inner.last()),
    ensures
        trimmed(before + inner + after) == inner,
    decreases before.len() + after.len(),
{
    let line = before + inner + after;
    if before.len() > 0 {
        assert(line[0] == before[0]);
        assert(line.drop_first() =~= before.drop_first() + inner + after);
        lemma_trimmed_inside(before.drop_first(), inner, after);
    } else {
        assert(line[0] == inner[0]);
        assert(trimmed_start(line) == line);
        if after.len() > 0 {
            assert(line.last() == after.last());
            assert(line.drop_last() =~= before + inner + after.drop_last());
            lemma_trimmed_inside(before, inner, after.drop_last());
            assert(line.drop_last()[0] == inner[0]);
            assert(trimmed_start(line.drop_last()) == line.drop_last());
        } else {
            assert(line =~= inner);
        }
    }
}

/// What is trimmed off a line is white space, and nothing that is left is at either end.
proof fn lemma_trimmed_around(line: Seq<char>) -> (around: (Seq<char>, Seq<char>))
    ensures
        line == around.0 + trimmed(line) + around.1,
        forall|i: int| 0 <= i < around.0.len() ==> is_white_space(#[trigger] around.0[i]),
        forall|i: int| 0 <= i < around.1.len() ==> is_white_space(#[trigger] around.1[i]),
        trimmed(line).len() > 0 ==> !is_white_space(trimmed(line).last()),
    decreases line.len(),
{
    if line.len() > 0 && is_white_space(line[0]) {
        let rest = lemma_trimmed_around(line.drop_first());
        let around = (seq![line[0]] + rest.0, rest.1);
        assert(line =~= seq![line[0]] + line.drop_first());
        assert(around.0 + trimmed(line) + around.1 =~= line);
        around
    } else {
        let after = lemma_trimmed_end(line);
        assert(Seq::<char>::empty() + trimmed(line) + after =~= line);
        (Seq::empty(), after)
    }
}

/// What is trimmed off the end of a line is white space, and none is left there.
proof fn lemma_trimmed_end(line: Seq<char>) -> (after: Seq<char>)
    ensures
        line == trimmed_end(line) + after,
        forall|i: int| 0 <= i < after.len() ==> is_white_space(#[trigger] after[i]),
        trimmed_end(line).len() > 0 ==> !is_white_space(trimmed_end(line).last()),
    decreases line.len(),
{
    if line.len() > 0 && is_white_space(line.last()) {
        let rest = lemma_trimmed_end(line.drop_last());
        let after = rest.push(line.last());
        assert(trimmed_end(line) + after =~= line.drop_last().push(line.last()));
        assert(line.drop_last().push(line.last()) =~= line);
        after
    } else {
        assert(line + Seq::<char>::empty() =~= line);
        Seq::empty()
    }
}

/// What has been received is taken up to its last line feed, byte for byte, and what is behind
/// it is left; without a line feed nothing is taken.
pub proof fn law_whole_lines_are_taken(
    received: &mut Vec<u8>,
    whole_lines: Vec<u8>,
    lines: Seq<u8>,
    rest: Seq<u8>,
)
    requires
        call_ensures(take_whole_lines, (received,), whole_lines),
        old(received)@ == lines + rest,
        lines.len() > 0 ==> lines.last() == 10,
        !rest.contains(10u8),
    ensures
        whole_lines@ == lines,
        final(received)@ == rest,
{
    let taken = whole_lines@;
    let left = final(received)@;
    let all = lines + rest;
    assert(taken + left == all);
    if taken.len() < lines.len() {
        let k = lines.len() - 1 - taken.len();
        assert(left[k] == (taken + left)[lines.len() - 1]);
        assert(all[lines.len() - 1] == lines.last());
        assert(left.contains(10u8));
    }
    if lines.len() < taken.len() {
        let k = taken.len() - 1 - lines.len();
        assert(rest[k] == all[taken.len() - 1]);
        assert((taken + left)[taken.len() - 1] == taken.last());
        assert(rest.contains(10u8));
    }
    assert(taken =~= all.take(lines.len() as int));
    assert(lines =~= all.take(lines.len() as int));
    assert(left =~= all.skip(lines.len() as int));
    assert(rest =~= all.skip(lines.len() as int));
}

} // verus!

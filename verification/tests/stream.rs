use mistral_rs_client::error::LLMError;
use mistral_rs_client::sse::{
    collect_stream_content, parse_mistral_rs_sse, take_whole_lines, MistralRsStreamChoice,
    MistralRsStreamChunk, MistralRsStreamDelta,
};
use serde_json::Value;

fn event(contents: &[Option<&str>]) -> MistralRsStreamChunk {
    MistralRsStreamChunk {
        id: None,
        choices: contents
            .iter()
            .map(|content| MistralRsStreamChoice {
                delta: MistralRsStreamDelta {
                    content: content.map(str::to_string),
                    tool_calls: None,
                },
                finish_reason: None,
            })
            .collect(),
    }
}

fn decode(data: &str) -> Result<MistralRsStreamChunk, String> {
    let value: Value = serde_json::from_str(data).map_err(|e| e.to_string())?;
    let choices = value["choices"].as_array().ok_or_else(|| "no choices".to_string())?;
    let contents: Vec<Option<&str>> =
        choices.iter().map(|choice| choice["delta"]["content"].as_str()).collect();
    Ok(event(&contents))
}

fn echo(data: &str) -> Result<MistralRsStreamChunk, String> {
    Ok(event(&[Some("<"), Some(data), Some(">")]))
}

fn echoed(chunk: &str) -> Option<String> {
    parse_mistral_rs_sse(chunk, echo).unwrap()
}

fn line(content: &str) -> String {
    format!("data: {{\"choices\":[{{\"delta\":{{\"content\":\"{}\"}}}}]}}\n\n", content)
}

#[test]
fn tokens_are_joined() {
    let chunk = format!("{}{}data: [DONE]\n\n", line("Hel"), line("lo"));
    assert_eq!(parse_mistral_rs_sse(&chunk, decode).unwrap().as_deref(), Some("Hello"));
}

#[test]
fn answers_join_at_line_feeds() {
    let done = "data: [DONE]\n\n".to_string();
    for (first, second, whole) in [
        (line("Hel"), line("lo"), Some("Hello")),
        (line("Hello"), done.clone(), Some("Hello")),
        ("\n".to_string(), line("Hello"), Some("Hello")),
        (done.clone(), ": ping".to_string(), None),
    ] {
        let before = parse_mistral_rs_sse(&first, decode).unwrap().unwrap_or_default();
        let after = parse_mistral_rs_sse(&second, decode).unwrap().unwrap_or_default();
        let joined = parse_mistral_rs_sse(&format!("{}{}", first, second), decode).unwrap();
        assert_eq!(joined.as_deref(), whole);
        assert_eq!(joined.unwrap_or_default(), format!("{}{}", before, after));
    }
}

#[test]
fn failures_join_at_line_feeds() {
    let failing = |data: &str| match data.strip_prefix('!') {
        Some(message) => Err(message.to_string()),
        None => echo(data),
    };
    for (first, second, failure) in [
        ("data: !one\n", "data: b\n", "one"),
        ("data: !one\n", "data: !two\n", "one"),
        ("data: a\n", "data: !two\ndata: b", "two"),
        ("\n", "data: !two", "two"),
    ] {
        match parse_mistral_rs_sse(&format!("{}{}", first, second), failing) {
            Err(LLMError::JsonError(message)) => assert_eq!(message, failure),
            _ => panic!("an error was expected"),
        }
    }
    assert!(parse_mistral_rs_sse("data: !one\n", failing).is_err());
    assert!(parse_mistral_rs_sse("data: a\n", failing).is_ok());
}

#[test]
fn all_choices_count() {
    let chunk = "data: {\"choices\":[{\"delta\":{\"content\":\"a\"}},{\"delta\":{}},{\"delta\":{\"content\":\"b\"}}]}";
    assert_eq!(parse_mistral_rs_sse(chunk, decode).unwrap().as_deref(), Some("ab"));
}

#[test]
fn nothing_carried_gives_nothing() {
    let never = |_: &str| -> Result<MistralRsStreamChunk, String> { panic!("decoded") };
    for chunk in [
        "",
        "\n\n",
        ": ping\n\n",
        "  : ping",
        "data: [DONE]",
        "  data: [DONE]  \r\n",
        "event: message\nid: 3\nretry: 10\n",
        "data:x",
        "data:",
        "data: ",
        "Data: x",
        "x data: y",
    ] {
        assert!(parse_mistral_rs_sse(chunk, never).unwrap().is_none());
    }
}

#[test]
fn empty_tokens_give_nothing() {
    assert!(parse_mistral_rs_sse(&line(""), decode).unwrap().is_none());
    assert!(parse_mistral_rs_sse("data: {\"choices\":[]}", decode).unwrap().is_none());
}

#[test]
fn payloads_are_what_follows_the_field_name() {
    assert_eq!(echoed("data: x").as_deref(), Some("<x>"));
    assert_eq!(echoed("\t data:  x y \t").as_deref(), Some("< x y>"));
    assert_eq!(echoed("data: a\ndata: b").as_deref(), Some("<a><b>"));
    assert_eq!(echoed("data: [DONE] ?").as_deref(), Some("<[DONE] ?>"));
    assert_eq!(echoed("data: [DONE]\ndata: c").as_deref(), Some("<c>"));
    assert_eq!(echoed("data: é→\n").as_deref(), Some("<é→>"));
}

#[test]
fn line_endings_do_not_matter() {
    assert_eq!(echoed("data: a\r\ndata: b\r\n"), echoed("data: a\ndata: b\n"));
    assert_eq!(echoed("data: a\rb\n").as_deref(), Some("<a\rb>"));
}

#[test]
fn the_first_failure_is_reported() {
    let chunk = format!("{}data: {{bad\n{}data: [[\n", line("a"), line("b"));
    let expected = serde_json::from_str::<Value>("{bad").unwrap_err().to_string();
    assert!(matches!(
        parse_mistral_rs_sse(&chunk, decode),
        Err(LLMError::JsonError(message)) if message == expected
    ));
}

#[test]
fn nothing_is_decoded_after_a_failure() {
    let calls = std::cell::Cell::new(0);
    let fail_second = |data: &str| {
        calls.set(calls.get() + 1);
        if data == "2" {
            Err("two".to_string())
        } else {
            echo(data)
        }
    };
    let answer = parse_mistral_rs_sse("data: 1\ndata: 2\ndata: 3\n", fail_second);
    assert!(matches!(answer, Err(LLMError::JsonError(message)) if message == "two"));
    assert_eq!(calls.get(), 2);
}

#[test]
fn a_stream_may_be_split_at_line_feeds() {
    let whole = "data: a\n: idle\ndata: b\n\ndata: c";
    let mut joined = String::new();
    for part in whole.split('\n') {
        joined.push_str(&echoed(part).unwrap_or_default());
    }
    assert_eq!(echoed(whole), Some(joined));
}

#[test]
fn collected_events() {
    assert!(collect_stream_content(&vec![]).unwrap().is_none());
    let events = vec![Ok(event(&[Some("a"), None])), Ok(event(&[])), Ok(event(&[Some("b")]))];
    assert_eq!(collect_stream_content(&events).unwrap().as_deref(), Some("ab"));
    let failed = vec![Ok(event(&[Some("a")])), Err("x".to_string()), Err("y".to_string())];
    assert!(matches!(
        collect_stream_content(&failed),
        Err(LLMError::JsonError(message)) if message == "x"
    ));
}

#[test]
fn exactly_white_space_is_trimmed() {
    let listed = |c: char| {
        matches!(c as u32,
            0x09..=0x0d | 0x20 | 0x85 | 0xa0 | 0x1680 | 0x2000..=0x200a | 0x2028 | 0x2029
            | 0x202f | 0x205f | 0x3000)
    };
    for c in '\0'..=char::MAX {
        if listed(c) || c.is_whitespace() || (c as u32) < 0x3100 {
            let trimmed = echoed(&format!("{}data: x{}", c, c)).as_deref() == Some("<x>");
            assert_eq!(trimmed, listed(c));
        }
    }
}

#[test]
fn whole_lines_are_taken() {
    for (received, lines, rest) in [
        ("", "", ""),
        ("data", "", "data"),
        ("data: a\n", "data: a\n", ""),
        ("data: a\n\ndata: b", "data: a\n\n", "data: b"),
        ("\n", "\n", ""),
    ] {
        let mut buffer = received.as_bytes().to_vec();
        assert_eq!(take_whole_lines(&mut buffer), lines.as_bytes());
        assert_eq!(buffer, rest.as_bytes());
    }
}

#[test]
fn idle_lines_may_be_left_out() {
    for idle in ["", ": comment", "data: [DONE]", "event: x", "   "] {
        assert_eq!(echoed(&format!("data: a\n{}\ndata: b", idle)), echoed("data: a\ndata: b"));
    }
}

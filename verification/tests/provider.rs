use ai_flow_synth::llm::error::LLMError;
use ai_flow_synth::llm::model::{
    ChatMessageDelta, ChatMessageRole, ChunkToolCall, ChunkToolFunction, FinishReason,
};
use ai_flow_synth::llm::provider::deepseek::{
    DeepSeekChoice, DeepSeekChunkResp, DeepSeekDelta, DeepSeekUsage,
};
use ai_flow_synth::llm::provider::openai::{
    OpenAIChunkChoice, OpenAIChunkDelta, OpenAIChunkResp, OpenAIToolCall, OpenAIToolFunction,
};
use ai_flow_synth::llm::provider::{
    event_action, extract_delta, is_done_sentinel, transport_error, EventAction, ProviderEvent,
};

fn fragment_named(id: &str, name: &str, arguments: &str) -> ChunkToolCall {
    ChunkToolCall {
        id: Some(id.to_string()),
        index: 0,
        call_kind: Some("function".to_string()),
        function: ChunkToolFunction {
            name: Some(name.to_string()),
            arguments: arguments.to_string(),
        },
    }
}

fn deepseek_chunk(content: Option<&str>, tool_calls: Option<Vec<ChunkToolCall>>) -> DeepSeekChunkResp {
    DeepSeekChunkResp {
        id: "chunk-1".to_string(),
        object: "chat.completion.chunk".to_string(),
        created: 1716200000,
        model: "deepseek-chat".to_string(),
        choices: vec![DeepSeekChoice {
            index: 0,
            delta: DeepSeekDelta {
                content: content.map(|s| s.to_string()),
                role: Some(ChatMessageRole::Assistant),
                tool_calls,
            },
            finish_reason: Some(FinishReason::ToolCalls),
        }],
        usage: Some(DeepSeekUsage { prompt_tokens: 10, completion_tokens: 5, total_tokens: 15 }),
    }
}

fn openai_chunk(content: Option<&str>, tool_calls: Option<Vec<OpenAIToolCall>>) -> OpenAIChunkResp {
    OpenAIChunkResp {
        id: "chunk-2".to_string(),
        object: "chat.completion.chunk".to_string(),
        created: 1716200001,
        model: "gpt-4o-mini".to_string(),
        choices: vec![OpenAIChunkChoice {
            index: 0,
            delta: OpenAIChunkDelta {
                content: content.map(|s| s.to_string()),
                role: None,
                tool_calls,
            },
            finish_reason: Some(FinishReason::Length),
        }],
        finish_reason: Some(FinishReason::Stop),
    }
}

#[test]
fn the_sentinel_is_recognised_with_white_space_around_it() {
    assert!(is_done_sentinel("[DONE]"));
    assert!(is_done_sentinel(" [DONE]"));
    assert!(is_done_sentinel("[DONE]\n"));
    assert!(is_done_sentinel("\t \r\n[DONE] \u{a0}\u{3000}"));
    assert!(is_done_sentinel("\u{2003}[DONE]\u{85}"));
}

#[test]
fn other_data_is_not_the_sentinel() {
    assert!(!is_done_sentinel(""));
    assert!(!is_done_sentinel("   "));
    assert!(!is_done_sentinel("[DONE"));
    assert!(!is_done_sentinel("DONE]"));
    assert!(!is_done_sentinel("[done]"));
    assert!(!is_done_sentinel("[DONE]]"));
    assert!(!is_done_sentinel("[DONE] x"));
    assert!(!is_done_sentinel("x [DONE]"));
    assert!(!is_done_sentinel("[DO NE]"));
    assert!(!is_done_sentinel("[DONE][DONE]"));
    assert!(!is_done_sentinel("{\"id\":\"1\"}"));
    // A zero-width space is no white space.
    assert!(!is_done_sentinel("\u{200b}[DONE]"));
}

#[test]
fn the_sentinel_check_agrees_with_trim() {
    let samples = [
        "[DONE]", "  [DONE]  ", "\n[DONE]", "[DONE]\u{2028}", "[DONE]a", "a[DONE]", "[DON", "",
        " ", "\u{1680}[DONE]\u{205f}", "\u{feff}[DONE]", "[DONE]\u{0}",
    ];
    for sample in samples {
        assert_eq!(is_done_sentinel(sample), sample.trim() == "[DONE]", "{:?}", sample);
    }
}

#[test]
fn event_action_follows_the_decoding_policy() {
    assert_eq!(event_action(&ProviderEvent::Open), EventAction::Skip);
    assert_eq!(event_action(&ProviderEvent::Message(" [DONE] ".to_string())), EventAction::Finish);
    assert_eq!(
        event_action(&ProviderEvent::Message("{\"choices\":[]}".to_string())),
        EventAction::Decode
    );
    assert_eq!(event_action(&ProviderEvent::Message("not json".to_string())), EventAction::Decode);
    assert_eq!(event_action(&ProviderEvent::Message(String::new())), EventAction::Decode);
}

#[test]
fn transport_error_names_the_provider() {
    match transport_error("DeepSeek", "stream ended") {
        LLMError::TransportError(detail) => assert_eq!(detail, "DeepSeek API error: stream ended"),
        other => panic!("unexpected error: {:?}", other),
    }
    assert_eq!(ai_flow_synth::llm::provider::deepseek::PROVIDER_NAME, "DeepSeek");
    assert_eq!(ai_flow_synth::llm::provider::openai::PROVIDER_NAME, "OpenAI");
}

#[test]
fn content_wins_over_tool_calls() {
    let delta = extract_delta(
        Some("hello".to_string()),
        Some(vec![fragment_named("call_1", "get_weather", "{}")]),
    );
    match delta {
        ChatMessageDelta::Content(text) => assert_eq!(text, "hello"),
        ChatMessageDelta::ToolCalls(_) => panic!("the text was dropped"),
    }
}

#[test]
fn empty_content_is_still_content() {
    let delta = extract_delta(
        Some(String::new()),
        Some(vec![fragment_named("call_1", "get_weather", "{}")]),
    );
    match delta {
        ChatMessageDelta::Content(text) => assert_eq!(text, ""),
        ChatMessageDelta::ToolCalls(_) => panic!("the text was dropped"),
    }
}

#[test]
fn the_first_fragment_is_taken_where_there_is_no_content() {
    let delta = extract_delta(
        None,
        Some(vec![
            fragment_named("call_1", "get_weather", "{\"a\""),
            fragment_named("call_2", "get_time", "{}"),
        ]),
    );
    match delta {
        ChatMessageDelta::ToolCalls(fragment) => {
            assert_eq!(fragment.id, Some("call_1".to_string()));
            assert_eq!(fragment.function.name, Some("get_weather".to_string()));
            assert_eq!(fragment.function.arguments, "{\"a\"");
        },
        ChatMessageDelta::Content(_) => panic!("the fragment was dropped"),
    }
}

#[test]
fn nothing_to_extract_gives_empty_content() {
    for tool_calls in [None, Some(Vec::new())] {
        match extract_delta(None, tool_calls) {
            ChatMessageDelta::Content(text) => assert_eq!(text, ""),
            ChatMessageDelta::ToolCalls(_) => panic!("a fragment out of nothing"),
        }
    }
}

#[test]
fn deepseek_chunk_with_content() {
    let chunk = deepseek_chunk(Some("Sunny."), None).into_chunk().unwrap();
    assert_eq!(chunk.id, "chunk-1");
    assert_eq!(chunk.created, 1716200000);
    assert_eq!(chunk.model, "deepseek-chat");
    assert_eq!(chunk.finish_reason, Some(FinishReason::ToolCalls));
    assert_eq!(chunk.total_tokens, Some(15));
    match chunk.delta {
        ChatMessageDelta::Content(text) => assert_eq!(text, "Sunny."),
        ChatMessageDelta::ToolCalls(_) => panic!("the text was dropped"),
    }
}

#[test]
fn deepseek_chunk_with_a_tool_call() {
    let mut resp = deepseek_chunk(None, Some(vec![fragment_named("call_1", "get_weather", "{")]));
    resp.usage = None;
    resp.choices[0].finish_reason = None;
    let chunk = resp.into_chunk().unwrap();
    assert_eq!(chunk.finish_reason, None);
    assert_eq!(chunk.total_tokens, None);
    match chunk.delta {
        ChatMessageDelta::ToolCalls(fragment) => {
            assert_eq!(fragment.id, Some("call_1".to_string()));
            assert_eq!(fragment.call_kind, Some("function".to_string()));
            assert_eq!(fragment.function.arguments, "{");
        },
        ChatMessageDelta::Content(_) => panic!("the fragment was dropped"),
    }
}

#[test]
fn deepseek_chunk_uses_the_first_choice() {
    let mut resp = deepseek_chunk(Some("first"), None);
    resp.choices.push(DeepSeekChoice {
        index: 1,
        delta: DeepSeekDelta { content: Some("second".to_string()), role: None, tool_calls: None },
        finish_reason: Some(FinishReason::Stop),
    });
    let chunk = resp.into_chunk().unwrap();
    assert_eq!(chunk.finish_reason, Some(FinishReason::ToolCalls));
    match chunk.delta {
        ChatMessageDelta::Content(text) => assert_eq!(text, "first"),
        ChatMessageDelta::ToolCalls(_) => panic!("the text was dropped"),
    }
}

#[test]
fn a_chunk_without_choices_is_passed_over() {
    let mut deepseek = deepseek_chunk(Some("x"), None);
    deepseek.choices.clear();
    assert!(deepseek.into_chunk().is_none());
    let mut openai = openai_chunk(Some("x"), None);
    openai.choices.clear();
    assert!(openai.into_chunk().is_none());
}

#[test]
fn openai_chunk_with_content() {
    let chunk = openai_chunk(Some("Hi"), None).into_chunk().unwrap();
    assert_eq!(chunk.id, "chunk-2");
    assert_eq!(chunk.created, 1716200001);
    assert_eq!(chunk.model, "gpt-4o-mini");
    assert_eq!(chunk.finish_reason, Some(FinishReason::Stop));
    assert_eq!(chunk.total_tokens, None);
    match chunk.delta {
        ChatMessageDelta::Content(text) => assert_eq!(text, "Hi"),
        ChatMessageDelta::ToolCalls(_) => panic!("the text was dropped"),
    }
}

#[test]
fn openai_chunk_with_a_tool_call() {
    let calls = vec![
        OpenAIToolCall {
            id: Some("call_9".to_string()),
            index: 1,
            function: OpenAIToolFunction { name: Some("get_time".to_string()), arguments: None },
        },
        OpenAIToolCall {
            id: None,
            index: 2,
            function: OpenAIToolFunction { name: None, arguments: Some("{}".to_string()) },
        },
    ];
    let chunk = openai_chunk(None, Some(calls)).into_chunk().unwrap();
    match chunk.delta {
        ChatMessageDelta::ToolCalls(fragment) => {
            assert_eq!(fragment.id, Some("call_9".to_string()));
            assert_eq!(fragment.index, 1);
            assert_eq!(fragment.call_kind, None);
            assert_eq!(fragment.function.name, Some("get_time".to_string()));
            assert_eq!(fragment.function.arguments, "");
        },
        ChatMessageDelta::Content(_) => panic!("the fragment was dropped"),
    }
}

#[test]
fn openai_fragment_keeps_its_arguments() {
    let fragment = OpenAIToolCall {
        id: None,
        index: 0,
        function: OpenAIToolFunction { name: None, arguments: Some("\"Paris\"}".to_string()) },
    }
    .into_fragment();
    assert_eq!(fragment.id, None);
    assert_eq!(fragment.call_kind, None);
    assert_eq!(fragment.function.name, None);
    assert_eq!(fragment.function.arguments, "\"Paris\"}");
}

#[test]
fn openai_chunk_with_an_empty_list_of_tool_calls() {
    let chunk = openai_chunk(None, Some(Vec::new())).into_chunk().unwrap();
    match chunk.delta {
        ChatMessageDelta::Content(text) => assert_eq!(text, ""),
        ChatMessageDelta::ToolCalls(_) => panic!("a fragment out of nothing"),
    }
}

#[test]
fn a_failed_source_is_reported_once_and_ends_the_stream() {
    let (error, action) =
        ai_flow_synth::llm::provider::failure_action("OpenAI", "Invalid status code: 500");
    match error {
        LLMError::TransportError(detail) => {
            assert_eq!(detail, "OpenAI API error: Invalid status code: 500")
        },
        other => panic!("unexpected error: {:?}", other),
    }
    assert_eq!(action, EventAction::Finish);
}

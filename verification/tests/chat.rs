use ai_flow_synth::engine::context::Context;
use ai_flow_synth::engine::stream_message::StreamMessage;
use ai_flow_synth::llm::error::LLMError;
use ai_flow_synth::llm::model::{
    ChatMessage, ChatMessageChunk, ChatMessageDelta, ChatMessageRole, ChunkToolCall,
    ChunkToolFunction, ToolCall,
};
use ai_flow_synth::llm::provider::{ChunkStream, LLMCallProcess, LLMProvider};
use ai_flow_synth::llm::tool::{Tool, ToolRegistry};
use ai_flow_synth::llm::{chat, record_tool_round, ChatRun, MAX_EVENTS};
use std::cell::RefCell;
use std::collections::VecDeque;

type Event = Result<ChatMessageChunk, LLMError>;

/// A stream that hands out the events that it was given.
struct ScriptedStream {
    events: VecDeque<Event>,
}

impl ChunkStream for ScriptedStream {
    fn next(&mut self) -> Option<Event> {
        self.events.pop_front()
    }
}

/// A provider that plays one scripted stream per call and notes the
/// conversation and the tools that each call was given.
struct ScriptedProvider {
    streams: RefCell<VecDeque<Vec<Event>>>,
    seen: RefCell<Vec<Vec<ChatMessage>>>,
    tools_seen: RefCell<Vec<Vec<serde_json::Value>>>,
}

impl ScriptedProvider {
    fn new(streams: Vec<Vec<Event>>) -> Self {
        ScriptedProvider {
            streams: RefCell::new(streams.into_iter().collect()),
            seen: RefCell::new(Vec::new()),
            tools_seen: RefCell::new(Vec::new()),
        }
    }

    fn calls(&self) -> usize {
        self.seen.borrow().len()
    }
}

impl LLMProvider for ScriptedProvider {
    type Stream = ScriptedStream;

    fn chat_stream(
        &self,
        messages: &[ChatMessage],
        tools: &[serde_json::Value],
    ) -> Result<ScriptedStream, LLMError> {
        self.seen.borrow_mut().push(messages.to_vec());
        self.tools_seen.borrow_mut().push(tools.to_vec());
        match self.streams.borrow_mut().pop_front() {
            Some(events) => Ok(ScriptedStream { events: events.into_iter().collect() }),
            None => Err(LLMError::TransportError("no stream left".to_string())),
        }
    }
}

/// Answers with a sentence about the weather at the location asked for.
struct GetWeather {}

impl Tool for GetWeather {
    fn call(&self, input: serde_json::Value) -> Result<serde_json::Value, LLMError> {
        match input.get("location").and_then(|v| v.as_str()) {
            Some(location) => {
                Ok(serde_json::Value::from(format!("The weather in {} is sunny.", location)))
            },
            None => Err(LLMError::ToolInputError("missing field `location`".to_string())),
        }
    }
}

/// Answers with a fixed time.
struct GetTime {}

impl Tool for GetTime {
    fn call(&self, _input: serde_json::Value) -> Result<serde_json::Value, LLMError> {
        let mut answer = serde_json::Map::new();
        answer.insert("time".to_string(), serde_json::Value::from("10:00"));
        Ok(serde_json::Value::Object(answer))
    }
}

fn no_tools() -> ToolRegistry {
    ToolRegistry::new()
}

fn registry_with_weather() -> ToolRegistry {
    let mut registry: ToolRegistry = ToolRegistry::new();
    registry.register(
        "get_weather",
        "tells the weather",
        Box::new(GetWeather {}),
        serde_json::from_str(r#"{"type":"object"}"#).unwrap(),
    );
    registry
}

fn text(content: &str) -> ChatMessageChunk {
    ChatMessageChunk {
        id: "chunk".to_string(),
        delta: ChatMessageDelta::Content(content.to_string()),
        created: 0,
        model: "model".to_string(),
        finish_reason: None,
        total_tokens: None,
    }
}

fn fragment(id: Option<&str>, name: Option<&str>, arguments: &str) -> ChatMessageChunk {
    ChatMessageChunk {
        id: "chunk".to_string(),
        delta: ChatMessageDelta::ToolCalls(ChunkToolCall {
            id: id.map(|s| s.to_string()),
            index: 0,
            call_kind: id.map(|_| "function".to_string()),
            function: ChunkToolFunction {
                name: name.map(|s| s.to_string()),
                arguments: arguments.to_string(),
            },
        }),
        created: 0,
        model: "model".to_string(),
        finish_reason: None,
        total_tokens: None,
    }
}

fn weather_call_stream() -> Vec<Event> {
    vec![
        Ok(fragment(Some("call_1"), Some("get_weather"), "")),
        Ok(fragment(None, None, "{\"loca")),
        Ok(fragment(None, None, "tion\":\"Pa")),
        Ok(fragment(None, None, "ris\"}")),
    ]
}

fn time_call_stream() -> Vec<Event> {
    vec![Ok(fragment(Some("call_2"), Some("get_time"), "{}"))]
}

fn opening() -> Vec<ChatMessage> {
    vec![
        ChatMessage::system("You can call tools to answer."),
        ChatMessage::user("What is the weather in Paris?"),
    ]
}

fn published(listener: &mut tokio::sync::broadcast::Receiver<StreamMessage>) -> Vec<String> {
    let mut all = Vec::new();
    while let Ok(message) = listener.try_recv() {
        all.push(match message {
            StreamMessage::Delta(text) => format!("delta:{}", text),
            StreamMessage::Procedure(text) => format!("procedure:{}", text),
        });
    }
    all
}

#[test]
fn an_empty_delta_publishes_nothing() {
    let mut run = ChatRun::new();
    assert!(run.on_chunk(text("")).is_none());
    assert_eq!(run.content(), "");
    assert_eq!(run.process(), LLMCallProcess::Streaming);
}

#[test]
fn a_delta_with_text_publishes_that_text_once() {
    let mut run = ChatRun::new();
    match run.on_chunk(text("x")) {
        Some(StreamMessage::Delta(text)) => assert_eq!(text, "x"),
        _ => panic!("the text was not to be published"),
    }
    assert_eq!(run.content(), "x");
}

#[test]
fn chat_publishes_each_text_once_and_no_empty_one() {
    let provider = ScriptedProvider::new(vec![vec![
        Ok(text("")),
        Ok(text("x")),
        Ok(text("")),
        Ok(text("yz")),
        Ok(text("")),
    ]]);
    let mut context = Context::new();
    let stream = context.stream("stream_id");
    let mut listener = stream.subscribe();
    let mut messages = opening();
    let result = chat(&mut messages, stream, &provider, &no_tools()).unwrap();
    assert_eq!(result, "xyz");
    assert_eq!(published(&mut listener), vec!["delta:x".to_string(), "delta:yz".to_string()]);
}

#[test]
fn a_fragment_with_id_and_name_announces_the_tool() {
    let mut run = ChatRun::new();
    match run.on_chunk(fragment(Some("call_1"), Some("get_weather"), "")) {
        Some(StreamMessage::Procedure(text)) => assert_eq!(text, "Tools: get_weather"),
        _ => panic!("the tool was not announced"),
    }
    assert!(run.on_chunk(fragment(None, Some("get_weather"), "{")).is_none());
    assert!(run.on_chunk(fragment(Some("call_1"), None, "}")).is_none());
    assert_eq!(run.tool_call().id, "call_1");
    assert_eq!(run.tool_call().function.name, "get_weather");
    assert_eq!(run.tool_call().function.arguments, "{}");
    assert_eq!(run.content(), "");
}

#[test]
fn a_stream_of_text_ends_the_run_with_the_text_concatenated() {
    let mut run = ChatRun::new();
    let announced = run.on_stream(vec![text("Hel"), text(""), text("lo, "), text("world")]);
    assert_eq!(run.process(), LLMCallProcess::Done);
    assert_eq!(announced.len(), 3);
    assert_eq!(run.finish(), "Hello, world");
}

#[test]
fn an_empty_stream_ends_the_run_with_no_text() {
    let mut run = ChatRun::new();
    assert_eq!(run.on_stream_end(), LLMCallProcess::Done);
    assert_eq!(run.finish(), "");
}

#[test]
fn chat_over_a_stream_of_text_calls_the_provider_once() {
    let provider = ScriptedProvider::new(vec![vec![Ok(text("Sun")), Ok(text("ny."))]]);
    let mut context = Context::new();
    let mut messages = opening();
    let result = chat(&mut messages, context.stream("s"), &provider, &registry_with_weather());
    assert_eq!(result.unwrap(), "Sunny.");
    assert_eq!(provider.calls(), 1);
    assert_eq!(messages.len(), 2);
}

#[test]
fn a_stream_with_a_fragment_leads_to_invoking() {
    let mut run = ChatRun::new();
    let announced = run.on_stream(vec![
        text("Let me look. "),
        fragment(Some("call_1"), Some("get_weather"), "{}"),
    ]);
    assert_eq!(announced.len(), 2);
    assert_eq!(run.process(), LLMCallProcess::Invoking);
    assert_eq!(run.content(), "Let me look. ");
}

#[test]
fn chunks_outside_the_streaming_phase_are_dropped() {
    let mut run = ChatRun::new();
    run.on_stream(vec![text("done")]);
    assert_eq!(run.process(), LLMCallProcess::Done);
    assert!(run.on_chunk(text("late")).is_none());
    assert!(run.on_stream(vec![text("later")]).is_empty());
    assert_eq!(run.on_stream_end(), LLMCallProcess::Done);
    assert_eq!(run.content(), "done");
}

#[test]
fn invoke_outside_the_invoking_phase_does_nothing() {
    let mut run = ChatRun::new();
    let mut messages = opening();
    assert!(run.invoke(&mut messages, &registry_with_weather()).is_ok());
    assert_eq!(run.process(), LLMCallProcess::Streaming);
    assert_eq!(messages.len(), 2);
}

#[test]
fn invoke_runs_the_tool_and_records_the_round() {
    let mut run = ChatRun::new();
    run.on_stream(vec![
        text("One moment. "),
        fragment(Some("call_1"), Some("get_weather"), "{\"location\":"),
        fragment(None, None, "\"Paris\"}"),
    ]);
    let mut messages = opening();
    run.invoke(&mut messages, &registry_with_weather()).unwrap();
    assert_eq!(run.process(), LLMCallProcess::Streaming);
    assert_eq!(run.content(), "One moment. ");
    assert_eq!(run.tool_call().id, "");
    assert_eq!(run.tool_call().function.name, "");
    assert_eq!(run.tool_call().function.arguments, "");
    assert_eq!(messages.len(), 4);
    assert_eq!(messages[2].role, ChatMessageRole::Assistant);
    assert_eq!(messages[2].content, "");
    assert_eq!(messages[2].tool_call_id, None);
    assert_eq!(messages[2].tool_calls.len(), 1);
    assert_eq!(messages[2].tool_calls[0].id, "call_1");
    assert_eq!(messages[2].tool_calls[0].call_kind, "function");
    assert_eq!(messages[2].tool_calls[0].function.name, "get_weather");
    assert_eq!(messages[2].tool_calls[0].function.arguments, "{\"location\":\"Paris\"}");
    assert_eq!(messages[3].role, ChatMessageRole::Tool);
    assert_eq!(messages[3].content, "\"The weather in Paris is sunny.\"");
    assert_eq!(messages[3].tool_call_id, Some("call_1".to_string()));
    assert!(messages[3].tool_calls.is_empty());
    // The run is ready for the next stream, and a stream of text ends it.
    run.on_stream(vec![text("Sunny.")]);
    assert_eq!(run.process(), LLMCallProcess::Done);
    assert_eq!(run.finish(), "One moment. Sunny.");
}

#[test]
fn invoke_fails_with_tool_not_found_for_an_unknown_tool() {
    let mut run = ChatRun::new();
    run.on_stream(vec![fragment(Some("call_1"), Some("get_time"), "{}")]);
    let mut messages = opening();
    match run.invoke(&mut messages, &registry_with_weather()) {
        Err(LLMError::ToolNotFound(name)) => assert_eq!(name, "get_time"),
        other => panic!("unexpected outcome: {:?}", other),
    }
    assert_eq!(run.process(), LLMCallProcess::Done);
    assert_eq!(messages.len(), 2);
}

#[test]
fn invoke_fails_with_decode_error_for_arguments_that_are_not_json() {
    let mut run = ChatRun::new();
    run.on_stream(vec![fragment(Some("call_1"), Some("get_weather"), "{\"location\":")]);
    let mut messages = opening();
    assert!(matches!(
        run.invoke(&mut messages, &registry_with_weather()),
        Err(LLMError::DecodeError(_))
    ));
    assert_eq!(run.process(), LLMCallProcess::Done);
    assert_eq!(messages.len(), 2);
}

#[test]
fn invoke_hands_on_the_error_of_the_tool() {
    let mut run = ChatRun::new();
    run.on_stream(vec![fragment(Some("call_1"), Some("get_weather"), "{\"city\":\"Paris\"}")]);
    let mut messages = opening();
    match run.invoke(&mut messages, &registry_with_weather()) {
        Err(LLMError::ToolInputError(detail)) => assert_eq!(detail, "missing field `location`"),
        other => panic!("unexpected outcome: {:?}", other),
    }
    assert_eq!(run.process(), LLMCallProcess::Done);
    assert_eq!(messages.len(), 2);
}

#[test]
fn record_tool_round_appends_two_messages() {
    let mut messages = opening();
    let call = ToolCall::from(ChunkToolCall {
        id: Some("call_5".to_string()),
        index: 0,
        call_kind: None,
        function: ChunkToolFunction { name: Some("f".to_string()), arguments: "[]".to_string() },
    });
    record_tool_round(&mut messages, call, "{\"ok\":true}");
    assert_eq!(messages.len(), 4);
    assert_eq!(messages[0].role, ChatMessageRole::System);
    assert_eq!(messages[1].content, "What is the weather in Paris?");
    assert_eq!(messages[2].role, ChatMessageRole::Assistant);
    assert_eq!(messages[2].tool_calls[0].id, "call_5");
    assert_eq!(messages[3].role, ChatMessageRole::Tool);
    assert_eq!(messages[3].content, "{\"ok\":true}");
    assert_eq!(messages[3].tool_call_id, Some("call_5".to_string()));
}

#[test]
fn tool_round_trip() {
    let provider = ScriptedProvider::new(vec![weather_call_stream(), vec![Ok(text("Sunny."))]]);
    let registry = registry_with_weather();
    let mut context = Context::new();
    let stream = context.stream("stream_id");
    let mut listener = stream.subscribe();
    let mut messages = opening();
    let result = chat(&mut messages, stream, &provider, &registry);
    assert_eq!(result.unwrap(), "Sunny.");
    assert_eq!(provider.calls(), 2);

    assert_eq!(messages.len(), 4);
    assert_eq!(messages[0].role, ChatMessageRole::System);
    assert_eq!(messages[1].role, ChatMessageRole::User);
    assert_eq!(messages[2].role, ChatMessageRole::Assistant);
    assert_eq!(messages[2].content, "");
    assert_eq!(messages[2].tool_calls.len(), 1);
    assert_eq!(messages[2].tool_calls[0].id, "call_1");
    assert_eq!(messages[2].tool_calls[0].function.name, "get_weather");
    assert_eq!(messages[2].tool_calls[0].function.arguments, "{\"location\":\"Paris\"}");
    assert_eq!(messages[3].role, ChatMessageRole::Tool);
    assert_eq!(messages[3].content, "\"The weather in Paris is sunny.\"");
    assert_eq!(messages[3].tool_call_id, Some("call_1".to_string()));

    // The first stream saw the conversation as it was, the second with the round.
    let seen = provider.seen.borrow();
    assert_eq!(seen[0].len(), 2);
    assert_eq!(seen[1].len(), 4);
    assert_eq!(seen[1][2].role, ChatMessageRole::Assistant);
    assert_eq!(seen[1][3].role, ChatMessageRole::Tool);
    // Each stream was offered the catalogue.
    let tools_seen = provider.tools_seen.borrow();
    assert_eq!(tools_seen[0], registry.export_all_tools());
    assert_eq!(tools_seen[1], registry.export_all_tools());

    assert_eq!(
        published(&mut listener),
        vec!["procedure:Tools: get_weather".to_string(), "delta:Sunny.".to_string()]
    );
}

#[test]
fn unknown_tool() {
    let provider = ScriptedProvider::new(vec![weather_call_stream(), vec![Ok(text("Sunny."))]]);
    let mut context = Context::new();
    let mut messages = opening();
    let result = chat(&mut messages, context.stream("stream_id"), &provider, &no_tools());
    match result {
        Err(LLMError::ToolNotFound(name)) => assert_eq!(name, "get_weather"),
        other => panic!("unexpected outcome: {:?}", other),
    }
    assert_eq!(messages.len(), 2);
    assert_eq!(provider.calls(), 1);
}

#[test]
fn multi_round() {
    let provider = ScriptedProvider::new(vec![
        weather_call_stream(),
        time_call_stream(),
        vec![Ok(text("Sunny, ")), Ok(text("at ten."))],
    ]);
    let mut registry = registry_with_weather();
    registry.register("get_time", "tells the time", Box::new(GetTime {}), serde_json::Value::Null);
    let mut context = Context::new();
    let mut messages = opening();
    let result = chat(&mut messages, context.stream("stream_id"), &provider, &registry);
    assert_eq!(result.unwrap(), "Sunny, at ten.");
    assert_eq!(provider.calls(), 3);
    assert_eq!(messages.len(), 6);
    assert_eq!(messages[2].role, ChatMessageRole::Assistant);
    assert_eq!(messages[2].tool_calls[0].function.name, "get_weather");
    assert_eq!(messages[3].role, ChatMessageRole::Tool);
    assert_eq!(messages[3].tool_call_id, Some("call_1".to_string()));
    assert_eq!(messages[4].role, ChatMessageRole::Assistant);
    assert_eq!(messages[4].tool_calls.len(), 1);
    assert_eq!(messages[4].tool_calls[0].id, "call_2");
    assert_eq!(messages[4].tool_calls[0].function.name, "get_time");
    assert_eq!(messages[4].tool_calls[0].function.arguments, "{}");
    assert_eq!(messages[5].role, ChatMessageRole::Tool);
    assert_eq!(messages[5].content, "{\"time\":\"10:00\"}");
    assert_eq!(messages[5].tool_call_id, Some("call_2".to_string()));
    let seen = provider.seen.borrow();
    assert_eq!(seen[0].len(), 2);
    assert_eq!(seen[1].len(), 4);
    assert_eq!(seen[2].len(), 6);
}

#[test]
fn text_before_a_tool_call_stays_in_the_result() {
    let mut first = vec![Ok(text("Let me check. "))];
    first.extend(weather_call_stream());
    let provider = ScriptedProvider::new(vec![first, vec![Ok(text("Sunny."))]]);
    let mut context = Context::new();
    let mut messages = opening();
    let result = chat(&mut messages, context.stream("s"), &provider, &registry_with_weather());
    assert_eq!(result.unwrap(), "Let me check. Sunny.");
}

#[test]
fn chat_hands_on_an_error_of_the_stream() {
    let provider = ScriptedProvider::new(vec![vec![
        Ok(text("Sun")),
        Err(LLMError::TransportError("DeepSeek API error: stream ended".to_string())),
        Ok(text("ny.")),
    ]]);
    let mut context = Context::new();
    let mut messages = opening();
    match chat(&mut messages, context.stream("s"), &provider, &registry_with_weather()) {
        Err(LLMError::TransportError(detail)) => {
            assert_eq!(detail, "DeepSeek API error: stream ended")
        },
        other => panic!("unexpected outcome: {:?}", other),
    }
    assert_eq!(messages.len(), 2);
}

#[test]
fn chat_hands_on_an_error_of_the_provider() {
    let provider = ScriptedProvider::new(Vec::new());
    let mut context = Context::new();
    let mut messages = opening();
    match chat(&mut messages, context.stream("s"), &provider, &registry_with_weather()) {
        Err(LLMError::TransportError(detail)) => assert_eq!(detail, "no stream left"),
        other => panic!("unexpected outcome: {:?}", other),
    }
}

#[test]
fn chat_gives_up_where_the_tool_refuses_its_input() {
    let provider = ScriptedProvider::new(vec![
        vec![Ok(fragment(Some("call_1"), Some("get_weather"), "{\"city\":\"Paris\"}"))],
        vec![Ok(text("unreached"))],
    ]);
    let mut context = Context::new();
    let mut messages = opening();
    assert!(matches!(
        chat(&mut messages, context.stream("s"), &provider, &registry_with_weather()),
        Err(LLMError::ToolInputError(_))
    ));
    assert_eq!(messages.len(), 2);
    assert_eq!(provider.calls(), 1);
}

#[test]
fn chat_gives_up_where_the_arguments_are_not_json() {
    let provider = ScriptedProvider::new(vec![vec![Ok(fragment(
        Some("call_1"),
        Some("get_weather"),
        "{\"location\"",
    ))]]);
    let mut context = Context::new();
    let mut messages = opening();
    assert!(matches!(
        chat(&mut messages, context.stream("s"), &provider, &registry_with_weather()),
        Err(LLMError::DecodeError(_))
    ));
    assert_eq!(messages.len(), 2);
}

#[test]
fn chat_without_listeners_still_succeeds() {
    let provider = ScriptedProvider::new(vec![vec![Ok(text("quiet"))]]);
    let mut context = Context::new();
    let mut messages = Vec::new();
    let result = chat(&mut messages, context.stream("s"), &provider, &no_tools());
    assert_eq!(result.unwrap(), "quiet");
    assert!(messages.is_empty());
}

#[test]
fn the_event_limit_is_out_of_reach() {
    assert_eq!(MAX_EVENTS, u64::MAX);
}

#[test]
fn tool_request_hands_back_the_entry_and_the_input() {
    let mut run = ChatRun::new();
    run.on_stream(vec![fragment(Some("call_1"), Some("get_weather"), "{\"location\": \"Oslo\"}")]);
    let registry = registry_with_weather();
    let (entry, input) = run.tool_request(&registry).unwrap();
    assert_eq!(entry.description, "tells the weather");
    let expected: serde_json::Value = serde_json::from_str("{\"location\":\"Oslo\"}").unwrap();
    assert_eq!(input, expected);
    assert_eq!(run.process(), LLMCallProcess::Invoking);
}

#[test]
fn tool_request_looks_for_the_tool_before_it_reads_the_arguments() {
    let mut run = ChatRun::new();
    run.on_stream(vec![fragment(Some("call_1"), Some("get_time"), "not json")]);
    match run.tool_request(&registry_with_weather()) {
        Err(LLMError::ToolNotFound(name)) => assert_eq!(name, "get_time"),
        _ => panic!("the tool was to be missing"),
    }
    let mut run = ChatRun::new();
    run.on_stream(vec![fragment(Some("call_1"), Some("get_weather"), "not json")]);
    assert!(matches!(run.tool_request(&registry_with_weather()), Err(LLMError::DecodeError(_))));
}

#[test]
fn on_tool_result_records_the_text_of_the_result() {
    let mut run = ChatRun::new();
    run.on_stream(vec![text("Wait. "), fragment(Some("call_3"), Some("get_time"), "{}")]);
    let mut messages = opening();
    let output: serde_json::Value = serde_json::from_str("{ \"b\": [1, 2.5, null], \"a\": true }").unwrap();
    run.on_tool_result(&mut messages, Ok(output)).unwrap();
    assert_eq!(run.process(), LLMCallProcess::Streaming);
    assert_eq!(run.content(), "Wait. ");
    assert_eq!(run.tool_call().function.name, "");
    assert_eq!(messages.len(), 4);
    assert_eq!(messages[2].tool_calls[0].id, "call_3");
    assert_eq!(messages[3].content, "{\"a\":true,\"b\":[1,2.5,null]}");
    assert_eq!(messages[3].tool_call_id, Some("call_3".to_string()));
}

#[test]
fn on_tool_result_hands_on_the_error_of_the_tool() {
    let mut run = ChatRun::new();
    run.on_stream(vec![fragment(Some("call_3"), Some("get_time"), "{}")]);
    let mut messages = opening();
    let outcome = Err(LLMError::ChannelError("closed".to_string()));
    match run.on_tool_result(&mut messages, outcome) {
        Err(LLMError::ChannelError(detail)) => assert_eq!(detail, "closed"),
        other => panic!("unexpected outcome: {:?}", other),
    }
    assert_eq!(run.process(), LLMCallProcess::Done);
    assert_eq!(messages.len(), 2);
}

#[test]
fn on_tool_result_outside_the_invoking_phase_is_dropped() {
    let mut run = ChatRun::new();
    let mut messages = opening();
    assert!(run.on_tool_result(&mut messages, Ok(serde_json::Value::Null)).is_ok());
    assert!(run
        .on_tool_result(&mut messages, Err(LLMError::ToolInputError("late".to_string())))
        .is_ok());
    assert_eq!(run.process(), LLMCallProcess::Streaming);
    assert_eq!(messages.len(), 2);
}

#[test]
fn give_up_ends_the_run_and_keeps_the_text() {
    let mut run = ChatRun::new();
    run.on_chunk(text("so far"));
    run.give_up();
    assert_eq!(run.process(), LLMCallProcess::Done);
    assert_eq!(run.finish(), "so far");
}

#[test]
fn on_tool_result_takes_every_kind_of_value() {
    for text in ["\"sunny\"", "null", "true", "-12", "2.5", "[]", "[1,\"a\",null]", "{}", "{\"a\":{\"b\":[]}}"] {
        let mut run = ChatRun::new();
        run.on_stream(vec![fragment(Some("c1"), Some("get_weather"), "{}")]);
        let mut messages = opening();
        let output: serde_json::Value = serde_json::from_str(text).unwrap();
        assert!(run.on_tool_result(&mut messages, Ok(output)).is_ok());
        assert_eq!(run.process(), LLMCallProcess::Streaming);
        assert_eq!(messages.len(), 4);
        assert_eq!(messages[3].content, text);
    }
}

#[test]
fn on_item_takes_a_chunk_like_on_chunk() {
    let mut run = ChatRun::new();
    match run.on_item(Some(Ok(text("x")))) {
        Ok(Some(StreamMessage::Delta(text))) => assert_eq!(text, "x"),
        other => panic!("unexpected outcome: {:?}", other),
    }
    assert!(matches!(run.on_item(Some(Ok(text("")))), Ok(None)));
    assert_eq!(run.content(), "x");
    assert_eq!(run.process(), LLMCallProcess::Streaming);
}

#[test]
fn on_item_ends_the_stream_at_its_end() {
    let mut run = ChatRun::new();
    run.on_chunk(text("x"));
    assert!(matches!(run.on_item(None), Ok(None)));
    assert_eq!(run.process(), LLMCallProcess::Done);
    let mut run = ChatRun::new();
    run.on_chunk(fragment(Some("c1"), Some("f"), "{}"));
    assert!(matches!(run.on_item(None), Ok(None)));
    assert_eq!(run.process(), LLMCallProcess::Invoking);
}

#[test]
fn on_item_hands_on_an_error_of_the_stream_and_ends_the_run() {
    let mut run = ChatRun::new();
    run.on_chunk(text("so far"));
    match run.on_item(Some(Err(LLMError::TransportError("broken".to_string())))) {
        Err(LLMError::TransportError(detail)) => assert_eq!(detail, "broken"),
        other => panic!("unexpected outcome: {:?}", other),
    }
    assert_eq!(run.process(), LLMCallProcess::Done);
    assert_eq!(run.content(), "so far");
}

#[test]
fn on_answer_hands_on_the_stream_or_the_refusal() {
    let mut run = ChatRun::new();
    assert_eq!(run.on_answer(Ok::<u8, LLMError>(7)).unwrap(), 7);
    assert_eq!(run.process(), LLMCallProcess::Streaming);
    match run.on_answer(Err::<u8, LLMError>(LLMError::TransportError("refused".to_string()))) {
        Err(LLMError::TransportError(detail)) => assert_eq!(detail, "refused"),
        other => panic!("unexpected outcome: {:?}", other),
    }
    assert_eq!(run.process(), LLMCallProcess::Done);
}

#[test]
fn chat_hands_on_a_later_refusal_of_the_provider() {
    let provider = ScriptedProvider::new(vec![weather_call_stream()]);
    let mut context = Context::new();
    let mut messages = opening();
    match chat(&mut messages, context.stream("s"), &provider, &registry_with_weather()) {
        Err(LLMError::TransportError(detail)) => assert_eq!(detail, "no stream left"),
        other => panic!("unexpected outcome: {:?}", other),
    }
    assert_eq!(provider.calls(), 2);
    assert_eq!(messages.len(), 4);
}

#[test]
fn chat_pulls_nothing_after_an_error_of_the_stream() {
    let provider = ScriptedProvider::new(vec![
        vec![
            Ok(fragment(Some("call_1"), Some("get_weather"), "{\"location\":\"Paris\"}")),
            Err(LLMError::TransportError("broken".to_string())),
            Ok(text("unreached")),
        ],
        vec![Ok(text("unreached"))],
    ]);
    let mut context = Context::new();
    let stream = context.stream("s");
    let mut listener = stream.subscribe();
    let mut messages = opening();
    assert!(matches!(
        chat(&mut messages, stream, &provider, &registry_with_weather()),
        Err(LLMError::TransportError(_))
    ));
    assert_eq!(provider.calls(), 1);
    assert_eq!(messages.len(), 2);
    assert_eq!(published(&mut listener), vec!["procedure:Tools: get_weather".to_string()]);
}

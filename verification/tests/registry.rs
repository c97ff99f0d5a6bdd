use ai_flow_synth::llm::error::LLMError;
use ai_flow_synth::llm::tool::{Tool, ToolEntry, ToolRegistry};

/// Answers with the weather at the location that it is asked for.
struct GetWeather {
    weather: &'static str,
}

impl Tool for GetWeather {
    fn call(&self, input: serde_json::Value) -> Result<serde_json::Value, LLMError> {
        let location = match input.get("location").and_then(|v| v.as_str()) {
            Some(location) => location.to_string(),
            None => return Err(LLMError::ToolInputError("missing field `location`".to_string())),
        };
        let mut answer = serde_json::Map::new();
        answer.insert("weather".to_string(), serde_json::Value::from(self.weather));
        answer.insert("location".to_string(), serde_json::Value::from(location));
        Ok(serde_json::Value::Object(answer))
    }
}

fn weather_schema() -> serde_json::Value {
    serde_json::from_str(
        r#"{"type":"object","properties":{"location":{"type":"string"}},"required":["location"]}"#,
    )
    .unwrap()
}

fn weather_registry() -> ToolRegistry {
    let mut registry: ToolRegistry = ToolRegistry::new();
    registry.register(
        "get_weather",
        "获取天气",
        Box::new(GetWeather { weather: "sunny" }),
        weather_schema(),
    );
    registry
}

#[test]
fn test_tool_schema() {
    let registry = weather_registry();

    let func_name = "get_weather";
    let args: serde_json::Value = serde_json::from_str(r#"{"location": "Hangzhou"}"#).unwrap();

    if let Some(entry) = registry.get(func_name) {
        let result = entry.tool.call(args);
        println!("调用结果: {:?}", result);
        let expected: serde_json::Value =
            serde_json::from_str(r#"{"weather": "sunny", "location": "Hangzhou"}"#).unwrap();
        assert_eq!(result.unwrap(), expected);
    } else {
        panic!("the tool is not registered");
    }
}

#[test]
fn new_registry_is_empty() {
    let registry: ToolRegistry = ToolRegistry::new();
    assert_eq!(registry.len(), 0);
    assert!(registry.get("get_weather").is_none());
    assert!(registry.export_tool("get_weather").is_none());
    assert!(registry.export_all_tools().is_empty());
}

#[test]
fn get_finds_a_registered_tool_only_under_its_name() {
    let registry = weather_registry();
    assert_eq!(registry.len(), 1);
    let entry = registry.get("get_weather").unwrap();
    assert_eq!(entry.description, "获取天气");
    assert_eq!(entry.input_schema, weather_schema());
    assert!(registry.get("get_time").is_none());
    assert!(registry.get("GET_WEATHER").is_none());
    assert!(registry.get("").is_none());
}

#[test]
fn registering_a_name_again_replaces_the_tool() {
    let mut registry = weather_registry();
    registry.register(
        "get_time",
        "tells the time",
        Box::new(GetWeather { weather: "unused" }),
        serde_json::Value::Null,
    );
    registry.register(
        "get_weather",
        "weather, second edition",
        Box::new(GetWeather { weather: "rainy" }),
        serde_json::Value::Bool(true),
    );
    assert_eq!(registry.len(), 2);
    let entry = registry.get("get_weather").unwrap();
    assert_eq!(entry.description, "weather, second edition");
    assert_eq!(entry.input_schema, serde_json::Value::Bool(true));
    let input: serde_json::Value = serde_json::from_str(r#"{"location":"Oslo"}"#).unwrap();
    let answer = entry.tool.call(input).unwrap();
    assert_eq!(answer["weather"], serde_json::Value::from("rainy"));
    assert_eq!(registry.get("get_time").unwrap().description, "tells the time");
    // The replaced tool keeps its place in the catalogue.
    let all = registry.export_all_tools();
    assert_eq!(all[0]["function"]["name"], serde_json::Value::from("get_weather"));
    assert_eq!(all[1]["function"]["name"], serde_json::Value::from("get_time"));
}

#[test]
fn export_tool_has_the_shape_that_providers_expect() {
    let registry = weather_registry();
    let definition = registry.export_tool("get_weather").unwrap();
    let expected: serde_json::Value = serde_json::from_str(
        r#"{
            "type": "function",
            "function": {
                "name": "get_weather",
                "description": "获取天气",
                "parameters": {
                    "type": "object",
                    "properties": {"location": {"type": "string"}},
                    "required": ["location"]
                }
            }
        }"#,
    )
    .unwrap();
    assert_eq!(definition, expected);
    let top = definition.as_object().unwrap();
    assert_eq!(top.len(), 2);
    assert_eq!(top["function"].as_object().unwrap().len(), 3);
}

#[test]
fn export_tool_text_is_exact() {
    let mut registry: ToolRegistry = ToolRegistry::new();
    registry.register(
        "echo",
        "says \"it\" again",
        Box::new(GetWeather { weather: "unused" }),
        serde_json::from_str(r#"{"type":"string"}"#).unwrap(),
    );
    let definition = registry.export_tool("echo").unwrap();
    assert_eq!(
        serde_json::to_string(&definition).unwrap(),
        r#"{"function":{"description":"says \"it\" again","name":"echo","parameters":{"type":"string"}},"type":"function"}"#
    );
}

#[test]
fn export_tool_is_none_for_an_unknown_name() {
    let registry = weather_registry();
    assert!(registry.export_tool("get_time").is_none());
}

#[test]
fn export_all_tools_exports_each_tool_once() {
    let mut registry = weather_registry();
    registry.register(
        "get_time",
        "tells the time",
        Box::new(GetWeather { weather: "unused" }),
        serde_json::from_str(r#"{"type":"object"}"#).unwrap(),
    );
    let all = registry.export_all_tools();
    assert_eq!(all.len(), 2);
    assert_eq!(all[0], registry.export_tool("get_weather").unwrap());
    assert_eq!(all[1], registry.export_tool("get_time").unwrap());
}

#[test]
fn a_tool_that_cannot_use_its_input_answers_with_a_tool_input_error() {
    let registry = weather_registry();
    let entry = registry.get("get_weather").unwrap();
    let input: serde_json::Value = serde_json::from_str(r#"{"city":"Paris"}"#).unwrap();
    assert!(matches!(entry.tool.call(input), Err(LLMError::ToolInputError(_))));
}

#[test]
fn tool_entry_new_keeps_description_and_schema() {
    let entry = ToolEntry::new(GetWeather { weather: "sunny" }, "weather", weather_schema());
    assert_eq!(entry.description, "weather");
    assert_eq!(entry.input_schema, weather_schema());
}

#[test]
fn a_registry_can_hold_its_tools_unboxed() {
    let mut registry = ToolRegistry::new();
    registry.register("here", "the weather here", GetWeather { weather: "foggy" }, weather_schema());
    registry.register("there", "the weather there", GetWeather { weather: "clear" }, weather_schema());
    let input: serde_json::Value = serde_json::from_str(r#"{"location":"Bergen"}"#).unwrap();
    let answer = registry.get("there").unwrap().tool.call(input).unwrap();
    assert_eq!(answer["weather"], serde_json::Value::from("clear"));
}

#[test]
fn a_boxed_tool_hands_the_call_on() {
    let boxed: Box<dyn Tool> = Box::new(GetWeather { weather: "windy" });
    let input: serde_json::Value = serde_json::from_str(r#"{"location":"Kiel"}"#).unwrap();
    assert_eq!(boxed.call(input).unwrap()["weather"], serde_json::Value::from("windy"));
}

#[test]
fn an_input_that_cannot_be_read_is_a_tool_input_error() {
    let failure = serde_json::from_str::<u8>("\"Paris\"").unwrap_err();
    let text = failure.to_string();
    match ai_flow_synth::llm::tool::tool_input_error(&failure) {
        LLMError::ToolInputError(detail) => assert_eq!(detail, text),
        other => panic!("unexpected error: {:?}", other),
    }
}

//! Custom tools: their functions, and what their calls look like to clients.
use agentic_core::custom::{
    custom_param_from_json, input_from_arguments, public_item_id, try_input_from_arguments,
    CustomHandler,
};
use agentic_core::convert::function_of_custom;
use agentic_core::error::ToolError;
use agentic_core::items::{CustomToolCall, FunctionToolCall, MessageStatus, OutputItem};
use agentic_core::json::Json;
use agentic_core::tools::{CustomToolParam, ToolType};

fn json(text: &str) -> Json {
    Json::parse(text).expect("valid JSON")
}

fn custom_param(text: &str) -> CustomToolParam {
    custom_param_from_json(&json(text)).expect("custom tool")
}

fn at<'a>(value: &'a Json, path: &[&str]) -> &'a Json {
    let mut here = value;
    for key in path {
        here = match here {
            Json::Array(items) => &items[key.parse::<usize>().expect("a place")],
            other => other.get(key).expect("a field"),
        };
    }
    here
}

#[test]
fn function_fallback_uses_public_custom_tool_shape() {
    let call = FunctionToolCall {
        id: "fc_1".to_owned(),
        call_id: "call_1".to_owned(),
        name: "raw_echo".to_owned(),
        namespace: None,
        arguments: r#"{"input":"hello"}"#.to_owned(),
        status: MessageStatus::Completed,
    };

    let OutputItem::CustomToolCall(completed) = CustomHandler::output_item(&call) else {
        panic!("expected custom output item");
    };
    assert_eq!(completed.id, "ctc_1");
    assert_eq!(completed.input, "hello");
    assert_eq!(completed.status, Some(MessageStatus::Completed));
}

#[test]
fn custom_call_id_is_stable_for_every_source_item_id() {
    assert_eq!(public_item_id("fc_item"), "ctc_item");
    assert_eq!(public_item_id("ctc_item"), "ctc_item");
    assert_eq!(public_item_id("provider_item"), public_item_id("provider_item"));
}

#[test]
fn custom_declaration_normalizes_to_function_with_raw_input() {
    let param = custom_param(
        r#"{
            "name": "raw_echo",
            "description": "Echo raw input.",
            "format": {
                "type": "grammar",
                "syntax": "lark",
                "definition": "start: \"CUSTOM_OK\""
            },
            "x-provider-field": {"mode": "strict"}
        }"#,
    );

    let tool = CustomHandler::to_function_call(&param);

    assert_eq!(tool.type_, "function");
    assert_eq!(tool.name, "raw_echo");
    let parameters = tool.parameters.as_ref().unwrap();
    assert_eq!(*at(parameters, &["properties", "input", "type"]), Json::text("string"));
    assert_eq!(*at(parameters, &["required", "0"]), Json::text("input"));
    let description = tool.description.as_deref().expect("model-visible description");
    assert!(description.contains("Echo raw input."));
    assert!(description.contains("raw tool input in the `input` string field"));
    assert!(description.contains("lark grammar exactly"));
    assert!(description.contains("start: \"CUSTOM_OK\""));
    assert!(description.contains("x-provider-field"));
    assert!(description.contains("strict"));
}

#[test]
fn regex_grammar_is_preserved_in_model_visible_description() {
    let param = custom_param(
        r#"{
            "name": "timestamp",
            "description": "Save a timestamp.",
            "format": {
                "type": "grammar",
                "syntax": "regex",
                "definition": "^[0-9]{4}-[0-9]{2}-[0-9]{2}$"
            }
        }"#,
    );

    let tool = CustomHandler::to_function_call(&param);
    let description = tool.description.as_deref().expect("model-visible description");
    assert!(description.contains("regex grammar exactly"));
    assert!(description.contains("^[0-9]{4}-[0-9]{2}-[0-9]{2}$"));
}

#[test]
fn arguments_hold_the_input_or_are_it() {
    assert_eq!(try_input_from_arguments(r#"{"input":"a"}"#).as_deref(), Some("a"));
    assert_eq!(try_input_from_arguments(r#"{"input":"a","extra":true}"#).as_deref(), Some("a"));
    assert_eq!(try_input_from_arguments(r#""a""#).as_deref(), Some("a"));
    assert_eq!(try_input_from_arguments(r#"{"other":"a"}"#), None);
    assert_eq!(try_input_from_arguments(r#"{"input":7}"#), None);
    assert_eq!(try_input_from_arguments("not json"), None);
    assert_eq!(input_from_arguments("not json"), "not json");
}

#[test]
fn declarations_that_cannot_be_read_are_refused() {
    assert!(CustomHandler.validate(&json(r#"{"name":"echo"}"#), "").is_ok());
    let error = CustomHandler
        .validate(&json(r#"{"description":"no name"}"#), "missing field `name`")
        .unwrap_err();
    assert_eq!(
        error,
        ToolError::Config("invalid custom tool config: missing field `name`".to_owned())
    );
    assert!(CustomHandler.normalize(&json("[]")).is_empty());
    assert_eq!(CustomHandler.normalize(&json(r#"{"name":"echo"}"#)).len(), 1);
    assert_eq!(CustomHandler.tool_type(), ToolType::Custom);
}

#[test]
fn the_input_of_a_custom_call_comes_back_from_its_function_call() {
    for input in ["", "plain", "say \"hi\"\\\n\u{1}\u{1F600}", r#"{"input":"nested"}"#] {
        let call = CustomToolCall {
            id: "ctc_1".to_owned(),
            status: Some(MessageStatus::Completed),
            call_id: "call_1".to_owned(),
            name: "raw_echo".to_owned(),
            input: input.to_owned(),
        };
        let function = function_of_custom(&call);
        assert_eq!(input_from_arguments(&function.arguments), input);
    }
    let call = CustomToolCall {
        id: "ctc_1".to_owned(),
        status: None,
        call_id: "call_1".to_owned(),
        name: "raw_echo".to_owned(),
        input: "a\"b".to_owned(),
    };
    assert_eq!(function_of_custom(&call).arguments, r#"{"input":"a\"b"}"#);
}

#[test]
fn json_text_is_read_back_until_it_is_nested_too_deep() {
    let nested = |depth: usize| {
        let mut value = json(r#"{"a":[1,-2,1.5,1e300,true,null,"x"],"b":{}}"#);
        for _ in 2..depth {
            value = Json::Array(vec![value]);
        }
        value
    };
    let deep = nested(127);
    assert_eq!(Json::parse(&deep.to_text()), Some(deep));
    assert_eq!(Json::parse(&nested(128).to_text()), None);
    let reserved = json(r#"{"a":1,"$serde_json::private::RawValue":"1"}"#);
    assert_eq!(Json::parse(&reserved.to_text()), None);
}

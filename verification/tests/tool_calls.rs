use local_runtime::api::{Encoded, MessageType, Tool, ToolCall};
use local_runtime::definitions::{tool_definition, tool_definitions};
use local_runtime::tools::{
    arguments_of_value, optional_string, parse_tool_arguments, required_string, required_string_array,
    tool_arguments_object, tool_call_message, tool_call_to_openai, tool_from_arguments,
    OpenAIFunctionCall, OpenAIToolCall, ToolCallError,
};
use serde_json::Value;

fn object(entries: Vec<(&str, Value)>) -> Value {
    Value::from_iter(entries)
}

#[test]
fn tool_arguments_follow_the_advertised_canonical_schema() {
    assert_eq!(
        required_string(&object(vec![("pattern", Value::from("*.rs"))]), "pattern").unwrap(),
        "*.rs"
    );
    assert_eq!(
        required_string_array(
            &object(vec![("paths", Value::from(vec!["a.rs", "b.toml"]))]),
            "paths"
        )
        .unwrap(),
        vec!["a.rs", "b.toml"]
    );
    assert!(required_string(&object(vec![]), "pattern").is_err());
    assert!(required_string(&object(vec![("cmd", Value::from("pwd"))]), "command").is_err());
}

#[test]
fn tool_arguments_accept_openai_json_and_double_encoded_json() {
    let direct = parse_tool_arguments(r#"{"pattern":"*"}"#).unwrap();
    let encoded = parse_tool_arguments(r#""{\"pattern\":\"*\"}""#).unwrap();

    assert_eq!(direct, object(vec![("pattern", Value::from("*"))]));
    assert_eq!(encoded, direct);
}

#[test]
fn tool_descriptions_distinguish_recursive_search_from_directory_listing() {
    let tools = tool_definitions();
    let description = |name: &str| {
        tools
            .iter()
            .find(|tool| tool["function"]["name"] == name)
            .and_then(|tool| tool["function"]["description"].as_str())
            .unwrap()
    };

    assert!(description("file_glob").contains("Recursively search"));
    assert!(description("file_glob").contains("Do not use it to list"));
    assert!(description("run_shell_command").contains("listing the immediate entries"));
}

#[test]
fn arguments_that_are_no_object_are_malformed() {
    for text in ["", "{", "[]", "1", "null", "\"[1]\"", "\"plain\"", "\"\\\"{}\\\"\""] {
        let error = parse_tool_arguments(text).unwrap_err();
        assert!(matches!(error, ToolCallError::MalformedArguments));
        assert_eq!(
            error.message(),
            "The local model returned malformed tool arguments."
        );
    }
    assert!(tool_arguments_object(None).is_err());
    assert!(tool_arguments_object(Some(Value::from("x"))).is_err());
    assert_eq!(
        tool_arguments_object(Some(object(vec![]))).unwrap(),
        object(vec![])
    );
}

#[test]
fn a_string_is_decoded_once_more() {
    let arguments = object(vec![("query", Value::from("x"))]);
    assert_eq!(
        arguments_of_value(Value::from(r#"{"query":"x"}"#)).unwrap(),
        arguments
    );
    assert_eq!(
        arguments_of_value(object(vec![("query", Value::from("x"))])).unwrap(),
        arguments
    );
    for value in [
        Value::from("plain"),
        Value::from("[1]"),
        Value::from(r#""{}""#),
        Value::from(vec!["x"]),
        Value::from(1),
        Value::Null,
    ] {
        assert!(matches!(
            arguments_of_value(value),
            Err(ToolCallError::MalformedArguments)
        ));
    }
}

#[test]
fn optional_arguments_default_to_nothing() {
    let arguments = object(vec![("path", Value::from("src")), ("n", Value::from(3))]);
    assert_eq!(optional_string(&arguments, "path"), "src");
    assert_eq!(optional_string(&arguments, "n"), "");
    assert_eq!(optional_string(&arguments, "absent"), "");
    assert_eq!(optional_string(&Value::from("text"), "path"), "");
}

#[test]
fn list_arguments_are_checked_item_by_item() {
    let arguments = object(vec![
        ("paths", Value::from(vec![Value::from("a"), Value::from(1)])),
        ("empty", Value::from(Vec::<Value>::new())),
        ("text", Value::from("a")),
    ]);
    let error = required_string_array(&arguments, "paths").unwrap_err();
    assert!(matches!(error, ToolCallError::InvalidArgument { .. }));
    assert_eq!(error.message(), "Invalid tool argument `paths`.");
    let error = required_string_array(&arguments, "text").unwrap_err();
    assert!(matches!(error, ToolCallError::MissingArgument { .. }));
    assert_eq!(error.message(), "Missing or invalid tool argument `text`.");
    assert!(required_string_array(&arguments, "absent").is_err());
    assert!(required_string_array(&arguments, "empty")
        .unwrap()
        .is_empty());
}

fn call(name: &str, arguments: &str) -> OpenAIToolCall {
    OpenAIToolCall {
        id: "call-1".to_string(),
        function: OpenAIFunctionCall {
            name: name.to_string(),
            arguments: arguments.to_string(),
        },
    }
}

fn tool_of(name: &str, arguments: &str) -> Tool {
    match tool_call_message(call(name, arguments)) {
        Ok(MessageType::ToolCall(call)) => {
            assert_eq!(call.tool_call_id, "call-1");
            call.tool.unwrap()
        }
        message => panic!("expected a tool call, got {message:?}"),
    }
}

#[test]
fn calls_become_tools() {
    match tool_of("read_files", r#"{"paths":["a.rs","b.rs"]}"#) {
        Tool::ReadFiles { files } => {
            assert_eq!(files.len(), 2);
            assert_eq!(files[0].name, "a.rs");
            assert_eq!(files[1].name, "b.rs");
            assert!(files.iter().all(|file| file.line_ranges.is_empty()));
        }
        tool => panic!("unexpected {tool:?}"),
    }
    match tool_of("file_glob", r#"{"pattern":"*.rs","path":"src"}"#) {
        Tool::FileGlobV2 {
            patterns,
            search_dir,
        } => {
            assert_eq!(patterns, vec!["*.rs"]);
            assert_eq!(search_dir, "src");
        }
        tool => panic!("unexpected {tool:?}"),
    }
    match tool_of("grep", r#"{"query":"fn main"}"#) {
        Tool::Grep { queries, path } => {
            assert_eq!(queries, vec!["fn main"]);
            assert_eq!(path, "");
        }
        tool => panic!("unexpected {tool:?}"),
    }
    match tool_of("run_shell_command", r#""{\"command\":\"ls\"}""#) {
        Tool::RunShellCommand { command } => assert_eq!(command, "ls"),
        tool => panic!("unexpected {tool:?}"),
    }
}

#[test]
fn refused_calls_say_why() {
    let refusal = |name: &str, arguments: &str| {
        tool_call_message(call(name, arguments))
            .unwrap_err()
            .message()
    };
    assert_eq!(
        refusal("write_file", "{}"),
        "The local model requested an unsupported tool."
    );
    assert_eq!(
        refusal("grep", "{}"),
        "Missing or invalid tool argument `query`."
    );
    assert_eq!(
        refusal("read_files", r#"{"paths":[1]}"#),
        "Invalid tool argument `paths`."
    );
    assert_eq!(
        refusal("grep", "nonsense"),
        "The local model returned malformed tool arguments."
    );
}

#[test]
fn a_call_without_a_required_argument_is_refused_for_every_tool() {
    for definition in tool_definitions() {
        let name = definition["function"]["name"].as_str().unwrap();
        let required = definition["function"]["parameters"]["required"][0]
            .as_str()
            .unwrap();
        match tool_from_arguments(name, &object(vec![])) {
            Err(ToolCallError::MissingArgument { key }) => assert_eq!(key, required),
            other => panic!("unexpected {other:?}"),
        }
        let property = &definition["function"]["parameters"]["properties"][required];
        let value = if property["type"] == "array" {
            Value::from(vec!["x"])
        } else {
            Value::from("x")
        };
        assert!(tool_from_arguments(name, &object(vec![(required, value)])).is_ok());
    }
}

#[test]
fn shown_calls_read_back() {
    let shown = |tool: Tool| {
        tool_call_to_openai(&ToolCall {
            tool_call_id: "call-1".to_string(),
            tool: Some(tool),
        })
    };
    assert_eq!(
        shown(tool_of("read_files", r#"{"paths":["a \"b\"","c"]}"#)),
        Some(("read_files", r#"{"paths":["a \"b\"","c"]}"#.to_string()))
    );
    assert_eq!(
        shown(tool_of("file_glob", r#"{"pattern":"*"}"#)),
        Some(("file_glob", r#"{"path":"","pattern":"*"}"#.to_string()))
    );
    assert_eq!(
        shown(tool_of("grep", r#"{"path":"src","query":"x"}"#)),
        Some(("grep", r#"{"path":"src","query":"x"}"#.to_string()))
    );
    assert_eq!(
        shown(tool_of("run_shell_command", r#"{"command":"pwd"}"#)),
        Some(("run_shell_command", r#"{"command":"pwd"}"#.to_string()))
    );
    let (name, arguments) = shown(tool_of("file_glob", r#"{"pattern":"é\n"}"#)).unwrap();
    match tool_of(name, &arguments) {
        Tool::FileGlobV2 { patterns, .. } => assert_eq!(patterns, vec!["\u{e9}\n"]),
        tool => panic!("unexpected {tool:?}"),
    }
}

#[test]
fn only_the_first_pattern_is_shown() {
    let shown = |patterns: Vec<String>| {
        tool_call_to_openai(&ToolCall {
            tool_call_id: "call-1".to_string(),
            tool: Some(Tool::FileGlobV2 {
                patterns,
                search_dir: "d".to_string(),
            }),
        })
        .unwrap()
        .1
    };
    assert_eq!(
        shown(vec!["a".to_string(), "b".to_string()]),
        r#"{"path":"d","pattern":"a"}"#
    );
    assert_eq!(shown(vec![]), r#"{"path":"d","pattern":""}"#);
}

#[test]
fn tools_that_are_not_offered_are_not_shown() {
    assert!(tool_call_to_openai(&ToolCall {
        tool_call_id: "call-1".to_string(),
        tool: None,
    })
    .is_none());
    assert!(tool_call_to_openai(&ToolCall {
        tool_call_id: "call-1".to_string(),
        tool: Some(Tool::Other(Encoded { bytes: vec![1] })),
    })
    .is_none());
}

#[test]
fn definitions_have_their_exact_form() {
    let tools = tool_definitions();
    assert_eq!(tools.len(), 4);
    assert_eq!(
        tools[0].to_string(),
        r#"{"function":{"description":"Read one or more local files","name":"read_files","parameters":{"additionalProperties":false,"properties":{"paths":{"description":"File paths to read.","items":{"type":"string"},"minItems":1,"type":"array"}},"required":["paths"],"type":"object"}},"type":"function"}"#
    );
    assert_eq!(
        tools[2].to_string(),
        r#"{"function":{"description":"Search file contents","name":"grep","parameters":{"additionalProperties":false,"properties":{"path":{"description":"Optional file or directory to search.","type":"string"},"query":{"description":"Required text or regular expression to search for.","type":"string"}},"required":["query"],"type":"object"}},"type":"function"}"#
    );
    assert_eq!(
        tool_definition("n", "d", Value::from(true)).to_string(),
        r#"{"function":{"description":"d","name":"n","parameters":true},"type":"function"}"#
    );
}

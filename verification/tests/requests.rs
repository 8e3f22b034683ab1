use local_runtime::api::{
    Encoded, Message, MessageResult, MessageType, Task, Tool, ToolCall, ToolCallResult,
};
use local_runtime::conversation::{
    conversation_messages, find_tool_call, persisted_tool_result_content, results_restored,
    tool_result_positions, SYSTEM_PROMPT,
};
use local_runtime::destination::{UrlHost, UrlParts};
use local_runtime::error::RunError;
use local_runtime::params::{
    AIAgentActionId, AIAgentActionResult, AIAgentInput, EndpointModel, LocalEndpoint,
    RequestParams,
};
use local_runtime::request::{
    chat_completions_url, plan_request, prepare_request, resolve_model, ChatPlan,
};

fn model(name: &str, config_key: &str) -> EndpointModel {
    EndpointModel {
        name: name.to_string(),
        config_key: config_key.to_string(),
    }
}

fn query(text: &str) -> AIAgentInput {
    AIAgentInput::UserQuery {
        query: text.to_string(),
    }
}

fn result(id: &str, description: &str) -> AIAgentInput {
    AIAgentInput::ActionResult {
        result: AIAgentActionResult {
            id: AIAgentActionId {
                value: id.to_string(),
            },
            task_id: "task".to_string(),
            description: description.to_string(),
            request_input: None,
        },
    }
}

fn params() -> RequestParams {
    RequestParams {
        local_custom_endpoint: Some(LocalEndpoint {
            name: "Ollama".to_string(),
            url: "http://localhost:11434/v1/".to_string(),
            api_key: "".to_string(),
            models: vec![model("llama", "k1"), model("qwen", "k2"), model("again", "k2")],
            allow_invalid_tls_certificates: false,
        }),
        local_custom_model_config_keys: vec!["k2".to_string(), "k1".to_string()],
        input: vec![query("hello")],
        tasks: vec![],
        conversation_token: None,
        local_task_id: None,
    }
}

fn message(message: Option<MessageType>) -> Message {
    Message {
        id: "m".to_string(),
        task_id: "task".to_string(),
        request_id: "r".to_string(),
        message,
    }
}

fn shell_call(id: &str, command: &str) -> Message {
    message(Some(MessageType::ToolCall(ToolCall {
        tool_call_id: id.to_string(),
        tool: Some(Tool::RunShellCommand {
            command: command.to_string(),
        }),
    })))
}

fn kept_result(id: &str) -> Message {
    message(Some(MessageType::ToolCallResult(ToolCallResult {
        tool_call_id: id.to_string(),
        context: None,
        result: Some(MessageResult::RunShellCommand(Encoded { bytes: vec![] })),
    })))
}

fn task(messages: Vec<Message>) -> Task {
    Task {
        id: "task".to_string(),
        messages,
        dependencies: None,
        description: String::new(),
        summary: String::new(),
        server_data: String::new(),
    }
}

fn error(plan: Result<ChatPlan, RunError>) -> String {
    match plan {
        Ok(plan) => panic!("unexpected plan for {}", plan.url),
        Err(error) => error.message(),
    }
}

#[test]
fn a_request_becomes_a_chat_request() {
    let plan = prepare_request(&params(), &vec![]).ok().unwrap();
    assert_eq!(plan.url, "http://localhost:11434/v1/chat/completions");
    assert_eq!(plan.bearer_token, None);
    assert!(!plan.accept_invalid_certificates);
    assert_eq!(plan.connect_timeout_seconds, 5);
    assert_eq!(plan.request.model, "qwen");
    assert_eq!(plan.request.tools.len(), 4);
    assert!(!plan.request.parallel_tool_calls);
    assert!(!plan.request.stream);
    assert_eq!(plan.request.messages.len(), 2);
    assert_eq!(plan.request.messages[0]["role"], "system");
    assert_eq!(plan.request.messages[0]["content"], SYSTEM_PROMPT);
    assert_eq!(
        plan.request.messages[1].to_string(),
        r#"{"content":"hello","role":"user"}"#
    );
}

#[test]
fn an_api_key_is_sent_as_it_is() {
    let mut params = params();
    let endpoint = params.local_custom_endpoint.as_mut().unwrap();
    endpoint.api_key = " key ".to_string();
    endpoint.allow_invalid_tls_certificates = true;
    let plan = prepare_request(&params, &vec![]).ok().unwrap();
    assert_eq!(plan.bearer_token.as_deref(), Some(" key "));
    assert!(plan.accept_invalid_certificates);
    params.local_custom_endpoint.as_mut().unwrap().api_key = " \t".to_string();
    let plan = prepare_request(&params, &vec![]).ok().unwrap();
    assert_eq!(plan.bearer_token, None);
}

#[test]
fn slashes_at_the_end_of_the_url_make_no_difference() {
    let url = "http://localhost/v1/chat/completions";
    assert_eq!(chat_completions_url("http://localhost/v1"), url);
    assert_eq!(chat_completions_url("http://localhost/v1///"), url);
    assert_eq!(chat_completions_url("//"), "/chat/completions");
}

#[test]
fn requests_that_cannot_be_sent_say_why() {
    let mut no_endpoint = params();
    no_endpoint.local_custom_endpoint = None;
    assert_eq!(
        error(prepare_request(&no_endpoint, &vec![])),
        "No usable local endpoint was resolved. Save an endpoint in local-device mode with at least one model."
    );

    let mut no_model = params();
    no_model.local_custom_model_config_keys.clear();
    assert_eq!(
        error(prepare_request(&no_model, &vec![])),
        "No local model was selected."
    );

    let mut unknown_model = params();
    unknown_model.local_custom_model_config_keys = vec!["k3".to_string(), "k1".to_string()];
    assert_eq!(
        error(prepare_request(&unknown_model, &vec![])),
        "The selected local model is no longer configured."
    );

    let mut no_url = params();
    no_url.local_custom_endpoint.as_mut().unwrap().url = "not a url".to_string();
    assert_eq!(
        error(prepare_request(&no_url, &vec![])),
        "Local endpoint Ollama has an invalid URL."
    );

    let mut remote = params();
    remote.local_custom_endpoint.as_mut().unwrap().url = "https://api.example.com/v1".to_string();
    assert_eq!(
        error(prepare_request(&remote, &vec![])),
        "Offline Agent Mode only permits localhost, private-network, and .local endpoints."
    );

    let mut no_prompt = params();
    no_prompt.input = vec![AIAgentInput::Other];
    assert_eq!(
        error(prepare_request(&no_prompt, &vec![])),
        "Local Agent Mode received no user prompt or tool result."
    );
}

#[test]
fn the_first_model_with_the_first_key_is_taken() {
    let params = params();
    let (endpoint, model) = resolve_model(&params).ok().unwrap();
    assert_eq!(endpoint.name, "Ollama");
    assert_eq!(model.name, "qwen");
}

#[test]
fn a_plan_depends_on_what_is_read_out_of_its_url() {
    let parts = |host: UrlHost| {
        Some(UrlParts {
            scheme: "http".to_string(),
            host: Some(host),
        })
    };
    assert!(plan_request(&params(), &vec![], &parts(UrlHost::Ipv4([192, 168, 1, 2]))).is_ok());
    assert!(matches!(
        plan_request(&params(), &vec![], &parts(UrlHost::Ipv4([9, 9, 9, 9]))),
        Err(RunError::NotLocal)
    ));
    assert!(matches!(
        plan_request(&params(), &vec![], &None),
        Err(RunError::InvalidUrl { endpoint }) if endpoint == "Ollama"
    ));
}

#[test]
fn the_conversation_is_shown_in_order() {
    let mut params = params();
    params.tasks = vec![
        task(vec![
            message(Some(MessageType::UserQuery {
                query: "where am I".to_string(),
            })),
            message(None),
            shell_call("c1", "pwd"),
            kept_result("c1"),
            kept_result("c2"),
            message(Some(MessageType::Other(Encoded { bytes: vec![7] }))),
            message(Some(MessageType::ToolCall(ToolCall {
                tool_call_id: "c3".to_string(),
                tool: None,
            }))),
            message(Some(MessageType::AgentOutput {
                text: "in /tmp".to_string(),
            })),
        ]),
        task(vec![kept_result("c4")]),
    ];
    params.input = vec![query("thanks"), AIAgentInput::Other, result("c5", "bye")];
    let restored = vec![
        vec![Some(result("c1", "/tmp")), Some(query("no result"))],
        vec![None],
    ];
    assert!(results_restored(&params, &restored));
    let shown: Vec<String> = conversation_messages(&params, &restored)
        .iter()
        .skip(1)
        .map(|message| message.to_string())
        .collect();
    assert_eq!(
        shown,
        vec![
            r#"{"content":"where am I","role":"user"}"#,
            r#"{"content":null,"role":"assistant","tool_calls":[{"function":{"arguments":"{\"command\":\"pwd\"}","name":"run_shell_command"},"id":"c1","type":"function"}]}"#,
            r#"{"content":"/tmp","role":"tool","tool_call_id":"c1"}"#,
            r#"{"content":"Tool result unavailable.","role":"tool","tool_call_id":"c2"}"#,
            r#"{"content":"in /tmp","role":"assistant"}"#,
            r#"{"content":"Tool result unavailable.","role":"tool","tool_call_id":"c4"}"#,
            r#"{"content":"thanks","role":"user"}"#,
            r#"{"content":"bye","role":"tool","tool_call_id":"c5"}"#,
        ]
    );
}

#[test]
fn results_are_restored_one_by_one() {
    let mut params = params();
    params.tasks = vec![task(vec![
        kept_result("c1"),
        shell_call("c2", "ls"),
        kept_result("c2"),
    ])];
    assert_eq!(tool_result_positions(&params.tasks[0].messages), vec![0, 2]);
    assert!(results_restored(&params, &vec![vec![None, None]]));
    assert!(!results_restored(&params, &vec![vec![None]]));
    assert!(!results_restored(&params, &vec![]));
    assert_eq!(
        persisted_tool_result_content(&Some(result("c1", "text"))),
        "text"
    );
    assert_eq!(
        persisted_tool_result_content(&None),
        "Tool result unavailable."
    );
}

#[test]
fn the_later_of_two_calls_with_one_id_counts() {
    let task = task(vec![
        shell_call("c1", "first"),
        shell_call("c2", "other"),
        shell_call("c1", "second"),
    ]);
    let command = |id: &str| match find_tool_call(&task, id).map(|call| call.tool.as_ref()) {
        Some(Some(Tool::RunShellCommand { command })) => command.clone(),
        other => panic!("unexpected {other:?}"),
    };
    assert_eq!(command("c1"), "second");
    assert_eq!(command("c2"), "other");
    assert!(find_tool_call(&task, "c3").is_none());
}

#[test]
fn an_answered_request_is_remembered() {
    let mut before = params();
    before.tasks = vec![task(vec![kept_result("c0")])];
    before.input = vec![query("again")];
    let shown_before = conversation_messages(&before, &vec![vec![Some(result("c0", "zero"))]]);

    let mut after = params();
    after.tasks = vec![task(vec![
        kept_result("c0"),
        message(Some(MessageType::UserQuery {
            query: "again".to_string(),
        })),
        message(Some(MessageType::AgentOutput {
            text: "done".to_string(),
        })),
    ])];
    after.input = vec![];
    let shown_after = conversation_messages(&after, &vec![vec![Some(result("c0", "zero"))]]);

    assert_eq!(shown_after[..shown_before.len()], shown_before[..]);
    assert_eq!(shown_after.len(), shown_before.len() + 1);
    assert_eq!(
        shown_after.last().unwrap().to_string(),
        r#"{"content":"done","role":"assistant"}"#
    );
}

#[test]
fn a_conversation_is_made_up_of_its_parts() {
    let shown = |tasks: Vec<Task>, input: Vec<AIAgentInput>, restored| {
        let mut params = params();
        params.tasks = tasks;
        params.input = input;
        conversation_messages(&params, &restored)
    };
    let first = || task(vec![shell_call("c1", "ls"), kept_result("c1")]);
    let second = || task(vec![kept_result("c1"), kept_result("c2")]);
    let first_restored = || vec![Some(result("c1", "one"))];
    let second_restored = || vec![None, Some(result("c2", "two"))];

    let whole = shown(
        vec![first(), second()],
        vec![query("a"), query("b")],
        vec![first_restored(), second_restored()],
    );
    let mut parts = shown(vec![first()], vec![], vec![first_restored()]);
    parts.extend(shown(vec![second()], vec![], vec![second_restored()]).split_off(1));
    parts.extend(shown(vec![], vec![query("a")], vec![]).split_off(1));
    parts.extend(shown(vec![], vec![query("b")], vec![]).split_off(1));
    assert_eq!(whole, parts);
    assert_eq!(shown(vec![], vec![], vec![]).len(), 1);
}

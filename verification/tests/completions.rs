use local_runtime::api::{EventType, MessageType, Tool};
use local_runtime::channel::{offline_channel, Channel, Profile};
use local_runtime::completion::{
    completion_events, completion_message, message_of_choice, stream_items, ChatChoice,
    ChatResponse, ChatResponseMessage,
};
use local_runtime::error::RunError;
use local_runtime::ids::IdSource;
use local_runtime::params::{LocalEndpoint, RequestParams};
use local_runtime::retry::{retry_delay_seconds, start_sending, step, SendEvent, SendState};
use local_runtime::tools::{tool_call_events, OpenAIFunctionCall, OpenAIToolCall};

fn params() -> RequestParams {
    RequestParams {
        local_custom_endpoint: Some(LocalEndpoint {
            name: "Ollama".to_string(),
            url: "http://localhost:11434/v1".to_string(),
            api_key: String::new(),
            models: vec![],
            allow_invalid_tls_certificates: false,
        }),
        local_custom_model_config_keys: vec![],
        input: vec![],
        tasks: vec![],
        conversation_token: None,
        local_task_id: None,
    }
}

fn call(id: &str) -> OpenAIToolCall {
    OpenAIToolCall {
        id: id.to_string(),
        function: OpenAIFunctionCall {
            name: "run_shell_command".to_string(),
            arguments: r#"{"command":"ls"}"#.to_string(),
        },
    }
}

fn said(content: Option<&str>, tool_calls: Vec<OpenAIToolCall>) -> ChatResponseMessage {
    ChatResponseMessage {
        content: content.map(|text| text.to_string()),
        tool_calls,
    }
}

fn response(choices: Vec<ChatResponseMessage>) -> Option<ChatResponse> {
    Some(ChatResponse {
        choices: choices
            .into_iter()
            .map(|message| ChatChoice { message })
            .collect(),
    })
}

#[test]
fn a_text_is_the_answer() {
    for status in [200, 299] {
        assert!(matches!(
            completion_message(
                "Ollama",
                status,
                response(vec![said(Some("hi"), vec![]), said(Some("no"), vec![])])
            ),
            Ok(MessageType::AgentOutput { text }) if text == "hi"
        ));
    }
}

#[test]
fn a_tool_call_goes_before_a_text() {
    match message_of_choice("Ollama", said(Some("hi"), vec![call("c1")])) {
        Ok(MessageType::ToolCall(call)) => {
            assert_eq!(call.tool_call_id, "c1");
            assert!(matches!(
                call.tool,
                Some(Tool::RunShellCommand { command }) if command == "ls"
            ));
        }
        other => panic!("unexpected {other:?}"),
    }
}

#[test]
fn answers_that_cannot_be_used_say_why() {
    let refusal = |status: u16, response: Option<ChatResponse>| {
        completion_message("Ollama", status, response)
            .unwrap_err()
            .message()
    };
    assert_eq!(
        refusal(404, response(vec![said(Some("hi"), vec![])])),
        "Local endpoint Ollama returned HTTP 404 Not Found."
    );
    assert_eq!(
        refusal(199, None),
        "Local endpoint Ollama returned HTTP 199 <unknown status code>."
    );
    assert_eq!(
        refusal(300, None),
        "Local endpoint Ollama returned HTTP 300 Multiple Choices."
    );
    assert_eq!(
        refusal(200, None),
        "Local endpoint Ollama returned an invalid OpenAI-compatible response."
    );
    assert_eq!(
        refusal(200, response(vec![])),
        "Local endpoint Ollama returned no completion choices."
    );
    assert_eq!(
        refusal(200, response(vec![said(None, vec![call("a"), call("b")])])),
        "Local Agent Mode supports one tool call at a time."
    );
    assert_eq!(
        refusal(200, response(vec![said(None, vec![])])),
        "Local endpoint Ollama returned an empty response."
    );
    assert_eq!(
        refusal(200, response(vec![said(Some(""), vec![])])),
        "Local endpoint Ollama returned an empty response."
    );
    let mut unknown = call("a");
    unknown.function.name = "fly".to_string();
    assert_eq!(
        refusal(200, response(vec![said(None, vec![unknown])])),
        "The local model requested an unsupported tool."
    );
}

#[test]
fn an_answer_becomes_events() {
    let mut source = IdSource::new();
    let events = completion_events(
        &params(),
        200,
        response(vec![said(Some("hi"), vec![])]),
        &mut source,
    )
    .unwrap();
    assert_eq!(events.len(), 3);
    assert!(matches!(
        events[1].event_type,
        Some(EventType::ClientActions { ref actions }) if actions.len() == 2
    ));
    assert_eq!(
        tool_call_events(&params(), call("c1"), &mut source)
            .unwrap()
            .len(),
        3
    );
    let mut malformed = call("c1");
    malformed.function.arguments = "[".to_string();
    assert!(tool_call_events(&params(), malformed, &mut source).is_err());
}

#[test]
fn errors_name_the_endpoint_of_the_request() {
    let mut source = IdSource::new();
    assert_eq!(
        completion_events(&params(), 500, None, &mut source)
            .unwrap_err()
            .message(),
        "Local endpoint Ollama returned HTTP 500 Internal Server Error."
    );
    let mut no_endpoint = params();
    no_endpoint.local_custom_endpoint = None;
    assert!(matches!(
        completion_events(
            &no_endpoint,
            200,
            response(vec![said(Some("hi"), vec![])]),
            &mut source
        ),
        Err(RunError::NoEndpoint)
    ));
}

#[test]
fn a_stream_holds_the_events_or_the_error() {
    let events = completion_events(
        &params(),
        200,
        response(vec![said(Some("hi"), vec![])]),
        &mut IdSource::new(),
    );
    let items = stream_items(events);
    assert_eq!(items.len(), 3);
    assert!(matches!(
        items[0],
        Ok(ref event) if matches!(event.event_type, Some(EventType::Init { .. }))
    ));
    assert!(matches!(
        items[2],
        Ok(ref event) if matches!(event.event_type, Some(EventType::Finished { .. }))
    ));
    let items = stream_items(Err(RunError::Cancelled));
    assert_eq!(items.len(), 1);
    assert_eq!(
        items[0].as_ref().unwrap_err().message(),
        "Local Agent request cancelled."
    );
}

fn connection_failure() -> SendEvent {
    SendEvent::Failure {
        is_connect: true,
        message: "connection refused".to_string(),
    }
}

#[test]
fn a_failed_connection_is_tried_again_after_growing_delays() {
    let mut state = start_sending();
    assert!(state.is_well_formed());
    assert!(!SendState::Waiting { attempt: 4 }.is_well_formed());
    assert!(!SendState::Sending { attempt: 5 }.is_well_formed());
    let mut sends = 1;
    let mut delays = vec![];
    loop {
        state = step(state, connection_failure());
        match state {
            SendState::Waiting { attempt } => delays.push(retry_delay_seconds(attempt)),
            _ => break,
        }
        state = step(state, SendEvent::DelayPassed);
        sends += 1;
    }
    assert_eq!(delays, vec![1, 2, 4, 8]);
    assert_eq!(sends, 5);
    match state {
        SendState::Failed(error) => assert_eq!(error.message(), "connection refused"),
        state => panic!("unexpected {state:?}"),
    }
}

#[test]
fn other_failures_are_not_retried() {
    let state = step(
        start_sending(),
        SendEvent::Failure {
            is_connect: false,
            message: "timed out".to_string(),
        },
    );
    assert!(matches!(
        state,
        SendState::Failed(RunError::Transport { message }) if message == "timed out"
    ));
}

#[test]
fn a_request_can_be_cancelled_until_it_is_over() {
    assert!(matches!(
        step(start_sending(), SendEvent::Cancelled),
        SendState::Failed(RunError::Cancelled)
    ));
    assert!(matches!(
        step(step(start_sending(), connection_failure()), SendEvent::Cancelled),
        SendState::Failed(RunError::Cancelled)
    ));
    let answered = step(start_sending(), SendEvent::Response);
    assert!(matches!(answered, SendState::Answered));
    assert!(matches!(
        step(answered, SendEvent::Cancelled),
        SendState::Answered
    ));
}

#[test]
fn events_that_do_not_belong_to_a_state_leave_it() {
    assert!(matches!(
        step(start_sending(), SendEvent::DelayPassed),
        SendState::Sending { attempt: 0 }
    ));
    let waiting = step(start_sending(), connection_failure());
    assert!(matches!(
        step(waiting, SendEvent::Response),
        SendState::Waiting { attempt: 0 }
    ));
}

#[test]
fn the_offline_channel_knows_no_services() {
    let state = offline_channel();
    assert_eq!(state.channel, Channel::Oss);
    assert_eq!(state.product_profile, Profile::Standalone);
    assert_eq!(state.config.server_config, Profile::Standalone);
    assert_eq!(state.config.oz_config, Profile::Standalone);
    assert!(state.config.telemetry_config.is_none());
    assert!(state.config.crash_reporting_config.is_none());
    assert!(state.config.autoupdate_config.is_none());
    assert!(state.config.mcp_static_config.is_none());
    assert_eq!(state.config.app_id.qualifier, "offline");
    assert_eq!(state.config.app_id.organization, "warp");
    assert_eq!(state.config.app_id.application, "EWarp");
    assert_eq!(state.config.logfile_name, "ewarp.log");
}

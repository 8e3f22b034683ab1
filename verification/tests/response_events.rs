use local_runtime::api::{
    Action, ClientAction, Encoded, EventType, FinishReason, Message, MessageResult, MessageType,
    ResponseEvent, Task,
};
use local_runtime::events::{
    message_events_with_ids, persisted_input_message, response_events, result_id, EventIds,
};
use local_runtime::ids::IdSource;
use local_runtime::params::{
    AIAgentActionId, AIAgentActionResult, AIAgentInput, RequestInput, RequestParams, RequestResult,
};

fn new_for_test() -> RequestParams {
    RequestParams {
        local_custom_endpoint: None,
        local_custom_model_config_keys: vec![],
        input: vec![],
        tasks: vec![],
        conversation_token: None,
        local_task_id: None,
    }
}

fn task(id: &str) -> Task {
    Task {
        id: id.to_string(),
        messages: vec![],
        dependencies: None,
        description: String::new(),
        summary: String::new(),
        server_data: String::new(),
    }
}

fn action_result(id: &str, request_input: Option<RequestInput>) -> AIAgentInput {
    AIAgentInput::ActionResult {
        result: AIAgentActionResult {
            id: AIAgentActionId {
                value: id.to_string(),
            },
            task_id: "root-task".to_string(),
            description: "done".to_string(),
            request_input,
        },
    }
}

fn encoded(text: &str) -> Encoded {
    Encoded {
        bytes: text.as_bytes().to_vec(),
    }
}

fn actions(event: &ResponseEvent) -> &Vec<ClientAction> {
    match event.event_type.as_ref() {
        Some(EventType::ClientActions { actions }) => actions,
        event => panic!("expected client actions, got {event:?}"),
    }
}

fn added(action: &ClientAction) -> (&String, &Vec<Message>) {
    match action.action.as_ref() {
        Some(Action::AddMessagesToTask { task_id, messages }) => (task_id, messages),
        action => panic!("expected AddMessagesToTask, got {action:?}"),
    }
}

#[test]
fn response_events_target_the_request_input_task() {
    let mut params = new_for_test();
    params.local_task_id = Some("optimistic-root-task".to_string());

    let events = response_events(&params, "hello".to_string(), &mut IdSource::new());
    let actions = actions(&events[1]);
    assert!(matches!(
        actions[0].action,
        Some(Action::CreateTask { .. })
    ));
    let (task_id, messages) = added(&actions[1]);

    assert_eq!(task_id, "optimistic-root-task");
    assert_eq!(messages[0].task_id, "optimistic-root-task");
}

#[test]
fn response_events_persist_action_results_before_the_next_agent_message() {
    let mut params = new_for_test();
    params.local_task_id = Some("root-task".to_string());
    params.input.push(action_result(
        "tool-call-1",
        Some(RequestInput::ToolCallResult {
            result: Some(RequestResult::FileGlobV2(encoded("/tmp/example.rs"))),
        }),
    ));

    let events = response_events(&params, "done".to_string(), &mut IdSource::new());
    let actions = actions(&events[1]);
    let (_, messages) = added(&actions[1]);

    assert!(matches!(
        messages[0].message,
        Some(MessageType::ToolCallResult(_))
    ));
    assert!(matches!(
        messages[1].message,
        Some(MessageType::AgentOutput { .. })
    ));
}

#[test]
fn response_events_persist_user_queries_before_the_agent_message() {
    let mut params = new_for_test();
    params.local_task_id = Some("root-task".to_string());
    params.input.push(AIAgentInput::UserQuery {
        query: "use the detected changes".to_string(),
    });

    let events = response_events(&params, "creating the commit".to_string(), &mut IdSource::new());
    let actions = actions(&events[1]);
    let (_, messages) = added(&actions[1]);

    assert!(matches!(
        messages[0].message,
        Some(MessageType::UserQuery { ref query })
            if query == "use the detected changes"
    ));
    assert!(matches!(
        messages[1].message,
        Some(MessageType::AgentOutput { .. })
    ));
}

fn is_random_uuid(text: &str) -> bool {
    let bytes = text.as_bytes();
    bytes.len() == 36
        && (0..36).all(|i| match i {
            8 | 13 | 18 | 23 => bytes[i] == b'-',
            14 => bytes[i] == b'4',
            19 => matches!(bytes[i], b'8' | b'9' | b'a' | b'b'),
            _ => matches!(bytes[i], b'0'..=b'9' | b'a'..=b'f'),
        })
}

#[test]
fn drawn_identifiers_are_random_uuids() {
    let params = new_for_test();
    let events = response_events(&params, "hello".to_string(), &mut IdSource::new());
    let (conversation_id, request_id, run_id) = match events[0].event_type.as_ref() {
        Some(EventType::Init {
            conversation_id,
            request_id,
            run_id,
        }) => (conversation_id, request_id, run_id),
        event => panic!("expected init, got {event:?}"),
    };
    let actions = actions(&events[1]);
    let (task_id, messages) = added(&actions[1]);

    assert!(is_random_uuid(conversation_id));
    assert!(is_random_uuid(request_id));
    assert!(is_random_uuid(task_id));
    assert!(is_random_uuid(&messages[0].id));
    assert_eq!(run_id, "");
    assert_eq!(&messages[0].request_id, request_id);
    assert_ne!(conversation_id, request_id);
    assert_ne!(task_id, &messages[0].id);
}

#[test]
fn events_frame_the_stream() {
    let mut params = new_for_test();
    params.conversation_token = Some("conversation-7".to_string());
    params.tasks.push(task("first-task"));
    params.tasks.push(task("second-task"));
    params.input.push(AIAgentInput::UserQuery {
        query: "one".to_string(),
    });
    params.input.push(AIAgentInput::Other);
    params.input.push(AIAgentInput::UserQuery {
        query: "two".to_string(),
    });
    let events = message_events_with_ids(
        &params,
        MessageType::AgentOutput {
            text: "three".to_string(),
        },
        EventIds {
            request_id: "r".to_string(),
            conversation_id: "c".to_string(),
            task_id: "t".to_string(),
            message_ids: vec!["m0".to_string(), "m1".to_string(), "m2".to_string()],
        },
    );

    assert_eq!(events.len(), 3);
    assert!(matches!(
        events[0].event_type,
        Some(EventType::Init { ref conversation_id, ref request_id, .. })
            if conversation_id == "conversation-7" && request_id == "r"
    ));
    assert!(matches!(
        events[2].event_type,
        Some(EventType::Finished {
            reason: Some(FinishReason::Done)
        })
    ));
    let actions = actions(&events[1]);
    assert_eq!(actions.len(), 1);
    let (task_id, messages) = added(&actions[0]);
    assert_eq!(task_id, "first-task");
    assert_eq!(
        messages
            .iter()
            .map(|message| message.id.as_str())
            .collect::<Vec<_>>(),
        vec!["m0", "m1", "m2"]
    );
    assert!(messages
        .iter()
        .all(|message| message.task_id == "first-task" && message.request_id == "r"));
    assert!(matches!(
        messages[1].message,
        Some(MessageType::UserQuery { ref query }) if query == "two"
    ));
    assert!(matches!(
        messages[2].message,
        Some(MessageType::AgentOutput { ref text }) if text == "three"
    ));
}

#[test]
fn a_created_task_is_empty_and_takes_the_messages() {
    let events = message_events_with_ids(
        &new_for_test(),
        MessageType::AgentOutput {
            text: "hello".to_string(),
        },
        EventIds {
            request_id: "r".to_string(),
            conversation_id: "c".to_string(),
            task_id: "t".to_string(),
            message_ids: vec!["m0".to_string()],
        },
    );
    assert!(matches!(
        events[0].event_type,
        Some(EventType::Init { ref conversation_id, .. }) if conversation_id == "c"
    ));
    let actions = actions(&events[1]);
    assert_eq!(actions.len(), 2);
    let created = match actions[0].action.as_ref() {
        Some(Action::CreateTask { task: Some(task) }) => task,
        action => panic!("expected CreateTask, got {action:?}"),
    };
    assert_eq!(created.id, "t");
    assert!(created.messages.is_empty());
    assert!(created.dependencies.is_none());
    assert_eq!(created.description, "");
    assert_eq!(added(&actions[1]).0, "t");
}

#[test]
fn results_are_kept_under_the_id_of_their_call() {
    let kept = |result: RequestResult| {
        persisted_input_message(&action_result(
            "call-1",
            Some(RequestInput::ToolCallResult {
                result: Some(result),
            }),
        ))
    };
    let body = |message: Option<MessageType>| match message {
        Some(MessageType::ToolCallResult(result)) => {
            assert_eq!(result.tool_call_id, "call-1");
            assert!(result.context.is_none());
            result.result
        }
        message => panic!("expected a result, got {message:?}"),
    };
    assert!(matches!(
        body(kept(RequestResult::RunShellCommand(encoded("a")))),
        Some(MessageResult::RunShellCommand(payload)) if payload.bytes == b"a"
    ));
    assert!(matches!(
        body(kept(RequestResult::ReadFiles(encoded("b")))),
        Some(MessageResult::ReadFiles(payload)) if payload.bytes == b"b"
    ));
    assert!(matches!(
        body(kept(RequestResult::Grep(encoded("c")))),
        Some(MessageResult::Grep(payload)) if payload.bytes == b"c"
    ));
    assert!(matches!(
        body(kept(RequestResult::FileGlob(encoded("d")))),
        Some(MessageResult::FileGlob(payload)) if payload.bytes == b"d"
    ));
    assert!(matches!(
        body(kept(RequestResult::FileGlobV2(encoded("e")))),
        Some(MessageResult::FileGlobV2(payload)) if payload.bytes == b"e"
    ));
}

#[test]
fn inputs_without_a_kept_form_are_not_kept() {
    assert!(persisted_input_message(&AIAgentInput::Other).is_none());
    assert!(persisted_input_message(&action_result("id", None)).is_none());
    assert!(persisted_input_message(&action_result("id", Some(RequestInput::Other))).is_none());
    assert!(persisted_input_message(&action_result(
        "id",
        Some(RequestInput::ToolCallResult { result: None })
    ))
    .is_none());
    assert!(persisted_input_message(&action_result(
        "id",
        Some(RequestInput::ToolCallResult {
            result: Some(RequestResult::Other(encoded("x")))
        })
    ))
    .is_none());
}

#[test]
fn only_results_have_a_result_id() {
    assert_eq!(
        result_id(&action_result("call-9", None)).unwrap().value,
        "call-9"
    );
    assert!(result_id(&AIAgentInput::Other).is_none());
    assert!(result_id(&AIAgentInput::UserQuery {
        query: "q".to_string()
    })
    .is_none());
}

#[test]
fn messages_have_ids_of_their_own() {
    let mut params = new_for_test();
    for query in ["one", "two", "three"] {
        params.input.push(AIAgentInput::UserQuery {
            query: query.to_string(),
        });
    }
    let opened = |events: &Vec<ResponseEvent>| match events[0].event_type.as_ref() {
        Some(EventType::Init { request_id, .. }) => request_id.clone(),
        event => panic!("expected init, got {event:?}"),
    };
    let mut source = IdSource::new();
    let first = response_events(&params, "hello".to_string(), &mut source);
    let second = response_events(&params, "hello".to_string(), &mut source);
    assert_ne!(opened(&first), opened(&second));

    let actions = actions(&first[1]);
    let (_, messages) = added(&actions[1]);
    assert_eq!(messages.len(), 4);
    for (i, message) in messages.iter().enumerate() {
        assert_eq!(message.request_id, opened(&first));
        assert!(messages[..i].iter().all(|earlier| earlier.id != message.id));
    }
}

#[test]
fn every_draw_is_a_random_uuid() {
    let mut source = IdSource::new();
    let first = source.draw();
    let second = source.draw();
    assert!(is_random_uuid(&first));
    assert!(is_random_uuid(&second));
    assert_ne!(first, second);
}

//! The conversation as a local model is shown it.
use crate::api::{
    FileView, Message, MessageType, MessageTypeView, MessageView, Task, TaskView, ToolCall,
    ToolCallResultView, ToolCallView, ToolView,
};
use crate::events::{
    added_messages, persisted_input, persisted_inputs, stamped, task_of, EventIdsView,
};
use crate::json::{
    json, json_array, json_items, json_null, json_object2, json_object3, json_string, json_text,
    parsed_json, Json,
};
use crate::params::{
    AIAgentActionResultView, AIAgentInput, AIAgentInputView, RequestParams, RequestParamsView,
};
use crate::text::same_text;
use crate::tools::{openai_call, tool_call_to_openai};
use vstd::prelude::*;

verus! {

/// What a local model is told before anything else.
pub const SYSTEM_PROMPT: &'static str = "You are Warp's local terminal agent. Use tools to inspect the filesystem or run commands. Follow each tool's JSON schema exactly and include every required argument. Choose tools according to their documented semantics. Never claim a tool ran until its result is returned. If a tool returns an error, inspect it and retry with another appropriate tool or corrected arguments; do not replace the requested task with an unrelated response.";

// ---------------------------------------------------------------------------
// Messages

/// A message of a role with a text.
pub open spec fn text_message_json(role: Seq<char>, content: Seq<char>) -> Json {
    Json::Object(map!["role"@ => Json::Str(role), "content"@ => Json::Str(content)])
}

/// The message by which the model called a tool.
pub open spec fn tool_call_json(id: Seq<char>, name: Seq<char>, arguments: Seq<char>) -> Json {
    Json::Object(
        map![
            "role"@ => Json::Str("assistant"@),
            "content"@ => Json::Null,
            "tool_calls"@ => Json::Array(
                seq![
                    Json::Object(
                        map![
                            "id"@ => Json::Str(id),
                            "type"@ => Json::Str("function"@),
                            "function"@ => Json::Object(
                                map![
                                    "name"@ => Json::Str(name),
                                    "arguments"@ => Json::Str(arguments),
                                ],
                            ),
                        ],
                    ),
                ],
            ),
        ],
    )
}

/// The message that brings the result of a tool call.
pub open spec fn tool_result_json(id: Seq<char>, content: Seq<char>) -> Json {
    Json::Object(
        map![
            "role"@ => Json::Str("tool"@),
            "tool_call_id"@ => Json::Str(id),
            "content"@ => Json::Str(content),
        ],
    )
}

/// What a model is told of a result that a task keeps, once it is restored.
pub open spec fn restored_content(restored: Option<AIAgentInputView>) -> Seq<char> {
    match restored {
        Some(AIAgentInputView::ActionResult { result }) => result.description,
        _ => "Tool result unavailable."@,
    }
}

/// What a model is shown of a message that a task keeps: one message, or none.
pub open spec fn message_json(
    message: Option<MessageTypeView>,
    restored: Option<AIAgentInputView>,
) -> Seq<Json> {
    match message {
        Some(MessageTypeView::UserQuery { query }) => seq![text_message_json("user"@, query)],
        Some(MessageTypeView::AgentOutput { text }) => seq![text_message_json("assistant"@, text)],
        Some(MessageTypeView::ToolCall(call)) => match openai_call(call.tool) {
            Some((name, arguments)) => seq![
                tool_call_json(call.tool_call_id, name, json_text(arguments)),
            ],
            None => seq![],
        },
        Some(MessageTypeView::ToolCallResult(result)) => seq![
            tool_result_json(result.tool_call_id, restored_content(restored)),
        ],
        _ => seq![],
    }
}

/// What a model is shown of an input: one message, or none.
pub open spec fn input_json(input: AIAgentInputView) -> Seq<Json> {
    match input {
        AIAgentInputView::UserQuery { query } => seq![text_message_json("user"@, query)],
        AIAgentInputView::ActionResult { result } => seq![
            tool_result_json(result.id, result.description),
        ],
        AIAgentInputView::Other => seq![],
    }
}

// ---------------------------------------------------------------------------
// Conversations

/// Whether a message brings the result of a tool call.
pub open spec fn is_tool_result(message: MessageView) -> bool {
    message.message matches Some(MessageTypeView::ToolCallResult(_))
}

/// The number of messages that bring the result of a tool call.
pub open spec fn result_count(messages: Seq<MessageView>) -> nat
    decreases messages.len(),
{
    if messages.len() == 0 {
        0
    } else if is_tool_result(messages.last()) {
        result_count(messages.drop_last()) + 1
    } else {
        result_count(messages.drop_last())
    }
}

/// What a model is shown of the messages of a task; the results among them are restored
/// in order.
pub open spec fn task_json(
    messages: Seq<MessageView>,
    restored: Seq<Option<AIAgentInputView>>,
) -> Seq<Json>
    decreases messages.len(),
{
    if messages.len() == 0 {
        seq![]
    } else {
        task_json(messages.drop_last(), restored) + message_json(
            messages.last().message,
            restored[result_count(messages.drop_last()) as int],
        )
    }
}

/// What a model is shown of the tasks of a conversation.
pub open spec fn tasks_json(
    tasks: Seq<TaskView>,
    restored: Seq<Seq<Option<AIAgentInputView>>>,
) -> Seq<Json>
    decreases tasks.len(),
{
    if tasks.len() == 0 {
        seq![]
    } else {
        tasks_json(tasks.drop_last(), restored) + task_json(
            tasks.last().messages,
            restored[tasks.len() - 1],
        )
    }
}

/// What a model is shown of the inputs of a request.
pub open spec fn inputs_json(inputs: Seq<AIAgentInputView>) -> Seq<Json>
    decreases inputs.len(),
{
    if inputs.len() == 0 {
        seq![]
    } else {
        inputs_json(inputs.drop_last()) + input_json(inputs.last())
    }
}

/// The conversation as a model is shown it: what it is told first, the tasks so far, and
/// the inputs of the request.
pub open spec fn conversation_json(
    params: RequestParamsView,
    restored: Seq<Seq<Option<AIAgentInputView>>>,
) -> Seq<Json> {
    seq![text_message_json("system"@, SYSTEM_PROMPT@)] + tasks_json(params.tasks, restored)
        + inputs_json(params.input)
}

/// Whether there is one restored result for each result that the tasks keep.
pub open spec fn all_restored(
    tasks: Seq<TaskView>,
    restored: Seq<Seq<Option<AIAgentInputView>>>,
) -> bool {
    &&& restored.len() == tasks.len()
    &&& forall|i: int|
        0 <= i < tasks.len() ==> #[trigger] restored[i].len() == result_count(tasks[i].messages)
}

/// Whether the arguments of a call, where the model is shown the message as one, read
/// back as the arguments of the tool.
pub open spec fn reads_back(message: MessageView) -> bool {
    message.message matches Some(MessageTypeView::ToolCall(call)) ==> (openai_call(
        call.tool,
    ) matches Some((_, arguments)) ==> parsed_json(json_text(arguments)) == Some(arguments))
}

// ---------------------------------------------------------------------------
// What a result is restored with

/// The tool calls of a task by their identifiers: of two with one identifier the later
/// counts.
pub open spec fn tool_calls_by_id(messages: Seq<MessageView>) -> Map<Seq<char>, ToolCallView>
    decreases messages.len(),
{
    if messages.len() == 0 {
        Map::empty()
    } else {
        let calls = tool_calls_by_id(messages.drop_last());
        match messages.last().message {
            Some(MessageTypeView::ToolCall(call)) => calls.insert(call.tool_call_id, call),
            _ => calls,
        }
    }
}

/// The tool call of the task with the identifier: the call that a result answers.
pub fn find_tool_call<'a>(task: &'a Task, tool_call_id: &str) -> (call: Option<&'a ToolCall>)
    ensures
        match call {
            Some(call) => tool_calls_by_id(task.messages.deep_view()).contains_pair(
                tool_call_id@,
                call.deep_view(),
            ),
            None => !tool_calls_by_id(task.messages.deep_view()).contains_key(tool_call_id@),
        },
{
    let ghost messages = task.messages.deep_view();
    let mut found: Option<&'a ToolCall> = None;
    let mut i: usize = 0;
    assert(messages.take(0) =~= seq![]);
    while i < task.messages.len()
        invariant
            i <= task.messages.len(),
            messages == task.messages.deep_view(),
            match found {
                Some(call) => tool_calls_by_id(messages.take(i as int)).contains_pair(
                    tool_call_id@,
                    call.deep_view(),
                ),
                None => !tool_calls_by_id(messages.take(i as int)).contains_key(tool_call_id@),
            },
        decreases task.messages.len() - i,
    {
        assert(messages.take(i + 1).drop_last() =~= messages.take(i as int));
        match &task.messages[i].message {
            Some(MessageType::ToolCall(call)) => {
                if same_text(call.tool_call_id.as_str(), tool_call_id) {
                    found = Some(call);
                }
            },
            _ => {},
        }
        i = i + 1;
    }
    assert(messages.take(i as int) =~= messages);
    found
}

/// Where the messages bring results, in order: what is to be restored before a model is
/// shown the task.
pub fn tool_result_positions(messages: &Vec<Message>) -> (positions: Vec<usize>)
    ensures
        positions@.len() == result_count(messages.deep_view()),
        forall|k: int|
            0 <= k < positions@.len() ==> #[trigger] positions@[k] < messages@.len()
                && is_tool_result(messages.deep_view()[positions@[k] as int]) && result_count(
                messages.deep_view().take(positions@[k] as int),
            ) == k,
        forall|j: int|
            0 <= j < messages@.len() && #[trigger] is_tool_result(messages.deep_view()[j])
                ==> positions@.contains(j as usize),
        forall|k: int, l: int|
            0 <= k < l < positions@.len() ==> #[trigger] positions@[k] < #[trigger] positions@[l],
{
    let ghost views = messages.deep_view();
    let mut positions: Vec<usize> = Vec::new();
    let mut i: usize = 0;
    assert(views.take(0) =~= seq![]);
    while i < messages.len()
        invariant
            i <= messages.len(),
            views == messages.deep_view(),
            positions@.len() == result_count(views.take(i as int)),
            forall|k: int|
                0 <= k < positions@.len() ==> #[trigger] positions@[k] < i && is_tool_result(
                    views[positions@[k] as int],
                ) && result_count(views.take(positions@[k] as int)) == k,
            forall|j: int|
                0 <= j < i && #[trigger] is_tool_result(views[j]) ==> positions@.contains(
                    j as usize,
                ),
            forall|k: int, l: int|
                0 <= k < l < positions@.len() ==> #[trigger] positions@[k]
                    < #[trigger] positions@[l],
        decreases messages.len() - i,
    {
        assert(views.take(i + 1).drop_last() =~= views.take(i as int));
        let ghost before = positions@;
        match &messages[i].message {
            Some(MessageType::ToolCallResult(_)) => {
                positions.push(i);
                assert(positions@.last() == i);
            },
            _ => {},
        }
        assert forall|j: int| 0 <= j < i + 1 && #[trigger] is_tool_result(views[j]) implies positions@.contains(
            j as usize,
        ) by {
            if j < i {
                let k = choose|k: int| 0 <= k < before.len() && before[k] == j as usize;
                assert(positions@[k] == j as usize);
            }
        }
        i = i + 1;
    }
    assert(views.take(i as int) =~= views);
    positions
}

/// Whether there is one restored result for each result that the tasks keep.
pub fn results_restored(params: &RequestParams, restored: &Vec<Vec<Option<AIAgentInput>>>) -> (all:
    bool)
    ensures
        all == all_restored(params.tasks.deep_view(), restored.deep_view()),
{
    if restored.len() != params.tasks.len() {
        return false;
    }
    let ghost tasks = params.tasks.deep_view();
    let ghost views = restored.deep_view();
    let mut i: usize = 0;
    while i < params.tasks.len()
        invariant
            i <= params.tasks.len(),
            restored@.len() == params.tasks@.len(),
            tasks == params.tasks.deep_view(),
            views == restored.deep_view(),
            forall|j: int|
                0 <= j < i ==> #[trigger] views[j].len() == result_count(tasks[j].messages),
        decreases params.tasks.len() - i,
    {
        assert(views[i as int].len() == restored@[i as int]@.len());
        if restored[i].len() != tool_result_positions(&params.tasks[i].messages).len() {
            return false;
        }
        i = i + 1;
    }
    true
}

// ---------------------------------------------------------------------------
// The messages of a request

/// What the model is told of a result that a task keeps, once it is restored.
pub fn persisted_tool_result_content(restored: &Option<AIAgentInput>) -> (content: String)
    ensures
        content@ == restored_content(restored.deep_view()),
{
    match restored {
        Some(AIAgentInput::ActionResult { result }) => result.description.clone(),
        _ => "Tool result unavailable.".to_owned(),
    }
}

/// The keys of messages have these lengths, so no two keys of one object are equal.
proof fn lemma_message_key_lengths()
    ensures
        "role"@.len() == 4,
        "content"@.len() == 7,
        "tool_calls"@.len() == 10,
        "tool_call_id"@.len() == 12,
        "id"@.len() == 2,
        "type"@.len() == 4,
        "function"@.len() == 8,
        "name"@.len() == 4,
        "arguments"@.len() == 9,
{
    reveal_strlit("role");
    reveal_strlit("content");
    reveal_strlit("tool_calls");
    reveal_strlit("tool_call_id");
    reveal_strlit("id");
    reveal_strlit("type");
    reveal_strlit("function");
    reveal_strlit("name");
    reveal_strlit("arguments");
}

/// A message of the role with the text.
fn text_message(role: &str, content: &str) -> (message: serde_json::Value)
    ensures
        json(message) == text_message_json(role@, content@),
{
    proof {
        lemma_message_key_lengths();
    }
    json_object2("role", json_string(role), "content", json_string(content))
}

/// The message by which the model called a tool.
fn tool_call_value(id: &str, name: &str, arguments: &str) -> (message: serde_json::Value)
    ensures
        json(message) == tool_call_json(id@, name@, arguments@),
{
    proof {
        lemma_message_key_lengths();
    }
    let function = json_object2("name", json_string(name), "arguments", json_string(arguments));
    let call = json_object3(
        "id",
        json_string(id),
        "type",
        json_string("function"),
        "function",
        function,
    );
    let calls = vec![call];
    assert(json_items(calls@) =~= seq![json(call)]);
    json_object3(
        "role",
        json_string("assistant"),
        "content",
        json_null(),
        "tool_calls",
        json_array(calls),
    )
}

/// The message that brings the result of a tool call.
fn tool_result_value(id: &str, content: &str) -> (message: serde_json::Value)
    ensures
        json(message) == tool_result_json(id@, content@),
{
    proof {
        lemma_message_key_lengths();
    }
    json_object3(
        "role",
        json_string("tool"),
        "tool_call_id",
        json_string(id),
        "content",
        json_string(content),
    )
}

/// Adds what the model is shown of a message that brings no result.
fn push_message(messages: &mut Vec<serde_json::Value>, message: &Message)
    requires
        !is_tool_result(message.deep_view()),
    ensures
        json_items(final(messages)@) == json_items(old(messages)@) + message_json(
            message.deep_view().message,
            None,
        ),
        reads_back(message.deep_view()),
{
    let ghost before = json_items(messages@);
    match &message.message {
        Some(MessageType::UserQuery { query }) => {
            messages.push(text_message("user", query.as_str()));
        },
        Some(MessageType::AgentOutput { text }) => {
            messages.push(text_message("assistant", text.as_str()));
        },
        Some(MessageType::ToolCall(call)) => {
            match tool_call_to_openai(call) {
                Some((name, arguments)) => {
                    messages.push(
                        tool_call_value(call.tool_call_id.as_str(), name, arguments.as_str()),
                    );
                },
                None => {},
            }
        },
        _ => {},
    }
    assert(json_items(messages@) =~= before + message_json(message.deep_view().message, None));
}

/// Adds what the model is shown of a task.
fn push_task(
    messages: &mut Vec<serde_json::Value>,
    task: &Task,
    restored: &Vec<Option<AIAgentInput>>,
)
    requires
        restored@.len() == result_count(task.messages.deep_view()),
    ensures
        json_items(final(messages)@) == json_items(old(messages)@) + task_json(
            task.messages.deep_view(),
            restored.deep_view(),
        ),
        forall|i: int|
            0 <= i < task.messages.deep_view().len() ==> reads_back(
                #[trigger] task.messages.deep_view()[i],
            ),
{
    let ghost before = json_items(messages@);
    let ghost views = task.messages.deep_view();
    let total: usize = restored.len();
    let mut next: usize = 0;
    let mut i: usize = 0;
    assert(views.take(0) =~= seq![]);
    assert(json_items(messages@) =~= before + task_json(views.take(0), restored.deep_view()));
    while i < task.messages.len()
        invariant
            i <= task.messages.len(),
            views == task.messages.deep_view(),
            total == restored@.len(),
            total == result_count(views),
            next == result_count(views.take(i as int)),
            json_items(messages@) == before + task_json(
                views.take(i as int),
                restored.deep_view(),
            ),
            forall|j: int| 0 <= j < i ==> reads_back(#[trigger] views[j]),
        decreases task.messages.len() - i,
    {
        let ghost earlier = json_items(messages@);
        proof {
            assert(views.take(i + 1).drop_last() =~= views.take(i as int));
            lemma_result_count_prefix(views, i + 1);
        }
        match &task.messages[i].message {
            Some(MessageType::ToolCallResult(result)) => {
                let content = persisted_tool_result_content(&restored[next]);
                messages.push(tool_result_value(result.tool_call_id.as_str(), content.as_str()));
                next = next + 1;
                assert(json_items(messages@) =~= earlier + message_json(
                    views[i as int].message,
                    restored.deep_view()[next - 1],
                ));
            },
            _ => {
                push_message(messages, &task.messages[i]);
            },
        }
        i = i + 1;
    }
    assert(views.take(i as int) =~= views);
}

/// No more results are among the first messages than among all.
proof fn lemma_result_count_prefix(messages: Seq<MessageView>, n: int)
    requires
        0 <= n <= messages.len(),
    ensures
        result_count(messages.take(n)) <= result_count(messages),
    decreases messages.len(),
{
    if n < messages.len() {
        lemma_result_count_prefix(messages.drop_last(), n);
        assert(messages.drop_last().take(n) =~= messages.take(n));
    } else {
        assert(messages.take(n) =~= messages);
    }
}

/// Adds what the model is shown of an input.
fn push_input(messages: &mut Vec<serde_json::Value>, input: &AIAgentInput)
    ensures
        json_items(final(messages)@) == json_items(old(messages)@) + input_json(input.deep_view()),
{
    let ghost before = json_items(messages@);
    match input {
        AIAgentInput::UserQuery { query } => {
            messages.push(text_message("user", query.as_str()));
        },
        AIAgentInput::ActionResult { result } => {
            messages.push(
                tool_result_value(result.id.value.as_str(), result.description.as_str()),
            );
        },
        AIAgentInput::Other => {},
    }
    assert(json_items(messages@) =~= before + input_json(input.deep_view()));
}

/// The conversation as the model is shown it. `restored` holds, task by task and in
/// order, the inputs that the results kept by the tasks are restored to. The arguments
/// of every call that is shown read back as they are.
pub fn conversation_messages(
    params: &RequestParams,
    restored: &Vec<Vec<Option<AIAgentInput>>>,
) -> (messages: Vec<serde_json::Value>)
    requires
        all_restored(params.tasks.deep_view(), restored.deep_view()),
    ensures
        json_items(messages@) == conversation_json(params.deep_view(), restored.deep_view()),
        forall|i: int, j: int|
            0 <= i < params.deep_view().tasks.len() && 0 <= j
                < params.deep_view().tasks[i].messages.len() ==> reads_back(
                #[trigger] params.deep_view().tasks[i].messages[j],
            ),
{
    let ghost tasks = params.tasks.deep_view();
    let ghost inputs = params.input.deep_view();
    let ghost results = restored.deep_view();
    let ghost first = seq![text_message_json("system"@, SYSTEM_PROMPT@)];
    let mut messages: Vec<serde_json::Value> = vec![text_message("system", SYSTEM_PROMPT)];
    let mut i: usize = 0;
    assert(tasks.take(0) =~= seq![]);
    assert(json_items(messages@) =~= first + tasks_json(tasks.take(0), results));
    while i < params.tasks.len()
        invariant
            i <= params.tasks.len(),
            tasks == params.tasks.deep_view(),
            results == restored.deep_view(),
            all_restored(tasks, results),
            json_items(messages@) == first + tasks_json(tasks.take(i as int), results),
            forall|k: int, j: int|
                0 <= k < i && 0 <= j < tasks[k].messages.len() ==> reads_back(
                    #[trigger] tasks[k].messages[j],
                ),
        decreases params.tasks.len() - i,
    {
        assert(results[i as int].len() == restored@[i as int]@.len());
        assert(tasks.take(i + 1).drop_last() =~= tasks.take(i as int));
        push_task(&mut messages, &params.tasks[i], &restored[i]);
        i = i + 1;
        assert(json_items(messages@) =~= first + tasks_json(tasks.take(i as int), results));
    }
    assert(tasks.take(i as int) =~= tasks);
    let ghost shown = first + tasks_json(tasks, results);
    i = 0;
    assert(inputs.take(0) =~= seq![]);
    assert(json_items(messages@) =~= shown + inputs_json(inputs.take(0)));
    while i < params.input.len()
        invariant
            i <= params.input.len(),
            inputs == params.input.deep_view(),
            json_items(messages@) == shown + inputs_json(inputs.take(i as int)),
        decreases params.input.len() - i,
    {
        assert(inputs.take(i + 1).drop_last() =~= inputs.take(i as int));
        push_input(&mut messages, &params.input[i]);
        i = i + 1;
        assert(json_items(messages@) =~= shown + inputs_json(inputs.take(i as int)));
    }
    assert(inputs.take(i as int) =~= inputs);
    messages
}

// ---------------------------------------------------------------------------
// Laws

/// A model is told first what it is, whatever follows.
pub proof fn law_system_prompt_comes_first(
    params: RequestParamsView,
    restored: Seq<Seq<Option<AIAgentInputView>>>,
)
    ensures
        conversation_json(params, restored).len() >= 1,
        conversation_json(params, restored)[0] == text_message_json("system"@, SYSTEM_PROMPT@),
{
}

/// A further input adds what is shown of it at the end, and changes nothing before.
pub proof fn law_input_extends_conversation(
    params: RequestParamsView,
    restored: Seq<Seq<Option<AIAgentInputView>>>,
    input: AIAgentInputView,
)
    ensures
        conversation_json(
            RequestParamsView { input: params.input.push(input), ..params },
            restored,
        ) == conversation_json(params, restored) + input_json(input),
{
    assert(params.input.push(input).drop_last() =~= params.input);
    assert(conversation_json(
        RequestParamsView { input: params.input.push(input), ..params },
        restored,
    ) =~= conversation_json(params, restored) + input_json(input));
}

/// Results that belong to later tasks do not change what is shown.
proof fn lemma_tasks_json_ignores_later(
    tasks: Seq<TaskView>,
    restored: Seq<Seq<Option<AIAgentInputView>>>,
    later: Seq<Seq<Option<AIAgentInputView>>>,
)
    requires
        tasks.len() <= restored.len(),
    ensures
        tasks_json(tasks, restored + later) == tasks_json(tasks, restored),
    decreases tasks.len(),
{
    if tasks.len() > 0 {
        lemma_tasks_json_ignores_later(tasks.drop_last(), restored, later);
        assert((restored + later)[tasks.len() - 1] == restored[tasks.len() - 1]);
    }
}

/// Tasks are shown one after the other, and each as if it were alone.
pub proof fn law_tasks_are_shown_independently(
    earlier: Seq<TaskView>,
    earlier_restored: Seq<Seq<Option<AIAgentInputView>>>,
    later: Seq<TaskView>,
    later_restored: Seq<Seq<Option<AIAgentInputView>>>,
)
    requires
        earlier_restored.len() == earlier.len(),
        later_restored.len() >= later.len(),
    ensures
        tasks_json(earlier + later, earlier_restored + later_restored) == tasks_json(
            earlier,
            earlier_restored,
        ) + tasks_json(later, later_restored),
    decreases later.len(),
{
    let tasks = earlier + later;
    let restored = earlier_restored + later_restored;
    if later.len() == 0 {
        assert(tasks =~= earlier);
        lemma_tasks_json_ignores_later(earlier, earlier_restored, later_restored);
    } else {
        law_tasks_are_shown_independently(
            earlier,
            earlier_restored,
            later.drop_last(),
            later_restored,
        );
        assert(tasks.drop_last() =~= earlier + later.drop_last());
        assert(restored[tasks.len() - 1] == later_restored[later.len() - 1]);
    }
    assert(tasks_json(tasks, restored) =~= tasks_json(earlier, earlier_restored) + tasks_json(
        later,
        later_restored,
    ));
}

/// Inputs are shown one after the other, and each as if it were alone.
pub proof fn law_inputs_are_shown_independently(
    earlier: Seq<AIAgentInputView>,
    later: Seq<AIAgentInputView>,
)
    ensures
        inputs_json(earlier + later) == inputs_json(earlier) + inputs_json(later),
    decreases later.len(),
{
    if later.len() == 0 {
        assert(earlier + later =~= earlier);
    } else {
        law_inputs_are_shown_independently(earlier, later.drop_last());
        assert((earlier + later).drop_last() =~= earlier + later.drop_last());
    }
    assert(inputs_json(earlier + later) =~= inputs_json(earlier) + inputs_json(later));
}

/// A conversation is made up of its parts: the tasks are shown independently of each
/// other and before all inputs, the inputs independently of each other, and a
/// conversation without either shows the first message alone.
pub proof fn law_conversation_is_made_up_of_its_parts(
    params: RequestParamsView,
    tasks: Seq<TaskView>,
    restored: Seq<Seq<Option<AIAgentInputView>>>,
    more_tasks: Seq<TaskView>,
    more_restored: Seq<Seq<Option<AIAgentInputView>>>,
    inputs: Seq<AIAgentInputView>,
    more_inputs: Seq<AIAgentInputView>,
)
    requires
        restored.len() == tasks.len(),
        more_restored.len() == more_tasks.len(),
    ensures
        conversation_json(
            RequestParamsView { tasks: tasks + more_tasks, input: inputs + more_inputs, ..params },
            restored + more_restored,
        ) == conversation_json(RequestParamsView { tasks, input: seq![], ..params }, restored)
            + conversation_json(
            RequestParamsView { tasks: more_tasks, input: seq![], ..params },
            more_restored,
        ).skip(1) + conversation_json(
            RequestParamsView { tasks: seq![], input: inputs, ..params },
            seq![],
        ).skip(1) + conversation_json(
            RequestParamsView { tasks: seq![], input: more_inputs, ..params },
            seq![],
        ).skip(1),
        conversation_json(
            RequestParamsView { tasks: seq![], input: seq![], ..params },
            seq![],
        ).len() == 1,
{
    law_tasks_are_shown_independently(tasks, restored, more_tasks, more_restored);
    law_inputs_are_shown_independently(inputs, more_inputs);
    let first = seq![text_message_json("system"@, SYSTEM_PROMPT@)];
    assert(conversation_json(
        RequestParamsView { tasks, input: seq![], ..params },
        restored,
    ) =~= first + tasks_json(tasks, restored));
    assert(conversation_json(
        RequestParamsView { tasks: more_tasks, input: seq![], ..params },
        more_restored,
    ).skip(1) =~= tasks_json(more_tasks, more_restored));
    assert(conversation_json(
        RequestParamsView { tasks: seq![], input: inputs, ..params },
        seq![],
    ).skip(1) =~= inputs_json(inputs));
    assert(conversation_json(
        RequestParamsView { tasks: seq![], input: more_inputs, ..params },
        seq![],
    ).skip(1) =~= inputs_json(more_inputs));
    assert(conversation_json(
        RequestParamsView { tasks: tasks + more_tasks, input: inputs + more_inputs, ..params },
        restored + more_restored,
    ) =~= first + tasks_json(tasks, restored) + tasks_json(more_tasks, more_restored) + inputs_json(
        inputs,
    ) + inputs_json(more_inputs));
}

/// What is shown of one input is shown of the inputs.
proof fn lemma_input_is_shown(inputs: Seq<AIAgentInputView>, i: int)
    requires
        0 <= i < inputs.len(),
    ensures
        inputs_json(inputs).len() >= input_json(inputs[i]).len(),
        forall|message: Json| #[trigger]
            input_json(inputs[i]).contains(message) ==> inputs_json(inputs).contains(message),
    decreases inputs.len(),
{
    let shown = inputs_json(inputs.drop_last());
    let last = input_json(inputs.last());
    if i < inputs.len() - 1 {
        lemma_input_is_shown(inputs.drop_last(), i);
        assert forall|message: Json| #[trigger]
            input_json(inputs[i]).contains(message) implies inputs_json(inputs).contains(
            message,
        ) by {
            assert(shown.contains(message));
            let k = choose|k: int| 0 <= k < shown.len() && shown[k] == message;
            assert((shown + last)[k] == message);
        }
    } else {
        assert forall|message: Json| #[trigger]
            input_json(inputs[i]).contains(message) implies inputs_json(inputs).contains(
            message,
        ) by {
            let k = choose|k: int| 0 <= k < last.len() && last[k] == message;
            assert((shown + last)[shown.len() + k] == message);
        }
    }
}

/// Every query of the user in a request is shown to the model, so a conversation that
/// shows nothing but the first message brings no query.
pub proof fn law_user_queries_are_shown(
    params: RequestParamsView,
    restored: Seq<Seq<Option<AIAgentInputView>>>,
    query: Seq<char>,
)
    requires
        params.input.contains(AIAgentInputView::UserQuery { query }),
    ensures
        conversation_json(params, restored).contains(text_message_json("user"@, query)),
        conversation_json(params, restored).len() > 1,
{
    let inputs = params.input;
    let message = text_message_json("user"@, query);
    let i = choose|i: int|
        0 <= i < inputs.len() && inputs[i] == AIAgentInputView::UserQuery { query };
    lemma_input_is_shown(inputs, i);
    assert(input_json(inputs[i])[0] == message);
    assert(input_json(inputs[i]).contains(message));
    let shown = inputs_json(inputs);
    let k = choose|k: int| 0 <= k < shown.len() && shown[k] == message;
    let conversation = conversation_json(params, restored);
    assert(conversation[conversation.len() - shown.len() + k] == message);
}

/// What a task keeps of an input is shown to the model as the input was: a query in any
/// case, a result where it is restored in the same words.
pub proof fn law_kept_input_is_shown_alike(
    input: AIAgentInputView,
    restored: Option<AIAgentInputView>,
)
    requires
        persisted_input(input) is Some,
        input matches AIAgentInputView::ActionResult { result } ==> restored_content(restored)
            == result.description,
    ensures
        message_json(persisted_input(input), restored) == input_json(input),
{
}

/// Whether `restored` holds, in order, the results that a task keeps of the inputs, each
/// in the words of its input, and nothing that is shown goes unkept.
pub open spec fn restores(
    inputs: Seq<AIAgentInputView>,
    restored: Seq<Option<AIAgentInputView>>,
) -> bool
    decreases inputs.len(),
{
    if inputs.len() == 0 {
        restored.len() == 0
    } else {
        match (persisted_input(inputs.last()), inputs.last()) {
            (Some(_), AIAgentInputView::ActionResult { result }) => {
                &&& restored.len() > 0
                &&& restored_content(restored.last()) == result.description
                &&& restores(inputs.drop_last(), restored.drop_last())
            },
            (Some(_), _) => restores(inputs.drop_last(), restored),
            (None, input) => input_json(input).len() == 0 && restores(inputs.drop_last(), restored),
        }
    }
}

/// Results that belong to later messages do not change what is shown.
proof fn lemma_task_json_ignores_later(
    messages: Seq<MessageView>,
    restored: Seq<Option<AIAgentInputView>>,
    later: Seq<Option<AIAgentInputView>>,
)
    requires
        result_count(messages) <= restored.len(),
    ensures
        task_json(messages, restored + later) == task_json(messages, restored),
    decreases messages.len(),
{
    if messages.len() > 0 {
        lemma_task_json_ignores_later(messages.drop_last(), restored, later);
        let n = result_count(messages.drop_last()) as int;
        if is_tool_result(messages.last()) {
            assert((restored + later)[n] == restored[n]);
        }
    }
}

/// What a task keeps of the inputs is shown after the earlier messages as the inputs
/// were.
proof fn lemma_kept_inputs_are_shown(
    messages: Seq<MessageView>,
    restored: Seq<Option<AIAgentInputView>>,
    inputs: Seq<AIAgentInputView>,
    later: Seq<Option<AIAgentInputView>>,
    message_ids: Seq<Seq<char>>,
    task_id: Seq<char>,
    request_id: Seq<char>,
)
    requires
        restored.len() == result_count(messages),
        restores(inputs, later),
    ensures
        ({
            let kept = stamped(persisted_inputs(inputs), message_ids, task_id, request_id);
            &&& task_json(messages + kept, restored + later) == task_json(messages, restored)
                + inputs_json(inputs)
            &&& result_count(messages + kept) == restored.len() + later.len()
        }),
    decreases inputs.len(),
{
    let kept = stamped(persisted_inputs(inputs), message_ids, task_id, request_id);
    if inputs.len() == 0 {
        assert(messages + kept =~= messages);
        assert(restored + later =~= restored);
        assert(task_json(messages, restored) + inputs_json(inputs) =~= task_json(
            messages,
            restored,
        ));
    } else {
        let earlier = inputs.drop_last();
        let before = stamped(persisted_inputs(earlier), message_ids, task_id, request_id);
        let shown = task_json(messages, restored);
        match persisted_input(inputs.last()) {
            Some(message) => {
                assert((messages + kept).drop_last() =~= messages + before);
                assert((messages + kept).last().message == Some(message));
                if inputs.last() is ActionResult {
                    let less = later.drop_last();
                    lemma_kept_inputs_are_shown(
                        messages,
                        restored,
                        earlier,
                        less,
                        message_ids,
                        task_id,
                        request_id,
                    );
                    let n = result_count(messages + before) as int;
                    assert((restored + later)[n] == later.last());
                    assert(restored + later =~= (restored + less) + seq![later.last()]);
                    lemma_task_json_ignores_later(
                        messages + before,
                        restored + less,
                        seq![later.last()],
                    );
                    law_kept_input_is_shown_alike(inputs.last(), later.last());
                } else {
                    lemma_kept_inputs_are_shown(
                        messages,
                        restored,
                        earlier,
                        later,
                        message_ids,
                        task_id,
                        request_id,
                    );
                    let n = result_count(messages + before) as int;
                    law_kept_input_is_shown_alike(inputs.last(), (restored + later)[n]);
                }
            },
            None => {
                lemma_kept_inputs_are_shown(
                    messages,
                    restored,
                    earlier,
                    later,
                    message_ids,
                    task_id,
                    request_id,
                );
                assert(input_json(inputs.last()) =~= seq![]);
            },
        }
        assert(task_json(messages + kept, restored + later) =~= shown + inputs_json(inputs));
    }
}

/// An answered request is remembered: once the messages that answer it are in the task,
/// the model is shown of the task what it was shown before, then the inputs of the
/// request as they were, then its own answer.
pub proof fn law_answered_request_is_remembered(
    messages: Seq<MessageView>,
    restored: Seq<Option<AIAgentInputView>>,
    params: RequestParamsView,
    answer: MessageTypeView,
    ids: EventIdsView,
    later: Seq<Option<AIAgentInputView>>,
)
    requires
        restored.len() == result_count(messages),
        restores(params.input, later),
        !(answer is ToolCallResult),
    ensures
        task_json(messages + added_messages(params, answer, ids), restored + later) == task_json(
            messages,
            restored,
        ) + inputs_json(params.input) + message_json(Some(answer), None),
{
    let task_id = task_of(params, ids);
    let kept = stamped(persisted_inputs(params.input), ids.message_ids, task_id, ids.request_id);
    let added = added_messages(params, answer, ids);
    lemma_kept_inputs_are_shown(
        messages,
        restored,
        params.input,
        later,
        ids.message_ids,
        task_id,
        ids.request_id,
    );
    assert((messages + added).drop_last() =~= messages + kept);
    assert((messages + added).last().message == Some(answer));
}

/// The members of the messages that a model is shown: a role with a text; the assistant
/// with one call of a function, and no text; and a tool with the call that it answers.
pub proof fn law_form_of_messages(
    role: Seq<char>,
    content: Seq<char>,
    id: Seq<char>,
    name: Seq<char>,
    arguments: Seq<char>,
)
    ensures
        text_message_json(role, content) == Json::Object(
            map!["role"@ => Json::Str(role), "content"@ => Json::Str(content)],
        ),
        tool_call_json(id, name, arguments) matches Json::Object(message) && {
            &&& message.dom() == set!["role"@, "content"@, "tool_calls"@]
            &&& message["role"@] == Json::Str("assistant"@)
            &&& message["content"@] is Null
            &&& message["tool_calls"@] matches Json::Array(calls)
            &&& calls.len() == 1
            &&& calls[0] matches Json::Object(call)
            &&& call.dom() == set!["id"@, "type"@, "function"@]
            &&& call["id"@] == Json::Str(id)
            &&& call["type"@] == Json::Str("function"@)
            &&& call["function"@] == Json::Object(
                map!["name"@ => Json::Str(name), "arguments"@ => Json::Str(arguments)],
            )
        },
        tool_result_json(id, content) == Json::Object(
            map![
                "role"@ => Json::Str("tool"@),
                "tool_call_id"@ => Json::Str(id),
                "content"@ => Json::Str(content),
            ],
        ),
{
    lemma_message_key_lengths();
    let message = tool_call_json(id, name, arguments)->Object_0;
    assert(message.dom() =~= set!["role"@, "content"@, "tool_calls"@]);
    let call = message["tool_calls"@]->Array_0[0]->Object_0;
    assert(call.dom() =~= set!["id"@, "type"@, "function"@]);
}

/// A conversation without tasks and inputs shows what a model is told first, and nothing
/// else.
pub proof fn law_conversation_begins_with_the_prompt(
    params: RequestParamsView,
    restored: Seq<Seq<Option<AIAgentInputView>>>,
)
    requires
        params.tasks.len() == 0,
        params.input.len() == 0,
    ensures
        conversation_json(params, restored) == seq![
            Json::Object(
                map![
                    "role"@ => Json::Str("system"@),
                    "content"@ => Json::Str(
                        "You are Warp's local terminal agent. Use tools to inspect the filesystem or run commands. Follow each tool's JSON schema exactly and include every required argument. Choose tools according to their documented semantics. Never claim a tool ran until its result is returned. If a tool returns an error, inspect it and retry with another appropriate tool or corrected arguments; do not replace the requested task with an unrelated response."@,
                    ),
                ],
            ),
        ],
{
    assert(conversation_json(params, restored) =~= seq![
        text_message_json("system"@, SYSTEM_PROMPT@),
    ]);
}

/// A further task adds what is shown of it at the end of the tasks, and changes nothing
/// before.
pub proof fn law_task_extends_conversation(
    params: RequestParamsView,
    restored: Seq<Seq<Option<AIAgentInputView>>>,
    task: TaskView,
    results: Seq<Option<AIAgentInputView>>,
)
    requires
        params.input.len() == 0,
        restored.len() == params.tasks.len(),
    ensures
        conversation_json(
            RequestParamsView { tasks: params.tasks.push(task), ..params },
            restored.push(results),
        ) == conversation_json(params, restored) + task_json(task.messages, results),
{
    assert(params.tasks.push(task).drop_last() =~= params.tasks);
    assert(restored.push(results) =~= restored + seq![results]);
    lemma_tasks_json_ignores_later(params.tasks, restored, seq![results]);
    assert(conversation_json(
        RequestParamsView { tasks: params.tasks.push(task), ..params },
        restored.push(results),
    ) =~= conversation_json(params, restored) + task_json(task.messages, results));
}

/// A query is shown as a message of the user, and a result as the message of a tool that
/// answers its action; any other input is not shown.
pub proof fn law_what_is_shown_of_an_input(query: Seq<char>, result: AIAgentActionResultView)
    ensures
        input_json(AIAgentInputView::UserQuery { query }) == seq![
            Json::Object(map!["role"@ => Json::Str("user"@), "content"@ => Json::Str(query)]),
        ],
        input_json(AIAgentInputView::ActionResult { result }) == seq![
            Json::Object(
                map![
                    "role"@ => Json::Str("tool"@),
                    "tool_call_id"@ => Json::Str(result.id),
                    "content"@ => Json::Str(result.description),
                ],
            ),
        ],
        input_json(AIAgentInputView::Other).len() == 0,
{
}

/// One more message of a task that is no result shows what is shown of it at the end.
proof fn lemma_task_json_push(
    messages: Seq<MessageView>,
    restored: Seq<Option<AIAgentInputView>>,
    message: MessageView,
)
    ensures
        task_json(messages.push(message), restored) == task_json(messages, restored)
            + message_json(message.message, restored[result_count(messages) as int]),
{
    assert(messages.push(message).drop_last() =~= messages);
}

/// A task without messages shows nothing. A query of the user and an output of the agent
/// that a task keeps are shown as they are, as messages of the user and the assistant;
/// what is not a message of those kinds is not shown.
pub proof fn law_kept_texts_are_shown(
    messages: Seq<MessageView>,
    restored: Seq<Option<AIAgentInputView>>,
    message: MessageView,
    text: Seq<char>,
    other: Seq<u8>,
)
    ensures
        task_json(seq![], restored).len() == 0,
        message.message == Some(MessageTypeView::UserQuery { query: text }) ==> task_json(
            messages.push(message),
            restored,
        ) == task_json(messages, restored).push(
            Json::Object(map!["role"@ => Json::Str("user"@), "content"@ => Json::Str(text)]),
        ),
        message.message == Some(MessageTypeView::AgentOutput { text }) ==> task_json(
            messages.push(message),
            restored,
        ) == task_json(messages, restored).push(
            Json::Object(map!["role"@ => Json::Str("assistant"@), "content"@ => Json::Str(text)]),
        ),
        message.message == Some(MessageTypeView::Other(other)) || message.message is None
            ==> task_json(messages.push(message), restored) == task_json(messages, restored),
{
    lemma_task_json_push(messages, restored, message);
    if message.message == Some(MessageTypeView::Other(other)) || message.message is None {
        assert(task_json(messages.push(message), restored) =~= task_json(messages, restored));
    }
}

/// Every call of an offered tool that a task keeps is shown, as one message of the
/// assistant with the identifier of the call, the name of the tool and its arguments as
/// JSON. A call of another tool, or of none, is not shown.
pub proof fn law_kept_calls_are_shown(
    messages: Seq<MessageView>,
    restored: Seq<Option<AIAgentInputView>>,
    message: MessageView,
    call: ToolCallView,
)
    requires
        message.message == Some(MessageTypeView::ToolCall(call)),
    ensures
        call.tool matches Some(ToolView::ReadFiles { files }) ==> task_json(
            messages.push(message),
            restored,
        ) == task_json(messages, restored).push(
            tool_call_json(
                call.tool_call_id,
                "read_files"@,
                json_text(
                    Json::Object(
                        map![
                            "paths"@ => Json::Array(
                                files.map_values(|file: FileView| Json::Str(file.name)),
                            ),
                        ],
                    ),
                ),
            ),
        ),
        call.tool matches Some(ToolView::FileGlobV2 { patterns, search_dir }) ==> task_json(
            messages.push(message),
            restored,
        ) == task_json(messages, restored).push(
            tool_call_json(
                call.tool_call_id,
                "file_glob"@,
                json_text(
                    Json::Object(
                        map![
                            "pattern"@ => Json::Str(
                                if patterns.len() > 0 {
                                    patterns[0]
                                } else {
                                    seq![]
                                },
                            ),
                            "path"@ => Json::Str(search_dir),
                        ],
                    ),
                ),
            ),
        ),
        call.tool matches Some(ToolView::Grep { queries, path }) ==> task_json(
            messages.push(message),
            restored,
        ) == task_json(messages, restored).push(
            tool_call_json(
                call.tool_call_id,
                "grep"@,
                json_text(
                    Json::Object(
                        map![
                            "query"@ => Json::Str(
                                if queries.len() > 0 {
                                    queries[0]
                                } else {
                                    seq![]
                                },
                            ),
                            "path"@ => Json::Str(path),
                        ],
                    ),
                ),
            ),
        ),
        call.tool matches Some(ToolView::RunShellCommand { command }) ==> task_json(
            messages.push(message),
            restored,
        ) == task_json(messages, restored).push(
            tool_call_json(
                call.tool_call_id,
                "run_shell_command"@,
                json_text(Json::Object(map!["command"@ => Json::Str(command)])),
            ),
        ),
        call.tool matches Some(ToolView::Other(_)) ==> task_json(messages.push(message), restored)
            == task_json(messages, restored),
        call.tool is None ==> task_json(messages.push(message), restored) == task_json(
            messages,
            restored,
        ),
{
    lemma_task_json_push(messages, restored, message);
    match call.tool {
        Some(ToolView::ReadFiles { files }) => {
            assert(Seq::new(files.len(), |i: int| Json::Str(files[i].name)) =~= files.map_values(
                |file: FileView| Json::Str(file.name),
            ));
        },
        Some(ToolView::Other(_)) | None => {
            assert(task_json(messages.push(message), restored) =~= task_json(messages, restored));
        },
        _ => {},
    }
}

/// Every result that a task keeps is shown, as one message of a tool that answers the
/// call of the result: in the words that it is restored to, or as unavailable where it
/// is restored to nothing that has words. The results are restored in their order.
pub proof fn law_kept_results_are_shown(
    messages: Seq<MessageView>,
    restored: Seq<Option<AIAgentInputView>>,
    message: MessageView,
    result: ToolCallResultView,
    input: Option<AIAgentInputView>,
)
    requires
        message.message == Some(MessageTypeView::ToolCallResult(result)),
        restored.len() == result_count(messages),
    ensures
        task_json(messages.push(message), restored.push(input)) == task_json(
            messages,
            restored,
        ).push(
            Json::Object(
                map![
                    "role"@ => Json::Str("tool"@),
                    "tool_call_id"@ => Json::Str(result.tool_call_id),
                    "content"@ => Json::Str(restored_content(input)),
                ],
            ),
        ),
        input matches Some(AIAgentInputView::ActionResult { result: action })
            ==> restored_content(input) == action.description,
        !(input matches Some(AIAgentInputView::ActionResult { .. })) ==> restored_content(input)
            == "Tool result unavailable."@,
{
    lemma_task_json_push(messages, restored.push(input), message);
    assert(restored.push(input) =~= restored + seq![input]);
    lemma_task_json_ignores_later(messages, restored, seq![input]);
}

/// Each message that brings the result of a tool call counts as one result, and no other
/// message does.
pub proof fn law_results_are_counted(messages: Seq<MessageView>, message: MessageView)
    ensures
        result_count(seq![]) == 0,
        message.message matches Some(MessageTypeView::ToolCallResult(_)) ==> is_tool_result(message)
            && result_count(messages.push(message)) == result_count(messages) + 1,
        !(message.message matches Some(MessageTypeView::ToolCallResult(_))) ==> !is_tool_result(
            message,
        ) && result_count(messages.push(message)) == result_count(messages),
{
    assert(messages.push(message).drop_last() =~= messages);
}

/// The results of the tasks are restored where each task has as many restored results as
/// results, and there is no list of restored results without a task.
pub proof fn law_restored_results_match_the_tasks(
    tasks: Seq<TaskView>,
    restored: Seq<Seq<Option<AIAgentInputView>>>,
    task: TaskView,
    results: Seq<Option<AIAgentInputView>>,
)
    ensures
        all_restored(seq![], restored) <==> restored.len() == 0,
        all_restored(tasks, restored) ==> (all_restored(tasks.push(task), restored.push(results))
            <==> results.len() == result_count(task.messages)),
        restored.len() == tasks.len() && !all_restored(tasks, restored) ==> !all_restored(
            tasks.push(task),
            restored.push(results),
        ),
        restored.len() != tasks.len() ==> !all_restored(tasks, restored),
{
    let more_tasks = tasks.push(task);
    let more = restored.push(results);
    if all_restored(tasks, restored) {
        assert(more[tasks.len() as int] == results);
        if results.len() == result_count(task.messages) {
            assert forall|i: int| 0 <= i < more_tasks.len() implies #[trigger] more[i].len()
                == result_count(more_tasks[i].messages) by {
                if i < tasks.len() {
                    assert(restored[i].len() == result_count(tasks[i].messages));
                }
            }
        }
    } else if restored.len() == tasks.len() {
        let i = choose|i: int|
            0 <= i < tasks.len() && #[trigger] restored[i].len() != result_count(tasks[i].messages);
        assert(more[i].len() != result_count(more_tasks[i].messages));
    }
}

/// The call that a result answers is the last call of the task with its identifier,
/// wherever in the task it is; there is none exactly where no call has the identifier.
pub proof fn law_last_call_with_the_identifier_counts(messages: Seq<MessageView>, id: Seq<char>)
    ensures
        forall|j: int, call: ToolCallView|
            0 <= j < messages.len() && (#[trigger] messages[j]).message == Some(
                MessageTypeView::ToolCall(call),
            ) && call.tool_call_id == id && (forall|k: int|
                j < k < messages.len() ==> !((#[trigger] messages[k]).message matches Some(
                    MessageTypeView::ToolCall(later),
                ) && later.tool_call_id == id)) ==> #[trigger] tool_calls_by_id(
                messages,
            ).contains_pair(id, call),
        tool_calls_by_id(messages).contains_key(id) <==> exists|j: int|
            0 <= j < messages.len() && ((#[trigger] messages[j]).message matches Some(
                MessageTypeView::ToolCall(call),
            ) && call.tool_call_id == id),
    decreases messages.len(),
{
    if messages.len() > 0 {
        let earlier = messages.drop_last();
        let n = messages.len() - 1;
        law_last_call_with_the_identifier_counts(earlier, id);
        assert(messages.last() == messages[n]);
        assert forall|j: int| 0 <= j < n implies #[trigger] earlier[j] == messages[j] by {}
        assert forall|j: int, call: ToolCallView|
            0 <= j < messages.len() && (#[trigger] messages[j]).message == Some(
                MessageTypeView::ToolCall(call),
            ) && call.tool_call_id == id && (forall|k: int|
                j < k < messages.len() ==> !((#[trigger] messages[k]).message matches Some(
                    MessageTypeView::ToolCall(later),
                ) && later.tool_call_id == id)) implies #[trigger] tool_calls_by_id(
            messages,
        ).contains_pair(id, call) by {
            if j < n {
                assert(earlier[j].message == Some(MessageTypeView::ToolCall(call)));
                assert forall|k: int| j < k < earlier.len() implies !((
                #[trigger] earlier[k]).message matches Some(MessageTypeView::ToolCall(later))
                    && later.tool_call_id == id) by {
                    assert(earlier[k] == messages[k]);
                }
                assert(tool_calls_by_id(earlier).contains_pair(id, call));
            }
        }
        if tool_calls_by_id(messages).contains_key(id) && tool_calls_by_id(earlier).contains_key(
            id,
        ) {
            let j = choose|j: int|
                0 <= j < earlier.len() && ((#[trigger] earlier[j]).message matches Some(
                    MessageTypeView::ToolCall(call),
                ) && call.tool_call_id == id);
            assert(messages[j] == earlier[j]);
        }
        if exists|j: int|
            0 <= j < messages.len() && ((#[trigger] messages[j]).message matches Some(
                MessageTypeView::ToolCall(call),
            ) && call.tool_call_id == id) {
            let j = choose|j: int|
                0 <= j < messages.len() && ((#[trigger] messages[j]).message matches Some(
                    MessageTypeView::ToolCall(call),
                ) && call.tool_call_id == id);
            if j < n {
                assert(earlier[j] == messages[j]);
            }
        }
    }
}

/// A message that a model is not shown: one without content or of another kind, and a
/// call of a tool that it is not offered.
pub open spec fn is_hidden(message: MessageView) -> bool {
    match message.message {
        None => true,
        Some(MessageTypeView::Other(_)) => true,
        Some(MessageTypeView::ToolCall(call)) => call.tool is None || call.tool->0 is Other,
        _ => false,
    }
}

/// Nothing is shown of a task exactly where all its messages are hidden.
proof fn lemma_hidden_messages(
    messages: Seq<MessageView>,
    restored: Seq<Option<AIAgentInputView>>,
)
    ensures
        task_json(messages, restored).len() == 0 <==> forall|i: int|
            0 <= i < messages.len() ==> is_hidden(#[trigger] messages[i]),
    decreases messages.len(),
{
    if messages.len() > 0 {
        let earlier = messages.drop_last();
        lemma_hidden_messages(earlier, restored);
        assert(messages.last() == messages[messages.len() - 1]);
        assert forall|i: int| 0 <= i < earlier.len() implies #[trigger] earlier[i]
            == messages[i] by {}
        if task_json(messages, restored).len() == 0 {
            assert forall|i: int| 0 <= i < messages.len() implies is_hidden(
                #[trigger] messages[i],
            ) by {
                if i < earlier.len() {
                    assert(is_hidden(earlier[i]));
                }
            }
        }
    }
}

/// Nothing is shown of tasks exactly where nothing is shown of each.
proof fn lemma_hidden_tasks(
    tasks: Seq<TaskView>,
    restored: Seq<Seq<Option<AIAgentInputView>>>,
)
    ensures
        tasks_json(tasks, restored).len() == 0 <==> forall|i: int, j: int|
            0 <= i < tasks.len() && 0 <= j < tasks[i].messages.len() ==> is_hidden(
                #[trigger] tasks[i].messages[j],
            ),
    decreases tasks.len(),
{
    if tasks.len() > 0 {
        let earlier = tasks.drop_last();
        let n = tasks.len() - 1;
        lemma_hidden_tasks(earlier, restored);
        lemma_hidden_messages(tasks.last().messages, restored[n]);
        assert(tasks.last() == tasks[n]);
        assert forall|i: int, j: int|
            0 <= i < earlier.len() && 0 <= j < earlier[i].messages.len() implies
            #[trigger] earlier[i].messages[j] == tasks[i].messages[j] by {}
        if tasks_json(tasks, restored).len() == 0 {
            assert forall|i: int, j: int|
                0 <= i < tasks.len() && 0 <= j < tasks[i].messages.len() implies is_hidden(
                #[trigger] tasks[i].messages[j],
            ) by {
                if i < earlier.len() {
                    assert(is_hidden(earlier[i].messages[j]));
                }
            }
        }
    }
}

/// Nothing is shown of inputs exactly where they are all of another kind.
proof fn lemma_hidden_inputs(inputs: Seq<AIAgentInputView>)
    ensures
        inputs_json(inputs).len() == 0 <==> forall|i: int|
            0 <= i < inputs.len() ==> #[trigger] inputs[i] is Other,
    decreases inputs.len(),
{
    if inputs.len() > 0 {
        let earlier = inputs.drop_last();
        lemma_hidden_inputs(earlier);
        assert(inputs.last() == inputs[inputs.len() - 1]);
        if inputs_json(inputs).len() == 0 {
            assert forall|i: int| 0 <= i < inputs.len() implies #[trigger] inputs[i] is Other by {
                if i < earlier.len() {
                    assert(earlier[i] is Other);
                }
            }
        }
    }
}

/// A conversation shows nothing but its first message exactly where no task keeps a
/// message that is shown and no input is a query or a result.
pub proof fn law_nothing_but_the_prompt_is_shown(
    params: RequestParamsView,
    restored: Seq<Seq<Option<AIAgentInputView>>>,
)
    ensures
        conversation_json(params, restored).len() == 1 <==> {
            &&& forall|i: int, j: int|
                0 <= i < params.tasks.len() && 0 <= j < params.tasks[i].messages.len()
                    ==> is_hidden(#[trigger] params.tasks[i].messages[j])
            &&& forall|i: int| 0 <= i < params.input.len() ==> #[trigger] params.input[i] is Other
        },
{
    lemma_hidden_tasks(params.tasks, restored);
    lemma_hidden_inputs(params.input);
}

} // verus!

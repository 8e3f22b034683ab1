//! The events that answer a request: what the request said is kept in the task, and
//! what the model said follows it.
use crate::api::{
    Action, ActionView, ClientAction, ClientActionView, EventType, EventTypeView, FinishReason,
    Message, MessageResult, MessageResultView, MessageType, MessageTypeView, MessageView,
    ResponseEvent, ResponseEventView, Task, TaskView, ToolCallResult, ToolCallResultView,
};
use crate::ids::{is_random_uuid, IdSource};
use crate::params::{
    AIAgentActionId, AIAgentActionResultView, AIAgentInput, AIAgentInputView, RequestInput,
    RequestInputView, RequestParams, RequestParamsView, RequestResult, RequestResultView,
};
use vstd::prelude::*;

verus! {

/// The identifier of the action whose result an input brings.
pub open spec fn result_id_spec(input: AIAgentInputView) -> Option<Seq<char>> {
    match input {
        AIAgentInputView::ActionResult { result } => Some(result.id),
        _ => None,
    }
}

/// The form in which a task keeps the result of a tool; `None` of a tool that is not
/// offered to a local model.
pub open spec fn persisted_result(result: RequestResultView) -> Option<MessageResultView> {
    match result {
        RequestResultView::RunShellCommand(r) => Some(MessageResultView::RunShellCommand(r)),
        RequestResultView::ReadFiles(r) => Some(MessageResultView::ReadFiles(r)),
        RequestResultView::Grep(r) => Some(MessageResultView::Grep(r)),
        RequestResultView::FileGlob(r) => Some(MessageResultView::FileGlob(r)),
        RequestResultView::FileGlobV2(r) => Some(MessageResultView::FileGlobV2(r)),
        RequestResultView::Other(_) => None,
    }
}

/// The message by which a task keeps an input; `None` of an input that is not kept.
pub open spec fn persisted_input(input: AIAgentInputView) -> Option<MessageTypeView> {
    match input {
        AIAgentInputView::UserQuery { query } => Some(MessageTypeView::UserQuery { query }),
        AIAgentInputView::ActionResult { result } => match result.request_input {
            Some(RequestInputView::ToolCallResult { result: Some(tool_result) }) => match persisted_result(
                tool_result,
            ) {
                Some(kept) => Some(
                    MessageTypeView::ToolCallResult(
                        ToolCallResultView {
                            tool_call_id: result.id,
                            context: None,
                            result: Some(kept),
                        },
                    ),
                ),
                None => None,
            },
            _ => None,
        },
        AIAgentInputView::Other => None,
    }
}

/// The messages by which a task keeps a list of inputs, in order.
pub open spec fn persisted_inputs(inputs: Seq<AIAgentInputView>) -> Seq<MessageTypeView>
    decreases inputs.len(),
{
    if inputs.len() == 0 {
        seq![]
    } else {
        let kept = persisted_inputs(inputs.drop_last());
        match persisted_input(inputs.last()) {
            Some(message) => kept.push(message),
            None => kept,
        }
    }
}

/// The messages with their identifiers and the task and request that they belong to.
pub open spec fn stamped(
    messages: Seq<MessageTypeView>,
    message_ids: Seq<Seq<char>>,
    task_id: Seq<char>,
    request_id: Seq<char>,
) -> Seq<MessageView> {
    Seq::new(
        messages.len(),
        |i: int|
            MessageView { id: message_ids[i], task_id, request_id, message: Some(messages[i]) },
    )
}

/// The identifiers that a stream of events is made with.
#[derive(Debug)]
pub struct EventIds {
    pub request_id: String,
    /// Taken where the request does not say which conversation it belongs to.
    pub conversation_id: String,
    /// Taken where the request does not say which task it belongs to.
    pub task_id: String,
    /// One identifier for each message that is added to the task.
    pub message_ids: Vec<String>,
}

#[verifier::ext_equal]
pub struct EventIdsView {
    pub request_id: Seq<char>,
    pub conversation_id: Seq<char>,
    pub task_id: Seq<char>,
    pub message_ids: Seq<Seq<char>>,
}

impl DeepView for EventIds {
    type V = EventIdsView;

    open spec fn deep_view(&self) -> EventIdsView {
        EventIdsView {
            request_id: self.request_id@,
            conversation_id: self.conversation_id@,
            task_id: self.task_id@,
            message_ids: self.message_ids.deep_view(),
        }
    }
}

/// The conversation that the events belong to.
pub open spec fn conversation_of(params: RequestParamsView, ids: EventIdsView) -> Seq<char> {
    match params.conversation_token {
        Some(token) => token,
        None => ids.conversation_id,
    }
}

/// The task that the messages go to: the one that the request names, else the first
/// task of the conversation, else a new one.
pub open spec fn task_of(params: RequestParamsView, ids: EventIdsView) -> Seq<char> {
    match params.local_task_id {
        Some(id) => id,
        None => if params.tasks.len() > 0 {
            params.tasks[0].id
        } else {
            ids.task_id
        },
    }
}

/// The messages that a request adds to its task.
pub open spec fn added_messages(
    params: RequestParamsView,
    message: MessageTypeView,
    ids: EventIdsView,
) -> Seq<MessageView> {
    stamped(
        persisted_inputs(params.input).push(message),
        ids.message_ids,
        task_of(params, ids),
        ids.request_id,
    )
}

/// The task that is made for a conversation without tasks.
pub open spec fn new_task(id: Seq<char>) -> TaskView {
    TaskView {
        id,
        messages: seq![],
        dependencies: None,
        description: seq![],
        summary: seq![],
        server_data: seq![],
    }
}

/// The changes that the client makes to its conversation.
pub open spec fn client_actions(
    params: RequestParamsView,
    message: MessageTypeView,
    ids: EventIdsView,
) -> Seq<ClientActionView> {
    let add = ClientActionView {
        action: Some(
            ActionView::AddMessagesToTask {
                task_id: task_of(params, ids),
                messages: added_messages(params, message, ids),
            },
        ),
    };
    if params.tasks.len() == 0 {
        let create = ClientActionView {
            action: Some(ActionView::CreateTask { task: Some(new_task(task_of(params, ids))) }),
        };
        seq![create, add]
    } else {
        seq![add]
    }
}

/// The events that answer a request with a message of the model.
pub open spec fn events_for(
    params: RequestParamsView,
    message: MessageTypeView,
    ids: EventIdsView,
) -> Seq<ResponseEventView> {
    seq![
        ResponseEventView {
            event_type: Some(
                EventTypeView::Init {
                    conversation_id: conversation_of(params, ids),
                    request_id: ids.request_id,
                    run_id: seq![],
                },
            ),
        },
        ResponseEventView {
            event_type: Some(
                EventTypeView::ClientActions { actions: client_actions(params, message, ids) },
            ),
        },
        ResponseEventView {
            event_type: Some(EventTypeView::Finished { reason: Some(FinishReason::Done) }),
        },
    ]
}

/// Identifiers that were all drawn at random, one for each of `count` messages.
pub open spec fn drawn_ids(ids: EventIdsView, count: nat) -> bool {
    &&& is_random_uuid(ids.request_id)
    &&& is_random_uuid(ids.conversation_id)
    &&& is_random_uuid(ids.task_id)
    &&& ids.message_ids.len() == count
    &&& forall|i: int| 0 <= i < count ==> is_random_uuid(#[trigger] ids.message_ids[i])
}

/// The identifiers in the order in which they are drawn.
pub open spec fn id_record(ids: EventIdsView) -> Seq<Seq<char>> {
    seq![ids.request_id, ids.conversation_id, ids.task_id] + ids.message_ids
}

/// Whether the events answer a request with a message of the model, under identifiers
/// that were drawn for them: each by a draw of its own, between the two records.
pub open spec fn answered_with(
    events: Seq<ResponseEventView>,
    params: RequestParamsView,
    message: MessageTypeView,
    drawn_before: Seq<Seq<char>>,
    drawn_after: Seq<Seq<char>>,
) -> bool {
    exists|ids: EventIdsView|
        {
            &&& drawn_ids(ids, persisted_inputs(params.input).len() + 1)
            &&& drawn_after == drawn_before + id_record(ids)
            &&& events == #[trigger] events_for(params, message, ids)
        }
}

/// The identifier of the action whose result the input brings.
pub fn result_id(input: &AIAgentInput) -> (id: Option<&AIAgentActionId>)
    ensures
        id.deep_view() == result_id_spec(input.deep_view()),
{
    match input {
        AIAgentInput::ActionResult { result } => Some(&result.id),
        _ => None,
    }
}

/// The message by which a task keeps the input, if it does.
pub fn persisted_input_message(input: &AIAgentInput) -> (message: Option<MessageType>)
    ensures
        message.deep_view() == persisted_input(input.deep_view()),
{
    let result = match input {
        AIAgentInput::ActionResult { result } => result,
        AIAgentInput::UserQuery { query } => {
            return Some(MessageType::UserQuery { query: query.clone() });
        },
        AIAgentInput::Other => {
            return None;
        },
    };
    let tool_result = match &result.request_input {
        Some(RequestInput::ToolCallResult { result: Some(tool_result) }) => tool_result,
        _ => {
            return None;
        },
    };
    let kept = match tool_result {
        RequestResult::RunShellCommand(r) => MessageResult::RunShellCommand(r.clone()),
        RequestResult::ReadFiles(r) => MessageResult::ReadFiles(r.clone()),
        RequestResult::Grep(r) => MessageResult::Grep(r.clone()),
        RequestResult::FileGlob(r) => MessageResult::FileGlob(r.clone()),
        RequestResult::FileGlobV2(r) => MessageResult::FileGlobV2(r.clone()),
        RequestResult::Other(_) => {
            return None;
        },
    };
    match result_id(input) {
        Some(id) => Some(
            MessageType::ToolCallResult(
                ToolCallResult {
                    tool_call_id: id.value.clone(),
                    context: None,
                    result: Some(kept),
                },
            ),
        ),
        None => None,
    }
}

/// No more messages are kept of the first inputs than of all of them.
proof fn lemma_persisted_prefix(inputs: Seq<AIAgentInputView>, n: int)
    requires
        0 <= n <= inputs.len(),
    ensures
        persisted_inputs(inputs.take(n)).len() <= persisted_inputs(inputs).len(),
    decreases inputs.len(),
{
    if n < inputs.len() {
        lemma_persisted_prefix(inputs.drop_last(), n);
        assert(inputs.drop_last().take(n) =~= inputs.take(n));
    } else {
        assert(inputs.take(n) =~= inputs);
    }
}

/// A message more is a stamped message more.
proof fn lemma_stamped_push(
    messages: Seq<MessageTypeView>,
    message: MessageTypeView,
    message_ids: Seq<Seq<char>>,
    task_id: Seq<char>,
    request_id: Seq<char>,
)
    ensures
        stamped(messages.push(message), message_ids, task_id, request_id) == stamped(
            messages,
            message_ids,
            task_id,
            request_id,
        ).push(
            MessageView {
                id: message_ids[messages.len() as int],
                task_id,
                request_id,
                message: Some(message),
            },
        ),
{
    assert(stamped(messages.push(message), message_ids, task_id, request_id) =~= stamped(
        messages,
        message_ids,
        task_id,
        request_id,
    ).push(
        MessageView {
            id: message_ids[messages.len() as int],
            task_id,
            request_id,
            message: Some(message),
        },
    ));
}

/// The events that answer the request with the message, made with the identifiers.
pub fn message_events_with_ids(
    params: &RequestParams,
    message_type: MessageType,
    ids: EventIds,
) -> (events: Vec<ResponseEvent>)
    requires
        ids.message_ids@.len() == persisted_inputs(params.input.deep_view()).len() + 1,
    ensures
        events.deep_view() == events_for(
            params.deep_view(),
            message_type.deep_view(),
            ids.deep_view(),
        ),
{
    let conversation_id: String = match &params.conversation_token {
        Some(token) => token.clone(),
        None => ids.conversation_id.clone(),
    };
    let task_id: String = match &params.local_task_id {
        Some(id) => id.clone(),
        None => if params.tasks.len() > 0 {
            params.tasks[0].id.clone()
        } else {
            ids.task_id.clone()
        },
    };
    let ghost inputs = params.input.deep_view();
    let ghost id_views = ids.message_ids.deep_view();
    let mut messages: Vec<Message> = Vec::new();
    let mut i: usize = 0;
    assert(inputs.take(0) =~= seq![]);
    assert(messages.deep_view() =~= stamped(seq![], id_views, task_id@, ids.request_id@));
    while i < params.input.len()
        invariant
            i <= params.input.len(),
            inputs == params.input.deep_view(),
            id_views == ids.message_ids.deep_view(),
            ids.message_ids@.len() == persisted_inputs(inputs).len() + 1,
            messages.deep_view() == stamped(
                persisted_inputs(inputs.take(i as int)),
                id_views,
                task_id@,
                ids.request_id@,
            ),
        decreases params.input.len() - i,
    {
        proof {
            lemma_persisted_prefix(inputs, i + 1);
            assert(inputs.take(i + 1).drop_last() =~= inputs.take(i as int));
            assert(messages.deep_view().len() == messages@.len());
        }
        let ghost before = messages.deep_view();
        match persisted_input_message(&params.input[i]) {
            Some(message) => {
                proof {
                    lemma_stamped_push(
                        persisted_inputs(inputs.take(i as int)),
                        message.deep_view(),
                        id_views,
                        task_id@,
                        ids.request_id@,
                    );
                }
                let stamped_message = Message {
                    id: ids.message_ids[messages.len()].clone(),
                    task_id: task_id.clone(),
                    request_id: ids.request_id.clone(),
                    message: Some(message),
                };
                let ghost last = stamped_message.deep_view();
                messages.push(stamped_message);
                assert(messages.deep_view() =~= before.push(last));
            },
            None => {},
        }
        i = i + 1;
    }
    assert(inputs.take(i as int) =~= inputs);
    assert(messages.deep_view().len() == messages@.len());
    let ghost message_view = message_type.deep_view();
    let ghost before = messages.deep_view();
    proof {
        lemma_stamped_push(
            persisted_inputs(inputs),
            message_view,
            id_views,
            task_id@,
            ids.request_id@,
        );
    }
    let stamped_message = Message {
        id: ids.message_ids[messages.len()].clone(),
        task_id: task_id.clone(),
        request_id: ids.request_id.clone(),
        message: Some(message_type),
    };
    let ghost last = stamped_message.deep_view();
    messages.push(stamped_message);
    assert(messages.deep_view() =~= before.push(last));
    let mut actions: Vec<ClientAction> = Vec::new();
    if params.tasks.len() == 0 {
        let task = Task {
            id: task_id.clone(),
            messages: Vec::new(),
            dependencies: None,
            description: String::new(),
            summary: String::new(),
            server_data: String::new(),
        };
        assert(task.deep_view() =~~= new_task(task_id@));
        actions.push(ClientAction { action: Some(Action::CreateTask { task: Some(task) }) });
    }
    actions.push(ClientAction { action: Some(Action::AddMessagesToTask { task_id, messages }) });
    assert(actions.deep_view() =~= client_actions(
        params.deep_view(),
        message_view,
        ids.deep_view(),
    ));
    let run_id = String::new();
    assert(run_id@ =~= seq![]);
    let events = vec![
        ResponseEvent {
            event_type: Some(
                EventType::Init { conversation_id, request_id: ids.request_id.clone(), run_id },
            ),
        },
        ResponseEvent { event_type: Some(EventType::ClientActions { actions }) },
        ResponseEvent {
            event_type: Some(EventType::Finished { reason: Some(FinishReason::Done) }),
        },
    ];
    assert(events.deep_view() =~= events_for(params.deep_view(), message_view, ids.deep_view()));
    events
}

/// The number of messages by which the task keeps the inputs of the request.
fn persisted_count(params: &RequestParams) -> (count: usize)
    ensures
        count == persisted_inputs(params.input.deep_view()).len(),
        count <= params.input@.len(),
{
    let ghost inputs = params.input.deep_view();
    let mut count: usize = 0;
    let mut i: usize = 0;
    assert(inputs.take(0) =~= seq![]);
    while i < params.input.len()
        invariant
            i <= params.input.len(),
            inputs == params.input.deep_view(),
            count <= i,
            count == persisted_inputs(inputs.take(i as int)).len(),
        decreases params.input.len() - i,
    {
        assert(inputs.take(i + 1).drop_last() =~= inputs.take(i as int));
        if persisted_input_message(&params.input[i]).is_some() {
            count = count + 1;
        }
        i = i + 1;
    }
    assert(inputs.take(i as int) =~= inputs);
    count
}

/// The events that answer the request with the message, under identifiers drawn for it.
pub fn message_events(
    params: &RequestParams,
    message_type: MessageType,
    source: &mut IdSource,
) -> (events: Vec<ResponseEvent>)
    ensures
        answered_with(
            events.deep_view(),
            params.deep_view(),
            message_type.deep_view(),
            old(source).drawn(),
            final(source).drawn(),
        ),
{
    let count = persisted_count(params);
    let ghost before = source.drawn();
    let request_id = source.draw();
    let conversation_id = source.draw();
    let task_id = source.draw();
    let ghost first = source.drawn();
    let mut message_ids: Vec<String> = Vec::new();
    message_ids.push(source.draw());
    assert(source.drawn() =~= first + message_ids.deep_view());
    while message_ids.len() <= count
        invariant
            1 <= message_ids@.len() <= count + 1,
            source.drawn() == first + message_ids.deep_view(),
            forall|i: int|
                0 <= i < message_ids@.len() ==> is_random_uuid(#[trigger] message_ids@[i]@),
        decreases count + 1 - message_ids@.len(),
    {
        let ghost earlier = message_ids.deep_view();
        let id = source.draw();
        message_ids.push(id);
        assert(message_ids.deep_view() =~= earlier.push(id@));
        assert(source.drawn() =~= first + message_ids.deep_view());
    }
    let ids = EventIds { request_id, conversation_id, task_id, message_ids };
    let ghost message_view = message_type.deep_view();
    assert(drawn_ids(ids.deep_view(), (count + 1) as nat));
    assert(source.drawn() =~= before + id_record(ids.deep_view()));
    let events = message_events_with_ids(params, message_type, ids);
    assert(events.deep_view() == events_for(params.deep_view(), message_view, ids.deep_view()));
    events
}

/// The events that answer the request with a text of the model.
pub fn response_events(params: &RequestParams, text: String, source: &mut IdSource) -> (events: Vec<
    ResponseEvent,
>)
    ensures
        answered_with(
            events.deep_view(),
            params.deep_view(),
            MessageTypeView::AgentOutput { text: text@ },
            old(source).drawn(),
            final(source).drawn(),
        ),
{
    message_events(params, MessageType::AgentOutput { text }, source)
}

// ---------------------------------------------------------------------------
// Laws

/// A stream opens by naming its request and its conversation, brings one set of changes,
/// and ends as done.
pub proof fn law_stream_is_framed(
    params: RequestParamsView,
    message: MessageTypeView,
    ids: EventIdsView,
)
    ensures
        events_for(params, message, ids).len() == 3,
        events_for(params, message, ids)[0].event_type matches Some(
            EventTypeView::Init { conversation_id, request_id, .. },
        ) && request_id == ids.request_id && conversation_id == conversation_of(params, ids),
        events_for(params, message, ids)[1].event_type is Some,
        events_for(params, message, ids)[1].event_type->0 is ClientActions,
        events_for(params, message, ids)[2].event_type == Some(
            EventTypeView::Finished { reason: Some(FinishReason::Done) },
        ),
{
}

/// Every message that is added goes to the task that the request names, under the
/// request that the stream opens with.
pub proof fn law_added_messages_belong_together(
    params: RequestParamsView,
    message: MessageTypeView,
    ids: EventIdsView,
    i: int,
)
    requires
        0 <= i < added_messages(params, message, ids).len(),
    ensures
        added_messages(params, message, ids)[i].task_id == task_of(params, ids),
        added_messages(params, message, ids)[i].request_id == ids.request_id,
        params.local_task_id matches Some(id) ==> added_messages(params, message, ids)[i].task_id
            == id,
{
}

/// The stream opens with the conversation that the request names, or with one that was
/// drawn at random.
pub proof fn law_conversation_is_named_or_drawn(
    params: RequestParamsView,
    message: MessageTypeView,
    ids: EventIdsView,
)
    requires
        drawn_ids(ids, persisted_inputs(params.input).len() + 1),
    ensures
        events_for(params, message, ids)[0].event_type matches Some(
            EventTypeView::Init { conversation_id, .. },
        ) && match params.conversation_token {
            Some(token) => conversation_id == token,
            None => is_random_uuid(conversation_id),
        },
{
}

/// Where the identifiers that a stream is made with differ, so do those of its messages,
/// and every message carries the request that the stream opens with.
pub proof fn law_messages_have_ids_of_their_own(
    params: RequestParamsView,
    message: MessageTypeView,
    ids: EventIdsView,
)
    requires
        ids.message_ids.len() == persisted_inputs(params.input).len() + 1,
        ids.message_ids.no_duplicates(),
    ensures
        forall|i: int, j: int|
            0 <= i < j < added_messages(params, message, ids).len() ==> (
            #[trigger] added_messages(params, message, ids)[i]).id != (#[trigger] added_messages(
                params,
                message,
                ids,
            )[j]).id,
        forall|i: int|
            0 <= i < added_messages(params, message, ids).len() ==> events_for(
                params,
                message,
                ids,
            )[0].event_type->0->request_id == (#[trigger] added_messages(params, message, ids)[i]).request_id,
{
}

/// Where no two draws coincide, no two identifiers of a stream do.
pub proof fn law_distinct_draws_give_distinct_ids(drawn_before: Seq<Seq<char>>, ids: EventIdsView)
    requires
        (drawn_before + id_record(ids)).no_duplicates(),
    ensures
        ids.message_ids.no_duplicates(),
        !ids.message_ids.contains(ids.request_id),
        !ids.message_ids.contains(ids.task_id),
        ids.request_id != ids.conversation_id,
        ids.request_id != ids.task_id,
        ids.conversation_id != ids.task_id,
{
    let record = drawn_before + id_record(ids);
    let n = drawn_before.len() as int;
    assert(record[n] == ids.request_id);
    assert(record[n + 1] == ids.conversation_id);
    assert(record[n + 2] == ids.task_id);
    assert forall|i: int| 0 <= i < ids.message_ids.len() implies #[trigger] ids.message_ids[i]
        == record[n + 3 + i] by {}
    assert forall|i: int, j: int|
        0 <= i < ids.message_ids.len() && 0 <= j < ids.message_ids.len() && i
            != j implies ids.message_ids[i] != ids.message_ids[j] by {
        assert(record[n + 3 + i] != record[n + 3 + j]);
    }
}

/// Where no two draws from a source coincide, two calls that draw from it answer under
/// different request identifiers.
pub proof fn law_calls_are_told_apart(
    drawn_before: Seq<Seq<char>>,
    first_ids: EventIdsView,
    drawn_between: Seq<Seq<char>>,
    second_ids: EventIdsView,
)
    requires
        (drawn_before + id_record(first_ids) + drawn_between + id_record(
            second_ids,
        )).no_duplicates(),
    ensures
        first_ids.request_id != second_ids.request_id,
{
    let record = drawn_before + id_record(first_ids) + drawn_between + id_record(second_ids);
    let n = drawn_before.len() as int;
    let m = (drawn_before + id_record(first_ids) + drawn_between).len() as int;
    assert(record[n] == first_ids.request_id);
    assert(record[m] == second_ids.request_id);
}

/// Of two streams that are made with different request identifiers, each opens with its
/// own.
pub proof fn law_streams_are_told_apart(
    first_params: RequestParamsView,
    first_message: MessageTypeView,
    first_ids: EventIdsView,
    second_params: RequestParamsView,
    second_message: MessageTypeView,
    second_ids: EventIdsView,
)
    requires
        first_ids.request_id != second_ids.request_id,
    ensures
        events_for(first_params, first_message, first_ids)[0].event_type->0->request_id
            != events_for(second_params, second_message, second_ids)[0].event_type->0->request_id,
{
}

/// What the model said comes last, after all that is kept of the inputs.
pub proof fn law_answer_comes_last(
    params: RequestParamsView,
    message: MessageTypeView,
    ids: EventIdsView,
)
    ensures
        added_messages(params, message, ids).len() == persisted_inputs(params.input).len() + 1,
        added_messages(params, message, ids).last().message == Some(message),
        forall|i: int|
            0 <= i < persisted_inputs(params.input).len() ==> (#[trigger] added_messages(
                params,
                message,
                ids,
            )[i]).message == Some(persisted_inputs(params.input)[i]),
{
}

/// The inputs are kept in their order.
pub proof fn law_inputs_are_kept_in_order(
    earlier: Seq<AIAgentInputView>,
    later: Seq<AIAgentInputView>,
)
    ensures
        persisted_inputs(earlier + later) == persisted_inputs(earlier) + persisted_inputs(later),
    decreases later.len(),
{
    if later.len() == 0 {
        assert(earlier + later =~= earlier);
        assert(persisted_inputs(earlier) + persisted_inputs(later) =~= persisted_inputs(earlier));
    } else {
        law_inputs_are_kept_in_order(earlier, later.drop_last());
        assert((earlier + later).drop_last() =~= earlier + later.drop_last());
        assert(persisted_inputs(earlier + later) =~= persisted_inputs(earlier) + persisted_inputs(
            later,
        ));
    }
}

/// Every query of the user is kept, before what the model said.
pub proof fn law_user_queries_are_kept(
    params: RequestParamsView,
    message: MessageTypeView,
    ids: EventIdsView,
    query: Seq<char>,
)
    requires
        params.input.contains(AIAgentInputView::UserQuery { query }),
    ensures
        exists|i: int|
            0 <= i < added_messages(params, message, ids).len() - 1 && (#[trigger] added_messages(
                params,
                message,
                ids,
            )[i]).message == Some(MessageTypeView::UserQuery { query }),
{
    let inputs = params.input;
    let k = choose|k: int|
        0 <= k < inputs.len() && inputs[k] == AIAgentInputView::UserQuery { query };
    let before = inputs.take(k);
    let from = inputs.skip(k + 1);
    let one = seq![inputs[k]];
    assert(inputs =~= (before + one) + from);
    law_inputs_are_kept_in_order(before + one, from);
    law_inputs_are_kept_in_order(before, one);
    assert(persisted_inputs(one.drop_last()) =~= seq![]);
    let n = persisted_inputs(before).len() as int;
    assert(persisted_inputs(one) =~= seq![MessageTypeView::UserQuery { query }]);
    assert(persisted_inputs(inputs)[n] == MessageTypeView::UserQuery { query });
    assert(added_messages(params, message, ids)[n].message == Some(
        MessageTypeView::UserQuery { query },
    ));
}

/// A task is made exactly for a conversation that has none; it is the one that the
/// messages then go to.
pub proof fn law_task_is_created_where_there_is_none(
    params: RequestParamsView,
    message: MessageTypeView,
    ids: EventIdsView,
)
    ensures
        ({
            let actions = client_actions(params, message, ids);
            let create = ClientActionView {
                action: Some(ActionView::CreateTask { task: Some(new_task(task_of(params, ids))) }),
            };
            let add = ClientActionView {
                action: Some(
                    ActionView::AddMessagesToTask {
                        task_id: task_of(params, ids),
                        messages: added_messages(params, message, ids),
                    },
                ),
            };
            &&& actions.contains(create) <==> params.tasks.len() == 0
            &&& actions[0] == create <==> params.tasks.len() == 0
            &&& actions.last() == add
        }),
{
    let actions = client_actions(params, message, ids);
    let create = ClientActionView {
        action: Some(ActionView::CreateTask { task: Some(new_task(task_of(params, ids))) }),
    };
    if params.tasks.len() == 0 {
        assert(actions[0] == create);
    }
}

/// The answer goes to the task that the request names; where it names none, to the first
/// task of the conversation; and where there is none, to the one that was drawn. The
/// change and every message in it carry that task.
pub proof fn law_answer_goes_to_the_named_first_or_new_task(
    params: RequestParamsView,
    message: MessageTypeView,
    ids: EventIdsView,
)
    ensures
        events_for(params, message, ids)[1].event_type matches Some(
            EventTypeView::ClientActions { actions },
        ) && actions.last().action matches Some(
            ActionView::AddMessagesToTask { task_id, messages },
        ) && {
            &&& params.local_task_id matches Some(id) ==> task_id == id
            &&& params.local_task_id is None && params.tasks.len() > 0 ==> task_id
                == params.tasks[0].id
            &&& params.local_task_id is None && params.tasks.len() == 0 ==> task_id == ids.task_id
            &&& forall|i: int|
                0 <= i < messages.len() ==> (#[trigger] messages[i]).task_id == task_id
        },
{
}

/// No answer is lost: the task that it goes to is named by the request, is one of the
/// conversation, or is created by the change just before.
pub proof fn law_answer_goes_to_a_known_task(
    params: RequestParamsView,
    message: MessageTypeView,
    ids: EventIdsView,
)
    ensures
        events_for(params, message, ids)[1].event_type matches Some(
            EventTypeView::ClientActions { actions },
        ) && actions.last().action matches Some(ActionView::AddMessagesToTask { task_id, .. }) && {
            ||| params.local_task_id == Some(task_id)
            ||| exists|i: int| 0 <= i < params.tasks.len() && (#[trigger] params.tasks[i]).id == task_id
            ||| actions[0].action matches Some(ActionView::CreateTask { task: Some(task) })
                && task.id == task_id
        },
{
    if params.local_task_id is None && params.tasks.len() > 0 {
        assert(params.tasks[0].id == task_of(params, ids));
    }
}

/// The changes are one: the messages are added. For a conversation without tasks they
/// are two: before that, the task is created, with nothing in it.
pub proof fn law_changes_of_a_stream(
    params: RequestParamsView,
    message: MessageTypeView,
    ids: EventIdsView,
)
    ensures
        events_for(params, message, ids)[1].event_type matches Some(
            EventTypeView::ClientActions { actions },
        ) && actions.last().action matches Some(ActionView::AddMessagesToTask { task_id, .. }) && {
            &&& params.tasks.len() > 0 ==> actions.len() == 1
            &&& params.tasks.len() == 0 ==> {
                &&& actions.len() == 2
                &&& actions[0].action matches Some(ActionView::CreateTask { task: Some(task) })
                &&& task.id == task_id
                &&& task.messages.len() == 0
                &&& task.dependencies is None
                &&& task.description.len() == 0
                &&& task.summary.len() == 0
                &&& task.server_data.len() == 0
            }
        },
{
}

/// The messages that are added are what is kept of the inputs, and then the answer; each
/// has the identifier that was drawn for it, and carries the request.
pub proof fn law_messages_of_a_stream(
    params: RequestParamsView,
    message: MessageTypeView,
    ids: EventIdsView,
)
    ensures
        events_for(params, message, ids)[1].event_type matches Some(
            EventTypeView::ClientActions { actions },
        ) && actions.last().action matches Some(ActionView::AddMessagesToTask { messages, .. }) && {
            let kept = persisted_inputs(params.input);
            &&& messages.len() == kept.len() + 1
            &&& messages.last().message == Some(message)
            &&& forall|i: int|
                0 <= i < kept.len() ==> (#[trigger] messages[i]).message == Some(kept[i])
            &&& forall|i: int|
                0 <= i < messages.len() ==> (#[trigger] messages[i]).id == ids.message_ids[i]
                    && messages[i].request_id == ids.request_id
        },
{
}

/// A stream opens with the request that was drawn, in the conversation that the request
/// names, or in one that was drawn where it names none; and it ends as done.
pub proof fn law_frame_of_a_stream(
    params: RequestParamsView,
    message: MessageTypeView,
    ids: EventIdsView,
)
    ensures
        events_for(params, message, ids).len() == 3,
        events_for(params, message, ids)[0].event_type matches Some(
            EventTypeView::Init { conversation_id, request_id, run_id },
        ) && {
            &&& params.conversation_token matches Some(token) ==> conversation_id == token
            &&& params.conversation_token is None ==> conversation_id == ids.conversation_id
            &&& request_id == ids.request_id
            &&& run_id.len() == 0
        },
        events_for(params, message, ids)[2].event_type == Some(
            EventTypeView::Finished { reason: Some(FinishReason::Done) },
        ),
{
}

/// An answer draws three identifiers and one for each message that it adds, and uses them
/// in that order: for the request, for a conversation and for a task where they are not
/// named, and for the messages.
pub proof fn law_answer_uses_what_it_draws(
    events: Seq<ResponseEventView>,
    params: RequestParamsView,
    message: MessageTypeView,
    drawn_before: Seq<Seq<char>>,
    drawn_after: Seq<Seq<char>>,
)
    requires
        answered_with(events, params, message, drawn_before, drawn_after),
    ensures
        drawn_after.len() == drawn_before.len() + persisted_inputs(params.input).len() + 4,
        drawn_after.take(drawn_before.len() as int) == drawn_before,
        forall|i: int|
            drawn_before.len() <= i < drawn_after.len() ==> is_random_uuid(
                #[trigger] drawn_after[i],
            ),
        events.len() == 3,
        events[0].event_type matches Some(
            EventTypeView::Init { conversation_id, request_id, run_id },
        ) && {
            &&& request_id == drawn_after[drawn_before.len() as int]
            &&& params.conversation_token matches Some(token) ==> conversation_id == token
            &&& params.conversation_token is None ==> conversation_id
                == drawn_after[drawn_before.len() + 1int]
            &&& run_id.len() == 0
        },
        events[1].event_type matches Some(EventTypeView::ClientActions { actions })
            && actions.last().action matches Some(
            ActionView::AddMessagesToTask { task_id, messages },
        ) && {
            &&& params.local_task_id matches Some(id) ==> task_id == id
            &&& params.local_task_id is None && params.tasks.len() > 0 ==> task_id
                == params.tasks[0].id
            &&& params.local_task_id is None && params.tasks.len() == 0 ==> task_id
                == drawn_after[drawn_before.len() + 2int]
            &&& messages.len() == persisted_inputs(params.input).len() + 1
            &&& messages.last().message == Some(message)
            &&& forall|i: int|
                0 <= i < persisted_inputs(params.input).len() ==> (#[trigger] messages[i]).message
                    == Some(persisted_inputs(params.input)[i])
            &&& forall|i: int|
                0 <= i < messages.len() ==> (#[trigger] messages[i]).id
                    == drawn_after[drawn_before.len() + 3 + i] && messages[i].task_id == task_id
                    && messages[i].request_id == drawn_after[drawn_before.len() as int]
            &&& params.tasks.len() > 0 ==> actions.len() == 1
            &&& params.tasks.len() == 0 ==> actions.len() == 2 && (actions[0].action matches Some(
                ActionView::CreateTask { task: Some(task) },
            ) && task.id == task_id)
        },
        events[2].event_type == Some(EventTypeView::Finished { reason: Some(FinishReason::Done) }),
{
    let n = drawn_before.len() as int;
    let ids = choose|ids: EventIdsView|
        {
            &&& drawn_ids(ids, persisted_inputs(params.input).len() + 1)
            &&& drawn_after == drawn_before + id_record(ids)
            &&& events == #[trigger] events_for(params, message, ids)
        };
    law_frame_of_a_stream(params, message, ids);
    law_messages_of_a_stream(params, message, ids);
    law_answer_goes_to_the_named_first_or_new_task(params, message, ids);
    assert(drawn_after.take(n) =~= drawn_before);
    assert forall|i: int| 0 <= i < ids.message_ids.len() implies #[trigger] ids.message_ids[i]
        == drawn_after[n + 3 + i] by {}
    assert forall|i: int| n <= i < drawn_after.len() implies is_random_uuid(
        #[trigger] drawn_after[i],
    ) by {
        if i >= n + 3 {
            assert(drawn_after[i] == ids.message_ids[i - n - 3]);
        }
    }
}

/// A request input that brings the result of a tool.
pub open spec fn tool_result(result: RequestResultView) -> Option<RequestInputView> {
    Some(RequestInputView::ToolCallResult { result: Some(result) })
}

/// A message that keeps the result of a tool under an identifier.
pub open spec fn kept_result(id: Seq<char>, result: MessageResultView) -> Option<MessageTypeView> {
    Some(
        MessageTypeView::ToolCallResult(
            ToolCallResultView { tool_call_id: id, context: None, result: Some(result) },
        ),
    )
}

/// A query is kept as it is; a result of a tool that is offered is kept as it is under
/// the identifier of its action; nothing else is kept.
pub proof fn law_what_is_kept_of_an_input(
    query: Seq<char>,
    result: AIAgentActionResultView,
    content: Seq<u8>,
)
    ensures
        persisted_input(AIAgentInputView::UserQuery { query }) == Some(
            MessageTypeView::UserQuery { query },
        ),
        persisted_input(AIAgentInputView::Other) is None,
        result.request_input == tool_result(RequestResultView::RunShellCommand(content))
            ==> persisted_input(AIAgentInputView::ActionResult { result }) == kept_result(
            result.id,
            MessageResultView::RunShellCommand(content),
        ),
        result.request_input == tool_result(RequestResultView::ReadFiles(content))
            ==> persisted_input(AIAgentInputView::ActionResult { result }) == kept_result(
            result.id,
            MessageResultView::ReadFiles(content),
        ),
        result.request_input == tool_result(RequestResultView::Grep(content)) ==> persisted_input(
            AIAgentInputView::ActionResult { result },
        ) == kept_result(result.id, MessageResultView::Grep(content)),
        result.request_input == tool_result(RequestResultView::FileGlob(content))
            ==> persisted_input(AIAgentInputView::ActionResult { result }) == kept_result(
            result.id,
            MessageResultView::FileGlob(content),
        ),
        result.request_input == tool_result(RequestResultView::FileGlobV2(content))
            ==> persisted_input(AIAgentInputView::ActionResult { result }) == kept_result(
            result.id,
            MessageResultView::FileGlobV2(content),
        ),
        result.request_input == tool_result(RequestResultView::Other(content)) ==> persisted_input(
            AIAgentInputView::ActionResult { result },
        ) is None,
        result.request_input == Some(RequestInputView::ToolCallResult { result: None })
            || result.request_input == Some(RequestInputView::Other) || result.request_input is None
            ==> persisted_input(AIAgentInputView::ActionResult { result }) is None,
{
}

/// Of one input there is kept what is kept of it, and of no inputs nothing; with the
/// order of the inputs this says what is kept of any.
pub proof fn law_what_is_kept_of_single_inputs(input: AIAgentInputView)
    ensures
        persisted_inputs(seq![]).len() == 0,
        persisted_input(input) matches Some(message) ==> persisted_inputs(seq![input]) == seq![
            message,
        ],
        persisted_input(input) is None ==> persisted_inputs(seq![input]).len() == 0,
{
    reveal_with_fuel(persisted_inputs, 2);
    assert(seq![input].drop_last() =~= seq![]);
    assert(persisted_inputs(seq![input].drop_last()) =~= seq![]);
    if persisted_input(input) is Some {
        assert(persisted_inputs(seq![input]) =~= seq![persisted_input(input)->0]);
    }
}

/// A result has the identifier of its action, and no other input has one.
pub proof fn law_only_results_have_an_identifier(
    result: AIAgentActionResultView,
    query: Seq<char>,
)
    ensures
        result_id_spec(AIAgentInputView::ActionResult { result }) == Some(result.id),
        result_id_spec(AIAgentInputView::UserQuery { query }) is None,
        result_id_spec(AIAgentInputView::Other) is None,
{
}

/// The view of identifiers has them all.
pub proof fn law_view_of_identifiers(ids: EventIds)
    ensures
        ids.deep_view().request_id == ids.request_id@,
        ids.deep_view().conversation_id == ids.conversation_id@,
        ids.deep_view().task_id == ids.task_id@,
        ids.deep_view().message_ids == ids.message_ids.deep_view(),
{
}

} // verus!

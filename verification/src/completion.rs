//! What a completion of a model becomes.
use crate::api::{MessageType, MessageTypeView, ResponseEvent, ResponseEventView};
use crate::error::{RunError, RunErrorView};
use crate::events::{answered_with, message_events};
use crate::ids::IdSource;
use crate::params::{RequestParams, RequestParamsView};
use crate::tools::{tool_call_message, tool_call_message_spec, OpenAIToolCall, OpenAIToolCallView};
use vstd::prelude::*;

verus! {

/// What the model said.
#[derive(Debug)]
pub struct ChatResponseMessage {
    pub content: Option<String>,
    pub tool_calls: Vec<OpenAIToolCall>,
}

#[verifier::ext_equal]
pub struct ChatResponseMessageView {
    pub content: Option<Seq<char>>,
    pub tool_calls: Seq<OpenAIToolCallView>,
}

impl DeepView for ChatResponseMessage {
    type V = ChatResponseMessageView;

    open spec fn deep_view(&self) -> ChatResponseMessageView {
        ChatResponseMessageView {
            content: self.content.deep_view(),
            tool_calls: self.tool_calls.deep_view(),
        }
    }
}

#[derive(Debug)]
pub struct ChatChoice {
    pub message: ChatResponseMessage,
}

impl DeepView for ChatChoice {
    type V = ChatResponseMessageView;

    open spec fn deep_view(&self) -> ChatResponseMessageView {
        self.message.deep_view()
    }
}

/// A completion: the choices that the model offers, of which the first is taken.
#[derive(Debug)]
pub struct ChatResponse {
    pub choices: Vec<ChatChoice>,
}

impl DeepView for ChatResponse {
    type V = Seq<ChatResponseMessageView>;

    open spec fn deep_view(&self) -> Seq<ChatResponseMessageView> {
        self.choices.deep_view()
    }
}

/// The text that `Display` of a `StatusCode` writes: the code and its reason.
pub uninterp spec fn status_display(code: u16) -> Seq<char>;

/// `reqwest::StatusCode::from_u16`, which takes the codes from 100 to 999, and `Display`
/// of the `StatusCode`: the text depends on the code alone.
#[verifier::external_body]
fn status_text(code: u16) -> (text: String)
    requires
        100 <= code <= 999,
    ensures
        text@ == status_display(code),
{
    reqwest::StatusCode::from_u16(code).unwrap().to_string()
}

/// Whether a status tells of success.
pub open spec fn is_success(status: u16) -> bool {
    200 <= status < 300
}

/// The message that a model made.
pub open spec fn choice_message(endpoint: Seq<char>, choice: ChatResponseMessageView) -> Result<
    MessageTypeView,
    RunErrorView,
> {
    if choice.tool_calls.len() > 1 {
        Err(RunErrorView::SeveralToolCalls)
    } else if choice.tool_calls.len() == 1 {
        match tool_call_message_spec(choice.tool_calls[0]) {
            Ok(message) => Ok(message),
            Err(error) => Err(RunErrorView::ToolCall(error)),
        }
    } else {
        match choice.content {
            Some(text) => if text.len() > 0 {
                Ok(MessageTypeView::AgentOutput { text })
            } else {
                Err(RunErrorView::EmptyResponse { endpoint })
            },
            None => Err(RunErrorView::EmptyResponse { endpoint }),
        }
    }
}

/// The message that the answer of an endpoint brings: `response` is the completion that
/// its body holds, if it holds one.
pub open spec fn completion_message_spec(
    endpoint: Seq<char>,
    status: u16,
    response: Option<Seq<ChatResponseMessageView>>,
) -> Result<MessageTypeView, RunErrorView> {
    if !is_success(status) {
        Err(RunErrorView::HttpStatus { endpoint, status: status_display(status) })
    } else {
        match response {
            None => Err(RunErrorView::InvalidResponse { endpoint }),
            Some(choices) => if choices.len() == 0 {
                Err(RunErrorView::NoChoices { endpoint })
            } else {
                choice_message(endpoint, choices[0])
            },
        }
    }
}

/// The message that the model made.
pub fn message_of_choice(endpoint: &str, choice: ChatResponseMessage) -> (message: Result<
    MessageType,
    RunError,
>)
    ensures
        match choice_message(endpoint@, choice.deep_view()) {
            Ok(expected) => message is Ok && message->Ok_0.deep_view() == expected,
            Err(error) => message is Err && message->Err_0.deep_view() == error,
        },
{
    let mut tool_calls = choice.tool_calls;
    assert(choice.deep_view().tool_calls.len() == tool_calls@.len());
    if tool_calls.len() > 1 {
        return Err(RunError::SeveralToolCalls);
    }
    match tool_calls.pop() {
        Some(call) => match tool_call_message(call) {
            Ok(message) => Ok(message),
            Err(error) => Err(RunError::ToolCall(error)),
        },
        None => match choice.content {
            Some(text) => if text.as_str().is_empty() {
                Err(RunError::EmptyResponse { endpoint: endpoint.to_owned() })
            } else {
                Ok(MessageType::AgentOutput { text })
            },
            None => Err(RunError::EmptyResponse { endpoint: endpoint.to_owned() }),
        },
    }
}

/// The message that the answer of the endpoint brings: `response` is the completion that
/// its body holds, if it holds one.
pub fn completion_message(endpoint: &str, status: u16, response: Option<ChatResponse>) -> (message:
    Result<MessageType, RunError>)
    requires
        100 <= status <= 999,
    ensures
        match completion_message_spec(endpoint@, status, response.deep_view()) {
            Ok(expected) => message is Ok && message->Ok_0.deep_view() == expected,
            Err(error) => message is Err && message->Err_0.deep_view() == error,
        },
{
    if !(200 <= status && status < 300) {
        return Err(
            RunError::HttpStatus { endpoint: endpoint.to_owned(), status: status_text(status) },
        );
    }
    match response {
        None => Err(RunError::InvalidResponse { endpoint: endpoint.to_owned() }),
        Some(response) => {
            let mut choices = response.choices;
            assert(response.deep_view().len() == choices@.len());
            if choices.len() == 0 {
                Err(RunError::NoChoices { endpoint: endpoint.to_owned() })
            } else {
                let choice = choices.remove(0);
                assert(response.deep_view()[0] == choice.deep_view());
                message_of_choice(endpoint, choice.message)
            }
        },
    }
}

/// The message that the answer of the endpoint of a request brings.
pub open spec fn answer_of_endpoint(
    params: RequestParamsView,
    status: u16,
    response: Option<Seq<ChatResponseMessageView>>,
) -> Result<MessageTypeView, RunErrorView> {
    match params.local_custom_endpoint {
        None => Err(RunErrorView::NoEndpoint),
        Some(endpoint) => completion_message_spec(endpoint.name, status, response),
    }
}

/// The events that answer the request once its endpoint has answered.
pub fn completion_events(
    params: &RequestParams,
    status: u16,
    response: Option<ChatResponse>,
    source: &mut IdSource,
) -> (events: Result<Vec<ResponseEvent>, RunError>)
    requires
        100 <= status <= 999,
    ensures
        match answer_of_endpoint(params.deep_view(), status, response.deep_view()) {
            Ok(message) => events is Ok && answered_with(
                events->Ok_0.deep_view(),
                params.deep_view(),
                message,
                old(source).drawn(),
                final(source).drawn(),
            ),
            Err(error) => {
                &&& events is Err
                &&& events->Err_0.deep_view() == error
                &&& final(source).drawn() == old(source).drawn()
            },
        },
{
    let endpoint = match &params.local_custom_endpoint {
        Some(endpoint) => endpoint,
        None => {
            return Err(RunError::NoEndpoint);
        },
    };
    match completion_message(endpoint.name.as_str(), status, response) {
        Ok(message) => Ok(message_events(params, message, source)),
        Err(error) => Err(error),
    }
}

/// The items of the stream that a run ends in: its events, or its error alone.
pub open spec fn stream_items_spec(outcome: Result<Seq<ResponseEventView>, RunErrorView>) -> Seq<
    Result<ResponseEventView, RunErrorView>,
> {
    match outcome {
        Ok(events) => Seq::new(events.len(), |i: int| Ok(events[i])),
        Err(error) => seq![Err(error)],
    }
}

/// A result over views.
pub open spec fn result_view<T: DeepView>(result: Result<T, RunError>) -> Result<
    T::V,
    RunErrorView,
> {
    match result {
        Ok(value) => Ok(value.deep_view()),
        Err(error) => Err(error.deep_view()),
    }
}

/// The items of the stream that the run ends in: its events, or its error alone.
pub fn stream_items(outcome: Result<Vec<ResponseEvent>, RunError>) -> (items: Vec<
    Result<ResponseEvent, RunError>,
>)
    ensures
        items@.map_values(|item: Result<ResponseEvent, RunError>| result_view(item))
            == stream_items_spec(result_view(outcome)),
{
    let ghost view = |item: Result<ResponseEvent, RunError>| result_view(item);
    let mut items: Vec<Result<ResponseEvent, RunError>> = Vec::new();
    match outcome {
        Ok(events) => {
            let ghost all = events@;
            for event in iter: events
                invariant
                    iter.seq() == all,
                    items@.len() == iter.index(),
                    forall|j: int| 0 <= j < items@.len() ==> #[trigger] items@[j] == Ok::<
                        ResponseEvent,
                        RunError,
                    >(all[j]),
            {
                items.push(Ok(event));
            }
            assert(items@.map_values(view) =~= stream_items_spec(result_view(outcome)));
        },
        Err(error) => {
            items.push(Err(error));
            assert(items@.map_values(view) =~= stream_items_spec(result_view(outcome)));
        },
    }
    items
}

/// A tool call goes before a text: a model that does both is answered by its call.
pub proof fn law_tool_call_goes_before_text(
    endpoint: Seq<char>,
    call: OpenAIToolCallView,
    content: Option<Seq<char>>,
)
    ensures
        choice_message(endpoint, ChatResponseMessageView { content, tool_calls: seq![call] })
            == choice_message(
            endpoint,
            ChatResponseMessageView { content: None, tool_calls: seq![call] },
        ),
{
}

/// Only the first choice counts.
pub proof fn law_first_choice_counts(
    endpoint: Seq<char>,
    status: u16,
    choices: Seq<ChatResponseMessageView>,
)
    requires
        choices.len() > 0,
    ensures
        completion_message_spec(endpoint, status, Some(choices)) == completion_message_spec(
            endpoint,
            status,
            Some(seq![choices[0]]),
        ),
{
}

/// A status that is no success is an error, whatever the body holds.
pub proof fn law_failed_status_is_an_error(
    endpoint: Seq<char>,
    status: u16,
    response: Option<Seq<ChatResponseMessageView>>,
)
    requires
        !is_success(status),
    ensures
        completion_message_spec(endpoint, status, response) == Err::<MessageTypeView, RunErrorView>(
            RunErrorView::HttpStatus { endpoint, status: status_display(status) },
        ),
{
}

/// A model that makes one tool call is answered by it, and one that makes several is
/// refused; one that makes none is answered by its text, and refused where it says
/// nothing.
pub proof fn law_answer_of_a_choice(endpoint: Seq<char>, choice: ChatResponseMessageView)
    ensures
        choice.tool_calls.len() >= 2 ==> choice_message(endpoint, choice) == Err::<
            MessageTypeView,
            RunErrorView,
        >(RunErrorView::SeveralToolCalls),
        choice.tool_calls.len() == 1 ==> match tool_call_message_spec(choice.tool_calls[0]) {
            Ok(message) => choice_message(endpoint, choice) == Ok::<MessageTypeView, RunErrorView>(
                message,
            ),
            Err(error) => choice_message(endpoint, choice) == Err::<MessageTypeView, RunErrorView>(
                RunErrorView::ToolCall(error),
            ),
        },
        choice.tool_calls.len() == 0 ==> (choice.content matches Some(text) ==> (text.len() > 0
            ==> choice_message(endpoint, choice) == Ok::<MessageTypeView, RunErrorView>(
            MessageTypeView::AgentOutput { text },
        ))),
        choice.tool_calls.len() == 0 && (choice.content is None || choice.content->0.len() == 0)
            ==> choice_message(endpoint, choice) == Err::<MessageTypeView, RunErrorView>(
            RunErrorView::EmptyResponse { endpoint },
        ),
{
}

/// A status from 200 to 299 brings the answer of the first choice, and an error where
/// the body is no completion or has no choices; any other status is an error that names
/// it.
pub proof fn law_answer_of_a_completion(
    endpoint: Seq<char>,
    status: u16,
    choices: Seq<ChatResponseMessageView>,
    response: Option<Seq<ChatResponseMessageView>>,
)
    ensures
        200 <= status <= 299 ==> completion_message_spec(endpoint, status, None) == Err::<
            MessageTypeView,
            RunErrorView,
        >(RunErrorView::InvalidResponse { endpoint }),
        200 <= status <= 299 && choices.len() == 0 ==> completion_message_spec(
            endpoint,
            status,
            Some(choices),
        ) == Err::<MessageTypeView, RunErrorView>(RunErrorView::NoChoices { endpoint }),
        200 <= status <= 299 && choices.len() > 0 ==> completion_message_spec(
            endpoint,
            status,
            Some(choices),
        ) == choice_message(endpoint, choices[0]),
        status < 200 || status > 299 ==> completion_message_spec(endpoint, status, response)
            == Err::<MessageTypeView, RunErrorView>(
            RunErrorView::HttpStatus { endpoint, status: status_display(status) },
        ),
{
}

/// The answer to a request is that of its endpoint, under the name of the endpoint.
pub proof fn law_answer_is_that_of_the_endpoint(
    params: RequestParamsView,
    status: u16,
    response: Option<Seq<ChatResponseMessageView>>,
)
    ensures
        params.local_custom_endpoint matches Some(endpoint) ==> answer_of_endpoint(
            params,
            status,
            response,
        ) == completion_message_spec(endpoint.name, status, response),
        params.local_custom_endpoint is None ==> answer_of_endpoint(params, status, response)
            == Err::<MessageTypeView, RunErrorView>(RunErrorView::NoEndpoint),
{
}

/// A stream holds every event of a run in order, or nothing but its error.
pub proof fn law_stream_holds_the_events_or_the_error(
    events: Seq<ResponseEventView>,
    error: RunErrorView,
)
    ensures
        stream_items_spec(Ok(events)).len() == events.len(),
        forall|i: int|
            0 <= i < events.len() ==> #[trigger] stream_items_spec(Ok(events))[i] == Ok::<
                ResponseEventView,
                RunErrorView,
            >(events[i]),
        stream_items_spec(Err(error)) == seq![Err::<ResponseEventView, RunErrorView>(error)],
{
}

/// The view of a completion is what its choices say, and that of a result is of its kind.
pub proof fn law_view_of_a_completion(
    response: ChatResponse,
    choice: ChatChoice,
    message: ChatResponseMessage,
    event: ResponseEvent,
    error: RunError,
)
    ensures
        response.deep_view() == response.choices.deep_view(),
        choice.deep_view() == choice.message.deep_view(),
        message.deep_view().content == message.content.deep_view(),
        message.deep_view().tool_calls == message.tool_calls.deep_view(),
        result_view::<ResponseEvent>(Ok(event)) == Ok::<ResponseEventView, RunErrorView>(
            event.deep_view(),
        ),
        result_view::<ResponseEvent>(Err(error)) == Err::<ResponseEventView, RunErrorView>(
            error.deep_view(),
        ),
{
}

} // verus!

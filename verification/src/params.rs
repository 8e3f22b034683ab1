//! The request that the local runtime answers.
use crate::api::{Encoded, Task, TaskView};
use vstd::prelude::*;

verus! {

/// What a tool gave back, as a request sends it.
#[derive(Debug)]
pub enum RequestResult {
    RunShellCommand(Encoded),
    ReadFiles(Encoded),
    Grep(Encoded),
    FileGlob(Encoded),
    FileGlobV2(Encoded),
    /// The result of a tool that is not offered to a local model.
    Other(Encoded),
}

#[verifier::ext_equal]
pub enum RequestResultView {
    RunShellCommand(Seq<u8>),
    ReadFiles(Seq<u8>),
    Grep(Seq<u8>),
    FileGlob(Seq<u8>),
    FileGlobV2(Seq<u8>),
    Other(Seq<u8>),
}

impl DeepView for RequestResult {
    type V = RequestResultView;

    open spec fn deep_view(&self) -> RequestResultView {
        match self {
            RequestResult::RunShellCommand(r) => RequestResultView::RunShellCommand(r.deep_view()),
            RequestResult::ReadFiles(r) => RequestResultView::ReadFiles(r.deep_view()),
            RequestResult::Grep(r) => RequestResultView::Grep(r.deep_view()),
            RequestResult::FileGlob(r) => RequestResultView::FileGlob(r.deep_view()),
            RequestResult::FileGlobV2(r) => RequestResultView::FileGlobV2(r.deep_view()),
            RequestResult::Other(r) => RequestResultView::Other(r.deep_view()),
        }
    }
}

/// The form in which a request sends the result of an action.
#[derive(Debug)]
pub enum RequestInput {
    ToolCallResult { result: Option<RequestResult> },
    /// Any other kind of input.
    Other,
}

#[verifier::ext_equal]
pub enum RequestInputView {
    ToolCallResult { result: Option<RequestResultView> },
    Other,
}

impl DeepView for RequestInput {
    type V = RequestInputView;

    open spec fn deep_view(&self) -> RequestInputView {
        match self {
            RequestInput::ToolCallResult { result } => RequestInputView::ToolCallResult {
                result: result.deep_view(),
            },
            RequestInput::Other => RequestInputView::Other,
        }
    }
}

/// The identifier of an action: that of the tool call that asked for it.
#[derive(Debug)]
pub struct AIAgentActionId {
    pub value: String,
}

impl DeepView for AIAgentActionId {
    type V = Seq<char>;

    open spec fn deep_view(&self) -> Seq<char> {
        self.value@
    }
}

/// The result of an action that the client took for the agent.
#[derive(Debug)]
pub struct AIAgentActionResult {
    pub id: AIAgentActionId,
    pub task_id: String,
    /// The result in words, as a model reads it.
    pub description: String,
    /// The result as a request sends it; `None` where it has no such form.
    pub request_input: Option<RequestInput>,
}

#[verifier::ext_equal]
pub struct AIAgentActionResultView {
    pub id: Seq<char>,
    pub task_id: Seq<char>,
    pub description: Seq<char>,
    pub request_input: Option<RequestInputView>,
}

impl DeepView for AIAgentActionResult {
    type V = AIAgentActionResultView;

    open spec fn deep_view(&self) -> AIAgentActionResultView {
        AIAgentActionResultView {
            id: self.id.deep_view(),
            task_id: self.task_id@,
            description: self.description@,
            request_input: self.request_input.deep_view(),
        }
    }
}

/// An input of a request.
#[derive(Debug)]
pub enum AIAgentInput {
    UserQuery { query: String },
    ActionResult { result: AIAgentActionResult },
    /// An input that a local model is not shown.
    Other,
}

#[verifier::ext_equal]
pub enum AIAgentInputView {
    UserQuery { query: Seq<char> },
    ActionResult { result: AIAgentActionResultView },
    Other,
}

impl DeepView for AIAgentInput {
    type V = AIAgentInputView;

    open spec fn deep_view(&self) -> AIAgentInputView {
        match self {
            AIAgentInput::UserQuery { query } => AIAgentInputView::UserQuery { query: query@ },
            AIAgentInput::ActionResult { result } => AIAgentInputView::ActionResult {
                result: result.deep_view(),
            },
            AIAgentInput::Other => AIAgentInputView::Other,
        }
    }
}

/// A model of an endpoint.
#[derive(Debug)]
pub struct EndpointModel {
    pub name: String,
    pub config_key: String,
}

#[verifier::ext_equal]
pub struct EndpointModelView {
    pub name: Seq<char>,
    pub config_key: Seq<char>,
}

impl DeepView for EndpointModel {
    type V = EndpointModelView;

    open spec fn deep_view(&self) -> EndpointModelView {
        EndpointModelView { name: self.name@, config_key: self.config_key@ }
    }
}

/// An OpenAI-compatible endpoint that the user configured.
#[derive(Debug)]
pub struct LocalEndpoint {
    pub name: String,
    pub url: String,
    pub api_key: String,
    pub models: Vec<EndpointModel>,
    pub allow_invalid_tls_certificates: bool,
}

#[verifier::ext_equal]
pub struct LocalEndpointView {
    pub name: Seq<char>,
    pub url: Seq<char>,
    pub api_key: Seq<char>,
    pub models: Seq<EndpointModelView>,
    pub allow_invalid_tls_certificates: bool,
}

impl DeepView for LocalEndpoint {
    type V = LocalEndpointView;

    open spec fn deep_view(&self) -> LocalEndpointView {
        LocalEndpointView {
            name: self.name@,
            url: self.url@,
            api_key: self.api_key@,
            models: self.models.deep_view(),
            allow_invalid_tls_certificates: self.allow_invalid_tls_certificates,
        }
    }
}

/// A request to the agent.
#[derive(Debug)]
pub struct RequestParams {
    pub local_custom_endpoint: Option<LocalEndpoint>,
    pub local_custom_model_config_keys: Vec<String>,
    pub input: Vec<AIAgentInput>,
    /// The tasks of the conversation so far.
    pub tasks: Vec<Task>,
    pub conversation_token: Option<String>,
    pub local_task_id: Option<String>,
}

#[verifier::ext_equal]
pub struct RequestParamsView {
    pub local_custom_endpoint: Option<LocalEndpointView>,
    pub local_custom_model_config_keys: Seq<Seq<char>>,
    pub input: Seq<AIAgentInputView>,
    pub tasks: Seq<TaskView>,
    pub conversation_token: Option<Seq<char>>,
    pub local_task_id: Option<Seq<char>>,
}

impl DeepView for RequestParams {
    type V = RequestParamsView;

    open spec fn deep_view(&self) -> RequestParamsView {
        RequestParamsView {
            local_custom_endpoint: self.local_custom_endpoint.deep_view(),
            local_custom_model_config_keys: self.local_custom_model_config_keys.deep_view(),
            input: self.input.deep_view(),
            tasks: self.tasks.deep_view(),
            conversation_token: self.conversation_token.deep_view(),
            local_task_id: self.local_task_id.deep_view(),
        }
    }
}

/// The view of a request has its fields, and so has that of its endpoint and of each of
/// the models there.
pub proof fn law_view_of_a_request(
    params: RequestParams,
    endpoint: LocalEndpoint,
    model: EndpointModel,
)
    ensures
        params.deep_view().local_custom_endpoint == params.local_custom_endpoint.deep_view(),
        params.deep_view().local_custom_model_config_keys
            == params.local_custom_model_config_keys.deep_view(),
        params.deep_view().input == params.input.deep_view(),
        params.deep_view().tasks == params.tasks.deep_view(),
        params.deep_view().conversation_token == params.conversation_token.deep_view(),
        params.deep_view().local_task_id == params.local_task_id.deep_view(),
        endpoint.deep_view().name == endpoint.name@,
        endpoint.deep_view().url == endpoint.url@,
        endpoint.deep_view().api_key == endpoint.api_key@,
        endpoint.deep_view().models == endpoint.models.deep_view(),
        endpoint.deep_view().allow_invalid_tls_certificates
            == endpoint.allow_invalid_tls_certificates,
        model.deep_view().name == model.name@,
        model.deep_view().config_key == model.config_key@,
{
}

/// The view of an input is of its kind and has its fields, and so has that of the result
/// that it brings.
pub proof fn law_view_of_an_input(
    input: AIAgentInput,
    action: AIAgentActionResult,
    request_input: RequestInput,
    tool_result: RequestResult,
)
    ensures
        input matches AIAgentInput::UserQuery { query } ==> input.deep_view() == (
        AIAgentInputView::UserQuery { query: query@ }),
        input matches AIAgentInput::ActionResult { result } ==> input.deep_view() == (
        AIAgentInputView::ActionResult { result: result.deep_view() }),
        input is Other ==> input.deep_view() is Other,
        action.id.deep_view() == action.id.value@,
        action.deep_view().id == action.id.value@,
        action.deep_view().task_id == action.task_id@,
        action.deep_view().description == action.description@,
        action.deep_view().request_input == action.request_input.deep_view(),
        request_input matches RequestInput::ToolCallResult { result } ==> request_input.deep_view()
            == (RequestInputView::ToolCallResult { result: result.deep_view() }),
        request_input is Other ==> request_input.deep_view() is Other,
        tool_result matches RequestResult::RunShellCommand(r) ==> tool_result.deep_view()
            == RequestResultView::RunShellCommand(r.bytes@),
        tool_result matches RequestResult::ReadFiles(r) ==> tool_result.deep_view()
            == RequestResultView::ReadFiles(r.bytes@),
        tool_result matches RequestResult::Grep(r) ==> tool_result.deep_view()
            == RequestResultView::Grep(r.bytes@),
        tool_result matches RequestResult::FileGlob(r) ==> tool_result.deep_view()
            == RequestResultView::FileGlob(r.bytes@),
        tool_result matches RequestResult::FileGlobV2(r) ==> tool_result.deep_view()
            == RequestResultView::FileGlobV2(r.bytes@),
        tool_result matches RequestResult::Other(r) ==> tool_result.deep_view()
            == RequestResultView::Other(r.bytes@),
{
}

} // verus!

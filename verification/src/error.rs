//! Why a request gets no answer, and what the user is told.
use crate::text::join;
use crate::tools::{ToolCallError, ToolCallErrorView};
use vstd::prelude::*;

verus! {

/// Why a request gets no answer.
#[derive(Debug)]
pub enum RunError {
    /// No endpoint is configured.
    NoEndpoint,
    /// No model is selected.
    NoModelSelected,
    /// The endpoint does not have the selected model.
    ModelNotConfigured,
    /// The URL of the endpoint cannot be read.
    InvalidUrl { endpoint: String },
    /// The endpoint is neither on this machine nor on the private network.
    NotLocal,
    /// There is nothing to answer.
    NoPrompt,
    /// The user cancelled the request.
    Cancelled,
    /// The request could not be sent, or its answer not be received.
    Transport { message: String },
    /// The endpoint answered with a status that is no success.
    HttpStatus { endpoint: String, status: String },
    /// The answer is no chat completion.
    InvalidResponse { endpoint: String },
    /// The completion has no choices.
    NoChoices { endpoint: String },
    /// The model made several tool calls at once.
    SeveralToolCalls,
    /// The tool call of the model is refused.
    ToolCall(ToolCallError),
    /// The model said nothing.
    EmptyResponse { endpoint: String },
}

#[verifier::ext_equal]
pub enum RunErrorView {
    NoEndpoint,
    NoModelSelected,
    ModelNotConfigured,
    InvalidUrl { endpoint: Seq<char> },
    NotLocal,
    NoPrompt,
    Cancelled,
    Transport { message: Seq<char> },
    HttpStatus { endpoint: Seq<char>, status: Seq<char> },
    InvalidResponse { endpoint: Seq<char> },
    NoChoices { endpoint: Seq<char> },
    SeveralToolCalls,
    ToolCall(ToolCallErrorView),
    EmptyResponse { endpoint: Seq<char> },
}

impl DeepView for RunError {
    type V = RunErrorView;

    open spec fn deep_view(&self) -> RunErrorView {
        match self {
            RunError::NoEndpoint => RunErrorView::NoEndpoint,
            RunError::NoModelSelected => RunErrorView::NoModelSelected,
            RunError::ModelNotConfigured => RunErrorView::ModelNotConfigured,
            RunError::InvalidUrl { endpoint } => RunErrorView::InvalidUrl { endpoint: endpoint@ },
            RunError::NotLocal => RunErrorView::NotLocal,
            RunError::NoPrompt => RunErrorView::NoPrompt,
            RunError::Cancelled => RunErrorView::Cancelled,
            RunError::Transport { message } => RunErrorView::Transport { message: message@ },
            RunError::HttpStatus { endpoint, status } => RunErrorView::HttpStatus {
                endpoint: endpoint@,
                status: status@,
            },
            RunError::InvalidResponse { endpoint } => RunErrorView::InvalidResponse {
                endpoint: endpoint@,
            },
            RunError::NoChoices { endpoint } => RunErrorView::NoChoices { endpoint: endpoint@ },
            RunError::SeveralToolCalls => RunErrorView::SeveralToolCalls,
            RunError::ToolCall(error) => RunErrorView::ToolCall(error.deep_view()),
            RunError::EmptyResponse { endpoint } => RunErrorView::EmptyResponse {
                endpoint: endpoint@,
            },
        }
    }
}

/// What the user is told of a refused tool call.
pub open spec fn tool_call_error_text(error: ToolCallErrorView) -> Seq<char> {
    match error {
        ToolCallErrorView::MalformedArguments => "The local model returned malformed tool arguments."@,
        ToolCallErrorView::MissingArgument { key } => "Missing or invalid tool argument `"@ + key
            + "`."@,
        ToolCallErrorView::InvalidArgument { key } => "Invalid tool argument `"@ + key + "`."@,
        ToolCallErrorView::UnsupportedTool => "The local model requested an unsupported tool."@,
    }
}

/// What the user is told of an endpoint.
pub open spec fn endpoint_text(endpoint: Seq<char>, what: Seq<char>) -> Seq<char> {
    "Local endpoint "@ + endpoint + what
}

/// What the user is told of an error.
pub open spec fn run_error_text(error: RunErrorView) -> Seq<char> {
    match error {
        RunErrorView::NoEndpoint => "No usable local endpoint was resolved. Save an endpoint in local-device mode with at least one model."@,
        RunErrorView::NoModelSelected => "No local model was selected."@,
        RunErrorView::ModelNotConfigured => "The selected local model is no longer configured."@,
        RunErrorView::InvalidUrl { endpoint } => endpoint_text(endpoint, " has an invalid URL."@),
        RunErrorView::NotLocal => "Offline Agent Mode only permits localhost, private-network, and .local endpoints."@,
        RunErrorView::NoPrompt => "Local Agent Mode received no user prompt or tool result."@,
        RunErrorView::Cancelled => "Local Agent request cancelled."@,
        RunErrorView::Transport { message } => message,
        RunErrorView::HttpStatus { endpoint, status } => endpoint_text(
            endpoint,
            " returned HTTP "@ + status + "."@,
        ),
        RunErrorView::InvalidResponse { endpoint } => endpoint_text(
            endpoint,
            " returned an invalid OpenAI-compatible response."@,
        ),
        RunErrorView::NoChoices { endpoint } => endpoint_text(
            endpoint,
            " returned no completion choices."@,
        ),
        RunErrorView::SeveralToolCalls => "Local Agent Mode supports one tool call at a time."@,
        RunErrorView::ToolCall(error) => tool_call_error_text(error),
        RunErrorView::EmptyResponse { endpoint } => endpoint_text(
            endpoint,
            " returned an empty response."@,
        ),
    }
}

/// Three texts in a row.
fn join3(first: &str, second: &str, third: &str) -> (joined: String)
    ensures
        joined@ == first@ + second@ + third@,
{
    join(join(first, second).as_str(), third)
}

/// What the user is told of the endpoint.
fn endpoint_message(endpoint: &str, what: &str) -> (text: String)
    ensures
        text@ == endpoint_text(endpoint@, what@),
{
    join3("Local endpoint ", endpoint, what)
}

impl ToolCallError {
    /// What the user is told.
    pub fn message(&self) -> (text: String)
        ensures
            text@ == tool_call_error_text(self.deep_view()),
    {
        match self {
            ToolCallError::MalformedArguments => "The local model returned malformed tool arguments.".to_owned(),
            ToolCallError::MissingArgument { key } => join3(
                "Missing or invalid tool argument `",
                key.as_str(),
                "`.",
            ),
            ToolCallError::InvalidArgument { key } => join3(
                "Invalid tool argument `",
                key.as_str(),
                "`.",
            ),
            ToolCallError::UnsupportedTool => "The local model requested an unsupported tool.".to_owned(),
        }
    }
}

impl RunError {
    /// What the user is told.
    pub fn message(&self) -> (text: String)
        ensures
            text@ == run_error_text(self.deep_view()),
    {
        match self {
            RunError::NoEndpoint => "No usable local endpoint was resolved. Save an endpoint in local-device mode with at least one model.".to_owned(),
            RunError::NoModelSelected => "No local model was selected.".to_owned(),
            RunError::ModelNotConfigured => "The selected local model is no longer configured.".to_owned(),
            RunError::InvalidUrl { endpoint } => endpoint_message(
                endpoint.as_str(),
                " has an invalid URL.",
            ),
            RunError::NotLocal => "Offline Agent Mode only permits localhost, private-network, and .local endpoints.".to_owned(),
            RunError::NoPrompt => "Local Agent Mode received no user prompt or tool result.".to_owned(),
            RunError::Cancelled => "Local Agent request cancelled.".to_owned(),
            RunError::Transport { message } => message.clone(),
            RunError::HttpStatus { endpoint, status } => endpoint_message(
                endpoint.as_str(),
                join3(" returned HTTP ", status.as_str(), ".").as_str(),
            ),
            RunError::InvalidResponse { endpoint } => endpoint_message(
                endpoint.as_str(),
                " returned an invalid OpenAI-compatible response.",
            ),
            RunError::NoChoices { endpoint } => endpoint_message(
                endpoint.as_str(),
                " returned no completion choices.",
            ),
            RunError::SeveralToolCalls => "Local Agent Mode supports one tool call at a time.".to_owned(),
            RunError::ToolCall(error) => error.message(),
            RunError::EmptyResponse { endpoint } => endpoint_message(
                endpoint.as_str(),
                " returned an empty response.",
            ),
        }
    }
}

/// What the user is told of a refused tool call names the argument that is wrong.
pub proof fn law_texts_of_refused_calls(key: Seq<char>)
    ensures
        tool_call_error_text(ToolCallErrorView::MalformedArguments)
            == "The local model returned malformed tool arguments."@,
        tool_call_error_text(ToolCallErrorView::MissingArgument { key })
            == "Missing or invalid tool argument `"@ + key + "`."@,
        tool_call_error_text(ToolCallErrorView::InvalidArgument { key })
            == "Invalid tool argument `"@ + key + "`."@,
        tool_call_error_text(ToolCallErrorView::UnsupportedTool)
            == "The local model requested an unsupported tool."@,
{
}

/// What the user is told of a request that was not sent.
pub proof fn law_texts_of_requests_that_are_not_sent(endpoint: Seq<char>)
    ensures
        run_error_text(RunErrorView::NoEndpoint)
            == "No usable local endpoint was resolved. Save an endpoint in local-device mode with at least one model."@,
        run_error_text(RunErrorView::NoModelSelected) == "No local model was selected."@,
        run_error_text(RunErrorView::ModelNotConfigured)
            == "The selected local model is no longer configured."@,
        run_error_text(RunErrorView::InvalidUrl { endpoint }) == "Local endpoint "@ + endpoint
            + " has an invalid URL."@,
        run_error_text(RunErrorView::NotLocal)
            == "Offline Agent Mode only permits localhost, private-network, and .local endpoints."@,
        run_error_text(RunErrorView::NoPrompt)
            == "Local Agent Mode received no user prompt or tool result."@,
        run_error_text(RunErrorView::Cancelled) == "Local Agent request cancelled."@,
{
}

/// What the user is told of an answer that cannot be used: it names the endpoint and, of
/// a status that is no success, the status.
pub proof fn law_texts_of_answers_that_cannot_be_used(
    endpoint: Seq<char>,
    status: Seq<char>,
    message: Seq<char>,
    error: ToolCallErrorView,
)
    ensures
        run_error_text(RunErrorView::Transport { message }) == message,
        run_error_text(RunErrorView::HttpStatus { endpoint, status }) == "Local endpoint "@
            + endpoint + " returned HTTP "@ + status + "."@,
        run_error_text(RunErrorView::InvalidResponse { endpoint }) == "Local endpoint "@ + endpoint
            + " returned an invalid OpenAI-compatible response."@,
        run_error_text(RunErrorView::NoChoices { endpoint }) == "Local endpoint "@ + endpoint
            + " returned no completion choices."@,
        run_error_text(RunErrorView::SeveralToolCalls)
            == "Local Agent Mode supports one tool call at a time."@,
        run_error_text(RunErrorView::ToolCall(error)) == tool_call_error_text(error),
        run_error_text(RunErrorView::EmptyResponse { endpoint }) == "Local endpoint "@ + endpoint
            + " returned an empty response."@,
{
    assert(run_error_text(RunErrorView::HttpStatus { endpoint, status }) =~= "Local endpoint "@
        + endpoint + " returned HTTP "@ + status + "."@);
}

/// The view of an error is of its kind and has its fields.
pub proof fn law_view_of_an_error(error: RunError)
    ensures
        error is NoEndpoint ==> error.deep_view() is NoEndpoint,
        error is NoModelSelected ==> error.deep_view() is NoModelSelected,
        error is ModelNotConfigured ==> error.deep_view() is ModelNotConfigured,
        error matches RunError::InvalidUrl { endpoint } ==> error.deep_view() == (
        RunErrorView::InvalidUrl { endpoint: endpoint@ }),
        error is NotLocal ==> error.deep_view() is NotLocal,
        error is NoPrompt ==> error.deep_view() is NoPrompt,
        error is Cancelled ==> error.deep_view() is Cancelled,
        error matches RunError::Transport { message } ==> error.deep_view() == (
        RunErrorView::Transport { message: message@ }),
        error matches RunError::HttpStatus { endpoint, status } ==> error.deep_view() == (
        RunErrorView::HttpStatus { endpoint: endpoint@, status: status@ }),
        error matches RunError::InvalidResponse { endpoint } ==> error.deep_view() == (
        RunErrorView::InvalidResponse { endpoint: endpoint@ }),
        error matches RunError::NoChoices { endpoint } ==> error.deep_view() == (
        RunErrorView::NoChoices { endpoint: endpoint@ }),
        error is SeveralToolCalls ==> error.deep_view() is SeveralToolCalls,
        error matches RunError::ToolCall(refusal) ==> error.deep_view() == RunErrorView::ToolCall(
            refusal.deep_view(),
        ),
        error matches RunError::EmptyResponse { endpoint } ==> error.deep_view() == (
        RunErrorView::EmptyResponse { endpoint: endpoint@ }),
{
}

} // verus!

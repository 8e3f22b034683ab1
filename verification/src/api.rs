//! The messages that a conversation is made of, and the events that answer a request.
//! Each type has a view of the same shape over character sequences.
use vstd::prelude::*;

verus! {

/// A part of a message that is kept in its wire encoding and carried along unchanged.
#[derive(Debug)]
pub struct Encoded {
    pub bytes: Vec<u8>,
}

impl DeepView for Encoded {
    type V = Seq<u8>;

    open spec fn deep_view(&self) -> Seq<u8> {
        self.bytes@
    }
}

impl Clone for Encoded {
    fn clone(&self) -> (copy: Self)
        ensures
            copy.deep_view() == self.deep_view(),
    {
        Encoded { bytes: self.bytes.clone() }
    }
}

/// Lines of a file, from `start` to `end`.
#[derive(Debug, Clone, Copy)]
pub struct LineRange {
    pub start: u32,
    pub end: u32,
}

impl DeepView for LineRange {
    type V = LineRange;

    open spec fn deep_view(&self) -> LineRange {
        *self
    }
}

/// A file to read: all of it where no line ranges are given.
#[derive(Debug)]
pub struct File {
    pub name: String,
    pub line_ranges: Vec<LineRange>,
}

#[verifier::ext_equal]
pub struct FileView {
    pub name: Seq<char>,
    pub line_ranges: Seq<LineRange>,
}

impl DeepView for File {
    type V = FileView;

    open spec fn deep_view(&self) -> FileView {
        FileView { name: self.name@, line_ranges: self.line_ranges.deep_view() }
    }
}

/// A tool that the agent asks the client to run.
#[derive(Debug)]
pub enum Tool {
    ReadFiles { files: Vec<File> },
    FileGlobV2 { patterns: Vec<String>, search_dir: String },
    Grep { queries: Vec<String>, path: String },
    RunShellCommand { command: String },
    /// A tool that is not offered to a local model.
    Other(Encoded),
}

#[verifier::ext_equal]
pub enum ToolView {
    ReadFiles { files: Seq<FileView> },
    FileGlobV2 { patterns: Seq<Seq<char>>, search_dir: Seq<char> },
    Grep { queries: Seq<Seq<char>>, path: Seq<char> },
    RunShellCommand { command: Seq<char> },
    Other(Seq<u8>),
}

impl DeepView for Tool {
    type V = ToolView;

    open spec fn deep_view(&self) -> ToolView {
        match self {
            Tool::ReadFiles { files } => ToolView::ReadFiles { files: files.deep_view() },
            Tool::FileGlobV2 { patterns, search_dir } => ToolView::FileGlobV2 {
                patterns: patterns.deep_view(),
                search_dir: search_dir@,
            },
            Tool::Grep { queries, path } => ToolView::Grep {
                queries: queries.deep_view(),
                path: path@,
            },
            Tool::RunShellCommand { command } => ToolView::RunShellCommand { command: command@ },
            Tool::Other(rest) => ToolView::Other(rest.deep_view()),
        }
    }
}

#[derive(Debug)]
pub struct ToolCall {
    pub tool_call_id: String,
    pub tool: Option<Tool>,
}

#[verifier::ext_equal]
pub struct ToolCallView {
    pub tool_call_id: Seq<char>,
    pub tool: Option<ToolView>,
}

impl DeepView for ToolCall {
    type V = ToolCallView;

    open spec fn deep_view(&self) -> ToolCallView {
        ToolCallView { tool_call_id: self.tool_call_id@, tool: self.tool.deep_view() }
    }
}

/// What a tool gave back, as a conversation keeps it.
#[derive(Debug)]
pub enum MessageResult {
    RunShellCommand(Encoded),
    ReadFiles(Encoded),
    Grep(Encoded),
    FileGlob(Encoded),
    FileGlobV2(Encoded),
    /// The result of a tool that is not offered to a local model.
    Other(Encoded),
}

#[verifier::ext_equal]
pub enum MessageResultView {
    RunShellCommand(Seq<u8>),
    ReadFiles(Seq<u8>),
    Grep(Seq<u8>),
    FileGlob(Seq<u8>),
    FileGlobV2(Seq<u8>),
    Other(Seq<u8>),
}

impl DeepView for MessageResult {
    type V = MessageResultView;

    open spec fn deep_view(&self) -> MessageResultView {
        match self {
            MessageResult::RunShellCommand(r) => MessageResultView::RunShellCommand(r.deep_view()),
            MessageResult::ReadFiles(r) => MessageResultView::ReadFiles(r.deep_view()),
            MessageResult::Grep(r) => MessageResultView::Grep(r.deep_view()),
            MessageResult::FileGlob(r) => MessageResultView::FileGlob(r.deep_view()),
            MessageResult::FileGlobV2(r) => MessageResultView::FileGlobV2(r.deep_view()),
            MessageResult::Other(r) => MessageResultView::Other(r.deep_view()),
        }
    }
}

#[derive(Debug)]
pub struct ToolCallResult {
    pub tool_call_id: String,
    pub context: Option<Encoded>,
    pub result: Option<MessageResult>,
}

#[verifier::ext_equal]
pub struct ToolCallResultView {
    pub tool_call_id: Seq<char>,
    pub context: Option<Seq<u8>>,
    pub result: Option<MessageResultView>,
}

impl DeepView for ToolCallResult {
    type V = ToolCallResultView;

    open spec fn deep_view(&self) -> ToolCallResultView {
        ToolCallResultView {
            tool_call_id: self.tool_call_id@,
            context: self.context.deep_view(),
            result: self.result.deep_view(),
        }
    }
}

/// What a message says.
#[derive(Debug)]
pub enum MessageType {
    UserQuery { query: String },
    AgentOutput { text: String },
    ToolCall(ToolCall),
    ToolCallResult(ToolCallResult),
    /// A message that a local model is not shown.
    Other(Encoded),
}

#[verifier::ext_equal]
pub enum MessageTypeView {
    UserQuery { query: Seq<char> },
    AgentOutput { text: Seq<char> },
    ToolCall(ToolCallView),
    ToolCallResult(ToolCallResultView),
    Other(Seq<u8>),
}

impl DeepView for MessageType {
    type V = MessageTypeView;

    open spec fn deep_view(&self) -> MessageTypeView {
        match self {
            MessageType::UserQuery { query } => MessageTypeView::UserQuery { query: query@ },
            MessageType::AgentOutput { text } => MessageTypeView::AgentOutput { text: text@ },
            MessageType::ToolCall(call) => MessageTypeView::ToolCall(call.deep_view()),
            MessageType::ToolCallResult(result) => MessageTypeView::ToolCallResult(
                result.deep_view(),
            ),
            MessageType::Other(rest) => MessageTypeView::Other(rest.deep_view()),
        }
    }
}

/// A message of a task.
#[derive(Debug)]
pub struct Message {
    pub id: String,
    pub task_id: String,
    pub request_id: String,
    pub message: Option<MessageType>,
}

#[verifier::ext_equal]
pub struct MessageView {
    pub id: Seq<char>,
    pub task_id: Seq<char>,
    pub request_id: Seq<char>,
    pub message: Option<MessageTypeView>,
}

impl DeepView for Message {
    type V = MessageView;

    open spec fn deep_view(&self) -> MessageView {
        MessageView {
            id: self.id@,
            task_id: self.task_id@,
            request_id: self.request_id@,
            message: self.message.deep_view(),
        }
    }
}

/// A task: a part of a conversation with messages of its own.
#[derive(Debug)]
pub struct Task {
    pub id: String,
    pub messages: Vec<Message>,
    pub dependencies: Option<Encoded>,
    pub description: String,
    pub summary: String,
    pub server_data: String,
}

#[verifier::ext_equal]
pub struct TaskView {
    pub id: Seq<char>,
    pub messages: Seq<MessageView>,
    pub dependencies: Option<Seq<u8>>,
    pub description: Seq<char>,
    pub summary: Seq<char>,
    pub server_data: Seq<char>,
}

impl DeepView for Task {
    type V = TaskView;

    open spec fn deep_view(&self) -> TaskView {
        TaskView {
            id: self.id@,
            messages: self.messages.deep_view(),
            dependencies: self.dependencies.deep_view(),
            description: self.description@,
            summary: self.summary@,
            server_data: self.server_data@,
        }
    }
}

/// A change that the client makes to its conversation.
#[derive(Debug)]
pub enum Action {
    CreateTask { task: Option<Task> },
    AddMessagesToTask { task_id: String, messages: Vec<Message> },
}

#[verifier::ext_equal]
pub enum ActionView {
    CreateTask { task: Option<TaskView> },
    AddMessagesToTask { task_id: Seq<char>, messages: Seq<MessageView> },
}

impl DeepView for Action {
    type V = ActionView;

    open spec fn deep_view(&self) -> ActionView {
        match self {
            Action::CreateTask { task } => ActionView::CreateTask { task: task.deep_view() },
            Action::AddMessagesToTask { task_id, messages } => ActionView::AddMessagesToTask {
                task_id: task_id@,
                messages: messages.deep_view(),
            },
        }
    }
}

#[derive(Debug)]
pub struct ClientAction {
    pub action: Option<Action>,
}

#[verifier::ext_equal]
pub struct ClientActionView {
    pub action: Option<ActionView>,
}

impl DeepView for ClientAction {
    type V = ClientActionView;

    open spec fn deep_view(&self) -> ClientActionView {
        ClientActionView { action: self.action.deep_view() }
    }
}

/// Why a stream of events ended.
#[derive(Debug, Clone, Copy)]
pub enum FinishReason {
    Done,
    Other,
}

impl DeepView for FinishReason {
    type V = FinishReason;

    open spec fn deep_view(&self) -> FinishReason {
        *self
    }
}

#[derive(Debug)]
pub enum EventType {
    Init { conversation_id: String, request_id: String, run_id: String },
    ClientActions { actions: Vec<ClientAction> },
    Finished { reason: Option<FinishReason> },
}

#[verifier::ext_equal]
pub enum EventTypeView {
    Init { conversation_id: Seq<char>, request_id: Seq<char>, run_id: Seq<char> },
    ClientActions { actions: Seq<ClientActionView> },
    Finished { reason: Option<FinishReason> },
}

impl DeepView for EventType {
    type V = EventTypeView;

    open spec fn deep_view(&self) -> EventTypeView {
        match self {
            EventType::Init { conversation_id, request_id, run_id } => EventTypeView::Init {
                conversation_id: conversation_id@,
                request_id: request_id@,
                run_id: run_id@,
            },
            EventType::ClientActions { actions } => EventTypeView::ClientActions {
                actions: actions.deep_view(),
            },
            EventType::Finished { reason } => EventTypeView::Finished { reason: *reason },
        }
    }
}

/// An event of the stream that answers a request.
#[derive(Debug)]
pub struct ResponseEvent {
    pub event_type: Option<EventType>,
}

#[verifier::ext_equal]
pub struct ResponseEventView {
    pub event_type: Option<EventTypeView>,
}

impl DeepView for ResponseEvent {
    type V = ResponseEventView;

    open spec fn deep_view(&self) -> ResponseEventView {
        ResponseEventView { event_type: self.event_type.deep_view() }
    }
}

// ---------------------------------------------------------------------------
// Laws

/// The view of a tool is of its kind and has its fields: the names and line ranges of
/// the files, the patterns or queries and where they are looked for, or the command.
pub proof fn law_view_of_a_tool(call: ToolCall, tool: Tool, file: File, range: LineRange)
    ensures
        call.deep_view().tool_call_id == call.tool_call_id@,
        call.deep_view().tool == call.tool.deep_view(),
        tool matches Tool::ReadFiles { files } ==> tool.deep_view() == (ToolView::ReadFiles {
            files: files.deep_view(),
        }),
        tool matches Tool::FileGlobV2 { patterns, search_dir } ==> tool.deep_view() == (
        ToolView::FileGlobV2 { patterns: patterns.deep_view(), search_dir: search_dir@ }),
        tool matches Tool::Grep { queries, path } ==> tool.deep_view() == (ToolView::Grep {
            queries: queries.deep_view(),
            path: path@,
        }),
        tool matches Tool::RunShellCommand { command } ==> tool.deep_view() == (
        ToolView::RunShellCommand { command: command@ }),
        tool matches Tool::Other(rest) ==> tool.deep_view() == ToolView::Other(rest.bytes@),
        file.deep_view().name == file.name@,
        file.deep_view().line_ranges == file.line_ranges.deep_view(),
        range.deep_view() == range,
{
}

/// The view of a result is of its kind and has its bytes, its call and its context.
pub proof fn law_view_of_a_result(message: ToolCallResult, result: MessageResult, rest: Encoded)
    ensures
        rest.deep_view() == rest.bytes@,
        message.deep_view().tool_call_id == message.tool_call_id@,
        message.deep_view().context == message.context.deep_view(),
        message.deep_view().result == message.result.deep_view(),
        result matches MessageResult::RunShellCommand(r) ==> result.deep_view()
            == MessageResultView::RunShellCommand(r.bytes@),
        result matches MessageResult::ReadFiles(r) ==> result.deep_view()
            == MessageResultView::ReadFiles(r.bytes@),
        result matches MessageResult::Grep(r) ==> result.deep_view() == MessageResultView::Grep(
            r.bytes@,
        ),
        result matches MessageResult::FileGlob(r) ==> result.deep_view()
            == MessageResultView::FileGlob(r.bytes@),
        result matches MessageResult::FileGlobV2(r) ==> result.deep_view()
            == MessageResultView::FileGlobV2(r.bytes@),
        result matches MessageResult::Other(r) ==> result.deep_view() == MessageResultView::Other(
            r.bytes@,
        ),
{
}

/// The view of a message is of its kind and has its fields, and so has that of a task.
pub proof fn law_view_of_a_task(task: Task, message: Message, said: MessageType)
    ensures
        task.deep_view().id == task.id@,
        task.deep_view().messages == task.messages.deep_view(),
        task.deep_view().dependencies == task.dependencies.deep_view(),
        task.deep_view().description == task.description@,
        task.deep_view().summary == task.summary@,
        task.deep_view().server_data == task.server_data@,
        message.deep_view().id == message.id@,
        message.deep_view().task_id == message.task_id@,
        message.deep_view().request_id == message.request_id@,
        message.deep_view().message == message.message.deep_view(),
        said matches MessageType::UserQuery { query } ==> said.deep_view() == (
        MessageTypeView::UserQuery { query: query@ }),
        said matches MessageType::AgentOutput { text } ==> said.deep_view() == (
        MessageTypeView::AgentOutput { text: text@ }),
        said matches MessageType::ToolCall(call) ==> said.deep_view() == MessageTypeView::ToolCall(
            call.deep_view(),
        ),
        said matches MessageType::ToolCallResult(result) ==> said.deep_view()
            == MessageTypeView::ToolCallResult(result.deep_view()),
        said matches MessageType::Other(rest) ==> said.deep_view() == MessageTypeView::Other(
            rest.bytes@,
        ),
{
}

/// The view of an event is of its kind and has its fields, and so has that of each change
/// in it.
pub proof fn law_view_of_an_event(
    event: ResponseEvent,
    event_type: EventType,
    change: ClientAction,
    action: Action,
    reason: FinishReason,
)
    ensures
        event.deep_view().event_type == event.event_type.deep_view(),
        event_type matches EventType::Init { conversation_id, request_id, run_id }
            ==> event_type.deep_view() == (EventTypeView::Init {
            conversation_id: conversation_id@,
            request_id: request_id@,
            run_id: run_id@,
        }),
        event_type matches EventType::ClientActions { actions } ==> event_type.deep_view() == (
        EventTypeView::ClientActions { actions: actions.deep_view() }),
        event_type matches EventType::Finished { reason: end } ==> event_type.deep_view() == (
        EventTypeView::Finished { reason: end }),
        change.deep_view().action == change.action.deep_view(),
        action matches Action::CreateTask { task } ==> action.deep_view() == (
        ActionView::CreateTask { task: task.deep_view() }),
        action matches Action::AddMessagesToTask { task_id, messages } ==> action.deep_view() == (
        ActionView::AddMessagesToTask { task_id: task_id@, messages: messages.deep_view() }),
        reason.deep_view() == reason,
{
}

} // verus!

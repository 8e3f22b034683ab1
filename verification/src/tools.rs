//! The tools that a local model is offered, and the calls that it makes of them.
use crate::api::{
    File, FileView, LineRange, MessageType, MessageTypeView, ResponseEvent, Tool, ToolCall,
    ToolCallView, ToolView,
};
use crate::events::{answered_with, message_events};
use crate::ids::IdSource;
use crate::json::{
    json, json_array, json_items, json_member, json_object1, json_object2, json_string, json_text,
    parse_json, parsed_json, write_json, Json,
};
use crate::params::RequestParams;
use crate::text::same_text;
use vstd::prelude::*;

verus! {

/// Why a tool call of a model is refused.
#[derive(Debug)]
pub enum ToolCallError {
    /// The arguments are no JSON object.
    MalformedArguments,
    /// A required argument is not there, or not of its type.
    MissingArgument { key: String },
    /// An item of a list argument is no string.
    InvalidArgument { key: String },
    /// There is no tool of that name.
    UnsupportedTool,
}

#[verifier::ext_equal]
pub enum ToolCallErrorView {
    MalformedArguments,
    MissingArgument { key: Seq<char> },
    InvalidArgument { key: Seq<char> },
    UnsupportedTool,
}

impl DeepView for ToolCallError {
    type V = ToolCallErrorView;

    open spec fn deep_view(&self) -> ToolCallErrorView {
        match self {
            ToolCallError::MalformedArguments => ToolCallErrorView::MalformedArguments,
            ToolCallError::MissingArgument { key } => ToolCallErrorView::MissingArgument {
                key: key@,
            },
            ToolCallError::InvalidArgument { key } => ToolCallErrorView::InvalidArgument {
                key: key@,
            },
            ToolCallError::UnsupportedTool => ToolCallErrorView::UnsupportedTool,
        }
    }
}

/// The function that a model calls, with its arguments as it wrote them.
#[derive(Debug)]
pub struct OpenAIFunctionCall {
    pub name: String,
    pub arguments: String,
}

/// A tool call of a model.
#[derive(Debug)]
pub struct OpenAIToolCall {
    pub id: String,
    pub function: OpenAIFunctionCall,
}

#[verifier::ext_equal]
pub struct OpenAIToolCallView {
    pub id: Seq<char>,
    pub name: Seq<char>,
    pub arguments: Seq<char>,
}

impl DeepView for OpenAIToolCall {
    type V = OpenAIToolCallView;

    open spec fn deep_view(&self) -> OpenAIToolCallView {
        OpenAIToolCallView {
            id: self.id@,
            name: self.function.name@,
            arguments: self.function.arguments@,
        }
    }
}

// ---------------------------------------------------------------------------
// Arguments

/// A value that is an object; `None` of any other value, or of none.
pub open spec fn object_only(parsed: Option<Json>) -> Option<Json> {
    match parsed {
        Some(Json::Object(members)) => Some(Json::Object(members)),
        _ => None,
    }
}

/// The object that the arguments of a call say: as JSON, or as a JSON string that holds
/// JSON.
pub open spec fn decoded_arguments(text: Seq<char>) -> Option<Json> {
    match parsed_json(text) {
        Some(content) => value_arguments(content),
        None => None,
    }
}

/// The object that a value says: the value itself, or what the JSON in a string says.
pub open spec fn value_arguments(content: Json) -> Option<Json> {
    match content {
        Json::Str(encoded) => object_only(parsed_json(encoded)),
        _ => object_only(Some(content)),
    }
}

/// The texts of a list of strings.
pub open spec fn item_texts(items: Seq<Json>) -> Seq<Seq<char>> {
    Seq::new(items.len(), |i: int| items[i]->Str_0)
}

/// The texts of the list of strings under a key.
pub open spec fn string_list_argument(arguments: Json, key: Seq<char>) -> Result<
    Seq<Seq<char>>,
    ToolCallErrorView,
> {
    match arguments.member(key) {
        Some(Json::Array(items)) => if forall|i: int|
            0 <= i < items.len() ==> #[trigger] items[i] is Str {
            Ok(item_texts(items))
        } else {
            Err(ToolCallErrorView::InvalidArgument { key })
        },
        _ => Err(ToolCallErrorView::MissingArgument { key }),
    }
}

/// The text of the string under a key.
pub open spec fn string_argument(arguments: Json, key: Seq<char>) -> Result<
    Seq<char>,
    ToolCallErrorView,
> {
    match arguments.string_member(key) {
        Some(text) => Ok(text),
        None => Err(ToolCallErrorView::MissingArgument { key }),
    }
}

/// The text of the string under a key, empty where there is none.
pub open spec fn optional_string_argument(arguments: Json, key: Seq<char>) -> Seq<char> {
    match arguments.string_member(key) {
        Some(text) => text,
        None => seq![],
    }
}

/// The value where it is an object: what a call makes of its arguments once they are
/// read.
pub fn tool_arguments_object(parsed: Option<serde_json::Value>) -> (arguments: Result<
    serde_json::Value,
    ToolCallError,
>)
    ensures
        match object_only(
            match parsed {
                Some(value) => Some(json(value)),
                None => None,
            },
        ) {
            Some(content) => arguments is Ok && json(arguments->Ok_0) == content,
            None => arguments is Err && arguments->Err_0 is MalformedArguments,
        },
{
    match parsed {
        Some(value) => if value.is_object() {
            Ok(value)
        } else {
            Err(ToolCallError::MalformedArguments)
        },
        None => Err(ToolCallError::MalformedArguments),
    }
}

/// The object that the value says: the value itself, or what the JSON in a string says.
pub fn arguments_of_value(value: serde_json::Value) -> (arguments: Result<
    serde_json::Value,
    ToolCallError,
>)
    ensures
        match value_arguments(json(value)) {
            Some(content) => arguments is Ok && json(arguments->Ok_0) == content,
            None => arguments is Err && arguments->Err_0 is MalformedArguments,
        },
{
    match value.as_str() {
        Some(encoded) => match parse_json(encoded) {
            Ok(inner) => tool_arguments_object(Some(inner)),
            Err(_) => tool_arguments_object(None),
        },
        None => tool_arguments_object(Some(value)),
    }
}

/// The object that the arguments of a call say: as JSON, or as a JSON string that holds
/// JSON.
pub fn parse_tool_arguments(arguments: &str) -> (parsed: Result<serde_json::Value, ToolCallError>)
    ensures
        match decoded_arguments(arguments@) {
            Some(content) => parsed is Ok && json(parsed->Ok_0) == content,
            None => parsed is Err && parsed->Err_0 is MalformedArguments,
        },
{
    match parse_json(arguments) {
        Ok(value) => arguments_of_value(value),
        Err(_) => Err(ToolCallError::MalformedArguments),
    }
}

/// The texts of the list of strings under the key.
pub fn required_string_array(value: &serde_json::Value, key: &str) -> (texts: Result<
    Vec<String>,
    ToolCallError,
>)
    ensures
        match string_list_argument(json(*value), key@) {
            Ok(expected) => texts is Ok && texts->Ok_0.deep_view() == expected,
            Err(error) => texts is Err && texts->Err_0.deep_view() == error,
        },
{
    let items = match json_member(value, key) {
        Some(member) => match member.as_array() {
            Some(items) => items,
            None => {
                return Err(ToolCallError::MissingArgument { key: key.to_owned() });
            },
        },
        None => {
            return Err(ToolCallError::MissingArgument { key: key.to_owned() });
        },
    };
    let ghost contents = json_items(items@);
    let mut texts: Vec<String> = Vec::new();
    let mut i: usize = 0;
    while i < items.len()
        invariant
            i <= items.len(),
            contents == json_items(items@),
            string_list_argument(json(*value), key@) == (if forall|j: int|
                0 <= j < contents.len() ==> #[trigger] contents[j] is Str {
                Ok::<Seq<Seq<char>>, ToolCallErrorView>(item_texts(contents))
            } else {
                Err(ToolCallErrorView::InvalidArgument { key: key@ })
            }),
            texts@.len() == i,
            forall|j: int|
                0 <= j < i ==> #[trigger] contents[j] is Str && contents[j]->Str_0 == texts@[j]@,
        decreases items.len() - i,
    {
        assert(contents[i as int] == json(items@[i as int]));
        match items[i].as_str() {
            Some(text) => {
                texts.push(text.to_owned());
            },
            None => {
                return Err(ToolCallError::InvalidArgument { key: key.to_owned() });
            },
        }
        i = i + 1;
    }
    assert(texts.deep_view() =~= item_texts(contents));
    Ok(texts)
}

/// The text of the string under the key.
pub fn required_string(value: &serde_json::Value, key: &str) -> (text: Result<
    String,
    ToolCallError,
>)
    ensures
        match string_argument(json(*value), key@) {
            Ok(expected) => text is Ok && text->Ok_0@ == expected,
            Err(error) => text is Err && text->Err_0.deep_view() == error,
        },
{
    match json_member(value, key) {
        Some(member) => match member.as_str() {
            Some(text) => Ok(text.to_owned()),
            None => Err(ToolCallError::MissingArgument { key: key.to_owned() }),
        },
        None => Err(ToolCallError::MissingArgument { key: key.to_owned() }),
    }
}

/// The text of the string under the key, empty where there is none.
pub fn optional_string(value: &serde_json::Value, key: &str) -> (text: String)
    ensures
        text@ == optional_string_argument(json(*value), key@),
{
    match json_member(value, key) {
        Some(member) => match member.as_str() {
            Some(text) => text.to_owned(),
            None => String::new(),
        },
        None => String::new(),
    }
}

// ---------------------------------------------------------------------------
// Calls

/// A file that is read as a whole.
pub open spec fn whole_file(name: Seq<char>) -> FileView {
    FileView { name, line_ranges: seq![] }
}

/// The tool that a call names, with the arguments of the call.
pub open spec fn tool_for(name: Seq<char>, arguments: Json) -> Result<ToolView, ToolCallErrorView> {
    if name == "read_files"@ {
        match string_list_argument(arguments, "paths"@) {
            Ok(paths) => Ok(
                ToolView::ReadFiles {
                    files: Seq::new(paths.len(), |i: int| whole_file(paths[i])),
                },
            ),
            Err(error) => Err(error),
        }
    } else if name == "file_glob"@ {
        match string_argument(arguments, "pattern"@) {
            Ok(pattern) => Ok(
                ToolView::FileGlobV2 {
                    patterns: seq![pattern],
                    search_dir: optional_string_argument(arguments, "path"@),
                },
            ),
            Err(error) => Err(error),
        }
    } else if name == "grep"@ {
        match string_argument(arguments, "query"@) {
            Ok(query) => Ok(
                ToolView::Grep {
                    queries: seq![query],
                    path: optional_string_argument(arguments, "path"@),
                },
            ),
            Err(error) => Err(error),
        }
    } else if name == "run_shell_command"@ {
        match string_argument(arguments, "command"@) {
            Ok(command) => Ok(ToolView::RunShellCommand { command }),
            Err(error) => Err(error),
        }
    } else {
        Err(ToolCallErrorView::UnsupportedTool)
    }
}

/// The message that a tool call of a model makes.
pub open spec fn tool_call_message_spec(call: OpenAIToolCallView) -> Result<
    MessageTypeView,
    ToolCallErrorView,
> {
    match decoded_arguments(call.arguments) {
        Some(arguments) => match tool_for(call.name, arguments) {
            Ok(tool) => Ok(
                MessageTypeView::ToolCall(
                    ToolCallView { tool_call_id: call.id, tool: Some(tool) },
                ),
            ),
            Err(error) => Err(error),
        },
        None => Err(ToolCallErrorView::MalformedArguments),
    }
}

/// Files that are read as a whole, one for each path.
fn whole_files(paths: Vec<String>) -> (files: Vec<File>)
    ensures
        files.deep_view() == Seq::new(
            paths@.len(),
            |i: int| whole_file(paths.deep_view()[i]),
        ),
{
    let mut files: Vec<File> = Vec::new();
    let mut i: usize = 0;
    while i < paths.len()
        invariant
            i <= paths.len(),
            files@.len() == i,
            forall|j: int|
                0 <= j < i ==> #[trigger] files@[j].deep_view() == whole_file(
                    paths.deep_view()[j],
                ),
        decreases paths.len() - i,
    {
        let line_ranges: Vec<LineRange> = Vec::new();
        assert(line_ranges.deep_view() =~= seq![]);
        files.push(File { name: paths[i].clone(), line_ranges });
        i = i + 1;
    }
    assert(files.deep_view() =~= Seq::new(
        paths@.len(),
        |i: int| whole_file(paths.deep_view()[i]),
    ));
    files
}

/// The tool that the call names, with the arguments of the call.
pub fn tool_from_arguments(name: &str, arguments: &serde_json::Value) -> (tool: Result<
    Tool,
    ToolCallError,
>)
    ensures
        match tool_for(name@, json(*arguments)) {
            Ok(expected) => tool is Ok && tool->Ok_0.deep_view() == expected,
            Err(error) => tool is Err && tool->Err_0.deep_view() == error,
        },
{
    if same_text(name, "read_files") {
        match required_string_array(arguments, "paths") {
            Ok(paths) => Ok(Tool::ReadFiles { files: whole_files(paths) }),
            Err(error) => Err(error),
        }
    } else if same_text(name, "file_glob") {
        match required_string(arguments, "pattern") {
            Ok(pattern) => {
                let patterns = vec![pattern];
                assert(patterns.deep_view() =~= seq![pattern@]);
                Ok(Tool::FileGlobV2 { patterns, search_dir: optional_string(arguments, "path") })
            },
            Err(error) => Err(error),
        }
    } else if same_text(name, "grep") {
        match required_string(arguments, "query") {
            Ok(query) => {
                let queries = vec![query];
                assert(queries.deep_view() =~= seq![query@]);
                Ok(Tool::Grep { queries, path: optional_string(arguments, "path") })
            },
            Err(error) => Err(error),
        }
    } else if same_text(name, "run_shell_command") {
        match required_string(arguments, "command") {
            Ok(command) => Ok(Tool::RunShellCommand { command }),
            Err(error) => Err(error),
        }
    } else {
        Err(ToolCallError::UnsupportedTool)
    }
}

/// The message that the tool call of a model makes.
pub fn tool_call_message(call: OpenAIToolCall) -> (message: Result<MessageType, ToolCallError>)
    ensures
        match tool_call_message_spec(call.deep_view()) {
            Ok(expected) => message is Ok && message->Ok_0.deep_view() == expected,
            Err(error) => message is Err && message->Err_0.deep_view() == error,
        },
{
    let arguments = match parse_tool_arguments(call.function.arguments.as_str()) {
        Ok(arguments) => arguments,
        Err(error) => {
            return Err(error);
        },
    };
    match tool_from_arguments(call.function.name.as_str(), &arguments) {
        Ok(tool) => Ok(
            MessageType::ToolCall(ToolCall { tool_call_id: call.id, tool: Some(tool) }),
        ),
        Err(error) => Err(error),
    }
}

/// The events that answer the request with the tool call of a model.
pub fn tool_call_events(
    params: &RequestParams,
    call: OpenAIToolCall,
    source: &mut IdSource,
) -> (events: Result<Vec<ResponseEvent>, ToolCallError>)
    ensures
        match tool_call_message_spec(call.deep_view()) {
            Ok(message) => events is Ok && answered_with(
                events->Ok_0.deep_view(),
                params.deep_view(),
                message,
                old(source).drawn(),
                final(source).drawn(),
            ),
            Err(error) => {
                &&& events is Err
                &&& events->Err_0.deep_view() == error
                &&& final(source).drawn() == old(source).drawn()
            },
        },
{
    match tool_call_message(call) {
        Ok(message) => Ok(message_events(params, message, source)),
        Err(error) => Err(error),
    }
}

// ---------------------------------------------------------------------------
// Calls as a model is shown them

/// The first text of a list, empty where the list is.
pub open spec fn first_or_empty(texts: Seq<Seq<char>>) -> Seq<char> {
    if texts.len() > 0 {
        texts[0]
    } else {
        seq![]
    }
}

/// The name and the arguments by which a model is shown a call; `None` of a tool that
/// it is not offered.
pub open spec fn openai_call(tool: Option<ToolView>) -> Option<(Seq<char>, Json)> {
    match tool {
        Some(ToolView::ReadFiles { files }) => Some(
            (
                "read_files"@,
                Json::Object(
                    map!["paths"@ => Json::Array(
                        Seq::new(files.len(), |i: int| Json::Str(files[i].name)),
                    )],
                ),
            ),
        ),
        Some(ToolView::FileGlobV2 { patterns, search_dir }) => Some(
            (
                "file_glob"@,
                Json::Object(
                    map![
                        "pattern"@ => Json::Str(first_or_empty(patterns)),
                        "path"@ => Json::Str(search_dir),
                    ],
                ),
            ),
        ),
        Some(ToolView::Grep { queries, path }) => Some(
            (
                "grep"@,
                Json::Object(
                    map![
                        "query"@ => Json::Str(first_or_empty(queries)),
                        "path"@ => Json::Str(path),
                    ],
                ),
            ),
        ),
        Some(ToolView::RunShellCommand { command }) => Some(
            ("run_shell_command"@, Json::Object(map!["command"@ => Json::Str(command)])),
        ),
        _ => None,
    }
}

/// The part of a tool that a model is shown: of a list of patterns or queries the first,
/// and files without line ranges.
pub open spec fn as_shown(tool: ToolView) -> ToolView {
    match tool {
        ToolView::ReadFiles { files } => ToolView::ReadFiles {
            files: Seq::new(files.len(), |i: int| whole_file(files[i].name)),
        },
        ToolView::FileGlobV2 { patterns, search_dir } => ToolView::FileGlobV2 {
            patterns: seq![first_or_empty(patterns)],
            search_dir,
        },
        ToolView::Grep { queries, path } => ToolView::Grep {
            queries: seq![first_or_empty(queries)],
            path,
        },
        _ => tool,
    }
}

/// The names and arguments of the tools have these lengths, so no two that are told
/// apart are equal.
pub(crate) proof fn lemma_tool_key_lengths()
    ensures
        "read_files"@.len() == 10,
        "file_glob"@.len() == 9,
        "grep"@.len() == 4,
        "run_shell_command"@.len() == 17,
        "paths"@.len() == 5,
        "pattern"@.len() == 7,
        "path"@.len() == 4,
        "query"@.len() == 5,
        "command"@.len() == 7,
{
    reveal_strlit("read_files");
    reveal_strlit("file_glob");
    reveal_strlit("grep");
    reveal_strlit("run_shell_command");
    reveal_strlit("paths");
    reveal_strlit("pattern");
    reveal_strlit("path");
    reveal_strlit("query");
    reveal_strlit("command");
}

/// A call that a model is shown is one that it can make, and it is then the call as it
/// was shown.
pub proof fn law_shown_call_is_accepted(tool: ToolView)
    requires
        openai_call(Some(tool)) is Some,
    ensures
        openai_call(Some(tool)) matches Some((name, arguments)) && tool_for(name, arguments) == Ok::<
            ToolView,
            ToolCallErrorView,
        >(as_shown(tool)),
{
    lemma_tool_key_lengths();
    match tool {
        ToolView::ReadFiles { files } => {
            let items = Seq::new(files.len(), |i: int| Json::Str(files[i].name));
            let paths = item_texts(items);
            assert(Seq::new(paths.len(), |i: int| whole_file(paths[i])) =~= Seq::new(
                files.len(),
                |i: int| whole_file(files[i].name),
            ));
        },
        _ => {},
    }
}

/// A call that a model made is shown to it under the name that it used, with arguments
/// that make the same call.
pub proof fn law_accepted_call_is_shown_unchanged(name: Seq<char>, arguments: Json, tool: ToolView)
    requires
        tool_for(name, arguments) == Ok::<ToolView, ToolCallErrorView>(tool),
    ensures
        as_shown(tool) == tool,
        openai_call(Some(tool)) matches Some((shown_name, shown_arguments)) && shown_name == name
            && tool_for(shown_name, shown_arguments) == Ok::<ToolView, ToolCallErrorView>(tool),
{
    lemma_tool_key_lengths();
    law_shown_call_is_accepted(tool);
    assert(as_shown(tool) =~~= tool);
}

/// The first text of the list, empty where the list is.
fn first_text(texts: &Vec<String>) -> (text: String)
    ensures
        text@ == first_or_empty(texts.deep_view()),
{
    if texts.len() > 0 {
        texts[0].clone()
    } else {
        String::new()
    }
}

/// The names of the files as an array.
fn file_names(files: &Vec<File>) -> (names: serde_json::Value)
    ensures
        json(names) == Json::Array(
            Seq::new(files@.len(), |i: int| Json::Str(files.deep_view()[i].name)),
        ),
{
    let mut names: Vec<serde_json::Value> = Vec::new();
    let mut i: usize = 0;
    while i < files.len()
        invariant
            i <= files.len(),
            names@.len() == i,
            forall|j: int|
                0 <= j < i ==> json(#[trigger] names@[j]) == Json::Str(
                    files.deep_view()[j].name,
                ),
        decreases files.len() - i,
    {
        names.push(json_string(files[i].name.as_str()));
        i = i + 1;
    }
    assert(json_items(names@) =~= Seq::new(
        files@.len(),
        |i: int| Json::Str(files.deep_view()[i].name),
    ));
    json_array(names)
}

/// The name and the arguments by which a model is shown the call. The arguments read
/// back as they were written, so a model that repeats what it is shown makes the call
/// as it was shown.
pub fn tool_call_to_openai(call: &ToolCall) -> (shown: Option<(&'static str, String)>)
    ensures
        match openai_call(call.deep_view().tool) {
            Some((name, arguments)) => {
                &&& shown matches Some((shown_name, text))
                &&& shown_name@ == name
                &&& text@ == json_text(arguments)
                &&& parsed_json(text@) == Some(arguments)
                &&& decoded_arguments(text@) == Some(arguments)
                &&& forall|id: Seq<char>| #[trigger]
                    tool_call_message_spec(
                        OpenAIToolCallView { id, name: shown_name@, arguments: text@ },
                    ) == Ok::<MessageTypeView, ToolCallErrorView>(
                        MessageTypeView::ToolCall(
                            ToolCallView {
                                tool_call_id: id,
                                tool: Some(as_shown(call.deep_view().tool->0)),
                            },
                        ),
                    )
            },
            None => shown is None,
        },
{
    proof {
        lemma_tool_key_lengths();
        if openai_call(call.deep_view().tool) is Some {
            law_shown_call_is_accepted(call.deep_view().tool->0);
        }
    }
    match &call.tool {
        Some(Tool::ReadFiles { files }) => {
            let arguments = json_object1("paths", file_names(files));
            Some(("read_files", write_json(&arguments)))
        },
        Some(Tool::FileGlobV2 { patterns, search_dir }) => {
            let pattern = first_text(patterns);
            let arguments = json_object2(
                "pattern",
                json_string(pattern.as_str()),
                "path",
                json_string(search_dir.as_str()),
            );
            Some(("file_glob", write_json(&arguments)))
        },
        Some(Tool::Grep { queries, path }) => {
            let query = first_text(queries);
            let arguments = json_object2(
                "query",
                json_string(query.as_str()),
                "path",
                json_string(path.as_str()),
            );
            Some(("grep", write_json(&arguments)))
        },
        Some(Tool::RunShellCommand { command }) => {
            let arguments = json_object1("command", json_string(command.as_str()));
            Some(("run_shell_command", write_json(&arguments)))
        },
        _ => None,
    }
}

/// Arguments that are JSON in a JSON string say what the JSON in the string says.
pub proof fn law_double_encoding_is_transparent(text: Seq<char>, encoded: Seq<char>)
    requires
        parsed_json(text) == Some(Json::Str(encoded)),
        !(parsed_json(encoded) matches Some(Json::Str(_))),
    ensures
        decoded_arguments(text) == decoded_arguments(encoded),
{
}

/// Arguments that are accepted are an object.
pub proof fn law_arguments_are_an_object(text: Seq<char>)
    ensures
        decoded_arguments(text) matches Some(arguments) ==> arguments is Object,
{
}

/// A required string is the text of the string under its key. Where there is no member
/// under the key, or one that is no string, the key is named as missing; so it is where
/// the arguments are no object.
pub proof fn law_required_string_is_the_member(
    members: Map<Seq<char>, Json>,
    other: Json,
    key: Seq<char>,
)
    ensures
        members.contains_key(key) ==> (members[key] matches Json::Str(text) ==> string_argument(
            Json::Object(members),
            key,
        ) == Ok::<Seq<char>, ToolCallErrorView>(text)),
        !members.contains_key(key) || !(members[key] is Str) ==> string_argument(
            Json::Object(members),
            key,
        ) == Err::<Seq<char>, ToolCallErrorView>(ToolCallErrorView::MissingArgument { key }),
        !(other is Object) ==> string_argument(other, key) == Err::<Seq<char>, ToolCallErrorView>(
            ToolCallErrorView::MissingArgument { key },
        ),
{
}

/// An optional string is the text of the string under its key, and empty where there is
/// no string.
pub proof fn law_optional_string_is_the_member_or_empty(
    members: Map<Seq<char>, Json>,
    other: Json,
    key: Seq<char>,
)
    ensures
        members.contains_key(key) ==> (members[key] matches Json::Str(text)
            ==> optional_string_argument(Json::Object(members), key) == text),
        !members.contains_key(key) || !(members[key] is Str) ==> optional_string_argument(
            Json::Object(members),
            key,
        ).len() == 0,
        !(other is Object) ==> optional_string_argument(other, key).len() == 0,
{
}

/// A required list is the texts of the array under its key, in order. An array with
/// anything but strings in it is invalid, and anything but an array is missing.
pub proof fn law_required_list_is_the_texts_of_the_member(
    members: Map<Seq<char>, Json>,
    other: Json,
    items: Seq<Json>,
    key: Seq<char>,
)
    ensures
        members.contains_key(key) && members[key] == Json::Array(items) && (forall|i: int|
            0 <= i < items.len() ==> #[trigger] items[i] is Str) ==> {
            &&& string_list_argument(Json::Object(members), key) matches Ok(texts)
            &&& texts.len() == items.len()
            &&& forall|i: int|
                0 <= i < items.len() ==> items[i] == Json::Str(#[trigger] texts[i])
        },
        members.contains_key(key) && members[key] == Json::Array(items) && (exists|i: int|
            0 <= i < items.len() && !(#[trigger] items[i] is Str)) ==> string_list_argument(
            Json::Object(members),
            key,
        ) == Err::<Seq<Seq<char>>, ToolCallErrorView>(ToolCallErrorView::InvalidArgument { key }),
        !members.contains_key(key) || !(members[key] is Array) ==> string_list_argument(
            Json::Object(members),
            key,
        ) == Err::<Seq<Seq<char>>, ToolCallErrorView>(ToolCallErrorView::MissingArgument { key }),
        !(other is Object) ==> string_list_argument(other, key) == Err::<
            Seq<Seq<char>>,
            ToolCallErrorView,
        >(ToolCallErrorView::MissingArgument { key }),
{
}

/// A call of `read_files` reads the files at its paths, in order and each as a whole.
/// Paths that are not all strings are invalid, and paths that are no array are missing.
pub proof fn law_read_files_reads_its_paths(members: Map<Seq<char>, Json>, items: Seq<Json>)
    ensures
        members.contains_key("paths"@) && members["paths"@] == Json::Array(items) && (forall|i: int|
            0 <= i < items.len() ==> #[trigger] items[i] is Str) ==> {
            &&& tool_for("read_files"@, Json::Object(members)) matches Ok(
                ToolView::ReadFiles { files },
            )
            &&& files.len() == items.len()
            &&& forall|i: int|
                0 <= i < items.len() ==> items[i] == Json::Str((#[trigger] files[i]).name)
                    && files[i].line_ranges.len() == 0
        },
        members.contains_key("paths"@) && members["paths"@] == Json::Array(items) && (exists|i: int|
            0 <= i < items.len() && !(#[trigger] items[i] is Str)) ==> tool_for(
            "read_files"@,
            Json::Object(members),
        ) == Err::<ToolView, ToolCallErrorView>(
            ToolCallErrorView::InvalidArgument { key: "paths"@ },
        ),
        !members.contains_key("paths"@) || !(members["paths"@] is Array) ==> tool_for(
            "read_files"@,
            Json::Object(members),
        ) == Err::<ToolView, ToolCallErrorView>(
            ToolCallErrorView::MissingArgument { key: "paths"@ },
        ),
{
    lemma_tool_key_lengths();
}

/// A call of `file_glob` looks for its pattern below its path, or below no particular
/// path where it names none. Without a pattern it is refused.
pub proof fn law_file_glob_looks_for_its_pattern(members: Map<Seq<char>, Json>, pattern: Seq<char>)
    ensures
        members.contains_key("pattern"@) && members["pattern"@] == Json::Str(pattern) ==> {
            &&& tool_for("file_glob"@, Json::Object(members)) matches Ok(
                ToolView::FileGlobV2 { patterns, search_dir },
            )
            &&& patterns == seq![pattern]
            &&& if members.contains_key("path"@) && members["path"@] is Str {
                members["path"@] == Json::Str(search_dir)
            } else {
                search_dir.len() == 0
            }
        },
        !members.contains_key("pattern"@) || !(members["pattern"@] is Str) ==> tool_for(
            "file_glob"@,
            Json::Object(members),
        ) == Err::<ToolView, ToolCallErrorView>(
            ToolCallErrorView::MissingArgument { key: "pattern"@ },
        ),
{
    lemma_tool_key_lengths();
}

/// A call of `grep` searches for its query below its path, or below no particular path
/// where it names none. Without a query it is refused.
pub proof fn law_grep_searches_for_its_query(members: Map<Seq<char>, Json>, query: Seq<char>)
    ensures
        members.contains_key("query"@) && members["query"@] == Json::Str(query) ==> {
            &&& tool_for("grep"@, Json::Object(members)) matches Ok(
                ToolView::Grep { queries, path },
            )
            &&& queries == seq![query]
            &&& if members.contains_key("path"@) && members["path"@] is Str {
                members["path"@] == Json::Str(path)
            } else {
                path.len() == 0
            }
        },
        !members.contains_key("query"@) || !(members["query"@] is Str) ==> tool_for(
            "grep"@,
            Json::Object(members),
        ) == Err::<ToolView, ToolCallErrorView>(
            ToolCallErrorView::MissingArgument { key: "query"@ },
        ),
{
    lemma_tool_key_lengths();
}

/// A call of `run_shell_command` runs its command as it is. Without a command it is
/// refused.
pub proof fn law_shell_command_is_run_as_it_is(members: Map<Seq<char>, Json>, command: Seq<char>)
    ensures
        members.contains_key("command"@) && members["command"@] == Json::Str(command) ==> tool_for(
            "run_shell_command"@,
            Json::Object(members),
        ) == Ok::<ToolView, ToolCallErrorView>(ToolView::RunShellCommand { command }),
        !members.contains_key("command"@) || !(members["command"@] is Str) ==> tool_for(
            "run_shell_command"@,
            Json::Object(members),
        ) == Err::<ToolView, ToolCallErrorView>(
            ToolCallErrorView::MissingArgument { key: "command"@ },
        ),
{
    lemma_tool_key_lengths();
}

/// A call of any other tool is refused, whatever its arguments.
pub proof fn law_other_tools_are_refused(name: Seq<char>, arguments: Json)
    requires
        name != "read_files"@,
        name != "file_glob"@,
        name != "grep"@,
        name != "run_shell_command"@,
    ensures
        tool_for(name, arguments) == Err::<ToolView, ToolCallErrorView>(
            ToolCallErrorView::UnsupportedTool,
        ),
{
}

/// A value says an object where it is one, and where it is a string that holds the JSON
/// of one; otherwise it says none.
pub proof fn law_arguments_are_read_once_or_twice(content: Json, members: Map<Seq<char>, Json>)
    ensures
        object_only(Some(Json::Object(members))) == Some(Json::Object(members)),
        !(content is Object) ==> object_only(Some(content)) is None,
        object_only(None) is None,
        value_arguments(Json::Object(members)) == Some(Json::Object(members)),
        content matches Json::Str(encoded) ==> (parsed_json(encoded) == Some(Json::Object(members))
            ==> value_arguments(content) == Some(Json::Object(members))),
        content matches Json::Str(encoded) ==> (!(parsed_json(encoded) matches Some(
            Json::Object(_),
        )) ==> value_arguments(content) is None),
        !(content is Object) && !(content is Str) ==> value_arguments(content) is None,
{
}

/// The arguments of a call are what the JSON that they are says; where they are no JSON
/// they are malformed.
pub proof fn law_arguments_are_what_their_json_says(text: Seq<char>)
    ensures
        parsed_json(text) matches Some(content) ==> decoded_arguments(text) == value_arguments(
            content,
        ),
        parsed_json(text) matches Some(content) && content is Object ==> decoded_arguments(text)
            == parsed_json(text),
        parsed_json(text) is None ==> decoded_arguments(text) is None,
{
}

/// A call that is accepted becomes a message with the identifier of the call and its
/// tool; one that is not is refused for what is wrong with its arguments or its tool.
pub proof fn law_call_keeps_its_identifier(call: OpenAIToolCallView, arguments: Json)
    ensures
        decoded_arguments(call.arguments) is None ==> tool_call_message_spec(call) == Err::<
            MessageTypeView,
            ToolCallErrorView,
        >(ToolCallErrorView::MalformedArguments),
        decoded_arguments(call.arguments) == Some(arguments) ==> match tool_for(
            call.name,
            arguments,
        ) {
            Ok(tool) => {
                &&& tool_call_message_spec(call) matches Ok(MessageTypeView::ToolCall(made))
                &&& made.tool_call_id == call.id
                &&& made.tool == Some(tool)
            },
            Err(error) => tool_call_message_spec(call) == Err::<MessageTypeView, ToolCallErrorView>(
                error,
            ),
        },
{
}

/// A model is shown a tool under the name by which it calls it, with the arguments that
/// it gives: the names of the files, the first pattern or query with the path, or the
/// command. It is shown no other tool.
pub proof fn law_tools_are_shown_with_their_arguments(
    files: Seq<FileView>,
    texts: Seq<Seq<char>>,
    path: Seq<char>,
    command: Seq<char>,
    other: Seq<u8>,
)
    ensures
        openai_call(Some(ToolView::ReadFiles { files })) matches Some((name, arguments)) && name
            == "read_files"@ && arguments == Json::Object(
            map!["paths"@ => Json::Array(files.map_values(|file: FileView| Json::Str(file.name)))],
        ),
        texts.len() > 0 ==> openai_call(
            Some(ToolView::FileGlobV2 { patterns: texts, search_dir: path }),
        ) == Some(
            (
                "file_glob"@,
                Json::Object(
                    map!["pattern"@ => Json::Str(texts[0]), "path"@ => Json::Str(path)],
                ),
            ),
        ),
        texts.len() == 0 ==> openai_call(
            Some(ToolView::FileGlobV2 { patterns: texts, search_dir: path }),
        ) == Some(
            (
                "file_glob"@,
                Json::Object(map!["pattern"@ => Json::Str(seq![]), "path"@ => Json::Str(path)]),
            ),
        ),
        texts.len() > 0 ==> openai_call(Some(ToolView::Grep { queries: texts, path })) == Some(
            (
                "grep"@,
                Json::Object(map!["query"@ => Json::Str(texts[0]), "path"@ => Json::Str(path)]),
            ),
        ),
        texts.len() == 0 ==> openai_call(Some(ToolView::Grep { queries: texts, path })) == Some(
            (
                "grep"@,
                Json::Object(map!["query"@ => Json::Str(seq![]), "path"@ => Json::Str(path)]),
            ),
        ),
        openai_call(Some(ToolView::RunShellCommand { command })) == Some(
            ("run_shell_command"@, Json::Object(map!["command"@ => Json::Str(command)])),
        ),
        openai_call(Some(ToolView::Other(other))) is None,
        openai_call(None) is None,
{
    assert(Seq::new(files.len(), |i: int| Json::Str(files[i].name)) =~= files.map_values(
        |file: FileView| Json::Str(file.name),
    ));
}

/// What is shown of a tool: all of it, but of several patterns or queries only the first
/// and of files only their names.
pub proof fn law_shown_part_of_a_tool(
    files: Seq<FileView>,
    texts: Seq<Seq<char>>,
    path: Seq<char>,
    command: Seq<char>,
)
    requires
        texts.len() > 0,
    ensures
        as_shown(ToolView::ReadFiles { files }) matches ToolView::ReadFiles { files: shown }
            && shown.len() == files.len() && forall|i: int|
            0 <= i < files.len() ==> (#[trigger] shown[i]).name == files[i].name
                && shown[i].line_ranges.len() == 0,
        as_shown(ToolView::FileGlobV2 { patterns: texts, search_dir: path })
            == (ToolView::FileGlobV2 { patterns: seq![texts[0]], search_dir: path }),
        as_shown(ToolView::Grep { queries: texts, path }) == (ToolView::Grep {
            queries: seq![texts[0]],
            path,
        }),
        as_shown(ToolView::RunShellCommand { command }) == (ToolView::RunShellCommand { command }),
{
}

/// The view of a call of a model has its fields, and that of a refusal is of its kind and
/// has its key.
pub proof fn law_view_of_a_call(call: OpenAIToolCall, error: ToolCallError)
    ensures
        call.deep_view().id == call.id@,
        call.deep_view().name == call.function.name@,
        call.deep_view().arguments == call.function.arguments@,
        error is MalformedArguments ==> error.deep_view() is MalformedArguments,
        error matches ToolCallError::MissingArgument { key } ==> error.deep_view() == (
        ToolCallErrorView::MissingArgument { key: key@ }),
        error matches ToolCallError::InvalidArgument { key } ==> error.deep_view() == (
        ToolCallErrorView::InvalidArgument { key: key@ }),
        error is UnsupportedTool ==> error.deep_view() is UnsupportedTool,
{
}

} // verus!

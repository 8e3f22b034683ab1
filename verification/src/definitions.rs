//! What a local model is told of the tools that it is offered.
use crate::json::{
    json, json_array, json_bool, json_integer, json_items, json_object1, json_object2,
    json_object3, json_object4, json_string, Json,
};
use crate::tools::{lemma_tool_key_lengths, tool_for, ToolCallErrorView};
use vstd::prelude::*;

verus! {

/// The definition of a tool.
pub open spec fn tool_definition_json(
    name: Seq<char>,
    description: Seq<char>,
    parameters: Json,
) -> Json {
    Json::Object(
        map![
            "type"@ => Json::Str("function"@),
            "function"@ => Json::Object(
                map![
                    "name"@ => Json::Str(name),
                    "description"@ => Json::Str(description),
                    "parameters"@ => parameters,
                ],
            ),
        ],
    )
}

/// The schema of a string argument.
pub open spec fn string_schema(description: Seq<char>) -> Json {
    Json::Object(
        map!["type"@ => Json::Str("string"@), "description"@ => Json::Str(description)],
    )
}

/// The schema of an argument that lists at least one string.
pub open spec fn string_list_schema(description: Seq<char>) -> Json {
    Json::Object(
        map![
            "type"@ => Json::Str("array"@),
            "description"@ => Json::Str(description),
            "items"@ => Json::Object(map!["type"@ => Json::Str("string"@)]),
            "minItems"@ => Json::Integer(1),
        ],
    )
}

/// The schema of an object with one required member and no members but the given ones.
pub open spec fn object_schema_json(properties: Json, required: Seq<char>) -> Json {
    Json::Object(
        map![
            "type"@ => Json::Str("object"@),
            "additionalProperties"@ => Json::Bool(false),
            "properties"@ => properties,
            "required"@ => Json::Array(seq![Json::Str(required)]),
        ],
    )
}

/// The schema of the arguments of `read_files`.
pub open spec fn read_files_parameters() -> Json {
    object_schema_json(
        Json::Object(map!["paths"@ => string_list_schema("File paths to read."@)]),
        "paths"@,
    )
}

/// The definition of `read_files`.
pub open spec fn read_files_json() -> Json {
    tool_definition_json(
        "read_files"@,
        "Read one or more local files"@,
        read_files_parameters(),
    )
}

/// The schema of the arguments of `file_glob`.
pub open spec fn file_glob_parameters() -> Json {
    object_schema_json(
        Json::Object(
            map![
                "pattern"@ => string_schema("Required filename glob pattern, for example *.rs. Matching is recursive below the search directory."@),
                "path"@ => string_schema("Optional directory to search. Omit to use the current working directory."@),
            ],
        ),
        "pattern"@,
    )
}

/// The definition of `file_glob`.
pub open spec fn file_glob_json() -> Json {
    tool_definition_json(
        "file_glob"@,
        "Recursively search for files matching one glob pattern. This walks descendants and can be expensive in a large directory. Do not use it to list only the immediate entries of a directory; use run_shell_command with an appropriate directory-listing command instead."@,
        file_glob_parameters(),
    )
}

/// The schema of the arguments of `grep`.
pub open spec fn grep_parameters() -> Json {
    object_schema_json(
        Json::Object(
            map![
                "query"@ => string_schema("Required text or regular expression to search for."@),
                "path"@ => string_schema("Optional file or directory to search."@),
            ],
        ),
        "query"@,
    )
}

/// The definition of `grep`.
pub open spec fn grep_json() -> Json {
    tool_definition_json(
        "grep"@,
        "Search file contents"@,
        grep_parameters(),
    )
}

/// The schema of the arguments of `run_shell_command`.
pub open spec fn run_shell_command_parameters() -> Json {
    object_schema_json(
        Json::Object(
            map!["command"@ => string_schema("Required shell command to execute."@)],
        ),
        "command"@,
    )
}

/// The definition of `run_shell_command`.
pub open spec fn run_shell_command_json() -> Json {
    tool_definition_json(
        "run_shell_command"@,
        "Run a shell command with Warp permission checks. Use this for shell-native operations such as listing the immediate entries in the current directory."@,
        run_shell_command_parameters(),
    )
}

/// The definitions of all tools that a local model is offered.
pub open spec fn tool_definitions_json() -> Seq<Json> {
    seq![read_files_json(), file_glob_json(), grep_json(), run_shell_command_json()]
}

/// The definition of a tool.
pub fn tool_definition(name: &str, description: &str, parameters: serde_json::Value) -> (definition:
    serde_json::Value)
    ensures
        json(definition) == tool_definition_json(name@, description@, json(parameters)),
{
    proof {
        lemma_key_lengths();
    }
    json_object2(
        "type",
        json_string("function"),
        "function",
        json_object3(
            "name",
            json_string(name),
            "description",
            json_string(description),
            "parameters",
            parameters,
        ),
    )
}

/// The schema of a string argument.
fn string_property(description: &str) -> (schema: serde_json::Value)
    ensures
        json(schema) == string_schema(description@),
{
    proof {
        lemma_key_lengths();
    }
    json_object2("type", json_string("string"), "description", json_string(description))
}

/// The schema of an argument that lists at least one string.
fn string_list_property(description: &str) -> (schema: serde_json::Value)
    ensures
        json(schema) == string_list_schema(description@),
{
    proof {
        lemma_key_lengths();
    }
    json_object4(
        "type",
        json_string("array"),
        "description",
        json_string(description),
        "items",
        json_object1("type", json_string("string")),
        "minItems",
        json_integer(1),
    )
}

/// The schema of an object with one required member and no members but the given ones.
fn object_schema(properties: serde_json::Value, required: &str) -> (schema: serde_json::Value)
    ensures
        json(schema) == object_schema_json(json(properties), required@),
{
    proof {
        lemma_key_lengths();
    }
    let keys = vec![json_string(required)];
    assert(json_items(keys@) =~= seq![Json::Str(required@)]);
    json_object4(
        "type",
        json_string("object"),
        "additionalProperties",
        json_bool(false),
        "properties",
        properties,
        "required",
        json_array(keys),
    )
}

/// The definitions of all tools that a local model is offered.
pub fn tool_definitions() -> (definitions: Vec<serde_json::Value>)
    ensures
        json_items(definitions@) == tool_definitions_json(),
{
    proof {
        lemma_tool_key_lengths();
    }
    let definitions = vec![
        tool_definition(
            "read_files",
            "Read one or more local files",
            object_schema(
                json_object1("paths", string_list_property("File paths to read.")),
                "paths",
            ),
        ),
        tool_definition(
            "file_glob",
            "Recursively search for files matching one glob pattern. This walks descendants and can be expensive in a large directory. Do not use it to list only the immediate entries of a directory; use run_shell_command with an appropriate directory-listing command instead.",
            object_schema(
                json_object2(
                    "pattern",
                    string_property(
                        "Required filename glob pattern, for example *.rs. Matching is recursive below the search directory.",
                    ),
                    "path",
                    string_property(
                        "Optional directory to search. Omit to use the current working directory.",
                    ),
                ),
                "pattern",
            ),
        ),
        tool_definition(
            "grep",
            "Search file contents",
            object_schema(
                json_object2(
                    "query",
                    string_property("Required text or regular expression to search for."),
                    "path",
                    string_property("Optional file or directory to search."),
                ),
                "query",
            ),
        ),
        tool_definition(
            "run_shell_command",
            "Run a shell command with Warp permission checks. Use this for shell-native operations such as listing the immediate entries in the current directory.",
            object_schema(
                json_object1("command", string_property("Required shell command to execute.")),
                "command",
            ),
        ),
    ];
    assert(json_items(definitions@) =~= tool_definitions_json());
    definitions
}

// ---------------------------------------------------------------------------
// Definitions and calls

/// The name that a definition gives its tool.
pub open spec fn definition_name(definition: Json) -> Option<Seq<char>> {
    match definition.member("function"@) {
        Some(function) => function.string_member("name"@),
        None => None,
    }
}

/// The schema that a definition gives the arguments of its tool.
pub open spec fn definition_parameters(definition: Json) -> Option<Json> {
    match definition.member("function"@) {
        Some(function) => function.member("parameters"@),
        None => None,
    }
}

/// Whether a local model is offered a tool of that name.
pub open spec fn is_offered(name: Seq<char>) -> bool {
    exists|i: int|
        0 <= i < tool_definitions_json().len() && definition_name(
            #[trigger] tool_definitions_json()[i],
        ) == Some(name)
}

/// Whether a value is of the type that a schema of a string, or of a list of strings,
/// asks for.
pub open spec fn fits_schema(value: Json, schema: Json) -> bool {
    if schema.string_member("type"@) == Some("string"@) {
        value is Str
    } else {
        &&& schema.string_member("type"@) == Some("array"@)
        &&& value matches Json::Array(items)
        &&& schema.member("minItems"@) matches Some(Json::Integer(least))
        &&& items.len() >= least
        &&& schema.member("items"@) matches Some(item)
        &&& item.string_member("type"@) == Some("string"@)
        &&& forall|i: int| 0 <= i < items.len() ==> #[trigger] items[i] is Str
    }
}

/// Whether a key is among those that a schema requires.
pub open spec fn requires_key(parameters: Json, key: Seq<char>) -> bool {
    parameters.member("required"@) matches Some(Json::Array(keys)) && keys.contains(Json::Str(key))
}

/// Whether arguments are what a schema asks for: an object with every required member,
/// whose members are all described by the schema and fit it.
pub open spec fn conforms(arguments: Json, parameters: Json) -> bool {
    &&& arguments matches Json::Object(members)
    &&& parameters.member("properties"@) matches Some(properties)
    &&& forall|key: Seq<char>| #[trigger]
        requires_key(parameters, key) ==> members.contains_key(key)
    &&& forall|key: Seq<char>| #[trigger]
        members.contains_key(key) ==> match properties.member(key) {
            Some(schema) => fits_schema(members[key], schema),
            None => false,
        }
}

/// The keys of definitions and schemas have these lengths, so no two keys of one object
/// are equal.
proof fn lemma_key_lengths()
    ensures
        "type"@.len() == 4,
        "function"@.len() == 8,
        "name"@.len() == 4,
        "description"@.len() == 11,
        "parameters"@.len() == 10,
        "additionalProperties"@.len() == 20,
        "properties"@.len() == 10,
        "required"@.len() == 8,
        "items"@.len() == 5,
        "minItems"@.len() == 8,
        "string"@.len() == 6,
        "array"@.len() == 5,
{
    reveal_strlit("type");
    reveal_strlit("function");
    reveal_strlit("name");
    reveal_strlit("description");
    reveal_strlit("parameters");
    reveal_strlit("additionalProperties");
    reveal_strlit("properties");
    reveal_strlit("required");
    reveal_strlit("items");
    reveal_strlit("minItems");
    reveal_strlit("string");
    reveal_strlit("array");
}

/// What can be read out of a definition.
proof fn lemma_definition_parts()
    ensures
        forall|name: Seq<char>, description: Seq<char>, parameters: Json|
            definition_name(#[trigger] tool_definition_json(name, description, parameters)) == Some(
                name,
            ),
        forall|name: Seq<char>, description: Seq<char>, parameters: Json|
            definition_parameters(#[trigger] tool_definition_json(name, description, parameters))
                == Some(parameters),
{
    lemma_key_lengths();
}

/// What can be read out of the schema of the arguments.
proof fn lemma_schema_parts()
    ensures
        forall|properties: Json, required: Seq<char>|
            (#[trigger] object_schema_json(properties, required)).member("properties"@) == Some(
                properties,
            ),
        forall|properties: Json, required: Seq<char>, key: Seq<char>|
            #[trigger] requires_key(object_schema_json(properties, required), key) <==> key
                == required,
{
    lemma_key_lengths();
    assert forall|properties: Json, required: Seq<char>, key: Seq<char>|
        #[trigger] requires_key(object_schema_json(properties, required), key) <==> key
            == required by {
        let keys = seq![Json::Str(required)];
        assert(keys[0] == Json::Str(required));
        assert(object_schema_json(properties, required).member("required"@) == Some(
            Json::Array(keys),
        ));
        assert(keys.contains(Json::Str(key)) <==> Json::Str(key) == keys[0]);
    }
}

/// What fits the schema of an argument.
proof fn lemma_fits()
    ensures
        forall|value: Json, description: Seq<char>|
            #[trigger] fits_schema(value, string_schema(description)) <==> value is Str,
        forall|value: Json, description: Seq<char>|
            #[trigger] fits_schema(value, string_list_schema(description)) ==> (
            value matches Json::Array(items) && forall|i: int|
                0 <= i < items.len() ==> #[trigger] items[i] is Str),
{
    lemma_key_lengths();
}

/// The tools that a model is offered are the tools that it can call: a call is refused
/// as unsupported exactly where no definition bears its name.
pub proof fn law_offered_tools_are_supported(name: Seq<char>, arguments: Json)
    ensures
        (tool_for(name, arguments) matches Err(ToolCallErrorView::UnsupportedTool))
            <==> !is_offered(name),
{
    lemma_tool_key_lengths();
    lemma_definition_parts();
    let definitions = tool_definitions_json();
    assert(definition_name(definitions[0]) == Some("read_files"@));
    assert(definition_name(definitions[1]) == Some("file_glob"@));
    assert(definition_name(definitions[2]) == Some("grep"@));
    assert(definition_name(definitions[3]) == Some("run_shell_command"@));
}

/// A call whose arguments conform to the advertised schema of the tool is accepted.
pub proof fn law_conforming_calls_are_accepted(definition: Json, name: Seq<char>, arguments: Json)
    requires
        tool_definitions_json().contains(definition),
        definition_name(definition) == Some(name),
        conforms(arguments, definition_parameters(definition)->0),
    ensures
        tool_for(name, arguments) is Ok,
{
    lemma_tool_key_lengths();
    lemma_definition_parts();
    lemma_schema_parts();
    lemma_fits();
    let parameters = definition_parameters(definition)->0;
    if definition == read_files_json() {
        assert(requires_key(parameters, "paths"@));
    } else if definition == file_glob_json() {
        assert(requires_key(parameters, "pattern"@));
    } else if definition == grep_json() {
        assert(requires_key(parameters, "query"@));
    } else {
        assert(requires_key(parameters, "command"@));
    }
}

/// A call without an argument that the advertised schema requires is refused, and the
/// refusal names the argument.
pub proof fn law_required_arguments_are_required(
    definition: Json,
    name: Seq<char>,
    arguments: Json,
    key: Seq<char>,
)
    requires
        tool_definitions_json().contains(definition),
        definition_name(definition) == Some(name),
        requires_key(definition_parameters(definition)->0, key),
        arguments.member(key) is None,
    ensures
        tool_for(name, arguments) matches Err(ToolCallErrorView::MissingArgument { key: missing })
            && missing == key,
{
    lemma_tool_key_lengths();
    lemma_definition_parts();
    lemma_schema_parts();
}

/// The members of a definition and of the schemas in it.
pub proof fn law_form_of_definitions(
    name: Seq<char>,
    description: Seq<char>,
    parameters: Json,
    properties: Json,
    required: Seq<char>,
)
    ensures
        tool_definition_json(name, description, parameters) == Json::Object(
            map![
                "type"@ => Json::Str("function"@),
                "function"@ => Json::Object(
                    map![
                        "name"@ => Json::Str(name),
                        "description"@ => Json::Str(description),
                        "parameters"@ => parameters,
                    ],
                ),
            ],
        ),
        object_schema_json(properties, required) == Json::Object(
            map![
                "type"@ => Json::Str("object"@),
                "additionalProperties"@ => Json::Bool(false),
                "properties"@ => properties,
                "required"@ => Json::Array(seq![Json::Str(required)]),
            ],
        ),
        string_schema(description) == Json::Object(
            map!["type"@ => Json::Str("string"@), "description"@ => Json::Str(description)],
        ),
        string_list_schema(description) == Json::Object(
            map![
                "type"@ => Json::Str("array"@),
                "description"@ => Json::Str(description),
                "items"@ => Json::Object(map!["type"@ => Json::Str("string"@)]),
                "minItems"@ => Json::Integer(1),
            ],
        ),
{
}

/// A model is told of four tools, each with its own arguments and the one of them that
/// it has to give.
pub proof fn law_what_a_model_is_told_of_its_tools()
    ensures
        tool_definitions_json() == seq![
            tool_definition_json(
                "read_files"@,
                "Read one or more local files"@,
                object_schema_json(
                    Json::Object(map!["paths"@ => string_list_schema("File paths to read."@)]),
                    "paths"@,
                ),
            ),
            tool_definition_json(
                "file_glob"@,
                "Recursively search for files matching one glob pattern. This walks descendants and can be expensive in a large directory. Do not use it to list only the immediate entries of a directory; use run_shell_command with an appropriate directory-listing command instead."@,
                object_schema_json(
                    Json::Object(
                        map![
                            "pattern"@ => string_schema("Required filename glob pattern, for example *.rs. Matching is recursive below the search directory."@),
                            "path"@ => string_schema("Optional directory to search. Omit to use the current working directory."@),
                        ],
                    ),
                    "pattern"@,
                ),
            ),
            tool_definition_json(
                "grep"@,
                "Search file contents"@,
                object_schema_json(
                    Json::Object(
                        map![
                            "query"@ => string_schema("Required text or regular expression to search for."@),
                            "path"@ => string_schema("Optional file or directory to search."@),
                        ],
                    ),
                    "query"@,
                ),
            ),
            tool_definition_json(
                "run_shell_command"@,
                "Run a shell command with Warp permission checks. Use this for shell-native operations such as listing the immediate entries in the current directory."@,
                object_schema_json(
                    Json::Object(
                        map!["command"@ => string_schema("Required shell command to execute."@)],
                    ),
                    "command"@,
                ),
            ),
        ],
{
}

} // verus!

//! The tools that the agent offers the model, which tool a call asks for, and
//! the text that each tool reports back.
use vstd::prelude::*;

use crate::json::{Json, JsonValue, lookup, lemma_lookup_front, lemma_lookup_found, parse_json, parsed_json, json_text, lemma_views, member_views, push_item, push_member, views};
use crate::text::{
    lossy, lossy_text,
    blank, byte_count, byte_len, concat, cut_text, is_blank, is_boundary, is_cut, joined,
    push_decimal, push_signed_decimal, decimal, same_text, signed_decimal, sort_lines,
    sorted_texts, views_of, join_lines, chars_of, joined_sorted_unique,
};
use crate::types::{FunctionDefinition, ToolDefinition, ToolDefinitionView, definition_views};

verus! {

// ----- the tools offered to the model -----

/// The schema of a string argument.
pub open spec fn string_param_json(description: Seq<char>) -> Json {
    Json::Object(seq![("type"@, Json::Str("string"@)), ("description"@, Json::Str(description))])
}

/// The schema of an object with the given properties, and the names of the
/// required ones where there is such a list.
pub open spec fn schema_json(properties: Seq<(Seq<char>, Json)>, required: Option<Seq<Json>>) -> Json {
    Json::Object(
        seq![("type"@, Json::Str("object"@)), ("properties"@, Json::Object(properties))]
            + match required {
            Some(r) => seq![("required"@, Json::Array(r))],
            None => Seq::empty(),
        },
    )
}

pub open spec fn tool_json(name: Seq<char>, description: Seq<char>, parameters: Json) -> ToolDefinitionView {
    ToolDefinitionView { kind: "function"@, name, description, parameters }
}

/// The five tools: read a file, write a file, list a directory, run a shell
/// command, and show the git status.
pub open spec fn available_tools_json() -> Seq<ToolDefinitionView> {
    seq![
        tool_json(
            "read_file"@,
            "Read the contents of a file"@,
            schema_json(
                seq![("path"@, string_param_json("Path to the file"@))],
                Some(seq![Json::Str("path"@)]),
            ),
        ),
        tool_json(
            "write_file"@,
            "Write content to a file (creates or overwrites)"@,
            schema_json(
                seq![
                    ("path"@, string_param_json("Path to the file"@)),
                    ("content"@, string_param_json("Content to write"@)),
                ],
                Some(seq![Json::Str("path"@), Json::Str("content"@)]),
            ),
        ),
        tool_json(
            "list_dir"@,
            "List files and directories in a path"@,
            schema_json(
                seq![("path"@, string_param_json("Directory path (default: current directory)"@))],
                None,
            ),
        ),
        tool_json(
            "run_command"@,
            "Run a shell command and return the output"@,
            schema_json(
                seq![("command"@, string_param_json("The command to run"@))],
                Some(seq![Json::Str("command"@)]),
            ),
        ),
        tool_json("git_status"@, "Get the current git status"@, schema_json(Seq::empty(), None)),
    ]
}

fn string_param(description: &str) -> (res: JsonValue)
    ensures
        res@ == string_param_json(description@),
{
    let mut m: Vec<(String, JsonValue)> = Vec::new();
    push_member(&mut m, "type", json_text("string"));
    push_member(&mut m, "description", json_text(description));
    assert(member_views(m@) =~= seq![("type"@, Json::Str("string"@)), ("description"@, Json::Str(description@))]);
    JsonValue::Object(m)
}

pub open spec fn opt_items(o: Option<Vec<JsonValue>>) -> Option<Seq<Json>> {
    match o {
        Some(r) => Some(views(r@)),
        None => None,
    }
}

fn schema(properties: Vec<(String, JsonValue)>, required: Option<Vec<JsonValue>>) -> (res: JsonValue)
    ensures
        res@ == schema_json(member_views(properties@), opt_items(required)),
{
    let ghost props = member_views(properties@);
    let ghost req = opt_items(required);
    let mut m: Vec<(String, JsonValue)> = Vec::new();
    push_member(&mut m, "type", json_text("object"));
    push_member(&mut m, "properties", JsonValue::Object(properties));
    let ghost base = member_views(m@);
    match required {
        Some(r) => {
            push_member(&mut m, "required", JsonValue::Array(r));
        },
        None => {},
    }
    proof {
        let tail = match req {
            Some(r) => seq![("required"@, Json::Array(r))],
            None => Seq::<(Seq<char>, Json)>::empty(),
        };
        assert(base =~= seq![("type"@, Json::Str("object"@)), ("properties"@, Json::Object(props))]);
        assert(member_views(m@) =~= base + tail);
    }
    JsonValue::Object(m)
}

fn names(a: &str, b: Option<&str>) -> (res: Vec<JsonValue>)
    ensures
        views(res@) == match b {
            Some(b) => seq![Json::Str(a@), Json::Str(b@)],
            None => seq![Json::Str(a@)],
        },
{
    let mut v: Vec<JsonValue> = Vec::new();
    proof {
        lemma_views(v@);
    }
    push_item(&mut v, json_text(a));
    match b {
        Some(b) => {
            push_item(&mut v, json_text(b));
        },
        None => {},
    }
    assert(views(v@) =~= match b {
        Some(b) => seq![Json::Str(a@), Json::Str(b@)],
        None => seq![Json::Str(a@)],
    });
    v
}

fn tool(name: &str, description: &str, parameters: JsonValue) -> (res: ToolDefinition)
    ensures
        res@ == tool_json(name@, description@, parameters@),
{
    ToolDefinition {
        kind: "function".to_owned(),
        function: FunctionDefinition {
            name: name.to_owned(),
            description: description.to_owned(),
            parameters,
        },
    }
}

/// Returns the list of tools available to the agent.
pub fn available_tools() -> (res: Vec<ToolDefinition>)
    ensures
        definition_views(res@) == available_tools_json(),
{
    let mut p1: Vec<(String, JsonValue)> = Vec::new();
    push_member(&mut p1, "path", string_param("Path to the file"));
    assert(member_views(p1@) =~= seq![("path"@, string_param_json("Path to the file"@))]);
    let read = tool("read_file", "Read the contents of a file", schema(p1, Some(names("path", None))));
    assert(read@ == available_tools_json()[0]);

    let mut p2: Vec<(String, JsonValue)> = Vec::new();
    push_member(&mut p2, "path", string_param("Path to the file"));
    push_member(&mut p2, "content", string_param("Content to write"));
    assert(member_views(p2@) =~= seq![
        ("path"@, string_param_json("Path to the file"@)),
        ("content"@, string_param_json("Content to write"@)),
    ]);
    let write = tool(
        "write_file",
        "Write content to a file (creates or overwrites)",
        schema(p2, Some(names("path", Some("content")))),
    );
    assert(write@ == available_tools_json()[1]);

    let mut p3: Vec<(String, JsonValue)> = Vec::new();
    push_member(&mut p3, "path", string_param("Directory path (default: current directory)"));
    assert(member_views(p3@) =~= seq![("path"@, string_param_json("Directory path (default: current directory)"@))]);
    let list = tool("list_dir", "List files and directories in a path", schema(p3, None));
    assert(list@ == available_tools_json()[2]);

    let mut p4: Vec<(String, JsonValue)> = Vec::new();
    push_member(&mut p4, "command", string_param("The command to run"));
    assert(member_views(p4@) =~= seq![("command"@, string_param_json("The command to run"@))]);
    let run = tool(
        "run_command",
        "Run a shell command and return the output",
        schema(p4, Some(names("command", None))),
    );
    assert(run@ == available_tools_json()[3]);

    let p5: Vec<(String, JsonValue)> = Vec::new();
    assert(member_views(p5@) =~= Seq::<(Seq<char>, Json)>::empty());
    let git = tool("git_status", "Get the current git status", schema(p5, None));
    assert(git@ == available_tools_json()[4]);

    let mut res: Vec<ToolDefinition> = Vec::new();
    res.push(read);
    res.push(write);
    res.push(list);
    res.push(run);
    res.push(git);
    assert(definition_views(res@) =~= available_tools_json());
    res
}

// ----- which tool a call asks for -----

/// What running a tool call comes to.
pub enum ToolAction {
    ReadFile { path: String },
    WriteFile { path: String, content: String },
    ListDir { path: String },
    RunCommand { command: String },
    /// No tool runs; this text is the result.
    Reply { text: String },
}

/// The value of a tool action.
pub enum ToolActionView {
    ReadFile { path: Seq<char> },
    WriteFile { path: Seq<char>, content: Seq<char> },
    ListDir { path: Seq<char> },
    RunCommand { command: Seq<char> },
    Reply { text: Seq<char> },
}

impl View for ToolAction {
    type V = ToolActionView;

    open spec fn view(&self) -> ToolActionView {
        match self {
            ToolAction::ReadFile { path } => ToolActionView::ReadFile { path: path@ },
            ToolAction::WriteFile { path, content } => ToolActionView::WriteFile {
                path: path@,
                content: content@,
            },
            ToolAction::ListDir { path } => ToolActionView::ListDir { path: path@ },
            ToolAction::RunCommand { command } => ToolActionView::RunCommand { command: command@ },
            ToolAction::Reply { text } => ToolActionView::Reply { text: text@ },
        }
    }
}

/// `args[key].as_str().unwrap_or(default)`.
pub open spec fn arg_or(args: Json, key: Seq<char>, default: Seq<char>) -> Seq<char> {
    match args.field(key).text() {
        Some(s) => s,
        None => default,
    }
}

/// The shell command that the git status tool runs.
pub open spec fn git_status_command() -> Seq<char> {
    "git status --short"@
}

/// What a call of the tool `name` with the arguments `args` comes to.
pub open spec fn tool_action(name: Seq<char>, args: Json) -> ToolActionView {
    if name == "read_file"@ {
        ToolActionView::ReadFile { path: arg_or(args, "path"@, ""@) }
    } else if name == "write_file"@ {
        ToolActionView::WriteFile {
            path: arg_or(args, "path"@, ""@),
            content: arg_or(args, "content"@, ""@),
        }
    } else if name == "list_dir"@ {
        ToolActionView::ListDir { path: arg_or(args, "path"@, "."@) }
    } else if name == "run_command"@ {
        ToolActionView::RunCommand { command: arg_or(args, "command"@, ""@) }
    } else if name == "git_status"@ {
        ToolActionView::RunCommand { command: git_status_command() }
    } else {
        ToolActionView::Reply { text: "Unknown tool: "@ + name }
    }
}

/// Every tool offered to the model is one that a call can run: none of them
/// is answered as unknown.
pub proof fn offered_tools_are_known(i: int, args: Json)
    requires
        0 <= i < available_tools_json().len(),
    ensures
        !(tool_action(available_tools_json()[i].name, args) is Reply),
{
    reveal_strlit("read_file");
    reveal_strlit("write_file");
    reveal_strlit("list_dir");
    reveal_strlit("run_command");
    reveal_strlit("git_status");
    assert(available_tools_json()[0].name == "read_file"@);
    assert(available_tools_json()[1].name == "write_file"@);
    assert(available_tools_json()[2].name == "list_dir"@);
    assert(available_tools_json()[3].name == "run_command"@);
    assert(available_tools_json()[4].name == "git_status"@);
}

/// The text that an action takes from the argument `key` of its call: the
/// path of the file or directory, the content to write, the command to run.
pub open spec fn action_reads(a: ToolActionView, key: Seq<char>) -> Option<Seq<char>> {
    match a {
        ToolActionView::ReadFile { path } => if key == "path"@ {
            Some(path)
        } else {
            None
        },
        ToolActionView::WriteFile { path, content } => if key == "path"@ {
            Some(path)
        } else if key == "content"@ {
            Some(content)
        } else {
            None
        },
        ToolActionView::ListDir { path } => if key == "path"@ {
            Some(path)
        } else {
            None
        },
        ToolActionView::RunCommand { command } => if key == "command"@ {
            Some(command)
        } else {
            None
        },
        ToolActionView::Reply { .. } => None,
    }
}

/// The properties that the schema of the offered tool `i` names.
pub open spec fn offered_properties(i: int) -> Json {
    available_tools_json()[i].parameters.field("properties"@)
}

/// The argument names that the schema of the offered tool `i` lists as required.
pub open spec fn required_names(i: int) -> Seq<Json> {
    match available_tools_json()[i].parameters.get("required"@) {
        Some(Json::Array(r)) => r,
        _ => Seq::empty(),
    }
}

proof fn lemma_tool_words_distinct()
    ensures
        "read_file"@ != "write_file"@,
        "read_file"@ != "list_dir"@,
        "read_file"@ != "run_command"@,
        "read_file"@ != "git_status"@,
        "write_file"@ != "list_dir"@,
        "write_file"@ != "run_command"@,
        "write_file"@ != "git_status"@,
        "list_dir"@ != "run_command"@,
        "list_dir"@ != "git_status"@,
        "run_command"@ != "git_status"@,
        "path"@ != "content"@,
        "path"@ != "command"@,
        "content"@ != "command"@,
        "type"@ != "properties"@,
        "type"@ != "required"@,
        "properties"@ != "required"@,
{
    reveal_strlit("read_file");
    reveal_strlit("write_file");
    reveal_strlit("list_dir");
    reveal_strlit("run_command");
    reveal_strlit("git_status");
    reveal_strlit("path");
    reveal_strlit("content");
    reveal_strlit("command");
    reveal_strlit("type");
    reveal_strlit("properties");
    reveal_strlit("required");
    assert("read_file"@.len() != "write_file"@.len());
    assert("read_file"@.len() != "list_dir"@.len());
    assert("read_file"@.len() != "run_command"@.len());
    assert("read_file"@.len() != "git_status"@.len());
    assert("write_file"@.len() != "list_dir"@.len());
    assert("write_file"@.len() != "run_command"@.len());
    assert("write_file"@[0] != "git_status"@[0]);
    assert("list_dir"@.len() != "run_command"@.len());
    assert("list_dir"@.len() != "git_status"@.len());
    assert("run_command"@.len() != "git_status"@.len());
    assert("path"@.len() != "content"@.len());
    assert("path"@.len() != "command"@.len());
    assert("content"@[2] != "command"@[2]);
    assert("type"@.len() != "properties"@.len());
    assert("type"@.len() != "required"@.len());
    assert("properties"@.len() != "required"@.len());
}

proof fn lemma_schema_members(props: Seq<(Seq<char>, Json)>, req: Option<Seq<Json>>)
    ensures
        schema_json(props, req).field("properties"@) == Json::Object(props),
        schema_json(props, req).get("required"@) == match req {
            Some(r) => Some(Json::Array(r)),
            None => None::<Json>,
        },
{
    lemma_tool_words_distinct();
    let tail = match req {
        Some(r) => seq![("required"@, Json::Array(r))],
        None => Seq::<(Seq<char>, Json)>::empty(),
    };
    let t = ("type"@, Json::Str("object"@));
    let p = ("properties"@, Json::Object(props));
    assert(seq![t, p] + tail =~= seq![t] + (seq![p] + tail));
    lemma_lookup_front(t.0, t.1, seq![p] + tail, "properties"@);
    lemma_lookup_front(p.0, p.1, tail, "properties"@);
    lemma_lookup_front(t.0, t.1, seq![p] + tail, "required"@);
    lemma_lookup_front(p.0, p.1, tail, "required"@);
    match req {
        Some(r) => {
            assert(tail =~= seq![("required"@, Json::Array(r))] + Seq::<(Seq<char>, Json)>::empty());
            lemma_lookup_front("required"@, Json::Array(r), Seq::empty(), "required"@);
        },
        None => {
            assert(lookup(tail, "required"@) is None);
        },
    }
}

/// What the five schemas offer: the names of the tools and, for each, the
/// properties and the required names of its schema.
pub proof fn offered_schemas(key: Seq<char>)
    ensures
        available_tools_json().len() == 5,
        available_tools_json()[0].name == "read_file"@,
        available_tools_json()[1].name == "write_file"@,
        available_tools_json()[2].name == "list_dir"@,
        available_tools_json()[3].name == "run_command"@,
        available_tools_json()[4].name == "git_status"@,
        offered_properties(0).get(key) is Some <==> key == "path"@,
        offered_properties(1).get(key) is Some <==> (key == "path"@ || key == "content"@),
        offered_properties(2).get(key) is Some <==> key == "path"@,
        offered_properties(3).get(key) is Some <==> key == "command"@,
        offered_properties(4).get(key) is None,
        required_names(0) == seq![Json::Str("path"@)],
        required_names(1) == seq![Json::Str("path"@), Json::Str("content"@)],
        required_names(2) == Seq::<Json>::empty(),
        required_names(3) == seq![Json::Str("command"@)],
        required_names(4) == Seq::<Json>::empty(),
{
    lemma_tool_words_distinct();
    let t = available_tools_json();
    let p0 = seq![("path"@, string_param_json("Path to the file"@))];
    let p1 = seq![("path"@, string_param_json("Path to the file"@)), ("content"@, string_param_json("Content to write"@))];
    let p2 = seq![("path"@, string_param_json("Directory path (default: current directory)"@))];
    let p3 = seq![("command"@, string_param_json("The command to run"@))];
    let p4 = Seq::<(Seq<char>, Json)>::empty();
    lemma_schema_members(p0, Some(seq![Json::Str("path"@)]));
    lemma_schema_members(p1, Some(seq![Json::Str("path"@), Json::Str("content"@)]));
    lemma_schema_members(p2, None);
    lemma_schema_members(p3, Some(seq![Json::Str("command"@)]));
    lemma_schema_members(p4, None);
    lemma_lookup_found(p0, key);
    lemma_lookup_found(p1, key);
    lemma_lookup_found(p2, key);
    lemma_lookup_found(p3, key);
    lemma_lookup_found(p4, key);
    assert(p0 =~= seq![p0[0]] + Seq::<(Seq<char>, Json)>::empty());
    lemma_lookup_front(p0[0].0, p0[0].1, Seq::empty(), key);
    assert(p1 =~= seq![p1[0]] + seq![p1[1]]);
    assert(seq![p1[1]] =~= seq![p1[1]] + Seq::<(Seq<char>, Json)>::empty());
    lemma_lookup_front(p1[0].0, p1[0].1, seq![p1[1]], key);
    lemma_lookup_front(p1[1].0, p1[1].1, Seq::empty(), key);
    assert(p2 =~= seq![p2[0]] + Seq::<(Seq<char>, Json)>::empty());
    lemma_lookup_front(p2[0].0, p2[0].1, Seq::empty(), key);
    assert(p3 =~= seq![p3[0]] + Seq::<(Seq<char>, Json)>::empty());
    lemma_lookup_front(p3[0].0, p3[0].1, Seq::empty(), key);
}

/// Every argument that a tool's schema offers is read by its call: where the
/// model passes a string under a property of the schema, the planned action
/// takes exactly that string for the matching part (the path, the content,
/// the command).
pub proof fn offered_arguments_are_read(i: int, key: Seq<char>, args: Seq<(Seq<char>, Json)>, v: Seq<char>)
    requires
        0 <= i < available_tools_json().len(),
        offered_properties(i).get(key) is Some,
        lookup(args, key) == Some(Json::Str(v)),
    ensures
        action_reads(tool_action(available_tools_json()[i].name, Json::Object(args)), key) == Some(v),
{
    lemma_tool_words_distinct();
    offered_schemas(key);
}

/// Only the arguments that a tool's schema offers count: two calls of an
/// offered tool whose arguments agree on every property of its schema plan
/// the same action, whatever else the arguments hold.
pub proof fn only_offered_arguments_count(
    i: int,
    args1: Seq<(Seq<char>, Json)>,
    args2: Seq<(Seq<char>, Json)>,
)
    requires
        0 <= i < available_tools_json().len(),
        forall|key: Seq<char>| offered_properties(i).get(key) is Some ==> lookup(args1, key) == lookup(args2, key),
    ensures
        tool_action(available_tools_json()[i].name, Json::Object(args1)) == tool_action(
            available_tools_json()[i].name,
            Json::Object(args2),
        ),
{
    lemma_tool_words_distinct();
    offered_schemas("path"@);
    offered_schemas("content"@);
    offered_schemas("command"@);
    assert(lookup(args1, "path"@) == lookup(args2, "path"@) <== (i == 0 || i == 1 || i == 2));
    assert(lookup(args1, "content"@) == lookup(args2, "content"@) <== i == 1);
    assert(lookup(args1, "command"@) == lookup(args2, "command"@) <== i == 3);
}

/// Every name that a tool's schema lists as required is a string naming one
/// of the schema's properties.
pub proof fn required_arguments_are_offered(i: int, j: int)
    requires
        0 <= i < available_tools_json().len(),
        0 <= j < required_names(i).len(),
    ensures
        exists|k: Seq<char>| required_names(i)[j] == Json::Str(k) && offered_properties(i).get(k) is Some,
{
    offered_schemas("path"@);
    offered_schemas("content"@);
    offered_schemas("command"@);
    if i == 0 || (i == 1 && j == 0) {
        assert(required_names(i)[j] == Json::Str("path"@));
    } else if i == 1 {
        assert(required_names(i)[j] == Json::Str("content"@));
    } else {
        assert(required_names(i)[j] == Json::Str("command"@));
    }
}

/// A listing goes to the directory that the call names: where the arguments
/// hold a string `path`, that is the directory listed, and only where they
/// hold none is it the current directory.
pub proof fn listing_goes_to_the_given_path(args: Json)
    ensures
        forall|p: Seq<char>| args.get("path"@) == Some(Json::Str(p)) ==> tool_action("list_dir"@, args)
            == (ToolActionView::ListDir { path: p }),
        !(args.get("path"@) matches Some(Json::Str(_))) ==> tool_action("list_dir"@, args)
            == (ToolActionView::ListDir { path: "."@ }),
{
    lemma_tool_words_distinct();
}

/// A file is read, or written, at the path that the call names, a write
/// puts the content that the call gives, and a command runs as the call gives it.
pub proof fn calls_act_on_their_arguments(args: Json, p: Seq<char>, c: Seq<char>)
    ensures
        args.get("path"@) == Some(Json::Str(p)) ==> tool_action("read_file"@, args) == (ToolActionView::ReadFile { path: p }),
        args.get("path"@) == Some(Json::Str(p)) && args.get("content"@) == Some(Json::Str(c)) ==> tool_action(
            "write_file"@,
            args,
        ) == (ToolActionView::WriteFile { path: p, content: c }),
        args.get("command"@) == Some(Json::Str(c)) ==> tool_action("run_command"@, args)
            == (ToolActionView::RunCommand { command: c }),
{
    lemma_tool_words_distinct();
}

/// The command that shows the git status.
pub fn git_status() -> (res: String)
    ensures
        res@ == git_status_command(),
{
    "git status --short".to_owned()
}

fn arg_text(args: &JsonValue, key: &str, default: &str) -> (res: String)
    ensures
        res@ == arg_or(args@, key@, default@),
{
    match args.get(key) {
        Some(v) => match v.as_text() {
            Some(s) => s.clone(),
            None => default.to_owned(),
        },
        None => default.to_owned(),
    }
}

/// Decides what a tool call comes to: `name` is the tool, `args` its parsed arguments.
pub fn plan_tool(name: &str, args: &JsonValue) -> (res: ToolAction)
    ensures
        res@ == tool_action(name@, args@),
{
    if same_text(name, "read_file") {
        ToolAction::ReadFile { path: arg_text(args, "path", "") }
    } else if same_text(name, "write_file") {
        ToolAction::WriteFile { path: arg_text(args, "path", ""), content: arg_text(args, "content", "") }
    } else if same_text(name, "list_dir") {
        ToolAction::ListDir { path: arg_text(args, "path", ".") }
    } else if same_text(name, "run_command") {
        ToolAction::RunCommand { command: arg_text(args, "command", "") }
    } else if same_text(name, "git_status") {
        ToolAction::RunCommand { command: git_status() }
    } else {
        ToolAction::Reply { text: concat("Unknown tool: ", name) }
    }
}

/// Decides what a tool call comes to from the arguments as the model sent
/// them, a JSON text; arguments that are not JSON are an error.
pub fn plan_call(name: &str, arguments: &str) -> (res: Result<ToolAction, serde_json::Error>)
    ensures
        match parsed_json(arguments@) {
            Some(a) => res matches Ok(t) && t@ == tool_action(name@, a),
            None => res is Err,
        },
{
    match parse_json(arguments) {
        Ok(args) => Ok(plan_tool(name, &args)),
        Err(e) => Err(e),
    }
}

// ----- what the tools report -----

/// The most bytes of a file that the read tool hands back.
pub const FILE_LIMIT: usize = 100000;

pub open spec fn truncation_note() -> Seq<char> {
    "...\n\n[File truncated - too large]"@
}

/// What the read tool reports of a file's text: the text, or its first
/// `FILE_LIMIT` bytes and a note where it is longer.
pub fn file_report(content: &str) -> (res: String)
    requires
        byte_len(content@) <= usize::MAX,
        byte_len(content@) > FILE_LIMIT ==> is_boundary(content@, FILE_LIMIT as int),
    ensures
        is_cut(content@, FILE_LIMIT as int, truncation_note(), res@),
{
    cut_text(content, FILE_LIMIT, "...\n\n[File truncated - too large]")
}

/// What the write tool reports after writing `content` to `path`.
pub open spec fn write_report_text(path: Seq<char>, content: Seq<char>) -> Seq<char> {
    "Successfully wrote "@ + decimal(byte_len(content)) + " bytes to "@ + path
}

pub fn write_report(path: &str, content: &str) -> (res: String)
    requires
        byte_len(content@) <= usize::MAX,
    ensures
        res@ == write_report_text(path@, content@),
{
    let mut res = "Successfully wrote ".to_owned();
    let n = byte_count(content);
    push_decimal(&mut res, n as u64);
    res.append(" bytes to ");
    res.append(path);
    res
}

/// The line that lists one directory entry.
pub open spec fn entry_line(name: Seq<char>, is_dir: bool) -> Seq<char> {
    (if is_dir {
        "dir "@
    } else {
        "file"@
    }) + "  "@ + name
}

/// The lines of a listing, in the order the entries came.
pub open spec fn entry_lines(entries: Seq<(String, bool)>) -> Seq<Seq<char>> {
    Seq::new(entries.len(), |i: int| entry_line(entries[i].0@, entries[i].1))
}

/// What the list tool reports of the entries of a directory (name, whether a
/// directory): one line per entry, sorted, or a note that there are none.
pub open spec fn is_listing(entries: Seq<(String, bool)>, res: Seq<char>) -> bool {
    if entries.len() == 0 {
        res == "(empty directory)"@
    } else {
        exists|lines: Seq<Seq<char>>|
            sorted_texts(lines) && lines.to_multiset() == entry_lines(entries).to_multiset()
                && res == joined(lines, "\n"@)
    }
}

/// A listing is fixed by the entries: whatever order they come in, the same
/// entries give the same text.
pub proof fn listing_is_determined(entries: Seq<(String, bool)>, r1: Seq<char>, r2: Seq<char>)
    requires
        is_listing(entries, r1),
        is_listing(entries, r2),
    ensures
        r1 == r2,
{
    if entries.len() > 0 {
        let l1 = choose|lines: Seq<Seq<char>>|
            sorted_texts(lines) && lines.to_multiset() == entry_lines(entries).to_multiset() && r1
                == joined(lines, "\n"@);
        let l2 = choose|lines: Seq<Seq<char>>|
            sorted_texts(lines) && lines.to_multiset() == entry_lines(entries).to_multiset() && r2
                == joined(lines, "\n"@);
        joined_sorted_unique(l1, l2, "\n"@);
    }
}

fn entry_chars(name: &String, is_dir: bool) -> (res: Vec<char>)
    ensures
        res@ == entry_line(name@, is_dir),
{
    let mut line = if is_dir {
        "dir ".to_owned()
    } else {
        "file".to_owned()
    };
    line.append("  ");
    line.append(name.as_str());
    chars_of(line.as_str())
}

pub fn listing(entries: &Vec<(String, bool)>) -> (res: String)
    ensures
        is_listing(entries@, res@),
{
    if entries.len() == 0 {
        return "(empty directory)".to_owned();
    }
    let mut lines: Vec<Vec<char>> = Vec::new();
    let mut i: usize = 0;
    while i < entries.len()
        invariant
            i <= entries.len(),
            lines.len() == i,
            forall|j: int|
                0 <= j < i ==> (#[trigger] lines@[j])@ == entry_line(entries@[j].0@, entries@[j].1),
        decreases entries.len() - i,
    {
        lines.push(entry_chars(&entries[i].0, entries[i].1));
        i = i + 1;
    }
    assert(views_of(lines@) =~= entry_lines(entries@));
    let sorted = sort_lines(lines);
    let res = join_lines(&sorted, "\n");
    assert(is_listing(entries@, res@)) by {
        let l = views_of(sorted@);
        assert(sorted_texts(l) && l.to_multiset() == entry_lines(entries@).to_multiset() && res@
            == joined(l, "\n"@));
    }
    res
}

/// What the shell tool reports of a finished command: its output when it
/// succeeded (or a note that there was none), else its exit code (-1 where
/// there is none) and both outputs.
pub open spec fn command_report_text(
    success: bool,
    code: Option<i32>,
    stdout: Seq<char>,
    stderr: Seq<char>,
) -> Seq<char> {
    if success {
        if is_blank(stdout) {
            "(no output)"@
        } else {
            stdout
        }
    } else {
        "Exit code: "@ + signed_decimal(
            match code {
                Some(c) => c as int,
                None => -1,
            },
        ) + "\n"@ + stdout + "\n"@ + stderr
    }
}

/// What the shell tool reports of a finished command from its raw output:
/// each output read as UTF-8, invalid bytes replaced.
pub fn command_output_report(success: bool, code: Option<i32>, stdout: &[u8], stderr: &[u8]) -> (res: String)
    ensures
        res@ == command_report_text(success, code, lossy_text(stdout@), lossy_text(stderr@)),
{
    let out = lossy(stdout);
    let err = lossy(stderr);
    command_report(success, code, out.as_str(), err.as_str())
}

pub fn command_report(success: bool, code: Option<i32>, stdout: &str, stderr: &str) -> (res: String)
    ensures
        res@ == command_report_text(success, code, stdout@, stderr@),
{
    if success {
        if blank(stdout) {
            "(no output)".to_owned()
        } else {
            stdout.to_owned()
        }
    } else {
        let mut res = "Exit code: ".to_owned();
        let c: i64 = match code {
            Some(c) => c as i64,
            None => -1,
        };
        push_signed_decimal(&mut res, c);
        res.append("\n");
        res.append(stdout);
        res.append("\n");
        res.append(stderr);
        res
    }
}

} // verus!

//! The conversation: messages, tool calls and tool definitions, and their JSON form.
use vstd::prelude::*;

use crate::json::{Json, JsonValue, lookup, lemma_views, member_views, push_item, push_member, views};

verus! {

/// Who speaks a message.
#[derive(PartialEq, Eq, Structural, Clone, Copy, Debug)]
pub enum Role {
    System,
    User,
    Assistant,
    Tool,
}

impl Role {
    /// The name of the role in the chat API.
    pub open spec fn name(self) -> Seq<char> {
        match self {
            Role::System => "system"@,
            Role::User => "user"@,
            Role::Assistant => "assistant"@,
            Role::Tool => "tool"@,
        }
    }

    pub fn name_text(&self) -> (res: String)
        ensures
            res@ == self.name(),
    {
        match self {
            Role::System => "system".to_owned(),
            Role::User => "user".to_owned(),
            Role::Assistant => "assistant".to_owned(),
            Role::Tool => "tool".to_owned(),
        }
    }
}

/// The function that a tool call names, with its arguments as JSON text.
pub struct FunctionCall {
    pub name: String,
    pub arguments: String,
}

/// A call of a tool that the model asks for.
pub struct ToolCall {
    pub id: String,
    /// The `type` of the call (`"function"`).
    pub kind: String,
    pub function: FunctionCall,
}

/// The value of a tool call.
pub struct ToolCallView {
    pub id: Seq<char>,
    pub kind: Seq<char>,
    pub name: Seq<char>,
    pub arguments: Seq<char>,
}

impl View for ToolCall {
    type V = ToolCallView;

    open spec fn view(&self) -> ToolCallView {
        ToolCallView {
            id: self.id@,
            kind: self.kind@,
            name: self.function.name@,
            arguments: self.function.arguments@,
        }
    }
}

impl ToolCall {
    pub fn copy(&self) -> (res: ToolCall)
        ensures
            res@ == self@,
    {
        ToolCall {
            id: self.id.clone(),
            kind: self.kind.clone(),
            function: FunctionCall {
                name: self.function.name.clone(),
                arguments: self.function.arguments.clone(),
            },
        }
    }
}

pub open spec fn call_views(calls: Seq<ToolCall>) -> Seq<ToolCallView> {
    calls.map_values(|c: ToolCall| c@)
}

/// A copy of a list of tool calls.
pub fn copy_calls(calls: &Vec<ToolCall>) -> (res: Vec<ToolCall>)
    ensures
        call_views(res@) == call_views(calls@),
{
    let mut res: Vec<ToolCall> = Vec::new();
    let mut i: usize = 0;
    while i < calls.len()
        invariant
            i <= calls.len(),
            res.len() == i,
            forall|j: int| 0 <= j < i ==> (#[trigger] res@[j])@ == calls@[j]@,
        decreases calls.len() - i,
    {
        res.push(calls[i].copy());
        i = i + 1;
    }
    assert(call_views(res@) =~= call_views(calls@));
    res
}

/// One message of the conversation.
pub struct Message {
    pub role: Role,
    pub content: Option<String>,
    pub tool_calls: Option<Vec<ToolCall>>,
    pub tool_call_id: Option<String>,
}

/// The value of a message.
pub struct MessageView {
    pub role: Role,
    pub content: Option<Seq<char>>,
    pub tool_calls: Option<Seq<ToolCallView>>,
    pub tool_call_id: Option<Seq<char>>,
}

pub open spec fn opt_view(o: Option<String>) -> Option<Seq<char>> {
    match o {
        Some(s) => Some(s@),
        None => None,
    }
}

pub open spec fn opt_calls_view(o: Option<Vec<ToolCall>>) -> Option<Seq<ToolCallView>> {
    match o {
        Some(c) => Some(call_views(c@)),
        None => None,
    }
}

impl View for Message {
    type V = MessageView;

    open spec fn view(&self) -> MessageView {
        MessageView {
            role: self.role,
            content: opt_view(self.content),
            tool_calls: opt_calls_view(self.tool_calls),
            tool_call_id: opt_view(self.tool_call_id),
        }
    }
}

pub open spec fn message_views(m: Seq<Message>) -> Seq<MessageView> {
    m.map_values(|x: Message| x@)
}

fn copy_opt_text(o: &Option<String>) -> (res: Option<String>)
    ensures
        opt_view(res) == opt_view(*o),
{
    match o {
        Some(s) => Some(s.clone()),
        None => None,
    }
}

/// The definition of a function that the model may call.
pub struct FunctionDefinition {
    pub name: String,
    pub description: String,
    /// The JSON schema of the arguments.
    pub parameters: JsonValue,
}

/// A tool offered to the model.
pub struct ToolDefinition {
    /// The `type` of the tool (`"function"`).
    pub kind: String,
    pub function: FunctionDefinition,
}

/// The value of a tool definition.
pub struct ToolDefinitionView {
    pub kind: Seq<char>,
    pub name: Seq<char>,
    pub description: Seq<char>,
    pub parameters: Json,
}

impl View for ToolDefinition {
    type V = ToolDefinitionView;

    open spec fn view(&self) -> ToolDefinitionView {
        ToolDefinitionView {
            kind: self.kind@,
            name: self.function.name@,
            description: self.function.description@,
            parameters: self.function.parameters@,
        }
    }
}

pub open spec fn definition_views(d: Seq<ToolDefinition>) -> Seq<ToolDefinitionView> {
    d.map_values(|x: ToolDefinition| x@)
}

// ----- JSON form -----

pub open spec fn opt_text_json(o: Option<Seq<char>>) -> Json {
    match o {
        Some(s) => Json::Str(s),
        None => Json::Null,
    }
}

/// The JSON form of a tool call.
pub open spec fn call_json(c: ToolCallView) -> Json {
    Json::Object(
        seq![
            ("id"@, Json::Str(c.id)),
            ("type"@, Json::Str(c.kind)),
            ("function"@, Json::Object(seq![("name"@, Json::Str(c.name)), ("arguments"@, Json::Str(c.arguments))])),
        ],
    )
}

pub open spec fn calls_json(c: Seq<ToolCallView>) -> Seq<Json> {
    Seq::new(c.len(), |i: int| call_json(c[i]))
}

/// The JSON form of a message: `role` and `content` always, `tool_calls` and
/// `tool_call_id` where the message has them.
pub open spec fn message_json(m: MessageView) -> Json {
    Json::Object(
        seq![("role"@, Json::Str(m.role.name())), ("content"@, opt_text_json(m.content))]
            + match m.tool_calls {
            Some(c) => seq![("tool_calls"@, Json::Array(calls_json(c)))],
            None => Seq::empty(),
        } + match m.tool_call_id {
            Some(id) => seq![("tool_call_id"@, Json::Str(id))],
            None => Seq::empty(),
        },
    )
}

pub open spec fn messages_json(m: Seq<MessageView>) -> Seq<Json> {
    Seq::new(m.len(), |i: int| message_json(m[i]))
}

/// The JSON form of a tool definition.
pub open spec fn definition_json(d: ToolDefinitionView) -> Json {
    Json::Object(
        seq![
            ("type"@, Json::Str(d.kind)),
            ("function"@, Json::Object(seq![("name"@, Json::Str(d.name)), ("description"@, Json::Str(d.description)), ("parameters"@, d.parameters)])),
        ],
    )
}

pub open spec fn definitions_json(d: Seq<ToolDefinitionView>) -> Seq<Json> {
    Seq::new(d.len(), |i: int| definition_json(d[i]))
}

fn text_json(s: &String) -> (res: JsonValue)
    ensures
        res@ == Json::Str(s@),
{
    JsonValue::Str(s.clone())
}

fn opt_json(o: &Option<String>) -> (res: JsonValue)
    ensures
        res@ == opt_text_json(opt_view(*o)),
{
    match o {
        Some(s) => text_json(s),
        None => JsonValue::Null,
    }
}

/// Builds the JSON form of a tool call.
pub fn call_to_json(c: &ToolCall) -> (res: JsonValue)
    ensures
        res@ == call_json(c@),
{
    let mut f: Vec<(String, JsonValue)> = Vec::new();
    push_member(&mut f, "name", text_json(&c.function.name));
    push_member(&mut f, "arguments", text_json(&c.function.arguments));
    let mut m: Vec<(String, JsonValue)> = Vec::new();
    push_member(&mut m, "id", text_json(&c.id));
    push_member(&mut m, "type", text_json(&c.kind));
    push_member(&mut m, "function", JsonValue::Object(f));
    assert(member_views(f@) =~= seq![("name"@, Json::Str(c@.name)), ("arguments"@, Json::Str(c@.arguments))]);
    assert(member_views(m@) =~= seq![
        ("id"@, Json::Str(c@.id)),
        ("type"@, Json::Str(c@.kind)),
        ("function"@, Json::Object(seq![("name"@, Json::Str(c@.name)), ("arguments"@, Json::Str(c@.arguments))])),
    ]);
    JsonValue::Object(m)
}

/// Builds the JSON form of a list of tool calls.
pub fn calls_to_json(calls: &Vec<ToolCall>) -> (res: JsonValue)
    ensures
        res@ == Json::Array(calls_json(call_views(calls@))),
{
    let mut items: Vec<JsonValue> = Vec::new();
    let mut i: usize = 0;
    proof {
        lemma_views(items@);
    }
    while i < calls.len()
        invariant
            i <= calls.len(),
            views(items@) == calls_json(call_views(calls@.take(i as int))),
        decreases calls.len() - i,
    {
        push_item(&mut items, call_to_json(&calls[i]));
        i = i + 1;
        assert(views(items@) =~= calls_json(call_views(calls@.take(i as int))));
    }
    assert(calls@.take(i as int) =~= calls@);
    JsonValue::Array(items)
}

/// Builds the JSON form of a message.
pub fn message_to_json(m: &Message) -> (res: JsonValue)
    ensures
        res@ == message_json(m@),
{
    let mut e: Vec<(String, JsonValue)> = Vec::new();
    push_member(&mut e, "role", JsonValue::Str(m.role.name_text()));
    push_member(&mut e, "content", opt_json(&m.content));
    let ghost base = member_views(e@);
    assert(base =~= seq![("role"@, Json::Str(m@.role.name())), ("content"@, opt_text_json(m@.content))]);
    match &m.tool_calls {
        Some(c) => {
            push_member(&mut e, "tool_calls", calls_to_json(c));
        },
        None => {},
    }
    let ghost mid = member_views(e@);
    match &m.tool_call_id {
        Some(id) => {
            push_member(&mut e, "tool_call_id", text_json(id));
        },
        None => {},
    }
    let res = JsonValue::Object(e);
    proof {
        let tc = match m@.tool_calls {
            Some(c) => seq![("tool_calls"@, Json::Array(calls_json(c)))],
            None => Seq::<(Seq<char>, Json)>::empty(),
        };
        let ti = match m@.tool_call_id {
            Some(id) => seq![("tool_call_id"@, Json::Str(id))],
            None => Seq::<(Seq<char>, Json)>::empty(),
        };
        assert(mid =~= base + tc);
        assert(member_views(e@) =~= base + tc + ti);
    }
    res
}

/// Builds the JSON form of the conversation.
pub fn messages_to_json(messages: &Vec<Message>) -> (res: JsonValue)
    ensures
        res@ == Json::Array(messages_json(message_views(messages@))),
{
    let mut items: Vec<JsonValue> = Vec::new();
    let mut i: usize = 0;
    proof {
        lemma_views(items@);
    }
    while i < messages.len()
        invariant
            i <= messages.len(),
            views(items@) == messages_json(message_views(messages@.take(i as int))),
        decreases messages.len() - i,
    {
        push_item(&mut items, message_to_json(&messages[i]));
        i = i + 1;
        assert(views(items@) =~= messages_json(message_views(messages@.take(i as int))));
    }
    assert(messages@.take(i as int) =~= messages@);
    JsonValue::Array(items)
}

/// Builds the JSON form of a tool definition.
pub fn definition_to_json(d: &ToolDefinition) -> (res: JsonValue)
    ensures
        res@ == definition_json(d@),
{
    let mut f: Vec<(String, JsonValue)> = Vec::new();
    push_member(&mut f, "name", text_json(&d.function.name));
    push_member(&mut f, "description", text_json(&d.function.description));
    push_member(&mut f, "parameters", d.function.parameters.duplicate());
    let mut m: Vec<(String, JsonValue)> = Vec::new();
    push_member(&mut m, "type", text_json(&d.kind));
    push_member(&mut m, "function", JsonValue::Object(f));
    assert(member_views(f@) =~= seq![("name"@, Json::Str(d@.name)), ("description"@, Json::Str(d@.description)), ("parameters"@, d@.parameters)]);
    assert(member_views(m@) =~= seq![
        ("type"@, Json::Str(d@.kind)),
        ("function"@, Json::Object(seq![("name"@, Json::Str(d@.name)), ("description"@, Json::Str(d@.description)), ("parameters"@, d@.parameters)])),
    ]);
    JsonValue::Object(m)
}

/// Builds the JSON form of a list of tool definitions.
pub fn definitions_to_json(defs: &Vec<ToolDefinition>) -> (res: JsonValue)
    ensures
        res@ == Json::Array(definitions_json(definition_views(defs@))),
{
    let mut items: Vec<JsonValue> = Vec::new();
    let mut i: usize = 0;
    proof {
        lemma_views(items@);
    }
    while i < defs.len()
        invariant
            i <= defs.len(),
            views(items@) == definitions_json(definition_views(defs@.take(i as int))),
        decreases defs.len() - i,
    {
        push_item(&mut items, definition_to_json(&defs[i]));
        i = i + 1;
        assert(views(items@) =~= definitions_json(definition_views(defs@.take(i as int))));
    }
    assert(defs@.take(i as int) =~= defs@);
    JsonValue::Array(items)
}

// ----- reading tool calls -----

/// A string field of a record: present, and a JSON string.
pub open spec fn text_member(m: Seq<(Seq<char>, Json)>, key: Seq<char>) -> Option<Seq<char>> {
    match lookup(m, key) {
        Some(v) => v.text(),
        None => None,
    }
}

/// Reads `{name, arguments}`: from an object by its members (others are
/// ignored), or from an array of exactly the two fields in order.
pub open spec fn decode_function(v: Json) -> Option<(Seq<char>, Seq<char>)> {
    match v {
        Json::Object(m) => match (text_member(m, "name"@), text_member(m, "arguments"@)) {
            (Some(n), Some(a)) => Some((n, a)),
            _ => None,
        },
        Json::Array(s) => if s.len() == 2 {
            match (s[0].text(), s[1].text()) {
                (Some(n), Some(a)) => Some((n, a)),
                _ => None,
            }
        } else {
            None
        },
        _ => None,
    }
}

pub open spec fn make_call(id: Seq<char>, kind: Seq<char>, f: (Seq<char>, Seq<char>)) -> ToolCallView {
    ToolCallView { id, kind, name: f.0, arguments: f.1 }
}

/// Reads `{id, type, function}` in the same way.
pub open spec fn decode_call(v: Json) -> Option<ToolCallView> {
    match v {
        Json::Object(m) => match (
            text_member(m, "id"@),
            text_member(m, "type"@),
            match lookup(m, "function"@) {
                Some(f) => decode_function(f),
                None => None,
            },
        ) {
            (Some(id), Some(kind), Some(f)) => Some(make_call(id, kind, f)),
            _ => None,
        },
        Json::Array(s) => if s.len() == 3 {
            match (s[0].text(), s[1].text(), decode_function(s[2])) {
                (Some(id), Some(kind), Some(f)) => Some(make_call(id, kind, f)),
                _ => None,
            }
        } else {
            None
        },
        _ => None,
    }
}

/// Reads a list of tool calls: an array each of whose elements reads as a call.
pub open spec fn decode_calls(v: Json) -> Option<Seq<ToolCallView>> {
    match v {
        Json::Array(s) => if forall|i: int| 0 <= i < s.len() ==> (#[trigger] decode_call(s[i])) is Some {
            Some(Seq::new(s.len(), |i: int| decode_call(s[i])->0))
        } else {
            None
        },
        _ => None,
    }
}

fn text_field(v: &JsonValue, key: &str) -> (res: Option<String>)
    requires
        v@ is Object,
    ensures
        opt_view(res) == text_member(v@->Object_0, key@),
{
    match v.get(key) {
        Some(x) => match x.as_text() {
            Some(s) => Some(s.clone()),
            None => None,
        },
        None => None,
    }
}

fn element_text(items: &Vec<JsonValue>, i: usize) -> (res: Option<String>)
    requires
        i < items.len(),
    ensures
        opt_view(res) == items@[i as int]@.text(),
{
    match items[i].as_text() {
        Some(s) => Some(s.clone()),
        None => None,
    }
}

/// Reads the function of a tool call.
pub fn read_function(v: &JsonValue) -> (res: Option<FunctionCall>)
    ensures
        match res {
            Some(f) => decode_function(v@) == Some((f.name@, f.arguments@)),
            None => decode_function(v@) is None,
        },
{
    match v {
        JsonValue::Object(_) => {
            let name = text_field(v, "name");
            let arguments = text_field(v, "arguments");
            match (name, arguments) {
                (Some(name), Some(arguments)) => Some(FunctionCall { name, arguments }),
                _ => None,
            }
        },
        JsonValue::Array(items) => {
            proof {
                lemma_views(items@);
            }
            if items.len() == 2 {
                let name = element_text(items, 0);
                let arguments = element_text(items, 1);
                match (name, arguments) {
                    (Some(name), Some(arguments)) => Some(FunctionCall { name, arguments }),
                    _ => None,
                }
            } else {
                None
            }
        },
        _ => None,
    }
}

/// Reads one tool call.
pub fn read_call(v: &JsonValue) -> (res: Option<ToolCall>)
    ensures
        match res {
            Some(c) => decode_call(v@) == Some(c@),
            None => decode_call(v@) is None,
        },
{
    match v {
        JsonValue::Object(_) => {
            let id = text_field(v, "id");
            let kind = text_field(v, "type");
            let function = match v.get("function") {
                Some(f) => read_function(f),
                None => None,
            };
            match (id, kind, function) {
                (Some(id), Some(kind), Some(function)) => Some(ToolCall { id, kind, function }),
                _ => None,
            }
        },
        JsonValue::Array(items) => {
            proof {
                lemma_views(items@);
            }
            if items.len() == 3 {
                let id = element_text(items, 0);
                let kind = element_text(items, 1);
                let function = read_function(&items[2]);
                match (id, kind, function) {
                    (Some(id), Some(kind), Some(function)) => Some(ToolCall { id, kind, function }),
                    _ => None,
                }
            } else {
                None
            }
        },
        _ => None,
    }
}

/// Reads a list of tool calls.
#[verifier::loop_isolation(false)]
pub fn read_calls(v: &JsonValue) -> (res: Option<Vec<ToolCall>>)
    ensures
        match res {
            Some(c) => decode_calls(v@) == Some(call_views(c@)),
            None => decode_calls(v@) is None,
        },
{
    match v {
        JsonValue::Array(items) => {
            proof {
                lemma_views(items@);
            }
            let mut out: Vec<ToolCall> = Vec::new();
            let mut i: usize = 0;
            while i < items.len()
                invariant
                    i <= items.len(),
                    out.len() == i,
                    views(items@).len() == items.len(),
                    forall|j: int| 0 <= j < items.len() ==> #[trigger] views(items@)[j] == items@[j]@,
                    forall|j: int| 0 <= j < i ==> decode_call(items@[j]@) == Some(#[trigger] out@[j]@),
                decreases items.len() - i,
            {
                match read_call(&items[i]) {
                    Some(c) => {
                        out.push(c);
                    },
                    None => {
                        assert(decode_call(views(items@)[i as int]) is None);
                        return None;
                    },
                }
                i = i + 1;
            }
            proof {
                let s = views(items@);
                assert forall|j: int| 0 <= j < s.len() implies (#[trigger] decode_call(s[j])) is Some by {
                    assert(s[j] == items@[j]@);
                    assert(decode_call(items@[j]@) == Some(out@[j]@));
                }
                assert(call_views(out@) =~= Seq::new(s.len(), |j: int| decode_call(s[j])->0));
            }
            Some(out)
        },
        _ => None,
    }
}

// ----- laws -----

/// A tool call written in its JSON form reads back as the same call.
pub proof fn call_round_trip(c: ToolCallView)
    ensures
        decode_call(call_json(c)) == Some(c),
{
    let f = Json::Object(seq![("name"@, Json::Str(c.name)), ("arguments"@, Json::Str(c.arguments))]);
    reveal_strlit("id");
    reveal_strlit("type");
    reveal_strlit("function");
    reveal_strlit("name");
    reveal_strlit("arguments");
    let fm = seq![("name"@, Json::Str(c.name)), ("arguments"@, Json::Str(c.arguments))];
    assert(fm[0].0 == "name"@);
    assert(lookup(fm, "name"@) == Some(Json::Str(c.name)));
    assert("name"@ != "arguments"@);
    assert(fm.drop_first()[0].0 == "arguments"@);
    assert(lookup(fm.drop_first(), "arguments"@) == Some(Json::Str(c.arguments)));
    assert(lookup(fm, "arguments"@) == Some(Json::Str(c.arguments)));
    assert(decode_function(f) == Some((c.name, c.arguments)));
    let m = seq![("id"@, Json::Str(c.id)), ("type"@, Json::Str(c.kind)), ("function"@, f)];
    assert(m == call_json(c)->Object_0);
    assert("id"@.len() == 2 && "type"@.len() == 4 && "function"@.len() == 8);
    assert(lookup(m, "id"@) == Some(Json::Str(c.id)));
    assert(m.drop_first()[0].0 == "type"@);
    assert(lookup(m.drop_first(), "type"@) == Some(Json::Str(c.kind)));
    assert(lookup(m, "type"@) == Some(Json::Str(c.kind)));
    assert(m.drop_first().drop_first()[0].0 == "function"@);
    assert(lookup(m.drop_first().drop_first(), "function"@) == Some(f));
    assert(lookup(m.drop_first(), "function"@) == Some(f));
    assert(lookup(m, "function"@) == Some(f));
}

/// A list of tool calls written in its JSON form reads back as the same list.
pub proof fn calls_round_trip(c: Seq<ToolCallView>)
    ensures
        decode_calls(Json::Array(calls_json(c))) == Some(c),
{
    let s = calls_json(c);
    assert forall|i: int| 0 <= i < s.len() implies (#[trigger] decode_call(s[i])) is Some by {
        call_round_trip(c[i]);
    }
    assert forall|i: int| 0 <= i < s.len() implies decode_call(s[i])->0 == c[i] by {
        call_round_trip(c[i]);
    }
    assert(Seq::new(s.len(), |i: int| decode_call(s[i])->0) =~= c);
}

} // verus!

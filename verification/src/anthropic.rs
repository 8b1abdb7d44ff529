//! The Anthropic provider: the Messages API, with the system prompt apart,
//! tool calls as `tool_use` blocks and tool results as `tool_result` blocks.
use vstd::prelude::*;

use crate::config::{Config, ConfigKey};
use crate::json::{
    Json, JsonValue, json_of, json_text, lemma_views, member_views, parse_json, parsed_json,
    push_item, push_member, render_value, rendered_json, value_items, value_member, value_text,
    views,
};
use crate::providers::{ChatRequest, ChatRequestView, Provider, ProviderError, ProviderResponse, ResponseView};
use crate::text::{concat, same_text};
use crate::types::{
    Message, MessageView, Role, ToolCall, ToolCallView, ToolDefinition, ToolDefinitionView,
    FunctionCall, call_views, definition_views, message_views,
};

verus! {

/// A provider that speaks the Anthropic Messages API.
pub struct AnthropicProvider {
    api_key: String,
}

impl View for AnthropicProvider {
    type V = Seq<char>;

    /// The API key.
    closed spec fn view(&self) -> Seq<char> {
        self.api_key@
    }
}

pub open spec fn anthropic_missing_key() -> Seq<char> {
    "Anthropic API key not set. Run: nex config set anthropic_api_key sk-ant-..."@
}

// ----- the request -----

/// The content of the first system message, where there is one.
pub open spec fn first_system(ms: Seq<MessageView>) -> Option<Seq<char>>
    decreases ms.len(),
{
    if ms.len() == 0 {
        None
    } else if ms[0].role == Role::System {
        Some(
            match ms[0].content {
                Some(c) => c,
                None => Seq::empty(),
            },
        )
    } else {
        first_system(ms.drop_first())
    }
}

pub open spec fn text_or_empty(o: Option<Seq<char>>) -> Json {
    match o {
        Some(t) => Json::Str(t),
        None => Json::Str(Seq::empty()),
    }
}

/// The input of a tool call: its arguments where they are a JSON object, an
/// empty object otherwise.
pub open spec fn call_input(arguments: Seq<char>) -> Json {
    match parsed_json(arguments) {
        Some(Json::Object(m)) => Json::Object(m),
        _ => Json::Object(Seq::empty()),
    }
}

pub open spec fn use_block(c: ToolCallView) -> Json {
    Json::Object(
        seq![
            ("type"@, Json::Str("tool_use"@)),
            ("id"@, Json::Str(c.id)),
            ("name"@, Json::Str(c.name)),
            ("input"@, call_input(c.arguments)),
        ],
    )
}

/// The text block of a message: its content where that is not empty.
pub open spec fn text_blocks(content: Option<Seq<char>>) -> Seq<Json> {
    match content {
        Some(t) => if t.len() > 0 {
            seq![Json::Object(seq![("type"@, Json::Str("text"@)), ("text"@, Json::Str(t))])]
        } else {
            Seq::empty()
        },
        None => Seq::empty(),
    }
}

pub open spec fn use_blocks(calls: Option<Seq<ToolCallView>>) -> Seq<Json> {
    match calls {
        Some(c) => Seq::new(c.len(), |i: int| use_block(c[i])),
        None => Seq::empty(),
    }
}

/// One message in the Messages API: a user's text; an assistant's text and
/// tool calls as blocks; a tool result as a user's `tool_result` block.
pub open spec fn anthropic_message(m: MessageView) -> Json {
    match m.role {
        Role::Assistant => Json::Object(
            seq![
                ("role"@, Json::Str("assistant"@)),
                ("content"@, Json::Array(text_blocks(m.content) + use_blocks(m.tool_calls))),
            ],
        ),
        Role::Tool => Json::Object(
            seq![
                ("role"@, Json::Str("user"@)),
                ("content"@, Json::Array(seq![Json::Object(seq![
                    ("type"@, Json::Str("tool_result"@)),
                    ("tool_use_id"@, text_or_empty(m.tool_call_id)),
                    ("content"@, text_or_empty(m.content)),
                ])])),
            ],
        ),
        _ => Json::Object(seq![("role"@, Json::Str("user"@)), ("content"@, text_or_empty(m.content))]),
    }
}

/// The conversation in the Messages API: every message but the system ones.
pub open spec fn anthropic_messages(ms: Seq<MessageView>) -> Seq<Json>
    decreases ms.len(),
{
    if ms.len() == 0 {
        Seq::empty()
    } else {
        anthropic_messages(ms.drop_last()) + if ms.last().role == Role::System {
            Seq::<Json>::empty()
        } else {
            seq![anthropic_message(ms.last())]
        }
    }
}

pub open spec fn anthropic_tool(d: ToolDefinitionView) -> Json {
    Json::Object(
        seq![
            ("name"@, Json::Str(d.name)),
            ("description"@, Json::Str(d.description)),
            ("input_schema"@, d.parameters),
        ],
    )
}

/// The body: the model, a limit of 2048 tokens, the system prompt where
/// there is one, the conversation, and the tools where there are tools.
pub open spec fn anthropic_body(model: Seq<char>, ms: Seq<MessageView>, tools: Seq<ToolDefinitionView>) -> Json {
    Json::Object(
        seq![("model"@, Json::Str(model)), ("max_tokens"@, Json::Number("2048"@))] + match first_system(ms) {
            Some(t) => seq![("system"@, Json::Str(t))],
            None => Seq::empty(),
        } + seq![("messages"@, Json::Array(anthropic_messages(ms)))] + if tools.len() > 0 {
            seq![("tools"@, Json::Array(Seq::new(tools.len(), |i: int| anthropic_tool(tools[i]))))]
        } else {
            Seq::empty()
        },
    )
}

pub open spec fn anthropic_request(key: Seq<char>, model: Seq<char>, ms: Seq<MessageView>, tools: Seq<ToolDefinitionView>) -> ChatRequestView {
    ChatRequestView {
        url: "https://api.anthropic.com/v1/messages"@,
        headers: seq![
            ("x-api-key"@, key),
            ("anthropic-version"@, "2023-06-01"@),
            ("content-type"@, "application/json"@),
        ],
        body: anthropic_body(model, ms, tools),
        send_context: "Failed to send request to Anthropic"@,
    }
}

// ----- the reply -----

/// The text of a `text` block.
pub open spec fn block_text(b: Json) -> Option<Seq<char>> {
    if b.field("type"@).text() == Some("text"@) {
        b.field("text"@).text()
    } else {
        None
    }
}

/// The tool call of a `tool_use` block that has an id and a name; its
/// arguments are its input written as JSON text.
pub open spec fn block_call(b: Json) -> Option<ToolCallView> {
    if b.field("type"@).text() == Some("tool_use"@) {
        match (b.field("id"@).text(), b.field("name"@).text()) {
            (Some(id), Some(name)) => Some(
                ToolCallView {
                    id,
                    kind: "function"@,
                    name,
                    arguments: match b.get("input"@) {
                        Some(x) => rendered_json(x),
                        None => "{}"@,
                    },
                },
            ),
            _ => None,
        }
    } else {
        None
    }
}

pub open spec fn join_text(a: Option<Seq<char>>, b: Option<Seq<char>>) -> Option<Seq<char>> {
    match (a, b) {
        (Some(x), Some(y)) => Some(x + y),
        (Some(x), None) => Some(x),
        (None, y) => y,
    }
}

/// The text of the reply: its text blocks one after another; none where
/// there is no text block.
pub open spec fn blocks_text(bs: Seq<Json>) -> Option<Seq<char>>
    decreases bs.len(),
{
    if bs.len() == 0 {
        None
    } else {
        join_text(blocks_text(bs.drop_last()), block_text(bs.last()))
    }
}

/// The tool calls of the reply, in the order of its blocks.
pub open spec fn blocks_calls(bs: Seq<Json>) -> Seq<ToolCallView>
    decreases bs.len(),
{
    if bs.len() == 0 {
        Seq::empty()
    } else {
        blocks_calls(bs.drop_last()) + match block_call(bs.last()) {
            Some(c) => seq![c],
            None => Seq::empty(),
        }
    }
}

pub open spec fn reply_blocks(data: Json) -> Seq<Json> {
    match data.get("content"@) {
        Some(Json::Array(bs)) => bs,
        _ => Seq::empty(),
    }
}

/// The reply in an Anthropic answer: the text of its content blocks, and
/// its tool calls where there are any.
pub open spec fn anthropic_reply(data: Json) -> ResponseView {
    let bs = reply_blocks(data);
    ResponseView {
        content: blocks_text(bs),
        tool_calls: if blocks_calls(bs).len() > 0 {
            Some(blocks_calls(bs))
        } else {
            None
        },
    }
}

fn member_text(v: &serde_json::Value, key: &str) -> (res: Option<String>)
    ensures
        crate::types::opt_view(res) == json_of(*v).field(key@).text(),
{
    match value_member(v, key) {
        Some(x) => value_text(&x),
        None => None,
    }
}

impl AnthropicProvider {
    /// Sets up the Anthropic provider from the key set for it.
    pub fn new(config: &Config) -> (res: Result<AnthropicProvider, ProviderError>)
        ensures
            match config.value(ConfigKey::AnthropicApiKey) {
                Some(k) => res matches Ok(p) && p@ == k,
                None => res == Err::<AnthropicProvider, ProviderError>(ProviderError::MissingAnthropicKey),
            },
    {
        match &config.anthropic_api_key {
            Some(k) => Ok(AnthropicProvider { api_key: k.clone() }),
            None => Err(ProviderError::MissingAnthropicKey),
        }
    }

    fn input_of(arguments: &str) -> (res: JsonValue)
        ensures
            res@ == call_input(arguments@),
    {
        match parse_json(arguments) {
            Ok(v) => match v {
                JsonValue::Object(m) => JsonValue::Object(m),
                _ => JsonValue::Object(Vec::new()),
            },
            Err(_) => JsonValue::Object(Vec::new()),
        }
    }

    fn message_json(m: &Message) -> (res: JsonValue)
        ensures
            res@ == anthropic_message(m@),
    {
        let mut e: Vec<(String, JsonValue)> = Vec::new();
        match m.role {
            Role::Assistant => {
                push_member(&mut e, "role", json_text("assistant"));
                let mut blocks: Vec<JsonValue> = Vec::new();
                proof {
                    lemma_views(blocks@);
                }
                match &m.content {
                    Some(t) => {
                        if !t.as_str().is_empty() {
                            let mut b: Vec<(String, JsonValue)> = Vec::new();
                            push_member(&mut b, "type", json_text("text"));
                            push_member(&mut b, "text", JsonValue::Str(t.clone()));
                            assert(member_views(b@) =~= seq![("type"@, Json::Str("text"@)), ("text"@, Json::Str(t@))]);
                            push_item(&mut blocks, JsonValue::Object(b));
                        }
                    },
                    None => {},
                }
                assert(views(blocks@) =~= text_blocks(m@.content));
                let ghost head = views(blocks@);
                match &m.tool_calls {
                    Some(calls) => {
                        let mut i: usize = 0;
                        while i < calls.len()
                            invariant
                                i <= calls.len(),
                                views(blocks@) == head + Seq::new(i as nat, |j: int| use_block(calls@[j]@)),
                            decreases calls.len() - i,
                        {
                            let c = &calls[i];
                            let mut b: Vec<(String, JsonValue)> = Vec::new();
                            push_member(&mut b, "type", json_text("tool_use"));
                            push_member(&mut b, "id", JsonValue::Str(c.id.clone()));
                            push_member(&mut b, "name", JsonValue::Str(c.function.name.clone()));
                            push_member(&mut b, "input", Self::input_of(c.function.arguments.as_str()));
                            assert(member_views(b@) =~= use_block(c@)->Object_0);
                            push_item(&mut blocks, JsonValue::Object(b));
                            i = i + 1;
                            assert(views(blocks@) =~= head + Seq::new(i as nat, |j: int| use_block(calls@[j]@)));
                        }
                        assert(Seq::new(i as nat, |j: int| use_block(calls@[j]@)) =~= use_blocks(m@.tool_calls));
                    },
                    None => {
                        assert(views(blocks@) =~= head + use_blocks(m@.tool_calls));
                    },
                }
                let ghost bv = views(blocks@);
                push_member(&mut e, "content", JsonValue::Array(blocks));
                assert(bv =~= text_blocks(m@.content) + use_blocks(m@.tool_calls));
                assert(member_views(e@) =~= anthropic_message(m@)->Object_0);
            },
            Role::Tool => {
                push_member(&mut e, "role", json_text("user"));
                let mut b: Vec<(String, JsonValue)> = Vec::new();
                push_member(&mut b, "type", json_text("tool_result"));
                push_member(&mut b, "tool_use_id", Self::text_or_empty(&m.tool_call_id));
                push_member(&mut b, "content", Self::text_or_empty(&m.content));
                let mut blocks: Vec<JsonValue> = Vec::new();
                proof {
                    lemma_views(blocks@);
                }
                let ghost bm = member_views(b@);
                assert(bm =~= seq![
                    ("type"@, Json::Str("tool_result"@)),
                    ("tool_use_id"@, text_or_empty(m@.tool_call_id)),
                    ("content"@, text_or_empty(m@.content)),
                ]);
                push_item(&mut blocks, JsonValue::Object(b));
                let ghost bv = views(blocks@);
                assert(bv =~= seq![Json::Object(bm)]);
                push_member(&mut e, "content", JsonValue::Array(blocks));
                assert(member_views(e@) =~= anthropic_message(m@)->Object_0);
            },
            _ => {
                push_member(&mut e, "role", json_text("user"));
                push_member(&mut e, "content", Self::text_or_empty(&m.content));
                assert(member_views(e@) =~= anthropic_message(m@)->Object_0);
            },
        }
        JsonValue::Object(e)
    }

    fn text_or_empty(o: &Option<String>) -> (res: JsonValue)
        ensures
            res@ == text_or_empty(crate::types::opt_view(*o)),
    {
        match o {
            Some(t) => JsonValue::Str(t.clone()),
            None => JsonValue::Str(String::new()),
        }
    }

    fn system_of(messages: &Vec<Message>) -> (res: Option<String>)
        ensures
            crate::types::opt_view(res) == first_system(message_views(messages@)),
    {
        let ghost ms = message_views(messages@);
        let mut i: usize = 0;
        assert(ms.skip(0) =~= ms);
        while i < messages.len()
            invariant
                i <= messages.len(),
                ms == message_views(messages@),
                first_system(ms) == first_system(ms.skip(i as int)),
            decreases messages.len() - i,
        {
            assert(ms.skip(i as int)[0] == messages@[i as int]@);
            if messages[i].role == Role::System {
                return match &messages[i].content {
                    Some(c) => Some(c.clone()),
                    None => Some(String::new()),
                };
            }
            assert(ms.skip(i as int).drop_first() =~= ms.skip(i + 1));
            i = i + 1;
        }
        None
    }

    fn messages_json(messages: &Vec<Message>) -> (res: Vec<JsonValue>)
        ensures
            views(res@) == anthropic_messages(message_views(messages@)),
    {
        let mut out: Vec<JsonValue> = Vec::new();
        proof {
            lemma_views(out@);
            assert(message_views(messages@.take(0)) =~= Seq::<MessageView>::empty());
        }
        let mut i: usize = 0;
        while i < messages.len()
            invariant
                i <= messages.len(),
                views(out@) == anthropic_messages(message_views(messages@.take(i as int))),
            decreases messages.len() - i,
        {
            let ghost before = views(out@);
            if messages[i].role != Role::System {
                push_item(&mut out, Self::message_json(&messages[i]));
            }
            proof {
                let pre = message_views(messages@.take(i as int));
                let post = message_views(messages@.take(i + 1));
                assert(post.drop_last() =~= pre);
                assert(post.last() == messages@[i as int]@);
                assert(views(out@) =~= anthropic_messages(post));
            }
            i = i + 1;
        }
        assert(messages@.take(i as int) =~= messages@);
        out
    }

    fn tools_json(tools: &Vec<ToolDefinition>) -> (res: Vec<JsonValue>)
        ensures
            views(res@) == Seq::new(tools.len() as nat, |i: int| anthropic_tool(tools@[i]@)),
    {
        let mut out: Vec<JsonValue> = Vec::new();
        proof {
            lemma_views(out@);
        }
        let mut i: usize = 0;
        while i < tools.len()
            invariant
                i <= tools.len(),
                views(out@) == Seq::new(i as nat, |j: int| anthropic_tool(tools@[j]@)),
            decreases tools.len() - i,
        {
            let d = &tools[i];
            let mut b: Vec<(String, JsonValue)> = Vec::new();
            push_member(&mut b, "name", JsonValue::Str(d.function.name.clone()));
            push_member(&mut b, "description", JsonValue::Str(d.function.description.clone()));
            push_member(&mut b, "input_schema", d.function.parameters.duplicate());
            assert(member_views(b@) =~= anthropic_tool(d@)->Object_0);
            push_item(&mut out, JsonValue::Object(b));
            i = i + 1;
            assert(views(out@) =~= Seq::new(i as nat, |j: int| anthropic_tool(tools@[j]@)));
        }
        out
    }

    fn block_call(b: &serde_json::Value) -> (res: Option<ToolCall>)
        ensures
            match res {
                Some(c) => block_call(json_of(*b)) == Some(c@),
                None => block_call(json_of(*b)) is None,
            },
    {
        let kind = member_text(b, "type");
        let is_use = match &kind {
            Some(k) => same_text(k.as_str(), "tool_use"),
            None => false,
        };
        if !is_use {
            return None;
        }
        let id = member_text(b, "id");
        let name = member_text(b, "name");
        match (id, name) {
            (Some(id), Some(name)) => {
                let arguments = match value_member(b, "input") {
                    Some(x) => render_value(&x),
                    None => "{}".to_owned(),
                };
                Some(ToolCall { id, kind: "function".to_owned(), function: FunctionCall { name, arguments } })
            },
            _ => None,
        }
    }

    fn block_text(b: &serde_json::Value) -> (res: Option<String>)
        ensures
            crate::types::opt_view(res) == block_text(json_of(*b)),
    {
        let kind = member_text(b, "type");
        let is_text = match &kind {
            Some(k) => same_text(k.as_str(), "text"),
            None => false,
        };
        if is_text {
            member_text(b, "text")
        } else {
            None
        }
    }

}

impl Provider for AnthropicProvider {
    fn chat_request(&self, model: &str, messages: &Vec<Message>, tools: &Vec<ToolDefinition>) -> (res: ChatRequest)
        ensures
            res@ == anthropic_request(self@, model@, message_views(messages@), definition_views(tools@)),
    {
        let ghost ms = message_views(messages@);
        let ghost ts = definition_views(tools@);
        let mut body: Vec<(String, JsonValue)> = Vec::new();
        push_member(&mut body, "model", json_text(model));
        push_member(&mut body, "max_tokens", JsonValue::Number("2048".to_owned()));
        let ghost a = member_views(body@);
        match Self::system_of(messages) {
            Some(t) => push_member(&mut body, "system", JsonValue::Str(t)),
            None => {},
        }
        let ghost b = member_views(body@);
        push_member(&mut body, "messages", JsonValue::Array(Self::messages_json(messages)));
        let ghost c = member_views(body@);
        if tools.len() > 0 {
            push_member(&mut body, "tools", JsonValue::Array(Self::tools_json(tools)));
        }
        proof {
            let sys = match first_system(ms) {
                Some(t) => seq![("system"@, Json::Str(t))],
                None => Seq::<(Seq<char>, Json)>::empty(),
            };
            let tl = if ts.len() > 0 {
                seq![("tools"@, Json::Array(Seq::new(ts.len(), |i: int| anthropic_tool(ts[i]))))]
            } else {
                Seq::<(Seq<char>, Json)>::empty()
            };
            assert(a =~= seq![("model"@, Json::Str(model@)), ("max_tokens"@, Json::Number("2048"@))]);
            assert(b =~= a + sys);
            assert(Seq::new(tools.len() as nat, |i: int| anthropic_tool(tools@[i]@)) =~= Seq::new(
                ts.len(),
                |i: int| anthropic_tool(ts[i]),
            ));
            assert(member_views(body@) =~= a + sys + seq![("messages"@, Json::Array(anthropic_messages(ms)))] + tl);
        }
        let mut headers: Vec<(String, String)> = Vec::new();
        headers.push(("x-api-key".to_owned(), self.api_key.clone()));
        headers.push(("anthropic-version".to_owned(), "2023-06-01".to_owned()));
        headers.push(("content-type".to_owned(), "application/json".to_owned()));
        let res = ChatRequest {
            url: "https://api.anthropic.com/v1/messages".to_owned(),
            headers,
            body: JsonValue::Object(body),
            send_context: "Failed to send request to Anthropic".to_owned(),
        };
        assert(res@.headers =~= anthropic_request(self@, model@, ms, ts).headers);
        res
    }

    fn failure(&self, status: &str, body: &str) -> (res: ProviderError)
        ensures
            res.text() == "Anthropic API error"@ + " ("@ + status@ + "): "@ + body@,
    {
        ProviderError::Api { label: "Anthropic API error".to_owned(), status: status.to_owned(), body: body.to_owned() }
    }

    fn read_reply(&self, data: &serde_json::Value) -> (res: ProviderResponse)
        ensures
            res@ == anthropic_reply(json_of(*data)),
    {
        let blocks: Vec<serde_json::Value> = match value_member(data, "content") {
            Some(c) => match value_items(&c) {
                Some(items) => items,
                None => Vec::new(),
            },
            None => Vec::new(),
        };
        let ghost bs = Seq::new(blocks.len() as nat, |j: int| json_of(blocks@[j]));
        assert(bs =~= reply_blocks(json_of(*data)));
        let mut text: Option<String> = None;
        let mut calls: Vec<ToolCall> = Vec::new();
        let mut i: usize = 0;
        assert(bs.take(0) =~= Seq::<Json>::empty());
        assert(call_views(calls@) =~= Seq::<ToolCallView>::empty());
        while i < blocks.len()
            invariant
                i <= blocks.len(),
                bs == Seq::new(blocks.len() as nat, |j: int| json_of(blocks@[j])),
                crate::types::opt_view(text) == blocks_text(bs.take(i as int)),
                call_views(calls@) == blocks_calls(bs.take(i as int)),
            decreases blocks.len() - i,
        {
            let ghost pre = bs.take(i as int);
            let ghost post = bs.take(i + 1);
            assert(post.drop_last() =~= pre);
            assert(post.last() == json_of(blocks@[i as int]));
            match Self::block_text(&blocks[i]) {
                Some(t) => {
                    text = match text {
                        Some(mut acc) => {
                            acc.append(t.as_str());
                            Some(acc)
                        },
                        None => Some(t),
                    };
                },
                None => {},
            }
            let ghost before = call_views(calls@);
            match Self::block_call(&blocks[i]) {
                Some(c) => {
                    calls.push(c);
                },
                None => {},
            }
            assert(call_views(calls@) =~= blocks_calls(post));
            i = i + 1;
        }
        assert(bs.take(i as int) =~= bs);
        let tool_calls = if calls.len() > 0 {
            Some(calls)
        } else {
            None
        };
        ProviderResponse { content: text, tool_calls }
    }
}

} // verus!

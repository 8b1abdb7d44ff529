//! The model providers: which one a name selects, what a chat request holds,
//! and how a reply is read.
use vstd::prelude::*;
use vstd::utf8::is_ascii_chars;

use crate::config::{Config, ConfigKey};
use crate::anthropic::{AnthropicProvider, anthropic_missing_key, anthropic_reply, anthropic_request};
use crate::json::{Json, JsonValue, lemma_lookup_front, json_from_value, json_of, json_text, member_views, parsed_json, push_member, read_document};
use crate::text::{concat, same_text, strip_prefix, without_prefix};
use crate::types::{
    Message, MessageView, ToolCall, ToolCallView, ToolDefinition, ToolDefinitionView,
    definition_views, definitions_json, definitions_to_json, decode_calls, calls_json, calls_round_trip,
    message_json, opt_text_json,
    message_views, messages_json, messages_to_json, opt_calls_view, opt_view, read_calls,
};

verus! {

// ----- lowercase -----

/// What `str::to_lowercase` returns for a text.
pub uninterp spec fn lowercase_of(s: Seq<char>) -> Seq<char>;

/// ASCII letters made lowercase, other characters kept.
pub open spec fn ascii_lowercase(s: Seq<char>) -> Seq<char> {
    Seq::new(
        s.len(),
        |i: int|
            if 'A' <= s[i] <= 'Z' {
                ((s[i] as u32) + 32) as char
            } else {
                s[i]
            },
    )
}

/// Calls `str::to_lowercase`. The result is named by `lowercase_of`; on ASCII
/// text it lowers each letter A to Z and keeps every other character, as the
/// documentation of `to_lowercase` gives. What it does to other characters
/// (the Unicode lowercase mapping) is left unsaid.
#[verifier::external_body]
fn lowercase(s: &str) -> (res: String)
    ensures
        res@ == lowercase_of(s@),
        is_ascii_chars(s@) ==> res@ == ascii_lowercase(s@),
{
    s.to_lowercase()
}

// ----- replies and requests -----

/// What a provider answers to one chat request.
pub struct ProviderResponse {
    pub content: Option<String>,
    pub tool_calls: Option<Vec<ToolCall>>,
}

/// The value of a reply.
pub struct ResponseView {
    pub content: Option<Seq<char>>,
    pub tool_calls: Option<Seq<ToolCallView>>,
}

impl View for ProviderResponse {
    type V = ResponseView;

    open spec fn view(&self) -> ResponseView {
        ResponseView { content: opt_view(self.content), tool_calls: opt_calls_view(self.tool_calls) }
    }
}

/// An HTTP request for one chat turn: where to post, the headers, the JSON
/// body, and what to say where it cannot be sent.
pub struct ChatRequest {
    pub url: String,
    pub headers: Vec<(String, String)>,
    pub body: JsonValue,
    pub send_context: String,
}

/// The value of a chat request.
pub struct ChatRequestView {
    pub url: Seq<char>,
    pub headers: Seq<(Seq<char>, Seq<char>)>,
    pub body: Json,
    pub send_context: Seq<char>,
}

impl View for ChatRequest {
    type V = ChatRequestView;

    open spec fn view(&self) -> ChatRequestView {
        ChatRequestView {
            url: self.url@,
            headers: self.headers@.map_values(|h: (String, String)| (h.0@, h.1@)),
            body: self.body@,
            send_context: self.send_context@,
        }
    }
}

/// Why a provider could not be set up or answered with an error.
pub enum ProviderError {
    MissingOpenAIKey,
    MissingOpenRouterKey,
    MissingAnthropicKey,
    UnknownProvider { name: String },
    /// The provider answered with an error status.
    Api { label: String, status: String, body: String },
}

impl ProviderError {
    /// The message of the error.
    pub open spec fn text(&self) -> Seq<char> {
        match self {
            ProviderError::MissingOpenAIKey => "OpenAI API key not set. Run: nex config set openai_api_key sk-..."@,
            ProviderError::MissingOpenRouterKey => "OpenRouter API key not set. Run: nex config set openrouter_api_key sk-or-..."@,
            ProviderError::MissingAnthropicKey => anthropic_missing_key(),
            ProviderError::UnknownProvider { name } => "Unknown provider: "@ + name@
                + ". Supported: openai, anthropic, openrouter, ollama"@,
            ProviderError::Api { label, status, body } => label@ + " ("@ + status@ + "): "@ + body@,
        }
    }

    pub fn message(&self) -> (res: String)
        ensures
            res@ == self.text(),
    {
        match self {
            ProviderError::MissingOpenAIKey => "OpenAI API key not set. Run: nex config set openai_api_key sk-...".to_owned(),
            ProviderError::MissingOpenRouterKey => "OpenRouter API key not set. Run: nex config set openrouter_api_key sk-or-...".to_owned(),
            ProviderError::MissingAnthropicKey => "Anthropic API key not set. Run: nex config set anthropic_api_key sk-ant-...".to_owned(),
            ProviderError::UnknownProvider { name } => {
                let mut m = concat("Unknown provider: ", name.as_str());
                m.append(". Supported: openai, anthropic, openrouter, ollama");
                m
            },
            ProviderError::Api { label, status, body } => {
                let mut m = concat(label.as_str(), " (");
                m.append(status.as_str());
                m.append("): ");
                m.append(body.as_str());
                m
            },
        }
    }
}

/// What a provider does for one chat turn: the request to send, the error
/// to report for a failed status, and the reply read from the answer.
pub trait Provider {
    fn chat_request(&self, model: &str, messages: &Vec<Message>, tools: &Vec<ToolDefinition>) -> ChatRequest;

    fn failure(&self, status: &str, body: &str) -> ProviderError;

    fn read_reply(&self, data: &serde_json::Value) -> ProviderResponse;
}

// ----- OpenAI and OpenRouter -----

/// A provider that speaks the OpenAI chat completions API (OpenAI itself or
/// OpenRouter).
pub struct OpenAIProvider {
    api_key: String,
    base_url: String,
}

/// The value of an OpenAI-style provider: its key and base URL.
pub struct OpenAIView {
    pub api_key: Seq<char>,
    pub base_url: Seq<char>,
}

impl View for OpenAIProvider {
    type V = OpenAIView;

    closed spec fn view(&self) -> OpenAIView {
        OpenAIView { api_key: self.api_key@, base_url: self.base_url@ }
    }
}

pub open spec fn openai_base_url(openrouter: bool) -> Seq<char> {
    if openrouter {
        "https://openrouter.ai/api/v1"@
    } else {
        "https://api.openai.com/v1"@
    }
}

/// The key that an OpenAI-style provider uses, if it is set.
pub open spec fn openai_key(config: Config, openrouter: bool) -> Option<Seq<char>> {
    if openrouter {
        config.value(ConfigKey::OpenRouterApiKey)
    } else {
        config.value(ConfigKey::OpenAIApiKey)
    }
}

pub open spec fn missing_key_error(openrouter: bool) -> ProviderError {
    if openrouter {
        ProviderError::MissingOpenRouterKey
    } else {
        ProviderError::MissingOpenAIKey
    }
}

/// The body of an OpenAI chat request: the model, the conversation, a limit
/// of 2048 tokens, and the tools with automatic choice where there are tools.
pub open spec fn openai_body(model: Seq<char>, messages: Seq<MessageView>, tools: Seq<ToolDefinitionView>) -> Json {
    Json::Object(
        seq![
            ("model"@, Json::Str(model)),
            ("messages"@, Json::Array(messages_json(messages))),
            ("max_tokens"@, Json::Number("2048"@)),
        ] + if tools.len() > 0 {
            seq![("tools"@, Json::Array(definitions_json(tools))), ("tool_choice"@, Json::Str("auto"@))]
        } else {
            Seq::empty()
        },
    )
}

pub open spec fn openai_request(
    p: OpenAIView,
    model: Seq<char>,
    messages: Seq<MessageView>,
    tools: Seq<ToolDefinitionView>,
) -> ChatRequestView {
    ChatRequestView {
        url: p.base_url + "/chat/completions"@,
        headers: seq![("Authorization"@, "Bearer "@ + p.api_key), ("Content-Type"@, "application/json"@)],
        body: openai_body(model, messages, tools),
        send_context: "Failed to send request to OpenAI"@,
    }
}

/// The reply in an OpenAI answer: the content and tool calls of the message
/// of the first choice.
pub open spec fn openai_reply(data: Json) -> ResponseView {
    let message = data.field("choices"@).item(0).field("message"@);
    ResponseView {
        content: message.field("content"@).text(),
        tool_calls: match message.get("tool_calls"@) {
            Some(t) => decode_calls(t),
            None => None,
        },
    }
}

/// The message of an OpenAI-style response: `choices[0].message`.
pub open spec fn openai_message(data: Json) -> Json {
    data.field("choices"@).item(0).field("message"@)
}

/// An OpenAI-style response that holds one choice, whose message is `message`.
pub open spec fn openai_document(message: Json) -> Json {
    Json::Object(seq![("choices"@, Json::Array(seq![Json::Object(seq![("message"@, message)])]))])
}

/// The tool calls of a reply are those of its message's `tool_calls` member
/// whenever that member is present, whatever content the message holds, and
/// there are none where it is absent.
pub proof fn reply_keeps_the_tool_calls(data: Json, calls: Seq<ToolCallView>)
    ensures
        openai_message(data).get("tool_calls"@) == Some(Json::Array(calls_json(calls))) ==> openai_reply(
            data,
        ).tool_calls == Some(calls),
        openai_message(data).get("tool_calls"@) is None ==> openai_reply(data).tool_calls is None,
{
    calls_round_trip(calls);
}

/// The content and the tool calls of a reply are read from their own members
/// only: two responses whose messages agree on `tool_calls` give the same
/// tool calls, whatever their content, and two whose messages agree on
/// `content` give the same content, whatever their tool calls.
pub proof fn reply_parts_are_independent(d1: Json, d2: Json)
    ensures
        openai_message(d1).get("tool_calls"@) == openai_message(d2).get("tool_calls"@) ==> openai_reply(
            d1,
        ).tool_calls == openai_reply(d2).tool_calls,
        openai_message(d1).get("content"@) == openai_message(d2).get("content"@) ==> openai_reply(d1).content
            == openai_reply(d2).content,
{
}

/// A response whose message is the JSON form of a message reads back as that
/// message's content and tool calls.
pub proof fn reply_reads_back_a_message(m: MessageView)
    ensures
        openai_reply(openai_document(message_json(m))).content == m.content,
        openai_reply(openai_document(message_json(m))).tool_calls == m.tool_calls,
{
    reveal_strlit("role");
    reveal_strlit("content");
    reveal_strlit("tool_calls");
    reveal_strlit("tool_call_id");
    assert("role"@.len() != "content"@.len());
    assert("role"@.len() != "tool_calls"@.len());
    assert("content"@.len() != "tool_calls"@.len());
    assert("tool_call_id"@.len() != "tool_calls"@.len());
    let r = ("role"@, Json::Str(m.role.name()));
    let c = ("content"@, opt_text_json(m.content));
    let tc = match m.tool_calls {
        Some(cs) => seq![("tool_calls"@, Json::Array(calls_json(cs)))],
        None => Seq::<(Seq<char>, Json)>::empty(),
    };
    let id = match m.tool_call_id {
        Some(i) => seq![("tool_call_id"@, Json::Str(i))],
        None => Seq::<(Seq<char>, Json)>::empty(),
    };
    let all = seq![r, c] + tc + id;
    assert(message_json(m) == Json::Object(all));
    assert(all =~= seq![r] + (seq![c] + (tc + id)));
    let doc = openai_document(message_json(m));
    assert(openai_message(doc) == message_json(m));
    lemma_lookup_front(r.0, r.1, seq![c] + (tc + id), "content"@);
    lemma_lookup_front(c.0, c.1, tc + id, "content"@);
    lemma_lookup_front(r.0, r.1, seq![c] + (tc + id), "tool_calls"@);
    lemma_lookup_front(c.0, c.1, tc + id, "tool_calls"@);
    match m.tool_calls {
        Some(cs) => {
            assert(tc + id =~= seq![("tool_calls"@, Json::Array(calls_json(cs)))] + id);
            lemma_lookup_front("tool_calls"@, Json::Array(calls_json(cs)), id, "tool_calls"@);
            calls_round_trip(cs);
        },
        None => {
            assert(tc + id =~= id);
            match m.tool_call_id {
                Some(i) => {
                    assert(id =~= seq![("tool_call_id"@, Json::Str(i))] + Seq::<(Seq<char>, Json)>::empty());
                    lemma_lookup_front("tool_call_id"@, Json::Str(i), Seq::empty(), "tool_calls"@);
                },
                None => {},
            }
        },
    }
}

fn header(name: &str, value: String) -> (res: (String, String))
    ensures
        res.0@ == name@,
        res.1@ == value@,
{
    (name.to_owned(), value)
}

fn member_text(v: &JsonValue, key: &str) -> (res: Option<String>)
    ensures
        opt_view(res) == v@.field(key@).text(),
{
    match v.get(key) {
        Some(x) => match x.as_text() {
            Some(s) => Some(s.clone()),
            None => None,
        },
        None => None,
    }
}

impl OpenAIProvider {
    /// Sets up an OpenAI provider, or an OpenRouter one, from the key set for it.
    pub fn new(config: &Config, is_openrouter: bool) -> (res: Result<OpenAIProvider, ProviderError>)
        ensures
            match openai_key(*config, is_openrouter) {
                Some(k) => res matches Ok(p) && p@ == (OpenAIView {
                    api_key: k,
                    base_url: openai_base_url(is_openrouter),
                }),
                None => res == Err::<OpenAIProvider, ProviderError>(missing_key_error(is_openrouter)),
            },
    {
        if is_openrouter {
            match &config.openrouter_api_key {
                Some(k) => Ok(OpenAIProvider { api_key: k.clone(), base_url: "https://openrouter.ai/api/v1".to_owned() }),
                None => Err(ProviderError::MissingOpenRouterKey),
            }
        } else {
            match &config.openai_api_key {
                Some(k) => Ok(OpenAIProvider { api_key: k.clone(), base_url: "https://api.openai.com/v1".to_owned() }),
                None => Err(ProviderError::MissingOpenAIKey),
            }
        }
    }
}

impl Provider for OpenAIProvider {
    fn chat_request(&self, model: &str, messages: &Vec<Message>, tools: &Vec<ToolDefinition>) -> (res: ChatRequest)
        ensures
            res@ == openai_request(self@, model@, message_views(messages@), definition_views(tools@)),
    {
        let mut body: Vec<(String, JsonValue)> = Vec::new();
        push_member(&mut body, "model", json_text(model));
        push_member(&mut body, "messages", messages_to_json(messages));
        push_member(&mut body, "max_tokens", JsonValue::Number("2048".to_owned()));
        let ghost base = member_views(body@);
        assert(base =~= seq![
            ("model"@, Json::Str(model@)),
            ("messages"@, Json::Array(messages_json(message_views(messages@)))),
            ("max_tokens"@, Json::Number("2048"@)),
        ]);
        if tools.len() > 0 {
            push_member(&mut body, "tools", definitions_to_json(tools));
            push_member(&mut body, "tool_choice", json_text("auto"));
        }
        proof {
            let tail = if tools.len() > 0 {
                seq![("tools"@, Json::Array(definitions_json(definition_views(tools@)))), ("tool_choice"@, Json::Str("auto"@))]
            } else {
                Seq::<(Seq<char>, Json)>::empty()
            };
            assert(member_views(body@) =~= base + tail);
        }
        let mut headers: Vec<(String, String)> = Vec::new();
        headers.push(header("Authorization", concat("Bearer ", self.api_key.as_str())));
        headers.push(header("Content-Type", "application/json".to_owned()));
        let res = ChatRequest {
            url: concat(self.base_url.as_str(), "/chat/completions"),
            headers,
            body: JsonValue::Object(body),
            send_context: "Failed to send request to OpenAI".to_owned(),
        };
        assert(res@.headers =~= seq![("Authorization"@, "Bearer "@ + self@.api_key), ("Content-Type"@, "application/json"@)]);
        res
    }

    fn failure(&self, status: &str, body: &str) -> (res: ProviderError)
        ensures
            res.text() == "OpenAI API error"@ + " ("@ + status@ + "): "@ + body@,
    {
        ProviderError::Api { label: "OpenAI API error".to_owned(), status: status.to_owned(), body: body.to_owned() }
    }

    fn read_reply(&self, data: &serde_json::Value) -> (res: ProviderResponse)
        ensures
            res@ == openai_reply(json_of(*data)),
    {
        let data = json_from_value(data);
        let message = match data.get("choices") {
            Some(choices) => match choices.at(0) {
                Some(first) => first.get("message"),
                None => None,
            },
            None => None,
        };
        match message {
            Some(m) => {
                let content = member_text(m, "content");
                let tool_calls = match m.get("tool_calls") {
                    Some(t) => read_calls(t),
                    None => None,
                };
                ProviderResponse { content, tool_calls }
            },
            None => ProviderResponse { content: None, tool_calls: None },
        }
    }
}

// ----- Ollama -----

/// A provider that speaks the Ollama chat API.
pub struct OllamaProvider {
    base_url: String,
}

impl View for OllamaProvider {
    type V = Seq<char>;

    /// The base URL.
    closed spec fn view(&self) -> Seq<char> {
        self.base_url@
    }
}

/// The base URL of Ollama: the one set, else the local default.
pub open spec fn ollama_base_url(config: Config) -> Seq<char> {
    match config.value(ConfigKey::OllamaBaseUrl) {
        Some(u) => u,
        None => "http://localhost:11434"@,
    }
}

/// The model name that Ollama gets: without an `ollama/` prefix.
pub open spec fn ollama_model(model: Seq<char>) -> Seq<char> {
    match without_prefix(model, "ollama/"@) {
        Some(m) => m,
        None => model,
    }
}

/// The Ollama request: the model, the conversation and no streaming; the
/// tools are not sent.
pub open spec fn ollama_request(base_url: Seq<char>, model: Seq<char>, messages: Seq<MessageView>) -> ChatRequestView {
    ChatRequestView {
        url: base_url + "/api/chat"@,
        headers: Seq::empty(),
        body: Json::Object(
            seq![
                ("model"@, Json::Str(ollama_model(model))),
                ("messages"@, Json::Array(messages_json(messages))),
                ("stream"@, Json::Bool(false)),
            ],
        ),
        send_context: "Failed to send request to Ollama. Is Ollama running?"@,
    }
}

/// The reply in an Ollama answer: the content of its message, and no tool calls.
pub open spec fn ollama_reply(data: Json) -> ResponseView {
    ResponseView { content: data.field("message"@).field("content"@).text(), tool_calls: None }
}

impl OllamaProvider {
    pub fn new(config: &Config) -> (res: OllamaProvider)
        ensures
            res@ == ollama_base_url(*config),
    {
        let base_url = match &config.ollama_base_url {
            Some(u) => u.clone(),
            None => "http://localhost:11434".to_owned(),
        };
        OllamaProvider { base_url }
    }
}

impl Provider for OllamaProvider {
    fn chat_request(&self, model: &str, messages: &Vec<Message>, tools: &Vec<ToolDefinition>) -> (res: ChatRequest)
        ensures
            res@ == ollama_request(self@, model@, message_views(messages@)),
    {
        let model_name = match strip_prefix(model, "ollama/") {
            Some(m) => m,
            None => model.to_owned(),
        };
        let mut body: Vec<(String, JsonValue)> = Vec::new();
        push_member(&mut body, "model", JsonValue::Str(model_name));
        push_member(&mut body, "messages", messages_to_json(messages));
        push_member(&mut body, "stream", JsonValue::Bool(false));
        let headers: Vec<(String, String)> = Vec::new();
        let res = ChatRequest {
            url: concat(self.base_url.as_str(), "/api/chat"),
            headers,
            body: JsonValue::Object(body),
            send_context: "Failed to send request to Ollama. Is Ollama running?".to_owned(),
        };
        assert(res@.headers =~= Seq::<(Seq<char>, Seq<char>)>::empty());
        assert(member_views(body@) =~= seq![
            ("model"@, Json::Str(ollama_model(model@))),
            ("messages"@, Json::Array(messages_json(message_views(messages@)))),
            ("stream"@, Json::Bool(false)),
        ]);
        res
    }

    fn failure(&self, status: &str, body: &str) -> (res: ProviderError)
        ensures
            res.text() == "Ollama error"@ + " ("@ + status@ + "): "@ + body@,
    {
        ProviderError::Api { label: "Ollama error".to_owned(), status: status.to_owned(), body: body.to_owned() }
    }

    fn read_reply(&self, data: &serde_json::Value) -> (res: ProviderResponse)
        ensures
            res@ == ollama_reply(json_of(*data)),
    {
        let data = json_from_value(data);
        let content = match data.get("message") {
            Some(m) => member_text(m, "content"),
            None => None,
        };
        ProviderResponse { content, tool_calls: None }
    }
}

// ----- choosing a provider -----

/// One of the providers.
pub enum AnyProvider {
    OpenAI(OpenAIProvider),
    Anthropic(AnthropicProvider),
    Ollama(OllamaProvider),
}

/// The request that a provider makes for a chat turn.
pub open spec fn request_of(
    p: AnyProvider,
    model: Seq<char>,
    messages: Seq<MessageView>,
    tools: Seq<ToolDefinitionView>,
) -> ChatRequestView {
    match p {
        AnyProvider::OpenAI(o) => openai_request(o@, model, messages, tools),
        AnyProvider::Anthropic(a) => anthropic_request(a@, model, messages, tools),
        AnyProvider::Ollama(o) => ollama_request(o@, model, messages),
    }
}

/// The reply that a provider reads from an answer.
pub open spec fn reply_of(p: AnyProvider, data: Json) -> ResponseView {
    match p {
        AnyProvider::OpenAI(_) => openai_reply(data),
        AnyProvider::Anthropic(_) => anthropic_reply(data),
        AnyProvider::Ollama(_) => ollama_reply(data),
    }
}

/// The error that a provider reports for a failed status.
pub open spec fn failure_of(p: AnyProvider, status: Seq<char>, body: Seq<char>) -> Seq<char> {
    match p {
        AnyProvider::OpenAI(_) => "OpenAI API error"@ + " ("@ + status + "): "@ + body,
        AnyProvider::Anthropic(_) => "Anthropic API error"@ + " ("@ + status + "): "@ + body,
        AnyProvider::Ollama(_) => "Ollama error"@ + " ("@ + status + "): "@ + body,
    }
}

impl Provider for AnyProvider {
    fn chat_request(&self, model: &str, messages: &Vec<Message>, tools: &Vec<ToolDefinition>) -> (res: ChatRequest)
        ensures
            res@ == request_of(*self, model@, message_views(messages@), definition_views(tools@)),
    {
        match self {
            AnyProvider::OpenAI(p) => p.chat_request(model, messages, tools),
            AnyProvider::Anthropic(p) => p.chat_request(model, messages, tools),
            AnyProvider::Ollama(p) => p.chat_request(model, messages, tools),
        }
    }

    fn failure(&self, status: &str, body: &str) -> (res: ProviderError)
        ensures
            res.text() == failure_of(*self, status@, body@),
    {
        match self {
            AnyProvider::OpenAI(p) => p.failure(status, body),
            AnyProvider::Anthropic(p) => p.failure(status, body),
            AnyProvider::Ollama(p) => p.failure(status, body),
        }
    }

    fn read_reply(&self, data: &serde_json::Value) -> (res: ProviderResponse)
        ensures
            res@ == reply_of(*self, json_of(*data)),
    {
        match self {
            AnyProvider::OpenAI(p) => p.read_reply(data),
            AnyProvider::Anthropic(p) => p.read_reply(data),
            AnyProvider::Ollama(p) => p.read_reply(data),
        }
    }
}

/// Reads a provider's answer from the text of the response body: the reply
/// in the document, or the error where the body is not JSON.
pub fn read_reply_text(provider: &AnyProvider, body: &str) -> (res: Result<ProviderResponse, serde_json::Error>)
    ensures
        match parsed_json(body@) {
            Some(j) => res matches Ok(r) && r@ == reply_of(*provider, j),
            None => res is Err,
        },
{
    match read_document(body) {
        Ok(data) => Ok(provider.read_reply(&data)),
        Err(e) => Err(e),
    }
}

/// Which provider the name `name` selects, `lowered` being its lowercase form:
/// `openai` and `openrouter` an OpenAI-style one (the OpenRouter service only
/// where `name` itself is `openrouter`), `anthropic` Anthropic, `ollama`
/// Ollama, anything else none.
pub open spec fn selects(lowered: Seq<char>, name: Seq<char>, config: Config, res: Result<AnyProvider, ProviderError>) -> bool {
    if lowered == "openai"@ || lowered == "openrouter"@ {
        let openrouter = name == "openrouter"@;
        match openai_key(config, openrouter) {
            Some(k) => res matches Ok(AnyProvider::OpenAI(p)) && p@ == (OpenAIView {
                api_key: k,
                base_url: openai_base_url(openrouter),
            }),
            None => res == Err::<AnyProvider, ProviderError>(missing_key_error(openrouter)),
        }
    } else if lowered == "anthropic"@ {
        match config.value(ConfigKey::AnthropicApiKey) {
            Some(k) => res matches Ok(AnyProvider::Anthropic(p)) && p@ == k,
            None => res == Err::<AnyProvider, ProviderError>(ProviderError::MissingAnthropicKey),
        }
    } else if lowered == "ollama"@ {
        res matches Ok(AnyProvider::Ollama(p)) && p@ == ollama_base_url(config)
    } else {
        res matches Err(ProviderError::UnknownProvider { name: n }) && n@ == name
    }
}

/// Sets up the provider that `name` selects, given its lowercase form `lowered`.
pub fn select_provider(lowered: &str, name: &str, config: &Config) -> (res: Result<AnyProvider, ProviderError>)
    ensures
        selects(lowered@, name@, *config, res),
{
    if same_text(lowered, "openai") || same_text(lowered, "openrouter") {
        match OpenAIProvider::new(config, same_text(name, "openrouter")) {
            Ok(p) => Ok(AnyProvider::OpenAI(p)),
            Err(e) => Err(e),
        }
    } else if same_text(lowered, "anthropic") {
        match AnthropicProvider::new(config) {
            Ok(p) => Ok(AnyProvider::Anthropic(p)),
            Err(e) => Err(e),
        }
    } else if same_text(lowered, "ollama") {
        Ok(AnyProvider::Ollama(OllamaProvider::new(config)))
    } else {
        Err(ProviderError::UnknownProvider { name: name.to_owned() })
    }
}

/// Sets up the provider that `name` selects, whatever its case.
pub fn get_provider(name: &str, config: &Config) -> (res: Result<AnyProvider, ProviderError>)
    ensures
        selects(lowercase_of(name@), name@, *config, res),
        is_ascii_chars(name@) ==> selects(ascii_lowercase(name@), name@, *config, res),
{
    let lowered = lowercase(name);
    select_provider(lowered.as_str(), name, config)
}

} // verus!

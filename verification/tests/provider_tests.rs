use nex::config::Config;
use nex::json::JsonValue;
use nex::providers::{read_reply_text, get_provider, select_provider, AnyProvider, OllamaProvider, OpenAIProvider, Provider, ProviderError};
use nex::types::{Message, Role};
use nex::tools::available_tools;

fn s(t: &str) -> JsonValue {
    JsonValue::Str(t.to_string())
}

fn obj(members: Vec<(&str, JsonValue)>) -> JsonValue {
    JsonValue::Object(members.into_iter().map(|(k, v)| (k.to_string(), v)).collect())
}

fn value(v: &JsonValue) -> serde_json::Value {
    match v {
        JsonValue::Null => serde_json::Value::Null,
        JsonValue::Bool(b) => serde_json::Value::Bool(*b),
        JsonValue::Number(n) => serde_json::from_str(n).unwrap(),
        JsonValue::Str(s) => serde_json::Value::String(s.clone()),
        JsonValue::Array(a) => serde_json::Value::Array(a.iter().map(value).collect()),
        JsonValue::Object(m) => serde_json::Value::Object(m.iter().map(|(k, v)| (k.clone(), value(v))).collect()),
    }
}

fn member<'a>(v: &'a JsonValue, key: &str) -> &'a JsonValue {
    v.get(key).expect("member")
}

fn text(v: &JsonValue) -> &str {
    v.as_text().expect("text").as_str()
}

fn keyed() -> Config {
    let mut c = Config::new();
    c.openai_api_key = Some("sk-open".to_string());
    c.openrouter_api_key = Some("sk-or-route".to_string());
    c
}

fn conversation() -> Vec<Message> {
    vec![
        Message { role: Role::System, content: Some("sys".to_string()), tool_calls: None, tool_call_id: None },
        Message { role: Role::User, content: Some("task".to_string()), tool_calls: None, tool_call_id: None },
    ]
}

#[test]
fn openai_request_holds_key_url_and_tools() {
    let p = OpenAIProvider::new(&keyed(), false).ok().unwrap();
    let req = p.chat_request("gpt-4o", &conversation(), &available_tools());
    assert_eq!(req.url, "https://api.openai.com/v1/chat/completions");
    assert_eq!(req.headers, vec![
        ("Authorization".to_string(), "Bearer sk-open".to_string()),
        ("Content-Type".to_string(), "application/json".to_string()),
    ]);
    assert_eq!(req.send_context, "Failed to send request to OpenAI");
    assert_eq!(text(member(&req.body, "model")), "gpt-4o");
    assert!(matches!(member(&req.body, "max_tokens"), JsonValue::Number(n) if n == "2048"));
    assert_eq!(text(member(&req.body, "tool_choice")), "auto");
    match member(&req.body, "tools") {
        JsonValue::Array(t) => assert_eq!(t.len(), 5),
        _ => panic!("tools"),
    }
    let msgs = member(&req.body, "messages");
    let first = msgs.at(0).unwrap();
    assert_eq!(text(member(first, "role")), "system");
    assert_eq!(text(member(first, "content")), "sys");
    assert!(first.get("tool_calls").is_none());
    assert_eq!(text(member(msgs.at(1).unwrap(), "role")), "user");
}

#[test]
fn openai_request_without_tools_has_no_tool_choice() {
    let p = OpenAIProvider::new(&keyed(), true).ok().unwrap();
    let req = p.chat_request("m", &conversation(), &vec![]);
    assert_eq!(req.url, "https://openrouter.ai/api/v1/chat/completions");
    assert_eq!(req.headers[0].1, "Bearer sk-or-route");
    assert!(req.body.get("tools").is_none());
    assert!(req.body.get("tool_choice").is_none());
}

#[test]
fn missing_keys_are_reported() {
    let empty = Config::new();
    match OpenAIProvider::new(&empty, false) {
        Err(e) => assert_eq!(e.message(), "OpenAI API key not set. Run: nex config set openai_api_key sk-..."),
        Ok(_) => panic!("no key"),
    }
    match OpenAIProvider::new(&empty, true) {
        Err(e) => assert_eq!(e.message(), "OpenRouter API key not set. Run: nex config set openrouter_api_key sk-or-..."),
        Ok(_) => panic!("no key"),
    }
}

#[test]
fn provider_names_are_matched_without_case() {
    let c = keyed();
    let url = |p: &AnyProvider| p.chat_request("m", &vec![], &vec![]).url;
    assert_eq!(url(&get_provider("openai", &c).ok().unwrap()), "https://api.openai.com/v1/chat/completions");
    assert_eq!(url(&get_provider("OpenAI", &c).ok().unwrap()), "https://api.openai.com/v1/chat/completions");
    assert_eq!(url(&get_provider("openrouter", &c).ok().unwrap()), "https://openrouter.ai/api/v1/chat/completions");
    // Only the exact name `openrouter` selects the OpenRouter service.
    assert_eq!(url(&get_provider("OpenRouter", &c).ok().unwrap()), "https://api.openai.com/v1/chat/completions");
    assert_eq!(url(&get_provider("OLLAMA", &c).ok().unwrap()), "http://localhost:11434/api/chat");
    match get_provider("gemini", &c) {
        Err(e) => assert_eq!(e.message(), "Unknown provider: gemini. Supported: openai, anthropic, openrouter, ollama"),
        Ok(_) => panic!("unknown"),
    }
    match get_provider("Gemini", &c) {
        Err(ProviderError::UnknownProvider { name }) => assert_eq!(name, "Gemini"),
        _ => panic!("unknown"),
    }
    match select_provider("ollama", "whatever", &c) {
        Ok(AnyProvider::Ollama(_)) => {}
        _ => panic!("ollama"),
    }
    match get_provider("openai", &Config::new()) {
        Err(ProviderError::MissingOpenAIKey) => {}
        _ => panic!("missing key"),
    }
}

#[test]
fn ollama_request_strips_prefix_and_skips_tools() {
    let mut c = Config::new();
    let p = OllamaProvider::new(&c);
    let req = p.chat_request("ollama/llama3.2", &conversation(), &available_tools());
    assert_eq!(req.url, "http://localhost:11434/api/chat");
    assert!(req.headers.is_empty());
    assert_eq!(text(member(&req.body, "model")), "llama3.2");
    assert!(matches!(member(&req.body, "stream"), JsonValue::Bool(false)));
    assert!(req.body.get("tools").is_none());
    assert_eq!(req.send_context, "Failed to send request to Ollama. Is Ollama running?");
    c.ollama_base_url = Some("http://gpu:8080".to_string());
    let req = OllamaProvider::new(&c).chat_request("mistral", &vec![], &vec![]);
    assert_eq!(req.url, "http://gpu:8080/api/chat");
    assert_eq!(text(member(&req.body, "model")), "mistral");
}

#[test]
fn failures_name_the_provider() {
    let o = OpenAIProvider::new(&keyed(), false).ok().unwrap();
    assert_eq!(o.failure("401 Unauthorized", "bad key").message(), "OpenAI API error (401 Unauthorized): bad key");
    let l = OllamaProvider::new(&Config::new());
    assert_eq!(l.failure("404 Not Found", "").message(), "Ollama error (404 Not Found): ");
}

#[test]
fn openai_reply_reads_content_and_calls() {
    let o = OpenAIProvider::new(&keyed(), false).ok().unwrap();
    let call = obj(vec![
        ("id", s("call_1")),
        ("type", s("function")),
        ("function", obj(vec![("name", s("read_file")), ("arguments", s("{\"path\":\"a.rs\"}"))])),
    ]);
    let data = obj(vec![(
        "choices",
        JsonValue::Array(vec![obj(vec![(
            "message",
            obj(vec![("content", JsonValue::Null), ("tool_calls", JsonValue::Array(vec![call]))]),
        )])]),
    )]);
    let r = o.read_reply(&value(&data));
    assert_eq!(r.content, None);
    let calls = r.tool_calls.unwrap();
    assert_eq!(calls.len(), 1);
    assert_eq!(calls[0].id, "call_1");
    assert_eq!(calls[0].kind, "function");
    assert_eq!(calls[0].function.name, "read_file");
    assert_eq!(calls[0].function.arguments, "{\"path\":\"a.rs\"}");

    let plain = obj(vec![("choices", JsonValue::Array(vec![obj(vec![("message", obj(vec![("content", s("Hi"))]))])]))]);
    let r = o.read_reply(&value(&plain));
    assert_eq!(r.content.as_deref(), Some("Hi"));
    assert!(r.tool_calls.is_none());

    let r = o.read_reply(&value(&obj(vec![])));
    assert!(r.content.is_none() && r.tool_calls.is_none());
}

#[test]
fn malformed_tool_calls_are_dropped() {
    let o = OpenAIProvider::new(&keyed(), false).ok().unwrap();
    let bad = obj(vec![("id", s("x")), ("function", obj(vec![("name", s("f")), ("arguments", s("{}"))]))]);
    let data = obj(vec![(
        "choices",
        JsonValue::Array(vec![obj(vec![("message", obj(vec![("content", s("c")), ("tool_calls", JsonValue::Array(vec![bad]))]))])]),
    )]);
    let r = o.read_reply(&value(&data));
    assert_eq!(r.content.as_deref(), Some("c"));
    assert!(r.tool_calls.is_none());
    let null_calls = obj(vec![(
        "choices",
        JsonValue::Array(vec![obj(vec![("message", obj(vec![("tool_calls", JsonValue::Null)]))])]),
    )]);
    assert!(o.read_reply(&value(&null_calls)).tool_calls.is_none());
}

#[test]
fn tool_call_in_array_form_is_read() {
    let o = OpenAIProvider::new(&keyed(), false).ok().unwrap();
    let call = JsonValue::Array(vec![s("id9"), s("function"), JsonValue::Array(vec![s("git_status"), s("{}")])]);
    let data = obj(vec![(
        "choices",
        JsonValue::Array(vec![obj(vec![("message", obj(vec![("tool_calls", JsonValue::Array(vec![call]))]))])]),
    )]);
    let calls = o.read_reply(&value(&data)).tool_calls.unwrap();
    assert_eq!(calls[0].id, "id9");
    assert_eq!(calls[0].function.name, "git_status");
    let short = JsonValue::Array(vec![s("id9"), s("function")]);
    let data = obj(vec![(
        "choices",
        JsonValue::Array(vec![obj(vec![("message", obj(vec![("tool_calls", JsonValue::Array(vec![short]))]))])]),
    )]);
    assert!(o.read_reply(&value(&data)).tool_calls.is_none());
}

#[test]
fn ollama_reply_has_no_calls() {
    let l = OllamaProvider::new(&Config::new());
    let data = obj(vec![("message", obj(vec![("role", s("assistant")), ("content", s("Sure"))]))]);
    let r = l.read_reply(&value(&data));
    assert_eq!(r.content.as_deref(), Some("Sure"));
    assert!(r.tool_calls.is_none());
    assert!(l.read_reply(&value(&obj(vec![("message", obj(vec![("content", JsonValue::Number("3".to_string()))]))]))).content.is_none());
}

#[test]
fn anthropic_is_selected_by_its_key() {
    let mut c = keyed();
    match get_provider("anthropic", &c) {
        Err(e) => assert_eq!(e.message(), "Anthropic API key not set. Run: nex config set anthropic_api_key sk-ant-..."),
        Ok(_) => panic!("no key"),
    }
    c.anthropic_api_key = Some("sk-ant-x".to_string());
    let p = get_provider("Anthropic", &c).ok().unwrap();
    assert!(matches!(p, AnyProvider::Anthropic(_)));
    let convo = vec![
        Message { role: Role::System, content: Some("sys".to_string()), tool_calls: None, tool_call_id: None },
        Message { role: Role::User, content: Some("task".to_string()), tool_calls: None, tool_call_id: None },
        Message {
            role: Role::Assistant,
            content: Some("".to_string()),
            tool_calls: Some(vec![nex::types::ToolCall {
                id: "tu_1".to_string(),
                kind: "function".to_string(),
                function: nex::types::FunctionCall { name: "read_file".to_string(), arguments: "{\"path\":\"a\"}".to_string() },
            }]),
            tool_call_id: None,
        },
        Message { role: Role::Tool, content: Some("text of a".to_string()), tool_calls: None, tool_call_id: Some("tu_1".to_string()) },
    ];
    let req = p.chat_request("sonnet", &convo, &available_tools());
    assert_eq!(req.url, "https://api.anthropic.com/v1/messages");
    assert_eq!(req.headers[0], ("x-api-key".to_string(), "sk-ant-x".to_string()));
    assert_eq!(req.headers[1], ("anthropic-version".to_string(), "2023-06-01".to_string()));
    assert_eq!(text(member(&req.body, "system")), "sys");
    let msgs = member(&req.body, "messages");
    match msgs { JsonValue::Array(m) => assert_eq!(m.len(), 3), _ => panic!() }
    let assistant = msgs.at(1).unwrap();
    assert_eq!(text(member(assistant, "role")), "assistant");
    let block = member(assistant, "content").at(0).unwrap();
    assert_eq!(text(member(block, "type")), "tool_use");
    assert_eq!(text(member(member(block, "input"), "path")), "a");
    let result = member(msgs.at(2).unwrap(), "content").at(0).unwrap();
    assert_eq!(text(member(result, "type")), "tool_result");
    assert_eq!(text(member(result, "tool_use_id")), "tu_1");
    assert_eq!(text(member(result, "content")), "text of a");
    let tools = member(&req.body, "tools");
    assert!(member(tools.at(0).unwrap(), "input_schema").get("properties").is_some());
    assert_eq!(p.failure("529 Overloaded", "busy").message(), "Anthropic API error (529 Overloaded): busy");
}

#[test]
fn anthropic_reply_reads_text_and_tool_use() {
    let mut c = Config::new();
    c.anthropic_api_key = Some("k".to_string());
    let p = get_provider("anthropic", &c).ok().unwrap();
    let data: serde_json::Value = serde_json::from_str(
        "{\"content\": [{\"type\": \"text\", \"text\": \"Let me look. \"}, {\"type\": \"tool_use\", \"id\": \"tu_9\", \"name\": \"list_dir\", \"input\": {\"path\": \"src\"}}, {\"type\": \"text\", \"text\": \"Done.\"}]}",
    ).unwrap();
    let r = p.read_reply(&data);
    assert_eq!(r.content.as_deref(), Some("Let me look. Done."));
    let calls = r.tool_calls.unwrap();
    assert_eq!(calls.len(), 1);
    assert_eq!(calls[0].id, "tu_9");
    assert_eq!(calls[0].function.name, "list_dir");
    assert_eq!(calls[0].function.arguments, "{\"path\":\"src\"}");
    let plain: serde_json::Value = serde_json::from_str("{\"content\": [{\"type\": \"text\", \"text\": \"Hi\"}]}").unwrap();
    let r = p.read_reply(&plain);
    assert_eq!(r.content.as_deref(), Some("Hi"));
    assert!(r.tool_calls.is_none());
}

#[test]
fn reply_text_is_parsed_then_read() {
    let p = get_provider("openai", &keyed()).ok().unwrap();
    let r = read_reply_text(&p, "{\"choices\": [{\"message\": {\"content\": \"Hello\"}}]}").ok().unwrap();
    assert_eq!(r.content.as_deref(), Some("Hello"));
    assert!(r.tool_calls.is_none());
    assert!(read_reply_text(&p, "<html>bad gateway</html>").is_err());
}

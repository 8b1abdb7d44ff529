use nex::json::JsonValue;
use nex::text::{byte_boundary, join_texts, sort_lines, strip_prefix};
use nex::tools::{available_tools, plan_call, command_output_report, command_report, file_report, git_status, listing, plan_tool, write_report, ToolAction};
use nex::types::{call_to_json, message_to_json, read_call, read_calls, FunctionCall, Message, Role, ToolCall};

fn args(members: Vec<(&str, JsonValue)>) -> JsonValue {
    JsonValue::Object(members.into_iter().map(|(k, v)| (k.to_string(), v)).collect())
}

fn s(t: &str) -> JsonValue {
    JsonValue::Str(t.to_string())
}

#[test]
fn five_tools_are_offered() {
    let tools = available_tools();
    let names: Vec<&str> = tools.iter().map(|t| t.function.name.as_str()).collect();
    assert_eq!(names, vec!["read_file", "write_file", "list_dir", "run_command", "git_status"]);
    assert!(tools.iter().all(|t| t.kind == "function"));
    assert_eq!(tools[1].function.description, "Write content to a file (creates or overwrites)");
    let params = &tools[1].function.parameters;
    assert_eq!(params.get("type").unwrap().as_text().unwrap(), "object");
    match params.get("required").unwrap() {
        JsonValue::Array(r) => {
            assert_eq!(r.len(), 2);
            assert_eq!(r[1].as_text().unwrap(), "content");
        }
        _ => panic!("required"),
    }
    let content = params.get("properties").unwrap().get("content").unwrap();
    assert_eq!(content.get("description").unwrap().as_text().unwrap(), "Content to write");
    assert!(tools[2].function.parameters.get("required").is_none());
    match tools[4].function.parameters.get("properties").unwrap() {
        JsonValue::Object(p) => assert!(p.is_empty()),
        _ => panic!("properties"),
    }
}

#[test]
fn tool_calls_are_planned() {
    match plan_tool("read_file", &args(vec![("path", s("src/main.rs"))])) {
        ToolAction::ReadFile { path } => assert_eq!(path, "src/main.rs"),
        _ => panic!(),
    }
    match plan_tool("write_file", &args(vec![("path", s("a.txt")), ("content", s("hi"))])) {
        ToolAction::WriteFile { path, content } => assert_eq!((path.as_str(), content.as_str()), ("a.txt", "hi")),
        _ => panic!(),
    }
    match plan_tool("write_file", &args(vec![("path", JsonValue::Number("3".to_string()))])) {
        ToolAction::WriteFile { path, content } => assert_eq!((path.as_str(), content.as_str()), ("", "")),
        _ => panic!(),
    }
    match plan_tool("list_dir", &args(vec![])) {
        ToolAction::ListDir { path } => assert_eq!(path, "."),
        _ => panic!(),
    }
    match plan_tool("list_dir", &JsonValue::Null) {
        ToolAction::ListDir { path } => assert_eq!(path, "."),
        _ => panic!(),
    }
    match plan_tool("run_command", &args(vec![("command", s("cargo test"))])) {
        ToolAction::RunCommand { command } => assert_eq!(command, "cargo test"),
        _ => panic!(),
    }
    match plan_tool("git_status", &args(vec![])) {
        ToolAction::RunCommand { command } => assert_eq!(command, "git status --short"),
        _ => panic!(),
    }
    match plan_tool("delete_all", &args(vec![])) {
        ToolAction::Reply { text } => assert_eq!(text, "Unknown tool: delete_all"),
        _ => panic!(),
    }
    assert_eq!(git_status(), "git status --short");
}

#[test]
fn every_offered_tool_is_known() {
    for t in available_tools() {
        assert!(!matches!(plan_tool(&t.function.name, &args(vec![])), ToolAction::Reply { .. }));
    }
}

#[test]
fn long_files_are_truncated() {
    let small = "x".repeat(100_000);
    assert_eq!(file_report(&small), small);
    let big = "y".repeat(100_001);
    assert_eq!(file_report(&big), format!("{}...\n\n[File truncated - too large]", "y".repeat(100_000)));
}

#[test]
fn boundaries_follow_utf8() {
    assert!(byte_boundary("aé", 1));
    assert!(!byte_boundary("aé", 2));
    assert!(byte_boundary("aé", 3));
    assert!(!byte_boundary("aé", 4));
    assert!(byte_boundary("", 0));
}

#[test]
fn write_report_counts_bytes() {
    assert_eq!(write_report("notes.txt", "hello"), "Successfully wrote 5 bytes to notes.txt");
    assert_eq!(write_report("x", "é€"), "Successfully wrote 5 bytes to x");
    assert_eq!(write_report("e", ""), "Successfully wrote 0 bytes to e");
}

#[test]
fn listings_are_sorted() {
    assert_eq!(listing(&vec![]), "(empty directory)");
    let entries = vec![
        ("src".to_string(), true),
        ("Cargo.toml".to_string(), false),
        ("README.md".to_string(), false),
        ("app".to_string(), true),
    ];
    assert_eq!(listing(&entries), "dir   app\ndir   src\nfile  Cargo.toml\nfile  README.md");
}

#[test]
fn listing_ignores_entry_order() {
    let a = vec![("b".to_string(), false), ("a".to_string(), true), ("c".to_string(), false)];
    let b = vec![("c".to_string(), false), ("b".to_string(), false), ("a".to_string(), true)];
    assert_eq!(listing(&a), listing(&b));
    assert_eq!(listing(&a), "dir   a\nfile  b\nfile  c");
}

#[test]
fn command_reports() {
    assert_eq!(command_report(true, Some(0), "out\n", ""), "out\n");
    assert_eq!(command_report(true, Some(0), " \n\t", "warn"), "(no output)");
    assert_eq!(command_report(false, Some(2), "o", "e"), "Exit code: 2\no\ne");
    assert_eq!(command_report(false, None, "", "killed"), "Exit code: -1\n\nkilled");
    assert_eq!(command_report(false, Some(-2147483648), "", ""), "Exit code: -2147483648\n\n");
    assert_eq!(command_report(false, Some(127), "", "sh: nope: not found"), "Exit code: 127\n\nsh: nope: not found");
}

#[test]
fn tool_call_json_round_trip() {
    let c = ToolCall {
        id: "call_7".to_string(),
        kind: "function".to_string(),
        function: FunctionCall { name: "run_command".to_string(), arguments: "{\"command\":\"ls\"}".to_string() },
    };
    let back = read_call(&call_to_json(&c)).unwrap();
    assert_eq!(back.id, c.id);
    assert_eq!(back.kind, c.kind);
    assert_eq!(back.function.name, c.function.name);
    assert_eq!(back.function.arguments, c.function.arguments);
}

#[test]
fn reply_calls_go_back_unchanged() {
    let calls = vec![
        ToolCall { id: "a".to_string(), kind: "function".to_string(), function: FunctionCall { name: "list_dir".to_string(), arguments: "{}".to_string() } },
        ToolCall { id: "b".to_string(), kind: "function".to_string(), function: FunctionCall { name: "read_file".to_string(), arguments: "{\"path\":\"x\"}".to_string() } },
    ];
    let m = Message { role: Role::Assistant, content: Some("ok".to_string()), tool_calls: Some(calls), tool_call_id: None };
    let j = message_to_json(&m);
    let back = read_calls(j.get("tool_calls").unwrap()).unwrap();
    assert_eq!(back.len(), 2);
    assert_eq!(back[1].id, "b");
    assert_eq!(back[1].function.arguments, "{\"path\":\"x\"}");
}

#[test]
fn message_json_form() {
    let m = Message { role: Role::Tool, content: Some("r".to_string()), tool_calls: None, tool_call_id: Some("c1".to_string()) };
    let j = message_to_json(&m);
    assert_eq!(j.get("role").unwrap().as_text().unwrap(), "tool");
    assert_eq!(j.get("tool_call_id").unwrap().as_text().unwrap(), "c1");
    assert!(j.get("tool_calls").is_none());
    let a = Message { role: Role::Assistant, content: None, tool_calls: Some(vec![]), tool_call_id: None };
    let j = message_to_json(&a);
    assert!(matches!(j.get("content"), Some(JsonValue::Null)));
    assert!(matches!(j.get("tool_calls"), Some(JsonValue::Array(v)) if v.is_empty()));
}

#[test]
fn text_helpers() {
    assert_eq!(strip_prefix("ollama/llama3", "ollama/"), Some("llama3".to_string()));
    assert_eq!(strip_prefix("llama3", "ollama/"), None);
    assert_eq!(strip_prefix("ollama/", "ollama/"), Some(String::new()));
    assert_eq!(join_texts(&vec!["a".to_string(), "b".to_string(), "c".to_string()], " "), "a b c");
    assert_eq!(join_texts(&vec![], " "), "");
    let sorted = sort_lines(vec!["b".chars().collect(), "ab".chars().collect(), "a".chars().collect(), "b".chars().collect()]);
    let back: Vec<String> = sorted.iter().map(|l| l.iter().collect()).collect();
    assert_eq!(back, vec!["a", "ab", "b", "b"]);
}

#[test]
fn tool_arguments_are_parsed() {
    match plan_call("read_file", "{\"path\": \"Cargo.toml\", \"extra\": [1, 2.5, null]}") {
        Ok(ToolAction::ReadFile { path }) => assert_eq!(path, "Cargo.toml"),
        _ => panic!("expected a read"),
    }
    match plan_call("list_dir", "{}") {
        Ok(ToolAction::ListDir { path }) => assert_eq!(path, "."),
        _ => panic!("expected a listing"),
    }
    assert!(plan_call("read_file", "{not json").is_err());
    assert!(plan_call("git_status", "").is_err());
}

#[test]
fn parsed_documents_keep_their_values() {
    let v = nex::json::parse_json("{\"a\": [true, 12, \"x\"], \"b\": {\"c\": null}}").ok().unwrap();
    let a = v.get("a").unwrap();
    assert!(matches!(a.at(0), Some(JsonValue::Bool(true))));
    assert!(matches!(a.at(1), Some(JsonValue::Number(n)) if n == "12"));
    assert_eq!(a.at(2).unwrap().as_text().unwrap(), "x");
    assert!(matches!(v.get("b").unwrap().get("c"), Some(JsonValue::Null)));
}

#[test]
fn raw_command_output_is_read_as_utf8() {
    assert_eq!(command_output_report(true, Some(0), b"caf\xc3\xa9\n", b""), "caf\u{e9}\n");
    assert_eq!(command_output_report(false, Some(1), b"a\xffb", b"err"), "Exit code: 1\na\u{fffd}b\nerr");
    assert_eq!(command_output_report(true, None, b"  ", b"x"), "(no output)");
}

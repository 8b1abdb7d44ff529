use nex::agent::{build_system_prompt, model_name, preview, provider_name, AgentAction, AgentSession, Phase, MAX_STEPS};
use nex::cli::{choose_mode, is_yes, task_text, Cli, Commands, ConfigAction, Mode};
use nex::config::{handle_config, parse_key, Config, ConfigKey, ConfigOutcome};
use nex::providers::ProviderResponse;
use nex::types::{FunctionCall, Role, ToolCall};

fn cli(task: Option<Vec<&str>>) -> Cli {
    Cli {
        task: task.map(|t| t.into_iter().map(|s| s.to_string()).collect()),
        model: None,
        provider: None,
        yolo: false,
        plan: false,
        command: None,
    }
}

fn call(id: &str, name: &str, args: &str) -> ToolCall {
    ToolCall {
        id: id.to_string(),
        kind: "function".to_string(),
        function: FunctionCall { name: name.to_string(), arguments: args.to_string() },
    }
}

#[test]
fn provider_and_model_fall_back_in_order() {
    let mut c = cli(None);
    let mut config = Config::new();
    assert_eq!(provider_name(&c, &config), "openai");
    assert_eq!(model_name(&c, &config), "gpt-4o");
    config.default_provider = Some("ollama".to_string());
    config.default_model = Some("llama3.2".to_string());
    assert_eq!(provider_name(&c, &config), "ollama");
    assert_eq!(model_name(&c, &config), "llama3.2");
    c.provider = Some("openrouter".to_string());
    c.model = Some("gpt-4o-mini".to_string());
    assert_eq!(provider_name(&c, &config), "openrouter");
    assert_eq!(model_name(&c, &config), "gpt-4o-mini");
}

#[test]
fn task_joins_words_and_skips_blank() {
    assert_eq!(task_text(&cli(Some(vec!["refactor", "the", "auth", "module"]))), Some("refactor the auth module".to_string()));
    assert_eq!(task_text(&cli(Some(vec!["  ", "\t"]))), None);
    assert_eq!(task_text(&cli(Some(vec![]))), None);
    assert_eq!(task_text(&cli(None)), None);
    assert_eq!(task_text(&cli(Some(vec!["\u{3000}fix"]))), Some("\u{3000}fix".to_string()));
}

#[test]
fn mode_prefers_config_then_task_then_usage() {
    let mut c = cli(Some(vec!["do", "it"]));
    assert!(matches!(choose_mode(&c), Mode::Agent { task } if task == "do it"));
    c.command = Some(Commands::Config { action: ConfigAction::List });
    assert!(matches!(choose_mode(&c), Mode::Configure));
    assert!(matches!(choose_mode(&cli(Some(vec![" "]))), Mode::Usage));
    assert!(matches!(choose_mode(&cli(None)), Mode::Usage));
}

#[test]
fn config_reads_back_what_was_written() {
    let mut config = Config::new();
    assert_eq!(config.get("default_model"), None);
    assert!(config.set("default_model", "gpt-4o".to_string()));
    assert_eq!(config.get("default_model"), Some("gpt-4o".to_string()));
    assert_eq!(config.get("openai_api_key"), None);
    assert!(config.set("openai_api_key", "k1".to_string()));
    assert!(config.set("openai_api_key", "k2".to_string()));
    assert_eq!(config.get("openai_api_key"), Some("k2".to_string()));
    assert_eq!(config.get("default_model"), Some("gpt-4o".to_string()));
    assert!(!config.set("colour", "blue".to_string()));
    assert_eq!(config.get("colour"), None);
    assert_eq!(parse_key("ollama_base_url"), Some(ConfigKey::OllamaBaseUrl));
    assert_eq!(parse_key("OLLAMA_BASE_URL"), None);
}

#[test]
fn config_subcommand_outcomes() {
    let mut config = Config::new();
    let set = ConfigAction::SetValue { key: "openai_api_key".to_string(), value: "sk-test".to_string() };
    match handle_config(&mut config, &set) {
        ConfigOutcome::Saved { message } => assert_eq!(message, "✓ Set openai_api_key successfully"),
        _ => panic!("expected a save"),
    }
    assert_eq!(config.openai_api_key, Some("sk-test".to_string()));
    let bad = ConfigAction::SetValue { key: "nope".to_string(), value: "x".to_string() };
    match handle_config(&mut config, &bad) {
        ConfigOutcome::Show { text } => assert_eq!(text, "Unknown config key: nope"),
        _ => panic!("expected a message"),
    }
    match handle_config(&mut config, &ConfigAction::Get { key: "openai_api_key".to_string() }) {
        ConfigOutcome::Show { text } => assert_eq!(text, "sk-test"),
        _ => panic!("expected a value"),
    }
    match handle_config(&mut config, &ConfigAction::Get { key: "default_model".to_string() }) {
        ConfigOutcome::Show { text } => assert_eq!(text, "(not set)"),
        _ => panic!("expected a value"),
    }
    match handle_config(&mut config, &ConfigAction::Get { key: "nope".to_string() }) {
        ConfigOutcome::Show { text } => assert_eq!(text, "(not set)"),
        _ => panic!("expected a value"),
    }
    assert!(matches!(handle_config(&mut config, &ConfigAction::List), ConfigOutcome::ListAll));
}

#[test]
fn system_prompt_names_the_directory() {
    let p = build_system_prompt(Some("/home/me/project".to_string()));
    assert!(p.starts_with("You are Nex, a fast and precise AI coding agent that lives in the terminal.\n\n"));
    assert!(p.ends_with("\n\nCurrent working directory: /home/me/project"));
    assert!(p.contains("- If a task is unclear, ask a clarifying question instead of guessing.\n"));
    assert!(build_system_prompt(None).ends_with("Current working directory: ."));
}

#[test]
fn preview_cuts_long_results() {
    assert_eq!(preview("short"), "short");
    let exact = "a".repeat(300);
    assert_eq!(preview(&exact), exact);
    let long = "b".repeat(301);
    assert_eq!(preview(&long), format!("{}...", "b".repeat(300)));
    let wide = format!("{}{}", "c".repeat(298), "é".repeat(10));
    assert_eq!(preview(&wide), format!("{}é...", "c".repeat(298)));
}

#[test]
fn session_runs_tools_then_finishes() {
    let mut s = AgentSession::new("list files".to_string(), "SYS".to_string(), false, true);
    assert_eq!(s.phase(), Phase::Ready);
    assert!(s.is_consistent());
    assert!(matches!(s.start(), AgentAction::CallModel));
    assert!(s.is_consistent());
    assert_eq!(s.step(), 1);
    let reply = ProviderResponse {
        content: Some("Looking".to_string()),
        tool_calls: Some(vec![call("c1", "list_dir", "{}"), call("c2", "git_status", "{}")]),
    };
    match s.on_reply(reply) {
        AgentAction::RunTool(c) => assert_eq!(c.id, "c1"),
        _ => panic!("expected the first call"),
    }
    match s.on_tool_result("file  a.rs".to_string()) {
        AgentAction::RunTool(c) => assert_eq!(c.function.name, "git_status"),
        _ => panic!("expected the second call"),
    }
    assert!(matches!(s.on_tool_result("(no output)".to_string()), AgentAction::CallModel));
    assert_eq!(s.step(), 2);
    let m = s.messages();
    assert_eq!(m.len(), 5);
    assert_eq!(m[0].role, Role::System);
    assert_eq!(m[0].content.as_deref(), Some("SYS"));
    assert_eq!(m[1].role, Role::User);
    assert_eq!(m[1].content.as_deref(), Some("list files"));
    assert_eq!(m[2].role, Role::Assistant);
    assert_eq!(m[2].tool_calls.as_ref().map(|c| c.len()), Some(2));
    assert_eq!(m[3].role, Role::Tool);
    assert_eq!(m[3].tool_call_id.as_deref(), Some("c1"));
    assert_eq!(m[3].content.as_deref(), Some("file  a.rs"));
    assert_eq!(m[4].tool_call_id.as_deref(), Some("c2"));
    let done = ProviderResponse { content: Some("All done".to_string()), tool_calls: None };
    assert!(matches!(s.on_reply(done), AgentAction::Done));
    assert_eq!(s.phase(), Phase::Finished);
    assert_eq!(s.messages().len(), 6);
}

#[test]
fn session_empty_tool_list_is_done() {
    let mut s = AgentSession::new("t".to_string(), "p".to_string(), false, true);
    s.start();
    let reply = ProviderResponse { content: None, tool_calls: Some(vec![]) };
    assert!(matches!(s.on_reply(reply), AgentAction::Done));
}

#[test]
fn plan_only_stops_before_tools() {
    let mut s = AgentSession::new("t".to_string(), "p".to_string(), true, false);
    s.start();
    let reply = ProviderResponse { content: None, tool_calls: Some(vec![call("x", "run_command", "{\"command\":\"ls\"}")]) };
    match s.on_reply(reply) {
        AgentAction::PlanOnly(calls) => {
            assert_eq!(calls.len(), 1);
            assert_eq!(calls[0].function.arguments, "{\"command\":\"ls\"}");
        }
        _ => panic!("expected the plan"),
    }
    assert_eq!(s.phase(), Phase::Finished);
}

#[test]
fn session_stops_after_max_steps() {
    let mut s = AgentSession::new("t".to_string(), "p".to_string(), false, true);
    let mut action = s.start();
    let mut asked = 0;
    loop {
        match action {
            AgentAction::CallModel => {
                asked += 1;
                action = s.on_reply(ProviderResponse { content: None, tool_calls: Some(vec![call("i", "git_status", "{}")]) });
            }
            AgentAction::RunTool(_) => action = s.on_tool_result("ok".to_string()),
            AgentAction::StepLimit => break,
            _ => panic!("unexpected end"),
        }
    }
    assert_eq!(asked, MAX_STEPS);
    assert_eq!(s.step(), 20);
    assert_eq!(s.messages().len(), 2 + 2 * 20);
}

#[test]
fn tool_calls_wait_for_approval() {
    let mut s = AgentSession::new("t".to_string(), "p".to_string(), false, false);
    s.start();
    let reply = ProviderResponse { content: None, tool_calls: Some(vec![call("a", "run_command", "{}"), call("b", "git_status", "{}")]) };
    match s.on_reply(reply) {
        AgentAction::AskApproval(c) => assert_eq!(c.id, "a"),
        _ => panic!("expected a question"),
    }
    assert_eq!(s.phase(), Phase::AwaitingApproval);
    match s.on_approval(false) {
        AgentAction::AskApproval(c) => assert_eq!(c.id, "b"),
        _ => panic!("expected the next question"),
    }
    assert_eq!(s.messages()[3].tool_call_id.as_deref(), Some("a"));
    assert_eq!(s.messages()[3].content.as_deref(), Some("The user denied this tool call."));
    match s.on_approval(true) {
        AgentAction::RunTool(c) => assert_eq!(c.id, "b"),
        _ => panic!("expected the run"),
    }
    assert_eq!(s.messages().len(), 4);
    assert!(matches!(s.on_tool_result("clean".to_string()), AgentAction::CallModel));
    assert_eq!(s.messages()[4].tool_call_id.as_deref(), Some("b"));
    assert!(s.is_consistent());
}

#[test]
fn failure_stops_the_run() {
    let mut s = AgentSession::new("t".to_string(), "p".to_string(), false, true);
    s.start();
    assert!(matches!(s.on_failure(), AgentAction::Failed));
    assert_eq!(s.phase(), Phase::Finished);
}

#[test]
fn approval_answers() {
    assert!(is_yes("y\n"));
    assert!(is_yes("  YES "));
    assert!(is_yes("Yes"));
    assert!(!is_yes(""));
    assert!(!is_yes("no"));
    assert!(!is_yes("yeah"));
    assert!(is_yes("yEs"));
    assert!(is_yes("\tY"));
    assert!(!is_yes("ye"));
}

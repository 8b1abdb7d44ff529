//! The command line: what was asked for, and what the program does about it.
use vstd::prelude::*;

use crate::text::{blank, is_blank, join_texts, joined, text_views, trim, trimmed};

verus! {

/// The command line of the agent.
pub struct Cli {
    /// Natural language task for the agent
    pub task: Option<Vec<String>>,
    /// Model to use (e.g. gpt-4o, llama3.2)
    pub model: Option<String>,
    /// Provider (openai, anthropic, openrouter, ollama)
    pub provider: Option<String>,
    /// Auto-approve all tool calls (use with caution)
    pub yolo: bool,
    /// Plan only — do not execute any tools
    pub plan: bool,
    pub command: Option<Commands>,
}

/// The subcommands.
pub enum Commands {
    /// Manage configuration
    Config { action: ConfigAction },
}

/// What to do with the configuration.
pub enum ConfigAction {
    /// Set a config value
    SetValue { key: String, value: String },
    /// Get a config value
    Get { key: String },
    /// List all config
    List,
}

/// What the program does.
pub enum Mode {
    /// Run the configuration subcommand.
    Configure,
    /// Run the agent with the given task.
    Agent { task: String },
    /// Print how to use the program.
    Usage,
}

/// The task: the words of the command line joined by spaces, where that is
/// not blank.
pub open spec fn task_of(task: Option<Vec<String>>) -> Option<Seq<char>> {
    match task {
        Some(parts) => {
            let t = joined(text_views(parts@), " "@);
            if is_blank(t) {
                None
            } else {
                Some(t)
            }
        },
        None => None,
    }
}

pub fn task_text(cli: &Cli) -> (res: Option<String>)
    ensures
        match res {
            Some(t) => task_of(cli.task) == Some(t@),
            None => task_of(cli.task) is None,
        },
{
    match &cli.task {
        Some(parts) => {
            let t = join_texts(parts, " ");
            if blank(t.as_str()) {
                None
            } else {
                Some(t)
            }
        },
        None => None,
    }
}

/// The configuration subcommand where there is one; else the agent on the
/// task; else the usage.
pub fn choose_mode(cli: &Cli) -> (res: Mode)
    ensures
        cli.command is Some ==> res is Configure,
        cli.command is None ==> match task_of(cli.task) {
            Some(t) => res matches Mode::Agent { task } && task@ == t,
            None => res is Usage,
        },
{
    if cli.command.is_some() {
        return Mode::Configure;
    }
    match task_text(cli) {
        Some(task) => Mode::Agent { task },
        None => Mode::Usage,
    }
}

/// Whether `c` is the letter whose lowercase form is `lower` and uppercase
/// form is `upper`.
pub open spec fn is_letter(c: char, lower: char, upper: char) -> bool {
    c == lower || c == upper
}

/// Whether an answer to "may this tool call run?" approves it: `y` or
/// `yes`, each letter in either case, with whitespace around it allowed.
pub open spec fn approves(answer: Seq<char>) -> bool {
    let t = trimmed(answer);
    ||| t.len() == 1 && is_letter(t[0], 'y', 'Y')
    ||| t.len() == 3 && is_letter(t[0], 'y', 'Y') && is_letter(t[1], 'e', 'E') && is_letter(t[2], 's', 'S')
}

pub fn is_yes(answer: &str) -> (res: bool)
    ensures
        res == approves(answer@),
{
    let t = trim(answer);
    let first = t.len() >= 1 && (t[0] == 'y' || t[0] == 'Y');
    if t.len() == 1 {
        first
    } else if t.len() == 3 {
        first && (t[1] == 'e' || t[1] == 'E') && (t[2] == 's' || t[2] == 'S')
    } else {
        false
    }
}

} // verus!

//! A coding agent for the terminal: it hands a task to a language model and
//! runs the tools that the model calls (read and write files, list
//! directories, run shell commands, show the git status) until the model is
//! done.
//!
//! This library holds what the agent decides; the program around it talks to
//! the model and the machine.

pub mod agent;
pub mod anthropic;
pub mod cli;
pub mod config;
pub mod json;
pub mod providers;
pub mod text;
pub mod tools;
pub mod types;

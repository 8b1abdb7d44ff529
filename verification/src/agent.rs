//! The agent: a conversation with the model in which the model's tool calls
//! are run and their results handed back, step by step, until the model
//! answers without calling a tool or the steps run out.
//!
//! The library decides; the caller talks to the model and runs the tools. A
//! session answers each event with the next action.
use vstd::prelude::*;

use crate::cli::Cli;
use crate::config::Config;
use crate::providers::{ProviderResponse, ResponseView};
use crate::text::{byte_len, cut_text, is_boundary, is_cut};
use crate::json::{Json, lookup};
use crate::types::{
    Message, MessageView, Role, ToolCall, ToolCallView, call_views, calls_json, calls_round_trip,
    copy_calls, decode_calls, message_json, message_views, opt_text_json,
};

verus! {

/// The most times the model is asked in one run.
pub const MAX_STEPS: u32 = 20;

// ----- settings of a run -----

/// The first setting that is present, else the fallback.
pub open spec fn first_of(first: Option<String>, second: Option<String>, fallback: Seq<char>) -> Seq<char> {
    match first {
        Some(s) => s@,
        None => match second {
            Some(s) => s@,
            None => fallback,
        },
    }
}

fn choose_setting(first: &Option<String>, second: &Option<String>, fallback: &str) -> (res: String)
    ensures
        res@ == first_of(*first, *second, fallback@),
{
    match first {
        Some(s) => s.clone(),
        None => match second {
            Some(s) => s.clone(),
            None => fallback.to_owned(),
        },
    }
}

/// The provider of a run: the one on the command line, else the configured
/// default, else `openai`.
pub fn provider_name(cli: &Cli, config: &Config) -> (res: String)
    ensures
        res@ == first_of(cli.provider, config.default_provider, "openai"@),
        cli.provider is Some ==> res@ == cli.provider.unwrap()@,
{
    choose_setting(&cli.provider, &config.default_provider, "openai")
}

/// The model of a run: the one on the command line, else the configured
/// default, else `gpt-4o`.
pub fn model_name(cli: &Cli, config: &Config) -> (res: String)
    ensures
        res@ == first_of(cli.model, config.default_model, "gpt-4o"@),
        cli.model is Some ==> res@ == cli.model.unwrap()@,
{
    choose_setting(&cli.model, &config.default_model, "gpt-4o")
}

/// A setting of a run is the first of its sources that is present: where the
/// command line gives it, that value is used whatever the configured default
/// is; the configured default is used only where the command line gives none;
/// and the built-in fallback only where neither gives one.
pub proof fn first_present_setting_wins(first: Option<String>, second: Option<String>, fallback: Seq<char>)
    ensures
        forall|s: String| first == Some(s) ==> first_of(first, second, fallback) == s@,
        forall|d: String| first is None && second == Some(d) ==> first_of(first, second, fallback) == d@,
        first_of(first, second, fallback) == fallback <== (first is None && second is None),
        first is Some ==> first_of(first, second, fallback) == first_of(first, None, fallback),
        first is Some ==> first_of(first, second, fallback) == first_of(first, second, Seq::<char>::empty()),
{
}

/// The provider and the model given on the command line are the ones a run
/// uses, whatever the configuration holds; without them, the configured
/// defaults, and without those, `openai` and `gpt-4o`.
pub proof fn command_line_chooses_provider_and_model(cli: Cli, config: Config)
    ensures
        forall|p: String| cli.provider == Some(p) ==> first_of(cli.provider, config.default_provider, "openai"@) == p@,
        forall|m: String| cli.model == Some(m) ==> first_of(cli.model, config.default_model, "gpt-4o"@) == m@,
        (cli.provider is None && config.default_provider is None) ==> first_of(cli.provider, config.default_provider, "openai"@) == "openai"@,
        (cli.model is None && config.default_model is None) ==> first_of(cli.model, config.default_model, "gpt-4o"@) == "gpt-4o"@,
{
}

/// The instructions that open every conversation, naming the working directory.
pub open spec fn system_prompt_text(cwd: Seq<char>) -> Seq<char> {
    "You are Nex, a fast and precise AI coding agent that lives in the terminal.\n\nYou help users with coding tasks by reading files, editing code, running commands, and using git.\n\nGuidelines:\n- Be concise and action-oriented.\n- Prefer making correct, minimal changes.\n- Always read relevant files before editing them.\n- Use tools to gather information instead of guessing.\n- When you are done, respond with a short summary of what you did. Do not call tools in the final response.\n- If a task is unclear, ask a clarifying question instead of guessing.\n\nCurrent working directory: "@
        + cwd
}

/// The system prompt, for the working directory where it is known and for
/// `.` where it is not.
pub fn build_system_prompt(cwd: Option<String>) -> (res: String)
    ensures
        res@ == system_prompt_text(
            match cwd {
                Some(d) => d@,
                None => "."@,
            },
        ),
{
    let mut res = "You are Nex, a fast and precise AI coding agent that lives in the terminal.\n\nYou help users with coding tasks by reading files, editing code, running commands, and using git.\n\nGuidelines:\n- Be concise and action-oriented.\n- Prefer making correct, minimal changes.\n- Always read relevant files before editing them.\n- Use tools to gather information instead of guessing.\n- When you are done, respond with a short summary of what you did. Do not call tools in the final response.\n- If a task is unclear, ask a clarifying question instead of guessing.\n\nCurrent working directory: ".to_owned();
    match cwd {
        Some(d) => res.append(d.as_str()),
        None => res.append("."),
    }
    res
}

/// The most bytes of a tool result shown while the agent runs.
pub const PREVIEW_LIMIT: usize = 300;

/// What is shown of a tool result: all of it, or its first `PREVIEW_LIMIT`
/// bytes and `...`.
pub fn preview(result: &str) -> (res: String)
    requires
        byte_len(result@) <= usize::MAX,
        byte_len(result@) > PREVIEW_LIMIT ==> is_boundary(result@, PREVIEW_LIMIT as int),
    ensures
        is_cut(result@, PREVIEW_LIMIT as int, "..."@, res@),
{
    cut_text(result, PREVIEW_LIMIT, "...")
}

// ----- the session -----

/// Where a session stands.
#[derive(PartialEq, Eq, Structural, Clone, Copy, Debug)]
pub enum Phase {
    /// Not started.
    Ready,
    /// Waiting for the model's reply.
    AwaitingReply,
    /// Waiting for the user to approve or deny a tool call.
    AwaitingApproval,
    /// Waiting for the result of a tool call.
    RunningTools,
    /// Over.
    Finished,
}

/// What the caller does next.
pub enum AgentAction {
    /// Send the conversation to the model and report its reply.
    CallModel,
    /// Ask the user whether this tool call may run, and report the answer.
    AskApproval(ToolCall),
    /// Run this tool call and report its result.
    RunTool(ToolCall),
    /// The model answered without calling a tool: the task is done.
    Done,
    /// Only planning: these are the calls the model asked for; none is run.
    PlanOnly(Vec<ToolCall>),
    /// The model was asked `MAX_STEPS` times; the run stops.
    StepLimit,
    /// Talking to the model or running a tool failed; the run stops.
    Failed,
}

/// The value of an action.
pub enum ActionView {
    CallModel,
    AskApproval(ToolCallView),
    RunTool(ToolCallView),
    Done,
    PlanOnly(Seq<ToolCallView>),
    StepLimit,
    Failed,
}

impl View for AgentAction {
    type V = ActionView;

    open spec fn view(&self) -> ActionView {
        match self {
            AgentAction::CallModel => ActionView::CallModel,
            AgentAction::AskApproval(c) => ActionView::AskApproval(c@),
            AgentAction::RunTool(c) => ActionView::RunTool(c@),
            AgentAction::Done => ActionView::Done,
            AgentAction::PlanOnly(c) => ActionView::PlanOnly(call_views(c@)),
            AgentAction::StepLimit => ActionView::StepLimit,
            AgentAction::Failed => ActionView::Failed,
        }
    }
}

/// The value of a session: the conversation so far, how many times the model
/// was asked, whether only planning, whether tool calls run without asking,
/// the tool calls of the current step and which of them is at hand, and where
/// the session stands.
pub struct SessionView {
    pub messages: Seq<MessageView>,
    pub step: nat,
    pub plan_only: bool,
    pub auto_approve: bool,
    pub pending: Seq<ToolCallView>,
    pub next: nat,
    pub phase: Phase,
}

/// A run of the agent.
pub struct AgentSession {
    messages: Vec<Message>,
    step: u32,
    plan_only: bool,
    auto_approve: bool,
    pending: Vec<ToolCall>,
    next: usize,
    phase: Phase,
}

impl View for AgentSession {
    type V = SessionView;

    closed spec fn view(&self) -> SessionView {
        SessionView {
            messages: message_views(self.messages@),
            step: self.step as nat,
            plan_only: self.plan_only,
            auto_approve: self.auto_approve,
            pending: call_views(self.pending@),
            next: self.next as nat,
            phase: self.phase,
        }
    }
}

/// The message that opens a conversation, or the task that follows it.
pub open spec fn text_message(role: Role, text: Seq<char>) -> MessageView {
    MessageView { role, content: Some(text), tool_calls: None, tool_call_id: None }
}

/// The message that records the model's reply.
pub open spec fn reply_message(r: ResponseView) -> MessageView {
    MessageView { role: Role::Assistant, content: r.content, tool_calls: r.tool_calls, tool_call_id: None }
}

/// The message that hands back the result of a tool call.
pub open spec fn result_message(call: ToolCallView, result: Seq<char>) -> MessageView {
    MessageView { role: Role::Tool, content: Some(result), tool_calls: None, tool_call_id: Some(call.id) }
}

/// What the model is told of a tool call that the user denied.
pub open spec fn denial_text() -> Seq<char> {
    "The user denied this tool call."@
}

/// What holds of a session at every point.
pub open spec fn session_inv(s: SessionView) -> bool {
    &&& s.messages.len() >= 2
    &&& s.messages[0].role == Role::System
    &&& s.messages[1].role == Role::User
    &&& s.step <= MAX_STEPS
    &&& s.phase == Phase::Ready ==> s.step == 0 && s.messages.len() == 2
    &&& s.phase == Phase::AwaitingReply ==> 1 <= s.step
    &&& s.phase == Phase::AwaitingApproval ==> {
        &&& 1 <= s.step
        &&& !s.plan_only
        &&& !s.auto_approve
        &&& s.next < s.pending.len()
    }
    &&& s.phase == Phase::RunningTools ==> {
        &&& 1 <= s.step
        &&& !s.plan_only
        &&& s.next < s.pending.len()
    }
}

/// A new session on the task, opened by the system prompt.
pub open spec fn initial(system_prompt: Seq<char>, task: Seq<char>, plan_only: bool, auto_approve: bool) -> SessionView {
    SessionView {
        messages: seq![text_message(Role::System, system_prompt), text_message(Role::User, task)],
        step: 0,
        plan_only,
        auto_approve,
        pending: Seq::empty(),
        next: 0,
        phase: Phase::Ready,
    }
}

/// Starting: the first step asks the model.
pub open spec fn on_start(s: SessionView) -> (SessionView, ActionView) {
    (SessionView { step: 1, phase: Phase::AwaitingReply, ..s }, ActionView::CallModel)
}

/// A tool call comes up: it runs at once where calls are approved
/// beforehand, else the user is asked first.
pub open spec fn offer(s: SessionView, c: ToolCallView) -> ActionView {
    if s.auto_approve {
        ActionView::RunTool(c)
    } else {
        ActionView::AskApproval(c)
    }
}

pub open spec fn offer_phase(s: SessionView) -> Phase {
    if s.auto_approve {
        Phase::RunningTools
    } else {
        Phase::AwaitingApproval
    }
}

/// The model replied: the reply joins the conversation. Without tool calls
/// the run is done; when only planning it stops with the calls; else the
/// first call comes up.
pub open spec fn on_reply(s: SessionView, r: ResponseView) -> (SessionView, ActionView) {
    let messages = s.messages.push(reply_message(r));
    match r.tool_calls {
        Some(calls) => if calls.len() == 0 {
            (SessionView { messages, phase: Phase::Finished, ..s }, ActionView::Done)
        } else if s.plan_only {
            (SessionView { messages, phase: Phase::Finished, ..s }, ActionView::PlanOnly(calls))
        } else {
            (
                SessionView { messages, pending: calls, next: 0, phase: offer_phase(s), ..s },
                offer(s, calls[0]),
            )
        },
        None => (SessionView { messages, phase: Phase::Finished, ..s }, ActionView::Done),
    }
}

/// The call at hand is answered with `answer`: the answer joins the
/// conversation under the call's id. The next call of the step comes up;
/// after the last, the model is asked again, unless that was the last step.
pub open spec fn answered(s: SessionView, answer: Seq<char>) -> (SessionView, ActionView) {
    let messages = s.messages.push(result_message(s.pending[s.next as int], answer));
    if s.next + 1 < s.pending.len() {
        (
            SessionView { messages, next: s.next + 1, phase: offer_phase(s), ..s },
            offer(s, s.pending[s.next + 1int]),
        )
    } else if s.step < MAX_STEPS {
        (
            SessionView {
                messages,
                step: s.step + 1,
                pending: Seq::empty(),
                next: 0,
                phase: Phase::AwaitingReply,
                ..s
            },
            ActionView::CallModel,
        )
    } else {
        (SessionView { messages, phase: Phase::Finished, ..s }, ActionView::StepLimit)
    }
}

/// A tool call finished with `result`.
pub open spec fn on_result(s: SessionView, result: Seq<char>) -> (SessionView, ActionView) {
    answered(s, result)
}

/// The user answered whether the call at hand may run: if so it runs; if not
/// the model is told that the user denied it, and the run goes on.
pub open spec fn on_approval(s: SessionView, approved: bool) -> (SessionView, ActionView) {
    if approved {
        (SessionView { phase: Phase::RunningTools, ..s }, ActionView::RunTool(s.pending[s.next as int]))
    } else {
        answered(s, denial_text())
    }
}

/// Talking to the model or running a tool failed: the run stops.
pub open spec fn on_failure(s: SessionView) -> (SessionView, ActionView) {
    (SessionView { phase: Phase::Finished, ..s }, ActionView::Failed)
}

impl AgentSession {
    /// The session is consistent with its value.
    pub closed spec fn wf(&self) -> bool {
        &&& session_inv(self@)
        &&& (self.phase == Phase::RunningTools || self.phase == Phase::AwaitingApproval) ==> self.next
            < self.pending.len()
    }

    /// A session on `task`, opened by `system_prompt`, that runs tools unless
    /// `plan_only`, and asks the user before each tool call unless
    /// `auto_approve`.
    pub fn new(task: String, system_prompt: String, plan_only: bool, auto_approve: bool) -> (res: AgentSession)
        ensures
            res.wf(),
            res@ == initial(system_prompt@, task@, plan_only, auto_approve),
    {
        let mut messages: Vec<Message> = Vec::new();
        messages.push(
            Message { role: Role::System, content: Some(system_prompt), tool_calls: None, tool_call_id: None },
        );
        messages.push(Message { role: Role::User, content: Some(task), tool_calls: None, tool_call_id: None });
        let res = AgentSession {
            messages,
            step: 0,
            plan_only,
            auto_approve,
            pending: Vec::new(),
            next: 0,
            phase: Phase::Ready,
        };
        assert(res@.messages =~= initial(system_prompt@, task@, plan_only, auto_approve).messages);
        assert(res@.pending =~= Seq::<ToolCallView>::empty());
        res
    }

    /// Whether the session is consistent, as every session made by `new` and
    /// moved on by its methods is.
    pub fn is_consistent(&self) -> (res: bool)
        ensures
            res == self.wf(),
    {
        let n = self.messages.len();
        let base = n >= 2 && self.messages[0].role == Role::System && self.messages[1].role == Role::User
            && self.step <= MAX_STEPS;
        let by_phase = match self.phase {
            Phase::Ready => self.step == 0 && n == 2,
            Phase::AwaitingReply => 1 <= self.step,
            Phase::AwaitingApproval => 1 <= self.step && !self.plan_only && !self.auto_approve && self.next
                < self.pending.len(),
            Phase::RunningTools => 1 <= self.step && !self.plan_only && self.next < self.pending.len(),
            Phase::Finished => true,
        };
        base && by_phase
    }

    /// The conversation so far.
    pub fn messages(&self) -> (res: &Vec<Message>)
        ensures
            message_views(res@) == self@.messages,
    {
        &self.messages
    }

    /// Where the session stands.
    pub fn phase(&self) -> (res: Phase)
        ensures
            res == self@.phase,
    {
        self.phase
    }

    /// How many times the model has been asked.
    pub fn step(&self) -> (res: u32)
        ensures
            res == self@.step,
    {
        self.step
    }

    /// Starts the run.
    pub fn start(&mut self) -> (res: AgentAction)
        requires
            old(self).wf(),
            old(self)@.phase == Phase::Ready,
        ensures
            final(self).wf(),
            (final(self)@, res@) == on_start(old(self)@),
    {
        self.step = 1;
        self.phase = Phase::AwaitingReply;
        AgentAction::CallModel
    }

    fn offer_call(&mut self) -> (res: AgentAction)
        requires
            old(self).next < old(self).pending.len(),
        ensures
            *final(self) == (AgentSession {
                phase: if old(self).auto_approve {
                    Phase::RunningTools
                } else {
                    Phase::AwaitingApproval
                },
                ..*old(self)
            }),
            res@ == offer(old(self)@, old(self)@.pending[old(self).next as int]),
    {
        let c = self.pending[self.next].copy();
        if self.auto_approve {
            self.phase = Phase::RunningTools;
            AgentAction::RunTool(c)
        } else {
            self.phase = Phase::AwaitingApproval;
            AgentAction::AskApproval(c)
        }
    }

    /// Takes the model's reply.
    pub fn on_reply(&mut self, response: ProviderResponse) -> (res: AgentAction)
        requires
            old(self).wf(),
            old(self)@.phase == Phase::AwaitingReply,
        ensures
            final(self).wf(),
            (final(self)@, res@) == on_reply(old(self)@, response@),
    {
        let ghost r = response@;
        let ProviderResponse { content, tool_calls } = response;
        let calls = match &tool_calls {
            Some(c) => Some(copy_calls(c)),
            None => None,
        };
        self.messages.push(Message { role: Role::Assistant, content, tool_calls, tool_call_id: None });
        proof {
            assert(message_views(self.messages@) =~= message_views(old(self).messages@).push(reply_message(r)));
        }
        match calls {
            Some(calls) => {
                if calls.len() == 0 {
                    self.phase = Phase::Finished;
                    AgentAction::Done
                } else if self.plan_only {
                    self.phase = Phase::Finished;
                    AgentAction::PlanOnly(calls)
                } else {
                    self.pending = calls;
                    self.next = 0;
                    self.offer_call()
                }
            },
            None => {
                self.phase = Phase::Finished;
                AgentAction::Done
            },
        }
    }

    fn answer(&mut self, answer: String) -> (res: AgentAction)
        requires
            old(self).wf(),
            old(self)@.phase == Phase::RunningTools || old(self)@.phase == Phase::AwaitingApproval,
        ensures
            final(self).wf(),
            (final(self)@, res@) == answered(old(self)@, answer@),
    {
        let ghost s = old(self)@;
        let id = self.pending[self.next].id.clone();
        self.messages.push(Message { role: Role::Tool, content: Some(answer), tool_calls: None, tool_call_id: Some(id) });
        proof {
            assert(message_views(self.messages@) =~= message_views(old(self).messages@).push(
                result_message(s.pending[s.next as int], answer@),
            ));
        }
        if self.next + 1 < self.pending.len() {
            self.next = self.next + 1;
            self.offer_call()
        } else if self.step < MAX_STEPS {
            self.step = self.step + 1;
            self.pending = Vec::new();
            self.next = 0;
            self.phase = Phase::AwaitingReply;
            assert(call_views(self.pending@) =~= Seq::<ToolCallView>::empty());
            AgentAction::CallModel
        } else {
            self.phase = Phase::Finished;
            AgentAction::StepLimit
        }
    }

    /// Takes the result of the running tool call.
    pub fn on_tool_result(&mut self, result: String) -> (res: AgentAction)
        requires
            old(self).wf(),
            old(self)@.phase == Phase::RunningTools,
        ensures
            final(self).wf(),
            (final(self)@, res@) == on_result(old(self)@, result@),
    {
        self.answer(result)
    }

    /// Takes the user's answer on the tool call at hand.
    pub fn on_approval(&mut self, approved: bool) -> (res: AgentAction)
        requires
            old(self).wf(),
            old(self)@.phase == Phase::AwaitingApproval,
        ensures
            final(self).wf(),
            (final(self)@, res@) == on_approval(old(self)@, approved),
    {
        if approved {
            self.phase = Phase::RunningTools;
            AgentAction::RunTool(self.pending[self.next].copy())
        } else {
            self.answer("The user denied this tool call.".to_owned())
        }
    }

    /// Takes a failure to talk to the model or to run a tool.
    pub fn on_failure(&mut self) -> (res: AgentAction)
        requires
            old(self).wf(),
        ensures
            final(self).wf(),
            (final(self)@, res@) == on_failure(old(self)@),
    {
        self.phase = Phase::Finished;
        AgentAction::Failed
    }
}

// ----- laws of the session -----

/// A new session holds the invariant.
pub proof fn initial_inv(system_prompt: Seq<char>, task: Seq<char>, plan_only: bool, auto_approve: bool)
    ensures
        session_inv(initial(system_prompt, task, plan_only, auto_approve)),
{
}

/// Every step keeps the invariant.
pub proof fn steps_keep_inv(s: SessionView, r: ResponseView, result: Seq<char>, approved: bool)
    requires
        session_inv(s),
    ensures
        s.phase == Phase::Ready ==> session_inv(on_start(s).0),
        s.phase == Phase::AwaitingReply ==> session_inv(on_reply(s, r).0),
        s.phase == Phase::RunningTools ==> session_inv(on_result(s, result).0),
        s.phase == Phase::AwaitingApproval ==> session_inv(on_approval(s, approved).0),
        session_inv(on_failure(s).0),
{
}

/// The conversation only grows: each event adds at most one message at its
/// end and changes none before it.
pub proof fn conversation_only_grows(s: SessionView, r: ResponseView, result: Seq<char>, approved: bool)
    requires
        session_inv(s),
    ensures
        on_start(s).0.messages == s.messages,
        on_reply(s, r).0.messages.len() == s.messages.len() + 1,
        s.messages.is_prefix_of(on_reply(s, r).0.messages),
        s.phase == Phase::RunningTools ==> on_result(s, result).0.messages.len() == s.messages.len() + 1
            && s.messages.is_prefix_of(on_result(s, result).0.messages),
        s.phase == Phase::AwaitingApproval ==> s.messages.is_prefix_of(on_approval(s, approved).0.messages),
        on_failure(s).0.messages == s.messages,
{
}

/// The model is asked at most `MAX_STEPS` times: each request to ask it
/// counts one step, and no step is counted past the limit.
pub proof fn model_asked_at_most_max_steps(s: SessionView, r: ResponseView, result: Seq<char>, approved: bool)
    requires
        session_inv(s),
    ensures
        s.step <= MAX_STEPS,
        s.phase == Phase::Ready ==> on_start(s).0.step == s.step + 1,
        s.phase == Phase::AwaitingReply ==> on_reply(s, r).0.step == s.step,
        s.phase == Phase::RunningTools ==> {
            let (t, a) = on_result(s, result);
            &&& a is CallModel ==> t.step == s.step + 1 && t.step <= MAX_STEPS
            &&& !(a is CallModel) ==> t.step == s.step
        },
        s.phase == Phase::AwaitingApproval ==> {
            let (t, a) = on_approval(s, approved);
            &&& a is CallModel ==> t.step == s.step + 1 && t.step <= MAX_STEPS
            &&& !(a is CallModel) ==> t.step == s.step
        },
{
}

/// When only planning, no tool ever runs: a reply with calls ends the run
/// with the calls, and the session never waits on a tool call.
pub proof fn plan_only_runs_no_tool(s: SessionView, r: ResponseView)
    requires
        session_inv(s),
        s.plan_only,
        s.phase == Phase::AwaitingReply,
    ensures
        !(on_reply(s, r).1 is RunTool),
        !(on_reply(s, r).1 is AskApproval),
        on_reply(s, r).0.phase != Phase::RunningTools,
        on_reply(s, r).0.phase != Phase::AwaitingApproval,
        match r.tool_calls {
            Some(c) => c.len() > 0 ==> on_reply(s, r).1 == ActionView::PlanOnly(c),
            None => true,
        },
{
}

/// Unless tool calls are approved beforehand, no tool runs without the
/// user's approval: a call runs only as the answer to the user approving
/// it, and a denied call is reported to the model as denied.
pub proof fn tools_run_only_when_approved(s: SessionView, r: ResponseView, result: Seq<char>, approved: bool)
    requires
        session_inv(s),
        !s.auto_approve,
    ensures
        s.phase == Phase::AwaitingReply ==> !(on_reply(s, r).1 is RunTool),
        s.phase == Phase::RunningTools ==> !(on_result(s, result).1 is RunTool),
        s.phase == Phase::AwaitingApproval ==> {
            let (t, a) = on_approval(s, approved);
            &&& (a is RunTool) == approved
            &&& approved ==> a == ActionView::RunTool(s.pending[s.next as int]) && t.messages == s.messages
            &&& !approved ==> t.messages == s.messages.push(
                result_message(s.pending[s.next as int], denial_text()),
            )
        },
{
}

/// Where tool calls are approved beforehand, the user is never asked.
pub proof fn auto_approve_never_asks(s: SessionView, r: ResponseView, result: Seq<char>)
    requires
        session_inv(s),
        s.auto_approve,
    ensures
        !(on_reply(s, r).1 is AskApproval),
        s.phase == Phase::RunningTools ==> !(on_result(s, result).1 is AskApproval),
        on_reply(s, r).0.phase != Phase::AwaitingApproval,
{
}

/// The calls of a reply come up in the order the model gave them, each one
/// once, and each answer is handed back under the id of the call it answers.
pub proof fn calls_run_in_order(s: SessionView, r: ResponseView, result: Seq<char>)
    requires
        session_inv(s),
    ensures
        s.phase == Phase::AwaitingReply && (on_reply(s, r).1 is RunTool || on_reply(s, r).1 is AskApproval)
            ==> {
            let (t, a) = on_reply(s, r);
            &&& r.tool_calls == Some(t.pending)
            &&& t.next == 0
            &&& a == offer(s, t.pending[0])
        },
        s.phase == Phase::RunningTools ==> {
            let (t, a) = on_result(s, result);
            &&& t.messages.last().tool_call_id == Some(s.pending[s.next as int].id)
            &&& t.messages.last().content == Some(result)
            &&& (a is RunTool || a is AskApproval) ==> t.next == s.next + 1 && t.pending == s.pending
                && a == offer(s, s.pending[s.next + 1int])
            &&& !(a is RunTool || a is AskApproval) ==> s.next + 1 == s.pending.len()
        },
{
}

/// The run stops exactly when the model answers without a tool call, when
/// only planning and it calls tools, when the steps run out, or on a failure.
pub proof fn run_stops_only_so(s: SessionView, r: ResponseView, result: Seq<char>)
    requires
        session_inv(s),
    ensures
        s.phase == Phase::AwaitingReply ==> (on_reply(s, r).0.phase == Phase::Finished <==> (
        match r.tool_calls {
            Some(c) => c.len() == 0 || s.plan_only,
            None => true,
        })),
        s.phase == Phase::RunningTools ==> (on_result(s, result).0.phase == Phase::Finished <==> (
        s.next + 1 == s.pending.len() && s.step == MAX_STEPS)),
        on_failure(s).0.phase == Phase::Finished,
{
}

// ----- laws over whole turns -----

/// The call at hand runs and ends with `result`: where the session waits for
/// the user, the user approves the call first.
pub open spec fn run_call(s: SessionView, result: Seq<char>) -> (SessionView, ActionView) {
    if s.phase == Phase::AwaitingApproval {
        on_result(on_approval(s, true).0, result)
    } else {
        on_result(s, result)
    }
}

/// Hands the results, one after another, to a session running the calls of
/// a step, each call approved where the session asks.
pub open spec fn feed(s: SessionView, results: Seq<Seq<char>>) -> (SessionView, ActionView)
    decreases results.len(),
{
    if results.len() == 0 {
        (s, ActionView::CallModel)
    } else if results.len() == 1 {
        run_call(s, results[0])
    } else {
        feed(run_call(s, results[0]).0, results.drop_first())
    }
}

/// The reply calls tools, and there is one result per call.
pub open spec fn calls_tools(r: ResponseView, results: Seq<Seq<char>>) -> bool {
    match r.tool_calls {
        Some(c) => c.len() > 0 && results.len() == c.len(),
        None => false,
    }
}

/// One turn: the model's reply with tool calls, then one result per call,
/// each call approved where the session asks.
pub open spec fn turn(s: SessionView, r: ResponseView, results: Seq<Seq<char>>) -> (SessionView, ActionView) {
    feed(on_reply(s, r).0, results)
}

/// The result messages of a turn: one per call, in order, each under the
/// call's id and holding the whole result.
pub open spec fn result_messages(calls: Seq<ToolCallView>, results: Seq<Seq<char>>) -> Seq<MessageView> {
    Seq::new(calls.len(), |i: int| result_message(calls[i], results[i]))
}

proof fn lemma_feed(s: SessionView, results: Seq<Seq<char>>)
    requires
        session_inv(s),
        s.phase == offer_phase(s),
        results.len() >= 1,
        s.next + results.len() == s.pending.len(),
    ensures
        ({
            let (t, a) = feed(s, results);
            &&& t.messages == s.messages + Seq::new(
                results.len(),
                |i: int| result_message(s.pending[s.next + i], results[i]),
            )
            &&& s.step < MAX_STEPS ==> a == ActionView::CallModel && t.step == s.step + 1 && t.phase
                == Phase::AwaitingReply
            &&& s.step == MAX_STEPS ==> a == ActionView::StepLimit && t.phase == Phase::Finished
                && t.step == s.step
            &&& t.plan_only == s.plan_only && t.auto_approve == s.auto_approve
        }),
    decreases results.len(),
{
    let expect = Seq::new(results.len(), |i: int| result_message(s.pending[s.next + i], results[i]));
    if results.len() == 1 {
        assert(feed(s, results).0.messages =~= s.messages + expect);
    } else {
        let u = run_call(s, results[0]).0;
        lemma_feed(u, results.drop_first());
        let rest = Seq::new(
            (results.len() - 1) as nat,
            |i: int| result_message(u.pending[u.next + i], results.drop_first()[i]),
        );
        assert(u.messages == s.messages.push(expect[0]));
        assert(rest =~= expect.drop_first());
        assert(feed(s, results).0.messages =~= s.messages + expect);
    }
}

/// A whole turn in which every call runs (approved beforehand, or by the
/// user when asked): the next request carries the conversation, the reply,
/// and the whole result of every call in the order of the calls, each under
/// its call's id; the step count grows by one, and past the last step the
/// run stops.
pub proof fn turn_carries_reply_and_results(s: SessionView, r: ResponseView, results: Seq<Seq<char>>)
    requires
        session_inv(s),
        s.phase == Phase::AwaitingReply,
        !s.plan_only,
        calls_tools(r, results),
    ensures
        ({
            let calls = r.tool_calls->0;
            let (t, a) = turn(s, r, results);
            &&& t.messages == s.messages.push(reply_message(r)) + result_messages(calls, results)
            &&& s.step < MAX_STEPS ==> a == ActionView::CallModel && t.phase == Phase::AwaitingReply
                && t.step == s.step + 1
            &&& s.step == MAX_STEPS ==> a == ActionView::StepLimit && t.phase == Phase::Finished
            &&& session_inv(t)
            &&& t.auto_approve == s.auto_approve && !t.plan_only
        }),
{
    let calls = r.tool_calls->0;
    let u = on_reply(s, r).0;
    lemma_feed(u, results);
    assert(Seq::new(results.len(), |i: int| result_message(u.pending[u.next + i], results[i]))
        =~= result_messages(calls, results));
    let (t, a) = turn(s, r, results);
    assert(t.messages == s.messages.push(reply_message(r)) + result_messages(calls, results));
    assert(t.messages[0] == s.messages[0]);
    assert(t.messages[1] == s.messages[1]);
    assert(s.step < MAX_STEPS ==> a == ActionView::CallModel && t.phase == Phase::AwaitingReply
        && t.step == s.step + 1);
    assert(s.step == MAX_STEPS ==> a == ActionView::StepLimit && t.phase == Phase::Finished);
    assert(t.auto_approve == s.auto_approve && !t.plan_only);
    assert(session_inv(t));
}

/// Runs `n` turns, the i-th with reply `replies[i]` and results `results[i]`.
pub open spec fn turns(s: SessionView, replies: Seq<ResponseView>, results: Seq<Seq<Seq<char>>>, n: nat) -> SessionView
    decreases n,
{
    if n == 0 {
        s
    } else {
        turn(turns(s, replies, results, (n - 1) as nat), replies[n - 1], results[n - 1]).0
    }
}

/// Every reply calls tools, and each turn gets one result per call.
pub open spec fn all_call_tools(replies: Seq<ResponseView>, results: Seq<Seq<Seq<char>>>, n: nat) -> bool {
    &&& replies.len() >= n
    &&& results.len() >= n
    &&& forall|i: int|
        0 <= i < n ==> calls_tools(#[trigger] replies[i], results[i])
}

proof fn lemma_turns(s: SessionView, replies: Seq<ResponseView>, results: Seq<Seq<Seq<char>>>, n: nat)
    requires
        session_inv(s),
        s.phase == Phase::AwaitingReply,
        s.step == 1,
        !s.plan_only,
        all_call_tools(replies, results, n),
        n < MAX_STEPS,
    ensures
        turns(s, replies, results, n).phase == Phase::AwaitingReply,
        turns(s, replies, results, n).step == 1 + n,
        session_inv(turns(s, replies, results, n)),
        turns(s, replies, results, n).auto_approve == s.auto_approve,
        !turns(s, replies, results, n).plan_only,
    decreases n,
{
    if n > 0 {
        lemma_turns(s, replies, results, (n - 1) as nat);
        let p = turns(s, replies, results, (n - 1) as nat);
        assert(calls_tools(replies[n - 1], results[n - 1]));
        turn_carries_reply_and_results(p, replies[n - 1], results[n - 1]);
    }
}

/// A run in which every reply calls tools, and every call runs (approved
/// beforehand, or by the user when asked), asks the model exactly
/// `MAX_STEPS` times: starting asks it once, each of the next
/// `MAX_STEPS - 1` turns asks it once more, and the turn after the last
/// request stops the run.
pub proof fn tool_calling_run_asks_exactly_max_steps(
    system_prompt: Seq<char>,
    task: Seq<char>,
    auto_approve: bool,
    replies: Seq<ResponseView>,
    results: Seq<Seq<Seq<char>>>,
)
    requires
        all_call_tools(replies, results, MAX_STEPS as nat),
    ensures
        ({
            let s1 = on_start(initial(system_prompt, task, false, auto_approve)).0;
            &&& on_start(initial(system_prompt, task, false, auto_approve)).1 == ActionView::CallModel
            &&& forall|k: nat|
                k < MAX_STEPS - 1 ==> #[trigger] turn(
                    turns(s1, replies, results, k),
                    replies[k as int],
                    results[k as int],
                ).1 == ActionView::CallModel
            &&& turns(s1, replies, results, (MAX_STEPS - 1) as nat).step == MAX_STEPS
            &&& turn(
                turns(s1, replies, results, (MAX_STEPS - 1) as nat),
                replies[MAX_STEPS - 1],
                results[MAX_STEPS - 1],
            ).1 == ActionView::StepLimit
        }),
{
    let s1 = on_start(initial(system_prompt, task, false, auto_approve)).0;
    assert forall|k: nat| k < MAX_STEPS - 1 implies #[trigger] turn(
        turns(s1, replies, results, k),
        replies[k as int],
        results[k as int],
    ).1 == ActionView::CallModel by {
        lemma_turns(s1, replies, results, k);
        assert(calls_tools(replies[k as int], results[k as int]));
        turn_carries_reply_and_results(turns(s1, replies, results, k), replies[k as int], results[k as int]);
    }
    let last = (MAX_STEPS - 1) as nat;
    lemma_turns(s1, replies, results, last);
    assert(calls_tools(replies[last as int], results[last as int]));
    turn_carries_reply_and_results(turns(s1, replies, results, last), replies[last as int], results[last as int]);
}

/// The tool calls of a reply go back to the model, in the JSON form of the
/// reply's message, as calls that read back as the same calls.
pub proof fn reply_calls_are_sent_back(r: ResponseView)
    requires
        r.tool_calls is Some,
    ensures
        decode_calls(message_json(reply_message(r)).field("tool_calls"@)) == r.tool_calls,
{
    let c = r.tool_calls->0;
    let m = seq![
        ("role"@, Json::Str(Role::Assistant.name())),
        ("content"@, opt_text_json(r.content)),
        ("tool_calls"@, Json::Array(calls_json(c))),
    ];
    reveal_strlit("role");
    reveal_strlit("content");
    reveal_strlit("tool_calls");
    assert(message_json(reply_message(r)) == Json::Object(m)) by {
        assert(message_json(reply_message(r))->Object_0 =~= m);
    }
    assert("role"@.len() == 4 && "content"@.len() == 7 && "tool_calls"@.len() == 10);
    assert(m.drop_first().drop_first()[0].0 == "tool_calls"@);
    assert(lookup(m.drop_first().drop_first(), "tool_calls"@) == Some(Json::Array(calls_json(c))));
    assert(lookup(m.drop_first(), "tool_calls"@) == Some(Json::Array(calls_json(c))));
    assert(lookup(m, "tool_calls"@) == Some(Json::Array(calls_json(c))));
    calls_round_trip(c);
}

/// The result of a tool call goes back to the model under the id of the call.
pub proof fn results_are_sent_under_call_id(call: ToolCallView, result: Seq<char>)
    ensures
        message_json(result_message(call, result)).field("tool_call_id"@) == Json::Str(call.id),
        message_json(result_message(call, result)).field("content"@) == Json::Str(result),
{
    let m = seq![
        ("role"@, Json::Str(Role::Tool.name())),
        ("content"@, Json::Str(result)),
        ("tool_call_id"@, Json::Str(call.id)),
    ];
    reveal_strlit("role");
    reveal_strlit("content");
    reveal_strlit("tool_call_id");
    assert(message_json(result_message(call, result)) == Json::Object(m)) by {
        assert(message_json(result_message(call, result))->Object_0 =~= m);
    }
    assert("role"@.len() == 4 && "content"@.len() == 7 && "tool_call_id"@.len() == 12);
    assert(m.drop_first()[0].0 == "content"@);
    assert(lookup(m.drop_first(), "content"@) == Some(Json::Str(result)));
    assert(lookup(m, "content"@) == Some(Json::Str(result)));
    assert(m.drop_first().drop_first()[0].0 == "tool_call_id"@);
    assert(lookup(m.drop_first().drop_first(), "tool_call_id"@) == Some(Json::Str(call.id)));
    assert(lookup(m.drop_first(), "tool_call_id"@) == Some(Json::Str(call.id)));
    assert(lookup(m, "tool_call_id"@) == Some(Json::Str(call.id)));
}

} // verus!

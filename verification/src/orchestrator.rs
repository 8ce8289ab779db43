//! The strategies of the orchestrator: research, plan, implement and run.
//!
//! Implementing in automated mode is a state machine: each step takes the
//! outcome of the last piece of outside work (an aider run, a validation
//! command, a model reply, a tool call) and gives the next piece of work,
//! together with the summary lines to log. The caller performs the work.
use crate::agents::aider::AiderRunResult;
use crate::error::{Error, ErrorKind};
use crate::gemini_types::{
    Content,
    ContentPart,
    ContentView,
    FunctionCall,
    FunctionResponse,
    GenerateContentResponse,
    PartView,
    Role,
    contents_view,
    first_call,
    first_candidate,
    last_candidate,
};
use crate::json::{JsonValue, JsonView, pretty_text, to_string_pretty};
use crate::text::{cat, cat3, contains_seq, decimal, join, split_ws, views};
use vstd::prelude::*;

verus! {

// ---------------------------------------------------------------------------
// Shell commands
// ---------------------------------------------------------------------------

/// What a shell command gave.
#[derive(Debug, Clone)]
pub struct CommandResult {
    pub success: bool,
    pub exit_code: i32,
    pub stdout: String,
    pub stderr: String,
}

/// How to run a command line: its program and arguments, or the result it
/// has when it holds no word.
#[derive(Debug)]
pub enum ShellPlan {
    Run { program: String, args: Vec<String> },
    Done(CommandResult),
}

/// Splits a command line on whitespace: the first word is the program.
pub fn shell_plan(command_str: &str) -> (p: ShellPlan)
    ensures
        split_ws(command_str@).len() == 0 ==> (p matches ShellPlan::Done(r) && !r.success
            && r.exit_code == -1 && r.stdout@.len() == 0 && r.stderr@ == "No command provided."@),
        split_ws(command_str@).len() > 0 ==> (p matches ShellPlan::Run { program, args } && program@
            == split_ws(command_str@)[0] && views(args@) == split_ws(command_str@).drop_first()),
{
    let mut words = crate::text::split_whitespace(command_str);
    let ghost w = views(words@);
    if words.len() == 0 {
        return ShellPlan::Done(
            CommandResult {
                success: false,
                exit_code: -1,
                stdout: String::new(),
                stderr: crate::text::owned("No command provided."),
            },
        );
    }
    let program = words.remove(0);
    proof {
        assert(views(words@) =~= w.drop_first());
    }
    ShellPlan::Run { program, args: words }
}

/// The result of a command that could not be started.
pub fn command_not_started(message: String) -> (r: CommandResult)
    ensures
        !r.success,
        r.exit_code == -1,
        r.stdout@.len() == 0,
        r.stderr@ == message@,
{
    CommandResult { success: false, exit_code: -1, stdout: String::new(), stderr: message }
}

// ---------------------------------------------------------------------------
// Research and plan
// ---------------------------------------------------------------------------

/// The text of a model reply: the first part of the last candidate, when it is text.
pub open spec fn reply_text_spec(r: GenerateContentResponse) -> Seq<char> {
    match last_candidate(r) {
        Some(c) => if c.parts.len() > 0 && c.parts[0].text is Some {
            c.parts[0].text->0
        } else {
            "No response text from Gemini."@
        },
        None => "No response text from Gemini."@,
    }
}

/// The text of a model reply, or a note that there is none.
pub fn reply_text(r: &GenerateContentResponse) -> (t: String)
    ensures
        t@ == reply_text_spec(*r),
{
    match r.last_candidate() {
        Some(c) => {
            if c.parts.len() > 0 {
                match &c.parts[0].text {
                    Some(t) => {
                        return t.clone();
                    },
                    None => {},
                }
            }
            crate::text::owned("No response text from Gemini.")
        },
        None => crate::text::owned("No response text from Gemini."),
    }
}

/// The model the orchestrator asks: the one given on the command line, else
/// `gemini-2.5-pro`.
pub fn orchestrator_model(model_override: Option<String>) -> (m: String)
    ensures
        m@ == match model_override {
            Some(o) => o@,
            None => "gemini-2.5-pro"@,
        },
{
    match model_override {
        Some(o) => o,
        None => crate::text::owned("gemini-2.5-pro"),
    }
}

/// The message that asks aider to review the research document.
pub fn research_review_message() -> (m: String)
    ensures
        m@ == "Here is the research document I generated. Please review it."@,
{
    crate::text::owned("Here is the research document I generated. Please review it.")
}

/// The line logged once the research document is written.
pub fn research_saved_message(path: &str) -> (m: String)
    ensures
        m@ == "Research summary saved to "@ + path@,
{
    crate::text::cat("Research summary saved to ", path)
}

/// The line logged once the plan is written.
pub fn plan_saved_message(path: &str) -> (m: String)
    ensures
        m@ == "Plan saved to "@ + path@,
{
    crate::text::cat("Plan saved to ", path)
}

/// The prompt of the research strategy.
pub open spec fn research_prompt_spec(objective: Seq<char>, files: Seq<Seq<char>>) -> Seq<char> {
    "Please research the following topic and provide a detailed summary in a markdown document.\n            I am particularly interested in the latest versions of any relevant Rust libraries and common design patterns.\n\n            Topic: "@
        + objective + "\n\n            Here are some files from my project for context:\n            "@
        + join(files, "\n"@)
}

pub fn research_prompt(objective: &str, files: &Vec<String>) -> (p: String)
    ensures
        p@ == research_prompt_spec(objective@, views(files@)),
{
    let listing = crate::text::join_strings(files, "\n");
    let mut p = crate::text::owned(
        "Please research the following topic and provide a detailed summary in a markdown document.\n            I am particularly interested in the latest versions of any relevant Rust libraries and common design patterns.\n\n            Topic: ",
    );
    p.append(objective);
    p.append("\n\n            Here are some files from my project for context:\n            ");
    p.append(listing.as_str());
    p
}

/// Where the research document is written: the given path, else `research/research.md`.
pub fn research_output_path(output_path: Option<String>) -> (p: String)
    ensures
        p@ == match output_path {
            Some(o) => o@,
            None => "research/research.md"@,
        },
{
    match output_path {
        Some(o) => o,
        None => crate::text::owned("research/research.md"),
    }
}

/// The context block of one file for the plan prompt.
pub open spec fn plan_file_block(path: Seq<char>, content: Seq<char>) -> Seq<char> {
    "\n---\nFile: "@ + path + "\n---\n"@ + content + "\n"@
}

/// The file context of the plan prompt: one block per readable file, in order.
pub open spec fn plan_file_context_spec(files: Seq<(Seq<char>, Option<Seq<char>>)>) -> Seq<char>
    decreases files.len(),
{
    if files.len() == 0 {
        Seq::empty()
    } else {
        let rest = plan_file_context_spec(files.drop_last());
        match files.last().1 {
            Some(c) => rest + plan_file_block(files.last().0, c),
            None => rest,
        }
    }
}

pub open spec fn file_reads_view(files: Seq<(String, Option<String>)>) -> Seq<
    (Seq<char>, Option<Seq<char>>),
> {
    files.map_values(
        |f: (String, Option<String>)|
            (
                f.0@,
                match f.1 {
                    Some(c) => Some(c@),
                    None => None,
                },
            ),
    )
}

/// The file context of the plan prompt, from each file's path and its
/// content when it could be read.
pub fn plan_file_context(files: &Vec<(String, Option<String>)>) -> (out: String)
    ensures
        out@ == plan_file_context_spec(file_reads_view(files@)),
{
    let ghost fv = file_reads_view(files@);
    let mut out = String::new();
    let mut i: usize = 0;
    while i < files.len()
        invariant
            i <= files.len(),
            fv == file_reads_view(files@),
            out@ == plan_file_context_spec(fv.take(i as int)),
        decreases files.len() - i,
    {
        proof {
            assert(fv.take(i + 1).drop_last() == fv.take(i as int));
            assert(fv.take(i + 1).last() == fv[i as int]);
        }
        match &files[i].1 {
            Some(c) => {
                out.append("\n---\nFile: ");
                out.append(files[i].0.as_str());
                out.append("\n---\n");
                out.append(c.as_str());
                out.append("\n");
            },
            None => {},
        }
        i += 1;
    }
    proof {
        assert(fv.take(fv.len() as int) == fv);
    }
    out
}

/// The prompt of the plan strategy.
pub open spec fn plan_prompt_spec(
    objective: Seq<char>,
    research: Option<Seq<char>>,
    file_context: Seq<char>,
) -> Seq<char> {
    let addition = match research {
        Some(r) => "\n\nHere is some research context to consider:\n"@ + r,
        None => Seq::empty(),
    };
    "Please help me plan the tasks for my implementation. I need to do the following:\n            '"@
        + objective + "'\n            "@ + addition
        + "\n            Based on that, and the provided file context, please create a markdown task list.\n            "@
        + file_context
}

pub fn plan_prompt(objective: &str, research_context: Option<String>, file_context: &str) -> (p:
    String)
    ensures
        p@ == plan_prompt_spec(
            objective@,
            match research_context {
                Some(r) => Some(r@),
                None => None,
            },
            file_context@,
        ),
{
    let mut p = crate::text::owned(
        "Please help me plan the tasks for my implementation. I need to do the following:\n            '",
    );
    p.append(objective);
    p.append("'\n            ");
    match research_context {
        Some(r) => {
            p.append("\n\nHere is some research context to consider:\n");
            p.append(r.as_str());
        },
        None => {},
    }
    p.append(
        "\n            Based on that, and the provided file context, please create a markdown task list.\n            ",
    );
    p.append(file_context);
    p
}

/// Where the plan is written for aider to see.
pub fn plan_output_path() -> (p: String)
    ensures
        p@ == "plans/plan.md"@,
{
    crate::text::owned("plans/plan.md")
}

/// The files written with a strategy's document: its copy in the session's
/// directory (under `name`), then the one at `user_path`, both with `text`.
pub fn document_writes(session_dir: &str, name: &str, user_path: &str, text: String) -> (w: Vec<
    (String, String),
>)
    ensures
        w@.len() == 2,
        w@[0].0@ == session_dir@ + "/"@ + name@,
        w@[0].1@ == text@,
        w@[1].0@ == user_path@,
        w@[1].1@ == text@,
{
    let mut w: Vec<(String, String)> = Vec::new();
    w.push((cat3(session_dir, "/", name), text.clone()));
    w.push((crate::text::owned(user_path), text));
    w
}

/// The files aider reviews a plan with: the plan's files, then the plan.
pub fn plan_review_files(files: Vec<String>, plan_path: &str) -> (v: Vec<String>)
    ensures
        views(v@) == views(files@).push(plan_path@),
{
    let mut v = files;
    let ghost before = views(v@);
    v.push(crate::text::owned(plan_path));
    proof {
        assert(views(v@) =~= before.push(plan_path@));
    }
    v
}

/// The files aider reviews a research document with: the document alone.
pub fn research_review_files(path: &str) -> (v: Vec<String>)
    ensures
        views(v@) == seq![path@],
{
    let mut v: Vec<String> = Vec::new();
    v.push(crate::text::owned(path));
    proof {
        assert(views(v@) =~= seq![path@]);
    }
    v
}

/// The message that asks aider to review the plan.
pub fn plan_review_message(path: &str) -> (m: String)
    ensures
        m@ == "Here is the plan I generated, stored in `"@ + path@
            + "`. Please review it and help me refine it."@,
{
    cat3(
        "Here is the plan I generated, stored in `",
        path,
        "`. Please review it and help me refine it.",
    )
}

// ---------------------------------------------------------------------------
// Implement
// ---------------------------------------------------------------------------

/// What the implement strategy was asked to do.
#[derive(Debug, Clone)]
pub struct ImplementConfig {
    pub objective: String,
    /// The files aider works on.
    pub files: Vec<String>,
    pub validate_cmd: String,
    /// Run the automated loop rather than one interactive aider session.
    pub auto: bool,
    pub max_retries: u32,
    /// Keep going after a validation that passes (used by `run`).
    pub continue_on_success: bool,
    /// Validate before the first aider run, and stop if that fails.
    pub pre_validate: bool,
}

/// What the strategy waits for.
#[derive(Debug, Clone, Copy, PartialEq, Eq, Structural)]
pub enum ImplementPhase {
    Start,
    AwaitInteractiveAider,
    AwaitPreValidation,
    AwaitAider,
    AwaitValidation,
    AwaitDebugReply,
    AwaitTool,
    AwaitRetryReply,
    AwaitRetryTool,
    AwaitCommit,
    Done,
}

/// The state of the strategy between two pieces of outside work.
#[derive(Debug)]
pub struct ImplementState {
    pub phase: ImplementPhase,
    /// The number of automated aider runs started.
    pub attempt: u32,
    /// The message for the next aider run.
    pub objective_text: String,
    pub aider_stdout: String,
    pub validation_stdout: String,
    pub validation_stderr: String,
    /// The request that asked the model which documentation to read.
    pub debug_contents: Vec<Content>,
    /// The tool call being executed.
    pub pending_call: Option<FunctionCall>,
}

/// The next piece of outside work.
#[derive(Debug)]
pub enum ImplementAction {
    /// Run aider on these files with this message; it never gets a test
    /// command (`validate_cmd` is `None`): validation is run separately.
    RunAider { message: String, auto: bool, files: Vec<String>, validate_cmd: Option<String> },
    RunValidation { command: String },
    /// Ask the model, offering it these tools (see `debug_tools`).
    AskModel { contents: Vec<Content>, tools: Vec<crate::gemini_types::FunctionDeclaration> },
    ExecuteTool { call: FunctionCall },
    /// Commit the files worked on with this message.
    Commit { message: String },
    Finish(Result<(), Error>),
}

/// The outcome of the last piece of outside work.
#[derive(Debug)]
pub enum ImplementEvent {
    Begin,
    AiderDone(Result<AiderRunResult, Error>),
    ValidationDone(CommandResult),
    ModelReplied(Result<GenerateContentResponse, Error>),
    ToolDone(Result<JsonValue, Error>),
    Committed(Result<(), Error>),
}

/// Whether an event is the one the phase waits for.
pub open spec fn event_fits(phase: ImplementPhase, ev: ImplementEvent) -> bool {
    match phase {
        ImplementPhase::Start => ev is Begin,
        ImplementPhase::AwaitInteractiveAider => ev is AiderDone,
        ImplementPhase::AwaitPreValidation => ev is ValidationDone,
        ImplementPhase::AwaitAider => ev is AiderDone,
        ImplementPhase::AwaitValidation => ev is ValidationDone,
        ImplementPhase::AwaitDebugReply => ev is ModelReplied,
        ImplementPhase::AwaitTool => ev is ToolDone,
        ImplementPhase::AwaitRetryReply => ev is ModelReplied,
        ImplementPhase::AwaitRetryTool => ev is ToolDone,
        ImplementPhase::AwaitCommit => ev is Committed,
        ImplementPhase::Done => false,
    }
}

/// The mathematical form of the state.
pub struct StateView {
    pub phase: ImplementPhase,
    pub attempt: u32,
    pub objective_text: Seq<char>,
    pub aider_stdout: Seq<char>,
    pub validation_stdout: Seq<char>,
    pub validation_stderr: Seq<char>,
    pub debug_contents: Seq<ContentView>,
    pub pending_call: Option<(Seq<char>, JsonView)>,
}

/// The declarations of a list of tools.
pub open spec fn decls_view(d: Seq<crate::gemini_types::FunctionDeclaration>) -> Seq<
    (Seq<char>, Seq<char>, JsonView),
> {
    d.map_values(|x: crate::gemini_types::FunctionDeclaration| crate::tools::decl_view(x))
}

/// The tools offered while debugging a failure: the documentation lookup.
pub open spec fn debug_tool_views() -> Seq<(Seq<char>, Seq<char>, JsonView)> {
    seq![crate::tools::declaration_view(crate::tools::ToolKind::DocRetriever)]
}

/// The declarations of the tools offered while debugging a failure.
pub fn debug_tools() -> (t: Vec<crate::gemini_types::FunctionDeclaration>)
    ensures
        decls_view(t@) == debug_tool_views(),
{
    let mut t: Vec<crate::gemini_types::FunctionDeclaration> = Vec::new();
    t.push(crate::tools::DocRetrieverTool.schema());
    proof {
        assert(decls_view(t@) =~= debug_tool_views());
    }
    t
}

/// The mathematical form of an action.
pub enum ActionView {
    RunAider { message: Seq<char>, auto: bool, files: Seq<Seq<char>>, validate_cmd: Option<Seq<char>> },
    RunValidation { command: Seq<char> },
    AskModel { contents: Seq<ContentView>, tools: Seq<(Seq<char>, Seq<char>, JsonView)> },
    ExecuteTool { name: Seq<char>, arguments: JsonView },
    Commit { message: Seq<char> },
    FinishOk,
    FinishErr((ErrorKind, Seq<char>)),
}

pub open spec fn state_view(s: ImplementState) -> StateView {
    StateView {
        phase: s.phase,
        attempt: s.attempt,
        objective_text: s.objective_text@,
        aider_stdout: s.aider_stdout@,
        validation_stdout: s.validation_stdout@,
        validation_stderr: s.validation_stderr@,
        debug_contents: contents_view(s.debug_contents@),
        pending_call: match s.pending_call {
            Some(c) => Some((c.name@, c.arguments@)),
            None => None,
        },
    }
}

pub open spec fn action_view(a: ImplementAction) -> ActionView {
    match a {
        ImplementAction::RunAider { message, auto, files, validate_cmd } => ActionView::RunAider {
            message: message@,
            auto,
            files: views(files@),
            validate_cmd: crate::doc_retriever::note_view(validate_cmd),
        },
        ImplementAction::RunValidation { command } => ActionView::RunValidation {
            command: command@,
        },
        ImplementAction::AskModel { contents, tools } => ActionView::AskModel {
            contents: contents_view(contents@),
            tools: decls_view(tools@),
        },
        ImplementAction::ExecuteTool { call } => ActionView::ExecuteTool {
            name: call.name@,
            arguments: call.arguments@,
        },
        ImplementAction::Commit { message } => ActionView::Commit { message: message@ },
        ImplementAction::Finish(Ok(())) => ActionView::FinishOk,
        ImplementAction::Finish(Err(e)) => ActionView::FinishErr(e@),
    }
}

/// What a step gives: the next state, the next action, and lines to log.
pub struct StepView {
    pub state: StateView,
    pub action: ActionView,
    pub logs: Seq<Seq<char>>,
}

/// The first message to aider.
pub open spec fn initial_objective(objective: Seq<char>, validate_cmd: Seq<char>) -> Seq<char> {
    "Hello, can you help me with my implementation? I need to do the following:\n            '"@
        + objective
        + "'\n\n            Please use the above information to get started. After you commit your changes, I will run `"@
        + validate_cmd + "` to validate them.\n            "@
}

/// "`prefix`a/m`suffix`" for attempt `a` of `m`.
pub open spec fn attempt_line(prefix: Seq<char>, a: u32, m: u32, suffix: Seq<char>) -> Seq<char> {
    prefix + decimal(a as nat) + "/"@ + decimal(m as nat) + suffix
}

/// The request that asks the model which documentation to read.
pub open spec fn debug_prompt(stdout: Seq<char>, stderr: Seq<char>) -> Seq<char> {
    "The last attempt to fix the code failed. I need your help to figure out what to do next.\n                Based on the error output below, what documentation should I look up using the `doc_retriever` tool?\n                Please call the tool with the most relevant `crate_name` and `path` to get documentation that might help solve the error.\n\n                If the tool fails to find the exact path, it will return documentation for the parent module or the whole crate, which should still be helpful. If you are unsure of the exact path, providing a guess is better than not calling the tool at all.\n\n                Validation command STDOUT:\n                "@
        + stdout + "\n\n                Validation command STDERR:\n                "@ + stderr
}

/// The message for the aider run after a failed validation.
pub open spec fn retry_objective(stdout: Seq<char>, stderr: Seq<char>, docs: Seq<char>) -> Seq<
    char,
> {
    "The last attempt failed. Here is the output from the validation command:\n\nSTDOUT:\n"@
        + stdout + "\n\nSTDERR:\n"@ + stderr
        + "\n\nI tried to find relevant documentation and got this:\n\n"@ + docs
        + "\n\nPlease use this information to fix the code."@
}

/// The user turn that asks the model to call the tool again.
pub open spec fn tool_retry_request() -> Seq<char> {
    "The tool call failed. Please analyze the error and try again. You may need to correct the `path` or `crate_name`."@
}

/// A content of one text part.
pub open spec fn text_content(role: Role, t: Seq<char>) -> ContentView {
    ContentView {
        role,
        parts: seq![PartView { text: Some(t), function_call: None, function_response: None }],
    }
}

/// The object handed back to the model for a tool call that failed.
pub open spec fn tool_error_object(message: Seq<char>) -> JsonView {
    JsonView::Object(
        seq![
            ("error"@, JsonView::Str(message)),
            ("message"@, JsonView::Str("Tool execution failed."@)),
        ],
    )
}

/// The request that follows a failed tool call: the first request, the
/// model's call, the error, and the request to try again.
pub open spec fn retry_history(
    first: Seq<ContentView>,
    call: (Seq<char>, JsonView),
    error: Seq<char>,
) -> Seq<ContentView> {
    first + seq![
        ContentView {
            role: Role::Model,
            parts: seq![PartView { text: None, function_call: Some(call), function_response: None }],
        },
        ContentView {
            role: Role::Tool,
            parts: seq![
                PartView {
                    text: None,
                    function_call: None,
                    function_response: Some((call.0, tool_error_object(error))),
                },
            ],
        },
        text_content(Role::User, tool_retry_request()),
    ]
}

/// The step that starts the next automated attempt, or gives up.
pub open spec fn next_attempt(
    cfg: ImplementConfig,
    st: StateView,
    logs: Seq<Seq<char>>,
) -> StepView {
    if st.attempt < cfg.max_retries {
        StepView {
            state: StateView {
                phase: ImplementPhase::AwaitAider,
                attempt: (st.attempt + 1) as u32,
                ..st
            },
            action: ActionView::RunAider {
                message: st.objective_text,
                auto: true,
                files: views(cfg.files@),
                validate_cmd: None,
            },
            logs,
        }
    } else {
        StepView {
            state: StateView { phase: ImplementPhase::Done, ..st },
            action: ActionView::FinishErr(
                (
                    ErrorKind::ToolFailed,
                    "Aider failed to complete the objective after maximum retries."@,
                ),
            ),
            logs: logs.push("Implement strategy failed after max retries."@),
        }
    }
}

/// The step taken once the documentation text is known.
pub open spec fn after_docs(cfg: ImplementConfig, st: StateView, docs: Seq<char>) -> StepView {
    next_attempt(
        cfg,
        StateView {
            objective_text: retry_objective(st.validation_stdout, st.validation_stderr, docs),
            pending_call: None,
            ..st
        },
        Seq::empty(),
    )
}

/// The message of the commit made after a validation that passed.
pub open spec fn commit_message(objective: Seq<char>) -> Seq<char> {
    "Implement: "@ + objective
}

/// The step that asks the model which documentation would help with a
/// failure whose output is `stdout` and `stderr`.
pub open spec fn debug_request(
    st: StateView,
    stdout: Seq<char>,
    stderr: Seq<char>,
    line: Seq<char>,
) -> StepView {
    let request = seq![text_content(Role::User, debug_prompt(stdout, stderr))];
    StepView {
        state: StateView {
            phase: ImplementPhase::AwaitDebugReply,
            validation_stdout: stdout,
            validation_stderr: stderr,
            debug_contents: request,
            ..st
        },
        action: ActionView::AskModel { contents: request, tools: debug_tool_views() },
        logs: seq![line],
    }
}

/// One step of the implement strategy.
pub open spec fn implement_next(cfg: ImplementConfig, s: ImplementState, ev: ImplementEvent) -> StepView {
    let st = state_view(s);
    match ev {
        ImplementEvent::Begin => {
            let opened = seq!["Starting implement strategy."@];
            let st1 = StateView {
                objective_text: initial_objective(cfg.objective@, cfg.validate_cmd@),
                ..st
            };
            if !cfg.auto {
                StepView {
                    state: StateView { phase: ImplementPhase::AwaitInteractiveAider, ..st1 },
                    action: ActionView::RunAider {
                        message: st1.objective_text,
                        auto: false,
                        files: views(cfg.files@),
                        validate_cmd: None,
                    },
                    logs: opened,
                }
            } else if cfg.pre_validate {
                StepView {
                    state: StateView { phase: ImplementPhase::AwaitPreValidation, ..st1 },
                    action: ActionView::RunValidation { command: cfg.validate_cmd@ },
                    logs: opened,
                }
            } else {
                next_attempt(cfg, st1, opened)
            }
        },
        ImplementEvent::AiderDone(Err(e)) => StepView {
            state: StateView { phase: ImplementPhase::Done, ..st },
            action: ActionView::FinishErr(e@),
            logs: Seq::empty(),
        },
        ImplementEvent::AiderDone(Ok(res)) => if s.phase == ImplementPhase::AwaitInteractiveAider {
            StepView {
                state: StateView { phase: ImplementPhase::Done, ..st },
                action: ActionView::FinishOk,
                logs: seq!["Implement strategy completed (interactive)."@],
            }
        } else if !res.success {
            debug_request(
                StateView { aider_stdout: res.stdout@, ..st },
                res.stdout@,
                res.stderr@,
                attempt_line(
                    "Aider failed on attempt "@,
                    st.attempt,
                    cfg.max_retries,
                    ". Analyzing failure..."@,
                ),
            )
        } else {
            StepView {
                state: StateView {
                    phase: ImplementPhase::AwaitValidation,
                    aider_stdout: res.stdout@,
                    ..st
                },
                action: ActionView::RunValidation { command: cfg.validate_cmd@ },
                logs: seq![
                    attempt_line("Aider succeeded on attempt "@, st.attempt, cfg.max_retries, "."@),
                ],
            }
        },
        ImplementEvent::ValidationDone(r) => if s.phase == ImplementPhase::AwaitPreValidation {
            if !r.success {
                StepView {
                    state: StateView { phase: ImplementPhase::Done, ..st },
                    action: ActionView::FinishErr(
                        (
                            ErrorKind::VerificationFailed,
                            "Pre-validation command failed. Please fix your tests before running with --pre-validate."@,
                        ),
                    ),
                    logs: Seq::empty(),
                }
            } else {
                next_attempt(cfg, st, seq!["Pre-validation passed."@])
            }
        } else if r.success {
            StepView {
                state: StateView { phase: ImplementPhase::AwaitCommit, ..st },
                action: ActionView::Commit { message: commit_message(cfg.objective@) },
                logs: seq!["Committing changes with message: "@ + commit_message(cfg.objective@)],
            }
        } else {
            debug_request(
                st,
                r.stdout@,
                r.stderr@,
                attempt_line(
                    "Validation failed on attempt "@,
                    st.attempt,
                    cfg.max_retries,
                    ". Analyzing failure..."@,
                ),
            )
        },
        ImplementEvent::Committed(Err(e)) => StepView {
            state: StateView { phase: ImplementPhase::Done, ..st },
            action: ActionView::FinishErr(e@),
            logs: Seq::empty(),
        },
        ImplementEvent::Committed(Ok(())) => {
            if contains_seq(st.aider_stdout, "No changes were applied."@) {
                StepView {
                    state: StateView { phase: ImplementPhase::Done, ..st },
                    action: ActionView::FinishOk,
                    logs: seq![
                        attempt_line(
                            "Validation passed and Aider reported no changes on attempt "@,
                            st.attempt,
                            cfg.max_retries,
                            ". Assuming completion."@,
                        ),
                        "Implement strategy completed successfully."@,
                    ],
                }
            } else if !cfg.continue_on_success {
                StepView {
                    state: StateView { phase: ImplementPhase::Done, ..st },
                    action: ActionView::FinishOk,
                    logs: seq![
                        attempt_line(
                            "Validation passed on attempt "@,
                            st.attempt,
                            cfg.max_retries,
                            "."@,
                        ),
                    ],
                }
            } else {
                next_attempt(
                    cfg,
                    StateView {
                        objective_text: "The previous changes were successful. Please continue implementing the plan."@,
                        ..st
                    },
                    seq![
                        attempt_line(
                            "Validation passed on attempt "@,
                            st.attempt,
                            cfg.max_retries,
                            ". Continuing with plan."@,
                        ),
                    ],
                )
            }
        },
        ImplementEvent::ModelReplied(Err(e)) => StepView {
            state: StateView { phase: ImplementPhase::Done, ..st },
            action: ActionView::FinishErr(e@),
            logs: Seq::empty(),
        },
        ImplementEvent::ModelReplied(Ok(resp)) => {
            let call = match first_candidate(resp) {
                Some(c) => first_call(c.parts),
                None => None,
            };
            match call {
                Some(c) => StepView {
                    state: StateView {
                        phase: if s.phase == ImplementPhase::AwaitDebugReply {
                            ImplementPhase::AwaitTool
                        } else {
                            ImplementPhase::AwaitRetryTool
                        },
                        pending_call: Some(c),
                        ..st
                    },
                    action: ActionView::ExecuteTool { name: c.0, arguments: c.1 },
                    logs: Seq::empty(),
                },
                None => after_docs(
                    cfg,
                    st,
                    if s.phase == ImplementPhase::AwaitDebugReply {
                        "No documentation was retrieved."@
                    } else {
                        "Gemini did not provide a new tool call on retry."@
                    },
                ),
            }
        },
        ImplementEvent::ToolDone(Ok(docs)) => after_docs(cfg, st, pretty_text(docs@)),
        ImplementEvent::ToolDone(Err(e)) => if s.phase == ImplementPhase::AwaitTool {
            let history = retry_history(
                st.debug_contents,
                st.pending_call->0,
                crate::error::error_message(e),
            );
            StepView {
                state: StateView {
                    phase: ImplementPhase::AwaitRetryReply,
                    pending_call: None,
                    ..st
                },
                action: ActionView::AskModel { contents: history, tools: debug_tool_views() },
                logs: Seq::empty(),
            }
        } else {
            after_docs(
                cfg,
                st,
                "Failed to retrieve documentation on retry: "@ + crate::error::error_message(e),
            )
        },
    }
}

/// The state before the first step.
pub fn implement_start() -> (s: ImplementState)
    ensures
        s.phase == ImplementPhase::Start,
        s.attempt == 0,
        s.pending_call is None,
        s.debug_contents@.len() == 0,
        s.objective_text@.len() == 0,
        s.aider_stdout@.len() == 0,
        s.validation_stdout@.len() == 0,
        s.validation_stderr@.len() == 0,
{
    ImplementState {
        phase: ImplementPhase::Start,
        attempt: 0,
        objective_text: String::new(),
        aider_stdout: String::new(),
        validation_stdout: String::new(),
        validation_stderr: String::new(),
        debug_contents: Vec::new(),
        pending_call: None,
    }
}

fn attempt_text(prefix: &str, a: u32, m: u32, suffix: &str) -> (t: String)
    ensures
        t@ == attempt_line(prefix@, a, m, suffix@),
{
    let mut t = crate::text::owned(prefix);
    t.append(crate::text::u64_to_string(a as u64).as_str());
    t.append("/");
    t.append(crate::text::u64_to_string(m as u64).as_str());
    t.append(suffix);
    t
}

fn no_lines() -> (v: Vec<String>)
    ensures
        views(v@) == Seq::<Seq<char>>::empty(),
{
    let v: Vec<String> = Vec::new();
    proof {
        assert(views(v@) =~= Seq::<Seq<char>>::empty());
    }
    v
}

fn one_line(l: String) -> (v: Vec<String>)
    ensures
        views(v@) == seq![l@],
{
    let mut v: Vec<String> = Vec::new();
    v.push(l);
    proof {
        assert(views(v@) =~= seq![l@]);
    }
    v
}

fn text_turn(role: Role, t: String) -> (c: Content)
    ensures
        c@ == text_content(role, t@),
{
    Content::single(role, ContentPart::new_text(t))
}

/// The step that starts the next automated attempt, or gives up.
fn start_attempt(cfg: &ImplementConfig, st: ImplementState, logs: Vec<String>) -> (r: (
    ImplementState,
    ImplementAction,
    Vec<String>,
))
    ensures
        (StepView { state: state_view(r.0), action: action_view(r.1), logs: views(r.2@) })
            == next_attempt(*cfg, state_view(st), views(logs@)),
{
    let mut st = st;
    let mut logs = logs;
    if st.attempt < cfg.max_retries {
        st.phase = ImplementPhase::AwaitAider;
        st.attempt = st.attempt + 1;
        let message = st.objective_text.clone();
        let files = crate::text::copy_strings(&cfg.files);
        (st, ImplementAction::RunAider { message, auto: true, files, validate_cmd: None }, logs)
    } else {
        st.phase = ImplementPhase::Done;
        let ghost before = logs@;
        logs.push(crate::text::owned("Implement strategy failed after max retries."));
        proof {
            assert(views(logs@) =~= views(before).push(
                "Implement strategy failed after max retries."@,
            ));
        }
        (
            st,
            ImplementAction::Finish(
                Err(
                    Error::ToolFailed(
                        crate::text::owned(
                            "Aider failed to complete the objective after maximum retries.",
                        ),
                    ),
                ),
            ),
            logs,
        )
    }
}

fn finish_docs(cfg: &ImplementConfig, st: ImplementState, docs: String) -> (r: (
    ImplementState,
    ImplementAction,
    Vec<String>,
))
    ensures
        (StepView { state: state_view(r.0), action: action_view(r.1), logs: views(r.2@) })
            == after_docs(*cfg, state_view(st), docs@),
{
    let mut st = st;
    let mut t = crate::text::owned(
        "The last attempt failed. Here is the output from the validation command:\n\nSTDOUT:\n",
    );
    t.append(st.validation_stdout.as_str());
    t.append("\n\nSTDERR:\n");
    t.append(st.validation_stderr.as_str());
    t.append("\n\nI tried to find relevant documentation and got this:\n\n");
    t.append(docs.as_str());
    t.append("\n\nPlease use this information to fix the code.");
    st.objective_text = t;
    st.pending_call = None;
    let logs: Vec<String> = Vec::new();
    proof {
        assert(views(logs@) =~= Seq::<Seq<char>>::empty());
    }
    start_attempt(cfg, st, logs)
}

fn ask_debug(st: ImplementState, stdout: String, stderr: String, line: String) -> (r: (
    ImplementState,
    ImplementAction,
    Vec<String>,
))
    ensures
        (StepView { state: state_view(r.0), action: action_view(r.1), logs: views(r.2@) })
            == debug_request(state_view(st), stdout@, stderr@, line@),
{
    let mut st = st;
    let mut prompt = crate::text::owned(
        "The last attempt to fix the code failed. I need your help to figure out what to do next.\n                Based on the error output below, what documentation should I look up using the `doc_retriever` tool?\n                Please call the tool with the most relevant `crate_name` and `path` to get documentation that might help solve the error.\n\n                If the tool fails to find the exact path, it will return documentation for the parent module or the whole crate, which should still be helpful. If you are unsure of the exact path, providing a guess is better than not calling the tool at all.\n\n                Validation command STDOUT:\n                ",
    );
    prompt.append(stdout.as_str());
    prompt.append("\n\n                Validation command STDERR:\n                ");
    prompt.append(stderr.as_str());
    let mut request: Vec<Content> = Vec::new();
    request.push(text_turn(Role::User, prompt));
    proof {
        assert(contents_view(request@) =~= seq![
            text_content(Role::User, debug_prompt(stdout@, stderr@)),
        ]);
    }
    st.phase = ImplementPhase::AwaitDebugReply;
    st.validation_stdout = stdout;
    st.validation_stderr = stderr;
    st.debug_contents = crate::gemini_types::copy_contents(&request);
    (st, ImplementAction::AskModel { contents: request, tools: debug_tools() }, one_line(line))
}

/// One step of the implement strategy: the next state, the next piece of
/// work and the summary lines to log, as `implement_next` gives them.
pub fn implement_step(cfg: &ImplementConfig, st: ImplementState, ev: ImplementEvent) -> (r: (
    ImplementState,
    ImplementAction,
    Vec<String>,
))
    requires
        event_fits(st.phase, ev),
        st.phase == ImplementPhase::AwaitTool ==> st.pending_call is Some,
    ensures
        (StepView { state: state_view(r.0), action: action_view(r.1), logs: views(r.2@) })
            == implement_next(*cfg, st, ev),
{
    let ghost s0 = st;
    let mut st = st;
    match ev {
        ImplementEvent::Begin => {
            let opened = one_line(crate::text::owned("Starting implement strategy."));
            let mut t = crate::text::owned(
                "Hello, can you help me with my implementation? I need to do the following:\n            '",
            );
            t.append(cfg.objective.as_str());
            t.append(
                "'\n\n            Please use the above information to get started. After you commit your changes, I will run `",
            );
            t.append(cfg.validate_cmd.as_str());
            t.append("` to validate them.\n            ");
            st.objective_text = t;
            if !cfg.auto {
                st.phase = ImplementPhase::AwaitInteractiveAider;
                let message = st.objective_text.clone();
                let files = crate::text::copy_strings(&cfg.files);
                (st, ImplementAction::RunAider { message, auto: false, files, validate_cmd: None }, opened)
            } else if cfg.pre_validate {
                st.phase = ImplementPhase::AwaitPreValidation;
                (st, ImplementAction::RunValidation { command: cfg.validate_cmd.clone() }, opened)
            } else {
                start_attempt(cfg, st, opened)
            }
        },
        ImplementEvent::AiderDone(Err(e)) => {
            st.phase = ImplementPhase::Done;
            (st, ImplementAction::Finish(Err(e)), no_lines())
        },
        ImplementEvent::AiderDone(Ok(res)) => {
            if st.phase == ImplementPhase::AwaitInteractiveAider {
                st.phase = ImplementPhase::Done;
                (
                    st,
                    ImplementAction::Finish(Ok(())),
                    one_line(crate::text::owned("Implement strategy completed (interactive).")),
                )
            } else if !res.success {
                let line = attempt_text(
                    "Aider failed on attempt ",
                    st.attempt,
                    cfg.max_retries,
                    ". Analyzing failure...",
                );
                st.aider_stdout = res.stdout.clone();
                ask_debug(st, res.stdout, res.stderr, line)
            } else {
                let line = attempt_text("Aider succeeded on attempt ", st.attempt, cfg.max_retries, ".");
                st.phase = ImplementPhase::AwaitValidation;
                st.aider_stdout = res.stdout;
                (
                    st,
                    ImplementAction::RunValidation { command: cfg.validate_cmd.clone() },
                    one_line(line),
                )
            }
        },
        ImplementEvent::ValidationDone(r) => {
            if st.phase == ImplementPhase::AwaitPreValidation {
                if !r.success {
                    st.phase = ImplementPhase::Done;
                    let msg = crate::text::owned(
                        "Pre-validation command failed. Please fix your tests before running with --pre-validate.",
                    );
                    (st, ImplementAction::Finish(Err(Error::VerificationFailed(msg))), no_lines())
                } else {
                    let logs = one_line(crate::text::owned("Pre-validation passed."));
                    start_attempt(cfg, st, logs)
                }
            } else if r.success {
                let message = cat("Implement: ", cfg.objective.as_str());
                let line = cat("Committing changes with message: ", message.as_str());
                st.phase = ImplementPhase::AwaitCommit;
                (st, ImplementAction::Commit { message }, one_line(line))
            } else {
                let line = attempt_text(
                    "Validation failed on attempt ",
                    st.attempt,
                    cfg.max_retries,
                    ". Analyzing failure...",
                );
                ask_debug(st, r.stdout, r.stderr, line)
            }
        },
        ImplementEvent::Committed(Err(e)) => {
            st.phase = ImplementPhase::Done;
            (st, ImplementAction::Finish(Err(e)), no_lines())
        },
        ImplementEvent::Committed(Ok(())) => {
            let out = crate::text::chars_of(st.aider_stdout.as_str());
            let marker = crate::text::chars_of("No changes were applied.");
            if crate::text::chars_contain(&out, &marker) {
                st.phase = ImplementPhase::Done;
                let mut logs = one_line(
                    attempt_text(
                        "Validation passed and Aider reported no changes on attempt ",
                        st.attempt,
                        cfg.max_retries,
                        ". Assuming completion.",
                    ),
                );
                let ghost before = logs@;
                logs.push(crate::text::owned("Implement strategy completed successfully."));
                proof {
                    assert(views(logs@) =~= views(before).push(
                        "Implement strategy completed successfully."@,
                    ));
                    assert(views(logs@) =~= seq![
                        attempt_line(
                            "Validation passed and Aider reported no changes on attempt "@,
                            st.attempt,
                            cfg.max_retries,
                            ". Assuming completion."@,
                        ),
                        "Implement strategy completed successfully."@,
                    ]);
                }
                (st, ImplementAction::Finish(Ok(())), logs)
            } else if !cfg.continue_on_success {
                st.phase = ImplementPhase::Done;
                let logs = one_line(
                    attempt_text("Validation passed on attempt ", st.attempt, cfg.max_retries, "."),
                );
                (st, ImplementAction::Finish(Ok(())), logs)
            } else {
                let logs = one_line(
                    attempt_text(
                        "Validation passed on attempt ",
                        st.attempt,
                        cfg.max_retries,
                        ". Continuing with plan.",
                    ),
                );
                st.objective_text = crate::text::owned(
                    "The previous changes were successful. Please continue implementing the plan.",
                );
                start_attempt(cfg, st, logs)
            }
        },
        ImplementEvent::ModelReplied(Err(e)) => {
            st.phase = ImplementPhase::Done;
            (st, ImplementAction::Finish(Err(e)), no_lines())
        },
        ImplementEvent::ModelReplied(Ok(resp)) => {
            let call = match resp.first_candidate() {
                Some(c) => match c.first_call() {
                    Some(fc) => Some(fc.copy()),
                    None => None,
                },
                None => None,
            };
            match call {
                Some(c) => {
                    st.phase = if st.phase == ImplementPhase::AwaitDebugReply {
                        ImplementPhase::AwaitTool
                    } else {
                        ImplementPhase::AwaitRetryTool
                    };
                    st.pending_call = Some(c.copy());
                    (st, ImplementAction::ExecuteTool { call: c }, no_lines())
                },
                None => {
                    let docs = if st.phase == ImplementPhase::AwaitDebugReply {
                        crate::text::owned("No documentation was retrieved.")
                    } else {
                        crate::text::owned("Gemini did not provide a new tool call on retry.")
                    };
                    finish_docs(cfg, st, docs)
                },
            }
        },
        ImplementEvent::ToolDone(Ok(docs)) => {
            let text = to_string_pretty(&docs);
            finish_docs(cfg, st, text)
        },
        ImplementEvent::ToolDone(Err(e)) => {
            if st.phase == ImplementPhase::AwaitTool {
                let call = match &st.pending_call {
                    Some(c) => c.copy(),
                    None => FunctionCall { name: String::new(), arguments: JsonValue::Null },
                };
                let mut history = crate::gemini_types::copy_contents(&st.debug_contents);
                let ghost first = contents_view(history@);
                let model_part = ContentPart {
                    text: None,
                    function_call: Some(call.copy()),
                    function_response: None,
                };
                history.push(Content::single(Role::Model, model_part));
                let mut entries: Vec<(String, JsonValue)> = Vec::new();
                entries.push((crate::text::owned("error"), JsonValue::String(e.message())));
                entries.push(
                    (
                        crate::text::owned("message"),
                        JsonValue::String(crate::text::owned("Tool execution failed.")),
                    ),
                );
                let ghost ev = entries@;
                let response = crate::json::json_object(entries);
                let tool_part = ContentPart {
                    text: None,
                    function_call: None,
                    function_response: Some(FunctionResponse { name: call.name, response }),
                };
                history.push(Content::single(Role::Tool, tool_part));
                history.push(
                    text_turn(
                        Role::User,
                        crate::text::owned(
                            "The tool call failed. Please analyze the error and try again. You may need to correct the `path` or `crate_name`.",
                        ),
                    ),
                );
                proof {
                    let c0 = s0.pending_call->0;
                    let want = retry_history(
                        first,
                        (c0.name@, c0.arguments@),
                        crate::error::error_message(e),
                    );
                    assert(response@ == tool_error_object(crate::error::error_message(e))) by {
                        assert(response@->Object_0 =~= tool_error_object(
                            crate::error::error_message(e),
                        )->Object_0);
                    }
                    assert(contents_view(history@) =~= want);
                }
                st.phase = ImplementPhase::AwaitRetryReply;
                st.pending_call = None;
                (st, ImplementAction::AskModel { contents: history, tools: debug_tools() }, no_lines())
            } else {
                let msg = cat("Failed to retrieve documentation on retry: ", e.message().as_str());
                finish_docs(cfg, st, msg)
            }
        },
    }
}

/// The automated loop never starts more aider runs than `max_retries`: from
/// a state within the bound every step stays within it, and an automated aider
/// run is always one of the first `max_retries`.
pub proof fn law_implement_attempts_bounded(cfg: ImplementConfig, s: ImplementState, ev: ImplementEvent)
    requires
        s.attempt <= cfg.max_retries,
    ensures
        implement_next(cfg, s, ev).state.attempt <= cfg.max_retries,
        implement_next(cfg, s, ev).action matches ActionView::RunAider { auto, .. } && auto ==> (1
            <= implement_next(cfg, s, ev).state.attempt <= cfg.max_retries),
{
}

/// In automated mode the strategy succeeds only right after the commit that
/// follows a passing validation, and it commits only right after a
/// validation command that passed, following an aider run that succeeded.
pub proof fn law_implement_succeeds_after_validation(
    cfg: ImplementConfig,
    s: ImplementState,
    ev: ImplementEvent,
)
    requires
        cfg.auto,
        s.phase != ImplementPhase::AwaitInteractiveAider,
        event_fits(s.phase, ev),
    ensures
        implement_next(cfg, s, ev).action is FinishOk ==> (ev matches ImplementEvent::Committed(
            Ok(()),
        ) && s.phase == ImplementPhase::AwaitCommit),
        implement_next(cfg, s, ev).action is Commit ==> (ev matches ImplementEvent::ValidationDone(r)
            && r.success && s.phase != ImplementPhase::AwaitPreValidation),
{
}

/// An aider run that fails is a failed attempt like a failed validation: the
/// model is asked which documentation would help, with aider's output.
pub proof fn law_implement_aider_failure_is_debugged(
    cfg: ImplementConfig,
    s: ImplementState,
    res: AiderRunResult,
)
    requires
        s.phase == ImplementPhase::AwaitAider,
        !res.success,
    ensures
        implement_next(cfg, s, ImplementEvent::AiderDone(Ok(res))).action == (ActionView::AskModel {
            contents: seq![text_content(Role::User, debug_prompt(res.stdout@, res.stderr@))],
            tools: debug_tool_views(),
        }),
        implement_next(cfg, s, ImplementEvent::AiderDone(Ok(res))).state.attempt == s.attempt,
{
}

/// Without `auto` the strategy is one interactive aider session on the
/// given files with the first message and no test command, and ends well
/// when that session does (its error ends it otherwise).
pub proof fn law_implement_interactive(
    cfg: ImplementConfig,
    s: ImplementState,
    t: ImplementState,
    outcome: Result<AiderRunResult, Error>,
)
    requires
        !cfg.auto,
        s.phase == ImplementPhase::Start,
        t.phase == ImplementPhase::AwaitInteractiveAider,
    ensures
        implement_next(cfg, s, ImplementEvent::Begin).action == (ActionView::RunAider {
            message: initial_objective(cfg.objective@, cfg.validate_cmd@),
            auto: false,
            files: views(cfg.files@),
            validate_cmd: None,
        }),
        implement_next(cfg, s, ImplementEvent::Begin).state.phase
            == ImplementPhase::AwaitInteractiveAider,
        outcome is Ok ==> implement_next(cfg, t, ImplementEvent::AiderDone(outcome)).action
            == ActionView::FinishOk,
        outcome matches Err(e) ==> implement_next(cfg, t, ImplementEvent::AiderDone(outcome)).action
            == ActionView::FinishErr(e@),
{
}

/// A failed tool call is retried once: after the retry's own outcome the
/// strategy goes on with the next aider run (or gives up at the bound),
/// never with a third tool call.
pub proof fn law_implement_tool_retried_once(
    cfg: ImplementConfig,
    s: ImplementState,
    outcome: Result<JsonValue, Error>,
)
    requires
        s.phase == ImplementPhase::AwaitRetryTool,
    ensures
        implement_next(cfg, s, ImplementEvent::ToolDone(outcome)).action is RunAider
            || implement_next(cfg, s, ImplementEvent::ToolDone(outcome)).action is FinishErr,
{
}

/// The model's answer to a retried tool call never starts a first tool call
/// again: a call it makes is the retry's (whose outcome ends the debugging),
/// and otherwise the strategy moves on or stops.
pub proof fn law_implement_retry_reply_is_last_call(
    cfg: ImplementConfig,
    s: ImplementState,
    ev: ImplementEvent,
)
    requires
        s.phase == ImplementPhase::AwaitRetryReply,
        event_fits(s.phase, ev),
    ensures
        implement_next(cfg, s, ev).state.phase != ImplementPhase::AwaitTool,
        implement_next(cfg, s, ev).state.phase != ImplementPhase::AwaitDebugReply,
        implement_next(cfg, s, ev).action is ExecuteTool ==> implement_next(cfg, s, ev).state.phase
            == ImplementPhase::AwaitRetryTool,
        !(implement_next(cfg, s, ev).action is AskModel),
{
}

/// At most two tool calls are made for one failed attempt: when the call
/// the model makes in answer to a failed one fails too, the next aider
/// attempt runs, told of that failure (or, with no attempts left, the
/// strategy fails); the model is not asked again.
pub proof fn law_implement_second_tool_failure_moves_on(
    cfg: ImplementConfig,
    s: ImplementState,
    resp: GenerateContentResponse,
    t: ImplementState,
    e: Error,
)
    requires
        s.phase == ImplementPhase::AwaitRetryReply,
        implement_next(cfg, s, ImplementEvent::ModelReplied(Ok(resp))).action is ExecuteTool,
        state_view(t) == implement_next(cfg, s, ImplementEvent::ModelReplied(Ok(resp))).state,
    ensures
        s.attempt < cfg.max_retries ==> {
            let r = implement_next(cfg, t, ImplementEvent::ToolDone(Err(e)));
            &&& r.state.phase == ImplementPhase::AwaitAider
            &&& r.state.attempt == s.attempt + 1
            &&& r.action == ActionView::RunAider {
                message: retry_objective(
                    s.validation_stdout@,
                    s.validation_stderr@,
                    "Failed to retrieve documentation on retry: "@ + crate::error::error_message(e),
                ),
                auto: true,
                files: views(cfg.files@),
                validate_cmd: None,
            }
        },
        s.attempt >= cfg.max_retries ==> implement_next(
            cfg,
            t,
            ImplementEvent::ToolDone(Err(e)),
        ).action is FinishErr,
{
}

// ---------------------------------------------------------------------------
// Run: a multi-step workflow from a config file
// ---------------------------------------------------------------------------

/// One step of a run configuration.
#[derive(Debug)]
pub enum StepConfig {
    Research {
        objective: String,
        context: String,
        model: Option<String>,
        output: Option<String>,
        files: Option<Vec<String>>,
    },
    Plan { objective: String, context: String, model: Option<String> },
    Implement {
        objective: String,
        context: String,
        validate_cmd: String,
        max_retries: Option<u32>,
        model: Option<String>,
        allow_shell_commands: bool,
        pre_validate: bool,
    },
}

/// A run configuration: its steps, in order.
#[derive(Debug)]
pub struct RunConfig {
    pub steps: Vec<StepConfig>,
}

/// The validation command of an implement step that does not give one.
pub fn default_validate_cmd() -> (s: String)
    ensures
        s@ == "make test"@,
{
    crate::text::owned("make test")
}

/// The number of retries of an implement step: the given one, else 5.
pub fn step_max_retries(max_retries: Option<u32>) -> (n: u32)
    ensures
        n == match max_retries {
            Some(m) => m,
            None => 5,
        },
{
    match max_retries {
        Some(m) => m,
        None => 5,
    }
}

/// The name that the step banners give a step.
pub open spec fn step_kind_name(step: StepConfig) -> Seq<char> {
    match step {
        StepConfig::Research { .. } => "Research"@,
        StepConfig::Plan { .. } => "Plan"@,
        StepConfig::Implement { .. } => "Implement"@,
    }
}

fn step_kind_text(step: &StepConfig) -> (t: &'static str)
    ensures
        t@ == step_kind_name(*step),
{
    match step {
        StepConfig::Research { .. } => "Research",
        StepConfig::Plan { .. } => "Plan",
        StepConfig::Implement { .. } => "Implement",
    }
}

/// The banner of step `n` of `total` when it starts.
pub open spec fn started_text(step: StepConfig, n: nat, total: nat) -> Seq<char> {
    "\n--- Starting Step "@ + decimal(n) + "/"@ + decimal(total) + ": "@ + step_kind_name(step)
        + " ---"@
}

/// The banner of step `n` of `total` when it completes.
pub open spec fn completed_text(step: StepConfig, n: nat, total: nat) -> Seq<char> {
    "--- Completed Step "@ + decimal(n) + "/"@ + decimal(total) + ": "@ + step_kind_name(step)
        + " ---\n"@
}

/// The banner logged when step `n` of `total` starts.
pub fn step_started_message(step: &StepConfig, n: usize, total: usize) -> (m: String)
    ensures
        m@ == started_text(*step, n as nat, total as nat),
{
    let mut m = crate::text::owned("\n--- Starting Step ");
    m.append(crate::text::u64_to_string(n as u64).as_str());
    m.append("/");
    m.append(crate::text::u64_to_string(total as u64).as_str());
    m.append(": ");
    m.append(step_kind_text(step));
    m.append(" ---");
    m
}

/// The banner logged when step `n` of `total` completes.
pub fn step_completed_message(step: &StepConfig, n: usize, total: usize) -> (m: String)
    ensures
        m@ == completed_text(*step, n as nat, total as nat),
{
    let mut m = crate::text::owned("--- Completed Step ");
    m.append(crate::text::u64_to_string(n as u64).as_str());
    m.append("/");
    m.append(crate::text::u64_to_string(total as u64).as_str());
    m.append(": ");
    m.append(step_kind_text(step));
    m.append(" ---\n");
    m
}

/// The files of a research step: those found for its context and the extra
/// ones it names, without repeats, in ascending order.
pub fn research_step_files(found: Vec<String>, extra: Option<Vec<String>>) -> (out: Vec<String>)
    ensures
        crate::text::strictly_sorted(views(out@)),
        views(out@).to_set() == views(found@).to_set() + match extra {
            Some(e) => views(e@).to_set(),
            None => Set::empty(),
        },
{
    let mut out = found;
    match extra {
        Some(e) => {
            crate::flows::types::merge_pattern_lists(&mut out, e);
        },
        None => {
            let ghost before = out@;
            out = crate::text::sort_dedup(out);
            proof {
                assert(views(before).to_set() + Set::<Seq<char>>::empty() =~= views(
                    before,
                ).to_set());
            }
        },
    }
    out
}

/// The line logged when a run completes.
pub fn run_completed_message(prompt_file: &str) -> (m: String)
    ensures
        m@ == "Run from "@ + prompt_file@ + " completed."@,
{
    cat3("Run from ", prompt_file, " completed.")
}

/// What a run waits for.
#[derive(Debug, Clone, Copy, PartialEq, Eq, Structural)]
pub enum RunPhase {
    Start,
    AwaitResearch,
    AwaitPlan,
    /// The text of the plan generated earlier, for an implement step.
    AwaitPlanText,
    AwaitImplement,
    Done,
}

/// The state of a run between two steps.
#[derive(Debug)]
pub struct RunState {
    pub phase: RunPhase,
    /// The step running.
    pub step: usize,
    /// Where the last research step wrote its document.
    pub research_path: Option<String>,
    /// Where the last plan step wrote its plan.
    pub plan_path: Option<String>,
}

/// The next piece of work of a run.
#[derive(Debug)]
pub enum RunAction {
    /// Research, without aider, on the files of the context and the extra
    /// ones (see `research_step_files`).
    Research {
        objective: String,
        context: String,
        model: Option<String>,
        output: Option<String>,
        extra_files: Option<Vec<String>>,
    },
    /// Plan, without aider, on the files of the context, with the research
    /// document at `research_path` as context when there is one.
    Plan { objective: String, context: String, model: Option<String>, research_path: Option<String> },
    /// Read the plan generated earlier.
    ReadPlan { path: String },
    /// Implement, on the files of the context (the caller puts them in
    /// `config.files`).
    Implement { context: String, model: Option<String>, config: ImplementConfig },
    Finish(Result<(), Error>),
}

/// The outcome of the last piece of work.
#[derive(Debug)]
pub enum RunEvent {
    Begin,
    /// The path of the research document.
    ResearchDone(Result<String, Error>),
    /// The path of the plan.
    PlanDone(Result<String, Error>),
    /// The text of the plan.
    PlanRead(Result<String, Error>),
    ImplementDone(Result<(), Error>),
}

pub open spec fn run_event_fits(phase: RunPhase, ev: RunEvent) -> bool {
    match phase {
        RunPhase::Start => ev is Begin,
        RunPhase::AwaitResearch => ev is ResearchDone,
        RunPhase::AwaitPlan => ev is PlanDone,
        RunPhase::AwaitPlanText => ev is PlanRead,
        RunPhase::AwaitImplement => ev is ImplementDone,
        RunPhase::Done => false,
    }
}

/// The phase that waits for a step.
pub open spec fn phase_of(step: StepConfig) -> RunPhase {
    match step {
        StepConfig::Research { .. } => RunPhase::AwaitResearch,
        StepConfig::Plan { .. } => RunPhase::AwaitPlan,
        StepConfig::Implement { .. } => RunPhase::AwaitImplement,
    }
}

/// The state's consistency: a running step is one of the file's, and the
/// phase waits for its kind.
pub open spec fn run_wf(config: RunConfig, st: RunState) -> bool {
    &&& (st.phase != RunPhase::Start && st.phase != RunPhase::Done) ==> st.step < config.steps@.len()
    &&& (st.phase != RunPhase::Start && st.phase != RunPhase::Done && st.phase
        != RunPhase::AwaitPlanText) ==> st.phase == phase_of(config.steps@[st.step as int])
    &&& st.phase == RunPhase::AwaitPlanText ==> config.steps@[st.step as int] is Implement
}

pub open spec fn list_view(o: Option<Vec<String>>) -> Option<Seq<Seq<char>>> {
    match o {
        Some(v) => Some(views(v@)),
        None => None,
    }
}

/// The work that a step asks for: research and plan without aider, and an
/// automated implementation that goes on after each success, with the
/// step's retries (5 by default), whose objective is the plan generated
/// earlier in the run when there is one, else the step's own.
pub open spec fn step_launched(
    step: StepConfig,
    research: Option<Seq<char>>,
    plan_text: Option<Seq<char>>,
    a: RunAction,
) -> bool {
    match step {
        StepConfig::Research { objective, context, model, output, files } => a matches RunAction::Research {
            objective: o,
            context: c,
            model: m,
            output: out,
            extra_files: x,
        } && o@ == objective@ && c@ == context@ && crate::doc_retriever::note_view(m)
            == crate::doc_retriever::note_view(model) && crate::doc_retriever::note_view(out)
            == crate::doc_retriever::note_view(output) && list_view(x) == list_view(files),
        StepConfig::Plan { objective, context, model } => a matches RunAction::Plan {
            objective: o,
            context: c,
            model: m,
            research_path: rp,
        } && o@ == objective@ && c@ == context@ && crate::doc_retriever::note_view(m)
            == crate::doc_retriever::note_view(model) && crate::doc_retriever::note_view(rp)
            == research,
        StepConfig::Implement {
            objective,
            context,
            validate_cmd,
            max_retries,
            model,
            allow_shell_commands: _,
            pre_validate,
        } => a matches RunAction::Implement { context: c, model: m, config } && c@ == context@
            && crate::doc_retriever::note_view(m) == crate::doc_retriever::note_view(model)
            && config.files@.len() == 0 && config.objective@ == match plan_text {
            Some(t) => t,
            None => objective@,
        } && config.validate_cmd@ == validate_cmd@ && config.auto && config.continue_on_success
            && config.pre_validate == pre_validate && config.max_retries == match max_retries {
            Some(n) => n,
            None => 5u32,
        },
    }
}

/// The step after step `i` (or the start, for `i == 0`): step `i` runs,
/// or, after the last, the run is done. An implement step after a plan
/// first reads the plan.
pub open spec fn step_started(
    config: RunConfig,
    prompt_file: Seq<char>,
    i: int,
    research: Option<Seq<char>>,
    plan: Option<Seq<char>>,
    r0: RunState,
    r1: RunAction,
) -> (bool, Seq<Seq<char>>) {
    let n = config.steps@.len();
    if i < n {
        (
            r0.step == i && crate::doc_retriever::note_view(r0.research_path) == research
                && crate::doc_retriever::note_view(r0.plan_path) == plan && if config.steps@[i] is Implement
                && plan is Some {
                r0.phase == RunPhase::AwaitPlanText && (r1 matches RunAction::ReadPlan { path }
                    && path@ == plan->0)
            } else {
                r0.phase == phase_of(config.steps@[i]) && step_launched(
                    config.steps@[i],
                    research,
                    None,
                    r1,
                )
            },
            seq![started_text(config.steps@[i], (i + 1) as nat, n)],
        )
    } else {
        (
            r0.phase == RunPhase::Done && r1 matches RunAction::Finish(Ok(())),
            seq!["Run from "@ + prompt_file + " completed."@],
        )
    }
}

fn copy_text(o: &Option<String>) -> (r: Option<String>)
    ensures
        crate::doc_retriever::note_view(r) == crate::doc_retriever::note_view(*o),
{
    match o {
        Some(t) => Some(t.clone()),
        None => None,
    }
}

fn copy_list(o: &Option<Vec<String>>) -> (r: Option<Vec<String>>)
    ensures
        list_view(r) == list_view(*o),
{
    match o {
        Some(v) => Some(crate::text::copy_strings(v)),
        None => None,
    }
}

/// The work of step `i`, with the plan's text as an implement step's
/// objective when it is given.
fn launch(config: &RunConfig, i: usize, research: &Option<String>, plan_text: Option<String>) -> (r: (
    RunPhase,
    RunAction,
))
    requires
        i < config.steps@.len(),
    ensures
        r.0 == phase_of(config.steps@[i as int]),
        step_launched(
            config.steps@[i as int],
            crate::doc_retriever::note_view(*research),
            crate::doc_retriever::note_view(plan_text),
            r.1,
        ),
{
    match &config.steps[i] {
        StepConfig::Research { objective, context, model, output, files } => (
            RunPhase::AwaitResearch,
            RunAction::Research {
                objective: objective.clone(),
                context: context.clone(),
                model: copy_text(model),
                output: copy_text(output),
                extra_files: copy_list(files),
            },
        ),
        StepConfig::Plan { objective, context, model } => (
            RunPhase::AwaitPlan,
            RunAction::Plan {
                objective: objective.clone(),
                context: context.clone(),
                model: copy_text(model),
                research_path: copy_text(research),
            },
        ),
        StepConfig::Implement {
            objective,
            context,
            validate_cmd,
            max_retries,
            model,
            allow_shell_commands: _,
            pre_validate,
        } => {
            let objective = match plan_text {
                Some(t) => t,
                None => objective.clone(),
            };
            (
                RunPhase::AwaitImplement,
                RunAction::Implement {
                    context: context.clone(),
                    model: copy_text(model),
                    config: ImplementConfig {
                        objective,
                        files: Vec::new(),
                        validate_cmd: validate_cmd.clone(),
                        auto: true,
                        max_retries: step_max_retries(*max_retries),
                        continue_on_success: true,
                        pre_validate: *pre_validate,
                    },
                },
            )
        },
    }
}

/// Starts step `i`, or finishes the run after the last one.
fn start_step(
    config: &RunConfig,
    prompt_file: &str,
    i: usize,
    research: Option<String>,
    plan: Option<String>,
) -> (r: (RunState, RunAction, Vec<String>))
    requires
        i <= config.steps@.len(),
    ensures
        step_started(
            *config,
            prompt_file@,
            i as int,
            crate::doc_retriever::note_view(research),
            crate::doc_retriever::note_view(plan),
            r.0,
            r.1,
        ).0,
        views(r.2@) == step_started(
            *config,
            prompt_file@,
            i as int,
            crate::doc_retriever::note_view(research),
            crate::doc_retriever::note_view(plan),
            r.0,
            r.1,
        ).1,
        run_wf(*config, r.0),
{
    let n = config.steps.len();
    if i >= n {
        let m = run_completed_message(prompt_file);
        let mut logs: Vec<String> = Vec::new();
        logs.push(m);
        proof {
            assert(views(logs@) =~= seq!["Run from "@ + prompt_file@ + " completed."@]);
        }
        return (
            RunState { phase: RunPhase::Done, step: i, research_path: research, plan_path: plan },
            RunAction::Finish(Ok(())),
            logs,
        );
    }
    let m = step_started_message(&config.steps[i], i + 1, n);
    let mut logs: Vec<String> = Vec::new();
    logs.push(m);
    proof {
        assert(views(logs@) =~= seq![started_text(config.steps@[i as int], (i + 1) as nat, n as nat)]);
    }
    let is_implement = match &config.steps[i] {
        StepConfig::Implement { .. } => true,
        _ => false,
    };
    if is_implement && plan.is_some() {
        let path = match &plan {
            Some(p) => p.clone(),
            None => String::new(),
        };
        return (
            RunState { phase: RunPhase::AwaitPlanText, step: i, research_path: research, plan_path: plan },
            RunAction::ReadPlan { path },
            logs,
        );
    }
    let (phase, action) = launch(config, i, &research, None);
    (RunState { phase, step: i, research_path: research, plan_path: plan }, action, logs)
}

/// One step of a run from a file.
///
/// - The steps run in the file's order; each is announced when it starts
///   and when it completes, and the run's end is logged.
/// - A research step gives the path of its document; a later plan step
///   reads it as its research context.
/// - A plan step gives the path of its plan; a later implement step reads
///   it and takes its text as the objective.
/// - An implement step runs automated, going on after each success.
/// - A step that fails, or a plan that cannot be read, ends the run with
///   its error.
pub fn run_step(config: &RunConfig, prompt_file: &str, st: RunState, ev: RunEvent) -> (r: (
    RunState,
    RunAction,
    Vec<String>,
))
    requires
        run_event_fits(st.phase, ev),
        run_wf(*config, st),
    ensures
        run_wf(*config, r.0),
        ev is Begin ==> {
            let s = step_started(*config, prompt_file@, 0, None, None, r.0, r.1);
            s.0 && views(r.2@) == s.1
        },
        ev matches RunEvent::ResearchDone(Err(e)) ==> (r.0.phase == RunPhase::Done && (
        r.1 matches RunAction::Finish(Err(e2)) && e2@ == e@) && r.2@.len() == 0),
        ev matches RunEvent::PlanDone(Err(e)) ==> (r.0.phase == RunPhase::Done && (r.1 matches RunAction::Finish(
            Err(e2),
        ) && e2@ == e@) && r.2@.len() == 0),
        ev matches RunEvent::PlanRead(Err(e)) ==> (r.0.phase == RunPhase::Done && (r.1 matches RunAction::Finish(
            Err(e2),
        ) && e2@ == e@) && r.2@.len() == 0),
        ev matches RunEvent::ImplementDone(Err(e)) ==> (r.0.phase == RunPhase::Done && (
        r.1 matches RunAction::Finish(Err(e2)) && e2@ == e@) && r.2@.len() == 0),
        // The plan's text becomes the implement step's objective.
        ev matches RunEvent::PlanRead(Ok(text)) ==> (r.0.phase == RunPhase::AwaitImplement
            && r.0.step == st.step && step_launched(
            config.steps@[st.step as int],
            crate::doc_retriever::note_view(st.research_path),
            Some(text@),
            r.1,
        ) && r.2@.len() == 0),
        // A step that succeeded completes; the next one starts, seeing the
        // latest research document and plan.
        (ev matches RunEvent::ResearchDone(Ok(_)) || ev matches RunEvent::PlanDone(Ok(_))
            || ev matches RunEvent::ImplementDone(Ok(_))) ==> {
            let research = match ev {
                RunEvent::ResearchDone(Ok(p)) => Some(p@),
                _ => crate::doc_retriever::note_view(st.research_path),
            };
            let plan = match ev {
                RunEvent::PlanDone(Ok(p)) => Some(p@),
                _ => crate::doc_retriever::note_view(st.plan_path),
            };
            let s = step_started(*config, prompt_file@, st.step + 1, research, plan, r.0, r.1);
            &&& s.0
            &&& views(r.2@) == seq![
                completed_text(
                    config.steps@[st.step as int],
                    (st.step + 1) as nat,
                    config.steps@.len(),
                ),
            ] + s.1
        },
{
    match ev {
        RunEvent::Begin => start_step(config, prompt_file, 0, None, None),
        RunEvent::ResearchDone(Err(e)) | RunEvent::PlanDone(Err(e)) | RunEvent::PlanRead(Err(e))
        | RunEvent::ImplementDone(Err(e)) => {
            let logs: Vec<String> = Vec::new();
            (
                RunState {
                    phase: RunPhase::Done,
                    step: st.step,
                    research_path: st.research_path,
                    plan_path: st.plan_path,
                },
                RunAction::Finish(Err(e)),
                logs,
            )
        },
        RunEvent::PlanRead(Ok(text)) => {
            let (phase, action) = launch(config, st.step, &st.research_path, Some(text));
            let logs: Vec<String> = Vec::new();
            (
                RunState {
                    phase,
                    step: st.step,
                    research_path: st.research_path,
                    plan_path: st.plan_path,
                },
                action,
                logs,
            )
        },
        RunEvent::ResearchDone(Ok(p)) => complete_step(config, prompt_file, st.step, Some(p), st.plan_path),
        RunEvent::PlanDone(Ok(p)) => complete_step(config, prompt_file, st.step, st.research_path, Some(p)),
        RunEvent::ImplementDone(Ok(())) => complete_step(
            config,
            prompt_file,
            st.step,
            st.research_path,
            st.plan_path,
        ),
    }
}

fn complete_step(
    config: &RunConfig,
    prompt_file: &str,
    i: usize,
    research: Option<String>,
    plan: Option<String>,
) -> (r: (RunState, RunAction, Vec<String>))
    requires
        i < config.steps@.len(),
    ensures
        run_wf(*config, r.0),
        ({
            let s = step_started(
                *config,
                prompt_file@,
                i + 1,
                crate::doc_retriever::note_view(research),
                crate::doc_retriever::note_view(plan),
                r.0,
                r.1,
            );
            &&& s.0
            &&& views(r.2@) == seq![
                completed_text(config.steps@[i as int], (i + 1) as nat, config.steps@.len()),
            ] + s.1
        }),
{
    let n = config.steps.len();
    let m = step_completed_message(&config.steps[i], i + 1, n);
    let (st, action, rest) = start_step(config, prompt_file, i + 1, research, plan);
    let mut logs: Vec<String> = Vec::new();
    logs.push(m);
    let ghost first = views(logs@);
    let ghost rv = views(rest@);
    let ghost l0 = logs@;
    let ghost r0 = rest@;
    let mut rest = rest;
    logs.append(&mut rest);
    proof {
        assert(logs@ == l0 + r0);
        assert(views(logs@) =~= first + rv);
    }
    (st, action, logs)
}

/// Which subcommand asks for files.
#[derive(Debug, Clone, Copy, PartialEq, Eq, Structural)]
pub enum CommandKind {
    Research,
    Plan,
    Implement,
}

/// The files a command works on: a walk of some paths filtered by a context
/// (the default filter when none), or none at all.
#[derive(Debug)]
pub enum FileRequest {
    Walk { paths: Vec<String>, context: Option<String> },
    NoFiles,
}

/// The files a command asks for: a `--context` walks the current directory
/// with that context's filter; otherwise given files are walked; with neither,
/// research works on no files and plan and implement fail.
pub fn file_request(kind: CommandKind, files: Vec<String>, context: Option<String>) -> (r: Result<
    FileRequest,
    Error,
>)
    ensures
        context is Some ==> (r matches Ok(FileRequest::Walk { paths, context: c }) && views(paths@)
            == seq!["."@] && c is Some && c->0@ == context->0@),
        context is None && files@.len() > 0 ==> (r matches Ok(FileRequest::Walk { paths, context: c })
            && views(paths@) == views(files@) && c is None),
        context is None && files@.len() == 0 && kind == CommandKind::Research ==> r matches Ok(
            FileRequest::NoFiles,
        ),
        context is None && files@.len() == 0 && kind != CommandKind::Research ==> (r matches Err(e)
            && e@ == (
            ErrorKind::Config,
            "You must provide either a list of files or a --context flag."@,
        )),
{
    match context {
        Some(c) => {
            let mut paths: Vec<String> = Vec::new();
            paths.push(crate::text::owned("."));
            proof {
                assert(views(paths@) =~= seq!["."@]);
            }
            Ok(FileRequest::Walk { paths, context: Some(c) })
        },
        None => {
            if files.len() > 0 {
                Ok(FileRequest::Walk { paths: files, context: None })
            } else if kind == CommandKind::Research {
                Ok(FileRequest::NoFiles)
            } else {
                Err(
                    Error::Config(
                        crate::text::owned(
                            "You must provide either a list of files or a --context flag.",
                        ),
                    ),
                )
            }
        },
    }
}

} // verus!

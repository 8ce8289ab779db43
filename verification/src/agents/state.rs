//! The agents' data model: flows of blocks as the agents read them, and the
//! implementation plan that the planning agent writes and the implementing
//! agent works through task by task.
use vstd::prelude::*;

verus! {

/// Defines a complete, end-to-end workflow.
#[derive(Debug)]
pub struct Flow {
    pub id: String,
    pub description: String,
    pub blocks: Vec<Block>,
}

/// A single, atomic step within a Flow.
#[derive(Debug)]
pub struct Block {
    pub id: String,
    pub description: String,
    pub prompt: Prompt,
    pub annotations: Annotations,
    pub verification: Option<Verification>,
}

/// Defines how to construct a prompt for the LLM.
#[derive(Debug)]
pub struct Prompt {
    pub composition: Vec<PromptPart>,
}

/// A component of a prompt.
#[derive(Debug)]
pub enum PromptPart {
    StaticText { content: String },
    FileContents { scope: FileScope, scope_from_prompt: bool, prefix: String },
    PromptFileField { field: String, prefix: String },
    PreviousOutput { block_id: String, prefix: String },
}

/// Modifies the execution behavior of a block.
#[derive(Debug)]
pub struct Annotations {
    pub history: History,
    pub tools: Vec<String>,
    pub structured_output_schema: Option<String>,
}

impl Default for Annotations {
    fn default() -> (a: Self)
        ensures
            a.history == History::Mode(HistoryMode::Full),
            a.tools@.len() == 0,
            a.structured_output_schema is None,
    {
        Annotations { history: History::default(), tools: Vec::new(), structured_output_schema: None }
    }
}

/// Defines how to validate a block's output and whether to loop on failure.
#[derive(Debug)]
pub struct Verification {
    pub max_retries: u32,
    pub strategy: VerificationStrategy,
}

/// The number of retries of a verification that does not give one.
pub fn default_max_retries() -> (n: u32)
    ensures
        n == 5,
{
    5
}

#[derive(Debug)]
pub enum VerificationStrategy {
    Command { command: String, expected_exit_code: i32, on_failure_prompt: Prompt },
    /// `success_condition` is, e.g., "function_call:verification_passed".
    Prompt { prompt: Prompt, success_condition: String },
}

/// File include/exclude rules: glob patterns.
#[derive(Debug, Clone, PartialEq)]
pub struct FileScope {
    pub includes: Vec<String>,
    pub exclude: Vec<String>,
}

impl Default for FileScope {
    fn default() -> (s: Self)
        ensures
            s.includes@.len() == 0,
            s.exclude@.len() == 0,
    {
        FileScope { includes: Vec::new(), exclude: Vec::new() }
    }
}

/// How much of the conversation history to include.
#[derive(Debug, PartialEq, Eq, Structural)]
pub enum History {
    Mode(HistoryMode),
    LastN { last_n: u32 },
}

#[derive(Debug, PartialEq, Eq, Structural)]
pub enum HistoryMode {
    Full,
    Off,
}

impl Default for History {
    fn default() -> (h: Self)
        ensures
            h == History::Mode(HistoryMode::Full),
    {
        History::Mode(HistoryMode::Full)
    }
}

// ---------------------------------------------------------------------------
// Implementation plans
// ---------------------------------------------------------------------------

/// What the planning agent is asked for, read from a TOML prompt file.
#[derive(Debug)]
pub struct PlanPrompt {
    /// A high-level description of the goal.
    pub objective: String,
    pub file_scoping: FileScope,
    /// A detailed description of coding standards.
    pub coding_conventions: String,
    pub formatter_command: Option<String>,
    pub validation_commands: Vec<ValidationStep>,
    /// Whether to look up current libraries with Google Search first.
    pub use_google_search_for_deps: bool,
}

/// The primary state file for a workflow.
#[derive(Debug)]
pub struct ImplementationPlan {
    pub original_prompt: PlanPrompt,
    pub tasks: Vec<Task>,
}

/// A single, executable task within a plan.
#[derive(Debug)]
pub struct Task {
    pub description: String,
    pub file_scoping: FileScope,
    pub validation_steps: Vec<ValidationStep>,
    pub status: TaskStatus,
    pub attempts: u32,
    /// Set on success.
    pub result: Option<TaskResult>,
}

/// The outcome of a successfully completed task.
#[derive(Debug)]
pub struct TaskResult {
    pub success: bool,
    /// The agent's explanation of the change.
    pub agent_tips: String,
    pub modified_files: Vec<String>,
}

#[derive(Debug, Clone, Copy, PartialEq, Eq, Structural)]
pub enum TaskStatus {
    Pending,
    Success,
    Failed,
}

/// A command to be run for validation, and the exit code that passes.
#[derive(Debug)]
pub struct ValidationStep {
    pub command: String,
    pub expected_exit_code: i32,
}

impl FileScope {
    pub fn copy(&self) -> (r: FileScope)
        ensures
            crate::text::views(r.includes@) == crate::text::views(self.includes@),
            crate::text::views(r.exclude@) == crate::text::views(self.exclude@),
    {
        FileScope {
            includes: crate::text::copy_strings(&self.includes),
            exclude: crate::text::copy_strings(&self.exclude),
        }
    }
}

} // verus!

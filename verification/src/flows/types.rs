//! The data model of declarative flows: a flow is a list of blocks, a block
//! builds a prompt from parts, runs it under annotations and may verify its
//! output and loop over the output of an earlier block.
use crate::text::{sort_dedup, strictly_sorted, views};
use vstd::prelude::*;

verus! {

/// Defines a complete, end-to-end workflow.
/// Parsed from a `flows/*.yml` file.
#[derive(Debug)]
pub struct Flow {
    pub id: String,
    pub description: String,
    pub model: Option<String>,
    pub blocks: Vec<Block>,
}

/// A single, atomic step within a Flow.
#[derive(Debug)]
pub struct Block {
    pub id: String,
    pub description: String,
    pub prompt: Prompt,
    pub annotations: Annotations,
    pub verification: Option<Verification>,
    pub looping: Option<LoopingStrategy>,
}

/// Defines how to construct a prompt for the LLM.
#[derive(Debug)]
pub struct Prompt {
    pub composition: Vec<PromptPart>,
}

/// A component of a prompt.
#[derive(Debug)]
pub enum PromptPart {
    StaticText { content: String, hide_in_stdout: bool },
    /// Names of scope files in `ctx/`; "prompt" names the scope of the user's prompt file.
    FileContents { scopes: Vec<String>, prefix: String, hide_in_stdout: bool },
    FileList { scopes: Vec<String>, prefix: String, hide_in_stdout: bool },
    PromptFileField { field: String, prefix: String, hide_in_stdout: bool },
    PreviousOutput { block_id: String, prefix: String, hide_in_stdout: bool },
}

impl PromptPart {
    /// Whether the part's text is left out of what is shown on stdout.
    pub open spec fn hidden(self) -> bool {
        match self {
            PromptPart::StaticText { hide_in_stdout, .. } => hide_in_stdout,
            PromptPart::FileContents { hide_in_stdout, .. } => hide_in_stdout,
            PromptPart::FileList { hide_in_stdout, .. } => hide_in_stdout,
            PromptPart::PromptFileField { hide_in_stdout, .. } => hide_in_stdout,
            PromptPart::PreviousOutput { hide_in_stdout, .. } => hide_in_stdout,
        }
    }

    pub fn hide_in_stdout(&self) -> (b: bool)
        ensures
            b == self.hidden(),
    {
        match self {
            PromptPart::StaticText { hide_in_stdout, .. } => *hide_in_stdout,
            PromptPart::FileContents { hide_in_stdout, .. } => *hide_in_stdout,
            PromptPart::FileList { hide_in_stdout, .. } => *hide_in_stdout,
            PromptPart::PromptFileField { hide_in_stdout, .. } => *hide_in_stdout,
            PromptPart::PreviousOutput { hide_in_stdout, .. } => *hide_in_stdout,
        }
    }
}

/// Modifies the execution behavior of a block.
#[derive(Debug)]
pub struct Annotations {
    pub model: Option<String>,
    pub history: History,
    pub tools: Vec<String>,
    pub structured_output_schema: Option<String>,
    pub save_output_to: Option<String>,
    pub commit_on_success: bool,
}

impl Default for Annotations {
    fn default() -> (a: Self)
        ensures
            a.model is None,
            a.history == History::Mode(HistoryMode::Full),
            a.tools@.len() == 0,
            a.structured_output_schema is None,
            a.save_output_to is None,
            !a.commit_on_success,
    {
        Annotations {
            model: None,
            history: History::default(),
            tools: Vec::new(),
            structured_output_schema: None,
            save_output_to: None,
            commit_on_success: false,
        }
    }
}

/// Defines how to validate a block's output and whether to loop on failure.
#[derive(Debug)]
pub struct Verification {
    pub max_retries: u32,
    pub strategy: VerificationStrategy,
}

/// The number of retries of a verification that does not give one.
pub fn default_max_retries() -> (n: u32)
    ensures
        n == 5,
{
    5
}

#[derive(Debug)]
pub enum VerificationStrategy {
    Command { command: String, expected_exit_code: i32, on_failure_prompt: Prompt },
    /// `success_condition` is, e.g., "function_call:verification_passed".
    Prompt { prompt: Prompt, success_condition: String },
}

/// Defines which files are in scope: glob patterns to take and to leave out.
#[derive(Debug, Clone, PartialEq)]
pub struct FileScope {
    pub description: Option<String>,
    /// Glob patterns.
    pub includes: Vec<String>,
    /// Glob patterns.
    pub exclude: Vec<String>,
}

impl Default for FileScope {
    fn default() -> (s: Self)
        ensures
            s.description is None,
            s.includes@.len() == 0,
            s.exclude@.len() == 0,
    {
        FileScope { description: None, includes: Vec::new(), exclude: Vec::new() }
    }
}

/// The patterns of a merged list: the distinct patterns of both, in ascending order.
pub open spec fn merged_patterns(a: Seq<String>, b: Seq<String>, out: Seq<String>) -> bool {
    &&& strictly_sorted(views(out))
    &&& views(out).to_set() == views(a).to_set() + views(b).to_set()
}

proof fn lemma_views_concat(a: Seq<String>, b: Seq<String>)
    ensures
        views(a + b).to_set() == views(a).to_set() + views(b).to_set(),
{
    assert(views(a + b) =~= views(a) + views(b));
    assert forall|e: Seq<char>| (views(a) + views(b)).contains(e) <==> (views(a).contains(e)
        || views(b).contains(e)) by {
        if (views(a) + views(b)).contains(e) {
            let k = choose|k: int| 0 <= k < (views(a) + views(b)).len() && (views(a) + views(
                b,
            ))[k] == e;
            if k < views(a).len() {
                assert(views(a)[k] == e);
            } else {
                assert(views(b)[k - views(a).len()] == e);
            }
        }
        if views(a).contains(e) {
            let k = choose|k: int| 0 <= k < views(a).len() && views(a)[k] == e;
            assert((views(a) + views(b))[k] == e);
        }
        if views(b).contains(e) {
            let k = choose|k: int| 0 <= k < views(b).len() && views(b)[k] == e;
            assert((views(a) + views(b))[k + views(a).len()] == e);
        }
    }
    assert(views(a + b).to_set() =~= views(a).to_set() + views(b).to_set());
}

/// `a` extended by `b`, sorted and deduplicated.
pub fn merge_pattern_lists(a: &mut Vec<String>, b: Vec<String>)
    ensures
        merged_patterns(old(a)@, b@, final(a)@),
{
    let mut all: Vec<String> = Vec::new();
    std::mem::swap(&mut all, a);
    let mut b = b;
    let ghost a0 = all@;
    let ghost b0 = b@;
    all.append(&mut b);
    proof {
        lemma_views_concat(a0, b0);
    }
    *a = sort_dedup(all);
}

/// Merging is order-blind: merging `b` into `a` gives the same patterns, in
/// the same order, as merging `a` into `b`.
pub proof fn law_merge_order_irrelevant(a: Seq<String>, b: Seq<String>, ab: Seq<String>, ba: Seq<String>)
    requires
        merged_patterns(a, b, ab),
        merged_patterns(b, a, ba),
    ensures
        views(ab) == views(ba),
{
    assert(views(a).to_set() + views(b).to_set() =~= views(b).to_set() + views(a).to_set());
    crate::text::law_sorted_listing_unique(views(ab), views(ba));
}

/// Merging a list into itself, or again into a merged list, adds nothing:
/// the patterns are those already there.
pub proof fn law_merge_idempotent(a: Seq<String>, aa: Seq<String>)
    requires
        strictly_sorted(views(a)),
        merged_patterns(a, a, aa),
    ensures
        views(aa) == views(a),
{
    assert(views(a).to_set() + views(a).to_set() =~= views(a).to_set());
    crate::text::law_sorted_listing_unique(views(aa), views(a));
}

impl FileScope {
    /// Merges another FileScope into this one, deduplicating patterns.
    /// The description from `other` is ignored.
    pub fn merge(&mut self, other: Self)
        ensures
            merged_patterns(old(self).includes@, other.includes@, final(self).includes@),
            merged_patterns(old(self).exclude@, other.exclude@, final(self).exclude@),
            final(self).description == old(self).description,
    {
        let FileScope { description: _, includes, exclude } = other;
        merge_pattern_lists(&mut self.includes, includes);
        merge_pattern_lists(&mut self.exclude, exclude);
    }
}

/// How much of the conversation history to include.
#[derive(Debug, PartialEq, Eq, Structural)]
pub enum History {
    Mode(HistoryMode),
    LastN { last_n: u32 },
}

#[derive(Debug, PartialEq, Eq, Structural)]
pub enum HistoryMode {
    Full,
    Off,
}

impl Default for History {
    fn default() -> (h: Self)
        ensures
            h == History::Mode(HistoryMode::Full),
    {
        History::Mode(HistoryMode::Full)
    }
}

// The following structs are used for structured task generation and execution.
/// A list of tasks, typically the output of a planning block.
#[derive(Debug, Clone)]
pub struct TaskList {
    pub tasks: Vec<Task>,
}

/// A high-level task description.
#[derive(Debug, Clone)]
pub struct Task {
    pub id: String,
    pub description: String,
}

/// A detailed, just-in-time plan for implementing a specific task or batch of tasks.
/// This is generated by a sub-prompt right before execution.
#[derive(Debug, Clone)]
pub struct DetailedTaskPlan {
    pub task_ids: Vec<String>,
    pub plan_description: String,
    pub file_scopes: Vec<FileScope>,
    pub validation_steps: Vec<ValidationStep>,
}

/// A single command to be run for validation.
#[derive(Debug, Clone)]
pub struct ValidationStep {
    pub command: String,
    pub expected_exit_code: i32,
}

/// Defines looping behavior for a block.
#[derive(Debug, Clone)]
pub struct LoopingStrategy {
    /// The ID of the block whose output (which should be a list, e.g., TaskList) to iterate over.
    pub over: String,
    /// The name to expose each item of the list as in the `block_outputs` for this block's prompt composition.
    pub as_key: String,
    /// If true, clears the conversation history at the start of each iteration to keep context focused.
    pub clear_history_on_iteration: bool,
    /// If true, the files changed by an iteration are committed when it succeeds.
    pub commit_on_iteration_success: bool,
}

} // verus!

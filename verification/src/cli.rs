//! The command line: one subcommand per strategy, and the model to use.
use vstd::prelude::*;

verus! {

/// The parsed command line.
#[derive(Debug)]
pub struct Cli {
    pub command: Commands,
    /// The model to use in place of each agent's own.
    pub model: Option<String>,
}

/// The subcommands.
#[derive(Debug)]
pub enum Commands {
    /// Research a topic and write up what was found.
    Research {
        objective: String,
        files: Vec<String>,
        context: Option<String>,
        output: Option<String>,
    },
    /// Break an objective into a plan.
    Plan { objective: String, files: Vec<String>, context: Option<String> },
    /// Work on code until validation passes.
    Implement {
        objective: String,
        files: Vec<String>,
        context: Option<String>,
        validate_cmd: String,
        auto: bool,
        max_retries: u32,
        allow_shell_commands: bool,
        pre_validate: bool,
    },
    /// Run the steps of a workflow file.
    Run { prompt_file: String },
}

} // verus!

use aide_rs::orchestrator::{document_writes, plan_review_files, research_review_files};
use aide_rs::orchestrator::{run_step, RunAction, RunConfig, RunEvent, RunPhase, RunState, StepConfig};
use aide_rs::agents::aider::AiderRunResult;
use aide_rs::error::Error;
use aide_rs::gemini_types::{Candidate, Content, ContentPart, FunctionCall, GenerateContentResponse, Role};
use aide_rs::json::{json_object, JsonValue};
use aide_rs::orchestrator::{
    file_request, implement_start, implement_step, shell_plan, CommandKind, CommandResult,
    FileRequest, ImplementAction, ImplementConfig, ImplementEvent, ImplementPhase, ShellPlan,
};

fn cfg(auto: bool, continue_on_success: bool, pre_validate: bool) -> ImplementConfig {
    ImplementConfig {
        objective: "a test objective".to_string(),
        files: vec!["src/main.rs".to_string()],
        validate_cmd: "true".to_string(),
        auto,
        max_retries: 5,
        continue_on_success,
        pre_validate,
    }
}

fn aider(stdout: &str) -> ImplementEvent {
    ImplementEvent::AiderDone(Ok(AiderRunResult { success: true, stdout: stdout.to_string(), stderr: String::new() }))
}

fn validated(ok: bool, stdout: &str, stderr: &str) -> ImplementEvent {
    ImplementEvent::ValidationDone(CommandResult {
        success: ok,
        exit_code: if ok { 0 } else { 1 },
        stdout: stdout.to_string(),
        stderr: stderr.to_string(),
    })
}

#[test]
fn run_loop_continues_after_success_until_aider_reports_no_changes() {
    let c = cfg(true, true, false);
    let (st, a, logs) = implement_step(&c, implement_start(), ImplementEvent::Begin);
    assert_eq!(logs, vec!["Starting implement strategy.".to_string()]);
    match &a {
        ImplementAction::RunAider { message, auto, files, validate_cmd } => {
            assert!(*auto);
            assert_eq!(files, &vec!["src/main.rs".to_string()]);
            assert!(validate_cmd.is_none());
            assert!(message.contains("'a test objective'"));
            assert!(message.contains("I will run `true` to validate them."));
        }
        other => panic!("{:?}", other),
    }
    let (st, a, logs) = implement_step(&c, st, aider("first run, making changes"));
    assert!(matches!(a, ImplementAction::RunValidation { ref command } if command == "true"));
    assert_eq!(logs, vec!["Aider succeeded on attempt 1/5.".to_string()]);
    let (st, a, logs) = implement_step(&c, st, validated(true, "", ""));
    assert!(matches!(a, ImplementAction::Commit { ref message } if message == "Implement: a test objective"));
    assert_eq!(logs, vec!["Committing changes with message: Implement: a test objective".to_string()]);
    let (st, a, logs) = implement_step(&c, st, ImplementEvent::Committed(Ok(())));
    assert_eq!(logs, vec!["Validation passed on attempt 1/5. Continuing with plan.".to_string()]);
    match &a {
        ImplementAction::RunAider { message, .. } => assert_eq!(
            message,
            "The previous changes were successful. Please continue implementing the plan."
        ),
        other => panic!("{:?}", other),
    }
    let (st, _, _) = implement_step(&c, st, aider("second run, no changes needed\nNo changes were applied.\n"));
    let (st, _, _) = implement_step(&c, st, validated(true, "", ""));
    let (st, a, logs) = implement_step(&c, st, ImplementEvent::Committed(Ok(())));
    assert!(logs[0].contains("Aider reported no changes on attempt 2/5. Assuming completion."));
    assert_eq!(logs[1], "Implement strategy completed successfully.");
    assert!(matches!(a, ImplementAction::Finish(Ok(()))));
    assert_eq!(st.phase, ImplementPhase::Done);
}

#[test]
fn a_failed_validation_asks_for_documentation_and_retries_with_it() {
    let c = cfg(true, false, false);
    let (st, _, _) = implement_step(&c, implement_start(), ImplementEvent::Begin);
    let (st, _, _) = implement_step(&c, st, aider("changed"));
    let (st, a, logs) = implement_step(&c, st, validated(false, "out", "error[E0425]"));
    assert_eq!(logs, vec!["Validation failed on attempt 1/5. Analyzing failure...".to_string()]);
    match &a {
        ImplementAction::AskModel { contents, tools } => {
            assert_eq!(tools.len(), 1);
            assert_eq!(tools[0].name, "doc_retriever");
            let t = contents[0].parts[0].text.as_deref().unwrap();
            assert!(t.contains("doc_retriever"));
            assert!(t.contains("error[E0425]"));
        }
        other => panic!("{:?}", other),
    }
    let call = FunctionCall {
        name: "doc_retriever".to_string(),
        arguments: json_object(vec![("crate_name".to_string(), JsonValue::String("test_crate".to_string()))]),
    };
    let resp = GenerateContentResponse {
        candidates: Some(vec![Candidate {
            content: Content {
                role: Role::Model,
                parts: vec![ContentPart { text: None, function_call: Some(call), function_response: None }],
            },
            finish_reason: Some("TOOL_USE".to_string()),
        }]),
    };
    let (st, a, _) = implement_step(&c, st, ImplementEvent::ModelReplied(Ok(resp)));
    assert!(matches!(a, ImplementAction::ExecuteTool { ref call } if call.name == "doc_retriever"));
    let docs = JsonValue::String("pub fn old_function()".to_string());
    let (st, a, _) = implement_step(&c, st, ImplementEvent::ToolDone(Ok(docs)));
    match &a {
        ImplementAction::RunAider { message, .. } => {
            assert!(message.contains("\"pub fn old_function()\""));
            assert!(message.contains("Please use this information to fix the code."));
        }
        other => panic!("{:?}", other),
    }
    assert_eq!(st.attempt, 2);
    let (_, _, logs) = implement_step(&c, st, aider("ok"));
    assert_eq!(logs, vec!["Aider succeeded on attempt 2/5.".to_string()]);
}

#[test]
fn the_interactive_mode_runs_aider_once() {
    let c = cfg(false, false, false);
    let (st, a, _) = implement_step(&c, implement_start(), ImplementEvent::Begin);
    assert!(matches!(a, ImplementAction::RunAider { auto: false, .. }));
    let (_, a, logs) = implement_step(&c, st, aider(""));
    assert!(matches!(a, ImplementAction::Finish(Ok(()))));
    assert_eq!(logs, vec!["Implement strategy completed (interactive).".to_string()]);
}

#[test]
fn a_failed_pre_validation_stops_the_strategy() {
    let c = cfg(true, false, true);
    let (st, a, _) = implement_step(&c, implement_start(), ImplementEvent::Begin);
    assert!(matches!(a, ImplementAction::RunValidation { .. }));
    let (_, a, _) = implement_step(&c, st, validated(false, "", ""));
    match a {
        ImplementAction::Finish(Err(Error::VerificationFailed(m))) => assert_eq!(
            m,
            "Pre-validation command failed. Please fix your tests before running with --pre-validate."
        ),
        other => panic!("{:?}", other),
    }
}

#[test]
fn a_failed_aider_run_is_debugged_and_retried() {
    let c = cfg(true, false, false);
    let (st, _, _) = implement_step(&c, implement_start(), ImplementEvent::Begin);
    let ev = ImplementEvent::AiderDone(Ok(AiderRunResult {
        success: false,
        stdout: "first run, failing".to_string(),
        stderr: "boom".to_string(),
    }));
    let (st, a, logs) = implement_step(&c, st, ev);
    assert_eq!(logs, vec!["Aider failed on attempt 1/5. Analyzing failure...".to_string()]);
    match &a {
        ImplementAction::AskModel { contents, .. } => {
            let t = contents[0].parts[0].text.as_deref().unwrap();
            assert!(t.contains("first run, failing"));
            assert!(t.contains("boom"));
        }
        other => panic!("{:?}", other),
    }
    let empty = GenerateContentResponse { candidates: Some(vec![]) };
    let (st, a, _) = implement_step(&c, st, ImplementEvent::ModelReplied(Ok(empty)));
    assert!(matches!(a, ImplementAction::RunAider { auto: true, .. }));
    assert_eq!(st.attempt, 2);
    let (st, _, logs) = implement_step(&c, st, aider("second run, succeeding"));
    assert_eq!(logs, vec!["Aider succeeded on attempt 2/5.".to_string()]);
    let (st, _, _) = implement_step(&c, st, validated(true, "", ""));
    let (_, a, _) = implement_step(&c, st, ImplementEvent::Committed(Ok(())));
    assert!(matches!(a, ImplementAction::Finish(Ok(()))));
}

#[test]
fn a_failed_commit_ends_the_strategy() {
    let c = cfg(true, false, false);
    let (st, _, _) = implement_step(&c, implement_start(), ImplementEvent::Begin);
    let (st, _, _) = implement_step(&c, st, aider("changed"));
    let (st, _, _) = implement_step(&c, st, validated(true, "", ""));
    let e = Error::Git("no repository".to_string());
    match implement_step(&c, st, ImplementEvent::Committed(Err(e))).1 {
        ImplementAction::Finish(Err(Error::Git(m))) => assert_eq!(m, "no repository"),
        other => panic!("{:?}", other),
    }
}

#[test]
fn retries_run_out() {
    let mut c = cfg(true, false, false);
    c.max_retries = 1;
    let (st, _, _) = implement_step(&c, implement_start(), ImplementEvent::Begin);
    let (st, _, _) = implement_step(&c, st, aider(""));
    let (st, _, _) = implement_step(&c, st, validated(false, "", "e"));
    let empty = GenerateContentResponse { candidates: Some(vec![]) };
    let (_, a, logs) = implement_step(&c, st, ImplementEvent::ModelReplied(Ok(empty)));
    match a {
        ImplementAction::Finish(Err(Error::ToolFailed(m))) => {
            assert_eq!(m, "Aider failed to complete the objective after maximum retries.")
        }
        other => panic!("{:?}", other),
    }
    assert_eq!(logs, vec!["Implement strategy failed after max retries.".to_string()]);
}

#[test]
fn commands_split_into_program_and_arguments() {
    match shell_plan("cargo  test --all") {
        ShellPlan::Run { program, args } => {
            assert_eq!(program, "cargo");
            assert_eq!(args, vec!["test".to_string(), "--all".to_string()]);
        }
        other => panic!("{:?}", other),
    }
    match shell_plan("   ") {
        ShellPlan::Done(r) => {
            assert!(!r.success);
            assert_eq!(r.exit_code, -1);
            assert_eq!(r.stderr, "No command provided.");
        }
        other => panic!("{:?}", other),
    }
}

#[test]
fn commands_need_files_or_a_context() {
    match file_request(CommandKind::Plan, vec![], Some("all".to_string())).unwrap() {
        FileRequest::Walk { paths, context } => {
            assert_eq!(paths, vec![".".to_string()]);
            assert_eq!(context.as_deref(), Some("all"));
        }
        other => panic!("{:?}", other),
    }
    assert!(matches!(file_request(CommandKind::Research, vec![], None).unwrap(), FileRequest::NoFiles));
    match file_request(CommandKind::Implement, vec![], None) {
        Err(Error::Config(m)) => {
            assert_eq!(m, "You must provide either a list of files or a --context flag.")
        }
        other => panic!("{:?}", other),
    }
}

fn run_config() -> RunConfig {
    RunConfig {
        steps: vec![
            StepConfig::Research {
                objective: "r".to_string(),
                context: "all".to_string(),
                model: None,
                output: None,
                files: None,
            },
            StepConfig::Plan { objective: "p".to_string(), context: "all".to_string(), model: None },
            StepConfig::Implement {
                objective: "i".to_string(),
                context: "all".to_string(),
                validate_cmd: "true".to_string(),
                max_retries: None,
                model: Some("m".to_string()),
                allow_shell_commands: false,
                pre_validate: false,
            },
        ],
    }
}

#[test]
fn a_run_file_runs_its_steps_in_order() {
    let c = run_config();
    let st = RunState { phase: RunPhase::Start, step: 0, research_path: None, plan_path: None };
    let (st, a, logs) = run_step(&c, "run.yml", st, RunEvent::Begin);
    assert_eq!(logs, vec!["\n--- Starting Step 1/3: Research ---".to_string()]);
    assert!(matches!(a, RunAction::Research { ref objective, .. } if objective == "r"));
    let (st, a, logs) = run_step(&c, "run.yml", st, RunEvent::ResearchDone(Ok("research/research.md".to_string())));
    assert_eq!(
        logs,
        vec![
            "--- Completed Step 1/3: Research ---\n".to_string(),
            "\n--- Starting Step 2/3: Plan ---".to_string()
        ]
    );
    match &a {
        RunAction::Plan { research_path, .. } => {
            assert_eq!(research_path.as_deref(), Some("research/research.md"))
        }
        other => panic!("{:?}", other),
    }
    let (st, a, _) = run_step(&c, "run.yml", st, RunEvent::PlanDone(Ok("plans/plan.md".to_string())));
    assert!(matches!(a, RunAction::ReadPlan { ref path } if path == "plans/plan.md"));
    let (st, a, _) = run_step(&c, "run.yml", st, RunEvent::PlanRead(Ok("1. Do the thing.".to_string())));
    match &a {
        RunAction::Implement { config, model, .. } => {
            assert!(config.auto && config.continue_on_success);
            assert_eq!(config.max_retries, 5);
            assert_eq!(config.objective, "1. Do the thing.");
            assert_eq!(model.as_deref(), Some("m"));
        }
        other => panic!("{:?}", other),
    }
    let (st, a, logs) = run_step(&c, "run.yml", st, RunEvent::ImplementDone(Ok(())));
    assert_eq!(logs[1], "Run from run.yml completed.");
    assert!(matches!(a, RunAction::Finish(Ok(()))));
    assert_eq!(st.phase, RunPhase::Done);
}

#[test]
fn a_failed_step_ends_the_run() {
    let c = run_config();
    let st = RunState { phase: RunPhase::Start, step: 0, research_path: None, plan_path: None };
    let (st, _, _) = run_step(&c, "run.yml", st, RunEvent::Begin);
    let (st, a, logs) = run_step(&c, "run.yml", st, RunEvent::ResearchDone(Err(Error::ApiError("x".to_string()))));
    assert!(logs.is_empty());
    assert!(matches!(a, RunAction::Finish(Err(Error::ApiError(_)))));
    assert_eq!(st.phase, RunPhase::Done);
}

#[test]
fn a_plan_is_written_twice_and_reviewed_with_the_files() {
    let w = document_writes("/s/1", "plan.md", "plans/plan.md", "1. This is the plan.".to_string());
    assert_eq!(
        w,
        vec![
            ("/s/1/plan.md".to_string(), "1. This is the plan.".to_string()),
            ("plans/plan.md".to_string(), "1. This is the plan.".to_string()),
        ]
    );
    assert_eq!(
        plan_review_files(vec!["src/main.rs".to_string()], "plans/plan.md"),
        vec!["src/main.rs".to_string(), "plans/plan.md".to_string()]
    );
    assert_eq!(research_review_files("research/r.md"), vec!["research/r.md".to_string()]);
}

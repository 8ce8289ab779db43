use aide_rs::agents::aider::aider_outcome;
use aide_rs::agents::impl_agent::{
    create_file_tools, create_user_prompt, impl_start, impl_step, needs_summary, process_response,
    step_verdict, ImplAction, ImplAgent, ImplEvent, ImplPhase,
};
use aide_rs::agents::plan_agent::{
    create_description_generation_user_prompt, create_task_detailing_user_prompt, plan_result,
    plan_start, plan_step, process_description_response, PlanAction, PlanEvent, PlanPhase,
};
use aide_rs::agents::state::{
    FileScope, ImplementationPlan, PlanPrompt, Task, TaskStatus, ValidationStep,
};
use aide_rs::error::Error;
use aide_rs::gemini_types::{Candidate, Content, ContentPart, FunctionCall, GenerateContentResponse, Role};
use aide_rs::json::{json_object, JsonValue};

fn step(cmd: &str) -> ValidationStep {
    ValidationStep { command: cmd.to_string(), expected_exit_code: 0 }
}

fn prompt(search: bool) -> PlanPrompt {
    PlanPrompt {
        objective: "Build it".to_string(),
        file_scoping: FileScope { includes: vec!["**/*.rs".to_string()], exclude: vec![] },
        coding_conventions: "Be nice".to_string(),
        formatter_command: None,
        validation_commands: vec![step("cargo check")],
        use_google_search_for_deps: search,
    }
}

fn task(d: &str, status: TaskStatus) -> Task {
    Task {
        description: d.to_string(),
        file_scoping: FileScope::default(),
        validation_steps: vec![step("cargo test")],
        status,
        attempts: 0,
        result: None,
    }
}

fn reply(parts: Vec<ContentPart>) -> GenerateContentResponse {
    GenerateContentResponse {
        candidates: Some(vec![Candidate { content: Content { role: Role::Model, parts }, finish_reason: None }]),
    }
}

fn call(name: &str, args: JsonValue) -> ContentPart {
    ContentPart { text: None, function_call: Some(FunctionCall { name: name.to_string(), arguments: args }), function_response: None }
}

#[test]
fn the_user_prompt_shows_the_plan_the_task_and_the_files() {
    let plan = ImplementationPlan {
        original_prompt: prompt(false),
        tasks: vec![task("First", TaskStatus::Success), task("Second", TaskStatus::Pending), task("Third", TaskStatus::Failed)],
    };
    let files = vec![("src/a.rs".to_string(), "fn a() {}".to_string())];
    let p = create_user_prompt(1, &plan, &files, &Some("boom".to_string()));
    let expected = "\n**Overall Plan:**\n   [✓] 1. First\n>> [ ] 2. Second\n   [✗] 3. Third\n\n**Current Task:**\nSecond\n\n**Coding Conventions:**\nBe nice\n\n**Project File Context:**\n--- FILE: src/a.rs ---\n```\nfn a() {}\n```\n\n**Correction Context:**\nThe last attempt failed validation. The error was:\n```\nboom\n```\nPlease analyze the error, fix the code, and explain the fix.\n\nImplement the current task by calling the `edit_file` or `create_file` functions.\n";
    assert_eq!(p, expected);
    assert_eq!(create_file_tools().len(), 2);
}

#[test]
fn answers_give_the_file_calls_and_the_last_text() {
    let r = reply(vec![
        ContentPart::new_text("first".to_string()),
        call("edit_file", json_object(vec![])),
        call("doc_retriever", json_object(vec![])),
        call("create_file", json_object(vec![])),
        ContentPart::new_text("tips".to_string()),
    ]);
    let (tips, calls) = process_response(&r).unwrap();
    assert_eq!(tips, "tips");
    let names: Vec<&str> = calls.iter().map(|c| c.name.as_str()).collect();
    assert_eq!(names, vec!["edit_file", "create_file"]);
    match process_response(&GenerateContentResponse { candidates: None }) {
        Err(Error::Config(m)) => assert_eq!(m, "No candidates in response"),
        other => panic!("{:?}", other),
    }
}

#[test]
fn validation_steps_report_their_failure() {
    let s = step("make test");
    assert_eq!(step_verdict(&s, &Ok((0, "ok".to_string()))), None);
    assert_eq!(
        step_verdict(&s, &Ok((2, "STDOUT:\nx\nSTDERR:\n".to_string()))).unwrap(),
        "Validation failed for command `make test`. Expected exit code 0, but got 2.\nOutput:\nSTDOUT:\nx\nSTDERR:\n"
    );
    assert_eq!(
        step_verdict(&s, &Err(Error::Io("gone".to_string()))).unwrap(),
        "Failed to execute validation command `make test`: I/O error: gone"
    );
    assert!(!needs_summary(&"x".repeat(1000)));
    assert!(needs_summary(&"x".repeat(1001)));
    assert!(needs_summary(&"é".repeat(501)));
}

#[test]
fn the_implementing_agent_works_through_pending_tasks() {
    let plan = ImplementationPlan {
        original_prompt: prompt(false),
        tasks: vec![task("Done already", TaskStatus::Success), task("Todo", TaskStatus::Pending)],
    };
    let agent = ImplAgent::new(2, true);
    let (st, a) = impl_step(&agent, impl_start(plan), ImplEvent::Begin);
    assert!(matches!(a, ImplAction::RunCommand { ref command } if command == "cargo check"));
    // The initial validation fails: its error goes to the first pending task.
    let (st, a) = impl_step(&agent, st, ImplEvent::CommandDone(Ok((1, "bad".to_string()))));
    assert!(matches!(a, ImplAction::ReadFiles { .. }));
    assert_eq!(st.task, 1);
    assert!(st.last_error.as_deref().unwrap().starts_with("The project failed initial validation"));
    let (st, a) = impl_step(&agent, st, ImplEvent::FilesRead(Ok(vec![])));
    assert!(matches!(a, ImplAction::AskModel { .. }));
    let r = reply(vec![call("edit_file", json_object(vec![])), ContentPart::new_text("did it".to_string())]);
    let (st, a) = impl_step(&agent, st, ImplEvent::Reply(Ok(r)));
    assert!(matches!(a, ImplAction::ApplyEdits { ref calls } if calls.len() == 1));
    let (st, a) = impl_step(&agent, st, ImplEvent::EditsApplied(Ok(vec!["src/a.rs".to_string()])));
    assert!(matches!(a, ImplAction::RunCommand { ref command } if command == "cargo test"));
    let (st, a) = impl_step(&agent, st, ImplEvent::CommandDone(Ok((0, String::new()))));
    match &a {
        ImplAction::Commit { paths, message } => {
            assert_eq!(paths, &vec!["src/a.rs".to_string()]);
            assert_eq!(message, "AI: Todo");
        }
        other => panic!("{:?}", other),
    }
    let t = &st.plan.tasks[1];
    assert_eq!(t.status, TaskStatus::Success);
    assert_eq!(t.attempts, 1);
    assert_eq!(t.result.as_ref().unwrap().agent_tips, "did it");
    let (st, a) = impl_step(&agent, st, ImplEvent::Committed(Ok(())));
    assert!(matches!(a, ImplAction::SavePlan));
    let (st, a) = impl_step(&agent, st, ImplEvent::Saved(Ok(())));
    assert!(matches!(a, ImplAction::Finish(Ok(()))));
    assert_eq!(st.phase, ImplPhase::Done);
    assert!(st.plan.tasks.iter().all(|t| t.status == TaskStatus::Success));
}

#[test]
fn a_task_whose_attempts_run_out_fails_the_run() {
    let mut p = prompt(false);
    p.validation_commands = vec![];
    let plan = ImplementationPlan { original_prompt: p, tasks: vec![task("Hard", TaskStatus::Pending)] };
    let agent = ImplAgent::new(1, false);
    let (st, _) = impl_step(&agent, impl_start(plan), ImplEvent::Begin);
    let (st, _) = impl_step(&agent, st, ImplEvent::FilesRead(Ok(vec![])));
    let (st, _) = impl_step(&agent, st, ImplEvent::Reply(Ok(reply(vec![]))));
    let (st, _) = impl_step(&agent, st, ImplEvent::EditsApplied(Ok(vec![])));
    let (st, a) = impl_step(&agent, st, ImplEvent::CommandDone(Ok((1, "x".to_string()))));
    assert!(matches!(a, ImplAction::SavePlan));
    assert_eq!(st.plan.tasks[0].status, TaskStatus::Failed);
    match impl_step(&agent, st, ImplEvent::Saved(Ok(()))).1 {
        ImplAction::Finish(Err(Error::Config(m))) => assert_eq!(m, "Task 'Hard' failed after 1 attempts."),
        other => panic!("{:?}", other),
    }
}

#[test]
fn the_planning_agent_asks_for_descriptions_then_details() {
    let st = plan_start(prompt(false));
    let (st, a) = plan_step(st, PlanEvent::Begin);
    assert!(matches!(a, PlanAction::FindFiles { .. }));
    let (st, a) = plan_step(st, PlanEvent::FilesFound(Ok(vec!["src/main.rs".to_string()])));
    match &a {
        PlanAction::AskModel { contents, .. } => assert_eq!(contents.len(), 3),
        other => panic!("{:?}", other),
    }
    let r = reply(vec![call(
        "create_task_descriptions",
        json_object(vec![("tasks".to_string(), JsonValue::Array(vec![JsonValue::String("T1".to_string())]))]),
    )]);
    let (st, a) = plan_step(st, PlanEvent::Reply(Ok(r)));
    assert!(matches!(a, PlanAction::ParseDescriptions { .. }));
    let (st, a) = plan_step(st, PlanEvent::DescriptionsParsed(Ok(vec!["T1".to_string()])));
    match &a {
        PlanAction::AskModel { contents, .. } => {
            let t = contents[2].parts[0].text.as_deref().unwrap();
            assert!(t.contains("**Task to Detail:**\nT1"));
            assert!(t.contains("- `cargo check`"));
        }
        other => panic!("{:?}", other),
    }
    let r = reply(vec![call("create_task_details", json_object(vec![]))]);
    let (st, a) = plan_step(st, PlanEvent::Reply(Ok(r)));
    assert!(matches!(a, PlanAction::ParseDetails { .. }));
    let (st, a) = plan_step(st, PlanEvent::DetailsParsed(Ok((FileScope::default(), vec![step("make")]))));
    assert!(matches!(a, PlanAction::Finish(Ok(()))));
    assert_eq!(st.phase, PlanPhase::Done);
    let plan = plan_result(st);
    assert_eq!(plan.tasks.len(), 1);
    assert_eq!(plan.tasks[0].description, "T1");
    assert_eq!(plan.tasks[0].status, TaskStatus::Pending);
}

#[test]
fn planning_prompts_and_answers() {
    let p = prompt(false);
    let d = create_description_generation_user_prompt(&p, &vec![]);
    assert!(d.contains("```\nNo files in scope.\n```"));
    let t = create_task_detailing_user_prompt(&p, &vec!["a".to_string(), "b".to_string()], "X");
    assert!(t.contains("```\na\nb\n```"));
    match process_description_response(&reply(vec![ContentPart::new_text("no".to_string())])) {
        Err(Error::Config(m)) => assert_eq!(m, "Expected a function call to `create_task_descriptions`"),
        other => panic!("{:?}", other),
    }
    match process_description_response(&reply(vec![])) {
        Err(Error::Config(m)) => assert_eq!(m, "No parts in candidate for description response"),
        other => panic!("{:?}", other),
    }
    match process_description_response(&GenerateContentResponse { candidates: None }) {
        Err(Error::Config(m)) => assert_eq!(m, "No candidates in description response"),
        other => panic!("{:?}", other),
    }
}

#[test]
fn a_search_step_adds_suggested_libraries() {
    let st = plan_start(prompt(true));
    let (st, _) = plan_step(st, PlanEvent::Begin);
    let (st, a) = plan_step(st, PlanEvent::FilesFound(Ok(vec![])));
    match &a {
        PlanAction::AskModel { tools, .. } => {
            assert!(aide_rs::json::to_string_pretty(tools).contains("\"dynamicThreshold\": 0.5"))
        }
        other => panic!("{:?}", other),
    }
    let (st, _) = plan_step(st, PlanEvent::Reply(Ok(reply(vec![ContentPart::new_text("use serde".to_string())]))));
    assert!(st.description_prompt.ends_with("\n\n**Suggested Libraries (from Google Search):**\nuse serde"));
}

#[test]
fn a_failing_validation_step_starts_the_next_attempt_and_skips_later_steps() {
    let mut p = prompt(false);
    p.validation_commands = vec![];
    let mut t = task("Retry me", TaskStatus::Pending);
    t.validation_steps = vec![step("cargo test"), step("cargo clippy")];
    let plan = ImplementationPlan { original_prompt: p, tasks: vec![t] };
    let agent = ImplAgent::new(3, false);
    let (st, _) = impl_step(&agent, impl_start(plan), ImplEvent::Begin);
    assert_eq!(st.attempt, 1);
    let (st, _) = impl_step(&agent, st, ImplEvent::FilesRead(Ok(vec![])));
    let (st, _) = impl_step(&agent, st, ImplEvent::Reply(Ok(reply(vec![]))));
    let (st, a) = impl_step(&agent, st, ImplEvent::EditsApplied(Ok(vec![])));
    assert!(matches!(a, ImplAction::RunCommand { ref command } if command == "cargo test"));
    let (st, a) = impl_step(&agent, st, ImplEvent::CommandDone(Ok((101, "boom".to_string()))));
    // The second step does not run: the next attempt reads the files again.
    assert!(matches!(a, ImplAction::ReadFiles { .. }));
    assert_eq!(st.attempt, 2);
    assert_eq!(st.task, 0);
    assert!(st.last_error.as_deref().unwrap().contains("Validation failed for command `cargo test`"));
}

#[test]
fn a_passing_validation_step_runs_the_next_one_before_the_task_passes() {
    let mut p = prompt(false);
    p.validation_commands = vec![];
    let mut t = task("Two steps", TaskStatus::Pending);
    t.validation_steps = vec![step("cargo test"), step("cargo clippy")];
    let plan = ImplementationPlan { original_prompt: p, tasks: vec![t, task("Later", TaskStatus::Pending)] };
    let agent = ImplAgent::new(3, true);
    let (st, _) = impl_step(&agent, impl_start(plan), ImplEvent::Begin);
    let (st, _) = impl_step(&agent, st, ImplEvent::FilesRead(Ok(vec![])));
    let (st, _) = impl_step(&agent, st, ImplEvent::Reply(Ok(reply(vec![]))));
    let (st, a) = impl_step(&agent, st, ImplEvent::EditsApplied(Ok(vec!["src/x.rs".to_string()])));
    assert!(matches!(a, ImplAction::RunCommand { ref command } if command == "cargo test"));
    let (st, a) = impl_step(&agent, st, ImplEvent::CommandDone(Ok((0, String::new()))));
    assert!(matches!(a, ImplAction::RunCommand { ref command } if command == "cargo clippy"));
    assert_eq!(st.step, 1);
    assert_eq!(st.plan.tasks[0].status, TaskStatus::Pending);
    assert_eq!(st.plan.tasks[1].status, TaskStatus::Pending);
    let (st, a) = impl_step(&agent, st, ImplEvent::CommandDone(Ok((0, String::new()))));
    assert!(matches!(a, ImplAction::Commit { .. }));
    assert_eq!(st.plan.tasks[0].status, TaskStatus::Success);
    assert_eq!(st.plan.tasks[1].status, TaskStatus::Pending);
}

#[test]
fn detailed_tasks_come_out_in_the_order_of_their_descriptions() {
    let st = plan_start(prompt(false));
    let (st, _) = plan_step(st, PlanEvent::Begin);
    let (st, _) = plan_step(st, PlanEvent::FilesFound(Ok(vec![])));
    let (st, _) = plan_step(st, PlanEvent::Reply(Ok(reply(vec![]))));
    let (st, a) = plan_step(st, PlanEvent::DescriptionsParsed(Ok(vec!["First".to_string(), "Second".to_string()])));
    assert!(matches!(a, PlanAction::AskModel { .. }));
    let (st, _) = plan_step(st, PlanEvent::Reply(Ok(reply(vec![]))));
    let (st, a) = plan_step(st, PlanEvent::DetailsParsed(Ok((FileScope::default(), vec![step("one")]))));
    match &a {
        PlanAction::AskModel { contents, .. } => {
            assert!(contents[2].parts[0].text.as_deref().unwrap().contains("**Task to Detail:**\nSecond"))
        }
        other => panic!("{:?}", other),
    }
    let (st, _) = plan_step(st, PlanEvent::Reply(Ok(reply(vec![]))));
    let (st, a) = plan_step(st, PlanEvent::DetailsParsed(Ok((FileScope::default(), vec![step("two")]))));
    assert!(matches!(a, PlanAction::Finish(Ok(()))));
    let plan = plan_result(st);
    assert_eq!(plan.tasks.len(), 2);
    assert_eq!(plan.tasks[0].description, "First");
    assert_eq!(plan.tasks[0].validation_steps[0].command, "one");
    assert_eq!(plan.tasks[1].description, "Second");
    assert_eq!(plan.tasks[1].validation_steps[0].command, "two");
    assert_eq!(plan.tasks[1].attempts, 0);
    assert!(plan.tasks[1].result.is_none());
}

#[test]
fn an_aider_run_in_each_mode() {
    let r = aider_outcome(true, false, "exit status: 1", "out".to_string(), "err".to_string()).unwrap();
    assert!(!r.success);
    assert_eq!(r.stdout, "out");
    assert_eq!(r.stderr, "err");
    let r = aider_outcome(false, true, "exit status: 0", "x".to_string(), "y".to_string()).unwrap();
    assert!(r.success);
    assert_eq!(r.stdout, "");
    match aider_outcome(false, false, "exit status: 2", String::new(), String::new()) {
        Err(Error::ToolFailed(m)) => assert_eq!(m, "aider exited with non-zero status: exit status: 2"),
        other => panic!("{:?}", other),
    }
}

use aide_rs::gemini_types::{Content, ContentPart, Role};
use aide_rs::error::Error;
use aide_rs::flow_run::{flow_start, flow_step, FlowAction, FlowEvent, FlowPhase, FlowRun};
use aide_rs::flows::types::{Annotations, Block, Flow, LoopingStrategy, Prompt, PromptPart};
use aide_rs::json::{json_object, JsonValue};
use aide_rs::runner::BlockOutputs;

fn block(id: &str) -> Block {
    Block {
        id: id.to_string(),
        description: String::new(),
        prompt: Prompt {
            composition: vec![PromptPart::StaticText { content: "x".to_string(), hide_in_stdout: false }],
        },
        annotations: Annotations::default(),
        verification: None,
        looping: None,
    }
}

fn s(t: &str) -> JsonValue {
    JsonValue::String(t.to_string())
}

fn task(id: &str) -> JsonValue {
    json_object(vec![("id".to_string(), s(id)), ("description".to_string(), s("d"))])
}

fn step(flow: &Flow, st: FlowRun, ev: FlowEvent) -> (FlowRun, FlowAction, Vec<String>) {
    flow_step(flow, "p.yml", st, ev)
}

fn done(out: &str, changed: &[&str]) -> FlowEvent {
    FlowEvent::BlockDone(Ok((s(out), vec![], changed.iter().map(|c| c.to_string()).collect())))
}

#[test]
fn blocks_run_in_order_and_their_outputs_are_stored() {
    let flow = Flow {
        id: "f".to_string(),
        description: String::new(),
        model: None,
        blocks: vec![block("a"), block("b")],
    };
    let st = flow_start(BlockOutputs::new());
    let (st, a, logs) = step(&flow, st, FlowEvent::Begin);
    assert_eq!(
        logs,
        vec!["Starting flow 'f' with prompt 'p.yml'...".to_string(), "Executing block: 'a'...".to_string()]
    );
    assert!(matches!(a, FlowAction::RunBlock { .. }));
    let (st, a, logs) = step(&flow, st, done("A", &[]));
    assert_eq!(logs, vec!["Executing block: 'b'...".to_string()]);
    match a {
        FlowAction::RunBlock { outputs, .. } => {
            assert_eq!(outputs.get("a").unwrap().as_str(), Some("A"))
        }
        other => panic!("{:?}", other),
    }
    let (st, a, logs) = step(&flow, st, done("B", &[]));
    assert!(matches!(a, FlowAction::Finish(Ok(()))));
    assert_eq!(logs, vec!["Flow 'f' finished.".to_string()]);
    assert_eq!(st.phase, FlowPhase::Done);
    assert_eq!(st.outputs.get("b").unwrap().as_str(), Some("B"));
}

#[test]
fn a_looping_block_runs_once_per_task_and_collects_the_outputs() {
    let mut looping = block("impl");
    looping.looping = Some(LoopingStrategy {
        over: "plan".to_string(),
        as_key: "task".to_string(),
        clear_history_on_iteration: true,
        commit_on_iteration_success: true,
    });
    let flow = Flow { id: "f".to_string(), description: String::new(), model: None, blocks: vec![looping] };
    let mut outputs = BlockOutputs::new();
    outputs.insert(
        "plan".to_string(),
        json_object(vec![("tasks".to_string(), JsonValue::Array(vec![task("t1"), task("t2")]))]),
    );
    let st = flow_start(outputs);
    let (st, a, logs) = step(&flow, st, FlowEvent::Begin);
    assert_eq!(logs[1], "Executing looping block 'impl' (iteration 1/2)");
    match &a {
        FlowAction::RunBlock { outputs, .. } => {
            assert_eq!(outputs.get("task").unwrap().get_str("id"), Some("t1"))
        }
        other => panic!("{:?}", other),
    }
    // The first task changed a file: it is committed.
    let (st, a, logs) = step(&flow, st, done("one", &["src/a.rs"]));
    assert_eq!(logs, vec!["Loop iteration for task 't1' succeeded, committing 1 file(s)...".to_string()]);
    match &a {
        FlowAction::Commit { paths, message } => {
            assert_eq!(paths, &vec!["src/a.rs".to_string()]);
            assert_eq!(message, "aide-rs: auto-commit after task 't1' in flow 'f'");
        }
        other => panic!("{:?}", other),
    }
    let (st, a, logs) = step(&flow, st, FlowEvent::Committed(Ok(())));
    assert_eq!(
        logs,
        vec!["Committed 1 file(s).".to_string(), "Executing looping block 'impl' (iteration 2/2)".to_string()]
    );
    match &a {
        FlowAction::RunBlock { outputs, .. } => {
            assert_eq!(outputs.get("task").unwrap().get_str("id"), Some("t2"))
        }
        other => panic!("{:?}", other),
    }
    assert!(st.changed.is_empty());
    // The second changed nothing: no commit; the loop's output is both outputs.
    let (st, a, logs) = step(&flow, st, done("two", &[]));
    assert_eq!(
        logs[0],
        "Loop iteration for task 't2' in block 'impl' succeeded, but no files were changed. Skipping commit."
    );
    assert!(matches!(a, FlowAction::Finish(Ok(()))));
    match st.outputs.get("impl").unwrap() {
        JsonValue::Array(items) => {
            let got: Vec<&str> = items.iter().map(|x| x.as_str().unwrap()).collect();
            assert_eq!(got, vec!["one", "two"]);
        }
        other => panic!("{:?}", other),
    }
}

#[test]
fn saving_and_committing_after_a_block() {
    let mut b = block("gen");
    b.annotations.save_output_to = Some("out/plan.json".to_string());
    b.annotations.commit_on_success = true;
    let flow = Flow { id: "f".to_string(), description: String::new(), model: None, blocks: vec![b] };
    let st = flow_start(BlockOutputs::new());
    let (st, _, _) = step(&flow, st, FlowEvent::Begin);
    let (st, a, _) = step(&flow, st, done("result", &["a.rs", "b.rs", "a.rs"]));
    match &a {
        FlowAction::Save { path, text } => {
            assert_eq!(path, "out/plan.json");
            assert_eq!(text, "\"result\"");
        }
        other => panic!("{:?}", other),
    }
    let (st, a, logs) = step(&flow, st, FlowEvent::Saved(Ok(())));
    assert_eq!(logs[0], "Saved output of block 'gen' to 'out/plan.json'");
    assert_eq!(logs[1], "Block 'gen' succeeded, committing 2 changed file(s)...");
    match &a {
        FlowAction::Commit { paths, message } => {
            assert_eq!(paths, &vec!["a.rs".to_string(), "b.rs".to_string()]);
            assert_eq!(message, "aide-rs: auto-commit after block 'gen' in flow 'f'");
        }
        other => panic!("{:?}", other),
    }
    let (_, a, logs) = step(&flow, st, FlowEvent::Committed(Ok(())));
    assert_eq!(logs, vec!["Committed 2 file(s).".to_string(), "Flow 'f' finished.".to_string()]);
    assert!(matches!(a, FlowAction::Finish(Ok(()))));
}

#[test]
fn errors_end_the_flow() {
    let mut looping = block("impl");
    looping.looping = Some(LoopingStrategy {
        over: "missing".to_string(),
        as_key: "task".to_string(),
        clear_history_on_iteration: false,
        commit_on_iteration_success: false,
    });
    let flow = Flow { id: "f".to_string(), description: String::new(), model: None, blocks: vec![looping] };
    let (st, a, _) = step(&flow, flow_start(BlockOutputs::new()), FlowEvent::Begin);
    assert_eq!(st.phase, FlowPhase::Done);
    match a {
        FlowAction::Finish(Err(Error::Config(m))) => {
            assert_eq!(m, "Looping error: block output 'missing' not found")
        }
        other => panic!("{:?}", other),
    }
    let flow2 = Flow { id: "f".to_string(), description: String::new(), model: None, blocks: vec![block("a")] };
    let (st, _, _) = step(&flow2, flow_start(BlockOutputs::new()), FlowEvent::Begin);
    let (_, a, _) = step(&flow2, st, FlowEvent::BlockDone(Err(Error::ApiError("down".to_string()))));
    assert!(matches!(a, FlowAction::Finish(Err(Error::ApiError(_)))));
}

#[test]
fn a_loop_without_tasks_outputs_an_empty_list() {
    let mut looping = block("impl");
    looping.looping = Some(LoopingStrategy {
        over: "plan".to_string(),
        as_key: "task".to_string(),
        clear_history_on_iteration: false,
        commit_on_iteration_success: false,
    });
    let flow = Flow { id: "f".to_string(), description: String::new(), model: None, blocks: vec![looping] };
    let mut outputs = BlockOutputs::new();
    outputs.insert("plan".to_string(), json_object(vec![("tasks".to_string(), JsonValue::Array(vec![]))]));
    let (st, a, _) = step(&flow, flow_start(outputs), FlowEvent::Begin);
    assert!(matches!(a, FlowAction::Continue));
    let (st, a, _) = step(&flow, st, FlowEvent::Continue);
    assert!(matches!(a, FlowAction::Finish(Ok(()))));
    assert!(matches!(st.outputs.get("impl").unwrap(), JsonValue::Array(v) if v.is_empty()));
}

#[test]
fn a_loop_that_clears_history_starts_each_task_from_an_empty_history() {
    let plan = block("plan");
    let mut looping = block("impl");
    looping.looping = Some(LoopingStrategy {
        over: "plan".to_string(),
        as_key: "task".to_string(),
        clear_history_on_iteration: true,
        commit_on_iteration_success: false,
    });
    let flow = Flow { id: "f".to_string(), description: String::new(), model: None, blocks: vec![plan, looping] };
    let st = flow_start(BlockOutputs::new());
    let (st, _, _) = step(&flow, st, FlowEvent::Begin);
    let turn = Content::single(Role::User, ContentPart::new_text("earlier turn".to_string()));
    let tasks = json_object(vec![("tasks".to_string(), JsonValue::Array(vec![task("t1"), task("t2")]))]);
    let (st, a, _) = step(&flow, st, FlowEvent::BlockDone(Ok((tasks, vec![turn], vec![]))));
    match &a {
        FlowAction::RunBlock { history, .. } => assert!(history.is_empty()),
        other => panic!("{:?}", other),
    }
    let turn2 = Content::single(Role::Model, ContentPart::new_text("task one turn".to_string()));
    let (_, a, _) = step(&flow, st, FlowEvent::BlockDone(Ok((s("one"), vec![turn2], vec![]))));
    match &a {
        FlowAction::RunBlock { history, .. } => assert!(history.is_empty()),
        other => panic!("{:?}", other),
    }
}

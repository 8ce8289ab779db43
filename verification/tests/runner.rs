use aide_rs::error::Error;
use aide_rs::flows::types::{
    Annotations, Block, Flow, History, HistoryMode, Prompt, PromptPart, Verification,
    VerificationStrategy,
};
use aide_rs::gemini_types::{
    Candidate, Content, ContentPart, FunctionCall, GenerateContentResponse, Role,
};
use aide_rs::json::{json_int, json_object, JsonValue};
use aide_rs::runner::{
    block_model, block_start, block_step, changed_file, command_verification, history_for_request,
    loop_items, prompt_for_attempt, prompt_verification_outcome, task_id, verification_declaration,
    verification_tool, BlockAction, BlockEvent, BlockOutputs, BlockPhase,
};

fn prompt(t: &str) -> Prompt {
    Prompt {
        composition: vec![PromptPart::StaticText { content: t.to_string(), hide_in_stdout: false }],
    }
}

fn block(id: &str, verification: Option<Verification>) -> Block {
    Block {
        id: id.to_string(),
        description: String::new(),
        prompt: prompt("do it"),
        annotations: Annotations::default(),
        verification,
        looping: None,
    }
}

fn command_verification_of(retries: u32) -> Verification {
    Verification {
        max_retries: retries,
        strategy: VerificationStrategy::Command {
            command: "make test".to_string(),
            expected_exit_code: 0,
            on_failure_prompt: prompt("fix it"),
        },
    }
}

fn text_content(role: Role, t: &str) -> Content {
    Content::single(role, ContentPart::new_text(t.to_string()))
}

fn reply(parts: Vec<ContentPart>) -> GenerateContentResponse {
    GenerateContentResponse {
        candidates: Some(vec![Candidate {
            content: Content { role: Role::Model, parts },
            finish_reason: None,
        }]),
    }
}

fn call_part(name: &str, args: JsonValue) -> ContentPart {
    ContentPart {
        text: None,
        function_call: Some(FunctionCall { name: name.to_string(), arguments: args }),
        function_response: None,
    }
}

fn text_part(t: &str) -> ContentPart {
    ContentPart::new_text(t.to_string())
}

fn obj(entries: &[(&str, JsonValue)]) -> JsonValue {
    json_object(entries.iter().map(|(k, v)| (k.to_string(), v.copy())).collect())
}

fn s(t: &str) -> JsonValue {
    JsonValue::String(t.to_string())
}

#[test]
fn a_block_without_tools_takes_the_reply_text_as_output() {
    let b = block("b1", None);
    let history = vec![text_content(Role::User, "earlier")];
    let st = block_start(&b, &history);
    let (st, a, _) = block_step(&b, st, BlockEvent::Begin);
    assert!(matches!(a, BlockAction::BuildPrompt { retry: false }));
    let (st, a, _) = block_step(&b, st, BlockEvent::PromptBuilt(Ok("Hello".to_string())));
    match a {
        BlockAction::AskModel { contents } => {
            assert_eq!(contents.len(), 2);
            assert_eq!(contents[1].parts[0].text.as_deref(), Some("Hello"));
        }
        other => panic!("{:?}", other),
    }
    let (st, a, _) = block_step(&b, st, BlockEvent::Reply(Ok(reply(vec![text_part("Answer")]))));
    assert_eq!(st.phase, BlockPhase::Done);
    match a {
        BlockAction::Finish(Ok((out, h))) => {
            assert_eq!(out.as_str(), Some("Answer"));
            assert_eq!(h.len(), 3);
        }
        other => panic!("{:?}", other),
    }
}

#[test]
fn tool_calls_are_executed_in_order_and_their_output_kept() {
    let b = block("b1", None);
    let st = block_start(&b, &vec![]);
    let (st, _, _) = block_step(&b, st, BlockEvent::Begin);
    let (st, _, _) = block_step(&b, st, BlockEvent::PromptBuilt(Ok("P".to_string())));
    let r = reply(vec![call_part("one", obj(&[])), text_part("thinking"), call_part("two", obj(&[]))]);
    let (st, a, _) = block_step(&b, st, BlockEvent::Reply(Ok(r)));
    match &a {
        BlockAction::ExecuteTool { call } => assert_eq!(call.name, "one"),
        other => panic!("{:?}", other),
    }
    let (st, a, n) = block_step(
        &b,
        st,
        BlockEvent::ToolDone { result: Ok(obj(&[("x", json_int(1))])), time_taken_ms: 5 },
    );
    assert_eq!(n.tool_log.as_ref().unwrap().tool_name, "one");
    match &a {
        BlockAction::ExecuteTool { call } => assert_eq!(call.name, "two"),
        other => panic!("{:?}", other),
    }
    let (st, a, n) = block_step(
        &b,
        st,
        BlockEvent::ToolDone { result: Err(Error::Config("bad".to_string())), time_taken_ms: 1 },
    );
    let log = n.tool_log.unwrap();
    assert!(!log.result.success);
    assert_eq!(log.result.stderr, "Configuration error: bad");
    match &a {
        BlockAction::AskModel { contents } => assert_eq!(contents.len(), 4),
        other => panic!("{:?}", other),
    }
    // The output is the last tool's: an object holding the error.
    assert_eq!(st.block_output.get_str("error"), Some("Configuration error: bad"));
    // A final reply with text does not replace a tool's output.
    let (_, a, _) = block_step(&b, st, BlockEvent::Reply(Ok(reply(vec![text_part("done")]))));
    match a {
        BlockAction::Finish(Ok((out, _))) => {
            assert_eq!(out.get_str("error"), Some("Configuration error: bad"))
        }
        other => panic!("{:?}", other),
    }
}

#[test]
fn a_reply_without_candidates_is_an_error() {
    let b = block("b1", None);
    let st = block_start(&b, &vec![]);
    let (st, _, _) = block_step(&b, st, BlockEvent::Begin);
    let (st, _, _) = block_step(&b, st, BlockEvent::PromptBuilt(Ok("P".to_string())));
    let (_, a, _) =
        block_step(&b, st, BlockEvent::Reply(Ok(GenerateContentResponse { candidates: None })));
    match a {
        BlockAction::Finish(Err(Error::ApiError(m))) => {
            assert_eq!(m, "No candidates received from Gemini API")
        }
        other => panic!("{:?}", other),
    }
}

#[test]
fn failed_verification_is_retried_then_fails() {
    let b = block("b1", Some(command_verification_of(1)));
    let history = vec![text_content(Role::User, "base")];
    let st = block_start(&b, &history);
    let (st, _, _) = block_step(&b, st, BlockEvent::Begin);
    let (st, _, _) = block_step(&b, st, BlockEvent::PromptBuilt(Ok("P".to_string())));
    let (st, a, _) = block_step(&b, st, BlockEvent::Reply(Ok(reply(vec![text_part("x")]))));
    assert!(matches!(a, BlockAction::Verify));
    let (st, a, n) = block_step(&b, st, BlockEvent::Verified(Ok((false, obj(&[("stdout", s("no"))])))));
    assert!(matches!(a, BlockAction::BuildPrompt { retry: true }));
    assert_eq!(n.logs, vec!["Verification failed for block 'b1'. Retrying (attempt 1/1)...".to_string()]);
    assert_eq!(st.attempt, 1);
    // The retry starts again from the flow's history.
    let (st, a, _) = block_step(&b, st, BlockEvent::PromptBuilt(Ok("P2".to_string())));
    match a {
        BlockAction::AskModel { contents } => assert_eq!(contents.len(), 2),
        other => panic!("{:?}", other),
    }
    let (st, _, _) = block_step(&b, st, BlockEvent::Reply(Ok(reply(vec![text_part("y")]))));
    let (_, a, _) = block_step(&b, st, BlockEvent::Verified(Ok((false, obj(&[])))));
    match a {
        BlockAction::Finish(Err(Error::VerificationFailed(m))) => {
            assert_eq!(m, "Block 'b1' failed verification after 1 retries.")
        }
        other => panic!("{:?}", other),
    }
}

#[test]
fn passed_verification_finishes_with_the_output() {
    let b = block("b1", Some(command_verification_of(3)));
    let st = block_start(&b, &vec![]);
    let (st, _, _) = block_step(&b, st, BlockEvent::Begin);
    let (st, _, _) = block_step(&b, st, BlockEvent::PromptBuilt(Ok("P".to_string())));
    let (st, _, _) = block_step(&b, st, BlockEvent::Reply(Ok(reply(vec![text_part("out")]))));
    let (_, a, _) = block_step(&b, st, BlockEvent::Verified(Ok((true, obj(&[])))));
    match a {
        BlockAction::Finish(Ok((out, h))) => {
            assert_eq!(out.as_str(), Some("out"));
            assert_eq!(h.len(), 2);
        }
        other => panic!("{:?}", other),
    }
}

#[test]
fn retry_prompts_come_from_the_command_verification() {
    let b = block("b1", Some(command_verification_of(1)));
    assert!(std::ptr::eq(prompt_for_attempt(&b, false).unwrap(), &b.prompt));
    let p = prompt_for_attempt(&b, true).unwrap();
    assert!(matches!(&p.composition[0], PromptPart::StaticText { content, .. } if content == "fix it"));
    let nb = block("b2", None);
    match prompt_for_attempt(&nb, true) {
        Err(Error::Config(m)) => {
            assert_eq!(m, "Block 'b2' is in a retry loop but has no on_failure_prompt.")
        }
        other => panic!("{:?}", other.map(|_| ())),
    }
}

#[test]
fn history_modes_select_the_end_of_the_history() {
    let h: Vec<Content> = (0..4).map(|i| text_content(Role::User, &i.to_string())).collect();
    let full = history_for_request(&History::Mode(HistoryMode::Full), &h);
    assert_eq!(full.len(), 4);
    let off = history_for_request(&History::Mode(HistoryMode::Off), &h);
    assert_eq!(off.len(), 1);
    assert_eq!(off[0].parts[0].text.as_deref(), Some("3"));
    let last_pair = history_for_request(&History::LastN { last_n: 1 }, &h);
    let texts: Vec<&str> = last_pair.iter().map(|c| c.parts[0].text.as_deref().unwrap()).collect();
    assert_eq!(texts, vec!["2", "3"]);
    let two_pairs = history_for_request(&History::LastN { last_n: 2 }, &h);
    assert_eq!(two_pairs.len(), 4);
    let all = history_for_request(&History::LastN { last_n: 10 }, &h);
    assert_eq!(all.len(), 4);
}

#[test]
fn outputs_read_back_what_was_stored() {
    let mut o = BlockOutputs::new();
    assert!(o.get("a").is_none());
    o.insert("a".to_string(), s("1"));
    o.insert("b".to_string(), s("2"));
    o.insert("a".to_string(), s("3"));
    assert_eq!(o.get("a").unwrap().as_str(), Some("3"));
    assert_eq!(o.get("b").unwrap().as_str(), Some("2"));
    let c = o.copy();
    assert_eq!(c.get("a").unwrap().as_str(), Some("3"));
}

#[test]
fn loop_items_are_the_tasks_of_the_named_output() {
    let mut o = BlockOutputs::new();
    o.insert(
        "plan".to_string(),
        obj(&[("tasks", JsonValue::Array(vec![obj(&[("id", s("t1"))]), obj(&[])]))]),
    );
    o.insert("bad".to_string(), s("x"));
    let items = loop_items(&o, "plan").unwrap();
    assert_eq!(items.len(), 2);
    assert_eq!(task_id(&items[0]), "t1");
    assert_eq!(task_id(&items[1]), "unknown");
    match loop_items(&o, "none") {
        Err(Error::Config(m)) => assert_eq!(m, "Looping error: block output 'none' not found"),
        other => panic!("{:?}", other),
    }
    match loop_items(&o, "bad") {
        Err(Error::Config(m)) => assert_eq!(
            m,
            "Looping error: output of block 'bad' is not a valid TaskList (missing 'tasks' array)"
        ),
        other => panic!("{:?}", other),
    }
}

#[test]
fn command_verification_reports_exit_code_and_output() {
    let (ok, out) = command_verification(0, 2, "so".to_string(), "se".to_string());
    assert!(!ok);
    assert_eq!(
        aide_rs::json::to_string_pretty(&out),
        "{\n  \"exit_code\": 2,\n  \"stderr\": \"se\",\n  \"stdout\": \"so\"\n}"
    );
    let (ok, neg) = command_verification(-1, -1, String::new(), String::new());
    assert!(ok);
    assert!(aide_rs::json::to_string_pretty(&neg).contains("\"exit_code\": -1"));
}

#[test]
fn prompt_verification_looks_for_the_named_call() {
    assert_eq!(verification_tool("function_call:verification_passed").as_deref(), Some("verification_passed"));
    assert_eq!(verification_tool("text:ok"), None);
    let d = verification_declaration("verification_passed".to_string());
    assert_eq!(d.description, "Call this function if the verification is successful.");
    let r = reply(vec![text_part("ok"), call_part("verification_passed", obj(&[]))]);
    let (passed, out) = prompt_verification_outcome(Some(&r), "verification_passed");
    assert!(passed);
    assert_eq!(out.get_str("role"), Some("model"));
    let (passed, _) = prompt_verification_outcome(Some(&r), "other");
    assert!(!passed);
    let (passed, out) = prompt_verification_outcome(None, "x");
    assert!(!passed);
    assert!(out.is_object());
}

#[test]
fn only_successful_file_tools_change_files() {
    let ok = obj(&[("status", s("success")), ("path", s("src/a.rs"))]);
    assert_eq!(changed_file("edit_file", &ok).as_deref(), Some("src/a.rs"));
    assert_eq!(changed_file("create_file", &ok).as_deref(), Some("src/a.rs"));
    assert_eq!(changed_file("file_system", &ok), None);
    let failed = obj(&[("status", s("error")), ("path", s("src/a.rs"))]);
    assert_eq!(changed_file("edit_file", &failed), None);
}

#[test]
fn the_model_is_the_blocks_then_the_flows_then_the_default() {
    let mut b = block("b", None);
    let mut f = Flow { id: "f".to_string(), description: String::new(), model: None, blocks: vec![] };
    assert_eq!(block_model(&b, &f), "gemini-2.5-pro");
    f.model = Some("flow-model".to_string());
    assert_eq!(block_model(&b, &f), "flow-model");
    b.annotations.model = Some("block-model".to_string());
    assert_eq!(block_model(&b, &f), "block-model");
}

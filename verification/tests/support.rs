use aide_rs::agents::aider::aider_invocation;
use aide_rs::error::Error;
use aide_rs::gemini::{api_error, client_settings, model_to_use, request_url};
use aide_rs::gemini_types::{Candidate, Content, ContentPart, FunctionCall, GenerateContentResponse, Role};
use aide_rs::json::{json_int, json_object, to_string_pretty, JsonNumber, JsonValue};
use aide_rs::logging::{
    log_dir, opening_lines, prompt_line, response_line, tool_call_line, validation_line, PromptLog,
    ResponseLog, ToolCallLog, ToolResultLog, ValidationLog,
};
use aide_rs::session::{objective_slug, Session};

#[test]
fn sessions_live_under_their_own_directory() {
    let s = Session::layout("20240101_120000", "plan", "Add a list: command, now!");
    assert_eq!(s.id, "20240101_120000_plan_Add_a_list_command_now");
    assert_eq!(s.dir, ".ai/sessions/20240101_120000_plan_Add_a_list_command_now");
    assert_eq!(s.orchestrator_log_path, format!("{}/orchestrator.log", s.dir));
    assert_eq!(s.aider_chat_history_path, format!("{}/aider.chat.history.md", s.dir));
    assert_eq!(objective_slug("a very long objective that goes on and on"), "a_very_long_objective_that_goe");
}

#[test]
fn gemini_settings_and_requests() {
    match client_settings(None, None) {
        Err(Error::Config(m)) => assert!(m.contains("GEMINI_API_KEY")),
        other => panic!("{:?}", other),
    }
    let (key, base) = client_settings(Some("k".to_string()), None).unwrap();
    assert_eq!(key, "k");
    assert_eq!(base, "https://generativelanguage.googleapis.com");
    let (_, base) = client_settings(Some("k".to_string()), Some("http://localhost:1".to_string())).unwrap();
    assert_eq!(base, "http://localhost:1");
    assert_eq!(model_to_use(Some("m2"), "m1"), "m2");
    assert_eq!(model_to_use(None, "m1"), "m1");
    assert_eq!(
        request_url("http://h", "gemini-2.5-pro", "KEY"),
        "http://h/v1beta/models/gemini-2.5-pro:generateContent?key=KEY"
    );
    match api_error("500", "oops") {
        Error::ApiError(m) => assert_eq!(m, "API Error: 500 - oops"),
        other => panic!("{:?}", other),
    }
}

#[test]
fn log_lines() {
    assert_eq!(log_dir("r1"), ".ai/logs/r1");
    assert_eq!(
        opening_lines("r1", "c.jsonl", "s.log"),
        vec!["Log run started at: r1\n", "Full logs at: c.jsonl\n", "Summary log at: s.log\n\n"]
    );
    let p = PromptLog {
        model_name: "m".to_string(),
        system_prompt: String::new(),
        user_prompt: "  first line  \nsecond".to_string(),
        display_prompt: None,
        tools: JsonValue::Null,
    };
    assert_eq!(prompt_line(&p, "T"), "[T] PROMPT to m:\n> first line\n... (full prompt in complete.log.jsonl)\n");
    let v = ValidationLog {
        command: "make".to_string(),
        exit_code: -2,
        stdout: "o".to_string(),
        stderr: "e".to_string(),
        success: false,
        time_taken_ms: 7,
    };
    assert_eq!(
        validation_line(&v, "T"),
        "[T] VALIDATION: `make` (7ms)\n--- RESULT ---\nSuccess: false\nExit Code: -2\nStdout: o\nStderr: e\n---\n"
    );
    let t = ToolCallLog {
        tool_name: "fs".to_string(),
        tool_args: json_object(vec![("a".to_string(), json_int(1))]),
        result: ToolResultLog { success: true, stdout: "x".to_string(), stderr: String::new(), output_json: JsonValue::Null },
        time_taken_ms: 3,
    };
    assert_eq!(
        tool_call_line(&t, "T"),
        "[T] TOOL CALL: fs (3ms)\n--- ARGS ---\n{\n  \"a\": 1\n}\n--- RESULT ---\nSuccess: true\nStdout: x\nStderr: \n---\n"
    );
    let r = ResponseLog {
        model_name: "m".to_string(),
        response: GenerateContentResponse {
            candidates: Some(vec![Candidate {
                content: Content {
                    role: Role::Model,
                    parts: vec![
                        ContentPart::new_text("hi".to_string()),
                        ContentPart {
                            text: None,
                            function_call: Some(FunctionCall { name: "f".to_string(), arguments: JsonValue::Null }),
                            function_response: None,
                        },
                    ],
                },
                finish_reason: None,
            }]),
        },
        time_taken_ms: 9,
    };
    let line = response_line(&r, "T");
    assert!(line.starts_with("[T] RESPONSE from m (9ms):\n--- TEXT ---\nhi"));
}

#[test]
fn aider_arguments() {
    let (prog, args) = aider_invocation(
        "aider --yes",
        "h.md",
        vec!["a.rs".to_string()],
        "do it",
        Some("make test".to_string()),
    );
    assert_eq!(prog, "aider");
    assert_eq!(
        args,
        vec!["--yes", "--chat-history-file", "h.md", "a.rs", "--message", "do it", "--test-cmd", "make test"]
    );
    // A one-word command gives exactly five arguments, the message last.
    let (_, args) = aider_invocation("/tmp/mock_aider.sh", "h.md", vec!["src/main.rs".to_string()], "m", None);
    assert_eq!(args, vec!["--chat-history-file", "h.md", "src/main.rs", "--message", "m"]);
}

#[test]
fn json_prints_as_serde_json_does() {
    let v = json_object(vec![
        ("b".to_string(), JsonValue::Array(vec![json_int(-3), JsonValue::Bool(false), JsonValue::Null])),
        ("a".to_string(), JsonValue::Number(JsonNumber::Float("0.5".to_string()))),
    ]);
    assert_eq!(to_string_pretty(&v), "{\n  \"a\": 0.5,\n  \"b\": [\n    -3,\n    false,\n    null\n  ]\n}");
    assert_eq!(to_string_pretty(&JsonValue::String("q\"".to_string())), "\"q\\\"\"");
}

use aide_rs::flows::types::{Prompt, PromptPart};
use aide_rs::json::{json_object, JsonValue};
use aide_rs::prompt::{build, debug_requested, merge_scopes, PartInput};
use aide_rs::flows::types::FileScope;
use aide_rs::runner::BlockOutputs;

fn text(content: &str, hide: bool) -> PromptPart {
    PromptPart::StaticText { content: content.to_string(), hide_in_stdout: hide }
}

fn pretty(v: &JsonValue) -> String {
    aide_rs::json::to_string_pretty(v)
}

#[test]
fn test_build_prompt_simple() {
    let prompt_def = Prompt { composition: vec![text("Hello", false), text("World", false)] };
    let block_outputs = BlockOutputs::new();
    let inputs = vec![PartInput::Nothing, PartInput::Nothing];

    let result = build(&prompt_def, &inputs, &block_outputs, "test_block", None, false);

    assert_eq!(result.full_prompt, "Hello\nWorld");
    assert_eq!(result.display_prompt, "Hello\nWorld");
}

#[test]
fn test_build_prompt_with_fields_and_outputs() {
    // The prompt file holds `objective: Test Objective`.
    let prompt_def = Prompt {
        composition: vec![
            PromptPart::PromptFileField {
                field: "objective".to_string(),
                prefix: "Objective: ".to_string(),
                hide_in_stdout: false,
            },
            PromptPart::PreviousOutput {
                block_id: "prev_block".to_string(),
                prefix: "Previous: ".to_string(),
                hide_in_stdout: false,
            },
        ],
    };

    let mut block_outputs = BlockOutputs::new();
    block_outputs.insert(
        "prev_block".to_string(),
        json_object(vec![("result".to_string(), JsonValue::String("some output".to_string()))]),
    );
    let inputs = vec![PartInput::Field(Some("Test Objective".to_string())), PartInput::Nothing];

    let result = build(&prompt_def, &inputs, &block_outputs, "current_block", None, false);

    let expected_output =
        json_object(vec![("result".to_string(), JsonValue::String("some output".to_string()))]);
    let expected_json_string = pretty(&expected_output);
    assert_eq!(expected_json_string, "{\n  \"result\": \"some output\"\n}");
    assert_eq!(
        result.full_prompt,
        format!("Objective: Test Objective\nPrevious: {}", expected_json_string)
    );
}

#[test]
fn test_build_prompt_with_verification_output() {
    let prompt_def = Prompt {
        composition: vec![PromptPart::PreviousOutput {
            block_id: "current_block".to_string(),
            prefix: "Verification Failed: ".to_string(),
            hide_in_stdout: false,
        }],
    };
    let block_outputs = BlockOutputs::new();
    let verification_output = json_object(vec![(
        "error".to_string(),
        JsonValue::String("cargo check failed".to_string()),
    )]);

    let result = build(
        &prompt_def,
        &vec![PartInput::Nothing],
        &block_outputs,
        "current_block",
        Some(&verification_output),
        false,
    );

    let expected_json_string = "{\n  \"error\": \"cargo check failed\"\n}";
    assert_eq!(result.full_prompt, format!("Verification Failed: {}", expected_json_string));
}

#[test]
fn test_build_prompt_with_file_contents() {
    // The scope `test_scope` takes `**/*.rs`; the files found, sorted, are
    // `lib.rs` and `main.rs`.
    let prompt_def = Prompt {
        composition: vec![PromptPart::FileContents {
            scopes: vec!["test_scope".to_string()],
            prefix: "Code:\n".to_string(),
            hide_in_stdout: false,
        }],
    };
    let block_outputs = BlockOutputs::new();
    let inputs = vec![PartInput::FileReads(vec![
        ("lib.rs".to_string(), Some("// lib".to_string())),
        ("main.rs".to_string(), Some("fn main() {}".to_string())),
    ])];

    let result = build(&prompt_def, &inputs, &block_outputs, "test_block", None, false);

    let expected =
        "Code:\n\n--- FILE: ./lib.rs ---\n// lib\n\n--- FILE: ./main.rs ---\nfn main() {}\n\n";
    assert_eq!(result.full_prompt, expected);
}

#[test]
fn hidden_parts_show_as_a_note_unless_debugging() {
    let prompt_def = Prompt { composition: vec![text("a\nb\nc", true), text("shown", false), text("  ", true)] };
    let outputs = BlockOutputs::new();
    let inputs = vec![PartInput::Nothing, PartInput::Nothing, PartInput::Nothing];
    let r = build(&prompt_def, &inputs, &outputs, "b", None, false);
    assert_eq!(r.full_prompt, "a\nb\nc\nshown\n  ");
    assert_eq!(r.display_prompt, "... (3 lines of hidden content in complete.log.jsonl) ...\nshown");
    let d = build(&prompt_def, &inputs, &outputs, "b", None, true);
    assert_eq!(d.display_prompt, d.full_prompt);
    assert!(debug_requested(Some("aide_rs=debug")));
    assert!(!debug_requested(Some("info")));
    assert!(!debug_requested(None));
}

#[test]
fn previous_output_of_a_task_is_its_description() {
    let mut outputs = BlockOutputs::new();
    outputs.insert(
        "task".to_string(),
        json_object(vec![
            ("description".to_string(), JsonValue::String("Do it".to_string())),
            ("id".to_string(), JsonValue::String("t1".to_string())),
        ]),
    );
    outputs.insert("plain".to_string(), JsonValue::String("text".to_string()));
    let part = |id: &str| PromptPart::PreviousOutput {
        block_id: id.to_string(),
        prefix: "> ".to_string(),
        hide_in_stdout: false,
    };
    let def = Prompt { composition: vec![part("task"), part("plain"), part("missing"), part("cur")] };
    let inputs = vec![PartInput::Nothing, PartInput::Nothing, PartInput::Nothing, PartInput::Nothing];
    let r = build(&def, &inputs, &outputs, "cur", None, false);
    assert_eq!(
        r.full_prompt,
        "> Do it\n> text\n> Error: Output for block 'missing' not found.\n> Error: Verification output for block 'cur' not available."
    );
}

#[test]
fn file_lists_name_each_file() {
    let def = Prompt {
        composition: vec![PromptPart::FileList {
            scopes: vec!["prompt".to_string()],
            prefix: "Files:".to_string(),
            hide_in_stdout: false,
        }],
    };
    let inputs = vec![PartInput::Files(vec!["a.rs".to_string(), "src/b.rs".to_string()])];
    let r = build(&def, &inputs, &BlockOutputs::new(), "x", None, false);
    assert_eq!(r.full_prompt, "Files:\n- ./a.rs\n- ./src/b.rs\n");
}

#[test]
fn scopes_merge_sorted_and_without_repeats() {
    let s1 = FileScope {
        description: Some("one".to_string()),
        includes: vec!["b".to_string(), "a".to_string()],
        exclude: vec!["x".to_string()],
    };
    let s2 = FileScope { description: None, includes: vec!["a".to_string(), "c".to_string()], exclude: vec![] };
    let m = merge_scopes(vec![s1, s2]);
    assert_eq!(m.includes, vec!["a".to_string(), "b".to_string(), "c".to_string()]);
    assert_eq!(m.exclude, vec!["x".to_string()]);
    assert!(m.description.is_none());
}

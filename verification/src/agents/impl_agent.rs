//! The implementing agent: works through the tasks of an implementation
//! plan, asking the model for file edits, formatting and validating after
//! each attempt, retrying with the error until the task passes or its
//! attempts run out. This module holds its prompts, its tools, how it reads
//! the model's answers and what it makes of command results.
use crate::agents::state::{ImplementationPlan, Task, TaskResult, TaskStatus, ValidationStep};
use crate::error::{Error, ErrorKind};
use crate::gemini_types::{
    Content,
    ContentPart,
    ContentView,
    FunctionCall,
    FunctionDeclaration,
    GenerateContentResponse,
    PartView,
    Role,
};
use crate::json::{JsonValue, JsonView, json_object, json_str_array, str_array};
use crate::text::{cat, cat3, decimal, join, views};
use vstd::prelude::*;

verus! {

// ---------------------------------------------------------------------------
// Tools and prompts
// ---------------------------------------------------------------------------

/// `{"description": d, "type": "STRING"}`.
pub open spec fn string_field(d: Seq<char>) -> JsonView {
    JsonView::Object(
        seq![("description"@, JsonView::Str(d)), ("type"@, JsonView::Str("STRING"@))],
    )
}

fn string_field_value(d: &str) -> (v: JsonValue)
    ensures
        v@ == string_field(d@),
{
    let mut e: Vec<(String, JsonValue)> = Vec::new();
    e.push((crate::text::owned("description"), JsonValue::String(crate::text::owned(d))));
    e.push((crate::text::owned("type"), JsonValue::String(crate::text::owned("STRING"))));
    let v = json_object(e);
    proof {
        assert(v@->Object_0 =~= string_field(d@)->Object_0);
    }
    v
}

/// An object schema with two string properties, given in key order, both
/// required in the order given.
pub open spec fn two_field_schema(
    k1: Seq<char>,
    d1: Seq<char>,
    k2: Seq<char>,
    d2: Seq<char>,
    required: Seq<Seq<char>>,
) -> JsonView {
    JsonView::Object(
        seq![
            ("properties"@, JsonView::Object(seq![(k1, string_field(d1)), (k2, string_field(d2))])),
            ("required"@, str_array(required)),
            ("type"@, JsonView::Str("OBJECT"@)),
        ],
    )
}

fn two_field_schema_value(k1: &str, d1: &str, k2: &str, d2: &str, r1: &str, r2: &str) -> (v:
    JsonValue)
    ensures
        v@ == two_field_schema(k1@, d1@, k2@, d2@, seq![r1@, r2@]),
{
    let mut props: Vec<(String, JsonValue)> = Vec::new();
    props.push((crate::text::owned(k1), string_field_value(d1)));
    props.push((crate::text::owned(k2), string_field_value(d2)));
    let ghost pv = props@.map_values(|e: (String, JsonValue)| (e.0@, e.1@));
    let p = json_object(props);
    let mut req: Vec<String> = Vec::new();
    req.push(crate::text::owned(r1));
    req.push(crate::text::owned(r2));
    let ghost rv = views(req@);
    let mut e: Vec<(String, JsonValue)> = Vec::new();
    e.push((crate::text::owned("properties"), p));
    e.push((crate::text::owned("required"), json_str_array(req)));
    e.push((crate::text::owned("type"), JsonValue::String(crate::text::owned("OBJECT"))));
    let v = json_object(e);
    proof {
        assert(pv =~= seq![(k1@, string_field(d1@)), (k2@, string_field(d2@))]);
        assert(rv =~= seq![r1@, r2@]);
        assert(v@->Object_0 =~= two_field_schema(k1@, d1@, k2@, d2@, seq![r1@, r2@])->Object_0);
    }
    v
}

/// The file tools: `edit_file` (overwrite a file) and `create_file`.
pub fn create_file_tools() -> (r: Vec<FunctionDeclaration>)
    ensures
        r@.len() == 2,
        r@[0].name@ == "edit_file"@,
        r@[0].description@ == "Edits an existing file with new content. Overwrites the entire file."@,
        r@[0].parameters@ == two_field_schema(
            "new_content"@,
            "The complete new content of the file."@,
            "path"@,
            "The relative path to the file to be edited."@,
            seq!["path"@, "new_content"@],
        ),
        r@[1].name@ == "create_file"@,
        r@[1].description@ == "Creates a new file with specified content."@,
        r@[1].parameters@ == two_field_schema(
            "content"@,
            "The initial content of the new file."@,
            "path"@,
            "The relative path for the new file."@,
            seq!["path"@, "content"@],
        ),
{
    let mut v: Vec<FunctionDeclaration> = Vec::new();
    v.push(
        FunctionDeclaration {
            name: crate::text::owned("edit_file"),
            description: crate::text::owned(
                "Edits an existing file with new content. Overwrites the entire file.",
            ),
            parameters: two_field_schema_value(
                "new_content",
                "The complete new content of the file.",
                "path",
                "The relative path to the file to be edited.",
                "path",
                "new_content",
            ),
        },
    );
    v.push(
        FunctionDeclaration {
            name: crate::text::owned("create_file"),
            description: crate::text::owned("Creates a new file with specified content."),
            parameters: two_field_schema_value(
                "content",
                "The initial content of the new file.",
                "path",
                "The relative path for the new file.",
                "path",
                "content",
            ),
        },
    );
    v
}

pub open spec fn system_prompt() -> Seq<char> {
    "You are an expert pair programmer. Implement the user's request by calling the provided file manipulation functions. Adhere strictly to the coding conventions provided. After your final edit, run the formatter if one is specified. Finally, explain the problem and your solution."@
}

pub fn create_system_prompt() -> (s: String)
    ensures
        s@ == system_prompt(),
{
    crate::text::owned(
        "You are an expert pair programmer. Implement the user's request by calling the provided file manipulation functions. Adhere strictly to the coding conventions provided. After your final edit, run the formatter if one is specified. Finally, explain the problem and your solution.",
    )
}

pub open spec fn status_marker(s: TaskStatus) -> Seq<char> {
    match s {
        TaskStatus::Success => "[✓]"@,
        TaskStatus::Pending => "[ ]"@,
        TaskStatus::Failed => "[✗]"@,
    }
}

/// The overview line of task `idx` when task `current` is the one worked on.
pub open spec fn overview_line(idx: int, current: int, t: Task) -> Seq<char> {
    (if idx == current {
        ">>"@
    } else {
        "  "@
    }) + " "@ + status_marker(t.status) + " "@ + decimal((idx + 1) as nat) + ". "@ + t.description@
}

pub open spec fn overview_lines(tasks: Seq<Task>, current: int) -> Seq<Seq<char>> {
    Seq::new(tasks.len(), |i: int| overview_line(i, current, tasks[i]))
}

pub open spec fn file_block(path: Seq<char>, content: Seq<char>) -> Seq<char> {
    "--- FILE: "@ + path + " ---\n```\n"@ + content + "\n```"@
}

pub open spec fn file_blocks(files: Seq<(String, String)>) -> Seq<Seq<char>> {
    files.map_values(|f: (String, String)| file_block(f.0@, f.1@))
}

pub open spec fn error_prompt(e: Option<String>) -> Seq<char> {
    match e {
        Some(x) => "\n**Correction Context:**\nThe last attempt failed validation. The error was:\n```\n"@
            + x@ + "\n```\nPlease analyze the error, fix the code, and explain the fix."@,
        None => Seq::empty(),
    }
}

/// The prompt for task `current` of the plan.
pub open spec fn user_prompt(
    current: int,
    plan: ImplementationPlan,
    files: Seq<(String, String)>,
    error: Option<String>,
) -> Seq<char> {
    "\n**Overall Plan:**\n"@ + join(overview_lines(plan.tasks@, current), "\n"@)
        + "\n\n**Current Task:**\n"@ + plan.tasks@[current].description@
        + "\n\n**Coding Conventions:**\n"@ + plan.original_prompt.coding_conventions@
        + "\n\n**Project File Context:**\n"@ + join(file_blocks(files), "\n\n"@) + "\n"@
        + error_prompt(error)
        + "\n\nImplement the current task by calling the `edit_file` or `create_file` functions.\n"@
}

fn overview_line_text(idx: usize, current: usize, t: &Task) -> (s: String)
    requires
        idx < usize::MAX,
    ensures
        s@ == overview_line(idx as int, current as int, *t),
{
    let mut s = if idx == current {
        crate::text::owned(">>")
    } else {
        crate::text::owned("  ")
    };
    s.append(" ");
    let marker = match t.status {
        TaskStatus::Success => "[✓]",
        TaskStatus::Pending => "[ ]",
        TaskStatus::Failed => "[✗]",
    };
    s.append(marker);
    s.append(" ");
    s.append(crate::text::u64_to_string((idx + 1) as u64).as_str());
    s.append(". ");
    s.append(t.description.as_str());
    s
}

pub fn create_user_prompt(
    current: usize,
    plan: &ImplementationPlan,
    file_contents: &Vec<(String, String)>,
    error_context: &Option<String>,
) -> (s: String)
    requires
        current < plan.tasks@.len(),
    ensures
        s@ == user_prompt(current as int, *plan, file_contents@, *error_context),
{
    let mut lines: Vec<String> = Vec::new();
    let mut i: usize = 0;
    while i < plan.tasks.len()
        invariant
            i <= plan.tasks@.len(),
            views(lines@) == overview_lines(plan.tasks@, current as int).take(i as int),
        decreases plan.tasks.len() - i,
    {
        let line = overview_line_text(i, current, &plan.tasks[i]);
        let ghost before = lines@;
        lines.push(line);
        proof {
            assert(views(lines@) =~= views(before).push(line@));
            assert(overview_lines(plan.tasks@, current as int).take(i + 1) =~= overview_lines(
                plan.tasks@,
                current as int,
            ).take(i as int).push(line@));
        }
        i += 1;
    }
    proof {
        assert(overview_lines(plan.tasks@, current as int).take(plan.tasks@.len() as int)
            =~= overview_lines(plan.tasks@, current as int));
    }
    let overview = crate::text::join_strings(&lines, "\n");
    let mut blocks: Vec<String> = Vec::new();
    let mut j: usize = 0;
    while j < file_contents.len()
        invariant
            j <= file_contents@.len(),
            views(blocks@) == file_blocks(file_contents@).take(j as int),
        decreases file_contents.len() - j,
    {
        let mut b = cat3("--- FILE: ", file_contents[j].0.as_str(), " ---\n```\n");
        b.append(file_contents[j].1.as_str());
        b.append("\n```");
        let ghost before = blocks@;
        blocks.push(b);
        proof {
            assert(views(blocks@) =~= views(before).push(b@));
            assert(file_blocks(file_contents@).take(j + 1) =~= file_blocks(file_contents@).take(
                j as int,
            ).push(b@));
        }
        j += 1;
    }
    proof {
        assert(file_blocks(file_contents@).take(file_contents@.len() as int) =~= file_blocks(
            file_contents@,
        ));
    }
    let context = crate::text::join_strings(&blocks, "\n\n");
    let mut s = cat3("\n**Overall Plan:**\n", overview.as_str(), "\n\n**Current Task:**\n");
    s.append(plan.tasks[current].description.as_str());
    s.append("\n\n**Coding Conventions:**\n");
    s.append(plan.original_prompt.coding_conventions.as_str());
    s.append("\n\n**Project File Context:**\n");
    s.append(context.as_str());
    s.append("\n");
    match error_context {
        Some(e) => {
            s.append(
                "\n**Correction Context:**\nThe last attempt failed validation. The error was:\n```\n",
            );
            s.append(e.as_str());
            s.append("\n```\nPlease analyze the error, fix the code, and explain the fix.");
        },
        None => {},
    }
    s.append(
        "\n\nImplement the current task by calling the `edit_file` or `create_file` functions.\n",
    );
    s
}

// ---------------------------------------------------------------------------
// Commands
// ---------------------------------------------------------------------------

/// What a command printed, as the agent reads it.
pub open spec fn command_output(stdout: Seq<char>, stderr: Seq<char>) -> Seq<char> {
    "STDOUT:\n"@ + stdout + "\nSTDERR:\n"@ + stderr
}

pub fn command_output_text(stdout: &str, stderr: &str) -> (s: String)
    ensures
        s@ == command_output(stdout@, stderr@),
{
    let mut s = cat3("STDOUT:\n", stdout, "\nSTDERR:\n");
    s.append(stderr);
    s
}

/// Whether a command can be run at all: an empty one is refused.
pub fn command_to_run(command: &str) -> (r: Result<(), Error>)
    ensures
        r is Ok <==> command@.len() > 0,
        r matches Err(e) ==> e@ == (ErrorKind::Config, "Empty command"@),
{
    let cs = crate::text::chars_of(command);
    if cs.len() == 0 {
        Err(Error::Config(crate::text::owned("Empty command")))
    } else {
        Ok(())
    }
}

pub open spec fn step_failed_text(
    command: Seq<char>,
    expected: i32,
    got: i32,
    output: Seq<char>,
) -> Seq<char> {
    "Validation failed for command `"@ + command + "`. Expected exit code "@
        + crate::text::signed_decimal(expected as int) + ", but got "@
        + crate::text::signed_decimal(got as int) + ".\nOutput:\n"@ + output
}

pub open spec fn step_not_run_text(command: Seq<char>, error: Seq<char>) -> Seq<char> {
    "Failed to execute validation command `"@ + command + "`: "@ + error
}

/// What one validation step's run means: nothing when it passed, else the
/// error text for the next attempt.
pub fn step_verdict(step: &ValidationStep, result: &Result<(i32, String), Error>) -> (r: Option<String>)
    ensures
        match result {
            Ok((code, out)) => if *code == step.expected_exit_code {
                r is None
            } else {
                r matches Some(m) && m@ == step_failed_text(
                    step.command@,
                    step.expected_exit_code,
                    *code,
                    out@,
                )
            },
            Err(e) => r matches Some(m) && m@ == step_not_run_text(
                step.command@,
                crate::error::error_message(*e),
            ),
        },
{
    match result {
        Ok((code, out)) => {
            if *code == step.expected_exit_code {
                None
            } else {
                let mut m = cat3("Validation failed for command `", step.command.as_str(), "`. Expected exit code ");
                m.append(crate::text::i32_to_string(step.expected_exit_code).as_str());
                m.append(", but got ");
                m.append(crate::text::i32_to_string(*code).as_str());
                m.append(".\nOutput:\n");
                m.append(out.as_str());
                Some(m)
            }
        },
        Err(e) => {
            let mut m = cat3("Failed to execute validation command `", step.command.as_str(), "`: ");
            m.append(e.message().as_str());
            Some(m)
        },
    }
}

pub open spec fn formatter_failed_text(command: Seq<char>, code: i32, output: Seq<char>) -> Seq<char> {
    "Formatter command `"@ + command + "` failed with exit code "@ + crate::text::signed_decimal(
        code as int,
    ) + ".\nOutput:\n"@ + output
}

pub open spec fn formatter_not_run_text(command: Seq<char>, error: Seq<char>) -> Seq<char> {
    "Failed to execute formatter command `"@ + command + "`: "@ + error
}

/// What a formatter run means: nothing when it exited with 0, else the
/// error text for the next attempt.
pub fn formatter_verdict(command: &str, result: &Result<(i32, String), Error>) -> (r: Option<String>)
    ensures
        match result {
            Ok((code, out)) => if *code == 0 {
                r is None
            } else {
                r matches Some(m) && m@ == formatter_failed_text(command@, *code, out@)
            },
            Err(e) => r matches Some(m) && m@ == formatter_not_run_text(
                command@,
                crate::error::error_message(*e),
            ),
        },
{
    match result {
        Ok((code, out)) => {
            if *code == 0 {
                None
            } else {
                let mut m = cat3("Formatter command `", command, "` failed with exit code ");
                m.append(crate::text::i32_to_string(*code).as_str());
                m.append(".\nOutput:\n");
                m.append(out.as_str());
                Some(m)
            }
        },
        Err(e) => {
            let mut m = cat3("Failed to execute formatter command `", command, "`: ");
            m.append(e.message().as_str());
            Some(m)
        },
    }
}

// ---------------------------------------------------------------------------
// Errors handed back to the model
// ---------------------------------------------------------------------------

/// The number of bytes of a character in UTF-8.
pub open spec fn utf8_width(c: char) -> nat {
    if (c as u32) < 0x80 {
        1
    } else if (c as u32) < 0x800 {
        2
    } else if (c as u32) < 0x10000 {
        3
    } else {
        4
    }
}

/// The number of bytes of a text in UTF-8 (what `str::len` gives).
pub open spec fn utf8_len(s: Seq<char>) -> nat
    decreases s.len(),
{
    if s.len() == 0 {
        0
    } else {
        utf8_len(s.drop_last()) + utf8_width(s.last())
    }
}

/// Errors longer than this many bytes are summarized before they are shown
/// to the model again.
pub open spec fn summarization_threshold() -> nat {
    1000
}

/// Whether an error text is long enough to be summarized.
pub fn needs_summary(e: &str) -> (b: bool)
    ensures
        b == (utf8_len(e@) > summarization_threshold()),
{
    let cs = crate::text::chars_of(e);
    let mut n: usize = 0;
    let mut i: usize = 0;
    while i < cs.len()
        invariant
            i <= cs@.len(),
            cs@ == e@,
            n == utf8_len(cs@.take(i as int)),
            n <= 1000,
        decreases cs.len() - i,
    {
        proof {
            assert(cs@.take(i + 1).drop_last() =~= cs@.take(i as int));
            assert(cs@.take(i + 1).last() == cs@[i as int]);
        }
        let c = cs[i] as u32;
        let w: usize = if c < 0x80 {
            1
        } else if c < 0x800 {
            2
        } else if c < 0x10000 {
            3
        } else {
            4
        };
        n = n + w;
        if n > 1000 {
            proof {
                lemma_utf8_len_prefix(e@, i + 1);
                assert(cs@ == e@);
            }
            return true;
        }
        i += 1;
    }
    proof {
        assert(cs@.take(cs@.len() as int) =~= cs@);
    }
    false
}

proof fn lemma_utf8_len_prefix(s: Seq<char>, k: int)
    requires
        0 <= k <= s.len(),
    ensures
        utf8_len(s.take(k)) <= utf8_len(s),
    decreases s.len() - k,
{
    if k < s.len() {
        lemma_utf8_len_prefix(s, k + 1);
        assert(s.take(k + 1).drop_last() =~= s.take(k));
    } else {
        assert(s.take(k) =~= s);
    }
}

/// The error context of the first pending task when the project failed
/// validation before any task.
pub open spec fn initial_failure_text(e: Seq<char>) -> Seq<char> {
    "The project failed initial validation before starting the first task. Please fix this issue first.\nError:\n"@
        + e
}

pub fn initial_failure_context(e: &str) -> (s: String)
    ensures
        s@ == initial_failure_text(e@),
{
    cat(
        "The project failed initial validation before starting the first task. Please fix this issue first.\nError:\n",
        e,
    )
}

/// The prompt asking for a summary of a long error.
pub open spec fn summary_prompt(e: Seq<char>) -> Seq<char> {
    "Summarize this compiler/tool error into its most critical message, keeping it concise and focusing on the root cause: "@
        + e
}

pub fn summarize_request(e: &str) -> (c: Vec<Content>)
    ensures
        crate::gemini_types::contents_view(c@) == seq![
            crate::orchestrator::text_content(Role::User, summary_prompt(e@)),
        ],
{
    let p = cat(
        "Summarize this compiler/tool error into its most critical message, keeping it concise and focusing on the root cause: ",
        e,
    );
    let mut v: Vec<Content> = Vec::new();
    v.push(Content::single(Role::User, ContentPart::new_text(p)));
    proof {
        assert(crate::gemini_types::contents_view(v@) =~= seq![
            crate::orchestrator::text_content(Role::User, summary_prompt(e@)),
        ]);
    }
    v
}

/// The text of the first part of the last candidate, when it has one.
pub open spec fn summary_text(r: GenerateContentResponse) -> Result<Seq<char>, (ErrorKind, Seq<char>)> {
    match crate::gemini_types::last_candidate(r) {
        None => Err((ErrorKind::Config, "No candidates in summarization response"@)),
        Some(c) => if c.parts.len() > 0 && c.parts[0].text is Some {
            Ok(c.parts[0].text->0)
        } else {
            Err((ErrorKind::Config, "Expected a text part in the summarization response"@))
        },
    }
}

pub fn summary_from_response(r: &GenerateContentResponse) -> (s: Result<String, Error>)
    ensures
        match s {
            Ok(t) => summary_text(*r) == Ok::<Seq<char>, (ErrorKind, Seq<char>)>(t@),
            Err(e) => summary_text(*r) == Err::<Seq<char>, (ErrorKind, Seq<char>)>(e@),
        },
{
    match r.last_candidate() {
        None => Err(Error::Config(crate::text::owned("No candidates in summarization response"))),
        Some(c) => {
            if c.parts.len() > 0 {
                match &c.parts[0].text {
                    Some(t) => {
                        return Ok(t.clone());
                    },
                    None => {},
                }
            }
            Err(Error::Config(crate::text::owned("Expected a text part in the summarization response")))
        },
    }
}

// ---------------------------------------------------------------------------
// Reading the model's answer
// ---------------------------------------------------------------------------

/// Whether a function name is one of the file tools.
pub open spec fn is_file_tool(name: Seq<char>) -> bool {
    name == "edit_file"@ || name == "create_file"@
}

/// The file-tool calls among parts, in order.
pub open spec fn file_calls(parts: Seq<PartView>) -> Seq<(Seq<char>, JsonView)>
    decreases parts.len(),
{
    if parts.len() == 0 {
        Seq::empty()
    } else {
        let prev = file_calls(parts.drop_last());
        match parts.last().function_call {
            Some(c) => if is_file_tool(c.0) {
                prev.push(c)
            } else {
                prev
            },
            None => prev,
        }
    }
}

/// The text of the last part that has one (empty when none has).
pub open spec fn last_text(parts: Seq<PartView>) -> Seq<char>
    decreases parts.len(),
{
    if parts.len() == 0 {
        Seq::empty()
    } else {
        match parts.last().text {
            Some(t) => t,
            None => last_text(parts.drop_last()),
        }
    }
}

/// The model's answer read: its explanation, and its file-tool calls to
/// apply in order (other calls are ignored).
pub open spec fn answer_spec(r: GenerateContentResponse) -> Result<
    (Seq<char>, Seq<(Seq<char>, JsonView)>),
    (ErrorKind, Seq<char>),
> {
    match crate::gemini_types::first_candidate(r) {
        None => Err((ErrorKind::Config, "No candidates in response"@)),
        Some(c) => Ok((last_text(c.parts), file_calls(c.parts))),
    }
}

pub fn process_response(r: &GenerateContentResponse) -> (out: Result<(String, Vec<FunctionCall>), Error>)
    ensures
        match out {
            Ok((tips, calls)) => answer_spec(*r) == Ok::<_, (ErrorKind, Seq<char>)>(
                (tips@, crate::runner::calls_view(calls@)),
            ),
            Err(e) => answer_spec(*r) == Err::<(Seq<char>, Seq<(Seq<char>, JsonView)>), _>(e@),
        },
{
    let c = match r.first_candidate() {
        Some(c) => c,
        None => {
            return Err(Error::Config(crate::text::owned("No candidates in response")));
        },
    };
    let ghost parts = c@.parts;
    let mut tips = String::new();
    let mut calls: Vec<FunctionCall> = Vec::new();
    let mut i: usize = 0;
    while i < c.parts.len()
        invariant
            i <= c.parts@.len(),
            parts == c@.parts,
            parts == c.parts@.map_values(|p: ContentPart| p@),
            tips@ == last_text(parts.take(i as int)),
            crate::runner::calls_view(calls@) == file_calls(parts.take(i as int)),
        decreases c.parts.len() - i,
    {
        proof {
            assert(parts.take(i + 1).drop_last() =~= parts.take(i as int));
            assert(parts.take(i + 1).last() == c.parts@[i as int]@);
        }
        let part = &c.parts[i];
        match &part.function_call {
            Some(fc) => {
                if crate::text::str_eq(fc.name.as_str(), "edit_file") || crate::text::str_eq(
                    fc.name.as_str(),
                    "create_file",
                ) {
                    let ghost before = calls@;
                    calls.push(fc.copy());
                    proof {
                        assert(crate::runner::calls_view(calls@) =~= crate::runner::calls_view(
                            before,
                        ).push((fc.name@, fc.arguments@)));
                    }
                }
            },
            None => {},
        }
        match &part.text {
            Some(t) => {
                tips = t.clone();
            },
            None => {},
        }
        i += 1;
    }
    proof {
        assert(parts.take(parts.len() as int) =~= parts);
    }
    Ok((tips, calls))
}

/// The error when a task's attempts run out.
pub fn task_failed(description: &str, max_retries: u32) -> (e: Error)
    ensures
        e@ == (
            ErrorKind::Config,
            "Task '"@ + description@ + "' failed after "@ + decimal(max_retries as nat)
                + " attempts."@,
        ),
{
    let mut m = cat3("Task '", description, "' failed after ");
    m.append(crate::text::u64_to_string(max_retries as u64).as_str());
    m.append(" attempts.");
    Error::Config(m)
}

/// The commit message of a completed task.
pub fn task_commit_message(description: &str) -> (m: String)
    ensures
        m@ == "AI: "@ + description@,
{
    cat("AI: ", description)
}

// ---------------------------------------------------------------------------
// Working through a plan: a state machine
// ---------------------------------------------------------------------------

/// The implementing agent's settings.
#[derive(Debug, Clone, Copy)]
pub struct ImplAgent {
    /// The number of attempts per task.
    pub max_retries: u32,
    /// Whether to commit the files of each completed task.
    pub auto_commit: bool,
}

impl ImplAgent {
    pub fn new(max_retries: u32, auto_commit: bool) -> (a: ImplAgent)
        ensures
            a.max_retries == max_retries,
            a.auto_commit == auto_commit,
    {
        ImplAgent { max_retries, auto_commit }
    }
}

/// What a run through the plan waits for.
#[derive(Debug, Clone, Copy, PartialEq, Eq, Structural)]
pub enum ImplPhase {
    Start,
    /// The plan's own validation commands run before any task.
    InitialValidation,
    AwaitFiles,
    AwaitReply,
    AwaitEdits,
    AwaitFormatter,
    /// The task's validation steps run.
    TaskValidation,
    AwaitSummary,
    AwaitCommit,
    AwaitSave,
    Done,
}

/// The state of a run through the plan.
#[derive(Debug)]
pub struct ImplRun {
    pub phase: ImplPhase,
    pub plan: ImplementationPlan,
    /// The task worked on.
    pub task: usize,
    /// The attempts made on it so far.
    pub attempt: u32,
    /// The validation step running.
    pub step: usize,
    /// The error of the validation before any task, until the first pending
    /// task takes it.
    pub initial_error: Option<String>,
    pub first_pending: bool,
    /// The error shown to the model on the next attempt.
    pub last_error: Option<String>,
    /// The error being summarized.
    pub pending_error: String,
    /// The model's explanation and the files it changed, this attempt.
    pub tips: String,
    pub modified: Vec<String>,
    /// Whether the plan is being saved after the task failed.
    pub failed: bool,
}

/// The next piece of outside work.
#[derive(Debug)]
pub enum ImplAction {
    /// Run a command (`sh -c`) and report its exit code and output.
    RunCommand { command: String },
    /// Read the files in scope, skipping those that cannot be read.
    ReadFiles { scope: crate::agents::state::FileScope },
    AskModel { contents: Vec<Content>, tools: Vec<FunctionDeclaration> },
    /// Apply these `edit_file`/`create_file` calls in order and report the
    /// paths written.
    ApplyEdits { calls: Vec<FunctionCall> },
    /// Ask the model to summarize an error.
    Summarize { contents: Vec<Content> },
    Commit { paths: Vec<String>, message: String },
    /// Write the plan back to its file.
    SavePlan,
    Finish(Result<(), Error>),
}

/// The outcome of the last piece of outside work.
#[derive(Debug)]
pub enum ImplEvent {
    Begin,
    CommandDone(Result<(i32, String), Error>),
    FilesRead(Result<Vec<(String, String)>, Error>),
    Reply(Result<GenerateContentResponse, Error>),
    EditsApplied(Result<Vec<String>, Error>),
    Summary(Result<GenerateContentResponse, Error>),
    Committed(Result<(), Error>),
    Saved(Result<(), Error>),
}

pub open spec fn impl_event_fits(phase: ImplPhase, ev: ImplEvent) -> bool {
    match phase {
        ImplPhase::Start => ev is Begin,
        ImplPhase::InitialValidation => ev is CommandDone,
        ImplPhase::AwaitFiles => ev is FilesRead,
        ImplPhase::AwaitReply => ev is Reply,
        ImplPhase::AwaitEdits => ev is EditsApplied,
        ImplPhase::AwaitFormatter => ev is CommandDone,
        ImplPhase::TaskValidation => ev is CommandDone,
        ImplPhase::AwaitSummary => ev is Summary,
        ImplPhase::AwaitCommit => ev is Committed,
        ImplPhase::AwaitSave => ev is Saved,
        ImplPhase::Done => false,
    }
}

/// The state's consistency.
pub open spec fn impl_wf(agent: ImplAgent, st: ImplRun) -> bool {
    let n = st.plan.tasks@.len();
    &&& st.attempt <= agent.max_retries
    &&& st.phase == ImplPhase::InitialValidation ==> st.step
        < st.plan.original_prompt.validation_commands@.len()
    &&& (st.phase != ImplPhase::Start && st.phase != ImplPhase::Done && st.phase
        != ImplPhase::InitialValidation) ==> st.task < n
    &&& st.phase == ImplPhase::TaskValidation ==> st.step < st.plan.tasks@[st.task as int].validation_steps@.len()
    &&& st.phase == ImplPhase::AwaitFormatter ==> st.plan.original_prompt.formatter_command is Some
    &&& (st.phase == ImplPhase::AwaitFiles || st.phase == ImplPhase::AwaitReply || st.phase
        == ImplPhase::AwaitEdits) ==> st.attempt >= 1
}

/// The error text of a command that cannot be run because it is empty.
pub open spec fn empty_command_error() -> Seq<char> {
    "Configuration error: Empty command"@
}

fn empty_command_text() -> (s: String)
    ensures
        s@ == empty_command_error(),
{
    crate::text::owned("Configuration error: Empty command")
}

/// The state before a run through the plan.
pub fn impl_start(plan: ImplementationPlan) -> (s: ImplRun)
    ensures
        s.phase == ImplPhase::Start,
        s.plan == plan,
        s.attempt == 0,
        s.first_pending,
        s.initial_error is None,
        s.last_error is None,
        done_so_far(s),
{
    ImplRun {
        phase: ImplPhase::Start,
        plan,
        task: 0,
        attempt: 0,
        step: 0,
        initial_error: None,
        first_pending: true,
        last_error: None,
        pending_error: String::new(),
        tips: String::new(),
        modified: Vec::new(),
        failed: false,
    }
}

/// Every task before index `n` is done.
pub open spec fn done_below(tasks: Seq<Task>, n: int) -> bool {
    forall|j: int| 0 <= j < n && j < tasks.len() ==> #[trigger] tasks[j].status == TaskStatus::Success
}

/// What a run keeps of the plan: while it works on a task, every task
/// before it is done; once a task has passed (while its commit or the
/// plan's save is pending), that task is done too.
pub open spec fn done_so_far(st: ImplRun) -> bool {
    &&& (st.phase != ImplPhase::Start && st.phase != ImplPhase::InitialValidation && st.phase
        != ImplPhase::Done) ==> done_below(st.plan.tasks@, st.task as int)
    &&& (st.phase == ImplPhase::AwaitCommit || (st.phase == ImplPhase::AwaitSave && !st.failed))
        ==> done_below(st.plan.tasks@, st.task + 1)
}

/// The first task at or after `i` that is not done yet.
pub open spec fn next_pending(tasks: Seq<Task>, i: int) -> int
    decreases tasks.len() - i,
{
    if i >= tasks.len() {
        tasks.len() as int
    } else if tasks[i].status != TaskStatus::Success {
        i
    } else {
        next_pending(tasks, i + 1)
    }
}

/// `new` is `old` with task `i` given this status, and otherwise unchanged.
pub open spec fn marked(old: Seq<Task>, new: Seq<Task>, i: int, status: TaskStatus) -> bool {
    &&& new.len() == old.len()
    &&& forall|j: int| 0 <= j < old.len() && j != i ==> #[trigger] new[j] == old[j]
    &&& new[i].status == status
    &&& new[i].description == old[i].description
    &&& new[i].validation_steps == old[i].validation_steps
}

fn set_status(tasks: &mut Vec<Task>, i: usize, status: TaskStatus)
    requires
        i < old(tasks)@.len(),
    ensures
        marked(old(tasks)@, final(tasks)@, i as int, status),
        final(tasks)@[i as int].attempts == old(tasks)@[i as int].attempts,
        final(tasks)@[i as int].result == old(tasks)@[i as int].result,
{
    let t = tasks.remove(i);
    let Task { description, file_scoping, validation_steps, status: _, attempts, result } = t;
    tasks.insert(i, Task { description, file_scoping, validation_steps, status, attempts, result });
}

/// The error that a validation step's run gives, or nothing when it passed.
pub open spec fn step_error(step: ValidationStep, result: Result<(i32, String), Error>) -> Option<
    Seq<char>,
> {
    match result {
        Ok((code, out)) => if code == step.expected_exit_code {
            None
        } else {
            Some(step_failed_text(step.command@, step.expected_exit_code, code, out@))
        },
        Err(e) => Some(step_not_run_text(step.command@, crate::error::error_message(e))),
    }
}

/// The error that a formatter run gives, or nothing when it exited with 0.
pub open spec fn formatter_error(command: Seq<char>, result: Result<(i32, String), Error>) -> Option<
    Seq<char>,
> {
    match result {
        Ok((code, out)) => if code == 0 {
            None
        } else {
            Some(formatter_failed_text(command, code, out@))
        },
        Err(e) => Some(formatter_not_run_text(command, crate::error::error_message(e))),
    }
}

/// The next attempt on the same task, with `e` as its error; when the
/// attempts have run out, the task is marked failed and the plan saved.
pub open spec fn retried(agent: ImplAgent, st: ImplRun, e: Seq<char>, r0: ImplRun, r1: ImplAction) -> bool {
    &&& r0.task == st.task
    &&& r0.last_error matches Some(x) && x@ == e
    &&& st.attempt < agent.max_retries ==> (r0.phase == ImplPhase::AwaitFiles && r0.attempt
        == st.attempt + 1 && r0.plan == st.plan && r1 is ReadFiles)
    &&& st.attempt >= agent.max_retries ==> (r0.phase == ImplPhase::AwaitSave && r0.failed
        && marked(st.plan.tasks@, r0.plan.tasks@, st.task as int, TaskStatus::Failed)
        && r1 is SavePlan)
}

/// What a failed attempt with error `e` leads to: a long error is
/// summarized first; a short one starts the next attempt (or fails the task).
pub open spec fn failure_handled(
    agent: ImplAgent,
    st: ImplRun,
    e: Seq<char>,
    r0: ImplRun,
    r1: ImplAction,
) -> bool {
    &&& r0.task == st.task
    &&& utf8_len(e) > summarization_threshold() ==> (r0.phase == ImplPhase::AwaitSummary
        && r0.pending_error@ == e && r0.attempt == st.attempt && r0.plan == st.plan
        && r1 is Summarize)
    &&& utf8_len(e) <= summarization_threshold() ==> retried(agent, st, e, r0, r1)
}

/// The run moves on to the first task at or after `i` that is not done, and
/// starts its first attempt; with none left it is done.
pub open spec fn advanced(agent: ImplAgent, tasks: Seq<Task>, i: int, r0: ImplRun, r1: ImplAction) -> bool {
    let k = next_pending(tasks, i);
    &&& k >= tasks.len() ==> (r0.phase == ImplPhase::Done && r1 matches ImplAction::Finish(Ok(())))
    &&& k < tasks.len() ==> {
        &&& r0.task == k
        &&& agent.max_retries > 0 ==> (r0.phase == ImplPhase::AwaitFiles && r0.attempt == 1
            && r1 is ReadFiles)
        &&& agent.max_retries == 0 ==> (r0.phase == ImplPhase::AwaitSave && r0.failed
            && r1 is SavePlan)
    }
}

/// The next error after a summary request: the summary's text, or the error
/// itself when there is none.
pub open spec fn summary_choice(pending: Seq<char>, res: Result<GenerateContentResponse, Error>) -> Seq<char> {
    match res {
        Ok(resp) => match summary_text(resp) {
            Ok(t) => t,
            Err(_) => pending,
        },
        Err(_) => pending,
    }
}

/// The plan's tasks keep their number, and all but tasks `a` and `b` are
/// unchanged.
pub open spec fn plan_framed(old: Seq<Task>, new: Seq<Task>, a: int, b: int) -> bool {
    &&& new.len() == old.len()
    &&& forall|j: int| 0 <= j < old.len() && j != a && j != b ==> #[trigger] new[j] == old[j]
}

/// The validation of the current task going on from step `k`, with these
/// files changed by the attempt: the step runs when its command is not
/// empty (an empty one fails the attempt); after the last step the task has
/// passed.
pub open spec fn steps_resumed(
    agent: ImplAgent,
    st: ImplRun,
    k: int,
    modified: Seq<Seq<char>>,
    r0: ImplRun,
    r1: ImplAction,
) -> bool {
    let steps = st.plan.tasks@[st.task as int].validation_steps@;
    &&& (k < steps.len() && steps[k].command@.len() > 0) ==> (r0.phase == ImplPhase::TaskValidation
        && r0.step == k && r0.task == st.task && r0.attempt == st.attempt && r0.plan == st.plan
        && (r1 matches ImplAction::RunCommand { command } && command@ == steps[k].command@))
    &&& (k < steps.len() && steps[k].command@.len() == 0) ==> failure_handled(
        agent,
        st,
        step_not_run_text(steps[k].command@, empty_command_error()),
        r0,
        r1,
    )
    &&& k >= steps.len() ==> (r0.task == st.task && completed(
        st.plan.tasks@[st.task as int],
        r0.plan.tasks@[st.task as int],
        st.attempt,
        st.tips@,
        modified,
    ))
}

/// Starts the next attempt on the current task; when its attempts have run
/// out, the task is marked failed and the plan saved.
fn start_attempt(agent: &ImplAgent, st: ImplRun) -> (r: (ImplRun, ImplAction))
    requires
        st.task < st.plan.tasks@.len(),
        st.attempt <= agent.max_retries,
    ensures
        r.0.modified == st.modified,
        impl_wf(*agent, r.0),
        r.0.task == st.task,
        plan_framed(st.plan.tasks@, r.0.plan.tasks@, st.task as int, st.task as int),
        r.0.last_error == st.last_error,
        r.0.first_pending == st.first_pending,
        r.0.plan.original_prompt == st.plan.original_prompt,
        done_below(st.plan.tasks@, st.task as int) ==> done_so_far(r.0),
        st.attempt < agent.max_retries ==> {
            &&& r.0.phase == ImplPhase::AwaitFiles
            &&& r.0.attempt == st.attempt + 1
            &&& r.0.plan == st.plan
            &&& r.1 matches ImplAction::ReadFiles { scope } && views(scope.includes@) == views(
                st.plan.original_prompt.file_scoping.includes@,
            ) && views(scope.exclude@) == views(st.plan.original_prompt.file_scoping.exclude@)
        },
        st.attempt == agent.max_retries ==> {
            &&& r.0.phase == ImplPhase::AwaitSave
            &&& r.0.failed
            &&& marked(st.plan.tasks@, r.0.plan.tasks@, st.task as int, TaskStatus::Failed)
            &&& r.1 is SavePlan
        },
{
    let mut st = st;
    if st.attempt < agent.max_retries {
        st.attempt = st.attempt + 1;
        st.phase = ImplPhase::AwaitFiles;
        let scope = st.plan.original_prompt.file_scoping.copy();
        (st, ImplAction::ReadFiles { scope })
    } else {
        set_status(&mut st.plan.tasks, st.task, TaskStatus::Failed);
        st.failed = true;
        st.phase = ImplPhase::AwaitSave;
        (st, ImplAction::SavePlan)
    }
}

/// Tasks already done are skipped: the next task worked on after `i` is
/// the first not done, every task between is done, and when every task
/// from `i` on is done there is none.
pub proof fn law_done_tasks_skipped(tasks: Seq<Task>, i: int)
    requires
        0 <= i <= tasks.len(),
    ensures
        i <= next_pending(tasks, i) <= tasks.len(),
        forall|j: int| i <= j < next_pending(tasks, i) ==> #[trigger] tasks[j].status == TaskStatus::Success,
        next_pending(tasks, i) < tasks.len() ==> tasks[next_pending(tasks, i)].status != TaskStatus::Success,
    decreases tasks.len() - i,
{
    if i < tasks.len() && tasks[i].status == TaskStatus::Success {
        law_done_tasks_skipped(tasks, i + 1);
    }
}

/// Moves to the first task at or after `i` that is not done, and starts its
/// first attempt (with the error of the validation before any task, for the
/// first such task); with none left the run is done.
fn advance_task(agent: &ImplAgent, st: ImplRun, i: usize) -> (r: (ImplRun, ImplAction))
    requires
        i <= st.plan.tasks@.len(),
    ensures
        r.0.modified == st.modified,
        impl_wf(*agent, r.0),
        r.0.plan.original_prompt == st.plan.original_prompt,
        advanced(*agent, st.plan.tasks@, i as int, r.0, r.1),
        plan_framed(st.plan.tasks@, r.0.plan.tasks@, r.0.task as int, r.0.task as int),
        done_below(st.plan.tasks@, i as int) ==> done_so_far(r.0),
        (done_below(st.plan.tasks@, i as int) && r.1 matches ImplAction::Finish(Ok(()))) ==> done_below(
            r.0.plan.tasks@,
            r.0.plan.tasks@.len() as int,
        ),
        next_pending(st.plan.tasks@, i as int) >= st.plan.tasks@.len() ==> (r.0.phase == ImplPhase::Done
            && r.0.plan == st.plan && r.1 matches ImplAction::Finish(Ok(()))),
        next_pending(st.plan.tasks@, i as int) < st.plan.tasks@.len() ==> {
            let k = next_pending(st.plan.tasks@, i as int);
            &&& r.0.task == k
            &&& st.plan.tasks@[k].status != TaskStatus::Success
            &&& !r.0.first_pending
            &&& (st.first_pending && st.initial_error is Some) ==> (r.0.last_error matches Some(x)
                && x@ == initial_failure_text(st.initial_error->0@))
            &&& !(st.first_pending && st.initial_error is Some) ==> r.0.last_error is None
            &&& agent.max_retries > 0 ==> (r.0.phase == ImplPhase::AwaitFiles && r.0.attempt == 1
                && r.0.plan == st.plan && r.1 is ReadFiles)
            &&& agent.max_retries == 0 ==> (r.0.phase == ImplPhase::AwaitSave && r.0.failed
                && marked(st.plan.tasks@, r.0.plan.tasks@, k, TaskStatus::Failed)
                && r.1 is SavePlan)
        },
{
    let mut st = st;
    let mut j = i;
    while j < st.plan.tasks.len() && st.plan.tasks[j].status == TaskStatus::Success
        invariant
            i <= j <= st.plan.tasks@.len(),
            next_pending(st.plan.tasks@, i as int) == next_pending(st.plan.tasks@, j as int),
            forall|m: int| i <= m < j ==> #[trigger] st.plan.tasks@[m].status == TaskStatus::Success,
        decreases st.plan.tasks@.len() - j,
    {
        j += 1;
    }
    let ghost tasks0 = st.plan.tasks@;
    assert(done_below(tasks0, i as int) ==> done_below(tasks0, j as int));
    if j >= st.plan.tasks.len() {
        st.phase = ImplPhase::Done;
        st.attempt = 0;
        return (st, ImplAction::Finish(Ok(())));
    }
    st.task = j;
    st.attempt = 0;
    if st.first_pending {
        st.last_error = match &st.initial_error {
            Some(e) => Some(initial_failure_context(e.as_str())),
            None => None,
        };
        st.initial_error = None;
    } else {
        st.last_error = None;
    }
    st.first_pending = false;
    start_attempt(agent, st)
}

/// The validation steps that a phase runs: the plan's own before any task,
/// the task's after an attempt.
pub open spec fn steps_of(st: ImplRun, initial: bool) -> Seq<ValidationStep> {
    if initial {
        st.plan.original_prompt.validation_commands@
    } else {
        st.plan.tasks@[st.task as int].validation_steps@
    }
}

/// The task as it stands after a passed attempt.
pub open spec fn completed(old: Task, new: Task, attempts: u32, tips: Seq<char>, modified: Seq<Seq<char>>) -> bool {
    &&& new.status == TaskStatus::Success
    &&& new.attempts == attempts
    &&& new.description == old.description
    &&& new.validation_steps == old.validation_steps
    &&& new.result matches Some(res) && res.success && res.agent_tips@ == tips && views(
        res.modified_files@,
    ) == modified
}

/// Records the passed attempt in the plan, then commits its files when the
/// agent commits and there are any, else saves the plan.
fn task_passed(agent: &ImplAgent, st: ImplRun) -> (r: (ImplRun, ImplAction))
    requires
        st.task < st.plan.tasks@.len(),
        st.attempt <= agent.max_retries,
    ensures
        r.0.modified == st.modified,
        impl_wf(*agent, r.0),
        r.0.task == st.task,
        !r.0.failed,
        r.0.plan.original_prompt == st.plan.original_prompt,
        r.0.plan.tasks@.len() == st.plan.tasks@.len(),
        done_below(st.plan.tasks@, st.task as int) ==> done_so_far(r.0),
        plan_framed(st.plan.tasks@, r.0.plan.tasks@, st.task as int, st.task as int),
        forall|j: int|
            0 <= j < st.plan.tasks@.len() && j != st.task ==> #[trigger] r.0.plan.tasks@[j]
                == st.plan.tasks@[j],
        completed(
            st.plan.tasks@[st.task as int],
            r.0.plan.tasks@[st.task as int],
            st.attempt,
            st.tips@,
            views(st.modified@),
        ),
        (agent.auto_commit && st.modified@.len() > 0) ==> (r.0.phase == ImplPhase::AwaitCommit && (
        r.1 matches ImplAction::Commit { paths, message } && views(paths@) == views(st.modified@)
            && message@ == "AI: "@ + st.plan.tasks@[st.task as int].description@)),
        !(agent.auto_commit && st.modified@.len() > 0) ==> (r.0.phase == ImplPhase::AwaitSave
            && r.1 is SavePlan),
{
    let mut st = st;
    let i = st.task;
    let t = st.plan.tasks.remove(i);
    let Task { description, file_scoping, validation_steps, status: _, attempts: _, result: _ } = t;
    let message = task_commit_message(description.as_str());
    let files = crate::text::copy_strings(&st.modified);
    let result = TaskResult { success: true, agent_tips: st.tips.clone(), modified_files: files };
    st.plan.tasks.insert(
        i,
        Task {
            description,
            file_scoping,
            validation_steps,
            status: TaskStatus::Success,
            attempts: st.attempt,
            result: Some(result),
        },
    );
    st.failed = false;
    if agent.auto_commit && st.modified.len() > 0 {
        let paths = crate::text::copy_strings(&st.modified);
        st.phase = ImplPhase::AwaitCommit;
        (st, ImplAction::Commit { paths, message })
    } else {
        st.phase = ImplPhase::AwaitSave;
        (st, ImplAction::SavePlan)
    }
}

/// A failed attempt: a long error is summarized first; otherwise the next
/// attempt starts with it.
fn attempt_failed(agent: &ImplAgent, st: ImplRun, e: String) -> (r: (ImplRun, ImplAction))
    requires
        st.task < st.plan.tasks@.len(),
        st.attempt <= agent.max_retries,
    ensures
        r.0.modified == st.modified,
        impl_wf(*agent, r.0),
        r.0.task == st.task,
        r.0.plan.original_prompt == st.plan.original_prompt,
        failure_handled(*agent, st, e@, r.0, r.1),
        plan_framed(st.plan.tasks@, r.0.plan.tasks@, st.task as int, st.task as int),
        done_below(st.plan.tasks@, st.task as int) ==> done_so_far(r.0),
        !(r.1 is Finish),
        utf8_len(e@) > summarization_threshold() ==> (r.0.phase == ImplPhase::AwaitSummary
            && r.0.pending_error@ == e@ && r.0.plan == st.plan && r.0.attempt == st.attempt && (
        r.1 matches ImplAction::Summarize { contents } && crate::gemini_types::contents_view(
            contents@,
        ) == seq![crate::orchestrator::text_content(Role::User, summary_prompt(e@))])),
        utf8_len(e@) <= summarization_threshold() ==> (r.0.last_error matches Some(x) && x@ == e@),
        (utf8_len(e@) <= summarization_threshold() && st.attempt < agent.max_retries) ==> (r.0.phase
            == ImplPhase::AwaitFiles && r.0.attempt == st.attempt + 1 && r.0.plan == st.plan),
        (utf8_len(e@) <= summarization_threshold() && st.attempt == agent.max_retries) ==> (
        r.0.phase == ImplPhase::AwaitSave && r.0.failed && marked(
            st.plan.tasks@,
            r.0.plan.tasks@,
            st.task as int,
            TaskStatus::Failed,
        )),
{
    let mut st = st;
    if needs_summary(e.as_str()) {
        let contents = summarize_request(e.as_str());
        st.pending_error = e;
        st.phase = ImplPhase::AwaitSummary;
        (st, ImplAction::Summarize { contents })
    } else {
        st.last_error = Some(e);
        start_attempt(agent, st)
    }
}

/// Runs the validation steps from step `k`: an empty command fails without
/// running; after the last step validation has passed.
fn run_steps_from(agent: &ImplAgent, st: ImplRun, k: usize, initial: bool) -> (r: (ImplRun, ImplAction))
    requires
        st.phase != ImplPhase::Done,
        !initial ==> st.task < st.plan.tasks@.len(),
        st.attempt <= agent.max_retries,
        k <= steps_of(st, initial).len(),
    ensures
        r.0.modified == st.modified,
        impl_wf(*agent, r.0),
        r.0.plan.original_prompt == st.plan.original_prompt,
        (k < steps_of(st, initial).len() && steps_of(st, initial)[k as int].command@.len() > 0) ==> (
        r.0.phase == (if initial {
            ImplPhase::InitialValidation
        } else {
            ImplPhase::TaskValidation
        }) && r.0.step == k && r.0.plan == st.plan && r.0.attempt == st.attempt && (
        r.1 matches ImplAction::RunCommand { command } && command@ == steps_of(
            st,
            initial,
        )[k as int].command@)),
        !initial ==> steps_resumed(*agent, st, k as int, views(st.modified@), r.0, r.1),
        !initial ==> plan_framed(st.plan.tasks@, r.0.plan.tasks@, st.task as int, st.task as int),
        (initial || done_below(st.plan.tasks@, st.task as int)) ==> done_so_far(r.0),
        r.1 matches ImplAction::Finish(Ok(())) ==> (initial && done_below(
            r.0.plan.tasks@,
            r.0.plan.tasks@.len() as int,
        )),
        initial ==> plan_framed(st.plan.tasks@, r.0.plan.tasks@, r.0.task as int, r.0.task as int),
        (initial && k >= steps_of(st, initial).len()) ==> advanced(
            *agent,
            st.plan.tasks@,
            0,
            r.0,
            r.1,
        ),
        (!initial && k >= steps_of(st, initial).len()) ==> completed(
            st.plan.tasks@[st.task as int],
            r.0.plan.tasks@[st.task as int],
            st.attempt,
            st.tips@,
            views(st.modified@),
        ),
{
    let mut st = st;
    let n = if initial {
        st.plan.original_prompt.validation_commands.len()
    } else {
        st.plan.tasks[st.task].validation_steps.len()
    };
    if k >= n {
        if initial {
            st.initial_error = None;
            advance_task(agent, st, 0)
        } else {
            task_passed(agent, st)
        }
    } else {
        let command = if initial {
            st.plan.original_prompt.validation_commands[k].command.clone()
        } else {
            st.plan.tasks[st.task].validation_steps[k].command.clone()
        };
        match command_to_run(command.as_str()) {
            Ok(()) => {
                st.step = k;
                st.phase = if initial {
                    ImplPhase::InitialValidation
                } else {
                    ImplPhase::TaskValidation
                };
                (st, ImplAction::RunCommand { command })
            },
            Err(_) => {
                let mut m = cat3("Failed to execute validation command `", command.as_str(), "`: ");
                m.append(empty_command_text().as_str());
                if initial {
                    st.initial_error = Some(m);
                    advance_task(agent, st, 0)
                } else {
                    attempt_failed(agent, st, m)
                }
            },
        }
    }
}

/// The prompt of an attempt: the system prompt, a blank line, then the
/// task's prompt.
pub open spec fn attempt_prompt(st: ImplRun, files: Seq<(String, String)>) -> Seq<char> {
    system_prompt() + "\n\n"@ + user_prompt(st.task as int, st.plan, files, st.last_error)
}

/// One step of a run through the plan.
///
/// - The plan's validation commands run first; the first failure becomes
///   the error context of the first task that is not done.
/// - Each task not done yet gets up to `max_retries` attempts: the model is
///   shown the plan, the task, the conventions, the files in scope and the
///   last error, and its `edit_file`/`create_file` calls are applied; then
///   the formatter and the task's validation steps run. A failure (a long
///   one summarized first) is the next attempt's error.
/// - A passed task is recorded in the plan with the model's explanation and
///   the changed files, committed when asked for, and the plan is saved. A
///   task whose attempts run out is marked failed, the plan saved, and the
///   run fails.
pub fn impl_step(agent: &ImplAgent, st: ImplRun, ev: ImplEvent) -> (r: (ImplRun, ImplAction))
    requires
        impl_event_fits(st.phase, ev),
        impl_wf(*agent, st),
    ensures
        impl_wf(*agent, r.0),
        r.0.plan.original_prompt == st.plan.original_prompt,
        // Tasks done stay done, and a run that ends well has done every task.
        done_so_far(st) ==> done_so_far(r.0),
        (done_so_far(st) && r.1 matches ImplAction::Finish(Ok(()))) ==> done_below(
            r.0.plan.tasks@,
            r.0.plan.tasks@.len() as int,
        ),
        // Outside work that failed ends the run with its error.
        ev matches ImplEvent::FilesRead(Err(e)) ==> (r.1 matches ImplAction::Finish(Err(e2)) && e2@ == e@),
        ev matches ImplEvent::Reply(Err(e)) ==> (r.1 matches ImplAction::Finish(Err(e2)) && e2@ == e@),
        ev matches ImplEvent::EditsApplied(Err(e)) ==> (r.1 matches ImplAction::Finish(Err(e2)) && e2@ == e@),
        ev matches ImplEvent::Committed(Err(e)) ==> (r.1 matches ImplAction::Finish(Err(e2)) && e2@ == e@),
        ev matches ImplEvent::Saved(Err(e)) ==> (r.1 matches ImplAction::Finish(Err(e2)) && e2@ == e@),
        // The files read give the attempt's prompt, sent with the file tools.
        ev matches ImplEvent::FilesRead(Ok(files)) ==> (r.0.phase == ImplPhase::AwaitReply
            && r.0.plan == st.plan && (r.1 matches ImplAction::AskModel { contents, tools }
            && crate::gemini_types::contents_view(contents@) == seq![
            crate::orchestrator::text_content(Role::User, attempt_prompt(st, files@)),
        ] && tools@.len() == 2 && tools@[0].name@ == "edit_file"@ && tools@[1].name@
            == "create_file"@)),
        // The answer's file calls are applied in order.
        ev matches ImplEvent::Reply(Ok(resp)) ==> match answer_spec(resp) {
            Ok(a) => r.0.phase == ImplPhase::AwaitEdits && r.0.tips@ == a.0 && (
            r.1 matches ImplAction::ApplyEdits { calls } && crate::runner::calls_view(calls@)
                == a.1),
            Err(e) => r.1 matches ImplAction::Finish(Err(e2)) && e2@ == e,
        },
        ev matches ImplEvent::EditsApplied(Ok(paths)) ==> views(r.0.modified@) == views(paths@),
        // A summary (or, without one, the error itself) is the next error.
        ev matches ImplEvent::Summary(res) ==> retried(
            *agent,
            st,
            summary_choice(st.pending_error@, res),
            r.0,
            r.1,
        ),
        // A failing task validation step or formatter run ends the attempt:
        // no later step runs, and the next attempt (or the task's failure)
        // follows.
        ev matches ImplEvent::CommandDone(res) ==> (st.phase == ImplPhase::TaskValidation ==> match step_error(
            st.plan.tasks@[st.task as int].validation_steps@[st.step as int],
            res,
        ) {
            Some(e) => failure_handled(*agent, st, e, r.0, r.1),
            None => true,
        }),
        ev matches ImplEvent::CommandDone(res) ==> (st.phase == ImplPhase::AwaitFormatter ==> match formatter_error(
            st.plan.original_prompt.formatter_command->0@,
            res,
        ) {
            Some(e) => failure_handled(*agent, st, e, r.0, r.1),
            None => true,
        }),
        // A passing step goes on with the next one; a passing formatter run
        // with the first step.
        ev matches ImplEvent::CommandDone(res) ==> (st.phase == ImplPhase::TaskValidation ==> (
        step_error(st.plan.tasks@[st.task as int].validation_steps@[st.step as int], res) is None
            ==> steps_resumed(*agent, st, st.step + 1, views(st.modified@), r.0, r.1))),
        ev matches ImplEvent::CommandDone(res) ==> (st.phase == ImplPhase::AwaitFormatter ==> (
        formatter_error(st.plan.original_prompt.formatter_command->0@, res) is None
            ==> steps_resumed(*agent, st, 0, views(st.modified@), r.0, r.1))),
        // Applied edits are followed by the formatter when there is one, else
        // by the task's validation.
        ev matches ImplEvent::EditsApplied(Ok(paths)) ==> match st.plan.original_prompt.formatter_command {
            Some(cmd) => if cmd@.len() > 0 {
                r.0.phase == ImplPhase::AwaitFormatter && r.0.task == st.task && r.0.attempt
                    == st.attempt && r.0.plan == st.plan && (r.1 matches ImplAction::RunCommand {
                    command,
                } && command@ == cmd@)
            } else {
                failure_handled(
                    *agent,
                    st,
                    formatter_not_run_text(cmd@, empty_command_error()),
                    r.0,
                    r.1,
                )
            },
            None => steps_resumed(*agent, st, 0, views(paths@), r.0, r.1),
        },
        // Tasks other than the one worked on and the one moved to are kept.
        plan_framed(st.plan.tasks@, r.0.plan.tasks@, st.task as int, r.0.task as int),
        // After the plan's own validation, the first task not done is worked on.
        ev matches ImplEvent::CommandDone(res) ==> (st.phase == ImplPhase::InitialValidation ==> match step_error(
            st.plan.original_prompt.validation_commands@[st.step as int],
            res,
        ) {
            Some(_) => advanced(*agent, st.plan.tasks@, 0, r.0, r.1),
            None => st.step + 1 == st.plan.original_prompt.validation_commands@.len() ==> advanced(
                *agent,
                st.plan.tasks@,
                0,
                r.0,
                r.1,
            ),
        }),
        (ev is Begin && st.plan.original_prompt.validation_commands@.len() == 0) ==> advanced(
            *agent,
            st.plan.tasks@,
            0,
            r.0,
            r.1,
        ),
        // The plan is saved after a commit; after a failed task the run fails.
        ev matches ImplEvent::Committed(Ok(())) ==> (r.0.phase == ImplPhase::AwaitSave && r.1 is SavePlan
            && r.0.plan == st.plan),
        (ev matches ImplEvent::Saved(Ok(())) && st.failed) ==> (r.1 matches ImplAction::Finish(
            Err(e),
        ) && e@ == (
            ErrorKind::Config,
            "Task '"@ + st.plan.tasks@[st.task as int].description@ + "' failed after "@ + decimal(
                agent.max_retries as nat,
            ) + " attempts."@,
        )),
        // After a task is saved, the next task not done is worked on.
        (ev matches ImplEvent::Saved(Ok(())) && !st.failed) ==> advanced(
            *agent,
            st.plan.tasks@,
            st.task + 1,
            r.0,
            r.1,
        ),
        // A validation step that passes leads to the next one.
        (ev matches ImplEvent::CommandDone(Ok((code, _))) && st.phase == ImplPhase::TaskValidation
            && code == st.plan.tasks@[st.task as int].validation_steps@[st.step as int].expected_exit_code
            && st.step + 1 == st.plan.tasks@[st.task as int].validation_steps@.len()) ==> completed(
            st.plan.tasks@[st.task as int],
            r.0.plan.tasks@[st.task as int],
            st.attempt,
            st.tips@,
            views(st.modified@),
        ),
{
    let mut st = st;
    match ev {
        ImplEvent::Begin => run_steps_from(agent, st, 0, true),
        ImplEvent::CommandDone(res) => {
            if st.phase == ImplPhase::InitialValidation {
                let verdict = step_verdict(&st.plan.original_prompt.validation_commands[st.step], &res);
                match verdict {
                    Some(e) => {
                        st.initial_error = Some(e);
                        advance_task(agent, st, 0)
                    },
                    None => {
                        let n = st.plan.original_prompt.validation_commands.len();
                        assert(st.step < n);
                        let k = st.step + 1;
                        run_steps_from(agent, st, k, true)
                    },
                }
            } else if st.phase == ImplPhase::AwaitFormatter {
                let verdict = match &st.plan.original_prompt.formatter_command {
                    Some(cmd) => formatter_verdict(cmd.as_str(), &res),
                    None => None,
                };
                match verdict {
                    Some(e) => attempt_failed(agent, st, e),
                    None => run_steps_from(agent, st, 0, false),
                }
            } else {
                let verdict = step_verdict(&st.plan.tasks[st.task].validation_steps[st.step], &res);
                match verdict {
                    Some(e) => attempt_failed(agent, st, e),
                    None => {
                        let n = st.plan.tasks[st.task].validation_steps.len();
                        assert(st.step < n);
                        let k = st.step + 1;
                        run_steps_from(agent, st, k, false)
                    },
                }
            }
        },
        ImplEvent::FilesRead(Err(e)) => {
            st.phase = ImplPhase::Done;
            (st, ImplAction::Finish(Err(e)))
        },
        ImplEvent::FilesRead(Ok(files)) => {
            let user = create_user_prompt(st.task, &st.plan, &files, &st.last_error);
            let mut prompt = create_system_prompt();
            prompt.append("\n\n");
            prompt.append(user.as_str());
            let mut contents: Vec<Content> = Vec::new();
            contents.push(Content::single(Role::User, ContentPart::new_text(prompt)));
            proof {
                assert(crate::gemini_types::contents_view(contents@) =~= seq![
                    crate::orchestrator::text_content(Role::User, attempt_prompt(st, files@)),
                ]);
            }
            st.phase = ImplPhase::AwaitReply;
            (st, ImplAction::AskModel { contents, tools: create_file_tools() })
        },
        ImplEvent::Reply(Err(e)) => {
            st.phase = ImplPhase::Done;
            (st, ImplAction::Finish(Err(e)))
        },
        ImplEvent::Reply(Ok(resp)) => match process_response(&resp) {
            Err(e) => {
                st.phase = ImplPhase::Done;
                (st, ImplAction::Finish(Err(e)))
            },
            Ok((tips, calls)) => {
                st.tips = tips;
                st.phase = ImplPhase::AwaitEdits;
                (st, ImplAction::ApplyEdits { calls })
            },
        },
        ImplEvent::EditsApplied(Err(e)) => {
            st.phase = ImplPhase::Done;
            (st, ImplAction::Finish(Err(e)))
        },
        ImplEvent::EditsApplied(Ok(paths)) => {
            st.modified = paths;
            let formatter = match &st.plan.original_prompt.formatter_command {
                Some(cmd) => Some(cmd.clone()),
                None => None,
            };
            match formatter {
                Some(cmd) => match command_to_run(cmd.as_str()) {
                    Ok(()) => {
                        st.phase = ImplPhase::AwaitFormatter;
                        (st, ImplAction::RunCommand { command: cmd })
                    },
                    Err(_) => {
                        let mut m = cat3("Failed to execute formatter command `", cmd.as_str(), "`: ");
                        m.append(empty_command_text().as_str());
                        attempt_failed(agent, st, m)
                    },
                },
                None => run_steps_from(agent, st, 0, false),
            }
        },
        ImplEvent::Summary(res) => {
            let text = match res {
                Ok(resp) => match summary_from_response(&resp) {
                    Ok(t) => t,
                    Err(_) => st.pending_error.clone(),
                },
                Err(_) => st.pending_error.clone(),
            };
            st.last_error = Some(text);
            start_attempt(agent, st)
        },
        ImplEvent::Committed(Err(e)) => {
            st.phase = ImplPhase::Done;
            (st, ImplAction::Finish(Err(e)))
        },
        ImplEvent::Committed(Ok(())) => {
            st.phase = ImplPhase::AwaitSave;
            st.failed = false;
            (st, ImplAction::SavePlan)
        },
        ImplEvent::Saved(Err(e)) => {
            st.phase = ImplPhase::Done;
            (st, ImplAction::Finish(Err(e)))
        },
        ImplEvent::Saved(Ok(())) => {
            if st.failed {
                let e = task_failed(st.plan.tasks[st.task].description.as_str(), agent.max_retries);
                st.phase = ImplPhase::Done;
                (st, ImplAction::Finish(Err(e)))
            } else {
                let nt = st.plan.tasks.len();
                assert(st.task < nt);
                let next = st.task + 1;
                advance_task(agent, st, next)
            }
        },
    }
}

} // verus!

//! The records of a run and the summary lines written for them. Each run
//! logs under `.ai/logs/<run id>/`: a readable `summary.log` and a
//! `complete.log.jsonl` with every record; writing the files is left to the
//! caller, which stamps each line with the current time.
use crate::gemini_types::{GenerateContentResponse, PartView};
use crate::json::{JsonValue, pretty_text, to_string_pretty};
use crate::text::{bool_text, cat, decimal, join, signed_decimal, trim, views};
use vstd::prelude::*;

verus! {

/// A prompt sent to a model.
#[derive(Debug)]
pub struct PromptLog {
    pub model_name: String,
    pub system_prompt: String,
    pub user_prompt: String,
    /// The prompt as shown on stdout, when it differs from the full one.
    pub display_prompt: Option<String>,
    pub tools: JsonValue,
}

/// A model's reply.
#[derive(Debug)]
pub struct ResponseLog {
    pub model_name: String,
    pub response: GenerateContentResponse,
    pub time_taken_ms: u128,
}

/// A tool call and its result.
#[derive(Debug)]
pub struct ToolCallLog {
    pub tool_name: String,
    pub tool_args: JsonValue,
    pub result: ToolResultLog,
    pub time_taken_ms: u128,
}

/// The result of a tool call.
#[derive(Debug)]
pub struct ToolResultLog {
    pub success: bool,
    pub stdout: String,
    pub stderr: String,
    pub output_json: JsonValue,
}

/// A validation command and its result.
#[derive(Debug, Clone)]
pub struct ValidationLog {
    pub command: String,
    pub exit_code: i32,
    pub stdout: String,
    pub stderr: String,
    pub success: bool,
    pub time_taken_ms: u128,
}

/// The directory of a run's logs.
pub fn log_dir(run_id: &str) -> (d: String)
    ensures
        d@ == ".ai/logs/"@ + run_id@,
{
    cat(".ai/logs/", run_id)
}

/// The three lines that open the summary of a run.
pub fn opening_lines(run_id: &str, complete_log_path: &str, summary_log_path: &str) -> (v: Vec<
    String,
>)
    ensures
        views(v@) == seq![
            "Log run started at: "@ + run_id@ + "\n"@,
            "Full logs at: "@ + complete_log_path@ + "\n"@,
            "Summary log at: "@ + summary_log_path@ + "\n\n"@,
        ],
{
    let mut v: Vec<String> = Vec::new();
    v.push(crate::text::cat3("Log run started at: ", run_id, "\n"));
    v.push(crate::text::cat3("Full logs at: ", complete_log_path, "\n"));
    v.push(crate::text::cat3("Summary log at: ", summary_log_path, "\n\n"));
    proof {
        assert(views(v@) =~= seq![
            "Log run started at: "@ + run_id@ + "\n"@,
            "Full logs at: "@ + complete_log_path@ + "\n"@,
            "Summary log at: "@ + summary_log_path@ + "\n\n"@,
        ]);
    }
    v
}

/// What the summary shows of a prompt: the display prompt when there is
/// one, else the first line of the prompt, trimmed.
pub open spec fn prompt_summary(display: Option<Seq<char>>, user_prompt: Seq<char>) -> Seq<char> {
    match display {
        Some(d) => d,
        None => "> "@ + trim(user_prompt.take(crate::text::first_newline(user_prompt)))
            + "\n... (full prompt in complete.log.jsonl)"@,
    }
}

/// The summary line of a prompt sent at `time`.
pub fn prompt_line(log: &PromptLog, time: &str) -> (m: String)
    ensures
        m@ == "["@ + time@ + "] PROMPT to "@ + log.model_name@ + ":\n"@ + prompt_summary(
            match log.display_prompt {
                Some(d) => Some(d@),
                None => None,
            },
            log.user_prompt@,
        ) + "\n"@,
{
    let summary = match &log.display_prompt {
        Some(d) => d.clone(),
        None => {
            let cs = crate::text::chars_of(log.user_prompt.as_str());
            let first = crate::text::first_line_trimmed(&cs);
            let mut s = crate::text::owned("> ");
            s.append(crate::text::string_of(&first).as_str());
            s.append("\n... (full prompt in complete.log.jsonl)");
            s
        },
    };
    let mut m = crate::text::cat3("[", time, "] PROMPT to ");
    m.append(log.model_name.as_str());
    m.append(":\n");
    m.append(summary.as_str());
    m.append("\n");
    m
}

/// The texts of every part of every candidate, in order.
pub open spec fn all_texts(cands: Seq<Seq<PartView>>) -> Seq<Seq<char>>
    decreases cands.len(),
{
    if cands.len() == 0 {
        Seq::empty()
    } else {
        all_texts(cands.drop_last()) + part_texts(cands.last())
    }
}

/// The texts among some parts, in order.
pub open spec fn part_texts(parts: Seq<PartView>) -> Seq<Seq<char>>
    decreases parts.len(),
{
    if parts.len() == 0 {
        Seq::empty()
    } else {
        match parts.last().text {
            Some(t) => part_texts(parts.drop_last()).push(t),
            None => part_texts(parts.drop_last()),
        }
    }
}

/// "CALL: name(...)" for every function call of every candidate, in order.
pub open spec fn all_calls(cands: Seq<Seq<PartView>>) -> Seq<Seq<char>>
    decreases cands.len(),
{
    if cands.len() == 0 {
        Seq::empty()
    } else {
        all_calls(cands.drop_last()) + part_calls(cands.last())
    }
}

pub open spec fn part_calls(parts: Seq<PartView>) -> Seq<Seq<char>>
    decreases parts.len(),
{
    if parts.len() == 0 {
        Seq::empty()
    } else {
        match parts.last().function_call {
            Some(c) => part_calls(parts.drop_last()).push("CALL: "@ + c.0 + "(...)"@),
            None => part_calls(parts.drop_last()),
        }
    }
}

/// The parts of each candidate of a response (none when it has no candidates).
pub open spec fn candidate_parts(r: GenerateContentResponse) -> Seq<Seq<PartView>> {
    match r.candidates {
        Some(c) => c@.map_values(|x: crate::gemini_types::Candidate| x.content@.parts),
        None => Seq::empty(),
    }
}

/// "None" for an empty section of the summary.
pub open spec fn or_none(s: Seq<char>, empty: bool) -> Seq<char> {
    if empty {
        "None"@
    } else {
        s
    }
}

/// The summary line of a reply received at `time`.
pub open spec fn response_line_spec(
    time: Seq<char>,
    model: Seq<char>,
    ms: u128,
    r: GenerateContentResponse,
) -> Seq<char> {
    let texts = join(all_texts(candidate_parts(r)), "\n"@);
    let calls = join(all_calls(candidate_parts(r)), "\n"@);
    "["@ + time + "] RESPONSE from "@ + model + " ("@ + decimal(ms as nat) + "ms):\n--- TEXT ---\n"@
        + or_none(texts, crate::text::all_ws(texts)) + "\n--- CALLS ---\n"@ + or_none(
        calls,
        calls.len() == 0,
    ) + "\n---\n"@
}

/// The texts and the calls of a response, each line by line.
fn response_sections(r: &GenerateContentResponse) -> (out: (Vec<String>, Vec<String>))
    ensures
        views(out.0@) == all_texts(candidate_parts(*r)),
        views(out.1@) == all_calls(candidate_parts(*r)),
{
    let mut texts: Vec<String> = Vec::new();
    let mut calls: Vec<String> = Vec::new();
    match &r.candidates {
        None => {
            proof {
                assert(views(texts@) =~= Seq::<Seq<char>>::empty());
                assert(views(calls@) =~= Seq::<Seq<char>>::empty());
            }
        },
        Some(cands) => {
            let ghost cp = candidate_parts(*r);
            let mut i: usize = 0;
            proof {
                assert(cp.take(0) =~= Seq::<Seq<PartView>>::empty());
                assert(views(texts@) =~= Seq::<Seq<char>>::empty());
                assert(views(calls@) =~= Seq::<Seq<char>>::empty());
            }
            while i < cands.len()
                invariant
                    i <= cands.len(),
                    r.candidates == Some(*cands),
                    cp == candidate_parts(*r),
                    cp.len() == cands@.len(),
                    views(texts@) == all_texts(cp.take(i as int)),
                    views(calls@) == all_calls(cp.take(i as int)),
                decreases cands.len() - i,
            {
                let parts = &cands[i].content.parts;
                let ghost pv = cp[i as int];
                proof {
                    assert(pv == parts@.map_values(|p: crate::gemini_types::ContentPart| p@));
                    assert(cp.take(i + 1).drop_last() == cp.take(i as int));
                    assert(cp.take(i + 1).last() == pv);
                }
                let ghost t0 = views(texts@);
                let ghost c0 = views(calls@);
                let mut j: usize = 0;
                proof {
                    assert(pv.take(0) =~= Seq::<PartView>::empty());
                    assert(t0 + part_texts(pv.take(0)) =~= t0);
                    assert(c0 + part_calls(pv.take(0)) =~= c0);
                }
                while j < parts.len()
                    invariant
                        j <= parts.len(),
                        pv == parts@.map_values(|p: crate::gemini_types::ContentPart| p@),
                        views(texts@) == t0 + part_texts(pv.take(j as int)),
                        views(calls@) == c0 + part_calls(pv.take(j as int)),
                    decreases parts.len() - j,
                {
                    proof {
                        assert(pv.take(j + 1).drop_last() == pv.take(j as int));
                        assert(pv.take(j + 1).last() == parts@[j as int]@);
                    }
                    match &parts[j].text {
                        Some(t) => {
                            let ghost before = views(texts@);
                            texts.push(t.clone());
                            proof {
                                assert(views(texts@) =~= before.push(t@));
                            }
                        },
                        None => {},
                    }
                    match &parts[j].function_call {
                        Some(c) => {
                            let ghost before = views(calls@);
                            calls.push(crate::text::cat3("CALL: ", c.name.as_str(), "(...)"));
                            proof {
                                assert(views(calls@) =~= before.push("CALL: "@ + c.name@ + "(...)"@));
                            }
                        },
                        None => {},
                    }
                    j += 1;
                }
                proof {
                    assert(pv.take(parts@.len() as int) == pv);
                }
                i += 1;
            }
            proof {
                assert(cp.take(cp.len() as int) == cp);
            }
        },
    }
    (texts, calls)
}

/// The summary line of a reply received at `time`.
pub fn response_line(log: &ResponseLog, time: &str) -> (m: String)
    ensures
        m@ == response_line_spec(time@, log.model_name@, log.time_taken_ms, log.response),
{
    let (texts, calls) = response_sections(&log.response);
    let text = crate::text::join_strings(&texts, "\n");
    let call_text = crate::text::join_strings(&calls, "\n");
    let tc = crate::text::chars_of(text.as_str());
    let mut m = crate::text::cat3("[", time, "] RESPONSE from ");
    m.append(log.model_name.as_str());
    m.append(" (");
    m.append(crate::text::u128_to_string(log.time_taken_ms).as_str());
    m.append("ms):\n--- TEXT ---\n");
    if crate::text::is_blank(&tc) {
        m.append("None");
    } else {
        m.append(text.as_str());
    }
    m.append("\n--- CALLS ---\n");
    if call_text.as_str().unicode_len() == 0 {
        m.append("None");
    } else {
        m.append(call_text.as_str());
    }
    m.append("\n---\n");
    m
}

/// The summary line of a tool call made at `time`.
pub fn tool_call_line(log: &ToolCallLog, time: &str) -> (m: String)
    ensures
        m@ == "["@ + time@ + "] TOOL CALL: "@ + log.tool_name@ + " ("@ + decimal(
            log.time_taken_ms as nat,
        ) + "ms)\n--- ARGS ---\n"@ + pretty_text(log.tool_args@) + "\n--- RESULT ---\nSuccess: "@
            + bool_text(log.result.success) + "\nStdout: "@ + log.result.stdout@ + "\nStderr: "@
            + log.result.stderr@ + "\n---\n"@,
{
    let mut m = crate::text::cat3("[", time, "] TOOL CALL: ");
    m.append(log.tool_name.as_str());
    m.append(" (");
    m.append(crate::text::u128_to_string(log.time_taken_ms).as_str());
    m.append("ms)\n--- ARGS ---\n");
    m.append(to_string_pretty(&log.tool_args).as_str());
    m.append("\n--- RESULT ---\nSuccess: ");
    m.append(crate::text::bool_to_string(log.result.success).as_str());
    m.append("\nStdout: ");
    m.append(log.result.stdout.as_str());
    m.append("\nStderr: ");
    m.append(log.result.stderr.as_str());
    m.append("\n---\n");
    m
}

/// The summary line of a validation run at `time`.
pub fn validation_line(log: &ValidationLog, time: &str) -> (m: String)
    ensures
        m@ == "["@ + time@ + "] VALIDATION: `"@ + log.command@ + "` ("@ + decimal(
            log.time_taken_ms as nat,
        ) + "ms)\n--- RESULT ---\nSuccess: "@ + bool_text(log.success) + "\nExit Code: "@
            + signed_decimal(log.exit_code as int) + "\nStdout: "@ + log.stdout@ + "\nStderr: "@
            + log.stderr@ + "\n---\n"@,
{
    let mut m = crate::text::cat3("[", time, "] VALIDATION: `");
    m.append(log.command.as_str());
    m.append("` (");
    m.append(crate::text::u128_to_string(log.time_taken_ms).as_str());
    m.append("ms)\n--- RESULT ---\nSuccess: ");
    m.append(crate::text::bool_to_string(log.success).as_str());
    m.append("\nExit Code: ");
    m.append(crate::text::i32_to_string(log.exit_code).as_str());
    m.append("\nStdout: ");
    m.append(log.stdout.as_str());
    m.append("\nStderr: ");
    m.append(log.stderr.as_str());
    m.append("\n---\n");
    m
}

} // verus!

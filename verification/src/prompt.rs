//! Assembling a prompt from its parts. Each part of a prompt definition
//! becomes a piece of text; the full prompt joins them with newlines, and the
//! displayed prompt replaces a hidden piece by a note of its length.
//! Reading the prompt file, the scope files and the files in scope is left to
//! the caller, which hands the pieces' inputs over.
use crate::flows::types::{FileScope, PromptPart, merged_patterns};
use crate::json::{JsonValue, JsonView, json_get_str, json_str, pretty_text, to_string_pretty};
use crate::text::{all_ws, decimal, join, line_count, views};
use vstd::prelude::*;

verus! {

/// Represents a fully constructed prompt, with a version for display.
#[derive(Debug)]
pub struct BuiltPrompt {
    pub full_prompt: String,
    pub display_prompt: String,
}

/// Whether `RUST_LOG` asks for debug output, so that nothing is hidden.
pub fn debug_requested(rust_log: Option<&str>) -> (b: bool)
    ensures
        b == match rust_log {
            Some(v) => crate::text::contains_seq(v@, "debug"@),
            None => false,
        },
{
    match rust_log {
        Some(v) => {
            let cs = crate::text::chars_of(v);
            let d = crate::text::chars_of("debug");
            crate::text::chars_contain(&cs, &d)
        },
        None => false,
    }
}

/// What the display shows of a piece: the piece itself unless it is hidden;
/// a hidden piece that is not blank becomes a note of its number of lines.
pub open spec fn display_piece(content: Seq<char>, hide: bool, is_debug: bool) -> Option<Seq<char>> {
    if !hide || is_debug {
        Some(content)
    } else if !all_ws(content) {
        Some(
            "... ("@ + decimal(line_count(content)) + " lines of hidden content in complete.log.jsonl) ..."@,
        )
    } else {
        None
    }
}

/// The displayed pieces, in order.
pub open spec fn display_pieces(pieces: Seq<(Seq<char>, bool)>, is_debug: bool) -> Seq<Seq<char>>
    decreases pieces.len(),
{
    if pieces.len() == 0 {
        Seq::empty()
    } else {
        let rest = display_pieces(pieces.drop_last(), is_debug);
        match display_piece(pieces.last().0, pieces.last().1, is_debug) {
            Some(d) => rest.push(d),
            None => rest,
        }
    }
}

pub open spec fn pieces_view(pieces: Seq<(String, bool)>) -> Seq<(Seq<char>, bool)> {
    pieces.map_values(|p: (String, bool)| (p.0@, p.1))
}

/// The prompt made of these pieces (each with whether it is hidden on stdout).
pub fn build_prompt(pieces: &Vec<(String, bool)>, is_debug: bool) -> (b: BuiltPrompt)
    ensures
        b.full_prompt@ == join(pieces_view(pieces@).map_values(|p: (Seq<char>, bool)| p.0), "\n"@),
        b.display_prompt@ == join(display_pieces(pieces_view(pieces@), is_debug), "\n"@),
{
    let ghost pv = pieces_view(pieces@);
    let mut full: Vec<String> = Vec::new();
    let mut display: Vec<String> = Vec::new();
    let mut i: usize = 0;
    proof {
        assert(pv.take(0) =~= Seq::<(Seq<char>, bool)>::empty());
        assert(views(full@) =~= pv.take(0).map_values(|p: (Seq<char>, bool)| p.0));
        assert(views(display@) =~= Seq::<Seq<char>>::empty());
    }
    while i < pieces.len()
        invariant
            i <= pieces.len(),
            pv == pieces_view(pieces@),
            views(full@) == pv.take(i as int).map_values(|p: (Seq<char>, bool)| p.0),
            views(display@) == display_pieces(pv.take(i as int), is_debug),
        decreases pieces.len() - i,
    {
        proof {
            assert(pv.take(i + 1).drop_last() == pv.take(i as int));
            assert(pv.take(i + 1).last() == (pieces@[i as int].0@, pieces@[i as int].1));
        }
        let content = &pieces[i].0;
        let hide = pieces[i].1;
        let ghost f0 = views(full@);
        full.push(content.clone());
        proof {
            assert(views(full@) =~= f0.push(content@));
            assert(pv.take(i + 1) == pv.take(i as int).push(pv[i as int]));
            assert(pv[i as int].0 == content@);
            assert(pv.take(i + 1).map_values(|p: (Seq<char>, bool)| p.0) =~= pv.take(
                i as int,
            ).map_values(|p: (Seq<char>, bool)| p.0).push(content@));
            assert(views(full@) =~= pv.take(i + 1).map_values(|p: (Seq<char>, bool)| p.0));
        }
        let ghost d0 = views(display@);
        if !hide || is_debug {
            display.push(content.clone());
            proof {
                assert(views(display@) =~= d0.push(content@));
            }
        } else {
            let cs = crate::text::chars_of(content.as_str());
            if !crate::text::is_blank(&cs) {
                let n = crate::text::count_lines(&cs);
                let mut note = crate::text::owned("... (");
                note.append(crate::text::u64_to_string(n as u64).as_str());
                note.append(" lines of hidden content in complete.log.jsonl) ...");
                display.push(note);
                proof {
                    assert(views(display@) =~= d0.push(note@));
                }
            }
        }
        i += 1;
    }
    proof {
        assert(pv.take(pv.len() as int) == pv);
    }
    BuiltPrompt {
        full_prompt: crate::text::join_strings(&full, "\n"),
        display_prompt: crate::text::join_strings(&display, "\n"),
    }
}

/// The text of a `prompt_file_field` part: the prefix, then the field's text
/// in the prompt file (nothing when it is missing or not a string).
pub fn field_text(prefix: &str, field_value: Option<&str>) -> (t: String)
    ensures
        t@ == prefix@ + match field_value {
            Some(v) => v@,
            None => Seq::empty(),
        },
{
    match field_value {
        Some(v) => crate::text::cat(prefix, v),
        None => crate::text::owned(prefix),
    }
}

/// The text standing for the output of a block.
pub open spec fn previous_output_spec(
    block_id: Seq<char>,
    current_block_id: Seq<char>,
    verification_output: Option<JsonView>,
    block_output: Option<JsonView>,
) -> Seq<char> {
    if block_id == current_block_id {
        match verification_output {
            Some(v) => pretty_text(v),
            None => "Error: Verification output for block '"@ + block_id + "' not available."@,
        }
    } else {
        match block_output {
            Some(v) => if v is Object && json_get_str(v, "description"@) is Some {
                json_get_str(v, "description"@)->0
            } else if json_str(v) is Some {
                json_str(v)->0
            } else {
                pretty_text(v)
            },
            None => "Error: Output for block '"@ + block_id + "' not found."@,
        }
    }
}

pub open spec fn opt_json(v: Option<&JsonValue>) -> Option<JsonView> {
    match v {
        Some(x) => Some(x@),
        None => None,
    }
}

/// The text of a `previous_output` part: the prefix, then the output of the
/// named block. A reference to the current block means the output of its
/// last verification; a task-like object gives its description, a string
/// gives itself, anything else is printed as JSON.
pub fn previous_output_text(
    prefix: &str,
    block_id: &str,
    current_block_id: &str,
    verification_output: Option<&JsonValue>,
    block_output: Option<&JsonValue>,
) -> (t: String)
    ensures
        t@ == prefix@ + previous_output_spec(
            block_id@,
            current_block_id@,
            opt_json(verification_output),
            opt_json(block_output),
        ),
{
    let output = if crate::text::str_eq(block_id, current_block_id) {
        match verification_output {
            Some(v) => to_string_pretty(v),
            None => crate::text::cat3(
                "Error: Verification output for block '",
                block_id,
                "' not available.",
            ),
        }
    } else {
        match block_output {
            Some(v) => {
                let desc = if v.is_object() {
                    v.get_str("description")
                } else {
                    None
                };
                match desc {
                    Some(d) => crate::text::owned(d),
                    None => match v.as_str() {
                        Some(s) => crate::text::owned(s),
                        None => to_string_pretty(v),
                    },
                }
            },
            None => crate::text::cat3("Error: Output for block '", block_id, "' not found."),
        }
    };
    crate::text::cat(prefix, output.as_str())
}

/// The path of a named scope file.
pub fn scope_file_path(name: &str) -> (p: String)
    ensures
        p@ == "ctx/"@ + name@ + ".yaml"@,
{
    crate::text::cat3("ctx/", name, ".yaml")
}

/// Whether a scope name stands for the scope of the user's prompt file.
pub fn is_prompt_scope(name: &str) -> (b: bool)
    ensures
        b == (name@ == "prompt"@),
{
    crate::text::str_eq(name, "prompt")
}

/// The scopes merged in order into an empty one.
pub fn merge_scopes(scopes: Vec<FileScope>) -> (s: FileScope)
    ensures
        s.description is None,
        crate::text::strictly_sorted(views(s.includes@)),
        crate::text::strictly_sorted(views(s.exclude@)),
        forall|p: Seq<char>| #[trigger]
            views(s.includes@).contains(p) <==> exists|i: int|
                0 <= i < scopes@.len() && views(scopes@[i].includes@).contains(p),
        forall|p: Seq<char>| #[trigger]
            views(s.exclude@).contains(p) <==> exists|i: int|
                0 <= i < scopes@.len() && views(scopes@[i].exclude@).contains(p),
{
    let mut acc = FileScope::default();
    let mut scopes = scopes;
    let ghost all = scopes@;
    let n = scopes.len();
    proof {
        assert(views(acc.includes@) =~= Seq::<Seq<char>>::empty());
        assert(views(acc.exclude@) =~= Seq::<Seq<char>>::empty());
    }
    let mut i: usize = 0;
    while i < n
        invariant
            n == all.len(),
            i <= n,
            scopes@ == all.skip(i as int),
            acc.description is None,
            crate::text::strictly_sorted(views(acc.includes@)),
            crate::text::strictly_sorted(views(acc.exclude@)),
            forall|p: Seq<char>| #[trigger]
                views(acc.includes@).contains(p) <==> exists|k: int|
                    0 <= k < i && views(all[k].includes@).contains(p),
            forall|p: Seq<char>| #[trigger]
                views(acc.exclude@).contains(p) <==> exists|k: int|
                    0 <= k < i && views(all[k].exclude@).contains(p),
        decreases n - i,
    {
        let next = scopes.remove(0);
        proof {
            assert(scopes@ =~= all.skip(i + 1));
            assert(next == all[i as int]);
        }
        let ghost a0 = acc;
        acc.merge(next);
        proof {
            assert forall|p: Seq<char>| #[trigger]
                views(acc.includes@).contains(p) <==> exists|k: int|
                    0 <= k < i + 1 && views(all[k].includes@).contains(p) by {
                assert(views(acc.includes@).to_set().contains(p) == views(
                    acc.includes@,
                ).contains(p));
                assert(views(a0.includes@).to_set().contains(p) == views(a0.includes@).contains(
                    p,
                ));
                assert(views(all[i as int].includes@).to_set().contains(p) == views(
                    all[i as int].includes@,
                ).contains(p));
                if views(all[i as int].includes@).contains(p) {
                    assert(0 <= i < i + 1 && views(all[i as int].includes@).contains(p));
                }
                if exists|k: int| 0 <= k < i + 1 && views(all[k].includes@).contains(p) {
                    let k = choose|k: int|
                        0 <= k < i + 1 && views(all[k].includes@).contains(p);
                    if k < i {
                        assert(exists|k: int| 0 <= k < i && views(all[k].includes@).contains(p));
                    }
                }
            }
            assert forall|p: Seq<char>| #[trigger]
                views(acc.exclude@).contains(p) <==> exists|k: int|
                    0 <= k < i + 1 && views(all[k].exclude@).contains(p) by {
                assert(views(acc.exclude@).to_set().contains(p) == views(acc.exclude@).contains(
                    p,
                ));
                assert(views(a0.exclude@).to_set().contains(p) == views(a0.exclude@).contains(p));
                assert(views(all[i as int].exclude@).to_set().contains(p) == views(
                    all[i as int].exclude@,
                ).contains(p));
                if views(all[i as int].exclude@).contains(p) {
                    assert(0 <= i < i + 1 && views(all[i as int].exclude@).contains(p));
                }
                if exists|k: int| 0 <= k < i + 1 && views(all[k].exclude@).contains(p) {
                    let k = choose|k: int|
                        0 <= k < i + 1 && views(all[k].exclude@).contains(p);
                    if k < i {
                        assert(exists|k: int| 0 <= k < i && views(all[k].exclude@).contains(p));
                    }
                }
            }
        }
        i += 1;
    }
    acc
}

/// The text of a `file_list` part: the prefix on a line of its own (when not
/// empty), then one line `- ./path` per file.
pub open spec fn file_list_spec(prefix: Seq<char>, paths: Seq<Seq<char>>) -> Seq<char>
    decreases paths.len(),
{
    if paths.len() == 0 {
        if prefix.len() > 0 {
            prefix + "\n"@
        } else {
            Seq::empty()
        }
    } else {
        file_list_spec(prefix, paths.drop_last()) + "- ./"@ + paths.last() + "\n"@
    }
}

pub fn file_list_text(prefix: &str, paths: &Vec<String>) -> (t: String)
    ensures
        t@ == file_list_spec(prefix@, views(paths@)),
{
    let ghost pv = views(paths@);
    let mut t = String::new();
    if prefix.unicode_len() > 0 {
        t.append(prefix);
        t.append("\n");
    }
    let mut i: usize = 0;
    while i < paths.len()
        invariant
            i <= paths.len(),
            pv == views(paths@),
            t@ == file_list_spec(prefix@, pv.take(i as int)),
        decreases paths.len() - i,
    {
        proof {
            assert(pv.take(i + 1).drop_last() == pv.take(i as int));
            assert(pv.take(i + 1).last() == paths@[i as int]@);
        }
        t.append("- ./");
        t.append(paths[i].as_str());
        t.append("\n");
        i += 1;
    }
    proof {
        assert(pv.take(pv.len() as int) == pv);
    }
    t
}

/// The text of a `file_contents` part: the prefix on a line of its own (when
/// not empty), then a block per file that could be read.
pub open spec fn file_contents_spec(prefix: Seq<char>, files: Seq<(Seq<char>, Option<Seq<char>>)>) -> Seq<
    char,
>
    decreases files.len(),
{
    if files.len() == 0 {
        if prefix.len() > 0 {
            prefix + "\n"@
        } else {
            Seq::empty()
        }
    } else {
        let rest = file_contents_spec(prefix, files.drop_last());
        match files.last().1 {
            Some(c) => rest + "--- FILE: ./"@ + files.last().0 + " ---\n"@ + c + "\n\n"@,
            None => rest,
        }
    }
}

pub fn file_contents_text(prefix: &str, files: &Vec<(String, Option<String>)>) -> (t: String)
    ensures
        t@ == file_contents_spec(prefix@, crate::orchestrator::file_reads_view(files@)),
{
    let ghost fv = crate::orchestrator::file_reads_view(files@);
    let mut t = String::new();
    if prefix.unicode_len() > 0 {
        t.append(prefix);
        t.append("\n");
    }
    let mut i: usize = 0;
    while i < files.len()
        invariant
            i <= files.len(),
            fv == crate::orchestrator::file_reads_view(files@),
            t@ == file_contents_spec(prefix@, fv.take(i as int)),
        decreases files.len() - i,
    {
        proof {
            assert(fv.take(i + 1).drop_last() == fv.take(i as int));
            assert(fv.take(i + 1).last() == fv[i as int]);
        }
        match &files[i].1 {
            Some(c) => {
                t.append("--- FILE: ./");
                t.append(files[i].0.as_str());
                t.append(" ---\n");
                t.append(c.as_str());
                t.append("\n\n");
            },
            None => {},
        }
        i += 1;
    }
    proof {
        assert(fv.take(fv.len() as int) == fv);
    }
    t
}

// ---------------------------------------------------------------------------
// One part
// ---------------------------------------------------------------------------

/// What the caller found for a part: nothing (text and earlier outputs need
/// nothing), the prompt file's field, the files in the merged scopes, or
/// those files with their contents (`None` for one that could not be read).
#[derive(Debug)]
pub enum PartInput {
    Nothing,
    Field(Option<String>),
    Files(Vec<String>),
    FileReads(Vec<(String, Option<String>)>),
}

/// Whether the input is the kind the part needs.
pub open spec fn input_fits(part: PromptPart, input: PartInput) -> bool {
    match part {
        PromptPart::StaticText { .. } => input is Nothing,
        PromptPart::PreviousOutput { .. } => input is Nothing,
        PromptPart::PromptFileField { .. } => input is Field,
        PromptPart::FileList { .. } => input is Files,
        PromptPart::FileContents { .. } => input is FileReads,
    }
}

/// The text of a part, given what the caller found for it.
pub open spec fn part_text(
    part: PromptPart,
    input: PartInput,
    outputs: Map<Seq<char>, JsonView>,
    current_block_id: Seq<char>,
    verification_output: Option<JsonView>,
) -> Seq<char> {
    match part {
        PromptPart::StaticText { content, .. } => content@,
        PromptPart::PromptFileField { prefix, .. } => prefix@ + match input {
            PartInput::Field(Some(v)) => v@,
            _ => Seq::empty(),
        },
        PromptPart::PreviousOutput { block_id, prefix, .. } => prefix@ + previous_output_spec(
            block_id@,
            current_block_id,
            verification_output,
            if outputs.contains_key(block_id@) {
                Some(outputs[block_id@])
            } else {
                None
            },
        ),
        PromptPart::FileList { prefix, .. } => file_list_spec(
            prefix@,
            match input {
                PartInput::Files(f) => views(f@),
                _ => Seq::empty(),
            },
        ),
        PromptPart::FileContents { prefix, .. } => file_contents_spec(
            prefix@,
            match input {
                PartInput::FileReads(f) => crate::orchestrator::file_reads_view(f@),
                _ => Seq::empty(),
            },
        ),
    }
}

/// The scope names a part reads files from, if it reads any.
pub fn part_scopes(part: &PromptPart) -> (r: Option<&Vec<String>>)
    ensures
        match part {
            PromptPart::FileList { scopes, .. } => r == Some(scopes),
            PromptPart::FileContents { scopes, .. } => r == Some(scopes),
            _ => r is None,
        },
{
    match part {
        PromptPart::FileList { scopes, .. } => Some(scopes),
        PromptPart::FileContents { scopes, .. } => Some(scopes),
        _ => None,
    }
}

/// The text of a part and whether it is hidden from the display.
pub fn process_part(
    part: &PromptPart,
    input: &PartInput,
    outputs: &crate::runner::BlockOutputs,
    current_block_id: &str,
    verification_output: Option<&JsonValue>,
) -> (r: (String, bool))
    requires
        input_fits(*part, *input),
    ensures
        r.0@ == part_text(*part, *input, outputs@, current_block_id@, opt_json(verification_output)),
        r.1 == part.hidden(),
{
    let hide = part.hide_in_stdout();
    let text = match part {
        PromptPart::StaticText { content, .. } => content.clone(),
        PromptPart::PromptFileField { prefix, .. } => match input {
            PartInput::Field(Some(v)) => field_text(prefix.as_str(), Some(v.as_str())),
            _ => field_text(prefix.as_str(), None),
        },
        PromptPart::PreviousOutput { block_id, prefix, .. } => {
            let out = outputs.get(block_id.as_str());
            previous_output_text(
                prefix.as_str(),
                block_id.as_str(),
                current_block_id,
                verification_output,
                out,
            )
        },
        PromptPart::FileList { prefix, .. } => match input {
            PartInput::Files(f) => file_list_text(prefix.as_str(), f),
            _ => {
                let none: Vec<String> = Vec::new();
                proof {
                    assert(views(none@) =~= Seq::<Seq<char>>::empty());
                }
                file_list_text(prefix.as_str(), &none)
            },
        },
        PromptPart::FileContents { prefix, .. } => match input {
            PartInput::FileReads(f) => file_contents_text(prefix.as_str(), f),
            _ => {
                let none: Vec<(String, Option<String>)> = Vec::new();
                proof {
                    assert(crate::orchestrator::file_reads_view(none@) =~= Seq::empty());
                }
                file_contents_text(prefix.as_str(), &none)
            },
        },
    };
    (text, hide)
}

/// The pieces of a prompt: each part's text and whether it is hidden.
pub open spec fn prompt_pieces(
    parts: Seq<PromptPart>,
    inputs: Seq<PartInput>,
    outputs: Map<Seq<char>, JsonView>,
    current_block_id: Seq<char>,
    verification_output: Option<JsonView>,
) -> Seq<(Seq<char>, bool)> {
    Seq::new(
        parts.len(),
        |i: int|
            (
                part_text(parts[i], inputs[i], outputs, current_block_id, verification_output),
                parts[i].hidden(),
            ),
    )
}

/// Builds a prompt from its definition, given what the caller found for
/// each part: the full prompt joins the parts' texts with newlines; the
/// displayed one shows hidden parts as a note (all of them when debugging).
pub fn build(
    prompt_def: &crate::flows::types::Prompt,
    inputs: &Vec<PartInput>,
    outputs: &crate::runner::BlockOutputs,
    current_block_id: &str,
    verification_output: Option<&JsonValue>,
    is_debug: bool,
) -> (b: BuiltPrompt)
    requires
        inputs@.len() == prompt_def.composition@.len(),
        forall|i: int|
            0 <= i < inputs@.len() ==> input_fits(
                #[trigger] prompt_def.composition@[i],
                inputs@[i],
            ),
    ensures
        ({
            let pieces = prompt_pieces(
                prompt_def.composition@,
                inputs@,
                outputs@,
                current_block_id@,
                opt_json(verification_output),
            );
            &&& b.full_prompt@ == join(pieces.map_values(|p: (Seq<char>, bool)| p.0), "\n"@)
            &&& b.display_prompt@ == join(display_pieces(pieces, is_debug), "\n"@)
        }),
{
    let ghost want = prompt_pieces(
        prompt_def.composition@,
        inputs@,
        outputs@,
        current_block_id@,
        opt_json(verification_output),
    );
    let mut pieces: Vec<(String, bool)> = Vec::new();
    let mut i: usize = 0;
    while i < prompt_def.composition.len()
        invariant
            i <= prompt_def.composition@.len(),
            inputs@.len() == prompt_def.composition@.len(),
            forall|k: int|
                0 <= k < inputs@.len() ==> input_fits(
                    #[trigger] prompt_def.composition@[k],
                    inputs@[k],
                ),
            want == prompt_pieces(
                prompt_def.composition@,
                inputs@,
                outputs@,
                current_block_id@,
                opt_json(verification_output),
            ),
            pieces_view(pieces@) == want.take(i as int),
        decreases prompt_def.composition.len() - i,
    {
        let piece = process_part(
            &prompt_def.composition[i],
            &inputs[i],
            outputs,
            current_block_id,
            verification_output,
        );
        let ghost before = pieces@;
        let ghost pv = (piece.0@, piece.1);
        pieces.push(piece);
        proof {
            assert(pieces_view(pieces@) =~= pieces_view(before).push(pv));
            assert(want.take(i + 1) =~= want.take(i as int).push(want[i as int]));
        }
        i += 1;
    }
    proof {
        assert(want.take(want.len() as int) =~= want);
    }
    build_prompt(&pieces, is_debug)
}

} // verus!

//! Running a flow: its blocks one after the other. A looping block runs once
//! for each task of an earlier block's output, with the task exposed under
//! the loop's key; its output is the list of its iterations' outputs. After a
//! block its output may be saved to a file, is stored under the block's id,
//! and the files it changed may be committed. The decisions stand here; the
//! caller runs each block, writes the files and makes the commits.
use crate::error::{Error, ErrorKind};
use crate::flows::types::{Block, Flow};
use crate::gemini_types::{Content, ContentView, contents_view};
use crate::json::{JsonValue, JsonView, pretty_text, to_string_pretty};
use crate::runner::{
    BlockOutputs,
    block_commit_message,
    block_started_message,
    commit_lines,
    flow_finished_message,
    flow_started_message,
    iteration_message,
    loop_items,
    loop_items_spec,
    saved_output_message,
    task_commit_message,
    task_id,
};
use crate::text::views;
use vstd::prelude::*;

verus! {

/// What a flow run waits for.
#[derive(Debug, Clone, Copy, PartialEq, Eq, Structural)]
pub enum FlowPhase {
    Start,
    /// A block (or an iteration of a looping block) is running.
    AwaitBlock,
    /// A looping block has no tasks: nothing runs, its output is empty.
    AwaitContinue,
    AwaitIterationCommit,
    AwaitSave,
    AwaitCommit,
    Done,
}

/// The state of a flow run.
#[derive(Debug)]
pub struct FlowRun {
    pub phase: FlowPhase,
    /// The block being run.
    pub block: usize,
    /// The outputs stored so far, by block id.
    pub outputs: BlockOutputs,
    /// The conversation so far.
    pub history: Vec<Content>,
    /// The files changed since the last commit, each once.
    pub changed: Vec<String>,
    /// The tasks of a looping block, the one running, and the outputs of
    /// those that ran.
    pub items: Vec<JsonValue>,
    pub item: usize,
    pub iteration_outputs: Vec<JsonValue>,
    /// The history each iteration starts from (empty), when the loop clears it.
    pub loop_history: Option<Vec<Content>>,
    /// The output of the block, once it has one.
    pub final_output: JsonValue,
}

/// The next piece of outside work of a flow run.
#[derive(Debug)]
pub enum FlowAction {
    /// Run the current block with these outputs and this history.
    RunBlock { outputs: BlockOutputs, history: Vec<Content> },
    /// Nothing to do; hand back `Continue`.
    Continue,
    /// Commit these files with this message.
    Commit { paths: Vec<String>, message: String },
    /// Write this text to this file, creating its directory.
    Save { path: String, text: String },
    /// The flow is done, or failed.
    Finish(Result<(), Error>),
}

/// The outcome of the last piece of outside work.
#[derive(Debug)]
pub enum FlowEvent {
    Begin,
    Continue,
    /// The block's output, the history it leaves, and the files it changed.
    BlockDone(Result<(JsonValue, Vec<Content>, Vec<String>), Error>),
    Committed(Result<(), Error>),
    Saved(Result<(), Error>),
}

/// Whether an event is the one the phase waits for.
pub open spec fn flow_event_fits(phase: FlowPhase, ev: FlowEvent) -> bool {
    match phase {
        FlowPhase::Start => ev is Begin,
        FlowPhase::AwaitBlock => ev is BlockDone,
        FlowPhase::AwaitContinue => ev is Continue,
        FlowPhase::AwaitIterationCommit => ev is Committed,
        FlowPhase::AwaitSave => ev is Saved,
        FlowPhase::AwaitCommit => ev is Committed,
        FlowPhase::Done => false,
    }
}

/// The state's consistency: a block is being run in every phase but the
/// first and the last, the running task is one of the loop's, the changed
/// files are distinct.
pub open spec fn flow_wf(flow: Flow, st: FlowRun) -> bool {
    &&& (st.phase != FlowPhase::Start && st.phase != FlowPhase::Done) ==> st.block
        < flow.blocks@.len()
    &&& (st.phase == FlowPhase::AwaitBlock || st.phase == FlowPhase::AwaitIterationCommit) ==> (
    flow.blocks@[st.block as int].looping is Some ==> st.item < st.items@.len())
    &&& st.phase == FlowPhase::AwaitIterationCommit ==> flow.blocks@[st.block as int].looping is Some
    &&& st.phase == FlowPhase::AwaitSave ==> flow.blocks@[st.block as int].annotations.save_output_to is Some
    &&& views(st.changed@).no_duplicates()
}

/// The state before a flow runs, with the outputs given beforehand.
pub fn flow_start(outputs: BlockOutputs) -> (s: FlowRun)
    ensures
        s.phase == FlowPhase::Start,
        s.block == 0,
        s.outputs@ == outputs@,
        s.history@.len() == 0,
        s.changed@.len() == 0,
{
    let s = FlowRun {
        phase: FlowPhase::Start,
        block: 0,
        outputs,
        history: Vec::new(),
        changed: Vec::new(),
        items: Vec::new(),
        item: 0,
        iteration_outputs: Vec::new(),
        loop_history: None,
        final_output: JsonValue::Null,
    };
    s
}

/// The paths of `c` followed by those of `new` not met before, in order.
pub open spec fn union_paths(c: Seq<Seq<char>>, new: Seq<Seq<char>>) -> Seq<Seq<char>>
    decreases new.len(),
{
    if new.len() == 0 {
        c
    } else {
        let u = union_paths(c, new.drop_last());
        if u.contains(new.last()) {
            u
        } else {
            u.push(new.last())
        }
    }
}

/// Adding changed files keeps each once, and loses none.
pub proof fn law_union_paths(c: Seq<Seq<char>>, new: Seq<Seq<char>>)
    requires
        c.no_duplicates(),
    ensures
        union_paths(c, new).no_duplicates(),
        forall|p: Seq<char>|
            #![trigger union_paths(c, new).contains(p)]
            union_paths(c, new).contains(p) <==> (c.contains(p) || new.contains(p)),
    decreases new.len(),
{
    if new.len() > 0 {
        let d = new.drop_last();
        let x = new.last();
        law_union_paths(c, d);
        let u = union_paths(c, d);
        assert forall|p: Seq<char>|
            #![trigger union_paths(c, new).contains(p)]
            union_paths(c, new).contains(p) <==> (c.contains(p) || new.contains(p)) by {
            if new.contains(p) {
                let m = choose|m: int| 0 <= m < new.len() && new[m] == p;
                if m < d.len() {
                    assert(d[m] == p);
                }
            }
            if d.contains(p) {
                let m = choose|m: int| 0 <= m < d.len() && d[m] == p;
                assert(new[m] == p);
            }
            if p == x {
                assert(new[new.len() - 1] == p);
            }
            if !u.contains(x) {
                if u.push(x).contains(p) {
                    let m = choose|m: int| 0 <= m < u.push(x).len() && u.push(x)[m] == p;
                    if m < u.len() {
                        assert(u[m] == p);
                    }
                }
                if u.contains(p) {
                    let m = choose|m: int| 0 <= m < u.len() && u[m] == p;
                    assert(u.push(x)[m] == p);
                }
                if p == x {
                    assert(u.push(x)[u.len() as int] == p);
                }
            }
        }
    }
}

/// Adds the paths of `new` that are not there yet, in order.
pub fn add_changed(changed: &mut Vec<String>, new: &Vec<String>)
    ensures
        views(final(changed)@) == union_paths(views(old(changed)@), views(new@)),
{
    let ghost c0 = views(changed@);
    let mut i: usize = 0;
    while i < new.len()
        invariant
            i <= new@.len(),
            views(changed@) == union_paths(c0, views(new@).take(i as int)),
        decreases new.len() - i,
    {
        let mut found = false;
        let mut j: usize = 0;
        while j < changed.len()
            invariant
                i < new@.len(),
                j <= changed@.len(),
                found == exists|m: int| 0 <= m < j && changed@[m]@ == new@[i as int]@,
            decreases changed.len() - j,
        {
            if crate::text::str_eq(changed[j].as_str(), new[i].as_str()) {
                found = true;
            }
            j += 1;
        }
        let ghost before = views(changed@);
        let ghost x = new@[i as int]@;
        proof {
            if found {
                let m = choose|m: int| 0 <= m < changed@.len() && changed@[m]@ == x;
                assert(before[m] == x);
            }
            if before.contains(x) {
                let m = choose|m: int| 0 <= m < before.len() && before[m] == x;
                assert(changed@[m]@ == x);
            }
            assert(views(new@).take(i + 1).drop_last() =~= views(new@).take(i as int));
            assert(views(new@).take(i + 1).last() == x);
        }
        if !found {
            changed.push(new[i].clone());
            proof {
                assert(views(changed@) =~= before.push(x));
            }
        }
        i += 1;
    }
    proof {
        assert(views(new@).take(new@.len() as int) =~= views(new@));
    }
}

/// How starting block `i` goes, given the outputs stored so far.
pub enum StartView {
    /// No block is left: the flow is done.
    Finished,
    /// The block runs once.
    Once,
    /// The block loops over these tasks, none.
    EmptyLoop,
    /// The block loops over these tasks, at least one.
    Loop(Seq<JsonView>),
    /// The tasks could not be found.
    Failed((ErrorKind, Seq<char>)),
}

pub open spec fn start_view(flow: Flow, outputs: Map<Seq<char>, JsonView>, i: int) -> StartView {
    if i >= flow.blocks@.len() {
        StartView::Finished
    } else {
        match flow.blocks@[i].looping {
            None => StartView::Once,
            Some(l) => match loop_items_spec(outputs, l.over@) {
                Err(e) => StartView::Failed(e),
                Ok(items) => if items.len() == 0 {
                    StartView::EmptyLoop
                } else {
                    StartView::Loop(items)
                },
            },
        }
    }
}

pub open spec fn json_views(v: Seq<JsonValue>) -> Seq<JsonView> {
    v.map_values(|x: JsonValue| x@)
}

/// The state and action that starting block `i` gives, from these outputs,
/// changed files and history.
pub open spec fn start_state(
    flow: Flow,
    outs: Map<Seq<char>, JsonView>,
    changed: Seq<Seq<char>>,
    hist: Seq<ContentView>,
    i: int,
    s: FlowRun,
    a: FlowAction,
) -> bool {
    &&& s.outputs@ == outs
    &&& views(s.changed@) == changed
    &&& contents_view(s.history@) == hist
    &&& match start_view(flow, outs, i) {
        StartView::Finished => s.phase == FlowPhase::Done && (a matches FlowAction::Finish(Ok(()))),
        StartView::Failed(e) => s.phase == FlowPhase::Done && (a matches FlowAction::Finish(Err(e2))
            && e2@ == e),
        StartView::Once => s.phase == FlowPhase::AwaitBlock && s.block == i && (
        a matches FlowAction::RunBlock { outputs, history } && outputs@ == outs && contents_view(
            history@,
        ) == hist),
        StartView::EmptyLoop => s.phase == FlowPhase::AwaitContinue && s.block == i
            && a is Continue,
        StartView::Loop(items) => {
            let l = flow.blocks@[i].looping->0;
            &&& s.phase == FlowPhase::AwaitBlock
            &&& s.block == i
            &&& s.item == 0
            &&& json_views(s.items@) == items
            &&& s.iteration_outputs@.len() == 0
            &&& (l.clear_history_on_iteration <==> s.loop_history is Some)
            &&& (s.loop_history matches Some(h) ==> h@.len() == 0)
            &&& (a matches FlowAction::RunBlock { outputs, history } && outputs@ == outs.insert(
                l.as_key@,
                items[0],
            ) && contents_view(history@) == if l.clear_history_on_iteration {
                Seq::<ContentView>::empty()
            } else {
                hist
            })
        },
    }
}

/// The lines logged when block `i` starts.
pub open spec fn start_logs(flow: Flow, outs: Map<Seq<char>, JsonView>, i: int) -> Seq<Seq<char>> {
    match start_view(flow, outs, i) {
        StartView::Finished => seq![flow_finished_text(flow)],
        StartView::Once => seq!["Executing block: '"@ + flow.blocks@[i].id@ + "'..."@],
        StartView::Loop(items) => seq![iteration_text(flow.blocks@[i].id@, 0, items.len() as int)],
        _ => Seq::empty(),
    }
}

pub open spec fn flow_finished_text(flow: Flow) -> Seq<char> {
    "Flow '"@ + flow.id@ + "' finished."@
}

pub open spec fn iteration_text(block_id: Seq<char>, i: int, n: int) -> Seq<char> {
    "Executing looping block '"@ + block_id + "' (iteration "@ + crate::text::decimal((i + 1) as nat)
        + "/"@ + crate::text::decimal(n as nat) + ")"@
}

fn one_line(m: String) -> (v: Vec<String>)
    ensures
        views(v@) == seq![m@],
{
    let mut v: Vec<String> = Vec::new();
    v.push(m);
    proof {
        assert(views(v@) =~= seq![m@]);
    }
    v
}

fn no_lines() -> (v: Vec<String>)
    ensures
        v@.len() == 0,
        views(v@) == Seq::<Seq<char>>::empty(),
{
    let v: Vec<String> = Vec::new();
    proof {
        assert(views(v@) =~= Seq::<Seq<char>>::empty());
    }
    v
}

/// Starts block `i` (or finishes the flow when none is left).
fn start_block(flow: &Flow, st: FlowRun, i: usize) -> (r: (FlowRun, FlowAction, Vec<String>))
    requires
        views(st.changed@).no_duplicates(),
    ensures
        start_state(*flow, st.outputs@, views(st.changed@), contents_view(st.history@), i as int, r.0, r.1),
        views(r.2@) == start_logs(*flow, st.outputs@, i as int),
        flow_wf(*flow, r.0),
{
    let mut st = st;
    if i >= flow.blocks.len() {
        st.phase = FlowPhase::Done;
        let m = flow_finished_message(flow.id.as_str());
        return (st, FlowAction::Finish(Ok(())), one_line(m));
    }
    let block = &flow.blocks[i];
    st.block = i;
    match &block.looping {
        None => {
            st.phase = FlowPhase::AwaitBlock;
            let outputs = st.outputs.copy();
            let history = crate::gemini_types::copy_contents(&st.history);
            let m = block_started_message(block.id.as_str());
            (st, FlowAction::RunBlock { outputs, history }, one_line(m))
        },
        Some(l) => match loop_items(&st.outputs, l.over.as_str()) {
            Err(e) => {
                st.phase = FlowPhase::Done;
                (st, FlowAction::Finish(Err(e)), no_lines())
            },
            Ok(items) => {
                let n = items.len();
                if n == 0 {
                    st.phase = FlowPhase::AwaitContinue;
                    st.items = items;
                    (st, FlowAction::Continue, no_lines())
                } else {
                    st.loop_history = if l.clear_history_on_iteration {
                        Some(Vec::new())
                    } else {
                        None
                    };
                    let mut outputs = st.outputs.copy();
                    outputs.insert(l.as_key.clone(), items[0].copy());
                    let history = if l.clear_history_on_iteration {
                        let empty: Vec<Content> = Vec::new();
                        proof {
                            assert(contents_view(empty@) =~= Seq::<ContentView>::empty());
                        }
                        empty
                    } else {
                        crate::gemini_types::copy_contents(&st.history)
                    };
                    let m = iteration_message(block.id.as_str(), 0, n);
                    st.items = items;
                    st.item = 0;
                    st.iteration_outputs = Vec::new();
                    st.phase = FlowPhase::AwaitBlock;
                    (st, FlowAction::RunBlock { outputs, history }, one_line(m))
                }
            },
        },
    }
}

pub open spec fn block_commit_text(block_id: Seq<char>, flow_id: Seq<char>) -> Seq<char> {
    "aide-rs: auto-commit after block '"@ + block_id + "' in flow '"@ + flow_id + "'"@
}

pub open spec fn task_commit_text(task: Seq<char>, flow_id: Seq<char>) -> Seq<char> {
    "aide-rs: auto-commit after task '"@ + task + "' in flow '"@ + flow_id + "'"@
}

pub open spec fn committing_text(block_id: Seq<char>, n: nat) -> Seq<char> {
    "Block '"@ + block_id + "' succeeded, committing "@ + crate::text::decimal(n)
        + " changed file(s)..."@
}

pub open spec fn skip_commit_text(block_id: Seq<char>) -> Seq<char> {
    "Block '"@ + block_id + "' succeeded, but no files were changed. Skipping commit."@
}

pub open spec fn task_committing_text(task: Seq<char>, n: nat) -> Seq<char> {
    "Loop iteration for task '"@ + task + "' succeeded, committing "@ + crate::text::decimal(n)
        + " file(s)..."@
}

pub open spec fn task_skip_text(task: Seq<char>, block_id: Seq<char>) -> Seq<char> {
    "Loop iteration for task '"@ + task + "' in block '"@ + block_id
        + "' succeeded, but no files were changed. Skipping commit."@
}

pub open spec fn committed_text(n: nat) -> Seq<char> {
    "Committed "@ + crate::text::decimal(n) + " file(s)."@
}

pub open spec fn saved_text(block_id: Seq<char>, path: Seq<char>) -> Seq<char> {
    "Saved output of block '"@ + block_id + "' to '"@ + path + "'"@
}

/// The id of a task, or `unknown`.
pub open spec fn task_id_text(item: JsonView) -> Seq<char> {
    match crate::json::json_get_str(item, "id"@) {
        Some(t) => t,
        None => "unknown"@,
    }
}

/// Storing the output of block `i` under its id, then committing the
/// changed files when the block asks for it and there are any, else starting
/// the next block.
pub open spec fn store_state(
    flow: Flow,
    outs: Map<Seq<char>, JsonView>,
    changed: Seq<Seq<char>>,
    hist: Seq<ContentView>,
    i: int,
    fin: JsonView,
    s: FlowRun,
    a: FlowAction,
) -> bool {
    let b = flow.blocks@[i];
    let outs2 = outs.insert(b.id@, fin);
    if b.annotations.commit_on_success && changed.len() > 0 {
        &&& s.phase == FlowPhase::AwaitCommit
        &&& s.block == i
        &&& s.outputs@ == outs2
        &&& views(s.changed@) == changed
        &&& contents_view(s.history@) == hist
        &&& (a matches FlowAction::Commit { paths, message } && views(paths@) == changed
            && message@ == block_commit_text(b.id@, flow.id@))
    } else {
        start_state(flow, outs2, changed, hist, i + 1, s, a)
    }
}

pub open spec fn store_logs(
    flow: Flow,
    outs: Map<Seq<char>, JsonView>,
    changed: Seq<Seq<char>>,
    i: int,
    fin: JsonView,
) -> Seq<Seq<char>> {
    let b = flow.blocks@[i];
    let outs2 = outs.insert(b.id@, fin);
    if b.annotations.commit_on_success {
        if changed.len() > 0 {
            seq![committing_text(b.id@, changed.len())]
        } else {
            seq![skip_commit_text(b.id@)] + start_logs(flow, outs2, i + 1)
        }
    } else {
        start_logs(flow, outs2, i + 1)
    }
}

/// A block's output is saved first when the block asks for it, then stored.
pub open spec fn after_state(
    flow: Flow,
    outs: Map<Seq<char>, JsonView>,
    changed: Seq<Seq<char>>,
    hist: Seq<ContentView>,
    i: int,
    fin: JsonView,
    s: FlowRun,
    a: FlowAction,
) -> bool {
    match flow.blocks@[i].annotations.save_output_to {
        Some(p) => {
            &&& s.phase == FlowPhase::AwaitSave
            &&& s.block == i
            &&& s.final_output@ == fin
            &&& s.outputs@ == outs
            &&& views(s.changed@) == changed
            &&& contents_view(s.history@) == hist
            &&& (a matches FlowAction::Save { path, text } && path@ == p@ && text@ == pretty_text(
                fin,
            ))
        },
        None => store_state(flow, outs, changed, hist, i, fin, s, a),
    }
}

pub open spec fn after_logs(
    flow: Flow,
    outs: Map<Seq<char>, JsonView>,
    changed: Seq<Seq<char>>,
    i: int,
    fin: JsonView,
) -> Seq<Seq<char>> {
    match flow.blocks@[i].annotations.save_output_to {
        Some(_) => Seq::empty(),
        None => store_logs(flow, outs, changed, i, fin),
    }
}

pub open spec fn history_views(h: Option<Vec<Content>>) -> Option<Seq<ContentView>> {
    match h {
        Some(x) => Some(contents_view(x@)),
        None => None,
    }
}

/// After task `k` of a looping block: the next task runs (from the loop's
/// history when it clears it), or, after the last, the block's output is
/// the list of the tasks' outputs.
pub open spec fn next_state(
    flow: Flow,
    outs: Map<Seq<char>, JsonView>,
    changed: Seq<Seq<char>>,
    hist: Seq<ContentView>,
    i: int,
    its: Seq<JsonView>,
    k: int,
    lh: Option<Seq<ContentView>>,
    done: Seq<JsonView>,
    s: FlowRun,
    a: FlowAction,
) -> bool {
    let l = flow.blocks@[i].looping->0;
    if k + 1 < its.len() {
        let h2 = match lh {
            Some(h) => h,
            None => hist,
        };
        &&& s.phase == FlowPhase::AwaitBlock
        &&& s.block == i
        &&& s.item == k + 1
        &&& json_views(s.items@) == its
        &&& json_views(s.iteration_outputs@) == done
        &&& history_views(s.loop_history) == lh
        &&& s.outputs@ == outs
        &&& views(s.changed@) == changed
        &&& contents_view(s.history@) == h2
        &&& (a matches FlowAction::RunBlock { outputs, history } && outputs@ == outs.insert(
            l.as_key@,
            its[k + 1],
        ) && contents_view(history@) == h2)
    } else {
        after_state(flow, outs, changed, hist, i, JsonView::Array(done), s, a)
    }
}

pub open spec fn next_logs(
    flow: Flow,
    outs: Map<Seq<char>, JsonView>,
    changed: Seq<Seq<char>>,
    i: int,
    its: Seq<JsonView>,
    k: int,
    done: Seq<JsonView>,
) -> Seq<Seq<char>> {
    if k + 1 < its.len() {
        seq![iteration_text(flow.blocks@[i].id@, k + 1, its.len() as int)]
    } else {
        after_logs(flow, outs, changed, i, JsonView::Array(done))
    }
}

fn store_block(flow: &Flow, st: FlowRun) -> (r: (FlowRun, FlowAction, Vec<String>))
    requires
        st.block < flow.blocks@.len(),
        views(st.changed@).no_duplicates(),
    ensures
        store_state(
            *flow,
            st.outputs@,
            views(st.changed@),
            contents_view(st.history@),
            st.block as int,
            st.final_output@,
            r.0,
            r.1,
        ),
        views(r.2@) == store_logs(
            *flow,
            st.outputs@,
            views(st.changed@),
            st.block as int,
            st.final_output@,
        ),
        flow_wf(*flow, r.0),
{
    let mut st = st;
    let i = st.block;
    let nb = flow.blocks.len();
    assert(i < nb);
    let block = &flow.blocks[i];
    let fin = st.final_output.copy();
    st.outputs.insert(block.id.clone(), fin);
    if block.annotations.commit_on_success {
        let n = st.changed.len();
        let (before, _after) = commit_lines(block.id.as_str(), None, n);
        if n > 0 {
            let mut paths: Vec<String> = Vec::new();
            let mut j: usize = 0;
            while j < st.changed.len()
                invariant
                    j <= st.changed@.len(),
                    views(paths@) == views(st.changed@).take(j as int),
                decreases st.changed.len() - j,
            {
                let ghost pb = paths@;
                paths.push(st.changed[j].clone());
                proof {
                    assert(views(paths@) =~= views(pb).push(st.changed@[j as int]@));
                    assert(views(st.changed@).take(j + 1) =~= views(st.changed@).take(j as int).push(
                        st.changed@[j as int]@,
                    ));
                }
                j += 1;
            }
            proof {
                assert(views(st.changed@).take(st.changed@.len() as int) =~= views(st.changed@));
            }
            let message = block_commit_message(block.id.as_str(), flow.id.as_str());
            st.phase = FlowPhase::AwaitCommit;
            (st, FlowAction::Commit { paths, message }, before)
        } else {
            let ghost bv = views(before@);
            let (st2, action, logs) = start_block(flow, st, i + 1);
            let mut all = before;
            let ghost lv = views(logs@);
            let mut logs = logs;
            all.append(&mut logs);
            proof {
                assert(views(all@) =~= bv + lv);
            }
            (st2, action, all)
        }
    } else {
        start_block(flow, st, i + 1)
    }
}

fn after_block(flow: &Flow, st: FlowRun, fin: JsonValue) -> (r: (FlowRun, FlowAction, Vec<String>))
    requires
        st.block < flow.blocks@.len(),
        views(st.changed@).no_duplicates(),
    ensures
        after_state(
            *flow,
            st.outputs@,
            views(st.changed@),
            contents_view(st.history@),
            st.block as int,
            fin@,
            r.0,
            r.1,
        ),
        views(r.2@) == after_logs(*flow, st.outputs@, views(st.changed@), st.block as int, fin@),
        flow_wf(*flow, r.0),
{
    let mut st = st;
    let block = &flow.blocks[st.block];
    match &block.annotations.save_output_to {
        Some(p) => {
            let text = to_string_pretty(&fin);
            st.final_output = fin;
            st.phase = FlowPhase::AwaitSave;
            (st, FlowAction::Save { path: p.clone(), text }, no_lines())
        },
        None => {
            st.final_output = fin;
            store_block(flow, st)
        },
    }
}

fn next_iteration(flow: &Flow, st: FlowRun) -> (r: (FlowRun, FlowAction, Vec<String>))
    requires
        st.block < flow.blocks@.len(),
        flow.blocks@[st.block as int].looping is Some,
        st.item < st.items@.len(),
        views(st.changed@).no_duplicates(),
    ensures
        next_state(
            *flow,
            st.outputs@,
            views(st.changed@),
            contents_view(st.history@),
            st.block as int,
            json_views(st.items@),
            st.item as int,
            history_views(st.loop_history),
            json_views(st.iteration_outputs@),
            r.0,
            r.1,
        ),
        views(r.2@) == next_logs(
            *flow,
            st.outputs@,
            views(st.changed@),
            st.block as int,
            json_views(st.items@),
            st.item as int,
            json_views(st.iteration_outputs@),
        ),
        flow_wf(*flow, r.0),
{
    let mut st = st;
    let block = &flow.blocks[st.block];
    let l = match &block.looping {
        Some(l) => l,
        None => {
            return (st, FlowAction::Continue, no_lines());
        },
    };
    let ni = st.items.len();
    assert(st.item < ni);
    let k = st.item + 1;
    if k < st.items.len() {
        match &st.loop_history {
            Some(h) => {
                st.history = crate::gemini_types::copy_contents(h);
            },
            None => {},
        }
        let mut outputs = st.outputs.copy();
        outputs.insert(l.as_key.clone(), st.items[k].copy());
        let history = crate::gemini_types::copy_contents(&st.history);
        let m = iteration_message(block.id.as_str(), k, st.items.len());
        st.item = k;
        st.phase = FlowPhase::AwaitBlock;
        (st, FlowAction::RunBlock { outputs, history }, one_line(m))
    } else {
        let mut done: Vec<JsonValue> = Vec::new();
        std::mem::swap(&mut done, &mut st.iteration_outputs);
        let fin = crate::json::json_array(done);
        after_block(flow, st, fin)
    }
}

pub open spec fn flow_started_text(flow: Flow, prompt_path: Seq<char>) -> Seq<char> {
    "Starting flow '"@ + flow.id@ + "' with prompt '"@ + prompt_path + "'..."@
}

fn prepend(first: Vec<String>, rest: Vec<String>) -> (v: Vec<String>)
    ensures
        views(v@) == views(first@) + views(rest@),
{
    let mut v = first;
    let ghost a = views(v@);
    let mut rest = rest;
    let ghost b = views(rest@);
    v.append(&mut rest);
    proof {
        assert(views(v@) =~= a + b);
    }
    v
}

/// One step of a flow run.
///
/// - It begins with the first block. A block that does not loop runs once.
///   A looping block runs once per task of the output it loops over (an
///   error when that output or its `tasks` is missing), each run seeing the
///   task under the loop's key, from an empty history when the loop clears
///   it; its output is the list of the runs' outputs.
/// - A block's output is saved when it asks for it, then stored under its
///   id; the files changed since the last commit are committed after the
///   block, or after each task of a loop, when asked for and when there are
///   any.
/// - Any error ends the flow with it; after the last block the flow is done.
pub fn flow_step(flow: &Flow, prompt_path: &str, st: FlowRun, ev: FlowEvent) -> (r: (
    FlowRun,
    FlowAction,
    Vec<String>,
))
    requires
        flow_event_fits(st.phase, ev),
        flow_wf(*flow, st),
    ensures
        flow_wf(*flow, r.0),
        ev is Begin ==> start_state(
            *flow,
            st.outputs@,
            views(st.changed@),
            contents_view(st.history@),
            0,
            r.0,
            r.1,
        ) && views(r.2@) == seq![flow_started_text(*flow, prompt_path@)] + start_logs(
            *flow,
            st.outputs@,
            0,
        ),
        ev matches FlowEvent::BlockDone(Err(e)) ==> (r.0.phase == FlowPhase::Done && (
        r.1 matches FlowAction::Finish(Err(e2)) && e2@ == e@)),
        ev matches FlowEvent::Saved(Err(e)) ==> (r.0.phase == FlowPhase::Done && (
        r.1 matches FlowAction::Finish(Err(e2)) && e2@ == e@)),
        ev matches FlowEvent::Committed(Err(e)) ==> (r.0.phase == FlowPhase::Done && (
        r.1 matches FlowAction::Finish(Err(e2)) && e2@ == e@)),
        match ev {
            FlowEvent::BlockDone(Ok(done)) => {
            let i = st.block as int;
            let b = flow.blocks@[i];
            let out = done.0@;
            let h = contents_view(done.1@);
            let ch2 = union_paths(views(st.changed@), views(done.2@));
            match b.looping {
                None => after_state(*flow, st.outputs@, ch2, h, i, out, r.0, r.1) && views(r.2@)
                    == after_logs(*flow, st.outputs@, ch2, i, out),
                Some(l) => {
                    let its = json_views(st.items@);
                    let k = st.item as int;
                    let outs_done = json_views(st.iteration_outputs@).push(out);
                    let task = task_id_text(its[k]);
                    if l.commit_on_iteration_success && ch2.len() > 0 {
                        &&& r.0.phase == FlowPhase::AwaitIterationCommit
                        &&& r.0.block == i
                        &&& r.0.item == k
                        &&& json_views(r.0.items@) == its
                        &&& json_views(r.0.iteration_outputs@) == outs_done
                        &&& history_views(r.0.loop_history) == history_views(st.loop_history)
                        &&& r.0.outputs@ == st.outputs@
                        &&& views(r.0.changed@) == ch2
                        &&& contents_view(r.0.history@) == h
                        &&& (r.1 matches FlowAction::Commit { paths, message } && views(paths@)
                            == ch2 && message@ == task_commit_text(task, flow.id@))
                        &&& views(r.2@) == seq![task_committing_text(task, ch2.len())]
                    } else {
                        &&& next_state(
                            *flow,
                            st.outputs@,
                            ch2,
                            h,
                            i,
                            its,
                            k,
                            history_views(st.loop_history),
                            outs_done,
                            r.0,
                            r.1,
                        )
                        &&& views(r.2@) == (if l.commit_on_iteration_success {
                            seq![task_skip_text(task, b.id@)]
                        } else {
                            Seq::empty()
                        }) + next_logs(*flow, st.outputs@, ch2, i, its, k, outs_done)
                    }
                },
            }
            },
            _ => true,
        },
        ev is Continue ==> after_state(
            *flow,
            st.outputs@,
            views(st.changed@),
            contents_view(st.history@),
            st.block as int,
            JsonView::Array(Seq::empty()),
            r.0,
            r.1,
        ) && views(r.2@) == after_logs(
            *flow,
            st.outputs@,
            views(st.changed@),
            st.block as int,
            JsonView::Array(Seq::empty()),
        ),
        ev matches FlowEvent::Saved(Ok(())) ==> {
            let b = flow.blocks@[st.block as int];
            &&& store_state(
                *flow,
                st.outputs@,
                views(st.changed@),
                contents_view(st.history@),
                st.block as int,
                st.final_output@,
                r.0,
                r.1,
            )
            &&& views(r.2@) == seq![saved_text(b.id@, b.annotations.save_output_to->0@)]
                + store_logs(
                *flow,
                st.outputs@,
                views(st.changed@),
                st.block as int,
                st.final_output@,
            )
        },
        (ev matches FlowEvent::Committed(Ok(())) && st.phase == FlowPhase::AwaitCommit) ==> {
            &&& start_state(
                *flow,
                st.outputs@,
                Seq::empty(),
                contents_view(st.history@),
                st.block + 1,
                r.0,
                r.1,
            )
            &&& views(r.2@) == seq![committed_text(st.changed@.len())] + start_logs(
                *flow,
                st.outputs@,
                st.block + 1,
            )
        },
        (ev matches FlowEvent::Committed(Ok(())) && st.phase == FlowPhase::AwaitIterationCommit)
            ==> {
            &&& next_state(
                *flow,
                st.outputs@,
                Seq::empty(),
                contents_view(st.history@),
                st.block as int,
                json_views(st.items@),
                st.item as int,
                history_views(st.loop_history),
                json_views(st.iteration_outputs@),
                r.0,
                r.1,
            )
            &&& views(r.2@) == seq![committed_text(st.changed@.len())] + next_logs(
                *flow,
                st.outputs@,
                Seq::empty(),
                st.block as int,
                json_views(st.items@),
                st.item as int,
                json_views(st.iteration_outputs@),
            )
        },
{
    let mut st = st;
    match ev {
        FlowEvent::Begin => {
            let m = flow_started_message(flow.id.as_str(), prompt_path);
            let (s2, a, logs) = start_block(flow, st, 0);
            (s2, a, prepend(one_line(m), logs))
        },
        FlowEvent::BlockDone(Err(e)) => {
            st.phase = FlowPhase::Done;
            (st, FlowAction::Finish(Err(e)), no_lines())
        },
        FlowEvent::Saved(Err(e)) => {
            st.phase = FlowPhase::Done;
            (st, FlowAction::Finish(Err(e)), no_lines())
        },
        FlowEvent::Committed(Err(e)) => {
            st.phase = FlowPhase::Done;
            (st, FlowAction::Finish(Err(e)), no_lines())
        },
        FlowEvent::BlockDone(Ok((out, h, ch))) => {
            let i = st.block;
            let block = &flow.blocks[i];
            let ghost c0 = views(st.changed@);
            add_changed(&mut st.changed, &ch);
            proof {
                law_union_paths(c0, views(ch@));
            }
            st.history = h;
            match &block.looping {
                None => after_block(flow, st, out),
                Some(l) => {
                    let task = task_id(&st.items[st.item]);
                    let ghost io0 = st.iteration_outputs@;
                    let ghost ov = out@;
                    st.iteration_outputs.push(out);
                    proof {
                        assert(json_views(st.iteration_outputs@) =~= json_views(io0).push(ov));
                    }
                    if l.commit_on_iteration_success {
                        let n = st.changed.len();
                        let (before, _after) = commit_lines(block.id.as_str(), Some(task.as_str()), n);
                        if n > 0 {
                            let mut paths: Vec<String> = Vec::new();
                            let mut j: usize = 0;
                            while j < st.changed.len()
                                invariant
                                    j <= st.changed@.len(),
                                    views(paths@) == views(st.changed@).take(j as int),
                                decreases st.changed.len() - j,
                            {
                                let ghost pb = paths@;
                                paths.push(st.changed[j].clone());
                                proof {
                                    assert(views(paths@) =~= views(pb).push(st.changed@[j as int]@));
                                    assert(views(st.changed@).take(j + 1) =~= views(st.changed@).take(
                                        j as int,
                                    ).push(st.changed@[j as int]@));
                                }
                                j += 1;
                            }
                            proof {
                                assert(views(st.changed@).take(st.changed@.len() as int) =~= views(
                                    st.changed@,
                                ));
                            }
                            let message = task_commit_message(task.as_str(), flow.id.as_str());
                            st.phase = FlowPhase::AwaitIterationCommit;
                            (st, FlowAction::Commit { paths, message }, before)
                        } else {
                            let (s2, a, logs) = next_iteration(flow, st);
                            (s2, a, prepend(before, logs))
                        }
                    } else {
                        let (s2, a, logs) = next_iteration(flow, st);
                        proof {
                            assert(views(logs@) =~= Seq::<Seq<char>>::empty() + views(logs@));
                        }
                        (s2, a, logs)
                    }
                },
            }
        },
        FlowEvent::Continue => {
            let empty: Vec<JsonValue> = Vec::new();
            proof {
                assert(empty@.map_values(|x: JsonValue| x@) =~= Seq::<JsonView>::empty());
            }
            let fin = crate::json::json_array(empty);
            proof {
                assert(fin@ == JsonView::Array(Seq::empty()));
            }
            after_block(flow, st, fin)
        },
        FlowEvent::Saved(Ok(())) => {
            let block = &flow.blocks[st.block];
            let m = match &block.annotations.save_output_to {
                Some(p) => saved_output_message(block.id.as_str(), p.as_str()),
                None => String::new(),
            };
            let (s2, a, logs) = store_block(flow, st);
            (s2, a, prepend(one_line(m), logs))
        },
        FlowEvent::Committed(Ok(())) => {
            let n = st.changed.len();
            let m = cat_committed(n);
            st.changed = Vec::new();
            proof {
                assert(views(st.changed@) =~= Seq::<Seq<char>>::empty());
            }
            if st.phase == FlowPhase::AwaitCommit {
                let nb = flow.blocks.len();
                let i = st.block;
                assert(i < nb);
                let (s2, a, logs) = start_block(flow, st, i + 1);
                (s2, a, prepend(one_line(m), logs))
            } else {
                let (s2, a, logs) = next_iteration(flow, st);
                (s2, a, prepend(one_line(m), logs))
            }
        },
    }
}

fn cat_committed(n: usize) -> (m: String)
    ensures
        m@ == committed_text(n as nat),
{
    let count = crate::text::u64_to_string(n as u64);
    crate::text::cat3("Committed ", count.as_str(), " file(s).")
}

} // verus!

//! Running a flow: blocks one after the other, each possibly looped over the
//! tasks of an earlier block's output. A block is a conversation with the
//! model (with tool calls) that may be verified and retried. The decisions
//! stand here; the caller builds prompts, calls the model, executes tools,
//! runs verification commands and writes files.
use crate::error::{Error, ErrorKind};
use crate::flows::types::{Block, Flow, History, HistoryMode, VerificationStrategy};
use crate::gemini_types::{
    Content,
    ContentPart,
    ContentView,
    FunctionCall,
    FunctionDeclaration,
    FunctionResponse,
    GenerateContentResponse,
    PartView,
    Role,
    contents_view,
    first_text,
    has_function_call,
    last_candidate,
};
use crate::json::{JsonValue, JsonView, json_get, json_get_str, pretty_text, to_string_pretty};
use crate::logging::{ToolCallLog, ToolResultLog};
use crate::text::{cat, cat3, decimal, signed_decimal, views};
use vstd::prelude::*;

verus! {

// ---------------------------------------------------------------------------
// Block outputs
// ---------------------------------------------------------------------------

/// The outputs of the blocks run so far, by block id (and loop items by the
/// name they are exposed as). Each id has one entry.
#[derive(Debug)]
pub struct BlockOutputs {
    entries: Vec<(String, JsonValue)>,
}

/// The keys of a list of entries.
pub open spec fn entry_keys(e: Seq<(String, JsonValue)>) -> Seq<Seq<char>> {
    e.map_values(|x: (String, JsonValue)| x.0@)
}

/// The map of a list of entries whose keys are distinct.
pub open spec fn entries_map(e: Seq<(String, JsonValue)>) -> Map<Seq<char>, JsonView>
    decreases e.len(),
{
    if e.len() == 0 {
        Map::empty()
    } else {
        entries_map(e.drop_last()).insert(e.last().0@, e.last().1@)
    }
}

proof fn lemma_prefix_keys_distinct(e: Seq<(String, JsonValue)>)
    requires
        e.len() > 0,
        entry_keys(e).no_duplicates(),
    ensures
        entry_keys(e.drop_last()).no_duplicates(),
        entry_keys(e) == entry_keys(e.drop_last()).push(e.last().0@),
{
    let d = e.drop_last();
    assert(entry_keys(e) =~= entry_keys(d).push(e.last().0@));
    assert forall|a: int, b: int|
        0 <= a < entry_keys(d).len() && 0 <= b < entry_keys(d).len() && a != b implies entry_keys(
        d,
    )[a] != entry_keys(d)[b] by {
        assert(entry_keys(d)[a] == entry_keys(e)[a]);
        assert(entry_keys(d)[b] == entry_keys(e)[b]);
    }
}

proof fn lemma_entries_map_dom(e: Seq<(String, JsonValue)>, k: Seq<char>)
    ensures
        entries_map(e).contains_key(k) <==> entry_keys(e).contains(k),
    decreases e.len(),
{
    if e.len() > 0 {
        let d = e.drop_last();
        lemma_entries_map_dom(d, k);
        assert(entry_keys(e) =~= entry_keys(d).push(e.last().0@));
        assert(entry_keys(e)[e.len() - 1] == e.last().0@);
        if entry_keys(d).contains(k) {
            let j = choose|j: int| 0 <= j < entry_keys(d).len() && entry_keys(d)[j] == k;
            assert(entry_keys(e)[j] == k);
        }
        if entry_keys(e).contains(k) {
            let j = choose|j: int| 0 <= j < entry_keys(e).len() && entry_keys(e)[j] == k;
            if j < d.len() {
                assert(entry_keys(d)[j] == k);
            }
        }
    }
}

proof fn lemma_entries_map_at(e: Seq<(String, JsonValue)>, i: int)
    requires
        0 <= i < e.len(),
        entry_keys(e).no_duplicates(),
    ensures
        entries_map(e).contains_key(e[i].0@),
        entries_map(e)[e[i].0@] == e[i].1@,
    decreases e.len(),
{
    let d = e.drop_last();
    lemma_prefix_keys_distinct(e);
    if i < e.len() - 1 {
        assert(d[i] == e[i]);
        lemma_entries_map_at(d, i);
        assert(entry_keys(e)[i] != entry_keys(e)[e.len() - 1]);
    }
}

impl View for BlockOutputs {
    type V = Map<Seq<char>, JsonView>;

    closed spec fn view(&self) -> Map<Seq<char>, JsonView> {
        entries_map(self.entries@)
    }
}

impl BlockOutputs {
    #[verifier::type_invariant]
    spec fn keys_distinct(self) -> bool {
        entry_keys(self.entries@).no_duplicates()
    }

    /// No outputs.
    pub fn new() -> (o: BlockOutputs)
        ensures
            o@ == Map::<Seq<char>, JsonView>::empty(),
    {
        BlockOutputs { entries: Vec::new() }
    }

    fn index_of(&self, key: &str) -> (r: Option<usize>)
        ensures
            match r {
                Some(i) => i < self.entries@.len() && self.entries@[i as int].0@ == key@,
                None => !entry_keys(self.entries@).contains(key@),
            },
    {
        let mut i: usize = 0;
        while i < self.entries.len()
            invariant
                i <= self.entries@.len(),
                forall|j: int| 0 <= j < i ==> (#[trigger] self.entries@[j]).0@ != key@,
            decreases self.entries.len() - i,
        {
            if crate::text::str_eq(self.entries[i].0.as_str(), key) {
                return Some(i);
            }
            i += 1;
        }
        proof {
            if entry_keys(self.entries@).contains(key@) {
                let j = choose|j: int|
                    0 <= j < entry_keys(self.entries@).len() && entry_keys(self.entries@)[j]
                        == key@;
                assert(self.entries@[j].0@ == key@);
            }
        }
        None
    }

    /// The output stored under `key`.
    pub fn get(&self, key: &str) -> (r: Option<&JsonValue>)
        ensures
            match r {
                Some(v) => self@.contains_key(key@) && self@[key@] == v@,
                None => !self@.contains_key(key@),
            },
    {
        proof {
            use_type_invariant(self);
            lemma_entries_map_dom(self.entries@, key@);
        }
        match self.index_of(key) {
            Some(i) => {
                proof {
                    lemma_entries_map_at(self.entries@, i as int);
                }
                Some(&self.entries[i].1)
            },
            None => None,
        }
    }

    /// Stores `value` under `key`, replacing what was there.
    pub fn insert(&mut self, key: String, value: JsonValue)
        ensures
            final(self)@ == old(self)@.insert(key@, value@),
    {
        proof {
            use_type_invariant(&*self);
        }
        let mut entries = Vec::new();
        std::mem::swap(&mut entries, &mut self.entries);
        let ghost e0 = entries@;
        match self.index_of_in(&entries, key.as_str()) {
            Some(i) => {
                entries.remove(i);
                proof {
                    assert(entry_keys(entries@) =~= entry_keys(e0).remove(i as int));
                    lemma_remove_keeps_distinct(entry_keys(e0), i as int);
                    lemma_entries_map_remove(e0, i as int);
                }
            },
            None => {},
        }
        let ghost e1 = entries@;
        entries.push((key, value));
        proof {
            assert(entries@.drop_last() == e1);
            assert(entry_keys(entries@) =~= entry_keys(e1).push(key@));
            lemma_entries_map_dom(e1, key@);
        }
        self.entries = entries;
    }

    fn index_of_in(&self, entries: &Vec<(String, JsonValue)>, key: &str) -> (r: Option<usize>)
        ensures
            match r {
                Some(i) => i < entries@.len() && entries@[i as int].0@ == key@,
                None => !entry_keys(entries@).contains(key@),
            },
    {
        let mut i: usize = 0;
        while i < entries.len()
            invariant
                i <= entries@.len(),
                forall|j: int| 0 <= j < i ==> (#[trigger] entries@[j]).0@ != key@,
            decreases entries.len() - i,
        {
            if crate::text::str_eq(entries[i].0.as_str(), key) {
                return Some(i);
            }
            i += 1;
        }
        proof {
            if entry_keys(entries@).contains(key@) {
                let j = choose|j: int|
                    0 <= j < entry_keys(entries@).len() && entry_keys(entries@)[j] == key@;
                assert(entries@[j].0@ == key@);
            }
        }
        None
    }

    /// A copy of the outputs.
    pub fn copy(&self) -> (r: BlockOutputs)
        ensures
            r@ == self@,
    {
        proof {
            use_type_invariant(self);
        }
        let mut entries: Vec<(String, JsonValue)> = Vec::new();
        let mut i: usize = 0;
        while i < self.entries.len()
            invariant
                i <= self.entries@.len(),
                entries@.len() == i,
                forall|j: int|
                    0 <= j < i ==> (#[trigger] entries@[j]).0@ == self.entries@[j].0@
                        && entries@[j].1@ == self.entries@[j].1@,
            decreases self.entries.len() - i,
        {
            entries.push((self.entries[i].0.clone(), self.entries[i].1.copy()));
            i += 1;
        }
        proof {
            assert(entry_keys(entries@) =~= entry_keys(self.entries@));
            lemma_entries_map_same(entries@, self.entries@);
        }
        BlockOutputs { entries }
    }
}

/// What is read back for a block id is what was last stored under it; the
/// other ids keep their outputs.
pub proof fn law_outputs_read_back(o: BlockOutputs, key: Seq<char>, value: JsonView, other: Seq<char>)
    ensures
        o@.insert(key, value).contains_key(key),
        o@.insert(key, value)[key] == value,
        other != key ==> (o@.insert(key, value).contains_key(other) == o@.contains_key(other)),
        (other != key && o@.contains_key(other)) ==> o@.insert(key, value)[other] == o@[other],
{
}

proof fn lemma_remove_keeps_distinct(k: Seq<Seq<char>>, i: int)
    requires
        k.no_duplicates(),
        0 <= i < k.len(),
    ensures
        k.remove(i).no_duplicates(),
{
    let r = k.remove(i);
    assert forall|a: int, b: int| 0 <= a < r.len() && 0 <= b < r.len() && a != b implies r[a]
        != r[b] by {
        let a1 = if a < i {
            a
        } else {
            a + 1
        };
        let b1 = if b < i {
            b
        } else {
            b + 1
        };
        assert(r[a] == k[a1] && r[b] == k[b1]);
    }
}

proof fn lemma_entries_map_same(a: Seq<(String, JsonValue)>, b: Seq<(String, JsonValue)>)
    requires
        a.len() == b.len(),
        forall|j: int| 0 <= j < a.len() ==> (#[trigger] a[j]).0@ == b[j].0@ && a[j].1@ == b[j].1@,
    ensures
        entries_map(a) == entries_map(b),
    decreases a.len(),
{
    if a.len() > 0 {
        lemma_entries_map_same(a.drop_last(), b.drop_last());
        assert(a.last().0@ == b.last().0@);
    }
}

/// Removing the entry of a key removes the key from the map.
proof fn lemma_entries_map_remove(e: Seq<(String, JsonValue)>, i: int)
    requires
        entry_keys(e).no_duplicates(),
        0 <= i < e.len(),
    ensures
        entries_map(e.remove(i)) == entries_map(e).remove(e[i].0@),
    decreases e.len(),
{
    let k = e[i].0@;
    let r = e.remove(i);
    assert(entry_keys(r) =~= entry_keys(e).remove(i));
    lemma_remove_keeps_distinct(entry_keys(e), i);
    assert forall|x: Seq<char>| #[trigger] entries_map(r).contains_key(x) <==> entries_map(
        e,
    ).remove(k).contains_key(x) by {
        lemma_entries_map_dom(r, x);
        lemma_entries_map_dom(e, x);
        if entry_keys(r).contains(x) {
            let j = choose|j: int| 0 <= j < entry_keys(r).len() && entry_keys(r)[j] == x;
            let j1 = if j < i {
                j
            } else {
                j + 1
            };
            assert(entry_keys(e)[j1] == x);
            assert(j1 != i);
            assert(entry_keys(e)[i] == k);
        }
        if entry_keys(e).contains(x) && x != k {
            let j = choose|j: int| 0 <= j < entry_keys(e).len() && entry_keys(e)[j] == x;
            assert(j != i);
            let j1 = if j < i {
                j
            } else {
                j - 1
            };
            assert(entry_keys(r)[j1] == x);
        }
    }
    assert forall|x: Seq<char>| #[trigger]
        entries_map(r).contains_key(x) implies entries_map(r)[x] == entries_map(e).remove(k)[x] by {
        lemma_entries_map_dom(r, x);
        lemma_entries_map_dom(e, x);
        let j = choose|j: int| 0 <= j < entry_keys(r).len() && entry_keys(r)[j] == x;
        let j1 = if j < i {
            j
        } else {
            j + 1
        };
        assert(r[j] == e[j1]);
        assert(entry_keys(r)[j] == r[j].0@);
        lemma_entries_map_at(r, j);
        lemma_entries_map_at(e, j1);
    }
    assert(entries_map(r) =~= entries_map(e).remove(k));
}

// ---------------------------------------------------------------------------
// Decisions of a block
// ---------------------------------------------------------------------------

/// The model of a block: its own, else the flow's, else `gemini-2.5-pro`.
pub fn block_model(block: &Block, flow: &Flow) -> (m: String)
    ensures
        m@ == match block.annotations.model {
            Some(b) => b@,
            None => match flow.model {
                Some(f) => f@,
                None => "gemini-2.5-pro"@,
            },
        },
{
    match &block.annotations.model {
        Some(b) => b.clone(),
        None => match &flow.model {
            Some(f) => f.clone(),
            None => crate::text::owned("gemini-2.5-pro"),
        },
    }
}

/// The contents sent with a request, as the block's history mode asks:
/// everything, only the last content, or the last `n` prompt/response
/// pairs (the last `2n` contents).
pub open spec fn history_for_request_spec(mode: History, h: Seq<ContentView>) -> Seq<ContentView> {
    match mode {
        History::Mode(HistoryMode::Full) => h,
        History::Mode(HistoryMode::Off) => seq![h.last()],
        History::LastN { last_n } => if h.len() > 2 * last_n {
            h.skip(h.len() - 2 * last_n)
        } else {
            h
        },
    }
}

/// What a request sends is the end of the history: all of it, its last
/// content, or its last `n` prompt/response pairs, `2n` contents (all when
/// there are fewer).
pub proof fn law_history_is_suffix(mode: History, h: Seq<ContentView>)
    requires
        h.len() > 0,
    ensures
        ({
            let r = history_for_request_spec(mode, h);
            &&& r == h.skip(h.len() - r.len())
            &&& r.len() == match mode {
                History::Mode(HistoryMode::Full) => h.len() as int,
                History::Mode(HistoryMode::Off) => 1,
                History::LastN { last_n } => if h.len() > 2 * last_n {
                    2 * last_n
                } else {
                    h.len() as int
                },
            }
        }),
{
    let r = history_for_request_spec(mode, h);
    match mode {
        History::Mode(HistoryMode::Full) => {
            assert(h.skip(0) =~= h);
        },
        History::Mode(HistoryMode::Off) => {
            assert(h.skip(h.len() - 1) =~= seq![h.last()]);
        },
        History::LastN { last_n } => {
            if h.len() <= 2 * last_n {
                assert(h.skip(0) =~= h);
            }
        },
    }
}

pub fn history_for_request(mode: &History, h: &Vec<Content>) -> (r: Vec<Content>)
    requires
        h@.len() > 0,
    ensures
        contents_view(r@) == history_for_request_spec(*mode, contents_view(h@)),
{
    match mode {
        History::Mode(HistoryMode::Full) => crate::gemini_types::copy_contents(h),
        History::Mode(HistoryMode::Off) => {
            let last = h[h.len() - 1].copy();
            let mut r: Vec<Content> = Vec::new();
            r.push(last);
            proof {
                assert(contents_view(r@) =~= seq![contents_view(h@).last()]);
            }
            r
        },
        History::LastN { last_n } => {
            let n: u64 = 2 * (*last_n as u64);
            let len = h.len();
            if len as u64 > n {
                let mut r: Vec<Content> = Vec::new();
                let mut i: usize = ((len as u64) - n) as usize;
                let ghost start = len - n;
                while i < len
                    invariant
                        len == h@.len(),
                        contents_view(h@).len() == h@.len(),
                        0 <= start <= i <= len,
                        contents_view(r@) == contents_view(h@).subrange(start, i as int),
                    decreases len - i,
                {
                    let ghost before = r@;
                    let c = h[i].copy();
                    r.push(c);
                    proof {
                        assert(r@ == before.push(c));
                        assert(contents_view(r@) =~= contents_view(before).push(c@));
                        assert(contents_view(h@)[i as int] == h@[i as int]@);
                        assert(contents_view(r@) =~= contents_view(h@).subrange(start, i + 1));
                    }
                    i += 1;
                }
                proof {
                    assert(contents_view(h@).skip(start) =~= contents_view(h@).subrange(
                        start,
                        len as int,
                    ));
                }
                r
            } else {
                crate::gemini_types::copy_contents(h)
            }
        },
    }
}

/// The output a tool call leaves: its result, or an object holding the error's text.
pub open spec fn tool_output_spec(result: Result<JsonView, Seq<char>>) -> JsonView {
    match result {
        Ok(v) => v,
        Err(m) => JsonView::Object(seq![("error"@, JsonView::Str(m))]),
    }
}

/// The record and the output of a tool call that gave `result`.
pub fn tool_outcome(result: Result<JsonValue, Error>) -> (r: (ToolResultLog, JsonValue))
    ensures
        r.1@ == tool_output_spec(
            match result {
                Ok(v) => Ok(v@),
                Err(e) => Err(crate::error::error_message(e)),
            },
        ),
        r.0.success == result is Ok,
        r.0.output_json@ == r.1@,
        result is Ok ==> r.0.stdout@ == pretty_text(r.1@) && r.0.stderr@.len() == 0,
        result matches Err(e) ==> r.0.stdout@.len() == 0 && r.0.stderr@
            == crate::error::error_message(e),
{
    match result {
        Ok(output) => {
            let log = ToolResultLog {
                success: true,
                stdout: to_string_pretty(&output),
                stderr: String::new(),
                output_json: output.copy(),
            };
            (log, output)
        },
        Err(e) => {
            let message = e.message();
            let mut entries: Vec<(String, JsonValue)> = Vec::new();
            entries.push((crate::text::owned("error"), JsonValue::String(message.clone())));
            let output = crate::json::json_object(entries);
            proof {
                assert(output@->Object_0 =~= seq![("error"@, JsonView::Str(message@))]);
            }
            let log = ToolResultLog {
                success: false,
                stdout: String::new(),
                stderr: message,
                output_json: output.copy(),
            };
            (log, output)
        },
    }
}

/// The file a tool call changed: the path of a successful `create_file` or `edit_file`.
pub open spec fn changed_file_spec(name: Seq<char>, output: JsonView) -> Option<Seq<char>> {
    if (name == "create_file"@ || name == "edit_file"@) && json_get_str(output, "status"@) == Some(
        "success"@,
    ) {
        json_get_str(output, "path"@)
    } else {
        None
    }
}

pub fn changed_file(name: &str, output: &JsonValue) -> (r: Option<String>)
    ensures
        match r {
            Some(p) => changed_file_spec(name@, output@) == Some(p@),
            None => changed_file_spec(name@, output@) is None,
        },
{
    let file_tool = crate::text::str_eq(name, "create_file") || crate::text::str_eq(name, "edit_file");
    if !file_tool {
        return None;
    }
    let ok = match output.get_str("status") {
        Some(s) => crate::text::str_eq(s, "success"),
        None => false,
    };
    if !ok {
        return None;
    }
    match output.get_str("path") {
        Some(p) => Some(crate::text::owned(p)),
        None => None,
    }
}

/// The output of a command verification, and whether it passed.
pub fn command_verification(expected_exit_code: i32, exit_code: i32, stdout: String, stderr: String) -> (r: (
    bool,
    JsonValue,
))
    ensures
        r.0 == (exit_code == expected_exit_code),
        r.1@ == JsonView::Object(
            seq![
                ("exit_code"@, crate::json::int_view(exit_code as int)),
                ("stderr"@, JsonView::Str(stderr@)),
                ("stdout"@, JsonView::Str(stdout@)),
            ],
        ),
{
    let mut entries: Vec<(String, JsonValue)> = Vec::new();
    entries.push((crate::text::owned("exit_code"), crate::json::json_int(exit_code as i64)));
    entries.push((crate::text::owned("stderr"), JsonValue::String(stderr)));
    entries.push((crate::text::owned("stdout"), JsonValue::String(stdout)));
    let v = crate::json::json_object(entries);
    proof {
        assert(v@->Object_0 =~= seq![
            ("exit_code"@, crate::json::int_view(exit_code as int)),
            ("stderr"@, JsonView::Str(stderr@)),
            ("stdout"@, JsonView::Str(stdout@)),
        ]);
    }
    (exit_code == expected_exit_code, v)
}

/// The function whose call signals a passed verification: the name after
/// `function_call:` in the success condition.
pub open spec fn verification_tool_spec(success_condition: Seq<char>) -> Option<Seq<char>> {
    if crate::text::starts_with(success_condition, "function_call:"@) {
        Some(success_condition.skip(14))
    } else {
        None
    }
}

pub fn verification_tool(success_condition: &str) -> (r: Option<String>)
    ensures
        match r {
            Some(t) => verification_tool_spec(success_condition@) == Some(t@),
            None => verification_tool_spec(success_condition@) is None,
        },
{
    let cs = crate::text::chars_of(success_condition);
    let p = crate::text::chars_of("function_call:");
    proof {
        reveal_strlit("function_call:");
    }
    if crate::text::chars_start_with(&cs, &p) {
        let mut rest: Vec<char> = Vec::new();
        let mut i: usize = 14;
        while i < cs.len()
            invariant
                14 <= i <= cs.len(),
                rest@ == cs@.subrange(14, i as int),
            decreases cs.len() - i,
        {
            rest.push(cs[i]);
            proof {
                assert(cs@.subrange(14, i + 1) == cs@.subrange(14, i as int).push(cs@[i as int]));
            }
            i += 1;
        }
        proof {
            assert(cs@.skip(14) =~= cs@.subrange(14, cs@.len() as int));
        }
        Some(crate::text::string_of(&rest))
    } else {
        None
    }
}

/// Whether a part calls the named function.
pub open spec fn part_calls(p: PartView, name: Seq<char>) -> bool {
    match p.function_call {
        Some(fc) => fc.0 == name,
        None => false,
    }
}

/// Whether some part of the first candidate calls the named function.
pub open spec fn calls_function(r: GenerateContentResponse, name: Seq<char>) -> bool {
    match crate::gemini_types::first_candidate(r) {
        Some(c) => exists|i: int| 0 <= i < c.parts.len() && part_calls(#[trigger] c.parts[i], name),
        None => false,
    }
}

pub fn prompt_verification_passed(r: &GenerateContentResponse, name: &str) -> (b: bool)
    ensures
        b == calls_function(*r, name@),
{
    match r.first_candidate() {
        Some(c) => {
            let mut i: usize = 0;
            while i < c.parts.len()
                invariant
                    i <= c.parts@.len(),
                    c@.parts == c.parts@.map_values(|p: ContentPart| p@),
                    crate::gemini_types::first_candidate(*r) == Some(c@),
                    forall|j: int| 0 <= j < i ==> !part_calls(#[trigger] c@.parts[j], name@),
                decreases c.parts.len() - i,
            {
                match &c.parts[i].function_call {
                    Some(fc) => {
                        if crate::text::str_eq(fc.name.as_str(), name) {
                            proof {
                                assert(c@.parts[i as int].function_call == Some(
                                    (fc.name@, fc.arguments@),
                                ));
                                let cv = crate::gemini_types::first_candidate(*r)->0;
                                assert(cv == c@);
                                assert(part_calls(cv.parts[i as int], name@));
                            }
                            return true;
                        }
                    },
                    None => {},
                }
                i += 1;
            }
            false
        },
        None => false,
    }
}

/// The declaration offered to the model when a prompt verifies a block: a
/// function without parameters that signals success.
pub fn verification_declaration(name: String) -> (d: FunctionDeclaration)
    ensures
        d.name@ == name@,
        d.description@ == "Call this function if the verification is successful."@,
        d.parameters@ == JsonView::Object(
            seq![("properties"@, JsonView::Object(Seq::empty())), ("type"@, JsonView::Str("object"@))],
        ),
{
    let props: Vec<(String, JsonValue)> = Vec::new();
    let pv = crate::json::json_object(props);
    let mut e: Vec<(String, JsonValue)> = Vec::new();
    e.push((crate::text::owned("properties"), pv));
    e.push((crate::text::owned("type"), JsonValue::String(crate::text::owned("object"))));
    let parameters = crate::json::json_object(e);
    proof {
        assert(pv@->Object_0 =~= Seq::<(Seq<char>, JsonView)>::empty());
        assert(parameters@->Object_0 =~= seq![
            ("properties"@, JsonView::Object(Seq::empty())),
            ("type"@, JsonView::Str("object"@)),
        ]);
    }
    FunctionDeclaration {
        name,
        description: crate::text::owned("Call this function if the verification is successful."),
        parameters,
    }
}

/// The verdict and output of a prompt verification: passed when the first
/// candidate calls the verification function, with that candidate's content
/// as output; without a candidate (or without a reply, for a condition that
/// is not a function call) it fails with an empty object.
pub fn prompt_verification_outcome(resp: Option<&GenerateContentResponse>, name: &str) -> (r: (
    bool,
    JsonValue,
))
    ensures
        match resp {
            Some(x) => r.0 == calls_function(*x, name@) && r.1@ == match crate::gemini_types::first_candidate(*x) {
                Some(c) => crate::gemini_types::content_json(c),
                None => JsonView::Object(Seq::empty()),
            },
            None => !r.0 && r.1@ == JsonView::Object(Seq::empty()),
        },
{
    let empty: Vec<(String, JsonValue)> = Vec::new();
    let ev = crate::json::json_object(empty);
    proof {
        assert(ev@->Object_0 =~= Seq::<(Seq<char>, JsonView)>::empty());
    }
    match resp {
        None => (false, ev),
        Some(x) => {
            let passed = prompt_verification_passed(x, name);
            match x.first_candidate() {
                Some(c) => (passed, crate::gemini_types::content_to_json(c)),
                None => (passed, ev),
            }
        },
    }
}

// ---------------------------------------------------------------------------
// Running one block: a state machine
// ---------------------------------------------------------------------------

/// What a block run waits for.
#[derive(Debug, Clone, Copy, PartialEq, Eq, Structural)]
pub enum BlockPhase {
    Start,
    AwaitPrompt,
    AwaitReply,
    AwaitTool,
    AwaitVerification,
    Done,
}

/// The state of a block run.
#[derive(Debug)]
pub struct BlockRun {
    pub phase: BlockPhase,
    /// The current attempt, from 0.
    pub attempt: u32,
    pub max_retries: u32,
    /// The output so far: the last tool output, or the first text of the
    /// last reply when no tool has given one.
    pub block_output: JsonValue,
    /// The output of the last failed verification.
    pub verification_output: Option<JsonValue>,
    /// The flow's history when the block began; each attempt starts from it.
    pub base_history: Vec<Content>,
    /// The conversation of this attempt: the flow's history and what followed.
    pub attempt_history: Vec<Content>,
    /// The function calls of the last reply still to execute, in order.
    pub pending_calls: Vec<FunctionCall>,
    /// Files changed by this block's tool calls.
    pub changed: Vec<String>,
}

/// The next piece of outside work of a block run.
#[derive(Debug)]
pub enum BlockAction {
    /// Build the block's prompt (the retry prompt when asked), with the
    /// output of the last failed verification.
    BuildPrompt { retry: bool },
    AskModel { contents: Vec<Content> },
    ExecuteTool { call: FunctionCall },
    /// Run the block's verification.
    Verify,
    /// The block is done: its output and the history the flow keeps.
    Finish(Result<(JsonValue, Vec<Content>), Error>),
}

/// The outcome of the last piece of outside work.
#[derive(Debug)]
pub enum BlockEvent {
    Begin,
    PromptBuilt(Result<String, Error>),
    Reply(Result<GenerateContentResponse, Error>),
    ToolDone { result: Result<JsonValue, Error>, time_taken_ms: u128 },
    Verified(Result<(bool, JsonValue), Error>),
}

/// Whether an event is the one the phase waits for.
pub open spec fn block_event_fits(phase: BlockPhase, ev: BlockEvent) -> bool {
    match phase {
        BlockPhase::Start => ev is Begin,
        BlockPhase::AwaitPrompt => ev is PromptBuilt,
        BlockPhase::AwaitReply => ev is Reply,
        BlockPhase::AwaitTool => ev is ToolDone,
        BlockPhase::AwaitVerification => ev is Verified,
        BlockPhase::Done => false,
    }
}

/// What one step of a block run gives besides its state and action: lines to
/// log and the record of a tool call.
#[derive(Debug)]
pub struct BlockNotes {
    pub logs: Vec<String>,
    pub tool_log: Option<ToolCallLog>,
}

/// The state before a block runs.
pub fn block_start(block: &Block, history: &Vec<Content>) -> (s: BlockRun)
    ensures
        s.phase == BlockPhase::Start,
        s.attempt == 0,
        s.max_retries == match block.verification {
            Some(v) => v.max_retries,
            None => 0,
        },
        s.block_output@ == JsonView::Null,
        s.verification_output is None,
        contents_view(s.base_history@) == contents_view(history@),
        contents_view(s.attempt_history@) == contents_view(history@),
        s.pending_calls@.len() == 0,
        s.changed@.len() == 0,
{
    let max_retries = match &block.verification {
        Some(v) => v.max_retries,
        None => 0,
    };
    BlockRun {
        phase: BlockPhase::Start,
        attempt: 0,
        max_retries,
        block_output: JsonValue::Null,
        verification_output: None,
        base_history: crate::gemini_types::copy_contents(history),
        attempt_history: crate::gemini_types::copy_contents(history),
        pending_calls: Vec::new(),
        changed: Vec::new(),
    }
}

/// The text of a reply's first text part as a JSON string (null without one).
pub open spec fn reply_output(c: ContentView) -> JsonView {
    match first_text(c.parts) {
        Some(t) => JsonView::Str(t),
        None => JsonView::Null,
    }
}

/// The function calls among parts, in order.
pub open spec fn calls_of(parts: Seq<PartView>) -> Seq<(Seq<char>, JsonView)>
    decreases parts.len(),
{
    if parts.len() == 0 {
        Seq::empty()
    } else {
        match parts.last().function_call {
            Some(c) => calls_of(parts.drop_last()).push(c),
            None => calls_of(parts.drop_last()),
        }
    }
}

pub open spec fn calls_view(v: Seq<FunctionCall>) -> Seq<(Seq<char>, JsonView)> {
    v.map_values(|c: FunctionCall| (c.name@, c.arguments@))
}

/// The content that hands a tool's output back to the model.
pub open spec fn tool_turn(name: Seq<char>, output: JsonView) -> ContentView {
    ContentView {
        role: Role::Tool,
        parts: seq![PartView { text: None, function_call: None, function_response: Some((name, output)) }],
    }
}

/// The error of a reply without candidates.
pub open spec fn no_candidates() -> (ErrorKind, Seq<char>) {
    (ErrorKind::ApiError, "No candidates received from Gemini API"@)
}

fn calls_in(c: &Content) -> (r: Vec<FunctionCall>)
    ensures
        calls_view(r@) == calls_of(c@.parts),
{
    let ghost pv = c@.parts;
    let mut r: Vec<FunctionCall> = Vec::new();
    let mut i: usize = 0;
    proof {
        assert(pv.take(0) =~= Seq::<PartView>::empty());
        assert(calls_view(r@) =~= Seq::<(Seq<char>, JsonView)>::empty());
    }
    while i < c.parts.len()
        invariant
            i <= c.parts@.len(),
            pv == c.parts@.map_values(|p: ContentPart| p@),
            calls_view(r@) == calls_of(pv.take(i as int)),
        decreases c.parts.len() - i,
    {
        proof {
            assert(pv.take(i + 1).drop_last() == pv.take(i as int));
            assert(pv.take(i + 1).last() == c.parts@[i as int]@);
        }
        match &c.parts[i].function_call {
            Some(fc) => {
                let ghost before = r@;
                let x = fc.copy();
                r.push(x);
                proof {
                    assert(calls_view(r@) =~= calls_view(before).push((x.name@, x.arguments@)));
                }
            },
            None => {},
        }
        i += 1;
    }
    proof {
        assert(pv.take(pv.len() as int) == pv);
    }
    r
}

fn notes(logs: Vec<String>) -> (n: BlockNotes)
    ensures
        n.logs == logs,
        n.tool_log is None,
{
    BlockNotes { logs, tool_log: None }
}

fn no_logs() -> (v: Vec<String>)
    ensures
        views(v@) == Seq::<Seq<char>>::empty(),
{
    let v: Vec<String> = Vec::new();
    proof {
        assert(views(v@) =~= Seq::<Seq<char>>::empty());
    }
    v
}

/// The end of the model's turn: the block verifies when it has a
/// verification, else it finishes with this output and this history.
pub open spec fn turn_ended(
    block: Block,
    output: JsonView,
    history: Seq<ContentView>,
    r0: BlockRun,
    r1: BlockAction,
) -> bool {
    &&& block.verification is Some ==> (r0.phase == BlockPhase::AwaitVerification && r1 is Verify)
    &&& block.verification is None ==> (r0.phase == BlockPhase::Done && (r1 matches BlockAction::Finish(
        Ok(out),
    ) && out.0@ == output && contents_view(out.1@) == history))
}

/// The step after a reply's function calls are all executed, or after a
/// reply without calls: verify when the block has a verification, else
/// finish with the output and this attempt's history.
fn end_of_turn(block: &Block, st: BlockRun) -> (r: (BlockRun, BlockAction))
    ensures
        turn_ended(*block, st.block_output@, contents_view(st.attempt_history@), r.0, r.1),
        block.verification is Some ==> (r.0.phase == BlockPhase::AwaitVerification && r.1 is Verify),
        block.verification is None ==> (r.0.phase == BlockPhase::Done && (r.1 matches BlockAction::Finish(
            Ok(out),
        ) && out.0@ == st.block_output@ && contents_view(out.1@) == contents_view(
            st.attempt_history@,
        ))),
        r.0.attempt == st.attempt,
        r.0.max_retries == st.max_retries,
        r.0.base_history == st.base_history,
        r.0.block_output@ == st.block_output@,
        contents_view(r.0.attempt_history@) == contents_view(st.attempt_history@),
        r.0.changed == st.changed,
{
    let mut st = st;
    if block.verification.is_some() {
        st.phase = BlockPhase::AwaitVerification;
        (st, BlockAction::Verify)
    } else {
        st.phase = BlockPhase::Done;
        let out = st.block_output.copy();
        let h = crate::gemini_types::copy_contents(&st.attempt_history);
        (st, BlockAction::Finish(Ok((out, h))))
    }
}

/// One step of a block run.
///
/// - At the start, and after a failed verification, the prompt is built (the
///   retry prompt after a failure).
/// - A built prompt joins the history as a user turn, and the model is asked
///   with the history that the block's mode gives.
/// - A reply without candidates is an error; otherwise its content joins the
///   history. A reply without function calls ends the turn (its first text
///   becoming the output when no output was set); otherwise its calls are
///   executed one by one, each output handed back to the model as a tool turn
///   and becoming the block's output, after which the model is asked again.
/// - A verification that passes, or a block without verification, finishes
///   with the output and the attempt's history. A failed verification is
///   retried up to `max_retries` times; after the last it is an error.
pub fn block_step(block: &Block, st: BlockRun, ev: BlockEvent) -> (r: (BlockRun, BlockAction, BlockNotes))
    requires
        block_event_fits(st.phase, ev),
        st.phase == BlockPhase::AwaitTool ==> st.pending_calls@.len() > 0,
        st.phase == BlockPhase::AwaitReply ==> st.attempt_history@.len() > 0,
        st.attempt <= st.max_retries,
    ensures
        r.0.attempt <= r.0.max_retries,
        r.0.max_retries == st.max_retries,
        contents_view(r.0.base_history@) == contents_view(st.base_history@),
        r.0.phase == BlockPhase::AwaitTool ==> r.0.pending_calls@.len() > 0,
        r.0.phase == BlockPhase::AwaitReply ==> r.0.attempt_history@.len() > 0,
        // Starting: build the first prompt.
        ev is Begin ==> (r.0.phase == BlockPhase::AwaitPrompt && r.1 == BlockAction::BuildPrompt {
            retry: false,
        } && r.0.attempt == st.attempt),
        // A prompt that could not be built ends the block with its error.
        ev matches BlockEvent::PromptBuilt(Err(e)) ==> (r.0.phase == BlockPhase::Done && (r.1 matches BlockAction::Finish(
            Err(e2),
        ) && e2@ == e@)),
        // A built prompt starts the attempt's conversation after the flow's
        // history, and is sent with the history that the mode selects.
        ev matches BlockEvent::PromptBuilt(Ok(p)) ==> (r.0.phase == BlockPhase::AwaitReply
            && contents_view(r.0.attempt_history@) == contents_view(st.base_history@).push(
            crate::orchestrator::text_content(Role::User, p@),
        ) && (r.1 matches BlockAction::AskModel { contents } && contents_view(contents@)
            == history_for_request_spec(block.annotations.history, contents_view(r.0.attempt_history@)))),
        ev matches BlockEvent::Reply(Err(e)) ==> (r.1 matches BlockAction::Finish(Err(e2)) && e2@
            == e@),
        ev matches BlockEvent::Reply(Ok(resp)) ==> (last_candidate(resp) is None ==> (r.1 matches BlockAction::Finish(
            Err(e2),
        ) && e2@ == no_candidates())),
        ev matches BlockEvent::Reply(Ok(resp)) ==> (last_candidate(resp) matches Some(c) ==> {
            &&& contents_view(r.0.attempt_history@) == contents_view(st.attempt_history@).push(c)
            &&& has_function_call(c.parts) ==> (r.0.phase == BlockPhase::AwaitTool && calls_view(
                r.0.pending_calls@,
            ) == calls_of(c.parts) && r.0.block_output@ == st.block_output@ && (
                r.1 matches BlockAction::ExecuteTool { call } && (call.name@, call.arguments@)
                == calls_of(c.parts)[0]))
            &&& !has_function_call(c.parts) ==> r.0.block_output@ == if st.block_output@
                is Null {
                reply_output(c)
            } else {
                st.block_output@
            }
            // A reply without calls ends the model's turn.
            &&& !has_function_call(c.parts) ==> turn_ended(
                *block,
                r.0.block_output@,
                contents_view(r.0.attempt_history@),
                r.0,
                r.1,
            )
        }),
        // A tool's output is handed back and becomes the block's output.
        ev matches BlockEvent::ToolDone { result, .. } ==> {
            let call = calls_view(st.pending_calls@)[0];
            let out = tool_output_spec(
                match result {
                    Ok(v) => Ok(v@),
                    Err(e) => Err(crate::error::error_message(e)),
                },
            );
            &&& r.0.block_output@ == out
            &&& contents_view(r.0.attempt_history@) == contents_view(st.attempt_history@).push(
                tool_turn(call.0, out),
            )
            &&& views(r.0.changed@) == match changed_file_spec(call.0, out) {
                Some(p) => views(st.changed@).push(p),
                None => views(st.changed@),
            }
            &&& r.2.tool_log matches Some(l) && l.tool_name@ == call.0 && l.tool_args@ == call.1
            // The next call runs; after the last, the model is asked again.
            &&& st.pending_calls@.len() > 1 ==> (r.0.phase == BlockPhase::AwaitTool && calls_view(
                r.0.pending_calls@,
            ) == calls_view(st.pending_calls@).drop_first() && (r.1 matches BlockAction::ExecuteTool {
                call: next,
            } && (next.name@, next.arguments@) == calls_view(st.pending_calls@)[1]))
            &&& st.pending_calls@.len() == 1 ==> (r.0.phase == BlockPhase::AwaitReply && (
            r.1 matches BlockAction::AskModel { contents } && contents_view(contents@)
                == history_for_request_spec(
                block.annotations.history,
                contents_view(r.0.attempt_history@),
            )))
        },
        // A passed verification finishes with the output and the history.
        ev matches BlockEvent::Verified(Ok((passed, _))) ==> (passed ==> (r.1 matches BlockAction::Finish(
            Ok(out),
        ) && out.0@ == st.block_output@ && contents_view(out.1@) == contents_view(
            st.attempt_history@,
        ))),
        // A failed one is retried with the retry prompt, or fails the block.
        ev matches BlockEvent::Verified(Ok((passed, output))) ==> (!passed ==> {
            &&& r.0.verification_output matches Some(o) && o@ == output@
            &&& st.attempt < st.max_retries ==> (r.0.attempt == st.attempt + 1 && r.1
                == BlockAction::BuildPrompt { retry: true })
            &&& st.attempt == st.max_retries ==> (r.1 matches BlockAction::Finish(Err(e)) && e@ == (
                ErrorKind::VerificationFailed,
                "Block '"@ + block.id@ + "' failed verification after "@ + decimal(
                    st.max_retries as nat,
                ) + " retries."@,
            ))
        }),
        ev matches BlockEvent::Verified(Err(e)) ==> (r.1 matches BlockAction::Finish(Err(e2)) && e2@
            == e@),
{
    let ghost s0 = st;
    let mut st = st;
    match ev {
        BlockEvent::Begin => {
            st.phase = BlockPhase::AwaitPrompt;
            (st, BlockAction::BuildPrompt { retry: false }, notes(no_logs()))
        },
        BlockEvent::PromptBuilt(Err(e)) => {
            st.phase = BlockPhase::Done;
            (st, BlockAction::Finish(Err(e)), notes(no_logs()))
        },
        BlockEvent::PromptBuilt(Ok(p)) => {
            st.attempt_history = crate::gemini_types::copy_contents(&st.base_history);
            let ghost h0 = st.attempt_history@;
            st.attempt_history.push(Content::single(Role::User, ContentPart::new_text(p)));
            proof {
                assert(contents_view(st.attempt_history@) =~= contents_view(h0).push(
                    crate::orchestrator::text_content(Role::User, p@),
                ));
            }
            let request = history_for_request(&block.annotations.history, &st.attempt_history);
            st.phase = BlockPhase::AwaitReply;
            (st, BlockAction::AskModel { contents: request }, notes(no_logs()))
        },
        BlockEvent::Reply(Err(e)) => {
            st.phase = BlockPhase::Done;
            (st, BlockAction::Finish(Err(e)), notes(no_logs()))
        },
        BlockEvent::Reply(Ok(resp)) => {
            match resp.last_candidate() {
                None => {
                    st.phase = BlockPhase::Done;
                    (
                        st,
                        BlockAction::Finish(
                            Err(
                                Error::ApiError(
                                    crate::text::owned("No candidates received from Gemini API"),
                                ),
                            ),
                        ),
                        notes(no_logs()),
                    )
                },
                Some(c) => {
                    let content = c.copy();
                    let ghost h0 = st.attempt_history@;
                    let has_call = content.has_function_call();
                    let calls = calls_in(&content);
                    let first = if !has_call && st.block_output.is_null() {
                        match content.first_text() {
                            Some(t) => Some(JsonValue::String(t.clone())),
                            None => Some(JsonValue::Null),
                        }
                    } else {
                        None
                    };
                    st.attempt_history.push(content);
                    proof {
                        assert(contents_view(st.attempt_history@) =~= contents_view(h0).push(c@));
                    }
                    if has_call {
                        proof {
                            lemma_calls_nonempty(c@.parts);
                        }
                        let call = calls[0].copy();
                        st.pending_calls = calls;
                        st.phase = BlockPhase::AwaitTool;
                        (st, BlockAction::ExecuteTool { call }, notes(no_logs()))
                    } else {
                        match first {
                            Some(o) => {
                                st.block_output = o;
                            },
                            None => {},
                        }
                        let (st2, action) = end_of_turn(block, st);
                        (st2, action, notes(no_logs()))
                    }
                },
            }
        },
        BlockEvent::ToolDone { result, time_taken_ms } => {
            let ghost pc0 = st.pending_calls@;
            let call = st.pending_calls.remove(0);
            proof {
                assert(calls_view(st.pending_calls@) =~= calls_view(pc0).drop_first());
            }
            let (result_log, output) = tool_outcome(result);
            let ghost ch0 = views(st.changed@);
            match changed_file(call.name.as_str(), &output) {
                Some(p) => {
                    st.changed.push(p);
                    proof {
                        assert(views(st.changed@) =~= ch0.push(p@));
                    }
                },
                None => {},
            }
            let ghost h0 = st.attempt_history@;
            let part = ContentPart {
                text: None,
                function_call: None,
                function_response: Some(FunctionResponse { name: call.name.clone(), response: output.copy() }),
            };
            st.attempt_history.push(Content::single(Role::Tool, part));
            proof {
                assert(contents_view(st.attempt_history@) =~= contents_view(h0).push(
                    tool_turn(call.name@, output@),
                ));
            }
            st.block_output = output;
            let tool_log = ToolCallLog {
                tool_name: call.name,
                tool_args: call.arguments,
                result: result_log,
                time_taken_ms,
            };
            let n = BlockNotes { logs: no_logs(), tool_log: Some(tool_log) };
            if st.pending_calls.len() > 0 {
                let next = st.pending_calls[0].copy();
                (st, BlockAction::ExecuteTool { call: next }, n)
            } else {
                let request = history_for_request(&block.annotations.history, &st.attempt_history);
                st.phase = BlockPhase::AwaitReply;
                (st, BlockAction::AskModel { contents: request }, n)
            }
        },
        BlockEvent::Verified(Err(e)) => {
            st.phase = BlockPhase::Done;
            (st, BlockAction::Finish(Err(e)), notes(no_logs()))
        },
        BlockEvent::Verified(Ok((passed, output))) => {
            if passed {
                st.phase = BlockPhase::Done;
                let out = st.block_output.copy();
                let h = crate::gemini_types::copy_contents(&st.attempt_history);
                (st, BlockAction::Finish(Ok((out, h))), notes(no_logs()))
            } else {
                st.verification_output = Some(output);
                if st.attempt == st.max_retries {
                    st.phase = BlockPhase::Done;
                    let mut m = cat3("Block '", block.id.as_str(), "' failed verification after ");
                    m.append(crate::text::u64_to_string(st.max_retries as u64).as_str());
                    m.append(" retries.");
                    (st, BlockAction::Finish(Err(Error::VerificationFailed(m))), notes(no_logs()))
                } else {
                    let mut m = cat3("Verification failed for block '", block.id.as_str(), "'. Retrying (attempt ");
                    m.append(crate::text::u64_to_string((st.attempt + 1) as u64).as_str());
                    m.append("/");
                    m.append(crate::text::u64_to_string(st.max_retries as u64).as_str());
                    m.append(")...");
                    let mut logs: Vec<String> = Vec::new();
                    logs.push(m);
                    st.attempt = st.attempt + 1;
                    st.phase = BlockPhase::AwaitPrompt;
                    (st, BlockAction::BuildPrompt { retry: true }, notes(logs))
                }
            }
        },
    }
}

proof fn lemma_calls_nonempty(parts: Seq<PartView>)
    requires
        has_function_call(parts),
    ensures
        calls_of(parts).len() > 0,
    decreases parts.len(),
{
    if parts.last().function_call is None {
        let d = parts.drop_last();
        let i = choose|i: int| 0 <= i < parts.len() && (#[trigger] parts[i]).function_call is Some;
        assert(i < parts.len() - 1);
        assert(d[i] == parts[i]);
        lemma_calls_nonempty(d);
    }
}

/// The prompt of an attempt: the block's prompt at first, its
/// `on_failure_prompt` on a retry. A retry of a block that verifies by
/// prompt, or has no verification, is an error.
pub fn prompt_for_attempt<'a>(block: &'a Block, retry: bool) -> (r: Result<
    &'a crate::flows::types::Prompt,
    Error,
>)
    ensures
        !retry ==> (r matches Ok(p) && p == &block.prompt),
        retry ==> match block.verification {
            Some(v) => match v.strategy {
                VerificationStrategy::Command { on_failure_prompt, .. } => r matches Ok(p) && *p
                    == on_failure_prompt,
                _ => r matches Err(e) && e@ == (
                    ErrorKind::Config,
                    "Block '"@ + block.id@ + "' is in a retry loop but has no on_failure_prompt."@,
                ),
            },
            None => r matches Err(e) && e@ == (
                ErrorKind::Config,
                "Block '"@ + block.id@ + "' is in a retry loop but has no on_failure_prompt."@,
            ),
        },
{
    if !retry {
        return Ok(&block.prompt);
    }
    match &block.verification {
        Some(v) => match &v.strategy {
            VerificationStrategy::Command { on_failure_prompt, .. } => Ok(on_failure_prompt),
            _ => Err(
                Error::Config(
                    cat3(
                        "Block '",
                        block.id.as_str(),
                        "' is in a retry loop but has no on_failure_prompt.",
                    ),
                ),
            ),
        },
        None => Err(
            Error::Config(
                cat3("Block '", block.id.as_str(), "' is in a retry loop but has no on_failure_prompt."),
            ),
        ),
    }
}

// ---------------------------------------------------------------------------
// Running the blocks of a flow
// ---------------------------------------------------------------------------

/// The items a looping block runs over: the `tasks` array of the named
/// block's output.
pub open spec fn loop_items_spec(outputs: Map<Seq<char>, JsonView>, over: Seq<char>) -> Result<
    Seq<JsonView>,
    (ErrorKind, Seq<char>),
> {
    if !outputs.contains_key(over) {
        Err(
            (
                ErrorKind::Config,
                "Looping error: block output '"@ + over + "' not found"@,
            ),
        )
    } else {
        match json_get(outputs[over], "tasks"@) {
            Some(JsonView::Array(items)) => Ok(items),
            _ => Err(
                (
                    ErrorKind::Config,
                    "Looping error: output of block '"@ + over
                        + "' is not a valid TaskList (missing 'tasks' array)"@,
                ),
            ),
        }
    }
}

pub fn loop_items(outputs: &BlockOutputs, over: &str) -> (r: Result<Vec<JsonValue>, Error>)
    ensures
        match r {
            Ok(items) => loop_items_spec(outputs@, over@) == Ok::<
                Seq<JsonView>,
                (ErrorKind, Seq<char>),
            >(items@.map_values(|x: JsonValue| x@)),
            Err(e) => loop_items_spec(outputs@, over@) == Err::<Seq<JsonView>, (ErrorKind, Seq<char>)>(
                e@,
            ),
        },
{
    let list = match outputs.get(over) {
        Some(l) => l,
        None => {
            return Err(Error::Config(cat3("Looping error: block output '", over, "' not found")));
        },
    };
    match list.get("tasks") {
        Some(JsonValue::Array(items)) => {
            let mut out: Vec<JsonValue> = Vec::new();
            let mut i: usize = 0;
            while i < items.len()
                invariant
                    i <= items@.len(),
                    out@.len() == i,
                    forall|j: int| 0 <= j < i ==> (#[trigger] out@[j])@ == items@[j]@,
                decreases items.len() - i,
            {
                out.push(items[i].copy());
                i += 1;
            }
            proof {
                let t = json_get(outputs@[over@], "tasks"@)->Some_0;
                assert(t->Array_0 =~= out@.map_values(|x: JsonValue| x@));
            }
            Ok(out)
        },
        _ => Err(
            Error::Config(
                cat3(
                    "Looping error: output of block '",
                    over,
                    "' is not a valid TaskList (missing 'tasks' array)",
                ),
            ),
        ),
    }
}

/// The id of a loop item, or `unknown`.
pub fn task_id(item: &JsonValue) -> (t: String)
    ensures
        t@ == match json_get_str(item@, "id"@) {
            Some(i) => i,
            None => "unknown"@,
        },
{
    match item.get_str("id") {
        Some(i) => crate::text::owned(i),
        None => crate::text::owned("unknown"),
    }
}

/// The line logged before iteration `i` (from 0) of `n` of a looping block.
pub fn iteration_message(block_id: &str, i: usize, n: usize) -> (m: String)
    requires
        i < n,
    ensures
        m@ == "Executing looping block '"@ + block_id@ + "' (iteration "@ + decimal((i + 1) as nat)
            + "/"@ + decimal(n as nat) + ")"@,
{
    let mut m = cat3("Executing looping block '", block_id, "' (iteration ");
    m.append(crate::text::u64_to_string((i + 1) as u64).as_str());
    m.append("/");
    m.append(crate::text::u64_to_string(n as u64).as_str());
    m.append(")");
    m
}

/// The commit message after a block.
pub fn block_commit_message(block_id: &str, flow_id: &str) -> (m: String)
    ensures
        m@ == "aide-rs: auto-commit after block '"@ + block_id@ + "' in flow '"@ + flow_id@ + "'"@,
{
    let mut m = cat3("aide-rs: auto-commit after block '", block_id, "' in flow '");
    m.append(flow_id);
    m.append("'");
    m
}

/// The commit message after an iteration of a looping block.
pub fn task_commit_message(task_id: &str, flow_id: &str) -> (m: String)
    ensures
        m@ == "aide-rs: auto-commit after task '"@ + task_id@ + "' in flow '"@ + flow_id@ + "'"@,
{
    let mut m = cat3("aide-rs: auto-commit after task '", task_id, "' in flow '");
    m.append(flow_id);
    m.append("'");
    m
}

/// The lines logged around the commit of `n` changed files after a block
/// (or, with `task`, after an iteration for that task), or when nothing changed.
pub fn commit_lines(block_id: &str, task: Option<&str>, n: usize) -> (r: (Vec<String>, Vec<String>))
    ensures
        n > 0 && task is None ==> views(r.0@) == seq![
            "Block '"@ + block_id@ + "' succeeded, committing "@ + decimal(n as nat)
                + " changed file(s)..."@,
        ] && views(r.1@) == seq!["Committed "@ + decimal(n as nat) + " file(s)."@],
        n > 0 && task is Some ==> views(r.0@) == seq![
            "Loop iteration for task '"@ + task->0@ + "' succeeded, committing "@ + decimal(n as nat)
                + " file(s)..."@,
        ] && views(r.1@) == seq!["Committed "@ + decimal(n as nat) + " file(s)."@],
        n == 0 && task is None ==> views(r.0@) == seq![
            "Block '"@ + block_id@ + "' succeeded, but no files were changed. Skipping commit."@,
        ] && r.1@.len() == 0,
        n == 0 && task is Some ==> views(r.0@) == seq![
            "Loop iteration for task '"@ + task->0@ + "' in block '"@ + block_id@
                + "' succeeded, but no files were changed. Skipping commit."@,
        ] && r.1@.len() == 0,
{
    let mut before: Vec<String> = Vec::new();
    let mut after: Vec<String> = Vec::new();
    let count = crate::text::u64_to_string(n as u64);
    if n > 0 {
        let line = match task {
            None => {
                let mut m = cat3("Block '", block_id, "' succeeded, committing ");
                m.append(count.as_str());
                m.append(" changed file(s)...");
                m
            },
            Some(t) => {
                let mut m = cat3("Loop iteration for task '", t, "' succeeded, committing ");
                m.append(count.as_str());
                m.append(" file(s)...");
                m
            },
        };
        before.push(line);
        after.push(cat3("Committed ", count.as_str(), " file(s)."));
    } else {
        let line = match task {
            None => cat3(
                "Block '",
                block_id,
                "' succeeded, but no files were changed. Skipping commit.",
            ),
            Some(t) => {
                let mut m = cat3("Loop iteration for task '", t, "' in block '");
                m.append(block_id);
                m.append("' succeeded, but no files were changed. Skipping commit.");
                m
            },
        };
        before.push(line);
    }
    proof {
        assert(views(before@) =~= seq![before@[0]@]);
        if n > 0 {
            assert(views(after@) =~= seq![after@[0]@]);
        }
    }
    (before, after)
}

/// The lines that open and close a flow, and that follow a saved output.
pub fn flow_started_message(flow_id: &str, prompt_path: &str) -> (m: String)
    ensures
        m@ == "Starting flow '"@ + flow_id@ + "' with prompt '"@ + prompt_path@ + "'..."@,
{
    let mut m = cat3("Starting flow '", flow_id, "' with prompt '");
    m.append(prompt_path);
    m.append("'...");
    m
}

pub fn flow_finished_message(flow_id: &str) -> (m: String)
    ensures
        m@ == "Flow '"@ + flow_id@ + "' finished."@,
{
    cat3("Flow '", flow_id, "' finished.")
}

pub fn block_started_message(block_id: &str) -> (m: String)
    ensures
        m@ == "Executing block: '"@ + block_id@ + "'..."@,
{
    cat3("Executing block: '", block_id, "'...")
}

pub fn saved_output_message(block_id: &str, path: &str) -> (m: String)
    ensures
        m@ == "Saved output of block '"@ + block_id@ + "' to '"@ + path@ + "'"@,
{
    let mut m = cat3("Saved output of block '", block_id, "' to '");
    m.append(path);
    m.append("'");
    m
}

} // verus!

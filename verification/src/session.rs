//! The directory and paths of one execution session: `.ai/sessions/<id>`,
//! where the id joins the start time, the strategy and a slug of the objective.
use crate::text::{cat3, chars_of, string_of};
use vstd::prelude::*;

verus! {

/// Manages the directories and paths for a single execution session.
#[derive(Debug, Clone)]
pub struct Session {
    pub id: String,
    pub dir: String,
    pub orchestrator_log_path: String,
    pub aider_chat_history_path: String,
}

/// `char::is_alphanumeric`: whether the character is alphabetic or numeric in Unicode.
pub uninterp spec fn unicode_alphanumeric(c: char) -> bool;

/// The ASCII letters and digits.
pub open spec fn ascii_alphanumeric(c: char) -> bool {
    ('0' <= c && c <= '9') || ('a' <= c && c <= 'z') || ('A' <= c && c <= 'Z')
}

/// `char::is_alphanumeric`. On ASCII characters it holds exactly of letters
/// and digits; beyond ASCII the Unicode tables decide (`unicode_alphanumeric`).
#[verifier::external_body]
fn is_alphanumeric(c: char) -> (b: bool)
    ensures
        b == unicode_alphanumeric(c),
        (c as u32) < 128 ==> (b <==> ascii_alphanumeric(c)),
{
    c.is_alphanumeric()
}

/// The slug of an objective, before it is cut: letters, digits and spaces
/// kept in order, each space turned into `_`.
pub open spec fn slug_chars(objective: Seq<char>) -> Seq<char>
    decreases objective.len(),
{
    if objective.len() == 0 {
        Seq::empty()
    } else {
        let rest = slug_chars(objective.drop_last());
        let c = objective.last();
        if c == ' ' {
            rest.push('_')
        } else if unicode_alphanumeric(c) {
            rest.push(c)
        } else {
            rest
        }
    }
}

/// The slug of an objective: at most its first 30 characters.
pub open spec fn slug(objective: Seq<char>) -> Seq<char> {
    let s = slug_chars(objective);
    if s.len() <= 30 {
        s
    } else {
        s.take(30)
    }
}

/// Every character of the text is ASCII.
pub open spec fn is_ascii_text(s: Seq<char>) -> bool {
    forall|i: int| 0 <= i < s.len() ==> (#[trigger] s[i] as u32) < 128
}

/// The slug of an ASCII objective, before it is cut: ASCII letters, digits
/// and spaces kept in order, each space turned into `_`.
pub open spec fn ascii_slug_chars(objective: Seq<char>) -> Seq<char>
    decreases objective.len(),
{
    if objective.len() == 0 {
        Seq::empty()
    } else {
        let rest = ascii_slug_chars(objective.drop_last());
        let c = objective.last();
        if c == ' ' {
            rest.push('_')
        } else if ascii_alphanumeric(c) {
            rest.push(c)
        } else {
            rest
        }
    }
}

/// The slug of an ASCII objective: at most its first 30 characters.
pub open spec fn ascii_slug(objective: Seq<char>) -> Seq<char> {
    let s = ascii_slug_chars(objective);
    if s.len() <= 30 {
        s
    } else {
        s.take(30)
    }
}

/// The objective reduced to a name that fits a directory. For an ASCII
/// objective, the letters and digits are the ASCII ones.
pub fn objective_slug(objective: &str) -> (out: String)
    ensures
        out@ == slug(objective@),
        is_ascii_text(objective@) ==> out@ == ascii_slug(objective@),
{
    let cs = chars_of(objective);
    let mut kept: Vec<char> = Vec::new();
    let mut i: usize = 0;
    while i < cs.len()
        invariant
            i <= cs.len(),
            cs@ == objective@,
            kept@ == slug_chars(cs@.take(i as int)),
            is_ascii_text(cs@) ==> kept@ == ascii_slug_chars(cs@.take(i as int)),
        decreases cs.len() - i,
    {
        proof {
            assert(cs@.take(i + 1).drop_last() == cs@.take(i as int));
        }
        let c = cs[i];
        if c == ' ' {
            kept.push('_');
        } else if is_alphanumeric(c) {
            kept.push(c);
        }
        i += 1;
    }
    proof {
        assert(cs@.take(cs@.len() as int) == cs@);
    }
    if kept.len() <= 30 {
        string_of(&kept)
    } else {
        let cut = crate::text::slice_prefix(&kept, 30);
        string_of(&cut)
    }
}

/// The session id: the start time, the strategy and the objective's slug,
/// joined by `_`.
pub open spec fn session_id(timestamp: Seq<char>, strategy: Seq<char>, objective: Seq<char>) -> Seq<
    char,
> {
    timestamp + "_"@ + strategy + "_"@ + slug(objective)
}

impl Session {
    /// The layout of a session started at `timestamp` (formatted as
    /// `%Y%m%d_%H%M%S`); creating the directory is left to the caller.
    pub fn layout(timestamp: &str, strategy: &str, objective: &str) -> (s: Session)
        ensures
            s.id@ == session_id(timestamp@, strategy@, objective@),
            s.dir@ == ".ai/sessions/"@ + s.id@,
            s.orchestrator_log_path@ == s.dir@ + "/orchestrator.log"@,
            s.aider_chat_history_path@ == s.dir@ + "/aider.chat.history.md"@,
            is_ascii_text(objective@) ==> s.id@ == timestamp@ + "_"@ + strategy@ + "_"@
                + ascii_slug(objective@),
    {
        let mut id = cat3(timestamp, "_", strategy);
        id.append("_");
        id.append(objective_slug(objective).as_str());
        let dir = crate::text::cat(".ai/sessions/", id.as_str());
        let orchestrator_log_path = crate::text::cat(dir.as_str(), "/orchestrator.log");
        let aider_chat_history_path = crate::text::cat(dir.as_str(), "/aider.chat.history.md");
        Session { id, dir, orchestrator_log_path, aider_chat_history_path }
    }
}

} // verus!

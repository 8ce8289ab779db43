//! The messages exchanged with the Gemini API: contents made of parts (text,
//! function calls, function responses), tool declarations, and responses made
//! of candidates.
use crate::json::{JsonValue, JsonView};
use vstd::prelude::*;

verus! {

/// Who produced a content.
#[derive(Debug, Clone, Copy, PartialEq, Eq, Structural)]
pub enum Role {
    User,
    Model,
    Tool,
}

/// A call of a declared function, asked for by the model.
#[derive(Debug)]
pub struct FunctionCall {
    pub name: String,
    pub arguments: JsonValue,
}

/// The result of a function call, handed back to the model.
#[derive(Debug)]
pub struct FunctionResponse {
    pub name: String,
    pub response: JsonValue,
}

/// One part of a content.
#[derive(Debug)]
pub struct ContentPart {
    pub text: Option<String>,
    pub function_call: Option<FunctionCall>,
    pub function_response: Option<FunctionResponse>,
}

/// A turn of the conversation.
#[derive(Debug)]
pub struct Content {
    pub role: Role,
    pub parts: Vec<ContentPart>,
}

/// A function that the model may call.
#[derive(Debug)]
pub struct FunctionDeclaration {
    pub name: String,
    pub description: String,
    pub parameters: JsonValue,
}

/// Grounding with Google Search.
#[derive(Debug, Clone, Copy)]
pub struct GoogleSearch {}

/// A set of tools offered to the model.
#[derive(Debug)]
pub struct Tool {
    pub function_declarations: Vec<FunctionDeclaration>,
    pub google_search: Option<GoogleSearch>,
}

/// One candidate answer.
#[derive(Debug)]
pub struct Candidate {
    pub content: Content,
    pub finish_reason: Option<String>,
}

/// The body of an answer of `generateContent`.
#[derive(Debug)]
pub struct GenerateContentResponse {
    pub candidates: Option<Vec<Candidate>>,
}

/// The body of a request to `generateContent`.
#[derive(Debug)]
pub struct GenerateContentRequest {
    pub contents: Vec<Content>,
    pub tools: Option<Vec<Tool>>,
}

/// The mathematical form of a part.
pub struct PartView {
    pub text: Option<Seq<char>>,
    pub function_call: Option<(Seq<char>, JsonView)>,
    pub function_response: Option<(Seq<char>, JsonView)>,
}

/// The mathematical form of a content.
pub struct ContentView {
    pub role: Role,
    pub parts: Seq<PartView>,
}

impl View for ContentPart {
    type V = PartView;

    open spec fn view(&self) -> PartView {
        PartView {
            text: match self.text {
                Some(t) => Some(t@),
                None => None,
            },
            function_call: match self.function_call {
                Some(c) => Some((c.name@, c.arguments@)),
                None => None,
            },
            function_response: match self.function_response {
                Some(r) => Some((r.name@, r.response@)),
                None => None,
            },
        }
    }
}

impl View for Content {
    type V = ContentView;

    open spec fn view(&self) -> ContentView {
        ContentView { role: self.role, parts: self.parts@.map_values(|p: ContentPart| p@) }
    }
}

/// The views of a list of contents.
pub open spec fn contents_view(h: Seq<Content>) -> Seq<ContentView> {
    h.map_values(|c: Content| c@)
}

impl FunctionCall {
    pub fn copy(&self) -> (r: FunctionCall)
        ensures
            r.name@ == self.name@,
            r.arguments@ == self.arguments@,
    {
        FunctionCall { name: self.name.clone(), arguments: self.arguments.copy() }
    }
}

impl ContentPart {
    /// A part holding only text.
    pub fn new_text(text: String) -> (p: ContentPart)
        ensures
            p@ == (PartView { text: Some(text@), function_call: None, function_response: None }),
    {
        ContentPart { text: Some(text), function_call: None, function_response: None }
    }

    pub fn copy(&self) -> (r: ContentPart)
        ensures
            r@ == self@,
    {
        let text = match &self.text {
            Some(t) => Some(t.clone()),
            None => None,
        };
        let function_call = match &self.function_call {
            Some(c) => Some(c.copy()),
            None => None,
        };
        let function_response = match &self.function_response {
            Some(r) => Some(FunctionResponse { name: r.name.clone(), response: r.response.copy() }),
            None => None,
        };
        ContentPart { text, function_call, function_response }
    }
}

impl Content {
    /// A content of one part.
    pub fn single(role: Role, part: ContentPart) -> (c: Content)
        ensures
            c@ == (ContentView { role, parts: seq![part@] }),
    {
        let mut parts: Vec<ContentPart> = Vec::new();
        parts.push(part);
        let c = Content { role, parts };
        proof {
            assert(c@.parts =~= seq![part@]);
        }
        c
    }

    pub fn copy(&self) -> (r: Content)
        ensures
            r@ == self@,
    {
        let mut parts: Vec<ContentPart> = Vec::new();
        let mut i: usize = 0;
        while i < self.parts.len()
            invariant
                i <= self.parts.len(),
                parts@.map_values(|p: ContentPart| p@) == self.parts@.take(i as int).map_values(
                    |p: ContentPart| p@,
                ),
            decreases self.parts.len() - i,
        {
            let ghost before = parts@;
            let part = self.parts[i].copy();
            parts.push(part);
            proof {
                assert(self.parts@.take(i + 1) == self.parts@.take(i as int).push(self.parts@[i as int]));
                assert(parts@ == before.push(part));
                assert(parts@.map_values(|p: ContentPart| p@) =~= before.map_values(|p: ContentPart| p@).push(part@));
                assert(self.parts@.take(i + 1).map_values(|p: ContentPart| p@) =~= self.parts@.take(i as int).map_values(|p: ContentPart| p@).push(self.parts@[i as int]@));
                assert(parts@.map_values(|p: ContentPart| p@) =~= self.parts@.take(
                    i + 1,
                ).map_values(|p: ContentPart| p@));
            }
            i += 1;
        }
        proof {
            assert(self.parts@.take(self.parts@.len() as int) == self.parts@);
        }
        Content { role: self.role, parts }
    }
}

/// A copy of a list of contents.
pub fn copy_contents(h: &Vec<Content>) -> (r: Vec<Content>)
    ensures
        contents_view(r@) == contents_view(h@),
{
    let mut out: Vec<Content> = Vec::new();
    let mut i: usize = 0;
    while i < h.len()
        invariant
            i <= h.len(),
            contents_view(out@) == contents_view(h@.take(i as int)),
        decreases h.len() - i,
    {
        let ghost before = out@;
        let c = h[i].copy();
        out.push(c);
        proof {
            assert(h@.take(i + 1) == h@.take(i as int).push(h@[i as int]));
            assert(contents_view(out@) =~= contents_view(before).push(c@));
            assert(contents_view(h@.take(i + 1)) =~= contents_view(h@.take(i as int)).push(h@[i as int]@));
            assert(contents_view(out@) =~= contents_view(h@.take(i + 1)));
        }
        i += 1;
    }
    proof {
        assert(h@.take(h@.len() as int) == h@);
    }
    out
}

/// Whether some part is a function call.
pub open spec fn has_function_call(parts: Seq<PartView>) -> bool {
    exists|i: int| 0 <= i < parts.len() && (#[trigger] parts[i]).function_call is Some
}

/// The index of the first part that satisfies nothing before it: the first text part.
pub open spec fn first_text(parts: Seq<PartView>) -> Option<Seq<char>>
    decreases parts.len(),
{
    if parts.len() == 0 {
        None
    } else if parts[0].text is Some {
        parts[0].text
    } else {
        first_text(parts.drop_first())
    }
}

/// The first function call among the parts.
pub open spec fn first_call(parts: Seq<PartView>) -> Option<(Seq<char>, JsonView)>
    decreases parts.len(),
{
    if parts.len() == 0 {
        None
    } else if parts[0].function_call is Some {
        parts[0].function_call
    } else {
        first_call(parts.drop_first())
    }
}

impl Content {
    /// Whether some part is a function call.
    pub fn has_function_call(&self) -> (b: bool)
        ensures
            b == has_function_call(self@.parts),
    {
        let mut i: usize = 0;
        while i < self.parts.len()
            invariant
                i <= self.parts.len(),
                self@.parts == self.parts@.map_values(|p: ContentPart| p@),
                forall|j: int| 0 <= j < i ==> (#[trigger] self@.parts[j]).function_call is None,
            decreases self.parts.len() - i,
        {
            if self.parts[i].function_call.is_some() {
                proof {
                    assert(self@.parts[i as int].function_call is Some);
                }
                return true;
            }
            i += 1;
        }
        false
    }

    /// The text of the first part that has text.
    pub fn first_text(&self) -> (r: Option<&String>)
        ensures
            match r {
                Some(t) => first_text(self@.parts) == Some(t@),
                None => first_text(self@.parts) is None,
            },
    {
        let ghost ps = self@.parts;
        let mut i: usize = 0;
        proof {
            assert(ps.skip(0) == ps);
        }
        while i < self.parts.len()
            invariant
                i <= self.parts.len(),
                ps == self.parts@.map_values(|p: ContentPart| p@),
                first_text(ps) == first_text(ps.skip(i as int)),
            decreases self.parts.len() - i,
        {
            proof {
                assert(ps.skip(i as int)[0] == self.parts@[i as int]@);
                assert(ps.skip(i as int).drop_first() == ps.skip(i + 1));
            }
            match &self.parts[i].text {
                Some(t) => {
                    return Some(t);
                },
                None => {},
            }
            i += 1;
        }
        None
    }

    /// The first function call among the parts.
    pub fn first_call(&self) -> (r: Option<&FunctionCall>)
        ensures
            match r {
                Some(c) => first_call(self@.parts) == Some((c.name@, c.arguments@)),
                None => first_call(self@.parts) is None,
            },
    {
        let ghost ps = self@.parts;
        let mut i: usize = 0;
        proof {
            assert(ps.skip(0) == ps);
        }
        while i < self.parts.len()
            invariant
                i <= self.parts.len(),
                ps == self.parts@.map_values(|p: ContentPart| p@),
                first_call(ps) == first_call(ps.skip(i as int)),
            decreases self.parts.len() - i,
        {
            proof {
                assert(ps.skip(i as int)[0] == self.parts@[i as int]@);
                assert(ps.skip(i as int).drop_first() == ps.skip(i + 1));
            }
            match &self.parts[i].function_call {
                Some(c) => {
                    return Some(c);
                },
                None => {},
            }
            i += 1;
        }
        None
    }
}

/// The content of the first candidate, if any.
pub open spec fn first_candidate(r: GenerateContentResponse) -> Option<ContentView> {
    match r.candidates {
        Some(c) => if c@.len() > 0 {
            Some(c@[0].content@)
        } else {
            None
        },
        None => None,
    }
}

/// The content of the last candidate, if any (what `candidates.pop()` takes).
pub open spec fn last_candidate(r: GenerateContentResponse) -> Option<ContentView> {
    match r.candidates {
        Some(c) => if c@.len() > 0 {
            Some(c@.last().content@)
        } else {
            None
        },
        None => None,
    }
}

impl GenerateContentResponse {
    pub fn first_candidate(&self) -> (r: Option<&Content>)
        ensures
            match r {
                Some(c) => first_candidate(*self) == Some(c@),
                None => first_candidate(*self) is None,
            },
    {
        match &self.candidates {
            Some(c) => if c.len() > 0 {
                Some(&c[0].content)
            } else {
                None
            },
            None => None,
        }
    }

    pub fn last_candidate(&self) -> (r: Option<&Content>)
        ensures
            match r {
                Some(c) => last_candidate(*self) == Some(c@),
                None => last_candidate(*self) is None,
            },
    {
        match &self.candidates {
            Some(c) => if c.len() > 0 {
                Some(&c[c.len() - 1].content)
            } else {
                None
            },
            None => None,
        }
    }
}

// ---------------------------------------------------------------------------
// The JSON form of a content, as the API writes it
// ---------------------------------------------------------------------------

/// The name of a role on the wire.
pub open spec fn role_text(r: Role) -> Seq<char> {
    match r {
        Role::User => "user"@,
        Role::Model => "model"@,
        Role::Tool => "tool"@,
    }
}

/// The JSON object of a part: its function call, function response and
/// text, each only when present, keys in order.
pub open spec fn part_json(p: PartView) -> JsonView {
    JsonView::Object(
        match p.function_call {
            Some(c) => seq![
                (
                    "functionCall"@,
                    JsonView::Object(seq![("args"@, c.1), ("name"@, JsonView::Str(c.0))]),
                ),
            ],
            None => Seq::empty(),
        } + match p.function_response {
            Some(f) => seq![
                (
                    "functionResponse"@,
                    JsonView::Object(seq![("name"@, JsonView::Str(f.0)), ("response"@, f.1)]),
                ),
            ],
            None => Seq::empty(),
        } + match p.text {
            Some(t) => seq![("text"@, JsonView::Str(t))],
            None => Seq::empty(),
        },
    )
}

/// The JSON object of a content: its parts and its role.
pub open spec fn content_json(c: ContentView) -> JsonView {
    JsonView::Object(
        seq![
            ("parts"@, JsonView::Array(c.parts.map_values(|p: PartView| part_json(p)))),
            ("role"@, JsonView::Str(role_text(c.role))),
        ],
    )
}

fn part_to_json(p: &ContentPart) -> (v: JsonValue)
    ensures
        v@ == part_json(p@),
{
    let mut e: Vec<(String, JsonValue)> = Vec::new();
    match &p.function_call {
        Some(c) => {
            let mut inner: Vec<(String, JsonValue)> = Vec::new();
            inner.push((crate::text::owned("args"), c.arguments.copy()));
            inner.push((crate::text::owned("name"), JsonValue::String(c.name.clone())));
            let iv = crate::json::json_object(inner);
            proof {
                assert(iv@->Object_0 =~= seq![("args"@, c.arguments@), ("name"@, JsonView::Str(c.name@))]);
            }
            e.push((crate::text::owned("functionCall"), iv));
        },
        None => {},
    }
    match &p.function_response {
        Some(f) => {
            let mut inner: Vec<(String, JsonValue)> = Vec::new();
            inner.push((crate::text::owned("name"), JsonValue::String(f.name.clone())));
            inner.push((crate::text::owned("response"), f.response.copy()));
            let iv = crate::json::json_object(inner);
            proof {
                assert(iv@->Object_0 =~= seq![("name"@, JsonView::Str(f.name@)), ("response"@, f.response@)]);
            }
            e.push((crate::text::owned("functionResponse"), iv));
        },
        None => {},
    }
    match &p.text {
        Some(t) => {
            e.push((crate::text::owned("text"), JsonValue::String(t.clone())));
        },
        None => {},
    }
    let v = crate::json::json_object(e);
    proof {
        assert(v@->Object_0 =~= part_json(p@)->Object_0);
    }
    v
}

/// The JSON form of a content.
pub fn content_to_json(c: &Content) -> (v: JsonValue)
    ensures
        v@ == content_json(c@),
{
    let mut parts: Vec<JsonValue> = Vec::new();
    let mut i: usize = 0;
    while i < c.parts.len()
        invariant
            i <= c.parts@.len(),
            parts@.len() == i,
            forall|j: int| 0 <= j < i ==> (#[trigger] parts@[j])@ == part_json(c.parts@[j]@),
        decreases c.parts.len() - i,
    {
        parts.push(part_to_json(&c.parts[i]));
        i += 1;
    }
    let pv = crate::json::json_array(parts);
    let role = match c.role {
        Role::User => "user",
        Role::Model => "model",
        Role::Tool => "tool",
    };
    proof {
        reveal_strlit("user");
        reveal_strlit("model");
        reveal_strlit("tool");
        assert(pv@->Array_0 =~= c@.parts.map_values(|p: PartView| part_json(p)));
    }
    let mut e: Vec<(String, JsonValue)> = Vec::new();
    e.push((crate::text::owned("parts"), pv));
    e.push((crate::text::owned("role"), JsonValue::String(crate::text::owned(role))));
    let v = crate::json::json_object(e);
    proof {
        assert(v@->Object_0 =~= content_json(c@)->Object_0);
    }
    v
}

} // verus!

//! Documentation answers for the `doc_retriever` tool, computed from a
//! crate's rustdoc JSON. Building that JSON (`cargo rustdoc` through
//! `rustdoc-json`) and reading it are done by the caller, which hands the
//! items that matter here over as a `DocCrate`.
use crate::error::{Error, ErrorKind};
use crate::json::{JsonValue, JsonView, json_array, json_object, json_str_array, str_array};
use crate::text::{colon_split, join, views};
use vstd::prelude::*;

verus! {

/// A type as a signature shows it.
#[derive(Debug)]
pub enum DocType {
    ResolvedPath(String),
    Generic(String),
    Primitive(String),
    BorrowedRef(Box<DocType>),
    /// Any other kind of type.
    Other,
}

/// What an item is, with the parts of it that documentation answers read.
#[derive(Debug)]
pub enum DocInner {
    Module { items: Vec<u32> },
    Struct { impls: Vec<u32> },
    Enum { impls: Vec<u32> },
    Function { inputs: Vec<(String, DocType)>, output: Option<DocType> },
    Impl { items: Vec<u32>, trait_path: Option<String> },
    Other,
}

/// An item of a crate's documentation.
#[derive(Debug)]
pub struct DocItem {
    pub name: Option<String>,
    pub docs: Option<String>,
    pub inner: DocInner,
}

/// A crate's documentation: its items by id, and the full path of each
/// item that has one.
#[derive(Debug)]
pub struct DocCrate {
    pub root: u32,
    pub crate_version: Option<String>,
    pub index: Vec<(u32, DocItem)>,
    pub paths: Vec<(u32, Vec<String>)>,
}

/// The kinds of item whose names a module listing gives.
#[derive(Debug, Clone, Copy, PartialEq, Eq, Structural)]
pub enum NameKind {
    Module,
    Struct,
    Enum,
    Function,
}

// ---------------------------------------------------------------------------
// Signatures
// ---------------------------------------------------------------------------

/// A type as a signature prints it.
pub open spec fn type_text(t: DocType) -> Seq<char>
    decreases t,
{
    match t {
        DocType::ResolvedPath(p) => p@,
        DocType::Generic(n) => n@,
        DocType::Primitive(n) => n@,
        DocType::BorrowedRef(b) => "&"@ + type_text(*b),
        DocType::Other => "impl ..."@,
    }
}

pub fn clean_type(t: &DocType) -> (s: String)
    ensures
        s@ == type_text(*t),
    decreases t,
{
    match t {
        DocType::ResolvedPath(p) => p.clone(),
        DocType::Generic(n) => n.clone(),
        DocType::Primitive(n) => n.clone(),
        DocType::BorrowedRef(b) => {
            let inner = clean_type(&**b);
            crate::text::cat("&", inner.as_str())
        },
        DocType::Other => crate::text::owned("impl ..."),
    }
}

/// The texts of a function's parameters, `name: type` each.
pub open spec fn arg_texts(inputs: Seq<(String, DocType)>) -> Seq<Seq<char>> {
    inputs.map_values(|a: (String, DocType)| a.0@ + ": "@ + type_text(a.1))
}

/// `pub fn name(args) -> output`, the arrow part only with an output.
pub open spec fn signature_text(
    name: Seq<char>,
    inputs: Seq<(String, DocType)>,
    output: Option<DocType>,
) -> Seq<char> {
    "pub fn "@ + name + "("@ + join(arg_texts(inputs), ", "@) + ")"@ + match output {
        Some(t) => " -> "@ + type_text(t),
        None => Seq::empty(),
    }
}

pub fn clean_fn_signature(output: &Option<DocType>, inputs: &Vec<(String, DocType)>, name: &str) -> (s:
    String)
    ensures
        s@ == signature_text(name@, inputs@, *output),
{
    let mut args: Vec<String> = Vec::new();
    let mut i: usize = 0;
    while i < inputs.len()
        invariant
            i <= inputs@.len(),
            views(args@) == arg_texts(inputs@).take(i as int),
        decreases inputs.len() - i,
    {
        let ty = clean_type(&inputs[i].1);
        let mut a = crate::text::cat(inputs[i].0.as_str(), ": ");
        a.append(ty.as_str());
        let ghost before = args@;
        args.push(a);
        proof {
            assert(views(args@) =~= views(before).push(a@));
            assert(arg_texts(inputs@).take(i + 1) =~= arg_texts(inputs@).take(i as int).push(
                arg_texts(inputs@)[i as int],
            ));
        }
        i += 1;
    }
    proof {
        assert(arg_texts(inputs@).take(inputs@.len() as int) =~= arg_texts(inputs@));
    }
    let joined = crate::text::join_strings(&args, ", ");
    let mut s = crate::text::cat3("pub fn ", name, "(");
    s.append(joined.as_str());
    s.append(")");
    match output {
        Some(t) => {
            let ty = clean_type(t);
            s.append(" -> ");
            s.append(ty.as_str());
        },
        None => {},
    }
    s
}

// ---------------------------------------------------------------------------
// Looking items up
// ---------------------------------------------------------------------------

/// The text of an optional string, empty when absent.
pub open spec fn or_empty(o: Option<String>) -> Seq<char> {
    match o {
        Some(s) => s@,
        None => Seq::empty(),
    }
}

fn text_or_empty(o: &Option<String>) -> (s: String)
    ensures
        s@ == or_empty(*o),
{
    match o {
        Some(t) => t.clone(),
        None => String::new(),
    }
}

/// The item of the first entry of the index with this id.
pub open spec fn index_get(index: Seq<(u32, DocItem)>, id: u32) -> Option<DocItem>
    decreases index.len(),
{
    if index.len() == 0 {
        None
    } else if index[0].0 == id {
        Some(index[0].1)
    } else {
        index_get(index.drop_first(), id)
    }
}

/// The id of the first path entry whose path is `parts`.
pub open spec fn path_match(paths: Seq<(u32, Vec<String>)>, parts: Seq<Seq<char>>) -> Option<u32>
    decreases paths.len(),
{
    if paths.len() == 0 {
        None
    } else if views(paths[0].1@) == parts {
        Some(paths[0].0)
    } else {
        path_match(paths.drop_first(), parts)
    }
}

/// The item whose full path is `path` (written with `::`): the first path
/// entry that matches, looked up in the index.
pub open spec fn find_by_path(k: DocCrate, path: Seq<char>) -> Option<DocItem> {
    match path_match(k.paths@, colon_split(path)) {
        Some(id) => index_get(k.index@, id),
        None => None,
    }
}

fn strings_eq(a: &Vec<String>, b: &Vec<String>) -> (r: bool)
    ensures
        r == (views(a@) == views(b@)),
{
    if a.len() != b.len() {
        proof {
            assert(views(a@).len() != views(b@).len());
        }
        return false;
    }
    let mut i: usize = 0;
    while i < a.len()
        invariant
            a@.len() == b@.len(),
            i <= a@.len(),
            forall|j: int| 0 <= j < i ==> (#[trigger] a@[j])@ == b@[j]@,
        decreases a.len() - i,
    {
        if !crate::text::str_eq(a[i].as_str(), b[i].as_str()) {
            proof {
                assert(views(a@)[i as int] != views(b@)[i as int]);
            }
            return false;
        }
        i += 1;
    }
    proof {
        assert(views(a@) =~= views(b@));
    }
    true
}

impl DocCrate {
    /// The item with this id.
    pub fn item(&self, id: u32) -> (r: Option<&DocItem>)
        ensures
            match r {
                Some(x) => index_get(self.index@, id) == Some(*x),
                None => index_get(self.index@, id) is None,
            },
    {
        let ghost e = self.index@;
        let mut i: usize = 0;
        proof {
            assert(e.skip(0) == e);
        }
        while i < self.index.len()
            invariant
                e == self.index@,
                i <= e.len(),
                index_get(e, id) == index_get(e.skip(i as int), id),
            decreases self.index.len() - i,
        {
            proof {
                assert(e.skip(i as int)[0] == e[i as int]);
                assert(e.skip(i as int).drop_first() == e.skip(i + 1));
            }
            if self.index[i].0 == id {
                return Some(&self.index[i].1);
            }
            i += 1;
        }
        None
    }

    /// The item whose full path is `path`.
    pub fn find_item_by_path(&self, path: &str) -> (r: Option<&DocItem>)
        ensures
            match r {
                Some(x) => find_by_path(*self, path@) == Some(*x),
                None => find_by_path(*self, path@) is None,
            },
    {
        let parts = crate::text::split_colons(path);
        let ghost e = self.paths@;
        let mut i: usize = 0;
        proof {
            assert(e.skip(0) == e);
        }
        while i < self.paths.len()
            invariant
                e == self.paths@,
                i <= e.len(),
                views(parts@) == colon_split(path@),
                path_match(e, colon_split(path@)) == path_match(e.skip(i as int), colon_split(path@)),
            decreases self.paths.len() - i,
        {
            proof {
                assert(e.skip(i as int)[0] == e[i as int]);
                assert(e.skip(i as int).drop_first() == e.skip(i + 1));
            }
            if strings_eq(&self.paths[i].1, &parts) {
                return self.item(self.paths[i].0);
            }
            i += 1;
        }
        None
    }
}

// ---------------------------------------------------------------------------
// Module listings, methods and trait implementations
// ---------------------------------------------------------------------------

pub open spec fn inner_is(inner: DocInner, k: NameKind) -> bool {
    match k {
        NameKind::Module => inner is Module,
        NameKind::Struct => inner is Struct,
        NameKind::Enum => inner is Enum,
        NameKind::Function => inner is Function,
    }
}

/// The names of the items of kind `k` among `ids`, in order; ids without
/// an item and items without a name are left out.
pub open spec fn names_of_kind(index: Seq<(u32, DocItem)>, ids: Seq<u32>, k: NameKind) -> Seq<
    Seq<char>,
>
    decreases ids.len(),
{
    if ids.len() == 0 {
        Seq::empty()
    } else {
        let prev = names_of_kind(index, ids.drop_last(), k);
        match index_get(index, ids.last()) {
            Some(item) => match item.name {
                Some(n) => if inner_is(item.inner, k) {
                    prev.push(n@)
                } else {
                    prev
                },
                None => prev,
            },
            None => prev,
        }
    }
}

/// A method's entry: its name, signature and documentation, when the item
/// is a function.
pub open spec fn method_view(item: DocItem) -> Option<JsonView> {
    match item.inner {
        DocInner::Function { inputs, output } => Some(
            JsonView::Object(
                seq![
                    ("documentation"@, JsonView::Str(or_empty(item.docs))),
                    ("name"@, JsonView::Str(or_empty(item.name))),
                    ("signature"@, JsonView::Str(signature_text(or_empty(item.name), inputs@, output))),
                ],
            ),
        ),
        _ => None,
    }
}

/// The entries of the functions among the items of an impl.
pub open spec fn impl_methods(index: Seq<(u32, DocItem)>, ids: Seq<u32>) -> Seq<JsonView>
    decreases ids.len(),
{
    if ids.len() == 0 {
        Seq::empty()
    } else {
        let prev = impl_methods(index, ids.drop_last());
        match index_get(index, ids.last()) {
            Some(item) => match method_view(item) {
                Some(m) => prev.push(m),
                None => prev,
            },
            None => prev,
        }
    }
}

/// The inherent methods and the trait implementations (those with methods)
/// of a type, from its impls.
pub open spec fn methods_and_impls(index: Seq<(u32, DocItem)>, impls: Seq<u32>) -> (
    Seq<JsonView>,
    Seq<JsonView>,
)
    decreases impls.len(),
{
    if impls.len() == 0 {
        (Seq::empty(), Seq::empty())
    } else {
        let (m, t) = methods_and_impls(index, impls.drop_last());
        match index_get(index, impls.last()) {
            Some(item) => match item.inner {
                DocInner::Impl { items, trait_path } => {
                    let ms = impl_methods(index, items@);
                    match trait_path {
                        Some(p) => if ms.len() > 0 {
                            (
                                m,
                                t.push(
                                    JsonView::Object(
                                        seq![
                                            ("methods"@, JsonView::Array(ms)),
                                            ("trait"@, JsonView::Str(p@)),
                                        ],
                                    ),
                                ),
                            )
                        } else {
                            (m, t)
                        },
                        None => (m + ms, t),
                    }
                },
                _ => (m, t),
            },
            None => (m, t),
        }
    }
}

impl DocCrate {
    /// The names of the items of kind `k` among `ids`.
    pub fn names_of_kind(&self, ids: &Vec<u32>, k: NameKind) -> (r: Vec<String>)
        ensures
            views(r@) == names_of_kind(self.index@, ids@, k),
    {
        let mut out: Vec<String> = Vec::new();
        let mut i: usize = 0;
        while i < ids.len()
            invariant
                i <= ids@.len(),
                views(out@) == names_of_kind(self.index@, ids@.take(i as int), k),
            decreases ids.len() - i,
        {
            proof {
                assert(ids@.take(i + 1).drop_last() == ids@.take(i as int));
                assert(ids@.take(i + 1).last() == ids@[i as int]);
            }
            match self.item(ids[i]) {
                Some(item) => match &item.name {
                    Some(n) => {
                        let fits = match (&item.inner, k) {
                            (DocInner::Module { .. }, NameKind::Module) => true,
                            (DocInner::Struct { .. }, NameKind::Struct) => true,
                            (DocInner::Enum { .. }, NameKind::Enum) => true,
                            (DocInner::Function { .. }, NameKind::Function) => true,
                            _ => false,
                        };
                        proof {
                            assert(fits == inner_is(item.inner, k));
                        }
                        if fits {
                            let ghost before = out@;
                            out.push(n.clone());
                            proof {
                                assert(views(out@) =~= views(before).push(n@));
                            }
                        }
                    },
                    None => {},
                },
                None => {},
            }
            i += 1;
        }
        proof {
            assert(ids@.take(ids@.len() as int) == ids@);
        }
        out
    }

    /// A method's entry, when the item is a function.
    fn method_entry(&self, item: &DocItem) -> (r: Option<JsonValue>)
        ensures
            match r {
                Some(v) => method_view(*item) == Some(v@),
                None => method_view(*item) is None,
            },
    {
        match &item.inner {
            DocInner::Function { inputs, output } => {
                let name = text_or_empty(&item.name);
                let sig = clean_fn_signature(output, inputs, name.as_str());
                let mut entries: Vec<(String, JsonValue)> = Vec::new();
                entries.push(
                    (crate::text::owned("documentation"), JsonValue::String(text_or_empty(&item.docs))),
                );
                entries.push((crate::text::owned("name"), JsonValue::String(name)));
                entries.push((crate::text::owned("signature"), JsonValue::String(sig)));
                let v = json_object(entries);
                proof {
                    assert(v@->Object_0 =~= method_view(*item)->0->Object_0);
                }
                Some(v)
            },
            _ => None,
        }
    }

    /// The entries of the functions among an impl's items.
    fn impl_methods(&self, ids: &Vec<u32>) -> (r: Vec<JsonValue>)
        ensures
            r@.map_values(|x: JsonValue| x@) == impl_methods(self.index@, ids@),
    {
        let mut out: Vec<JsonValue> = Vec::new();
        let mut i: usize = 0;
        while i < ids.len()
            invariant
                i <= ids@.len(),
                out@.map_values(|x: JsonValue| x@) == impl_methods(self.index@, ids@.take(i as int)),
            decreases ids.len() - i,
        {
            proof {
                assert(ids@.take(i + 1).drop_last() == ids@.take(i as int));
                assert(ids@.take(i + 1).last() == ids@[i as int]);
            }
            match self.item(ids[i]) {
                Some(item) => match self.method_entry(item) {
                    Some(m) => {
                        let ghost before = out@;
                        let ghost mv = m@;
                        out.push(m);
                        proof {
                            assert(out@.map_values(|x: JsonValue| x@) =~= before.map_values(
                                |x: JsonValue| x@,
                            ).push(mv));
                        }
                    },
                    None => {},
                },
                None => {},
            }
            i += 1;
        }
        proof {
            assert(ids@.take(ids@.len() as int) == ids@);
        }
        out
    }

    /// The inherent methods and the trait implementations of a type.
    pub fn methods_and_trait_impls(&self, impls: &Vec<u32>) -> (r: (Vec<JsonValue>, Vec<JsonValue>))
        ensures
            (r.0@.map_values(|x: JsonValue| x@), r.1@.map_values(|x: JsonValue| x@))
                == methods_and_impls(self.index@, impls@),
    {
        let mut methods: Vec<JsonValue> = Vec::new();
        let mut traits: Vec<JsonValue> = Vec::new();
        let mut i: usize = 0;
        while i < impls.len()
            invariant
                i <= impls@.len(),
                (methods@.map_values(|x: JsonValue| x@), traits@.map_values(|x: JsonValue| x@))
                    == methods_and_impls(self.index@, impls@.take(i as int)),
            decreases impls.len() - i,
        {
            proof {
                assert(impls@.take(i + 1).drop_last() == impls@.take(i as int));
                assert(impls@.take(i + 1).last() == impls@[i as int]);
            }
            match self.item(impls[i]) {
                Some(item) => match &item.inner {
                    DocInner::Impl { items, trait_path } => {
                        let mut ms = self.impl_methods(items);
                        let ghost msv = ms@.map_values(|x: JsonValue| x@);
                        match trait_path {
                            Some(p) => {
                                if ms.len() > 0 {
                                    let mut entries: Vec<(String, JsonValue)> = Vec::new();
                                    entries.push((crate::text::owned("methods"), json_array(ms)));
                                    entries.push((crate::text::owned("trait"), JsonValue::String(p.clone())));
                                    let v = json_object(entries);
                                    let ghost before = traits@;
                                    let ghost vv = v@;
                                    proof {
                                        assert(vv->Object_0 =~= seq![
                                            ("methods"@, JsonView::Array(msv)),
                                            ("trait"@, JsonView::Str(p@)),
                                        ]);
                                    }
                                    traits.push(v);
                                    proof {
                                        assert(traits@.map_values(|x: JsonValue| x@) =~= before.map_values(
                                            |x: JsonValue| x@,
                                        ).push(vv));
                                    }
                                }
                            },
                            None => {
                                let ghost before = methods@;
                                methods.append(&mut ms);
                                proof {
                                    assert(methods@.map_values(|x: JsonValue| x@) =~= before.map_values(
                                        |x: JsonValue| x@,
                                    ) + msv);
                                }
                            },
                        }
                    },
                    _ => {},
                },
                None => {},
            }
            i += 1;
        }
        proof {
            assert(impls@.take(impls@.len() as int) == impls@);
        }
        (methods, traits)
    }
}

// ---------------------------------------------------------------------------
// Answers
// ---------------------------------------------------------------------------

/// The names of the root module's submodules.
pub open spec fn root_modules(k: DocCrate, root: DocItem) -> Seq<Seq<char>> {
    match root.inner {
        DocInner::Module { items } => names_of_kind(k.index@, items@, NameKind::Module),
        _ => Seq::empty(),
    }
}

/// The crate-level answer, with a note when one is given.
pub open spec fn crate_docs_view(
    k: DocCrate,
    root: DocItem,
    crate_name: Seq<char>,
    note: Option<Seq<char>>,
) -> JsonView {
    let head = seq![
        ("documentation"@, JsonView::Str(or_empty(root.docs))),
        ("modules"@, str_array(root_modules(k, root))),
        ("name"@, JsonView::Str(crate_name)),
    ];
    let tail = seq![
        ("type"@, JsonView::Str("crate"@)),
        ("version"@, JsonView::Str(or_empty(k.crate_version))),
    ];
    JsonView::Object(
        match note {
            Some(n) => head.push(("note"@, JsonView::Str(n))) + tail,
            None => head + tail,
        },
    )
}

/// The crate-level answer, or the error when the root module is missing.
pub open spec fn crate_docs_spec(k: DocCrate, crate_name: Seq<char>, note: Option<Seq<char>>) -> Result<
    JsonView,
    (ErrorKind, Seq<char>),
> {
    match index_get(k.index@, k.root) {
        Some(root) => Ok(crate_docs_view(k, root, crate_name, note)),
        None => Err((ErrorKind::Config, "Root module not found in crate"@)),
    }
}

/// The answer for a module, with a note when one is given.
pub open spec fn module_docs_view(
    k: DocCrate,
    item: DocItem,
    items: Seq<u32>,
    crate_name: Seq<char>,
    path: Seq<char>,
    note: Option<Seq<char>>,
) -> JsonView {
    let head = seq![
        ("crate"@, JsonView::Str(crate_name)),
        ("documentation"@, JsonView::Str(or_empty(item.docs))),
        ("enums"@, str_array(names_of_kind(k.index@, items, NameKind::Enum))),
        ("functions"@, str_array(names_of_kind(k.index@, items, NameKind::Function))),
    ];
    let tail = seq![
        ("path"@, JsonView::Str(path)),
        ("structs"@, str_array(names_of_kind(k.index@, items, NameKind::Struct))),
        ("type"@, JsonView::Str("module"@)),
    ];
    JsonView::Object(
        match note {
            Some(n) => head.push(("note"@, JsonView::Str(n))) + tail,
            None => head + tail,
        },
    )
}

/// The answer for a struct or an enum (`kind` names which).
pub open spec fn type_docs_view(
    k: DocCrate,
    item: DocItem,
    impls: Seq<u32>,
    kind: Seq<char>,
    crate_name: Seq<char>,
    path: Seq<char>,
) -> JsonView {
    let mt = methods_and_impls(k.index@, impls);
    JsonView::Object(
        seq![
            ("crate"@, JsonView::Str(crate_name)),
            ("documentation"@, JsonView::Str(or_empty(item.docs))),
            ("methods"@, JsonView::Array(mt.0)),
            ("path"@, JsonView::Str(path)),
            ("trait_implementations"@, JsonView::Array(mt.1)),
            ("type"@, JsonView::Str(kind)),
        ],
    )
}

/// The answer for a function.
pub open spec fn function_docs_view(
    item: DocItem,
    inputs: Seq<(String, DocType)>,
    output: Option<DocType>,
    crate_name: Seq<char>,
    path: Seq<char>,
) -> JsonView {
    JsonView::Object(
        seq![
            ("crate"@, JsonView::Str(crate_name)),
            ("documentation"@, JsonView::Str(or_empty(item.docs))),
            ("path"@, JsonView::Str(path)),
            ("signature"@, JsonView::Str(signature_text(or_empty(item.name), inputs, output))),
            ("type"@, JsonView::Str("function"@)),
        ],
    )
}

pub open spec fn parent_note(path: Seq<char>, parent: Seq<char>) -> Seq<char> {
    "Note: The original path '"@ + path + "' was not found. Returning docs for the parent module '"@
        + parent + "'."@
}

pub open spec fn crate_note(path: Seq<char>) -> Seq<char> {
    "Note: The path '"@ + path + "' was not found. Returning crate-level documentation."@
}

/// The answer for a path that was not found, looking at its parents from the
/// nearest: the first that is a module is answered with a note; with none,
/// the crate is, with a note. `n` is how many parts of `parts` are still kept.
pub open spec fn fallback_docs(
    k: DocCrate,
    crate_name: Seq<char>,
    path: Seq<char>,
    parts: Seq<Seq<char>>,
    n: int,
) -> Result<JsonView, (ErrorKind, Seq<char>)>
    decreases n,
{
    if n > 1 {
        let parent = join(parts.take(n - 1), "::"@);
        match find_by_path(k, parent) {
            Some(item) => match item.inner {
                DocInner::Module { items } => Ok(
                    module_docs_view(
                        k,
                        item,
                        items@,
                        crate_name,
                        parent,
                        Some(parent_note(path, parent)),
                    ),
                ),
                _ => fallback_docs(k, crate_name, path, parts, n - 1),
            },
            None => fallback_docs(k, crate_name, path, parts, n - 1),
        }
    } else {
        crate_docs_spec(k, crate_name, Some(crate_note(path)))
    }
}

/// The path made of the first `m` parts of `path`.
pub open spec fn path_prefix(path: Seq<char>, m: int) -> Seq<char> {
    join(colon_split(path).take(m), "::"@)
}

/// Whether `p` is the path of a module of the crate.
pub open spec fn names_module(k: DocCrate, p: Seq<char>) -> bool {
    find_by_path(k, p) matches Some(item) && item.inner is Module
}

proof fn lemma_fallback_reaches_module(
    k: DocCrate,
    crate_name: Seq<char>,
    path: Seq<char>,
    n: int,
    m: int,
)
    requires
        1 <= m < n <= colon_split(path).len(),
        names_module(k, path_prefix(path, m)),
        forall|j: int| m < j < n ==> !#[trigger] names_module(k, path_prefix(path, j)),
    ensures
        ({
            let p = path_prefix(path, m);
            let item = find_by_path(k, p)->0;
            fallback_docs(k, crate_name, path, colon_split(path), n) == Ok::<
                JsonView,
                (ErrorKind, Seq<char>),
            >(
                module_docs_view(
                    k,
                    item,
                    item.inner->Module_items@,
                    crate_name,
                    p,
                    Some(parent_note(path, p)),
                ),
            )
        }),
    decreases n,
{
    if n - 1 > m {
        assert(!names_module(k, path_prefix(path, n - 1)));
        lemma_fallback_reaches_module(k, crate_name, path, n - 1, m);
    }
}

proof fn lemma_fallback_reaches_crate(k: DocCrate, crate_name: Seq<char>, path: Seq<char>, n: int)
    requires
        n <= colon_split(path).len(),
        forall|j: int| 1 <= j < n ==> !#[trigger] names_module(k, path_prefix(path, j)),
    ensures
        fallback_docs(k, crate_name, path, colon_split(path), n) == crate_docs_spec(
            k,
            crate_name,
            Some(crate_note(path)),
        ),
    decreases n,
{
    if n > 1 {
        assert(!names_module(k, path_prefix(path, n - 1)));
        lemma_fallback_reaches_crate(k, crate_name, path, n - 1);
    }
}

/// A path that is not found is answered for the longest proper prefix of it
/// that names a module: that module's documentation, with a note naming the
/// path asked for and the module given.
pub proof fn law_missing_path_answers_nearest_module(
    k: DocCrate,
    crate_name: Seq<char>,
    path: Seq<char>,
    m: int,
)
    requires
        find_by_path(k, path) is None,
        1 <= m < colon_split(path).len(),
        names_module(k, path_prefix(path, m)),
        forall|j: int|
            m < j < colon_split(path).len() ==> !#[trigger] names_module(k, path_prefix(path, j)),
    ensures
        ({
            let p = path_prefix(path, m);
            let item = find_by_path(k, p)->0;
            item_docs_spec(k, crate_name, path) == Ok::<JsonView, (ErrorKind, Seq<char>)>(
                module_docs_view(
                    k,
                    item,
                    item.inner->Module_items@,
                    crate_name,
                    p,
                    Some(
                        "Note: The original path '"@ + path
                            + "' was not found. Returning docs for the parent module '"@ + p
                            + "'."@,
                    ),
                ),
            )
        }),
{
    lemma_fallback_reaches_module(k, crate_name, path, colon_split(path).len() as int, m);
}

/// A path that is not found, none of whose proper prefixes names a module,
/// is answered with the crate's documentation and a note naming the path.
pub proof fn law_missing_path_without_module_answers_crate(
    k: DocCrate,
    crate_name: Seq<char>,
    path: Seq<char>,
)
    requires
        find_by_path(k, path) is None,
        forall|j: int|
            1 <= j < colon_split(path).len() ==> !#[trigger] names_module(k, path_prefix(path, j)),
    ensures
        item_docs_spec(k, crate_name, path) == crate_docs_spec(
            k,
            crate_name,
            Some(
                "Note: The path '"@ + path + "' was not found. Returning crate-level documentation."@,
            ),
        ),
{
    lemma_fallback_reaches_crate(k, crate_name, path, colon_split(path).len() as int);
}

/// The answer for an item path.
pub open spec fn item_docs_spec(k: DocCrate, crate_name: Seq<char>, path: Seq<char>) -> Result<
    JsonView,
    (ErrorKind, Seq<char>),
> {
    match find_by_path(k, path) {
        Some(item) => match item.inner {
            DocInner::Module { items } => Ok(
                module_docs_view(k, item, items@, crate_name, path, None),
            ),
            DocInner::Struct { impls } => Ok(
                type_docs_view(k, item, impls@, "struct"@, crate_name, path),
            ),
            DocInner::Enum { impls } => Ok(type_docs_view(k, item, impls@, "enum"@, crate_name, path)),
            DocInner::Function { inputs, output } => Ok(
                function_docs_view(item, inputs@, output, crate_name, path),
            ),
            _ => Err(
                (
                    ErrorKind::Config,
                    "Path '"@ + path + "' is not a module, struct, enum, or function."@,
                ),
            ),
        },
        None => {
            let parts = colon_split(path);
            fallback_docs(k, crate_name, path, parts, parts.len() as int)
        },
    }
}

pub open spec fn note_view(note: Option<String>) -> Option<Seq<char>> {
    match note {
        Some(n) => Some(n@),
        None => None,
    }
}

pub open spec fn result_view(r: Result<JsonValue, Error>) -> Result<JsonView, (ErrorKind, Seq<char>)> {
    match r {
        Ok(v) => Ok(v@),
        Err(e) => Err(e@),
    }
}

impl DocCrate {
    fn crate_docs_with_note(&self, crate_name: &str, note: Option<String>) -> (r: Result<JsonValue, Error>)
        ensures
            result_view(r) == crate_docs_spec(
                *self,
                crate_name@,
                note_view(note),
            ),
    {
        let root = match self.item(self.root) {
            Some(root) => root,
            None => {
                return Err(Error::Config(crate::text::owned("Root module not found in crate")));
            },
        };
        let modules = match &root.inner {
            DocInner::Module { items } => self.names_of_kind(items, NameKind::Module),
            _ => {
                let v: Vec<String> = Vec::new();
                proof {
                    assert(views(v@) =~= Seq::<Seq<char>>::empty());
                }
                v
            },
        };
        let ghost nv = note_view(note);
        let mut entries: Vec<(String, JsonValue)> = Vec::new();
        entries.push(
            (crate::text::owned("documentation"), JsonValue::String(text_or_empty(&root.docs))),
        );
        entries.push((crate::text::owned("modules"), json_str_array(modules)));
        entries.push((crate::text::owned("name"), JsonValue::String(crate::text::owned(crate_name))));
        match note {
            Some(n) => {
                entries.push((crate::text::owned("note"), JsonValue::String(n)));
            },
            None => {},
        }
        entries.push((crate::text::owned("type"), JsonValue::String(crate::text::owned("crate"))));
        entries.push(
            (
                crate::text::owned("version"),
                JsonValue::String(text_or_empty(&self.crate_version)),
            ),
        );
        let v = json_object(entries);
        proof {
            assert(v@->Object_0 =~= crate_docs_view(*self, *root, crate_name@, nv)->Object_0);
        }
        Ok(v)
    }

    fn module_docs(
        &self,
        item: &DocItem,
        items: &Vec<u32>,
        crate_name: &str,
        path: &str,
        note: Option<String>,
    ) -> (r: JsonValue)
        ensures
            r@ == module_docs_view(
                *self,
                *item,
                items@,
                crate_name@,
                path@,
                note_view(note),
            ),
    {
        let ghost nv = note_view(note);
        let mut entries: Vec<(String, JsonValue)> = Vec::new();
        entries.push((crate::text::owned("crate"), JsonValue::String(crate::text::owned(crate_name))));
        entries.push(
            (crate::text::owned("documentation"), JsonValue::String(text_or_empty(&item.docs))),
        );
        entries.push(
            (crate::text::owned("enums"), json_str_array(self.names_of_kind(items, NameKind::Enum))),
        );
        entries.push(
            (
                crate::text::owned("functions"),
                json_str_array(self.names_of_kind(items, NameKind::Function)),
            ),
        );
        match note {
            Some(n) => {
                entries.push((crate::text::owned("note"), JsonValue::String(n)));
            },
            None => {},
        }
        entries.push((crate::text::owned("path"), JsonValue::String(crate::text::owned(path))));
        entries.push(
            (crate::text::owned("structs"), json_str_array(self.names_of_kind(items, NameKind::Struct))),
        );
        entries.push((crate::text::owned("type"), JsonValue::String(crate::text::owned("module"))));
        let v = json_object(entries);
        proof {
            assert(v@->Object_0 =~= module_docs_view(*self, *item, items@, crate_name@, path@, nv)->Object_0);
        }
        v
    }

    fn type_docs(&self, item: &DocItem, impls: &Vec<u32>, kind: &str, crate_name: &str, path: &str) -> (r:
        JsonValue)
        ensures
            r@ == type_docs_view(*self, *item, impls@, kind@, crate_name@, path@),
    {
        let (methods, traits) = self.methods_and_trait_impls(impls);
        let mut entries: Vec<(String, JsonValue)> = Vec::new();
        entries.push((crate::text::owned("crate"), JsonValue::String(crate::text::owned(crate_name))));
        entries.push(
            (crate::text::owned("documentation"), JsonValue::String(text_or_empty(&item.docs))),
        );
        entries.push((crate::text::owned("methods"), json_array(methods)));
        entries.push((crate::text::owned("path"), JsonValue::String(crate::text::owned(path))));
        entries.push((crate::text::owned("trait_implementations"), json_array(traits)));
        entries.push((crate::text::owned("type"), JsonValue::String(crate::text::owned(kind))));
        let v = json_object(entries);
        proof {
            assert(v@->Object_0 =~= type_docs_view(*self, *item, impls@, kind@, crate_name@, path@)->Object_0);
        }
        v
    }
}

/// The error of a rustdoc JSON build that failed, from the crate's name and
/// the build's message.
pub fn build_error(crate_name: &str, message: &str) -> (e: Error)
    ensures
        e@ == (ErrorKind::Config, "Failed to build rustdoc for "@ + crate_name@ + ": "@ + message@),
{
    let mut m = crate::text::cat3("Failed to build rustdoc for ", crate_name, ": ");
    m.append(message);
    Error::Config(m)
}

/// The crate-level answer: the root module's documentation, its submodules,
/// the crate's name and version.
pub fn get_crate_docs(krate: &DocCrate, crate_name: &str) -> (r: Result<JsonValue, Error>)
    ensures
        result_view(r) == crate_docs_spec(*krate, crate_name@, None),
{
    krate.crate_docs_with_note(crate_name, None)
}

/// The answer for an item given by its full path: a module's listing, a
/// struct's or an enum's methods and trait implementations, a function's
/// signature. A path that is not found is answered for its nearest parent
/// module, else for the crate, with a note saying so.
pub fn get_item_docs(krate: &DocCrate, crate_name: &str, path: &str) -> (r: Result<JsonValue, Error>)
    ensures
        result_view(r) == item_docs_spec(*krate, crate_name@, path@),
{
    match krate.find_item_by_path(path) {
        Some(item) => match &item.inner {
            DocInner::Module { items } => Ok(krate.module_docs(item, items, crate_name, path, None)),
            DocInner::Struct { impls } => Ok(krate.type_docs(item, impls, "struct", crate_name, path)),
            DocInner::Enum { impls } => Ok(krate.type_docs(item, impls, "enum", crate_name, path)),
            DocInner::Function { inputs, output } => {
                let name = text_or_empty(&item.name);
                let sig = clean_fn_signature(output, inputs, name.as_str());
                let mut entries: Vec<(String, JsonValue)> = Vec::new();
                entries.push(
                    (crate::text::owned("crate"), JsonValue::String(crate::text::owned(crate_name))),
                );
                entries.push(
                    (crate::text::owned("documentation"), JsonValue::String(text_or_empty(&item.docs))),
                );
                entries.push((crate::text::owned("path"), JsonValue::String(crate::text::owned(path))));
                entries.push((crate::text::owned("signature"), JsonValue::String(sig)));
                entries.push(
                    (crate::text::owned("type"), JsonValue::String(crate::text::owned("function"))),
                );
                let v = json_object(entries);
                proof {
                    assert(v@->Object_0 =~= function_docs_view(
                        *item,
                        inputs@,
                        *output,
                        crate_name@,
                        path@,
                    )->Object_0);
                }
                Ok(v)
            },
            _ => {
                let mut m = crate::text::cat3("Path '", path, "' is not a module, struct, enum, or function.");
                Err(Error::Config(m))
            },
        },
        None => fallback(krate, crate_name, path),
    }
}

fn fallback(krate: &DocCrate, crate_name: &str, path: &str) -> (r: Result<JsonValue, Error>)
    requires
        find_by_path(*krate, path@) is None,
    ensures
        result_view(r) == fallback_docs(
            *krate,
            crate_name@,
            path@,
            colon_split(path@),
            colon_split(path@).len() as int,
        ),
{
    let mut parts = crate::text::split_colons(path);
    let ghost all = colon_split(path@);
    proof {
        assert(views(parts@) =~= all.take(all.len() as int));
    }
    while parts.len() > 1
        invariant
            all == colon_split(path@),
            parts@.len() <= all.len(),
            views(parts@) == all.take(parts@.len() as int),
            fallback_docs(*krate, crate_name@, path@, all, all.len() as int) == fallback_docs(
                *krate,
                crate_name@,
                path@,
                all,
                parts@.len() as int,
            ),
        decreases parts.len(),
    {
        let ghost n = parts@.len() as int;
        let ghost before = parts@;
        parts.pop();
        proof {
            assert(views(parts@) =~= views(before).take(n - 1));
            assert(views(parts@) =~= all.take(n - 1));
        }
        let parent = crate::text::join_strings(&parts, "::");
        match krate.find_item_by_path(parent.as_str()) {
            Some(item) => match &item.inner {
                DocInner::Module { items } => {
                    let mut note = crate::text::cat3("Note: The original path '", path, "' was not found. Returning docs for the parent module '");
                    note.append(parent.as_str());
                    note.append("'.");
                    proof {
                        assert(all.take(n - 1) == views(parts@));
                        assert(parent@ == join(all.take(n - 1), "::"@));
                        assert(note@ == parent_note(path@, parent@));
                        assert(find_by_path(*krate, parent@) == Some(*item));
                    }
                    let v = krate.module_docs(item, items, crate_name, parent.as_str(), Some(note));
                    return Ok(v);
                },
                _ => {},
            },
            None => {},
        }
    }
    let note = crate::text::cat3("Note: The path '", path, "' was not found. Returning crate-level documentation.");
    krate.crate_docs_with_note(crate_name, Some(note))
}

} // verus!

//! The tools a block may offer the model: `doc_retriever` (documentation of
//! a crate, module or type) and `file_system` (read, write or list files in
//! the project). The library decides which tools a block offers, what their
//! declarations say, which tool a call names, what a file-system call asks
//! for (refusing paths that leave the project) and what each tool answers;
//! the caller reads and writes the files and builds the documentation.
use crate::doc_retriever::{DocCrate, get_crate_docs, get_item_docs, item_docs_spec, crate_docs_spec, result_view};
use crate::error::{Error, ErrorKind};
use crate::gemini_types::{FunctionCall, FunctionDeclaration};
use crate::json::{JsonValue, JsonView, json_object, json_str_array, str_array};
use crate::text::{split_on, views};
use vstd::prelude::*;

verus! {

/// A tool that a block can enable.
#[derive(Debug, Clone, Copy, PartialEq, Eq, Structural)]
pub enum ToolKind {
    DocRetriever,
    FileSystem,
}

/// The name a tool is enabled and called by.
pub open spec fn tool_name(k: ToolKind) -> Seq<char> {
    match k {
        ToolKind::DocRetriever => "doc_retriever"@,
        ToolKind::FileSystem => "file_system"@,
    }
}

/// The tool an enabled name stands for; other names stand for none.
pub open spec fn tool_of_name(name: Seq<char>) -> Option<ToolKind> {
    if name == "doc_retriever"@ {
        Some(ToolKind::DocRetriever)
    } else if name == "file_system"@ {
        Some(ToolKind::FileSystem)
    } else {
        None
    }
}

pub fn tool_kind_of(name: &str) -> (r: Option<ToolKind>)
    ensures
        r == tool_of_name(name@),
{
    if crate::text::str_eq(name, "doc_retriever") {
        Some(ToolKind::DocRetriever)
    } else if crate::text::str_eq(name, "file_system") {
        Some(ToolKind::FileSystem)
    } else {
        None
    }
}

/// The tools that a list of names enables, each once, in the order of its
/// first name.
pub open spec fn enabled_kinds(names: Seq<Seq<char>>) -> Seq<ToolKind>
    decreases names.len(),
{
    if names.len() == 0 {
        Seq::empty()
    } else {
        let prev = enabled_kinds(names.drop_last());
        match tool_of_name(names.last()) {
            Some(k) => if prev.contains(k) {
                prev
            } else {
                prev.push(k)
            },
            None => prev,
        }
    }
}

/// The tools a block offers, and the dispatch of the model's calls to them.
#[derive(Debug)]
pub struct ToolExecutor {
    tools: Vec<ToolKind>,
}

impl View for ToolExecutor {
    type V = Seq<ToolKind>;

    closed spec fn view(&self) -> Seq<ToolKind> {
        self.tools@
    }
}

/// A tool is offered once however often it is named, and a tool is offered
/// exactly when some name enables it.
pub proof fn law_each_tool_once(names: Seq<Seq<char>>)
    ensures
        enabled_kinds(names).no_duplicates(),
        forall|k: ToolKind|
            enabled_kinds(names).contains(k) <==> exists|i: int|
                0 <= i < names.len() && tool_of_name(#[trigger] names[i]) == Some(k),
    decreases names.len(),
{
    if names.len() > 0 {
        let d = names.drop_last();
        law_each_tool_once(d);
        assert forall|k: ToolKind|
            enabled_kinds(names).contains(k) <==> exists|i: int|
                0 <= i < names.len() && tool_of_name(#[trigger] names[i]) == Some(k) by {
            if exists|i: int| 0 <= i < names.len() && tool_of_name(#[trigger] names[i]) == Some(k) {
                let i = choose|i: int| 0 <= i < names.len() && tool_of_name(#[trigger] names[i]) == Some(k);
                if i < d.len() {
                    assert(d[i] == names[i]);
                }
            }
            if exists|i: int| 0 <= i < d.len() && tool_of_name(#[trigger] d[i]) == Some(k) {
                let i = choose|i: int| 0 <= i < d.len() && tool_of_name(#[trigger] d[i]) == Some(k);
                assert(d[i] == names[i]);
            }
            let prev = enabled_kinds(d);
            let last = names[names.len() - 1];
            assert(names.last() == last);
            if enabled_kinds(names).contains(k) && !prev.contains(k) {
                let j = choose|j: int| 0 <= j < enabled_kinds(names).len() && enabled_kinds(names)[j] == k;
                if tool_of_name(last) != Some(k) {
                    match tool_of_name(last) {
                        Some(k2) => {
                            if !prev.contains(k2) {
                                assert(enabled_kinds(names) == prev.push(k2));
                                if j < prev.len() {
                                    assert(prev[j] == k);
                                }
                            }
                        },
                        None => {},
                    }
                }
                assert(tool_of_name(names[names.len() - 1]) == Some(k));
            }
            if prev.contains(k) {
                let j = choose|j: int| 0 <= j < prev.len() && prev[j] == k;
                match tool_of_name(last) {
                    Some(k2) => {
                        if !prev.contains(k2) {
                            assert(prev.push(k2)[j] == k);
                        }
                    },
                    None => {},
                }
            }
            if tool_of_name(last) == Some(k) && !prev.contains(k) {
                assert(prev.push(k)[prev.len() as int] == k);
            }
        }
    }
}

impl ToolExecutor {
    /// The executor of the tools that `enabled_tools` names; unknown names
    /// are ignored and a tool named twice is offered once.
    pub fn new(enabled_tools: &Vec<String>) -> (r: ToolExecutor)
        ensures
            r@ == enabled_kinds(views(enabled_tools@)),
    {
        let mut tools: Vec<ToolKind> = Vec::new();
        let mut i: usize = 0;
        while i < enabled_tools.len()
            invariant
                i <= enabled_tools@.len(),
                tools@ == enabled_kinds(views(enabled_tools@).take(i as int)),
            decreases enabled_tools.len() - i,
        {
            proof {
                assert(views(enabled_tools@).take(i + 1).drop_last() == views(enabled_tools@).take(
                    i as int,
                ));
                assert(views(enabled_tools@).take(i + 1).last() == enabled_tools@[i as int]@);
            }
            match tool_kind_of(enabled_tools[i].as_str()) {
                Some(k) => {
                    let mut seen = false;
                    let mut j: usize = 0;
                    while j < tools.len()
                        invariant
                            j <= tools@.len(),
                            seen == (exists|m: int| 0 <= m < j && tools@[m] == k),
                        decreases tools.len() - j,
                    {
                        if tools[j] == k {
                            seen = true;
                        }
                        j += 1;
                    }
                    proof {
                        assert(seen == tools@.contains(k));
                    }
                    if !seen {
                        tools.push(k);
                    }
                },
                None => {},
            }
            i += 1;
        }
        proof {
            assert(views(enabled_tools@).take(enabled_tools@.len() as int) == views(enabled_tools@));
        }
        ToolExecutor { tools }
    }

    /// The declarations of the offered tools, one for each, in order.
    pub fn schemas(&self) -> (r: Vec<FunctionDeclaration>)
        ensures
            r@.len() == self@.len(),
            forall|i: int|
                0 <= i < r@.len() ==> (#[trigger] r@[i]).name@ == tool_name(self@[i]) && decl_view(
                    r@[i],
                ) == declaration_view(self@[i]),
    {
        let mut out: Vec<FunctionDeclaration> = Vec::new();
        let mut i: usize = 0;
        while i < self.tools.len()
            invariant
                i <= self.tools@.len(),
                out@.len() == i,
                forall|j: int|
                    0 <= j < i ==> (#[trigger] out@[j]).name@ == tool_name(self.tools@[j])
                        && decl_view(out@[j]) == declaration_view(self.tools@[j]),
            decreases self.tools.len() - i,
        {
            let d = match self.tools[i] {
                ToolKind::DocRetriever => DocRetrieverTool.schema(),
                ToolKind::FileSystem => FileSystemTool.schema(),
            };
            out.push(d);
            i += 1;
        }
        out
    }

    /// The tool a call names, when this executor offers it.
    pub fn resolve(&self, call: &FunctionCall) -> (r: Result<ToolKind, Error>)
        ensures
            match r {
                Ok(k) => tool_name(k) == call.name@ && self@.contains(k),
                Err(e) => (forall|k: ToolKind| #[trigger] self@.contains(k) ==> tool_name(k) != call.name@)
                    && e@ == not_found(call.name@),
            },
    {
        let mut i: usize = 0;
        while i < self.tools.len()
            invariant
                i <= self.tools@.len(),
                forall|j: int| 0 <= j < i ==> tool_name(#[trigger] self.tools@[j]) != call.name@,
            decreases self.tools.len() - i,
        {
            let k = self.tools[i];
            let name = match k {
                ToolKind::DocRetriever => "doc_retriever",
                ToolKind::FileSystem => "file_system",
            };
            proof {
                reveal_strlit("doc_retriever");
                reveal_strlit("file_system");
            }
            if crate::text::str_eq(name, call.name.as_str()) {
                return Ok(k);
            }
            i += 1;
        }
        let mut m = crate::text::cat3("Tool '", call.name.as_str(), "' not found or not enabled for this block.");
        Err(Error::Config(m))
    }
}

pub open spec fn not_found(name: Seq<char>) -> (ErrorKind, Seq<char>) {
    (ErrorKind::Config, "Tool '"@ + name + "' not found or not enabled for this block."@)
}

// ---------------------------------------------------------------------------
// Declarations
// ---------------------------------------------------------------------------

/// `{"description": d, "type": "string"}`.
pub open spec fn string_param(d: Seq<char>) -> JsonView {
    JsonView::Object(
        seq![("description"@, JsonView::Str(d)), ("type"@, JsonView::Str("string"@))],
    )
}

fn string_param_value(d: &str) -> (v: JsonValue)
    ensures
        v@ == string_param(d@),
{
    let mut e: Vec<(String, JsonValue)> = Vec::new();
    e.push((crate::text::owned("description"), JsonValue::String(crate::text::owned(d))));
    e.push((crate::text::owned("type"), JsonValue::String(crate::text::owned("string"))));
    let v = json_object(e);
    proof {
        assert(v@->Object_0 =~= string_param(d@)->Object_0);
    }
    v
}

/// An object schema with these properties and required names.
pub open spec fn object_schema(props: Seq<(Seq<char>, JsonView)>, required: Seq<Seq<char>>) -> JsonView {
    JsonView::Object(
        seq![
            ("properties"@, JsonView::Object(props)),
            ("required"@, str_array(required)),
            ("type"@, JsonView::Str("object"@)),
        ],
    )
}

pub open spec fn doc_retriever_parameters() -> JsonView {
    object_schema(
        seq![
            ("crate_name"@, string_param("The name of the crate."@)),
            (
                "path"@,
                string_param(
                    "Optional. The full path to the item (e.g., 'my_crate::my_module::MyStruct'). If omitted, returns crate-level docs."@,
                ),
            ),
        ],
        seq!["crate_name"@],
    )
}

pub open spec fn file_system_parameters() -> JsonView {
    object_schema(
        seq![
            ("content"@, string_param("The content to write to the file (only for 'write' operation)."@)),
            (
                "operation"@,
                JsonView::Object(
                    seq![
                        ("description"@, JsonView::Str("The operation to perform."@)),
                        ("enum"@, str_array(seq!["read"@, "write"@, "list"@])),
                        ("type"@, JsonView::Str("string"@)),
                    ],
                ),
            ),
            ("path"@, string_param("The path to the file or directory."@)),
        ],
        seq!["operation"@, "path"@],
    )
}

/// The declaration the model is shown for a tool.
pub open spec fn declaration_view(k: ToolKind) -> (Seq<char>, Seq<char>, JsonView) {
    match k {
        ToolKind::DocRetriever => (
            "doc_retriever"@,
            "Retrieves Rust documentation for a crate, module, or type."@,
            doc_retriever_parameters(),
        ),
        ToolKind::FileSystem => (
            "file_system"@,
            "Performs file system operations: read, write, or list files in a directory."@,
            file_system_parameters(),
        ),
    }
}

/// The name, description and parameters of a declaration.
pub open spec fn decl_view(d: FunctionDeclaration) -> (Seq<char>, Seq<char>, JsonView) {
    (d.name@, d.description@, d.parameters@)
}

fn object_schema_value(props: Vec<(String, JsonValue)>, required: Vec<String>) -> (v: JsonValue)
    ensures
        v@ == object_schema(props@.map_values(|e: (String, JsonValue)| (e.0@, e.1@)), views(required@)),
{
    let ghost pv = props@.map_values(|e: (String, JsonValue)| (e.0@, e.1@));
    let mut e: Vec<(String, JsonValue)> = Vec::new();
    e.push((crate::text::owned("properties"), json_object(props)));
    e.push((crate::text::owned("required"), json_str_array(required)));
    e.push((crate::text::owned("type"), JsonValue::String(crate::text::owned("object"))));
    let v = json_object(e);
    proof {
        assert(v@->Object_0 =~= object_schema(pv, views(required@))->Object_0);
    }
    v
}

/// Retrieves Rust documentation for a crate, module, or type.
#[derive(Debug, Clone, Copy)]
pub struct DocRetrieverTool;

/// Reads, writes or lists files in the project.
#[derive(Debug, Clone, Copy)]
pub struct FileSystemTool;

impl DocRetrieverTool {
    pub fn name(&self) -> (s: String)
        ensures
            s@ == tool_name(ToolKind::DocRetriever),
    {
        crate::text::owned("doc_retriever")
    }

    pub fn schema(&self) -> (d: FunctionDeclaration)
        ensures
            decl_view(d) == declaration_view(ToolKind::DocRetriever),
    {
        let mut props: Vec<(String, JsonValue)> = Vec::new();
        props.push((crate::text::owned("crate_name"), string_param_value("The name of the crate.")));
        props.push(
            (
                crate::text::owned("path"),
                string_param_value(
                    "Optional. The full path to the item (e.g., 'my_crate::my_module::MyStruct'). If omitted, returns crate-level docs.",
                ),
            ),
        );
        let ghost pv = props@.map_values(|e: (String, JsonValue)| (e.0@, e.1@));
        let mut required: Vec<String> = Vec::new();
        required.push(crate::text::owned("crate_name"));
        let parameters = object_schema_value(props, required);
        proof {
            assert(pv =~= doc_retriever_parameters()->Object_0[0].1->Object_0);
            assert(views(required@) =~= seq!["crate_name"@]);
        }
        FunctionDeclaration {
            name: self.name(),
            description: crate::text::owned("Retrieves Rust documentation for a crate, module, or type."),
            parameters,
        }
    }
}

impl FileSystemTool {
    pub fn name(&self) -> (s: String)
        ensures
            s@ == tool_name(ToolKind::FileSystem),
    {
        crate::text::owned("file_system")
    }

    pub fn schema(&self) -> (d: FunctionDeclaration)
        ensures
            decl_view(d) == declaration_view(ToolKind::FileSystem),
    {
        let mut ops: Vec<String> = Vec::new();
        ops.push(crate::text::owned("read"));
        ops.push(crate::text::owned("write"));
        ops.push(crate::text::owned("list"));
        let ghost opsv = views(ops@);
        let mut op: Vec<(String, JsonValue)> = Vec::new();
        op.push(
            (crate::text::owned("description"), JsonValue::String(crate::text::owned("The operation to perform."))),
        );
        op.push((crate::text::owned("enum"), json_str_array(ops)));
        op.push((crate::text::owned("type"), JsonValue::String(crate::text::owned("string"))));
        let ghost opv = op@.map_values(|e: (String, JsonValue)| (e.0@, e.1@));
        let op_value = json_object(op);
        let mut props: Vec<(String, JsonValue)> = Vec::new();
        props.push(
            (
                crate::text::owned("content"),
                string_param_value("The content to write to the file (only for 'write' operation)."),
            ),
        );
        props.push((crate::text::owned("operation"), op_value));
        props.push((crate::text::owned("path"), string_param_value("The path to the file or directory.")));
        let ghost pv = props@.map_values(|e: (String, JsonValue)| (e.0@, e.1@));
        let mut required: Vec<String> = Vec::new();
        required.push(crate::text::owned("operation"));
        required.push(crate::text::owned("path"));
        let parameters = object_schema_value(props, required);
        proof {
            assert(opsv =~= seq!["read"@, "write"@, "list"@]);
            assert(opv =~= file_system_parameters()->Object_0[0].1->Object_0[1].1->Object_0);
            assert(pv =~= file_system_parameters()->Object_0[0].1->Object_0);
            assert(views(required@) =~= seq!["operation"@, "path"@]);
        }
        FunctionDeclaration {
            name: self.name(),
            description: crate::text::owned(
                "Performs file system operations: read, write, or list files in a directory.",
            ),
            parameters,
        }
    }
}

// ---------------------------------------------------------------------------
// The file-system tool
// ---------------------------------------------------------------------------

/// The arguments of a `file_system` call.
#[derive(Debug)]
pub struct FileSystemArgs {
    pub operation: String,
    pub path: String,
    pub content: Option<String>,
}

/// What a `file_system` call asks the caller to do.
#[derive(Debug)]
pub enum FsRequest {
    Read { path: String },
    Write { path: String, content: String },
    List { path: String },
}

/// Whether a path leaves the project: it is absolute (starts with `/`) or
/// one of its `/`-separated components is `..`.
pub open spec fn path_escapes(p: Seq<char>) -> bool {
    (p.len() > 0 && p[0] == '/') || split_on(p, '/').contains(".."@)
}

pub fn escapes_project(path: &str) -> (b: bool)
    ensures
        b == path_escapes(path@),
{
    let cs = crate::text::chars_of(path);
    if cs.len() > 0 && cs[0] == '/' {
        return true;
    }
    let parts = crate::text::split_chars(&cs, '/');
    let ghost pv = parts@.map_values(|p: Vec<char>| p@);
    let dots = crate::text::chars_of("..");
    proof {
        reveal_strlit("..");
    }
    let mut i: usize = 0;
    while i < parts.len()
        invariant
            i <= parts@.len(),
            pv == parts@.map_values(|p: Vec<char>| p@),
            pv == split_on(path@, '/'),
            dots@ == ".."@,
            forall|j: int| 0 <= j < i ==> pv[j] != ".."@,
        decreases parts.len() - i,
    {
        if crate::text::chars_eq(&parts[i], &dots) {
            proof {
                assert(pv[i as int] == ".."@);
            }
            return true;
        }
        i += 1;
    }
    false
}

/// A path that leaves the project is refused, whatever the operation and
/// content: absolute paths and paths through `..`.
pub proof fn law_escaping_paths_refused(op: Seq<char>, path: Seq<char>, content: Option<Seq<char>>)
    ensures
        path_escapes(path) ==> fs_request_spec(op, path, content) == Err::<
            (Seq<char>, Seq<char>, Option<Seq<char>>),
            (ErrorKind, Seq<char>),
        >(escape_error()),
        (path.len() > 0 && path[0] == '/') ==> path_escapes(path),
        split_on(path, '/').contains(".."@) ==> path_escapes(path),
{
}

pub open spec fn escape_error() -> (ErrorKind, Seq<char>) {
    (ErrorKind::Config, "Path must be relative and within the project directory."@)
}

/// The request a `file_system` call stands for, or why it is refused.
pub open spec fn fs_request_spec(op: Seq<char>, path: Seq<char>, content: Option<Seq<char>>) -> Result<
    (Seq<char>, Seq<char>, Option<Seq<char>>),
    (ErrorKind, Seq<char>),
> {
    if path_escapes(path) {
        Err(escape_error())
    } else if op == "read"@ {
        Ok(("read"@, path, None))
    } else if op == "write"@ {
        match content {
            Some(c) => Ok(("write"@, path, Some(c))),
            None => Err((ErrorKind::Config, "Content is required for write operation"@)),
        }
    } else if op == "list"@ {
        Ok(("list"@, path, None))
    } else {
        Err((ErrorKind::Config, "Unknown file system operation: "@ + op))
    }
}

/// An operation, its path and its content, as a request says them.
pub open spec fn fs_request_view(r: FsRequest) -> (Seq<char>, Seq<char>, Option<Seq<char>>) {
    match r {
        FsRequest::Read { path } => ("read"@, path@, None),
        FsRequest::Write { path, content } => ("write"@, path@, Some(content@)),
        FsRequest::List { path } => ("list"@, path@, None),
    }
}

impl FileSystemTool {
    /// The request a call stands for: paths that leave the project are
    /// refused, `write` needs content, and only `read`, `write` and `list`
    /// are known.
    pub fn request(&self, args: FileSystemArgs) -> (r: Result<FsRequest, Error>)
        ensures
            match r {
                Ok(q) => fs_request_spec(
                    args.operation@,
                    args.path@,
                    crate::doc_retriever::note_view(args.content),
                ) == Ok::<_, (ErrorKind, Seq<char>)>(fs_request_view(q)),
                Err(e) => fs_request_spec(
                    args.operation@,
                    args.path@,
                    crate::doc_retriever::note_view(args.content),
                ) == Err::<(Seq<char>, Seq<char>, Option<Seq<char>>), _>(e@),
            },
    {
        if escapes_project(args.path.as_str()) {
            return Err(
                Error::Config(
                    crate::text::owned("Path must be relative and within the project directory."),
                ),
            );
        }
        if crate::text::str_eq(args.operation.as_str(), "read") {
            Ok(FsRequest::Read { path: args.path })
        } else if crate::text::str_eq(args.operation.as_str(), "write") {
            match args.content {
                Some(c) => Ok(FsRequest::Write { path: args.path, content: c }),
                None => Err(Error::Config(crate::text::owned("Content is required for write operation"))),
            }
        } else if crate::text::str_eq(args.operation.as_str(), "list") {
            Ok(FsRequest::List { path: args.path })
        } else {
            Err(Error::Config(crate::text::cat("Unknown file system operation: ", args.operation.as_str())))
        }
    }

    /// The answer to a read: the file's content.
    pub fn read_result(&self, content: String) -> (v: JsonValue)
        ensures
            v@ == JsonView::Object(
                seq![("content"@, JsonView::Str(content@)), ("success"@, JsonView::Bool(true))],
            ),
    {
        let mut e: Vec<(String, JsonValue)> = Vec::new();
        e.push((crate::text::owned("content"), JsonValue::String(content)));
        e.push((crate::text::owned("success"), JsonValue::Bool(true)));
        let v = json_object(e);
        proof {
            assert(v@->Object_0 =~= seq![("content"@, JsonView::Str(content@)), ("success"@, JsonView::Bool(true))]);
        }
        v
    }

    /// The answer to a write: the path written.
    pub fn write_result(&self, path: String) -> (v: JsonValue)
        ensures
            v@ == JsonView::Object(
                seq![("path"@, JsonView::Str(path@)), ("success"@, JsonView::Bool(true))],
            ),
    {
        let mut e: Vec<(String, JsonValue)> = Vec::new();
        e.push((crate::text::owned("path"), JsonValue::String(path)));
        e.push((crate::text::owned("success"), JsonValue::Bool(true)));
        let v = json_object(e);
        proof {
            assert(v@->Object_0 =~= seq![("path"@, JsonView::Str(path@)), ("success"@, JsonView::Bool(true))]);
        }
        v
    }

    /// The answer to a listing: the entries' paths, in the order read.
    pub fn list_result(&self, files: Vec<String>) -> (v: JsonValue)
        ensures
            v@ == JsonView::Object(
                seq![("files"@, str_array(views(files@))), ("success"@, JsonView::Bool(true))],
            ),
    {
        let ghost fv = views(files@);
        let mut e: Vec<(String, JsonValue)> = Vec::new();
        e.push((crate::text::owned("files"), json_str_array(files)));
        e.push((crate::text::owned("success"), JsonValue::Bool(true)));
        let v = json_object(e);
        proof {
            assert(v@->Object_0 =~= seq![("files"@, str_array(fv)), ("success"@, JsonView::Bool(true))]);
        }
        v
    }
}

// ---------------------------------------------------------------------------
// The documentation tool
// ---------------------------------------------------------------------------

/// The arguments of a `doc_retriever` call.
#[derive(Debug)]
pub struct DocRetrieverArgs {
    pub crate_name: String,
    pub path: Option<String>,
}

impl DocRetrieverTool {
    /// The answer to a call, from the documentation of the named crate: the
    /// item's when a path is given, else the crate's.
    pub fn answer(&self, krate: &DocCrate, args: &DocRetrieverArgs) -> (r: Result<JsonValue, Error>)
        ensures
            result_view(r) == match args.path {
                Some(p) => item_docs_spec(*krate, args.crate_name@, p@),
                None => crate_docs_spec(*krate, args.crate_name@, None),
            },
    {
        match &args.path {
            Some(p) => get_item_docs(krate, args.crate_name.as_str(), p.as_str()),
            None => get_crate_docs(krate, args.crate_name.as_str()),
        }
    }
}

} // verus!

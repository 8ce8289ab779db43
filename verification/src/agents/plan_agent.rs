//! The planning agent: turns a plan prompt into an implementation plan. It
//! may first look up current libraries with Google Search, then asks the
//! model for a list of task descriptions, then for the details (file scope
//! and validation steps) of each task in turn.
use crate::agents::state::{FileScope, ImplementationPlan, PlanPrompt, Task, TaskStatus, ValidationStep};
use crate::error::{Error, ErrorKind};
use crate::gemini_types::{Content, ContentPart, ContentView, GenerateContentResponse, Role, contents_view};
use crate::json::{JsonValue, JsonView, json_array, json_object, json_str_array, str_array};
use crate::orchestrator::text_content;
use crate::text::{cat, cat3, join, views};
use vstd::prelude::*;

verus! {

// ---------------------------------------------------------------------------
// Prompts
// ---------------------------------------------------------------------------

pub open spec fn description_system_prompt() -> Seq<char> {
    "You are an expert software architect. Your role is to analyze a user's objective and the provided project context, and break it down into a high-level list of task descriptions. Focus on the logical steps and do not include implementation details like file paths or validation commands yet. You must call the `create_task_descriptions` function with the generated list of descriptions."@
}

pub fn create_description_generation_system_prompt() -> (s: String)
    ensures
        s@ == description_system_prompt(),
{
    crate::text::owned(
        "You are an expert software architect. Your role is to analyze a user's objective and the provided project context, and break it down into a high-level list of task descriptions. Focus on the logical steps and do not include implementation details like file paths or validation commands yet. You must call the `create_task_descriptions` function with the generated list of descriptions.",
    )
}

pub open spec fn detailing_system_prompt() -> Seq<char> {
    "You are an expert software architect. Your role is to detail a single task for an implementation plan. Given the overall objective, project context, and a specific task description, you must determine which files are relevant (`file_scoping`) and what commands are needed to validate the task (`validation_steps`). You must call the `create_task_details` function with this information."@
}

pub fn create_task_detailing_system_prompt() -> (s: String)
    ensures
        s@ == detailing_system_prompt(),
{
    crate::text::owned(
        "You are an expert software architect. Your role is to detail a single task for an implementation plan. Given the overall objective, project context, and a specific task description, you must determine which files are relevant (`file_scoping`) and what commands are needed to validate the task (`validation_steps`). You must call the `create_task_details` function with this information.",
    )
}

/// The files in scope, one per line, or a note that there are none.
pub open spec fn file_list(files: Seq<Seq<char>>) -> Seq<char> {
    if join(files, "\n"@).len() == 0 {
        "No files in scope."@
    } else {
        join(files, "\n"@)
    }
}

fn file_list_text(files: &Vec<String>) -> (s: String)
    ensures
        s@ == file_list(views(files@)),
{
    let j = crate::text::join_strings(files, "\n");
    let cs = crate::text::chars_of(j.as_str());
    if cs.len() == 0 {
        crate::text::owned("No files in scope.")
    } else {
        j
    }
}

pub open spec fn description_user_prompt(prompt: PlanPrompt, files: Seq<Seq<char>>) -> Seq<char> {
    "\nPlease create a list of high-level task descriptions for the following objective:\n\n**Objective:**\n"@
        + prompt.objective@ + "\n\n**Project Context (Scoped Files):**\n```\n"@ + file_list(files)
        + "\n```\n\n**Coding Conventions:**\n"@ + prompt.coding_conventions@
        + "\n\nGenerate a list of task descriptions by calling the `create_task_descriptions` function.\n"@
}

pub fn create_description_generation_user_prompt(prompt: &PlanPrompt, files: &Vec<String>) -> (s:
    String)
    ensures
        s@ == description_user_prompt(*prompt, views(files@)),
{
    let list = file_list_text(files);
    let mut s = cat3(
        "\nPlease create a list of high-level task descriptions for the following objective:\n\n**Objective:**\n",
        prompt.objective.as_str(),
        "\n\n**Project Context (Scoped Files):**\n```\n",
    );
    s.append(list.as_str());
    s.append("\n```\n\n**Coding Conventions:**\n");
    s.append(prompt.coding_conventions.as_str());
    s.append(
        "\n\nGenerate a list of task descriptions by calling the `create_task_descriptions` function.\n",
    );
    s
}

/// The available validation commands, one per line as `` - `cmd` ``.
pub open spec fn command_lines(steps: Seq<ValidationStep>) -> Seq<Seq<char>> {
    steps.map_values(|v: ValidationStep| "- `"@ + v.command@ + "`"@)
}

pub open spec fn detailing_user_prompt(prompt: PlanPrompt, files: Seq<Seq<char>>, task: Seq<char>) -> Seq<
    char,
> {
    "\n**Overall Objective:**\n"@ + prompt.objective@
        + "\n\n**Project Context (Scoped Files):**\n```\n"@ + file_list(files)
        + "\n```\n\n**Coding Conventions:**\n"@ + prompt.coding_conventions@
        + "\n\n**Task to Detail:**\n"@ + task
        + "\n\nPlease provide the file scoping and validation steps for this specific task by calling the `create_task_details` function. The validation steps must be a subset of the following available commands:\n"@
        + join(command_lines(prompt.validation_commands@), "\n"@) + "\n"@
}

pub fn create_task_detailing_user_prompt(prompt: &PlanPrompt, files: &Vec<String>, task_description: &str) -> (s:
    String)
    ensures
        s@ == detailing_user_prompt(*prompt, views(files@), task_description@),
{
    let list = file_list_text(files);
    let mut lines: Vec<String> = Vec::new();
    let mut i: usize = 0;
    while i < prompt.validation_commands.len()
        invariant
            i <= prompt.validation_commands@.len(),
            views(lines@) == command_lines(prompt.validation_commands@).take(i as int),
        decreases prompt.validation_commands.len() - i,
    {
        let line = cat3("- `", prompt.validation_commands[i].command.as_str(), "`");
        let ghost before = lines@;
        lines.push(line);
        proof {
            assert(views(lines@) =~= views(before).push(line@));
            assert(command_lines(prompt.validation_commands@).take(i + 1) =~= command_lines(
                prompt.validation_commands@,
            ).take(i as int).push(line@));
        }
        i += 1;
    }
    proof {
        assert(command_lines(prompt.validation_commands@).take(
            prompt.validation_commands@.len() as int,
        ) =~= command_lines(prompt.validation_commands@));
    }
    let commands = crate::text::join_strings(&lines, "\n");
    let mut s = cat3(
        "\n**Overall Objective:**\n",
        prompt.objective.as_str(),
        "\n\n**Project Context (Scoped Files):**\n```\n",
    );
    s.append(list.as_str());
    s.append("\n```\n\n**Coding Conventions:**\n");
    s.append(prompt.coding_conventions.as_str());
    s.append("\n\n**Task to Detail:**\n");
    s.append(task_description);
    s.append(
        "\n\nPlease provide the file scoping and validation steps for this specific task by calling the `create_task_details` function. The validation steps must be a subset of the following available commands:\n",
    );
    s.append(commands.as_str());
    s.append("\n");
    s
}

pub open spec fn research_prompt(prompt: PlanPrompt) -> Seq<char> {
    "Based on the following objective, please use Google Search to find the best and most up-to-date Rust crates (libraries) to accomplish the task. Provide their names and latest versions.\n\nObjective: "@
        + prompt.objective@
        + "\n\nFocus on libraries that are well-maintained, popular, and fit the requirements. List them clearly."@
}

pub fn create_dependency_research_prompt(prompt: &PlanPrompt) -> (s: String)
    ensures
        s@ == research_prompt(*prompt),
{
    cat3(
        "Based on the following objective, please use Google Search to find the best and most up-to-date Rust crates (libraries) to accomplish the task. Provide their names and latest versions.\n\nObjective: ",
        prompt.objective.as_str(),
        "\n\nFocus on libraries that are well-maintained, popular, and fit the requirements. List them clearly.",
    )
}

// ---------------------------------------------------------------------------
// Tools
// ---------------------------------------------------------------------------

fn str_value(s: &str) -> (v: JsonValue)
    ensures
        v@ == JsonView::Str(s@),
{
    JsonValue::String(crate::text::owned(s))
}

fn entry(k: &str, v: JsonValue) -> (e: (String, JsonValue))
    ensures
        e.0@ == k@,
        e.1@ == v@,
{
    (crate::text::owned(k), v)
}

/// `{"type": t}`.
pub open spec fn type_only(t: Seq<char>) -> JsonView {
    JsonView::Object(seq![("type"@, JsonView::Str(t))])
}

fn type_only_value(t: &str) -> (v: JsonValue)
    ensures
        v@ == type_only(t@),
{
    let mut e: Vec<(String, JsonValue)> = Vec::new();
    e.push(entry("type", str_value(t)));
    let v = json_object(e);
    proof {
        assert(v@->Object_0 =~= type_only(t@)->Object_0);
    }
    v
}

/// An array schema: `{"description": d, "items": items, "type": "ARRAY"}`.
pub open spec fn array_schema(d: Seq<char>, items: JsonView) -> JsonView {
    JsonView::Object(
        seq![
            ("description"@, JsonView::Str(d)),
            ("items"@, items),
            ("type"@, JsonView::Str("ARRAY"@)),
        ],
    )
}

fn array_schema_value(d: &str, items: JsonValue) -> (v: JsonValue)
    ensures
        v@ == array_schema(d@, items@),
{
    let ghost iv = items@;
    let mut e: Vec<(String, JsonValue)> = Vec::new();
    e.push(entry("description", str_value(d)));
    e.push(entry("items", items));
    e.push(entry("type", str_value("ARRAY")));
    let v = json_object(e);
    proof {
        assert(v@->Object_0 =~= array_schema(d@, iv)->Object_0);
    }
    v
}

/// A declaration: `{"description", "name", "parameters"}`.
pub open spec fn declaration_json(name: Seq<char>, d: Seq<char>, parameters: JsonView) -> JsonView {
    JsonView::Object(
        seq![
            ("description"@, JsonView::Str(d)),
            ("name"@, JsonView::Str(name)),
            ("parameters"@, parameters),
        ],
    )
}

fn declaration_value(name: &str, d: &str, parameters: JsonValue) -> (v: JsonValue)
    ensures
        v@ == declaration_json(name@, d@, parameters@),
{
    let ghost pv = parameters@;
    let mut e: Vec<(String, JsonValue)> = Vec::new();
    e.push(entry("description", str_value(d)));
    e.push(entry("name", str_value(name)));
    e.push(entry("parameters", parameters));
    let v = json_object(e);
    proof {
        assert(v@->Object_0 =~= declaration_json(name@, d@, pv)->Object_0);
    }
    v
}

/// An object schema with these properties and required names.
pub open spec fn object_schema(props: Seq<(Seq<char>, JsonView)>, required: Seq<Seq<char>>) -> JsonView {
    JsonView::Object(
        seq![
            ("properties"@, JsonView::Object(props)),
            ("required"@, str_array(required)),
            ("type"@, JsonView::Str("OBJECT"@)),
        ],
    )
}

fn object_schema_value(props: Vec<(String, JsonValue)>, required: Vec<String>) -> (v: JsonValue)
    ensures
        v@ == object_schema(props@.map_values(|e: (String, JsonValue)| (e.0@, e.1@)), views(required@)),
{
    let ghost pv = props@.map_values(|e: (String, JsonValue)| (e.0@, e.1@));
    let ghost rv = views(required@);
    let mut e: Vec<(String, JsonValue)> = Vec::new();
    e.push(entry("properties", json_object(props)));
    e.push(entry("required", json_str_array(required)));
    e.push(entry("type", str_value("OBJECT")));
    let v = json_object(e);
    proof {
        assert(v@->Object_0 =~= object_schema(pv, rv)->Object_0);
    }
    v
}

pub open spec fn descriptions_tool() -> JsonView {
    declaration_json(
        "create_task_descriptions"@,
        "Creates a list of high-level task descriptions for an implementation plan."@,
        object_schema(
            seq![("tasks"@, array_schema("The list of task descriptions."@, type_only("STRING"@)))],
            seq!["tasks"@],
        ),
    )
}

pub fn create_task_descriptions_tool() -> (v: JsonValue)
    ensures
        v@ == descriptions_tool(),
{
    let mut props: Vec<(String, JsonValue)> = Vec::new();
    props.push(entry("tasks", array_schema_value("The list of task descriptions.", type_only_value("STRING"))));
    let ghost pv = props@.map_values(|e: (String, JsonValue)| (e.0@, e.1@));
    let mut req: Vec<String> = Vec::new();
    req.push(crate::text::owned("tasks"));
    let ghost rv = views(req@);
    let params = object_schema_value(props, req);
    proof {
        assert(pv =~= seq![("tasks"@, array_schema("The list of task descriptions."@, type_only("STRING"@)))]);
        assert(rv =~= seq!["tasks"@]);
    }
    declaration_value(
        "create_task_descriptions",
        "Creates a list of high-level task descriptions for an implementation plan.",
        params,
    )
}

/// `{"description": d, "type": t}`.
pub open spec fn typed_field(d: Seq<char>, t: Seq<char>) -> JsonView {
    JsonView::Object(seq![("description"@, JsonView::Str(d)), ("type"@, JsonView::Str(t))])
}

fn typed_field_value(d: &str, t: &str) -> (v: JsonValue)
    ensures
        v@ == typed_field(d@, t@),
{
    let mut e: Vec<(String, JsonValue)> = Vec::new();
    e.push(entry("description", str_value(d)));
    e.push(entry("type", str_value(t)));
    let v = json_object(e);
    proof {
        assert(v@->Object_0 =~= typed_field(d@, t@)->Object_0);
    }
    v
}

pub open spec fn file_scoping_schema() -> JsonView {
    JsonView::Object(
        seq![
            ("description"@, JsonView::Str("The files relevant to this "@ + "task."@)),
            (
                "properties"@,
                JsonView::Object(
                    seq![
                        (
                            "exclude"@,
                            array_schema("Glob patterns for files to exclude."@, type_only("STRING"@)),
                        ),
                        (
                            "include"@,
                            array_schema("Glob patterns for files to include."@, type_only("STRING"@)),
                        ),
                    ],
                ),
            ),
            ("required"@, str_array(seq!["include"@])),
            ("type"@, JsonView::Str("OBJECT"@)),
        ],
    )
}

pub open spec fn validation_steps_schema() -> JsonView {
    array_schema(
        "Commands to validate the task's completion."@,
        object_schema(
            seq![
                ("command"@, typed_field("The validation command to run."@, "STRING"@)),
                (
                    "expected_exit_code"@,
                    typed_field("The expected exit code for the command."@, "NUMBER"@),
                ),
            ],
            seq!["command"@, "expected_exit_code"@],
        ),
    )
}

pub open spec fn details_tool() -> JsonView {
    declaration_json(
        "create_task_details"@,
        "Creates the details (file scope, validation) for a single task."@,
        object_schema(
            seq![
                ("file_scoping"@, file_scoping_schema()),
                ("validation_steps"@, validation_steps_schema()),
            ],
            seq!["file_scoping"@, "validation_steps"@],
        ),
    )
}

fn file_scoping_schema_value() -> (v: JsonValue)
    ensures
        v@ == file_scoping_schema(),
{
    let mut props: Vec<(String, JsonValue)> = Vec::new();
    props.push(entry("exclude", array_schema_value("Glob patterns for files to exclude.", type_only_value("STRING"))));
    props.push(entry("include", array_schema_value("Glob patterns for files to include.", type_only_value("STRING"))));
    let ghost pv = props@.map_values(|e: (String, JsonValue)| (e.0@, e.1@));
    let pj = json_object(props);
    let mut req: Vec<String> = Vec::new();
    req.push(crate::text::owned("include"));
    let ghost rv = views(req@);
    let mut e: Vec<(String, JsonValue)> = Vec::new();
    let d = cat("The files relevant to this ", "task.");
    e.push(entry("description", JsonValue::String(d)));
    e.push(entry("properties", pj));
    e.push(entry("required", json_str_array(req)));
    e.push(entry("type", str_value("OBJECT")));
    let v = json_object(e);
    proof {
        assert(rv =~= seq!["include"@]);
        assert(pv =~= file_scoping_schema()->Object_0[1].1->Object_0);
        assert(v@->Object_0 =~= file_scoping_schema()->Object_0);
    }
    v
}

fn validation_steps_schema_value() -> (v: JsonValue)
    ensures
        v@ == validation_steps_schema(),
{
    let mut props: Vec<(String, JsonValue)> = Vec::new();
    props.push(entry("command", typed_field_value("The validation command to run.", "STRING")));
    props.push(entry("expected_exit_code", typed_field_value("The expected exit code for the command.", "NUMBER")));
    let ghost pv = props@.map_values(|e: (String, JsonValue)| (e.0@, e.1@));
    let mut req: Vec<String> = Vec::new();
    req.push(crate::text::owned("command"));
    req.push(crate::text::owned("expected_exit_code"));
    let ghost rv = views(req@);
    let item = object_schema_value(props, req);
    proof {
        assert(pv =~= seq![
            ("command"@, typed_field("The validation command to run."@, "STRING"@)),
            ("expected_exit_code"@, typed_field("The expected exit code for the command."@, "NUMBER"@)),
        ]);
        assert(rv =~= seq!["command"@, "expected_exit_code"@]);
    }
    array_schema_value("Commands to validate the task's completion.", item)
}

pub fn create_task_details_tool() -> (v: JsonValue)
    ensures
        v@ == details_tool(),
{
    let mut props: Vec<(String, JsonValue)> = Vec::new();
    props.push(entry("file_scoping", file_scoping_schema_value()));
    props.push(entry("validation_steps", validation_steps_schema_value()));
    let ghost pv = props@.map_values(|e: (String, JsonValue)| (e.0@, e.1@));
    let mut req: Vec<String> = Vec::new();
    req.push(crate::text::owned("file_scoping"));
    req.push(crate::text::owned("validation_steps"));
    let ghost rv = views(req@);
    let params = object_schema_value(props, req);
    proof {
        assert(pv =~= seq![("file_scoping"@, file_scoping_schema()), ("validation_steps"@, validation_steps_schema())]);
        assert(rv =~= seq!["file_scoping"@, "validation_steps"@]);
    }
    declaration_value(
        "create_task_details",
        "Creates the details (file scope, validation) for a single task.",
        params,
    )
}

/// The tool configuration offering one declaration: `[{"functionDeclarations": [d]}]`.
pub open spec fn tool_config(d: JsonView) -> JsonView {
    JsonView::Array(seq![JsonView::Object(seq![("functionDeclarations"@, JsonView::Array(seq![d]))])])
}

pub fn tool_config_value(d: JsonValue) -> (v: JsonValue)
    ensures
        v@ == tool_config(d@),
{
    let ghost dv = d@;
    let mut ds: Vec<JsonValue> = Vec::new();
    ds.push(d);
    let arr = json_array(ds);
    let mut e: Vec<(String, JsonValue)> = Vec::new();
    e.push(entry("functionDeclarations", arr));
    let o = json_object(e);
    let mut outer: Vec<JsonValue> = Vec::new();
    outer.push(o);
    let v = json_array(outer);
    proof {
        assert(arr@->Array_0 =~= seq![dv]);
        assert(o@->Object_0 =~= seq![("functionDeclarations"@, JsonView::Array(seq![dv]))]);
        assert(v@->Array_0 =~= tool_config(dv)->Array_0);
    }
    v
}

/// The Google Search tool, with dynamic retrieval at threshold 0.5:
/// `[{"googleSearchRetrieval": {"dynamicRetrievalConfig": {"dynamicThreshold": 0.5, "mode": "MODE_DYNAMIC"}}}]`.
pub open spec fn search_tool() -> JsonView {
    JsonView::Array(
        seq![
            JsonView::Object(
                seq![
                    (
                        "googleSearchRetrieval"@,
                        JsonView::Object(
                            seq![
                                (
                                    "dynamicRetrievalConfig"@,
                                    JsonView::Object(
                                        seq![
                                            (
                                                "dynamicThreshold"@,
                                                JsonView::Number(crate::json::NumberView::Float("0.5"@)),
                                            ),
                                            ("mode"@, JsonView::Str("MODE_DYNAMIC"@)),
                                        ],
                                    ),
                                ),
                            ],
                        ),
                    ),
                ],
            ),
        ],
    )
}

pub fn create_google_search_tool() -> (v: JsonValue)
    ensures
        v@ == search_tool(),
{
    let mut c: Vec<(String, JsonValue)> = Vec::new();
    c.push(entry("dynamicThreshold", JsonValue::Number(crate::json::JsonNumber::Float(crate::text::owned("0.5")))));
    c.push(entry("mode", str_value("MODE_DYNAMIC")));
    let ghost cv = c@.map_values(|e: (String, JsonValue)| (e.0@, e.1@));
    let cj = json_object(c);
    let mut r: Vec<(String, JsonValue)> = Vec::new();
    r.push(entry("dynamicRetrievalConfig", cj));
    let ghost rv = r@.map_values(|e: (String, JsonValue)| (e.0@, e.1@));
    let rj = json_object(r);
    let mut g: Vec<(String, JsonValue)> = Vec::new();
    g.push(entry("googleSearchRetrieval", rj));
    let ghost gv = g@.map_values(|e: (String, JsonValue)| (e.0@, e.1@));
    let gj = json_object(g);
    let ghost gjv = gj@;
    let mut outer: Vec<JsonValue> = Vec::new();
    outer.push(gj);
    let v = json_array(outer);
    proof {
        let inner = search_tool()->Array_0[0];
        assert(cv =~= inner->Object_0[0].1->Object_0[0].1->Object_0);
        assert(rv =~= inner->Object_0[0].1->Object_0);
        assert(gv =~= inner->Object_0);
        assert(v@->Array_0 =~= search_tool()->Array_0);
    }
    v
}

// ---------------------------------------------------------------------------
// Reading the model's answers
// ---------------------------------------------------------------------------

/// The arguments of the named function call in the first part of the last
/// candidate; `what` names the step in the errors.
pub open spec fn call_arguments(
    r: GenerateContentResponse,
    name: Seq<char>,
    what: Seq<char>,
) -> Result<JsonView, (ErrorKind, Seq<char>)> {
    match crate::gemini_types::last_candidate(r) {
        None => Err((ErrorKind::Config, "No candidates in "@ + what + " response"@)),
        Some(c) => if c.parts.len() == 0 {
            Err((ErrorKind::Config, "No parts in candidate for "@ + what + " response"@))
        } else {
            match c.parts[0].function_call {
                Some(fc) => if fc.0 == name {
                    Ok(fc.1)
                } else {
                    Err((ErrorKind::Config, "Expected a function call to `"@ + name + "`"@))
                },
                None => Err((ErrorKind::Config, "Expected a function call to `"@ + name + "`"@)),
            }
        },
    }
}

fn call_arguments_of(r: &GenerateContentResponse, name: &str, what: &str) -> (out: Result<JsonValue, Error>)
    ensures
        match out {
            Ok(v) => call_arguments(*r, name@, what@) == Ok::<_, (ErrorKind, Seq<char>)>(v@),
            Err(e) => call_arguments(*r, name@, what@) == Err::<JsonView, _>(e@),
        },
{
    let c = match r.last_candidate() {
        Some(c) => c,
        None => {
            return Err(Error::Config(cat3("No candidates in ", what, " response")));
        },
    };
    if c.parts.len() == 0 {
        return Err(Error::Config(cat3("No parts in candidate for ", what, " response")));
    }
    match &c.parts[0].function_call {
        Some(fc) => {
            if crate::text::str_eq(fc.name.as_str(), name) {
                Ok(fc.arguments.copy())
            } else {
                Err(Error::Config(cat3("Expected a function call to `", name, "`")))
            }
        },
        None => Err(Error::Config(cat3("Expected a function call to `", name, "`"))),
    }
}

/// The arguments of the `create_task_descriptions` call.
pub fn process_description_response(r: &GenerateContentResponse) -> (out: Result<JsonValue, Error>)
    ensures
        match out {
            Ok(v) => call_arguments(*r, "create_task_descriptions"@, "description"@) == Ok::<
                _,
                (ErrorKind, Seq<char>),
            >(v@),
            Err(e) => call_arguments(*r, "create_task_descriptions"@, "description"@) == Err::<
                JsonView,
                _,
            >(e@),
        },
{
    call_arguments_of(r, "create_task_descriptions", "description")
}

/// The arguments of the `create_task_details` call.
pub fn process_detailing_response(r: &GenerateContentResponse) -> (out: Result<JsonValue, Error>)
    ensures
        match out {
            Ok(v) => call_arguments(*r, "create_task_details"@, "detailing"@) == Ok::<
                _,
                (ErrorKind, Seq<char>),
            >(v@),
            Err(e) => call_arguments(*r, "create_task_details"@, "detailing"@) == Err::<JsonView, _>(
                e@,
            ),
        },
{
    call_arguments_of(r, "create_task_details", "detailing")
}

/// The text of the first part of the first candidate.
pub open spec fn search_text(r: GenerateContentResponse) -> Result<Seq<char>, (ErrorKind, Seq<char>)> {
    match crate::gemini_types::first_candidate(r) {
        None => Err((ErrorKind::Config, "No candidates in search response"@)),
        Some(c) => if c.parts.len() > 0 && c.parts[0].text is Some {
            Ok(c.parts[0].text->0)
        } else {
            Err((ErrorKind::Config, "Expected a text part in the search response"@))
        },
    }
}

pub fn process_search_response(r: &GenerateContentResponse) -> (out: Result<String, Error>)
    ensures
        match out {
            Ok(t) => search_text(*r) == Ok::<_, (ErrorKind, Seq<char>)>(t@),
            Err(e) => search_text(*r) == Err::<Seq<char>, _>(e@),
        },
{
    match r.first_candidate() {
        None => Err(Error::Config(crate::text::owned("No candidates in search response"))),
        Some(c) => {
            if c.parts.len() > 0 {
                match &c.parts[0].text {
                    Some(t) => {
                        return Ok(t.clone());
                    },
                    None => {},
                }
            }
            Err(Error::Config(crate::text::owned("Expected a text part in the search response")))
        },
    }
}

// ---------------------------------------------------------------------------
// Building a plan: a state machine
// ---------------------------------------------------------------------------

/// The planning agent.
#[derive(Debug, Clone, Copy)]
pub struct PlanAgent {}

impl PlanAgent {
    pub fn new() -> (a: PlanAgent) {
        PlanAgent {}
    }
}

/// What building a plan waits for.
#[derive(Debug, Clone, Copy, PartialEq, Eq, Structural)]
pub enum PlanPhase {
    Start,
    AwaitFiles,
    AwaitSearch,
    AwaitDescriptions,
    AwaitDescriptionsParsed,
    AwaitDetails,
    AwaitDetailsParsed,
    Done,
}

/// The state of building a plan.
#[derive(Debug)]
pub struct PlanRun {
    pub phase: PlanPhase,
    pub prompt: PlanPrompt,
    /// The files in the prompt's scope.
    pub files: Vec<String>,
    /// The prompt asking for task descriptions.
    pub description_prompt: String,
    pub descriptions: Vec<String>,
    /// The tasks detailed so far.
    pub tasks: Vec<Task>,
}

/// The next piece of outside work.
#[derive(Debug)]
pub enum PlanAction {
    /// Find the files in this scope.
    FindFiles { scope: FileScope },
    /// Ask the model, with this tool configuration.
    AskModel { contents: Vec<Content>, tools: JsonValue },
    /// Read the task descriptions (`{"tasks": [...]}`) from these arguments.
    ParseDescriptions { arguments: JsonValue },
    /// Read a task's file scope and validation steps from these arguments.
    ParseDetails { arguments: JsonValue },
    /// The plan is built (`plan_result` gives it), or building it failed.
    Finish(Result<(), Error>),
}

/// The outcome of the last piece of outside work.
#[derive(Debug)]
pub enum PlanEvent {
    Begin,
    FilesFound(Result<Vec<String>, Error>),
    Reply(Result<GenerateContentResponse, Error>),
    DescriptionsParsed(Result<Vec<String>, Error>),
    DetailsParsed(Result<(FileScope, Vec<ValidationStep>), Error>),
}

pub open spec fn plan_event_fits(phase: PlanPhase, ev: PlanEvent) -> bool {
    match phase {
        PlanPhase::Start => ev is Begin,
        PlanPhase::AwaitFiles => ev is FilesFound,
        PlanPhase::AwaitSearch => ev is Reply,
        PlanPhase::AwaitDescriptions => ev is Reply,
        PlanPhase::AwaitDescriptionsParsed => ev is DescriptionsParsed,
        PlanPhase::AwaitDetails => ev is Reply,
        PlanPhase::AwaitDetailsParsed => ev is DetailsParsed,
        PlanPhase::Done => false,
    }
}

/// The state's consistency: a task is being detailed while waiting for its
/// details.
pub open spec fn plan_wf(st: PlanRun) -> bool {
    (st.phase == PlanPhase::AwaitDetails || st.phase == PlanPhase::AwaitDetailsParsed) ==> st.tasks@.len()
        < st.descriptions@.len()
}

/// What a planning run keeps: the tasks detailed so far are the first
/// descriptions, in order, each a pending task with no attempts and no
/// result.
pub open spec fn tasks_follow_descriptions(st: PlanRun) -> bool {
    &&& st.tasks@.len() <= st.descriptions@.len()
    &&& forall|j: int|
        0 <= j < st.tasks@.len() ==> {
            &&& (#[trigger] st.tasks@[j]).description@ == st.descriptions@[j]@
            &&& st.tasks@[j].status == TaskStatus::Pending
            &&& st.tasks@[j].attempts == 0
            &&& st.tasks@[j].result is None
        }
}

pub fn plan_start(prompt: PlanPrompt) -> (s: PlanRun)
    ensures
        s.phase == PlanPhase::Start,
        s.prompt == prompt,
        s.tasks@.len() == 0,
        tasks_follow_descriptions(s),
{
    PlanRun {
        phase: PlanPhase::Start,
        prompt,
        files: Vec::new(),
        description_prompt: String::new(),
        descriptions: Vec::new(),
        tasks: Vec::new(),
    }
}

/// A conversation of a system prompt, the model's acknowledgement and the
/// request.
pub open spec fn briefing(system: Seq<char>, ack: Seq<char>, request: Seq<char>) -> Seq<ContentView> {
    seq![
        text_content(Role::User, system),
        text_content(Role::Model, ack),
        text_content(Role::User, request),
    ]
}

fn briefing_contents(system: String, ack: &str, request: String) -> (c: Vec<Content>)
    ensures
        contents_view(c@) == briefing(system@, ack@, request@),
{
    let ghost sv = system@;
    let ghost rv = request@;
    let mut c: Vec<Content> = Vec::new();
    c.push(Content::single(Role::User, ContentPart::new_text(system)));
    c.push(Content::single(Role::Model, ContentPart::new_text(crate::text::owned(ack))));
    c.push(Content::single(Role::User, ContentPart::new_text(request)));
    proof {
        assert(contents_view(c@) =~= briefing(sv, ack@, rv));
    }
    c
}

pub open spec fn descriptions_ack() -> Seq<char> {
    "Understood. I am ready to generate task descriptions."@
}

pub open spec fn details_ack() -> Seq<char> {
    "Understood. I am ready to detail the task."@
}

fn ask_descriptions(st: PlanRun) -> (r: (PlanRun, PlanAction))
    ensures
        r.0.phase == PlanPhase::AwaitDescriptions,
        r.0.prompt == st.prompt,
        r.0.tasks == st.tasks,
        r.0.descriptions == st.descriptions,
        r.0.description_prompt == st.description_prompt,
        views(r.0.files@) == views(st.files@),
        r.1 matches PlanAction::AskModel { contents, tools } && contents_view(contents@) == briefing(
            description_system_prompt(),
            descriptions_ack(),
            st.description_prompt@,
        ) && tools@ == tool_config(descriptions_tool()),
{
    let mut st = st;
    let contents = briefing_contents(
        create_description_generation_system_prompt(),
        "Understood. I am ready to generate task descriptions.",
        st.description_prompt.clone(),
    );
    let tools = tool_config_value(create_task_descriptions_tool());
    st.phase = PlanPhase::AwaitDescriptions;
    (st, PlanAction::AskModel { contents, tools })
}

/// The request after `k` descriptions are detailed: the details of
/// description `k`, or, when all are detailed, the end of the building.
pub open spec fn next_details(
    prompt: PlanPrompt,
    files: Seq<Seq<char>>,
    descriptions: Seq<String>,
    k: int,
    r0: PlanRun,
    r1: PlanAction,
) -> bool {
    &&& k >= descriptions.len() ==> (r0.phase == PlanPhase::Done && r1 matches PlanAction::Finish(
        Ok(()),
    ))
    &&& k < descriptions.len() ==> (r0.phase == PlanPhase::AwaitDetails && (
    r1 matches PlanAction::AskModel { contents, tools } && contents_view(contents@) == briefing(
        detailing_system_prompt(),
        details_ack(),
        detailing_user_prompt(prompt, files, descriptions[k]@),
    ) && tools@ == tool_config(details_tool())))
}

/// Asks for the details of the next description, or finishes when all are
/// detailed.
fn ask_details(st: PlanRun) -> (r: (PlanRun, PlanAction))
    requires
        st.tasks@.len() <= st.descriptions@.len(),
    ensures
        next_details(st.prompt, views(st.files@), st.descriptions@, st.tasks@.len() as int, r.0, r.1),
        plan_wf(r.0),
        r.0.prompt == st.prompt,
        r.0.tasks == st.tasks,
        r.0.descriptions == st.descriptions,
        views(r.0.files@) == views(st.files@),
        st.tasks@.len() == st.descriptions@.len() ==> (r.0.phase == PlanPhase::Done && r.1 matches PlanAction::Finish(
            Ok(()),
        )),
        st.tasks@.len() < st.descriptions@.len() ==> (r.0.phase == PlanPhase::AwaitDetails && (
        r.1 matches PlanAction::AskModel { contents, tools } && contents_view(contents@) == briefing(
            detailing_system_prompt(),
            details_ack(),
            detailing_user_prompt(
                st.prompt,
                views(st.files@),
                st.descriptions@[st.tasks@.len() as int]@,
            ),
        ) && tools@ == tool_config(details_tool()))),
{
    let mut st = st;
    let k = st.tasks.len();
    if k >= st.descriptions.len() {
        st.phase = PlanPhase::Done;
        return (st, PlanAction::Finish(Ok(())));
    }
    let user = create_task_detailing_user_prompt(&st.prompt, &st.files, st.descriptions[k].as_str());
    let contents = briefing_contents(
        create_task_detailing_system_prompt(),
        "Understood. I am ready to detail the task.",
        user,
    );
    let tools = tool_config_value(create_task_details_tool());
    st.phase = PlanPhase::AwaitDetails;
    (st, PlanAction::AskModel { contents, tools })
}

/// One step of building a plan.
///
/// - The files in the prompt's scope are found first. When the prompt asks
///   for it, the model is asked (with Google Search) for current libraries,
///   and its answer is added to the request for task descriptions.
/// - The model is asked for task descriptions, then for the details of
///   each in turn; each detailed description becomes a pending task with no
///   attempts. Any failure ends the building with its error.
pub fn plan_step(st: PlanRun, ev: PlanEvent) -> (r: (PlanRun, PlanAction))
    requires
        plan_event_fits(st.phase, ev),
        plan_wf(st),
        st.tasks@.len() <= st.descriptions@.len(),
    ensures
        plan_wf(r.0),
        r.0.tasks@.len() <= r.0.descriptions@.len(),
        r.0.prompt == st.prompt,
        // Tasks are detailed in the order of the descriptions, and a plan
        // that ends well has one task per description.
        tasks_follow_descriptions(st) ==> tasks_follow_descriptions(r.0),
        (tasks_follow_descriptions(st) && r.1 matches PlanAction::Finish(Ok(()))) ==> r.0.tasks@.len()
            == r.0.descriptions@.len(),
        ev is Begin ==> (r.0.phase == PlanPhase::AwaitFiles && (r.1 matches PlanAction::FindFiles { scope }
            && views(scope.includes@) == views(st.prompt.file_scoping.includes@) && views(
            scope.exclude@,
        ) == views(st.prompt.file_scoping.exclude@))),
        ev matches PlanEvent::FilesFound(Err(e)) ==> (r.1 matches PlanAction::Finish(Err(e2)) && e2@ == e@),
        ev matches PlanEvent::Reply(Err(e)) ==> (r.1 matches PlanAction::Finish(Err(e2)) && e2@ == e@),
        ev matches PlanEvent::DescriptionsParsed(Err(e)) ==> (r.1 matches PlanAction::Finish(Err(e2))
            && e2@ == e@),
        ev matches PlanEvent::DetailsParsed(Err(e)) ==> (r.1 matches PlanAction::Finish(Err(e2)) && e2@
            == e@),
        // The files found give the request for descriptions; with a search
        // asked for, the model is asked for libraries first.
        ev matches PlanEvent::FilesFound(Ok(files)) ==> {
            &&& views(r.0.files@) == views(files@)
            &&& r.0.description_prompt@ == description_user_prompt(st.prompt, views(files@))
            &&& st.prompt.use_google_search_for_deps ==> (r.0.phase == PlanPhase::AwaitSearch && (
            r.1 matches PlanAction::AskModel { contents, tools } && contents_view(contents@) == seq![
                text_content(Role::User, research_prompt(st.prompt)),
            ] && tools@ == search_tool()))
            &&& !st.prompt.use_google_search_for_deps ==> (r.0.phase == PlanPhase::AwaitDescriptions
                && (r.1 matches PlanAction::AskModel { contents, tools } && contents_view(contents@)
                == briefing(
                description_system_prompt(),
                descriptions_ack(),
                r.0.description_prompt@,
            ) && tools@ == tool_config(descriptions_tool())))
        },
        // The libraries found are added to the request for descriptions.
        ev matches PlanEvent::Reply(Ok(resp)) ==> (st.phase == PlanPhase::AwaitSearch ==> match search_text(resp) {
            Ok(t) => r.0.description_prompt@ == st.description_prompt@
                + "\n\n**Suggested Libraries (from Google Search):**\n"@ + t && r.0.phase
                == PlanPhase::AwaitDescriptions,
            Err(e) => r.1 matches PlanAction::Finish(Err(e2)) && e2@ == e,
        }),
        ev matches PlanEvent::Reply(Ok(resp)) ==> (st.phase == PlanPhase::AwaitDescriptions ==> match call_arguments(
            resp,
            "create_task_descriptions"@,
            "description"@,
        ) {
            Ok(a) => r.0.phase == PlanPhase::AwaitDescriptionsParsed && (
            r.1 matches PlanAction::ParseDescriptions { arguments } && arguments@ == a),
            Err(e) => r.1 matches PlanAction::Finish(Err(e2)) && e2@ == e,
        }),
        ev matches PlanEvent::Reply(Ok(resp)) ==> (st.phase == PlanPhase::AwaitDetails ==> match call_arguments(
            resp,
            "create_task_details"@,
            "detailing"@,
        ) {
            Ok(a) => r.0.phase == PlanPhase::AwaitDetailsParsed && (r.1 matches PlanAction::ParseDetails {
                arguments,
            } && arguments@ == a),
            Err(e) => r.1 matches PlanAction::Finish(Err(e2)) && e2@ == e,
        }),
        // The descriptions read are detailed one by one, from the first.
        // A reply leaves the descriptions and the tasks detailed so far as
        // they are; details leave the descriptions as they are.
        ev is Reply ==> (r.0.tasks == st.tasks && r.0.descriptions == st.descriptions),
        ev is FilesFound ==> (r.0.tasks == st.tasks && r.0.descriptions == st.descriptions),
        ev is DetailsParsed ==> r.0.descriptions == st.descriptions,
        ev matches PlanEvent::DescriptionsParsed(Ok(d)) ==> (views(r.0.descriptions@) == views(d@)
            && r.0.tasks@.len() == 0 && next_details(
            st.prompt,
            views(st.files@),
            r.0.descriptions@,
            0,
            r.0,
            r.1,
        )),
        // A detailed description becomes a pending task.
        ev matches PlanEvent::DetailsParsed(Ok(details)) ==> {
            let k = st.tasks@.len() as int;
            &&& r.0.tasks@.len() == k + 1
            &&& r.0.tasks@.take(k) == st.tasks@
            &&& r.0.tasks@[k].description@ == st.descriptions@[k]@
            &&& r.0.tasks@[k].status == TaskStatus::Pending
            &&& r.0.tasks@[k].attempts == 0
            &&& r.0.tasks@[k].result is None
            &&& r.0.tasks@[k].file_scoping == details.0
            &&& r.0.tasks@[k].validation_steps == details.1
            &&& k + 1 == st.descriptions@.len() ==> (r.1 matches PlanAction::Finish(Ok(())))
            // Then the next description is detailed, or the plan is done.
            &&& next_details(st.prompt, views(st.files@), st.descriptions@, k + 1, r.0, r.1)
        },
{
    let mut st = st;
    match ev {
        PlanEvent::Begin => {
            st.phase = PlanPhase::AwaitFiles;
            let scope = st.prompt.file_scoping.copy();
            (st, PlanAction::FindFiles { scope })
        },
        PlanEvent::FilesFound(Err(e)) => {
            st.phase = PlanPhase::Done;
            (st, PlanAction::Finish(Err(e)))
        },
        PlanEvent::Reply(Err(e)) => {
            st.phase = PlanPhase::Done;
            (st, PlanAction::Finish(Err(e)))
        },
        PlanEvent::DescriptionsParsed(Err(e)) => {
            st.phase = PlanPhase::Done;
            (st, PlanAction::Finish(Err(e)))
        },
        PlanEvent::DetailsParsed(Err(e)) => {
            st.phase = PlanPhase::Done;
            (st, PlanAction::Finish(Err(e)))
        },
        PlanEvent::FilesFound(Ok(files)) => {
            st.description_prompt = create_description_generation_user_prompt(&st.prompt, &files);
            st.files = files;
            if st.prompt.use_google_search_for_deps {
                let p = create_dependency_research_prompt(&st.prompt);
                let mut contents: Vec<Content> = Vec::new();
                contents.push(Content::single(Role::User, ContentPart::new_text(p)));
                proof {
                    assert(contents_view(contents@) =~= seq![
                        text_content(Role::User, research_prompt(st.prompt)),
                    ]);
                }
                st.phase = PlanPhase::AwaitSearch;
                (st, PlanAction::AskModel { contents, tools: create_google_search_tool() })
            } else {
                ask_descriptions(st)
            }
        },
        PlanEvent::Reply(Ok(resp)) => {
            if st.phase == PlanPhase::AwaitSearch {
                match process_search_response(&resp) {
                    Err(e) => {
                        st.phase = PlanPhase::Done;
                        (st, PlanAction::Finish(Err(e)))
                    },
                    Ok(t) => {
                        st.description_prompt.append("\n\n**Suggested Libraries (from Google Search):**\n");
                        st.description_prompt.append(t.as_str());
                        ask_descriptions(st)
                    },
                }
            } else if st.phase == PlanPhase::AwaitDescriptions {
                match process_description_response(&resp) {
                    Err(e) => {
                        st.phase = PlanPhase::Done;
                        (st, PlanAction::Finish(Err(e)))
                    },
                    Ok(arguments) => {
                        st.phase = PlanPhase::AwaitDescriptionsParsed;
                        (st, PlanAction::ParseDescriptions { arguments })
                    },
                }
            } else {
                match process_detailing_response(&resp) {
                    Err(e) => {
                        st.phase = PlanPhase::Done;
                        (st, PlanAction::Finish(Err(e)))
                    },
                    Ok(arguments) => {
                        st.phase = PlanPhase::AwaitDetailsParsed;
                        (st, PlanAction::ParseDetails { arguments })
                    },
                }
            }
        },
        PlanEvent::DescriptionsParsed(Ok(d)) => {
            st.descriptions = d;
            st.tasks = Vec::new();
            ask_details(st)
        },
        PlanEvent::DetailsParsed(Ok((file_scoping, validation_steps))) => {
            let k = st.tasks.len();
            let description = st.descriptions[k].clone();
            let ghost before = st.tasks@;
            st.tasks.push(
                Task {
                    description,
                    file_scoping,
                    validation_steps,
                    status: TaskStatus::Pending,
                    attempts: 0,
                    result: None,
                },
            );
            proof {
                assert(st.tasks@.take(k as int) =~= before);
            }
            ask_details(st)
        },
    }
}

/// The plan built: the original prompt and the detailed tasks.
pub fn plan_result(st: PlanRun) -> (p: ImplementationPlan)
    ensures
        p.original_prompt == st.prompt,
        p.tasks == st.tasks,
{
    ImplementationPlan { original_prompt: st.prompt, tasks: st.tasks }
}

} // verus!

use aide_rs::doc_retriever::{DocCrate, DocInner, DocItem};
use aide_rs::error::Error;
use aide_rs::gemini_types::FunctionCall;
use aide_rs::json::{json_object, json_string, JsonValue};
use aide_rs::tools::{
    escapes_project, tool_kind_of, DocRetrieverArgs, DocRetrieverTool, FileSystemArgs,
    FileSystemTool, FsRequest, ToolExecutor, ToolKind,
};

fn names(v: &[&str]) -> Vec<String> {
    v.iter().map(|s| s.to_string()).collect()
}

fn fs_args(op: &str, path: &str, content: Option<&str>) -> FileSystemArgs {
    FileSystemArgs {
        operation: op.to_string(),
        path: path.to_string(),
        content: content.map(|c| c.to_string()),
    }
}

fn field<'a>(v: &'a JsonValue, key: &str) -> &'a JsonValue {
    v.get(key).unwrap_or_else(|| panic!("missing {}", key))
}

#[test]
fn test_tool_executor_new_and_schemas() {
    let executor = ToolExecutor::new(&names(&["doc_retriever", "file_system"]));
    let schemas = executor.schemas();
    assert_eq!(schemas.len(), 2);
    assert!(schemas.iter().any(|s| s.name == "doc_retriever"));
    assert!(schemas.iter().any(|s| s.name == "file_system"));
}

#[test]
fn test_tool_executor_execute_not_found() {
    let executor = ToolExecutor::new(&vec![]);
    let call = FunctionCall {
        name: "non_existent_tool".to_string(),
        arguments: json_object(vec![]),
    };

    let result = executor.resolve(&call);
    assert!(result.is_err());
    if let Err(Error::Config(msg)) = result {
        assert!(msg.contains("Tool 'non_existent_tool' not found"));
    } else {
        panic!("Expected Config error");
    }
}

#[test]
fn test_fs_tool_security() {
    let tool = FileSystemTool;

    // Absolute path
    let result = tool.request(fs_args("read", "/etc/passwd", None));
    assert!(result.is_err());
    if let Err(Error::Config(msg)) = result {
        assert!(msg.contains("Path must be relative"));
    } else {
        panic!("Expected Config error for absolute path");
    }

    // Path traversal
    let result = tool.request(fs_args("read", "../some_file", None));
    assert!(result.is_err());
    if let Err(Error::Config(msg)) = result {
        assert!(msg.contains("Path must be relative"));
    } else {
        panic!("Expected Config error for path traversal");
    }
}

#[test]
fn fs_results_have_the_shapes_of_the_answers() {
    let tool = FileSystemTool;
    let w = tool.write_result("test.txt".to_string());
    assert_eq!(field(&w, "path").as_str(), Some("test.txt"));
    assert!(matches!(field(&w, "success"), JsonValue::Bool(true)));
    let r = tool.read_result("hello world".to_string());
    assert_eq!(field(&r, "content").as_str(), Some("hello world"));
    assert!(matches!(field(&r, "success"), JsonValue::Bool(true)));
    let l = tool.list_result(vec!["./file1.txt".to_string(), "./subdir".to_string()]);
    match field(&l, "files") {
        JsonValue::Array(a) => {
            let got: Vec<&str> = a.iter().map(|x| x.as_str().unwrap()).collect();
            assert_eq!(got, vec!["./file1.txt", "./subdir"]);
        }
        other => panic!("files is not an array: {:?}", other),
    }
}

#[test]
fn fs_requests_follow_the_operation() {
    let tool = FileSystemTool;
    match tool.request(fs_args("read", "a.txt", None)).unwrap() {
        FsRequest::Read { path } => assert_eq!(path, "a.txt"),
        other => panic!("{:?}", other),
    }
    match tool.request(fs_args("write", "subdir/test.txt", Some("hello"))).unwrap() {
        FsRequest::Write { path, content } => {
            assert_eq!(path, "subdir/test.txt");
            assert_eq!(content, "hello");
        }
        other => panic!("{:?}", other),
    }
    match tool.request(fs_args("list", ".", None)).unwrap() {
        FsRequest::List { path } => assert_eq!(path, "."),
        other => panic!("{:?}", other),
    }
    match tool.request(fs_args("write", "a.txt", None)) {
        Err(Error::Config(m)) => assert_eq!(m, "Content is required for write operation"),
        other => panic!("{:?}", other),
    }
    match tool.request(fs_args("delete", "a.txt", None)) {
        Err(Error::Config(m)) => assert_eq!(m, "Unknown file system operation: delete"),
        other => panic!("{:?}", other),
    }
}

#[test]
fn paths_that_leave_the_project_are_recognised() {
    assert!(escapes_project("/abs"));
    assert!(escapes_project(".."));
    assert!(escapes_project("a/../b"));
    assert!(escapes_project("a/.."));
    assert!(!escapes_project("a/..b"));
    assert!(!escapes_project("...") );
    assert!(!escapes_project("./a/b"));
    assert!(!escapes_project(""));
}

#[test]
fn each_tool_is_offered_once() {
    let executor =
        ToolExecutor::new(&names(&["file_system", "unknown", "file_system", "doc_retriever"]));
    let schemas = executor.schemas();
    let got: Vec<&str> = schemas.iter().map(|s| s.name.as_str()).collect();
    assert_eq!(got, vec!["file_system", "doc_retriever"]);
    assert_eq!(tool_kind_of("file_system"), Some(ToolKind::FileSystem));
    assert_eq!(tool_kind_of("nope"), None);
}

#[test]
fn resolve_finds_an_enabled_tool() {
    let executor = ToolExecutor::new(&names(&["file_system"]));
    let call = FunctionCall { name: "file_system".to_string(), arguments: json_object(vec![]) };
    assert_eq!(executor.resolve(&call).unwrap(), ToolKind::FileSystem);
    let other = FunctionCall { name: "doc_retriever".to_string(), arguments: json_object(vec![]) };
    match executor.resolve(&other) {
        Err(Error::Config(m)) => {
            assert_eq!(m, "Tool 'doc_retriever' not found or not enabled for this block.")
        }
        r => panic!("{:?}", r),
    }
}

#[test]
fn declarations_describe_the_parameters() {
    let d = FileSystemTool.schema();
    assert_eq!(d.name, "file_system");
    let params = &d.parameters;
    assert_eq!(field(params, "type").as_str(), Some("object"));
    let props = field(params, "properties");
    let op = field(props, "operation");
    match field(op, "enum") {
        JsonValue::Array(a) => {
            let got: Vec<&str> = a.iter().map(|x| x.as_str().unwrap()).collect();
            assert_eq!(got, vec!["read", "write", "list"]);
        }
        other => panic!("{:?}", other),
    }
    let d = DocRetrieverTool.schema();
    assert_eq!(d.description, "Retrieves Rust documentation for a crate, module, or type.");
    match field(&d.parameters, "required") {
        JsonValue::Array(a) => assert_eq!(a.len(), 1),
        other => panic!("{:?}", other),
    }
    let _ = json_string(String::new());
}

#[test]
fn doc_tool_answers_for_the_crate_or_the_item() {
    let krate = DocCrate {
        root: 0,
        crate_version: None,
        index: vec![(
            0,
            DocItem {
                name: Some("c".to_string()),
                docs: Some("Docs.".to_string()),
                inner: DocInner::Module { items: vec![] },
            },
        )],
        paths: vec![(0, vec!["c".to_string()])],
    };
    let crate_level = DocRetrieverTool
        .answer(&krate, &DocRetrieverArgs { crate_name: "c".to_string(), path: None })
        .unwrap();
    assert_eq!(field(&crate_level, "type").as_str(), Some("crate"));
    assert_eq!(field(&crate_level, "version").as_str(), Some(""));
    let module_level = DocRetrieverTool
        .answer(&krate, &DocRetrieverArgs { crate_name: "c".to_string(), path: Some("c".to_string()) })
        .unwrap();
    assert_eq!(field(&module_level, "type").as_str(), Some("module"));
}

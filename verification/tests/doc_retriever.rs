use aide_rs::doc_retriever::{
    clean_fn_signature, clean_type, get_crate_docs, get_item_docs, DocCrate, DocInner, DocItem,
    DocType,
};
use aide_rs::error::Error;
use aide_rs::json::JsonValue;

fn item(name: &str, docs: Option<&str>, inner: DocInner) -> DocItem {
    DocItem {
        name: Some(name.to_string()),
        docs: docs.map(|d| d.to_string()),
        inner,
    }
}

fn path(parts: &[&str]) -> Vec<String> {
    parts.iter().map(|p| p.to_string()).collect()
}

/// The documentation of a crate `test_crate` with a free function and a
/// module holding a struct (with one method) and an enum.
fn test_crate() -> DocCrate {
    DocCrate {
        root: 0,
        crate_version: Some("0.1.0".to_string()),
        index: vec![
            (0, item("test_crate", Some("Crate documentation."), DocInner::Module { items: vec![1, 2] })),
            (
                1,
                item(
                    "a_free_function",
                    Some("A free function."),
                    DocInner::Function { inputs: vec![], output: None },
                ),
            ),
            (2, item("my_module", Some("Module documentation."), DocInner::Module { items: vec![3, 6] })),
            (3, item("MyStruct", Some("Struct documentation."), DocInner::Struct { impls: vec![4, 7] })),
            (4, DocItem { name: None, docs: None, inner: DocInner::Impl { items: vec![5], trait_path: None } }),
            (
                5,
                item(
                    "new",
                    Some("A method on MyStruct."),
                    DocInner::Function {
                        inputs: vec![],
                        output: Some(DocType::Generic("Self".to_string())),
                    },
                ),
            ),
            (6, item("MyEnum", Some("Enum documentation."), DocInner::Enum { impls: vec![] })),
            (
                7,
                DocItem {
                    name: None,
                    docs: None,
                    inner: DocInner::Impl { items: vec![], trait_path: Some("Send".to_string()) },
                },
            ),
        ],
        paths: vec![
            (0, path(&["test_crate"])),
            (1, path(&["test_crate", "a_free_function"])),
            (2, path(&["test_crate", "my_module"])),
            (3, path(&["test_crate", "my_module", "MyStruct"])),
            (6, path(&["test_crate", "my_module", "MyEnum"])),
        ],
    }
}

fn field<'a>(v: &'a JsonValue, key: &str) -> &'a JsonValue {
    v.get(key).unwrap_or_else(|| panic!("missing key {}", key))
}

fn text<'a>(v: &'a JsonValue, key: &str) -> &'a str {
    field(v, key).as_str().unwrap_or_else(|| panic!("{} is not a string", key))
}

fn array<'a>(v: &'a JsonValue, key: &str) -> &'a Vec<JsonValue> {
    match field(v, key) {
        JsonValue::Array(a) => a,
        other => panic!("{} is not an array: {:?}", key, other),
    }
}

fn strings(v: &JsonValue, key: &str) -> Vec<String> {
    array(v, key).iter().map(|x| x.as_str().unwrap().to_string()).collect()
}

#[test]
fn test_get_crate_docs() {
    let krate = test_crate();
    let result = get_crate_docs(&krate, "test_crate").unwrap();

    assert_eq!(text(&result, "type"), "crate");
    assert_eq!(text(&result, "name"), "test_crate");
    assert_eq!(text(&result, "version"), "0.1.0");
    assert_eq!(text(&result, "documentation"), "Crate documentation.");
    assert_eq!(strings(&result, "modules"), vec!["my_module".to_string()]);
}

#[test]
fn test_get_item_docs() {
    let krate = test_crate();

    // Test getting module docs
    let module_result = get_item_docs(&krate, "test_crate", "test_crate::my_module").unwrap();

    assert_eq!(text(&module_result, "type"), "module");
    assert_eq!(text(&module_result, "crate"), "test_crate");
    assert_eq!(text(&module_result, "path"), "test_crate::my_module");
    assert_eq!(text(&module_result, "documentation"), "Module documentation.");
    assert_eq!(strings(&module_result, "structs"), vec!["MyStruct".to_string()]);
    assert_eq!(strings(&module_result, "enums"), vec!["MyEnum".to_string()]);
    assert!(array(&module_result, "functions").is_empty());

    // Test getting struct docs
    let struct_result =
        get_item_docs(&krate, "test_crate", "test_crate::my_module::MyStruct").unwrap();

    assert_eq!(text(&struct_result, "type"), "struct");
    assert_eq!(text(&struct_result, "crate"), "test_crate");
    assert_eq!(text(&struct_result, "path"), "test_crate::my_module::MyStruct");
    assert_eq!(text(&struct_result, "documentation"), "Struct documentation.");
    let methods = array(&struct_result, "methods");
    assert_eq!(methods.len(), 1);
    assert_eq!(text(&methods[0], "name"), "new");
    assert_eq!(text(&methods[0], "documentation"), "A method on MyStruct.");
    assert_eq!(text(&methods[0], "signature"), "pub fn new() -> Self");

    // Test getting function docs
    let function_result =
        get_item_docs(&krate, "test_crate", "test_crate::a_free_function").unwrap();
    assert_eq!(text(&function_result, "type"), "function");
    assert_eq!(text(&function_result, "path"), "test_crate::a_free_function");
    assert_eq!(text(&function_result, "documentation"), "A free function.");
    assert_eq!(text(&function_result, "signature"), "pub fn a_free_function()");
}

#[test]
fn item_docs_of_missing_item_fall_back_to_parent_module() {
    let krate = test_crate();
    let r = get_item_docs(&krate, "test_crate", "test_crate::my_module::Missing").unwrap();
    assert_eq!(text(&r, "type"), "module");
    assert_eq!(text(&r, "path"), "test_crate::my_module");
    assert_eq!(
        text(&r, "note"),
        "Note: The original path 'test_crate::my_module::Missing' was not found. Returning docs for the parent module 'test_crate::my_module'."
    );
}

#[test]
fn item_docs_of_unknown_path_fall_back_to_crate() {
    let krate = test_crate();
    let r = get_item_docs(&krate, "test_crate", "other::thing").unwrap();
    assert_eq!(text(&r, "type"), "crate");
    assert_eq!(
        text(&r, "note"),
        "Note: The path 'other::thing' was not found. Returning crate-level documentation."
    );
    assert_eq!(strings(&r, "modules"), vec!["my_module".to_string()]);
}

#[test]
fn item_docs_of_an_impl_path_is_an_error() {
    let mut krate = test_crate();
    krate.paths.push((4, path(&["test_crate", "Imp"])));
    match get_item_docs(&krate, "test_crate", "test_crate::Imp") {
        Err(Error::Config(m)) => {
            assert_eq!(m, "Path 'test_crate::Imp' is not a module, struct, enum, or function.")
        }
        other => panic!("unexpected {:?}", other),
    }
}

#[test]
fn crate_docs_without_root_is_an_error() {
    let mut krate = test_crate();
    krate.root = 99;
    match get_crate_docs(&krate, "test_crate") {
        Err(Error::Config(m)) => assert_eq!(m, "Root module not found in crate"),
        other => panic!("unexpected {:?}", other),
    }
}

#[test]
fn trait_impls_with_methods_are_listed() {
    let mut krate = test_crate();
    krate.index.push((
        8,
        DocItem { name: None, docs: None, inner: DocInner::Impl { items: vec![9], trait_path: Some("Clone".to_string()) } },
    ));
    krate.index.push((
        9,
        item(
            "clone",
            None,
            DocInner::Function {
                inputs: vec![(
                    "self".to_string(),
                    DocType::BorrowedRef(Box::new(DocType::Generic("Self".to_string()))),
                )],
                output: Some(DocType::Generic("Self".to_string())),
            },
        ),
    ));
    if let DocInner::Struct { impls } = &mut krate.index[3].1.inner {
        impls.push(8);
    }
    let r = get_item_docs(&krate, "test_crate", "test_crate::my_module::MyStruct").unwrap();
    let traits = array(&r, "trait_implementations");
    assert_eq!(traits.len(), 1);
    assert_eq!(text(&traits[0], "trait"), "Clone");
    let methods = array(&traits[0], "methods");
    assert_eq!(text(&methods[0], "signature"), "pub fn clone(self: &Self) -> Self");
    assert_eq!(text(&methods[0], "documentation"), "");
}

#[test]
fn signatures_print_parameters_and_output() {
    let inputs = vec![
        ("a".to_string(), DocType::Primitive("u32".to_string())),
        ("b".to_string(), DocType::ResolvedPath("Vec".to_string())),
        ("c".to_string(), DocType::Other),
    ];
    let sig = clean_fn_signature(&Some(DocType::Primitive("bool".to_string())), &inputs, "f");
    assert_eq!(sig, "pub fn f(a: u32, b: Vec, c: impl ...) -> bool");
    assert_eq!(
        clean_type(&DocType::BorrowedRef(Box::new(DocType::BorrowedRef(Box::new(DocType::Primitive("str".to_string())))))),
        "&&str"
    );
}

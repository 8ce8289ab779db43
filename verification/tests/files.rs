use aide_rs::error::Error;
use aide_rs::file_provider::{build_overrides, filter_patterns};
use aide_rs::files::{get_filtered_files, select_scoped_files, ScopedCandidate};
use aide_rs::flows::types::FileScope;

fn cand(p: &str, ignored: bool) -> ScopedCandidate {
    ScopedCandidate { relative: p.to_string(), gitignored: ignored }
}

fn scope(inc: &[&str], exc: &[&str]) -> FileScope {
    FileScope {
        description: None,
        includes: inc.iter().map(|s| s.to_string()).collect(),
        exclude: exc.iter().map(|s| s.to_string()).collect(),
    }
}

/// The files of the test tree, in walk order; `config.toml` is gitignored.
fn tree() -> Vec<ScopedCandidate> {
    vec![
        cand(".gitignore", false),
        cand("src/main.rs", false),
        cand("src/lib.rs", false),
        cand("src/components/button.rs", false),
        cand("README.md", false),
        cand("config.toml", true),
        cand(".hidden_dir/secret.txt", false),
    ]
}

#[test]
fn test_get_filtered_files() {
    let files = tree();
    // The canonical base directory the walk started from.
    let c = "/tmp/base";
    let at = |r: &str| format!("{}/{}", c, r);

    // Test case 1: Include all .rs files, exclude main.rs
    let files1 = get_filtered_files(&files, &scope(&["**/*.rs"], &["src/main.rs"]), c).unwrap();
    assert_eq!(files1, vec![at("src/components/button.rs"), at("src/lib.rs")]);

    // Test case 2: Include markdown and toml files; config.toml is gitignored
    let files2 = get_filtered_files(&files, &scope(&["**/*.md", "**/*.toml"], &[]), c).unwrap();
    assert_eq!(files2, vec![at("README.md")]);

    // Test case 3: Include everything in src, but exclude components
    let files3 = get_filtered_files(&files, &scope(&["src/**/*"], &["src/components/**/*"]), c).unwrap();
    assert_eq!(files3, vec![at("src/lib.rs"), at("src/main.rs")]);

    // Test case 4: Include hidden files if explicitly asked
    let files4 = get_filtered_files(&files, &scope(&["**/*.txt"], &[]), c).unwrap();
    assert_eq!(files4, vec![at(".hidden_dir/secret.txt")]);

    // No include patterns: nothing is selected.
    assert_eq!(get_filtered_files(&files, &scope(&[], &[]), c).unwrap(), Vec::<String>::new());
    // A base that ends with a separator is not doubled.
    assert_eq!(
        get_filtered_files(&files, &scope(&["README.md"], &[]), "/").unwrap(),
        vec!["/README.md".to_string()]
    );
}

#[test]
fn scoped_files_are_sorted_as_paths() {
    let files = vec![cand("b", false), cand("a/z", false), cand("a.rs", false), cand("a", false)];
    let got = select_scoped_files(&files, &scope(&["**"], &[])).unwrap();
    assert_eq!(got, vec!["a".to_string(), "a/z".to_string(), "a.rs".to_string(), "b".to_string()]);
}

#[test]
fn a_bad_glob_is_an_error() {
    match select_scoped_files(&tree(), &scope(&["a[b"], &[])) {
        Err(Error::Glob(m)) => assert!(!m.is_empty()),
        other => panic!("{:?}", other),
    }
}

#[test]
fn test_get_files_with_filter() {
    let filter_content = "#exclude\n.git\ntarget/\n\n#include\n*.rs\n*.md";
    let patterns = filter_patterns(Some(filter_content));
    assert_eq!(patterns, vec!["!.git", "!target/", "*.rs", "*.md"]);
    assert!(build_overrides("/tmp", Some(filter_content)).is_ok());
}

#[test]
fn test_get_files_no_filter_file() {
    assert_eq!(filter_patterns(None), vec!["!/.git", "!/.ai"]);
    assert!(build_overrides("/tmp", None).is_ok());
}

#[test]
fn filter_lines_before_a_section_and_comments_are_ignored() {
    let content = "*.txt\n# a comment\n  #include  \n  *.rs  \n#exclude\n# another\nsecret/\n";
    assert_eq!(filter_patterns(Some(content)), vec!["*.rs", "!secret/"]);
}

#[test]
fn a_bad_override_glob_is_an_ignore_error() {
    match build_overrides("/tmp", Some("#include\n{a")) {
        Err(Error::Ignore(m)) => assert!(!m.is_empty()),
        other => panic!("{:?}", other.map(|_| ())),
    }
}

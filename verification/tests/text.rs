use aide_rs::text::{join_strings, sort_dedup, split_colons, split_whitespace, u64_to_string, i32_to_string};
use aide_rs::vcs::{commit_signature, relative_paths};
use aide_rs::error::Error;
use aide_rs::flows::types::{default_max_retries, merge_pattern_lists, FileScope};

#[test]
fn splitting_on_double_colons_and_joining_back() {
    for s in ["a::b::c", "a:::b", "::x", "x::", "", "no_colons", "a::::b"] {
        let parts = split_colons(s);
        let expected: Vec<String> = s.split("::").map(|p| p.to_string()).collect();
        assert_eq!(parts, expected);
        assert_eq!(join_strings(&parts, "::"), s);
    }
}

#[test]
fn whitespace_splitting_and_numbers() {
    assert_eq!(split_whitespace("  a \t b\nc  "), vec!["a", "b", "c"]);
    assert_eq!(u64_to_string(1234567890), "1234567890");
    assert_eq!(u64_to_string(0), "0");
    assert_eq!(i32_to_string(-42), "-42");
    assert_eq!(i32_to_string(i32::MIN), "-2147483648");
}

#[test]
fn sorting_removes_repeats() {
    let v = vec!["b", "a", "é", "b", "A"].into_iter().map(String::from).collect();
    let mut expected: Vec<String> = vec!["b", "a", "é", "b", "A"].into_iter().map(String::from).collect();
    expected.sort();
    expected.dedup();
    assert_eq!(sort_dedup(v), expected);
}

#[test]
fn merging_scopes_is_order_blind() {
    let mut a = FileScope { description: Some("a".to_string()), includes: vec!["z".to_string(), "x".to_string()], exclude: vec![] };
    let b = FileScope { description: None, includes: vec!["y".to_string(), "x".to_string()], exclude: vec!["e".to_string()] };
    let mut b2 = b.clone();
    let a2 = a.clone();
    a.merge(b);
    b2.merge(a2);
    assert_eq!(a.includes, vec!["x", "y", "z"]);
    assert_eq!(a.includes, b2.includes);
    assert_eq!(a.exclude, b2.exclude);
    assert_eq!(a.description.as_deref(), Some("a"));
    let mut same = a.includes.clone();
    merge_pattern_lists(&mut same, a.includes.clone());
    assert_eq!(same, a.includes);
    assert_eq!(default_max_retries(), 5);
}

#[test]
fn commits_use_paths_relative_to_the_work_tree() {
    let got = relative_paths("/repo", &vec!["/repo/a.txt".to_string(), "/repo/sub/b.txt".to_string()]).unwrap();
    assert_eq!(got, vec!["a.txt", "sub/b.txt"]);
    match relative_paths("/repo", &vec!["/elsewhere/c.txt".to_string()]) {
        Err(Error::StripPrefix(m)) => assert_eq!(m, "prefix not found"),
        other => panic!("{:?}", other),
    }
    let (name, email) = commit_signature();
    assert_eq!(name, "AI Agent");
    assert_eq!(email, "ai-agent@example.com");
}

use deno_kv_rs::runtime::RuntimeMode;
use deno_kv_rs::script::{classify, load_scripts, DirectoryEntry};

fn file(name: &str) -> DirectoryEntry {
    DirectoryEntry { file_name: name.to_string(), is_dir: false }
}

fn directory(name: &str) -> DirectoryEntry {
    DirectoryEntry { file_name: name.to_string(), is_dir: true }
}

#[test]
fn classify_query_and_execute_scripts() {
    assert_eq!(
        classify("kv-get.query.ts"),
        Some((RuntimeMode::Query, "kv-get".to_string()))
    );
    assert_eq!(
        classify("kv-set.execute.ts"),
        Some((RuntimeMode::Execute, "kv-set".to_string()))
    );
}

#[test]
fn classify_takes_the_name_before_the_ending() {
    assert_eq!(
        classify("a.b.query.ts"),
        Some((RuntimeMode::Query, "a.b".to_string()))
    );
    assert_eq!(
        classify("x.query.execute.ts"),
        Some((RuntimeMode::Execute, "x.query".to_string()))
    );
    assert_eq!(classify(".execute.ts"), Some((RuntimeMode::Execute, String::new())));
    assert_eq!(classify(".query.ts"), Some((RuntimeMode::Query, String::new())));
}

#[test]
fn classify_refuses_files_that_do_not_end_in_ts() {
    assert_eq!(classify("kv-get.query.js"), None);
    assert_eq!(classify("kv-get.query."), None);
    assert_eq!(classify("kv-get.query"), None);
    assert_eq!(classify("kv-get.query.ts.bak"), None);
    assert_eq!(classify("kv-get.query.tsx"), None);
    assert_eq!(classify("kv-get.query.TS"), None);
}

#[test]
fn classify_refuses_files_without_a_kind() {
    assert_eq!(classify("query.ts"), None);
    assert_eq!(classify("execute.ts"), None);
    assert_eq!(classify("kv-get.ts"), None);
    assert_eq!(classify("kv-get.mutation.ts"), None);
    assert_eq!(classify("kv-get.Query.ts"), None);
    assert_eq!(classify("kv-getquery.ts"), None);
    assert_eq!(classify("x..ts"), None);
}

#[test]
fn classify_refuses_other_files() {
    assert_eq!(classify("README"), None);
    assert_eq!(classify(""), None);
    assert_eq!(classify("."), None);
    assert_eq!(classify(".."), None);
    assert_eq!(classify(".ts"), None);
    assert_eq!(classify("ts"), None);
}

#[test]
fn classify_counts_characters_not_bytes() {
    assert_eq!(
        classify("sch\u{fc}ssel.query.ts"),
        Some((RuntimeMode::Query, "sch\u{fc}ssel".to_string()))
    );
    assert_eq!(classify("x.qu\u{e9}ry.ts"), None);
    assert_eq!(classify("\u{fc}\u{fc}\u{fc}\u{fc}\u{fc}\u{fc}\u{fc}\u{fc}"), None);
}

#[test]
fn load_scripts_lists_by_kind_in_directory_order() {
    let entries = vec![
        file("kv-set.execute.ts"),
        file("kv-get.query.ts"),
        file("README.md"),
        directory("lib.query.ts"),
        file("count.query.ts"),
        file("notes"),
        file("old.query.js"),
        file("query.ts"),
    ];
    let table = load_scripts(&entries);
    assert!(table.contains(RuntimeMode::Execute, "kv-set"));
    assert!(table.contains(RuntimeMode::Query, "kv-get"));
    assert!(table.contains(RuntimeMode::Query, "count"));
    assert!(!table.contains(RuntimeMode::Query, "kv-set"));
    assert!(!table.contains(RuntimeMode::Execute, "kv-get"));
    assert!(!table.contains(RuntimeMode::Query, "lib"));
    assert!(!table.contains(RuntimeMode::Query, "README"));
    assert!(!table.contains(RuntimeMode::Query, "notes"));
    assert!(!table.contains(RuntimeMode::Query, "old"));
    assert!(!table.contains(RuntimeMode::Query, "query"));
    assert!(!table.contains(RuntimeMode::Query, "unknown"));
}

#[test]
fn load_scripts_of_empty_directory_lists_nothing() {
    let table = load_scripts(&vec![]);
    assert!(!table.contains(RuntimeMode::Query, "kv-get"));
    assert!(!table.contains(RuntimeMode::Execute, "kv-set"));
    assert!(!table.contains(RuntimeMode::Query, ""));
}

#[test]
fn load_scripts_lists_nothing_for_a_file_that_ends_in_js() {
    let table = load_scripts(&vec![file("kv-get.query.js")]);
    assert!(!table.contains(RuntimeMode::Query, "kv-get"));
    assert!(!table.contains(RuntimeMode::Execute, "kv-get"));
}

#[test]
fn load_scripts_lists_names_with_dots_whole() {
    let table = load_scripts(&vec![file("a.query.ts"), file("a.x.query.ts")]);
    assert!(table.contains(RuntimeMode::Query, "a"));
    assert!(table.contains(RuntimeMode::Query, "a.x"));
    assert!(!table.contains(RuntimeMode::Query, "x"));
}

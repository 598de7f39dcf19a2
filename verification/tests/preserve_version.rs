use launcher_core::preserve::{
    backup_tree, preserve_paths, restore_tree, under_dir_exec, FileEntry,
};
use launcher_core::version::{
    parse_version_content, trim, version_candidate_files, version_from_sources,
};

fn entry(path: &str, content: &[u8]) -> FileEntry {
    FileEntry { path: path.to_string(), content: content.to_vec() }
}

fn as_pairs(tree: &[FileEntry]) -> Vec<(String, Vec<u8>)> {
    tree.iter().map(|e| (e.path.clone(), e.content.clone())).collect()
}

#[test]
fn preserve_path_list_is_fixed_and_ordered() {
    let ps = preserve_paths();
    assert_eq!(
        ps,
        vec![
            "server/static/assets".to_string(),
            "server/static/thumbnails".to_string(),
            "server/static/mods".to_string(),
            "server/data".to_string(),
            "server/save_backups".to_string(),
            "extensions/compendium/db".to_string(),
        ]
    );
}

#[test]
fn under_dir_requires_a_separator_boundary() {
    assert!(under_dir_exec("server/data/planar.sqlite", "server/data"));
    assert!(under_dir_exec("server/data/sub/x", "server/data"));
    assert!(!under_dir_exec("server/database/x", "server/data"));
    assert!(!under_dir_exec("server/data", "server/data"));
}

#[test]
fn backup_keeps_exactly_the_preserved_files() {
    let pres = vec!["a".to_string()];
    let tree = vec![
        entry("a/x.txt", b"one"),
        entry("a/b/y.txt", b"two"),
        entry("c/z.txt", b"other"),
    ];
    let session = backup_tree(&tree, &pres);
    assert_eq!(
        as_pairs(&session),
        vec![
            ("a/x.txt".to_string(), b"one".to_vec()),
            ("a/b/y.txt".to_string(), b"two".to_vec()),
        ]
    );
}

#[test]
fn backup_then_restore_into_empty_target_reproduces_content() {
    let pres = vec!["a".to_string()];
    let tree = vec![entry("a/x.txt", b"one"), entry("a/b/y.txt", b"two")];
    let session = backup_tree(&tree, &pres);
    let restored = restore_tree(&Vec::new(), &session, &pres);
    assert_eq!(as_pairs(&restored), as_pairs(&tree));
}

#[test]
fn restore_fully_replaces_conflicting_target_content() {
    let pres = vec!["a".to_string()];
    let original = vec![entry("a/x.txt", b"one"), entry("a/b/y.txt", b"two")];
    let session = backup_tree(&original, &pres);
    let target = vec![
        entry("a/x.txt", b"stale"),
        entry("a/extra.txt", b"leftover"),
        entry("c/keep.txt", b"untouched"),
    ];
    let restored = restore_tree(&target, &session, &pres);
    assert_eq!(
        as_pairs(&restored),
        vec![
            ("c/keep.txt".to_string(), b"untouched".to_vec()),
            ("a/x.txt".to_string(), b"one".to_vec()),
            ("a/b/y.txt".to_string(), b"two".to_vec()),
        ]
    );
}

#[test]
fn restore_leaves_uncovered_preserve_paths_alone() {
    let pres = vec!["a".to_string(), "b".to_string()];
    let original = vec![entry("a/x.txt", b"one")];
    let session = backup_tree(&original, &pres);
    let target = vec![entry("b/fresh.txt", b"new install")];
    let restored = restore_tree(&target, &session, &pres);
    assert_eq!(
        as_pairs(&restored),
        vec![
            ("b/fresh.txt".to_string(), b"new install".to_vec()),
            ("a/x.txt".to_string(), b"one".to_vec()),
        ]
    );
}

#[test]
fn backup_of_tree_without_user_data_is_empty() {
    let pres = preserve_paths();
    let tree = vec![entry("scripts/run.sh", b"#!/bin/sh")];
    assert!(backup_tree(&tree, &pres).is_empty());
}

#[test]
fn trim_strips_both_ends() {
    assert_eq!(trim("  abc\n"), "abc");
    assert_eq!(trim("\t \r\n"), "");
    assert_eq!(trim("a b"), "a b");
}

#[test]
fn version_with_identifier_and_date() {
    let v = parse_version_content("abc123 2024-01-01").unwrap();
    assert_eq!(v.commit, "abc123");
    assert_eq!(v.date.as_deref(), Some("2024-01-01"));
}

#[test]
fn version_with_identifier_alone_has_absent_date() {
    let v = parse_version_content("abc123").unwrap();
    assert_eq!(v.commit, "abc123");
    assert!(v.date.is_none());
}

#[test]
fn version_content_is_trimmed_before_parsing() {
    let v = parse_version_content("\n  abc123 2024-01-01  \n").unwrap();
    assert_eq!(v.commit, "abc123");
    assert_eq!(v.date.as_deref(), Some("2024-01-01"));
}

#[test]
fn blank_version_content_yields_nothing() {
    assert!(parse_version_content("").is_none());
    assert!(parse_version_content("  \n\t").is_none());
}

#[test]
fn version_candidates_are_searched_in_order() {
    assert_eq!(
        version_candidate_files(),
        vec![
            "version.txt".to_string(),
            "COMMIT".to_string(),
            ".commit".to_string(),
            "server/version.txt".to_string(),
        ]
    );
}

#[test]
fn first_readable_nonblank_candidate_wins() {
    let contents = vec![
        None,
        Some("   ".to_string()),
        Some("abc123 2024-01-01".to_string()),
        Some("zzz".to_string()),
    ];
    let v = version_from_sources(&contents).unwrap();
    assert_eq!(v.commit, "abc123");
    assert_eq!(v.date.as_deref(), Some("2024-01-01"));
}

#[test]
fn no_candidate_content_yields_nothing() {
    let contents = vec![None, Some(String::new())];
    assert!(version_from_sources(&contents).is_none());
}

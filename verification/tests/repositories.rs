//! The repository set: deduplicated discovery, exclusion, and the batch
//! update tally.

use upkeep::outcome::StepError;
use upkeep::repos::{
    discover_repositories, repositories_from_entries, tally_pulls, RepositorySet,
};

#[test]
fn inserting_the_same_path_twice_yields_a_set_of_one() {
    let mut set = RepositorySet::new();
    assert!(set.insert("/home/u/.oh-my-zsh/custom/themes/t".to_string()));
    assert!(!set.insert("/home/u/.oh-my-zsh/custom/themes/t".to_string()));
    assert_eq!(set.len(), 1);
}

#[test]
fn distinct_paths_accumulate() {
    let mut set = RepositorySet::new();
    assert!(set.insert("/a".to_string()));
    assert!(set.insert("/b".to_string()));
    assert_eq!(set.len(), 2);
    assert!(set.contains(&"/a".to_string()));
    assert!(set.contains(&"/b".to_string()));
    assert!(!set.contains(&"/c".to_string()));
}

#[test]
fn a_removed_path_is_never_among_the_pull_targets() {
    let mut set = RepositorySet::new();
    set.insert("/home/u/.oh-my-zsh".to_string());
    set.insert("/home/u/.oh-my-zsh/custom/plugins/p".to_string());
    set.remove(&"/home/u/.oh-my-zsh".to_string());
    assert_eq!(set.len(), 1);
    assert!(!set.contains(&"/home/u/.oh-my-zsh".to_string()));
    let targets = set.paths();
    assert!(!targets.iter().any(|p| p == "/home/u/.oh-my-zsh"));
    assert!(targets.iter().any(|p| p == "/home/u/.oh-my-zsh/custom/plugins/p"));
}

#[test]
fn removing_an_absent_path_changes_nothing() {
    let mut set = RepositorySet::new();
    set.insert("/a".to_string());
    set.remove(&"/b".to_string());
    assert_eq!(set.len(), 1);
    assert!(set.contains(&"/a".to_string()));
}

#[test]
fn an_empty_set_has_no_pull_targets() {
    let set = RepositorySet::new();
    assert!(set.is_empty());
    assert_eq!(set.paths().len(), 0);
}

#[test]
fn discovery_keeps_exactly_the_marked_roots() {
    let entries: Vec<String> = [
        "/c",
        "/c/repo1",
        "/c/repo1/.git",
        "/c/repo2",
        "/c/not-a-repo",
        "/c/not-a-repo/readme",
    ]
    .iter()
    .map(|s| s.to_string())
    .collect();
    let set = repositories_from_entries(&entries);
    assert_eq!(set.len(), 1);
    assert!(set.contains(&"/c/repo1".to_string()));
    assert!(!set.contains(&"/c/repo2".to_string()));
    assert!(!set.contains(&"/c/not-a-repo".to_string()));
    // The marker entry itself is not a repository root.
    assert!(!set.contains(&"/c/repo1/.git".to_string()));
}

#[test]
fn discovery_collapses_duplicate_entries() {
    let entries: Vec<String> = ["/c/r", "/c/r/.git", "/c/r", "/c/r/.git"]
        .iter()
        .map(|s| s.to_string())
        .collect();
    let set = repositories_from_entries(&entries);
    assert_eq!(set.len(), 1);
    assert!(set.contains(&"/c/r".to_string()));
}

#[test]
fn discovery_of_nothing_finds_nothing() {
    let entries: Vec<String> = Vec::new();
    let set = repositories_from_entries(&entries);
    assert!(set.is_empty());
}

#[test]
fn walking_an_absent_root_surfaces_an_io_failure() {
    let root = "/this/path/does/not/exist/anywhere".to_string();
    match discover_repositories(&root) {
        Err(StepError::Io { .. }) => {}
        Err(_) => panic!("a traversal failure must surface as an I/O failure"),
        Ok(_) => panic!("walking an absent root cannot succeed"),
    }
}

#[test]
fn mixed_batch_reports_both_outcomes() {
    let results = vec![
        ("/c/r1".to_string(), true),
        ("/c/r2".to_string(), false),
    ];
    let tally = tally_pulls(&results);
    assert_eq!(tally.pulled, 1);
    assert_eq!(tally.failed, 1);
}

#[test]
fn tally_is_order_independent() {
    let one = vec![
        ("/a".to_string(), true),
        ("/b".to_string(), false),
        ("/c".to_string(), true),
    ];
    let other = vec![
        ("/c".to_string(), true),
        ("/a".to_string(), true),
        ("/b".to_string(), false),
    ];
    let t1 = tally_pulls(&one);
    let t2 = tally_pulls(&other);
    assert_eq!(t1.pulled, t2.pulled);
    assert_eq!(t1.failed, t2.failed);
}

#[test]
fn empty_batch_tallies_to_nothing() {
    let results: Vec<(String, bool)> = Vec::new();
    let tally = tally_pulls(&results);
    assert_eq!(tally.pulled, 0);
    assert_eq!(tally.failed, 0);
}

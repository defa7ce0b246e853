use exrn::expand::{dedup_paths, expand_patterns};
use exrn::matching::{filter_candidates, match_by_regex};
use exrn::paths::{join_path, with_file_name};
use exrn::pipeline::{build_plan, FatalError};
use exrn::plan::{plan_renames, rename_by_regex};

fn strings(v: &[&str]) -> Vec<String> {
    v.iter().map(|s| s.to_string()).collect()
}

#[test]
fn with_file_name_replaces_leaf() {
    assert_eq!(with_file_name("/a/b.txt", "c.md"), "/a/c.md");
    assert_eq!(with_file_name("rel.txt", "new"), "new");
    assert_eq!(with_file_name("/a/b.txt", "/x/y.md"), "/x/y.md");
    assert_eq!(with_file_name("/a/", "c"), "/a/c");
}

#[test]
fn join_path_follows_push_rules() {
    assert_eq!(join_path("/work", "a.txt"), "/work/a.txt");
    assert_eq!(join_path("/work/", "a.txt"), "/work/a.txt");
    assert_eq!(join_path("/work", "/abs/p.txt"), "/abs/p.txt");
    assert_eq!(join_path("", "a.txt"), "a.txt");
    assert_eq!(join_path("/", "a.txt"), "/a.txt");
}

#[test]
fn filter_keeps_exactly_the_matches() {
    let cands = strings(&["a.txt", "b.md", "c.txt", "notes"]);
    let kept = filter_candidates(&cands, r"\.txt$");
    assert_eq!(kept, strings(&["a.txt", "c.txt"]));
}

#[test]
fn match_is_a_find_not_a_full_match() {
    assert!(match_by_regex("dir/report.txt", "port"));
    assert!(!match_by_regex("dir/report.txt", "^port$"));
}

#[test]
fn substitution_rewrites_the_leaf() {
    let entry = rename_by_regex("/work/a.txt", r"(\w+)\.txt", "$1.md");
    assert_eq!(entry.source, "/work/a.txt");
    assert_eq!(entry.target, "/work/a.md");
}

#[test]
fn no_match_leaves_the_path_unchanged() {
    let entry = rename_by_regex("/dir/report.txt", "xyz", "abc");
    assert_eq!(entry.source, "/dir/report.txt");
    assert_eq!(entry.target, "/dir/report.txt");
}

#[test]
fn planned_targets_keep_the_parent_directory() {
    let matched = strings(&["a.txt", "b.txt"]);
    let entries = plan_renames(&matched, "/work", r"(\w+)\.txt", "$1.md");
    assert_eq!(entries.len(), 2);
    assert_eq!(entries[0].source, "/work/a.txt");
    assert_eq!(entries[0].target, "/work/a.md");
    assert_eq!(entries[1].source, "/work/b.txt");
    assert_eq!(entries[1].target, "/work/b.md");
}

#[test]
fn dedup_keeps_first_occurrences() {
    let v = strings(&["a", "b", "a", "c", "b"]);
    assert_eq!(dedup_paths(&v), strings(&["a", "b", "c"]));
}

#[test]
fn expansion_of_an_unmatched_pattern_is_empty() {
    let pats = strings(&["/nonexistent_dir_zzz_qq/*.none"]);
    let (paths, errors) = expand_patterns(&pats).expect("pattern is valid");
    assert!(paths.is_empty());
    assert!(errors.is_empty());
}

#[test]
fn expansion_deduplicates_across_patterns() {
    let once = expand_patterns(&strings(&["/*"])).expect("valid").0;
    let twice = expand_patterns(&strings(&["/*", "/*"])).expect("valid").0;
    assert!(!once.is_empty());
    assert_eq!(once, twice);
}

#[test]
fn invalid_glob_pattern_is_refused() {
    assert!(expand_patterns(&strings(&["a***b"])).is_err());
}

#[test]
fn invalid_regex_is_a_fatal_error() {
    let r = build_plan(&strings(&["/nonexistent_dir_zzz_qq/*"]), "(unbalanced", "$1", "/w");
    assert!(matches!(r, Err(FatalError::InvalidRegex(_))));
}

#[test]
fn invalid_glob_is_a_fatal_error() {
    let r = build_plan(&strings(&["a***b"]), r"\.txt$", "x", "/w");
    assert!(matches!(r, Err(FatalError::InvalidPattern(_))));
}

#[test]
fn pipeline_plans_nothing_when_regex_never_matches() {
    let r = build_plan(&strings(&["/nonexistent_dir_zzz_qq/*"]), "xyz", "abc", "/w")
        .expect("no fatal error");
    assert!(r.candidates.is_empty());
    assert!(r.entries.is_empty());
    assert!(r.read_errors.is_empty());
}

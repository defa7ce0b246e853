//! The rename-planning stage: for each matched candidate, substitute the
//! leftmost regex match in the full path string with the target template and
//! use the result as the new file name next to the source.
//!
//! Planning never touches the filesystem; it is pure computation over path
//! strings, so the whole plan can be previewed before anything is renamed.

use vstd::prelude::*;
use crate::matching::{regex_valid, regex_replaced, substitute_first};
use crate::paths::{
    dir_prefix_of, file_part_of, has_no_separator, is_absolute, join_path, join_path_spec,
    lemma_dir_prefix_idempotent, lemma_dir_prefix_len_after_separator, lemma_dir_prefix_len_append,
    lemma_dir_prefix_len_bounds, lemma_join_absolute, with_file_name, with_file_name_spec,
};

verus! {

/// One planned rename: the source path and the computed target path.
pub struct PlanEntry {
    pub source: String,
    pub target: String,
}

/// The planned target for a source path `p`: the leftmost match of `pat` in
/// the whole path string is replaced by `tmpl`, and the result becomes the
/// new file name next to `p` (an absolute result replaces the whole path,
/// as `Path::with_file_name` has it).
pub open spec fn plan_target_spec(pat: Seq<char>, tmpl: Seq<char>, p: Seq<char>) -> Seq<char> {
    with_file_name_spec(p, regex_replaced(pat, tmpl, p))
}

/// Compute the rename pair for one source path.
pub fn rename_by_regex(source: &str, source_pattern: &str, target_pattern: &str) -> (r: PlanEntry)
    requires
        regex_valid(source_pattern@),
    ensures
        r.source@ == source@,
        r.target@ == plan_target_spec(source_pattern@, target_pattern@, source@),
{
    let new_name = substitute_first(source, source_pattern, target_pattern);
    let target = with_file_name(source, new_name.as_str());
    PlanEntry { source: source.to_owned(), target }
}

/// Plan the whole batch: make each matched path absolute against `cwd`, then
/// compute its rename pair.
pub fn plan_renames(
    matched: &Vec<String>,
    cwd: &str,
    source_pattern: &str,
    target_pattern: &str,
) -> (r: Vec<PlanEntry>)
    requires
        regex_valid(source_pattern@),
    ensures
        r@.len() == matched@.len(),
        forall|i: int|
            0 <= i < r@.len() ==> (#[trigger] r@[i]).source@ == join_path_spec(
                cwd@,
                matched.deep_view()[i],
            ),
        forall|i: int|
            0 <= i < r@.len() ==> (#[trigger] r@[i]).target@ == plan_target_spec(
                source_pattern@,
                target_pattern@,
                join_path_spec(cwd@, matched.deep_view()[i]),
            ),
{
    let mut r: Vec<PlanEntry> = Vec::new();
    let mut i: usize = 0;
    while i < matched.len()
        invariant
            0 <= i <= matched.len(),
            regex_valid(source_pattern@),
            matched.deep_view().len() == matched@.len(),
            r@.len() == i,
            forall|k: int|
                0 <= k < i ==> (#[trigger] r@[k]).source@ == join_path_spec(
                    cwd@,
                    matched.deep_view()[k],
                ),
            forall|k: int|
                0 <= k < i ==> (#[trigger] r@[k]).target@ == plan_target_spec(
                    source_pattern@,
                    target_pattern@,
                    join_path_spec(cwd@, matched.deep_view()[k]),
                ),
        decreases matched.len() - i,
    {
        proof {
            assert(matched.deep_view()[i as int] == matched[i as int]@);
        }
        let abs = join_path(cwd, matched[i].as_str());
        let entry = rename_by_regex(abs.as_str(), source_pattern, target_pattern);
        r.push(entry);
        i = i + 1;
    }
    r
}

/// The planned target's parent directory equals the source's parent
/// directory, whenever the substitution rewrote only the file-name part of
/// an absolute source: the replaced path keeps the source's directory prefix
/// and the new leaf holds no separator. (A template that inserts a
/// separator, or a match that rewrites the directory part, moves the file
/// instead, and is not covered.)
pub proof fn lemma_plan_keeps_parent(pat: Seq<char>, tmpl: Seq<char>, p: Seq<char>, leaf: Seq<char>)
    requires
        is_absolute(p),
        regex_replaced(pat, tmpl, p) == dir_prefix_of(p) + leaf,
        has_no_separator(leaf),
    ensures
        dir_prefix_of(plan_target_spec(pat, tmpl, p)) == dir_prefix_of(p),
        file_part_of(plan_target_spec(pat, tmpl, p)) == leaf,
{
    let prefix = dir_prefix_of(p);
    let replaced = regex_replaced(pat, tmpl, p);
    lemma_dir_prefix_len_bounds(p);
    lemma_dir_prefix_len_after_separator(p, 0);
    assert(prefix.len() >= 1);
    assert(prefix[0] == p[0]);
    assert(replaced[0] == '/');
    assert(is_absolute(replaced));
    assert(plan_target_spec(pat, tmpl, p) == replaced);
    lemma_dir_prefix_len_append(prefix, leaf);
    lemma_dir_prefix_idempotent(p);
    assert(dir_prefix_of(replaced) =~= prefix);
    assert(file_part_of(replaced) =~= leaf);
}

/// The same, for an entry as `plan_renames` builds it: a matched candidate
/// `rel`, made absolute against an absolute working directory, keeps its
/// parent directory whenever the substitution rewrote only the file name.
pub proof fn lemma_entry_keeps_parent(
    pat: Seq<char>,
    tmpl: Seq<char>,
    cwd: Seq<char>,
    rel: Seq<char>,
    leaf: Seq<char>,
)
    requires
        is_absolute(cwd),
        regex_replaced(pat, tmpl, join_path_spec(cwd, rel)) == dir_prefix_of(
            join_path_spec(cwd, rel),
        ) + leaf,
        has_no_separator(leaf),
    ensures
        dir_prefix_of(plan_target_spec(pat, tmpl, join_path_spec(cwd, rel))) == dir_prefix_of(
            join_path_spec(cwd, rel),
        ),
        file_part_of(plan_target_spec(pat, tmpl, join_path_spec(cwd, rel))) == leaf,
{
    lemma_join_absolute(cwd, rel);
    lemma_plan_keeps_parent(pat, tmpl, join_path_spec(cwd, rel), leaf);
}

} // verus!

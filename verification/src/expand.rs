//! The pattern-expansion stage: turn glob patterns into a list of candidate
//! paths, each kept once, in order of first appearance.
//!
//! The filesystem walk itself is the `glob` crate. What its iterator yields
//! depends on the filesystem, so nothing is assumed of the entries; the
//! deduplication applied on top of them is verified exactly.

use vstd::prelude::*;

verus! {

/// The error `glob::glob` returns for a pattern it rejects.
#[verifier::external_type_specification]
#[verifier::external_body]
pub struct ExPatternError(glob::PatternError);

/// The per-path error glob's iterator yields when a directory entry cannot
/// be read.
#[verifier::external_type_specification]
#[verifier::external_body]
pub struct ExGlobError(glob::GlobError);

/// Whether `pat` is a glob pattern that `glob::glob` accepts.
pub uninterp spec fn glob_pattern_valid(pat: Seq<char>) -> bool;

/// Relies on `glob::glob`: it returns `Err` exactly when the pattern itself
/// does not parse, and that depends on the pattern alone. What the iterator
/// then yields depends on the filesystem, so nothing is assumed of the
/// entries.
#[verifier::external_body]
fn glob_expand(pattern: &str) -> (r: Result<Vec<Result<String, glob::GlobError>>, glob::PatternError>)
    ensures
        r is Ok <==> glob_pattern_valid(pattern@),
{
    match glob::glob(pattern) {
        Ok(paths) => Ok(
            paths.map(|entry: glob::GlobResult| entry.map(|p| p.to_string_lossy().into_owned())).collect(),
        ),
        Err(e) => Err(e),
    }
}

/// `s` with every repeated path removed: the first occurrence of each path
/// is kept, in its original position relative to the other kept paths.
pub open spec fn dedup_spec(s: Seq<Seq<char>>) -> Seq<Seq<char>>
    decreases s.len(),
{
    if s.len() == 0 {
        Seq::empty()
    } else if s.drop_last().contains(s.last()) {
        dedup_spec(s.drop_last())
    } else {
        dedup_spec(s.drop_last()).push(s.last())
    }
}

/// A path appears in the deduplicated sequence iff it appears in the
/// original one.
pub proof fn lemma_dedup_membership(s: Seq<Seq<char>>, c: Seq<char>)
    ensures
        dedup_spec(s).contains(c) <==> s.contains(c),
    decreases s.len(),
{
    if s.len() > 0 {
        lemma_dedup_membership(s.drop_last(), c);
        assert(s.contains(c) <==> (s.drop_last().contains(c) || s.last() == c)) by {
            if s.contains(c) {
                let i = choose|i: int| 0 <= i < s.len() && s[i] == c;
                if i < s.len() - 1 {
                    assert(s.drop_last()[i] == c);
                }
            }
            if s.drop_last().contains(c) {
                let i = choose|i: int| 0 <= i < s.drop_last().len() && s.drop_last()[i] == c;
                assert(s[i] == c);
            }
            if s.last() == c {
                assert(s[s.len() - 1] == c);
            }
        }
        if !s.drop_last().contains(s.last()) {
            let d = dedup_spec(s.drop_last());
            assert(d.push(s.last()).contains(c) <==> (d.contains(c) || s.last() == c)) by {
                if d.push(s.last()).contains(c) {
                    let i = choose|i: int|
                        0 <= i < d.push(s.last()).len() && d.push(s.last())[i] == c;
                    if i < d.len() {
                        assert(d[i] == c);
                    }
                }
                if d.contains(c) {
                    let i = choose|i: int| 0 <= i < d.len() && d[i] == c;
                    assert(d.push(s.last())[i] == c);
                }
                if s.last() == c {
                    assert(d.push(s.last())[d.len() as int] == c);
                }
            }
        }
    }
}

/// The deduplicated sequence holds each of its paths exactly once.
pub proof fn lemma_dedup_no_duplicates(s: Seq<Seq<char>>)
    ensures
        dedup_spec(s).no_duplicates(),
    decreases s.len(),
{
    if s.len() > 0 {
        lemma_dedup_no_duplicates(s.drop_last());
        if !s.drop_last().contains(s.last()) {
            let d = dedup_spec(s.drop_last());
            lemma_dedup_membership(s.drop_last(), s.last());
            assert(!d.contains(s.last()));
            assert forall|i: int, j: int|
                0 <= i < d.push(s.last()).len() && 0 <= j < d.push(s.last()).len() && i != j
                implies d.push(s.last())[i] != d.push(s.last())[j] by {
                if i < d.len() && j < d.len() {
                    assert(d[i] != d[j]);
                } else if i < d.len() {
                    assert(d.contains(d[i]) <== d[i] == d[i]);
                    assert(d[i] != s.last()) by {
                        if d[i] == s.last() {
                            assert(d.contains(s.last()));
                        }
                    }
                } else if j < d.len() {
                    assert(d[j] != s.last()) by {
                        if d[j] == s.last() {
                            assert(d.contains(s.last()));
                        }
                    }
                }
            }
        }
    }
}

/// Deduplication changes nothing once every path is already unique — so
/// applying it twice is the same as applying it once.
pub proof fn lemma_dedup_identity(s: Seq<Seq<char>>)
    requires
        s.no_duplicates(),
    ensures
        dedup_spec(s) == s,
    decreases s.len(),
{
    if s.len() > 0 {
        assert(s.drop_last().no_duplicates());
        lemma_dedup_identity(s.drop_last());
        assert(!s.drop_last().contains(s.last())) by {
            if s.drop_last().contains(s.last()) {
                let i = choose|i: int|
                    0 <= i < s.drop_last().len() && s.drop_last()[i] == s.last();
                assert(s[i] == s[s.len() - 1]);
            }
        }
        assert(dedup_spec(s) =~= s);
    }
}

/// Whether `v` holds the path `c`.
fn vec_contains(v: &Vec<String>, c: &String) -> (r: bool)
    ensures
        r == v.deep_view().contains(c@),
{
    let mut j: usize = 0;
    while j < v.len()
        invariant
            0 <= j <= v.len(),
            v.deep_view().len() == v.len(),
            forall|k: int| 0 <= k < j ==> v.deep_view()[k] != c@,
        decreases v.len() - j,
    {
        if v[j].eq(c) {
            proof {
                assert(v.deep_view()[j as int] == c@);
            }
            return true;
        }
        j = j + 1;
    }
    proof {
        assert forall|k: int| 0 <= k < v.deep_view().len() implies v.deep_view()[k] != c@ by {}
    }
    false
}

/// Remove every repeated path, keeping the first occurrence of each.
pub fn dedup_paths(v: &Vec<String>) -> (r: Vec<String>)
    ensures
        r.deep_view() == dedup_spec(v.deep_view()),
{
    let mut r: Vec<String> = Vec::new();
    let mut i: usize = 0;
    proof {
        assert(r.deep_view() =~= dedup_spec(v.deep_view().subrange(0, 0)));
    }
    while i < v.len()
        invariant
            0 <= i <= v.len(),
            v.deep_view().len() == v.len(),
            r.deep_view() == dedup_spec(v.deep_view().subrange(0, i as int)),
        decreases v.len() - i,
    {
        let ghost pre = v.deep_view().subrange(0, i as int);
        let ghost cur = v.deep_view().subrange(0, i + 1);
        proof {
            assert(cur.drop_last() =~= pre);
            assert(cur.last() == v.deep_view()[i as int]);
            lemma_dedup_membership(pre, cur.last());
        }
        if !vec_contains(&r, &v[i]) {
            r.push(v[i].clone());
            proof {
                assert(r.deep_view() =~= dedup_spec(pre).push(cur.last()));
            }
        }
        i = i + 1;
    }
    proof {
        assert(v.deep_view().subrange(0, v.len() as int) =~= v.deep_view());
    }
    r
}

/// Expand every pattern in order and keep each matched path once, in order
/// of first appearance. Per-path read errors are handed back for reporting
/// and do not stop the expansion; an invalid pattern stops it at once.
pub fn expand_patterns(patterns: &Vec<String>) -> (r: Result<
    (Vec<String>, Vec<glob::GlobError>),
    glob::PatternError,
>)
    ensures
        r is Ok <==> (forall|i: int|
            0 <= i < patterns.deep_view().len() ==> glob_pattern_valid(patterns.deep_view()[i])),
        r is Ok ==> r->Ok_0.0.deep_view().no_duplicates(),
{
    let mut collected: Vec<String> = Vec::new();
    let mut read_errors: Vec<glob::GlobError> = Vec::new();
    let mut i: usize = 0;
    while i < patterns.len()
        invariant
            0 <= i <= patterns.len(),
            patterns.deep_view().len() == patterns.len(),
            forall|k: int| 0 <= k < i ==> glob_pattern_valid(patterns.deep_view()[k]),
        decreases patterns.len() - i,
    {
        proof {
            assert(patterns.deep_view()[i as int] == patterns[i as int]@);
        }
        match glob_expand(patterns[i].as_str()) {
            Ok(mut entries) => {
                while entries.len() > 0
                    decreases entries.len(),
                {
                    match entries.remove(0) {
                        Ok(path) => collected.push(path),
                        Err(e) => read_errors.push(e),
                    }
                }
            },
            Err(e) => {
                return Err(e);
            },
        }
        i = i + 1;
    }
    let unique = dedup_paths(&collected);
    proof {
        lemma_dedup_no_duplicates(collected.deep_view());
    }
    Ok((unique, read_errors))
}

} // verus!

//! The regex filter stage: test each candidate path against the source
//! pattern and keep exactly the candidates in which the pattern finds a
//! match.
//!
//! The regular-expression engine itself is the `regex` crate; its results are
//! named by uninterpreted spec functions, and everything built on top of them
//! is verified against those names.

use vstd::prelude::*;

verus! {

/// The error `regex::Regex::new` returns for a pattern it rejects.
#[verifier::external_type_specification]
#[verifier::external_body]
pub struct ExRegexError(regex::Error);

/// Whether `pat` is a regular expression that `regex::Regex::new` accepts.
pub uninterp spec fn regex_valid(pat: Seq<char>) -> bool;

/// Whether the regular expression `pat` finds a match anywhere in `text`.
/// Meaningful only for valid `pat`.
pub uninterp spec fn regex_found(pat: Seq<char>, text: Seq<char>) -> bool;

/// `text` with the leftmost match of `pat` replaced by `tmpl`, capture-group
/// references in `tmpl` expanded. Meaningful only for valid `pat`.
pub uninterp spec fn regex_replaced(pat: Seq<char>, tmpl: Seq<char>, text: Seq<char>) -> Seq<char>;

/// Relies on `regex::Regex::new`: whether a pattern compiles depends on the
/// pattern alone, and the error says why it did not.
#[verifier::external_body]
pub(crate) fn regex_compile_check(pat: &str) -> (r: Result<(), regex::Error>)
    ensures
        r is Ok <==> regex_valid(pat@),
{
    match regex::Regex::new(pat) {
        Ok(_) => Ok(()),
        Err(e) => Err(e),
    }
}

/// Relies on `regex::Regex::new` and `regex::Regex::captures`: for a valid
/// pattern, whether captures are found depends on the pattern and the text
/// alone, and they are found iff the pattern matches somewhere in the text.
#[verifier::external_body]
fn regex_find(pat: &str, text: &str) -> (r: bool)
    requires
        regex_valid(pat@),
    ensures
        r == regex_found(pat@, text@),
{
    let re = regex::Regex::new(pat).unwrap();
    re.captures(text).is_some()
}

/// Relies on `regex::Regex::new` and `regex::Regex::replace`: for a valid
/// pattern the replacement depends on the pattern, the template and the text
/// alone, and the text comes back unchanged when the pattern finds no match
/// in it.
#[verifier::external_body]
fn regex_replace_first(pat: &str, tmpl: &str, text: &str) -> (r: String)
    requires
        regex_valid(pat@),
    ensures
        r@ == regex_replaced(pat@, tmpl@, text@),
        !regex_found(pat@, text@) ==> r@ == text@,
{
    let re = regex::Regex::new(pat).unwrap();
    re.replace(text, tmpl).into_owned()
}

/// Whether the source pattern matches anywhere in `source`.
pub fn match_by_regex(source: &str, source_pattern: &str) -> (r: bool)
    requires
        regex_valid(source_pattern@),
    ensures
        r == regex_found(source_pattern@, source@),
{
    regex_find(source_pattern, source)
}

/// `source` with the leftmost match of the source pattern replaced by the
/// target template.
pub fn substitute_first(source: &str, source_pattern: &str, target_pattern: &str) -> (r: String)
    requires
        regex_valid(source_pattern@),
    ensures
        r@ == regex_replaced(source_pattern@, target_pattern@, source@),
        !regex_found(source_pattern@, source@) ==> r@ == source@,
{
    regex_replace_first(source_pattern, target_pattern, source)
}

/// The candidates in which `pat` finds a match, in order.
pub open spec fn filter_spec(cands: Seq<Seq<char>>, pat: Seq<char>) -> Seq<Seq<char>>
    decreases cands.len(),
{
    if cands.len() == 0 {
        Seq::empty()
    } else if regex_found(pat, cands.last()) {
        filter_spec(cands.drop_last(), pat).push(cands.last())
    } else {
        filter_spec(cands.drop_last(), pat)
    }
}

/// A path appears in the filtered sequence iff it appears among the
/// candidates and the pattern finds a match in it.
pub proof fn lemma_filter_membership(cands: Seq<Seq<char>>, pat: Seq<char>, c: Seq<char>)
    ensures
        filter_spec(cands, pat).contains(c) <==> (cands.contains(c) && regex_found(pat, c)),
    decreases cands.len(),
{
    if cands.len() > 0 {
        lemma_filter_membership(cands.drop_last(), pat, c);
        assert(cands.contains(c) <==> (cands.drop_last().contains(c) || cands.last() == c)) by {
            if cands.contains(c) {
                let i = choose|i: int| 0 <= i < cands.len() && cands[i] == c;
                if i < cands.len() - 1 {
                    assert(cands.drop_last()[i] == c);
                }
            }
            if cands.drop_last().contains(c) {
                let i = choose|i: int|
                    0 <= i < cands.drop_last().len() && cands.drop_last()[i] == c;
                assert(cands[i] == c);
            }
            if cands.last() == c {
                assert(cands[cands.len() - 1] == c);
            }
        }
        if regex_found(pat, cands.last()) {
            let f = filter_spec(cands.drop_last(), pat);
            assert(filter_spec(cands, pat) == f.push(cands.last()));
            assert(f.push(cands.last()).contains(c) <==> (f.contains(c) || cands.last() == c)) by {
                if f.push(cands.last()).contains(c) {
                    let i = choose|i: int|
                        0 <= i < f.push(cands.last()).len() && f.push(cands.last())[i] == c;
                    if i < f.len() {
                        assert(f[i] == c);
                    }
                }
                if f.contains(c) {
                    let i = choose|i: int| 0 <= i < f.len() && f[i] == c;
                    assert(f.push(cands.last())[i] == c);
                }
                if cands.last() == c {
                    assert(f.push(cands.last())[f.len() as int] == c);
                }
            }
        }
    }
}

/// Filtering keeps deduplicated candidates deduplicated: each matching path
/// appears in the filtered sequence exactly once.
pub proof fn lemma_filter_no_duplicates(cands: Seq<Seq<char>>, pat: Seq<char>)
    requires
        cands.no_duplicates(),
    ensures
        filter_spec(cands, pat).no_duplicates(),
    decreases cands.len(),
{
    if cands.len() > 0 {
        assert(cands.drop_last().no_duplicates());
        lemma_filter_no_duplicates(cands.drop_last(), pat);
        if regex_found(pat, cands.last()) {
            let f = filter_spec(cands.drop_last(), pat);
            assert(!cands.drop_last().contains(cands.last())) by {
                if cands.drop_last().contains(cands.last()) {
                    let i = choose|i: int|
                        0 <= i < cands.drop_last().len() && cands.drop_last()[i] == cands.last();
                    assert(cands[i] == cands[cands.len() - 1]);
                }
            }
            lemma_filter_membership(cands.drop_last(), pat, cands.last());
            assert(!f.contains(cands.last()));
            assert forall|i: int, j: int|
                0 <= i < f.push(cands.last()).len() && 0 <= j < f.push(cands.last()).len() && i
                    != j implies f.push(cands.last())[i] != f.push(cands.last())[j] by {
                if i < f.len() && j < f.len() {
                    assert(f[i] != f[j]);
                } else if i < f.len() {
                    assert(f[i] != cands.last()) by {
                        if f[i] == cands.last() {
                            assert(f.contains(cands.last()));
                        }
                    }
                } else if j < f.len() {
                    assert(f[j] != cands.last()) by {
                        if f[j] == cands.last() {
                            assert(f.contains(cands.last()));
                        }
                    }
                }
            }
        }
    }
}

/// Keep exactly the candidates in which the source pattern finds a match,
/// in their original order.
pub fn filter_candidates(candidates: &Vec<String>, source_pattern: &str) -> (r: Vec<String>)
    requires
        regex_valid(source_pattern@),
    ensures
        r.deep_view() == filter_spec(candidates.deep_view(), source_pattern@),
{
    let mut r: Vec<String> = Vec::new();
    let mut i: usize = 0;
    proof {
        assert(r.deep_view() =~= filter_spec(candidates.deep_view().subrange(0, 0), source_pattern@));
    }
    while i < candidates.len()
        invariant
            0 <= i <= candidates.len(),
            regex_valid(source_pattern@),
            candidates.deep_view().len() == candidates.len(),
            r.deep_view() == filter_spec(candidates.deep_view().subrange(0, i as int), source_pattern@),
        decreases candidates.len() - i,
    {
        let ghost pre = candidates.deep_view().subrange(0, i as int);
        let ghost cur = candidates.deep_view().subrange(0, i + 1);
        proof {
            assert(cur.drop_last() =~= pre);
            assert(cur.last() == candidates.deep_view()[i as int]);
        }
        if match_by_regex(candidates[i].as_str(), source_pattern) {
            r.push(candidates[i].clone());
            proof {
                assert(r.deep_view() =~= filter_spec(pre, source_pattern@).push(cur.last()));
            }
        }
        i = i + 1;
    }
    proof {
        assert(candidates.deep_view().subrange(0, candidates.len() as int) =~= candidates.deep_view());
    }
    r
}

} // verus!

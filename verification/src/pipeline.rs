//! The whole planning pipeline of one invocation: validate the regex, expand
//! the glob patterns, filter the candidates, and compute the rename plan.
//!
//! Fatal errors — an invalid regex or an invalid glob pattern — stop the
//! pipeline before any plan exists, so nothing is ever renamed after one.
//! Per-path read errors are only collected for reporting.

use vstd::prelude::*;
use crate::expand::{expand_patterns, glob_pattern_valid};
use crate::matching::{
    filter_candidates, filter_spec, lemma_filter_no_duplicates, regex_compile_check, regex_valid,
};
use crate::plan::{plan_renames, plan_target_spec, PlanEntry};
use crate::paths::join_path_spec;

verus! {

/// A top-level fatal error: the run aborts with a message, and nothing is
/// attempted.
#[derive(Debug)]
pub enum FatalError {
    /// The source regular expression does not compile.
    InvalidRegex(regex::Error),
    /// A glob pattern does not parse.
    InvalidPattern(glob::PatternError),
}

/// Everything planning produced: the deduplicated candidates the globs
/// matched, the planned renames for the candidates the regex matched, and
/// the per-path read errors to report.
pub struct PlanOutcome {
    /// Every path the glob expansion produced, each exactly once, in order
    /// of first appearance.
    pub candidates: Vec<String>,
    /// One planned rename per matching candidate, in order.
    pub entries: Vec<PlanEntry>,
    /// The read errors the expansion reported; they skip their path only.
    pub read_errors: Vec<glob::GlobError>,
}

/// Plan one invocation: compile-check the source regex, expand the glob
/// patterns, keep the candidates the regex matches, and compute each one's
/// target. Nothing here touches the filesystem beyond reading directory
/// entries, so a run that stops at the plan mutates nothing.
pub fn build_plan(
    patterns: &Vec<String>,
    source_pattern: &str,
    target_pattern: &str,
    cwd: &str,
) -> (r: Result<PlanOutcome, FatalError>)
    ensures
        (r matches Err(e) && e is InvalidRegex) <==> !regex_valid(source_pattern@),
        regex_valid(source_pattern@) ==> ((r is Ok) <==> (forall|i: int|
            0 <= i < patterns.deep_view().len() ==> glob_pattern_valid(patterns.deep_view()[i]))),
        r matches Ok(o) ==> {
            let matched = filter_spec(o.candidates.deep_view(), source_pattern@);
            &&& o.candidates.deep_view().no_duplicates()
            &&& matched.no_duplicates()
            &&& o.entries@.len() == matched.len()
            &&& (forall|i: int|
                0 <= i < o.entries@.len() ==> (#[trigger] o.entries@[i]).source@ == join_path_spec(
                    cwd@,
                    matched[i],
                ))
            &&& (forall|i: int|
                0 <= i < o.entries@.len() ==> (#[trigger] o.entries@[i]).target@
                    == plan_target_spec(
                    source_pattern@,
                    target_pattern@,
                    join_path_spec(cwd@, matched[i]),
                ))
        },
{
    if let Err(e) = regex_compile_check(source_pattern) {
        return Err(FatalError::InvalidRegex(e));
    }
    let (candidates, read_errors) = match expand_patterns(patterns) {
        Ok(pair) => pair,
        Err(e) => {
            return Err(FatalError::InvalidPattern(e));
        },
    };
    let matched = filter_candidates(&candidates, source_pattern);
    proof {
        lemma_filter_no_duplicates(candidates.deep_view(), source_pattern@);
    }
    let entries = plan_renames(&matched, cwd, source_pattern, target_pattern);
    Ok(PlanOutcome { candidates, entries, read_errors })
}

} // verus!

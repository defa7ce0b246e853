//! The execution-time decision for each planned rename.
//!
//! The library never renames a file itself; the surrounding binary checks
//! whether each target exists at execution time, asks for the decision here,
//! and performs only the renames this module allows. Each decision depends
//! on its own entry alone, so one occupied target never blocks the rest of
//! the batch.

use vstd::prelude::*;
use crate::plan::PlanEntry;

verus! {

/// What the executor should do with one planned rename.
#[derive(Clone, Copy, Debug, PartialEq, Eq, Structural)]
pub enum ApplyDecision {
    /// Target and source are the same path: nothing to do, reported as a
    /// success.
    AlreadyNamed,
    /// The target is free: perform the rename.
    DoRename,
    /// A distinct entry already holds the target name: report a
    /// "target exists" failure for this entry, leave the source untouched,
    /// and go on with the remaining entries.
    TargetExists,
}

/// The decision for one entry, from the planned pair and from whether the
/// target path exists at execution time.
pub open spec fn decide_apply_spec(
    source: Seq<char>,
    target: Seq<char>,
    target_exists: bool,
) -> ApplyDecision {
    if source == target {
        ApplyDecision::AlreadyNamed
    } else if target_exists {
        ApplyDecision::TargetExists
    } else {
        ApplyDecision::DoRename
    }
}

/// Whether two path strings are equal, character by character.
pub fn str_eq(a: &str, b: &str) -> (r: bool)
    ensures
        r == (a@ == b@),
{
    let n = a.unicode_len();
    if n != b.unicode_len() {
        return false;
    }
    let mut i: usize = 0;
    while i < n
        invariant
            0 <= i <= n,
            n == a@.len(),
            n == b@.len(),
            forall|k: int| 0 <= k < i ==> a@[k] == b@[k],
        decreases n - i,
    {
        if a.get_char(i) != b.get_char(i) {
            return false;
        }
        i = i + 1;
    }
    proof {
        assert(a@ =~= b@);
    }
    true
}

/// Decide one planned rename at execution time. A target identical to the
/// source is a no-op that still counts as a success; an occupied target
/// fails this entry alone; otherwise the rename may proceed.
pub fn decide_apply(source: &str, target: &str, target_exists: bool) -> (r: ApplyDecision)
    ensures
        r == decide_apply_spec(source@, target@, target_exists),
{
    if str_eq(source, target) {
        ApplyDecision::AlreadyNamed
    } else if target_exists {
        ApplyDecision::TargetExists
    } else {
        ApplyDecision::DoRename
    }
}

/// Decide every entry of the plan against the execution-time existence of
/// its target. Each decision is a function of its own entry alone, so a
/// failure of one entry leaves every other decision as it would have been.
pub fn decide_batch(plan: &Vec<PlanEntry>, target_exists: &Vec<bool>) -> (r: Vec<ApplyDecision>)
    requires
        plan@.len() == target_exists@.len(),
    ensures
        r@.len() == plan@.len(),
        forall|i: int|
            0 <= i < r@.len() ==> r@[i] == decide_apply_spec(
                plan@[i].source@,
                plan@[i].target@,
                target_exists@[i],
            ),
{
    let mut r: Vec<ApplyDecision> = Vec::new();
    let mut i: usize = 0;
    while i < plan.len()
        invariant
            0 <= i <= plan.len(),
            plan@.len() == target_exists@.len(),
            r@.len() == i,
            forall|k: int|
                0 <= k < i ==> r@[k] == decide_apply_spec(
                    plan@[k].source@,
                    plan@[k].target@,
                    target_exists@[k],
                ),
        decreases plan.len() - i,
    {
        let d = decide_apply(plan[i].source.as_str(), plan[i].target.as_str(), target_exists[i]);
        r.push(d);
        i = i + 1;
    }
    r
}

} // verus!

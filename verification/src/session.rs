//! The stages of one invocation, as a state machine.
//!
//! Control flows strictly forward: expand, filter, plan, then either confirm
//! or cancel, then execute. `Cancelled` and `Done` are terminal, and the
//! executing stage is reachable only through `Confirmed`, so a declined
//! confirmation gates every filesystem mutation. The surrounding binary
//! drives the machine and mutates the filesystem only in the executing
//! stage.

use vstd::prelude::*;

verus! {

/// Where one invocation stands.
#[derive(Clone, Copy, Debug, PartialEq, Eq, Structural)]
pub enum Stage {
    Idle,
    Expanding,
    Filtering,
    Planning,
    /// The plan is printed and the run blocks on the confirmation answer.
    ConfirmationPending,
    Confirmed,
    /// The user declined: terminal, with zero renames performed.
    Cancelled,
    Executing,
    Done,
}

/// What the surrounding program reports back to the machine.
#[derive(Clone, Copy, Debug, PartialEq, Eq, Structural)]
pub enum Event {
    Begin,
    Expanded,
    Filtered,
    /// Planning finished: whether any candidate matched the regex, and
    /// whether the confirmation prompt is skipped (the `--yes` flag).
    Planned { any_matches: bool, skip_confirmation: bool },
    /// The confirmation answer, already classified.
    Answer { affirmative: bool },
    Proceed,
    Executed,
}

/// A stage the run never leaves.
pub open spec fn is_terminal(s: Stage) -> bool {
    s == Stage::Cancelled || s == Stage::Done
}

/// The transition relation: one step forward through the pipeline. An event
/// that does not belong to the current stage leaves the stage unchanged.
pub open spec fn step_spec(s: Stage, e: Event) -> Stage {
    match (s, e) {
        (Stage::Idle, Event::Begin) => Stage::Expanding,
        (Stage::Expanding, Event::Expanded) => Stage::Filtering,
        (Stage::Filtering, Event::Filtered) => Stage::Planning,
        (Stage::Planning, Event::Planned { any_matches, skip_confirmation }) => if !any_matches {
            Stage::Done
        } else if skip_confirmation {
            Stage::Confirmed
        } else {
            Stage::ConfirmationPending
        },
        (Stage::ConfirmationPending, Event::Answer { affirmative }) => if affirmative {
            Stage::Confirmed
        } else {
            Stage::Cancelled
        },
        (Stage::Confirmed, Event::Proceed) => Stage::Executing,
        (Stage::Executing, Event::Executed) => Stage::Done,
        _ => s,
    }
}

/// Advance the run by one event.
pub fn step(s: Stage, e: Event) -> (r: Stage)
    ensures
        r == step_spec(s, e),
{
    match (s, e) {
        (Stage::Idle, Event::Begin) => Stage::Expanding,
        (Stage::Expanding, Event::Expanded) => Stage::Filtering,
        (Stage::Filtering, Event::Filtered) => Stage::Planning,
        (Stage::Planning, Event::Planned { any_matches, skip_confirmation }) => if !any_matches {
            Stage::Done
        } else if skip_confirmation {
            Stage::Confirmed
        } else {
            Stage::ConfirmationPending
        },
        (Stage::ConfirmationPending, Event::Answer { affirmative }) => if affirmative {
            Stage::Confirmed
        } else {
            Stage::Cancelled
        },
        (Stage::Confirmed, Event::Proceed) => Stage::Executing,
        (Stage::Executing, Event::Executed) => Stage::Done,
        _ => s,
    }
}

/// The stage after a whole sequence of events.
pub open spec fn run_steps(s: Stage, es: Seq<Event>) -> Stage
    decreases es.len(),
{
    if es.len() == 0 {
        s
    } else {
        run_steps(step_spec(s, es[0]), es.drop_first())
    }
}

/// A terminal stage absorbs every later event.
pub proof fn lemma_terminal_absorbs(s: Stage, es: Seq<Event>)
    requires
        is_terminal(s),
    ensures
        run_steps(s, es) == s,
    decreases es.len(),
{
    if es.len() > 0 {
        assert(step_spec(s, es[0]) == s);
        lemma_terminal_absorbs(s, es.drop_first());
    }
}

/// Confirmation gating: with the prompt pending, a declining answer cancels
/// the run, and no sequence of later events ever brings it to the executing
/// stage — so zero filesystem mutations follow a decline.
pub proof fn lemma_decline_gates_execution(es: Seq<Event>)
    ensures
        step_spec(Stage::ConfirmationPending, Event::Answer { affirmative: false })
            == Stage::Cancelled,
        run_steps(
            step_spec(Stage::ConfirmationPending, Event::Answer { affirmative: false }),
            es,
        ) != Stage::Executing,
{
    lemma_terminal_absorbs(Stage::Cancelled, es);
}

/// With the `--yes` flag, a plan with matches moves straight to `Confirmed`:
/// the run never enters the stage that blocks on standard input.
pub proof fn lemma_yes_skips_prompt(any_matches: bool)
    ensures
        step_spec(
            Stage::Planning,
            Event::Planned { any_matches, skip_confirmation: true },
        ) != Stage::ConfirmationPending,
        any_matches ==> step_spec(
            Stage::Planning,
            Event::Planned { any_matches, skip_confirmation: true },
        ) == Stage::Confirmed,
{
}

/// The status line a run reports when it mutates nothing.
#[derive(Clone, Copy, Debug, PartialEq, Eq, Structural)]
pub enum RunStatus {
    /// The glob patterns matched no path at all.
    NoFilesMatched,
    /// The globs matched, but the regex filtered every candidate out: zero
    /// files renamed, which is not the "no files matched" outcome.
    NothingRenamed,
    /// The plan is non-empty and goes on to confirmation.
    PlanReady,
}

/// Which status a run reports, from the candidate count after expansion and
/// the match count after the regex filter.
pub open spec fn run_status_spec(n_candidates: nat, n_matched: nat) -> RunStatus {
    if n_candidates == 0 {
        RunStatus::NoFilesMatched
    } else if n_matched == 0 {
        RunStatus::NothingRenamed
    } else {
        RunStatus::PlanReady
    }
}

/// Report the run's status from its counts.
pub fn run_status(n_candidates: usize, n_matched: usize) -> (r: RunStatus)
    ensures
        r == run_status_spec(n_candidates as nat, n_matched as nat),
{
    if n_candidates == 0 {
        RunStatus::NoFilesMatched
    } else if n_matched == 0 {
        RunStatus::NothingRenamed
    } else {
        RunStatus::PlanReady
    }
}

} // verus!

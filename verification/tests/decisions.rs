use exrn::confirm::is_affirmative;
use exrn::execute::{decide_apply, decide_batch, ApplyDecision};
use exrn::plan::PlanEntry;
use exrn::session::{run_status, step, Event, RunStatus, Stage};

#[test]
fn renaming_to_the_same_name_is_a_noop_success() {
    assert_eq!(decide_apply("/w/a.txt", "/w/a.txt", true), ApplyDecision::AlreadyNamed);
}

#[test]
fn occupied_target_fails_that_entry() {
    assert_eq!(decide_apply("x.txt", "y.txt", true), ApplyDecision::TargetExists);
}

#[test]
fn free_target_proceeds() {
    assert_eq!(decide_apply("x.txt", "y.txt", false), ApplyDecision::DoRename);
}

#[test]
fn one_collision_leaves_the_other_entries_untouched() {
    let plan = vec![
        PlanEntry { source: "x.txt".to_string(), target: "y.txt".to_string() },
        PlanEntry { source: "a.txt".to_string(), target: "a.md".to_string() },
    ];
    let exists = vec![true, false];
    let decisions = decide_batch(&plan, &exists);
    assert_eq!(decisions, vec![ApplyDecision::TargetExists, ApplyDecision::DoRename]);
}

#[test]
fn affirmative_answers() {
    assert!(is_affirmative("y"));
    assert!(is_affirmative("Y\n"));
    assert!(is_affirmative("  yes \r\n"));
    assert!(is_affirmative("YES"));
    assert!(is_affirmative("yEs"));
}

#[test]
fn trimming_matches_str_trim() {
    assert!(is_affirmative("\u{000B}y"));
    assert!(is_affirmative("\u{00A0}yes\u{3000}"));
    assert!(is_affirmative("\u{2028}Y\u{0085}"));
    for answer in ["\u{000B}y", "\u{00A0}yes\u{3000}", "\u{2028}Y\u{0085}", "\u{2007}no"] {
        let reference = {
            let t = answer.trim().to_lowercase();
            t == "y" || t == "yes"
        };
        assert_eq!(is_affirmative(answer), reference);
    }
}

#[test]
fn declining_answers() {
    assert!(!is_affirmative("n"));
    assert!(!is_affirmative(""));
    assert!(!is_affirmative("  \n"));
    assert!(!is_affirmative("yess"));
    assert!(!is_affirmative("y e s"));
    assert!(!is_affirmative("no"));
}

#[test]
fn decline_cancels_and_stays_cancelled() {
    let s = step(Stage::ConfirmationPending, Event::Answer { affirmative: false });
    assert_eq!(s, Stage::Cancelled);
    assert_eq!(step(s, Event::Proceed), Stage::Cancelled);
    assert_eq!(step(s, Event::Executed), Stage::Cancelled);
}

#[test]
fn yes_flag_skips_the_prompt() {
    let s = step(
        Stage::Planning,
        Event::Planned { any_matches: true, skip_confirmation: true },
    );
    assert_eq!(s, Stage::Confirmed);
    assert_eq!(step(s, Event::Proceed), Stage::Executing);
}

#[test]
fn full_run_reaches_done() {
    let mut s = Stage::Idle;
    s = step(s, Event::Begin);
    assert_eq!(s, Stage::Expanding);
    s = step(s, Event::Expanded);
    assert_eq!(s, Stage::Filtering);
    s = step(s, Event::Filtered);
    assert_eq!(s, Stage::Planning);
    s = step(s, Event::Planned { any_matches: true, skip_confirmation: false });
    assert_eq!(s, Stage::ConfirmationPending);
    s = step(s, Event::Answer { affirmative: true });
    assert_eq!(s, Stage::Confirmed);
    s = step(s, Event::Proceed);
    assert_eq!(s, Stage::Executing);
    s = step(s, Event::Executed);
    assert_eq!(s, Stage::Done);
}

#[test]
fn empty_plan_ends_the_run_without_a_prompt() {
    let s = step(
        Stage::Planning,
        Event::Planned { any_matches: false, skip_confirmation: false },
    );
    assert_eq!(s, Stage::Done);
}

#[test]
fn status_distinguishes_no_candidates_from_no_matches() {
    assert_eq!(run_status(0, 0), RunStatus::NoFilesMatched);
    assert_eq!(run_status(3, 0), RunStatus::NothingRenamed);
    assert_eq!(run_status(3, 2), RunStatus::PlanReady);
}

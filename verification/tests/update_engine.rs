use sammy::repository::Repository;
use sammy::update::{
    parse_confirmation, update_plan, Confirmation, UpdateAction, UpdateEngine, UpdateStatus,
};

fn engine(stay: bool) -> UpdateEngine {
    UpdateEngine::new(String::from("develop"), String::from("feature"), stay)
}

#[test]
fn pending_changes_stop_the_sequence() {
    let mut e = engine(false);
    assert_eq!(e.next_action(), UpdateAction::CheckPendingChanges);
    e.step(true);
    assert_eq!(e.next_action(), UpdateAction::Report);
    assert_eq!(e.outcome(), Some(UpdateStatus::PendingChanges));
}

#[test]
fn pending_changes_with_stay_still_run_the_restore_step() {
    let mut e = engine(true);
    e.step(true);
    assert_eq!(e.next_action(), UpdateAction::RestoreBranch);
    e.step(true);
    assert_eq!(e.next_action(), UpdateAction::Report);
    assert_eq!(e.outcome(), Some(UpdateStatus::PendingChanges));
}

#[test]
fn fetch_failure_prevents_checkout_and_pull() {
    let mut e = engine(false);
    e.step(false);
    assert_eq!(e.next_action(), UpdateAction::Fetch);
    e.step(false);
    assert_eq!(e.next_action(), UpdateAction::Report);
    assert_eq!(e.outcome(), Some(UpdateStatus::UnableToFetch));
}

#[test]
fn checkout_failure_prevents_pull() {
    let mut e = engine(false);
    e.step(false);
    e.step(true);
    assert_eq!(e.next_action(), UpdateAction::Checkout);
    e.step(false);
    assert_eq!(e.next_action(), UpdateAction::Report);
    assert_eq!(e.outcome(), Some(UpdateStatus::UnableToCheckout));
}

#[test]
fn pull_failure_is_reported() {
    let mut e = engine(false);
    e.step(false);
    e.step(true);
    e.step(true);
    assert_eq!(e.next_action(), UpdateAction::Pull);
    e.step(false);
    assert_eq!(e.outcome(), Some(UpdateStatus::UnableToPull));
}

#[test]
fn full_success_without_stay_ends_on_target_branch() {
    let mut branch = String::from("feature");
    let mut e = engine(false);
    loop {
        match e.next_action() {
            UpdateAction::CheckPendingChanges => e.step(false),
            UpdateAction::Fetch => e.step(true),
            UpdateAction::Checkout => {
                branch = e.target_branch.clone();
                e.step(true);
            }
            UpdateAction::Pull => e.step(true),
            UpdateAction::RestoreBranch => {
                branch = e.original_branch.clone();
                e.step(true);
            }
            UpdateAction::Report => break,
            UpdateAction::Abort => panic!("restore step failed"),
        }
    }
    assert_eq!(e.outcome(), Some(UpdateStatus::Success));
    assert_eq!(branch, "develop");
}

#[test]
fn stay_restores_the_original_branch_after_success() {
    let mut branch = String::from("feature");
    let mut was_on_target = false;
    let mut e = engine(true);
    loop {
        match e.next_action() {
            UpdateAction::CheckPendingChanges => e.step(false),
            UpdateAction::Fetch => e.step(true),
            UpdateAction::Checkout => {
                branch = e.target_branch.clone();
                e.step(true);
            }
            UpdateAction::Pull => {
                was_on_target = branch == "develop";
                e.step(true);
            }
            UpdateAction::RestoreBranch => {
                branch = e.original_branch.clone();
                e.step(true);
            }
            UpdateAction::Report => break,
            UpdateAction::Abort => panic!("restore step failed"),
        }
    }
    assert_eq!(e.outcome(), Some(UpdateStatus::Success));
    assert!(was_on_target);
    assert_eq!(branch, "feature");
}

#[test]
fn pull_failure_without_stay_leaves_the_target_branch_checked_out() {
    let mut branch = String::from("feature");
    let mut e = engine(false);
    loop {
        match e.next_action() {
            UpdateAction::CheckPendingChanges => e.step(false),
            UpdateAction::Fetch => e.step(true),
            UpdateAction::Checkout => {
                branch = e.target_branch.clone();
                e.step(true);
            }
            UpdateAction::Pull => e.step(false),
            UpdateAction::RestoreBranch => {
                branch = e.original_branch.clone();
                e.step(true);
            }
            UpdateAction::Report => break,
            UpdateAction::Abort => panic!("restore step failed"),
        }
    }
    assert_eq!(e.outcome(), Some(UpdateStatus::UnableToPull));
    assert_eq!(branch, "develop");
}

#[test]
fn declining_the_gate_leaves_nothing_to_update() {
    let repos = vec![
        Repository::new(String::from("./alpha")),
        Repository::new(String::from("./beta")),
    ];
    assert!(update_plan(Confirmation::No, repos).is_none());
}

#[test]
fn confirming_the_gate_passes_the_batch_through() {
    let repos = vec![
        Repository::new(String::from("./alpha")),
        Repository::new(String::from("./beta")),
    ];
    let plan = update_plan(Confirmation::Yes, repos).expect("confirmed batch");
    assert_eq!(plan.len(), 2);
    assert_eq!(plan[0].path, "./alpha");
    assert_eq!(plan[1].path, "./beta");
}

#[test]
fn confirmation_accepts_yes_in_any_case() {
    assert_eq!(parse_confirmation("y"), Some(Confirmation::Yes));
    assert_eq!(parse_confirmation("Y\n"), Some(Confirmation::Yes));
    assert_eq!(parse_confirmation("yes"), Some(Confirmation::Yes));
    assert_eq!(parse_confirmation("YeS\r\n"), Some(Confirmation::Yes));
}

#[test]
fn confirmation_accepts_no_in_any_case() {
    assert_eq!(parse_confirmation("n\n"), Some(Confirmation::No));
    assert_eq!(parse_confirmation("No\r\n"), Some(Confirmation::No));
    assert_eq!(parse_confirmation("NO"), Some(Confirmation::No));
}

#[test]
fn confirmation_rejects_anything_else() {
    assert_eq!(parse_confirmation(""), None);
    assert_eq!(parse_confirmation("\n"), None);
    assert_eq!(parse_confirmation("nope"), None);
    assert_eq!(parse_confirmation("yess"), None);
    assert_eq!(parse_confirmation("maybe"), None);
}

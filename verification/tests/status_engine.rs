use sammy::status::{
    get_repository_status, BranchStatus, StatusProbe, StatusQuery,
};

#[test]
fn equal_heads_are_up_to_date() {
    let status = get_repository_status(
        Some(String::from("0a1b2c")),
        Some(String::from("0a1b2c")),
        0,
    );
    assert_eq!(status, BranchStatus::UpToDate);
}

#[test]
fn equal_heads_are_up_to_date_whatever_the_divergence() {
    let status = get_repository_status(
        Some(String::from("0a1b2c")),
        Some(String::from("0a1b2c")),
        7,
    );
    assert_eq!(status, BranchStatus::UpToDate);
}

#[test]
fn missing_remote_wins_over_local_state() {
    let status = get_repository_status(None, Some(String::from("0a1b2c")), 5);
    assert_eq!(status, BranchStatus::RemoteNotFound);
    let status = get_repository_status(None, None, 0);
    assert_eq!(status, BranchStatus::RemoteNotFound);
}

#[test]
fn missing_local_branch_is_reported() {
    let status = get_repository_status(Some(String::from("0a1b2c")), None, 0);
    assert_eq!(status, BranchStatus::LocalNotFound);
}

#[test]
fn nonzero_divergence_means_local_ahead() {
    let status = get_repository_status(
        Some(String::from("0a1b2c")),
        Some(String::from("3d4e5f")),
        2,
    );
    assert_eq!(status, BranchStatus::LocalAhead);
}

#[test]
fn zero_divergence_means_update_available() {
    let status = get_repository_status(
        Some(String::from("0a1b2c")),
        Some(String::from("3d4e5f")),
        0,
    );
    assert_eq!(status, BranchStatus::UpdateAvailable);
}

#[test]
fn two_runs_without_mutation_agree() {
    let first = get_repository_status(
        Some(String::from("0a1b2c")),
        Some(String::from("3d4e5f")),
        2,
    );
    let second = get_repository_status(
        Some(String::from("0a1b2c")),
        Some(String::from("3d4e5f")),
        2,
    );
    assert_eq!(first, second);
}

#[test]
fn probe_asks_remote_first_and_stops_on_missing_remote() {
    let mut probe = StatusProbe::new();
    assert_eq!(probe.next_query(), StatusQuery::RemoteHead);
    probe.on_remote_head(None);
    assert_eq!(probe.next_query(), StatusQuery::Finished);
    assert_eq!(probe.status(), Some(BranchStatus::RemoteNotFound));
}

#[test]
fn probe_queries_divergence_only_for_differing_heads() {
    let mut probe = StatusProbe::new();
    probe.on_remote_head(Some(String::from("0a1b2c")));
    assert_eq!(probe.next_query(), StatusQuery::LocalHead);
    probe.on_local_head(Some(String::from("3d4e5f")));
    assert_eq!(probe.next_query(), StatusQuery::Divergence);
    probe.on_divergence(0);
    assert_eq!(probe.status(), Some(BranchStatus::UpdateAvailable));
}

#[test]
fn probe_skips_divergence_for_equal_heads() {
    let mut probe = StatusProbe::new();
    probe.on_remote_head(Some(String::from("0a1b2c")));
    probe.on_local_head(Some(String::from("0a1b2c")));
    assert_eq!(probe.next_query(), StatusQuery::Finished);
    assert_eq!(probe.status(), Some(BranchStatus::UpToDate));
}

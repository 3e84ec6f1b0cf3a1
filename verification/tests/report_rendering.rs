use sammy::config::{Config, ProjectConfig};
use sammy::discovery::{collect_repos, DirEntryInfo};
use sammy::report::{
    render_status_line, render_status_report, render_update_line, ProjectStatus, ReportColor,
    UpdateResult,
};
use sammy::status::{get_repository_status, BranchStatus};
use sammy::update::UpdateStatus;

#[test]
fn status_line_is_aligned_and_colored() {
    let line = render_status_line(&ProjectStatus {
        name: String::from("alpha"),
        status: BranchStatus::UpToDate,
        current_branch: Some(String::from("develop")),
        target_branch: String::from("develop"),
    });
    assert_eq!(
        line.prefix,
        format!("{:<35}{:<10}| ", "alpha", "develop")
    );
    assert_eq!(line.message, "up to date\n");
    assert_eq!(line.color, ReportColor::Green);
}

#[test]
fn status_line_without_current_branch_omits_the_column() {
    let line = render_status_line(&ProjectStatus {
        name: String::from("alpha"),
        status: BranchStatus::LocalNotFound,
        current_branch: None,
        target_branch: String::from("main"),
    });
    assert_eq!(line.prefix, format!("{:<35}| ", "alpha"));
    assert_eq!(line.message, "local 'main' branch not found\n");
    assert_eq!(line.color, ReportColor::Red);
}

#[test]
fn long_names_are_not_truncated() {
    let name = "a".repeat(40);
    let line = render_status_line(&ProjectStatus {
        name: name.clone(),
        status: BranchStatus::UpdateAvailable,
        current_branch: None,
        target_branch: String::from("develop"),
    });
    assert_eq!(line.prefix, format!("{}| ", name));
    assert_eq!(line.message, "update available\n");
    assert_eq!(line.color, ReportColor::Yellow);
}

#[test]
fn update_lines_cover_every_outcome() {
    let render = |status: UpdateStatus| {
        render_update_line(&UpdateResult {
            repository_name: String::from("alpha"),
            target_branch: String::from("develop"),
            status,
        })
    };
    let line = render(UpdateStatus::Success);
    assert_eq!(line.prefix, format!("{:<35}{:<10}| ", "alpha", "develop"));
    assert_eq!(line.message, "updated successfully\n");
    assert_eq!(line.color, ReportColor::Green);
    let line = render(UpdateStatus::PendingChanges);
    assert_eq!(line.message, "pending changes\n");
    assert_eq!(line.color, ReportColor::Yellow);
    let line = render(UpdateStatus::UnableToFetch);
    assert_eq!(line.message, "unable to fetch\n");
    assert_eq!(line.color, ReportColor::Red);
    let line = render(UpdateStatus::UnableToCheckout);
    assert_eq!(line.message, "unable to checkout 'develop'\n");
    assert_eq!(line.color, ReportColor::Red);
    let line = render(UpdateStatus::UnableToPull);
    assert_eq!(line.message, "pending changes\n");
    assert_eq!(line.color, ReportColor::Red);
}

#[test]
fn three_repositories_render_three_lines_in_discovery_order() {
    // Discovery: three checkouts, in listing order.
    let entries = vec![
        DirEntryInfo {
            name: String::from("alpha"),
            path: String::from("./alpha"),
            is_dir: true,
            entries: vec![String::from(".git")],
        },
        DirEntryInfo {
            name: String::from("beta"),
            path: String::from("./beta"),
            is_dir: true,
            entries: vec![String::from(".git")],
        },
        DirEntryInfo {
            name: String::from("gamma"),
            path: String::from("./gamma"),
            is_dir: true,
            entries: vec![String::from(".git")],
        },
    ];
    let repos = collect_repos(&entries, &None);
    assert_eq!(repos.len(), 3);

    let config = Config::new();
    let mut reports = Vec::new();

    // One repository up to date, one with the remote branch missing, one
    // ahead of its remote by two commits.
    let observations: [(Option<&str>, Option<&str>, u64); 3] = [
        (Some("0a1b2c"), Some("0a1b2c"), 0),
        (None, Some("3d4e5f"), 0),
        (Some("6a7b8c"), Some("9d0e1f"), 2),
    ];

    for (repo, (remote, local, divergence)) in repos.iter().zip(observations.iter()) {
        let name = repo.name().expect("discovered entries have names");
        let target_branch = config.get_target_branch(&name);
        let status = get_repository_status(
            remote.map(String::from),
            local.map(String::from),
            *divergence,
        );
        reports.push(ProjectStatus {
            name,
            status,
            current_branch: None,
            target_branch,
        });
    }

    let lines = render_status_report(&reports);
    assert_eq!(lines.len(), 3);
    assert_eq!(lines[0].prefix, format!("{:<35}| ", "alpha"));
    assert_eq!(lines[0].message, "up to date\n");
    assert_eq!(lines[0].color, ReportColor::Green);
    assert_eq!(lines[1].prefix, format!("{:<35}| ", "beta"));
    assert_eq!(lines[1].message, "remote 'develop' branch not found\n");
    assert_eq!(lines[1].color, ReportColor::Red);
    assert_eq!(lines[2].prefix, format!("{:<35}| ", "gamma"));
    assert_eq!(lines[2].message, "local is ahead\n");
    assert_eq!(lines[2].color, ReportColor::Magenta);
}

#[test]
fn configured_override_reaches_the_report() {
    let mut config = Config::new();
    config.add_project(
        String::from("beta"),
        ProjectConfig { default_branch: Some(String::from("main")) },
    );
    let name = String::from("beta");
    let target_branch = config.get_target_branch(&name);
    let status = get_repository_status(None, None, 0);
    let line = render_status_line(&ProjectStatus {
        name,
        status,
        current_branch: None,
        target_branch,
    });
    assert_eq!(line.message, "remote 'main' branch not found\n");
}

use sammy::cli::UpdateArgs;
use sammy::config::{Config, ProjectConfig};
use sammy::discovery::{collect_repos, is_git_project, DirEntryInfo};
use sammy::repository::{RepoError, Repository};

fn entry(name: &str, is_dir: bool, children: &[&str]) -> DirEntryInfo {
    DirEntryInfo {
        name: String::from(name),
        path: format!("./{}", name),
        is_dir,
        entries: children.iter().map(|c| String::from(*c)).collect(),
    }
}

#[test]
fn substring_filter_keeps_exactly_the_matching_checkouts() {
    let entries = vec![
        entry("alpha", true, &[".git", "src"]),
        entry("beta", true, &[".git"]),
        entry("alphabeta", true, &["README", ".git"]),
    ];
    let repos = collect_repos(&entries, &Some(String::from("alpha")));
    let names: Vec<&str> = repos.iter().map(|r| r.path.as_str()).collect();
    assert_eq!(names, vec!["./alpha", "./alphabeta"]);
}

#[test]
fn no_filter_keeps_every_checkout_in_listing_order() {
    let entries = vec![
        entry("beta", true, &[".git"]),
        entry("alpha", true, &[".git"]),
    ];
    let repos = collect_repos(&entries, &None);
    assert_eq!(repos.len(), 2);
    assert_eq!(repos[0].path, "./beta");
    assert_eq!(repos[1].path, "./alpha");
}

#[test]
fn empty_filter_matches_every_name() {
    let entries = vec![entry("alpha", true, &[".git"])];
    let repos = collect_repos(&entries, &Some(String::new()));
    assert_eq!(repos.len(), 1);
}

#[test]
fn non_checkouts_are_dropped() {
    let entries = vec![
        entry("notes.txt", false, &[]),
        entry("plain-dir", true, &["src", "README"]),
        entry("repo", true, &[".git"]),
    ];
    let repos = collect_repos(&entries, &None);
    assert_eq!(repos.len(), 1);
    assert_eq!(repos[0].path, "./repo");
}

#[test]
fn empty_listing_is_a_valid_outcome() {
    let repos = collect_repos(&Vec::new(), &None);
    assert!(repos.is_empty());
}

#[test]
fn git_metadata_must_be_a_direct_child() {
    assert!(is_git_project(true, &vec![String::from(".git")]));
    assert!(!is_git_project(true, &vec![String::from("src")]));
    assert!(!is_git_project(false, &vec![String::from(".git")]));
    assert!(!is_git_project(true, &Vec::new()));
}

#[test]
fn unconfigured_repository_falls_back_to_develop() {
    let config = Config::new();
    assert_eq!(config.get_target_branch(&String::from("alpha")), "develop");
}

#[test]
fn entry_without_branch_override_falls_back_to_develop() {
    let mut config = Config::new();
    config.add_project(String::from("alpha"), ProjectConfig { default_branch: None });
    assert_eq!(config.get_target_branch(&String::from("alpha")), "develop");
}

#[test]
fn configured_branch_override_wins() {
    let mut config = Config::new();
    config.add_project(
        String::from("alpha"),
        ProjectConfig { default_branch: Some(String::from("main")) },
    );
    assert_eq!(config.get_target_branch(&String::from("alpha")), "main");
    assert_eq!(config.get_target_branch(&String::from("beta")), "develop");
}

#[test]
fn later_config_entry_overrides_earlier_one() {
    let mut config = Config::new();
    config.add_project(
        String::from("alpha"),
        ProjectConfig { default_branch: Some(String::from("main")) },
    );
    config.add_project(
        String::from("alpha"),
        ProjectConfig { default_branch: Some(String::from("trunk")) },
    );
    assert_eq!(config.get_target_branch(&String::from("alpha")), "trunk");
}

#[test]
fn command_line_branch_overrides_configuration() {
    let mut config = Config::new();
    config.add_project(
        String::from("alpha"),
        ProjectConfig { default_branch: Some(String::from("main")) },
    );
    let args = UpdateArgs {
        filter: None,
        stay: false,
        branch: Some(String::from("release")),
    };
    assert_eq!(args.target_branch(&config, &String::from("alpha")), "release");
    let args = UpdateArgs { filter: None, stay: false, branch: None };
    assert_eq!(args.target_branch(&config, &String::from("alpha")), "main");
}

#[test]
fn repository_name_is_the_final_path_segment() {
    assert_eq!(
        Repository::new(String::from("/home/user/projects/alpha")).name(),
        Ok(String::from("alpha"))
    );
    assert_eq!(Repository::new(String::from("./beta")).name(), Ok(String::from("beta")));
    assert_eq!(Repository::new(String::from("gamma/")).name(), Ok(String::from("gamma")));
}

#[test]
fn pathless_repository_has_no_name() {
    assert_eq!(Repository::new(String::new()).name(), Err(RepoError::InvalidName));
    assert_eq!(Repository::new(String::from("/")).name(), Err(RepoError::InvalidName));
    assert_eq!(Repository::new(String::from("///")).name(), Err(RepoError::InvalidName));
}

//! The command surface: the arguments each command runs with, as plain
//! data, and per-command resolution rules.
//!
//! Argument parsing itself is an external concern; the library receives
//! the parsed values.

use vstd::prelude::*;

use crate::config::{target_branch_spec, Config};

verus! {

/// Arguments of the status check command.
pub struct CheckArgs {
    /// Dispatch the per-repository probes concurrently.
    pub fast: bool,
    /// Show each repository's current branch in the report.
    pub show_current: bool,
    /// Keep only repositories whose name contains this substring.
    pub filter: Option<String>,
}

/// Arguments of the update command.
pub struct UpdateArgs {
    /// Keep only repositories whose name contains this substring.
    pub filter: Option<String>,
    /// Return to the branch that was current before the run.
    pub stay: bool,
    /// Update this branch instead of each repository's configured one.
    pub branch: Option<String>,
}

/// Arguments of the liveness command. It takes none.
pub struct WoofArgs {}

/// The command an invocation runs.
pub enum MainCommand {
    Check(CheckArgs),
    Update(UpdateArgs),
    Woof(WoofArgs),
}

/// One invocation's parsed command line.
pub struct Args {
    pub cmd: MainCommand,
}

impl UpdateArgs {
    /// The branch the update engine targets for one repository: the
    /// command-line override when given, otherwise the configured target
    /// branch of that repository.
    pub fn target_branch(&self, config: &Config, repository_name: &String) -> (r: String)
        ensures
            r@ == match self.branch {
                Some(b) => b@,
                None => target_branch_spec(config.projects@, repository_name@),
            },
    {
        match &self.branch {
            Some(b) => b.clone(),
            None => config.get_target_branch(repository_name),
        }
    }
}

} // verus!

//! The configuration lookup: a read-only mapping from repository name to
//! an optional target-branch override, with a fixed default for
//! unconfigured repositories.
//!
//! The mapping is built once per invocation from entries handed in by the
//! loader and is immutable afterwards. A later entry for the same name
//! overrides an earlier one, as reloading a key would in the source
//! document.

use vstd::prelude::*;

verus! {

/// The fallback target branch for repositories without an override.
pub open spec fn default_branch_spec() -> Seq<char> {
    "develop"@
}

/// Per-repository configuration: an optional target-branch override.
pub struct ProjectConfig {
    pub default_branch: Option<String>,
}

/// The whole configuration: one entry per configured repository name.
pub struct Config {
    pub projects: Vec<(String, ProjectConfig)>,
}

/// The override recorded for `name`, if any: `Some(branch)` for an entry
/// with a configured branch, `Some(None)` for an entry without one, and
/// `None` when no entry mentions `name`. The latest entry wins.
pub open spec fn branch_override(
    entries: Seq<(String, ProjectConfig)>,
    name: Seq<char>,
) -> Option<Option<Seq<char>>>
    decreases entries.len(),
{
    if entries.len() == 0 {
        None
    } else if entries.last().0@ == name {
        match entries.last().1.default_branch {
            Some(b) => Some(Some(b@)),
            None => Some(None),
        }
    } else {
        branch_override(entries.drop_last(), name)
    }
}

/// The target branch resolved for `name`: its configured override, or
/// the fixed default.
pub open spec fn target_branch_spec(entries: Seq<(String, ProjectConfig)>, name: Seq<char>) -> Seq<
    char,
> {
    match branch_override(entries, name) {
        Some(Some(b)) => b,
        _ => default_branch_spec(),
    }
}

impl Config {
    /// An empty configuration: every repository resolves to the default
    /// branch. This is also what a missing or unreadable configuration
    /// document falls back to.
    pub fn new() -> (r: Self)
        ensures
            r.projects@.len() == 0,
    {
        Config { projects: Vec::new() }
    }

    /// Record an entry for `name`, overriding any earlier entry.
    pub fn add_project(&mut self, name: String, project: ProjectConfig)
        ensures
            forall|n: Seq<char>|
                #[trigger] branch_override(final(self).projects@, n) == (if n == name@ {
                    match project.default_branch {
                        Some(b) => Some(Some(b@)),
                        None => Some(None::<Seq<char>>),
                    }
                } else {
                    branch_override(old(self).projects@, n)
                }),
    {
        self.projects.push((name, project));
        proof {
            assert(self.projects@.drop_last() =~= old(self).projects@);
        }
    }

    /// Resolve the target branch for a repository name: the configured
    /// override when one exists, the fixed default otherwise.
    pub fn get_target_branch(&self, project_name: &String) -> (r: String)
        ensures
            r@ == target_branch_spec(self.projects@, project_name@),
    {
        let n = self.projects.len();
        let mut i: usize = n;
        proof {
            assert(self.projects@.subrange(0, n as int) =~= self.projects@);
        }
        while i > 0
            invariant
                0 <= i <= n,
                n == self.projects@.len(),
                branch_override(self.projects@, project_name@) == branch_override(
                    self.projects@.subrange(0, i as int),
                    project_name@,
                ),
            decreases i,
        {
            let entry = &self.projects[i - 1];
            proof {
                assert(self.projects@.subrange(0, i as int).last() == self.projects@[i - 1]);
                assert(self.projects@.subrange(0, i as int).drop_last() =~= self.projects@.subrange(
                    0,
                    i - 1,
                ));
            }
            if entry.0 == *project_name {
                match &entry.1.default_branch {
                    Some(b) => {
                        return b.clone();
                    },
                    None => {
                        return String::from_str("develop");
                    },
                }
            }
            i = i - 1;
        }
        proof {
            assert(self.projects@.subrange(0, 0) =~= Seq::<(String, ProjectConfig)>::empty());
        }
        String::from_str("develop")
    }
}

} // verus!

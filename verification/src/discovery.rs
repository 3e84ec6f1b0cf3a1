//! Discovery: which immediate children of the root directory are
//! git-tracked checkouts, optionally filtered by a case-sensitive
//! substring of their name.
//!
//! The directory listing itself is handed in: one record per child with
//! its name, its path, whether it is a directory, and the names of its
//! own immediate children. Discovery keeps the records in listing order.

use vstd::prelude::*;

use crate::repository::Repository;
use crate::text::{contains_seq, contains_substring};

verus! {

/// One child of the scanned root directory, as listed by the caller.
pub struct DirEntryInfo {
    /// The entry's own name (its final path segment).
    pub name: String,
    /// The entry's path, used to address the checkout afterwards.
    pub path: String,
    /// Whether the entry is a directory.
    pub is_dir: bool,
    /// The names of the entry's immediate children.
    pub entries: Vec<String>,
}

/// Entry `i` of the listing is the version-control metadata directory.
pub open spec fn entry_is_git(entries: Seq<String>, i: int) -> bool {
    0 <= i < entries.len() && entries[i]@ == ".git"@
}

/// A directory is a git-tracked checkout when it directly contains a
/// version-control metadata directory; there is no recursive search.
pub open spec fn is_git_project_spec(is_dir: bool, entries: Seq<String>) -> bool {
    is_dir && exists|i: int| entry_is_git(entries, i)
}

/// Decide whether a listed entry is a git-tracked checkout.
pub fn is_git_project(is_dir: bool, entries: &Vec<String>) -> (r: bool)
    ensures
        r == is_git_project_spec(is_dir, entries@),
{
    if !is_dir {
        return false;
    }
    let git = String::from_str(".git");
    proof {
        reveal_strlit(".git");
    }
    let n = entries.len();
    let mut i: usize = 0;
    while i < n
        invariant
            is_dir,
            0 <= i <= n,
            n == entries@.len(),
            git@ == ".git"@,
            forall|j: int| 0 <= j < i ==> !entry_is_git(entries@, j),
        decreases n - i,
    {
        if entries[i] == git {
            assert(entry_is_git(entries@, i as int));
            return true;
        }
        i = i + 1;
    }
    false
}

/// An entry is kept when its name passes the optional substring filter
/// and it is a git-tracked checkout.
pub open spec fn keeps_entry(e: DirEntryInfo, filter: Option<Seq<char>>) -> bool {
    &&& match filter {
        Some(f) => contains_seq(e.name@, f),
        None => true,
    }
    &&& is_git_project_spec(e.is_dir, e.entries@)
}

/// The repositories discovered from a listing: the kept entries, in
/// listing order, as repository handles on their paths.
pub open spec fn kept_repositories(entries: Seq<DirEntryInfo>, filter: Option<Seq<char>>) -> Seq<
    Repository,
>
    decreases entries.len(),
{
    if entries.len() == 0 {
        Seq::empty()
    } else {
        let rest = kept_repositories(entries.drop_last(), filter);
        if keeps_entry(entries.last(), filter) {
            rest.push(Repository { path: entries.last().path })
        } else {
            rest
        }
    }
}

/// Collect the repository handles among the listed entries, preserving
/// listing order. An empty result is a valid outcome, not an error.
pub fn collect_repos(entries: &Vec<DirEntryInfo>, filter: &Option<String>) -> (r: Vec<Repository>)
    ensures
        r@ == kept_repositories(entries@, filter.deep_view()),
{
    let ghost fv = filter.deep_view();
    let mut r: Vec<Repository> = Vec::new();
    let n = entries.len();
    let mut i: usize = 0;
    proof {
        assert(entries@.subrange(0, 0) =~= Seq::<DirEntryInfo>::empty());
        assert(r@ =~= kept_repositories(entries@.subrange(0, 0), fv));
    }
    while i < n
        invariant
            0 <= i <= n,
            n == entries@.len(),
            fv == filter.deep_view(),
            r@ == kept_repositories(entries@.subrange(0, i as int), fv),
        decreases n - i,
    {
        let entry = &entries[i];
        let name_ok = match filter {
            Some(f) => contains_substring(entry.name.as_str(), f.as_str()),
            None => true,
        };
        let keep = name_ok && is_git_project(entry.is_dir, &entry.entries);
        assert(keep == keeps_entry(entries@[i as int], fv));
        proof {
            let prefix = entries@.subrange(0, i as int);
            let next = entries@.subrange(0, i + 1);
            assert(next.drop_last() =~= prefix);
            assert(next.last() == entries@[i as int]);
        }
        if keep {
            r.push(Repository { path: entry.path.clone() });
        }
        i = i + 1;
    }
    proof {
        assert(entries@.subrange(0, n as int) =~= entries@);
    }
    r
}

} // verus!

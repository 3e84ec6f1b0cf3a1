//! The handle for one checkout: its filesystem location and the display
//! name derived from it.
//!
//! The location is held as the textual path; every backend query or
//! mutation against the checkout is performed outside the library and
//! scoped to this path.

use vstd::prelude::*;

verus! {

/// Failure of a repository handle operation.
#[derive(Clone, Copy, Debug, PartialEq, Eq, Structural)]
pub enum RepoError {
    /// The path has no final segment to use as a display name.
    InvalidName,
}

/// `s` with trailing path separators removed.
pub open spec fn strip_trailing_slashes(s: Seq<char>) -> Seq<char>
    decreases s.len(),
{
    if s.len() > 0 && s.last() == '/' {
        strip_trailing_slashes(s.drop_last())
    } else {
        s
    }
}

/// The suffix of `s` after its last path separator (all of `s` when it
/// has none).
pub open spec fn after_last_slash(s: Seq<char>) -> Seq<char>
    decreases s.len(),
{
    if s.len() == 0 || s.last() == '/' {
        Seq::empty()
    } else {
        after_last_slash(s.drop_last()).push(s.last())
    }
}

/// The final path segment: the last nonempty run of non-separator
/// characters, absent when the path is empty or consists of separators.
pub open spec fn last_segment(s: Seq<char>) -> Option<Seq<char>> {
    if strip_trailing_slashes(s).len() == 0 {
        None
    } else {
        Some(after_last_slash(strip_trailing_slashes(s)))
    }
}

proof fn lemma_strip_trailing_slashes_subrange(s: Seq<char>, j: int)
    requires
        0 <= j <= s.len(),
        forall|k: int| j <= k < s.len() ==> s[k] == '/',
        j == 0 || s[j - 1] != '/',
    ensures
        strip_trailing_slashes(s) == s.subrange(0, j),
    decreases s.len() - j,
{
    if j == s.len() {
        assert(s.subrange(0, j) =~= s);
    } else {
        assert(s.drop_last() =~= s.subrange(0, s.len() - 1));
        lemma_strip_trailing_slashes_subrange(s.drop_last(), j);
        assert(s.drop_last().subrange(0, j) =~= s.subrange(0, j));
    }
}

proof fn lemma_after_last_slash_subrange(s: Seq<char>, i: int)
    requires
        0 <= i <= s.len(),
        forall|k: int| i <= k < s.len() ==> s[k] != '/',
        i == 0 || s[i - 1] == '/',
    ensures
        after_last_slash(s) == s.subrange(i, s.len() as int),
    decreases s.len() - i,
{
    if i == s.len() {
        assert(s.subrange(i, s.len() as int) =~= Seq::<char>::empty());
    } else {
        assert(s.drop_last() =~= s.subrange(0, s.len() - 1));
        lemma_after_last_slash_subrange(s.drop_last(), i);
        assert(s.drop_last().subrange(i, s.len() - 1).push(s.last()) =~= s.subrange(
            i,
            s.len() as int,
        ));
    }
}

/// One checkout, identified by its filesystem path.
pub struct Repository {
    pub path: String,
}

impl Repository {
    /// Wrap a checkout location.
    pub fn new(path: String) -> (r: Self)
        ensures
            r.path@ == path@,
    {
        Repository { path }
    }

    /// The display name of the checkout: the final segment of its path.
    /// Fails when the path has no final segment.
    pub fn name(&self) -> (r: Result<String, RepoError>)
        ensures
            match r {
                Ok(n) => last_segment(self.path@) == Some(n@),
                Err(e) => last_segment(self.path@) is None && e is InvalidName,
            },
    {
        let s = self.path.as_str();
        let len = s.unicode_len();
        let mut j: usize = len;
        while j > 0 && s.get_char(j - 1) == '/'
            invariant
                0 <= j <= len,
                len == s@.len(),
                forall|k: int| j <= k < len ==> s@[k] == '/',
            decreases j,
        {
            j = j - 1;
        }
        proof {
            lemma_strip_trailing_slashes_subrange(s@, j as int);
        }
        if j == 0 {
            assert(strip_trailing_slashes(s@) =~= Seq::<char>::empty());
            return Err(RepoError::InvalidName);
        }
        let mut i: usize = j;
        while i > 0 && s.get_char(i - 1) != '/'
            invariant
                0 <= i <= j <= len,
                len == s@.len(),
                forall|k: int| i <= k < j ==> s@[k] != '/',
            decreases i,
        {
            i = i - 1;
        }
        let seg = s.substring_char(i, j);
        proof {
            let t = s@.subrange(0, j as int);
            lemma_after_last_slash_subrange(t, i as int);
            assert(t.subrange(i as int, t.len() as int) =~= s@.subrange(i as int, j as int));
        }
        Ok(seg.to_owned())
    }
}

} // verus!

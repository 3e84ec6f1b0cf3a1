//! The status engine: classification of one checkout's branch divergence
//! against its remote tracking branch.
//!
//! The engine is driven as a small machine, one step per backend query,
//! so that the query order is part of the contract: the remote head is
//! checked before any local comparison, and a missing remote branch ends
//! the probe before the local branch is consulted at all. The
//! classification of a full set of observations is also available as one
//! pure function, and the two agree.

use vstd::prelude::*;

verus! {

/// The outcome of the status engine for one repository.
#[derive(Clone, Copy, Debug, PartialEq, Eq, Structural)]
pub enum BranchStatus {
    /// Local and remote heads of the target branch are equal.
    UpToDate,
    /// Heads differ and the local branch has no commits of its own.
    UpdateAvailable,
    /// Heads differ and the local branch has commits the remote lacks.
    LocalAhead,
    /// The remote has no head for the target branch.
    RemoteNotFound,
    /// The target branch does not exist locally.
    LocalNotFound,
}

/// The backend query a status probe asks for next.
#[derive(Clone, Copy, Debug, PartialEq, Eq, Structural)]
pub enum StatusQuery {
    /// Query the remote's head commit for the target branch.
    RemoteHead,
    /// Query the locally recorded head commit for the target branch.
    LocalHead,
    /// Query the count of local commits missing from the remote.
    Divergence,
    /// The probe is finished; no further query is needed.
    Finished,
}

/// Where a status probe stands between queries.
pub enum StatusPhase {
    /// Waiting for the remote head answer.
    QueryRemote,
    /// Waiting for the local head answer; the remote head is recorded.
    QueryLocal { remote_head: String },
    /// Heads differed; waiting for the divergence count.
    QueryDivergence,
    /// Classification complete.
    Finished { status: BranchStatus },
}

/// One repository's status probe: consumes backend answers in a fixed
/// order and ends in a `BranchStatus`.
pub struct StatusProbe {
    pub phase: StatusPhase,
}

impl StatusProbe {
    /// A fresh probe, about to check the remote first.
    pub fn new() -> (r: Self)
        ensures
            r.phase is QueryRemote,
    {
        StatusProbe { phase: StatusPhase::QueryRemote }
    }

    /// The query the probe needs answered next.
    pub fn next_query(&self) -> (q: StatusQuery)
        ensures
            q == (match self.phase {
                StatusPhase::QueryRemote => StatusQuery::RemoteHead,
                StatusPhase::QueryLocal { .. } => StatusQuery::LocalHead,
                StatusPhase::QueryDivergence => StatusQuery::Divergence,
                StatusPhase::Finished { .. } => StatusQuery::Finished,
            }),
    {
        match &self.phase {
            StatusPhase::QueryRemote => StatusQuery::RemoteHead,
            StatusPhase::QueryLocal { .. } => StatusQuery::LocalHead,
            StatusPhase::QueryDivergence => StatusQuery::Divergence,
            StatusPhase::Finished { .. } => StatusQuery::Finished,
        }
    }

    /// Consume the remote head answer. A remote without the target branch
    /// finishes the probe at once, whatever the local branch state: the
    /// local head is never consulted.
    pub fn on_remote_head(&mut self, head: Option<String>)
        requires
            old(self).phase is QueryRemote,
        ensures
            head is None ==> final(self).phase == (StatusPhase::Finished {
                status: BranchStatus::RemoteNotFound,
            }),
            head matches Some(h) ==> final(self).phase == (StatusPhase::QueryLocal {
                remote_head: h,
            }),
    {
        match head {
            None => {
                self.phase = StatusPhase::Finished { status: BranchStatus::RemoteNotFound };
            },
            Some(h) => {
                self.phase = StatusPhase::QueryLocal { remote_head: h };
            },
        }
    }

    /// Consume the local head answer: a missing local branch finishes the
    /// probe, an equal head means up to date, a differing head defers to
    /// the divergence count.
    pub fn on_local_head(&mut self, head: Option<String>)
        requires
            old(self).phase is QueryLocal,
        ensures
            head is None ==> final(self).phase == (StatusPhase::Finished {
                status: BranchStatus::LocalNotFound,
            }),
            old(self).phase matches StatusPhase::QueryLocal { remote_head } ==> head matches Some(
                l,
            ) ==> final(self).phase == (if l@ == remote_head@ {
                StatusPhase::Finished { status: BranchStatus::UpToDate }
            } else {
                StatusPhase::QueryDivergence
            }),
    {
        let remote_head = match &self.phase {
            StatusPhase::QueryLocal { remote_head } => remote_head,
            _ => {
                proof {
                    assert(false);
                }
                unreached()
            },
        };
        match head {
            None => {
                self.phase = StatusPhase::Finished { status: BranchStatus::LocalNotFound };
            },
            Some(l) => {
                if l == *remote_head {
                    self.phase = StatusPhase::Finished { status: BranchStatus::UpToDate };
                } else {
                    self.phase = StatusPhase::QueryDivergence;
                }
            },
        }
    }

    /// Consume the divergence count: local commits missing from the
    /// remote mean the local branch is ahead; none mean an update is
    /// available.
    pub fn on_divergence(&mut self, count: u64)
        requires
            old(self).phase is QueryDivergence,
        ensures
            final(self).phase == (StatusPhase::Finished {
                status: if count > 0 {
                    BranchStatus::LocalAhead
                } else {
                    BranchStatus::UpdateAvailable
                },
            }),
    {
        if count > 0 {
            self.phase = StatusPhase::Finished { status: BranchStatus::LocalAhead };
        } else {
            self.phase = StatusPhase::Finished { status: BranchStatus::UpdateAvailable };
        }
    }

    /// The outcome, once the probe is finished.
    pub fn status(&self) -> (r: Option<BranchStatus>)
        ensures
            match self.phase {
                StatusPhase::Finished { status } => r == Some(status),
                _ => r is None,
            },
    {
        match &self.phase {
            StatusPhase::Finished { status } => Some(*status),
            _ => None,
        }
    }
}

/// The classification of a full set of observations: remote head first,
/// then local head, then head comparison, then the divergence count.
pub open spec fn classify_spec(
    remote_head: Option<Seq<char>>,
    local_head: Option<Seq<char>>,
    divergence_count: int,
) -> BranchStatus {
    match remote_head {
        None => BranchStatus::RemoteNotFound,
        Some(r) => match local_head {
            None => BranchStatus::LocalNotFound,
            Some(l) => if l == r {
                BranchStatus::UpToDate
            } else if divergence_count > 0 {
                BranchStatus::LocalAhead
            } else {
                BranchStatus::UpdateAvailable
            },
        },
    }
}

/// Classify one repository from its observations, by driving a status
/// probe through them; the machine and `classify_spec` agree.
pub fn get_repository_status(
    remote_head: Option<String>,
    local_head: Option<String>,
    divergence_count: u64,
) -> (r: BranchStatus)
    ensures
        r == classify_spec(remote_head.deep_view(), local_head.deep_view(), divergence_count as int),
{
    let mut probe = StatusProbe::new();
    probe.on_remote_head(remote_head);
    match probe.status() {
        Some(status) => status,
        None => {
            probe.on_local_head(local_head);
            match probe.status() {
                Some(status) => status,
                None => {
                    probe.on_divergence(divergence_count);
                    match probe.status() {
                        Some(status) => status,
                        None => {
                            proof {
                                assert(false);
                            }
                            unreached()
                        },
                    }
                },
            }
        },
    }
}

/// A repository whose local head equals the remote head of the target
/// branch is classified as up to date.
pub proof fn lemma_equal_heads_up_to_date(head: Seq<char>, divergence_count: int)
    ensures
        classify_spec(Some(head), Some(head), divergence_count) == BranchStatus::UpToDate,
{
}

/// A remote that lacks the target branch is reported as such regardless
/// of the local branch state: the remote check precedes the local check.
pub proof fn lemma_remote_missing_first(local_head: Option<Seq<char>>, divergence_count: int)
    ensures
        classify_spec(None, local_head, divergence_count) == BranchStatus::RemoteNotFound,
{
}

/// When the heads differ, a nonzero divergence count means the local
/// branch is ahead, and a zero count means an update is available.
pub proof fn lemma_divergence_disambiguates(
    remote_head: Seq<char>,
    local_head: Seq<char>,
    divergence_count: int,
)
    requires
        local_head != remote_head,
    ensures
        divergence_count > 0 ==> classify_spec(Some(remote_head), Some(local_head), divergence_count)
            == BranchStatus::LocalAhead,
        divergence_count == 0 ==> classify_spec(
            Some(remote_head),
            Some(local_head),
            divergence_count,
        ) == BranchStatus::UpdateAvailable,
{
}

/// The status engine is idempotent: a second run that observes the same
/// heads and divergence count — no mutation happened in between — yields
/// the same outcome for every repository.
pub proof fn lemma_status_idempotent(
    first_remote: Option<Seq<char>>,
    first_local: Option<Seq<char>>,
    first_divergence: int,
    second_remote: Option<Seq<char>>,
    second_local: Option<Seq<char>>,
    second_divergence: int,
)
    requires
        second_remote == first_remote,
        second_local == first_local,
        second_divergence == first_divergence,
    ensures
        classify_spec(second_remote, second_local, second_divergence) == classify_spec(
            first_remote,
            first_local,
            first_divergence,
        ),
{
}

} // verus!

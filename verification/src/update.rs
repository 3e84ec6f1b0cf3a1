//! The update engine: the guarded fetch → checkout → pull sequence for
//! one checkout, and the confirmation gate in front of a batch of them.
//!
//! The engine is a machine that issues one backend action at a time and
//! consumes its result, so that what may run after what is part of the
//! contract: pending local changes stop the sequence before any mutation,
//! each failing step stops the steps after it, and the optional restoring
//! checkout of the original branch runs last, whatever the outcome. A
//! failure of the restoring step aborts the whole run.

use vstd::prelude::*;

use crate::repository::Repository;

verus! {

/// The terminal outcome of the update engine for one repository.
#[derive(Clone, Copy, Debug, PartialEq, Eq, Structural)]
pub enum UpdateStatus {
    /// Fetch, checkout and pull all succeeded.
    Success,
    /// The working tree had uncommitted changes; nothing was run.
    PendingChanges,
    /// The fetch failed; no checkout or pull was run.
    UnableToFetch,
    /// The checkout of the target branch failed; no pull was run.
    UnableToCheckout,
    /// The pull failed; the checkout remains on the target branch.
    UnableToPull,
}

/// The backend action an update engine asks for next.
#[derive(Clone, Copy, Debug, PartialEq, Eq, Structural)]
pub enum UpdateAction {
    /// Query whether the working tree has uncommitted changes.
    CheckPendingChanges,
    /// Fetch from the remote.
    Fetch,
    /// Check out the target branch.
    Checkout,
    /// Pull the target branch.
    Pull,
    /// Check out the branch that was current before the run (the
    /// restoring step of a `stay` run).
    RestoreBranch,
    /// The outcome is settled; report it.
    Report,
    /// The restoring step failed; the whole run must stop.
    Abort,
}

/// Where an update engine stands between actions.
#[derive(Clone, Copy, Debug, PartialEq, Eq, Structural)]
pub enum UpdatePhase {
    /// Waiting for the pending-changes answer.
    CheckingPending,
    /// Waiting for the fetch result.
    Fetching,
    /// Waiting for the result of checking out the target branch.
    CheckingOut,
    /// Waiting for the pull result.
    Pulling,
    /// Outcome settled; waiting for the restoring checkout's result.
    Restoring { outcome: UpdateStatus },
    /// Outcome settled and reported to the caller.
    Done { outcome: UpdateStatus },
    /// The restoring checkout failed: fatal to the entire run.
    Aborted,
}

/// The phase a settled outcome leads to: straight to `Done`, or through
/// the restoring checkout when `stay` was requested.
pub open spec fn finishing_phase(stay: bool, outcome: UpdateStatus) -> UpdatePhase {
    if stay {
        UpdatePhase::Restoring { outcome }
    } else {
        UpdatePhase::Done { outcome }
    }
}

/// The transition of the update engine on one action result. For the
/// pending-changes query the result is the answer; for every other
/// action it is whether the backend command succeeded.
pub open spec fn update_step(phase: UpdatePhase, stay: bool, result: bool) -> UpdatePhase {
    match phase {
        UpdatePhase::CheckingPending => if result {
            finishing_phase(stay, UpdateStatus::PendingChanges)
        } else {
            UpdatePhase::Fetching
        },
        UpdatePhase::Fetching => if result {
            UpdatePhase::CheckingOut
        } else {
            finishing_phase(stay, UpdateStatus::UnableToFetch)
        },
        UpdatePhase::CheckingOut => if result {
            UpdatePhase::Pulling
        } else {
            finishing_phase(stay, UpdateStatus::UnableToCheckout)
        },
        UpdatePhase::Pulling => if result {
            finishing_phase(stay, UpdateStatus::Success)
        } else {
            finishing_phase(stay, UpdateStatus::UnableToPull)
        },
        UpdatePhase::Restoring { outcome } => if result {
            UpdatePhase::Done { outcome }
        } else {
            UpdatePhase::Aborted
        },
        UpdatePhase::Done { outcome } => UpdatePhase::Done { outcome },
        UpdatePhase::Aborted => UpdatePhase::Aborted,
    }
}

/// The backend action each phase asks for.
pub open spec fn action_spec(phase: UpdatePhase) -> UpdateAction {
    match phase {
        UpdatePhase::CheckingPending => UpdateAction::CheckPendingChanges,
        UpdatePhase::Fetching => UpdateAction::Fetch,
        UpdatePhase::CheckingOut => UpdateAction::Checkout,
        UpdatePhase::Pulling => UpdateAction::Pull,
        UpdatePhase::Restoring { .. } => UpdateAction::RestoreBranch,
        UpdatePhase::Done { .. } => UpdateAction::Report,
        UpdatePhase::Aborted => UpdateAction::Abort,
    }
}

/// The update engine for one repository: the target branch to update,
/// the branch that was current before the run, and whether to return to
/// it afterwards.
pub struct UpdateEngine {
    pub phase: UpdatePhase,
    pub target_branch: String,
    pub original_branch: String,
    pub stay: bool,
}

impl UpdateEngine {
    /// A fresh engine, about to check for pending changes.
    pub fn new(target_branch: String, original_branch: String, stay: bool) -> (r: Self)
        ensures
            r.phase == UpdatePhase::CheckingPending,
            r.target_branch == target_branch,
            r.original_branch == original_branch,
            r.stay == stay,
    {
        UpdateEngine { phase: UpdatePhase::CheckingPending, target_branch, original_branch, stay }
    }

    /// The action the engine needs performed next. `Checkout` refers to
    /// `self.target_branch`, `RestoreBranch` to `self.original_branch`.
    pub fn next_action(&self) -> (a: UpdateAction)
        ensures
            a == action_spec(self.phase),
    {
        match &self.phase {
            UpdatePhase::CheckingPending => UpdateAction::CheckPendingChanges,
            UpdatePhase::Fetching => UpdateAction::Fetch,
            UpdatePhase::CheckingOut => UpdateAction::Checkout,
            UpdatePhase::Pulling => UpdateAction::Pull,
            UpdatePhase::Restoring { .. } => UpdateAction::RestoreBranch,
            UpdatePhase::Done { .. } => UpdateAction::Report,
            UpdatePhase::Aborted => UpdateAction::Abort,
        }
    }

    /// Consume the result of the action last issued: the answer of the
    /// pending-changes query, or the success of any other command.
    pub fn step(&mut self, result: bool)
        requires
            !(old(self).phase is Done),
            !(old(self).phase is Aborted),
        ensures
            final(self).phase == update_step(old(self).phase, old(self).stay, result),
            final(self).target_branch == old(self).target_branch,
            final(self).original_branch == old(self).original_branch,
            final(self).stay == old(self).stay,
    {
        let next = match &self.phase {
            UpdatePhase::CheckingPending => {
                if result {
                    self.finishing(UpdateStatus::PendingChanges)
                } else {
                    UpdatePhase::Fetching
                }
            },
            UpdatePhase::Fetching => {
                if result {
                    UpdatePhase::CheckingOut
                } else {
                    self.finishing(UpdateStatus::UnableToFetch)
                }
            },
            UpdatePhase::CheckingOut => {
                if result {
                    UpdatePhase::Pulling
                } else {
                    self.finishing(UpdateStatus::UnableToCheckout)
                }
            },
            UpdatePhase::Pulling => {
                if result {
                    self.finishing(UpdateStatus::Success)
                } else {
                    self.finishing(UpdateStatus::UnableToPull)
                }
            },
            UpdatePhase::Restoring { outcome } => {
                if result {
                    UpdatePhase::Done { outcome: *outcome }
                } else {
                    UpdatePhase::Aborted
                }
            },
            UpdatePhase::Done { outcome } => UpdatePhase::Done { outcome: *outcome },
            UpdatePhase::Aborted => UpdatePhase::Aborted,
        };
        self.phase = next;
    }

    /// The phase a settled outcome leads to under this engine's `stay`.
    fn finishing(&self, outcome: UpdateStatus) -> (r: UpdatePhase)
        ensures
            r == finishing_phase(self.stay, outcome),
    {
        if self.stay {
            UpdatePhase::Restoring { outcome }
        } else {
            UpdatePhase::Done { outcome }
        }
    }

    /// The outcome, once the engine has settled in `Done`.
    pub fn outcome(&self) -> (r: Option<UpdateStatus>)
        ensures
            match self.phase {
                UpdatePhase::Done { outcome } => r == Some(outcome),
                _ => r is None,
            },
    {
        match &self.phase {
            UpdatePhase::Done { outcome } => Some(*outcome),
            _ => None,
        }
    }
}

/// The phases an engine passes through from `phase` on, consuming one
/// action result per element of `results`.
pub open spec fn run_phases(phase: UpdatePhase, stay: bool, results: Seq<bool>) -> Seq<UpdatePhase>
    decreases results.len(),
{
    if results.len() == 0 {
        seq![phase]
    } else {
        seq![phase] + run_phases(update_step(phase, stay, results[0]), stay, results.drop_first())
    }
}

/// The phase an engine ends in after consuming all of `results`.
pub open spec fn run_final_phase(phase: UpdatePhase, stay: bool, results: Seq<bool>) -> UpdatePhase
    decreases results.len(),
{
    if results.len() == 0 {
        phase
    } else {
        run_final_phase(update_step(phase, stay, results[0]), stay, results.drop_first())
    }
}

/// The two views of a run agree: the phase a run ends in is the last of
/// the phases it passes through.
pub proof fn lemma_run_ends_in_last_phase(phase: UpdatePhase, stay: bool, results: Seq<bool>)
    ensures
        run_phases(phase, stay, results).len() == results.len() + 1,
        run_phases(phase, stay, results).last() == run_final_phase(phase, stay, results),
    decreases results.len(),
{
    if results.len() > 0 {
        lemma_run_ends_in_last_phase(update_step(phase, stay, results[0]), stay, results.drop_first());
    }
}

/// The phases that can follow a settled outcome: the restoring step, the
/// settled report, or the abort after a failed restore. None of them
/// fetches, checks out the target branch, or pulls.
pub open spec fn winding_down(phase: UpdatePhase, outcome: UpdateStatus) -> bool {
    ||| phase == (UpdatePhase::Restoring { outcome })
    ||| phase == (UpdatePhase::Done { outcome })
    ||| phase is Aborted
}

proof fn lemma_winding_down_stays(
    phase: UpdatePhase,
    stay: bool,
    results: Seq<bool>,
    outcome: UpdateStatus,
)
    requires
        winding_down(phase, outcome),
    ensures
        forall|i: int|
            0 <= i < run_phases(phase, stay, results).len() ==> winding_down(
                #[trigger] run_phases(phase, stay, results)[i],
                outcome,
            ),
    decreases results.len(),
{
    let ph = run_phases(phase, stay, results);
    if results.len() > 0 {
        let next = update_step(phase, stay, results[0]);
        let rest = run_phases(next, stay, results.drop_first());
        assert(winding_down(next, outcome));
        lemma_winding_down_stays(next, stay, results.drop_first(), outcome);
        assert(ph == seq![phase] + rest);
        assert forall|i: int| 0 <= i < ph.len() implies winding_down(ph[i], outcome) by {
            if i == 0 {
                assert(ph[0] == phase);
            } else {
                assert(ph[i] == rest[i - 1]);
            }
        }
    } else {
        assert(ph == seq![phase]);
        assert(ph[0] == phase);
    }
}

/// Pending local changes stop the update before any mutation: after the
/// pending-changes query answers `true`, the outcome is `PendingChanges`
/// and no phase of the rest of the run fetches, checks out the target
/// branch, or pulls — only the restoring step may still issue its own
/// checkout of the original branch.
pub proof fn lemma_pending_changes_blocks_mutation(stay: bool, later: Seq<bool>)
    ensures
        forall|i: int|
            0 <= i < run_phases(update_step(UpdatePhase::CheckingPending, stay, true), stay, later).len()
                ==> winding_down(
                #[trigger] run_phases(
                    update_step(UpdatePhase::CheckingPending, stay, true),
                    stay,
                    later,
                )[i],
                UpdateStatus::PendingChanges,
            ),
        forall|i: int|
            0 <= i < run_phases(update_step(UpdatePhase::CheckingPending, stay, true), stay, later).len()
                ==> {
                let a = action_spec(
                    #[trigger] run_phases(
                        update_step(UpdatePhase::CheckingPending, stay, true),
                        stay,
                        later,
                    )[i],
                );
                a != UpdateAction::Fetch && a != UpdateAction::Checkout && a != UpdateAction::Pull
            },
{
    lemma_winding_down_stays(
        update_step(UpdatePhase::CheckingPending, stay, true),
        stay,
        later,
        UpdateStatus::PendingChanges,
    );
}

/// A failure at fetch prevents any checkout or pull: after the fetch
/// result arrives `false`, the outcome is `UnableToFetch` and no phase of
/// the rest of the run checks out the target branch or pulls.
pub proof fn lemma_fetch_failure_blocks(stay: bool, later: Seq<bool>)
    ensures
        forall|i: int|
            0 <= i < run_phases(update_step(UpdatePhase::Fetching, stay, false), stay, later).len()
                ==> winding_down(
                #[trigger] run_phases(update_step(UpdatePhase::Fetching, stay, false), stay, later)[i],
                UpdateStatus::UnableToFetch,
            ),
        forall|i: int|
            0 <= i < run_phases(update_step(UpdatePhase::Fetching, stay, false), stay, later).len()
                ==> {
                let a = action_spec(
                    #[trigger] run_phases(
                        update_step(UpdatePhase::Fetching, stay, false),
                        stay,
                        later,
                    )[i],
                );
                a != UpdateAction::Fetch && a != UpdateAction::Checkout && a != UpdateAction::Pull
            },
{
    lemma_winding_down_stays(
        update_step(UpdatePhase::Fetching, stay, false),
        stay,
        later,
        UpdateStatus::UnableToFetch,
    );
}

/// The branch a checkout is left on after one engine action: a
/// successful checkout moves it to the target branch, a successful
/// restoring step moves it back to the original branch, and no other
/// action touches it.
pub open spec fn branch_after_step(
    branch: Seq<char>,
    phase: UpdatePhase,
    result: bool,
    target: Seq<char>,
    original: Seq<char>,
) -> Seq<char> {
    if phase is CheckingOut && result {
        target
    } else if phase is Restoring && result {
        original
    } else {
        branch
    }
}

/// The branch a checkout is left on after a whole run.
pub open spec fn run_final_branch(
    branch: Seq<char>,
    phase: UpdatePhase,
    stay: bool,
    results: Seq<bool>,
    target: Seq<char>,
    original: Seq<char>,
) -> Seq<char>
    decreases results.len(),
{
    if results.len() == 0 {
        branch
    } else {
        run_final_branch(
            branch_after_step(branch, phase, results[0], target, original),
            update_step(phase, stay, results[0]),
            stay,
            results.drop_first(),
            target,
            original,
        )
    }
}

proof fn lemma_stay_invariant(
    branch: Seq<char>,
    phase: UpdatePhase,
    results: Seq<bool>,
    target: Seq<char>,
    original: Seq<char>,
    outcome: UpdateStatus,
)
    requires
        phase == (UpdatePhase::Done { outcome }) ==> branch == original,
    ensures
        run_final_phase(phase, true, results) == (UpdatePhase::Done { outcome })
            ==> run_final_branch(branch, phase, true, results, target, original) == original,
    decreases results.len(),
{
    if results.len() > 0 {
        lemma_stay_invariant(
            branch_after_step(branch, phase, results[0], target, original),
            update_step(phase, true, results[0]),
            results.drop_first(),
            target,
            original,
            outcome,
        );
    }
}

/// A `stay` run that settles in any outcome — `Success` included — leaves
/// the checkout on the branch that was current before the run began, even
/// though the target branch may have been checked out mid-sequence: the
/// only way to `Done` under `stay` is a successful restoring checkout.
pub proof fn lemma_stay_restores_original(
    branch: Seq<char>,
    results: Seq<bool>,
    target: Seq<char>,
    original: Seq<char>,
    outcome: UpdateStatus,
)
    ensures
        run_final_phase(UpdatePhase::CheckingPending, true, results) == (UpdatePhase::Done {
            outcome,
        }) ==> run_final_branch(branch, UpdatePhase::CheckingPending, true, results, target, original)
            == original,
{
    lemma_stay_invariant(branch, UpdatePhase::CheckingPending, results, target, original, outcome);
}

proof fn lemma_no_stay_invariant(
    branch: Seq<char>,
    phase: UpdatePhase,
    results: Seq<bool>,
    target: Seq<char>,
    original: Seq<char>,
)
    requires
        !(phase is Restoring),
        phase is Pulling ==> branch == target,
        phase == (UpdatePhase::Done { outcome: UpdateStatus::Success }) ==> branch == target,
        phase == (UpdatePhase::Done { outcome: UpdateStatus::UnableToPull }) ==> branch == target,
    ensures
        run_final_phase(phase, false, results) == (UpdatePhase::Done {
            outcome: UpdateStatus::Success,
        }) ==> run_final_branch(branch, phase, false, results, target, original) == target,
        run_final_phase(phase, false, results) == (UpdatePhase::Done {
            outcome: UpdateStatus::UnableToPull,
        }) ==> run_final_branch(branch, phase, false, results, target, original) == target,
    decreases results.len(),
{
    if results.len() > 0 {
        lemma_no_stay_invariant(
            branch_after_step(branch, phase, results[0], target, original),
            update_step(phase, false, results[0]),
            results.drop_first(),
            target,
            original,
        );
    }
}

/// Without `stay`, a run that ends in `Success` leaves the checkout on
/// the target branch; so does a run that ends in `UnableToPull` — a
/// failed pull leaves the checkout on the target branch without the
/// pulled changes, and nothing rolls the checkout back.
pub proof fn lemma_no_stay_ends_on_target(
    branch: Seq<char>,
    results: Seq<bool>,
    target: Seq<char>,
    original: Seq<char>,
)
    ensures
        run_final_phase(UpdatePhase::CheckingPending, false, results) == (UpdatePhase::Done {
            outcome: UpdateStatus::Success,
        }) ==> run_final_branch(
            branch,
            UpdatePhase::CheckingPending,
            false,
            results,
            target,
            original,
        ) == target,
        run_final_phase(UpdatePhase::CheckingPending, false, results) == (UpdatePhase::Done {
            outcome: UpdateStatus::UnableToPull,
        }) ==> run_final_branch(
            branch,
            UpdatePhase::CheckingPending,
            false,
            results,
            target,
            original,
        ) == target,
{
    lemma_no_stay_invariant(branch, UpdatePhase::CheckingPending, results, target, original);
}

/// The operator's answer to the confirmation gate.
#[derive(Clone, Copy, Debug, PartialEq, Eq, Structural)]
pub enum Confirmation {
    Yes,
    No,
}

/// `s` with one trailing line feed removed, then one trailing carriage
/// return — what reading one input line leaves behind.
pub open spec fn strip_line_break(s: Seq<char>) -> Seq<char> {
    let t = if s.len() > 0 && s.last() == '\n' {
        s.drop_last()
    } else {
        s
    };
    if t.len() > 0 && t.last() == '\r' {
        t.drop_last()
    } else {
        t
    }
}

/// The lower-case form of the characters the confirmation words are
/// spelled with; any other character is left as it is, and then matches
/// no confirmation word anyway.
pub open spec fn lower_char(c: char) -> char {
    if c == 'Y' {
        'y'
    } else if c == 'E' {
        'e'
    } else if c == 'S' {
        's'
    } else if c == 'N' {
        'n'
    } else if c == 'O' {
        'o'
    } else {
        c
    }
}

/// `t` spells an affirmative answer, ignoring letter case.
pub open spec fn is_yes_word(t: Seq<char>) -> bool {
    ||| t.len() == 1 && lower_char(t[0]) == 'y'
    ||| t.len() == 3 && lower_char(t[0]) == 'y' && lower_char(t[1]) == 'e' && lower_char(t[2])
        == 's'
}

/// `t` spells a negative answer, ignoring letter case.
pub open spec fn is_no_word(t: Seq<char>) -> bool {
    ||| t.len() == 1 && lower_char(t[0]) == 'n'
    ||| t.len() == 2 && lower_char(t[0]) == 'n' && lower_char(t[1]) == 'o'
}

/// What one input line answers: yes, no, or nothing recognizable.
pub open spec fn confirmation_spec(line: Seq<char>) -> Option<Confirmation> {
    let t = strip_line_break(line);
    if is_yes_word(t) {
        Some(Confirmation::Yes)
    } else if is_no_word(t) {
        Some(Confirmation::No)
    } else {
        None
    }
}

/// Parse one line of operator input as a confirmation answer.
pub fn parse_confirmation(line: &str) -> (r: Option<Confirmation>)
    ensures
        r == confirmation_spec(line@),
{
    let len = line.unicode_len();
    let mut j: usize = len;
    if j > 0 && line.get_char(j - 1) == '\n' {
        j = j - 1;
    }
    proof {
        assert(line@.subrange(0, j as int) =~= (if line@.len() > 0 && line@.last() == '\n' {
            line@.drop_last()
        } else {
            line@
        }));
    }
    if j > 0 && line.get_char(j - 1) == '\r' {
        j = j - 1;
    }
    let ghost t = strip_line_break(line@);
    proof {
        assert(line@.subrange(0, j as int) =~= t);
    }
    if j == 1 {
        let c = line.get_char(0);
        assert(c == t[0]);
        if c == 'y' || c == 'Y' {
            Some(Confirmation::Yes)
        } else if c == 'n' || c == 'N' {
            Some(Confirmation::No)
        } else {
            None
        }
    } else if j == 2 {
        let c0 = line.get_char(0);
        let c1 = line.get_char(1);
        assert(c0 == t[0] && c1 == t[1]);
        if (c0 == 'n' || c0 == 'N') && (c1 == 'o' || c1 == 'O') {
            Some(Confirmation::No)
        } else {
            None
        }
    } else if j == 3 {
        let c0 = line.get_char(0);
        let c1 = line.get_char(1);
        let c2 = line.get_char(2);
        assert(c0 == t[0] && c1 == t[1] && c2 == t[2]);
        if (c0 == 'y' || c0 == 'Y') && (c1 == 'e' || c1 == 'E') && (c2 == 's' || c2 == 'S') {
            Some(Confirmation::Yes)
        } else {
            None
        }
    } else {
        None
    }
}

/// The confirmation gate in front of a batch update: declining leaves no
/// repository to update, so no mutating call is issued to any of them;
/// an affirmative answer passes the batch through unchanged.
pub fn update_plan(confirmation: Confirmation, repositories: Vec<Repository>) -> (r: Option<
    Vec<Repository>,
>)
    ensures
        confirmation is No ==> r is None,
        confirmation is Yes ==> r == Some(repositories),
{
    match confirmation {
        Confirmation::No => None,
        Confirmation::Yes => Some(repositories),
    }
}

} // verus!

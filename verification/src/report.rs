//! The report renderer: one aligned line per repository, with a status
//! message colored by outcome category.
//!
//! Rendering is pure: each report becomes a line of text plus the color
//! its message is printed in, and a batch is rendered in the order it is
//! given — the caller drains its concurrent tasks in dispatch order, so
//! the printed report is deterministic for a given discovery order.

use vstd::prelude::*;

use crate::status::BranchStatus;
use crate::text::{pad_right, pad_right_spec};
use crate::update::UpdateStatus;

verus! {

/// The color a report message is printed in.
#[derive(Clone, Copy, Debug, PartialEq, Eq, Structural)]
pub enum ReportColor {
    /// The leading columns of every line.
    White,
    /// Success-like outcomes.
    Green,
    /// Warning-like outcomes.
    Yellow,
    /// A local branch ahead of its remote.
    Magenta,
    /// Failure-like outcomes.
    Red,
}

/// The status engine's report for one repository.
pub struct ProjectStatus {
    pub name: String,
    pub status: BranchStatus,
    pub current_branch: Option<String>,
    pub target_branch: String,
}

/// The update engine's report for one repository.
pub struct UpdateResult {
    pub repository_name: String,
    pub target_branch: String,
    pub status: UpdateStatus,
}

/// One rendered report line: the white-printed aligned columns, then the
/// message with its color. The message ends the line.
pub struct RenderedLine {
    pub prefix: String,
    pub message: String,
    pub color: ReportColor,
}

/// The message text for a branch status.
pub open spec fn status_message_spec(status: BranchStatus, target: Seq<char>) -> Seq<char> {
    match status {
        BranchStatus::UpToDate => "up to date"@,
        BranchStatus::UpdateAvailable => "update available"@,
        BranchStatus::LocalAhead => "local is ahead"@,
        BranchStatus::RemoteNotFound => "remote '"@ + target + "' branch not found"@,
        BranchStatus::LocalNotFound => "local '"@ + target + "' branch not found"@,
    }
}

/// The message color for a branch status.
pub open spec fn status_color_spec(status: BranchStatus) -> ReportColor {
    match status {
        BranchStatus::UpToDate => ReportColor::Green,
        BranchStatus::UpdateAvailable => ReportColor::Yellow,
        BranchStatus::LocalAhead => ReportColor::Magenta,
        BranchStatus::RemoteNotFound => ReportColor::Red,
        BranchStatus::LocalNotFound => ReportColor::Red,
    }
}

/// The message text for a branch status, with the target branch spliced
/// into the not-found messages.
pub fn status_message(status: &BranchStatus, target_branch: &String) -> (r: String)
    ensures
        r@ == status_message_spec(*status, target_branch@),
{
    match status {
        BranchStatus::UpToDate => String::from_str("up to date"),
        BranchStatus::UpdateAvailable => String::from_str("update available"),
        BranchStatus::LocalAhead => String::from_str("local is ahead"),
        BranchStatus::RemoteNotFound => String::from_str("remote '").concat(
            target_branch.as_str(),
        ).concat("' branch not found"),
        BranchStatus::LocalNotFound => String::from_str("local '").concat(
            target_branch.as_str(),
        ).concat("' branch not found"),
    }
}

/// The message color for a branch status.
pub fn status_color(status: &BranchStatus) -> (r: ReportColor)
    ensures
        r == status_color_spec(*status),
{
    match status {
        BranchStatus::UpToDate => ReportColor::Green,
        BranchStatus::UpdateAvailable => ReportColor::Yellow,
        BranchStatus::LocalAhead => ReportColor::Magenta,
        BranchStatus::RemoteNotFound => ReportColor::Red,
        BranchStatus::LocalNotFound => ReportColor::Red,
    }
}

/// The message text for an update outcome.
pub open spec fn update_message_spec(status: UpdateStatus, target: Seq<char>) -> Seq<char> {
    match status {
        UpdateStatus::Success => "updated successfully"@,
        UpdateStatus::PendingChanges => "pending changes"@,
        UpdateStatus::UnableToFetch => "unable to fetch"@,
        UpdateStatus::UnableToCheckout => "unable to checkout '"@ + target + "'"@,
        UpdateStatus::UnableToPull => "pending changes"@,
    }
}

/// The message color for an update outcome.
pub open spec fn update_color_spec(status: UpdateStatus) -> ReportColor {
    match status {
        UpdateStatus::Success => ReportColor::Green,
        UpdateStatus::PendingChanges => ReportColor::Yellow,
        UpdateStatus::UnableToFetch => ReportColor::Red,
        UpdateStatus::UnableToCheckout => ReportColor::Red,
        UpdateStatus::UnableToPull => ReportColor::Red,
    }
}

/// The message text for an update outcome, with the target branch
/// spliced into the checkout-failure message.
pub fn update_message(status: &UpdateStatus, target_branch: &String) -> (r: String)
    ensures
        r@ == update_message_spec(*status, target_branch@),
{
    match status {
        UpdateStatus::Success => String::from_str("updated successfully"),
        UpdateStatus::PendingChanges => String::from_str("pending changes"),
        UpdateStatus::UnableToFetch => String::from_str("unable to fetch"),
        UpdateStatus::UnableToCheckout => String::from_str("unable to checkout '").concat(
            target_branch.as_str(),
        ).concat("'"),
        UpdateStatus::UnableToPull => String::from_str("pending changes"),
    }
}

/// The message color for an update outcome.
pub fn update_color(status: &UpdateStatus) -> (r: ReportColor)
    ensures
        r == update_color_spec(*status),
{
    match status {
        UpdateStatus::Success => ReportColor::Green,
        UpdateStatus::PendingChanges => ReportColor::Yellow,
        UpdateStatus::UnableToFetch => ReportColor::Red,
        UpdateStatus::UnableToCheckout => ReportColor::Red,
        UpdateStatus::UnableToPull => ReportColor::Red,
    }
}

/// The aligned columns of a status line: the name, the current branch
/// when it was captured, and the separator.
pub open spec fn status_prefix_spec(name: Seq<char>, current: Option<Seq<char>>) -> Seq<char> {
    match current {
        Some(b) => pad_right_spec(name, 35) + pad_right_spec(b, 10) + "| "@,
        None => pad_right_spec(name, 35) + "| "@,
    }
}

/// The rendered line for one status report.
pub open spec fn is_rendered_status_line(line: RenderedLine, p: ProjectStatus) -> bool {
    &&& line.prefix@ == status_prefix_spec(
        p.name@,
        match p.current_branch {
            Some(b) => Some(b@),
            None => None,
        },
    )
    &&& line.message@ == status_message_spec(p.status, p.target_branch@) + "\n"@
    &&& line.color == status_color_spec(p.status)
}

/// Render one status report.
pub fn render_status_line(p: &ProjectStatus) -> (r: RenderedLine)
    ensures
        is_rendered_status_line(r, *p),
{
    let mut prefix = pad_right(p.name.as_str(), 35);
    match &p.current_branch {
        Some(b) => {
            prefix = prefix.concat(pad_right(b.as_str(), 10).as_str());
        },
        None => {
        },
    }
    let prefix = prefix.concat("| ");
    let message = status_message(&p.status, &p.target_branch).concat("\n");
    let color = status_color(&p.status);
    RenderedLine { prefix, message, color }
}

/// The aligned columns of an update line: the name, the target branch,
/// and the separator.
pub open spec fn update_prefix_spec(name: Seq<char>, target: Seq<char>) -> Seq<char> {
    pad_right_spec(name, 35) + pad_right_spec(target, 10) + "| "@
}

/// The rendered line for one update report.
pub open spec fn is_rendered_update_line(line: RenderedLine, u: UpdateResult) -> bool {
    &&& line.prefix@ == update_prefix_spec(u.repository_name@, u.target_branch@)
    &&& line.message@ == update_message_spec(u.status, u.target_branch@) + "\n"@
    &&& line.color == update_color_spec(u.status)
}

/// Render one update report.
pub fn render_update_line(u: &UpdateResult) -> (r: RenderedLine)
    ensures
        is_rendered_update_line(r, *u),
{
    let prefix = pad_right(u.repository_name.as_str(), 35).concat(
        pad_right(u.target_branch.as_str(), 10).as_str(),
    ).concat("| ");
    let message = update_message(&u.status, &u.target_branch).concat("\n");
    let color = update_color(&u.status);
    RenderedLine { prefix, message, color }
}

/// Render a batch of status reports: exactly one line per report, in the
/// order the reports are given — the order the tasks were dispatched in,
/// not the order they completed in.
pub fn render_status_report(reports: &Vec<ProjectStatus>) -> (r: Vec<RenderedLine>)
    ensures
        r@.len() == reports@.len(),
        forall|i: int|
            0 <= i < reports@.len() ==> is_rendered_status_line(#[trigger] r@[i], reports@[i]),
{
    let mut r: Vec<RenderedLine> = Vec::new();
    let n = reports.len();
    let mut i: usize = 0;
    while i < n
        invariant
            0 <= i <= n,
            n == reports@.len(),
            r@.len() == i,
            forall|j: int| 0 <= j < i ==> is_rendered_status_line(#[trigger] r@[j], reports@[j]),
        decreases n - i,
    {
        r.push(render_status_line(&reports[i]));
        i = i + 1;
    }
    r
}

/// Render a batch of update reports, one line per report, in the order
/// the reports are given.
pub fn render_update_report(reports: &Vec<UpdateResult>) -> (r: Vec<RenderedLine>)
    ensures
        r@.len() == reports@.len(),
        forall|i: int|
            0 <= i < reports@.len() ==> is_rendered_update_line(#[trigger] r@[i], reports@[i]),
{
    let mut r: Vec<RenderedLine> = Vec::new();
    let n = reports.len();
    let mut i: usize = 0;
    while i < n
        invariant
            0 <= i <= n,
            n == reports@.len(),
            r@.len() == i,
            forall|j: int| 0 <= j < i ==> is_rendered_update_line(#[trigger] r@[j], reports@[j]),
        decreases n - i,
    {
        r.push(render_update_line(&reports[i]));
        i = i + 1;
    }
    r
}

} // verus!

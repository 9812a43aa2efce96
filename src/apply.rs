//! The decisions that take a rendered template to its target file.
//!
//! The caller performs each action (compute the diff, show it, ask, write)
//! and reports what happened as an event; `step` says what comes next.
use vstd::prelude::*;

use crate::text::{same_text, trim, trimmed};

verus! {

/// Whether an answer, already trimmed, accepts the change: exactly `y` or `Y`.
pub open spec fn is_yes(answer: Seq<char>) -> bool {
    answer == "y"@ || answer == "Y"@
}

/// Whether a trimmed answer accepts the change.
pub fn accepts(answer: &str) -> (r: bool)
    ensures
        r == is_yes(answer@),
{
    same_text(answer, "y") || same_text(answer, "Y")
}

/// Whether a line read from the user accepts the change, once surrounding
/// whitespace is dropped. Anything else, the empty line included, declines.
pub fn confirmed(input: &str) -> (r: bool)
    ensures
        r == is_yes(trimmed(input@)),
{
    accepts(trim(input))
}

/// Where the workflow for one template stands.
#[derive(Debug)]
pub enum ApplyState {
    /// The diff between the target file and `rendered`, the text meant
    /// for it, is being computed.
    Diffing { rendered: String },
    /// The diff is being shown.
    Reviewing { rendered: String, target_exists: bool },
    /// The user is being asked.
    Confirming { rendered: String },
    /// The file is being written.
    Writing,
    /// Nothing is left to do for this template.
    Done,
}

/// What the caller reports.
#[derive(Debug)]
pub enum ApplyEvent {
    /// The diff is computed; whether the target file exists.
    Diffed { diff: String, target_exists: bool },
    /// The pager showing the diff has exited.
    PagerClosed,
    /// The user answered with this line.
    Answered(String),
    /// The answer could not be read.
    AnswerUnreadable,
    /// The file was written.
    Written,
}

/// What the caller does next.
#[derive(Debug)]
pub enum ApplyAction {
    /// Say the target is up to date; stop.
    ReportUpToDate,
    /// Show the diff through the pager.
    ShowDiff,
    /// Ask whether to overwrite the existing target.
    AskOverwrite,
    /// Ask whether to create the missing target.
    AskCreate,
    /// Create the target's parent directories, then write this text to the target.
    WriteFile(String),
    /// Leave the target as it is; stop.
    Skip,
    /// Report that the answer could not be read and leave the target as it is; stop.
    ReportUnreadable,
    /// Report the file saved; stop.
    ReportSaved,
    /// The event does not belong to this state: nothing to do.
    Ignore,
}

/// The workflow's transitions. A target is up to date when the diff is
/// empty and the file exists; otherwise the diff is shown and the user is
/// asked; only an accepting answer writes.
pub open spec fn next_step(state: ApplyState, event: ApplyEvent) -> (ApplyState, ApplyAction) {
    match (state, event) {
        (ApplyState::Diffing { rendered }, ApplyEvent::Diffed { diff, target_exists }) => {
            if diff@.len() == 0 && target_exists {
                (ApplyState::Done, ApplyAction::ReportUpToDate)
            } else {
                (ApplyState::Reviewing { rendered, target_exists }, ApplyAction::ShowDiff)
            }
        },
        (ApplyState::Reviewing { rendered, target_exists }, ApplyEvent::PagerClosed) => {
            if target_exists {
                (ApplyState::Confirming { rendered }, ApplyAction::AskOverwrite)
            } else {
                (ApplyState::Confirming { rendered }, ApplyAction::AskCreate)
            }
        },
        (ApplyState::Confirming { rendered }, ApplyEvent::Answered(line)) => {
            if is_yes(trimmed(line@)) {
                (ApplyState::Writing, ApplyAction::WriteFile(rendered))
            } else {
                (ApplyState::Done, ApplyAction::Skip)
            }
        },
        (ApplyState::Confirming { .. }, ApplyEvent::AnswerUnreadable) => (ApplyState::Done, ApplyAction::ReportUnreadable),
        (ApplyState::Writing, ApplyEvent::Written) => (ApplyState::Done, ApplyAction::ReportSaved),
        (s, _) => (s, ApplyAction::Ignore),
    }
}

/// Takes the workflow one step on.
pub fn step(state: ApplyState, event: ApplyEvent) -> (r: (ApplyState, ApplyAction))
    ensures
        r == next_step(state, event),
{
    match (state, event) {
        (ApplyState::Diffing { rendered }, ApplyEvent::Diffed { diff, target_exists }) => {
            if diff.as_str().is_empty() && target_exists {
                (ApplyState::Done, ApplyAction::ReportUpToDate)
            } else {
                (ApplyState::Reviewing { rendered, target_exists }, ApplyAction::ShowDiff)
            }
        },
        (ApplyState::Reviewing { rendered, target_exists }, ApplyEvent::PagerClosed) => {
            if target_exists {
                (ApplyState::Confirming { rendered }, ApplyAction::AskOverwrite)
            } else {
                (ApplyState::Confirming { rendered }, ApplyAction::AskCreate)
            }
        },
        (ApplyState::Confirming { rendered }, ApplyEvent::Answered(line)) => {
            if confirmed(line.as_str()) {
                (ApplyState::Writing, ApplyAction::WriteFile(rendered))
            } else {
                (ApplyState::Done, ApplyAction::Skip)
            }
        },
        (ApplyState::Confirming { .. }, ApplyEvent::AnswerUnreadable) => (ApplyState::Done, ApplyAction::ReportUnreadable),
        (ApplyState::Writing, ApplyEvent::Written) => (ApplyState::Done, ApplyAction::ReportSaved),
        (s, _) => (s, ApplyAction::Ignore),
    }
}

/// Only an accepting answer leads to a write, and what it writes is the
/// text the workflow started with; after any other answer, or an unreadable
/// one, the workflow ends and the target is left untouched.
pub proof fn lemma_only_yes_writes(rendered: String, line: String)
    ensures
        next_step(ApplyState::Confirming { rendered }, ApplyEvent::Answered(line)).1 is WriteFile
            <==> is_yes(trimmed(line@)),
        is_yes(trimmed(line@)) ==> next_step(ApplyState::Confirming { rendered }, ApplyEvent::Answered(line))
            == (ApplyState::Writing, ApplyAction::WriteFile(rendered)),
        !is_yes(trimmed(line@)) ==> next_step(ApplyState::Confirming { rendered }, ApplyEvent::Answered(line))
            == (ApplyState::Done, ApplyAction::Skip),
        next_step(ApplyState::Confirming { rendered }, ApplyEvent::AnswerUnreadable) == (
            ApplyState::Done,
            ApplyAction::ReportUnreadable,
        ),
{
}

/// A template whose diff against an existing target comes back empty is up
/// to date: the workflow ends there, with nothing shown, asked or written.
/// Re-diffing a file just written from the same rendering is such a case.
pub proof fn lemma_empty_diff_is_up_to_date(rendered: String, diff: String)
    requires
        diff@.len() == 0,
    ensures
        next_step(ApplyState::Diffing { rendered }, ApplyEvent::Diffed { diff, target_exists: true }) == (
            ApplyState::Done,
            ApplyAction::ReportUpToDate,
        ),
{
}

} // verus!

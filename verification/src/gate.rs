//! The confirmation gate: the one yes/no decision that stands before every action
//! that would discard unsaved changes.

use vstd::prelude::*;

verus! {

/// How the confirmation gate was passed, or not.
#[derive(Debug, Clone, Copy, PartialEq, Eq, Structural)]
pub enum ConfirmationOutcome {
    /// There were no unsaved changes: nobody was asked.
    NotNeeded,
    /// The user accepted that the changes are discarded.
    Confirmed,
    /// The user cancelled.
    Declined,
}

/// What the user is asked before unsaved changes are discarded by opening another
/// document or clearing this one.
pub const DISCARD_MESSAGE: &'static str =
    "You have unsaved changes. Do you want to continue without saving?";

/// What the user is asked before unsaved changes are discarded by quitting.
pub const QUIT_MESSAGE: &'static str =
    "You have unsaved changes. Are you sure you want to quit without saving?";

/// The title of both questions.
pub const UNSAVED_TITLE: &'static str = "Unsaved Changes";

/// What the user is asked when a draft of the previous session was found.
pub const RECOVERY_MESSAGE: &'static str =
    "We found unsaved changes from your previous session. Would you like to recover them?";

/// The title of that question.
pub const RECOVERY_TITLE: &'static str = "Recovery";

/// The outcome of the confirmation gate: without unsaved changes nobody needs to be
/// asked, and with them the user's answer decides.
pub open spec fn outcome_of(has_unsaved_changes: bool, accepted: bool) -> ConfirmationOutcome {
    if !has_unsaved_changes {
        ConfirmationOutcome::NotNeeded
    } else if accepted {
        ConfirmationOutcome::Confirmed
    } else {
        ConfirmationOutcome::Declined
    }
}

impl ConfirmationOutcome {
    /// Whether the action may go ahead: always, unless the user declined.
    pub open spec fn allows(self) -> bool {
        self != ConfirmationOutcome::Declined
    }

    /// The outcome of the confirmation gate, given whether there are unsaved changes
    /// and what the user answered, or would answer, when asked.
    pub fn of(has_unsaved_changes: bool, accepted: bool) -> (outcome: ConfirmationOutcome)
        ensures
            outcome == outcome_of(has_unsaved_changes, accepted),
            !has_unsaved_changes ==> outcome.allows(),
    {
        if !has_unsaved_changes {
            ConfirmationOutcome::NotNeeded
        } else if accepted {
            ConfirmationOutcome::Confirmed
        } else {
            ConfirmationOutcome::Declined
        }
    }

    /// Collapses the outcome into "may proceed".
    pub fn may_proceed(&self) -> (go: bool)
        ensures
            go == self.allows(),
    {
        match self {
            ConfirmationOutcome::Declined => false,
            _ => true,
        }
    }
}

} // verus!

//! The dialog that asks the user to confirm a deletion.

use vstd::prelude::*;
use vstd::string::*;
use vstd::view::View as _;
use crate::state::{AppState, ConfirmAction, StatusType, View};
use crate::text::{owned, push_str};

verus! {

/// The confirmation dialog; its state lives in `AppState`.
pub struct ConfirmDialog;

/// The message shown after `action` succeeded.
pub open spec fn deleted_text(action: ConfirmAction) -> Seq<char> {
    match action {
        ConfirmAction::DeletePerson(_) => "Person raderad"@,
        ConfirmAction::DeleteRelationship(_) => "Relation raderad"@,
        ConfirmAction::DeleteDocument(_) => "Dokument raderat"@,
    }
}

/// The message shown when a deletion failed with `e`.
pub open spec fn delete_failed_text(e: Seq<char>) -> Seq<char> {
    "Kunde inte radera: "@ + e
}

/// The state after confirming `action` with the database's `outcome`: the
/// outcome's message, for a deleted person the person list with no person
/// selected, and the dialog closed; the rest as before.
pub open spec fn confirmed(
    before: AppState,
    after: AppState,
    action: ConfirmAction,
    outcome: Result<(), String>,
) -> bool {
    match outcome {
        Ok(()) => {
            &&& after.status_message matches Some(m) && m.text@ == deleted_text(action)
                && m.status_type == StatusType::Success
            &&& match action {
                ConfirmAction::DeletePerson(_) => after == (AppState {
                    status_message: after.status_message,
                    selected_person_id: None,
                    current_view: View::PersonList,
                    show_confirm_dialog: false,
                    confirm_dialog_action: None,
                    ..before
                }),
                _ => after == (AppState {
                    status_message: after.status_message,
                    show_confirm_dialog: false,
                    confirm_dialog_action: None,
                    ..before
                }),
            }
        },
        Err(e) => {
            &&& after.status_message matches Some(m) && m.text@ == delete_failed_text(e@)
                && m.status_type == StatusType::Error
            &&& after == (AppState {
                status_message: after.status_message,
                show_confirm_dialog: false,
                confirm_dialog_action: None,
                ..before
            })
        },
    }
}

impl ConfirmDialog {
    /// What follows the deletion that `action` asked for, given how the
    /// database answered: a success message (and, for a person, the person
    /// list with no person selected), or the error.
    pub fn execute_action(action: &ConfirmAction, state: &mut AppState, outcome: &Result<(), String>)
        ensures
            match *outcome {
                Ok(()) => {
                    &&& final(state).status_message matches Some(m) && m.text@ == deleted_text(*action)
                        && m.status_type == StatusType::Success
                    &&& match *action {
                        ConfirmAction::DeletePerson(_) => *final(state) == (AppState {
                            status_message: final(state).status_message,
                            selected_person_id: None,
                            current_view: View::PersonList,
                            ..*old(state)
                        }),
                        _ => *final(state) == (AppState {
                            status_message: final(state).status_message,
                            ..*old(state)
                        }),
                    }
                },
                Err(e) => {
                    &&& final(state).status_message matches Some(m) && m.text@ == delete_failed_text(e@)
                        && m.status_type == StatusType::Error
                    &&& *final(state) == (AppState {
                        status_message: final(state).status_message,
                        ..*old(state)
                    })
                },
            },
    {
        match outcome {
            Ok(()) => match action {
                ConfirmAction::DeletePerson(_) => {
                    state.show_success("Person raderad");
                    state.selected_person_id = None;
                    state.navigate(View::PersonList);
                },
                ConfirmAction::DeleteRelationship(_) => {
                    state.show_success("Relation raderad");
                },
                ConfirmAction::DeleteDocument(_) => {
                    state.show_success("Dokument raderat");
                },
            },
            Err(e) => {
                let mut m = owned("Kunde inte radera: ");
                push_str(&mut m, e.as_str());
                state.show_error(m.as_str());
            },
        }
    }

    /// The user confirmed: the pending action's outcome is applied (when an
    /// action is pending) and the dialog is closed.  Returns `Some(true)` as the
    /// dialog reports a confirmation.
    pub fn confirm(state: &mut AppState, outcome: &Result<(), String>) -> (r: Option<bool>)
        ensures
            r == Some(true),
            !final(state).show_confirm_dialog,
            final(state).confirm_dialog_action is None,
            old(state).confirm_dialog_action is None ==> *final(state) == (AppState {
                show_confirm_dialog: false,
                confirm_dialog_action: None,
                ..*old(state)
            }),
            old(state).confirm_dialog_action is Some ==> confirmed(
                *old(state),
                *final(state),
                old(state).confirm_dialog_action->0,
                *outcome,
            ),
    {
        match state.confirm_dialog_action {
            Some(action) => ConfirmDialog::execute_action(&action, state, outcome),
            None => {},
        }
        state.close_confirm();
        Some(true)
    }

    /// The user cancelled: the dialog is closed.  Returns `Some(false)`.
    pub fn cancel(state: &mut AppState) -> (r: Option<bool>)
        ensures
            r == Some(false),
            *final(state) == (AppState {
                show_confirm_dialog: false,
                confirm_dialog_action: None,
                ..*old(state)
            }),
    {
        state.close_confirm();
        Some(false)
    }
}

} // verus!

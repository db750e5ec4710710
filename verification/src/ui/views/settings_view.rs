//! The settings panel.

use vstd::prelude::*;
use crate::models::ui_state::{UiMode, UiState, UiStateView};

verus! {

/// The settings panel: back, reset the preferences, delete all entries, and
/// the confirmation that the last one asks for.
pub struct SettingsView;

/// What the widgets of the panel reported in one frame. The two buttons of
/// the confirmation exist only while it is open.
#[derive(Debug, Clone, Copy)]
pub struct SettingsInput {
    pub back_clicked: bool,
    pub reset_clicked: bool,
    pub delete_clicked: bool,
    pub confirm_clicked: bool,
    pub cancel_clicked: bool,
}

/// What the shell has to do after a frame of the panel.
#[derive(Debug, Clone, Copy, PartialEq, Eq, Structural)]
pub struct SettingsResponse {
    pub delete_db: bool,
    pub reset_settings: bool,
}

impl Default for SettingsResponse {
    /// Nothing to do.
    fn default() -> (response: SettingsResponse)
        ensures
            response == (SettingsResponse { delete_db: false, reset_settings: false }),
    {
        SettingsResponse { delete_db: false, reset_settings: false }
    }
}

/// Whether the confirmation is open when its buttons are looked at: it was
/// open before, or the delete button opened it in this frame.
pub open spec fn confirmation_open(was_open: bool, input: SettingsInput) -> bool {
    was_open || input.delete_clicked
}

/// Whether the deletion was confirmed in this frame.
pub open spec fn deletion_confirmed(was_open: bool, input: SettingsInput) -> bool {
    confirmation_open(was_open, input) && input.confirm_clicked
}

/// Whether the confirmation is open after the frame.
pub open spec fn confirmation_stays(was_open: bool, input: SettingsInput) -> bool {
    confirmation_open(was_open, input) && !input.confirm_clicked && !input.cancel_clicked
}

/// The state after a frame of the panel.
pub open spec fn settings_state(state: UiStateView, input: SettingsInput) -> UiStateView {
    UiStateView {
        ui_mode: if input.back_clicked {
            UiMode::Main
        } else {
            state.ui_mode
        },
        show_delete_confirmation: confirmation_stays(state.show_delete_confirmation, input),
        ..state
    }
}

/// What the panel answers for a frame.
pub open spec fn settings_response(was_open: bool, input: SettingsInput) -> SettingsResponse {
    SettingsResponse {
        delete_db: deletion_confirmed(was_open, input),
        reset_settings: input.reset_clicked,
    }
}

impl SettingsView {
    /// One frame of the panel. Back returns to the main panel. Reset is
    /// passed on to the shell. Delete opens the confirmation; confirming
    /// closes it and asks the shell to delete everything; cancelling closes
    /// it.
    pub fn show(ui_state: &mut UiState, input: &SettingsInput) -> (response: SettingsResponse)
        ensures
            response == settings_response(old(ui_state).show_delete_confirmation, *input),
            final(ui_state)@ == settings_state(old(ui_state)@, *input),
    {
        let mut response = SettingsResponse::default();
        if input.back_clicked {
            ui_state.ui_mode = UiMode::Main;
        }
        if input.reset_clicked {
            response.reset_settings = true;
        }
        if input.delete_clicked {
            ui_state.show_delete_confirmation = true;
        }
        if ui_state.show_delete_confirmation {
            if input.confirm_clicked {
                response.delete_db = true;
                ui_state.show_delete_confirmation = false;
            }
            if input.cancel_clicked {
                ui_state.show_delete_confirmation = false;
            }
        }
        response
    }
}

} // verus!

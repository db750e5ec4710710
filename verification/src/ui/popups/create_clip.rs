//! The popup that takes a clip typed by hand.

use vstd::prelude::*;
use rusqlite::Connection;
use crate::db;
use crate::models::clip::Clip;
use crate::models::ui_state::{UiState, UiStateView};

verus! {

/// How many clips the list is reloaded with after a change.
pub const RELOAD_LIMIT: usize = 20;

/// The popup that takes a clip typed by hand: a text box that writes the
/// shared input, Submit and Cancel.
pub struct CreateClip;

/// What the widgets of a text popup reported in one frame: Enter pressed as
/// the text box lost focus, and the two buttons.
#[derive(Debug, Clone, Copy)]
pub struct TextPopupInput {
    pub enter_pressed: bool,
    pub submit_clicked: bool,
    pub cancel_clicked: bool,
}

/// Whether the frame submits the text.
pub open spec fn submits(input: TextPopupInput) -> bool {
    input.enter_pressed || input.submit_clicked
}

/// The state after a frame of the popup: it stays open unless the text was
/// submitted or Cancel was clicked, and the input is emptied by a submission.
pub open spec fn create_clip_state(state: UiStateView, input: TextPopupInput) -> UiStateView {
    UiStateView {
        show_create_clip_popup: state.show_create_clip_popup && !submits(input)
            && !input.cancel_clicked,
        user_input: if submits(input) {
            Seq::<char>::empty()
        } else {
            state.user_input
        },
        ..state
    }
}

/// Stores the shared input as a clip taken at `now`, whatever it holds,
/// closes the popup, empties the input and reloads the list. A failure of the
/// storage layer changes none of that: the list is then reloaded as it was
/// stored, or left empty.
pub fn submit_clip(db: &Connection, ui_state: &mut UiState, clips: &mut Vec<Clip>, now: i64)
    ensures
        final(ui_state)@ == (UiStateView {
            show_create_clip_popup: false,
            user_input: Seq::<char>::empty(),
            ..old(ui_state)@
        }),
{
    let _ = db::save_clip(db, ui_state.user_input.as_str(), now);
    ui_state.show_create_clip_popup = false;
    ui_state.user_input = String::new();
    *clips = Clip::list(db::load_recent_clips(db, RELOAD_LIMIT));
}

impl CreateClip {
    /// One frame of the popup. Enter and Submit each store the input as a
    /// clip taken at `now`; Cancel closes the popup and keeps the input.
    pub fn show(
        ui_state: &mut UiState,
        db: &Connection,
        clips: &mut Vec<Clip>,
        input: &TextPopupInput,
        now: i64,
    )
        ensures
            final(ui_state)@ == create_clip_state(old(ui_state)@, *input),
            !submits(*input) ==> *final(clips) == *old(clips),
    {
        if input.enter_pressed {
            submit_clip(db, ui_state, clips, now);
        }
        if input.submit_clicked {
            submit_clip(db, ui_state, clips, now);
        }
        if input.cancel_clicked {
            ui_state.show_create_clip_popup = false;
        }
    }
}

} // verus!

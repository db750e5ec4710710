//! The popup that renames and recolours a tag.

use vstd::prelude::*;
use vstd::string::StringExecFns;
use rusqlite::Connection;
use crate::db;
use crate::db::{
    opt_request_view,
    StoreError,
    update_tag_request,
    Request,
    RequestView,
    SqlValueView,
    UPDATE_TAG,
};
use crate::models::color::Rgb;
use crate::models::tag::{opt_text, Tag};
use crate::models::ui_state::{UiState, UiStateView};
use crate::ui::popups::create_tag::reload_tags_if;
use crate::utils::formatting::{color32_to_hex, hex_text};
use crate::utils::text::{blank, is_blank};

verus! {

/// The popup that renames and recolours the tag named by
/// `show_tag_popup_for`: a text box that writes `edit_tag_name`, a colour
/// picker, Cancel and Save.
pub struct EditTagPopup;

/// What the widgets of the popup reported in one frame.
#[derive(Debug, Clone, Copy)]
pub struct EditTagInput {
    pub enter_pressed: bool,
    pub color_picked: Option<Rgb>,
    pub cancel_clicked: bool,
    pub save_clicked: bool,
}

/// Whether the frame closes the popup.
pub open spec fn closes(input: EditTagInput) -> bool {
    input.enter_pressed || input.cancel_clicked || input.save_clicked
}

/// The colour that the picker starts from while none was picked.
pub open spec fn unpicked_color() -> Rgb {
    Rgb { r: 200, g: 200, b: 200 }
}

/// The colour stored for an edit: the one picked, written as `#RRGGBB`, or
/// `#CCCCCC` where none was picked.
pub open spec fn stored_color_of(picked: Option<Rgb>) -> Seq<char> {
    match picked {
        Some(color) => hex_text(color),
        None => "#CCCCCC"@,
    }
}

/// Whether an edit is sent to the storage layer: the popup names a tag and
/// the name typed is not blank.
pub open spec fn edit_is_sent(state: UiStateView) -> bool {
    state.show_tag_popup_for is Some && (state.edit_tag_name matches Some(name) && !is_blank(name))
}

/// What a submission of the edit asks of the store: to give the tag under
/// edit the name typed and the stored colour, where the edit is sent. The
/// values are the name, the colour and the id, in that order.
pub open spec fn edit_request_of(state: UiStateView) -> Option<RequestView> {
    if edit_is_sent(state) {
        Some(
            RequestView {
                sql: UPDATE_TAG@,
                args: seq![
                    SqlValueView::Text(state.edit_tag_name->Some_0),
                    SqlValueView::Text(stored_color_of(state.edit_tag_color)),
                    SqlValueView::Integer(state.show_tag_popup_for->Some_0),
                ],
            },
        )
    } else {
        None
    }
}

impl EditTagPopup {
    /// The colour that the picker shows: the one picked, or a light grey.
    pub fn shown_color(ui_state: &UiState) -> (color: Rgb)
        ensures
            color == match ui_state.edit_tag_color {
                Some(picked) => picked,
                None => unpicked_color(),
            },
    {
        match ui_state.edit_tag_color {
            Some(picked) => picked,
            None => Rgb { r: 200, g: 200, b: 200 },
        }
    }

    /// The colour stored for an edit.
    pub fn stored_color(picked: Option<Rgb>) -> (hex: String)
        ensures
            hex@ == stored_color_of(picked),
    {
        match picked {
            Some(color) => color32_to_hex(color),
            None => String::from_str("#CCCCCC"),
        }
    }

    /// What a submission of the edit asks of the store.
    pub fn edit_request(ui_state: &UiState) -> (request: Option<Request>)
        ensures
            opt_request_view(request) == edit_request_of(ui_state@),
    {
        match ui_state.show_tag_popup_for {
            Some(tag_id) => match &ui_state.edit_tag_name {
                Some(name) => {
                    if !blank(name.as_str()) {
                        let color_hex = Self::stored_color(ui_state.edit_tag_color);
                        Some(update_tag_request(tag_id, name.as_str(), color_hex.as_str()))
                    } else {
                        None
                    }
                },
                None => None,
            },
            None => None,
        }
    }

    /// What follows the store's answer to an edit: the tags are reloaded
    /// where the store took it; where it refused, the tags stay.
    pub fn settle(db: &Connection, tags: &mut Vec<Tag>, answer: &Result<usize, StoreError>)
        ensures
            answer is Err ==> *final(tags) == *old(tags),
    {
        reload_tags_if(db, db::store_took(answer), tags);
    }

    /// One frame of the popup. The text box makes sure that there is a name
    /// to edit. Enter and Save each submit the edit; a colour picked is
    /// remembered; Cancel forgets the edit. Whichever of the three closes the
    /// popup leaves no tag, name or colour under edit.
    pub fn show(
        ui_state: &mut UiState,
        db: &Connection,
        tags: &mut Vec<Tag>,
        input: &EditTagInput,
    )
        ensures
            final(ui_state)@ == (UiStateView {
                show_tag_popup_for: if closes(*input) {
                    None
                } else {
                    old(ui_state).show_tag_popup_for
                },
                edit_tag_name: if closes(*input) {
                    None
                } else if old(ui_state).edit_tag_name is Some {
                    opt_text(old(ui_state).edit_tag_name)
                } else {
                    Some(Seq::<char>::empty())
                },
                edit_tag_color: if input.cancel_clicked || input.save_clicked {
                    None
                } else if input.color_picked is Some {
                    input.color_picked
                } else if input.enter_pressed {
                    None
                } else {
                    old(ui_state).edit_tag_color
                },
                ..old(ui_state)@
            }),
            !input.enter_pressed && !input.save_clicked ==> *final(tags) == *old(tags),
            !edit_is_sent(old(ui_state)@) ==> *final(tags) == *old(tags),
    {
        if ui_state.edit_tag_name.is_none() {
            ui_state.edit_tag_name = Some(String::new());
        }
        if input.enter_pressed {
            Self::submit_edit(ui_state, db, tags);
        }
        match input.color_picked {
            Some(color) => {
                ui_state.edit_tag_color = Some(color);
            },
            None => {},
        }
        if input.cancel_clicked {
            ui_state.show_tag_popup_for = None;
            ui_state.edit_tag_name = None;
            ui_state.edit_tag_color = None;
        }
        if input.save_clicked {
            Self::submit_edit(ui_state, db, tags);
        }
    }

    /// Submits the edit and forgets it: the store is asked what
    /// [`Self::edit_request`] says, and [`Self::settle`] does what follows
    /// its answer.
    pub fn submit_edit(ui_state: &mut UiState, db: &Connection, tags: &mut Vec<Tag>)
        ensures
            final(ui_state)@ == (UiStateView {
                show_tag_popup_for: None,
                edit_tag_name: None,
                edit_tag_color: None,
                ..old(ui_state)@
            }),
            !edit_is_sent(old(ui_state)@) ==> *final(tags) == *old(tags),
    {
        match Self::edit_request(ui_state) {
            Some(request) => {
                let answer = db::execute(db, &request);
                Self::settle(db, tags, &answer);
            },
            None => {},
        }
        ui_state.show_tag_popup_for = None;
        ui_state.edit_tag_name = None;
        ui_state.edit_tag_color = None;
    }
}

} // verus!

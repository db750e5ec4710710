//! The popup that takes the name of a new tag.

use vstd::prelude::*;
use rusqlite::Connection;
use crate::db;
use crate::db::{
    create_tag_request,
    StoreError,
    opt_request_view,
    Request,
    RequestView,
    SqlValueView,
    INSERT_TAG,
};
use crate::models::tag::Tag;
use crate::models::ui_state::{UiState, UiStateView};
use crate::ui::popups::create_clip::{submits, TextPopupInput};
use crate::utils::text::{blank, is_blank};

verus! {

/// The popup that takes the name of a new tag: a text box that writes the
/// shared input, Cancel and Save.
pub struct CreateTagPopup;

/// What a submission asks of the store: to store a tag with the input as its
/// name, unless the input is blank.
pub open spec fn tag_request_of(input: Seq<char>) -> Option<RequestView> {
    if is_blank(input) {
        None
    } else {
        Some(RequestView { sql: INSERT_TAG@, args: seq![SqlValueView::Text(input)] })
    }
}

/// The shared input after the store answered a submission: emptied where the
/// store took the tag, kept where it refused.
pub open spec fn input_after(input: Seq<char>, taken: bool) -> Seq<char> {
    if taken {
        Seq::<char>::empty()
    } else {
        input
    }
}

/// Reloads the tags where the store took a change, as [`Tag::list`] makes
/// them of the store's answer; where it refused, the tags stay.
pub fn reload_tags_if(db: &Connection, taken: bool, tags: &mut Vec<Tag>)
    ensures
        !taken ==> *final(tags) == *old(tags),
{
    if taken {
        *tags = Tag::list(db::load_tags(db));
    }
}

impl CreateTagPopup {
    /// What a submission of `input` asks of the store.
    pub fn tag_request(input: &str) -> (request: Option<Request>)
        ensures
            opt_request_view(request) == tag_request_of(input@),
    {
        if blank(input) {
            None
        } else {
            Some(create_tag_request(input))
        }
    }

    /// What follows the store's answer to a submission. Where the store took
    /// the tag, the tags are reloaded and the input is emptied; where it
    /// refused, both stay as they are.
    pub fn settle(
        ui_state: &mut UiState,
        db: &Connection,
        tags: &mut Vec<Tag>,
        answer: &Result<usize, StoreError>,
    )
        ensures
            final(ui_state)@ == (UiStateView {
                user_input: input_after(old(ui_state).user_input@, answer is Ok),
                ..old(ui_state)@
            }),
            answer is Err ==> *final(tags) == *old(tags),
    {
        let taken = db::store_took(answer);
        reload_tags_if(db, taken, tags);
        if taken {
            ui_state.user_input = String::new();
        }
    }

    /// One frame of the popup. Enter and Save each submit the input; Cancel
    /// closes the popup and empties the input.
    pub fn show(
        ui_state: &mut UiState,
        db: &Connection,
        tags: &mut Vec<Tag>,
        input: &TextPopupInput,
    )
        ensures
            final(ui_state)@ == (UiStateView {
                show_create_tag_popup: old(ui_state).show_create_tag_popup && !submits(*input)
                    && !input.cancel_clicked,
                user_input: final(ui_state).user_input@,
                ..old(ui_state)@
            }),
            input.cancel_clicked ==> final(ui_state).user_input@ == Seq::<char>::empty(),
            !submits(*input) && !input.cancel_clicked ==> final(ui_state).user_input@ == old(
                ui_state,
            ).user_input@,
            final(ui_state).user_input@ == old(ui_state).user_input@ || final(ui_state).user_input@
                == Seq::<char>::empty(),
            !input.cancel_clicked && is_blank(old(ui_state).user_input@)
                ==> final(ui_state).user_input@ == old(ui_state).user_input@,
            !submits(*input) || is_blank(old(ui_state).user_input@) ==> *final(tags) == *old(tags),
    {
        if input.enter_pressed {
            Self::submit_tag(ui_state, db, tags);
        }
        if input.cancel_clicked {
            ui_state.show_create_tag_popup = false;
            ui_state.user_input = String::new();
        }
        if input.submit_clicked {
            Self::submit_tag(ui_state, db, tags);
        }
    }

    /// Submits the input and closes the popup: the store is asked what
    /// [`Self::tag_request`] says, and [`Self::settle`] does what follows its
    /// answer. A blank input asks nothing and changes nothing else.
    pub fn submit_tag(ui_state: &mut UiState, db: &Connection, tags: &mut Vec<Tag>)
        ensures
            final(ui_state)@ == (UiStateView {
                show_create_tag_popup: false,
                user_input: final(ui_state).user_input@,
                ..old(ui_state)@
            }),
            final(ui_state).user_input@ == old(ui_state).user_input@ || (!is_blank(
                old(ui_state).user_input@,
            ) && final(ui_state).user_input@ == Seq::<char>::empty()),
            is_blank(old(ui_state).user_input@) ==> *final(tags) == *old(tags),
    {
        match Self::tag_request(ui_state.user_input.as_str()) {
            Some(request) => {
                let answer = db::execute(db, &request);
                Self::settle(ui_state, db, tags, &answer);
            },
            None => {},
        }
        ui_state.show_create_tag_popup = false;
    }
}

} // verus!

//! One tag shown as a card, and what the widgets of a tag ask of the store.

use vstd::prelude::*;
use vstd::string::StringExecFns;
use rusqlite::Connection;
use crate::db;
use crate::db::{StoreError, TagRow};
use crate::models::clip::Clip;
use crate::models::color::Rgb;
use crate::models::tag::{found_tag, opt_text, refreshed_tag, Tag, TagView};
use crate::models::ui_state::{UiMode, UiState, UiStateView};
use crate::utils::formatting::{color32_to_hex, hex_text, signed_decimal, signed_decimal_text};

verus! {

/// What the widgets of a tag's card reported in one frame.
#[derive(Debug, Clone, Copy)]
pub struct TagCardInput {
    pub name_clicked: bool,
    pub color_picked: Option<Rgb>,
    pub reset_color_clicked: bool,
    pub delete_clicked: bool,
}

/// What a widget of a tag asks of the store.
#[derive(Debug, Clone, PartialEq, Eq)]
pub enum RowRequest {
    /// List the clips that carry the tag with this id.
    ListClips(i64),
    /// Give the tag with this id this colour, written as `#RRGGBB`, or none.
    Recolor(i64, Option<String>),
    /// Remove the tag with this id.
    Delete(i64),
}

/// The mathematical value of a [`RowRequest`].
pub enum RowRequestView {
    ListClips(int),
    Recolor(int, Option<Seq<char>>),
    Delete(int),
}

impl View for RowRequest {
    type V = RowRequestView;

    open spec fn view(&self) -> RowRequestView {
        match self {
            RowRequest::ListClips(id) => RowRequestView::ListClips(*id as int),
            RowRequest::Recolor(id, color) => RowRequestView::Recolor(*id as int, opt_text(*color)),
            RowRequest::Delete(id) => RowRequestView::Delete(*id as int),
        }
    }
}

/// Which lists are reloaded after the store answered: the tags after a tag
/// was recoloured or removed, the map of all clips after a tag was removed.
#[derive(Debug, Clone, Copy, PartialEq, Eq, Structural)]
pub struct Reloads {
    pub tags: bool,
    pub clip_tags: bool,
}

/// The lists to reload after one more request was answered. A request that
/// the store refused changed nothing, so it asks for no reload; listing clips
/// never does.
pub open spec fn reloads_with(
    before: Reloads,
    request: RowRequestView,
    succeeded: bool,
) -> Reloads {
    match request {
        RowRequestView::ListClips(_) => before,
        RowRequestView::Recolor(_, _) => Reloads { tags: before.tags || succeeded, ..before },
        RowRequestView::Delete(_) => Reloads {
            tags: before.tags || succeeded,
            clip_tags: before.clip_tags || succeeded,
        },
    }
}

/// The request of the name button: list the clips of the tag where it was
/// clicked.
pub open spec fn list_request_of(id: int, name_clicked: bool) -> Option<RowRequestView> {
    if name_clicked {
        Some(RowRequestView::ListClips(id))
    } else {
        None
    }
}

/// The request of the colour picker: give the tag the colour picked, where
/// one was.
pub open spec fn recolor_request_of(id: int, color_picked: Option<Rgb>) -> Option<RowRequestView> {
    match color_picked {
        Some(color) => Some(RowRequestView::Recolor(id, Some(hex_text(color)))),
        None => None,
    }
}

/// The request of the reset button: take the tag's colour away where it was
/// clicked.
pub open spec fn reset_request_of(id: int, reset_clicked: bool) -> Option<RowRequestView> {
    if reset_clicked {
        Some(RowRequestView::Recolor(id, None))
    } else {
        None
    }
}

/// The request of the delete button: remove the tag where it was clicked.
pub open spec fn delete_request_of(id: int, delete_clicked: bool) -> Option<RowRequestView> {
    if delete_clicked {
        Some(RowRequestView::Delete(id))
    } else {
        None
    }
}

/// The view of an optional request.
pub open spec fn opt_request(request: Option<RowRequest>) -> Option<RowRequestView> {
    match request {
        Some(r) => Some(r@),
        None => None,
    }
}

/// The line under the name of a tag: how many clips carry it.
pub open spec fn clip_count_text(count: int) -> Seq<char> {
    signed_decimal_text(count) + " clips"@
}

/// The line under the name of a tag, or none where the storage layer failed
/// to count.
pub fn count_label(answer: &Result<i64, StoreError>) -> (label: Option<String>)
    ensures
        answer matches Ok(count) ==> label matches Some(text) && text@ == clip_count_text(
            count as int,
        ),
        answer is Err ==> label is None,
{
    match answer {
        Ok(count) => Some(signed_decimal(*count).concat(" clips")),
        Err(_) => None,
    }
}

/// The request of the name button of the tag `id`.
pub fn list_request(id: i64, name_clicked: bool) -> (request: Option<RowRequest>)
    ensures
        opt_request(request) == list_request_of(id as int, name_clicked),
{
    if name_clicked {
        Some(RowRequest::ListClips(id))
    } else {
        None
    }
}

/// The request of the colour picker of the tag `id`.
pub fn recolor_request(id: i64, color_picked: Option<Rgb>) -> (request: Option<RowRequest>)
    ensures
        opt_request(request) == recolor_request_of(id as int, color_picked),
{
    match color_picked {
        Some(color) => Some(RowRequest::Recolor(id, Some(color32_to_hex(color)))),
        None => None,
    }
}

/// The request of the reset button of the tag `id`.
pub fn reset_request(id: i64, reset_clicked: bool) -> (request: Option<RowRequest>)
    ensures
        opt_request(request) == reset_request_of(id as int, reset_clicked),
{
    if reset_clicked {
        Some(RowRequest::Recolor(id, None))
    } else {
        None
    }
}

/// The request of the delete button of the tag `id`.
pub fn delete_request(id: i64, delete_clicked: bool) -> (request: Option<RowRequest>)
    ensures
        opt_request(request) == delete_request_of(id as int, delete_clicked),
{
    if delete_clicked {
        Some(RowRequest::Delete(id))
    } else {
        None
    }
}

/// The lists to reload after one more request was answered.
pub fn reloads_after(before: Reloads, request: &RowRequest, succeeded: bool) -> (after: Reloads)
    ensures
        after == reloads_with(before, request@, succeeded),
{
    match request {
        RowRequest::ListClips(_) => before,
        RowRequest::Recolor(_, _) => Reloads {
            tags: before.tags || succeeded,
            clip_tags: before.clip_tags,
        },
        RowRequest::Delete(_) => Reloads {
            tags: before.tags || succeeded,
            clip_tags: before.clip_tags || succeeded,
        },
    }
}

/// Hands one request to the storage layer and says whether it succeeded. The
/// clips listed for a tag are put on screen as [`Clip::list`] makes them of
/// the answer; the other requests leave the clips on screen alone.
pub fn send(db: &Connection, request: &RowRequest, clips: &mut Vec<Clip>) -> (succeeded: bool)
    ensures
        !(request is ListClips) ==> *final(clips) == *old(clips),
{
    match request {
        RowRequest::ListClips(id) => {
            let answer = db::load_clips_for_tag(db, id);
            let succeeded = answer.is_ok();
            *clips = Clip::list(answer);
            succeeded
        },
        RowRequest::Recolor(id, color) => {
            let answer = match color {
                Some(hex) => db::update_tag_color(db, *id, Some(hex.as_str())),
                None => db::update_tag_color(db, *id, None),
            };
            answer.is_ok()
        },
        RowRequest::Delete(id) => db::delete_tag(db, *id).is_ok(),
    }
}

/// Hands an optional request to the storage layer, as [`send`] does, and
/// gives the lists to reload after it.
pub fn send_if_any(
    db: &Connection,
    request: &Option<RowRequest>,
    clips: &mut Vec<Clip>,
    before: Reloads,
) -> (after: Reloads)
    ensures
        request is None ==> after == before && *final(clips) == *old(clips),
        request matches Some(r) ==> (!(r is ListClips) ==> *final(clips) == *old(clips)) && exists|
            succeeded: bool,
        | after == reloads_with(before, r@, succeeded),
{
    match request {
        Some(r) => {
            let succeeded = send(db, r, clips);
            reloads_after(before, r, succeeded)
        },
        None => before,
    }
}

/// One frame of a tag's card. A click on the name lists the clips of the tag,
/// by [`list_request`], and returns to the main panel; the colour widgets and
/// the delete button have their turn as in [`color_picker`]. Returns whether
/// the tag was removed.
pub fn show(
    tag: &mut Tag,
    db: &Connection,
    clips: &mut Vec<Clip>,
    ui_state: &mut UiState,
    input: &TagCardInput,
) -> (tag_deleted: bool)
    ensures
        final(ui_state)@ == (UiStateView {
            ui_mode: if input.name_clicked {
                UiMode::Main
            } else {
                old(ui_state).ui_mode
            },
            ..old(ui_state)@
        }),
        !input.name_clicked ==> *final(clips) == *old(clips),
        final(tag).id == old(tag).id,
        input.color_picked is None && !input.reset_color_clicked && !input.delete_clicked
            ==> *final(tag) == *old(tag),
        tag_deleted ==> input.delete_clicked,
{
    let listing = list_request(tag.id, input.name_clicked);
    let _ = send_if_any(db, &listing, clips, Reloads { tags: false, clip_tags: false });
    if input.name_clicked {
        ui_state.ui_mode = UiMode::Main;
    }
    color_picker(tag, db, input)
}

/// The colour widgets and the delete button of a tag's card. A colour picked
/// is sent to the storage layer by [`recolor_request`], a reset by
/// [`reset_request`], a deletion by [`delete_request`], in that order. Where
/// the store took one of them, the tag is read again from the store, as
/// [`Tag::refreshed`] finds it; the tag in memory is never written otherwise.
/// Returns whether the tag was removed.
pub fn color_picker(tag: &mut Tag, db: &Connection, input: &TagCardInput) -> (tag_deleted: bool)
    ensures
        final(tag).id == old(tag).id,
        input.color_picked is None && !input.reset_color_clicked && !input.delete_clicked
            ==> *final(tag) == *old(tag),
        tag_deleted ==> input.delete_clicked,
{
    let mut unused: Vec<Clip> = Vec::new();
    let none = Reloads { tags: false, clip_tags: false };
    let picked = recolor_request(tag.id, input.color_picked);
    let after_pick = send_if_any(db, &picked, &mut unused, none);
    let reset = reset_request(tag.id, input.reset_color_clicked);
    let after_reset = send_if_any(db, &reset, &mut unused, after_pick);
    let removal = delete_request(tag.id, input.delete_clicked);
    let after_all = send_if_any(db, &removal, &mut unused, after_reset);
    if after_all.tags {
        let answer = db::load_tags(db);
        let fresh = tag.refreshed(&answer);
        proof {
            lemma_found_tag_keeps_id(tag@, answer);
        }
        *tag = fresh;
    }
    after_all.clip_tags
}

/// A tag read again from the store has the id it had.
pub proof fn lemma_found_tag_keeps_id(tag: TagView, answer: Result<Vec<TagRow>, StoreError>)
    ensures
        refreshed_tag(tag, answer).id == tag.id,
{
    match answer {
        Ok(rows) => {
            lemma_found_keeps_id(tag, rows@);
        },
        Err(_) => {},
    }
}

proof fn lemma_found_keeps_id(tag: TagView, rows: Seq<TagRow>)
    ensures
        found_tag(tag, rows).id == tag.id,
    decreases rows.len(),
{
    if rows.len() > 0 && rows[0].0 != tag.id {
        lemma_found_keeps_id(tag, rows.drop_first());
    }
}

} // verus!

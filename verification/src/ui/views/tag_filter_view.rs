//! The tag manager.

use vstd::prelude::*;
use vstd::string::StringExecFns;
use rusqlite::Connection;
use std::collections::HashMap;
use crate::db;
use crate::db::StoreError;
use crate::models::clip::Clip;
use crate::models::color::{fallback_tag_color, gray, red, white, Rgb};
use crate::models::tag::{opt_text, tag_views, Tag, TagView};
use crate::models::ui_state::{UiMode, UiState, UiStateView};
use crate::ui::components::tag_card::{
    delete_request,
    delete_request_of,
    list_request,
    list_request_of,
    opt_request,
    recolor_request,
    recolor_request_of,
    reloads_after,
    reloads_with,
    send,
    Reloads,
    RowRequest,
    RowRequestView,
};
use crate::ui::popups::create_clip::{submits, TextPopupInput};
use crate::ui::popups::create_tag::CreateTagPopup;
use crate::utils::text::is_blank;
use crate::utils::formatting::{
    decimal,
    decimal_text,
    hex_to_color32,
    parsed_hex_color,
    signed_decimal,
    signed_decimal_text,
};

verus! {

/// The tag manager: a table with one row for each tag, Back, the button for
/// a new tag, and the popup that it opens.
pub struct TagFilterView;

/// What the widgets of one row of the table reported in a frame.
#[derive(Debug, Clone, Copy)]
pub struct TagRowInput {
    pub name_clicked: bool,
    pub color_picked: Option<Rgb>,
    pub delete_clicked: bool,
}

/// What the widgets of the tag manager reported in one frame. The rows stand
/// in the order of the tags; a row without a tag, or a tag without a row,
/// takes no part.
pub struct TagFilterInput {
    pub back_clicked: bool,
    pub create_clicked: bool,
    pub rows: Vec<TagRowInput>,
    pub popup: TextPopupInput,
}

/// How many rows take part: as many as there are tags and rows both.
pub open spec fn rows_in_play(tags: int, rows: int) -> int {
    if tags <= rows {
        tags
    } else {
        rows
    }
}

/// The requests after one more row had its turn: that of its name button,
/// of its colour picker and of its delete button, in that order, each for
/// the tag with the id `id`.
pub open spec fn with_row(before: Seq<RowRequestView>, id: int, row: TagRowInput) -> Seq<
    RowRequestView,
> {
    let listed = match list_request_of(id, row.name_clicked) {
        Some(request) => before.push(request),
        None => before,
    };
    let coloured = match recolor_request_of(id, row.color_picked) {
        Some(request) => listed.push(request),
        None => listed,
    };
    match delete_request_of(id, row.delete_clicked) {
        Some(request) => coloured.push(request),
        None => coloured,
    }
}

/// The requests of the first `k` rows, from the top down; row `j` speaks for
/// the tag `j`.
pub open spec fn requests_upto(tags: Seq<TagView>, rows: Seq<TagRowInput>, k: int) -> Seq<
    RowRequestView,
>
    decreases k,
{
    if k <= 0 {
        Seq::empty()
    } else {
        with_row(requests_upto(tags, rows, k - 1), tags[k - 1].id, rows[k - 1])
    }
}

/// What the rows of a frame ask of the store: the requests of every row in
/// play, from the top down.
pub open spec fn requests_for(tags: Seq<TagView>, rows: Seq<TagRowInput>) -> Seq<RowRequestView> {
    requests_upto(tags, rows, rows_in_play(tags.len() as int, rows.len() as int))
}

/// The values of a list of requests.
pub open spec fn request_views(requests: Seq<RowRequest>) -> Seq<RowRequestView> {
    requests.map_values(|request: RowRequest| request@)
}

/// Whether one of the requests lists the clips of a tag.
pub open spec fn lists_clips(requests: Seq<RowRequestView>) -> bool {
    exists|i: int| 0 <= i < requests.len() && (#[trigger] requests[i]) is ListClips
}

/// Whether one of the requests recolours or removes a tag.
pub open spec fn changes_tags(requests: Seq<RowRequestView>) -> bool {
    exists|i: int| 0 <= i < requests.len() && !((#[trigger] requests[i]) is ListClips)
}

/// Whether one of the requests removes a tag.
pub open spec fn removes_tag(requests: Seq<RowRequestView>) -> bool {
    exists|i: int| 0 <= i < requests.len() && (#[trigger] requests[i]) is Delete
}

/// The lists to reload after the first `k` requests were answered, given for
/// each request whether the store took it.
pub open spec fn reloads_upto(requests: Seq<RowRequestView>, outcomes: Seq<bool>, k: int) -> Reloads
    decreases k,
{
    if k <= 0 {
        Reloads { tags: false, clip_tags: false }
    } else {
        reloads_with(reloads_upto(requests, outcomes, k - 1), requests[k - 1], outcomes[k - 1])
    }
}

/// The lists to reload after the requests of a frame were answered: the tags
/// if the store took a recolouring or a removal, the map of all clips if it
/// took a removal.
pub open spec fn reloads_of(requests: Seq<RowRequestView>, outcomes: Seq<bool>) -> Reloads {
    reloads_upto(requests, outcomes, rows_in_play(requests.len() as int, outcomes.len() as int))
}

/// The colour that the picker of a row shows: the tag's own where it reads
/// as `#RRGGBB`, and else the fallback of the theme.
pub open spec fn row_color(color: Option<Seq<char>>, darkmode: bool) -> Rgb {
    match color {
        Some(hex) => match parsed_hex_color(hex) {
            Some(own) => own,
            None => fallback_tag_color(darkmode),
        },
        None => fallback_tag_color(darkmode),
    }
}

/// The heading's count: the number of tags in brackets.
pub open spec fn tag_count_text(count: nat) -> Seq<char> {
    "("@ + decimal_text(count) + " tags)"@
}

/// Whether the popup for a new tag is open when it has its turn: it was open
/// before, or its button opened it in this frame.
pub open spec fn new_tag_popup_open(state: UiStateView, input: TagFilterInput) -> bool {
    state.show_create_tag_popup || input.create_clicked
}

/// Whether a frame of the tag manager keeps the shared input as it is: the
/// popup is closed; or nothing is submitted or cancelled; or the input is
/// blank, so that a submission asks nothing, and Cancel is not clicked.
pub open spec fn keeps_input(state: UiStateView, input: TagFilterInput) -> bool {
    ||| !new_tag_popup_open(state, input)
    ||| (!submits(input.popup) && !input.popup.cancel_clicked)
    ||| (is_blank(state.user_input) && !input.popup.cancel_clicked)
}

/// Whether a frame of the tag manager empties the shared input whatever the
/// store answers: the popup is open and Cancel is clicked.
pub open spec fn empties_input(state: UiStateView, input: TagFilterInput) -> bool {
    new_tag_popup_open(state, input) && input.popup.cancel_clicked
}

/// Whether a frame of the tag manager leaves the tags alone whatever the
/// store answers: no row asks for a recolouring or a removal, and the popup
/// submits nothing.
pub open spec fn keeps_tags(state: UiStateView, input: TagFilterInput, tags: Seq<TagView>) -> bool {
    !changes_tags(requests_for(tags, input.rows@)) && !(new_tag_popup_open(state, input)
        && submits(input.popup))
}

/// The state after a frame of the tag manager, given the tags it started
/// with and the shared input that the popup left. Back, and a click on the
/// name of a tag, return to the main panel.
pub open spec fn tag_filter_state(
    state: UiStateView,
    input: TagFilterInput,
    tags: Seq<TagView>,
    user_input: Seq<char>,
) -> UiStateView {
    UiStateView {
        ui_mode: if input.back_clicked || lists_clips(requests_for(tags, input.rows@)) {
            UiMode::Main
        } else {
            state.ui_mode
        },
        show_create_tag_popup: (state.show_create_tag_popup || input.create_clicked) && !submits(
            input.popup,
        ) && !input.popup.cancel_clicked,
        user_input,
        ..state
    }
}

/// Adds a request to the list, where there is one.
fn push_if_any(requests: &mut Vec<RowRequest>, request: Option<RowRequest>)
    ensures
        request_views(final(requests)@) == match opt_request(request) {
            Some(r) => request_views(old(requests)@).push(r),
            None => request_views(old(requests)@),
        },
{
    match request {
        Some(r) => {
            requests.push(r);
            assert(request_views(requests@) =~= request_views(old(requests)@).push(r@));
        },
        None => {},
    }
}

impl TagFilterView {
    /// The count shown beside the heading.
    pub fn heading_count(tags: &Vec<Tag>) -> (text: String)
        ensures
            text@ == tag_count_text(tags.len() as nat),
    {
        let n: usize = tags.len();
        String::from_str("(").concat(decimal(n as u64).as_str()).concat(" tags)")
    }

    /// The cell that counts the clips of a tag: the number, white if there
    /// are any and grey if not, or a red question mark where the storage
    /// layer failed.
    pub fn count_cell(answer: &Result<i64, StoreError>) -> (cell: (String, Rgb))
        ensures
            answer matches Ok(count) ==> cell.0@ == signed_decimal_text(count as int) && cell.1
                == if count > 0 {
                white()
            } else {
                gray()
            },
            answer is Err ==> cell.0@ == "?"@ && cell.1 == red(),
    {
        match answer {
            Ok(count) => {
                let color = if *count > 0 {
                    Rgb { r: 255, g: 255, b: 255 }
                } else {
                    Rgb { r: 160, g: 160, b: 160 }
                };
                (signed_decimal(*count), color)
            },
            Err(_) => (String::from_str("?"), Rgb { r: 255, g: 0, b: 0 }),
        }
    }

    /// The colour that the picker of a tag's row shows.
    pub fn shown_color(tag: &Tag, darkmode: bool) -> (color: Rgb)
        ensures
            color == row_color(opt_text(tag.color), darkmode),
    {
        let own = match &tag.color {
            Some(hex) => hex_to_color32(hex.as_str()),
            None => None,
        };
        match own {
            Some(color) => color,
            None => if darkmode {
                Rgb { r: 220, g: 220, b: 220 }
            } else {
                Rgb { r: 96, g: 96, b: 96 }
            },
        }
    }

    /// What the rows of a frame ask of the store. For each row in play, from
    /// the top down and each for the tag of that row: list its clips where
    /// the name was clicked, give it the colour picked where one was, remove
    /// it where delete was clicked.
    pub fn row_requests(tags: &Vec<Tag>, rows: &Vec<TagRowInput>) -> (requests: Vec<RowRequest>)
        ensures
            request_views(requests@) == requests_for(tag_views(tags@), rows@),
    {
        let m: usize = if tags.len() <= rows.len() {
            tags.len()
        } else {
            rows.len()
        };
        let mut requests: Vec<RowRequest> = Vec::new();
        let mut j: usize = 0;
        assert(request_views(requests@) =~= Seq::<RowRequestView>::empty());
        while j < m
            invariant
                m == rows_in_play(tags.len() as int, rows.len() as int),
                j <= m,
                request_views(requests@) == requests_upto(tag_views(tags@), rows@, j as int),
            decreases m - j,
        {
            let id: i64 = tags[j].id;
            let row = rows[j];
            assert(tag_views(tags@)[j as int].id == id as int);
            push_if_any(&mut requests, list_request(id, row.name_clicked));
            push_if_any(&mut requests, recolor_request(id, row.color_picked));
            push_if_any(&mut requests, delete_request(id, row.delete_clicked));
            j += 1;
        }
        requests
    }

    /// Whether one of the requests lists the clips of a tag.
    pub fn any_listing(requests: &Vec<RowRequest>) -> (found: bool)
        ensures
            found == lists_clips(request_views(requests@)),
    {
        let n: usize = requests.len();
        let mut i: usize = 0;
        while i < n
            invariant
                n == requests.len(),
                i <= n,
                forall|k: int|
                    0 <= k < i ==> !((#[trigger] request_views(requests@)[k]) is ListClips),
            decreases n - i,
        {
            match &requests[i] {
                RowRequest::ListClips(_) => {
                    assert(request_views(requests@)[i as int] is ListClips);
                    return true;
                },
                _ => {
                    assert(!(request_views(requests@)[i as int] is ListClips));
                },
            }
            i += 1;
        }
        false
    }

    /// Hands the requests to the storage layer, in order, and says of each
    /// whether the store took it. The clips on screen change only where a
    /// request lists clips.
    pub fn send_all(
        db: &Connection,
        requests: &Vec<RowRequest>,
        clips: &mut Vec<Clip>,
    ) -> (outcomes: Vec<bool>)
        ensures
            outcomes.len() == requests.len(),
            !lists_clips(request_views(requests@)) ==> *final(clips) == *old(clips),
    {
        let mut outcomes: Vec<bool> = Vec::new();
        let n: usize = requests.len();
        let mut i: usize = 0;
        while i < n
            invariant
                n == requests.len(),
                i <= n,
                outcomes.len() == i,
                (forall|k: int|
                    0 <= k < i ==> !((#[trigger] request_views(requests@)[k]) is ListClips))
                    ==> *clips == *old(clips),
            decreases n - i,
        {
            assert(request_views(requests@)[i as int] == requests@[i as int]@);
            let succeeded = send(db, &requests[i], clips);
            outcomes.push(succeeded);
            i += 1;
        }
        outcomes
    }

    /// The lists to reload after the store answered the requests of a frame.
    /// Nothing is reloaded for a frame that asked for no recolouring and no
    /// removal, and the map of all clips only for a frame that asked for a
    /// removal.
    pub fn reloads_for(requests: &Vec<RowRequest>, outcomes: &Vec<bool>) -> (reloads: Reloads)
        ensures
            reloads == reloads_of(request_views(requests@), outcomes@),
            reloads.tags ==> changes_tags(request_views(requests@)),
            reloads.clip_tags ==> removes_tag(request_views(requests@)),
    {
        let m: usize = if requests.len() <= outcomes.len() {
            requests.len()
        } else {
            outcomes.len()
        };
        let mut reloads = Reloads { tags: false, clip_tags: false };
        let mut i: usize = 0;
        while i < m
            invariant
                m == rows_in_play(requests.len() as int, outcomes.len() as int),
                i <= m,
                reloads == reloads_upto(request_views(requests@), outcomes@, i as int),
                reloads.tags ==> changes_tags(request_views(requests@)),
                reloads.clip_tags ==> removes_tag(request_views(requests@)),
            decreases m - i,
        {
            assert(request_views(requests@)[i as int] == requests@[i as int]@);
            reloads = reloads_after(reloads, &requests[i], outcomes[i]);
            i += 1;
        }
        reloads
    }

    /// Reloads what a frame changed in the store: the tags as [`Tag::list`]
    /// makes them of the store's answer, the map of all clips as
    /// [`db::tag_names_or_none`] makes it. What is not reloaded stays.
    pub fn reload(
        db: &Connection,
        reloads: Reloads,
        tags: &mut Vec<Tag>,
        clip_tags: &mut HashMap<i64, Vec<String>>,
    )
        ensures
            !reloads.tags ==> *final(tags) == *old(tags),
            !reloads.clip_tags ==> *final(clip_tags) == *old(clip_tags),
    {
        if reloads.tags {
            *tags = Tag::list(db::load_tags(db));
        }
        if reloads.clip_tags {
            *clip_tags = db::tag_names_or_none(db::load_clip_tags(db));
        }
    }

    /// One frame of the tag manager. Back returns to the main panel. The
    /// button for a new tag opens its popup. The rows ask of the store what
    /// [`Self::row_requests`] says, and a request that lists clips returns to
    /// the main panel. Then the lists that [`Self::reloads_for`] names for
    /// the store's answers are reloaded, as [`Self::reload`] does; the tags
    /// in memory are never written otherwise. At last the popup has its turn
    /// while it is open.
    pub fn show(
        clips: &mut Vec<Clip>,
        db: &Connection,
        ui_state: &mut UiState,
        tags: &mut Vec<Tag>,
        clip_tags: &mut HashMap<i64, Vec<String>>,
        input: &TagFilterInput,
    )
        ensures
            final(ui_state)@ == tag_filter_state(
                old(ui_state)@,
                *input,
                tag_views(old(tags)@),
                final(ui_state).user_input@,
            ),
            final(ui_state).user_input@ == old(ui_state).user_input@ || final(ui_state).user_input@
                == Seq::<char>::empty(),
            keeps_input(old(ui_state)@, *input) ==> final(ui_state).user_input@ == old(
                ui_state,
            ).user_input@,
            empties_input(old(ui_state)@, *input) ==> final(ui_state).user_input@ == Seq::<
                char,
            >::empty(),
            !lists_clips(requests_for(tag_views(old(tags)@), input.rows@)) ==> *final(clips)
                == *old(clips),
            !removes_tag(requests_for(tag_views(old(tags)@), input.rows@)) ==> *final(clip_tags)
                == *old(clip_tags),
            keeps_tags(old(ui_state)@, *input, tag_views(old(tags)@)) ==> *final(tags) == *old(
                tags,
            ),
    {
        if input.back_clicked {
            ui_state.ui_mode = UiMode::Main;
        }
        if input.create_clicked {
            ui_state.show_create_tag_popup = true;
        }
        let requests = Self::row_requests(tags, &input.rows);
        if Self::any_listing(&requests) {
            ui_state.ui_mode = UiMode::Main;
        }
        let outcomes = Self::send_all(db, &requests, clips);
        let reloads = Self::reloads_for(&requests, &outcomes);
        Self::reload(db, reloads, tags, clip_tags);
        if ui_state.show_create_tag_popup {
            CreateTagPopup::show(ui_state, db, tags, &input.popup);
        }
    }
}

} // verus!

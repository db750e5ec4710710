//! The list of clips.

use vstd::prelude::*;
use rusqlite::Connection;
use std::collections::HashMap;
use crate::db;
use crate::db::{
    delete_clip_request,
    request_views,
    toggle_pin_request,
    Request,
    RequestView,
    SqlValueView,
    TagRow,
    DELETE_CLIP,
    TOGGLE_PIN,
};
use crate::models::clip::Clip;
use crate::models::color::Rgb;
use crate::models::tag::{row_tags, TagView};
use crate::models::ui_state::{UiState, UiStateView};
use crate::ui::components::clip_card::ClipCardResponse;
use crate::ui::popups::create_clip::{
    create_clip_state,
    submits,
    CreateClip,
    TextPopupInput,
    RELOAD_LIMIT,
};
use crate::ui::popups::tag_assignment::{
    assigned_names,
    assignment_state,
    TagAssignmentInput,
    TagAssignmentPopup,
};
use crate::utils::formatting::{hex_to_color32, parsed_hex_color};

verus! {

/// The list of clips, one card each, with the popup for a new clip and the
/// popup that puts a tag on a clip.
pub struct MainView;

/// What the card of one clip answered in a frame.
#[derive(Debug, Clone, Copy)]
pub struct CardEvent {
    pub clip_id: i64,
    pub response: ClipCardResponse,
}

/// What the widgets of the list reported in one frame: the popup for a new
/// clip, the cards from the top down, and the popup that puts a tag on a
/// clip.
pub struct MainViewInput {
    pub create_clip: TextPopupInput,
    pub cards: Vec<CardEvent>,
    pub tag_popup: TagAssignmentInput,
}

/// Whether the list ends with this card for the frame: the card asked for its
/// clip to be deleted or pinned.
pub open spec fn card_stops(card: CardEvent) -> bool {
    card.response.delete_requested || card.response.pin_toggled
}

/// How many cards are looked at: all up to and including the first that ends
/// the list.
pub open spec fn cards_seen(cards: Seq<CardEvent>) -> int
    decreases cards.len(),
{
    if cards.len() == 0 {
        0
    } else if card_stops(cards[0]) {
        1
    } else {
        1 + cards_seen(cards.drop_first())
    }
}

/// The clip that the tag popup is open for after the cards were looked at:
/// that of the last card that asked for a tag, or the one before.
pub open spec fn popup_target(before: Option<i64>, seen: Seq<CardEvent>) -> Option<i64>
    decreases seen.len(),
{
    if seen.len() == 0 {
        before
    } else if seen.last().response.add_tag_requested {
        Some(seen.last().clip_id)
    } else {
        popup_target(before, seen.drop_last())
    }
}

/// Whether any of the cards asked for a tag.
pub open spec fn asks_for_tag(seen: Seq<CardEvent>) -> bool {
    exists|i: int| 0 <= i < seen.len() && (#[trigger] seen[i]).response.add_tag_requested
}

/// The clip to delete after the frame: that of the card that ended the list,
/// if it asked for that.
pub open spec fn clip_to_delete(cards: Seq<CardEvent>) -> Option<i64> {
    let n = cards_seen(cards);
    if n > 0 && cards[n - 1].response.delete_requested {
        Some(cards[n - 1].clip_id)
    } else {
        None
    }
}

/// The clip whose pin to turn over after the frame: that of the card that
/// ended the list, if it asked for that.
pub open spec fn clip_to_pin(cards: Seq<CardEvent>) -> Option<i64> {
    let n = cards_seen(cards);
    if n > 0 && cards[n - 1].response.pin_toggled {
        Some(cards[n - 1].clip_id)
    } else {
        None
    }
}

/// What the list asks of the store after the cards were looked at: to remove
/// the clip to delete, then to turn over the pin of the clip to pin.
pub open spec fn clip_requests_of(deleted: Option<i64>, pinned: Option<i64>) -> Seq<RequestView> {
    let removal = match deleted {
        Some(id) => seq![RequestView { sql: DELETE_CLIP@, args: seq![SqlValueView::Integer(id)] }],
        None => Seq::empty(),
    };
    match pinned {
        Some(id) => removal.push(
            RequestView { sql: TOGGLE_PIN@, args: seq![SqlValueView::Integer(id)] },
        ),
        None => removal,
    }
}

/// What a frame of the list asks of the store, by the answers of its cards.
pub open spec fn frame_requests(cards: Seq<CardEvent>) -> Seq<RequestView> {
    clip_requests_of(clip_to_delete(cards), clip_to_pin(cards))
}

/// The state after the cards were looked at: a card that asked for a tag
/// opens the tag popup for its clip, with no tag selected.
pub open spec fn cards_state(state: UiStateView, cards: Seq<CardEvent>) -> UiStateView {
    let seen = cards.take(cards_seen(cards));
    UiStateView {
        show_tag_popup_for: popup_target(state.show_tag_popup_for, seen),
        selected_tag_id: if asks_for_tag(seen) {
            None
        } else {
            state.selected_tag_id
        },
        ..state
    }
}

/// The state after the popup for a new clip had its turn: it has one only
/// while it is open.
pub open spec fn new_clip_state(state: UiStateView, input: TextPopupInput) -> UiStateView {
    if state.show_create_clip_popup {
        create_clip_state(state, input)
    } else {
        state
    }
}

/// The state after a frame of the list: the popup for a new clip, the cards
/// and the tag popup have their turn in that order.
pub open spec fn main_view_state(
    state: UiStateView,
    input: MainViewInput,
    tags: Seq<TagView>,
    clip_tags: Map<i64, Vec<String>>,
) -> UiStateView {
    tag_popup_state(
        cards_state(new_clip_state(state, input.create_clip), input.cards@),
        input.tag_popup,
        tags,
        clip_tags,
    )
}

/// Whether a frame of the list may reload the clips: a new clip was
/// submitted, or a card asked for a deletion or a pin.
pub open spec fn reloads_clips(popup_open: bool, input: MainViewInput) -> bool {
    (popup_open && submits(input.create_clip)) || clip_to_delete(input.cards@) is Some
        || clip_to_pin(input.cards@) is Some
}

/// The state after the tag popup had its turn: it has one only while it is
/// open for a clip.
pub open spec fn tag_popup_state(
    state: UiStateView,
    input: TagAssignmentInput,
    tags: Seq<TagView>,
    clip_tags: Map<i64, Vec<String>>,
) -> UiStateView {
    match state.show_tag_popup_for {
        Some(clip_id) => assignment_state(state, input, tags, assigned_names(clip_tags, clip_id)),
        None => state,
    }
}

/// The colours of the tags by name: an entry for each tag whose colour reads
/// as `#RRGGBB`, in order.
pub open spec fn named_colors(tags: Seq<TagRow>) -> Seq<(Seq<char>, Rgb)>
    decreases tags.len(),
{
    if tags.len() == 0 {
        Seq::empty()
    } else {
        let before = named_colors(tags.drop_last());
        match tags.last().2 {
            Some(hex) => match parsed_hex_color(hex@) {
                Some(color) => before.push((tags.last().1@, color)),
                None => before,
            },
            None => before,
        }
    }
}

/// The names and colours of a list of entries.
pub open spec fn color_views(colors: Seq<(String, Rgb)>) -> Seq<(Seq<char>, Rgb)> {
    colors.map_values(|entry: (String, Rgb)| (entry.0@, entry.1))
}

impl MainView {
    /// The colours to show tags in, by name.
    pub fn tag_colors(tags: &Vec<TagRow>) -> (colors: Vec<(String, Rgb)>)
        ensures
            color_views(colors@) == named_colors(tags@),
    {
        let mut colors: Vec<(String, Rgb)> = Vec::new();
        let n: usize = tags.len();
        let mut i: usize = 0;
        assert(tags@.take(0) =~= Seq::<TagRow>::empty());
        assert(color_views(colors@) =~= named_colors(tags@.take(0)));
        while i < n
            invariant
                n == tags.len(),
                i <= n,
                color_views(colors@) == named_colors(tags@.take(i as int)),
            decreases n - i,
        {
            let ghost next = tags@.take(i + 1);
            assert(next.drop_last() =~= tags@.take(i as int));
            assert(next.last() == tags@[i as int]);
            let ghost before = colors@;
            match &tags[i].2 {
                Some(hex) => {
                    match hex_to_color32(hex.as_str()) {
                        Some(color) => {
                            colors.push((tags[i].1.clone(), color));
                            assert(color_views(colors@) =~= color_views(before).push(
                                (tags@[i as int].1@, color),
                            ));
                        },
                        None => {},
                    }
                },
                None => {},
            }
            i += 1;
        }
        assert(tags@.take(n as int) =~= tags@);
        colors
    }

    /// Looks at the answers of the cards from the top down, up to and
    /// including the first that asks for a deletion or a pin. A card that
    /// asks for a tag opens the tag popup for its clip. Returns the clip to
    /// delete and the clip to pin.
    pub fn scan_cards(cards: &Vec<CardEvent>, ui_state: &mut UiState) -> (requests: (
        Option<i64>,
        Option<i64>,
    ))
        ensures
            requests.0 == clip_to_delete(cards@),
            requests.1 == clip_to_pin(cards@),
            final(ui_state)@ == cards_state(old(ui_state)@, cards@),
    {
        let mut deleted_id: Option<i64> = None;
        let mut pinned_id: Option<i64> = None;
        let n: usize = cards.len();
        let mut i: usize = 0;
        proof {
            assert(cards@.take(0) =~= Seq::<CardEvent>::empty());
            assert(cards@.skip(0) =~= cards@);
        }
        while i < n
            invariant_except_break
                deleted_id is None,
                pinned_id is None,
                forall|j: int| 0 <= j < i ==> !card_stops(#[trigger] cards[j]),
                cards_seen(cards@) == i + cards_seen(cards@.skip(i as int)),
            invariant
                n == cards.len(),
                i <= n,
                ui_state@ == (UiStateView {
                    show_tag_popup_for: popup_target(
                        old(ui_state).show_tag_popup_for,
                        cards@.take(i as int),
                    ),
                    selected_tag_id: if asks_for_tag(cards@.take(i as int)) {
                        None
                    } else {
                        old(ui_state).selected_tag_id
                    },
                    ..old(ui_state)@
                }),
            ensures
                i == cards_seen(cards@),
                deleted_id == clip_to_delete(cards@),
                pinned_id == clip_to_pin(cards@),
            decreases n - i,
        {
            let card = &cards[i];
            let ghost seen = cards@.take(i as int);
            let ghost next = cards@.take(i + 1);
            proof {
                assert(next.drop_last() =~= seen);
                assert(next.last() == cards@[i as int]);
                assert(cards@.skip(i as int)[0] == cards@[i as int]);
                assert(cards@.skip(i as int).drop_first() =~= cards@.skip(i + 1));
                if asks_for_tag(seen) {
                    let w = choose|k: int|
                        0 <= k < seen.len() && (#[trigger] seen[k]).response.add_tag_requested;
                    assert(next[w] == seen[w]);
                }
                if asks_for_tag(next) && !card.response.add_tag_requested {
                    let w = choose|k: int|
                        0 <= k < next.len() && (#[trigger] next[k]).response.add_tag_requested;
                    assert(w < i);
                    assert(seen[w] == next[w]);
                }
                if card.response.add_tag_requested {
                    assert(next[i as int].response.add_tag_requested);
                }
            }
            if card.response.delete_requested {
                deleted_id = Some(card.clip_id);
            }
            if card.response.pin_toggled {
                pinned_id = Some(card.clip_id);
            }
            if card.response.add_tag_requested {
                ui_state.show_tag_popup_for = Some(card.clip_id);
                ui_state.selected_tag_id = None;
            }
            i += 1;
            if deleted_id.is_some() || pinned_id.is_some() {
                break;
            }
        }
        assert(cards@.take(i as int) =~= cards@.take(cards_seen(cards@)));
        (deleted_id, pinned_id)
    }

    /// What the list asks of the store for the clip to delete and the clip
    /// to pin.
    pub fn clip_requests(deleted: Option<i64>, pinned: Option<i64>) -> (requests: Vec<Request>)
        ensures
            request_views(requests@) == clip_requests_of(deleted, pinned),
    {
        let mut requests: Vec<Request> = Vec::new();
        assert(request_views(requests@) =~= Seq::<RequestView>::empty());
        match deleted {
            Some(id) => {
                let ghost before = request_views(requests@);
                let request = delete_clip_request(id);
                requests.push(request);
                assert(request_views(requests@) =~= before.push(request@));
            },
            None => {},
        }
        match pinned {
            Some(id) => {
                let ghost before = request_views(requests@);
                let request = toggle_pin_request(id);
                requests.push(request);
                assert(request_views(requests@) =~= before.push(request@));
            },
            None => {},
        }
        requests
    }

    /// Hands the requests to the storage layer, in order. What the store
    /// answers changes nothing here: the lists are reloaded after.
    pub fn send_all(db: &Connection, requests: &Vec<Request>) {
        let n: usize = requests.len();
        let mut i: usize = 0;
        while i < n
            invariant
                n == requests.len(),
                i <= n,
            decreases n - i,
        {
            let _ = db::execute(db, &requests[i]);
            i += 1;
        }
    }

    /// One frame of the list. The popup for a new clip has its turn while it
    /// is open; then the cards are looked at; then the tag popup has its turn
    /// if it is open for a clip; at last the store is asked what
    /// [`Self::clip_requests`] says, the list is reloaded after a deletion or
    /// a pin, and the map of all clips after a deletion.
    pub fn show(
        clips: &mut Vec<Clip>,
        db: &Connection,
        ui_state: &mut UiState,
        clip_tags: &mut HashMap<i64, Vec<String>>,
        tags: &Vec<TagRow>,
        input: &MainViewInput,
        now: i64,
    )
        ensures
            final(ui_state)@ == main_view_state(
                old(ui_state)@,
                *input,
                row_tags(tags@),
                old(clip_tags)@,
            ),
            !reloads_clips(old(ui_state).show_create_clip_popup, *input) ==> *final(clips) == *old(
                clips,
            ),
            !input.tag_popup.assign_clicked && clip_to_delete(input.cards@) is None
                ==> final(clip_tags)@ == old(clip_tags)@,
    {
        if ui_state.show_create_clip_popup {
            CreateClip::show(ui_state, db, clips, &input.create_clip, now);
        }
        let (deleted_id, pinned_id) = Self::scan_cards(&input.cards, ui_state);
        match ui_state.show_tag_popup_for {
            Some(clip_id) => {
                TagAssignmentPopup::show(clip_id, ui_state, db, clip_tags, tags, &input.tag_popup);
            },
            None => {},
        }
        let requests = Self::clip_requests(deleted_id, pinned_id);
        Self::send_all(db, &requests);
        if deleted_id.is_some() || pinned_id.is_some() {
            *clips = Clip::list(db::load_recent_clips(db, RELOAD_LIMIT));
        }
        if deleted_id.is_some() {
            *clip_tags = db::tag_names_or_none(db::load_clip_tags(db));
        }
    }
}

} // verus!

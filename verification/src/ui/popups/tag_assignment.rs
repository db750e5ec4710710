//! The popup that puts a tag on a clip.

use vstd::prelude::*;
use rusqlite::Connection;
use std::collections::HashMap;
use crate::db;
use crate::db::{
    assign_request,
    opt_request_view,
    StoreError,
    Request,
    RequestView,
    SqlValueView,
    TagRow,
    INSERT_CLIP_TAG,
};
use crate::models::tag::{row_tags, TagView};
use crate::models::ui_state::{UiState, UiStateView};

verus! {

/// The popup that puts a tag on a clip: the tags that the clip does not
/// carry yet, one of them selected by a click, Assign and Cancel.
pub struct TagAssignmentPopup;

/// What the widgets of the popup reported in one frame: the tag whose label
/// was clicked, if one was, and the two buttons.
#[derive(Debug, Clone, Copy)]
pub struct TagAssignmentInput {
    pub clicked_tag: Option<i64>,
    pub assign_clicked: bool,
    pub cancel_clicked: bool,
}

/// Whether a list of names holds `name`.
pub open spec fn holds_name(names: Seq<String>, name: Seq<char>) -> bool {
    exists|i: int| 0 <= i < names.len() && (#[trigger] names[i])@ == name
}

/// The tag names that a clip carries, by the map of all clips.
pub open spec fn assigned_names(clip_tags: Map<i64, Vec<String>>, clip_id: i64) -> Seq<String> {
    if clip_tags.contains_key(clip_id) {
        clip_tags[clip_id]@
    } else {
        Seq::empty()
    }
}

/// The tags offered for a clip: those whose name is not among the assigned
/// ones, in order, each with its id and name.
pub open spec fn offered(tags: Seq<TagView>, assigned: Seq<String>) -> Seq<(int, Seq<char>)>
    decreases tags.len(),
{
    if tags.len() == 0 {
        Seq::empty()
    } else {
        let before = offered(tags.drop_last(), assigned);
        if holds_name(assigned, tags.last().name) {
            before
        } else {
            before.push((tags.last().id, tags.last().name))
        }
    }
}

/// Whether a tag with the given id is offered.
pub open spec fn is_offered(tags: Seq<TagView>, assigned: Seq<String>, tag_id: i64) -> bool {
    exists|i: int|
        0 <= i < tags.len() && (#[trigger] tags[i]).id == tag_id && !holds_name(
            assigned,
            tags[i].name,
        )
}

/// The ids and names of a list of labels.
pub open spec fn label_views(labels: Seq<(i64, String)>) -> Seq<(int, Seq<char>)> {
    labels.map_values(|label: (i64, String)| (label.0 as int, label.1@))
}

/// The tag selected after the labels were looked at: the one clicked if it is
/// offered, and else the one selected before.
pub open spec fn selected_after(
    selected: Option<i64>,
    clicked: Option<i64>,
    tags: Seq<TagView>,
    assigned: Seq<String>,
) -> Option<i64> {
    match clicked {
        Some(tag_id) => if is_offered(tags, assigned, tag_id) {
            Some(tag_id)
        } else {
            selected
        },
        None => selected,
    }
}

/// The state after a frame of the popup: a click on an offered tag selects
/// it, and Assign and Cancel close the popup.
pub open spec fn assignment_state(
    state: UiStateView,
    input: TagAssignmentInput,
    tags: Seq<TagView>,
    assigned: Seq<String>,
) -> UiStateView {
    UiStateView {
        selected_tag_id: selected_after(state.selected_tag_id, input.clicked_tag, tags, assigned),
        show_tag_popup_for: if input.assign_clicked || input.cancel_clicked {
            None
        } else {
            state.show_tag_popup_for
        },
        ..state
    }
}

/// What Assign asks of the store: to put the selected tag on the clip, where
/// Assign was clicked and a tag is selected.
pub open spec fn assignment_request_of(
    clip_id: i64,
    selected: Option<i64>,
    assign_clicked: bool,
) -> Option<RequestView> {
    match selected {
        Some(tag_id) => if assign_clicked {
            Some(
                RequestView {
                    sql: INSERT_CLIP_TAG@,
                    args: seq![SqlValueView::Integer(clip_id), SqlValueView::Integer(tag_id)],
                },
            )
        } else {
            None
        },
        None => None,
    }
}

/// Whether `names` holds `name`.
pub fn contains_name(names: &Vec<String>, name: &String) -> (found: bool)
    ensures
        found == holds_name(names@, name@),
{
    let n: usize = names.len();
    let mut i: usize = 0;
    while i < n
        invariant
            n == names.len(),
            i <= n,
            forall|j: int| 0 <= j < i ==> (#[trigger] names[j])@ != name@,
        decreases n - i,
    {
        if names[i] == *name {
            return true;
        }
        i += 1;
    }
    false
}

impl TagAssignmentPopup {
    /// Whether the clip carries a tag of that name already, by the map of all
    /// clips.
    pub fn is_assigned(
        clip_id: i64,
        clip_tags: &HashMap<i64, Vec<String>>,
        name: &String,
    ) -> (found: bool)
        ensures
            found == holds_name(assigned_names(clip_tags@, clip_id), name@),
    {
        broadcast use vstd::std_specs::hash::group_hash_axioms;

        match clip_tags.get(&clip_id) {
            Some(names) => contains_name(names, name),
            None => false,
        }
    }

    /// The tags to offer for the clip: those that it does not carry yet.
    pub fn candidates(
        clip_id: i64,
        clip_tags: &HashMap<i64, Vec<String>>,
        tags: &Vec<TagRow>,
    ) -> (labels: Vec<(i64, String)>)
        ensures
            label_views(labels@) == offered(row_tags(tags@), assigned_names(clip_tags@, clip_id)),
    {
        let ghost assigned = assigned_names(clip_tags@, clip_id);
        let mut labels: Vec<(i64, String)> = Vec::new();
        let n: usize = tags.len();
        let mut i: usize = 0;
        assert(row_tags(tags@).take(0) =~= Seq::<TagView>::empty());
        assert(label_views(labels@) =~= offered(row_tags(tags@).take(0), assigned));
        while i < n
            invariant
                n == tags.len(),
                i <= n,
                assigned == assigned_names(clip_tags@, clip_id),
                label_views(labels@) == offered(row_tags(tags@).take(i as int), assigned),
            decreases n - i,
        {
            let ghost next = row_tags(tags@).take(i + 1);
            assert(next.drop_last() =~= row_tags(tags@).take(i as int));
            assert(next.last() == row_tags(tags@)[i as int]);
            let ghost before = labels@;
            if !Self::is_assigned(clip_id, clip_tags, &tags[i].1) {
                labels.push((tags[i].0, tags[i].1.clone()));
                assert(label_views(labels@) =~= label_views(before).push(
                    (tags@[i as int].0 as int, tags@[i as int].1@),
                ));
            }
            i += 1;
        }
        assert(row_tags(tags@).take(n as int) =~= row_tags(tags@));
        labels
    }

    /// Whether a click on the label of `tag_id` counts: a tag with that id is
    /// offered.
    pub fn offers(
        clip_id: i64,
        clip_tags: &HashMap<i64, Vec<String>>,
        tags: &Vec<TagRow>,
        tag_id: i64,
    ) -> (found: bool)
        ensures
            found == is_offered(row_tags(tags@), assigned_names(clip_tags@, clip_id), tag_id),
    {
        let n: usize = tags.len();
        let mut i: usize = 0;
        while i < n
            invariant
                n == tags.len(),
                i <= n,
                forall|j: int|
                    0 <= j < i ==> !((#[trigger] row_tags(tags@)[j]).id == tag_id && !holds_name(
                        assigned_names(clip_tags@, clip_id),
                        row_tags(tags@)[j].name,
                    )),
            decreases n - i,
        {
            if tags[i].0 == tag_id && !Self::is_assigned(clip_id, clip_tags, &tags[i].1) {
                assert(row_tags(tags@)[i as int].id == tag_id);
                return true;
            }
            i += 1;
        }
        false
    }

    /// What Assign asks of the store for the clip `clip_id`, given the tag
    /// that is selected when the button is looked at.
    pub fn assignment_request(
        clip_id: i64,
        selected: Option<i64>,
        assign_clicked: bool,
    ) -> (request: Option<Request>)
        ensures
            opt_request_view(request) == assignment_request_of(clip_id, selected, assign_clicked),
    {
        match selected {
            Some(tag_id) => if assign_clicked {
                Some(assign_request(clip_id, tag_id))
            } else {
                None
            },
            None => None,
        }
    }

    /// What follows the store's answer to an assignment: the map of all
    /// clips is reloaded where the store took it, as
    /// [`db::tag_names_or_none`] makes it of the store's answer; where it
    /// refused, the map stays.
    pub fn settle(
        db: &Connection,
        clip_tags: &mut HashMap<i64, Vec<String>>,
        answer: &Result<usize, StoreError>,
    )
        ensures
            answer is Err ==> *final(clip_tags) == *old(clip_tags),
    {
        if db::store_took(answer) {
            *clip_tags = db::tag_names_or_none(db::load_clip_tags(db));
        }
    }

    /// One frame of the popup for the clip `clip_id`. A click on an offered
    /// tag selects it. Assign asks the storage layer what
    /// [`Self::assignment_request`] says, [`Self::settle`] does what follows
    /// the store's answer, and the popup closes; Cancel closes it.
    pub fn show(
        clip_id: i64,
        ui_state: &mut UiState,
        db: &Connection,
        clip_tags: &mut HashMap<i64, Vec<String>>,
        tags: &Vec<TagRow>,
        input: &TagAssignmentInput,
    )
        ensures
            final(ui_state)@ == assignment_state(
                old(ui_state)@,
                *input,
                row_tags(tags@),
                assigned_names(old(clip_tags)@, clip_id),
            ),
            !input.assign_clicked || final(ui_state).selected_tag_id is None ==> final(clip_tags)@
                == old(clip_tags)@,
    {
        match input.clicked_tag {
            Some(tag_id) => {
                if Self::offers(clip_id, clip_tags, tags, tag_id) {
                    ui_state.selected_tag_id = Some(tag_id);
                }
            },
            None => {},
        }
        match Self::assignment_request(clip_id, ui_state.selected_tag_id, input.assign_clicked) {
            Some(request) => {
                let answer = db::execute(db, &request);
                Self::settle(db, clip_tags, &answer);
            },
            None => {},
        }
        if input.assign_clicked {
            ui_state.show_tag_popup_for = None;
        }
        if input.cancel_clicked {
            ui_state.show_tag_popup_for = None;
        }
    }
}

} // verus!

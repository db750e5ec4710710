//! A user-defined label.

use vstd::prelude::*;
use crate::db::{StoreError, TagRow};

verus! {

/// A label with a unique name and, optionally, a colour written as `#RRGGBB`.
#[derive(Debug, Clone)]
pub struct Tag {
    pub id: i64,
    pub name: String,
    pub color: Option<String>,
}

/// The view of an optional text.
pub open spec fn opt_text(t: Option<String>) -> Option<Seq<char>> {
    match t {
        Some(s) => Some(s@),
        None => None,
    }
}

/// The mathematical value of a [`Tag`].
pub struct TagView {
    pub id: int,
    pub name: Seq<char>,
    pub color: Option<Seq<char>>,
}

impl View for Tag {
    type V = TagView;

    open spec fn view(&self) -> TagView {
        TagView { id: self.id as int, name: self.name@, color: opt_text(self.color) }
    }
}

/// The tag that a row of the storage layer stands for.
pub open spec fn row_tag(row: TagRow) -> TagView {
    TagView { id: row.0 as int, name: row.1@, color: opt_text(row.2) }
}

/// The values of a list of tags.
pub open spec fn tag_views(tags: Seq<Tag>) -> Seq<TagView> {
    tags.map_values(|tag: Tag| tag@)
}

/// The values of a list of tag rows.
pub open spec fn row_tags(rows: Seq<TagRow>) -> Seq<TagView> {
    rows.map_values(|row: TagRow| row_tag(row))
}

/// The tags listed for an answer of the storage layer: those of its rows, or
/// none where it failed.
pub open spec fn listed_tags(answer: Result<Vec<TagRow>, StoreError>) -> Seq<TagView> {
    match answer {
        Ok(rows) => row_tags(rows@),
        Err(_) => Seq::empty(),
    }
}

/// The tag that stands for the first row with the id of `tag`, or `tag`
/// where no row has it.
pub open spec fn found_tag(tag: TagView, rows: Seq<TagRow>) -> TagView
    decreases rows.len(),
{
    if rows.len() == 0 {
        tag
    } else if rows[0].0 == tag.id {
        row_tag(rows[0])
    } else {
        found_tag(tag, rows.drop_first())
    }
}

/// The tag as the store has it, given the store's answer for all tags.
pub open spec fn refreshed_tag(tag: TagView, answer: Result<Vec<TagRow>, StoreError>) -> TagView {
    match answer {
        Ok(rows) => found_tag(tag, rows@),
        Err(_) => tag,
    }
}

/// A copy of an optional text.
pub fn copy_opt_text(text: &Option<String>) -> (copy: Option<String>)
    ensures
        opt_text(copy) == opt_text(*text),
{
    match text {
        Some(t) => Some(t.clone()),
        None => None,
    }
}

impl Tag {
    /// A tag made of its three fields.
    pub fn new(id: i64, name: String, color: Option<String>) -> (tag: Tag)
        ensures
            tag.id == id,
            tag.name == name,
            tag.color == color,
    {
        Tag { id, name, color }
    }

    /// A tag made of one row as the storage layer hands it out.
    pub fn from_tuple(tuple: (i64, String, Option<String>)) -> (tag: Tag)
        ensures
            tag.id == tuple.0,
            tag.name == tuple.1,
            tag.color == tuple.2,
    {
        Tag::new(tuple.0, tuple.1, tuple.2)
    }

    /// The tags made of the rows, one for each and in order.
    pub fn from_rows(rows: &Vec<TagRow>) -> (tags: Vec<Tag>)
        ensures
            tag_views(tags@) == row_tags(rows@),
    {
        let mut tags: Vec<Tag> = Vec::new();
        let n: usize = rows.len();
        let mut i: usize = 0;
        while i < n
            invariant
                n == rows.len(),
                i <= n,
                tags.len() == i,
                forall|j: int| 0 <= j < i ==> (#[trigger] tags[j])@ == row_tag(rows[j]),
            decreases n - i,
        {
            let row = &rows[i];
            tags.push(Tag::new(row.0, row.1.clone(), copy_opt_text(&row.2)));
            i += 1;
        }
        assert(tag_views(tags@) =~= row_tags(rows@));
        tags
    }

    /// The tags to list for an answer of the storage layer: one for each row,
    /// in order, or none where the storage layer failed.
    pub fn list(answer: Result<Vec<TagRow>, StoreError>) -> (tags: Vec<Tag>)
        ensures
            tag_views(tags@) == listed_tags(answer),
    {
        match answer {
            Ok(rows) => Tag::from_rows(&rows),
            Err(_) => {
                let tags: Vec<Tag> = Vec::new();
                assert(tag_views(tags@) =~= listed_tags(answer));
                tags
            },
        }
    }

    /// The tag as the store has it now, given the store's answer for all
    /// tags: the first row with the tag's id, or the tag itself where there
    /// is none or the store failed.
    pub fn refreshed(&self, answer: &Result<Vec<TagRow>, StoreError>) -> (tag: Tag)
        ensures
            tag@ == refreshed_tag(self@, *answer),
    {
        match answer {
            Ok(rows) => {
                let n: usize = rows.len();
                let mut i: usize = 0;
                assert(rows@.skip(0) =~= rows@);
                assert(refreshed_tag(self@, *answer) == found_tag(self@, rows@));
                while i < n
                    invariant
                        n == rows.len(),
                        i <= n,
                        refreshed_tag(self@, *answer) == found_tag(self@, rows@),
                        found_tag(self@, rows@) == found_tag(self@, rows@.skip(i as int)),
                    decreases n - i,
                {
                    assert(rows@.skip(i as int)[0] == rows@[i as int]);
                    assert(rows@.skip(i as int).drop_first() =~= rows@.skip(i + 1));
                    if rows[i].0 == self.id {
                        let color = copy_opt_text(&rows[i].2);
                        let fresh = Tag::new(rows[i].0, rows[i].1.clone(), color);
                        assert(fresh@ == row_tag(rows@[i as int]));
                        assert(found_tag(self@, rows@.skip(i as int)) == row_tag(rows@[i as int]));
                        return fresh;
                    }
                    assert(found_tag(self@, rows@.skip(i as int)) == found_tag(
                        self@,
                        rows@.skip(i + 1),
                    ));
                    i += 1;
                }
                Tag::new(self.id, self.name.clone(), copy_opt_text(&self.color))
            },
            Err(_) => Tag::new(self.id, self.name.clone(), copy_opt_text(&self.color)),
        }
    }

    /// The rows that stand for the tags, one for each and in order.
    pub fn to_rows(tags: &Vec<Tag>) -> (rows: Vec<TagRow>)
        ensures
            row_tags(rows@) == tag_views(tags@),
    {
        let mut rows: Vec<TagRow> = Vec::new();
        let n: usize = tags.len();
        let mut i: usize = 0;
        while i < n
            invariant
                n == tags.len(),
                i <= n,
                rows.len() == i,
                forall|j: int| 0 <= j < i ==> row_tag(#[trigger] rows[j]) == tags[j]@,
            decreases n - i,
        {
            let tag = &tags[i];
            rows.push((tag.id, tag.name.clone(), copy_opt_text(&tag.color)));
            i += 1;
        }
        assert(row_tags(rows@) =~= tag_views(tags@));
        rows
    }
}

} // verus!

//! A stored snapshot of the clipboard.

use vstd::prelude::*;
use crate::db::{ClipRow, StoreError};
use crate::utils::text::{blank, is_blank};

verus! {

/// One captured clipboard text with the second it was taken at and its pin
/// flag.
#[derive(Debug, Clone)]
pub struct Clip {
    pub id: i64,
    pub content: String,
    pub timestamp: i64,
    pub pinned: bool,
}

/// The mathematical value of a [`Clip`].
pub struct ClipView {
    pub id: int,
    pub content: Seq<char>,
    pub timestamp: int,
    pub pinned: bool,
}

impl View for Clip {
    type V = ClipView;

    open spec fn view(&self) -> ClipView {
        ClipView {
            id: self.id as int,
            content: self.content@,
            timestamp: self.timestamp as int,
            pinned: self.pinned,
        }
    }
}

/// The clip that a row of the storage layer stands for.
pub open spec fn row_clip(row: ClipRow) -> ClipView {
    ClipView { id: row.0 as int, content: row.1@, timestamp: row.2 as int, pinned: row.3 }
}

/// The values of a list of clips.
pub open spec fn clip_views(clips: Seq<Clip>) -> Seq<ClipView> {
    clips.map_values(|clip: Clip| clip@)
}

/// The clips listed for an answer of the storage layer: those of its rows, or
/// none where it failed.
pub open spec fn listed_clips(answer: Result<Vec<ClipRow>, StoreError>) -> Seq<ClipView> {
    match answer {
        Ok(rows) => rows@.map_values(|row: ClipRow| row_clip(row)),
        Err(_) => Seq::empty(),
    }
}

impl Clip {
    /// A clip made of its four fields.
    pub fn new(id: i64, content: String, timestamp: i64, pinned: bool) -> (clip: Clip)
        ensures
            clip.id == id,
            clip.content == content,
            clip.timestamp == timestamp,
            clip.pinned == pinned,
    {
        Clip { id, content, timestamp, pinned }
    }

    /// A clip made of one row as the storage layer hands it out.
    pub fn from_tuple(tuple: (i64, String, i64, bool)) -> (clip: Clip)
        ensures
            clip.id == tuple.0,
            clip.content == tuple.1,
            clip.timestamp == tuple.2,
            clip.pinned == tuple.3,
    {
        Clip::new(tuple.0, tuple.1, tuple.2, tuple.3)
    }

    /// The clips to list for an answer of the storage layer: one for each
    /// row, in order, or none where the storage layer failed.
    pub fn list(answer: Result<Vec<ClipRow>, StoreError>) -> (clips: Vec<Clip>)
        ensures
            clip_views(clips@) == listed_clips(answer),
    {
        let mut clips: Vec<Clip> = Vec::new();
        match answer {
            Ok(rows) => {
                let n: usize = rows.len();
                let mut i: usize = 0;
                while i < n
                    invariant
                        n == rows.len(),
                        i <= n,
                        clips.len() == i,
                        forall|j: int| 0 <= j < i ==> (#[trigger] clips[j])@ == row_clip(rows[j]),
                    decreases n - i,
                {
                    let row = &rows[i];
                    clips.push(Clip::new(row.0, row.1.clone(), row.2, row.3));
                    i += 1;
                }
                assert(clip_views(clips@) =~= listed_clips(answer));
            },
            Err(_) => {
                assert(clip_views(clips@) =~= listed_clips(answer));
            },
        }
        clips
    }

    /// Whether the clip shows nothing: its content is blank.
    pub fn is_empty(&self) -> (b: bool)
        ensures
            b == is_blank(self.content@),
    {
        blank(self.content.as_str())
    }
}

} // verus!

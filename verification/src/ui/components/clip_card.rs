//! One clip of the list.

use vstd::prelude::*;
use vstd::string::StringExecFns;
use crate::models::clip::Clip;
use crate::models::color::{fallback_tag_color, Rgb};
use crate::utils::text::is_blank;

verus! {

/// The card of one clip: its content, its tags, its timestamp, and the
/// buttons to tag, copy, delete and pin it.
pub struct ClipCard;

/// What the buttons of a card reported in one frame.
#[derive(Debug, Clone, Copy)]
pub struct ClipCardInput {
    pub add_tag_clicked: bool,
    pub copy_clicked: bool,
    pub delete_clicked: bool,
    pub pin_clicked: bool,
}

/// What the list has to do after a frame of a card.
#[derive(Debug, Clone, Copy, PartialEq, Eq, Structural)]
pub struct ClipCardResponse {
    pub copied: bool,
    pub delete_requested: bool,
    pub pin_toggled: bool,
    pub add_tag_requested: bool,
}

impl Default for ClipCardResponse {
    /// Nothing to do.
    fn default() -> (response: ClipCardResponse)
        ensures
            response == (ClipCardResponse {
                copied: false,
                delete_requested: false,
                pin_toggled: false,
                add_tag_requested: false,
            }),
    {
        ClipCardResponse {
            copied: false,
            delete_requested: false,
            pin_toggled: false,
            add_tag_requested: false,
        }
    }
}

/// The colour listed for a name: that of the last entry with the name.
pub open spec fn color_named(colors: Seq<(String, Rgb)>, name: Seq<char>) -> Option<Rgb>
    decreases colors.len(),
{
    if colors.len() == 0 {
        None
    } else if colors.last().0@ == name {
        Some(colors.last().1)
    } else {
        color_named(colors.drop_last(), name)
    }
}

/// The text in the body of a card.
pub open spec fn card_text(content: Seq<char>, show_content: bool) -> Seq<char> {
    if show_content {
        content
    } else {
        "Content hidden"@
    }
}

/// The hint of the pin button.
pub open spec fn pin_hint_of(pinned: bool) -> Seq<char> {
    if pinned {
        "Unpin this entry"@
    } else {
        "Pin this entry"@
    }
}

impl ClipCard {
    /// One frame of a card. A clip whose content is blank has no card, so
    /// nothing is asked of the list; for any other clip each button is passed
    /// on.
    pub fn show(clip: &Clip, input: &ClipCardInput) -> (response: ClipCardResponse)
        ensures
            is_blank(clip.content@) ==> response == (ClipCardResponse {
                copied: false,
                delete_requested: false,
                pin_toggled: false,
                add_tag_requested: false,
            }),
            !is_blank(clip.content@) ==> response == (ClipCardResponse {
                copied: input.copy_clicked,
                delete_requested: input.delete_clicked,
                pin_toggled: input.pin_clicked,
                add_tag_requested: input.add_tag_clicked,
            }),
    {
        let mut response = ClipCardResponse::default();
        if clip.is_empty() {
            return response;
        }
        if input.add_tag_clicked {
            response.add_tag_requested = true;
        }
        if input.copy_clicked {
            response.copied = true;
        }
        if input.delete_clicked {
            response.delete_requested = true;
        }
        if input.pin_clicked {
            response.pin_toggled = true;
        }
        response
    }

    /// The text in the body of the card: the content, or a placeholder while
    /// content is hidden.
    pub fn body_text(clip: &Clip, show_content: bool) -> (text: String)
        ensures
            text@ == card_text(clip.content@, show_content),
    {
        if show_content {
            clip.content.clone()
        } else {
            String::from_str("Content hidden")
        }
    }

    /// The colour of a tag on the card: the one listed for its name, or the
    /// fallback of the theme.
    pub fn tag_color(tag_colors: &Vec<(String, Rgb)>, tag_name: &String, darkmode: bool) -> (color:
        Rgb)
        ensures
            color == match color_named(tag_colors@, tag_name@) {
                Some(listed) => listed,
                None => fallback_tag_color(darkmode),
            },
    {
        let mut i: usize = tag_colors.len();
        assert(tag_colors@.take(i as int) =~= tag_colors@);
        while i > 0
            invariant
                i <= tag_colors.len(),
                color_named(tag_colors@, tag_name@) == color_named(
                    tag_colors@.take(i as int),
                    tag_name@,
                ),
            decreases i,
        {
            let ghost seen = tag_colors@.take(i as int);
            assert(seen.last() == tag_colors@[i - 1]);
            assert(seen.drop_last() =~= tag_colors@.take(i - 1));
            i -= 1;
            if tag_colors[i].0 == *tag_name {
                return tag_colors[i].1;
            }
        }
        if darkmode {
            Rgb { r: 220, g: 220, b: 220 }
        } else {
            Rgb { r: 96, g: 96, b: 96 }
        }
    }

    /// The hint of the pin button.
    pub fn pin_hint(clip: &Clip) -> (hint: &'static str)
        ensures
            hint@ == pin_hint_of(clip.pinned),
    {
        if clip.pinned {
            "Unpin this entry"
        } else {
            "Pin this entry"
        }
    }
}

} // verus!

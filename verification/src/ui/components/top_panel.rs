//! The bar above the clip list.

use vstd::prelude::*;

verus! {

/// The bar above the clip list: settings, show or hide content, tags, date
/// filter, theme, refresh, search and new clip.
pub struct TopPanel;

/// What the widgets of the bar reported in one frame. The date picker and the
/// search box write the date and the query themselves; here they only say
/// that they did.
#[derive(Debug, Clone, Copy)]
pub struct TopPanelInput {
    pub settings_clicked: bool,
    pub content_toggle_clicked: bool,
    pub tags_clicked: bool,
    pub date_changed: bool,
    pub theme_clicked: bool,
    pub refresh_clicked: bool,
    pub search_changed: bool,
    pub add_clip_clicked: bool,
}

/// What the shell has to do after a frame of the bar.
#[derive(Debug, Clone, Copy, PartialEq, Eq, Structural)]
pub struct TopPanelResponse {
    pub show_tags: bool,
    pub date_changed: bool,
    pub refresh_requested: bool,
    pub settings: bool,
    pub search_query_changed: bool,
    pub add_clip: bool,
}

impl Default for TopPanelResponse {
    /// Nothing to do.
    fn default() -> (response: TopPanelResponse)
        ensures
            response == (TopPanelResponse {
                show_tags: false,
                date_changed: false,
                refresh_requested: false,
                settings: false,
                search_query_changed: false,
                add_clip: false,
            }),
    {
        TopPanelResponse {
            show_tags: false,
            date_changed: false,
            refresh_requested: false,
            settings: false,
            search_query_changed: false,
            add_clip: false,
        }
    }
}

impl TopPanel {
    /// One frame of the bar. The two toggles turn their flag over where they
    /// were clicked; every other widget is passed on to the shell.
    pub fn show(input: &TopPanelInput, show_content: &mut bool, darkmode: &mut bool) -> (response:
        TopPanelResponse)
        ensures
            *final(show_content) == (*old(show_content) != input.content_toggle_clicked),
            *final(darkmode) == (*old(darkmode) != input.theme_clicked),
            response == (TopPanelResponse {
                show_tags: input.tags_clicked,
                date_changed: input.date_changed,
                refresh_requested: input.refresh_clicked,
                settings: input.settings_clicked,
                search_query_changed: input.search_changed,
                add_clip: input.add_clip_clicked,
            }),
    {
        let mut response = TopPanelResponse::default();
        if input.settings_clicked {
            response.settings = true;
        }
        if input.content_toggle_clicked {
            *show_content = !*show_content;
        }
        if input.tags_clicked {
            response.show_tags = true;
        }
        if input.date_changed {
            response.date_changed = true;
        }
        if input.theme_clicked {
            *darkmode = !*darkmode;
        }
        if input.refresh_clicked {
            response.refresh_requested = true;
        }
        if input.search_changed {
            response.search_query_changed = true;
        }
        if input.add_clip_clicked {
            response.add_clip = true;
        }
        response
    }
}

} // verus!

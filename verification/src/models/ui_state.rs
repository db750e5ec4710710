//! What the user interface remembers between frames.

use vstd::prelude::*;
use crate::models::color::Rgb;
use crate::models::date::Date;
use crate::models::tag::opt_text;
use crate::settings::Settings;

verus! {

/// The panel that fills the window.
#[derive(Debug, Clone, Copy, PartialEq, Eq, Structural)]
pub enum UiMode {
    Main,
    TagFilter,
    Settings,
}

/// The state shared by the panels and popups.
pub struct UiState {
    pub ui_mode: UiMode,
    pub date_filter: Date,
    pub user_input: String,
    pub search_query: String,
    pub auto_hide_clips: bool,
    pub show_content: bool,
    pub show_create_tag_popup: bool,
    pub show_create_clip_popup: bool,
    pub show_delete_confirmation: bool,
    pub show_tag_popup_for: Option<i64>,
    pub edit_tag_name: Option<String>,
    pub edit_tag_color: Option<Rgb>,
    pub selected_tag_id: Option<i64>,
}

/// The mathematical value of a [`UiState`].
pub struct UiStateView {
    pub ui_mode: UiMode,
    pub date_filter: Date,
    pub user_input: Seq<char>,
    pub search_query: Seq<char>,
    pub auto_hide_clips: bool,
    pub show_content: bool,
    pub show_create_tag_popup: bool,
    pub show_create_clip_popup: bool,
    pub show_delete_confirmation: bool,
    pub show_tag_popup_for: Option<i64>,
    pub edit_tag_name: Option<Seq<char>>,
    pub edit_tag_color: Option<Rgb>,
    pub selected_tag_id: Option<i64>,
}

impl View for UiState {
    type V = UiStateView;

    open spec fn view(&self) -> UiStateView {
        UiStateView {
            ui_mode: self.ui_mode,
            date_filter: self.date_filter,
            user_input: self.user_input@,
            search_query: self.search_query@,
            auto_hide_clips: self.auto_hide_clips,
            show_content: self.show_content,
            show_create_tag_popup: self.show_create_tag_popup,
            show_create_clip_popup: self.show_create_clip_popup,
            show_delete_confirmation: self.show_delete_confirmation,
            show_tag_popup_for: self.show_tag_popup_for,
            edit_tag_name: opt_text(self.edit_tag_name),
            edit_tag_color: self.edit_tag_color,
            selected_tag_id: self.selected_tag_id,
        }
    }
}

/// The state a session starts in, given the stored settings and the current
/// day.
pub open spec fn initial_state(settings: Settings, today: Date) -> UiStateView {
    UiStateView {
        ui_mode: settings.mode,
        date_filter: today,
        user_input: Seq::empty(),
        search_query: Seq::empty(),
        auto_hide_clips: settings.auto_hide_clips,
        show_content: !settings.auto_hide_clips,
        show_create_tag_popup: false,
        show_create_clip_popup: false,
        show_delete_confirmation: false,
        show_tag_popup_for: None,
        edit_tag_name: None,
        edit_tag_color: None,
        selected_tag_id: None,
    }
}

impl UiState {
    /// The state a session starts in: the panel and the auto-hide flag come
    /// from the settings, content is shown unless auto-hide is on, the date
    /// filter is today, and no popup is open.
    pub fn new(settings: &Settings, today: Date) -> (state: UiState)
        ensures
            state@ == initial_state(*settings, today),
    {
        UiState {
            ui_mode: settings.mode,
            show_content: !settings.auto_hide_clips,
            date_filter: today,
            user_input: String::new(),
            show_create_tag_popup: false,
            show_tag_popup_for: None,
            selected_tag_id: None,
            show_delete_confirmation: false,
            search_query: String::new(),
            edit_tag_name: None,
            edit_tag_color: None,
            auto_hide_clips: settings.auto_hide_clips,
            show_create_clip_popup: false,
        }
    }
}

} // verus!

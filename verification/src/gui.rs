//! The application shell: the lists on screen, the connection to the store,
//! and what each frame does with what the panels reported.

use vstd::prelude::*;
use rusqlite::Connection;
use std::collections::HashMap;
use crate::db;
use crate::db::{ClipRow, StoreError, TagRow};
use crate::models::clip::{clip_views, listed_clips, Clip};
use crate::models::date::Date;
use crate::models::tag::{listed_tags, row_tags, tag_views, Tag};
use crate::models::ui_state::{initial_state, UiMode, UiState, UiStateView};
use crate::settings::{theme_of, Settings, Theme};
use crate::ui::components::top_panel::{TopPanel, TopPanelInput, TopPanelResponse};
use crate::ui::popups::create_clip::RELOAD_LIMIT;
use crate::ui::views::main_view::{
    clip_to_delete,
    main_view_state,
    reloads_clips,
    MainView,
    MainViewInput,
};
use crate::ui::views::settings_view::{
    deletion_confirmed,
    settings_response,
    settings_state,
    SettingsInput,
    SettingsResponse,
    SettingsView,
};
use crate::ui::views::tag_filter_view::{
    empties_input,
    keeps_input,
    keeps_tags,
    lists_clips,
    removes_tag,
    requests_for,
    tag_filter_state,
    TagFilterInput,
    TagFilterView,
};

verus! {

/// The application: the stored settings, the clips and tags on screen, the
/// tag names of every clip, the connection to the store, the theme in use,
/// whether the window is shown, and the state shared by the panels.
pub struct ClipVaultApp {
    pub settings: Settings,
    pub clips: Vec<Clip>,
    pub db: Connection,
    pub darkmode: bool,
    pub window_visible: bool,
    pub ui_state: UiState,
    pub tags: Vec<Tag>,
    pub clip_tags: HashMap<i64, Vec<String>>,
}

/// What the widgets of every panel reported in one frame. A panel that was
/// not drawn reports nothing.
pub struct FrameInput {
    pub top_panel: TopPanelInput,
    pub main_view: MainViewInput,
    pub tag_filter: TagFilterInput,
    pub settings: SettingsInput,
}

/// The panel shown after the shell did what the bar asked for. Settings wins
/// over a refresh or a new date, which show the main panel; those win over
/// the tag manager, and that over a new search, which shows the main panel
/// too.
pub open spec fn mode_after_bar(mode: UiMode, response: TopPanelResponse) -> UiMode {
    if response.settings {
        UiMode::Settings
    } else if response.refresh_requested || response.date_changed {
        UiMode::Main
    } else if response.show_tags {
        UiMode::TagFilter
    } else if response.search_query_changed {
        UiMode::Main
    } else {
        mode
    }
}

/// The state after the shell did what the bar asked for: a refresh empties
/// the search and sets the date filter to today, and the button for a new
/// clip opens its popup.
pub open spec fn bar_state(
    state: UiStateView,
    response: TopPanelResponse,
    today: Date,
) -> UiStateView {
    UiStateView {
        ui_mode: mode_after_bar(state.ui_mode, response),
        search_query: if response.refresh_requested {
            Seq::<char>::empty()
        } else {
            state.search_query
        },
        date_filter: if response.refresh_requested {
            today
        } else {
            state.date_filter
        },
        show_create_clip_popup: state.show_create_clip_popup || response.add_clip,
        ..state
    }
}

/// What the bar answers for its widgets.
pub open spec fn bar_response(input: TopPanelInput) -> TopPanelResponse {
    TopPanelResponse {
        show_tags: input.tags_clicked,
        date_changed: input.date_changed,
        refresh_requested: input.refresh_clicked,
        settings: input.settings_clicked,
        search_query_changed: input.search_changed,
        add_clip: input.add_clip_clicked,
    }
}

/// Whether the shell may reload the clips for the bar.
pub open spec fn bar_reloads_clips(response: TopPanelResponse) -> bool {
    response.search_query_changed || response.date_changed || response.refresh_requested
}

/// The state after a frame of the bar: the widgets first, then the shell.
pub open spec fn top_state(state: UiStateView, input: TopPanelInput, today: Date) -> UiStateView {
    bar_state(
        UiStateView { show_content: state.show_content != input.content_toggle_clicked, ..state },
        bar_response(input),
        today,
    )
}

/// The state that reaches the panel below the bar: the bar is there, and has
/// its turn, only while the main panel is shown.
pub open spec fn state_below_bar(
    state: UiStateView,
    input: TopPanelInput,
    today: Date,
) -> UiStateView {
    if state.ui_mode == UiMode::Main {
        top_state(state, input, today)
    } else {
        state
    }
}

/// The theme that reaches the panel below the bar.
pub open spec fn darkmode_below_bar(
    state: UiStateView,
    darkmode: bool,
    input: TopPanelInput,
) -> bool {
    if state.ui_mode == UiMode::Main {
        darkmode != input.theme_clicked
    } else {
        darkmode
    }
}

/// Whether the bar leaves the clips on screen alone whatever the store
/// answers: it is not shown, or it asks for no reload.
pub open spec fn bar_keeps_clips(state: UiStateView, input: TopPanelInput) -> bool {
    state.ui_mode != UiMode::Main || !bar_reloads_clips(bar_response(input))
}

/// The state after the shell did what the settings panel asked for: a reset
/// of the preferences hides content, and deleting everything returns to the
/// main panel with an empty search and today as the date filter.
pub open spec fn reset_state(
    state: UiStateView,
    response: SettingsResponse,
    today: Date,
) -> UiStateView {
    UiStateView {
        show_content: state.show_content && !response.reset_settings,
        ui_mode: if response.delete_db {
            UiMode::Main
        } else {
            state.ui_mode
        },
        search_query: if response.delete_db {
            Seq::<char>::empty()
        } else {
            state.search_query
        },
        date_filter: if response.delete_db {
            today
        } else {
            state.date_filter
        },
        ..state
    }
}

impl ClipVaultApp {
    /// The application at the start of a session: the theme and the state
    /// come from the settings, the window is shown, and the lists are loaded
    /// from the store.
    pub fn new(db: Connection, settings: Settings, today: Date) -> (app: ClipVaultApp)
        ensures
            app.settings == settings,
            app.darkmode == (settings.theme == Theme::Dark),
            app.window_visible,
            app.ui_state@ == initial_state(settings, today),
            app.db == db,
    {
        let darkmode = settings.dark();
        let mut app = ClipVaultApp {
            clips: Vec::new(),
            db,
            darkmode,
            settings,
            tags: Vec::new(),
            clip_tags: HashMap::new(),
            window_visible: true,
            ui_state: UiState::new(&settings, today),
        };
        app.load_clips_based_on_state();
        app.reload_tags();
        app.reload_clip_tags();
        app
    }

    /// Whether everything but the clips on screen is as in `before`.
    pub open spec fn same_but_clips(&self, before: &ClipVaultApp) -> bool {
        &&& self.settings == before.settings
        &&& self.db == before.db
        &&& self.darkmode == before.darkmode
        &&& self.window_visible == before.window_visible
        &&& self.ui_state == before.ui_state
        &&& self.tags == before.tags
        &&& self.clip_tags == before.clip_tags
    }

    /// Whether everything but the tags on screen is as in `before`.
    pub open spec fn same_but_tags(&self, before: &ClipVaultApp) -> bool {
        &&& self.settings == before.settings
        &&& self.db == before.db
        &&& self.darkmode == before.darkmode
        &&& self.window_visible == before.window_visible
        &&& self.ui_state == before.ui_state
        &&& self.clips == before.clips
        &&& self.clip_tags == before.clip_tags
    }

    /// Whether a search is on: the search text is not empty.
    pub fn is_searching(&self) -> (b: bool)
        ensures
            b == (self.ui_state.search_query@.len() > 0),
    {
        !self.ui_state.search_query.as_str().is_empty()
    }

    /// Puts on screen the clips of an answer of the storage layer: one for
    /// each row, in order, or none where the storage layer failed.
    pub fn show_clips(&mut self, answer: Result<Vec<ClipRow>, StoreError>)
        ensures
            clip_views(final(self).clips@) == listed_clips(answer),
            final(self).same_but_clips(old(self)),
    {
        self.clips = Clip::list(answer);
    }

    /// Puts on screen the tags of an answer of the storage layer: one for
    /// each row, in order, or none where the storage layer failed.
    pub fn show_tags(&mut self, answer: Result<Vec<TagRow>, StoreError>)
        ensures
            tag_views(final(self).tags@) == listed_tags(answer),
            final(self).same_but_tags(old(self)),
    {
        self.tags = Tag::list(answer);
    }

    /// Reloads the clips on screen: the storage layer is asked for the
    /// twenty most recent ones while no search is on, and else for the first
    /// twenty that the search finds; [`Self::show_clips`] puts its answer on
    /// screen.
    pub fn load_clips_based_on_state(&mut self)
        ensures
            final(self).same_but_clips(old(self)),
    {
        let answer = if self.is_searching() {
            db::search_clips(&self.db, self.ui_state.search_query.as_str(), Some(RELOAD_LIMIT))
        } else {
            db::load_recent_clips(&self.db, RELOAD_LIMIT)
        };
        self.show_clips(answer);
    }

    /// Reloads the tags on screen: the storage layer is asked for all tags,
    /// and [`Self::show_tags`] puts its answer on screen.
    pub fn reload_tags(&mut self)
        ensures
            final(self).settings == old(self).settings,
            final(self).db == old(self).db,
            final(self).darkmode == old(self).darkmode,
            final(self).window_visible == old(self).window_visible,
            final(self).ui_state == old(self).ui_state,
            final(self).clips == old(self).clips,
            final(self).clip_tags == old(self).clip_tags,
    {
        let answer = db::load_tags(&self.db);
        self.show_tags(answer);
    }

    /// Whether everything but the map of all clips is as in `before`.
    pub open spec fn same_but_clip_tags(&self, before: &ClipVaultApp) -> bool {
        &&& self.settings == before.settings
        &&& self.db == before.db
        &&& self.darkmode == before.darkmode
        &&& self.window_visible == before.window_visible
        &&& self.ui_state == before.ui_state
        &&& self.clips == before.clips
        &&& self.tags == before.tags
    }

    /// Takes the map of all clips from an answer of the storage layer: the
    /// map itself, or the empty map where the storage layer failed.
    pub fn show_clip_tags(&mut self, answer: Result<HashMap<i64, Vec<String>>, StoreError>)
        ensures
            answer matches Ok(names) ==> final(self).clip_tags == names,
            answer is Err ==> final(self).clip_tags@ == Map::<i64, Vec<String>>::empty(),
            final(self).same_but_clip_tags(old(self)),
    {
        self.clip_tags = db::tag_names_or_none(answer);
    }

    /// Reloads the map of all clips: the storage layer is asked for it, and
    /// [`Self::show_clip_tags`] takes its answer.
    pub fn reload_clip_tags(&mut self)
        ensures
            final(self).same_but_clip_tags(old(self)),
    {
        let answer = db::load_clip_tags(&self.db);
        self.show_clip_tags(answer);
    }

    /// Returns to the main panel with an empty search and today as the date
    /// filter, and reloads the clips.
    pub fn reset_to_main_state(&mut self, today: Date)
        ensures
            final(self).ui_state@ == (UiStateView {
                ui_mode: UiMode::Main,
                search_query: Seq::<char>::empty(),
                date_filter: today,
                ..old(self).ui_state@
            }),
            final(self).settings == old(self).settings,
            final(self).db == old(self).db,
            final(self).darkmode == old(self).darkmode,
            final(self).window_visible == old(self).window_visible,
            final(self).tags == old(self).tags,
            final(self).clip_tags == old(self).clip_tags,
    {
        self.ui_state.ui_mode = UiMode::Main;
        self.ui_state.search_query = String::new();
        self.ui_state.date_filter = today;
        self.load_clips_based_on_state();
    }

    /// The tags on screen as rows: id, name and colour of each.
    pub fn get_tag_data(&self) -> (rows: Vec<TagRow>)
        ensures
            row_tags(rows@) == tag_views(self.tags@),
    {
        Tag::to_rows(&self.tags)
    }

    /// Takes the theme in use, the panel shown and the auto-hide flag into
    /// the settings, to be stored as the session ends.
    pub fn on_exit(&mut self)
        ensures
            final(self).settings == (Settings {
                theme: theme_of(old(self).darkmode),
                mode: old(self).ui_state.ui_mode,
                auto_hide_clips: old(self).ui_state.auto_hide_clips,
            }),
            final(self).db == old(self).db,
            final(self).darkmode == old(self).darkmode,
            final(self).window_visible == old(self).window_visible,
            final(self).ui_state == old(self).ui_state,
            final(self).clips == old(self).clips,
            final(self).tags == old(self).tags,
            final(self).clip_tags == old(self).clip_tags,
    {
        self.settings = Settings::at_exit(self.darkmode, &self.ui_state);
    }

    /// The panel to show after the bar asked for what `response` holds.
    pub fn next_mode(mode: UiMode, response: &TopPanelResponse) -> (next: UiMode)
        ensures
            next == mode_after_bar(mode, *response),
    {
        if response.settings {
            UiMode::Settings
        } else if response.refresh_requested || response.date_changed {
            UiMode::Main
        } else if response.show_tags {
            UiMode::TagFilter
        } else if response.search_query_changed {
            UiMode::Main
        } else {
            mode
        }
    }

    /// Reloads the clips as the bar asked for: for a new search as
    /// [`Self::load_clips_based_on_state`] does; for a new date with the clips
    /// of that day, as [`Self::show_clips`] puts the store's answer on screen,
    /// so with none where the store failed; for a refresh as
    /// [`Self::reset_to_main_state`] does, which also empties the search and
    /// sets the date filter to today.
    fn reload_for_bar(&mut self, response: &TopPanelResponse, today: Date)
        ensures
            final(self).ui_state@ == (if response.refresh_requested {
                UiStateView {
                    ui_mode: UiMode::Main,
                    search_query: Seq::<char>::empty(),
                    date_filter: today,
                    ..old(self).ui_state@
                }
            } else {
                old(self).ui_state@
            }),
            !bar_reloads_clips(*response) ==> final(self).clips == old(self).clips,
            final(self).settings == old(self).settings,
            final(self).db == old(self).db,
            final(self).darkmode == old(self).darkmode,
            final(self).window_visible == old(self).window_visible,
            final(self).tags == old(self).tags,
            final(self).clip_tags == old(self).clip_tags,
    {
        if response.search_query_changed {
            self.load_clips_based_on_state();
        }
        if response.date_changed {
            let answer = db::load_clips_for_date(&self.db, self.ui_state.date_filter);
            self.show_clips(answer);
        }
        if response.refresh_requested {
            self.reset_to_main_state(today);
        }
    }

    /// Does what the bar asked for: reloads the clips for a new search, a new
    /// date or a refresh, shows the panel asked for, and opens the popup for
    /// a new clip where its button was clicked.
    pub fn apply_top_panel(&mut self, response: &TopPanelResponse, today: Date)
        ensures
            final(self).ui_state@ == bar_state(old(self).ui_state@, *response, today),
            !bar_reloads_clips(*response) ==> final(self).clips == old(self).clips,
            final(self).settings == old(self).settings,
            final(self).db == old(self).db,
            final(self).darkmode == old(self).darkmode,
            final(self).window_visible == old(self).window_visible,
            final(self).tags == old(self).tags,
            final(self).clip_tags == old(self).clip_tags,
    {
        let next = Self::next_mode(self.ui_state.ui_mode, response);
        self.reload_for_bar(response, today);
        self.ui_state.ui_mode = next;
        if response.add_clip {
            self.ui_state.show_create_clip_popup = true;
        }
    }

    /// Does what the settings panel asked for. A reset of the preferences
    /// returns to the light theme and hides content. Deleting everything
    /// empties the store, returns to the main panel and reloads the clips, the
    /// tags and the map of all clips.
    pub fn apply_settings(&mut self, response: &SettingsResponse, today: Date)
        ensures
            final(self).ui_state@ == reset_state(old(self).ui_state@, *response, today),
            final(self).darkmode == (old(self).darkmode && !response.reset_settings),
            !response.delete_db ==> final(self).clips == old(self).clips && final(self).tags == old(
                self,
            ).tags && final(self).clip_tags == old(self).clip_tags,
            final(self).settings == old(self).settings,
            final(self).db == old(self).db,
            final(self).window_visible == old(self).window_visible,
    {
        if response.reset_settings {
            self.darkmode = false;
            self.ui_state.show_content = false;
        }
        if response.delete_db {
            let _ = db::reset_db(&self.db);
            self.reset_to_main_state(today);
            self.reload_tags();
            self.reload_clip_tags();
        }
    }

    /// The bar's part of a frame: its widgets have their turn, then the shell
    /// does what they asked for.
    pub fn bar_frame(&mut self, input: &TopPanelInput, today: Date)
        ensures
            final(self).ui_state@ == top_state(old(self).ui_state@, *input, today),
            final(self).darkmode == (old(self).darkmode != input.theme_clicked),
            !bar_reloads_clips(bar_response(*input)) ==> final(self).clips == old(self).clips,
            final(self).settings == old(self).settings,
            final(self).db == old(self).db,
            final(self).window_visible == old(self).window_visible,
            final(self).tags == old(self).tags,
            final(self).clip_tags == old(self).clip_tags,
    {
        let mut show_content = self.ui_state.show_content;
        let mut darkmode = self.darkmode;
        let response = TopPanel::show(input, &mut show_content, &mut darkmode);
        self.ui_state.show_content = show_content;
        self.darkmode = darkmode;
        self.apply_top_panel(&response, today);
    }

    /// The part of a frame below the bar: the panel that is shown has its
    /// turn, the settings panel together with what the shell does for it.
    pub fn panel_frame(&mut self, input: &FrameInput, today: Date, now: i64)
        ensures
            final(self).window_visible == old(self).window_visible,
            final(self).settings == old(self).settings,
            final(self).db == old(self).db,
            old(self).ui_state.ui_mode == UiMode::Main ==> {
                &&& final(self).ui_state@ == main_view_state(
                    old(self).ui_state@,
                    input.main_view,
                    tag_views(old(self).tags@),
                    old(self).clip_tags@,
                )
                &&& final(self).darkmode == old(self).darkmode
                &&& final(self).tags == old(self).tags
                &&& !reloads_clips(old(self).ui_state.show_create_clip_popup, input.main_view)
                    ==> final(self).clips == old(self).clips
                &&& !input.main_view.tag_popup.assign_clicked && clip_to_delete(
                    input.main_view.cards@,
                ) is None ==> final(self).clip_tags@ == old(self).clip_tags@
            },
            old(self).ui_state.ui_mode == UiMode::TagFilter ==> {
                &&& final(self).ui_state@ == tag_filter_state(
                    old(self).ui_state@,
                    input.tag_filter,
                    tag_views(old(self).tags@),
                    final(self).ui_state.user_input@,
                )
                &&& (final(self).ui_state.user_input@ == old(self).ui_state.user_input@
                    || final(self).ui_state.user_input@ == Seq::<char>::empty())
                &&& keeps_input(old(self).ui_state@, input.tag_filter)
                    ==> final(self).ui_state.user_input@ == old(self).ui_state.user_input@
                &&& empties_input(old(self).ui_state@, input.tag_filter)
                    ==> final(self).ui_state.user_input@ == Seq::<char>::empty()
                &&& final(self).darkmode == old(self).darkmode
                &&& !lists_clips(requests_for(tag_views(old(self).tags@), input.tag_filter.rows@))
                    ==> final(self).clips == old(self).clips
                &&& !removes_tag(requests_for(tag_views(old(self).tags@), input.tag_filter.rows@))
                    ==> final(self).clip_tags == old(self).clip_tags
                &&& keeps_tags(old(self).ui_state@, input.tag_filter, tag_views(old(self).tags@))
                    ==> final(self).tags == old(self).tags
            },
            old(self).ui_state.ui_mode == UiMode::Settings ==> {
                &&& final(self).ui_state@ == reset_state(
                    settings_state(old(self).ui_state@, input.settings),
                    settings_response(old(self).ui_state.show_delete_confirmation, input.settings),
                    today,
                )
                &&& final(self).darkmode == (old(self).darkmode && !input.settings.reset_clicked)
                &&& !deletion_confirmed(
                    old(self).ui_state.show_delete_confirmation,
                    input.settings,
                ) ==> final(self).clips == old(self).clips && final(self).tags == old(self).tags
                    && final(self).clip_tags == old(self).clip_tags
            },
    {
        match self.ui_state.ui_mode {
            UiMode::Main => {
                let tag_data = self.get_tag_data();
                MainView::show(
                    &mut self.clips,
                    &self.db,
                    &mut self.ui_state,
                    &mut self.clip_tags,
                    &tag_data,
                    &input.main_view,
                    now,
                );
            },
            UiMode::TagFilter => {
                TagFilterView::show(
                    &mut self.clips,
                    &self.db,
                    &mut self.ui_state,
                    &mut self.tags,
                    &mut self.clip_tags,
                    &input.tag_filter,
                );
            },
            UiMode::Settings => {
                let response = SettingsView::show(&mut self.ui_state, &input.settings);
                self.apply_settings(&response, today);
            },
        }
    }

    /// One frame. Nothing happens while the window is hidden. The bar has its
    /// turn while the main panel is shown; then the panel that is shown after
    /// that has its turn: the list, the tag manager, or the settings panel
    /// with what the shell does for it.
    pub fn update(&mut self, input: &FrameInput, today: Date, now: i64)
        ensures
            !old(self).window_visible ==> *final(self) == *old(self),
            final(self).window_visible == old(self).window_visible,
            final(self).settings == old(self).settings,
            final(self).db == old(self).db,
            old(self).window_visible ==> ({
                let below = state_below_bar(old(self).ui_state@, input.top_panel, today);
                let dark = darkmode_below_bar(
                    old(self).ui_state@,
                    old(self).darkmode,
                    input.top_panel,
                );
                &&& below.ui_mode == UiMode::Main ==> {
                    &&& final(self).ui_state@ == main_view_state(
                        below,
                        input.main_view,
                        tag_views(old(self).tags@),
                        old(self).clip_tags@,
                    )
                    &&& final(self).darkmode == dark
                    &&& final(self).tags == old(self).tags
                    &&& bar_keeps_clips(old(self).ui_state@, input.top_panel) && !reloads_clips(
                        below.show_create_clip_popup,
                        input.main_view,
                    ) ==> final(self).clips == old(self).clips
                    &&& !input.main_view.tag_popup.assign_clicked && clip_to_delete(
                        input.main_view.cards@,
                    ) is None ==> final(self).clip_tags@ == old(self).clip_tags@
                }
                &&& below.ui_mode == UiMode::TagFilter ==> {
                    &&& final(self).ui_state@ == tag_filter_state(
                        below,
                        input.tag_filter,
                        tag_views(old(self).tags@),
                        final(self).ui_state.user_input@,
                    )
                    &&& (final(self).ui_state.user_input@ == below.user_input
                        || final(self).ui_state.user_input@ == Seq::<char>::empty())
                    &&& keeps_input(below, input.tag_filter) ==> final(self).ui_state.user_input@
                        == below.user_input
                    &&& empties_input(below, input.tag_filter)
                        ==> final(self).ui_state.user_input@ == Seq::<char>::empty()
                    &&& final(self).darkmode == dark
                    &&& bar_keeps_clips(old(self).ui_state@, input.top_panel) && !lists_clips(
                        requests_for(tag_views(old(self).tags@), input.tag_filter.rows@),
                    ) ==> final(self).clips == old(self).clips
                    &&& !removes_tag(
                        requests_for(tag_views(old(self).tags@), input.tag_filter.rows@),
                    ) ==> final(self).clip_tags == old(self).clip_tags
                    &&& keeps_tags(below, input.tag_filter, tag_views(old(self).tags@))
                        ==> final(self).tags == old(self).tags
                }
                &&& below.ui_mode == UiMode::Settings ==> {
                    &&& final(self).ui_state@ == reset_state(
                        settings_state(below, input.settings),
                        settings_response(below.show_delete_confirmation, input.settings),
                        today,
                    )
                    &&& final(self).darkmode == (dark && !input.settings.reset_clicked)
                    &&& !deletion_confirmed(below.show_delete_confirmation, input.settings)
                        ==> final(self).tags == old(self).tags && final(self).clip_tags == old(
                        self,
                    ).clip_tags
                    &&& bar_keeps_clips(old(self).ui_state@, input.top_panel)
                        && !deletion_confirmed(below.show_delete_confirmation, input.settings)
                        ==> final(self).clips == old(self).clips
                }
            }),
    {
        if !self.window_visible {
            return ;
        }
        if self.ui_state.ui_mode == UiMode::Main {
            self.bar_frame(&input.top_panel, today);
        }
        self.panel_frame(input, today, now);
    }
}

} // verus!

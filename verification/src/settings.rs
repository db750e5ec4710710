//! The preferences kept between sessions: theme, last panel and the
//! auto-hide flag.

use vstd::prelude::*;
use crate::models::ui_state::{UiMode, UiState};

verus! {

/// The colour scheme.
#[derive(Debug, Clone, Copy, PartialEq, Eq, Structural)]
pub enum Theme {
    Light,
    Dark,
}

/// The stored preferences.
#[derive(Debug, Clone, Copy, PartialEq, Eq, Structural)]
pub struct Settings {
    pub theme: Theme,
    pub mode: UiMode,
    pub auto_hide_clips: bool,
}

impl Default for Theme {
    /// The light theme.
    fn default() -> (theme: Theme)
        ensures
            theme == Theme::Light,
    {
        Theme::Light
    }
}

impl Default for Settings {
    /// Light theme, main panel, clips shown.
    fn default() -> (settings: Settings)
        ensures
            settings == (Settings {
                theme: Theme::Light,
                mode: UiMode::Main,
                auto_hide_clips: false,
            }),
    {
        Settings { theme: Theme::Light, mode: UiMode::Main, auto_hide_clips: false }
    }
}

/// The theme that stands for the dark-mode flag.
pub open spec fn theme_of(darkmode: bool) -> Theme {
    if darkmode {
        Theme::Dark
    } else {
        Theme::Light
    }
}

impl Settings {
    /// Whether the settings ask for dark mode.
    pub fn dark(&self) -> (b: bool)
        ensures
            b == (self.theme == Theme::Dark),
    {
        self.theme == Theme::Dark
    }

    /// The settings to store when a session ends: the theme in use, the panel
    /// last shown and the auto-hide flag.
    pub fn at_exit(darkmode: bool, ui_state: &UiState) -> (settings: Settings)
        ensures
            settings == (Settings {
                theme: theme_of(darkmode),
                mode: ui_state.ui_mode,
                auto_hide_clips: ui_state.auto_hide_clips,
            }),
    {
        Settings {
            theme: if darkmode {
                Theme::Dark
            } else {
                Theme::Light
            },
            mode: ui_state.ui_mode,
            auto_hide_clips: ui_state.auto_hide_clips,
        }
    }
}

} // verus!

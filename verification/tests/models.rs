use chrono::Datelike;
use clipvault::db::StoreError;
use clipvault::models::date::{leap_year, month_length};
use clipvault::models::tag::copy_opt_text;
use clipvault::models::{Clip, Date, Rgb, Tag, UiMode, UiState};
use clipvault::settings::{Settings, Theme};
use clipvault::tray::{menu_event, AppEvent};

#[test]
fn clip_is_made_of_its_fields() {
    let clip = Clip::new(7, "text".to_string(), 1700000000, true);
    assert_eq!(clip.id, 7);
    assert_eq!(clip.content, "text");
    assert_eq!(clip.timestamp, 1700000000);
    assert!(clip.pinned);
    let clip = Clip::from_tuple((8, "other".to_string(), -1, false));
    assert_eq!(clip.id, 8);
    assert_eq!(clip.content, "other");
    assert_eq!(clip.timestamp, -1);
    assert!(!clip.pinned);
}

#[test]
fn clip_is_empty_when_its_content_is_blank() {
    assert!(Clip::new(1, "".to_string(), 0, false).is_empty());
    assert!(Clip::new(1, "  \n\t ".to_string(), 0, false).is_empty());
    assert!(!Clip::new(1, " a ".to_string(), 0, false).is_empty());
    assert!(!Clip::new(1, "0".to_string(), 0, true).is_empty());
}

#[test]
fn clips_are_listed_for_an_answer() {
    let rows = vec![(2, "b".to_string(), 20, true), (1, "a".to_string(), 10, false)];
    let clips = Clip::list(Ok(rows));
    assert_eq!(clips.len(), 2);
    assert_eq!((clips[0].id, clips[0].content.as_str(), clips[0].timestamp, clips[0].pinned), (2, "b", 20, true));
    assert_eq!((clips[1].id, clips[1].content.as_str(), clips[1].timestamp, clips[1].pinned), (1, "a", 10, false));
    assert!(Clip::list(Ok(Vec::new())).is_empty());
    assert!(Clip::list(Err(StoreError::InvalidDate)).is_empty());
}

#[test]
fn tag_is_made_of_its_fields() {
    let tag = Tag::new(3, "work".to_string(), Some("#FF0000".to_string()));
    assert_eq!(tag.id, 3);
    assert_eq!(tag.name, "work");
    assert_eq!(tag.color, Some("#FF0000".to_string()));
    let tag = Tag::from_tuple((4, "home".to_string(), None));
    assert_eq!(tag.id, 4);
    assert_eq!(tag.name, "home");
    assert_eq!(tag.color, None);
}

#[test]
fn tags_and_rows_stand_for_each_other() {
    let rows = vec![(1, "a".to_string(), None), (2, "b".to_string(), Some("#010203".to_string()))];
    let tags = Tag::from_rows(&rows);
    assert_eq!(tags.len(), 2);
    assert_eq!((tags[0].id, tags[0].name.as_str(), tags[0].color.clone()), (1, "a", None));
    assert_eq!(
        (tags[1].id, tags[1].name.as_str(), tags[1].color.clone()),
        (2, "b", Some("#010203".to_string()))
    );
    assert_eq!(Tag::to_rows(&tags), rows);
    assert_eq!(Tag::list(Ok(rows.clone())).len(), 2);
    assert!(Tag::list(Err(StoreError::NoLocalMidnight)).is_empty());
    assert_eq!(copy_opt_text(&Some("x".to_string())), Some("x".to_string()));
    assert_eq!(copy_opt_text(&None), None);
}

#[test]
fn leap_years_and_month_lengths() {
    assert!(leap_year(2024));
    assert!(!leap_year(2023));
    assert!(!leap_year(1900));
    assert!(leap_year(2000));
    assert!(leap_year(0));
    assert!(leap_year(-4));
    assert!(!leap_year(-100));
    assert!(leap_year(-400));
    assert_eq!(month_length(2024, 2), 29);
    assert_eq!(month_length(2023, 2), 28);
    assert_eq!(month_length(2023, 1), 31);
    assert_eq!(month_length(2023, 4), 30);
    assert_eq!(month_length(2023, 12), 31);
    assert_eq!(month_length(2023, 0), 0);
    assert_eq!(month_length(2023, 13), 0);
}

#[test]
fn dates_are_days_of_the_calendar() {
    assert_eq!(Date::new(2024, 2, 29), Some(Date { year: 2024, month: 2, day: 29 }));
    assert_eq!(Date::new(2023, 2, 29), None);
    assert_eq!(Date::new(2023, 0, 1), None);
    assert_eq!(Date::new(2023, 13, 1), None);
    assert_eq!(Date::new(2023, 1, 0), None);
    assert_eq!(Date::new(2023, 1, 32), None);
    assert_eq!(Date::new(2023, 4, 31), None);
    assert!(Date { year: 2023, month: 12, day: 31 }.valid());
    assert!(!Date { year: 2023, month: 11, day: 31 }.valid());
}

#[test]
fn the_day_after() {
    let day = Date::new(2023, 12, 31).unwrap();
    assert_eq!(day.succ(), Some(Date { year: 2024, month: 1, day: 1 }));
    let day = Date::new(2024, 2, 28).unwrap();
    assert_eq!(day.succ(), Some(Date { year: 2024, month: 2, day: 29 }));
    let day = Date::new(2024, 2, 29).unwrap();
    assert_eq!(day.succ(), Some(Date { year: 2024, month: 3, day: 1 }));
    let day = Date::new(2023, 2, 28).unwrap();
    assert_eq!(day.succ(), Some(Date { year: 2023, month: 3, day: 1 }));
    let day = Date::new(2023, 4, 30).unwrap();
    assert_eq!(day.succ(), Some(Date { year: 2023, month: 5, day: 1 }));
    let day = Date::new(i32::MAX, 12, 31).unwrap();
    assert_eq!(day.succ(), None);
    let day = Date::new(i32::MAX, 12, 30).unwrap();
    assert_eq!(day.succ(), Some(Date { year: i32::MAX, month: 12, day: 31 }));
    assert_eq!(Date { year: 2023, month: 2, day: 30 }.succ(), Some(Date { year: 2023, month: 3, day: 1 }));
    assert_eq!(Date { year: 2023, month: 13, day: 5 }.succ(), Some(Date { year: 2024, month: 1, day: 1 }));
    assert_eq!(Date { year: i32::MAX, month: 13, day: 5 }.succ(), None);
}

#[test]
fn dates_agree_with_the_clock_library() {
    let mut day = chrono::NaiveDate::from_ymd_opt(1895, 1, 1).unwrap();
    let end = chrono::NaiveDate::from_ymd_opt(2105, 1, 1).unwrap();
    while day < end {
        let next = day.succ_opt().unwrap();
        let mine = Date::new(day.year(), day.month(), day.day()).unwrap();
        assert_eq!(
            mine.succ(),
            Some(Date { year: next.year(), month: next.month(), day: next.day() })
        );
        day = next;
    }
    for year in [-400, -1, 0, 1, 1600, 1700, 2000, 2100, 2400] {
        for month in 0u32..14 {
            for d in 0u32..33 {
                assert_eq!(
                    Date::new(year, month, d).is_some(),
                    chrono::NaiveDate::from_ymd_opt(year, month, d).is_some()
                );
            }
        }
    }
}

#[test]
fn colours() {
    let c = Rgb::new(1, 2, 3);
    assert_eq!(c, Rgb { r: 1, g: 2, b: 3 });
    assert_eq!((c.r, c.g, c.b), (1, 2, 3));
}

#[test]
fn default_settings() {
    let settings = Settings::default();
    assert_eq!(settings.theme, Theme::Light);
    assert_eq!(settings.mode, UiMode::Main);
    assert!(!settings.auto_hide_clips);
    assert_eq!(Theme::default(), Theme::Light);
    assert!(!settings.dark());
    assert!(Settings { theme: Theme::Dark, mode: UiMode::Main, auto_hide_clips: false }.dark());
}

#[test]
fn session_starts_from_the_settings() {
    let today = Date::new(2025, 8, 13).unwrap();
    let settings = Settings { theme: Theme::Dark, mode: UiMode::TagFilter, auto_hide_clips: true };
    let state = UiState::new(&settings, today);
    assert_eq!(state.ui_mode, UiMode::TagFilter);
    assert_eq!(state.date_filter, today);
    assert_eq!(state.user_input, "");
    assert_eq!(state.search_query, "");
    assert!(state.auto_hide_clips);
    assert!(!state.show_content);
    assert!(!state.show_create_tag_popup);
    assert!(!state.show_create_clip_popup);
    assert!(!state.show_delete_confirmation);
    assert_eq!(state.show_tag_popup_for, None);
    assert_eq!(state.edit_tag_name, None);
    assert_eq!(state.edit_tag_color, None);
    assert_eq!(state.selected_tag_id, None);
    let state = UiState::new(&Settings::default(), today);
    assert_eq!(state.ui_mode, UiMode::Main);
    assert!(state.show_content);
    assert!(!state.auto_hide_clips);
}

#[test]
fn settings_at_exit() {
    let today = Date::new(2025, 8, 13).unwrap();
    let mut state = UiState::new(&Settings::default(), today);
    state.ui_mode = UiMode::Settings;
    state.auto_hide_clips = true;
    assert_eq!(
        Settings::at_exit(true, &state),
        Settings { theme: Theme::Dark, mode: UiMode::Settings, auto_hide_clips: true }
    );
    state.ui_mode = UiMode::Main;
    state.auto_hide_clips = false;
    assert_eq!(
        Settings::at_exit(false, &state),
        Settings { theme: Theme::Light, mode: UiMode::Main, auto_hide_clips: false }
    );
}

#[test]
fn tray_menu_entries() {
    let open = "1001".to_string();
    let quit = "1002".to_string();
    assert_eq!(menu_event(&"1001".to_string(), &open, &quit), Some(AppEvent::OpenGui));
    assert_eq!(menu_event(&"1002".to_string(), &open, &quit), Some(AppEvent::Quit));
    assert_eq!(menu_event(&"1003".to_string(), &open, &quit), None);
    assert_eq!(menu_event(&"".to_string(), &open, &quit), None);
    assert_eq!(menu_event(&"x".to_string(), &"x".to_string(), &"x".to_string()), Some(AppEvent::OpenGui));
}

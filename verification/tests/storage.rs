use chrono::TimeZone;
use clipvault::db::{
    assign_tag_to_clip, count_clips_for_tag, create_tables, create_tag, decode_clip_row,
    decode_clip_rows, delete_clip, delete_tag, group_tag_names, limit_value, load_clip_tags,
    load_clips_between, load_clips_for_date, load_clips_for_tag, load_recent_clips, load_tags,
    load_tags_for_clip, optional_limit_value, reset_db, save_clip, search_clips, search_pattern,
    toggle_pin_clip, update_tag, update_tag_color, day_request, day_span, SqlValue, StoreError,
    SELECT_CLIPS_BETWEEN,
};
use clipvault::models::Date;
use rusqlite::Connection;

fn store() -> Connection {
    let conn = Connection::open_in_memory().unwrap();
    create_tables(&conn).unwrap();
    conn
}

fn tag_id(conn: &Connection, name: &str) -> i64 {
    let tags = load_tags(conn).unwrap();
    tags.iter().find(|t| t.1 == name).unwrap().0
}

#[test]
fn decode_turns_pin_column_into_flag() {
    let rows = vec![
        (1, "a".to_string(), 10, 0),
        (2, "b".to_string(), 20, 1),
        (3, "c".to_string(), 30, -7),
    ];
    let out = decode_clip_rows(rows);
    assert_eq!(
        out,
        vec![
            (1, "a".to_string(), 10, false),
            (2, "b".to_string(), 20, true),
            (3, "c".to_string(), 30, true),
        ]
    );
    assert_eq!(decode_clip_row((9, "z".to_string(), -4, 2)), (9, "z".to_string(), -4, true));
    assert_eq!(decode_clip_rows(Vec::new()), Vec::new());
}

#[test]
fn save_without_table_is_engine_error() {
    let conn = Connection::open_in_memory().unwrap();
    assert!(matches!(save_clip(&conn, "x", 1), Err(StoreError::Engine(_))));
    assert!(matches!(load_recent_clips(&conn, 5), Err(StoreError::Engine(_))));
    assert!(matches!(load_tags(&conn), Err(StoreError::Engine(_))));
    assert!(matches!(load_clip_tags(&conn), Err(StoreError::Engine(_))));
    assert!(matches!(count_clips_for_tag(&conn, &1), Err(StoreError::Engine(_))));
}

#[test]
fn create_tables_is_idempotent() {
    let conn = store();
    save_clip(&conn, "kept", 5).unwrap();
    create_tables(&conn).unwrap();
    create_tables(&conn).unwrap();
    assert_eq!(load_recent_clips(&conn, 10).unwrap(), vec![(1, "kept".to_string(), 5, false)]);
}

#[test]
fn saved_clip_is_loaded_with_content_and_timestamp() {
    let conn = store();
    save_clip(&conn, "hello world", 1755048970).unwrap();
    let clips = load_recent_clips(&conn, 20).unwrap();
    assert_eq!(clips, vec![(1, "hello world".to_string(), 1755048970, false)]);
}

#[test]
fn duplicate_content_is_stored_twice() {
    let conn = store();
    save_clip(&conn, "A", 1).unwrap();
    save_clip(&conn, "B", 2).unwrap();
    save_clip(&conn, "A", 3).unwrap();
    let clips = load_recent_clips(&conn, 20).unwrap();
    assert_eq!(
        clips,
        vec![
            (3, "A".to_string(), 3, false),
            (2, "B".to_string(), 2, false),
            (1, "A".to_string(), 1, false),
        ]
    );
}

#[test]
fn recent_clips_are_most_recent_first_and_limited() {
    let conn = store();
    save_clip(&conn, "old", 10).unwrap();
    save_clip(&conn, "new", 30).unwrap();
    save_clip(&conn, "mid", 20).unwrap();
    let all = load_recent_clips(&conn, 20).unwrap();
    assert_eq!(
        all,
        vec![
            (2, "new".to_string(), 30, false),
            (3, "mid".to_string(), 20, false),
            (1, "old".to_string(), 10, false),
        ]
    );
    let two = load_recent_clips(&conn, 2).unwrap();
    assert_eq!(two, vec![(2, "new".to_string(), 30, false), (3, "mid".to_string(), 20, false)]);
    assert_eq!(load_recent_clips(&conn, 0).unwrap(), Vec::new());
    assert_eq!(load_recent_clips(&conn, usize::MAX).unwrap().len(), 3);
}

#[test]
fn toggling_pin_flips_flag_and_moves_clip_to_front() {
    let conn = store();
    save_clip(&conn, "a", 10).unwrap();
    save_clip(&conn, "b", 20).unwrap();
    save_clip(&conn, "c", 30).unwrap();
    assert_eq!(toggle_pin_clip(&conn, 1).unwrap(), 1);
    assert_eq!(
        load_recent_clips(&conn, 20).unwrap(),
        vec![
            (1, "a".to_string(), 10, true),
            (3, "c".to_string(), 30, false),
            (2, "b".to_string(), 20, false),
        ]
    );
    assert_eq!(toggle_pin_clip(&conn, 2).unwrap(), 1);
    assert_eq!(
        load_recent_clips(&conn, 20).unwrap(),
        vec![
            (2, "b".to_string(), 20, true),
            (1, "a".to_string(), 10, true),
            (3, "c".to_string(), 30, false),
        ]
    );
    assert_eq!(toggle_pin_clip(&conn, 1).unwrap(), 1);
    assert_eq!(
        load_recent_clips(&conn, 20).unwrap(),
        vec![
            (2, "b".to_string(), 20, true),
            (3, "c".to_string(), 30, false),
            (1, "a".to_string(), 10, false),
        ]
    );
    assert_eq!(toggle_pin_clip(&conn, 99).unwrap(), 0);
}

#[test]
fn deleting_clip_removes_it_and_its_tag_pairs() {
    let conn = store();
    save_clip(&conn, "a", 10).unwrap();
    save_clip(&conn, "b", 20).unwrap();
    create_tag(&conn, "work").unwrap();
    let work = tag_id(&conn, "work");
    assign_tag_to_clip(&conn, 1, work).unwrap();
    assign_tag_to_clip(&conn, 2, work).unwrap();
    assert_eq!(count_clips_for_tag(&conn, &work).unwrap(), 2);
    assert_eq!(delete_clip(&conn, 1).unwrap(), 1);
    assert_eq!(load_recent_clips(&conn, 20).unwrap(), vec![(2, "b".to_string(), 20, false)]);
    assert_eq!(count_clips_for_tag(&conn, &work).unwrap(), 1);
    assert_eq!(load_clips_for_tag(&conn, &work).unwrap(), vec![(2, "b".to_string(), 20, false)]);
    let map = load_clip_tags(&conn).unwrap();
    assert!(!map.contains_key(&1));
    assert_eq!(map.get(&2), Some(&vec!["work".to_string()]));
    assert_eq!(load_tags_for_clip(&conn, 1).unwrap(), Vec::new());
    assert_eq!(delete_clip(&conn, 1).unwrap(), 0);
}

#[test]
fn assigned_tag_is_listed_exactly_once() {
    let conn = store();
    save_clip(&conn, "a", 10).unwrap();
    create_tag(&conn, "work").unwrap();
    create_tag(&conn, "home").unwrap();
    let work = tag_id(&conn, "work");
    let home = tag_id(&conn, "home");
    assert_eq!(assign_tag_to_clip(&conn, 1, work).unwrap(), 1);
    assert_eq!(load_tags_for_clip(&conn, 1).unwrap(), vec![(work, "work".to_string())]);
    assert!(matches!(assign_tag_to_clip(&conn, 1, work), Err(StoreError::Engine(_))));
    assert_eq!(load_tags_for_clip(&conn, 1).unwrap(), vec![(work, "work".to_string())]);
    assign_tag_to_clip(&conn, 1, home).unwrap();
    assert_eq!(
        load_tags_for_clip(&conn, 1).unwrap(),
        vec![(home, "home".to_string()), (work, "work".to_string())]
    );
    let map = load_clip_tags(&conn).unwrap();
    assert_eq!(map.len(), 1);
    assert_eq!(map.get(&1), Some(&vec!["home".to_string(), "work".to_string()]));
}

#[test]
fn deleting_tag_removes_it_from_every_clip_and_keeps_clips() {
    let conn = store();
    save_clip(&conn, "a", 10).unwrap();
    save_clip(&conn, "b", 20).unwrap();
    create_tag(&conn, "work").unwrap();
    create_tag(&conn, "home").unwrap();
    let work = tag_id(&conn, "work");
    let home = tag_id(&conn, "home");
    assign_tag_to_clip(&conn, 1, work).unwrap();
    assign_tag_to_clip(&conn, 2, work).unwrap();
    assign_tag_to_clip(&conn, 2, home).unwrap();
    assert_eq!(delete_tag(&conn, work).unwrap(), 1);
    let map = load_clip_tags(&conn).unwrap();
    assert!(!map.contains_key(&1));
    assert_eq!(map.get(&2), Some(&vec!["home".to_string()]));
    assert_eq!(load_tags(&conn).unwrap(), vec![(home, "home".to_string(), None)]);
    assert_eq!(count_clips_for_tag(&conn, &work).unwrap(), 0);
    assert_eq!(
        load_recent_clips(&conn, 20).unwrap(),
        vec![(2, "b".to_string(), 20, false), (1, "a".to_string(), 10, false)]
    );
}

#[test]
fn tag_names_are_unique() {
    let conn = store();
    assert_eq!(create_tag(&conn, "work").unwrap(), 1);
    assert!(matches!(create_tag(&conn, "work"), Err(StoreError::Engine(_))));
    assert_eq!(load_tags(&conn).unwrap().len(), 1);
}

#[test]
fn tags_are_listed_by_name_with_colour() {
    let conn = store();
    create_tag(&conn, "zeta").unwrap();
    create_tag(&conn, "alpha").unwrap();
    let zeta = tag_id(&conn, "zeta");
    let alpha = tag_id(&conn, "alpha");
    assert_eq!(update_tag_color(&conn, zeta, Some("#FF0000")).unwrap(), 1);
    assert_eq!(
        load_tags(&conn).unwrap(),
        vec![
            (alpha, "alpha".to_string(), None),
            (zeta, "zeta".to_string(), Some("#FF0000".to_string())),
        ]
    );
    assert_eq!(update_tag_color(&conn, zeta, None).unwrap(), 1);
    assert_eq!(update_tag(&conn, alpha, "omega", "#00FF00").unwrap(), 1);
    assert_eq!(
        load_tags(&conn).unwrap(),
        vec![
            (alpha, "omega".to_string(), Some("#00FF00".to_string())),
            (zeta, "zeta".to_string(), None),
        ]
    );
    assert!(matches!(update_tag(&conn, alpha, "zeta", "#000000"), Err(StoreError::Engine(_))));
}

#[test]
fn clips_for_tag_are_pinned_first_then_recent() {
    let conn = store();
    save_clip(&conn, "a", 10).unwrap();
    save_clip(&conn, "b", 20).unwrap();
    save_clip(&conn, "c", 30).unwrap();
    create_tag(&conn, "t").unwrap();
    let t = tag_id(&conn, "t");
    assign_tag_to_clip(&conn, 1, t).unwrap();
    assign_tag_to_clip(&conn, 3, t).unwrap();
    toggle_pin_clip(&conn, 1).unwrap();
    assert_eq!(
        load_clips_for_tag(&conn, &t).unwrap(),
        vec![(1, "a".to_string(), 10, true), (3, "c".to_string(), 30, false)]
    );
}

#[test]
fn search_finds_clips_that_hold_the_query() {
    let conn = store();
    save_clip(&conn, "hello world", 10).unwrap();
    save_clip(&conn, "goodbye", 20).unwrap();
    save_clip(&conn, "well, hello", 30).unwrap();
    assert_eq!(search_pattern("ell"), "%ell%".to_string());
    assert_eq!(search_pattern(""), "%%".to_string());
    assert_eq!(
        search_clips(&conn, "hello", Some(20)).unwrap(),
        vec![(3, "well, hello".to_string(), 30, false), (1, "hello world".to_string(), 10, false)]
    );
    assert_eq!(
        search_clips(&conn, "hello", Some(1)).unwrap(),
        vec![(3, "well, hello".to_string(), 30, false)]
    );
    assert_eq!(search_clips(&conn, "o", None).unwrap().len(), 3);
    assert_eq!(search_clips(&conn, "absent", None).unwrap(), Vec::new());
}

#[test]
fn limit_values_are_the_bits_of_the_limit() {
    assert_eq!(limit_value(0), 0);
    assert_eq!(limit_value(20), 20);
    assert_eq!(limit_value(usize::MAX), usize::MAX as i64);
    assert_eq!(limit_value(usize::MAX), -1);
    assert_eq!(limit_value(i64::MAX as usize), i64::MAX);
    assert_eq!(limit_value(i64::MAX as usize + 1), i64::MIN);
    assert_eq!(limit_value(i64::MAX as usize + 1), (i64::MAX as usize + 1) as i64);
    assert_eq!(limit_value(usize::MAX - 41), -42);
    assert_eq!(optional_limit_value(Some(7)), 7);
    assert_eq!(optional_limit_value(None), -1);
}

#[test]
fn clips_between_two_seconds() {
    let conn = store();
    save_clip(&conn, "before", 99).unwrap();
    save_clip(&conn, "first", 100).unwrap();
    save_clip(&conn, "last", 199).unwrap();
    save_clip(&conn, "after", 200).unwrap();
    toggle_pin_clip(&conn, 2).unwrap();
    assert_eq!(
        load_clips_between(&conn, 100, 200).unwrap(),
        vec![(2, "first".to_string(), 100, true), (3, "last".to_string(), 199, false)]
    );
    assert_eq!(load_clips_between(&conn, 200, 100).unwrap(), Vec::new());
}

#[test]
fn clips_for_a_local_day() {
    let conn = store();
    let day = chrono::NaiveDate::from_ymd_opt(2024, 3, 15).unwrap();
    let next = chrono::NaiveDate::from_ymd_opt(2024, 3, 16).unwrap();
    let start = chrono::Local
        .from_local_datetime(&day.and_hms_opt(0, 0, 0).unwrap())
        .single()
        .map(|t| t.timestamp());
    let end = chrono::Local
        .from_local_datetime(&next.and_hms_opt(0, 0, 0).unwrap())
        .single()
        .map(|t| t.timestamp());
    let date = Date::new(2024, 3, 15).unwrap();
    match (start, end) {
        (Some(start), Some(end)) => {
            save_clip(&conn, "before", start - 1).unwrap();
            save_clip(&conn, "first", start).unwrap();
            save_clip(&conn, "last", end - 1).unwrap();
            save_clip(&conn, "after", end).unwrap();
            assert_eq!(
                load_clips_for_date(&conn, date).unwrap(),
                vec![(3, "last".to_string(), end - 1, false), (2, "first".to_string(), start, false)]
            );
        }
        _ => {
            assert!(matches!(load_clips_for_date(&conn, date), Err(StoreError::NoLocalMidnight)));
        }
    }
}

#[test]
fn days_that_do_not_exist_are_refused() {
    let conn = store();
    let no_day = Date { year: 2023, month: 2, day: 30 };
    assert!(matches!(load_clips_for_date(&conn, no_day), Err(StoreError::InvalidDate)));
    let no_month = Date { year: 2023, month: 13, day: 1 };
    assert!(matches!(load_clips_for_date(&conn, no_month), Err(StoreError::InvalidDate)));
    let last = Date { year: i32::MAX, month: 12, day: 31 };
    assert!(matches!(load_clips_for_date(&conn, last), Err(StoreError::InvalidDate)));
    let far = Date { year: 300000, month: 1, day: 1 };
    assert!(matches!(load_clips_for_date(&conn, far), Err(StoreError::NoLocalMidnight)));
}

#[test]
fn day_span_needs_both_midnights() {
    assert!(matches!(day_span(Some(5), Some(9)), Ok((5, 9))));
    assert!(matches!(day_span(None, Some(9)), Err(StoreError::NoLocalMidnight)));
    assert!(matches!(day_span(Some(5), None), Err(StoreError::NoLocalMidnight)));
    assert!(matches!(day_span(None, None), Err(StoreError::NoLocalMidnight)));
}

#[test]
fn request_for_the_clips_of_a_day() {
    let day = Date::new(2024, 3, 15).unwrap();
    match day_request(day, Some(100), Some(200)) {
        Ok(request) => {
            assert_eq!(request.sql, SELECT_CLIPS_BETWEEN);
            assert_eq!(request.args, vec![SqlValue::Integer(100), SqlValue::Integer(200)]);
        }
        Err(_) => panic!("a day with both midnights"),
    }
    assert!(matches!(day_request(day, None, Some(200)), Err(StoreError::NoLocalMidnight)));
    assert!(matches!(day_request(day, Some(100), None), Err(StoreError::NoLocalMidnight)));
    let no_day = Date { year: 2023, month: 2, day: 30 };
    assert!(matches!(day_request(no_day, Some(100), Some(200)), Err(StoreError::InvalidDate)));
    let last = Date { year: i32::MAX, month: 12, day: 31 };
    assert!(matches!(day_request(last, Some(100), Some(200)), Err(StoreError::InvalidDate)));
    assert!(matches!(day_request(last, None, None), Err(StoreError::InvalidDate)));
}

#[test]
fn error_messages() {
    assert_eq!(StoreError::InvalidDate.message(), "no such day");
    assert_eq!(StoreError::NoLocalMidnight.message(), "the day has no single local midnight");
    let conn = Connection::open_in_memory().unwrap();
    match save_clip(&conn, "x", 1) {
        Err(e) => assert!(e.message().contains("clips")),
        Ok(()) => panic!("no table, no clip"),
    }
}

#[test]
fn grouping_keeps_row_order_within_each_clip() {
    let rows = vec![
        (2, "alpha".to_string()),
        (1, "beta".to_string()),
        (2, "gamma".to_string()),
        (2, "alpha".to_string()),
        (7, "delta".to_string()),
    ];
    let map = group_tag_names(rows);
    assert_eq!(map.len(), 3);
    assert_eq!(
        map.get(&2),
        Some(&vec!["alpha".to_string(), "gamma".to_string(), "alpha".to_string()])
    );
    assert_eq!(map.get(&1), Some(&vec!["beta".to_string()]));
    assert_eq!(map.get(&7), Some(&vec!["delta".to_string()]));
    assert_eq!(map.get(&3), None);
    assert!(group_tag_names(Vec::new()).is_empty());
}

#[test]
fn reset_empties_every_table_and_keeps_the_schema() {
    let conn = store();
    save_clip(&conn, "a", 10).unwrap();
    create_tag(&conn, "t").unwrap();
    let t = tag_id(&conn, "t");
    assign_tag_to_clip(&conn, 1, t).unwrap();
    reset_db(&conn).unwrap();
    assert_eq!(load_recent_clips(&conn, 20).unwrap(), Vec::new());
    assert_eq!(load_tags(&conn).unwrap(), Vec::new());
    assert!(load_clip_tags(&conn).unwrap().is_empty());
    save_clip(&conn, "again", 11).unwrap();
    assert_eq!(load_recent_clips(&conn, 20).unwrap().len(), 1);
    create_tag(&conn, "u").unwrap();
    let u = tag_id(&conn, "u");
    assign_tag_to_clip(&conn, 1, u).unwrap();
    delete_clip(&conn, 1).unwrap();
    assert_eq!(count_clips_for_tag(&conn, &u).unwrap(), 0);
}

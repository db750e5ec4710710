//! The storage layer: three tables in an embedded SQL engine, one statement
//! per operation.
//!
//! The engine is reached through a handful of trusted functions at the top of
//! this file. They promise nothing about what the engine stores or answers.
//! So each operation is made of three steps. A function with an exact
//! contract builds the request: the statement and the values bound to it. A
//! trusted function hands the request to the engine. A function with an exact
//! contract turns the engine's answer, whatever it is, into the result. The
//! contract of the operation itself says what holds of every answer.

use vstd::prelude::*;
use vstd::string::StringExecFns;
use rusqlite::Connection;
use std::collections::HashMap;
use chrono::TimeZone;
use crate::models::date::Date;

verus! {

/// The engine's connection handle, opaque to the verifier.
#[verifier::external_type_specification]
#[verifier::external_body]
pub struct ExConnection(rusqlite::Connection);

/// The engine's error type, opaque to the verifier.
#[verifier::external_type_specification]
#[verifier::external_body]
pub struct ExEngineError(rusqlite::Error);

/// The engine's dynamically typed value, opaque to the verifier.
#[verifier::external_type_specification]
#[verifier::external_body]
pub struct ExEngineValue(rusqlite::types::Value);

/// A value bound to a placeholder of a statement.
#[derive(Debug, Clone, PartialEq, Eq)]
pub enum SqlValue {
    Null,
    Integer(i64),
    Text(String),
}

/// The mathematical value of a [`SqlValue`].
pub enum SqlValueView {
    Null,
    Integer(i64),
    Text(Seq<char>),
}

impl View for SqlValue {
    type V = SqlValueView;

    open spec fn view(&self) -> SqlValueView {
        match self {
            SqlValue::Null => SqlValueView::Null,
            SqlValue::Integer(i) => SqlValueView::Integer(*i),
            SqlValue::Text(s) => SqlValueView::Text(s@),
        }
    }
}

/// The mathematical values of a list of bound values.
pub open spec fn value_views(values: Seq<SqlValue>) -> Seq<SqlValueView> {
    values.map_values(|value: SqlValue| value@)
}

/// What an operation hands to the engine: a statement and the values bound
/// to its placeholders, in order.
#[derive(Debug)]
pub struct Request {
    pub sql: &'static str,
    pub args: Vec<SqlValue>,
}

/// The mathematical value of a [`Request`].
pub struct RequestView {
    pub sql: Seq<char>,
    pub args: Seq<SqlValueView>,
}

impl View for Request {
    type V = RequestView;

    open spec fn view(&self) -> RequestView {
        RequestView { sql: self.sql@, args: value_views(self.args@) }
    }
}

/// The mathematical values of a list of requests.
pub open spec fn request_views(requests: Seq<Request>) -> Seq<RequestView> {
    requests.map_values(|request: Request| request@)
}

/// Why a storage operation failed.
#[derive(Debug)]
pub enum StoreError {
    /// The engine refused the statement or failed while running it.
    Engine(rusqlite::Error),
    /// The day asked for, or the day after it, is not a day of the calendar.
    InvalidDate,
    /// The day asked for, or the day after it, does not start at exactly one
    /// instant of local time that the clock can name.
    NoLocalMidnight,
}

/// A clip row as the engine returns it: id, content, timestamp and the pin
/// column as the integer it is stored as.
pub type RawClipRow = (i64, String, i64, i64);

/// A clip row as the storage layer hands it out: id, content, timestamp,
/// pinned.
pub type ClipRow = (i64, String, i64, bool);

/// A tag row: id, name, colour.
pub type TagRow = (i64, String, Option<String>);

/// An id with a name: a tag of one clip, or a clip id with one of its tag
/// names.
pub type LabelRow = (i64, String);

/// Calls `rusqlite::Connection::open` on `path`. The outcome depends on the
/// file system, so nothing is promised of it.
#[verifier::external_body]
fn open_connection(path: &str) -> (r: Result<Connection, rusqlite::Error>) {
    Connection::open(path)
}

/// Turns an argument into `rusqlite::types::Value`, variant for variant.
#[verifier::external_body]
fn engine_value(value: &SqlValue) -> (v: rusqlite::types::Value) {
    match value {
        SqlValue::Null => rusqlite::types::Value::Null,
        SqlValue::Integer(i) => rusqlite::types::Value::Integer(*i),
        SqlValue::Text(s) => rusqlite::types::Value::Text(s.clone()),
    }
}

/// Calls `rusqlite::Connection::execute` with the values of the request
/// bound to the placeholders in order. On success the engine reports how many
/// rows it changed; what it changed depends on what it stores, so nothing is
/// promised of the outcome.
#[verifier::external_body]
fn run_statement(conn: &Connection, request: &Request) -> (r: Result<usize, rusqlite::Error>) {
    conn.execute(request.sql, rusqlite::params_from_iter(request.args.iter().map(engine_value)))
}

/// Calls `rusqlite::Connection::execute_batch`. Nothing is promised of the
/// outcome.
#[verifier::external_body]
fn run_batch(conn: &Connection, sql: &str) -> (r: Result<(), rusqlite::Error>) {
    conn.execute_batch(sql)
}

/// Prepares the statement of the request with `rusqlite::Connection::prepare`,
/// runs it with `rusqlite::Statement::query_map` and reads each row with
/// `rusqlite::Row::get` as integer, text, integer, integer. The rows depend on
/// what the engine stores, so nothing is promised of them.
#[verifier::external_body]
fn query_clip_rows(conn: &Connection, request: &Request) -> (r: Result<
    Vec<RawClipRow>,
    rusqlite::Error,
>) {
    let mut stmt = conn.prepare(request.sql)?;
    let rows = stmt.query_map(
        rusqlite::params_from_iter(request.args.iter().map(engine_value)),
        |row| Ok((row.get(0)?, row.get(1)?, row.get(2)?, row.get(3)?)),
    )?;
    rows.collect()
}

/// As [`query_clip_rows`], reading each row as integer, text.
#[verifier::external_body]
fn query_label_rows(conn: &Connection, request: &Request) -> (r: Result<
    Vec<LabelRow>,
    rusqlite::Error,
>) {
    let mut stmt = conn.prepare(request.sql)?;
    let rows = stmt.query_map(
        rusqlite::params_from_iter(request.args.iter().map(engine_value)),
        |row| Ok((row.get(0)?, row.get(1)?)),
    )?;
    rows.collect()
}

/// As [`query_clip_rows`], reading each row as integer, text, text or null.
#[verifier::external_body]
fn query_tag_rows(conn: &Connection, request: &Request) -> (r: Result<
    Vec<TagRow>,
    rusqlite::Error,
>) {
    let mut stmt = conn.prepare(request.sql)?;
    let rows = stmt.query_map(
        rusqlite::params_from_iter(request.args.iter().map(engine_value)),
        |row| Ok((row.get(0)?, row.get(1)?, row.get(2)?)),
    )?;
    rows.collect()
}

/// Prepares the statement of the request with `rusqlite::Connection::prepare`
/// and reads the first column of its first row as an integer with
/// `rusqlite::Statement::query_row`. Nothing is promised of the outcome.
#[verifier::external_body]
fn query_integer(conn: &Connection, request: &Request) -> (r: Result<i64, rusqlite::Error>) {
    let mut stmt = conn.prepare(request.sql)?;
    stmt.query_row(
        rusqlite::params_from_iter(request.args.iter().map(engine_value)),
        |row| row.get(0),
    )
}

/// The engine's own words for an error, from its `Display` impl.
#[verifier::external_body]
fn engine_error_text(error: &rusqlite::Error) -> (text: String) {
    format!("{}", error)
}

/// The second, counted from the epoch, at which the machine's local clock
/// shows the given day and time of day: `chrono::NaiveDate::from_ymd_opt`,
/// `chrono::NaiveDate::and_hms_opt`, `chrono::TimeZone::from_local_datetime`
/// for `chrono::Local`, and `chrono::DateTime::timestamp`. `None` where the
/// clock has no such day or time, or where local time skips that instant or
/// shows it twice. The answer depends on the time zone, so nothing is promised
/// of it.
#[verifier::external_body]
fn local_instant(year: i32, month: u32, day: u32, hour: u32, minute: u32, second: u32) -> (r:
    Option<i64>) {
    let at = chrono::NaiveDate::from_ymd_opt(year, month, day)?.and_hms_opt(hour, minute, second)?;
    chrono::Local.from_local_datetime(&at).single().map(|local| local.timestamp())
}

/// The pin flag that a stored integer stands for: anything but zero is
/// pinned.
pub open spec fn pin_flag(stored: i64) -> bool {
    stored != 0
}

/// What [`decode_clip_row`] makes of a row.
pub open spec fn decoded_clip_row(row: RawClipRow) -> (int, Seq<char>, int, bool) {
    (row.0 as int, row.1@, row.2 as int, pin_flag(row.3))
}

/// The view of a clip row.
pub open spec fn clip_row_view(row: ClipRow) -> (int, Seq<char>, int, bool) {
    (row.0 as int, row.1@, row.2 as int, row.3)
}

/// Turns one row of the engine into a clip row: the pin column becomes a
/// flag, the rest is kept.
pub fn decode_clip_row(row: RawClipRow) -> (out: ClipRow)
    ensures
        clip_row_view(out) == decoded_clip_row(row),
{
    (row.0, row.1, row.2, row.3 != 0)
}

/// Turns the rows of the engine into clip rows, one for one and in order.
pub fn decode_clip_rows(rows: Vec<RawClipRow>) -> (out: Vec<ClipRow>)
    ensures
        out.len() == rows.len(),
        forall|i: int|
            0 <= i < rows.len() ==> clip_row_view(#[trigger] out[i]) == decoded_clip_row(rows[i]),
{
    let mut out: Vec<ClipRow> = Vec::new();
    let n: usize = rows.len();
    let mut i: usize = 0;
    while i < n
        invariant
            n == rows.len(),
            i <= n,
            out.len() == i,
            forall|j: int|
                0 <= j < i ==> clip_row_view(#[trigger] out[j]) == decoded_clip_row(rows[j]),
        decreases n - i,
    {
        let row = &rows[i];
        out.push((row.0, row.1.clone(), row.2, row.3 != 0));
        i += 1;
    }
    out
}

/// The rows handed out for the rows of the engine, one for one and in order.
pub open spec fn decoded_rows(rows: Seq<RawClipRow>) -> Seq<(int, Seq<char>, int, bool)> {
    rows.map_values(|row: RawClipRow| decoded_clip_row(row))
}

/// The order that the statements ask of the engine: by pin column, highest
/// first, and by timestamp, latest first, among rows with the same pin
/// column.
pub open spec fn engine_ordered(rows: Seq<RawClipRow>) -> bool {
    forall|i: int, j: int|
        0 <= i < j < rows.len() ==> (#[trigger] rows[i]).3 > (#[trigger] rows[j]).3 || (rows[i].3
            == rows[j].3 && rows[i].2 >= rows[j].2)
}

/// Whether every pin column is zero or one, as the statements of this file
/// write it.
pub open spec fn pin_columns_are_flags(rows: Seq<RawClipRow>) -> bool {
    forall|i: int| 0 <= i < rows.len() ==> (#[trigger] rows[i]).3 == 0 || rows[i].3 == 1
}

/// The order of the clips on screen: no unpinned clip before a pinned one,
/// and the latest first among the pinned and among the unpinned.
pub open spec fn display_ordered(clips: Seq<(int, Seq<char>, int, bool)>) -> bool {
    forall|i: int, j: int|
        0 <= i < j < clips.len() ==> !(!(#[trigger] clips[i]).3 && (#[trigger] clips[j]).3) && (
        clips[i].3 == clips[j].3 ==> clips[i].2 >= clips[j].2)
}

/// The pin column after the statement that turns a pin over: one for zero,
/// zero for anything else.
pub open spec fn toggled_pin_column(stored: i64) -> i64 {
    if stored == 0 {
        1
    } else {
        0
    }
}

/// A row that the engine hands back is handed out with its id, content and
/// timestamp as they are, and unpinned where its pin column is zero, which is
/// what a new clip is stored with.
pub proof fn lemma_stored_clip_is_handed_out_unchanged(row: RawClipRow)
    ensures
        decoded_clip_row(row).0 == row.0,
        decoded_clip_row(row).1 == row.1@,
        decoded_clip_row(row).2 == row.2,
        row.3 == 0 ==> !decoded_clip_row(row).3,
{
}

/// A pin column that was turned over stands for the opposite flag.
pub proof fn lemma_toggled_pin_flips_flag(stored: i64)
    ensures
        pin_flag(toggled_pin_column(stored)) == !pin_flag(stored),
        toggled_pin_column(stored) == 0 || toggled_pin_column(stored) == 1,
{
}

/// Rows that the engine hands back in the order asked of it, with pin columns
/// of zero and one, are handed out pinned first and the latest first within
/// each group.
pub proof fn lemma_decoding_keeps_display_order(rows: Seq<RawClipRow>)
    requires
        engine_ordered(rows),
        pin_columns_are_flags(rows),
    ensures
        display_ordered(decoded_rows(rows)),
{
    assert forall|i: int, j: int| 0 <= i < j < decoded_rows(rows).len() implies !(!(
    #[trigger] decoded_rows(rows)[i]).3 && (#[trigger] decoded_rows(rows)[j]).3) && (decoded_rows(
        rows,
    )[i].3 == decoded_rows(rows)[j].3 ==> decoded_rows(rows)[i].2 >= decoded_rows(rows)[j].2) by {
        assert(rows[i].3 > rows[j].3 || (rows[i].3 == rows[j].3 && rows[i].2 >= rows[j].2));
        assert(rows[i].3 == 0 || rows[i].3 == 1);
        assert(rows[j].3 == 0 || rows[j].3 == 1);
    }
}

/// The rows handed out hold no id that the rows of the engine do not hold: a
/// clip that the engine no longer lists is not handed out.
pub proof fn lemma_decoding_adds_no_clip(rows: Seq<RawClipRow>, id: i64)
    requires
        forall|i: int| 0 <= i < rows.len() ==> (#[trigger] rows[i]).0 != id,
    ensures
        forall|i: int|
            0 <= i < decoded_rows(rows).len() ==> (#[trigger] decoded_rows(rows)[i]).0 != id,
{
    assert forall|i: int| 0 <= i < decoded_rows(rows).len() implies (#[trigger] decoded_rows(
        rows,
    )[i]).0 != id by {
        assert(rows[i].0 != id);
    }
}

/// Wraps what the engine answered in the library's result type.
pub fn from_engine<T>(answer: Result<T, rusqlite::Error>) -> (r: Result<T, StoreError>)
    ensures
        answer matches Ok(v) ==> r == Ok::<T, StoreError>(v),
        answer matches Err(e) ==> r == Err::<T, StoreError>(StoreError::Engine(e)),
{
    match answer {
        Ok(v) => Ok(v),
        Err(e) => Err(StoreError::Engine(e)),
    }
}

/// The limit handed to the engine for a row limit of the caller: the same
/// number where it fits, and else the negative number that its sixty-four
/// bits stand for, which the engine reads as no limit.
pub open spec fn limit_argument(limit: usize) -> i64 {
    if limit <= i64::MAX {
        limit as i64
    } else {
        (limit - 0x1_0000_0000_0000_0000) as i64
    }
}

/// The limit handed to the engine for `limit`.
pub fn limit_value(limit: usize) -> (v: i64)
    ensures
        v == limit_argument(limit),
        limit <= i64::MAX ==> v == limit,
        limit > i64::MAX ==> v < 0,
{
    let wide: u64 = limit as u64;
    if wide <= 0x7fff_ffff_ffff_ffff {
        wide as i64
    } else {
        ((wide - 0x8000_0000_0000_0000) as i64) + i64::MIN
    }
}

/// The limit handed to the engine for an optional limit: minus one, which
/// the engine reads as no limit, where there is none.
pub fn optional_limit_value(limit: Option<usize>) -> (v: i64)
    ensures
        v == optional_limit_argument(limit),
{
    match limit {
        Some(n) => limit_value(n),
        None => -1,
    }
}

/// The pattern that a search hands to the engine: `query` between two
/// percent signs, each of which stands for any text. A percent sign or an
/// underscore inside `query` is a wildcard too.
pub open spec fn contains_pattern(query: Seq<char>) -> Seq<char> {
    "%"@ + query + "%"@
}

/// The pattern that a search for `query` hands to the engine.
pub fn search_pattern(query: &str) -> (pattern: String)
    ensures
        pattern@ == contains_pattern(query@),
{
    let pattern = String::from_str("%").concat(query).concat("%");
    pattern
}

/// The tag names of `clip_id` among `rows`, in the order of the rows.
pub open spec fn names_for(rows: Seq<LabelRow>, clip_id: i64) -> Seq<Seq<char>>
    decreases rows.len(),
{
    if rows.len() == 0 {
        Seq::empty()
    } else {
        let before = names_for(rows.drop_last(), clip_id);
        if rows.last().0 == clip_id {
            before.push(rows.last().1@)
        } else {
            before
        }
    }
}

/// The texts of a list of names.
pub open spec fn texts(names: Seq<String>) -> Seq<Seq<char>> {
    names.map_values(|name: String| name@)
}

/// How often `name` stands in a list of names.
pub open spec fn name_count(names: Seq<Seq<char>>, name: Seq<char>) -> nat
    decreases names.len(),
{
    if names.len() == 0 {
        0
    } else {
        name_count(names.drop_last(), name) + if names.last() == name {
            1nat
        } else {
            0nat
        }
    }
}

/// How often the pair of `clip_id` and `name` stands among the rows.
pub open spec fn pair_count(rows: Seq<LabelRow>, clip_id: i64, name: Seq<char>) -> nat
    decreases rows.len(),
{
    if rows.len() == 0 {
        0
    } else {
        pair_count(rows.drop_last(), clip_id, name) + if rows.last().0 == clip_id
            && rows.last().1@ == name {
            1nat
        } else {
            0nat
        }
    }
}

/// A clip's list holds a tag name as often as the rows hold the pair of the
/// clip and that name: a tag that the store lists once for a clip is shown
/// exactly once on it, and a tag that it does not list for the clip is not
/// shown.
pub proof fn lemma_names_for_counts(rows: Seq<LabelRow>, clip_id: i64, name: Seq<char>)
    ensures
        name_count(names_for(rows, clip_id), name) == pair_count(rows, clip_id, name),
    decreases rows.len(),
{
    if rows.len() > 0 {
        lemma_names_for_counts(rows.drop_last(), clip_id, name);
        if rows.last().0 == clip_id {
            let before = names_for(rows.drop_last(), clip_id);
            assert(before.push(rows.last().1@).drop_last() =~= before);
        }
    }
}

/// Rows of other clips do not show on a clip's list: the list of a clip
/// after a row for another clip was added is the list before.
pub proof fn lemma_names_for_other_clip(rows: Seq<LabelRow>, row: LabelRow, clip_id: i64)
    requires
        row.0 != clip_id,
    ensures
        names_for(rows.push(row), clip_id) == names_for(rows, clip_id),
{
    assert(rows.push(row).drop_last() =~= rows);
}

/// A tag that the engine lists exactly once for a clip is shown exactly once
/// on it.
pub proof fn lemma_assigned_tag_is_shown_once(rows: Seq<LabelRow>, clip_id: i64, name: Seq<char>)
    requires
        pair_count(rows, clip_id, name) == 1,
    ensures
        name_count(names_for(rows, clip_id), name) == 1,
{
    lemma_names_for_counts(rows, clip_id, name);
}

/// A tag that the engine lists for no clip any more is shown on none: where
/// no row holds the name, no clip's list holds it.
pub proof fn lemma_removed_tag_is_shown_nowhere(rows: Seq<LabelRow>, clip_id: i64, name: Seq<char>)
    requires
        forall|i: int| 0 <= i < rows.len() ==> (#[trigger] rows[i]).1@ != name,
    ensures
        name_count(names_for(rows, clip_id), name) == 0,
{
    lemma_names_for_counts(rows, clip_id, name);
    lemma_no_pair_without_name(rows, clip_id, name);
}

proof fn lemma_no_pair_without_name(rows: Seq<LabelRow>, clip_id: i64, name: Seq<char>)
    requires
        forall|i: int| 0 <= i < rows.len() ==> (#[trigger] rows[i]).1@ != name,
    ensures
        pair_count(rows, clip_id, name) == 0,
    decreases rows.len(),
{
    if rows.len() > 0 {
        assert(rows.last() == rows[rows.len() - 1]);
        assert forall|i: int| 0 <= i < rows.drop_last().len() implies (
        #[trigger] rows.drop_last()[i]).1@ != name by {
            assert(rows.drop_last()[i] == rows[i]);
        }
        lemma_no_pair_without_name(rows.drop_last(), clip_id, name);
    }
}

/// Groups rows of clip id and tag name by clip id. A clip id is a key of the
/// map exactly if some row has it, and its names are those of its rows, in
/// the order of the rows.
pub fn group_tag_names(rows: Vec<LabelRow>) -> (map: HashMap<i64, Vec<String>>)
    ensures
        forall|clip_id: i64| #[trigger]
            map@.contains_key(clip_id) <==> names_for(rows@, clip_id).len() > 0,
        forall|clip_id: i64| #[trigger]
            map@.contains_key(clip_id) ==> texts(map@[clip_id]@) == names_for(rows@, clip_id),
{
    broadcast use vstd::std_specs::hash::group_hash_axioms;

    let mut map: HashMap<i64, Vec<String>> = HashMap::new();
    let n: usize = rows.len();
    let mut i: usize = 0;
    assert(rows@.take(0) =~= Seq::<LabelRow>::empty());
    while i < n
        invariant
            n == rows.len(),
            i <= n,
            forall|clip_id: i64| #[trigger]
                map@.contains_key(clip_id) <==> names_for(rows@.take(i as int), clip_id).len() > 0,
            forall|clip_id: i64| #[trigger]
                map@.contains_key(clip_id) ==> texts(map@[clip_id]@) == names_for(
                    rows@.take(i as int),
                    clip_id,
                ),
        decreases n - i,
    {
        let ghost before = map@;
        let ghost seen = rows@.take(i as int);
        let ghost next = rows@.take(i + 1);
        assert(next.drop_last() =~= seen);
        assert(next.last() == rows@[i as int]);
        let row = &rows[i];
        let clip_id: i64 = row.0;
        let mut names: Vec<String> = match map.remove(&clip_id) {
            Some(found) => found,
            None => Vec::new(),
        };
        assert(texts(names@) =~= names_for(seen, clip_id)) by {
            if before.contains_key(clip_id) {
                assert(names == before[clip_id]);
            } else {
                assert(names@.len() == 0);
                assert(names_for(seen, clip_id).len() == 0);
            }
        }
        let ghost old_names = names@;
        let name = row.1.clone();
        names.push(name);
        assert(texts(names@) =~= texts(old_names).push(row.1@));
        map.insert(clip_id, names);
        assert forall|other: i64| #[trigger]
            map@.contains_key(other) <==> names_for(next, other).len() > 0 by {
            if other != clip_id {
                assert(before.contains_key(other) == map@.contains_key(other));
            }
        }
        assert forall|other: i64| #[trigger] map@.contains_key(other) implies texts(
            map@[other]@,
        ) == names_for(next, other) by {
            if other != clip_id {
                assert(before.contains_key(other));
                assert(map@[other] == before[other]);
            }
        }
        i += 1;
    }
    assert(rows@.take(n as int) =~= rows@);
    map
}

/// What an operation that only changes the store returns for the engine's
/// answer: nothing on success, whatever the number of rows changed, or the
/// engine's error.
pub fn statement_done(answer: Result<usize, rusqlite::Error>) -> (r: Result<(), StoreError>)
    ensures
        answer is Ok ==> r is Ok,
        answer matches Err(e) ==> r matches Err(StoreError::Engine(f)) && f == e,
{
    match answer {
        Ok(_) => Ok(()),
        Err(e) => Err(StoreError::Engine(e)),
    }
}

/// What a clip query hands out for the engine's answer: its rows decoded,
/// or its error.
pub fn clip_rows_from(answer: Result<Vec<RawClipRow>, rusqlite::Error>) -> (r: Result<
    Vec<ClipRow>,
    StoreError,
>)
    ensures
        answer matches Err(e) ==> r matches Err(StoreError::Engine(f)) && f == e,
        answer matches Ok(rows) ==> r matches Ok(out) && out.len() == rows.len() && forall|i: int|
            0 <= i < rows.len() ==> clip_row_view(#[trigger] out[i]) == decoded_clip_row(rows[i]),
{
    match answer {
        Ok(rows) => Ok(decode_clip_rows(rows)),
        Err(e) => Err(StoreError::Engine(e)),
    }
}

/// What the map of all clips is for the engine's answer: its rows grouped by
/// clip as [`group_tag_names`] does, or its error.
pub fn tag_names_from(answer: Result<Vec<LabelRow>, rusqlite::Error>) -> (r: Result<
    HashMap<i64, Vec<String>>,
    StoreError,
>)
    ensures
        answer matches Err(e) ==> r matches Err(StoreError::Engine(f)) && f == e,
        answer matches Ok(rows) ==> r matches Ok(map) && (forall|clip_id: i64| #[trigger]
            map@.contains_key(clip_id) <==> names_for(rows@, clip_id).len() > 0) && (forall|
            clip_id: i64,
        | #[trigger]
            map@.contains_key(clip_id) ==> texts(map@[clip_id]@) == names_for(rows@, clip_id)),
{
    match answer {
        Ok(rows) => Ok(group_tag_names(rows)),
        Err(e) => Err(StoreError::Engine(e)),
    }
}

/// The span of seconds that a day covers, given the local midnights that the
/// clock named for the day and for the day after it: from the first, up to
/// but not including the second. An error where either is missing.
pub fn day_span(start: Option<i64>, end: Option<i64>) -> (r: Result<(i64, i64), StoreError>)
    ensures
        start is Some && end is Some ==> r == Ok::<(i64, i64), StoreError>(
            (start->Some_0, end->Some_0),
        ),
        start is None || end is None ==> r matches Err(StoreError::NoLocalMidnight),
{
    match start {
        Some(first) => match end {
            Some(second) => Ok((first, second)),
            None => Err(StoreError::NoLocalMidnight),
        },
        None => Err(StoreError::NoLocalMidnight),
    }
}

/// The file the history is kept in.
pub const DATABASE_FILE: &'static str = "clips.db";

/// Creates the table of clips unless it exists.
pub const CREATE_CLIPS: &'static str = "
        CREATE TABLE IF NOT EXISTS clips (
            id INTEGER PRIMARY KEY,
            content TEXT NOT NULL,
            timestamp INTEGER NOT NULL,
            pinned INTEGER NOT NULL DEFAULT 0
        )
        ";

/// Creates the table of tags unless it exists.
pub const CREATE_TAGS: &'static str = "
        CREATE TABLE IF NOT EXISTS tags (
            id INTEGER PRIMARY KEY,
            name TEXT UNIQUE NOT NULL,
            color TEXT
        )
        ";

/// Creates the table of the pairs of clip and tag unless it exists. A pair
/// leaves with either side.
pub const CREATE_CLIP_TAGS: &'static str = "
        CREATE TABLE IF NOT EXISTS clip_tags (
            clip_id INTEGER NOT NULL,
            tag_id INTEGER NOT NULL,
            PRIMARY KEY (clip_id, tag_id),
            FOREIGN KEY (clip_id) REFERENCES clips(id) ON DELETE CASCADE,
            FOREIGN KEY (tag_id) REFERENCES tags(id) ON DELETE CASCADE
        )
        ";

/// Switches the cascade off.
pub const FOREIGN_KEYS_OFF: &'static str = "PRAGMA foreign_keys = OFF;";

/// Empties the three tables.
pub const DELETE_EVERYTHING: &'static str = "
        DELETE FROM clip_tags;
        DELETE FROM clips;
        DELETE FROM tags;
    ";

/// Switches the cascade on.
pub const FOREIGN_KEYS_ON: &'static str = "PRAGMA foreign_keys = ON;";

/// Gives freed space back.
pub const VACUUM: &'static str = "VACUUM;";

/// Counts the clips that carry a tag.
pub const COUNT_CLIPS_FOR_TAG: &'static str = "SELECT COUNT(*) FROM clip_tags WHERE tag_id = ?";

/// Lists clip id and tag name of every pair, by tag name.
pub const SELECT_CLIP_TAGS: &'static str = "SELECT clip_tags.clip_id, tags.name
         FROM clip_tags
         INNER JOIN tags ON clip_tags.tag_id = tags.id
         ORDER BY tags.name ASC";

/// Lists id and name of the tags of a clip, by name.
pub const SELECT_TAGS_FOR_CLIP: &'static str = "
        SELECT tags.id, tags.name
        FROM tags
        INNER JOIN clip_tags ON tags.id = clip_tags.tag_id
        WHERE clip_tags.clip_id = ?1
        ORDER BY tags.name ASC
        ";

/// Lists id, name and colour of every tag, by name.
pub const SELECT_TAGS: &'static str = "SELECT id, name, color FROM tags ORDER BY name ASC";

/// Lists the clips that carry a tag, pinned ones first and the most recent
/// first within each group.
pub const SELECT_CLIPS_FOR_TAG: &'static str = "
        SELECT clips.id, clips.content, clips.timestamp, clips.pinned
        FROM clips
        INNER JOIN clip_tags ON clips.id = clip_tags.clip_id
        WHERE clip_tags.tag_id = ?1
        ORDER BY clips.pinned DESC, clips.timestamp DESC
        ";

/// Stores a tag with a name and no colour.
pub const INSERT_TAG: &'static str = "INSERT INTO tags (name) VALUES (?1)";

/// Gives a tag a name and a colour.
pub const UPDATE_TAG: &'static str = "UPDATE tags SET name = ?1, color = ?2 WHERE id = ?3";

/// Gives a tag a colour, or none.
pub const UPDATE_TAG_COLOR: &'static str = "UPDATE tags SET color = ?1 WHERE id = ?2";

/// Removes a tag.
pub const DELETE_TAG: &'static str = "DELETE FROM tags WHERE id = ?1";

/// Stores a pair of clip and tag.
pub const INSERT_CLIP_TAG: &'static str = "INSERT INTO clip_tags (clip_id, tag_id) VALUES (?1, ?2)";

/// Removes a clip.
pub const DELETE_CLIP: &'static str = "DELETE FROM clips WHERE id = ?1";

/// Stores an unpinned clip with a content and a timestamp.
pub const INSERT_CLIP: &'static str =
    "INSERT INTO clips (content, timestamp, pinned) VALUES (?1, ?2, 0)";

/// Lists clips, pinned ones first and the most recent first within each
/// group, up to a limit.
pub const SELECT_RECENT_CLIPS: &'static str = "SELECT id, content, timestamp, pinned FROM clips 
         ORDER BY pinned DESC, timestamp DESC 
         LIMIT ?";

/// Lists the clips whose content is like a pattern, in the same order, up to
/// a limit.
pub const SEARCH_CLIPS: &'static str = "SELECT id, content, timestamp, pinned FROM clips
         WHERE content LIKE ?1
         ORDER BY pinned DESC, timestamp DESC
         LIMIT ?2";

/// Turns the pin flag of a clip over.
pub const TOGGLE_PIN: &'static str = "UPDATE clips SET pinned = NOT pinned WHERE id = ?1";

/// Lists the clips taken from one second up to, but not at, another, pinned
/// ones first and the most recent first within each group.
pub const SELECT_CLIPS_BETWEEN: &'static str = "SELECT id, content, timestamp, pinned FROM clips
         WHERE timestamp >= ?1 AND timestamp < ?2
         ORDER BY pinned DESC, timestamp DESC";

/// No values to bind.
pub fn no_values() -> (values: Vec<SqlValue>)
    ensures
        value_views(values@) == Seq::<SqlValueView>::empty(),
{
    let values: Vec<SqlValue> = Vec::new();
    assert(value_views(values@) =~= Seq::<SqlValueView>::empty());
    values
}

/// One value to bind.
pub fn one_value(first: SqlValue) -> (values: Vec<SqlValue>)
    ensures
        value_views(values@) == seq![first@],
{
    let mut values: Vec<SqlValue> = Vec::new();
    values.push(first);
    assert(value_views(values@) =~= seq![first@]);
    values
}

/// Two values to bind, in order.
pub fn two_values(first: SqlValue, second: SqlValue) -> (values: Vec<SqlValue>)
    ensures
        value_views(values@) == seq![first@, second@],
{
    let mut values: Vec<SqlValue> = Vec::new();
    values.push(first);
    values.push(second);
    assert(value_views(values@) =~= seq![first@, second@]);
    values
}

/// Three values to bind, in order.
pub fn three_values(first: SqlValue, second: SqlValue, third: SqlValue) -> (values: Vec<SqlValue>)
    ensures
        value_views(values@) == seq![first@, second@, third@],
{
    let mut values: Vec<SqlValue> = Vec::new();
    values.push(first);
    values.push(second);
    values.push(third);
    assert(value_views(values@) =~= seq![first@, second@, third@]);
    values
}

/// The text as a value to bind.
pub fn text_value(text: &str) -> (value: SqlValue)
    ensures
        value@ == SqlValueView::Text(text@),
{
    SqlValue::Text(text.to_owned())
}

/// The value stored for an optional colour: the text, or null.
pub fn color_value(color: Option<&str>) -> (value: SqlValue)
    ensures
        value@ == match color {
            Some(text) => SqlValueView::Text(text@),
            None => SqlValueView::Null,
        },
{
    match color {
        Some(text) => SqlValue::Text(text.to_owned()),
        None => SqlValue::Null,
    }
}

/// The request for a statement that takes no values.
pub fn plain_request(sql: &'static str) -> (request: Request)
    ensures
        request.sql@ == sql@,
        value_views(request.args@) == Seq::<SqlValueView>::empty(),
{
    Request { sql, args: no_values() }
}

/// The request that counts the clips of a tag.
pub fn count_request(tag_id: i64) -> (request: Request)
    ensures
        request.sql@ == COUNT_CLIPS_FOR_TAG@,
        value_views(request.args@) == seq![SqlValueView::Integer(tag_id)],
{
    Request { sql: COUNT_CLIPS_FOR_TAG, args: one_value(SqlValue::Integer(tag_id)) }
}

/// The request that lists the tags of a clip.
pub fn tags_for_clip_request(clip_id: i64) -> (request: Request)
    ensures
        request.sql@ == SELECT_TAGS_FOR_CLIP@,
        value_views(request.args@) == seq![SqlValueView::Integer(clip_id)],
{
    Request { sql: SELECT_TAGS_FOR_CLIP, args: one_value(SqlValue::Integer(clip_id)) }
}

/// The request that lists the clips of a tag.
pub fn clips_for_tag_request(tag_id: i64) -> (request: Request)
    ensures
        request.sql@ == SELECT_CLIPS_FOR_TAG@,
        value_views(request.args@) == seq![SqlValueView::Integer(tag_id)],
{
    Request { sql: SELECT_CLIPS_FOR_TAG, args: one_value(SqlValue::Integer(tag_id)) }
}

/// The request that stores a tag: the name.
pub fn create_tag_request(name: &str) -> (request: Request)
    ensures
        request.sql@ == INSERT_TAG@,
        value_views(request.args@) == seq![SqlValueView::Text(name@)],
{
    Request { sql: INSERT_TAG, args: one_value(text_value(name)) }
}

/// The request that renames and recolours a tag: name, colour, id.
pub fn update_tag_request(tag_id: i64, name: &str, color: &str) -> (request: Request)
    ensures
        request.sql@ == UPDATE_TAG@,
        value_views(request.args@) == seq![
            SqlValueView::Text(name@),
            SqlValueView::Text(color@),
            SqlValueView::Integer(tag_id),
        ],
{
    Request {
        sql: UPDATE_TAG,
        args: three_values(text_value(name), text_value(color), SqlValue::Integer(tag_id)),
    }
}

/// The request that recolours a tag: the colour or null, then the id.
pub fn update_tag_color_request(tag_id: i64, color: Option<&str>) -> (request: Request)
    ensures
        request.sql@ == UPDATE_TAG_COLOR@,
        value_views(request.args@) == seq![
            match color {
                Some(text) => SqlValueView::Text(text@),
                None => SqlValueView::Null,
            },
            SqlValueView::Integer(tag_id),
        ],
{
    Request {
        sql: UPDATE_TAG_COLOR,
        args: two_values(color_value(color), SqlValue::Integer(tag_id)),
    }
}

/// The request that removes a tag.
pub fn delete_tag_request(tag_id: i64) -> (request: Request)
    ensures
        request.sql@ == DELETE_TAG@,
        value_views(request.args@) == seq![SqlValueView::Integer(tag_id)],
{
    Request { sql: DELETE_TAG, args: one_value(SqlValue::Integer(tag_id)) }
}

/// The request that puts a tag on a clip: clip id, tag id.
pub fn assign_request(clip_id: i64, tag_id: i64) -> (request: Request)
    ensures
        request.sql@ == INSERT_CLIP_TAG@,
        value_views(request.args@) == seq![
            SqlValueView::Integer(clip_id),
            SqlValueView::Integer(tag_id),
        ],
{
    Request {
        sql: INSERT_CLIP_TAG,
        args: two_values(SqlValue::Integer(clip_id), SqlValue::Integer(tag_id)),
    }
}

/// The request that removes a clip.
pub fn delete_clip_request(id: i64) -> (request: Request)
    ensures
        request.sql@ == DELETE_CLIP@,
        value_views(request.args@) == seq![SqlValueView::Integer(id)],
{
    Request { sql: DELETE_CLIP, args: one_value(SqlValue::Integer(id)) }
}

/// The request that stores a clip: content, timestamp.
pub fn save_clip_request(clip: &str, timestamp: i64) -> (request: Request)
    ensures
        request.sql@ == INSERT_CLIP@,
        value_views(request.args@) == seq![
            SqlValueView::Text(clip@),
            SqlValueView::Integer(timestamp),
        ],
{
    Request { sql: INSERT_CLIP, args: two_values(text_value(clip), SqlValue::Integer(timestamp)) }
}

/// The request that lists the most recent clips: the limit as
/// [`limit_argument`] gives it.
pub fn recent_clips_request(limit: usize) -> (request: Request)
    ensures
        request.sql@ == SELECT_RECENT_CLIPS@,
        value_views(request.args@) == seq![SqlValueView::Integer(limit_argument(limit))],
{
    Request { sql: SELECT_RECENT_CLIPS, args: one_value(SqlValue::Integer(limit_value(limit))) }
}

/// The limit handed to the engine for an optional limit.
pub open spec fn optional_limit_argument(limit: Option<usize>) -> i64 {
    match limit {
        Some(n) => limit_argument(n),
        None => -1i64,
    }
}

/// The request of a search: the pattern of [`contains_pattern`], then the
/// limit, minus one where there is none.
pub fn search_request(query: &str, limit: Option<usize>) -> (request: Request)
    ensures
        request.sql@ == SEARCH_CLIPS@,
        value_views(request.args@) == seq![
            SqlValueView::Text(contains_pattern(query@)),
            SqlValueView::Integer(optional_limit_argument(limit)),
        ],
{
    let pattern = SqlValue::Text(search_pattern(query));
    Request {
        sql: SEARCH_CLIPS,
        args: two_values(pattern, SqlValue::Integer(optional_limit_value(limit))),
    }
}

/// The request that turns the pin flag of a clip over.
pub fn toggle_pin_request(id: i64) -> (request: Request)
    ensures
        request.sql@ == TOGGLE_PIN@,
        value_views(request.args@) == seq![SqlValueView::Integer(id)],
{
    Request { sql: TOGGLE_PIN, args: one_value(SqlValue::Integer(id)) }
}

/// The request that lists the clips of a span of seconds: first second, then
/// the second after the last.
pub fn clips_between_request(start_ts: i64, end_ts: i64) -> (request: Request)
    ensures
        request.sql@ == SELECT_CLIPS_BETWEEN@,
        value_views(request.args@) == seq![
            SqlValueView::Integer(start_ts),
            SqlValueView::Integer(end_ts),
        ],
{
    Request {
        sql: SELECT_CLIPS_BETWEEN,
        args: two_values(SqlValue::Integer(start_ts), SqlValue::Integer(end_ts)),
    }
}

/// Hands a request that changes the store to the engine: the number of rows
/// that the engine changed, or its error.
pub fn execute(conn: &Connection, request: &Request) -> (r: Result<usize, StoreError>)
    ensures
        r matches Err(e) ==> e is Engine,
{
    from_engine(run_statement(conn, request))
}

/// Whether the store took a request: it answered with a number of rows, not
/// with an error.
pub fn store_took(answer: &Result<usize, StoreError>) -> (taken: bool)
    ensures
        taken == (answer is Ok),
{
    answer.is_ok()
}

/// The view of an optional request.
pub open spec fn opt_request_view(request: Option<Request>) -> Option<RequestView> {
    match request {
        Some(r) => Some(r@),
        None => None,
    }
}

/// The map of all clips for an answer of the storage layer: the map itself,
/// or the empty map where the storage layer failed.
pub fn tag_names_or_none(answer: Result<HashMap<i64, Vec<String>>, StoreError>) -> (map: HashMap<
    i64,
    Vec<String>,
>)
    ensures
        answer matches Ok(names) ==> map == names,
        answer is Err ==> map@ == Map::<i64, Vec<String>>::empty(),
{
    match answer {
        Ok(names) => names,
        Err(_) => HashMap::new(),
    }
}

/// Creates the three tables unless they exist: clips, tags, and the pairs of
/// clip and tag, which leave with either side. The statements are
/// [`CREATE_CLIPS`], [`CREATE_TAGS`] and [`CREATE_CLIP_TAGS`], in that order;
/// the first that the engine refuses ends the operation with its error.
pub fn create_tables(conn: &Connection) -> (r: Result<(), StoreError>)
    ensures
        r matches Err(e) ==> e is Engine,
{
    statement_done(run_statement(conn, &plain_request(CREATE_CLIPS)))?;
    statement_done(run_statement(conn, &plain_request(CREATE_TAGS)))?;
    statement_done(run_statement(conn, &plain_request(CREATE_CLIP_TAGS)))
}

/// Opens the history file, [`DATABASE_FILE`], and makes sure that its tables
/// exist.
pub fn init_db() -> (r: Result<Connection, StoreError>)
    ensures
        r matches Err(e) ==> e is Engine,
{
    let conn = from_engine(open_connection(DATABASE_FILE))?;
    match create_tables(&conn) {
        Ok(()) => Ok(conn),
        Err(e) => Err(e),
    }
}

/// Empties the three tables, with the cascade switched off meanwhile, gives
/// the freed space back, and makes sure that the tables are still there. The
/// batches are [`FOREIGN_KEYS_OFF`], [`DELETE_EVERYTHING`],
/// [`FOREIGN_KEYS_ON`] and [`VACUUM`], in that order; the first that the
/// engine refuses ends the operation with its error.
pub fn reset_db(conn: &Connection) -> (r: Result<(), StoreError>)
    ensures
        r matches Err(e) ==> e is Engine,
{
    from_engine(run_batch(conn, FOREIGN_KEYS_OFF))?;
    from_engine(run_batch(conn, DELETE_EVERYTHING))?;
    from_engine(run_batch(conn, FOREIGN_KEYS_ON))?;
    from_engine(run_batch(conn, VACUUM))?;
    let _ = create_tables(conn);
    Ok(())
}

/// The number of clips that carry the tag: the engine's answer to
/// [`count_request`].
pub fn count_clips_for_tag(conn: &Connection, tag_id: &i64) -> (r: Result<i64, StoreError>)
    ensures
        r matches Err(e) ==> e is Engine,
{
    from_engine(query_integer(conn, &count_request(*tag_id)))
}

/// For every clip that has tags, the names of its tags. The engine is asked
/// for the pairs of clip id and tag name by name, [`SELECT_CLIP_TAGS`];
/// [`tag_names_from`] groups them.
pub fn load_clip_tags(conn: &Connection) -> (r: Result<HashMap<i64, Vec<String>>, StoreError>)
    ensures
        r matches Err(e) ==> e is Engine,
        r matches Ok(map) ==> forall|clip_id: i64| #[trigger]
            map@.contains_key(clip_id) ==> map@[clip_id]@.len() > 0,
{
    tag_names_from(query_label_rows(conn, &plain_request(SELECT_CLIP_TAGS)))
}

/// The tags of one clip, by name: id and name of each, as the engine answers
/// [`tags_for_clip_request`].
pub fn load_tags_for_clip(conn: &Connection, clip_id: i64) -> (r: Result<
    Vec<LabelRow>,
    StoreError,
>)
    ensures
        r matches Err(e) ==> e is Engine,
{
    from_engine(query_label_rows(conn, &tags_for_clip_request(clip_id)))
}

/// All tags, by name: id, name and colour of each, as the engine answers
/// [`SELECT_TAGS`].
pub fn load_tags(conn: &Connection) -> (r: Result<Vec<TagRow>, StoreError>)
    ensures
        r matches Err(e) ==> e is Engine,
{
    from_engine(query_tag_rows(conn, &plain_request(SELECT_TAGS)))
}

/// The clips that carry the tag, pinned ones first and the most recent first
/// within each group: the engine's answer to [`clips_for_tag_request`],
/// decoded by [`clip_rows_from`].
pub fn load_clips_for_tag(conn: &Connection, tag_id: &i64) -> (r: Result<Vec<ClipRow>, StoreError>)
    ensures
        r matches Err(e) ==> e is Engine,
{
    clip_rows_from(query_clip_rows(conn, &clips_for_tag_request(*tag_id)))
}

/// Stores a new tag with the given name and no colour, by
/// [`create_tag_request`]. The engine refuses a name that is taken.
pub fn create_tag(conn: &Connection, name: &str) -> (r: Result<usize, StoreError>)
    ensures
        r matches Err(e) ==> e is Engine,
{
    from_engine(run_statement(conn, &create_tag_request(name)))
}

/// Gives the tag a new name and colour, by [`update_tag_request`].
pub fn update_tag(conn: &Connection, tag_id: i64, name: &str, color: &str) -> (r: Result<
    usize,
    StoreError,
>)
    ensures
        r matches Err(e) ==> e is Engine,
{
    from_engine(run_statement(conn, &update_tag_request(tag_id, name, color)))
}

/// Gives the tag a new colour, or none, by [`update_tag_color_request`].
pub fn update_tag_color(conn: &Connection, tag_id: i64, color: Option<&str>) -> (r: Result<
    usize,
    StoreError,
>)
    ensures
        r matches Err(e) ==> e is Engine,
{
    from_engine(run_statement(conn, &update_tag_color_request(tag_id, color)))
}

/// Removes the tag, by [`delete_tag_request`]; its pairs with clips leave
/// with it.
pub fn delete_tag(conn: &Connection, tag_id: i64) -> (r: Result<usize, StoreError>)
    ensures
        r matches Err(e) ==> e is Engine,
{
    from_engine(run_statement(conn, &delete_tag_request(tag_id)))
}

/// Puts the tag on the clip, by [`assign_request`]. The engine refuses a
/// pair that exists.
pub fn assign_tag_to_clip(conn: &Connection, clip_id: i64, tag_id: i64) -> (r: Result<
    usize,
    StoreError,
>)
    ensures
        r matches Err(e) ==> e is Engine,
{
    from_engine(run_statement(conn, &assign_request(clip_id, tag_id)))
}

/// Removes the clip, by [`delete_clip_request`]; its pairs with tags leave
/// with it.
pub fn delete_clip(conn: &Connection, id: i64) -> (r: Result<usize, StoreError>)
    ensures
        r matches Err(e) ==> e is Engine,
{
    from_engine(run_statement(conn, &delete_clip_request(id)))
}

/// Stores a new, unpinned clip with the given content and timestamp, by
/// [`save_clip_request`].
pub fn save_clip(conn: &Connection, clip: &str, timestamp: i64) -> (r: Result<(), StoreError>)
    ensures
        r matches Err(e) ==> e is Engine,
{
    statement_done(run_statement(conn, &save_clip_request(clip, timestamp)))
}

/// The most recent clips, pinned ones first and the most recent first within
/// each group, at most `limit` of them: the engine's answer to
/// [`recent_clips_request`], decoded by [`clip_rows_from`].
pub fn load_recent_clips(conn: &Connection, limit: usize) -> (r: Result<Vec<ClipRow>, StoreError>)
    ensures
        r matches Err(e) ==> e is Engine,
{
    clip_rows_from(query_clip_rows(conn, &recent_clips_request(limit)))
}

/// The clips whose content is like the pattern of [`search_pattern`], as the
/// engine compares texts, in the order of [`load_recent_clips`], at most
/// `limit` of them where a limit is given: the engine's answer to
/// [`search_request`], decoded by [`clip_rows_from`].
pub fn search_clips(conn: &Connection, query: &str, limit: Option<usize>) -> (r: Result<
    Vec<ClipRow>,
    StoreError,
>)
    ensures
        r matches Err(e) ==> e is Engine,
{
    clip_rows_from(query_clip_rows(conn, &search_request(query, limit)))
}

/// Turns the pin flag of the clip over, by [`toggle_pin_request`].
pub fn toggle_pin_clip(conn: &Connection, id: i64) -> (r: Result<usize, StoreError>)
    ensures
        r matches Err(e) ==> e is Engine,
{
    from_engine(run_statement(conn, &toggle_pin_request(id)))
}

/// The clips whose timestamp is at or after `start_ts` and before `end_ts`,
/// pinned ones first and the most recent first within each group: the
/// engine's answer to [`clips_between_request`], decoded by
/// [`clip_rows_from`].
pub fn load_clips_between(conn: &Connection, start_ts: i64, end_ts: i64) -> (r: Result<
    Vec<ClipRow>,
    StoreError,
>)
    ensures
        r matches Err(e) ==> e is Engine,
{
    clip_rows_from(query_clip_rows(conn, &clips_between_request(start_ts, end_ts)))
}

/// The second at which a day starts by the local clock: midnight of that
/// day, as [`local_instant`] names it.
fn local_midnight(day: Date) -> (r: Option<i64>) {
    local_instant(day.year, day.month, day.day, 0, 0, 0)
}

/// The request for the clips of a day, given the local midnights that the
/// clock named for the day and for the day after it. A date that is no day of
/// the calendar, or that has no day after it, is refused whatever the clock
/// said; a day without either midnight has no request; for any other day the
/// request is that of [`clips_between_request`], from the day's midnight up
/// to the next.
pub fn day_request(date: Date, start: Option<i64>, end: Option<i64>) -> (r: Result<
    Request,
    StoreError,
>)
    ensures
        r matches Err(StoreError::InvalidDate) <==> !date.is_valid() || !date.has_next(),
        r matches Err(StoreError::NoLocalMidnight) <==> date.is_valid() && date.has_next() && (
        start is None || end is None),
        r is Ok <==> date.is_valid() && date.has_next() && start is Some && end is Some,
        r matches Ok(request) ==> request.sql@ == SELECT_CLIPS_BETWEEN@ && value_views(
            request.args@,
        ) == seq![SqlValueView::Integer(start->Some_0), SqlValueView::Integer(end->Some_0)],
{
    if !date.valid() {
        return Err(StoreError::InvalidDate);
    }
    if date.succ().is_none() {
        return Err(StoreError::InvalidDate);
    }
    match day_span(start, end) {
        Ok((start_ts, end_ts)) => Ok(clips_between_request(start_ts, end_ts)),
        Err(e) => Err(e),
    }
}

/// The clips taken on the given day of local time: from local midnight of the
/// day up to local midnight of the day after it, as [`day_request`] asks for
/// them, decoded by [`clip_rows_from`]. A date that is no day of the calendar,
/// or that has no day after it, is refused before the engine is asked.
pub fn load_clips_for_date(conn: &Connection, date: Date) -> (r: Result<Vec<ClipRow>, StoreError>)
    ensures
        r matches Err(StoreError::InvalidDate) <==> !date.is_valid() || (date.year == i32::MAX
            && date.month == 12 && date.day == 31),
{
    let start = local_midnight(date);
    let end = match date.succ() {
        Some(next_day) => local_midnight(next_day),
        None => None,
    };
    match day_request(date, start, end) {
        Ok(request) => clip_rows_from(query_clip_rows(conn, &request)),
        Err(e) => Err(e),
    }
}

impl StoreError {
    /// What to tell the user: the engine's own words for an engine error, a
    /// fixed sentence for the others.
    pub fn message(&self) -> (text: String)
        ensures
            self is InvalidDate ==> text@ == "no such day"@,
            self is NoLocalMidnight ==> text@ == "the day has no single local midnight"@,
    {
        match self {
            StoreError::Engine(e) => engine_error_text(e),
            StoreError::InvalidDate => String::from_str("no such day"),
            StoreError::NoLocalMidnight => String::from_str("the day has no single local midnight"),
        }
    }
}

} // verus!

//! What is kept in the database: the statements that keep it, and what their replies mean.

use vstd::prelude::*;
use vstd::string::*;
use crate::paths::opt_text;
use crate::ytdlp::opt_str;
use crate::ytdlp_updater::DAY_SECS;

verus! {

/// What an item was downloaded as.
#[derive(Debug, Clone, Copy, PartialEq, Eq, Structural)]
pub enum ItemMode {
    Audio,
    Video,
}

impl ItemMode {
    /// How a mode is written in the database.
    pub open spec fn name(self) -> Seq<char> {
        match self {
            ItemMode::Audio => "audio"@,
            ItemMode::Video => "video"@,
        }
    }

    /// How the mode is written in the database.
    pub fn as_str(self) -> (r: &'static str)
        ensures
            r@ == self.name(),
    {
        match self {
            ItemMode::Audio => "audio",
            ItemMode::Video => "video",
        }
    }
}

/// A value bound to a statement.
#[derive(Debug)]
pub enum SqlValue {
    Null,
    Integer(i64),
    Text(String),
}

/// The characters of a `SqlValue`.
pub enum SqlValueView {
    Null,
    Integer(i64),
    Text(Seq<char>),
}

impl View for SqlValue {
    type V = SqlValueView;

    open spec fn view(&self) -> SqlValueView {
        match *self {
            SqlValue::Null => SqlValueView::Null,
            SqlValue::Integer(i) => SqlValueView::Integer(i),
            SqlValue::Text(s) => SqlValueView::Text(s@),
        }
    }
}

/// A statement with the values for its parameters, `?1` first.
#[derive(Debug)]
pub struct Statement {
    pub sql: String,
    pub params: Vec<SqlValue>,
}

/// The characters of a `Statement`.
#[verifier::ext_equal]
pub struct StatementView {
    pub sql: Seq<char>,
    pub params: Seq<SqlValueView>,
}

impl View for Statement {
    type V = StatementView;

    open spec fn view(&self) -> StatementView {
        StatementView {
            sql: self.sql@,
            params: self.params@.map_values(|v: SqlValue| v@),
        }
    }
}

/// A text value.
pub open spec fn text(s: Seq<char>) -> SqlValueView {
    SqlValueView::Text(s)
}

/// A text, or no value.
pub open spec fn text_or_null(s: Option<Seq<char>>) -> SqlValueView {
    match s {
        Some(t) => SqlValueView::Text(t),
        None => SqlValueView::Null,
    }
}

/// A number.
pub open spec fn integer(i: i64) -> SqlValueView {
    SqlValueView::Integer(i)
}

fn sql_text(s: &str) -> (r: SqlValue)
    ensures
        r@ == text(s@),
{
    SqlValue::Text(s.to_owned())
}

fn sql_text_or_null(s: Option<&str>) -> (r: SqlValue)
    ensures
        r@ == text_or_null(opt_str(s)),
{
    match s {
        Some(t) => SqlValue::Text(t.to_owned()),
        None => SqlValue::Null,
    }
}

/// The settings of every connection, in the order in which they are made.
pub open spec fn pragma_list() -> Seq<(Seq<char>, Seq<char>)> {
    seq![
        ("journal_mode"@, "WAL"@),
        ("synchronous"@, "NORMAL"@),
        ("foreign_keys"@, "ON"@),
    ]
}

/// The settings of every connection, in the order in which they are made.
pub fn pragmas() -> (r: Vec<(&'static str, &'static str)>)
    ensures
        r@.map_values(|p: (&'static str, &'static str)| (p.0@, p.1@)) == pragma_list(),
{
    let r = vec![("journal_mode", "WAL"), ("synchronous", "NORMAL"), ("foreign_keys", "ON")];
    assert(r@.map_values(|p: (&'static str, &'static str)| (p.0@, p.1@)) =~= pragma_list());
    r
}

/// The tables, made where they are not there yet.
pub const SCHEMA: &'static str = "
            CREATE TABLE IF NOT EXISTS items (
                video_id    TEXT NOT NULL,
                source_name TEXT NOT NULL,
                mode        TEXT NOT NULL,
                title       TEXT,
                file_path   TEXT,
                downloaded_at INTEGER NOT NULL,
                PRIMARY KEY (video_id, mode)
            );
            CREATE INDEX IF NOT EXISTS idx_items_source ON items(source_name);

            CREATE TABLE IF NOT EXISTS failures (
                video_id    TEXT NOT NULL,
                source_name TEXT NOT NULL,
                mode        TEXT NOT NULL,
                last_error  TEXT,
                attempts    INTEGER NOT NULL DEFAULT 0,
                last_attempt_at INTEGER NOT NULL,
                PRIMARY KEY (video_id, mode)
            );

            CREATE TABLE IF NOT EXISTS runs (
                id INTEGER PRIMARY KEY AUTOINCREMENT,
                started_at INTEGER NOT NULL,
                finished_at INTEGER,
                ok_count    INTEGER NOT NULL DEFAULT 0,
                fail_count  INTEGER NOT NULL DEFAULT 0,
                notes       TEXT
            );
            ";

/// Asks whether the runs say anything of the cookies.
pub const HAS_COOKIES_COLUMN: &'static str =
    "SELECT COUNT(*) FROM pragma_table_info('runs') WHERE name = 'cookies_suspicious'";

/// Lets the runs say something of the cookies.
pub const ADD_COOKIES_COLUMN: &'static str =
    "ALTER TABLE runs ADD COLUMN cookies_suspicious INTEGER NOT NULL DEFAULT 0";

/// Counts the rows of an item.
pub const COUNT_ITEM: &'static str = "SELECT COUNT(*) FROM items WHERE video_id = ?1 AND mode = ?2";

/// Keeps an item, in place of what was kept of it.
pub const PUT_ITEM: &'static str =
    "INSERT OR REPLACE INTO items (video_id, source_name, mode, title, file_path, downloaded_at) VALUES (?1, ?2, ?3, ?4, ?5, ?6)";

/// Forgets the failures of an item.
pub const CLEAR_FAILURE: &'static str = "DELETE FROM failures WHERE video_id = ?1 AND mode = ?2";

/// Keeps a failure of an item, and counts it.
pub const PUT_FAILURE: &'static str =
    "INSERT INTO failures (video_id, source_name, mode, last_error, attempts, last_attempt_at)
               VALUES (?1, ?2, ?3, ?4, 1, ?5)
               ON CONFLICT(video_id, mode) DO UPDATE SET
                 last_error = excluded.last_error,
                 attempts = failures.attempts + 1,
                 last_attempt_at = excluded.last_attempt_at,
                 source_name = excluded.source_name";

/// Forgets the failures whose last attempt is older than a time.
pub const PRUNE_FAILURES: &'static str = "DELETE FROM failures WHERE last_attempt_at < ?1";

/// Begins a run.
pub const PUT_RUN: &'static str = "INSERT INTO runs (started_at) VALUES (?1)";

/// Ends a run.
pub const END_RUN: &'static str =
    "UPDATE runs SET finished_at = ?1, ok_count = ?2, fail_count = ?3, notes = ?4, cookies_suspicious = ?5 WHERE id = ?6";

/// The last run.
pub const LAST_RUN: &'static str =
    "SELECT id, started_at, finished_at, ok_count, fail_count, notes, cookies_suspicious FROM runs ORDER BY id DESC LIMIT 1";

/// The last run that found the cookies suspicious.
pub const LAST_COOKIES_WARNING_RUN: &'static str =
    "SELECT id FROM runs WHERE cookies_suspicious = 1 ORDER BY id DESC LIMIT 1";

/// Counts the failures.
pub const COUNT_FAILURES: &'static str = "SELECT COUNT(*) FROM failures";

/// Whether the column for the cookies is still to be added, given how many columns have its name.
pub fn needs_cookies_column(has_col: i64) -> (r: bool)
    ensures
        r == (has_col == 0),
{
    has_col == 0
}

/// Seconds since the epoch, given how long ago that was. A clock that stands before the epoch
/// counts as standing at it.
pub fn now_epoch(since_epoch: Option<u64>) -> (r: i64)
    ensures
        r == match since_epoch {
            Some(secs) => secs as i64,
            None => 0,
        },
{
    match since_epoch {
        Some(secs) => secs as i64,
        None => 0,
    }
}

/// Asks how often an item was downloaded in a mode.
pub fn is_done(video_id: &str, mode: ItemMode) -> (r: Statement)
    ensures
        r@ == (StatementView {
            sql: COUNT_ITEM@,
            params: seq![text(video_id@), text(mode.name())],
        }),
{
    let r = Statement {
        sql: COUNT_ITEM.to_owned(),
        params: vec![sql_text(video_id), sql_text(mode.as_str())],
    };
    assert(r@.params =~= seq![text(video_id@), text(mode.name())]);
    r
}

/// Whether an item was downloaded, given how many rows it has.
pub fn counts_as_done(count: i64) -> (r: bool)
    ensures
        r == (count > 0),
{
    count > 0
}

/// Keeps an item that was downloaded, and forgets its failures: the two statements, in order.
pub fn mark_done(
    video_id: &str,
    source: &str,
    mode: ItemMode,
    title: Option<&str>,
    file_path: &str,
    now: i64,
) -> (r: (Statement, Statement))
    ensures
        r.0@ == (StatementView {
            sql: PUT_ITEM@,
            params: seq![
                text(video_id@),
                text(source@),
                text(mode.name()),
                text_or_null(opt_str(title)),
                text(file_path@),
                integer(now),
            ],
        }),
        r.1@ == (StatementView {
            sql: CLEAR_FAILURE@,
            params: seq![text(video_id@), text(mode.name())],
        }),
{
    let put = Statement {
        sql: PUT_ITEM.to_owned(),
        params: vec![
            sql_text(video_id),
            sql_text(source),
            sql_text(mode.as_str()),
            sql_text_or_null(title),
            sql_text(file_path),
            SqlValue::Integer(now),
        ],
    };
    let clear = Statement {
        sql: CLEAR_FAILURE.to_owned(),
        params: vec![sql_text(video_id), sql_text(mode.as_str())],
    };
    assert(put@.params =~= seq![
        text(video_id@),
        text(source@),
        text(mode.name()),
        text_or_null(opt_str(title)),
        text(file_path@),
        integer(now),
    ]);
    assert(clear@.params =~= seq![text(video_id@), text(mode.name())]);
    (put, clear)
}

/// Keeps a failure of an item.
pub fn record_failure(
    video_id: &str,
    source: &str,
    mode: ItemMode,
    err: &str,
    now: i64,
) -> (r: Statement)
    ensures
        r@ == (StatementView {
            sql: PUT_FAILURE@,
            params: seq![
                text(video_id@),
                text(source@),
                text(mode.name()),
                text(err@),
                integer(now),
            ],
        }),
{
    let r = Statement {
        sql: PUT_FAILURE.to_owned(),
        params: vec![
            sql_text(video_id),
            sql_text(source),
            sql_text(mode.as_str()),
            sql_text(err),
            SqlValue::Integer(now),
        ],
    };
    assert(r@.params =~= seq![
        text(video_id@),
        text(source@),
        text(mode.name()),
        text(err@),
        integer(now),
    ]);
    r
}

/// The time that lies some days before another.
pub open spec fn prune_cutoff(days: u32, now: i64) -> i64 {
    (now - days * DAY_SECS) as i64
}

/// Forgets the failures whose last attempt is more than some days old.
pub fn prune_failures(days: u32, now: i64) -> (r: Statement)
    requires
        now - days * DAY_SECS >= i64::MIN,
    ensures
        r@ == (StatementView {
            sql: PRUNE_FAILURES@,
            params: seq![integer(prune_cutoff(days, now))],
        }),
{
    let span: i64 = days as i64 * DAY_SECS as i64;
    let cutoff: i64 = now - span;
    let r = Statement {
        sql: PRUNE_FAILURES.to_owned(),
        params: vec![SqlValue::Integer(cutoff)],
    };
    assert(r@.params =~= seq![integer(cutoff)]);
    r
}

/// Begins a run.
pub fn start_run(now: i64) -> (r: Statement)
    ensures
        r@ == (StatementView { sql: PUT_RUN@, params: seq![integer(now)] }),
{
    let r = Statement { sql: PUT_RUN.to_owned(), params: vec![SqlValue::Integer(now)] };
    assert(r@.params =~= seq![integer(now)]);
    r
}

/// Ends a run with what it came to.
pub fn finish_run(
    run_id: i64,
    ok: u64,
    fail: u64,
    notes: Option<&str>,
    cookies_suspicious: bool,
    now: i64,
) -> (r: Statement)
    ensures
        r@ == (StatementView {
            sql: END_RUN@,
            params: seq![
                integer(now),
                integer(ok as i64),
                integer(fail as i64),
                text_or_null(opt_str(notes)),
                integer(
                    if cookies_suspicious {
                        1
                    } else {
                        0
                    },
                ),
                integer(run_id),
            ],
        }),
{
    let flag: i64 = if cookies_suspicious {
        1
    } else {
        0
    };
    let r = Statement {
        sql: END_RUN.to_owned(),
        params: vec![
            SqlValue::Integer(now),
            SqlValue::Integer(ok as i64),
            SqlValue::Integer(fail as i64),
            sql_text_or_null(notes),
            SqlValue::Integer(flag),
            SqlValue::Integer(run_id),
        ],
    };
    assert(r@.params =~= seq![
        integer(now),
        integer(ok as i64),
        integer(fail as i64),
        text_or_null(opt_str(notes)),
        integer(flag),
        integer(run_id),
    ]);
    r
}

/// What is kept of a run.
#[derive(Debug)]
pub struct RunSummary {
    pub id: i64,
    pub started_at: i64,
    pub finished_at: Option<i64>,
    pub ok_count: i64,
    pub fail_count: i64,
    pub notes: Option<String>,
    pub cookies_suspicious: bool,
}

/// The characters of a `RunSummary`.
pub struct RunSummaryView {
    pub id: i64,
    pub started_at: i64,
    pub finished_at: Option<i64>,
    pub ok_count: i64,
    pub fail_count: i64,
    pub notes: Option<Seq<char>>,
    pub cookies_suspicious: bool,
}

impl View for RunSummary {
    type V = RunSummaryView;

    open spec fn view(&self) -> RunSummaryView {
        RunSummaryView {
            id: self.id,
            started_at: self.started_at,
            finished_at: self.finished_at,
            ok_count: self.ok_count,
            fail_count: self.fail_count,
            notes: opt_text(self.notes),
            cookies_suspicious: self.cookies_suspicious,
        }
    }
}

/// The columns of the last run, in the order in which they are asked for.
pub struct RunRow {
    pub id: i64,
    pub started_at: i64,
    pub finished_at: Option<i64>,
    pub ok_count: i64,
    pub fail_count: i64,
    pub notes: Option<String>,
    pub cookies_suspicious: i64,
}

/// The last run, given its row. Any number but zero marks the cookies.
pub fn last_run_summary(row: Option<RunRow>) -> (r: Option<RunSummary>)
    ensures
        match (row, r) {
            (Some(w), Some(s)) => s@ == (RunSummaryView {
                id: w.id,
                started_at: w.started_at,
                finished_at: w.finished_at,
                ok_count: w.ok_count,
                fail_count: w.fail_count,
                notes: opt_text(w.notes),
                cookies_suspicious: w.cookies_suspicious != 0,
            }),
            (None, None) => true,
            _ => false,
        },
{
    match row {
        Some(w) => Some(
            RunSummary {
                id: w.id,
                started_at: w.started_at,
                finished_at: w.finished_at,
                ok_count: w.ok_count,
                fail_count: w.fail_count,
                notes: w.notes,
                cookies_suspicious: w.cookies_suspicious != 0,
            },
        ),
        None => None,
    }
}

/// The two modes are written differently, and as they are called.
pub proof fn law_modes_are_told_apart()
    ensures
        ItemMode::Audio.name() == "audio"@,
        ItemMode::Video.name() == "video"@,
        ItemMode::Audio.name() != ItemMode::Video.name(),
{
    reveal_strlit("audio");
    reveal_strlit("video");
    assert("audio"@[0] != "video"@[0]);
}

/// What was last tried just so many days ago is kept, and what was tried a second earlier is
/// forgotten.
pub proof fn law_failures_are_kept_for_days(days: u32, now: i64)
    requires
        now - days * 86_400 >= i64::MIN,
    ensures
        prune_cutoff(days, now) + days * 86_400 == now,
{
}

} // verus!

//! The statements, run against a database in memory.

use rusqlite::types::Value;
use rusqlite::{params_from_iter, Connection};
use ytsync_pi::db::{
    counts_as_done, finish_run, is_done, last_run_summary, mark_done, needs_cookies_column,
    now_epoch, pragmas, prune_failures, record_failure, start_run, ItemMode, RunRow, SqlValue,
    Statement, ADD_COOKIES_COLUMN, COUNT_FAILURES, HAS_COOKIES_COLUMN, LAST_COOKIES_WARNING_RUN,
    LAST_RUN, SCHEMA,
};

fn value(v: &SqlValue) -> Value {
    match v {
        SqlValue::Null => Value::Null,
        SqlValue::Integer(i) => Value::Integer(*i),
        SqlValue::Text(s) => Value::Text(s.clone()),
    }
}

fn execute(conn: &Connection, s: &Statement) -> usize {
    conn.execute(&s.sql, params_from_iter(s.params.iter().map(value))).unwrap()
}

fn number(conn: &Connection, sql: &str, params: &[SqlValue]) -> i64 {
    conn.query_row(sql, params_from_iter(params.iter().map(value)), |r| r.get(0)).unwrap()
}

fn open() -> Connection {
    let conn = Connection::open_in_memory().unwrap();
    migrate(&conn);
    conn
}

fn migrate(conn: &Connection) {
    conn.execute_batch(SCHEMA).unwrap();
    if needs_cookies_column(number(conn, HAS_COOKIES_COLUMN, &[])) {
        conn.execute(ADD_COOKIES_COLUMN, []).unwrap();
    }
}

fn done(conn: &Connection, id: &str, mode: ItemMode) -> bool {
    let s = is_done(id, mode);
    counts_as_done(number(conn, &s.sql, &s.params))
}

#[test]
fn migration_can_be_repeated() {
    let conn = open();
    assert!(!needs_cookies_column(number(&conn, HAS_COOKIES_COLUMN, &[])));
    migrate(&conn);
    assert_eq!(number(&conn, HAS_COOKIES_COLUMN, &[]), 1);
}

#[test]
fn settings_of_a_connection() {
    assert_eq!(
        pragmas(),
        vec![("journal_mode", "WAL"), ("synchronous", "NORMAL"), ("foreign_keys", "ON")]
    );
}

#[test]
fn what_was_marked_is_done() {
    let conn = open();
    assert!(!done(&conn, "abc", ItemMode::Audio));
    let (put, clear) = mark_done("abc", "likes", ItemMode::Audio, Some("T"), "/a/T.mp3", 5);
    execute(&conn, &put);
    execute(&conn, &clear);
    assert!(done(&conn, "abc", ItemMode::Audio));
    assert!(!done(&conn, "abc", ItemMode::Video));
    assert!(!done(&conn, "abd", ItemMode::Audio));
    let (put, _) = mark_done("abc", "likes", ItemMode::Audio, None, "(archive-hit)", 6);
    execute(&conn, &put);
    assert_eq!(number(&conn, "SELECT COUNT(*) FROM items", &[]), 1);
    let row: (Option<String>, String, i64) = conn
        .query_row("SELECT title, file_path, downloaded_at FROM items", [], |r| {
            Ok((r.get(0)?, r.get(1)?, r.get(2)?))
        })
        .unwrap();
    assert_eq!(row, (None, "(archive-hit)".to_string(), 6));
}

#[test]
fn failures_are_counted_until_done() {
    let conn = open();
    execute(&conn, &record_failure("abc", "likes", ItemMode::Video, "first", 1));
    execute(&conn, &record_failure("abc", "other", ItemMode::Video, "second", 2));
    execute(&conn, &record_failure("abc", "likes", ItemMode::Audio, "x", 3));
    assert_eq!(number(&conn, COUNT_FAILURES, &[]), 2);
    let row: (String, String, i64, i64) = conn
        .query_row(
            "SELECT source_name, last_error, attempts, last_attempt_at FROM failures WHERE mode = 'video'",
            [],
            |r| Ok((r.get(0)?, r.get(1)?, r.get(2)?, r.get(3)?)),
        )
        .unwrap();
    assert_eq!(row, ("other".to_string(), "second".to_string(), 2, 2));
    let (put, clear) = mark_done("abc", "likes", ItemMode::Video, None, "p", 4);
    execute(&conn, &put);
    execute(&conn, &clear);
    assert_eq!(number(&conn, COUNT_FAILURES, &[]), 1);
}

#[test]
fn old_failures_are_forgotten() {
    let conn = open();
    let now = 100 * 86_400;
    execute(&conn, &record_failure("old", "s", ItemMode::Audio, "e", 10 * 86_400 - 1));
    execute(&conn, &record_failure("new", "s", ItemMode::Audio, "e", 10 * 86_400));
    assert_eq!(execute(&conn, &prune_failures(90, now)), 1);
    assert_eq!(number(&conn, COUNT_FAILURES, &[]), 1);
}

#[test]
fn runs_are_kept() {
    let conn = open();
    execute(&conn, &start_run(10));
    let id = conn.last_insert_rowid();
    execute(&conn, &finish_run(id, 3, 1, Some("notes"), true, 20));
    execute(&conn, &start_run(30));
    let second = conn.last_insert_rowid();
    execute(&conn, &finish_run(second, 0, 0, None, false, 40));
    let row = conn
        .query_row(LAST_RUN, [], |r| {
            Ok(RunRow {
                id: r.get(0)?,
                started_at: r.get(1)?,
                finished_at: r.get(2)?,
                ok_count: r.get(3)?,
                fail_count: r.get(4)?,
                notes: r.get(5)?,
                cookies_suspicious: r.get(6)?,
            })
        })
        .unwrap();
    let s = last_run_summary(Some(row)).unwrap();
    assert_eq!((s.id, s.started_at, s.finished_at), (second, 30, Some(40)));
    assert_eq!((s.ok_count, s.fail_count, s.notes, s.cookies_suspicious), (0, 0, None, false));
    assert_eq!(number(&conn, LAST_COOKIES_WARNING_RUN, &[]), id);
    assert!(last_run_summary(None).is_none());
}

#[test]
fn any_mark_but_zero_is_suspicious() {
    for (flag, suspicious) in [(0, false), (1, true), (-1, true)] {
        let row = RunRow {
            id: 1,
            started_at: 2,
            finished_at: None,
            ok_count: 3,
            fail_count: 4,
            notes: Some("n".to_string()),
            cookies_suspicious: flag,
        };
        let s = last_run_summary(Some(row)).unwrap();
        assert_eq!(s.cookies_suspicious, suspicious);
        assert_eq!(s.notes.as_deref(), Some("n"));
    }
}

#[test]
fn large_counts_wrap() {
    let s = finish_run(1, u64::MAX, 1 << 63, None, false, 0);
    assert!(matches!(s.params[1], SqlValue::Integer(-1)));
    assert!(matches!(s.params[2], SqlValue::Integer(i64::MIN)));
}

#[test]
fn clock_before_the_epoch_stands_at_it() {
    assert_eq!(now_epoch(None), 0);
    assert_eq!(now_epoch(Some(1_700_000_000)), 1_700_000_000);
    assert_eq!(ItemMode::Audio.as_str(), "audio");
    assert_eq!(ItemMode::Video.as_str(), "video");
}

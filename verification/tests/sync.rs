//! Whole cycles, step by step.

use ytsync_pi::config::{Config, Source, SourceMode, YtDlpConfig};
use ytsync_pi::sync::{run_sync, Action, DoneCheck, Event, SyncMachine, TagKind};
use ytsync_pi::ytdlp::{DownloadResult, PlaylistEntry, YtDlpError};

fn source(name: &str, mode: SourceMode) -> Source {
    Source {
        name: name.to_string(),
        url: format!("https://example.org/{name}"),
        mode,
        quality: Some("720p".to_string()),
    }
}

fn config(retries: u32, sources: Vec<Source>) -> Config {
    Config {
        cookies_path: "/c".to_string(),
        output_audio_dir: "/nas/audio".to_string(),
        output_video_dir: "/nas/video".to_string(),
        db_path: "/var/state.db".to_string(),
        lock_path: "/l".to_string(),
        bitrate: String::new(),
        rate_limit: String::new(),
        retries,
        retry_backoff_sec: 30,
        sleep_interval_sec: 0,
        max_sleep_interval_sec: 0,
        per_item_timeout_sec: 100,
        min_free_disk_gb: 0,
        ntfy: None,
        musicbrainz: None,
        yt_dlp: YtDlpConfig::default(),
        sources,
    }
}

fn entry(id: &str) -> PlaylistEntry {
    PlaylistEntry { id: id.to_string(), title: String::new() }
}

fn error(stderr: &str, extractor: bool, auth: bool) -> YtDlpError {
    YtDlpError {
        message: "failed".to_string(),
        stderr: stderr.to_string(),
        exit_code: Some(1),
        looks_like_extractor: extractor,
        looks_like_auth: auth,
        timed_out: false,
    }
}

fn file(path: &str) -> Event {
    Event::Downloaded(Ok(Some(DownloadResult {
        file_path: path.to_string(),
        title: "T".to_string(),
    })))
}

fn go() -> Event {
    Event::AttemptChecked { shutdown: false, elapsed_secs: 0 }
}

/// A short name for what is to be done next.
fn next(m: &SyncMachine) -> String {
    match m.next_action() {
        Action::PollShutdown => "poll".to_string(),
        Action::ListPlaylist { source, url } => format!("list {source} {url}"),
        Action::UpdateYtDlp => "update".to_string(),
        Action::CheckDone { video_id, mode } => format!("done? {video_id} {mode:?}"),
        Action::CheckAttempt { attempt } => format!("attempt {attempt}"),
        Action::Download { video_id, mode, dest_dir, archive, quality } => {
            format!("download {video_id} {mode:?} {dest_dir} {archive} {quality:?}")
        }
        Action::Sleep { secs } => format!("sleep {secs}"),
        Action::MarkDone { video_id, source, mode, title, file_path } => {
            format!("mark {video_id} {source} {mode:?} {title:?} {file_path}")
        }
        Action::Tag { file_path } => format!("tag {file_path}"),
        Action::RecordFailure { video_id, source, mode, error } => {
            format!("fail {video_id} {source} {mode:?} [{}] [{}]", error.display, error.full)
        }
        Action::Finish => "finish".to_string(),
    }
}

/// Hands the machine events, each after what it is expected to ask for.
fn play(m: &mut SyncMachine, steps: Vec<(&str, Event)>) {
    for (expected, event) in steps {
        assert_eq!(next(m), expected);
        assert!(m.has_room());
        m.advance(event);
    }
}

#[test]
fn new_items_are_downloaded_recorded_and_tagged() {
    let cfg = config(0, vec![source("likes", SourceMode::Audio)]);
    let mut m = run_sync(&cfg, true).ok().unwrap();
    play(
        &mut m,
        vec![
            ("poll", Event::ShutdownPolled(false)),
            (
                "list likes https://example.org/likes",
                Event::Listed(Ok(vec![entry("a"), entry("b"), entry("c"), entry("d")])),
            ),
            ("done? a Audio", Event::DoneChecked(DoneCheck::Done)),
            ("done? b Audio", Event::DoneChecked(DoneCheck::New)),
            ("done? c Audio", Event::DoneChecked(DoneCheck::Unknown)),
            ("done? d Audio", Event::DoneChecked(DoneCheck::New)),
            ("poll", Event::ShutdownPolled(false)),
            ("attempt 1", go()),
            (
                "download b Audio /nas/audio /var/ytdlp-archive.txt Some(\"720p\")",
                file("/nas/audio/b.mp3"),
            ),
            ("mark b likes Audio Some(\"T\") /nas/audio/b.mp3", Event::Saved),
            ("tag /nas/audio/b.mp3", Event::Tagged(TagKind::Enriched)),
            ("poll", Event::ShutdownPolled(false)),
            ("attempt 1", go()),
            (
                "download d Audio /nas/audio /var/ytdlp-archive.txt Some(\"720p\")",
                Event::Downloaded(Ok(None)),
            ),
            ("mark d likes Audio None (archive-hit)", Event::Saved),
        ],
    );
    assert_eq!(next(&m), "finish");
    let s = m.stats();
    assert_eq!((s.ok, s.failed, s.tagged, s.tag_no_match, s.tag_skipped), (2, 0, 1, 0, 0));
    assert_eq!(s.skipped_sources, 0);
    assert!(!s.cookies_suspicious);
}

#[test]
fn videos_are_not_tagged() {
    let cfg = config(0, vec![source("v", SourceMode::Video)]);
    let mut m = run_sync(&cfg, true).ok().unwrap();
    play(
        &mut m,
        vec![
            ("poll", Event::ShutdownPolled(false)),
            ("list v https://example.org/v", Event::Listed(Ok(vec![entry("a")]))),
            ("done? a Video", Event::DoneChecked(DoneCheck::New)),
            ("poll", Event::ShutdownPolled(false)),
            ("attempt 1", go()),
            ("download a Video /nas/video /var/ytdlp-archive.txt Some(\"720p\")", file("/nas/video/a.mkv")),
            ("mark a v Video Some(\"T\") /nas/video/a.mkv", Event::Saved),
        ],
    );
    assert_eq!(next(&m), "finish");
}

#[test]
fn tag_outcomes_are_counted() {
    for (kind, expected) in [
        (TagKind::Enriched, (1, 0, 0)),
        (TagKind::NoMatch, (0, 1, 0)),
        (TagKind::Skipped, (0, 0, 1)),
    ] {
        let cfg = config(0, vec![source("s", SourceMode::Audio)]);
        let mut m = run_sync(&cfg, true).ok().unwrap();
        m.advance(Event::ShutdownPolled(false));
        m.advance(Event::Listed(Ok(vec![entry("a")])));
        m.advance(Event::DoneChecked(DoneCheck::New));
        m.advance(Event::ShutdownPolled(false));
        m.advance(go());
        m.advance(file("/x"));
        m.advance(Event::Saved);
        m.advance(Event::Tagged(kind));
        let s = m.stats();
        assert_eq!((s.tagged, s.tag_no_match, s.tag_skipped), expected);
        assert_eq!(s.ok, 1);
    }
}

#[test]
fn failed_item_is_retried_after_a_pause_and_given_up() {
    let cfg = config(1, vec![source("s", SourceMode::Video)]);
    let mut m = run_sync(&cfg, false).ok().unwrap();
    let long = "x".repeat(400);
    play(
        &mut m,
        vec![
            ("poll", Event::ShutdownPolled(false)),
            ("list s https://example.org/s", Event::Listed(Ok(vec![entry("a")]))),
            ("done? a Video", Event::DoneChecked(DoneCheck::New)),
            ("poll", Event::ShutdownPolled(false)),
            ("attempt 1", go()),
            (
                "download a Video /nas/video /var/ytdlp-archive.txt Some(\"720p\")",
                Event::Downloaded(Err(error(" first \n", false, false))),
            ),
            ("sleep 30", Event::Slept),
            ("attempt 2", go()),
            (
                "download a Video /nas/video /var/ytdlp-archive.txt Some(\"720p\")",
                Event::Downloaded(Err(error(&long, false, true))),
            ),
        ],
    );
    assert_eq!(
        next(&m),
        format!(
            "fail a s Video [attempt 2/2: failed (stderr: {})] [attempt 2/2: failed\n--- stderr ---\n{}]",
            "x".repeat(300),
            long
        )
    );
    m.advance(Event::Recorded);
    assert_eq!(next(&m), "finish");
    assert_eq!((m.stats().ok, m.stats().failed), (0, 1));
    assert!(m.stats().cookies_suspicious);
}

#[test]
fn extractor_failure_forces_one_update() {
    let cfg = config(2, vec![source("s", SourceMode::Video), source("t", SourceMode::Video)]);
    let mut m = run_sync(&cfg, false).ok().unwrap();
    let d = "download a Video /nas/video /var/ytdlp-archive.txt Some(\"720p\")";
    play(
        &mut m,
        vec![
            ("poll", Event::ShutdownPolled(false)),
            ("list s https://example.org/s", Event::Listed(Ok(vec![entry("a")]))),
            ("done? a Video", Event::DoneChecked(DoneCheck::New)),
            ("poll", Event::ShutdownPolled(false)),
            ("attempt 1", go()),
            (d, Event::Downloaded(Err(error("e", true, false)))),
            ("update", Event::Updated),
            ("attempt 2", go()),
            (d, Event::Downloaded(Err(error("e", true, false)))),
            ("sleep 30", Event::Slept),
            ("attempt 3", go()),
            (d, Event::Downloaded(Err(error("e", true, false)))),
            (
                "fail a s Video [attempt 3/3: failed (stderr: e)] [attempt 3/3: failed\n--- stderr ---\ne]",
                Event::Recorded,
            ),
            ("poll", Event::ShutdownPolled(false)),
            ("list t https://example.org/t", Event::Listed(Err(error("e", true, false)))),
        ],
    );
    assert_eq!(next(&m), "finish");
    assert_eq!(m.stats().failed, 2);
}

#[test]
fn listing_is_repeated_after_an_update() {
    let cfg = config(0, vec![source("s", SourceMode::Audio), source("t", SourceMode::Audio)]);
    let mut m = run_sync(&cfg, false).ok().unwrap();
    play(
        &mut m,
        vec![
            ("poll", Event::ShutdownPolled(false)),
            ("list s https://example.org/s", Event::Listed(Err(error("e", true, false)))),
            ("update", Event::Updated),
            ("list s https://example.org/s", Event::Listed(Err(error("e", true, true)))),
            ("poll", Event::ShutdownPolled(false)),
            ("list t https://example.org/t", Event::Listed(Ok(vec![]))),
        ],
    );
    assert_eq!(next(&m), "finish");
    assert_eq!(m.stats().failed, 1);
    assert!(m.stats().cookies_suspicious);
}

#[test]
fn every_refusal_is_noted() {
    let cfg = config(0, vec![source("s", SourceMode::Audio)]);
    let mut first = run_sync(&cfg, false).ok().unwrap();
    first.advance(Event::ShutdownPolled(false));
    first.advance(Event::Listed(Err(error("e", true, true))));
    assert!(first.stats().cookies_suspicious);
    let mut download = run_sync(&cfg, false).ok().unwrap();
    download.advance(Event::ShutdownPolled(false));
    download.advance(Event::Listed(Ok(vec![entry("a")])));
    download.advance(Event::DoneChecked(DoneCheck::New));
    download.advance(Event::ShutdownPolled(false));
    download.advance(go());
    assert!(!download.stats().cookies_suspicious);
    download.advance(Event::Downloaded(Err(error("e", false, true))));
    assert!(download.stats().cookies_suspicious);
}

#[test]
fn update_on_the_last_attempt_leaves_none() {
    let cfg = config(0, vec![source("s", SourceMode::Audio)]);
    let mut m = run_sync(&cfg, false).ok().unwrap();
    m.advance(Event::ShutdownPolled(false));
    m.advance(Event::Listed(Ok(vec![entry("a")])));
    m.advance(Event::DoneChecked(DoneCheck::New));
    m.advance(Event::ShutdownPolled(false));
    m.advance(go());
    m.advance(Event::Downloaded(Err(error("e", true, false))));
    assert_eq!(next(&m), "update");
    m.advance(Event::Updated);
    assert!(next(&m).starts_with("fail a s Audio"));
}

#[test]
fn updates_can_be_switched_off() {
    let mut cfg = config(0, vec![source("s", SourceMode::Audio)]);
    cfg.yt_dlp.update_on_extract_error = false;
    let mut m = run_sync(&cfg, false).ok().unwrap();
    m.advance(Event::ShutdownPolled(false));
    m.advance(Event::Listed(Err(error("e", true, true))));
    assert_eq!(next(&m), "finish");
    assert!(m.stats().cookies_suspicious);
}

#[test]
fn time_of_an_item_is_bounded() {
    let cfg = config(3, vec![source("s", SourceMode::Audio)]);
    let mut m = run_sync(&cfg, false).ok().unwrap();
    m.advance(Event::ShutdownPolled(false));
    m.advance(Event::Listed(Ok(vec![entry("a")])));
    m.advance(Event::DoneChecked(DoneCheck::New));
    m.advance(Event::ShutdownPolled(false));
    m.advance(Event::AttemptChecked { shutdown: false, elapsed_secs: 99 });
    m.advance(Event::Downloaded(Err(error("slow", false, false))));
    m.advance(Event::Slept);
    m.advance(Event::AttemptChecked { shutdown: false, elapsed_secs: 100 });
    assert_eq!(
        next(&m),
        "fail a s Audio [item budget of 100s exhausted before attempt 2] [attempt 1/4: failed\n--- stderr ---\nslow]"
    );
}

#[test]
fn shutdown_before_an_attempt_gives_the_item_up() {
    let cfg = config(3, vec![source("s", SourceMode::Audio)]);
    let mut m = run_sync(&cfg, false).ok().unwrap();
    m.advance(Event::ShutdownPolled(false));
    m.advance(Event::Listed(Ok(vec![entry("a"), entry("b")])));
    m.advance(Event::DoneChecked(DoneCheck::New));
    m.advance(Event::DoneChecked(DoneCheck::New));
    m.advance(Event::ShutdownPolled(false));
    m.advance(Event::AttemptChecked { shutdown: true, elapsed_secs: 500 });
    assert_eq!(
        next(&m),
        "fail a s Audio [attempt 1/4: shutdown requested] [shutdown requested before attempt]"
    );
    m.advance(Event::Recorded);
    assert_eq!(next(&m), "poll");
    m.advance(Event::ShutdownPolled(true));
    assert_eq!(next(&m), "finish");
    assert_eq!((m.stats().ok, m.stats().failed), (0, 1));
}

#[test]
fn shutdown_between_items_stops_every_source() {
    let cfg = config(0, vec![source("s", SourceMode::Audio), source("t", SourceMode::Audio)]);
    let mut m = run_sync(&cfg, false).ok().unwrap();
    m.advance(Event::ShutdownPolled(false));
    m.advance(Event::Listed(Ok(vec![entry("a")])));
    m.advance(Event::DoneChecked(DoneCheck::New));
    m.advance(Event::ShutdownPolled(true));
    assert_eq!(next(&m), "poll");
    m.advance(Event::ShutdownPolled(true));
    assert_eq!(next(&m), "finish");
    assert_eq!((m.stats().ok, m.stats().failed), (0, 0));
}

#[test]
fn sources_are_listed_in_their_order() {
    let cfg = config(
        0,
        vec![
            source("a", SourceMode::Audio),
            source("b", SourceMode::Video),
            source("c", SourceMode::Audio),
        ],
    );
    let mut m = run_sync(&cfg, false).ok().unwrap();
    play(
        &mut m,
        vec![
            ("poll", Event::ShutdownPolled(false)),
            ("list a https://example.org/a", Event::Listed(Ok(vec![]))),
            ("poll", Event::ShutdownPolled(false)),
            ("list b https://example.org/b", Event::Listed(Err(error("e", false, false)))),
            ("poll", Event::ShutdownPolled(false)),
            ("list c https://example.org/c", Event::Listed(Ok(vec![]))),
        ],
    );
    assert_eq!(next(&m), "finish");
}

#[test]
fn retries_do_not_overflow() {
    let cfg = config(u32::MAX, vec![source("s", SourceMode::Audio)]);
    let mut m = run_sync(&cfg, false).ok().unwrap();
    m.advance(Event::ShutdownPolled(false));
    m.advance(Event::Listed(Ok(vec![entry("a")])));
    m.advance(Event::DoneChecked(DoneCheck::New));
    m.advance(Event::ShutdownPolled(false));
    m.advance(Event::AttemptChecked { shutdown: true, elapsed_secs: 0 });
    assert!(next(&m).contains("attempt 1/4294967295: shutdown requested"));
}

#[test]
fn database_without_a_directory_ends_the_cycle() {
    let mut cfg = config(0, vec![source("s", SourceMode::Audio)]);
    cfg.db_path = "/".to_string();
    let stats = run_sync(&cfg, false).err().unwrap();
    assert_eq!((stats.ok, stats.failed), (0, 1));
}

#[test]
fn event_out_of_place_changes_nothing() {
    let cfg = config(0, vec![source("s", SourceMode::Audio)]);
    let mut m = run_sync(&cfg, false).ok().unwrap();
    m.advance(Event::Slept);
    m.advance(file("/x"));
    assert_eq!(next(&m), "poll");
    m.advance(Event::ShutdownPolled(true));
    m.advance(Event::ShutdownPolled(false));
    assert_eq!(next(&m), "finish");
    assert_eq!(m.stats().ok, 0);
}

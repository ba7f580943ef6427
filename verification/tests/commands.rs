//! What the commands decide and print.

use ytsync_pi::commands::{
    cmd_status, cmd_test_cookies, cmd_update_ytdlp, cookies_not_found, hostname, FileFact,
    RunAction, RunCommand, RunEvent, StatusFacts,
};
use ytsync_pi::config::{Config, NtfyConfig, Source, SourceMode, YtDlpConfig};
use ytsync_pi::db::RunSummary;
use ytsync_pi::ntfy::Notifier;
use ytsync_pi::sync::SyncStats;
use ytsync_pi::ytdlp::{spawn_error, PlaylistEntry, YtDlpError};
use ytsync_pi::ytdlp_updater::UpdateOutcome;

fn config() -> Config {
    Config {
        cookies_path: "/c".to_string(),
        output_audio_dir: "/a".to_string(),
        output_video_dir: "/v".to_string(),
        db_path: "/d".to_string(),
        lock_path: "/l".to_string(),
        bitrate: String::new(),
        rate_limit: String::new(),
        retries: 0,
        retry_backoff_sec: 0,
        sleep_interval_sec: 0,
        max_sleep_interval_sec: 0,
        per_item_timeout_sec: 0,
        min_free_disk_gb: 0,
        ntfy: None,
        musicbrainz: None,
        yt_dlp: YtDlpConfig { binary_path: "/yt".to_string(), ..YtDlpConfig::default() },
        sources: vec![Source {
            name: "n".to_string(),
            url: "u".to_string(),
            mode: SourceMode::Audio,
            quality: None,
        }],
    }
}

fn ntfy(enabled: bool) -> NtfyConfig {
    NtfyConfig {
        server: "https://ntfy.sh".to_string(),
        topic: "pi".to_string(),
        enabled,
        token: None,
    }
}

#[test]
fn host_has_a_name() {
    assert_eq!(hostname(Some("pi".to_string()), Some("other".to_string())), "pi");
    assert_eq!(hostname(Some(String::new()), Some(" pi4\n".to_string())), "pi4");
    assert_eq!(hostname(None, Some(" \n".to_string())), "unknown-host");
    assert_eq!(hostname(None, None), "unknown-host");
    assert_eq!(hostname(Some(" ".to_string()), None), " ");
}

fn stats(failed: u64) -> SyncStats {
    SyncStats {
        ok: 2,
        failed,
        skipped_sources: 0,
        tagged: 1,
        tag_no_match: 1,
        tag_skipped: 0,
        cookies_suspicious: false,
    }
}

/// Leads the command up to the check for yt-dlp.
fn up_to_check(c: &mut RunCommand, n: &Option<Notifier>) {
    assert!(matches!(c.next_action(n, "h"), RunAction::AcquireLock));
    c.advance(RunEvent::Locked(true));
    assert!(matches!(c.next_action(n, "h"), RunAction::Preflight));
    c.advance(RunEvent::Passed);
    assert!(matches!(c.next_action(n, "h"), RunAction::OpenDb));
    c.advance(RunEvent::Passed);
    assert!(matches!(c.next_action(n, "h"), RunAction::StartRun));
    c.advance(RunEvent::Started(42));
    assert!(matches!(c.next_action(n, "h"), RunAction::InstallSignals));
    c.advance(RunEvent::Passed);
    assert!(matches!(c.next_action(n, "h"), RunAction::CheckYtDlp));
}

#[test]
fn whole_run() {
    let n = Notifier::from_config(Some(ntfy(true)));
    let mut c = RunCommand::cmd_run();
    up_to_check(&mut c, &n);
    c.advance(RunEvent::YtDlpChecked(Ok(())));
    assert!(matches!(c.next_action(&n, "h"), RunAction::RefreshYtDlp));
    c.advance(RunEvent::Passed);
    assert!(matches!(c.next_action(&n, "h"), RunAction::ProbeVersion));
    c.advance(RunEvent::VersionProbed(Ok("2024".to_string())));
    assert!(matches!(c.next_action(&n, "h"), RunAction::PruneFailures { days: 90 }));
    c.advance(RunEvent::Passed);
    assert!(matches!(c.next_action(&n, "h"), RunAction::Sync));
    c.advance(RunEvent::Synced { stats: stats(1), aborted: true });
    match c.next_action(&n, "h") {
        RunAction::FinishRun { run_id, ok, fail, notes, cookies_suspicious } => {
            assert_eq!((run_id, ok, fail, cookies_suspicious), (42, 2, 1, false));
            assert_eq!(
                notes,
                "yt-dlp=2024; ok=2 fail=1 skipped_sources=0 tagged=1 tag_no_match=1 tag_skipped=0 cookies_suspicious=false aborted=true"
            );
        }
        _ => panic!("the run is to be finished"),
    }
    c.advance(RunEvent::Passed);
    match c.next_action(&n, "h") {
        RunAction::Alert(v) => {
            assert_eq!(v.len(), 1);
            assert!(v[0].body.starts_with("ytsync-pi run #42 on h finished with failures."));
        }
        _ => panic!("an alert is due"),
    }
    c.advance(RunEvent::Passed);
    assert!(matches!(c.next_action(&n, "h"), RunAction::Exit(0)));
}

#[test]
fn run_without_yt_dlp_is_finished_and_alerted_of() {
    let n = Notifier::from_config(Some(ntfy(true)));
    let mut c = RunCommand::cmd_run();
    up_to_check(&mut c, &n);
    c.advance(RunEvent::YtDlpChecked(Err("gone".to_string())));
    match c.next_action(&n, "h") {
        RunAction::FinishRun { run_id, ok, fail, notes, cookies_suspicious } => {
            assert_eq!((run_id, ok, fail, cookies_suspicious), (42, 0, 0, false));
            assert_eq!(notes, "yt-dlp not installed: gone");
        }
        _ => panic!("the run is to be finished"),
    }
    c.advance(RunEvent::Passed);
    match c.next_action(&n, "h") {
        RunAction::Alert(v) => {
            assert_eq!(v.len(), 1);
            assert!(v[0].body.ends_with("yt-dlp=<not installed>"));
            assert_eq!(v[0].headers[0].1, "ytsync-pi: 1 failure(s)");
        }
        _ => panic!("an alert is due"),
    }
    c.advance(RunEvent::Passed);
    match c.next_action(&n, "h") {
        RunAction::FailWith(m) => assert_eq!(m, "gone"),
        _ => panic!("the command fails"),
    }
}

#[test]
fn unknown_version_is_noted() {
    let mut c = RunCommand::cmd_run();
    up_to_check(&mut c, &None);
    c.advance(RunEvent::YtDlpChecked(Ok(())));
    c.advance(RunEvent::Passed);
    c.advance(RunEvent::VersionProbed(Err("why".to_string())));
    c.advance(RunEvent::Passed);
    c.advance(RunEvent::Synced { stats: stats(0), aborted: false });
    match c.next_action(&None, "h") {
        RunAction::FinishRun { notes, .. } => {
            assert!(notes.starts_with("yt-dlp=<version probe failed: why>; ok=2"));
        }
        _ => panic!("the run is to be finished"),
    }
    c.advance(RunEvent::Passed);
    assert!(matches!(c.next_action(&None, "h"), RunAction::Alert(v) if v.is_empty()));
}

#[test]
fn busy_lock_ends_the_program() {
    let mut c = RunCommand::cmd_run();
    c.advance(RunEvent::Locked(false));
    assert!(matches!(c.next_action(&None, "h"), RunAction::Exit(2)));
    c.advance(RunEvent::Locked(true));
    assert!(matches!(c.next_action(&None, "h"), RunAction::Exit(2)));
}

#[test]
fn failed_step_ends_the_command() {
    let mut c = RunCommand::cmd_run();
    c.advance(RunEvent::Locked(true));
    c.advance(RunEvent::Broke);
    assert!(matches!(c.next_action(&None, "h"), RunAction::Fail));
    c.advance(RunEvent::Passed);
    assert!(matches!(c.next_action(&None, "h"), RunAction::Fail));
}

#[test]
fn status_of_a_fresh_installation() {
    let facts = StatusFacts {
        last_run: None,
        last_cookies_warning: None,
        open_failures: 0,
        cookies: FileFact::Missing,
        binary: FileFact::Missing,
    };
    assert_eq!(
        cmd_status(&config(), &facts),
        vec![
            "no runs recorded yet",
            "open failures:      0",
            "cookies file:       MISSING at /c",
            "yt-dlp binary:      MISSING at /yt",
            "ntfy alerts:        not configured"
        ]
    );
}

#[test]
fn status_after_a_run() {
    let mut cfg = config();
    cfg.ntfy = Some(ntfy(true));
    let facts = StatusFacts {
        last_run: Some(RunSummary {
            id: 7,
            started_at: 100,
            finished_at: Some(200),
            ok_count: 3,
            fail_count: 1,
            notes: Some("all well".to_string()),
            cookies_suspicious: true,
        }),
        last_cookies_warning: Some(7),
        open_failures: 2,
        cookies: FileFact::AgeSecs(2 * 86_400 + 1),
        binary: FileFact::AgeSecs(86_399),
    };
    assert_eq!(
        cmd_status(&cfg, &facts),
        vec![
            "last run id:        7",
            "  started_at:       100",
            "  finished_at:      Some(200)",
            "  ok / fail:        3 / 1",
            "  ⚠ cookies:         LIKELY EXPIRED — re-export from browser",
            "  notes:            all well",
            "last cookies warning at run #7",
            "open failures:      2",
            "cookies file:       /c (2 days old)",
            "yt-dlp binary:      /yt (0 days old)",
            "ntfy alerts:        enabled → https://ntfy.sh/pi"
        ]
    );
}

#[test]
fn status_of_an_interrupted_run() {
    let mut cfg = config();
    cfg.ntfy = Some(ntfy(false));
    let facts = StatusFacts {
        last_run: Some(RunSummary {
            id: 1,
            started_at: -5,
            finished_at: None,
            ok_count: 0,
            fail_count: 0,
            notes: None,
            cookies_suspicious: false,
        }),
        last_cookies_warning: None,
        open_failures: 0,
        cookies: FileFact::AgeUnknown,
        binary: FileFact::AgeUnknown,
    };
    assert_eq!(
        cmd_status(&cfg, &facts),
        vec![
            "last run id:        1",
            "  started_at:       -5",
            "  finished_at:      None",
            "  ok / fail:        0 / 0",
            "open failures:      0",
            "yt-dlp binary:      /yt",
            "ntfy alerts:        configured but disabled"
        ]
    );
}

#[test]
fn cookies_probe_reports() {
    let entry = PlaylistEntry { id: "abc".to_string(), title: "Song".to_string() };
    assert_eq!(
        cmd_test_cookies("my \"list\"", Ok(vec![entry])).unwrap(),
        vec![
            "cookies OK — listed 1 entries from \"my \\\"list\\\"\"",
            "  first entry: abc | Song"
        ]
    );
    assert_eq!(
        cmd_test_cookies("likes", Ok(vec![])).unwrap(),
        vec!["cookies OK — listed 0 entries from \"likes\""]
    );
    let e = YtDlpError { stderr: " refused \n".to_string(), ..spawn_error("x") };
    let message = e.message.clone();
    assert_eq!(
        cmd_test_cookies("likes", Err(e)).unwrap_err(),
        format!("cookies probe failed: {message}; stderr: refused")
    );
    assert_eq!(cookies_not_found(&config()), "cookies file not found at /c");
}

#[test]
fn update_reports_versions() {
    let ok = |v: Option<&str>| {
        UpdateOutcome::completed(String::new(), String::new(), v.map(|s| s.to_string()))
    };
    assert_eq!(
        cmd_update_ytdlp(Some("1".to_string()), &ok(Some("2"))).unwrap(),
        "yt-dlp: 1 -> 2"
    );
    assert_eq!(cmd_update_ytdlp(None, &ok(None)).unwrap(), "yt-dlp: <unknown> -> <unknown>");
    assert_eq!(
        cmd_update_ytdlp(None, &UpdateOutcome::failed(String::new(), " no net\n".to_string())).unwrap_err(),
        "yt-dlp update failed; stderr: no net"
    );
}

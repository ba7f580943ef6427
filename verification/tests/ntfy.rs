//! Alerts.

use ytsync_pi::config::NtfyConfig;
use ytsync_pi::ntfy::Notifier;
use ytsync_pi::sync::SyncStats;

fn config() -> NtfyConfig {
    NtfyConfig {
        server: "https://ntfy.sh//".to_string(),
        topic: "pi".to_string(),
        enabled: true,
        token: None,
    }
}

fn stats(failed: u64, cookies_suspicious: bool) -> SyncStats {
    SyncStats {
        ok: 4,
        failed,
        skipped_sources: 0,
        tagged: 3,
        tag_no_match: 1,
        tag_skipped: 0,
        cookies_suspicious,
    }
}

#[test]
fn notifier_needs_a_place() {
    assert!(Notifier::from_config(None).is_none());
    assert!(Notifier::from_config(Some(config())).is_some());
    let mut c = config();
    c.enabled = false;
    assert!(Notifier::from_config(Some(c)).is_none());
    let mut c = config();
    c.server = " ".to_string();
    assert!(Notifier::from_config(Some(c)).is_none());
    let mut c = config();
    c.topic = String::new();
    assert!(Notifier::from_config(Some(c)).is_none());
}

#[test]
fn good_run_is_silent() {
    let n = Notifier::from_config(Some(config())).unwrap();
    assert!(n.report_run(7, &stats(0, false), "v", "h").is_empty());
}

#[test]
fn failures_are_told() {
    let n = Notifier::from_config(Some(config())).unwrap();
    let r = n.report_run(7, &stats(2, false), "2024.1", "pi4");
    assert_eq!(r.len(), 1);
    assert_eq!(r[0].url, "https://ntfy.sh/pi");
    assert_eq!(
        r[0].body,
        "ytsync-pi run #7 on pi4 finished with failures.\nok=4 fail=2 skipped_sources=0\ntagged=3 tag_no_match=1 tag_skipped=0\nyt-dlp=2024.1"
    );
    let headers: Vec<(&str, &str)> = r[0].headers.iter().map(|h| (h.0.as_str(), h.1.as_str())).collect();
    assert_eq!(
        headers,
        vec![
            ("Title", "ytsync-pi: 2 failure(s)"),
            ("Priority", "3"),
            ("Tags", "x,film_strip"),
            ("Content-Type", "text/plain; charset=utf-8")
        ]
    );
}

#[test]
fn cookies_come_first() {
    let mut c = config();
    c.token = Some("tk".to_string());
    let n = Notifier::from_config(Some(c)).unwrap();
    let r = n.report_run(-1, &stats(1, true), "v", "h");
    assert_eq!(r.len(), 2);
    assert_eq!(
        r[0].body,
        "ytsync-pi run #-1 on h saw auth failures.\nCookies at the configured path are likely expired.\nRe-export from your browser and rerun.\nyt-dlp=v ok=4 fail=1"
    );
    assert_eq!(r[0].headers[0].1, "ytsync-pi: cookies likely expired");
    assert_eq!(r[0].headers[1].1, "4");
    assert_eq!(r[0].headers[2].1, "warning,cookie,lock");
    assert_eq!(r[0].headers[4], ("Authorization".to_string(), "Bearer tk".to_string()));
    assert_eq!(n.report_run(1, &stats(0, true), "v", "h").len(), 1);
}

#[test]
fn empty_token_is_not_sent() {
    let mut c = config();
    c.token = Some(String::new());
    let n = Notifier::from_config(Some(c)).unwrap();
    assert_eq!(n.send_test("h").headers.len(), 4);
}

#[test]
fn canary_pings() {
    let n = Notifier::from_config(Some(config())).unwrap();
    let r = n.send_test("pi4");
    assert_eq!(r.body, "Weekly canary on pi4: cookies probe ran and alerts still work.");
    assert_eq!(r.headers[0].1, "ytsync-pi: canary ping");
    assert_eq!(r.headers[1].1, "2");
    assert_eq!(r.headers[2].1, "bell");
}

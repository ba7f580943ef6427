//! Updates of yt-dlp, and the classification of its errors.

use ytsync_pi::config::{YtDlpChannel, YtDlpConfig};
use ytsync_pi::preflight::AgeFact;
use ytsync_pi::ytdlp_updater::{
    Age, Freshness, UpdateOutcome, UpdateRun, UpdateStep, YtDlpUpdater,
};

#[test]
fn detects_known_extraction_failures() {
    for sig in [
        "ERROR: Unable to extract video data",
        "ERROR: Signature extraction failed",
        "HTTP Error 403: Forbidden",
        "ERROR: Precondition check failed",
    ] {
        assert!(
            YtDlpUpdater::looks_like_extraction_failure(sig),
            "signature should match: {sig}"
        );
    }
}

#[test]
fn benign_errors_do_not_match() {
    assert!(!YtDlpUpdater::looks_like_extraction_failure(
        "network timeout"
    ));
    assert!(!YtDlpUpdater::looks_like_extraction_failure(
        "disk full: no space left on device"
    ));
}

#[test]
fn detects_known_auth_failures() {
    for sig in [
        "ERROR: Sign in to confirm you're not a bot",
        "ERROR: Private video. Sign in if you've been granted access",
        "ERROR: members-only content",
        "HTTP Error 401: Unauthorized",
        "ERROR: The uploader has not made this video available",
        "requested content is not available, rechecking",
    ] {
        assert!(
            YtDlpUpdater::looks_like_auth_failure(sig),
            "auth signature should match: {sig}"
        );
    }
}

#[test]
fn auth_and_extraction_classifiers_are_disjoint_on_clear_cases() {
    let auth = "ERROR: Sign in to confirm you're not a bot";
    let extract = "ERROR: Unable to extract player response";
    assert!(YtDlpUpdater::looks_like_auth_failure(auth));
    assert!(!YtDlpUpdater::looks_like_auth_failure(extract));
    assert!(YtDlpUpdater::looks_like_extraction_failure(extract));
    assert!(!YtDlpUpdater::looks_like_extraction_failure(auth));
}

#[test]
fn signature_is_found_in_any_case_and_any_company() {
    for part in ["no longer available", "No Longer Available", "NO LONGER AVAILABLE"] {
        assert!(YtDlpUpdater::looks_like_extraction_failure(&format!(
            "WARNING: x\nERROR: [youtube] {part}\nbye"
        )));
    }
    assert!(YtDlpUpdater::looks_like_auth_failure("ÄÖÜ COOKIES ARE NO LONGER VALID ß"));
    assert!(!YtDlpUpdater::looks_like_auth_failure(""));
}

fn updater(auto_update: bool, days: u64) -> YtDlpUpdater {
    YtDlpUpdater::new(YtDlpConfig {
        auto_update,
        update_if_older_than_days: days,
        channel: YtDlpChannel::Stable,
        ..YtDlpConfig::default()
    })
}

#[test]
fn binary_is_where_the_configuration_says() {
    let u = YtDlpUpdater::new(YtDlpConfig {
        binary_path: "/opt/yt-dlp".to_string(),
        ..YtDlpConfig::default()
    });
    assert_eq!(u.binary(), "/opt/yt-dlp");
    assert_eq!(u.binary_path(), "/opt/yt-dlp");
    assert_eq!(u.ensure_installed(true), Ok(()));
    assert_eq!(
        u.ensure_installed(false).unwrap_err(),
        "yt-dlp not found at /opt/yt-dlp. Install it first (e.g. `curl -L https://github.com/yt-dlp/yt-dlp/releases/latest/download/yt-dlp -o /opt/yt-dlp && chmod +x /opt/yt-dlp`)"
    );
}

#[test]
fn version_is_the_trimmed_first_line() {
    let u = updater(true, 7);
    assert_eq!(u.version(true, "exit status: 0", &b"2024.08.06\n".to_vec(), &vec![]).unwrap(), "2024.08.06");
    assert_eq!(
        u.version(true, "exit status: 0", &b" 2024.08.06 \r\nmore\n".to_vec(), &vec![]).unwrap(),
        "2024.08.06"
    );
    assert_eq!(u.version(true, "", &vec![0xff], &vec![]).unwrap(), "\u{fffd}");
    assert_eq!(
        u.version(false, "exit status: 2", &vec![], &b" broken \n".to_vec()).unwrap_err(),
        "yt-dlp --version exited exit status: 2: broken"
    );
}

#[test]
fn old_binary_is_due() {
    let week = 7 * 86_400;
    let age = |secs: u64, nanos: u32| Some(Age { secs, nanos });
    assert!(matches!(updater(true, 7).ensure_fresh(age(week, 1)), Freshness::Due));
    assert!(matches!(updater(true, 7).ensure_fresh(age(week + 1, 0)), Freshness::Due));
    for skipped in [
        updater(true, 7).ensure_fresh(age(week, 0)),
        updater(true, 7).ensure_fresh(age(week - 1, 999_999_999)),
        updater(true, 0).ensure_fresh(age(0, 0)),
        updater(true, 7).ensure_fresh(None),
        updater(false, 7).ensure_fresh(age(week + 1, 0)),
    ] {
        match skipped {
            Freshness::Skipped(o) => {
                assert!(!o.attempted && !o.succeeded);
                assert_eq!(o.new_version, None);
            }
            Freshness::Due => panic!("no update is due"),
        }
    }
}

#[test]
fn update_runs_on_the_channel() {
    assert_eq!(updater(true, 7).update_args(), vec!["-U", "--update-to", "stable"]);
    assert_eq!(YtDlpChannel::Nightly.as_str(), "nightly");
    assert_eq!(YtDlpChannel::Master.as_str(), "master");
}

#[test]
fn update_outcomes() {
    let u = updater(true, 7);
    let failures = [
        (UpdateRun::SpawnFailed { detail: "no".to_string() }, "", "no"),
        (UpdateRun::TimedOut, "", "update timed out"),
        (UpdateRun::WaitFailed { detail: "gone".to_string() }, "", "gone"),
        (
            UpdateRun::Exited { success: false, stdout: b"o".to_vec(), stderr: b"e\xff".to_vec() },
            "o",
            "e\u{fffd}",
        ),
    ];
    for (run, stdout, stderr) in failures {
        match u.update_now(run) {
            UpdateStep::Failed(o) => {
                assert!(o.attempted && !o.succeeded);
                assert_eq!(o.stdout, stdout);
                assert_eq!(o.stderr, stderr);
            }
            UpdateStep::ProbeVersion { .. } => panic!("the update failed"),
        }
    }
    match u.update_now(UpdateRun::Exited { success: true, stdout: b"up".to_vec(), stderr: vec![] }) {
        UpdateStep::ProbeVersion { stdout, stderr } => {
            let o = UpdateOutcome::completed(stdout, stderr, Some("2024".to_string()));
            assert!(o.attempted && o.succeeded);
            assert_eq!(o.stdout, "up");
            assert_eq!(o.new_version.as_deref(), Some("2024"));
        }
        UpdateStep::Failed(_) => panic!("the update succeeded"),
    }
    let f = UpdateOutcome::failed("o".to_string(), "e".to_string());
    assert!(f.attempted && !f.succeeded);
    assert!(!UpdateOutcome::skipped().attempted);
}

#[test]
fn age_of_the_binary() {
    assert_eq!(YtDlpUpdater::binary_age(&AgeFact::Unknown), None);
    assert_eq!(YtDlpUpdater::binary_age(&AgeFact::Future), Some(Age { secs: 0, nanos: 0 }));
    assert_eq!(
        YtDlpUpdater::binary_age(&AgeFact::Known { secs: 7, nanos: 9 }),
        Some(Age { secs: 7, nanos: 9 })
    );
}

#[test]
fn threshold_out_of_range_does_not_matter_where_it_is_not_used() {
    assert!(matches!(updater(false, u64::MAX).ensure_fresh(Some(Age { secs: 1, nanos: 0 })), Freshness::Skipped(_)));
    assert!(matches!(updater(true, u64::MAX).ensure_fresh(None), Freshness::Skipped(_)));
}

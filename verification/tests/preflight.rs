//! The checks before a cycle.

use ytsync_pi::config::{Config, Source, SourceMode, YtDlpConfig};
use ytsync_pi::preflight::{
    cookies_age_days, cookies_look_stale, is_partial_file, run, sweep_follows, sweep_partial_files,
    AgeFact, CookiesFact, DirFact, Facts, Probe, SpaceFact, Verdict, GB_BYTES,
};

fn config() -> Config {
    Config {
        cookies_path: "/c".to_string(),
        output_audio_dir: "/a".to_string(),
        output_video_dir: "/v".to_string(),
        db_path: "/d".to_string(),
        lock_path: "/l".to_string(),
        bitrate: String::new(),
        rate_limit: String::new(),
        retries: 0,
        retry_backoff_sec: 0,
        sleep_interval_sec: 0,
        max_sleep_interval_sec: 0,
        per_item_timeout_sec: 0,
        min_free_disk_gb: 5,
        ntfy: None,
        musicbrainz: None,
        yt_dlp: YtDlpConfig::default(),
        sources: vec![Source {
            name: "n".to_string(),
            url: "u".to_string(),
            mode: SourceMode::Audio,
            quality: None,
        }],
    }
}

fn good() -> Facts {
    Facts {
        cookies: Some(CookiesFact::Found { len: 10, mode: Some(0o100600) }),
        cookies_age: Some(AgeFact::Known { secs: 3 * 86_400 + 5, nanos: 0 }),
        audio_dir: Some(DirFact::Ready),
        video_dir: Some(DirFact::Ready),
        audio_space: Some(SpaceFact::Bytes(5 * GB_BYTES)),
        video_space: Some(SpaceFact::Bytes(6 * GB_BYTES)),
    }
}

fn failure(facts: Facts) -> (String, Option<String>) {
    match run(&config(), &facts) {
        Verdict::Failed(e) => (e.message, e.cause),
        _ => panic!("the check did not fail"),
    }
}

#[test]
fn everything_in_order_passes() {
    match run(&config(), &good()) {
        Verdict::Passed(r) => assert_eq!(r.cookies_age_days, Some(3)),
        _ => panic!("the check did not pass"),
    }
    let mut f = good();
    f.cookies = Some(CookiesFact::Found { len: 1, mode: None });
    assert!(matches!(run(&config(), &f), Verdict::Passed(_)));
}

#[test]
fn observations_are_asked_for_in_order() {
    let mut f = Facts {
        cookies: None,
        cookies_age: None,
        audio_dir: None,
        video_dir: None,
        audio_space: None,
        video_space: None,
    };
    let mut asked = vec![];
    loop {
        match run(&config(), &f) {
            Verdict::Observe(p) => {
                asked.push(p);
                let g = good();
                match p {
                    Probe::Cookies => f.cookies = g.cookies,
                    Probe::CookiesAge => f.cookies_age = g.cookies_age,
                    Probe::AudioDir => f.audio_dir = g.audio_dir,
                    Probe::VideoDir => f.video_dir = g.video_dir,
                    Probe::AudioSpace => f.audio_space = g.audio_space,
                    Probe::VideoSpace => f.video_space = g.video_space,
                }
            }
            Verdict::Passed(_) => break,
            Verdict::Failed(_) => panic!("nothing is wrong"),
        }
    }
    assert_eq!(
        asked,
        vec![
            Probe::Cookies,
            Probe::CookiesAge,
            Probe::AudioDir,
            Probe::VideoDir,
            Probe::AudioSpace,
            Probe::VideoSpace
        ]
    );
}

#[test]
fn cookies_must_be_there_filled_and_private() {
    let with = |c: CookiesFact| {
        let mut f = good();
        f.cookies = Some(c);
        failure(f)
    };
    assert_eq!(
        with(CookiesFact::Missing),
        (
            "cookies file missing at /c. Export via your browser (yt-dlp-compatible Netscape format).".to_string(),
            None
        )
    );
    assert_eq!(
        with(CookiesFact::StatFailed("denied".to_string())),
        ("stat cookies /c".to_string(), Some("denied".to_string()))
    );
    assert_eq!(
        with(CookiesFact::Found { len: 0, mode: Some(0o777) }),
        ("cookies file is empty: /c".to_string(), None)
    );
    assert_eq!(
        with(CookiesFact::Found { len: 1, mode: Some(0o100644) }),
        (
            "cookies file /c has permissions 644; must be 0600 (run `chmod 600 /c`)".to_string(),
            None
        )
    );
    assert!(with(CookiesFact::Found { len: 1, mode: Some(0o601) }).0.contains("permissions 601;"));
    let mut f = good();
    f.cookies = Some(CookiesFact::Found { len: 1, mode: Some(0o700) });
    assert!(matches!(run(&config(), &f), Verdict::Passed(_)));
}

#[test]
fn directories_must_be_writable() {
    let mut f = good();
    f.audio_dir = Some(DirFact::CreateFailed("no".to_string()));
    assert_eq!(failure(f), ("create output dir /a".to_string(), Some("no".to_string())));
    let mut f = good();
    f.video_dir = Some(DirFact::NotWritable("ro".to_string()));
    assert_eq!(failure(f), ("output dir /v is not writable".to_string(), Some("ro".to_string())));
}

#[test]
fn space_must_suffice() {
    let mut f = good();
    f.audio_space = Some(SpaceFact::Failed("no".to_string()));
    assert_eq!(failure(f), ("query free space on /a".to_string(), Some("no".to_string())));
    let mut f = good();
    f.video_space = Some(SpaceFact::Bytes(5 * GB_BYTES - 1));
    assert_eq!(failure(f), ("only 4 GB free on /v (need 5 GB)".to_string(), None));
}

#[test]
fn cookies_age_in_whole_days() {
    assert_eq!(cookies_age_days(&AgeFact::Unknown), None);
    assert_eq!(cookies_age_days(&AgeFact::Future), Some(0));
    assert_eq!(cookies_age_days(&AgeFact::Known { secs: 86_399, nanos: 0 }), Some(0));
    assert_eq!(cookies_age_days(&AgeFact::Known { secs: 86_400, nanos: 0 }), Some(1));
}

#[test]
fn cookies_grow_stale_after_thirty_days() {
    let month = 30 * 86_400;
    assert!(!cookies_look_stale(&AgeFact::Known { secs: month, nanos: 0 }));
    assert!(cookies_look_stale(&AgeFact::Known { secs: month, nanos: 1 }));
    assert!(cookies_look_stale(&AgeFact::Known { secs: month + 1, nanos: 0 }));
    assert!(!cookies_look_stale(&AgeFact::Unknown));
    assert!(!cookies_look_stale(&AgeFact::Future));
}

#[test]
fn partial_files_are_told_by_their_ending() {
    assert!(is_partial_file("Song.mp3.part"));
    assert!(is_partial_file("Song.ytdl"));
    assert!(is_partial_file(".part"));
    assert!(!is_partial_file("Song.part.mp3"));
    assert!(!is_partial_file("part"));
    assert!(!is_partial_file("Song.PART"));
}

#[test]
fn only_partial_files_are_swept() {
    let names: Vec<String> = ["a.mp3", "b.mp3.part", "c.part.mp3", "d.ytdl", ".part"]
        .iter()
        .map(|n| n.to_string())
        .collect();
    assert_eq!(sweep_partial_files(&names), vec!["b.mp3.part", "d.ytdl", ".part"]);
    assert!(sweep_partial_files(&vec![]).is_empty());
}

#[test]
fn sweeping_waits_for_a_passed_check() {
    assert!(sweep_follows(&run(&config(), &good())));
    let mut f = good();
    f.video_space = None;
    assert!(!sweep_follows(&run(&config(), &f)));
    f.video_space = Some(SpaceFact::Bytes(0));
    assert!(!sweep_follows(&run(&config(), &f)));
}

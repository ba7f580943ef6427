//! Listings, downloads, and what is read off the output of yt-dlp.

use ytsync_pi::config::{Config, Source, SourceMode, YtDlpConfig};
use ytsync_pi::ytdlp::{
    archive_dir_error, archive_file_in, archive_path_for, build_video_format, dest_dir_error,
    download_title, extract_filepath, looks_like_archive_hit, lowered_tells_archive_hit,
    parse_playlist, parse_quality_height, run_with_timeout, spawn_error, CappedStream,
    InvocationOutput, WaitOutcome, YtDlp, STREAM_CAP_BYTES,
};

fn config() -> Config {
    Config {
        cookies_path: "/etc/cookies.txt".to_string(),
        output_audio_dir: "/nas/audio".to_string(),
        output_video_dir: "/nas/video".to_string(),
        db_path: "/var/lib/ytsync/state.db".to_string(),
        lock_path: "/run/ytsync.lock".to_string(),
        bitrate: "320K".to_string(),
        rate_limit: "2M".to_string(),
        retries: 2,
        retry_backoff_sec: 30,
        sleep_interval_sec: 3,
        max_sleep_interval_sec: 8,
        per_item_timeout_sec: 1800,
        min_free_disk_gb: 5,
        ntfy: None,
        musicbrainz: None,
        yt_dlp: YtDlpConfig::default(),
        sources: vec![Source {
            name: "likes".to_string(),
            url: "https://example.org/list".to_string(),
            mode: SourceMode::Audio,
            quality: None,
        }],
    }
}

fn output(success: bool, stdout: &str, stderr: &str) -> InvocationOutput {
    InvocationOutput {
        success,
        exit_code: if success { Some(0) } else { Some(1) },
        stdout: stdout.to_string(),
        stderr: stderr.to_string(),
    }
}

#[test]
fn video_format_without_cap() {
    assert_eq!(build_video_format(None), "bv*+ba/b");
}

#[test]
fn video_format_with_quality_cap() {
    assert_eq!(
        build_video_format(Some("1080p")),
        "bv*[height<=1080]+ba/b[height<=1080]"
    );
    assert_eq!(
        build_video_format(Some("720P")),
        "bv*[height<=720]+ba/b[height<=720]"
    );
    assert_eq!(
        build_video_format(Some("480")),
        "bv*[height<=480]+ba/b[height<=480]"
    );
}

#[test]
fn nonsense_quality_falls_back_to_uncapped() {
    assert_eq!(build_video_format(Some("hd")), "bv*+ba/b");
    assert_eq!(build_video_format(Some("")), "bv*+ba/b");
    assert_eq!(build_video_format(Some("9999p")), "bv*+ba/b"); // outside valid range
}

#[test]
fn detects_archive_hit() {
    assert!(looks_like_archive_hit(
        "[download] abc123 has already been recorded in the archive"
    ));
    assert!(looks_like_archive_hit("[youtube] Already in archive: XYZ"));
    assert!(!looks_like_archive_hit(
        "ERROR: unable to download video data"
    ));
    assert!(!looks_like_archive_hit(""));
}

#[test]
fn archive_hit_is_found_in_any_case() {
    assert!(looks_like_archive_hit("ALREADY IN ARCHIVE"));
    assert!(!lowered_tells_archive_hit("ALREADY IN ARCHIVE"));
    assert!(lowered_tells_archive_hit("already in archive"));
}

#[test]
fn quality_heights() {
    assert_eq!(parse_quality_height(" 1080p "), Some(1080));
    assert_eq!(parse_quality_height("720Pp"), Some(720));
    assert_eq!(parse_quality_height("720pP"), None);
    assert_eq!(parse_quality_height("+360"), Some(360));
    assert_eq!(parse_quality_height("4294967296"), None);
    assert_eq!(parse_quality_height("p"), None);
}

#[test]
fn every_height_in_range_caps_at_itself() {
    for h in [144u32, 145, 1080, 4319, 4320] {
        let expected = format!("bv*[height<={h}]+ba/b[height<={h}]");
        assert_eq!(build_video_format(Some(&format!("{h}"))), expected);
        assert_eq!(build_video_format(Some(&format!("{h}p"))), expected);
        assert_eq!(build_video_format(Some(&format!("{h}P"))), expected);
    }
    assert_eq!(build_video_format(Some("143p")), "bv*+ba/b");
    assert_eq!(build_video_format(Some("4321p")), "bv*+ba/b");
}

#[test]
fn listing_is_parsed_line_by_line() {
    let entries = parse_playlist("abc\tFirst title\n\nNA\tGone\n  def \t Second \r\n\tno id\nghi\n");
    let seen: Vec<(&str, &str)> = entries
        .iter()
        .map(|e| (e.id.as_str(), e.title.as_str()))
        .collect();
    assert_eq!(seen, vec![("abc", "First title"), ("def", "Second"), ("ghi", "")]);
}

#[test]
fn listed_entry_reads_back() {
    let entries = parse_playlist(&format!("{}\t{}\n", "dQw4w9WgXcQ", "A title\twith a tab"));
    assert_eq!(entries.len(), 1);
    assert_eq!(entries[0].id, "dQw4w9WgXcQ");
    assert_eq!(entries[0].title, "A title\twith a tab");
    let untitled = parse_playlist("dQw4w9WgXcQ\t\n");
    assert_eq!(untitled.len(), 1);
    assert_eq!((untitled[0].id.as_str(), untitled[0].title.as_str()), ("dQw4w9WgXcQ", ""));
}

#[test]
fn last_line_that_is_not_blank_is_the_path() {
    assert_eq!(
        extract_filepath("noise\n /nas/a b.mp3 \n\n  \n").as_deref(),
        Some("/nas/a b.mp3")
    );
    assert_eq!(extract_filepath(" \n\t\n"), None);
    assert_eq!(extract_filepath(""), None);
}

#[test]
fn list_command_asks_for_ids_and_titles() {
    let cfg = config();
    let yt = YtDlp::new("/usr/bin/yt-dlp".to_string(), &cfg);
    assert_eq!(yt.binary, "/usr/bin/yt-dlp");
    assert_eq!(
        yt.list_command("https://example.org/list"),
        vec![
            "--cookies",
            "/etc/cookies.txt",
            "--flat-playlist",
            "--print",
            "%(id)s\t%(title)s",
            "--no-warnings",
            "--",
            "https://example.org/list"
        ]
    );
}

#[test]
fn audio_command_asks_for_mp3() {
    let cfg = config();
    let yt = YtDlp::new("yt-dlp".to_string(), &cfg);
    assert_eq!(
        yt.audio_command("abc", "/nas/audio", "/var/archive.txt"),
        vec![
            "--cookies",
            "/etc/cookies.txt",
            "--download-archive",
            "/var/archive.txt",
            "--no-overwrites",
            "--no-progress",
            "--no-warnings",
            "--retries",
            "1",
            "--fragment-retries",
            "3",
            "--limit-rate",
            "2M",
            "--sleep-interval",
            "3",
            "--max-sleep-interval",
            "8",
            "-f",
            "bestaudio/best",
            "-x",
            "--audio-format",
            "mp3",
            "--audio-quality",
            "0",
            "--embed-metadata",
            "--embed-thumbnail",
            "--add-metadata",
            "--print",
            "after_move:%(filepath)s",
            "-o",
            "/nas/audio/%(title)s.%(ext)s",
            "--",
            "https://www.youtube.com/watch?v=abc"
        ]
    );
}

#[test]
fn video_command_asks_for_mkv() {
    let cfg = config();
    let yt = YtDlp::new("yt-dlp".to_string(), &cfg);
    let args = yt.video_command("abc", "/nas/video", "/var/archive.txt", Some("720p"));
    assert_eq!(
        &args[17..27],
        &[
            "-f",
            "bv*[height<=720]+ba/b[height<=720]",
            "--merge-output-format",
            "mkv",
            "--embed-metadata",
            "--embed-thumbnail",
            "--embed-chapters",
            "--embed-subs",
            "--sub-langs",
            "en,de"
        ]
    );
    assert_eq!(args.last().unwrap(), "https://www.youtube.com/watch?v=abc");
}

#[test]
fn failed_listing_is_classified() {
    let cfg = config();
    let yt = YtDlp::new("yt-dlp".to_string(), &cfg);
    let e = yt
        .list_playlist("U", Ok(output(false, "", "ERROR: Unable to extract; not a bot")))
        .unwrap_err();
    assert_eq!(e.message, "playlist listing failed for U");
    assert_eq!(e.exit_code, Some(1));
    assert!(e.looks_like_extractor);
    assert!(e.looks_like_auth);
    assert!(!e.timed_out);
    let ok = yt.list_playlist("U", Ok(output(true, "a\tb\n", ""))).unwrap();
    assert_eq!(ok.len(), 1);
    let spawn = yt.list_playlist("U", Err(spawn_error("no such file"))).unwrap_err();
    assert!(spawn.message.contains("no such file"));
}

#[test]
fn download_takes_its_title_from_the_file() {
    let cfg = config();
    let yt = YtDlp::new("yt-dlp".to_string(), &cfg);
    let d = yt
        .download_audio("abc", Ok(output(true, "/nas/audio/A song.v2.mp3\n", "")))
        .unwrap()
        .unwrap();
    assert_eq!(d.file_path, "/nas/audio/A song.v2.mp3");
    assert_eq!(d.title, "A song.v2");
    let d = yt
        .download_video("abc", Ok(output(true, "/nas/video/..\n", "")))
        .unwrap()
        .unwrap();
    assert_eq!(d.title, "abc");
    assert_eq!(download_title(None, "id"), "id");
}

#[test]
fn archived_item_gives_no_file() {
    let cfg = config();
    let yt = YtDlp::new("yt-dlp".to_string(), &cfg);
    let hit = "[download] abc: Has Already Been Recorded In The Archive";
    assert!(yt.download_audio("abc", Ok(output(true, "\n", hit))).unwrap().is_none());
    let e = yt.download_audio("abc", Ok(output(true, "", "nothing to say"))).unwrap_err();
    assert_eq!(e.message, "yt-dlp reported success but emitted no filepath for abc");
    assert_eq!(e.exit_code, Some(0));
    let e = yt.download_audio("abc", Ok(output(false, "", hit))).unwrap_err();
    assert_eq!(e.message, "download failed for abc");
    let e = yt.download_video("abc", Ok(output(false, "/x", ""))).unwrap_err();
    assert_eq!(e.message, "video download failed for abc");
}

#[test]
fn streams_are_capped() {
    let mut s = CappedStream::empty(4);
    s.absorb(b"ab");
    assert_eq!(s.kept, b"ab");
    assert!(!s.truncated);
    s.absorb(b"cd");
    assert_eq!(s.kept, b"abcd");
    assert!(!s.truncated);
    s.absorb(b"");
    assert!(!s.truncated);
    s.absorb(b"e");
    assert_eq!(s.kept, b"abcd");
    assert!(s.truncated);
    let mut t = CappedStream::empty(4);
    t.absorb(b"abcdefgh");
    assert_eq!(t.kept, b"abcd");
    assert!(t.truncated);
    assert_eq!(STREAM_CAP_BYTES, 1024 * 1024);
}

#[test]
fn invocation_that_ended_gives_its_output() {
    let mut out = CappedStream::empty(16);
    out.absorb(b"caf\xc3\xa9 \xff");
    let mut err = CappedStream::empty(2);
    err.absorb(b"abc");
    let r = run_with_timeout(WaitOutcome::Exited { success: true, exit_code: Some(0) }, &out, &err)
        .unwrap();
    assert!(r.success);
    assert_eq!(r.stdout, "café \u{fffd}");
    assert_eq!(r.stderr, "ab\n[stderr/stdout truncated at 1 MiB]");
}

#[test]
fn invocation_that_did_not_end_is_an_error() {
    let out = CappedStream::empty(16);
    let mut err = CappedStream::empty(32);
    err.absorb(b"sign in to confirm");
    let e = run_with_timeout(WaitOutcome::TimedOut { after_secs: 1800 }, &out, &err).unwrap_err();
    assert_eq!(e.message, "yt-dlp timed out after 1800s");
    assert_eq!(e.stderr, "sign in to confirm");
    assert!(e.timed_out);
    assert!(!e.looks_like_auth);
    let e = run_with_timeout(WaitOutcome::Failed { detail: "x".to_string() }, &out, &err).unwrap_err();
    assert_eq!(e.message, "wait_timeout error: x");
    assert!(!e.timed_out);
}

#[test]
fn local_errors_are_no_fault_of_the_service() {
    for e in [
        dest_dir_error("/nas", "denied"),
        archive_dir_error("/var", "denied"),
        spawn_error("denied"),
    ] {
        assert!(e.message.contains("denied"));
        assert_eq!(e.stderr, "");
        assert_eq!(e.exit_code, None);
        assert!(!e.looks_like_auth && !e.looks_like_extractor && !e.timed_out);
    }
}

#[test]
fn archive_stands_beside_the_database() {
    let mut cfg = config();
    assert_eq!(archive_path_for(&cfg).unwrap(), "/var/lib/ytsync/ytdlp-archive.txt");
    cfg.db_path = "state.db".to_string();
    assert_eq!(archive_path_for(&cfg).unwrap(), "ytdlp-archive.txt");
    cfg.db_path = "/state.db".to_string();
    assert_eq!(archive_path_for(&cfg).unwrap(), "/ytdlp-archive.txt");
    cfg.db_path = "/".to_string();
    assert_eq!(archive_path_for(&cfg).unwrap_err(), "db_path has no parent directory");
    assert_eq!(archive_file_in(None).unwrap_err(), "db_path has no parent directory");
}

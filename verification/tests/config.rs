//! The configuration.

use ytsync_pi::config::{
    config_file_in, default_bitrate, default_channel, default_config_path, default_mb_enabled,
    default_min_free_gb, default_rate_limit, default_retries, default_retry_backoff,
    default_sleep_max, default_sleep_min, default_timeout, default_true, default_update_age_days,
    default_update_timeout, default_ytdlp_binary, expand, look_up_variable, redact, Config,
    ConfigError, PathLookups, Source, SourceMode, Variable, YtDlpChannel, YtDlpConfig,
};

fn source(name: &str, url: &str) -> Source {
    Source {
        name: name.to_string(),
        url: url.to_string(),
        mode: SourceMode::Video,
        quality: Some("720p".to_string()),
    }
}

fn parsed(sources: Vec<Source>) -> Config {
    Config {
        cookies_path: "/c".to_string(),
        output_audio_dir: "/a".to_string(),
        output_video_dir: "/v".to_string(),
        db_path: "/d/x.db".to_string(),
        lock_path: "/l".to_string(),
        bitrate: default_bitrate(),
        rate_limit: default_rate_limit(),
        retries: default_retries(),
        retry_backoff_sec: default_retry_backoff(),
        sleep_interval_sec: default_sleep_min(),
        max_sleep_interval_sec: default_sleep_max(),
        per_item_timeout_sec: default_timeout(),
        min_free_disk_gb: default_min_free_gb(),
        ntfy: None,
        musicbrainz: None,
        yt_dlp: YtDlpConfig { binary_path: "/b".to_string(), ..YtDlpConfig::default() },
        sources,
    }
}

fn variable(name: &str, value: Result<&str, &str>) -> Variable {
    Variable {
        name: name.to_string(),
        value: value.map(|v| v.to_string()).map_err(|e| e.to_string()),
    }
}

/// Loads with a home directory and a few variables.
fn load(p: Config) -> Result<Config, ConfigError> {
    let variables = vec![
        variable("NAS", Ok("/mnt/nas")),
        variable("BAD", Err("unreadable")),
        variable("NAS", Ok("/never")),
        variable("TILDE", Ok("~")),
    ];
    Config::load(p, &Some("/home/pi".to_string()), &variables)
}

#[test]
fn tilde_is_the_home_directory() {
    let mut p = parsed(vec![source("n", "u")]);
    p.cookies_path = "~/cookies.txt".to_string();
    p.output_audio_dir = "~".to_string();
    p.output_video_dir = "~other/x".to_string();
    p.db_path = "/a/~/b".to_string();
    p.yt_dlp.binary_path = default_ytdlp_binary();
    let cfg = load(p.clone()).unwrap();
    assert_eq!(cfg.cookies_path, "/home/pi/cookies.txt");
    assert_eq!(cfg.output_audio_dir, "/home/pi");
    assert_eq!(cfg.output_video_dir, "~other/x");
    assert_eq!(cfg.db_path, "/a/~/b");
    assert_eq!(cfg.yt_dlp.binary_path, "/home/pi/.local/bin/yt-dlp");
    let cfg = Config::load(p, &None, &vec![]).unwrap();
    assert_eq!(cfg.cookies_path, "~/cookies.txt");
}

#[test]
fn variables_are_replaced() {
    let mut p = parsed(vec![source("n", "u")]);
    p.cookies_path = "$NAS".to_string();
    p.output_audio_dir = "$NAS/audio".to_string();
    p.output_video_dir = "/x/$NAS/y".to_string();
    p.db_path = "${NAS}s/${NONE:-d}".to_string();
    p.lock_path = "$TILDE/l".to_string();
    p.yt_dlp.binary_path = "~/$NAS".to_string();
    assert_eq!(p.paths_to_expand()[4], "$TILDE/l");
    let cfg = load(p).unwrap();
    assert_eq!(cfg.cookies_path, "/mnt/nas");
    assert_eq!(cfg.output_audio_dir, "/mnt/nas/audio");
    assert_eq!(cfg.output_video_dir, "/x//mnt/nas/y");
    assert_eq!(cfg.db_path, "/mnt/nass/d");
    assert_eq!(cfg.lock_path, "~/l");
    assert_eq!(cfg.yt_dlp.binary_path, "/home/pi//mnt/nas");
}

#[test]
fn variable_lookup() {
    let v = vec![variable("A", Ok("1")), variable("B", Err("e")), variable("A", Ok("2"))];
    assert_eq!(look_up_variable(&v, "A"), Ok(Some("1".to_string())));
    assert_eq!(look_up_variable(&v, "B"), Err("e".to_string()));
    assert_eq!(look_up_variable(&v, "C"), Err("environment variable not found".to_string()));
}

#[test]
fn valid_configuration_loads() {
    let cfg = load(parsed(vec![source("n", "u")])).unwrap();
    assert_eq!(cfg.cookies_path, "/c");
    assert_eq!(cfg.output_audio_dir, "/a");
    assert_eq!(cfg.output_video_dir, "/v");
    assert_eq!(cfg.db_path, "/d/x.db");
    assert_eq!(cfg.lock_path, "/l");
    assert_eq!(cfg.yt_dlp.binary_path, "/b");
    assert_eq!(cfg.sources.len(), 1);
}

#[test]
fn flawed_sources_are_refused() {
    let message = |sources: Vec<Source>| match load(parsed(sources)) {
        Ok(_) => panic!("loaded"),
        Err(e) => e.message(),
    };
    assert_eq!(message(vec![]), "config has no sources");
    assert_eq!(message(vec![source("n", "u"), source(" \t", "u")]), "source has empty name");
    assert_eq!(message(vec![source("n", " ")]), "source n has empty url");
    assert_eq!(message(vec![source("a", ""), source("", "")]), "source a has empty url");
}

#[test]
fn unusable_variable_is_an_error() {
    for (lock_path, expected) in [
        ("$UNSET/lock", "error looking key 'UNSET' up: environment variable not found"),
        ("/x/$BAD", "error looking key 'BAD' up: unreadable"),
    ] {
        let mut p = parsed(vec![source("n", "u")]);
        p.lock_path = lock_path.to_string();
        match load(p) {
            Err(ConfigError::Expand { path, cause }) => {
                assert_eq!(path, lock_path);
                assert_eq!(cause, expected);
            }
            _ => panic!("the variable cannot be used"),
        }
    }
}

#[test]
fn doubled_dollar_stands_for_one() {
    let mut p = parsed(vec![source("n", "u")]);
    p.cookies_path = "/a$$b".to_string();
    assert_eq!(load(p).unwrap().cookies_path, "/a$b");
}

fn found() -> PathLookups {
    PathLookups {
        cookies_path: Ok("/1".to_string()),
        output_audio_dir: Ok("/2".to_string()),
        output_video_dir: Ok("/3".to_string()),
        db_path: Ok("/4".to_string()),
        lock_path: Ok("/5".to_string()),
        binary_path: Ok("/6".to_string()),
    }
}

#[test]
fn found_paths_take_their_places() {
    let cfg = Config::load_with(parsed(vec![source("n", "u")]), found()).unwrap();
    assert_eq!(
        (
            cfg.cookies_path.as_str(),
            cfg.output_audio_dir.as_str(),
            cfg.output_video_dir.as_str(),
            cfg.db_path.as_str(),
            cfg.lock_path.as_str(),
            cfg.yt_dlp.binary_path.as_str(),
        ),
        ("/1", "/2", "/3", "/4", "/5", "/6")
    );
    assert_eq!(cfg.retries, default_retries());
}

#[test]
fn first_failed_lookup_is_told() {
    let mut f = found();
    f.db_path = Err("first".to_string());
    f.lock_path = Err("second".to_string());
    match Config::load_with(parsed(vec![]), f) {
        Err(ConfigError::Expand { path, cause }) => {
            assert_eq!(path, "/d/x.db");
            assert_eq!(cause, "first");
        }
        _ => panic!("a lookup failed"),
    }
    let e = expand("~/x", Err("why".to_string())).unwrap_err();
    assert_eq!(e.message(), "expand path ~/x");
    assert_eq!(expand("~/x", Ok("/home/x".to_string())).unwrap(), "/home/x");
}

#[test]
fn defaults() {
    let y = YtDlpConfig::default();
    assert_eq!(y.binary_path, default_ytdlp_binary());
    assert_eq!(y.auto_update, default_true());
    assert_eq!(y.update_if_older_than_days, default_update_age_days());
    assert_eq!(y.channel, default_channel());
    assert_eq!(y.channel, YtDlpChannel::Nightly);
    assert_eq!(y.update_timeout_sec, default_update_timeout());
    assert_eq!(y.update_timeout_sec, 120);
    assert!(y.update_on_extract_error);
    assert!(default_mb_enabled());
}

#[test]
fn secrets_are_not_shown() {
    assert_eq!(redact(Some("tk_secret")), "***set***");
    assert_eq!(redact(Some("another")), "***set***");
    assert_eq!(redact(Some("")), "<unset>");
    assert_eq!(redact(None), "<unset>");
}

#[test]
fn configuration_file_has_a_place() {
    assert_eq!(config_file_in(Some("/home/x/.config/ytsync-pi".to_string())).unwrap(), "/home/x/.config/ytsync-pi/config.toml");
    assert_eq!(config_file_in(None).unwrap_err().message(), "resolve config dir");
    match default_config_path() {
        Ok(p) => assert!(p.ends_with("ytsync-pi/config.toml")),
        Err(e) => assert_eq!(e.message(), "resolve config dir"),
    }
}

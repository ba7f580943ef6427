//! Lookups of tags, and how they are written.

use id3::TagLike;
use ytsync_pi::config::MusicBrainzConfig;
use ytsync_pi::id3_tags::write_id3;
use ytsync_pi::musicbrainz::{
    acoustid_match, acoustid_url, check_body_len, fingerprint, genres_url, parse_year, pick_genres,
    throttle_mb, user_agent, AcoustIdMedium, AcoustIdRecording, AcoustIdRelease, AcoustIdResponse,
    AcoustIdResult, EnrichedTags, FpcalcRun, MbGenre, TagEvent, TagOutcome, TagStep, Tagger,
    HTTP_RESPONSE_CAP, SCORE_THRESHOLD_BITS,
};

#[test]
fn parses_year_from_mb_date() {
    assert_eq!(parse_year("2019-04-15"), Some(2019));
    assert_eq!(parse_year("2019"), Some(2019));
    assert_eq!(parse_year(""), None);
    assert_eq!(parse_year("unknown"), None);
}

#[test]
fn odd_years() {
    assert_eq!(parse_year("-44"), None);
    assert_eq!(parse_year("+2019-01"), Some(2019));
    assert_eq!(parse_year("2147483647"), Some(i32::MAX));
    assert_eq!(parse_year("2147483648"), None);
}

fn recording(id: &str) -> AcoustIdRecording {
    AcoustIdRecording {
        id: id.to_string(),
        title: Some("Song".to_string()),
        artists: Some(vec!["First".to_string(), "Second".to_string()]),
        releases: Some(vec![AcoustIdRelease {
            id: "release".to_string(),
            title: Some("Album".to_string()),
            date: Some("1999-12".to_string()),
            mediums: Some(vec![AcoustIdMedium {
                track_count: Some(12),
                tracks: Some(vec![Some(3), Some(4)]),
            }]),
        }]),
    }
}

fn result(score: f64, recordings: Vec<AcoustIdRecording>) -> AcoustIdResult {
    AcoustIdResult { score_bits: score.to_bits(), recordings }
}

fn response(results: Vec<AcoustIdResult>) -> AcoustIdResponse {
    AcoustIdResponse { status: "ok".to_string(), error: None, results }
}

#[test]
fn threshold_is_the_number_it_stands_for() {
    assert_eq!(f64::from_bits(SCORE_THRESHOLD_BITS), 0.85);
}

#[test]
fn first_good_recording_is_taken() {
    let r = response(vec![
        result(0.8499, vec![recording("low")]),
        result(0.9, vec![]),
        result(0.85, vec![recording("good"), recording("other")]),
        result(1.0, vec![recording("better")]),
    ]);
    let m = acoustid_match(&r).unwrap().unwrap();
    assert_eq!(m.recording_mbid, "good");
    assert_eq!(f64::from_bits(m.score_bits), 0.85);
    assert_eq!(m.artist.as_deref(), Some("First"));
    assert_eq!(m.album.as_deref(), Some("Album"));
    assert_eq!(m.year, Some(1999));
    assert_eq!(m.track_number, Some(3));
    assert_eq!(m.total_tracks, Some(12));
    assert_eq!(m.release_mbid.as_deref(), Some("release"));
}

#[test]
fn no_number_is_no_score() {
    for score in [0.0, -1.0, -0.0, f64::NAN, f64::NEG_INFINITY, 0.84] {
        assert!(acoustid_match(&response(vec![result(score, vec![recording("x")])])).unwrap().is_none());
    }
    assert!(acoustid_match(&response(vec![result(f64::INFINITY, vec![recording("x")])])).unwrap().is_some());
    assert!(acoustid_match(&response(vec![])).unwrap().is_none());
}

#[test]
fn refused_lookup_says_why() {
    let mut r = response(vec![]);
    r.status = "error".to_string();
    assert_eq!(acoustid_match(&r).unwrap_err().message(), "AcoustID status=error, error=None");
    r.error = Some("invalid \"key\"\n".to_string());
    assert_eq!(
        acoustid_match(&r).unwrap_err().message(),
        "AcoustID status=error, error=Some(\"invalid \\\"key\\\"\\n\")"
    );
}

fn genre(name: &str, count: Option<u32>) -> MbGenre {
    MbGenre { name: name.to_string(), count }
}

#[test]
fn three_most_counted_genres() {
    let g = vec![
        genre("none", None),
        genre("zero", Some(0)),
        genre("two-a", Some(2)),
        genre("five", Some(5)),
        genre("two-b", Some(2)),
        genre("one", Some(1)),
    ];
    assert_eq!(pick_genres(&g), vec!["five", "two-a", "two-b"]);
    assert_eq!(pick_genres(&vec![]), Vec::<String>::new());
    assert_eq!(pick_genres(&vec![genre("zero", Some(0))]), Vec::<String>::new());
}

#[test]
fn requests_keep_their_distance() {
    assert_eq!(throttle_mb(None), 0);
    assert_eq!(throttle_mb(Some(0)), 1_100_000_000);
    assert_eq!(throttle_mb(Some(1_099_999_999)), 1);
    assert_eq!(throttle_mb(Some(1_100_000_000)), 0);
    assert_eq!(throttle_mb(Some(u128::MAX)), 0);
}

#[test]
fn long_bodies_are_refused() {
    assert_eq!(HTTP_RESPONSE_CAP, 2 * 1024 * 1024);
    assert_eq!(check_body_len(HTTP_RESPONSE_CAP), Ok(()));
    assert_eq!(
        check_body_len(HTTP_RESPONSE_CAP + 1).unwrap_err(),
        "HTTP response exceeded 2097152 bytes"
    );
}

#[test]
fn requests_are_addressed() {
    assert_eq!(acoustid_url(), "https://api.acoustid.org/v2/lookup");
    assert_eq!(
        genres_url("abc"),
        "https://musicbrainz.org/ws/2/recording/abc?inc=genres&fmt=json"
    );
    assert_eq!(user_agent(), "ytsync-pi/0.1.0 ( https://github.com/jj-repository/ytsync-pi )");
}

#[test]
fn fpcalc_failures() {
    assert_eq!(
        fingerprint(FpcalcRun::TimedOut, "/a.mp3").unwrap_err(),
        "fpcalc timed out after 60s on /a.mp3"
    );
    assert_eq!(
        fingerprint(FpcalcRun::WaitFailed { detail: "x".to_string() }, "/a.mp3").unwrap_err(),
        "fpcalc wait_timeout error: x"
    );
    let run = |success: bool| FpcalcRun::Exited {
        success,
        status: "exit status: 3".to_string(),
        stderr: b" bad file \n".to_vec(),
    };
    assert_eq!(fingerprint(run(false), "/a.mp3").unwrap_err(), "fpcalc exited exit status: 3: bad file");
    assert_eq!(fingerprint(run(true), "/a.mp3"), Ok(()));
}

fn tagger(key: &str, enabled: bool, fpcalc: bool) -> Tagger {
    Tagger::new(MusicBrainzConfig { acoustid_api_key: key.to_string(), enabled }, fpcalc)
}

fn reason(step: TagStep) -> String {
    match step {
        TagStep::Done(TagOutcome::Skipped(r)) => r,
        _ => panic!("not skipped"),
    }
}

#[test]
fn tagging_needs_everything() {
    assert_eq!(reason(tagger("k", false, true).tag_mp3()), "MusicBrainz disabled in config");
    assert_eq!(reason(tagger("", true, true).tag_mp3()), "acoustid_api_key is empty");
    assert_eq!(reason(tagger("k", true, false).tag_mp3()), "fpcalc not installed");
    assert!(matches!(tagger("k", true, true).tag_mp3(), TagStep::Fingerprint));
    assert!(tagger("k", true, true).enabled());
    assert!(!tagger("k", false, true).enabled());
    assert!(!tagger("", true, true).enabled());
    assert!(!tagger("k", true, false).enabled());
}

#[test]
fn lookup_form_names_the_client() {
    let form = tagger("key", true, true).acoustid_form(215, "AQAA");
    let seen: Vec<(&str, &str)> = form.iter().map(|p| (p.0.as_str(), p.1.as_str())).collect();
    assert_eq!(
        seen,
        vec![
            ("client", "key"),
            ("duration", "215"),
            ("fingerprint", "AQAA"),
            ("meta", "recordings+releasegroups+tracks+releases+compress")
        ]
    );
}

/// Leads a file up to its match.
fn matched() -> TagStep {
    let step = tagger("k", true, true).tag_mp3();
    let step = Tagger::advance(step, TagEvent::Fingerprinted(Ok((215, "AQAA".to_string()))));
    match &step {
        TagStep::Lookup { duration, fingerprint } => {
            assert_eq!((*duration, fingerprint.as_str()), (215, "AQAA"));
        }
        _ => panic!("a lookup is due"),
    }
    let m = acoustid_match(&response(vec![result(0.95, vec![recording("rec")])])).unwrap();
    Tagger::advance(step, TagEvent::LookedUp(Ok(m)))
}

#[test]
fn match_leads_to_tags() {
    let step = Tagger::advance(matched(), TagEvent::Genres(Some(vec!["rock".to_string()])));
    match &step {
        TagStep::Write(tags) => {
            assert_eq!(tags.recording_mbid.as_deref(), Some("rec"));
            assert_eq!(tags.genres, vec!["rock"]);
        }
        _ => panic!("the tags are to be written"),
    }
    assert!(matches!(
        Tagger::advance(step, TagEvent::Written(Ok(()))),
        TagStep::Done(TagOutcome::Enriched(t)) if t.artist.as_deref() == Some("First")
    ));
}

#[test]
fn failures_leave_a_file_untagged() {
    let fingerprinting = || tagger("k", true, true).tag_mp3();
    let looking_up = || Tagger::advance(fingerprinting(), TagEvent::Fingerprinted(Ok((1, String::new()))));
    assert_eq!(
        reason(Tagger::advance(fingerprinting(), TagEvent::Fingerprinted(Err("boom".to_string())))),
        "fpcalc failed: boom"
    );
    assert_eq!(
        reason(Tagger::advance(looking_up(), TagEvent::LookedUp(Err("offline".to_string())))),
        "AcoustID lookup failed: offline"
    );
    assert!(matches!(
        Tagger::advance(looking_up(), TagEvent::LookedUp(Ok(None))),
        TagStep::Done(TagOutcome::NoMatch)
    ));
    let writing = Tagger::advance(matched(), TagEvent::Genres(None));
    assert!(matches!(&writing, TagStep::Write(t) if t.genres.is_empty()));
    assert_eq!(
        reason(Tagger::advance(writing, TagEvent::Written(Err("disk".to_string())))),
        "ID3 write failed: disk"
    );
    assert!(matches!(
        Tagger::advance(fingerprinting(), TagEvent::Written(Ok(()))),
        TagStep::Fingerprint
    ));
}

fn tags() -> EnrichedTags {
    EnrichedTags {
        artist: Some("Artist".to_string()),
        album: Some("Album".to_string()),
        year: Some(987),
        track_number: Some(3),
        total_tracks: Some(12),
        genres: vec!["rock".to_string(), "pop".to_string()],
        recording_mbid: Some("rec".to_string()),
        release_mbid: Some("rel".to_string()),
    }
}

#[test]
fn tags_stand_in_the_file_tag() {
    let mut tag = id3::Tag::new();
    write_id3(&mut tag, &tags());
    assert_eq!(tag.artist(), Some("Artist"));
    assert_eq!(tag.album(), Some("Album"));
    assert_eq!(tag.get("TYER").unwrap().content().text(), Some("0987"));
    assert_eq!(tag.get("TRCK").unwrap().content().text(), Some("3/12"));
    assert_eq!(tag.get("TCON").unwrap().content().text(), Some("rock; pop"));
    let ids: Vec<(&str, &str)> = tag
        .extended_texts()
        .map(|t| (t.description.as_str(), t.value.as_str()))
        .collect();
    assert_eq!(
        ids,
        vec![("MusicBrainz Recording Id", "rec"), ("MusicBrainz Album Id", "rel")]
    );
}

#[test]
fn writing_twice_replaces() {
    let mut tag = id3::Tag::new();
    write_id3(&mut tag, &tags());
    let n = tag.frames().count();
    let mut again = tags();
    again.artist = Some("Other".to_string());
    write_id3(&mut tag, &again);
    assert_eq!(tag.frames().count(), n);
    assert_eq!(tag.artist(), Some("Other"));
}

#[test]
fn title_and_pictures_stay() {
    let mut tag = id3::Tag::new();
    tag.set_title("Kept");
    tag.set_artist("Replaced");
    tag.add_frame(id3::frame::Picture {
        mime_type: "image/png".to_string(),
        picture_type: id3::frame::PictureType::CoverFront,
        description: String::new(),
        data: vec![1, 2, 3],
    });
    write_id3(&mut tag, &tags());
    assert_eq!(tag.title(), Some("Kept"));
    assert_eq!(tag.pictures().count(), 1);
    assert_eq!(tag.pictures().next().unwrap().data, vec![1, 2, 3]);
    assert_eq!(tag.artist(), Some("Artist"));
}

#[test]
fn unknown_facts_are_not_written() {
    let nothing = EnrichedTags {
        artist: None,
        album: None,
        year: None,
        track_number: None,
        total_tracks: None,
        genres: vec![],
        recording_mbid: None,
        release_mbid: None,
    };
    let mut tag = id3::Tag::new();
    tag.set_artist("Kept");
    write_id3(&mut tag, &nothing);
    assert_eq!(tag.frames().count(), 1);
    assert_eq!(tag.artist(), Some("Kept"));
}

#[test]
fn numbers_of_tracks_meet() {
    let mut only_total = tags();
    only_total.track_number = None;
    let mut tag = id3::Tag::new();
    write_id3(&mut tag, &only_total);
    assert_eq!(tag.get("TRCK").unwrap().content().text(), Some("1/12"));
    let mut only_track = tags();
    only_track.total_tracks = None;
    write_id3(&mut tag, &only_track);
    assert_eq!(tag.get("TRCK").unwrap().content().text(), Some("3/12"));
    let mut early = tags();
    early.year = Some(-5);
    write_id3(&mut tag, &early);
    assert_eq!(tag.get("TYER").unwrap().content().text(), Some("-005"));
}

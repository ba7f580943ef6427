//! Tags for downloaded audio: which match to take, which genres, and what to write.

use vstd::prelude::*;
use vstd::string::*;
use crate::config::MusicBrainzConfig;
use crate::numbers::{
    decimal, decimal_text, is_digit, law_decimal_reads_back, parse_i32, parsed_i32, push_decimal,
};
use crate::paths::opt_text;
use crate::text::{
    before_first, debug_quoted, debug_text, lemma_run_before, run_before, split_once, texts, trim,
    trimmed,
};

verus! {

/// What was found out about a recording.
#[derive(Debug)]
pub struct EnrichedTags {
    pub artist: Option<String>,
    pub album: Option<String>,
    pub year: Option<i32>,
    pub track_number: Option<u32>,
    pub total_tracks: Option<u32>,
    pub genres: Vec<String>,
    pub recording_mbid: Option<String>,
    pub release_mbid: Option<String>,
}

/// The characters of `EnrichedTags`.
pub struct EnrichedTagsView {
    pub artist: Option<Seq<char>>,
    pub album: Option<Seq<char>>,
    pub year: Option<i32>,
    pub track_number: Option<u32>,
    pub total_tracks: Option<u32>,
    pub genres: Seq<Seq<char>>,
    pub recording_mbid: Option<Seq<char>>,
    pub release_mbid: Option<Seq<char>>,
}

impl View for EnrichedTags {
    type V = EnrichedTagsView;

    open spec fn view(&self) -> EnrichedTagsView {
        EnrichedTagsView {
            artist: opt_text(self.artist),
            album: opt_text(self.album),
            year: self.year,
            track_number: self.track_number,
            total_tracks: self.total_tracks,
            genres: texts(self.genres@),
            recording_mbid: opt_text(self.recording_mbid),
            release_mbid: opt_text(self.release_mbid),
        }
    }
}

/// What became of tagging a file.
#[derive(Debug)]
pub enum TagOutcome {
    Enriched(EnrichedTags),
    NoMatch,
    /// It was not tagged, for the reason given.
    Skipped(String),
}

/// The characters of a `TagOutcome`.
pub enum TagOutcomeView {
    Enriched(EnrichedTagsView),
    NoMatch,
    Skipped(Seq<char>),
}

impl View for TagOutcome {
    type V = TagOutcomeView;

    open spec fn view(&self) -> TagOutcomeView {
        match *self {
            TagOutcome::Enriched(t) => TagOutcomeView::Enriched(t@),
            TagOutcome::NoMatch => TagOutcomeView::NoMatch,
            TagOutcome::Skipped(reason) => TagOutcomeView::Skipped(reason@),
        }
    }
}

/// An answer of the AcoustID service; only what is used of it.
pub struct AcoustIdResponse {
    pub status: String,
    /// The message of the error that the service reports.
    pub error: Option<String>,
    pub results: Vec<AcoustIdResult>,
}

/// A candidate. The score is a double-precision number, held as its bits.
pub struct AcoustIdResult {
    pub score_bits: u64,
    pub recordings: Vec<AcoustIdRecording>,
}

pub struct AcoustIdRecording {
    pub id: String,
    pub title: Option<String>,
    /// The names of the artists.
    pub artists: Option<Vec<String>>,
    pub releases: Option<Vec<AcoustIdRelease>>,
}

pub struct AcoustIdRelease {
    pub id: String,
    pub title: Option<String>,
    pub date: Option<String>,
    pub mediums: Option<Vec<AcoustIdMedium>>,
}

pub struct AcoustIdMedium {
    pub track_count: Option<u32>,
    /// The positions of the tracks.
    pub tracks: Option<Vec<Option<u32>>>,
}

/// The bits of 0.85, the lowest score that is taken for a match. Scores run from 0 to 1, where 1 is
/// a perfect match; this keeps near misses out and lets live takes and remasters in.
pub const SCORE_THRESHOLD_BITS: u64 = 0x3feb_3333_3333_3333;

/// The bits of positive infinity. The bits of a number from zero up to here grow with the number;
/// those above belong to no number or to a negative one.
pub const INFINITY_BITS: u64 = 0x7ff0_0000_0000_0000;

/// Whether the number with these bits reaches the threshold.
pub open spec fn good_score(bits: u64) -> bool {
    SCORE_THRESHOLD_BITS <= bits <= INFINITY_BITS
}

/// The match that was taken.
#[derive(Debug)]
pub struct AcoustIdMatch {
    pub score_bits: u64,
    pub recording_mbid: String,
    pub title: Option<String>,
    pub artist: Option<String>,
    pub album: Option<String>,
    pub year: Option<i32>,
    pub track_number: Option<u32>,
    pub total_tracks: Option<u32>,
    pub release_mbid: Option<String>,
}

/// The characters of an `AcoustIdMatch`.
pub struct AcoustIdMatchView {
    pub score_bits: u64,
    pub recording_mbid: Seq<char>,
    pub title: Option<Seq<char>>,
    pub artist: Option<Seq<char>>,
    pub album: Option<Seq<char>>,
    pub year: Option<i32>,
    pub track_number: Option<u32>,
    pub total_tracks: Option<u32>,
    pub release_mbid: Option<Seq<char>>,
}

impl View for AcoustIdMatch {
    type V = AcoustIdMatchView;

    open spec fn view(&self) -> AcoustIdMatchView {
        AcoustIdMatchView {
            score_bits: self.score_bits,
            recording_mbid: self.recording_mbid@,
            title: opt_text(self.title),
            artist: opt_text(self.artist),
            album: opt_text(self.album),
            year: self.year,
            track_number: self.track_number,
            total_tracks: self.total_tracks,
            release_mbid: opt_text(self.release_mbid),
        }
    }
}

/// The first recording of the first candidate that scores well enough and has a recording, with
/// the score.
pub open spec fn best_recording(results: Seq<AcoustIdResult>) -> Option<(u64, AcoustIdRecording)>
    decreases results.len(),
{
    if results.len() == 0 {
        None
    } else if good_score(results[0].score_bits) && results[0].recordings@.len() > 0 {
        Some((results[0].score_bits, results[0].recordings@[0]))
    } else {
        best_recording(results.drop_first())
    }
}

/// The first element of an optional list.
pub open spec fn first_of<T>(list: Option<Vec<T>>) -> Option<T> {
    match list {
        Some(v) => if v@.len() > 0 {
            Some(v@[0])
        } else {
            None
        },
        None => None,
    }
}

/// The year that a date starts with.
pub open spec fn year_of(date: Seq<char>) -> Option<i32> {
    parsed_i32(before_first(date, '-'))
}

/// The year of an optional date.
pub open spec fn opt_year(date: Option<String>) -> Option<i32> {
    match date {
        Some(d) => year_of(d@),
        None => None,
    }
}

/// The position of the first track of a medium.
pub open spec fn first_position(medium: AcoustIdMedium) -> Option<u32> {
    match first_of(medium.tracks) {
        Some(position) => position,
        None => None,
    }
}

/// What is taken of a recording: its first artist, and of its first release the title, the year,
/// the id, and the numbers of the first medium.
pub open spec fn match_of(score_bits: u64, rec: AcoustIdRecording) -> AcoustIdMatchView {
    let release = first_of(rec.releases);
    let medium = match release {
        Some(rel) => first_of(rel.mediums),
        None => None,
    };
    AcoustIdMatchView {
        score_bits,
        recording_mbid: rec.id@,
        title: opt_text(rec.title),
        artist: opt_text(first_of(rec.artists)),
        album: match release {
            Some(rel) => opt_text(rel.title),
            None => None,
        },
        year: match release {
            Some(rel) => opt_year(rel.date),
            None => None,
        },
        track_number: match medium {
            Some(m) => first_position(m),
            None => None,
        },
        total_tracks: match medium {
            Some(m) => m.track_count,
            None => None,
        },
        release_mbid: match release {
            Some(rel) => Some(rel.id@),
            None => None,
        },
    }
}

/// Reads the year that a date like `2019-04-15` starts with.
pub fn parse_year(date: &str) -> (r: Option<i32>)
    ensures
        r == year_of(date@),
{
    match split_once(date, '-') {
        Some((head, _)) => parse_i32(head.as_str()),
        None => {
            assert(before_first(date@, '-') == date@);
            parse_i32(date)
        },
    }
}

/// A copy of an optional string.
fn copy_text(o: &Option<String>) -> (r: Option<String>)
    ensures
        opt_text(r) == opt_text(*o),
{
    match o {
        Some(s) => Some(s.clone()),
        None => None,
    }
}

/// Takes from a recording what the tags need.
fn take_match(score_bits: u64, rec: &AcoustIdRecording) -> (r: AcoustIdMatch)
    ensures
        r@ == match_of(score_bits, *rec),
        r.recording_mbid@ == rec.id@,
        match rec.releases {
            Some(list) => list@.len() > 0 ==> {
                &&& opt_text(r.release_mbid) == Some(list@[0].id@)
                &&& opt_text(r.album) == opt_text(list@[0].title)
            },
            None => r.release_mbid is None && r.album is None,
        },
{
    let artist: Option<String> = match &rec.artists {
        Some(list) => {
            if list.len() > 0 {
                Some(list[0].clone())
            } else {
                None
            }
        },
        None => None,
    };
    let mut found = AcoustIdMatch {
        score_bits,
        recording_mbid: rec.id.clone(),
        title: copy_text(&rec.title),
        artist,
        album: None,
        year: None,
        track_number: None,
        total_tracks: None,
        release_mbid: None,
    };
    if let Some(list) = &rec.releases {
        if list.len() > 0 {
            let rel = &list[0];
            found.album = copy_text(&rel.title);
            found.year = match &rel.date {
                Some(d) => parse_year(d.as_str()),
                None => None,
            };
            found.release_mbid = Some(rel.id.clone());
            if let Some(mediums) = &rel.mediums {
                if mediums.len() > 0 {
                    let medium = &mediums[0];
                    found.total_tracks = medium.track_count;
                    if let Some(tracks) = &medium.tracks {
                        if tracks.len() > 0 {
                            found.track_number = tracks[0];
                        }
                    }
                }
            }
        }
    }
    found
}

/// Why an answer of the AcoustID service cannot be used: its status and the message of its error.
#[derive(Debug)]
pub struct AcoustIdRefusal {
    pub status: String,
    pub error: Option<String>,
}

/// An optional text as `{:?}` shows it.
pub open spec fn debug_option(s: Option<Seq<char>>) -> Seq<char> {
    match s {
        Some(t) => "Some("@ + debug_quoted(t) + ")"@,
        None => "None"@,
    }
}

impl AcoustIdRefusal {
    /// What is said of the refusal.
    pub fn message(&self) -> (r: String)
        ensures
            r@ == "AcoustID status="@ + self.status@ + ", error="@ + debug_option(
                opt_text(self.error),
            ),
    {
        let shown = match &self.error {
            Some(e) => {
                let quoted = debug_text(e.as_str());
                let mut shown = "Some(".to_owned();
                shown.append(quoted.as_str());
                shown.append(")");
                shown
            },
            None => "None".to_owned(),
        };
        let mut out = "AcoustID status=".to_owned();
        out.append(self.status.as_str());
        out.append(", error=");
        out.append(shown.as_str());
        out
    }
}

/// Takes the match of an answer, if there is one that scores well enough.
pub fn acoustid_match(body: &AcoustIdResponse) -> (r: Result<Option<AcoustIdMatch>, AcoustIdRefusal>)
    ensures
        match r {
            Ok(Some(m)) => body.status@ == "ok"@ && match best_recording(body.results@) {
                Some((score_bits, rec)) => m@ == match_of(score_bits, rec),
                None => false,
            },
            Ok(None) => body.status@ == "ok"@ && best_recording(body.results@) is None,
            Err(e) => body.status@ != "ok"@ && e.status@ == body.status@ && opt_text(e.error)
                == opt_text(body.error),
        },
{
    if !crate::text::same_text(body.status.as_str(), "ok") {
        return Err(
            AcoustIdRefusal { status: body.status.clone(), error: copy_text(&body.error) },
        );
    }
    let mut i: usize = 0;
    assert(body.results@.skip(0) == body.results@);
    while i < body.results.len()
        invariant
            body.status@ == "ok"@,
            i <= body.results@.len(),
            best_recording(body.results@.skip(i as int)) == best_recording(body.results@),
        decreases body.results@.len() - i,
    {
        let result = &body.results[i];
        assert(body.results@.skip(i as int).drop_first() == body.results@.skip(i + 1));
        assert(body.results@.skip(i as int)[0] == *result);
        if SCORE_THRESHOLD_BITS <= result.score_bits && result.score_bits <= INFINITY_BITS
            && result.recordings.len() > 0 {
            return Ok(Some(take_match(result.score_bits, &result.recordings[0])));
        }
        i += 1;
    }
    Ok(None)
}

/// A genre and how many people named it.
pub struct MbGenre {
    pub name: String,
    pub count: Option<u32>,
}

/// A genre that someone named.
pub struct CountedGenre {
    pub name: Seq<char>,
    pub count: u32,
}

/// The genres that someone named, in the order of the answer.
pub open spec fn counted_genres(genres: Seq<MbGenre>) -> Seq<CountedGenre>
    decreases genres.len(),
{
    if genres.len() == 0 {
        seq![]
    } else {
        let before = counted_genres(genres.drop_last());
        match genres.last().count {
            Some(n) => if n > 0 {
                before.push(CountedGenre { name: genres.last().name@, count: n })
            } else {
                before
            },
            None => before,
        }
    }
}

/// The position of the first genre that was named most often.
pub open spec fn most_counted(genres: Seq<CountedGenre>) -> int
    decreases genres.len(),
{
    if genres.len() <= 1 {
        0
    } else {
        let best = most_counted(genres.drop_last());
        if genres.last().count > genres[best].count {
            genres.len() - 1
        } else {
            best
        }
    }
}

/// The names of the `n` genres that were named most often, the most frequent first; of two that were
/// named equally often, the one that the answer lists first.
pub open spec fn top_genres(genres: Seq<CountedGenre>, n: nat) -> Seq<Seq<char>>
    decreases n,
{
    if n == 0 || genres.len() == 0 {
        seq![]
    } else {
        let best = most_counted(genres);
        seq![genres[best].name] + top_genres(genres.remove(best), (n - 1) as nat)
    }
}

/// The position of the first genre that was named most often is one that no other exceeds, and no
/// earlier one equals.
pub proof fn law_most_counted(genres: Seq<CountedGenre>)
    requires
        genres.len() > 0,
    ensures
        0 <= most_counted(genres) < genres.len(),
        forall|j: int|
            0 <= j < genres.len() ==> (#[trigger] genres[j]).count <= genres[most_counted(
                genres,
            )].count,
        forall|j: int|
            0 <= j < most_counted(genres) ==> (#[trigger] genres[j]).count < genres[most_counted(
                genres,
            )].count,
    decreases genres.len(),
{
    if genres.len() > 1 {
        let shorter = genres.drop_last();
        law_most_counted(shorter);
        assert forall|j: int| 0 <= j < genres.len() implies (#[trigger] genres[j]).count
            <= genres[most_counted(genres)].count by {
            if j < genres.len() - 1 {
                assert(shorter[j] == genres[j]);
            }
        }
        assert forall|j: int| 0 <= j < most_counted(genres) implies (#[trigger] genres[j]).count
            < genres[most_counted(genres)].count by {
            assert(shorter[j] == genres[j]);
        }
    }
}

/// As many genres are picked as are wanted, or all where there are fewer.
pub proof fn law_top_genres_len(genres: Seq<CountedGenre>, n: nat)
    ensures
        top_genres(genres, n).len() == (if n <= genres.len() {
            n
        } else {
            genres.len()
        }),
    decreases n,
{
    if n > 0 && genres.len() > 0 {
        law_most_counted(genres);
        law_top_genres_len(genres.remove(most_counted(genres)), (n - 1) as nat);
    }
}

/// The genres that are kept of an answer: at most three.
pub fn pick_genres(genres: &Vec<MbGenre>) -> (r: Vec<String>)
    ensures
        texts(r@) == top_genres(counted_genres(genres@), 3),
        r@.len() <= 3,
        exists|at: Seq<int>| are_the_first(counted_genres(genres@), texts(r@), at),
{
    let mut names: Vec<String> = Vec::new();
    let mut counts: Vec<u32> = Vec::new();
    let ghost mut left = counted_genres(genres@.take(0));
    let mut i: usize = 0;
    while i < genres.len()
        invariant
            i <= genres@.len(),
            left == counted_genres(genres@.take(i as int)),
            names@.len() == left.len(),
            counts@.len() == left.len(),
            forall|k: int|
                0 <= k < left.len() ==> (#[trigger] left[k]).name == names@[k]@ && left[k].count
                    == counts@[k],
        decreases genres@.len() - i,
    {
        assert(genres@.take(i + 1).drop_last() == genres@.take(i as int));
        assert(genres@.take(i + 1).last() == genres@[i as int]);
        proof {
            left = counted_genres(genres@.take(i + 1));
        }
        match genres[i].count {
            Some(n) => {
                if n > 0 {
                    names.push(genres[i].name.clone());
                    counts.push(n);
                }
            },
            None => {},
        }
        i += 1;
    }
    assert(genres@.take(i as int) == genres@);
    let mut out: Vec<String> = Vec::new();
    let mut wanted: usize = 3;
    assert(texts(out@) + top_genres(left, 3) == top_genres(left, 3));
    while wanted > 0 && counts.len() > 0
        invariant
            wanted <= 3,
            names@.len() == left.len(),
            counts@.len() == left.len(),
            forall|k: int|
                0 <= k < left.len() ==> (#[trigger] left[k]).name == names@[k]@ && left[k].count
                    == counts@[k],
            texts(out@) + top_genres(left, wanted as nat) == top_genres(
                counted_genres(genres@),
                3,
            ),
        decreases wanted,
    {
        let best: usize = position_of_most(&counts, Ghost(left));
        proof {
            law_most_counted(left);
        }
        let ghost before = out@;
        let ghost rest = left.remove(best as int);
        let _ = counts.remove(best);
        let name = names.remove(best);
        let ghost picked = name@;
        out.push(name);
        assert(texts(out@) == texts(before).push(picked));
        assert(texts(before) + (seq![picked] + top_genres(rest, (wanted - 1) as nat)) == texts(
            out@,
        ) + top_genres(rest, (wanted - 1) as nat));
        proof {
            left = rest;
        }
        wanted -= 1;
    }
    assert(texts(out@) + Seq::<Seq<char>>::empty() == texts(out@));
    proof {
        law_top_genres_len(counted_genres(genres@), 3);
        law_top_genres_come_first(counted_genres(genres@), 3);
        assert(texts(out@).len() == out@.len());
    }
    out
}

/// The position of the first count that no other exceeds.
fn position_of_most(counts: &Vec<u32>, Ghost(genres): Ghost<Seq<CountedGenre>>) -> (best: usize)
    requires
        counts@.len() > 0,
        counts@.len() == genres.len(),
        forall|k: int| 0 <= k < genres.len() ==> (#[trigger] genres[k]).count == counts@[k],
    ensures
        best == most_counted(genres),
        best < counts@.len(),
{
    let mut best: usize = 0;
    let mut i: usize = 1;
    while i < counts.len()
        invariant
            counts@.len() == genres.len(),
            forall|k: int| 0 <= k < genres.len() ==> (#[trigger] genres[k]).count == counts@[k],
            1 <= i <= counts@.len(),
            best < i,
            best == most_counted(genres.take(i as int)),
        decreases counts@.len() - i,
    {
        assert(genres.take(i + 1).drop_last() == genres.take(i as int));
        assert(genres.take(i + 1).last() == genres[i as int]);
        assert(genres.take(i + 1)[best as int] == genres[best as int]);
        if counts[i] > counts[best] {
            best = i;
        }
        i += 1;
    }
    assert(genres.take(i as int) == genres);
    best
}

/// Cap on the body of an HTTP answer. Answers for one recording are far below; this stops a broken
/// endpoint from filling the memory.
pub const HTTP_RESPONSE_CAP: u64 = 2_097_152;

/// Refuses a body that is longer than the cap.
pub fn check_body_len(len: u64) -> (r: Result<(), String>)
    ensures
        len <= HTTP_RESPONSE_CAP ==> r is Ok,
        len > HTTP_RESPONSE_CAP ==> r is Err && r->Err_0@ == "HTTP response exceeded "@ + decimal(
            HTTP_RESPONSE_CAP as nat,
        ) + " bytes"@,
{
    if len > HTTP_RESPONSE_CAP {
        let mut m = "HTTP response exceeded ".to_owned();
        push_decimal(&mut m, HTTP_RESPONSE_CAP);
        m.append(" bytes");
        return Err(m);
    }
    Ok(())
}

/// Seconds that fpcalc may take. A healthy run takes two; this keeps a corrupted file from holding
/// up everything else.
pub const FPCALC_TIMEOUT_SECS: u64 = 60;

/// How a run of fpcalc ended.
pub enum FpcalcRun {
    /// It was killed at the end of its time.
    TimedOut,
    /// It could not be waited for; the message of the system.
    WaitFailed { detail: String },
    /// It ended by itself; `status` is how the system describes the exit status.
    Exited { success: bool, status: String, stderr: Vec<u8> },
}

/// Why a run of fpcalc gave no fingerprint.
pub open spec fn fpcalc_failure(run: FpcalcRun, path: Seq<char>) -> Option<Seq<char>> {
    match run {
        FpcalcRun::TimedOut => Some(
            "fpcalc timed out after "@ + decimal(FPCALC_TIMEOUT_SECS as nat) + "s on "@ + path,
        ),
        FpcalcRun::WaitFailed { detail } => Some("fpcalc wait_timeout error: "@ + detail@),
        FpcalcRun::Exited { success, status, stderr } => if success {
            None
        } else {
            Some(
                "fpcalc exited "@ + status@ + ": "@ + trimmed(crate::text::utf8_text(stderr@)),
            )
        },
    }
}

/// Fails unless fpcalc ended well.
pub fn fingerprint(run: FpcalcRun, path: &str) -> (r: Result<(), String>)
    ensures
        match fpcalc_failure(run, path@) {
            Some(m) => r is Err && r->Err_0@ == m,
            None => r is Ok,
        },
{
    match run {
        FpcalcRun::TimedOut => {
            let mut m = "fpcalc timed out after ".to_owned();
            push_decimal(&mut m, FPCALC_TIMEOUT_SECS);
            m.append("s on ");
            m.append(path);
            Err(m)
        },
        FpcalcRun::WaitFailed { detail } => {
            let mut m = "fpcalc wait_timeout error: ".to_owned();
            m.append(detail.as_str());
            Err(m)
        },
        FpcalcRun::Exited { success, status, stderr } => {
            if success {
                return Ok(());
            }
            let text = crate::text::from_utf8_lossy(&stderr);
            let mut m = "fpcalc exited ".to_owned();
            m.append(status.as_str());
            m.append(": ");
            m.append(trim(text.as_str()).as_str());
            Err(m)
        },
    }
}

/// Nanoseconds between two requests to MusicBrainz, which allows one request a second.
pub const MB_MIN_INTERVAL_NANOS: u128 = 1_100_000_000;

/// Where requests to MusicBrainz identify the program.
pub fn user_agent() -> (r: &'static str)
    ensures
        r@ == "ytsync-pi/0.1.0 ( https://github.com/jj-repository/ytsync-pi )"@,
{
    "ytsync-pi/0.1.0 ( https://github.com/jj-repository/ytsync-pi )"
}

/// Nanoseconds to wait before the next request, given how long ago the last one was, if there was
/// one.
pub open spec fn throttle_wait(since_last_nanos: Option<u128>) -> u128 {
    match since_last_nanos {
        Some(n) => if n < MB_MIN_INTERVAL_NANOS {
            (MB_MIN_INTERVAL_NANOS - n) as u128
        } else {
            0
        },
        None => 0,
    }
}

/// Tells how many nanoseconds to wait before the next request.
pub fn throttle_mb(since_last_nanos: Option<u128>) -> (wait: u128)
    ensures
        wait == throttle_wait(since_last_nanos),
{
    match since_last_nanos {
        Some(n) => {
            if n < MB_MIN_INTERVAL_NANOS {
                MB_MIN_INTERVAL_NANOS - n
            } else {
                0
            }
        },
        None => 0,
    }
}

/// Waiting as long as asked keeps any two requests at least the interval apart, and waits for
/// nothing where they already are.
pub proof fn law_requests_are_spaced(since_last_nanos: u128)
    ensures
        since_last_nanos + throttle_wait(Some(since_last_nanos)) >= MB_MIN_INTERVAL_NANOS,
        since_last_nanos >= MB_MIN_INTERVAL_NANOS ==> throttle_wait(Some(since_last_nanos)) == 0,
{
}

/// Where fingerprints are looked up.
pub fn acoustid_url() -> (r: &'static str)
    ensures
        r@ == "https://api.acoustid.org/v2/lookup"@,
{
    "https://api.acoustid.org/v2/lookup"
}

/// Where the genres of a recording are asked for.
pub fn genres_url(recording_mbid: &str) -> (r: String)
    ensures
        r@ == "https://musicbrainz.org/ws/2/recording/"@ + recording_mbid@
            + "?inc=genres&fmt=json"@,
{
    let mut u = "https://musicbrainz.org/ws/2/recording/".to_owned();
    u.append(recording_mbid);
    u.append("?inc=genres&fmt=json");
    u
}

/// Decides about tagging files.
pub struct Tagger {
    pub cfg: MusicBrainzConfig,
    pub fpcalc_available: bool,
}

/// Why no file can be tagged, if so.
pub open spec fn tagging_obstacle(cfg: MusicBrainzConfig, fpcalc_available: bool) -> Option<
    Seq<char>,
> {
    if !cfg.enabled {
        Some("MusicBrainz disabled in config"@)
    } else if cfg.acoustid_api_key@.len() == 0 {
        Some("acoustid_api_key is empty"@)
    } else if !fpcalc_available {
        Some("fpcalc not installed"@)
    } else {
        None
    }
}

/// Where tagging a file stands, and what is to be done next.
pub enum TagStep {
    /// The file is to be fingerprinted.
    Fingerprint,
    /// The fingerprint is to be looked up.
    Lookup { duration: u32, fingerprint: String },
    /// There is a match; its genres are to be asked for.
    AskGenres(AcoustIdMatch),
    /// The tags are to be written into the file.
    Write(EnrichedTags),
    /// Nothing is left to be done.
    Done(TagOutcome),
}

/// The characters of a `TagStep`.
pub enum TagStepView {
    Fingerprint,
    Lookup { duration: u32, fingerprint: Seq<char> },
    AskGenres(AcoustIdMatchView),
    Write(EnrichedTagsView),
    Done(TagOutcomeView),
}

impl View for TagStep {
    type V = TagStepView;

    open spec fn view(&self) -> TagStepView {
        match *self {
            TagStep::Fingerprint => TagStepView::Fingerprint,
            TagStep::Lookup { duration, fingerprint } => TagStepView::Lookup {
                duration,
                fingerprint: fingerprint@,
            },
            TagStep::AskGenres(m) => TagStepView::AskGenres(m@),
            TagStep::Write(t) => TagStepView::Write(t@),
            TagStep::Done(o) => TagStepView::Done(o@),
        }
    }
}

/// What came of a step.
pub enum TagEvent {
    /// The duration in seconds and the fingerprint, or why there is none.
    Fingerprinted(Result<(u32, String), String>),
    /// The match, if there is one, or why the lookup failed.
    LookedUp(Result<Option<AcoustIdMatch>, String>),
    /// The genres, if they could be learnt.
    Genres(Option<Vec<String>>),
    /// The tags were written, or why they were not.
    Written(Result<(), String>),
}

/// The characters of a `TagEvent`.
pub enum TagEventView {
    Fingerprinted(Result<(u32, Seq<char>), Seq<char>>),
    LookedUp(Result<Option<AcoustIdMatchView>, Seq<char>>),
    Genres(Option<Seq<Seq<char>>>),
    /// Why the tags were not written, if they were not.
    Written(Option<Seq<char>>),
}

impl View for TagEvent {
    type V = TagEventView;

    open spec fn view(&self) -> TagEventView {
        match *self {
            TagEvent::Fingerprinted(Ok((d, f))) => TagEventView::Fingerprinted(Ok((d, f@))),
            TagEvent::Fingerprinted(Err(e)) => TagEventView::Fingerprinted(Err(e@)),
            TagEvent::LookedUp(Ok(Some(m))) => TagEventView::LookedUp(Ok(Some(m@))),
            TagEvent::LookedUp(Ok(None)) => TagEventView::LookedUp(Ok(None)),
            TagEvent::LookedUp(Err(e)) => TagEventView::LookedUp(Err(e@)),
            TagEvent::Genres(Some(g)) => TagEventView::Genres(Some(texts(g@))),
            TagEvent::Genres(None) => TagEventView::Genres(None),
            TagEvent::Written(Ok(_)) => TagEventView::Written(None),
            TagEvent::Written(Err(e)) => TagEventView::Written(Some(e@)),
        }
    }
}

/// The step that follows. Where the genres cannot be learnt there are none; any other failure means
/// that the file is not tagged. An event that does not answer the step changes nothing.
pub open spec fn tag_next(step: TagStepView, event: TagEventView) -> TagStepView {
    match (step, event) {
        (TagStepView::Fingerprint, TagEventView::Fingerprinted(Ok((d, f)))) => TagStepView::Lookup {
            duration: d,
            fingerprint: f,
        },
        (TagStepView::Fingerprint, TagEventView::Fingerprinted(Err(e))) => TagStepView::Done(
            TagOutcomeView::Skipped("fpcalc failed: "@ + e),
        ),
        (TagStepView::Lookup { .. }, TagEventView::LookedUp(Ok(Some(m)))) => TagStepView::AskGenres(
            m,
        ),
        (TagStepView::Lookup { .. }, TagEventView::LookedUp(Ok(None))) => TagStepView::Done(
            TagOutcomeView::NoMatch,
        ),
        (TagStepView::Lookup { .. }, TagEventView::LookedUp(Err(e))) => TagStepView::Done(
            TagOutcomeView::Skipped("AcoustID lookup failed: "@ + e),
        ),
        (TagStepView::AskGenres(m), TagEventView::Genres(g)) => TagStepView::Write(
            tags_of(
                m,
                match g {
                    Some(genres) => genres,
                    None => seq![],
                },
            ),
        ),
        (TagStepView::Write(t), TagEventView::Written(None)) => TagStepView::Done(
            TagOutcomeView::Enriched(t),
        ),
        (TagStepView::Write(_), TagEventView::Written(Some(e))) => TagStepView::Done(
            TagOutcomeView::Skipped("ID3 write failed: "@ + e),
        ),
        _ => step,
    }
}

/// The tags of a match and its genres.
pub open spec fn tags_of(found: AcoustIdMatchView, genres: Seq<Seq<char>>) -> EnrichedTagsView {
    EnrichedTagsView {
        artist: found.artist,
        album: found.album,
        year: found.year,
        track_number: found.track_number,
        total_tracks: found.total_tracks,
        genres,
        recording_mbid: Some(found.recording_mbid),
        release_mbid: found.release_mbid,
    }
}

impl Tagger {
    /// `fpcalc_available` is whether the fingerprinting program was found.
    pub fn new(cfg: MusicBrainzConfig, fpcalc_available: bool) -> (r: Self)
        ensures
            r.cfg == cfg,
            r.fpcalc_available == fpcalc_available,
    {
        Tagger { cfg, fpcalc_available }
    }

    /// Whether files can be tagged at all.
    pub fn enabled(&self) -> (r: bool)
        ensures
            r == (tagging_obstacle(self.cfg, self.fpcalc_available) is None),
    {
        self.cfg.enabled && !self.cfg.acoustid_api_key.as_str().is_empty() && self.fpcalc_available
    }

    /// Begins to tag a file. Where files cannot be tagged at all, nothing is done.
    pub fn tag_mp3(&self) -> (r: TagStep)
        ensures
            r@ == match tagging_obstacle(self.cfg, self.fpcalc_available) {
                Some(reason) => TagStepView::Done(TagOutcomeView::Skipped(reason)),
                None => TagStepView::Fingerprint,
            },
    {
        if !self.cfg.enabled {
            return TagStep::Done(TagOutcome::Skipped("MusicBrainz disabled in config".to_owned()));
        }
        if self.cfg.acoustid_api_key.as_str().is_empty() {
            return TagStep::Done(TagOutcome::Skipped("acoustid_api_key is empty".to_owned()));
        }
        if !self.fpcalc_available {
            return TagStep::Done(TagOutcome::Skipped("fpcalc not installed".to_owned()));
        }
        TagStep::Fingerprint
    }

    /// Takes note of what came of a step, and moves on.
    pub fn advance(step: TagStep, event: TagEvent) -> (r: TagStep)
        ensures
            r@ == tag_next(step@, event@),
    {
        match (step, event) {
            (TagStep::Fingerprint, TagEvent::Fingerprinted(Ok((duration, fingerprint)))) => {
                TagStep::Lookup { duration, fingerprint }
            },
            (TagStep::Fingerprint, TagEvent::Fingerprinted(Err(e))) => {
                Self::skipped("fpcalc failed: ", e)
            },
            (TagStep::Lookup { .. }, TagEvent::LookedUp(Ok(Some(m)))) => TagStep::AskGenres(m),
            (TagStep::Lookup { .. }, TagEvent::LookedUp(Ok(None))) => TagStep::Done(
                TagOutcome::NoMatch,
            ),
            (TagStep::Lookup { .. }, TagEvent::LookedUp(Err(e))) => {
                Self::skipped("AcoustID lookup failed: ", e)
            },
            (TagStep::AskGenres(m), TagEvent::Genres(g)) => TagStep::Write(Self::tags_for(m, g)),
            (TagStep::Write(t), TagEvent::Written(Ok(_))) => TagStep::Done(TagOutcome::Enriched(t)),
            (TagStep::Write(_), TagEvent::Written(Err(e))) => {
                Self::skipped("ID3 write failed: ", e)
            },
            (step, _) => step,
        }
    }

    /// The file is not tagged, for a reason.
    fn skipped(what: &str, why: String) -> (r: TagStep)
        ensures
            r@ == TagStepView::Done(TagOutcomeView::Skipped(what@ + why@)),
    {
        let mut m = what.to_owned();
        m.append(why.as_str());
        TagStep::Done(TagOutcome::Skipped(m))
    }

    /// The form that asks about a fingerprint.
    pub fn acoustid_form(&self, duration: u32, fingerprint: &str) -> (r: Vec<(String, String)>)
        ensures
            r@.map_values(|p: (String, String)| (p.0@, p.1@)) == seq![
                ("client"@, self.cfg.acoustid_api_key@),
                ("duration"@, decimal(duration as nat)),
                ("fingerprint"@, fingerprint@),
                ("meta"@, "recordings+releasegroups+tracks+releases+compress"@),
            ],
    {
        let mut v: Vec<(String, String)> = Vec::new();
        v.push(("client".to_owned(), self.cfg.acoustid_api_key.clone()));
        v.push(("duration".to_owned(), decimal_text(duration as u64)));
        v.push(("fingerprint".to_owned(), fingerprint.to_owned()));
        v.push(
            (
                "meta".to_owned(),
                "recordings+releasegroups+tracks+releases+compress".to_owned(),
            ),
        );
        assert(v@.map_values(|p: (String, String)| (p.0@, p.1@)) =~= seq![
            ("client"@, self.cfg.acoustid_api_key@),
            ("duration"@, decimal(duration as nat)),
            ("fingerprint"@, fingerprint@),
            ("meta"@, "recordings+releasegroups+tracks+releases+compress"@),
        ]);
        v
    }

    /// The tags to write for a match. Without an answer about the genres, there are none.
    fn tags_for(found: AcoustIdMatch, genres: Option<Vec<String>>) -> (r: EnrichedTags)
        ensures
            r@ == tags_of(
                found@,
                match genres {
                    Some(g) => texts(g@),
                    None => seq![],
                },
            ),
    {
        let genres: Vec<String> = match genres {
            Some(g) => g,
            None => {
                let none: Vec<String> = Vec::new();
                assert(texts(none@) == Seq::<Seq<char>>::empty());
                none
            },
        };
        EnrichedTags {
            artist: found.artist,
            album: found.album,
            year: found.year,
            track_number: found.track_number,
            total_tracks: found.total_tracks,
            genres,
            recording_mbid: Some(found.recording_mbid),
            release_mbid: found.release_mbid,
        }
    }
}

/// How far tagging a file has come.
pub open spec fn tag_rank(step: TagStepView) -> int {
    match step {
        TagStepView::Fingerprint => 0,
        TagStepView::Lookup { .. } => 1,
        TagStepView::AskGenres(_) => 2,
        TagStepView::Write(_) => 3,
        TagStepView::Done(_) => 4,
    }
}

/// Tagging a file ends after four steps at most: each event leaves it where it is or brings it
/// further.
pub proof fn law_tagging_goes_forward(step: TagStepView, event: TagEventView)
    ensures
        tag_next(step, event) == step || tag_rank(tag_next(step, event)) > tag_rank(step),
        tag_rank(tag_next(step, event)) <= 4,
{
}

/// A file counts as enriched only where just these tags were written into it.
pub proof fn law_enriched_means_written(
    step: TagStepView,
    event: TagEventView,
    tags: EnrichedTagsView,
)
    requires
        step !is Done,
        tag_next(step, event) == TagStepView::Done(TagOutcomeView::Enriched(tags)),
    ensures
        step == TagStepView::Write(tags),
        event == TagEventView::Written(None),
{
}

/// What is taken of a recording: its id and title, its first artist, and of its first release the
/// title, the id, the year of the date, and from the first medium the number of tracks and the
/// position of the first track.
pub proof fn law_match_is_of_the_first_release(score_bits: u64, rec: AcoustIdRecording)
    ensures
        ({
            let m = match_of(score_bits, rec);
            &&& m.score_bits == score_bits
            &&& m.recording_mbid == rec.id@
            &&& m.title == opt_text(rec.title)
            &&& match rec.artists {
                Some(a) => if a@.len() > 0 {
                    m.artist == Some(a@[0]@)
                } else {
                    m.artist is None
                },
                None => m.artist is None,
            }
            &&& match rec.releases {
                Some(v) => v@.len() > 0 ==> {
                    let rel = v@[0];
                    &&& m.album == opt_text(rel.title)
                    &&& m.release_mbid == Some(rel.id@)
                    &&& rel.date is None ==> m.year is None
                    &&& rel.date is Some ==> m.year == year_of(rel.date->0@)
                    &&& match rel.mediums {
                        Some(w) => w@.len() > 0 ==> {
                            &&& m.total_tracks == w@[0].track_count
                            &&& match w@[0].tracks {
                                Some(t) => if t@.len() > 0 {
                                    m.track_number == t@[0]
                                } else {
                                    m.track_number is None
                                },
                                None => m.track_number is None,
                            }
                        },
                        None => m.total_tracks is None && m.track_number is None,
                    }
                },
                None => true,
            }
            &&& (rec.releases is None || rec.releases->0@.len() == 0) ==> {
                &&& m.album is None
                &&& m.year is None
                &&& m.release_mbid is None
                &&& m.total_tracks is None
                &&& m.track_number is None
            }
        }),
{
}

/// Releases behind the first do not matter: two recordings that agree in all but those give the same
/// match.
pub proof fn law_later_releases_do_not_matter(
    score_bits: u64,
    a: AcoustIdRecording,
    b: AcoustIdRecording,
)
    requires
        a.id == b.id,
        a.title == b.title,
        a.artists == b.artists,
        a.releases is Some,
        b.releases is Some,
        a.releases->0@.len() > 0,
        b.releases->0@.len() > 0,
        a.releases->0@[0] == b.releases->0@[0],
    ensures
        match_of(score_bits, a) == match_of(score_bits, b),
{
}

/// Of an answer, the first result is taken that scores at least 0.85 and has a recording, and of it
/// the first recording, whatever stands before it that does not, and whatever behind it.
pub proof fn law_first_good_recording_is_taken(
    before: Seq<AcoustIdResult>,
    result: AcoustIdResult,
    behind: Seq<AcoustIdResult>,
)
    requires
        forall|i: int|
            0 <= i < before.len() ==> (#[trigger] before[i]).recordings@.len() == 0
                || before[i].score_bits < 0x3feb_3333_3333_3333 || before[i].score_bits
                > 0x7ff0_0000_0000_0000,
        result.recordings@.len() > 0,
        0x3feb_3333_3333_3333 <= result.score_bits <= 0x7ff0_0000_0000_0000,
    ensures
        best_recording(before.push(result) + behind) == Some(
            (result.score_bits, result.recordings@[0]),
        ),
        best_recording(before) is None,
    decreases before.len(),
{
    let all = before.push(result) + behind;
    if before.len() == 0 {
        assert(all[0] == result);
    } else {
        assert(all[0] == before[0]);
        assert(all.drop_first() =~= before.drop_first().push(result) + behind);
        assert forall|i: int| 0 <= i < before.drop_first().len() implies (
        #[trigger] before.drop_first()[i]).recordings@.len() == 0 || before.drop_first()[i].score_bits
            < 0x3feb_3333_3333_3333 || before.drop_first()[i].score_bits > 0x7ff0_0000_0000_0000 by {
            assert(before.drop_first()[i] == before[i + 1]);
        }
        law_first_good_recording_is_taken(before.drop_first(), result, behind);
    }
}

/// The year of a date is the number that it starts with, up to a dash or to the end.
pub proof fn law_date_starts_with_its_year(year: u32, rest: Seq<char>)
    requires
        year <= i32::MAX,
    ensures
        year_of(decimal(year as nat)) == Some(year as i32),
        year_of(decimal(year as nat).push('-') + rest) == Some(year as i32),
{
    let d = decimal(year as nat);
    law_decimal_reads_back(year as nat);
    assert(is_digit(d[0]));
    lemma_run_before(d, '-');
    let m = run_before(d, '-') as int;
    if m < d.len() {
        assert(is_digit(d[m]));
    }
    assert(before_first(d, '-') =~= d);
    let s = d.push('-') + rest;
    lemma_run_before(s, '-');
    let n = run_before(s, '-') as int;
    assert(s[d.len() as int] == '-');
    if n < d.len() {
        assert(s[n] == d[n]);
        assert(is_digit(d[n]));
    }
    assert(before_first(s, '-') =~= d);
}

/// The genres of two answers one after the other are those of the first followed by those of the
/// second, and just those count that someone named.
pub proof fn law_named_genres_are_kept(a: Seq<MbGenre>, b: Seq<MbGenre>, g: MbGenre)
    ensures
        counted_genres(a + b) == counted_genres(a) + counted_genres(b),
        counted_genres(seq![g]) == match g.count {
            Some(n) => if n > 0 {
                seq![CountedGenre { name: g.name@, count: n }]
            } else {
                seq![]
            },
            None => seq![],
        },
    decreases b.len(),
{
    assert(seq![g].drop_last() =~= seq![]);
    assert(counted_genres(seq![g].drop_last()) =~= seq![]);
    if b.len() == 0 {
        assert(a + b =~= a);
        assert(counted_genres(a) + counted_genres(b) =~= counted_genres(a));
    } else {
        assert((a + b).drop_last() =~= a + b.drop_last());
        law_named_genres_are_kept(a, b.drop_last(), g);
        assert(counted_genres(a + b) =~= counted_genres(a) + counted_genres(b));
    }
}

/// Whether one genre comes before another: it was named more often, or as often and listed earlier.
pub open spec fn comes_before(genres: Seq<CountedGenre>, i: int, j: int) -> bool {
    genres[i].count > genres[j].count || (genres[i].count == genres[j].count && i < j)
}

/// Whether names are those of the genres at some positions, each coming before the next, and all
/// before whatever is not among them.
pub open spec fn are_the_first(
    genres: Seq<CountedGenre>,
    names: Seq<Seq<char>>,
    at: Seq<int>,
) -> bool {
    &&& at.len() == names.len()
    &&& forall|k: int|
        0 <= k < at.len() ==> 0 <= #[trigger] at[k] < genres.len() && names[k]
            == genres[at[k]].name
    &&& forall|k: int, l: int|
        0 <= k < l < at.len() ==> comes_before(genres, #[trigger] at[k], #[trigger] at[l])
    &&& forall|k: int, j: int|
        #![trigger at[k], genres[j]]
        0 <= k < at.len() && 0 <= j < genres.len() && !at.contains(j) ==> comes_before(
            genres,
            at[k],
            j,
        )
}

/// The genres that are picked are those that were named most often, in that order; none that was
/// left out comes before one that was taken.
pub proof fn law_top_genres_come_first(genres: Seq<CountedGenre>, n: nat)
    ensures
        exists|at: Seq<int>| are_the_first(genres, top_genres(genres, n), at),
    decreases n,
{
    if n == 0 || genres.len() == 0 {
        assert(are_the_first(genres, top_genres(genres, n), Seq::<int>::empty()));
    } else {
        law_most_counted(genres);
        let best = most_counted(genres);
        let rest = genres.remove(best);
        let m = (n - 1) as nat;
        law_top_genres_come_first(rest, m);
        let below = choose|at: Seq<int>| are_the_first(rest, top_genres(rest, m), at);
        let up = |i: int|
            if i < best {
                i
            } else {
                i + 1
            };
        let at = seq![best] + below.map_values(up);
        let names = top_genres(genres, n);
        assert forall|k: int| 0 <= k < below.len() implies #[trigger] at[k + 1] == up(below[k])
            && genres[at[k + 1]] == rest[below[k]] && at[k + 1] != best by {}
        assert forall|k: int| 0 <= k < at.len() implies 0 <= #[trigger] at[k] < genres.len()
            && names[k] == genres[at[k]].name by {
            if k > 0 {
                assert(at[(k - 1) + 1] == up(below[k - 1]));
            }
        }
        assert forall|k: int, l: int| 0 <= k < l < at.len() implies comes_before(
            genres,
            #[trigger] at[k],
            #[trigger] at[l],
        ) by {
            assert(at[(l - 1) + 1] == up(below[l - 1]));
            if k > 0 {
                assert(at[(k - 1) + 1] == up(below[k - 1]));
                assert(comes_before(rest, below[k - 1], below[l - 1]));
            }
        }
        assert forall|k: int, j: int|
            #![trigger at[k], genres[j]]
            0 <= k < at.len() && 0 <= j < genres.len() && !at.contains(j) implies comes_before(
            genres,
            at[k],
            j,
        ) by {
            assert(at[0] == best);
            assert(j != best);
            if k > 0 {
                let i = if j < best {
                    j
                } else {
                    j - 1
                };
                assert(rest[i] == genres[j]);
                if below.contains(i) {
                    let l = choose|l: int| 0 <= l < below.len() && below[l] == i;
                    assert(at[l + 1] == up(below[l]));
                    assert(at.contains(at[l + 1]));
                }
                assert(at[(k - 1) + 1] == up(below[k - 1]));
                assert(comes_before(rest, below[k - 1], i));
            }
        }
        assert(are_the_first(genres, names, at));
    }
}

/// A request that comes too early waits for just what is missing of the interval, and the first one
/// for nothing. The interval is a tenth more than the second that the service asks for.
pub proof fn law_waits_are_exact(since_last_nanos: u128)
    ensures
        since_last_nanos < MB_MIN_INTERVAL_NANOS ==> since_last_nanos + throttle_wait(
            Some(since_last_nanos),
        ) == MB_MIN_INTERVAL_NANOS,
        throttle_wait(None) == 0,
        MB_MIN_INTERVAL_NANOS == 1_100_000_000,
{
}

/// Files can be tagged just where the service is on, there is a key for it and the fingerprinting
/// program is there; otherwise the reason is the first of these that is missing.
pub proof fn law_tagging_needs_all(cfg: MusicBrainzConfig, fpcalc_available: bool)
    ensures
        tagging_obstacle(cfg, fpcalc_available) is None <==> cfg.enabled
            && cfg.acoustid_api_key@.len() > 0 && fpcalc_available,
        !cfg.enabled ==> tagging_obstacle(cfg, fpcalc_available) == Some(
            "MusicBrainz disabled in config"@,
        ),
        cfg.enabled && cfg.acoustid_api_key@.len() == 0 ==> tagging_obstacle(cfg, fpcalc_available)
            == Some("acoustid_api_key is empty"@),
        cfg.enabled && cfg.acoustid_api_key@.len() > 0 && !fpcalc_available ==> tagging_obstacle(
            cfg,
            fpcalc_available,
        ) == Some("fpcalc not installed"@),
{
}

/// The steps of tagging hand on what was found: the fingerprint is looked up as it was taken, the
/// match as it was found leads to its genres, and both lead to the tags.
pub proof fn law_tagging_hands_on_what_was_found(
    duration: u32,
    fingerprint: Seq<char>,
    found: AcoustIdMatchView,
    genres: Option<Seq<Seq<char>>>,
    why: Seq<char>,
)
    ensures
        ({
            let lookup = tag_next(
                TagStepView::Fingerprint,
                TagEventView::Fingerprinted(Ok((duration, fingerprint))),
            );
            let ask = tag_next(lookup, TagEventView::LookedUp(Ok(Some(found))));
            let write = tag_next(ask, TagEventView::Genres(genres));
            &&& lookup == (TagStepView::Lookup { duration, fingerprint })
            &&& ask == TagStepView::AskGenres(found)
            &&& match write {
                TagStepView::Write(t) => {
                    &&& t.artist == found.artist
                    &&& t.album == found.album
                    &&& t.year == found.year
                    &&& t.track_number == found.track_number
                    &&& t.total_tracks == found.total_tracks
                    &&& t.recording_mbid == Some(found.recording_mbid)
                    &&& t.release_mbid == found.release_mbid
                    &&& genres is Some ==> t.genres == genres->0
                    &&& genres is None ==> t.genres.len() == 0
                    &&& tag_next(write, TagEventView::Written(None)) == TagStepView::Done(
                        TagOutcomeView::Enriched(t),
                    )
                },
                _ => false,
            }
            &&& tag_next(write, TagEventView::Written(Some(why))) == TagStepView::Done(
                TagOutcomeView::Skipped("ID3 write failed: "@ + why),
            )
            &&& tag_next(lookup, TagEventView::LookedUp(Ok(None))) == TagStepView::Done(
                TagOutcomeView::NoMatch,
            )
            &&& tag_next(lookup, TagEventView::LookedUp(Err(why))) == TagStepView::Done(
                TagOutcomeView::Skipped("AcoustID lookup failed: "@ + why),
            )
            &&& tag_next(TagStepView::Fingerprint, TagEventView::Fingerprinted(Err(why)))
                == TagStepView::Done(TagOutcomeView::Skipped("fpcalc failed: "@ + why))
        }),
{
}

/// A run of fpcalc that ended well gives no reason to fail; any other gives one, which names the
/// file, the cause or the error output.
pub proof fn law_fpcalc_failures_are_told(
    path: Seq<char>,
    detail: String,
    status: String,
    stderr: Vec<u8>,
)
    ensures
        fpcalc_failure(FpcalcRun::Exited { success: true, status, stderr }, path) is None,
        fpcalc_failure(FpcalcRun::Exited { success: false, status, stderr }, path) == Some(
            "fpcalc exited "@ + status@ + ": "@ + trimmed(crate::text::utf8_text(stderr@)),
        ),
        fpcalc_failure(FpcalcRun::TimedOut, path) == Some(
            "fpcalc timed out after "@ + decimal(60) + "s on "@ + path,
        ),
        fpcalc_failure(FpcalcRun::WaitFailed { detail }, path) == Some(
            "fpcalc wait_timeout error: "@ + detail@,
        ),
{
}

/// A body of two mebibytes is taken and a longer one is not.
pub proof fn law_body_limit()
    ensures
        HTTP_RESPONSE_CAP == 2 * 1024 * 1024,
{
}

/// What is said of a missing error and of one that is there differs.
pub proof fn law_error_is_shown_where_there_is_one(error: Seq<char>)
    ensures
        debug_option(None) == "None"@,
        debug_option(Some(error)) == "Some("@ + debug_quoted(error) + ")"@,
{
}

/// An event that answers another step changes nothing, and what is done stays done.
pub proof fn law_tagging_waits_for_its_answer(step: TagStepView, event: TagEventView)
    ensures
        step is Done ==> tag_next(step, event) == step,
        step is Fingerprint && event !is Fingerprinted ==> tag_next(step, event) == step,
        step is Lookup && event !is LookedUp ==> tag_next(step, event) == step,
        step is AskGenres && event !is Genres ==> tag_next(step, event) == step,
        step is Write && event !is Written ==> tag_next(step, event) == step,
{
}

/// The tags are written field by field as they were found.
pub proof fn law_match_and_tags_are_seen_as_they_are(found: AcoustIdMatch, tags: EnrichedTags)
    ensures
        found@.score_bits == found.score_bits,
        found@.recording_mbid == found.recording_mbid@,
        found@.title == opt_text(found.title),
        found@.artist == opt_text(found.artist),
        found@.album == opt_text(found.album),
        found@.year == found.year,
        found@.track_number == found.track_number,
        found@.total_tracks == found.total_tracks,
        found@.release_mbid == opt_text(found.release_mbid),
        tags@.artist == opt_text(tags.artist),
        tags@.album == opt_text(tags.album),
        tags@.year == tags.year,
        tags@.track_number == tags.track_number,
        tags@.total_tracks == tags.total_tracks,
        tags@.genres == texts(tags.genres@),
        tags@.recording_mbid == opt_text(tags.recording_mbid),
        tags@.release_mbid == opt_text(tags.release_mbid),
{
}

} // verus!

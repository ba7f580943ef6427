//! What yt-dlp is asked for, and what its answers mean.

use vstd::prelude::*;
use vstd::string::*;
use crate::config::Config;
use crate::numbers::{
    decimal, decimal_text, is_digit, law_decimal_reads_back, law_u32_reads_back, parse_u32,
    parsed_u32, push_decimal,
};
use crate::paths::{file_stem, join_path, joined_path, opt_text, parent, path_parent, path_stem};
use crate::text::{
    after_first, before_first, chars_of, contains, from_utf8_lossy, has_part, has_suffix,
    is_white, law_outer_white_space_does_not_matter, law_suffix_is_an_ending,
    law_trimming_takes_white_space_only, lemma_run_before,
    lemma_trimmed_end, lemma_trimmed_end_first, lines, lines_of, run_before, same_text, split_once,
    texts, to_lowercase, trim, trim_end, trim_end_matches, trimmed, trimmed_end,
    trimmed_end_of, trimmed_start, unicode_lowered, utf8_text,
};
use crate::ytdlp_updater::{
    auth_failure_signatures, extraction_error_signatures, shows_any, YtDlpUpdater,
};

verus! {

/// One entry of a flat playlist listing.
#[derive(Debug)]
pub struct PlaylistEntry {
    pub id: String,
    pub title: String,
}

/// The characters of a `PlaylistEntry`.
pub struct PlaylistEntryView {
    pub id: Seq<char>,
    pub title: Seq<char>,
}

impl View for PlaylistEntry {
    type V = PlaylistEntryView;

    open spec fn view(&self) -> PlaylistEntryView {
        PlaylistEntryView { id: self.id@, title: self.title@ }
    }
}

/// What a successful download left behind.
#[derive(Debug)]
pub struct DownloadResult {
    pub file_path: String,
    pub title: String,
}

/// The characters of a `DownloadResult`.
pub struct DownloadResultView {
    pub file_path: Seq<char>,
    pub title: Seq<char>,
}

impl View for DownloadResult {
    type V = DownloadResultView;

    open spec fn view(&self) -> DownloadResultView {
        DownloadResultView { file_path: self.file_path@, title: self.title@ }
    }
}

/// A failed invocation of yt-dlp, with what a retry needs to know.
#[derive(Debug)]
pub struct YtDlpError {
    pub message: String,
    pub stderr: String,
    pub exit_code: Option<i32>,
    pub looks_like_extractor: bool,
    pub looks_like_auth: bool,
    pub timed_out: bool,
}

/// The characters of a `YtDlpError`.
pub struct YtDlpErrorView {
    pub message: Seq<char>,
    pub stderr: Seq<char>,
    pub exit_code: Option<i32>,
    pub looks_like_extractor: bool,
    pub looks_like_auth: bool,
    pub timed_out: bool,
}

impl View for YtDlpError {
    type V = YtDlpErrorView;

    open spec fn view(&self) -> YtDlpErrorView {
        YtDlpErrorView {
            message: self.message@,
            stderr: self.stderr@,
            exit_code: self.exit_code,
            looks_like_extractor: self.looks_like_extractor,
            looks_like_auth: self.looks_like_auth,
            timed_out: self.timed_out,
        }
    }
}

impl YtDlpErrorView {
    /// An error of the machine, before yt-dlp said anything.
    pub open spec fn local(message: Seq<char>) -> YtDlpErrorView {
        YtDlpErrorView {
            message,
            stderr: seq![],
            exit_code: None,
            looks_like_extractor: false,
            looks_like_auth: false,
            timed_out: false,
        }
    }

    /// An unsuccessful exit of yt-dlp; the causes are read off its error output.
    pub open spec fn exited(
        message: Seq<char>,
        exit_code: Option<i32>,
        stderr: Seq<char>,
    ) -> YtDlpErrorView {
        YtDlpErrorView {
            message,
            stderr,
            exit_code,
            looks_like_extractor: shows_any(stderr, extraction_error_signatures()),
            looks_like_auth: shows_any(stderr, auth_failure_signatures()),
            timed_out: false,
        }
    }
}

/// An error of the machine, before yt-dlp said anything.
fn local_error(message: String) -> (r: YtDlpError)
    ensures
        r@ == YtDlpErrorView::local(message@),
{
    YtDlpError {
        message,
        stderr: String::new(),
        exit_code: None,
        looks_like_extractor: false,
        looks_like_auth: false,
        timed_out: false,
    }
}

/// An unsuccessful exit of yt-dlp.
fn exit_error(message: String, exit_code: Option<i32>, stderr: String) -> (r: YtDlpError)
    ensures
        r@ == YtDlpErrorView::exited(message@, exit_code, stderr@),
        r.looks_like_auth == shows_any(stderr@, auth_failure_signatures()),
        r.looks_like_extractor == shows_any(stderr@, extraction_error_signatures()),
        r.message@ == message@,
        r.stderr@ == stderr@,
        r.exit_code == exit_code,
        !r.timed_out,
{
    let looks_like_extractor = YtDlpUpdater::looks_like_extraction_failure(stderr.as_str());
    let looks_like_auth = YtDlpUpdater::looks_like_auth_failure(stderr.as_str());
    YtDlpError {
        message,
        stderr,
        exit_code,
        looks_like_extractor,
        looks_like_auth,
        timed_out: false,
    }
}

/// The directory that a download goes to could not be made.
pub fn dest_dir_error(dir: &str, detail: &str) -> (r: YtDlpError)
    ensures
        r@ == YtDlpErrorView::local("create dest dir "@ + dir@ + ": "@ + detail@),
{
    let mut m = "create dest dir ".to_owned();
    m.append(dir);
    m.append(": ");
    m.append(detail);
    local_error(m)
}

/// The directory of the archive file could not be made.
pub fn archive_dir_error(dir: &str, detail: &str) -> (r: YtDlpError)
    ensures
        r@ == YtDlpErrorView::local("create archive dir "@ + dir@ + ": "@ + detail@),
{
    let mut m = "create archive dir ".to_owned();
    m.append(dir);
    m.append(": ");
    m.append(detail);
    local_error(m)
}

/// yt-dlp could not be started.
pub fn spawn_error(detail: &str) -> (r: YtDlpError)
    ensures
        r@ == YtDlpErrorView::local("spawn yt-dlp: "@ + detail@),
{
    let mut m = "spawn yt-dlp: ".to_owned();
    m.append(detail);
    local_error(m)
}

/// What an invocation of yt-dlp that ended by itself gave.
#[derive(Debug)]
pub struct InvocationOutput {
    pub success: bool,
    pub exit_code: Option<i32>,
    pub stdout: String,
    pub stderr: String,
}

/// How waiting for yt-dlp ended.
pub enum WaitOutcome {
    /// It ended by itself.
    Exited { success: bool, exit_code: Option<i32> },
    /// It was killed at the end of its time.
    TimedOut { after_secs: u64 },
    /// It could not be waited for; the message of the system.
    Failed { detail: String },
}

/// Bytes that are kept of each output stream. Generous for regular chatter, and small beside the
/// memory that the service may use.
pub const STREAM_CAP_BYTES: usize = 1_048_576;

/// Bytes that are kept of the output of a listing: all of them, since every entry counts.
pub const LISTING_CAP_BYTES: usize = usize::MAX;

/// What has been kept of a stream of which at most `cap` bytes are kept. The rest is read and
/// dropped, so that the writer never blocks on a full pipe.
pub struct CappedStream {
    pub kept: Vec<u8>,
    pub truncated: bool,
    pub cap: usize,
}

impl CappedStream {
    /// Whether this is what is kept of a stream that brought `all`.
    pub open spec fn keeps(self, all: Seq<u8>) -> bool {
        if all.len() <= self.cap {
            self.kept@ == all && !self.truncated
        } else {
            self.kept@ == all.take(self.cap as int) && self.truncated
        }
    }

    /// Nothing has been read yet.
    pub fn empty(cap: usize) -> (r: Self)
        ensures
            r.cap == cap,
            r.keeps(seq![]),
    {
        let r = CappedStream { kept: Vec::new(), truncated: false, cap };
        assert(r.kept@ == Seq::<u8>::empty());
        r
    }

    /// Takes in the next bytes of the stream.
    pub fn absorb(&mut self, chunk: &[u8])
        requires
            old(self).kept@.len() <= old(self).cap,
            old(self).truncated ==> old(self).kept@.len() == old(self).cap,
        ensures
            final(self).cap == old(self).cap,
            final(self).kept@.len() <= final(self).cap,
            final(self).truncated ==> final(self).kept@.len() == final(self).cap,
            forall|all: Seq<u8>| #[trigger]
                old(self).keeps(all) ==> final(self).keeps(all + chunk@),
            final(self).truncated == (old(self).truncated || chunk@.len() > old(self).cap
                - old(self).kept@.len()),
    {
        let ghost before = *self;
        let room: usize = self.cap - self.kept.len();
        let n: usize = if chunk.len() <= room {
            chunk.len()
        } else {
            self.truncated = true;
            room
        };
        let mut i: usize = 0;
        while i < n
            invariant
                i <= n <= chunk@.len(),
                self.cap == before.cap,
                self.truncated == (before.truncated || n < chunk@.len()),
                self.kept@ == before.kept@ + chunk@.take(i as int),
            decreases n - i,
        {
            self.kept.push(chunk[i]);
            assert(chunk@.take(i + 1) == chunk@.take(i as int).push(chunk@[i as int]));
            i += 1;
        }
        assert forall|all: Seq<u8>| #[trigger] before.keeps(all) implies self.keeps(
            all + chunk@,
        ) by {
            let whole = all + chunk@;
            if whole.len() <= self.cap {
                assert(chunk@.take(n as int) == chunk@);
            } else {
                assert(self.kept@ == whole.take(self.cap as int));
            }
        }
    }
}

/// What stands in the error output where a stream was cut off.
pub open spec fn truncation_note() -> Seq<char> {
    "\n[stderr/stdout truncated at 1 MiB]"@
}

/// The error output as it is kept: the text, and the note where either stream was cut off.
pub open spec fn noted_stderr(stderr: Seq<char>, truncated: bool) -> Seq<char> {
    if truncated {
        stderr + truncation_note()
    } else {
        stderr
    }
}

/// What came of an invocation, from how the wait ended and what the streams brought.
pub fn run_with_timeout(wait: WaitOutcome, stdout: &CappedStream, stderr: &CappedStream) -> (r:
    Result<InvocationOutput, YtDlpError>)
    ensures
        ({
            let err = noted_stderr(utf8_text(stderr.kept@), stdout.truncated || stderr.truncated);
            match wait {
                WaitOutcome::Exited { success, exit_code } => {
                    &&& r is Ok
                    &&& r->Ok_0.success == success
                    &&& r->Ok_0.exit_code == exit_code
                    &&& r->Ok_0.stdout@ == utf8_text(stdout.kept@)
                    &&& r->Ok_0.stderr@ == err
                },
                WaitOutcome::TimedOut { after_secs } => r is Err && r->Err_0@ == (YtDlpErrorView {
                    message: "yt-dlp timed out after "@ + decimal(after_secs as nat) + "s"@,
                    stderr: err,
                    exit_code: None,
                    looks_like_extractor: false,
                    looks_like_auth: false,
                    timed_out: true,
                }),
                WaitOutcome::Failed { detail } => r is Err && r->Err_0@ == (YtDlpErrorView {
                    message: "wait_timeout error: "@ + detail@,
                    stderr: err,
                    exit_code: None,
                    looks_like_extractor: false,
                    looks_like_auth: false,
                    timed_out: false,
                }),
            }
        }),
        r is Ok <==> wait is Exited,
        match r {
            Ok(out) => {
                &&& !stdout.truncated && !stderr.truncated ==> out.stderr@ == utf8_text(
                    stderr.kept@,
                )
                &&& stdout.truncated ==> has_suffix(out.stderr@, truncation_note())
                &&& stderr.truncated ==> has_suffix(out.stderr@, truncation_note())
            },
            Err(e) => {
                &&& e.timed_out <==> wait is TimedOut
                &&& e.exit_code is None
                &&& !e.looks_like_extractor
                &&& !e.looks_like_auth
                &&& !stdout.truncated && !stderr.truncated ==> e.stderr@ == utf8_text(
                    stderr.kept@,
                )
                &&& stdout.truncated ==> has_suffix(e.stderr@, truncation_note())
                &&& stderr.truncated ==> has_suffix(e.stderr@, truncation_note())
            },
        },
{
    let out_text = from_utf8_lossy(&stdout.kept);
    let mut err_text = from_utf8_lossy(&stderr.kept);
    if stdout.truncated || stderr.truncated {
        err_text.append("\n[stderr/stdout truncated at 1 MiB]");
        proof {
            law_suffix_is_an_ending(utf8_text(stderr.kept@), truncation_note(), err_text@);
        }
    }
    match wait {
        WaitOutcome::Exited { success, exit_code } => Ok(
            InvocationOutput { success, exit_code, stdout: out_text, stderr: err_text },
        ),
        WaitOutcome::TimedOut { after_secs } => {
            let mut m = "yt-dlp timed out after ".to_owned();
            push_decimal(&mut m, after_secs);
            m.append("s");
            Err(
                YtDlpError {
                    message: m,
                    stderr: err_text,
                    exit_code: None,
                    looks_like_extractor: false,
                    looks_like_auth: false,
                    timed_out: true,
                },
            )
        },
        WaitOutcome::Failed { detail } => {
            let mut m = "wait_timeout error: ".to_owned();
            m.append(detail.as_str());
            Err(
                YtDlpError {
                    message: m,
                    stderr: err_text,
                    exit_code: None,
                    looks_like_extractor: false,
                    looks_like_auth: false,
                    timed_out: false,
                },
            )
        },
    }
}

/// The entry that a line of a listing stands for, if any: an id and a title with a tab between
/// them. A line without an id, or with the placeholder `NA` for it, stands for none.
pub open spec fn entry_of(line: Seq<char>) -> Option<PlaylistEntryView> {
    let kept = trimmed_end(line);
    let has_tab = run_before(kept, '\t') < kept.len();
    let id = if has_tab {
        trimmed(before_first(kept, '\t'))
    } else {
        trimmed(kept)
    };
    let title = if has_tab {
        trimmed(after_first(kept, '\t'))
    } else {
        seq![]
    };
    if kept.len() == 0 || id.len() == 0 || id == "NA"@ {
        None
    } else {
        Some(PlaylistEntryView { id, title })
    }
}

/// The entries that the lines of a listing stand for, in their order.
pub open spec fn entries_of(listing: Seq<Seq<char>>) -> Seq<PlaylistEntryView>
    decreases listing.len(),
{
    if listing.len() == 0 {
        seq![]
    } else {
        let before = entries_of(listing.drop_last());
        match entry_of(listing.last()) {
            Some(e) => before.push(e),
            None => before,
        }
    }
}

/// The characters of each entry of a list.
pub open spec fn entry_views(v: Seq<PlaylistEntry>) -> Seq<PlaylistEntryView> {
    v.map_values(|e: PlaylistEntry| e@)
}

/// Reads one line of a listing.
fn parse_entry(line: &str) -> (r: Option<PlaylistEntry>)
    ensures
        match r {
            Some(e) => entry_of(line@) == Some(e@),
            None => entry_of(line@) is None,
        },
{
    let kept = trim_end(line);
    if kept.as_str().is_empty() {
        return None;
    }
    let (id, title) = match split_once(kept.as_str(), '\t') {
        Some((a, b)) => (trim(a.as_str()), trim(b.as_str())),
        None => (trim(kept.as_str()), String::new()),
    };
    if id.as_str().is_empty() || same_text(id.as_str(), "NA") {
        return None;
    }
    Some(PlaylistEntry { id, title })
}

/// Reads a listing.
pub fn parse_playlist(stdout: &str) -> (r: Vec<PlaylistEntry>)
    ensures
        entry_views(r@) == entries_of(lines_of(stdout@)),
{
    let listing = lines(stdout);
    let ghost all = texts(listing@);
    let mut out: Vec<PlaylistEntry> = Vec::new();
    let mut i: usize = 0;
    assert(entry_views(out@) == entries_of(all.take(0)));
    while i < listing.len()
        invariant
            all == texts(listing@),
            i <= listing@.len(),
            entry_views(out@) == entries_of(all.take(i as int)),
        decreases listing@.len() - i,
    {
        assert(all.take(i + 1).drop_last() == all.take(i as int));
        assert(all.take(i + 1).last() == listing@[i as int]@);
        let ghost before = out@;
        match parse_entry(listing[i].as_str()) {
            Some(e) => {
                out.push(e);
                assert(entry_views(out@) == entry_views(before).push(e@));
            },
            None => {},
        }
        i += 1;
    }
    assert(all.take(i as int) == all);
    out
}

/// The last of the lines that is not blank, trimmed.
pub open spec fn last_text(listing: Seq<Seq<char>>) -> Option<Seq<char>>
    decreases listing.len(),
{
    if listing.len() == 0 {
        None
    } else if trimmed(listing.last()).len() > 0 {
        Some(trimmed(listing.last()))
    } else {
        last_text(listing.drop_last())
    }
}

/// The path that yt-dlp printed: its last output line that is not blank.
pub fn extract_filepath(stdout: &str) -> (r: Option<String>)
    ensures
        opt_text(r) == last_text(lines_of(stdout@)),
{
    let listing = lines(stdout);
    let ghost all = texts(listing@);
    let mut i: usize = listing.len();
    assert(all.take(all.len() as int) == all);
    while i > 0
        invariant
            all == texts(listing@),
            i <= listing@.len(),
            last_text(all.take(i as int)) == last_text(all),
            all == lines_of(stdout@),
        decreases i,
    {
        assert(all.take(i as int).drop_last() == all.take(i - 1));
        assert(all.take(i as int).last() == listing@[i - 1]@);
        let line = trim(listing[i - 1].as_str());
        if !line.as_str().is_empty() {
            return Some(line);
        }
        i -= 1;
    }
    None
}

/// Whether lower-cased error output says that the archive lists the id already.
pub open spec fn tells_archive_hit(lower: Seq<char>) -> bool {
    has_part(lower, "has already been recorded in the archive"@) || has_part(
        lower,
        "already in archive"@,
    )
}

/// Tells whether lower-cased error output says that the archive lists the id already.
pub fn lowered_tells_archive_hit(lower: &str) -> (r: bool)
    ensures
        r == tells_archive_hit(lower@),
{
    let chars = chars_of(lower);
    contains(&chars, "has already been recorded in the archive") || contains(
        &chars,
        "already in archive",
    )
}

/// Tells whether yt-dlp skipped a download because its archive lists the id. The wording is matched
/// in any mix of upper and lower case, on parts that are stable across versions.
pub fn looks_like_archive_hit(stderr: &str) -> (r: bool)
    ensures
        r == tells_archive_hit(unicode_lowered(stderr@)),
        vstd::utf8::is_ascii_chars(stderr@) ==> r == tells_archive_hit(
            crate::text::ascii_lowered(stderr@),
        ),
{
    let lower = to_lowercase(stderr);
    lowered_tells_archive_hit(lower.as_str())
}

/// The height that a quality like `1080p` names.
pub open spec fn quality_height(q: Seq<char>) -> Option<u32> {
    parsed_u32(trimmed_end_of(trimmed_end_of(trimmed(q), 'p'), 'P'))
}

/// Reads a quality like `1080p`, `720P` or `480`.
pub fn parse_quality_height(q: &str) -> (r: Option<u32>)
    ensures
        r == quality_height(q@),
{
    let t = trim(q);
    let t = trim_end_matches(t.as_str(), 'p');
    let t = trim_end_matches(t.as_str(), 'P');
    parse_u32(t.as_str())
}

/// The height that a quality caps a video at: heights out of range cap nothing.
pub open spec fn height_cap(quality: Option<Seq<char>>) -> Option<u32> {
    match quality {
        Some(q) => match quality_height(q) {
            Some(h) => if 144 <= h <= 4320 {
                Some(h)
            } else {
                None
            },
            None => None,
        },
        None => None,
    }
}

/// The format expression for a height cap.
pub open spec fn video_format(cap: Option<u32>) -> Seq<char> {
    match cap {
        Some(h) => "bv*[height<="@ + decimal(h as nat) + "]+ba/b[height<="@ + decimal(h as nat)
            + "]"@,
        None => "bv*+ba/b"@,
    }
}

/// The characters of an optional borrowed string.
pub open spec fn opt_str(o: Option<&str>) -> Option<Seq<char>> {
    match o {
        Some(s) => Some(s@),
        None => None,
    }
}

/// Builds the format expression for video downloads.
pub fn build_video_format(quality_cap: Option<&str>) -> (r: String)
    ensures
        r@ == video_format(height_cap(opt_str(quality_cap))),
{
    let height: Option<u32> = match quality_cap {
        Some(q) => parse_quality_height(q),
        None => None,
    };
    match height {
        Some(h) => {
            if h >= 144 && h <= 4320 {
                let mut out = "bv*[height<=".to_owned();
                push_decimal(&mut out, h as u64);
                out.append("]+ba/b[height<=");
                push_decimal(&mut out, h as u64);
                out.append("]");
                return out;
            }
        },
        None => {},
    }
    "bv*+ba/b".to_owned()
}

/// The title of a download: the stem of its file, or the id where there is none.
pub open spec fn title_for(stem: Option<Seq<char>>, video_id: Seq<char>) -> Seq<char> {
    match stem {
        Some(s) => s,
        None => video_id,
    }
}

/// What a finished download means, given the stem of the path that was printed.
pub open spec fn download_meaning(
    failure: Seq<char>,
    video_id: Seq<char>,
    out: InvocationOutput,
    stem: Option<Seq<char>>,
    lowered_stderr: Seq<char>,
) -> Result<Option<DownloadResultView>, YtDlpErrorView> {
    let path = last_text(lines_of(out.stdout@));
    if !out.success {
        Err(YtDlpErrorView::exited(failure + video_id, out.exit_code, out.stderr@))
    } else if path is Some {
        Ok(Some(DownloadResultView { file_path: path->0, title: title_for(stem, video_id) }))
    } else if tells_archive_hit(lowered_stderr) {
        Ok(None)
    } else {
        Err(
            YtDlpErrorView {
                message: "yt-dlp reported success but emitted no filepath for "@ + video_id,
                stderr: out.stderr@,
                exit_code: out.exit_code,
                looks_like_extractor: false,
                looks_like_auth: false,
                timed_out: false,
            },
        )
    }
}

/// The characters of the result of a download.
pub open spec fn download_view(r: Result<Option<DownloadResult>, YtDlpError>) -> Result<
    Option<DownloadResultView>,
    YtDlpErrorView,
> {
    match r {
        Ok(Some(d)) => Ok(Some(d@)),
        Ok(None) => Ok(None),
        Err(e) => Err(e@),
    }
}

/// What a download gave, from the invocation and, where that failed before it ended, its error.
pub open spec fn download_outcome(
    failure: Seq<char>,
    video_id: Seq<char>,
    invocation: Result<InvocationOutput, YtDlpError>,
) -> Result<Option<DownloadResultView>, YtDlpErrorView> {
    match invocation {
        Ok(out) => {
            let path = last_text(lines_of(out.stdout@));
            let stem = if path is Some {
                path_stem(path->0)
            } else {
                None
            };
            download_meaning(failure, video_id, out, stem, unicode_lowered(out.stderr@))
        },
        Err(e) => Err(e@),
    }
}

/// The title of a download, from the stem of its file.
pub fn download_title(stem: Option<String>, video_id: &str) -> (r: String)
    ensures
        r@ == title_for(opt_text(stem), video_id@),
{
    match stem {
        Some(s) => s,
        None => video_id.to_owned(),
    }
}

/// Reads the outcome of a download off the invocation.
fn finish_download(
    failure: &str,
    video_id: &str,
    invocation: Result<InvocationOutput, YtDlpError>,
) -> (r: Result<Option<DownloadResult>, YtDlpError>)
    ensures
        download_view(r) == download_outcome(failure@, video_id@, invocation),
{
    let out = match invocation {
        Ok(out) => out,
        Err(e) => {
            return Err(e);
        },
    };
    if !out.success {
        let mut m = failure.to_owned();
        m.append(video_id);
        return Err(exit_error(m, out.exit_code, out.stderr));
    }
    match extract_filepath(out.stdout.as_str()) {
        Some(file_path) => {
            let title = download_title(file_stem(file_path.as_str()), video_id);
            Ok(Some(DownloadResult { file_path, title }))
        },
        None => {
            if looks_like_archive_hit(out.stderr.as_str()) {
                Ok(None)
            } else {
                let mut m = "yt-dlp reported success but emitted no filepath for ".to_owned();
                m.append(video_id);
                Err(
                    YtDlpError {
                        message: m,
                        stderr: out.stderr,
                        exit_code: out.exit_code,
                        looks_like_extractor: false,
                        looks_like_auth: false,
                        timed_out: false,
                    },
                )
            }
        },
    }
}

/// The arguments of a listing.
pub open spec fn list_args(cookies: Seq<char>, url: Seq<char>) -> Seq<Seq<char>> {
    seq![
        "--cookies"@,
        cookies,
        "--flat-playlist"@,
        "--print"@,
        "%(id)s\t%(title)s"@,
        "--no-warnings"@,
        "--"@,
        url,
    ]
}

/// The arguments that every download starts with.
pub open spec fn download_head(
    cookies: Seq<char>,
    archive: Seq<char>,
    cfg: Config,
) -> Seq<Seq<char>> {
    seq![
        "--cookies"@,
        cookies,
        "--download-archive"@,
        archive,
        "--no-overwrites"@,
        "--no-progress"@,
        "--no-warnings"@,
        "--retries"@,
        "1"@,
        "--fragment-retries"@,
        "3"@,
        "--limit-rate"@,
        cfg.rate_limit@,
        "--sleep-interval"@,
        decimal(cfg.sleep_interval_sec as nat),
        "--max-sleep-interval"@,
        decimal(cfg.max_sleep_interval_sec as nat),
    ]
}

/// The arguments that every download ends with.
pub open spec fn download_tail(dest_dir: Seq<char>, video_id: Seq<char>) -> Seq<Seq<char>> {
    seq![
        "--print"@,
        "after_move:%(filepath)s"@,
        "-o"@,
        joined_path(dest_dir, "%(title)s.%(ext)s"@),
        "--"@,
        "https://www.youtube.com/watch?v="@ + video_id,
    ]
}

/// The arguments that ask for an MP3 of the best audio.
pub open spec fn audio_args() -> Seq<Seq<char>> {
    seq![
        "-f"@,
        "bestaudio/best"@,
        "-x"@,
        "--audio-format"@,
        "mp3"@,
        "--audio-quality"@,
        "0"@,
        "--embed-metadata"@,
        "--embed-thumbnail"@,
        "--add-metadata"@,
    ]
}

/// The arguments that ask for an MKV in the native codecs, up to a height.
pub open spec fn video_args(quality: Option<Seq<char>>) -> Seq<Seq<char>> {
    seq![
        "-f"@,
        video_format(height_cap(quality)),
        "--merge-output-format"@,
        "mkv"@,
        "--embed-metadata"@,
        "--embed-thumbnail"@,
        "--embed-chapters"@,
        "--embed-subs"@,
        "--sub-langs"@,
        "en,de"@,
    ]
}

/// Appends one argument.
fn push_arg(args: &mut Vec<String>, arg: String)
    ensures
        texts(final(args)@) == texts(old(args)@).push(arg@),
{
    args.push(arg);
    assert(texts(args@) == texts(old(args)@).push(arg@));
}

/// Appends arguments that are fixed texts.
fn push_fixed(args: &mut Vec<String>, fixed: &Vec<&'static str>)
    ensures
        texts(final(args)@) == texts(old(args)@) + fixed@.map_values(|s: &'static str| s@),
{
    let ghost before = texts(args@);
    let ghost all = fixed@.map_values(|s: &'static str| s@);
    let mut i: usize = 0;
    assert(before == before + all.take(0));
    while i < fixed.len()
        invariant
            all == fixed@.map_values(|s: &'static str| s@),
            i <= fixed@.len(),
            texts(args@) == before + all.take(i as int),
        decreases fixed@.len() - i,
    {
        let ghost prev = args@;
        args.push(fixed[i].to_owned());
        assert(texts(args@) == texts(prev).push(all[i as int]));
        assert(all.take(i + 1) == all.take(i as int).push(all[i as int]));
        i += 1;
    }
    assert(all.take(i as int) == all);
}

/// Seconds that a listing may take.
pub const LIST_TIMEOUT_SECS: u64 = 300;

/// Asks yt-dlp for listings and downloads.
pub struct YtDlp<'a> {
    pub binary: String,
    pub cookies: String,
    pub cfg: &'a Config,
}

impl<'a> YtDlp<'a> {
    pub fn new(binary: String, cfg: &'a Config) -> (r: Self)
        ensures
            r.binary == binary,
            r.cookies@ == cfg.cookies_path@,
            r.cfg == cfg,
    {
        YtDlp { binary, cookies: cfg.cookies_path.clone(), cfg }
    }

    /// The arguments that list every entry of a playlist.
    pub fn list_command(&self, url: &str) -> (r: Vec<String>)
        ensures
            texts(r@) == list_args(self.cookies@, url@),
    {
        let mut v: Vec<String> = Vec::new();
        push_arg(&mut v, "--cookies".to_owned());
        push_arg(&mut v, self.cookies.clone());
        push_fixed(
            &mut v,
            &vec!["--flat-playlist", "--print", "%(id)s\t%(title)s", "--no-warnings", "--"],
        );
        push_arg(&mut v, url.to_owned());
        assert(texts(v@) == list_args(self.cookies@, url@));
        v
    }

    /// The entries that a listing gave, or why there are none.
    pub fn list_playlist(
        &self,
        url: &str,
        invocation: Result<InvocationOutput, YtDlpError>,
    ) -> (r: Result<Vec<PlaylistEntry>, YtDlpError>)
        ensures
            match invocation {
                Ok(out) => if out.success {
                    r is Ok && entry_views(r->Ok_0@) == entries_of(lines_of(out.stdout@))
                } else {
                    r is Err && r->Err_0@ == YtDlpErrorView::exited(
                        "playlist listing failed for "@ + url@,
                        out.exit_code,
                        out.stderr@,
                    )
                },
                Err(e) => r is Err && r->Err_0@ == e@,
            },
            match (invocation, r) {
                (Ok(out), Err(e)) => {
                    &&& !out.success
                    &&& e.looks_like_auth == shows_any(out.stderr@, auth_failure_signatures())
                    &&& e.looks_like_extractor == shows_any(
                        out.stderr@,
                        extraction_error_signatures(),
                    )
                    &&& e.message@ == "playlist listing failed for "@ + url@
                    &&& e.stderr@ == out.stderr@
                    &&& e.exit_code == out.exit_code
                    &&& !e.timed_out
                },
                (Ok(out), Ok(_)) => out.success,
                (Err(_), Ok(_)) => false,
                (Err(_), Err(_)) => true,
            },
    {
        match invocation {
            Ok(out) => {
                if !out.success {
                    let mut m = "playlist listing failed for ".to_owned();
                    m.append(url);
                    return Err(exit_error(m, out.exit_code, out.stderr));
                }
                Ok(parse_playlist(out.stdout.as_str()))
            },
            Err(e) => Err(e),
        }
    }

    /// The arguments that every download starts with.
    fn head(&self, archive_path: &str) -> (v: Vec<String>)
        ensures
            texts(v@) == download_head(self.cookies@, archive_path@, *self.cfg),
    {
        let mut v: Vec<String> = Vec::new();
        push_arg(&mut v, "--cookies".to_owned());
        push_arg(&mut v, self.cookies.clone());
        push_arg(&mut v, "--download-archive".to_owned());
        push_arg(&mut v, archive_path.to_owned());
        push_fixed(
            &mut v,
            &vec![
                "--no-overwrites",
                "--no-progress",
                "--no-warnings",
                "--retries",
                "1",
                "--fragment-retries",
                "3",
                "--limit-rate",
            ],
        );
        push_arg(&mut v, self.cfg.rate_limit.clone());
        push_arg(&mut v, "--sleep-interval".to_owned());
        push_arg(&mut v, decimal_text(self.cfg.sleep_interval_sec as u64));
        push_arg(&mut v, "--max-sleep-interval".to_owned());
        push_arg(&mut v, decimal_text(self.cfg.max_sleep_interval_sec as u64));
        assert(texts(v@) == download_head(self.cookies@, archive_path@, *self.cfg));
        v
    }

    /// Appends the arguments that every download ends with.
    fn tail(v: &mut Vec<String>, dest_dir: &str, video_id: &str)
        ensures
            texts(final(v)@) == texts(old(v)@) + download_tail(dest_dir@, video_id@),
    {
        let ghost before = texts(v@);
        proof {
            reveal_strlit("%(title)s.%(ext)s");
        }
        let mut url = "https://www.youtube.com/watch?v=".to_owned();
        url.append(video_id);
        push_fixed(v, &vec!["--print", "after_move:%(filepath)s", "-o"]);
        push_arg(v, join_path(dest_dir, "%(title)s.%(ext)s"));
        push_arg(v, "--".to_owned());
        push_arg(v, url);
        assert(texts(v@) == before + download_tail(dest_dir@, video_id@));
    }

    /// The arguments that download one video id as MP3 into `dest_dir`.
    pub fn audio_command(&self, video_id: &str, dest_dir: &str, archive_path: &str) -> (r: Vec<
        String,
    >)
        ensures
            texts(r@) == download_head(self.cookies@, archive_path@, *self.cfg) + audio_args()
                + download_tail(dest_dir@, video_id@),
    {
        let mut v = self.head(archive_path);
        let ghost head = texts(v@);
        push_fixed(
            &mut v,
            &vec![
                "-f",
                "bestaudio/best",
                "-x",
                "--audio-format",
                "mp3",
                "--audio-quality",
                "0",
                "--embed-metadata",
                "--embed-thumbnail",
                "--add-metadata",
            ],
        );
        assert(texts(v@) == head + audio_args());
        Self::tail(&mut v, dest_dir, video_id);
        v
    }

    /// The arguments that download one video id as MKV into `dest_dir`, up to the height that a
    /// quality like `1080p` names.
    pub fn video_command(
        &self,
        video_id: &str,
        dest_dir: &str,
        archive_path: &str,
        quality_cap: Option<&str>,
    ) -> (r: Vec<String>)
        ensures
            texts(r@) == download_head(self.cookies@, archive_path@, *self.cfg) + video_args(
                opt_str(quality_cap),
            ) + download_tail(dest_dir@, video_id@),
    {
        let mut v = self.head(archive_path);
        let ghost head = texts(v@);
        push_arg(&mut v, "-f".to_owned());
        push_arg(&mut v, build_video_format(quality_cap));
        push_fixed(
            &mut v,
            &vec![
                "--merge-output-format",
                "mkv",
                "--embed-metadata",
                "--embed-thumbnail",
                "--embed-chapters",
                "--embed-subs",
                "--sub-langs",
                "en,de",
            ],
        );
        assert(texts(v@) == head + video_args(opt_str(quality_cap)));
        Self::tail(&mut v, dest_dir, video_id);
        v
    }

    /// What an audio download gave: a file, or `None` where the archive already listed the id.
    pub fn download_audio(
        &self,
        video_id: &str,
        invocation: Result<InvocationOutput, YtDlpError>,
    ) -> (r: Result<Option<DownloadResult>, YtDlpError>)
        ensures
            download_view(r) == download_outcome("download failed for "@, video_id@, invocation),
            match (invocation, r) {
                (Ok(out), Err(e)) => {
                    &&& e.stderr@ == out.stderr@
                    &&& e.exit_code == out.exit_code
                    &&& !e.timed_out
                    &&& e.looks_like_auth == (!out.success && shows_any(
                        out.stderr@,
                        auth_failure_signatures(),
                    ))
                    &&& e.looks_like_extractor == (!out.success && shows_any(
                        out.stderr@,
                        extraction_error_signatures(),
                    ))
                    &&& !out.success ==> e.message@ == "download failed for "@ + video_id@
                },
                (Ok(out), Ok(Some(d))) => out.success && d.file_path@.len() > 0,
                (Ok(out), Ok(None)) => out.success,
                (Err(_), Ok(_)) => false,
                (Err(i), Err(e)) => e@ == i@,
            },
    {
        proof {
            if invocation is Ok {
                lemma_last_text_is_text(lines_of(invocation->Ok_0.stdout@));
            }
        }
        finish_download("download failed for ", video_id, invocation)
    }

    /// What a video download gave: a file, or `None` where the archive already listed the id.
    pub fn download_video(
        &self,
        video_id: &str,
        invocation: Result<InvocationOutput, YtDlpError>,
    ) -> (r: Result<Option<DownloadResult>, YtDlpError>)
        ensures
            download_view(r) == download_outcome(
                "video download failed for "@,
                video_id@,
                invocation,
            ),
            match (invocation, r) {
                (Ok(out), Err(e)) => {
                    &&& e.stderr@ == out.stderr@
                    &&& e.exit_code == out.exit_code
                    &&& !e.timed_out
                    &&& e.looks_like_auth == (!out.success && shows_any(
                        out.stderr@,
                        auth_failure_signatures(),
                    ))
                    &&& e.looks_like_extractor == (!out.success && shows_any(
                        out.stderr@,
                        extraction_error_signatures(),
                    ))
                    &&& !out.success ==> e.message@ == "video download failed for "@ + video_id@
                },
                (Ok(out), Ok(Some(d))) => out.success && d.file_path@.len() > 0,
                (Ok(out), Ok(None)) => out.success,
                (Err(_), Ok(_)) => false,
                (Err(i), Err(e)) => e@ == i@,
            },
    {
        proof {
            if invocation is Ok {
                lemma_last_text_is_text(lines_of(invocation->Ok_0.stdout@));
            }
        }
        finish_download("video download failed for ", video_id, invocation)
    }
}

/// The archive file inside the directory of the database.
pub fn archive_file_in(parent_dir: Option<String>) -> (r: Result<String, String>)
    ensures
        match opt_text(parent_dir) {
            Some(d) => r is Ok && r->Ok_0@ == joined_path(d, "ytdlp-archive.txt"@),
            None => r is Err && r->Err_0@ == "db_path has no parent directory"@,
        },
{
    match parent_dir {
        Some(d) => {
            proof {
                reveal_strlit("ytdlp-archive.txt");
            }
            Ok(join_path(d.as_str(), "ytdlp-archive.txt"))
        },
        None => Err("db_path has no parent directory".to_owned()),
    }
}

/// The file in which yt-dlp records what it has downloaded. It stands beside the database, so that
/// both records share a directory.
pub fn archive_path_for(cfg: &Config) -> (r: Result<String, String>)
    ensures
        match path_parent(cfg.db_path@) {
            Some(d) => r is Ok && r->Ok_0@ == joined_path(d, "ytdlp-archive.txt"@),
            None => r is Err && r->Err_0@ == "db_path has no parent directory"@,
        },
{
    archive_file_in(parent(cfg.db_path.as_str()))
}

/// A text whose ends are not white space is not changed by trimming.
proof fn lemma_trimmed_is_kept(s: Seq<char>)
    requires
        s.len() > 0,
        !is_white(s.first()),
        !is_white(s.last()),
    ensures
        trimmed(s) == s,
{
}

/// Trimming off a character that stands once at the end takes that one.
proof fn lemma_one_trimmed(s: Seq<char>, c: char)
    requires
        s.len() == 0 || s.last() != c,
    ensures
        trimmed_end_of(s, c) == s,
        trimmed_end_of(s.push(c), c) == s,
{
    assert(s.push(c).drop_last() == s);
}

/// A height within range caps a video at just that height, with a `p` or a `P` behind it or none.
pub proof fn law_quality_names_its_height(height: u32)
    requires
        144 <= height <= 4320,
    ensures
        height_cap(Some(decimal(height as nat))) == Some(height),
        height_cap(Some(decimal(height as nat).push('p'))) == Some(height),
        height_cap(Some(decimal(height as nat).push('P'))) == Some(height),
{
    let d = decimal(height as nat);
    law_u32_reads_back(height);
    law_decimal_reads_back(height as nat);
    assert(is_digit(d.first()));
    assert(is_digit(d.last()));
    lemma_trimmed_is_kept(d);
    lemma_trimmed_is_kept(d.push('p'));
    lemma_trimmed_is_kept(d.push('P'));
    lemma_one_trimmed(d, 'p');
    lemma_one_trimmed(d, 'P');
    lemma_one_trimmed(d.push('P'), 'p');
}

/// What is left after trimming does not end in white space.
proof fn lemma_trimmed_end_is_bare(s: Seq<char>)
    ensures
        trimmed_end(s).len() > 0 ==> !is_white(trimmed_end(s).last()),
    decreases s.len(),
{
    if s.len() > 0 && is_white(s.last()) {
        lemma_trimmed_end_is_bare(s.drop_last());
    }
}

/// What a listing prints of an entry is read back as that entry: the id and the title, which may be
/// empty, with a tab between them.
pub proof fn law_listed_entry_reads_back(id: Seq<char>, title: Seq<char>)
    requires
        id.len() > 0,
        !id.contains('\t'),
        trimmed(id) == id,
        id != "NA"@,
        trimmed(title) == title,
    ensures
        entry_of(id.push('\t') + title) == Some(PlaylistEntryView { id, title }),
{
    let line = id.push('\t') + title;
    lemma_trimmed_end_is_bare(trimmed_start(id));
    lemma_trimmed_end_is_bare(trimmed_start(title));
    lemma_run_before(id, '\t');
    let m = run_before(id, '\t') as int;
    if m < id.len() {
        assert(id.contains(id[m]));
    }
    if title.len() == 0 {
        assert(line =~= id.push('\t'));
        assert(line.drop_last() =~= id);
        assert(trimmed_end(line) == trimmed_end(id));
        assert(trimmed_end(line) == id);
        assert(title =~= seq![]);
    } else {
        assert(line.last() == title.last());
        assert(trimmed_end(line) == line);
        lemma_run_before(line, '\t');
        let n = run_before(line, '\t') as int;
        assert(line[id.len() as int] == '\t');
        if n < id.len() {
            assert(line[n] == id[n]);
            assert(id.contains(id[n]));
        }
        assert(n == id.len());
        assert(before_first(line, '\t') =~= id);
        assert(after_first(line, '\t') =~= title);
    }
}

/// The entries of two listings one after the other are those of the first followed by those of the
/// second, however long they are.
pub proof fn law_listings_follow_one_another(a: Seq<Seq<char>>, b: Seq<Seq<char>>)
    ensures
        entries_of(a + b) == entries_of(a) + entries_of(b),
    decreases b.len(),
{
    if b.len() == 0 {
        assert(a + b =~= a);
        assert(entries_of(a) + entries_of(b) =~= entries_of(a));
    } else {
        assert((a + b).drop_last() =~= a + b.drop_last());
        assert((a + b).last() == b.last());
        law_listings_follow_one_another(a, b.drop_last());
        assert(entries_of(a + b) =~= entries_of(a) + entries_of(b));
    }
}

/// Where every line of a listing stands for an entry, there are as many entries as lines, and each
/// entry is that of its line.
pub proof fn law_every_line_counts(listing: Seq<Seq<char>>)
    requires
        forall|i: int| 0 <= i < listing.len() ==> entry_of(#[trigger] listing[i]) is Some,
    ensures
        entries_of(listing).len() == listing.len(),
        forall|i: int|
            0 <= i < listing.len() ==> entry_of(#[trigger] listing[i]) == Some(
                entries_of(listing)[i],
            ),
    decreases listing.len(),
{
    if listing.len() > 0 {
        let rest = listing.drop_last();
        assert forall|i: int| 0 <= i < rest.len() implies entry_of(#[trigger] rest[i]) is Some by {
            assert(rest[i] == listing[i]);
        }
        law_every_line_counts(rest);
        assert(entry_of(listing[listing.len() - 1]) is Some);
        assert forall|i: int| 0 <= i < listing.len() implies entry_of(#[trigger] listing[i])
            == Some(entries_of(listing)[i]) by {
            if i < rest.len() {
                assert(rest[i] == listing[i]);
            }
        }
    }
}

/// A line that stands for no entry adds none, wherever it stands.
pub proof fn law_idle_lines_are_passed_over(
    a: Seq<Seq<char>>,
    line: Seq<char>,
    b: Seq<Seq<char>>,
)
    requires
        entry_of(line) is None,
    ensures
        entries_of(a.push(line) + b) == entries_of(a + b),
{
    law_listings_follow_one_another(a, b);
    law_listings_follow_one_another(a.push(line), b);
    assert(a.push(line).drop_last() =~= a);
}

/// A blank line stands for no entry.
pub proof fn law_blank_line_is_no_entry(line: Seq<char>)
    requires
        trimmed(line).len() == 0,
    ensures
        entry_of(line) is None,
{
    lemma_blank_is_no_entry(line);
}

/// A line with nothing or `NA` before its tab stands for no entry, whatever its title.
pub proof fn law_line_without_an_id_is_no_entry(title: Seq<char>)
    ensures
        entry_of("NA"@.push('\t') + title) is None,
        entry_of(seq!['\t'] + title) is None,
{
    reveal_strlit("NA");
    lemma_trimmed_is_kept("NA"@);
    lemma_head_of_line("NA"@, title);
    let none = Seq::<char>::empty();
    lemma_head_of_line(none, title);
    assert(none.push('\t') + title =~= seq!['\t'] + title);
    assert(trimmed_start(none) == none);
    assert(trimmed(none) == none);
}

/// A line without a tab is the id of an entry without a title.
pub proof fn law_id_alone_is_an_entry(id: Seq<char>)
    requires
        id.len() > 0,
        !id.contains('\t'),
        trimmed(id) == id,
        id != "NA"@,
    ensures
        entry_of(id) == Some(PlaylistEntryView { id, title: seq![] }),
{
    lemma_trimmed_end_is_bare(trimmed_start(id));
    assert(trimmed_end(id) == id);
    lemma_run_before(id, '\t');
    let m = run_before(id, '\t') as int;
    if m < id.len() {
        assert(id.contains(id[m]));
    }
}

/// Every entry has an id, which is not the placeholder and has no white space around it.
pub proof fn law_entries_have_ids(line: Seq<char>)
    ensures
        match entry_of(line) {
            Some(e) => e.id.len() > 0 && e.id != "NA"@ && !is_white(e.id.first()) && !is_white(
                e.id.last(),
            ),
            None => true,
        },
{
    let kept = trimmed_end(line);
    law_trimming_takes_white_space_only(kept);
    law_trimming_takes_white_space_only(before_first(kept, '\t'));
}

/// A blank line has nothing left at its end.
proof fn lemma_blank_is_no_entry(line: Seq<char>)
    ensures
        trimmed(line).len() == 0 ==> trimmed_end(line).len() == 0,
{
    law_trimming_takes_white_space_only(line);
    if trimmed(line).len() == 0 {
        let i = choose|i: int|
            #![trigger line.skip(i)]
            {
                &&& 0 <= i <= i + trimmed(line).len() <= line.len()
                &&& trimmed(line) == line.subrange(i, i + trimmed(line).len())
                &&& forall|k: int|
                    0 <= k < line.len() && !(i <= k < i + trimmed(line).len()) ==> is_white(
                        #[trigger] line[k],
                    )
            };
        assert forall|k: int| 0 <= k < line.len() implies is_white(#[trigger] line[k]) by {}
        lemma_white_goes(line);
    }
}

proof fn lemma_white_goes(line: Seq<char>)
    requires
        forall|k: int| 0 <= k < line.len() ==> is_white(#[trigger] line[k]),
    ensures
        trimmed_end(line).len() == 0,
    decreases line.len(),
{
    if line.len() > 0 {
        assert(is_white(line[line.len() - 1]));
        assert forall|k: int| 0 <= k < line.drop_last().len() implies is_white(
            #[trigger] line.drop_last()[k],
        ) by {
            assert(is_white(line[k]));
        }
        lemma_white_goes(line.drop_last());
    }
}

/// What stands before the tab of a line, or before its end once it is trimmed, is what stood before
/// the tab.
proof fn lemma_head_of_line(head: Seq<char>, title: Seq<char>)
    requires
        !head.contains('\t'),
        head.len() > 0 ==> !is_white(head.last()),
    ensures
        ({
            let kept = trimmed_end(head.push('\t') + title);
            if run_before(kept, '\t') < kept.len() {
                before_first(kept, '\t') == head
            } else {
                kept == head
            }
        }),
    decreases title.len(),
{
    let line = head.push('\t') + title;
    if title.len() == 0 {
        assert(line =~= head.push('\t'));
        assert(line.drop_last() =~= head);
        assert(trimmed_end(head) == head);
        lemma_run_before(head, '\t');
        let m = run_before(head, '\t') as int;
        if m < head.len() {
            assert(head.contains(head[m]));
        }
    } else if is_white(title.last()) {
        assert(line.drop_last() =~= head.push('\t') + title.drop_last());
        lemma_head_of_line(head, title.drop_last());
    } else {
        assert(line.last() == title.last());
        assert(trimmed_end(line) == line);
        lemma_run_before(line, '\t');
        let n = run_before(line, '\t') as int;
        assert(line[head.len() as int] == '\t');
        if n < head.len() {
            assert(line[n] == head[n]);
            assert(head.contains(head[n]));
        }
        assert(before_first(line, '\t') =~= head);
    }
}

/// The path is the last line that is not blank, whatever stands before it and however many blank
/// lines follow it.
pub proof fn law_path_is_the_last_text(a: Seq<Seq<char>>, line: Seq<char>, b: Seq<Seq<char>>)
    requires
        trimmed(line).len() > 0,
        forall|i: int| 0 <= i < b.len() ==> trimmed(#[trigger] b[i]).len() == 0,
    ensures
        last_text(a.push(line) + b) == Some(trimmed(line)),
        last_text(b) is None,
    decreases b.len(),
{
    if b.len() == 0 {
        assert(a.push(line) + b =~= a.push(line));
    } else {
        let c = b.drop_last();
        assert((a.push(line) + b).drop_last() =~= a.push(line) + c);
        assert(trimmed(b[b.len() - 1]).len() == 0);
        assert forall|i: int| 0 <= i < c.len() implies trimmed(#[trigger] c[i]).len() == 0 by {
            assert(c[i] == b[i]);
        }
        law_path_is_the_last_text(a, line, c);
    }
}

proof fn lemma_last_text_is_text(listing: Seq<Seq<char>>)
    ensures
        match last_text(listing) {
            Some(t) => t.len() > 0,
            None => true,
        },
    decreases listing.len(),
{
    if listing.len() > 0 {
        lemma_last_text_is_text(listing.drop_last());
    }
}

/// What a download gave, told by how it ended. A success with a path is that file, titled by its
/// stem; a success without one is an item that the archive lists, where the error output says so in
/// one of two ways, and an error elsewhere.
pub proof fn law_download_means(failure: Seq<char>, video_id: Seq<char>, out: InvocationOutput)
    requires
        out.success,
    ensures
        ({
            let r = download_outcome(failure, video_id, Ok(out));
            let lower = unicode_lowered(out.stderr@);
            match last_text(lines_of(out.stdout@)) {
                Some(path) => match r {
                    Ok(Some(d)) => d.file_path == path && d.title == match path_stem(path) {
                        Some(stem) => stem,
                        None => video_id,
                    },
                    _ => false,
                },
                None => {
                    let hit = has_part(lower, "has already been recorded in the archive"@)
                        || has_part(lower, "already in archive"@);
                    &&& hit <==> r == Ok::<Option<DownloadResultView>, YtDlpErrorView>(None)
                    &&& !hit ==> match r {
                        Err(e) => {
                            &&& e.message
                                == "yt-dlp reported success but emitted no filepath for "@
                                + video_id
                            &&& e.stderr == out.stderr@
                            &&& e.exit_code == out.exit_code
                            &&& !e.looks_like_auth
                            &&& !e.looks_like_extractor
                            &&& !e.timed_out
                        },
                        Ok(_) => false,
                    }
                },
            }
        }),
{
}

/// An unsuccessful download is an error whatever was printed, classified by its error output alone.
pub proof fn law_failed_download_is_an_error(
    failure: Seq<char>,
    video_id: Seq<char>,
    out: InvocationOutput,
)
    requires
        !out.success,
    ensures
        match download_outcome(failure, video_id, Ok(out)) {
            Err(e) => {
                &&& e.message == failure + video_id
                &&& e.stderr == out.stderr@
                &&& e.exit_code == out.exit_code
                &&& e.looks_like_auth == shows_any(out.stderr@, auth_failure_signatures())
                &&& e.looks_like_extractor == shows_any(
                    out.stderr@,
                    extraction_error_signatures(),
                )
                &&& !e.timed_out
            },
            Ok(_) => false,
        },
{
}

/// An error of the machine says so, and blames neither the extractor nor the cookies.
pub proof fn law_local_errors_blame_nobody(message: Seq<char>)
    ensures
        YtDlpErrorView::local(message).message == message,
        YtDlpErrorView::local(message).stderr.len() == 0,
        YtDlpErrorView::local(message).exit_code is None,
        !YtDlpErrorView::local(message).looks_like_auth,
        !YtDlpErrorView::local(message).looks_like_extractor,
        !YtDlpErrorView::local(message).timed_out,
{
}

/// The note about a cut stream follows the error output, which stays whole.
pub proof fn law_truncation_is_noted(stderr: Seq<char>)
    ensures
        noted_stderr(stderr, false) == stderr,
        noted_stderr(stderr, true) == stderr + "\n[stderr/stdout truncated at 1 MiB]"@,
{
}

/// A height out of range caps nothing, and neither does a quality that is no number; without a
/// quality there is no cap.
pub proof fn law_no_cap_out_of_range(height: u32, quality: Seq<char>)
    requires
        height < 144 || height > 4320,
    ensures
        height_cap(Some(decimal(height as nat))) is None,
        height_cap(Some(decimal(height as nat).push('p'))) is None,
        height_cap(None) is None,
        quality_height(quality) is None ==> height_cap(Some(quality)) is None,
        match height_cap(Some(quality)) {
            Some(h) => 144 <= h <= 4320 && quality_height(quality) == Some(h),
            None => true,
        },
{
    let d = decimal(height as nat);
    law_u32_reads_back(height);
    law_decimal_reads_back(height as nat);
    assert(is_digit(d.first()));
    assert(is_digit(d.last()));
    lemma_trimmed_is_kept(d);
    lemma_trimmed_is_kept(d.push('p'));
    lemma_one_trimmed(d, 'p');
    lemma_one_trimmed(d, 'P');
}

/// The format asks for the best video and audio up to the cap, or the best single file up to it; for
/// the best of either without one.
pub proof fn law_format_names_its_cap(height: u32)
    ensures
        video_format(None) == "bv*+ba/b"@,
        video_format(Some(height)) == ("bv*[height<="@ + decimal(height as nat) + "]+ba"@) + (
        "/b[height<="@ + decimal(height as nat) + "]"@),
{
    reveal_strlit("]+ba/b[height<=");
    reveal_strlit("]+ba");
    reveal_strlit("/b[height<=");
    assert("]+ba/b[height<="@ =~= "]+ba"@ + "/b[height<="@);
    assert(video_format(Some(height)) =~= ("bv*[height<="@ + decimal(height as nat) + "]+ba"@) + (
    "/b[height<="@ + decimal(height as nat) + "]"@));
}

/// A listing is asked for with the cookies, entry by entry, as id and title with a tab between them;
/// and the URL comes last, behind the mark that ends the options.
pub proof fn law_listing_command(cookies: Seq<char>, url: Seq<char>)
    ensures
        ({
            let args = list_args(cookies, url);
            &&& args.len() == 8
            &&& args[0] == "--cookies"@ && args[1] == cookies
            &&& args[2] == "--flat-playlist"@
            &&& args[3] == "--print"@ && args[4] == "%(id)s\t%(title)s"@
            &&& args[5] == "--no-warnings"@
            &&& args[6] == "--"@ && args[7] == url
        }),
{
}

/// Every download is made with the cookies and the archive, overwrites nothing, leaves retries to
/// this program, is limited in its rate and pauses as configured; it prints where the file went, and
/// the URL comes last, behind the mark that ends the options. Between these stands what makes it
/// audio or video.
pub proof fn law_download_command(
    cookies: Seq<char>,
    archive: Seq<char>,
    cfg: Config,
    middle: Seq<Seq<char>>,
    dest_dir: Seq<char>,
    video_id: Seq<char>,
)
    ensures
        ({
            let args = download_head(cookies, archive, cfg) + middle + download_tail(
                dest_dir,
                video_id,
            );
            let n = middle.len() as int;
            &&& args.len() == n + 23
            &&& args[0] == "--cookies"@ && args[1] == cookies
            &&& args[2] == "--download-archive"@ && args[3] == archive
            &&& args[4] == "--no-overwrites"@
            &&& args[5] == "--no-progress"@
            &&& args[6] == "--no-warnings"@
            &&& args[7] == "--retries"@ && args[8] == "1"@
            &&& args[9] == "--fragment-retries"@ && args[10] == "3"@
            &&& args[11] == "--limit-rate"@ && args[12] == cfg.rate_limit@
            &&& args[13] == "--sleep-interval"@ && args[14] == decimal(
                cfg.sleep_interval_sec as nat,
            )
            &&& args[15] == "--max-sleep-interval"@ && args[16] == decimal(
                cfg.max_sleep_interval_sec as nat,
            )
            &&& args.subrange(17, 17 + n) == middle
            &&& args[17 + n] == "--print"@ && args[18 + n] == "after_move:%(filepath)s"@
            &&& args[19 + n] == "-o"@ && args[20 + n] == joined_path(
                dest_dir,
                "%(title)s.%(ext)s"@,
            )
            &&& args[21 + n] == "--"@ && args[22 + n] == "https://www.youtube.com/watch?v="@
                + video_id
        }),
{
    let args = download_head(cookies, archive, cfg) + middle + download_tail(dest_dir, video_id);
    assert(args.subrange(17, 17 + middle.len() as int) =~= middle);
}

/// Audio is extracted from the best there is into an MP3 of the best quality, with what is known of
/// it embedded.
pub proof fn law_audio_becomes_mp3()
    ensures
        ({
            let args = audio_args();
            &&& args.len() == 10
            &&& args[0] == "-f"@ && args[1] == "bestaudio/best"@
            &&& args[2] == "-x"@
            &&& args[3] == "--audio-format"@ && args[4] == "mp3"@
            &&& args[5] == "--audio-quality"@ && args[6] == "0"@
            &&& args[7] == "--embed-metadata"@
            &&& args[8] == "--embed-thumbnail"@
            &&& args[9] == "--add-metadata"@
        }),
{
}

/// Video is kept in its own codecs, in the format of its cap, and merged into an MKV; nothing asks
/// for it to be encoded anew.
pub proof fn law_video_becomes_mkv(quality: Option<Seq<char>>)
    ensures
        ({
            let args = video_args(quality);
            &&& args.len() == 10
            &&& args[0] == "-f"@ && args[1] == video_format(height_cap(quality))
            &&& args[2] == "--merge-output-format"@ && args[3] == "mkv"@
            &&& args[4] == "--embed-metadata"@
            &&& args[5] == "--embed-thumbnail"@
            &&& args[6] == "--embed-chapters"@
            &&& args[7] == "--embed-subs"@
            &&& args[8] == "--sub-langs"@ && args[9] == "en,de"@
        }),
{
}

/// What is kept of a stream is all of it up to the cap, and its beginning where it is longer; it is
/// told apart whether anything was dropped.
pub proof fn law_stream_is_kept_up_to_its_cap(stream: CappedStream, all: Seq<u8>)
    requires
        stream.keeps(all),
    ensures
        stream.kept@.is_prefix_of(all),
        stream.kept@.len() == (if all.len() <= stream.cap {
            all.len() as int
        } else {
            stream.cap as int
        }),
        stream.truncated <==> all.len() > stream.cap,
        STREAM_CAP_BYTES == 1024 * 1024,
        LISTING_CAP_BYTES == usize::MAX,
{
    assert(all.take(all.len() as int) =~= all);
}

/// An invocation that failed before it ended is passed on with its own error.
pub proof fn law_broken_invocation_is_passed_on(
    failure: Seq<char>,
    video_id: Seq<char>,
    error: YtDlpError,
)
    ensures
        download_outcome(failure, video_id, Err(error)) == Err::<
            Option<DownloadResultView>,
            YtDlpErrorView,
        >(error@),
{
}

/// White space around a quality does not matter.
pub proof fn law_white_space_around_a_quality(height: u32, white: char)
    requires
        144 <= height <= 4320,
        is_white(white),
    ensures
        height_cap(Some((seq![white] + decimal(height as nat)).push(white))) == Some(height),
        height_cap(Some((seq![white] + decimal(height as nat).push('p')).push(white))) == Some(
            height,
        ),
{
    let d = decimal(height as nat);
    law_decimal_reads_back(height as nat);
    assert(is_digit(d[0]) && is_digit(d.last()));
    law_quality_names_its_height(height);
    lemma_white_around(d, white);
    lemma_white_around(d.push('p'), white);
    lemma_trimmed_is_kept(d);
    lemma_trimmed_is_kept(d.push('p'));
}

proof fn lemma_white_around(s: Seq<char>, white: char)
    requires
        is_white(white),
        s.len() > 0,
        !is_white(s.first()),
        !is_white(s.last()),
    ensures
        trimmed((seq![white] + s).push(white)) == s,
{
    let t = (seq![white] + s).push(white);
    assert(t.drop_first() =~= s.push(white));
    assert(trimmed_start(s.push(white)) == s.push(white));
    assert(trimmed_start(t) == s.push(white));
    assert(s.push(white).drop_last() =~= s);
    assert(trimmed_end(s) == s);
}

/// Entries, results and errors are seen field by field as they are.
pub proof fn law_results_are_seen_as_they_are(
    entry: PlaylistEntry,
    result: DownloadResult,
    error: YtDlpError,
)
    ensures
        entry@.id == entry.id@,
        entry@.title == entry.title@,
        result@.file_path == result.file_path@,
        result@.title == result.title@,
        error@.message == error.message@,
        error@.stderr == error.stderr@,
        error@.exit_code == error.exit_code,
        error@.looks_like_extractor == error.looks_like_extractor,
        error@.looks_like_auth == error.looks_like_auth,
        error@.timed_out == error.timed_out,
{
}

/// A line is split at its first tab: what stands before it is the id and what stands behind it the
/// title, both without the white space around them.
pub proof fn law_line_is_split_at_its_first_tab(front: Seq<char>, back: Seq<char>)
    requires
        !front.contains('\t'),
        trimmed(front).len() > 0,
        trimmed(front) != "NA"@,
    ensures
        entry_of(front.push('\t') + back) == Some(
            PlaylistEntryView { id: trimmed(front), title: trimmed(back) },
        ),
    decreases back.len(),
{
    let line = front.push('\t') + back;
    if back.len() > 0 && is_white(back.last()) {
        let shorter = back.drop_last();
        law_line_is_split_at_its_first_tab(front, shorter);
        assert(line.drop_last() =~= front.push('\t') + shorter);
        assert(trimmed_end(line) == trimmed_end(line.drop_last()));
        assert(back =~= shorter.push(back.last()));
        law_outer_white_space_does_not_matter(shorter, back.last());
    } else if back.len() > 0 {
        assert(line.last() == back.last());
        assert(trimmed_end(line) == line);
        lemma_run_before(line, '\t');
        let n = run_before(line, '\t') as int;
        assert(line[front.len() as int] == '\t');
        if n < front.len() {
            assert(line[n] == front[n]);
            assert(front.contains(front[n]));
        }
        assert(before_first(line, '\t') =~= front);
        assert(after_first(line, '\t') =~= back);
    } else {
        assert(line.drop_last() =~= front);
        assert(trimmed_end(line) == trimmed_end(front));
        let kept = trimmed_end(front);
        lemma_trimmed_end(front);
        lemma_trimmed_end_first(front);
        lemma_run_before(kept, '\t');
        let n = run_before(kept, '\t') as int;
        if n < kept.len() {
            assert(kept[n] == front[n]);
            assert(front.contains(front[n]));
        }
        if kept.len() == 0 {
            assert(trimmed(kept).len() == 0);
        }
        assert(trimmed_start(back) == back);
        assert(trimmed(back) =~= seq![]);
    }
}

} // verus!

//! Keeping yt-dlp installed and fresh, and reading the cause of a failure off its error output.

use vstd::prelude::*;
use vstd::string::*;
use crate::config::{YtDlpChannel, YtDlpConfig};
use crate::paths::opt_text;
use crate::preflight::AgeFact;
use crate::text::{
    ascii_lowered, before_first, contains, from_utf8_lossy, has_part, is_white,
    law_outer_white_space_does_not_matter, lemma_run_before,
    lemma_text_goes_on, lemma_trimmed_end, lemma_trimmed_start, run_before, split_once, stands_at,
    texts, to_ascii_lowercase, trim, trimmed, trimmed_start, utf8_text,
};

verus! {

/// What in the error output suggests that the extractors of yt-dlp are out of date. All are lower
/// case; they are looked for in the lower-cased output.
pub open spec fn extraction_error_signatures() -> Seq<Seq<char>> {
    seq![
        "unable to extract"@,
        "signature extraction failed"@,
        "precondition check failed"@,
        "http error 403"@,
        "youtube said: the following content"@,
        "unable to download webpage"@,
        "requested format is not available"@,
        "no longer available"@,
    ]
}

/// What in the error output suggests that the cookies are stale: the service refused them, and no
/// update of yt-dlp will help.
pub open spec fn auth_failure_signatures() -> Seq<Seq<char>> {
    seq![
        "sign in to confirm"@,
        "sign in, to confirm"@,
        "not a bot"@,
        "login required"@,
        "please log in"@,
        "http error 401"@,
        "private video"@,
        "members-only content"@,
        "this video is available to this channel's members"@,
        "the uploader has not made this video available"@,
        "cookies provided do not match"@,
        "cookies are no longer valid"@,
        "your cookies are expired"@,
        "requested content is not available, rechecking"@,
    ]
}

/// Whether a text holds one of the signatures, in any mix of upper and lower case.
pub open spec fn shows_any(stderr: Seq<char>, signatures: Seq<Seq<char>>) -> bool {
    exists|i: int|
        0 <= i < signatures.len() && has_part(ascii_lowered(stderr), #[trigger] signatures[i])
}

/// Tells whether one of the signatures stands in the lower-cased text.
fn contains_any(lower: &Vec<char>, signatures: &Vec<&'static str>) -> (r: bool)
    ensures
        r == exists|i: int|
            0 <= i < signatures@.len() && has_part(lower@, #[trigger] signatures@[i]@),
{
    let mut i: usize = 0;
    while i < signatures.len()
        invariant
            i <= signatures@.len(),
            forall|k: int| 0 <= k < i ==> !has_part(lower@, #[trigger] signatures@[k]@),
        decreases signatures@.len() - i,
    {
        if contains(lower, signatures[i]) {
            return true;
        }
        i += 1;
    }
    false
}

/// Decides about updates of yt-dlp.
pub struct YtDlpUpdater {
    pub cfg: YtDlpConfig,
}

/// What became of an update.
#[derive(Debug)]
pub struct UpdateOutcome {
    pub attempted: bool,
    pub succeeded: bool,
    pub stdout: String,
    pub stderr: String,
    pub new_version: Option<String>,
}

/// The characters of an `UpdateOutcome`.
pub struct UpdateOutcomeView {
    pub attempted: bool,
    pub succeeded: bool,
    pub stdout: Seq<char>,
    pub stderr: Seq<char>,
    pub new_version: Option<Seq<char>>,
}

impl View for UpdateOutcome {
    type V = UpdateOutcomeView;

    open spec fn view(&self) -> UpdateOutcomeView {
        UpdateOutcomeView {
            attempted: self.attempted,
            succeeded: self.succeeded,
            stdout: self.stdout@,
            stderr: self.stderr@,
            new_version: opt_text(self.new_version),
        }
    }
}

impl UpdateOutcomeView {
    /// No update was run.
    pub open spec fn none() -> UpdateOutcomeView {
        UpdateOutcomeView {
            attempted: false,
            succeeded: false,
            stdout: seq![],
            stderr: seq![],
            new_version: None,
        }
    }

    /// An update was run and failed.
    pub open spec fn failure(stdout: Seq<char>, stderr: Seq<char>) -> UpdateOutcomeView {
        UpdateOutcomeView { attempted: true, succeeded: false, stdout, stderr, new_version: None }
    }

    /// An update was run and succeeded.
    pub open spec fn success(
        stdout: Seq<char>,
        stderr: Seq<char>,
        new_version: Option<Seq<char>>,
    ) -> UpdateOutcomeView {
        UpdateOutcomeView { attempted: true, succeeded: true, stdout, stderr, new_version }
    }
}

impl UpdateOutcome {
    /// No update was run.
    pub fn skipped() -> (r: Self)
        ensures
            r@ == UpdateOutcomeView::none(),
            !r.attempted,
            !r.succeeded,
            r.new_version is None,
    {
        UpdateOutcome {
            attempted: false,
            succeeded: false,
            stdout: String::new(),
            stderr: String::new(),
            new_version: None,
        }
    }

    /// An update was run and failed.
    pub fn failed(stdout: String, stderr: String) -> (r: Self)
        ensures
            r@ == UpdateOutcomeView::failure(stdout@, stderr@),
            r.attempted,
            !r.succeeded,
            r.stdout@ == stdout@,
            r.stderr@ == stderr@,
            r.new_version is None,
    {
        UpdateOutcome { attempted: true, succeeded: false, stdout, stderr, new_version: None }
    }

    /// An update was run and succeeded; the version is unknown where it could not be asked for.
    pub fn completed(stdout: String, stderr: String, new_version: Option<String>) -> (r: Self)
        ensures
            r@ == UpdateOutcomeView::success(stdout@, stderr@, opt_text(new_version)),
            r.attempted,
            r.succeeded,
            r.stdout@ == stdout@,
            r.stderr@ == stderr@,
            opt_text(r.new_version) == opt_text(new_version),
    {
        UpdateOutcome { attempted: true, succeeded: true, stdout, stderr, new_version }
    }
}

/// What the age of the binary asks for.
pub enum Freshness {
    /// Nothing is to be done; the outcome says so.
    Skipped(UpdateOutcome),
    /// An update is to be run now.
    Due,
}

/// How a run of the update command ended.
pub enum UpdateRun {
    /// It could not be started; the message of the system.
    SpawnFailed { detail: String },
    /// It was killed at the end of its time.
    TimedOut,
    /// It could not be waited for; the message of the system.
    WaitFailed { detail: String },
    /// It ended by itself.
    Exited { success: bool, stdout: Vec<u8>, stderr: Vec<u8> },
}

/// What follows a run of the update command.
pub enum UpdateStep {
    /// The update failed.
    Failed(UpdateOutcome),
    /// The update succeeded; the new version is to be asked for.
    ProbeVersion { stdout: String, stderr: String },
}

/// Seconds in a day.
pub const DAY_SECS: u64 = 86_400;

/// How old a file is, to the nanosecond.
#[derive(Debug, Clone, Copy, PartialEq, Eq, Structural)]
pub struct Age {
    pub secs: u64,
    pub nanos: u32,
}

impl Age {
    /// Whether it is more than some seconds.
    pub open spec fn exceeds(self, secs: int) -> bool {
        self.secs > secs || (self.secs == secs && self.nanos > 0)
    }
}

impl YtDlpUpdater {
    pub fn new(cfg: YtDlpConfig) -> (r: Self)
        ensures
            r.cfg == cfg,
    {
        YtDlpUpdater { cfg }
    }

    /// Where yt-dlp is.
    pub fn binary(&self) -> (r: &str)
        ensures
            r@ == self.cfg.binary_path@,
    {
        self.cfg.binary_path.as_str()
    }

    /// Where yt-dlp is.
    pub fn binary_path(&self) -> (r: String)
        ensures
            r@ == self.cfg.binary_path@,
    {
        self.cfg.binary_path.clone()
    }

    /// The complaint that there is no yt-dlp at a path.
    pub open spec fn missing_text(path: Seq<char>) -> Seq<char> {
        "yt-dlp not found at "@ + path
            + ". Install it first (e.g. `curl -L https://github.com/yt-dlp/yt-dlp/releases/latest/download/yt-dlp -o "@
            + path + " && chmod +x "@ + path + "`)"@
    }

    /// Fails, and says how to install it, where there is no binary.
    pub fn ensure_installed(&self, exists: bool) -> (r: Result<(), String>)
        ensures
            exists ==> r is Ok,
            !exists ==> r is Err && r->Err_0@ == Self::missing_text(self.cfg.binary_path@),
    {
        if exists {
            return Ok(());
        }
        let path = self.cfg.binary_path.as_str();
        let mut out = "yt-dlp not found at ".to_owned();
        out.append(path);
        out.append(
            ". Install it first (e.g. `curl -L https://github.com/yt-dlp/yt-dlp/releases/latest/download/yt-dlp -o ",
        );
        out.append(path);
        out.append(" && chmod +x ");
        out.append(path);
        out.append("`)");
        Err(out)
    }

    /// The first line of a text that is more than white space, trimmed.
    pub open spec fn first_line(text: Seq<char>) -> Seq<char> {
        trimmed(before_first(trimmed(text), '\n'))
    }

    /// The version that a run of `--version` reported: the trimmed first line of its output.
    /// `status` is how the system describes the exit status.
    pub fn version(
        &self,
        success: bool,
        status: &str,
        stdout: &Vec<u8>,
        stderr: &Vec<u8>,
    ) -> (r: Result<String, String>)
        ensures
            success ==> r is Ok && r->Ok_0@ == Self::first_line(utf8_text(stdout@)),
            !success ==> r is Err && r->Err_0@ == "yt-dlp --version exited "@ + status@ + ": "@
                + trimmed(utf8_text(stderr@)),
    {
        if success {
            let text = from_utf8_lossy(stdout);
            let kept = trim(text.as_str());
            match split_once(kept.as_str(), '\n') {
                Some((line, _)) => Ok(trim(line.as_str())),
                None => {
                    assert(kept@.take(kept@.len() as int) =~= kept@);
                    Ok(trim(kept.as_str()))
                },
            }
        } else {
            let text = from_utf8_lossy(stderr);
            let mut out = "yt-dlp --version exited ".to_owned();
            out.append(status);
            out.append(": ");
            out.append(trim(text.as_str()).as_str());
            Err(out)
        }
    }

    /// The age of the binary, where it is there and can be looked at. A clock that stands before the
    /// time of the file counts as no age at all.
    pub fn binary_age(age: &AgeFact) -> (r: Option<Age>)
        ensures
            r == match *age {
                AgeFact::Unknown => None,
                AgeFact::Future => Some(Age { secs: 0, nanos: 0 }),
                AgeFact::Known { secs, nanos } => Some(Age { secs, nanos }),
            },
    {
        match age {
            AgeFact::Unknown => None,
            AgeFact::Future => Some(Age { secs: 0, nanos: 0 }),
            AgeFact::Known { secs, nanos } => Some(Age { secs: *secs, nanos: *nanos }),
        }
    }

    /// Whether the age of the binary asks for an update: updates are on, the age is known, and the
    /// binary is older than the threshold.
    pub open spec fn update_due(cfg: YtDlpConfig, age: Option<Age>) -> bool {
        cfg.auto_update && match age {
            Some(a) => a.exceeds(cfg.update_if_older_than_days * DAY_SECS),
            None => false,
        }
    }

    /// Decides whether the binary is old enough for an update. The age is `None` where it could not
    /// be found out.
    pub fn ensure_fresh(&self, age: Option<Age>) -> (r: Freshness)
        requires
            self.cfg.auto_update && age is Some ==> self.cfg.update_if_older_than_days * DAY_SECS
                <= u64::MAX,
        ensures
            match r {
                Freshness::Skipped(o) => !Self::update_due(self.cfg, age) && o@
                    == UpdateOutcomeView::none(),
                Freshness::Due => Self::update_due(self.cfg, age),
            },
    {
        if !self.cfg.auto_update {
            return Freshness::Skipped(UpdateOutcome::skipped());
        }
        match age {
            None => Freshness::Skipped(UpdateOutcome::skipped()),
            Some(age) => {
                let threshold: u64 = self.cfg.update_if_older_than_days * DAY_SECS;
                if age.secs > threshold || (age.secs == threshold && age.nanos > 0) {
                    Freshness::Due
                } else {
                    Freshness::Skipped(UpdateOutcome::skipped())
                }
            },
        }
    }

    /// The arguments of the update command.
    pub fn update_args(&self) -> (r: Vec<String>)
        ensures
            texts(r@) == seq!["-U"@, "--update-to"@, self.cfg.channel.name()],
    {
        let mut v: Vec<String> = Vec::new();
        v.push("-U".to_owned());
        v.push("--update-to".to_owned());
        v.push(self.cfg.channel.as_str().to_owned());
        assert(texts(v@) == seq!["-U"@, "--update-to"@, self.cfg.channel.name()]);
        v
    }

    /// What a finished update command means.
    pub fn update_now(&self, run: UpdateRun) -> (r: UpdateStep)
        ensures
            match run {
                UpdateRun::SpawnFailed { detail } => r is Failed && r->Failed_0@
                    == UpdateOutcomeView::failure(seq![], detail@),
                UpdateRun::TimedOut => r is Failed && r->Failed_0@ == UpdateOutcomeView::failure(
                    seq![],
                    "update timed out"@,
                ),
                UpdateRun::WaitFailed { detail } => r is Failed && r->Failed_0@
                    == UpdateOutcomeView::failure(seq![], detail@),
                UpdateRun::Exited { success, stdout, stderr } => if success {
                    r is ProbeVersion && r->stdout@ == utf8_text(stdout@) && r->stderr@
                        == utf8_text(stderr@)
                } else {
                    r is Failed && r->Failed_0@ == UpdateOutcomeView::failure(
                        utf8_text(stdout@),
                        utf8_text(stderr@),
                    )
                },
            },
    {
        match run {
            UpdateRun::SpawnFailed { detail } => UpdateStep::Failed(
                UpdateOutcome::failed(String::new(), detail),
            ),
            UpdateRun::TimedOut => UpdateStep::Failed(
                UpdateOutcome::failed(String::new(), "update timed out".to_owned()),
            ),
            UpdateRun::WaitFailed { detail } => UpdateStep::Failed(
                UpdateOutcome::failed(String::new(), detail),
            ),
            UpdateRun::Exited { success, stdout, stderr } => {
                let out = from_utf8_lossy(&stdout);
                let err = from_utf8_lossy(&stderr);
                if success {
                    UpdateStep::ProbeVersion { stdout: out, stderr: err }
                } else {
                    UpdateStep::Failed(UpdateOutcome::failed(out, err))
                }
            },
        }
    }

    /// Tells whether the error output looks like an extractor of yt-dlp is out of date.
    pub fn looks_like_extraction_failure(stderr_text: &str) -> (r: bool)
        ensures
            r == shows_any(stderr_text@, extraction_error_signatures()),
    {
        let lower = to_ascii_lowercase(stderr_text);
        let signatures: Vec<&'static str> = vec![
            "unable to extract",
            "signature extraction failed",
            "precondition check failed",
            "http error 403",
            "youtube said: the following content",
            "unable to download webpage",
            "requested format is not available",
            "no longer available",
        ];
        proof {
            let specs = extraction_error_signatures();
            assert(signatures@.len() == specs.len());
            assert forall|i: int| 0 <= i < specs.len() implies #[trigger] specs[i]
                == signatures@[i]@ by {}
            assert forall|i: int| 0 <= i < specs.len() implies #[trigger] signatures@[i]@
                == specs[i] by {}
        }
        contains_any(&lower, &signatures)
    }

    /// Tells whether the error output looks like the cookies have expired or were refused. Distinct
    /// from an extraction failure: what helps is to export the cookies anew.
    pub fn looks_like_auth_failure(stderr_text: &str) -> (r: bool)
        ensures
            r == shows_any(stderr_text@, auth_failure_signatures()),
    {
        let lower = to_ascii_lowercase(stderr_text);
        let signatures: Vec<&'static str> = vec![
            "sign in to confirm",
            "sign in, to confirm",
            "not a bot",
            "login required",
            "please log in",
            "http error 401",
            "private video",
            "members-only content",
            "this video is available to this channel's members",
            "the uploader has not made this video available",
            "cookies provided do not match",
            "cookies are no longer valid",
            "your cookies are expired",
            "requested content is not available, rechecking",
        ];
        proof {
            let specs = auth_failure_signatures();
            assert(signatures@.len() == specs.len());
            assert forall|i: int| 0 <= i < specs.len() implies #[trigger] specs[i]
                == signatures@[i]@ by {}
            assert forall|i: int| 0 <= i < specs.len() implies #[trigger] signatures@[i]@
                == specs[i] by {}
        }
        contains_any(&lower, &signatures)
    }
}

/// A signature is found wherever it stands in the output, and in any mix of upper and lower case.
pub proof fn law_signature_is_found(
    before: Seq<char>,
    part: Seq<char>,
    behind: Seq<char>,
    signatures: Seq<Seq<char>>,
    i: int,
)
    requires
        0 <= i < signatures.len(),
        ascii_lowered(part) == signatures[i],
    ensures
        shows_any(before + part + behind, signatures),
{
    let lower = ascii_lowered(before + part + behind);
    assert(lower.subrange(before.len() as int, (before.len() + part.len()) as int) =~= ascii_lowered(part));
    assert(stands_at(lower, signatures[i], before.len() as int));
    assert(has_part(lower, signatures[i]));
}

/// What the output shows is shown by any longer output that holds it.
pub proof fn law_more_output_shows_no_less(
    before: Seq<char>,
    stderr: Seq<char>,
    behind: Seq<char>,
    signatures: Seq<Seq<char>>,
)
    requires
        shows_any(stderr, signatures),
    ensures
        shows_any(before + stderr + behind, signatures),
{
    let i = choose|i: int|
        0 <= i < signatures.len() && has_part(ascii_lowered(stderr), #[trigger] signatures[i]);
    let at = choose|at: int| stands_at(ascii_lowered(stderr), signatures[i], at);
    let part = stderr.subrange(at, at + signatures[i].len());
    assert(ascii_lowered(part) =~= ascii_lowered(stderr).subrange(
        at,
        at + signatures[i].len(),
    ));
    let a = before + stderr.take(at);
    let b = stderr.skip(at + signatures[i].len()) + behind;
    law_signature_is_found(a, part, b, signatures, i);
    assert(a + part + b =~= before + stderr + behind);
}

/// The older the binary, the rather it is updated: an age that asks for an update does so from then
/// on.
pub proof fn law_due_stays_due(cfg: YtDlpConfig, age: Age, later: Age)
    requires
        age.secs < later.secs || (age.secs == later.secs && age.nanos <= later.nanos),
        YtDlpUpdater::update_due(cfg, Some(age)),
    ensures
        YtDlpUpdater::update_due(cfg, Some(later)),
{
}

/// Each of these, in any mix of upper and lower case, shows an outdated extractor, and nothing else
/// does.
pub proof fn law_what_shows_an_outdated_extractor(stderr: Seq<char>)
    ensures
        shows_any(stderr, extraction_error_signatures()) <==> {
            ||| has_part(ascii_lowered(stderr), "unable to extract"@)
            ||| has_part(ascii_lowered(stderr), "signature extraction failed"@)
            ||| has_part(ascii_lowered(stderr), "precondition check failed"@)
            ||| has_part(ascii_lowered(stderr), "http error 403"@)
            ||| has_part(ascii_lowered(stderr), "youtube said: the following content"@)
            ||| has_part(ascii_lowered(stderr), "unable to download webpage"@)
            ||| has_part(ascii_lowered(stderr), "requested format is not available"@)
            ||| has_part(ascii_lowered(stderr), "no longer available"@)
        },
{
    let lower = ascii_lowered(stderr);
    let sigs = extraction_error_signatures();
    assert(sigs.len() == 8);
    assert(sigs[0] == "unable to extract"@);
    assert(sigs[1] == "signature extraction failed"@);
    assert(sigs[2] == "precondition check failed"@);
    assert(sigs[3] == "http error 403"@);
    assert(sigs[4] == "youtube said: the following content"@);
    assert(sigs[5] == "unable to download webpage"@);
    assert(sigs[6] == "requested format is not available"@);
    assert(sigs[7] == "no longer available"@);
    if has_part(lower, "unable to extract"@) {
        assert(has_part(lower, sigs[0]));
    }
    if has_part(lower, "signature extraction failed"@) {
        assert(has_part(lower, sigs[1]));
    }
    if has_part(lower, "precondition check failed"@) {
        assert(has_part(lower, sigs[2]));
    }
    if has_part(lower, "http error 403"@) {
        assert(has_part(lower, sigs[3]));
    }
    if has_part(lower, "youtube said: the following content"@) {
        assert(has_part(lower, sigs[4]));
    }
    if has_part(lower, "unable to download webpage"@) {
        assert(has_part(lower, sigs[5]));
    }
    if has_part(lower, "requested format is not available"@) {
        assert(has_part(lower, sigs[6]));
    }
    if has_part(lower, "no longer available"@) {
        assert(has_part(lower, sigs[7]));
    }
    if shows_any(stderr, sigs) {
        let i = choose|i: int| 0 <= i < sigs.len() && has_part(lower, #[trigger] sigs[i]);
        assert(0 <= i < 8);
    }
}

/// Each of these, in any mix of upper and lower case, shows refused cookies, and nothing else does.
pub proof fn law_what_shows_refused_cookies(stderr: Seq<char>)
    ensures
        shows_any(stderr, auth_failure_signatures()) <==> {
            ||| has_part(ascii_lowered(stderr), "sign in to confirm"@)
            ||| has_part(ascii_lowered(stderr), "sign in, to confirm"@)
            ||| has_part(ascii_lowered(stderr), "not a bot"@)
            ||| has_part(ascii_lowered(stderr), "login required"@)
            ||| has_part(ascii_lowered(stderr), "please log in"@)
            ||| has_part(ascii_lowered(stderr), "http error 401"@)
            ||| has_part(ascii_lowered(stderr), "private video"@)
            ||| has_part(ascii_lowered(stderr), "members-only content"@)
            ||| has_part(ascii_lowered(stderr), "this video is available to this channel's members"@)
            ||| has_part(ascii_lowered(stderr), "the uploader has not made this video available"@)
            ||| has_part(ascii_lowered(stderr), "cookies provided do not match"@)
            ||| has_part(ascii_lowered(stderr), "cookies are no longer valid"@)
            ||| has_part(ascii_lowered(stderr), "your cookies are expired"@)
            ||| has_part(ascii_lowered(stderr), "requested content is not available, rechecking"@)
        },
{
    let lower = ascii_lowered(stderr);
    let sigs = auth_failure_signatures();
    assert(sigs.len() == 14);
    assert(sigs[0] == "sign in to confirm"@);
    assert(sigs[1] == "sign in, to confirm"@);
    assert(sigs[2] == "not a bot"@);
    assert(sigs[3] == "login required"@);
    assert(sigs[4] == "please log in"@);
    assert(sigs[5] == "http error 401"@);
    assert(sigs[6] == "private video"@);
    assert(sigs[7] == "members-only content"@);
    assert(sigs[8] == "this video is available to this channel's members"@);
    assert(sigs[9] == "the uploader has not made this video available"@);
    assert(sigs[10] == "cookies provided do not match"@);
    assert(sigs[11] == "cookies are no longer valid"@);
    assert(sigs[12] == "your cookies are expired"@);
    assert(sigs[13] == "requested content is not available, rechecking"@);
    if has_part(lower, "sign in to confirm"@) {
        assert(has_part(lower, sigs[0]));
    }
    if has_part(lower, "sign in, to confirm"@) {
        assert(has_part(lower, sigs[1]));
    }
    if has_part(lower, "not a bot"@) {
        assert(has_part(lower, sigs[2]));
    }
    if has_part(lower, "login required"@) {
        assert(has_part(lower, sigs[3]));
    }
    if has_part(lower, "please log in"@) {
        assert(has_part(lower, sigs[4]));
    }
    if has_part(lower, "http error 401"@) {
        assert(has_part(lower, sigs[5]));
    }
    if has_part(lower, "private video"@) {
        assert(has_part(lower, sigs[6]));
    }
    if has_part(lower, "members-only content"@) {
        assert(has_part(lower, sigs[7]));
    }
    if has_part(lower, "this video is available to this channel's members"@) {
        assert(has_part(lower, sigs[8]));
    }
    if has_part(lower, "the uploader has not made this video available"@) {
        assert(has_part(lower, sigs[9]));
    }
    if has_part(lower, "cookies provided do not match"@) {
        assert(has_part(lower, sigs[10]));
    }
    if has_part(lower, "cookies are no longer valid"@) {
        assert(has_part(lower, sigs[11]));
    }
    if has_part(lower, "your cookies are expired"@) {
        assert(has_part(lower, sigs[12]));
    }
    if has_part(lower, "requested content is not available, rechecking"@) {
        assert(has_part(lower, sigs[13]));
    }
    if shows_any(stderr, sigs) {
        let i = choose|i: int| 0 <= i < sigs.len() && has_part(lower, #[trigger] sigs[i]);
        assert(0 <= i < 14);
    }
}

/// The version is the first line, without the white space around it, whatever lines follow it.
pub proof fn law_version_is_the_first_line(line: Seq<char>, rest: Seq<char>)
    requires
        line.len() > 0,
        trimmed(line) == line,
        !line.contains('\n'),
    ensures
        YtDlpUpdater::first_line(line) == line,
        YtDlpUpdater::first_line(line.push('\n') + rest) == line,
{
    lemma_one_line_stays(line);
    let s = line.push('\n') + rest;
    lemma_bare_front_stays(line, s);
    let t = trimmed(s);
    assert(s[line.len() as int] == '\n');
    lemma_run_before(t, '\n');
    let n = run_before(t, '\n') as int;
    if n < line.len() {
        assert(t[n] == s.take(t.len() as int)[n]);
        assert(s[n] == line[n]);
        assert(line.contains(line[n]));
    }
    if t.len() > line.len() {
        assert(t[line.len() as int] == s.take(t.len() as int)[line.len() as int]);
        assert(t[line.len() as int] == '\n');
    }
    assert(n == line.len());
    assert(t.take(n) =~= s.take(n));
    assert(s.take(n) =~= line);
    assert(before_first(t, '\n') =~= line);
}

/// Trimming a text that begins with one without white space around it takes nothing of that.
proof fn lemma_bare_front_stays(line: Seq<char>, s: Seq<char>)
    requires
        line.len() > 0,
        trimmed(line) == line,
        line.is_prefix_of(s),
    ensures
        line.len() <= trimmed(s).len() <= s.len(),
        trimmed(s) == s.take(trimmed(s).len() as int),
{
    lemma_trimmed_start(line);
    lemma_trimmed_end(trimmed_start(line));
    assert(trimmed_start(line) == line);
    assert(s[0] == line[0]);
    assert(trimmed_start(s) == s);
    lemma_trimmed_end(s);
    assert(s[line.len() - 1] == line[line.len() - 1]);
}

/// A text of one line is its own first line.
proof fn lemma_one_line_stays(line: Seq<char>)
    requires
        !line.contains('\n'),
    ensures
        before_first(line, '\n') == line,
{
    lemma_run_before(line, '\n');
    let n = run_before(line, '\n') as int;
    if n < line.len() {
        assert(line.contains(line[n]));
    }
    assert(before_first(line, '\n') =~= line);
}

/// An update is due just where updates are on and the binary is older than the threshold: a
/// nanosecond more will do, and the threshold itself will not.
pub proof fn law_threshold_is_passed(cfg: YtDlpConfig, secs: u64, nanos: u32)
    requires
        cfg.auto_update,
    ensures
        secs == cfg.update_if_older_than_days * 86_400 ==> (YtDlpUpdater::update_due(
            cfg,
            Some(Age { secs, nanos }),
        ) <==> nanos > 0),
        secs < cfg.update_if_older_than_days * 86_400 ==> !YtDlpUpdater::update_due(
            cfg,
            Some(Age { secs, nanos }),
        ),
        secs > cfg.update_if_older_than_days * 86_400 ==> YtDlpUpdater::update_due(
            cfg,
            Some(Age { secs, nanos }),
        ),
        !YtDlpUpdater::update_due(cfg, None),
{
}

/// Without updates, none is ever due.
pub proof fn law_updates_can_be_off(cfg: YtDlpConfig, age: Option<Age>)
    requires
        !cfg.auto_update,
    ensures
        !YtDlpUpdater::update_due(cfg, age),
{
}

/// An outcome tells whether an update was run and whether it succeeded, and holds the output as it
/// came; a version is known only where it succeeded.
pub proof fn law_outcomes_say_what_happened(
    stdout: Seq<char>,
    stderr: Seq<char>,
    new_version: Option<Seq<char>>,
)
    ensures
        ({
            let o = UpdateOutcomeView::none();
            !o.attempted && !o.succeeded && o.stdout.len() == 0 && o.stderr.len() == 0
                && o.new_version is None
        }),
        ({
            let o = UpdateOutcomeView::failure(stdout, stderr);
            o.attempted && !o.succeeded && o.stdout == stdout && o.stderr == stderr
                && o.new_version is None
        }),
        ({
            let o = UpdateOutcomeView::success(stdout, stderr, new_version);
            o.attempted && o.succeeded && o.stdout == stdout && o.stderr == stderr && o.new_version
                == new_version
        }),
{
}

/// A binary that is not there is complained of under its path, with how to get it there.
pub proof fn law_missing_binary_is_named(path: Seq<char>)
    ensures
        ("yt-dlp not found at "@ + path + ". Install it first"@).is_prefix_of(
            YtDlpUpdater::missing_text(path),
        ),
        has_part(YtDlpUpdater::missing_text(path), " && chmod +x "@ + path),
{
    let m = YtDlpUpdater::missing_text(path);
    let how = ". Install it first (e.g. `curl -L https://github.com/yt-dlp/yt-dlp/releases/latest/download/yt-dlp -o "@;
    reveal_strlit(". Install it first");
    reveal_strlit(
        ". Install it first (e.g. `curl -L https://github.com/yt-dlp/yt-dlp/releases/latest/download/yt-dlp -o ",
    );
    let head = "yt-dlp not found at "@ + path;
    assert(how.take(18) =~= ". Install it first"@);
    assert(m =~= head + ". Install it first"@ + (how.skip(18) + path + " && chmod +x "@ + path
        + "`)"@));
    assert((head + ". Install it first"@) =~= m.take((head.len() + 18) as int));
    lemma_text_goes_on(head + how + path, " && chmod +x "@, path);
    lemma_text_goes_on(head + how + path + " && chmod +x "@ + path, "`)"@, seq![]);
    assert(m =~= head + how + path + " && chmod +x "@ + path + "`)"@ + seq![]);
}

/// The channels are called what yt-dlp calls them.
pub proof fn law_channels_have_their_names()
    ensures
        YtDlpChannel::Stable.name() == "stable"@,
        YtDlpChannel::Nightly.name() == "nightly"@,
        YtDlpChannel::Master.name() == "master"@,
{
}

/// White space before a version does not matter, lines without anything in them among it.
pub proof fn law_white_space_before_the_version(text: Seq<char>, white: char)
    requires
        is_white(white),
    ensures
        YtDlpUpdater::first_line(seq![white] + text) == YtDlpUpdater::first_line(text),
        YtDlpUpdater::first_line(text.push(white)) == YtDlpUpdater::first_line(text),
{
    law_outer_white_space_does_not_matter(text, white);
}

} // verus!

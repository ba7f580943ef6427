//! The checks before a cycle touches yt-dlp or the database. What has been observed of the machine
//! is handed in; what is still to be observed is asked for, in a fixed order.

use vstd::prelude::*;
use vstd::string::*;
use crate::config::Config;
use crate::numbers::{decimal, digits, octal_text, push_decimal};
use crate::paths::opt_text;
use crate::text::{ends_with, has_suffix, law_suffix_is_an_ending, texts};
use crate::ytdlp_updater::DAY_SECS;

verus! {

/// What a passed check reports.
#[derive(Debug, Clone, Copy, PartialEq, Eq, Structural)]
pub struct PreflightReport {
    pub cookies_age_days: Option<u64>,
}

/// What was observed of the cookies file.
pub enum CookiesFact {
    Missing,
    /// It is there, but nothing more could be learnt.
    StatFailed(String),
    /// Its length, and the permission bits where the system has them.
    Found { len: u64, mode: Option<u32> },
}

/// How long ago the cookies file was written.
pub enum AgeFact {
    Unknown,
    /// The clock stands before the time of the file.
    Future,
    Known { secs: u64, nanos: u32 },
}

/// What was observed of an output directory.
pub enum DirFact {
    CreateFailed(String),
    NotWritable(String),
    Ready,
}

/// What was observed of the free space under an output directory.
pub enum SpaceFact {
    Failed(String),
    Bytes(u64),
}

/// What has been observed so far.
pub struct Facts {
    pub cookies: Option<CookiesFact>,
    pub cookies_age: Option<AgeFact>,
    pub audio_dir: Option<DirFact>,
    pub video_dir: Option<DirFact>,
    pub audio_space: Option<SpaceFact>,
    pub video_space: Option<SpaceFact>,
}

/// What is to be observed next.
#[derive(Debug, Clone, Copy, PartialEq, Eq, Structural)]
pub enum Probe {
    Cookies,
    CookiesAge,
    AudioDir,
    VideoDir,
    AudioSpace,
    VideoSpace,
}

/// Why the check failed.
#[derive(Debug)]
pub struct PreflightError {
    pub message: String,
    /// What the system said, where it said something.
    pub cause: Option<String>,
}

/// The characters of a `PreflightError`.
pub struct PreflightErrorView {
    pub message: Seq<char>,
    pub cause: Option<Seq<char>>,
}

impl View for PreflightError {
    type V = PreflightErrorView;

    open spec fn view(&self) -> PreflightErrorView {
        PreflightErrorView { message: self.message@, cause: opt_text(self.cause) }
    }
}

/// Where the check stands.
pub enum Verdict {
    /// Something is still to be observed.
    Observe(Probe),
    Failed(PreflightError),
    Passed(PreflightReport),
}

/// The characters of a `Verdict`.
pub enum VerdictView {
    Observe(Probe),
    Failed(PreflightErrorView),
    Passed(PreflightReport),
}

impl View for Verdict {
    type V = VerdictView;

    open spec fn view(&self) -> VerdictView {
        match *self {
            Verdict::Observe(p) => VerdictView::Observe(p),
            Verdict::Failed(e) => VerdictView::Failed(e@),
            Verdict::Passed(r) => VerdictView::Passed(r),
        }
    }
}

/// A failure without a word of the system.
pub open spec fn flaw(message: Seq<char>) -> Option<PreflightErrorView> {
    Some(PreflightErrorView { message, cause: None })
}

/// A failure that the system explained.
pub open spec fn flaw_because(message: Seq<char>, cause: Seq<char>) -> Option<PreflightErrorView> {
    Some(PreflightErrorView { message, cause: Some(cause) })
}

/// Whether a file is closed to its group and to others.
pub open spec fn is_private(mode: u32) -> bool {
    mode & 0o077 == 0
}

/// What is wrong with the cookies file. It holds live session tokens, so it must be private.
pub open spec fn cookies_flaw(path: Seq<char>, c: CookiesFact) -> Option<PreflightErrorView> {
    match c {
        CookiesFact::Missing => flaw(
            "cookies file missing at "@ + path
                + ". Export via your browser (yt-dlp-compatible Netscape format)."@,
        ),
        CookiesFact::StatFailed(cause) => flaw_because("stat cookies "@ + path, cause@),
        CookiesFact::Found { len, mode } => if len == 0 {
            flaw("cookies file is empty: "@ + path)
        } else {
            match mode {
                Some(m) => if is_private(m) {
                    None
                } else {
                    flaw(
                        "cookies file "@ + path + " has permissions "@ + digits(
                            (m & 0o777) as nat,
                            8,
                        ) + "; must be 0600 (run `chmod 600 "@ + path + "`)"@,
                    )
                },
                None => None,
            }
        },
    }
}

/// What is wrong with an output directory.
pub open spec fn dir_flaw(dir: Seq<char>, d: DirFact) -> Option<PreflightErrorView> {
    match d {
        DirFact::CreateFailed(cause) => flaw_because("create output dir "@ + dir, cause@),
        DirFact::NotWritable(cause) => flaw_because(
            "output dir "@ + dir + " is not writable"@,
            cause@,
        ),
        DirFact::Ready => None,
    }
}

/// The bytes of a gigabyte.
pub const GB_BYTES: u64 = 1_073_741_824;

/// What is wrong with the free space under an output directory. Only whole gigabytes count.
pub open spec fn space_flaw(
    dir: Seq<char>,
    s: SpaceFact,
    min_gb: u64,
) -> Option<PreflightErrorView> {
    match s {
        SpaceFact::Failed(cause) => flaw_because("query free space on "@ + dir, cause@),
        SpaceFact::Bytes(bytes) => if bytes / GB_BYTES < min_gb {
            flaw(
                "only "@ + decimal((bytes / GB_BYTES) as nat) + " GB free on "@ + dir + " (need "@
                    + decimal(min_gb as nat) + " GB)"@,
            )
        } else {
            None
        },
    }
}

/// The age of the cookies file in whole days. A clock that stands before the time of the file
/// counts as no age at all.
pub open spec fn age_days(age: AgeFact) -> Option<u64> {
    match age {
        AgeFact::Unknown => None,
        AgeFact::Future => Some(0),
        AgeFact::Known { secs, .. } => Some(secs / DAY_SECS),
    }
}

/// Where the check stands: the first thing that is not observed is asked for, and the first flaw
/// that is observed ends the check.
pub open spec fn verdict(cfg: Config, f: Facts) -> VerdictView {
    match f.cookies {
        None => VerdictView::Observe(Probe::Cookies),
        Some(c) => match cookies_flaw(cfg.cookies_path@, c) {
            Some(e) => VerdictView::Failed(e),
            None => match f.cookies_age {
                None => VerdictView::Observe(Probe::CookiesAge),
                Some(age) => dirs_verdict(cfg, f, age_days(age)),
            },
        },
    }
}

/// The same, with the cookies in order.
pub open spec fn dirs_verdict(cfg: Config, f: Facts, days: Option<u64>) -> VerdictView {
    match f.audio_dir {
        None => VerdictView::Observe(Probe::AudioDir),
        Some(a) => match dir_flaw(cfg.output_audio_dir@, a) {
            Some(e) => VerdictView::Failed(e),
            None => match f.video_dir {
                None => VerdictView::Observe(Probe::VideoDir),
                Some(v) => match dir_flaw(cfg.output_video_dir@, v) {
                    Some(e) => VerdictView::Failed(e),
                    None => space_verdict(cfg, f, days),
                },
            },
        },
    }
}

/// The same, with the directories in order.
pub open spec fn space_verdict(cfg: Config, f: Facts, days: Option<u64>) -> VerdictView {
    match f.audio_space {
        None => VerdictView::Observe(Probe::AudioSpace),
        Some(a) => match space_flaw(cfg.output_audio_dir@, a, cfg.min_free_disk_gb) {
            Some(e) => VerdictView::Failed(e),
            None => match f.video_space {
                None => VerdictView::Observe(Probe::VideoSpace),
                Some(v) => match space_flaw(cfg.output_video_dir@, v, cfg.min_free_disk_gb) {
                    Some(e) => VerdictView::Failed(e),
                    None => VerdictView::Passed(PreflightReport { cookies_age_days: days }),
                },
            },
        },
    }
}

/// The characters of a flaw.
pub open spec fn flaw_view(r: Option<PreflightError>) -> Option<PreflightErrorView> {
    match r {
        Some(e) => Some(e@),
        None => None,
    }
}

/// What is wrong with the cookies file.
fn check_cookies(path: &str, c: &CookiesFact) -> (r: Option<PreflightError>)
    ensures
        flaw_view(r) == cookies_flaw(path@, *c),
{
    match c {
        CookiesFact::Missing => {
            let mut message = "cookies file missing at ".to_owned();
            message.append(path);
            message.append(". Export via your browser (yt-dlp-compatible Netscape format).");
            Some(PreflightError { message, cause: None })
        },
        CookiesFact::StatFailed(cause) => {
            let mut message = "stat cookies ".to_owned();
            message.append(path);
            Some(PreflightError { message, cause: Some(cause.clone()) })
        },
        CookiesFact::Found { len, mode } => {
            if *len == 0 {
                let mut message = "cookies file is empty: ".to_owned();
                message.append(path);
                return Some(PreflightError { message, cause: None });
            }
            match mode {
                Some(m) => {
                    let bits: u32 = *m & 0o777;
                    proof {
                        let m = *m;
                        assert((m & 0o777) & 0o077 == m & 0o077) by (bit_vector);
                    }
                    if bits & 0o077 == 0 {
                        return None;
                    }
                    let octal = octal_text(bits as u64);
                    let mut message = "cookies file ".to_owned();
                    message.append(path);
                    message.append(" has permissions ");
                    message.append(octal.as_str());
                    message.append("; must be 0600 (run `chmod 600 ");
                    message.append(path);
                    message.append("`)");
                    Some(PreflightError { message, cause: None })
                },
                None => None,
            }
        },
    }
}

/// What is wrong with an output directory.
fn check_output_dir(dir: &str, d: &DirFact) -> (r: Option<PreflightError>)
    ensures
        flaw_view(r) == dir_flaw(dir@, *d),
{
    match d {
        DirFact::CreateFailed(cause) => {
            let mut message = "create output dir ".to_owned();
            message.append(dir);
            Some(PreflightError { message, cause: Some(cause.clone()) })
        },
        DirFact::NotWritable(cause) => {
            let mut message = "output dir ".to_owned();
            message.append(dir);
            message.append(" is not writable");
            Some(PreflightError { message, cause: Some(cause.clone()) })
        },
        DirFact::Ready => None,
    }
}

/// What is wrong with the free space under an output directory.
fn check_free_space(dir: &str, s: &SpaceFact, min_gb: u64) -> (r: Option<PreflightError>)
    ensures
        flaw_view(r) == space_flaw(dir@, *s, min_gb),
{
    match s {
        SpaceFact::Failed(cause) => {
            let mut message = "query free space on ".to_owned();
            message.append(dir);
            Some(PreflightError { message, cause: Some(cause.clone()) })
        },
        SpaceFact::Bytes(bytes) => {
            let gb: u64 = *bytes / GB_BYTES;
            if gb < min_gb {
                let mut message = "only ".to_owned();
                push_decimal(&mut message, gb);
                message.append(" GB free on ");
                message.append(dir);
                message.append(" (need ");
                push_decimal(&mut message, min_gb);
                message.append(" GB)");
                Some(PreflightError { message, cause: None })
            } else {
                None
            }
        },
    }
}

/// The age of the cookies file in whole days.
pub fn cookies_age_days(age: &AgeFact) -> (r: Option<u64>)
    ensures
        r == age_days(*age),
{
    match age {
        AgeFact::Unknown => None,
        AgeFact::Future => Some(0),
        AgeFact::Known { secs, .. } => Some(*secs / DAY_SECS),
    }
}

/// How old cookies may become before a warning is due.
pub const STALE_SECS: u64 = 2_592_000;

/// Whether the cookies are more than thirty days old, to the nanosecond.
pub fn cookies_look_stale(age: &AgeFact) -> (r: bool)
    ensures
        r == match *age {
            AgeFact::Known { secs, nanos } => secs > STALE_SECS || (secs == STALE_SECS && nanos
                > 0),
            _ => false,
        },
{
    match age {
        AgeFact::Known { secs, nanos } => *secs > STALE_SECS || (*secs == STALE_SECS && *nanos > 0),
        _ => false,
    }
}

/// Checks what must hold before a sync: the cookies file is there, filled and private, both output
/// directories can be written to, and both have enough free space.
pub fn run(cfg: &Config, facts: &Facts) -> (r: Verdict)
    ensures
        r@ == verdict(*cfg, *facts),
{
    match &facts.cookies {
        None => return Verdict::Observe(Probe::Cookies),
        Some(c) => {
            if let Some(e) = check_cookies(cfg.cookies_path.as_str(), c) {
                return Verdict::Failed(e);
            }
        },
    }
    let days = match &facts.cookies_age {
        None => return Verdict::Observe(Probe::CookiesAge),
        Some(age) => cookies_age_days(age),
    };
    match &facts.audio_dir {
        None => return Verdict::Observe(Probe::AudioDir),
        Some(d) => {
            if let Some(e) = check_output_dir(cfg.output_audio_dir.as_str(), d) {
                return Verdict::Failed(e);
            }
        },
    }
    match &facts.video_dir {
        None => return Verdict::Observe(Probe::VideoDir),
        Some(d) => {
            if let Some(e) = check_output_dir(cfg.output_video_dir.as_str(), d) {
                return Verdict::Failed(e);
            }
        },
    }
    match &facts.audio_space {
        None => return Verdict::Observe(Probe::AudioSpace),
        Some(s) => {
            if let Some(e) = check_free_space(
                cfg.output_audio_dir.as_str(),
                s,
                cfg.min_free_disk_gb,
            ) {
                return Verdict::Failed(e);
            }
        },
    }
    match &facts.video_space {
        None => return Verdict::Observe(Probe::VideoSpace),
        Some(s) => {
            if let Some(e) = check_free_space(
                cfg.output_video_dir.as_str(),
                s,
                cfg.min_free_disk_gb,
            ) {
                return Verdict::Failed(e);
            }
        },
    }
    Verdict::Passed(PreflightReport { cookies_age_days: days })
}

/// Whether a file is what an interrupted download of yt-dlp leaves behind.
pub open spec fn is_partial(name: Seq<char>) -> bool {
    has_suffix(name, ".part"@) || has_suffix(name, ".ytdl"@)
}

/// Whether a file is what an interrupted download of yt-dlp leaves behind. Such files are never
/// taken up again and only pile up.
pub fn is_partial_file(name: &str) -> (r: bool)
    ensures
        r == is_partial(name@),
{
    ends_with(name, ".part") || ends_with(name, ".ytdl")
}

/// The files of a directory that are swept, in their order: those that interrupted downloads left
/// behind, and no others.
pub fn sweep_partial_files(names: &Vec<String>) -> (r: Vec<String>)
    ensures
        texts(r@) == texts(names@).filter(|n: Seq<char>| is_partial(n)),
{
    let ghost all = texts(names@);
    let ghost keep = |n: Seq<char>| is_partial(n);
    let mut out: Vec<String> = Vec::new();
    let mut i: usize = 0;
    proof {
        reveal(Seq::filter);
        assert(all.take(0) =~= seq![]);
        assert(texts(out@) =~= all.take(0).filter(keep));
    }
    while i < names.len()
        invariant
            all == texts(names@),
            keep == (|n: Seq<char>| is_partial(n)),
            i <= names@.len(),
            texts(out@) == all.take(i as int).filter(keep),
        decreases names@.len() - i,
    {
        let ghost before = texts(out@);
        proof {
            reveal(Seq::filter);
            assert(all.take(i + 1).drop_last() =~= all.take(i as int));
            assert(all.take(i + 1).last() == names@[i as int]@);
        }
        if is_partial_file(names[i].as_str()) {
            out.push(names[i].clone());
            assert(texts(out@) =~= before.push(names@[i as int]@));
        }
        i += 1;
    }
    assert(all.take(i as int) =~= all);
    out
}

/// Whether partial files are swept now: once the check has passed, and never where it failed.
pub fn sweep_follows(v: &Verdict) -> (r: bool)
    ensures
        r == (v@ is Passed),
{
    match v {
        Verdict::Passed(_) => true,
        _ => false,
    }
}

/// Where the check passes, the cookies file is there, filled and private, both directories can be
/// written to, and each has at least the free space that is asked for.
pub proof fn law_passing_means_ready(cfg: Config, f: Facts)
    requires
        verdict(cfg, f) is Passed,
    ensures
        match f.cookies {
            Some(CookiesFact::Found { len, mode }) => len > 0 && match mode {
                Some(m) => m & 0o077 == 0,
                None => true,
            },
            _ => false,
        },
        f.audio_dir == Some(DirFact::Ready),
        f.video_dir == Some(DirFact::Ready),
        match (f.audio_space, f.video_space) {
            (Some(SpaceFact::Bytes(a)), Some(SpaceFact::Bytes(v))) => {
                &&& a >= cfg.min_free_disk_gb * GB_BYTES
                &&& v >= cfg.min_free_disk_gb * GB_BYTES
            },
            _ => false,
        },
{
}

/// Where something is asked for, it has not been observed yet. So the check ends after each thing
/// was observed once.
pub proof fn law_nothing_is_asked_twice(cfg: Config, f: Facts)
    ensures
        match verdict(cfg, f) {
            VerdictView::Observe(Probe::Cookies) => f.cookies is None,
            VerdictView::Observe(Probe::CookiesAge) => f.cookies_age is None,
            VerdictView::Observe(Probe::AudioDir) => f.audio_dir is None,
            VerdictView::Observe(Probe::VideoDir) => f.video_dir is None,
            VerdictView::Observe(Probe::AudioSpace) => f.audio_space is None,
            VerdictView::Observe(Probe::VideoSpace) => f.video_space is None,
            _ => true,
        },
{
}

/// Where the cookies file is there, filled and private, its age was observed, whatever it is, both
/// directories are ready and both have the free space that is asked for, the check passes and reports
/// the age in whole days. Old cookies do not fail it.
pub proof fn law_ready_means_passing(
    cfg: Config,
    f: Facts,
    len: u64,
    mode: Option<u32>,
    age: AgeFact,
    audio_bytes: u64,
    video_bytes: u64,
)
    requires
        f.cookies == Some(CookiesFact::Found { len, mode }),
        len > 0,
        mode is None || mode->0 & 0o077 == 0,
        f.cookies_age == Some(age),
        f.audio_dir == Some(DirFact::Ready),
        f.video_dir == Some(DirFact::Ready),
        f.audio_space == Some(SpaceFact::Bytes(audio_bytes)),
        f.video_space == Some(SpaceFact::Bytes(video_bytes)),
        audio_bytes >= cfg.min_free_disk_gb * 1_073_741_824,
        video_bytes >= cfg.min_free_disk_gb * 1_073_741_824,
    ensures
        verdict(cfg, f) == VerdictView::Passed(
            PreflightReport {
                cookies_age_days: match age {
                    AgeFact::Unknown => None,
                    AgeFact::Future => Some(0u64),
                    AgeFact::Known { secs, .. } => Some((secs / 86_400) as u64),
                },
            },
        ),
{
}

/// Cookies that are missing, cannot be looked at, are empty or are open to others fail the check at
/// once, whatever else is observed, and the message says which file.
pub proof fn law_bad_cookies_fail(cfg: Config, f: Facts, c: CookiesFact)
    requires
        f.cookies == Some(c),
    ensures
        match (c, verdict(cfg, f)) {
            (CookiesFact::Missing, VerdictView::Failed(e)) => {
                &&& e.cause is None
                &&& e.message == "cookies file missing at "@ + cfg.cookies_path@
                    + ". Export via your browser (yt-dlp-compatible Netscape format)."@
            },
            (CookiesFact::Missing, _) => false,
            (CookiesFact::StatFailed(why), VerdictView::Failed(e)) => {
                &&& e.cause == Some(why@)
                &&& e.message == "stat cookies "@ + cfg.cookies_path@
            },
            (CookiesFact::StatFailed(_), _) => false,
            (CookiesFact::Found { len, mode }, v) => {
                &&& len == 0 ==> v == VerdictView::Failed(
                    PreflightErrorView {
                        message: "cookies file is empty: "@ + cfg.cookies_path@,
                        cause: None,
                    },
                )
                &&& len > 0 && mode is Some && mode->0 & 0o077 != 0 ==> v == VerdictView::Failed(
                    PreflightErrorView {
                        message: "cookies file "@ + cfg.cookies_path@ + " has permissions "@
                            + digits((mode->0 & 0o777) as nat, 8)
                            + "; must be 0600 (run `chmod 600 "@ + cfg.cookies_path@ + "`)"@,
                        cause: None,
                    },
                )
            },
        },
{
}

/// With the cookies in order, a directory that cannot be made or written to fails the check, the one
/// for audio before the one for video.
pub proof fn law_bad_directories_fail(
    cfg: Config,
    f: Facts,
    len: u64,
    mode: Option<u32>,
    age: AgeFact,
    why: String,
)
    requires
        len > 0,
        mode is None || mode->0 & 0o077 == 0,
        f.cookies == Some(CookiesFact::Found { len, mode }),
        f.cookies_age == Some(age),
    ensures
        f.audio_dir == Some(DirFact::CreateFailed(why)) ==> verdict(cfg, f) == VerdictView::Failed(
            PreflightErrorView {
                message: "create output dir "@ + cfg.output_audio_dir@,
                cause: Some(why@),
            },
        ),
        f.audio_dir == Some(DirFact::NotWritable(why)) ==> verdict(cfg, f) == VerdictView::Failed(
            PreflightErrorView {
                message: "output dir "@ + cfg.output_audio_dir@ + " is not writable"@,
                cause: Some(why@),
            },
        ),
        f.audio_dir == Some(DirFact::Ready) && f.video_dir == Some(DirFact::CreateFailed(why))
            ==> verdict(cfg, f) == VerdictView::Failed(
            PreflightErrorView {
                message: "create output dir "@ + cfg.output_video_dir@,
                cause: Some(why@),
            },
        ),
        f.audio_dir == Some(DirFact::Ready) && f.video_dir == Some(DirFact::NotWritable(why))
            ==> verdict(cfg, f) == VerdictView::Failed(
            PreflightErrorView {
                message: "output dir "@ + cfg.output_video_dir@ + " is not writable"@,
                cause: Some(why@),
            },
        ),
{
}

/// With everything else in order, free space that falls short by a byte fails the check, for audio
/// before video, and the message says how much there is and how much is needed.
pub proof fn law_low_space_fails(
    cfg: Config,
    f: Facts,
    len: u64,
    mode: Option<u32>,
    age: AgeFact,
    bytes: u64,
    enough: u64,
    why: String,
)
    requires
        len > 0,
        mode is None || mode->0 & 0o077 == 0,
        f.cookies == Some(CookiesFact::Found { len, mode }),
        f.cookies_age == Some(age),
        f.audio_dir == Some(DirFact::Ready),
        f.video_dir == Some(DirFact::Ready),
        enough >= cfg.min_free_disk_gb * 1_073_741_824,
    ensures
        bytes < cfg.min_free_disk_gb * 1_073_741_824 && f.audio_space == Some(
            SpaceFact::Bytes(bytes),
        ) ==> verdict(cfg, f) == VerdictView::Failed(
            PreflightErrorView {
                message: "only "@ + decimal((bytes / 1_073_741_824) as nat) + " GB free on "@
                    + cfg.output_audio_dir@ + " (need "@ + decimal(cfg.min_free_disk_gb as nat)
                    + " GB)"@,
                cause: None,
            },
        ),
        bytes < cfg.min_free_disk_gb * 1_073_741_824 && f.audio_space == Some(
            SpaceFact::Bytes(enough),
        ) && f.video_space == Some(SpaceFact::Bytes(bytes)) ==> verdict(cfg, f)
            == VerdictView::Failed(
            PreflightErrorView {
                message: "only "@ + decimal((bytes / 1_073_741_824) as nat) + " GB free on "@
                    + cfg.output_video_dir@ + " (need "@ + decimal(cfg.min_free_disk_gb as nat)
                    + " GB)"@,
                cause: None,
            },
        ),
        f.audio_space == Some(SpaceFact::Failed(why)) ==> verdict(cfg, f) == VerdictView::Failed(
            PreflightErrorView {
                message: "query free space on "@ + cfg.output_audio_dir@,
                cause: Some(why@),
            },
        ),
        f.audio_space == Some(SpaceFact::Bytes(enough)) && f.video_space == Some(
            SpaceFact::Failed(why),
        ) ==> verdict(cfg, f) == VerdictView::Failed(
            PreflightErrorView {
                message: "query free space on "@ + cfg.output_video_dir@,
                cause: Some(why@),
            },
        ),
{
}

/// What is not observed is asked for in a fixed order, as long as all before it is in order.
pub proof fn law_observations_are_asked_for(
    cfg: Config,
    f: Facts,
    len: u64,
    mode: Option<u32>,
    age: AgeFact,
    enough: u64,
)
    requires
        len > 0,
        mode is None || mode->0 & 0o077 == 0,
        enough >= cfg.min_free_disk_gb * 1_073_741_824,
    ensures
        f.cookies is None ==> verdict(cfg, f) == VerdictView::Observe(Probe::Cookies),
        f.cookies == Some(CookiesFact::Found { len, mode }) ==> {
            &&& f.cookies_age is None ==> verdict(cfg, f) == VerdictView::Observe(Probe::CookiesAge)
            &&& f.cookies_age == Some(age) ==> {
                &&& f.audio_dir is None ==> verdict(cfg, f) == VerdictView::Observe(Probe::AudioDir)
                &&& f.audio_dir == Some(DirFact::Ready) ==> {
                    &&& f.video_dir is None ==> verdict(cfg, f) == VerdictView::Observe(
                        Probe::VideoDir,
                    )
                    &&& f.video_dir == Some(DirFact::Ready) ==> {
                        &&& f.audio_space is None ==> verdict(cfg, f) == VerdictView::Observe(
                            Probe::AudioSpace,
                        )
                        &&& f.audio_space == Some(SpaceFact::Bytes(enough)) && f.video_space is None
                            ==> verdict(cfg, f) == VerdictView::Observe(Probe::VideoSpace)
                    }
                }
            }
        },
{
}

/// A file is partial just where its name ends in `.part` or in `.ytdl`.
pub proof fn law_partial_by_its_ending(stem: Seq<char>, name: Seq<char>)
    ensures
        is_partial(stem + ".part"@),
        is_partial(stem + ".ytdl"@),
        is_partial(name) ==> name.take(name.len() - 5) + ".part"@ == name || name.take(
            name.len() - 5,
        ) + ".ytdl"@ == name,
{
    reveal_strlit(".part");
    reveal_strlit(".ytdl");
    law_suffix_is_an_ending(stem, ".part"@, name);
    law_suffix_is_an_ending(stem, ".ytdl"@, name);
}

/// Cookies are stale from thirty days on.
pub proof fn law_cookies_last_thirty_days()
    ensures
        STALE_SECS == 30 * 86_400,
{
}

} // verus!

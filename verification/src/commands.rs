//! What the commands of the program decide and say.

use vstd::prelude::*;
use vstd::string::*;
use crate::config::{Config, NtfyConfig};
use crate::db::{RunSummary, RunSummaryView};
use crate::ntfy::{
    law_alerts_are_told_apart, law_failures_alert_says_what_happened, request_views, run_alerts,
    Notifier, NtfyRequest, NtfyRequestView,
};
use crate::numbers::{decimal, push_decimal, push_signed, signed_decimal};
use crate::paths::opt_text;
use crate::sync::SyncStats;
use crate::text::{
    debug_quoted, debug_text, has_part, has_suffix, law_suffix_is_an_ending, lemma_text_goes_on,
    texts, trim, trimmed,
};
use crate::ytdlp::{PlaylistEntry, YtDlpError};
use crate::ytdlp_updater::{UpdateOutcome, DAY_SECS};

verus! {

/// The exit code when another run holds the lock.
pub const LOCK_BUSY_EXIT: i32 = 2;

/// The name of this machine: the variable where it says something, else the file where it says
/// something.
pub open spec fn host_name(variable: Option<Seq<char>>, file: Option<Seq<char>>) -> Seq<char> {
    match variable {
        Some(v) if v.len() > 0 => v,
        _ => match file {
            Some(f) if trimmed(f).len() > 0 => trimmed(f),
            _ => "unknown-host"@,
        },
    }
}

/// The name of this machine, given the variable `HOSTNAME` and what `/etc/hostname` holds.
pub fn hostname(variable: Option<String>, file: Option<String>) -> (r: String)
    ensures
        r@ == host_name(opt_text(variable), opt_text(file)),
{
    if let Some(v) = variable {
        if !v.as_str().is_empty() {
            return v;
        }
    }
    if let Some(f) = file {
        let name = trim(f.as_str());
        if !name.as_str().is_empty() {
            return name;
        }
    }
    "unknown-host".to_owned()
}

/// A number, as `{:?}` shows it where it may be missing.
pub open spec fn debug_number(n: Option<i64>) -> Seq<char> {
    match n {
        Some(i) => "Some("@ + signed_decimal(i as int) + ")"@,
        None => "None"@,
    }
}

/// Whether something holds, in a word.
pub open spec fn bool_text(b: bool) -> Seq<char> {
    if b {
        "true"@
    } else {
        "false"@
    }
}

fn push_bool(out: &mut String, b: bool)
    ensures
        final(out)@ == old(out)@ + bool_text(b),
{
    if b {
        out.append("true");
    } else {
        out.append("false");
    }
}

/// What is noted of a run.
pub open spec fn notes_text(version: Seq<char>, stats: SyncStats, aborted: bool) -> Seq<char> {
    "yt-dlp="@ + version + "; ok="@ + decimal(stats.ok as nat) + " fail="@ + decimal(
        stats.failed as nat,
    ) + " skipped_sources="@ + decimal(stats.skipped_sources as nat) + " tagged="@ + decimal(
        stats.tagged as nat,
    ) + " tag_no_match="@ + decimal(stats.tag_no_match as nat) + " tag_skipped="@ + decimal(
        stats.tag_skipped as nat,
    ) + " cookies_suspicious="@ + bool_text(stats.cookies_suspicious) + " aborted="@ + bool_text(
        aborted,
    )
}

fn run_notes(version: &str, stats: &SyncStats, aborted: bool) -> (r: String)
    ensures
        r@ == notes_text(version@, *stats, aborted),
{
    let mut out = "yt-dlp=".to_owned();
    out.append(version);
    out.append("; ok=");
    push_decimal(&mut out, stats.ok);
    out.append(" fail=");
    push_decimal(&mut out, stats.failed);
    out.append(" skipped_sources=");
    push_decimal(&mut out, stats.skipped_sources);
    out.append(" tagged=");
    push_decimal(&mut out, stats.tagged);
    out.append(" tag_no_match=");
    push_decimal(&mut out, stats.tag_no_match);
    out.append(" tag_skipped=");
    push_decimal(&mut out, stats.tag_skipped);
    out.append(" cookies_suspicious=");
    push_bool(&mut out, stats.cookies_suspicious);
    out.append(" aborted=");
    push_bool(&mut out, aborted);
    out
}

/// Where the command `run` stands.
#[derive(Debug, Clone, Copy, PartialEq, Eq, Structural)]
pub enum RunPhase {
    Locking,
    Checking,
    OpeningDb,
    Starting,
    InstallingSignals,
    CheckingYtDlp,
    Refreshing,
    ProbingVersion,
    Pruning,
    Syncing,
    Finishing,
    Alerting,
    /// Everything was done.
    Done,
    /// Another run holds the lock.
    Busy,
    /// yt-dlp is not there.
    NotInstalled,
    /// A step failed, and its error is the error of the command.
    Failed,
}

/// What the command `run` is to do next.
#[derive(Debug)]
pub enum RunAction {
    AcquireLock,
    Preflight,
    OpenDb,
    StartRun,
    InstallSignals,
    CheckYtDlp,
    RefreshYtDlp,
    ProbeVersion,
    PruneFailures { days: u32 },
    Sync,
    FinishRun { run_id: i64, ok: u64, fail: u64, notes: String, cookies_suspicious: bool },
    Alert(Vec<NtfyRequest>),
    /// Ends the program with a code.
    Exit(i32),
    /// Ends the command with an error: that yt-dlp is not there.
    FailWith(String),
    /// Ends the command with the error of the last step.
    Fail,
}

/// The characters of a `RunAction`.
pub enum RunActionView {
    AcquireLock,
    Preflight,
    OpenDb,
    StartRun,
    InstallSignals,
    CheckYtDlp,
    RefreshYtDlp,
    ProbeVersion,
    PruneFailures { days: u32 },
    Sync,
    FinishRun { run_id: i64, ok: u64, fail: u64, notes: Seq<char>, cookies_suspicious: bool },
    Alert(Seq<NtfyRequestView>),
    Exit(i32),
    FailWith(Seq<char>),
    Fail,
}

impl View for RunAction {
    type V = RunActionView;

    open spec fn view(&self) -> RunActionView {
        match *self {
            RunAction::AcquireLock => RunActionView::AcquireLock,
            RunAction::Preflight => RunActionView::Preflight,
            RunAction::OpenDb => RunActionView::OpenDb,
            RunAction::StartRun => RunActionView::StartRun,
            RunAction::InstallSignals => RunActionView::InstallSignals,
            RunAction::CheckYtDlp => RunActionView::CheckYtDlp,
            RunAction::RefreshYtDlp => RunActionView::RefreshYtDlp,
            RunAction::ProbeVersion => RunActionView::ProbeVersion,
            RunAction::PruneFailures { days } => RunActionView::PruneFailures { days },
            RunAction::Sync => RunActionView::Sync,
            RunAction::FinishRun {
                run_id,
                ok,
                fail,
                notes,
                cookies_suspicious,
            } => RunActionView::FinishRun { run_id, ok, fail, notes: notes@, cookies_suspicious },
            RunAction::Alert(v) => RunActionView::Alert(request_views(v@)),
            RunAction::Exit(code) => RunActionView::Exit(code),
            RunAction::FailWith(m) => RunActionView::FailWith(m@),
            RunAction::Fail => RunActionView::Fail,
        }
    }
}

/// What came of an action of the command `run`.
pub enum RunEvent {
    /// The lock was taken, or is held by another run.
    Locked(bool),
    /// The step went well.
    Passed,
    /// The run has a number.
    Started(i64),
    /// yt-dlp is there, or why it is not.
    YtDlpChecked(Result<(), String>),
    /// The version of yt-dlp, or why it could not be learnt.
    VersionProbed(Result<String, String>),
    /// The cycle is over; and whether a shutdown was asked for by then.
    Synced { stats: SyncStats, aborted: bool },
    /// The step failed.
    Broke,
}

/// The characters of a `RunEvent`.
pub enum RunEventView {
    Locked(bool),
    Passed,
    Started(i64),
    /// Why yt-dlp is not there, if it is not.
    YtDlpChecked(Option<Seq<char>>),
    VersionProbed(Result<Seq<char>, Seq<char>>),
    Synced { stats: SyncStats, aborted: bool },
    Broke,
}

impl View for RunEvent {
    type V = RunEventView;

    open spec fn view(&self) -> RunEventView {
        match *self {
            RunEvent::Locked(b) => RunEventView::Locked(b),
            RunEvent::Passed => RunEventView::Passed,
            RunEvent::Started(id) => RunEventView::Started(id),
            RunEvent::YtDlpChecked(Ok(_)) => RunEventView::YtDlpChecked(None),
            RunEvent::YtDlpChecked(Err(e)) => RunEventView::YtDlpChecked(Some(e@)),
            RunEvent::VersionProbed(Ok(v)) => RunEventView::VersionProbed(Ok(v@)),
            RunEvent::VersionProbed(Err(e)) => RunEventView::VersionProbed(Err(e@)),
            RunEvent::Synced { stats, aborted } => RunEventView::Synced { stats, aborted },
            RunEvent::Broke => RunEventView::Broke,
        }
    }
}

/// What the command `run` knows.
#[verifier::ext_equal]
pub struct RunState {
    pub phase: RunPhase,
    pub run_id: i64,
    /// What yt-dlp says of its version, or what stands for that.
    pub version: Seq<char>,
    /// Why yt-dlp is not there.
    pub missing: Option<Seq<char>>,
    pub stats: SyncStats,
    pub aborted: bool,
}

/// What a run without yt-dlp comes to, as far as alerts go.
pub open spec fn one_failure() -> SyncStats {
    SyncStats { failed: 1, ..no_stats() }
}

/// Nothing has happened.
pub open spec fn no_stats() -> SyncStats {
    SyncStats {
        ok: 0,
        failed: 0,
        skipped_sources: 0,
        tagged: 0,
        tag_no_match: 0,
        tag_skipped: 0,
        cookies_suspicious: false,
    }
}

/// Where the command `run` starts.
pub open spec fn run_start() -> RunState {
    RunState {
        phase: RunPhase::Locking,
        run_id: 0,
        version: seq![],
        missing: None,
        stats: no_stats(),
        aborted: false,
    }
}

/// The state that follows. The steps come one after another; where one fails that the others need,
/// the command ends. Without yt-dlp the run is finished at once, and alerted of. An event that does
/// not answer the action changes nothing.
pub open spec fn run_step(s: RunState, e: RunEventView) -> RunState {
    match (s.phase, e) {
        (RunPhase::Locking, RunEventView::Locked(true)) => RunState {
            phase: RunPhase::Checking,
            ..s
        },
        (RunPhase::Locking, RunEventView::Locked(false)) => RunState { phase: RunPhase::Busy, ..s },
        (RunPhase::Locking, RunEventView::Broke) => RunState { phase: RunPhase::Failed, ..s },
        (RunPhase::Checking, RunEventView::Passed) => RunState { phase: RunPhase::OpeningDb, ..s },
        (RunPhase::Checking, RunEventView::Broke) => RunState { phase: RunPhase::Failed, ..s },
        (RunPhase::OpeningDb, RunEventView::Passed) => RunState { phase: RunPhase::Starting, ..s },
        (RunPhase::OpeningDb, RunEventView::Broke) => RunState { phase: RunPhase::Failed, ..s },
        (RunPhase::Starting, RunEventView::Started(run_id)) => RunState {
            phase: RunPhase::InstallingSignals,
            run_id,
            ..s
        },
        (RunPhase::Starting, RunEventView::Broke) => RunState { phase: RunPhase::Failed, ..s },
        (RunPhase::InstallingSignals, RunEventView::Passed) => RunState {
            phase: RunPhase::CheckingYtDlp,
            ..s
        },
        (RunPhase::InstallingSignals, RunEventView::Broke) => RunState {
            phase: RunPhase::Failed,
            ..s
        },
        (RunPhase::CheckingYtDlp, RunEventView::YtDlpChecked(None)) => RunState {
            phase: RunPhase::Refreshing,
            ..s
        },
        (RunPhase::CheckingYtDlp, RunEventView::YtDlpChecked(Some(why))) => RunState {
            phase: RunPhase::Finishing,
            version: "<not installed>"@,
            missing: Some(why),
            stats: one_failure(),
            ..s
        },
        (RunPhase::Refreshing, RunEventView::Passed) => RunState {
            phase: RunPhase::ProbingVersion,
            ..s
        },
        (RunPhase::ProbingVersion, RunEventView::VersionProbed(v)) => RunState {
            phase: RunPhase::Pruning,
            version: match v {
                Ok(version) => version,
                Err(why) => "<version probe failed: "@ + why + ">"@,
            },
            ..s
        },
        (RunPhase::Pruning, RunEventView::Passed) => RunState { phase: RunPhase::Syncing, ..s },
        (RunPhase::Syncing, RunEventView::Synced { stats, aborted }) => RunState {
            phase: RunPhase::Finishing,
            stats,
            aborted,
            ..s
        },
        (RunPhase::Finishing, RunEventView::Passed) => RunState { phase: RunPhase::Alerting, ..s },
        (RunPhase::Finishing, RunEventView::Broke) => RunState { phase: RunPhase::Failed, ..s },
        (RunPhase::Alerting, RunEventView::Passed) => RunState {
            phase: if s.missing is Some {
                RunPhase::NotInstalled
            } else {
                RunPhase::Done
            },
            ..s
        },
        _ => s,
    }
}

/// How many days a failure is remembered.
pub const FAILURE_DAYS: u32 = 90;

/// The record of the end of a run. Without yt-dlp, nothing was counted.
pub open spec fn finish_action(s: RunState) -> RunActionView {
    match s.missing {
        Some(why) => RunActionView::FinishRun {
            run_id: s.run_id,
            ok: 0,
            fail: 0,
            notes: "yt-dlp not installed: "@ + why,
            cookies_suspicious: false,
        },
        None => RunActionView::FinishRun {
            run_id: s.run_id,
            ok: s.stats.ok,
            fail: s.stats.failed,
            notes: notes_text(s.version, s.stats, s.aborted),
            cookies_suspicious: s.stats.cookies_suspicious,
        },
    }
}

/// What the command `run` is to do next, given the alerts that are configured.
pub open spec fn run_action(
    s: RunState,
    alerts: Option<NtfyConfig>,
    host: Seq<char>,
) -> RunActionView {
    match s.phase {
        RunPhase::Locking => RunActionView::AcquireLock,
        RunPhase::Checking => RunActionView::Preflight,
        RunPhase::OpeningDb => RunActionView::OpenDb,
        RunPhase::Starting => RunActionView::StartRun,
        RunPhase::InstallingSignals => RunActionView::InstallSignals,
        RunPhase::CheckingYtDlp => RunActionView::CheckYtDlp,
        RunPhase::Refreshing => RunActionView::RefreshYtDlp,
        RunPhase::ProbingVersion => RunActionView::ProbeVersion,
        RunPhase::Pruning => RunActionView::PruneFailures { days: FAILURE_DAYS },
        RunPhase::Syncing => RunActionView::Sync,
        RunPhase::Finishing => finish_action(s),
        RunPhase::Alerting => RunActionView::Alert(
            match alerts {
                Some(cfg) => run_alerts(cfg, s.run_id as int, s.stats, s.version, host),
                None => seq![],
            },
        ),
        RunPhase::Done => RunActionView::Exit(0),
        RunPhase::Busy => RunActionView::Exit(LOCK_BUSY_EXIT),
        RunPhase::NotInstalled => RunActionView::FailWith(
            match s.missing {
                Some(why) => why,
                None => seq![],
            },
        ),
        RunPhase::Failed => RunActionView::Fail,
    }
}

/// The command `run` in progress.
pub struct RunCommand {
    phase: RunPhase,
    run_id: i64,
    version: String,
    missing: Option<String>,
    stats: SyncStats,
    aborted: bool,
}

impl View for RunCommand {
    type V = RunState;

    closed spec fn view(&self) -> RunState {
        RunState {
            phase: self.phase,
            run_id: self.run_id,
            version: self.version@,
            missing: opt_text(self.missing),
            stats: self.stats,
            aborted: self.aborted,
        }
    }
}

/// The configuration of a notifier, where there is one.
pub open spec fn alerts_of(notifier: Option<Notifier>) -> Option<NtfyConfig> {
    match notifier {
        Some(n) => Some(n.cfg),
        None => None,
    }
}

impl RunCommand {
    /// Begins the command.
    pub fn cmd_run() -> (r: Self)
        ensures
            r@ == run_start(),
    {
        RunCommand {
            phase: RunPhase::Locking,
            run_id: 0,
            version: String::new(),
            missing: None,
            stats: SyncStats {
                ok: 0,
                failed: 0,
                skipped_sources: 0,
                tagged: 0,
                tag_no_match: 0,
                tag_skipped: 0,
                cookies_suspicious: false,
            },
            aborted: false,
        }
    }

    /// Takes note of what came of the action, and moves on.
    pub fn advance(&mut self, event: RunEvent)
        ensures
            final(self)@ == run_step(old(self)@, event@),
    {
        match (self.phase, event) {
            (RunPhase::Locking, RunEvent::Locked(true)) => {
                self.phase = RunPhase::Checking;
            },
            (RunPhase::Locking, RunEvent::Locked(false)) => {
                self.phase = RunPhase::Busy;
            },
            (RunPhase::Locking, RunEvent::Broke) => {
                self.phase = RunPhase::Failed;
            },
            (RunPhase::Checking, RunEvent::Passed) => {
                self.phase = RunPhase::OpeningDb;
            },
            (RunPhase::Checking, RunEvent::Broke) => {
                self.phase = RunPhase::Failed;
            },
            (RunPhase::OpeningDb, RunEvent::Passed) => {
                self.phase = RunPhase::Starting;
            },
            (RunPhase::OpeningDb, RunEvent::Broke) => {
                self.phase = RunPhase::Failed;
            },
            (RunPhase::Starting, RunEvent::Started(run_id)) => {
                self.run_id = run_id;
                self.phase = RunPhase::InstallingSignals;
            },
            (RunPhase::Starting, RunEvent::Broke) => {
                self.phase = RunPhase::Failed;
            },
            (RunPhase::InstallingSignals, RunEvent::Passed) => {
                self.phase = RunPhase::CheckingYtDlp;
            },
            (RunPhase::InstallingSignals, RunEvent::Broke) => {
                self.phase = RunPhase::Failed;
            },
            (RunPhase::CheckingYtDlp, RunEvent::YtDlpChecked(Ok(_))) => {
                self.phase = RunPhase::Refreshing;
            },
            (RunPhase::CheckingYtDlp, RunEvent::YtDlpChecked(Err(why))) => {
                self.version = "<not installed>".to_owned();
                self.missing = Some(why);
                self.stats = SyncStats {
                    ok: 0,
                    failed: 1,
                    skipped_sources: 0,
                    tagged: 0,
                    tag_no_match: 0,
                    tag_skipped: 0,
                    cookies_suspicious: false,
                };
                self.phase = RunPhase::Finishing;
            },
            (RunPhase::Refreshing, RunEvent::Passed) => {
                self.phase = RunPhase::ProbingVersion;
            },
            (RunPhase::ProbingVersion, RunEvent::VersionProbed(v)) => {
                self.version = match v {
                    Ok(version) => version,
                    Err(why) => {
                        let mut m = "<version probe failed: ".to_owned();
                        m.append(why.as_str());
                        m.append(">");
                        m
                    },
                };
                self.phase = RunPhase::Pruning;
            },
            (RunPhase::Pruning, RunEvent::Passed) => {
                self.phase = RunPhase::Syncing;
            },
            (RunPhase::Syncing, RunEvent::Synced { stats, aborted }) => {
                self.stats = stats;
                self.aborted = aborted;
                self.phase = RunPhase::Finishing;
            },
            (RunPhase::Finishing, RunEvent::Passed) => {
                self.phase = RunPhase::Alerting;
            },
            (RunPhase::Finishing, RunEvent::Broke) => {
                self.phase = RunPhase::Failed;
            },
            (RunPhase::Alerting, RunEvent::Passed) => {
                if self.missing.is_some() {
                    self.phase = RunPhase::NotInstalled;
                } else {
                    self.phase = RunPhase::Done;
                }
            },
            _ => {},
        }
    }

    /// The record of the end of the run.
    fn finish_action(&self) -> (r: RunAction)
        ensures
            r@ == finish_action(self@),
    {
        match &self.missing {
            Some(why) => {
                let mut notes = "yt-dlp not installed: ".to_owned();
                notes.append(why.as_str());
                RunAction::FinishRun {
                    run_id: self.run_id,
                    ok: 0,
                    fail: 0,
                    notes,
                    cookies_suspicious: false,
                }
            },
            None => RunAction::FinishRun {
                run_id: self.run_id,
                ok: self.stats.ok,
                fail: self.stats.failed,
                notes: run_notes(self.version.as_str(), &self.stats, self.aborted),
                cookies_suspicious: self.stats.cookies_suspicious,
            },
        }
    }

    /// What is to be done next.
    pub fn next_action(&self, notifier: &Option<Notifier>, host: &str) -> (r: RunAction)
        ensures
            r@ == run_action(self@, alerts_of(*notifier), host@),
    {
        match self.phase {
            RunPhase::Locking => RunAction::AcquireLock,
            RunPhase::Checking => RunAction::Preflight,
            RunPhase::OpeningDb => RunAction::OpenDb,
            RunPhase::Starting => RunAction::StartRun,
            RunPhase::InstallingSignals => RunAction::InstallSignals,
            RunPhase::CheckingYtDlp => RunAction::CheckYtDlp,
            RunPhase::Refreshing => RunAction::RefreshYtDlp,
            RunPhase::ProbingVersion => RunAction::ProbeVersion,
            RunPhase::Pruning => RunAction::PruneFailures { days: FAILURE_DAYS },
            RunPhase::Syncing => RunAction::Sync,
            RunPhase::Finishing => self.finish_action(),
            RunPhase::Alerting => match notifier {
                Some(n) => RunAction::Alert(
                    n.report_run(self.run_id, &self.stats, self.version.as_str(), host),
                ),
                None => {
                    let none: Vec<NtfyRequest> = Vec::new();
                    assert(request_views(none@) =~= seq![]);
                    RunAction::Alert(none)
                },
            },
            RunPhase::Done => RunAction::Exit(0),
            RunPhase::Busy => RunAction::Exit(LOCK_BUSY_EXIT),
            RunPhase::NotInstalled => RunAction::FailWith(
                match &self.missing {
                    Some(why) => why.clone(),
                    None => String::new(),
                },
            ),
            RunPhase::Failed => RunAction::Fail,
        }
    }
}

/// The state after some events.
pub open spec fn run_after(events: Seq<RunEventView>) -> RunState
    decreases events.len(),
{
    if events.len() == 0 {
        run_start()
    } else {
        run_step(run_after(events.drop_last()), events.last())
    }
}

/// How far the command has come.
pub open spec fn run_rank(p: RunPhase) -> int {
    match p {
        RunPhase::Locking => 0,
        RunPhase::Checking => 1,
        RunPhase::OpeningDb => 2,
        RunPhase::Starting => 3,
        RunPhase::InstallingSignals => 4,
        RunPhase::CheckingYtDlp => 5,
        RunPhase::Refreshing => 6,
        RunPhase::ProbingVersion => 7,
        RunPhase::Pruning => 8,
        RunPhase::Syncing => 9,
        RunPhase::Finishing => 10,
        RunPhase::Alerting => 11,
        RunPhase::Done | RunPhase::Busy | RunPhase::NotInstalled | RunPhase::Failed => 12,
    }
}

/// The command never goes back: each event leaves it where it is or brings it further.
pub proof fn law_run_goes_forward(s: RunState, e: RunEventView)
    ensures
        run_step(s, e) == s || run_rank(run_step(s, e).phase) > run_rank(s.phase),
        run_rank(run_step(s, e).phase) <= 12,
{
}

/// Nothing is checked, opened, started or downloaded before the lock was taken; and where another
/// run holds it, nothing is done at all.
pub proof fn law_lock_comes_first(events: Seq<RunEventView>)
    requires
        run_after(events).phase !is Locking,
        run_after(events).phase !is Busy,
        run_after(events).phase !is Failed,
    ensures
        events.contains(RunEventView::Locked(true)),
    decreases events.len(),
{
    if events.len() > 0 {
        let rest = events.drop_last();
        if run_after(rest).phase is Locking {
            assert(events[events.len() - 1] == RunEventView::Locked(true));
        } else {
            law_lock_comes_first(rest);
            let k = choose|k: int| 0 <= k < rest.len() && rest[k] == RunEventView::Locked(true);
            assert(events[k] == RunEventView::Locked(true));
        }
    }
}

/// A cycle is run only where yt-dlp is there.
pub proof fn law_sync_needs_yt_dlp(events: Seq<RunEventView>)
    requires
        5 < run_rank(run_after(events).phase) < 10,
    ensures
        events.contains(RunEventView::YtDlpChecked(None)),
    decreases events.len(),
{
    if events.len() > 0 {
        let rest = events.drop_last();
        if run_after(rest).phase is CheckingYtDlp {
            assert(events[events.len() - 1] == RunEventView::YtDlpChecked(None));
        } else {
            law_sync_needs_yt_dlp(rest);
            let k = choose|k: int|
                0 <= k < rest.len() && rest[k] == RunEventView::YtDlpChecked(None);
            assert(events[k] == RunEventView::YtDlpChecked(None));
        }
    }
}

/// Alerts go out only once the end of the run is on record.
pub proof fn law_alerts_follow_the_record(s: RunState, e: RunEventView)
    requires
        s.phase !is Alerting,
        run_step(s, e).phase is Alerting,
    ensures
        s.phase is Finishing,
        e is Passed,
{
}

/// What was observed of a file.
pub enum FileFact {
    Missing,
    AgeUnknown,
    /// How many seconds ago it was written.
    AgeSecs(u64),
}

/// What the command `status` looked up.
pub struct StatusFacts {
    pub last_run: Option<RunSummary>,
    pub last_cookies_warning: Option<i64>,
    pub open_failures: i64,
    pub cookies: FileFact,
    pub binary: FileFact,
}

/// The lines about the last run.
pub open spec fn run_lines(run: Option<RunSummaryView>) -> Seq<Seq<char>> {
    match run {
        Some(s) => seq![
            "last run id:        "@ + signed_decimal(s.id as int),
            "  started_at:       "@ + signed_decimal(s.started_at as int),
            "  finished_at:      "@ + debug_number(s.finished_at),
            "  ok / fail:        "@ + signed_decimal(s.ok_count as int) + " / "@ + signed_decimal(
                s.fail_count as int,
            ),
        ] + (if s.cookies_suspicious {
            seq!["  ⚠ cookies:         LIKELY EXPIRED — re-export from browser"@]
        } else {
            seq![]
        }) + (match s.notes {
            Some(n) => seq!["  notes:            "@ + n],
            None => seq![],
        }),
        None => seq!["no runs recorded yet"@],
    }
}

/// The lines about the cookies: what run refused them last.
pub open spec fn warning_lines(run_id: Option<i64>) -> Seq<Seq<char>> {
    match run_id {
        Some(id) => seq!["last cookies warning at run #"@ + signed_decimal(id as int)],
        None => seq![],
    }
}

/// The age of a file in whole days.
pub open spec fn days_old(path: Seq<char>, secs: u64) -> Seq<char> {
    path + " ("@ + decimal((secs / DAY_SECS) as nat) + " days old)"@
}

/// The lines about the cookies file; none where its age cannot be told.
pub open spec fn cookies_lines(path: Seq<char>, f: FileFact) -> Seq<Seq<char>> {
    match f {
        FileFact::Missing => seq!["cookies file:       MISSING at "@ + path],
        FileFact::AgeUnknown => seq![],
        FileFact::AgeSecs(secs) => seq!["cookies file:       "@ + days_old(path, secs)],
    }
}

/// The line about the binary of yt-dlp.
pub open spec fn binary_line(path: Seq<char>, f: FileFact) -> Seq<char> {
    match f {
        FileFact::Missing => "yt-dlp binary:      MISSING at "@ + path,
        FileFact::AgeUnknown => "yt-dlp binary:      "@ + path,
        FileFact::AgeSecs(secs) => "yt-dlp binary:      "@ + days_old(path, secs),
    }
}

/// The line about alerts.
pub open spec fn alerts_line(ntfy: Option<NtfyConfig>) -> Seq<char> {
    "ntfy alerts:        "@ + match ntfy {
        Some(n) => if n.enabled {
            "enabled → "@ + n.server@ + "/"@ + n.topic@
        } else {
            "configured but disabled"@
        },
        None => "not configured"@,
    }
}

/// The characters of the last run, where there is one.
pub open spec fn summary_view(run: Option<RunSummary>) -> Option<RunSummaryView> {
    match run {
        Some(s) => Some(s@),
        None => None,
    }
}

/// What the command `status` prints, line by line.
pub open spec fn status_lines(cfg: Config, f: StatusFacts) -> Seq<Seq<char>> {
    (run_lines(summary_view(f.last_run)) + warning_lines(f.last_cookies_warning)).push(
        "open failures:      "@ + signed_decimal(f.open_failures as int),
    ) + cookies_lines(cfg.cookies_path@, f.cookies).push(
        binary_line(cfg.yt_dlp.binary_path@, f.binary),
    ).push(alerts_line(cfg.ntfy))
}

/// Adds a line.
fn put(out: &mut Vec<String>, line: String)
    ensures
        texts(final(out)@) == texts(old(out)@).push(line@),
{
    out.push(line);
    assert(texts(out@) =~= texts(old(out)@).push(line@));
}

/// A line that ends in a number.
fn numbered(head: &str, n: i64) -> (r: String)
    ensures
        r@ == head@ + signed_decimal(n as int),
{
    let mut line = head.to_owned();
    push_signed(&mut line, n);
    line
}

/// A line that ends in a text.
fn worded(head: &str, tail: &str) -> (r: String)
    ensures
        r@ == head@ + tail@,
{
    let mut line = head.to_owned();
    line.append(tail);
    line
}

/// The lines about the last run.
fn put_run(out: &mut Vec<String>, run: &Option<RunSummary>)
    requires
        texts(old(out)@) == Seq::<Seq<char>>::empty(),
    ensures
        texts(final(out)@) == run_lines(summary_view(*run)),
{
    match run {
        Some(s) => {
            put(out, numbered("last run id:        ", s.id));
            put(out, numbered("  started_at:       ", s.started_at));
            let finished = match s.finished_at {
                Some(t) => {
                    let mut shown = numbered("Some(", t);
                    shown.append(")");
                    shown
                },
                None => "None".to_owned(),
            };
            put(out, worded("  finished_at:      ", finished.as_str()));
            let mut counts = numbered("  ok / fail:        ", s.ok_count);
            counts.append(" / ");
            push_signed(&mut counts, s.fail_count);
            put(out, counts);
            let ghost four = texts(out@);
            assert(four =~= seq![
                "last run id:        "@ + signed_decimal(s.id as int),
                "  started_at:       "@ + signed_decimal(s.started_at as int),
                "  finished_at:      "@ + debug_number(s.finished_at),
                "  ok / fail:        "@ + signed_decimal(s.ok_count as int) + " / "@
                    + signed_decimal(s.fail_count as int),
            ]);
            if s.cookies_suspicious {
                put(
                    out,
                    "  ⚠ cookies:         LIKELY EXPIRED — re-export from browser".to_owned(),
                );
            }
            if let Some(n) = &s.notes {
                put(out, worded("  notes:            ", n.as_str()));
            }
            assert(texts(out@) =~= run_lines(summary_view(*run)));
        },
        None => {
            put(out, "no runs recorded yet".to_owned());
            assert(texts(out@) =~= run_lines(summary_view(*run)));
        },
    }
}

/// The age of a file in whole days.
fn file_age(head: &str, path: &str, secs: u64) -> (r: String)
    ensures
        r@ == head@ + days_old(path@, secs),
{
    let mut line = head.to_owned();
    line.append(path);
    line.append(" (");
    push_decimal(&mut line, secs / DAY_SECS);
    line.append(" days old)");
    assert(line@ =~= head@ + days_old(path@, secs));
    line
}

/// What the command `status` prints, line by line.
pub fn cmd_status(cfg: &Config, facts: &StatusFacts) -> (r: Vec<String>)
    ensures
        texts(r@) == status_lines(*cfg, *facts),
{
    let mut out: Vec<String> = Vec::new();
    assert(texts(out@) =~= Seq::<Seq<char>>::empty());
    put_run(&mut out, &facts.last_run);
    if let Some(id) = facts.last_cookies_warning {
        put(&mut out, numbered("last cookies warning at run #", id));
    }
    put(&mut out, numbered("open failures:      ", facts.open_failures));
    match &facts.cookies {
        FileFact::Missing => {
            put(&mut out, worded("cookies file:       MISSING at ", cfg.cookies_path.as_str()));
        },
        FileFact::AgeUnknown => {},
        FileFact::AgeSecs(secs) => {
            put(&mut out, file_age("cookies file:       ", cfg.cookies_path.as_str(), *secs));
        },
    }
    let bin = cfg.yt_dlp.binary_path.as_str();
    match &facts.binary {
        FileFact::Missing => {
            put(&mut out, worded("yt-dlp binary:      MISSING at ", bin));
        },
        FileFact::AgeUnknown => {
            put(&mut out, worded("yt-dlp binary:      ", bin));
        },
        FileFact::AgeSecs(secs) => {
            put(&mut out, file_age("yt-dlp binary:      ", bin, *secs));
        },
    }
    let alerts = match &cfg.ntfy {
        Some(n) => {
            if n.enabled {
                let mut shown = "enabled → ".to_owned();
                shown.append(n.server.as_str());
                shown.append("/");
                shown.append(n.topic.as_str());
                shown
            } else {
                "configured but disabled".to_owned()
            }
        },
        None => "not configured".to_owned(),
    };
    put(&mut out, worded("ntfy alerts:        ", alerts.as_str()));
    assert(texts(out@) =~= status_lines(*cfg, *facts));
    out
}

/// What the command `test-cookies` prints, or its error, once the first source was listed.
pub open spec fn cookies_report(
    name: Seq<char>,
    entries: Seq<PlaylistEntry>,
) -> Seq<Seq<char>> {
    let head = "cookies OK — listed "@ + decimal(entries.len()) + " entries from "@ + debug_quoted(
        name,
    );
    if entries.len() > 0 {
        seq![head, "  first entry: "@ + entries[0].id@ + " | "@ + entries[0].title@]
    } else {
        seq![head]
    }
}

/// What the command `test-cookies` prints, or its error, once the first source was listed.
pub fn cmd_test_cookies(
    name: &str,
    listing: Result<Vec<PlaylistEntry>, YtDlpError>,
) -> (r: Result<Vec<String>, String>)
    ensures
        match (listing, r) {
            (Ok(entries), Ok(lines)) => texts(lines@) == cookies_report(name@, entries@),
            (Err(e), Err(m)) => m@ == "cookies probe failed: "@ + e.message@ + "; stderr: "@
                + trimmed(e.stderr@),
            _ => false,
        },
{
    match listing {
        Ok(entries) => {
            let mut out: Vec<String> = Vec::new();
            let mut head = "cookies OK — listed ".to_owned();
            push_decimal(&mut head, entries.len() as u64);
            head.append(" entries from ");
            let shown = debug_text(name);
            head.append(shown.as_str());
            put(&mut out, head);
            if entries.len() > 0 {
                let mut line = "  first entry: ".to_owned();
                line.append(entries[0].id.as_str());
                line.append(" | ");
                line.append(entries[0].title.as_str());
                put(&mut out, line);
            }
            assert(texts(out@) =~= cookies_report(name@, entries@));
            Ok(out)
        },
        Err(e) => {
            let stderr = trim(e.stderr.as_str());
            let mut m = "cookies probe failed: ".to_owned();
            m.append(e.message.as_str());
            m.append("; stderr: ");
            m.append(stderr.as_str());
            Err(m)
        },
    }
}

/// What the command `test-cookies` says where the cookies file is missing.
pub fn cookies_not_found(cfg: &Config) -> (r: String)
    ensures
        r@ == "cookies file not found at "@ + cfg.cookies_path@,
{
    worded("cookies file not found at ", cfg.cookies_path.as_str())
}

/// A version, or what stands for one that is not known.
pub open spec fn known_or_not(version: Option<Seq<char>>) -> Seq<char> {
    match version {
        Some(v) => v,
        None => "<unknown>"@,
    }
}

/// What the command `update-ytdlp` prints, or its error.
pub fn cmd_update_ytdlp(before: Option<String>, outcome: &UpdateOutcome) -> (r: Result<
    String,
    String,
>)
    ensures
        match r {
            Ok(line) => outcome.succeeded && line@ == "yt-dlp: "@ + known_or_not(opt_text(before))
                + " -> "@ + known_or_not(opt_text(outcome.new_version)),
            Err(m) => !outcome.succeeded && m@ == "yt-dlp update failed; stderr: "@ + trimmed(
                outcome.stderr@,
            ),
        },
{
    if !outcome.succeeded {
        let stderr = trim(outcome.stderr.as_str());
        return Err(worded("yt-dlp update failed; stderr: ", stderr.as_str()));
    }
    let mut line = "yt-dlp: ".to_owned();
    match &before {
        Some(v) => line.append(v.as_str()),
        None => line.append("<unknown>"),
    }
    line.append(" -> ");
    match &outcome.new_version {
        Some(v) => line.append(v.as_str()),
        None => line.append("<unknown>"),
    }
    Ok(line)
}

/// The variable names this machine where it says something; else the file does, without the white
/// space around the name; else nothing is known.
pub proof fn law_machine_has_a_name(variable: Option<Seq<char>>, file: Option<Seq<char>>)
    ensures
        variable is Some && variable->0.len() > 0 ==> host_name(variable, file) == variable->0,
        (variable is None || variable->0.len() == 0) && file is Some && trimmed(file->0).len() > 0
            ==> host_name(variable, file) == trimmed(file->0),
        (variable is None || variable->0.len() == 0) && (file is None || trimmed(file->0).len()
            == 0) ==> host_name(variable, file) == "unknown-host"@,
        host_name(variable, file).len() > 0,
{
    reveal_strlit("unknown-host");
}

/// What is noted of a run names the version, every count, and whether cookies were refused and
/// whether it was cut short.
pub proof fn law_notes_say_what_happened(version: Seq<char>, stats: SyncStats, aborted: bool)
    ensures
        ({
            let n = notes_text(version, stats, aborted);
            &&& ("yt-dlp="@ + version).is_prefix_of(n)
            &&& has_part(n, "; ok="@ + decimal(stats.ok as nat))
            &&& has_part(n, " fail="@ + decimal(stats.failed as nat))
            &&& has_part(n, " skipped_sources="@ + decimal(stats.skipped_sources as nat))
            &&& has_part(n, " tagged="@ + decimal(stats.tagged as nat))
            &&& has_part(n, " tag_no_match="@ + decimal(stats.tag_no_match as nat))
            &&& has_part(n, " tag_skipped="@ + decimal(stats.tag_skipped as nat))
            &&& stats.cookies_suspicious ==> has_part(n, " cookies_suspicious="@ + "true"@)
            &&& !stats.cookies_suspicious ==> has_part(n, " cookies_suspicious="@ + "false"@)
            &&& aborted ==> has_suffix(n, " aborted="@ + "true"@)
            &&& !aborted ==> has_suffix(n, " aborted="@ + "false"@)
        }),
{
    let y = "yt-dlp="@ + version;
    let front = y;
    lemma_text_goes_on(y, "; ok="@, decimal(stats.ok as nat));
    let y = y + "; ok="@ + decimal(stats.ok as nat);
    lemma_text_goes_on(y, " fail="@, decimal(stats.failed as nat));
    let y = y + " fail="@ + decimal(stats.failed as nat);
    lemma_text_goes_on(y, " skipped_sources="@, decimal(stats.skipped_sources as nat));
    let y = y + " skipped_sources="@ + decimal(stats.skipped_sources as nat);
    lemma_text_goes_on(y, " tagged="@, decimal(stats.tagged as nat));
    let y = y + " tagged="@ + decimal(stats.tagged as nat);
    lemma_text_goes_on(y, " tag_no_match="@, decimal(stats.tag_no_match as nat));
    let y = y + " tag_no_match="@ + decimal(stats.tag_no_match as nat);
    lemma_text_goes_on(y, " tag_skipped="@, decimal(stats.tag_skipped as nat));
    let y = y + " tag_skipped="@ + decimal(stats.tag_skipped as nat);
    lemma_text_goes_on(y, " cookies_suspicious="@, bool_text(stats.cookies_suspicious));
    let y = y + " cookies_suspicious="@ + bool_text(stats.cookies_suspicious);
    lemma_text_goes_on(y, " aborted="@, bool_text(aborted));
    let last = " aborted="@ + bool_text(aborted);
    assert(y + " aborted="@ + bool_text(aborted) =~= y + last);
    law_suffix_is_an_ending(y, last, last);
    assert(front =~= notes_text(version, stats, aborted).take(front.len() as int));
}

/// A run in which every step goes well, from the lock on: what is done, in which order, and with
/// what. The record of its end holds the number that it was given and the counts of its cycle, and
/// the alerts are those of that cycle.
pub proof fn law_whole_run(
    run_id: i64,
    version: Seq<char>,
    stats: SyncStats,
    aborted: bool,
    alerts: Option<NtfyConfig>,
    host: Seq<char>,
)
    ensures
        ({
            let s0 = run_start();
            let s1 = run_step(s0, RunEventView::Locked(true));
            let s2 = run_step(s1, RunEventView::Passed);
            let s3 = run_step(s2, RunEventView::Passed);
            let s4 = run_step(s3, RunEventView::Started(run_id));
            let s5 = run_step(s4, RunEventView::Passed);
            let s6 = run_step(s5, RunEventView::YtDlpChecked(None));
            let s7 = run_step(s6, RunEventView::Passed);
            let s8 = run_step(s7, RunEventView::VersionProbed(Ok(version)));
            let s9 = run_step(s8, RunEventView::Passed);
            let s10 = run_step(s9, RunEventView::Synced { stats, aborted });
            let s11 = run_step(s10, RunEventView::Passed);
            let s12 = run_step(s11, RunEventView::Passed);
            &&& run_action(s0, alerts, host) is AcquireLock
            &&& run_action(s1, alerts, host) is Preflight
            &&& run_action(s2, alerts, host) is OpenDb
            &&& run_action(s3, alerts, host) is StartRun
            &&& run_action(s4, alerts, host) is InstallSignals
            &&& run_action(s5, alerts, host) is CheckYtDlp
            &&& run_action(s6, alerts, host) is RefreshYtDlp
            &&& run_action(s7, alerts, host) is ProbeVersion
            &&& run_action(s8, alerts, host) == (RunActionView::PruneFailures { days: 90 })
            &&& run_action(s9, alerts, host) is Sync
            &&& run_action(s10, alerts, host) == (RunActionView::FinishRun {
                run_id,
                ok: stats.ok,
                fail: stats.failed,
                notes: notes_text(version, stats, aborted),
                cookies_suspicious: stats.cookies_suspicious,
            })
            &&& alerts is Some ==> run_action(s11, alerts, host) == RunActionView::Alert(
                run_alerts(alerts->0, run_id as int, stats, version, host),
            )
            &&& alerts is None ==> run_action(s11, alerts, host) == RunActionView::Alert(seq![])
            &&& run_action(s12, alerts, host) == RunActionView::Exit(0)
        }),
{
}

/// A version that cannot be learnt does not stop a run: the reason stands where the version would.
pub proof fn law_unknown_version_is_noted(s: RunState, why: Seq<char>)
    requires
        s.phase is ProbingVersion,
    ensures
        ({
            let t = run_step(s, RunEventView::VersionProbed(Err(why)));
            &&& t.phase is Pruning
            &&& t.version == "<version probe failed: "@ + why + ">"@
            &&& t.run_id == s.run_id
            &&& t.stats == s.stats
        }),
{
}

/// Where another run holds the lock, the program ends with a code of its own and does nothing.
pub proof fn law_busy_lock_ends_the_run(alerts: Option<NtfyConfig>, host: Seq<char>)
    ensures
        run_action(run_step(run_start(), RunEventView::Locked(false)), alerts, host)
            == RunActionView::Exit(2),
{
}

/// Without yt-dlp the run is put on record under its number with nothing counted, one failure is
/// alerted of, and the command ends with the reason; no cycle is run.
pub proof fn law_missing_yt_dlp_ends_the_run(
    s: RunState,
    why: Seq<char>,
    cfg: NtfyConfig,
    host: Seq<char>,
)
    requires
        s.phase is CheckingYtDlp,
    ensures
        ({
            let t = run_step(s, RunEventView::YtDlpChecked(Some(why)));
            let u = run_step(t, RunEventView::Passed);
            let v = run_step(u, RunEventView::Passed);
            &&& run_action(t, Some(cfg), host) == (RunActionView::FinishRun {
                run_id: s.run_id,
                ok: 0,
                fail: 0,
                notes: "yt-dlp not installed: "@ + why,
                cookies_suspicious: false,
            })
            &&& match run_action(u, Some(cfg), host) {
                RunActionView::Alert(sent) => {
                    &&& sent.len() == 1
                    &&& sent[0].headers.contains(
                        ("Title"@, "ytsync-pi: "@ + decimal(1) + " failure(s)"@),
                    )
                    &&& has_suffix(sent[0].body, "\nyt-dlp="@ + "<not installed>"@)
                    &&& has_part(
                        sent[0].body,
                        "run #"@ + signed_decimal(s.run_id as int) + " on "@ + host
                            + " finished with failures."@,
                    )
                },
                _ => false,
            }
            &&& run_action(v, Some(cfg), host) == RunActionView::FailWith(why)
        }),
{
    let t = run_step(s, RunEventView::YtDlpChecked(Some(why)));
    law_alerts_are_told_apart(cfg, s.run_id as int, t.stats, t.version, host);
    law_failures_alert_says_what_happened(s.run_id as int, t.stats, t.version, host);
}

/// A step that the others need and that breaks ends the command with its error.
pub proof fn law_broken_step_ends_the_run(s: RunState, alerts: Option<NtfyConfig>, host: Seq<char>)
    requires
        s.phase is Locking || s.phase is Checking || s.phase is OpeningDb || s.phase is Starting
            || s.phase is InstallingSignals || s.phase is Finishing,
    ensures
        run_action(run_step(s, RunEventView::Broke), alerts, host) is Fail,
{
}

/// A command that has ended stays as it is, whatever is heard.
pub proof fn law_ended_run_stays(s: RunState, e: RunEventView)
    requires
        s.phase is Done || s.phase is Busy || s.phase is NotInstalled || s.phase is Failed,
    ensures
        run_step(s, e) == s,
{
}

/// What the command `status` says of the last run comes first: its number, its times and counts;
/// that its cookies look expired just where they do; its notes just where there are any.
pub proof fn law_status_begins_with_the_last_run(cfg: Config, f: StatusFacts)
    ensures
        ({
            let lines = status_lines(cfg, f);
            match f.last_run {
                Some(run) => {
                    &&& lines.len() >= 7
                    &&& lines[0] == "last run id:        "@ + signed_decimal(run.id as int)
                    &&& lines[1] == "  started_at:       "@ + signed_decimal(run.started_at as int)
                    &&& run.finished_at is None ==> lines[2] == "  finished_at:      "@ + "None"@
                    &&& run.finished_at is Some ==> lines[2] == "  finished_at:      "@ + ("Some("@
                        + signed_decimal(run.finished_at->0 as int) + ")"@)
                    &&& lines[3] == "  ok / fail:        "@ + signed_decimal(run.ok_count as int)
                        + " / "@ + signed_decimal(run.fail_count as int)
                    &&& run.cookies_suspicious ==> lines[4]
                        == "  ⚠ cookies:         LIKELY EXPIRED — re-export from browser"@
                    &&& run.notes is Some ==> lines[if run.cookies_suspicious {
                        5
                    } else {
                        4
                    }] == "  notes:            "@ + run.notes->0@
                },
                None => lines[0] == "no runs recorded yet"@,
            }
        }),
{
}

/// How many lines the command `status` prints: four for a run or one for none, one each for what
/// there is to say beside it, and three at the end.
pub proof fn law_status_says_no_more(cfg: Config, f: StatusFacts)
    ensures
        status_lines(cfg, f).len() == (match f.last_run {
            Some(run) => 4 + (if run.cookies_suspicious {
                1int
            } else {
                0
            }) + (if run.notes is Some {
                1int
            } else {
                0
            }),
            None => 1int,
        }) + (if f.last_cookies_warning is Some {
            1int
        } else {
            0
        }) + (if f.cookies is AgeUnknown {
            0int
        } else {
            1
        }) + 3,
{
}

/// The command `status` ends with the failures, the cookies file, the binary and the alerts. A file
/// that is not there is said to be missing; the age of one that is there is given in whole days.
pub proof fn law_status_ends_with_the_files(cfg: Config, f: StatusFacts)
    ensures
        ({
            let lines = status_lines(cfg, f);
            let n = lines.len() as int;
            let m = if f.cookies is AgeUnknown {
                n - 3
            } else {
                n - 4
            };
            &&& n >= 4
            &&& lines[m] == "open failures:      "@ + signed_decimal(f.open_failures as int)
            &&& f.last_cookies_warning is Some ==> lines[m - 1] == "last cookies warning at run #"@
                + signed_decimal(f.last_cookies_warning->0 as int)
            &&& match f.cookies {
                FileFact::Missing => lines[n - 3] == "cookies file:       MISSING at "@
                    + cfg.cookies_path@,
                FileFact::AgeUnknown => true,
                FileFact::AgeSecs(secs) => lines[n - 3] == "cookies file:       "@ + (
                cfg.cookies_path@ + " ("@ + decimal((secs / 86_400) as nat) + " days old)"@),
            }
            &&& match f.binary {
                FileFact::Missing => lines[n - 2] == "yt-dlp binary:      MISSING at "@
                    + cfg.yt_dlp.binary_path@,
                FileFact::AgeUnknown => lines[n - 2] == "yt-dlp binary:      "@
                    + cfg.yt_dlp.binary_path@,
                FileFact::AgeSecs(secs) => lines[n - 2] == "yt-dlp binary:      "@ + (
                cfg.yt_dlp.binary_path@ + " ("@ + decimal((secs / 86_400) as nat)
                    + " days old)"@),
            }
            &&& match cfg.ntfy {
                Some(c) => if c.enabled {
                    lines[n - 1] == "ntfy alerts:        "@ + ("enabled → "@ + c.server@ + "/"@
                        + c.topic@)
                } else {
                    lines[n - 1] == "ntfy alerts:        "@ + "configured but disabled"@
                },
                None => lines[n - 1] == "ntfy alerts:        "@ + "not configured"@,
            }
        }),
{
}

/// What is said of cookies that work: how many entries were listed and of which source, and the
/// first entry, where there is one.
pub proof fn law_working_cookies_are_reported(name: Seq<char>, entries: Seq<PlaylistEntry>)
    ensures
        ({
            let lines = cookies_report(name, entries);
            &&& lines[0] == "cookies OK — listed "@ + decimal(entries.len()) + " entries from "@
                + debug_quoted(name)
            &&& lines.len() == (if entries.len() == 0 {
                1int
            } else {
                2
            })
            &&& entries.len() > 0 ==> lines[1] == "  first entry: "@ + entries[0].id@ + " | "@
                + entries[0].title@
        }),
{
}

/// A version that is known is shown as it is.
pub proof fn law_known_version_is_shown(version: Seq<char>)
    ensures
        known_or_not(Some(version)) == version,
        known_or_not(None) == "<unknown>"@,
{
}

/// Actions of the command `run` and what is kept of a run are seen field by field as they are.
pub proof fn law_run_is_seen_as_it_is(a: RunAction, run: RunSummary)
    ensures
        match a {
            RunAction::FinishRun { run_id, ok, fail, notes, cookies_suspicious } => a@
                == (RunActionView::FinishRun {
                run_id,
                ok,
                fail,
                notes: notes@,
                cookies_suspicious,
            }),
            RunAction::PruneFailures { days } => a@ == (RunActionView::PruneFailures { days }),
            RunAction::Exit(code) => a@ == RunActionView::Exit(code),
            RunAction::FailWith(m) => a@ == RunActionView::FailWith(m@),
            RunAction::Alert(v) => a@ is Alert,
            RunAction::AcquireLock => a@ is AcquireLock,
            RunAction::Preflight => a@ is Preflight,
            RunAction::OpenDb => a@ is OpenDb,
            RunAction::StartRun => a@ is StartRun,
            RunAction::InstallSignals => a@ is InstallSignals,
            RunAction::CheckYtDlp => a@ is CheckYtDlp,
            RunAction::RefreshYtDlp => a@ is RefreshYtDlp,
            RunAction::ProbeVersion => a@ is ProbeVersion,
            RunAction::Sync => a@ is Sync,
            RunAction::Fail => a@ is Fail,
        },
        run@.id == run.id,
        run@.started_at == run.started_at,
        run@.finished_at == run.finished_at,
        run@.ok_count == run.ok_count,
        run@.fail_count == run.fail_count,
        run@.notes == opt_text(run.notes),
        run@.cookies_suspicious == run.cookies_suspicious,
{
}

} // verus!

//! One sync cycle, as a machine: it names the next thing to do, is told what came of it, and
//! decides what follows. Items are taken strictly one after another, source by source.

use vstd::prelude::*;
use vstd::string::*;
use crate::config::{Config, Source, SourceMode};
use crate::db::ItemMode;
use crate::numbers::{decimal, push_decimal};
use crate::paths::{joined_path, opt_text, path_parent};
use crate::text::{first_chars, take_chars, trim, trimmed};
use crate::ytdlp::{
    archive_path_for, entry_views, DownloadResult, DownloadResultView, PlaylistEntry,
    PlaylistEntryView, YtDlpError, YtDlpErrorView,
};

verus! {

/// What a run has come to.
#[derive(Debug, Clone, Copy, PartialEq, Eq, Structural)]
pub struct SyncStats {
    pub ok: u64,
    pub failed: u64,
    pub skipped_sources: u64,
    pub tagged: u64,
    pub tag_no_match: u64,
    pub tag_skipped: u64,
    pub cookies_suspicious: bool,
}

/// The numbers of a `SyncStats`.
pub struct StatsView {
    pub ok: nat,
    pub failed: nat,
    pub skipped_sources: nat,
    pub tagged: nat,
    pub tag_no_match: nat,
    pub tag_skipped: nat,
    pub cookies_suspicious: bool,
}

impl View for SyncStats {
    type V = StatsView;

    open spec fn view(&self) -> StatsView {
        StatsView {
            ok: self.ok as nat,
            failed: self.failed as nat,
            skipped_sources: self.skipped_sources as nat,
            tagged: self.tagged as nat,
            tag_no_match: self.tag_no_match as nat,
            tag_skipped: self.tag_skipped as nat,
            cookies_suspicious: self.cookies_suspicious,
        }
    }
}

impl StatsView {
    /// Nothing has happened yet.
    pub open spec fn zero() -> StatsView {
        StatsView {
            ok: 0,
            failed: 0,
            skipped_sources: 0,
            tagged: 0,
            tag_no_match: 0,
            tag_skipped: 0,
            cookies_suspicious: false,
        }
    }
}

/// Why an item was given up.
#[derive(Debug)]
pub struct AttemptError {
    /// Short, safe to log.
    pub display: String,
    /// With the whole error output, for the record of failures.
    pub full: String,
}

/// Where a cycle stands.
#[derive(Debug, Clone, Copy, PartialEq, Eq, Structural)]
pub enum Phase {
    /// Before a source: is a shutdown asked for?
    BeforeSource,
    /// The playlist is to be listed.
    Listing,
    /// The listing failed; yt-dlp is to be updated.
    ListUpdating,
    /// The playlist is to be listed once more after the update.
    Relisting,
    /// The entries are looked up in the database one by one.
    Checking,
    /// Before an item: is a shutdown asked for?
    BeforeItem,
    /// Before an attempt: is a shutdown asked for, and how much time has the item taken?
    BeforeAttempt,
    /// The item is to be downloaded.
    Downloading,
    /// The attempt failed; yt-dlp is to be updated.
    AttemptUpdating,
    /// The attempt failed; there is a pause before the next.
    BackingOff,
    /// The item is there, and is to be recorded.
    Saving,
    /// The file is to be tagged.
    Tagging,
    /// The item was given up, and that is to be recorded.
    Recording,
    /// The cycle is over.
    Finished,
}

/// What the database says of an entry.
#[derive(Debug, Clone, Copy, PartialEq, Eq, Structural)]
pub enum DoneCheck {
    /// It was downloaded before.
    Done,
    /// It is new.
    New,
    /// The database could not be asked; the entry is left for another run.
    Unknown,
}

/// What became of tagging.
#[derive(Debug, Clone, Copy, PartialEq, Eq, Structural)]
pub enum TagKind {
    Enriched,
    NoMatch,
    Skipped,
}

/// What is to be done next.
#[derive(Debug)]
pub enum Action {
    /// Find out whether a shutdown is asked for.
    PollShutdown,
    ListPlaylist { source: String, url: String },
    UpdateYtDlp,
    /// Look an entry up in the database.
    CheckDone { video_id: String, mode: ItemMode },
    /// Find out whether a shutdown is asked for, and how long ago the first attempt at this item
    /// was checked for.
    CheckAttempt { attempt: u32 },
    Download {
        video_id: String,
        mode: ItemMode,
        dest_dir: String,
        archive: String,
        quality: Option<String>,
    },
    Sleep { secs: u64 },
    MarkDone {
        video_id: String,
        source: String,
        mode: ItemMode,
        title: Option<String>,
        file_path: String,
    },
    Tag { file_path: String },
    RecordFailure { video_id: String, source: String, mode: ItemMode, error: AttemptError },
    /// Nothing; the cycle is over.
    Finish,
}

/// The characters of an `Action`.
pub enum ActionView {
    PollShutdown,
    ListPlaylist { source: Seq<char>, url: Seq<char> },
    UpdateYtDlp,
    CheckDone { video_id: Seq<char>, mode: ItemMode },
    CheckAttempt { attempt: int },
    Download {
        video_id: Seq<char>,
        mode: ItemMode,
        dest_dir: Seq<char>,
        archive: Seq<char>,
        quality: Option<Seq<char>>,
    },
    Sleep { secs: u64 },
    MarkDone {
        video_id: Seq<char>,
        source: Seq<char>,
        mode: ItemMode,
        title: Option<Seq<char>>,
        file_path: Seq<char>,
    },
    Tag { file_path: Seq<char> },
    RecordFailure {
        video_id: Seq<char>,
        source: Seq<char>,
        mode: ItemMode,
        display: Seq<char>,
        full: Seq<char>,
    },
    Finish,
}

impl View for Action {
    type V = ActionView;

    open spec fn view(&self) -> ActionView {
        match *self {
            Action::PollShutdown => ActionView::PollShutdown,
            Action::ListPlaylist { source, url } => ActionView::ListPlaylist {
                source: source@,
                url: url@,
            },
            Action::UpdateYtDlp => ActionView::UpdateYtDlp,
            Action::CheckDone { video_id, mode } => ActionView::CheckDone {
                video_id: video_id@,
                mode,
            },
            Action::CheckAttempt { attempt } => ActionView::CheckAttempt {
                attempt: attempt as int,
            },
            Action::Download { video_id, mode, dest_dir, archive, quality } => ActionView::Download {
                video_id: video_id@,
                mode,
                dest_dir: dest_dir@,
                archive: archive@,
                quality: opt_text(quality),
            },
            Action::Sleep { secs } => ActionView::Sleep { secs },
            Action::MarkDone { video_id, source, mode, title, file_path } => ActionView::MarkDone {
                video_id: video_id@,
                source: source@,
                mode,
                title: opt_text(title),
                file_path: file_path@,
            },
            Action::Tag { file_path } => ActionView::Tag { file_path: file_path@ },
            Action::RecordFailure { video_id, source, mode, error } => ActionView::RecordFailure {
                video_id: video_id@,
                source: source@,
                mode,
                display: error.display@,
                full: error.full@,
            },
            Action::Finish => ActionView::Finish,
        }
    }
}

/// What came of an action.
pub enum Event {
    ShutdownPolled(bool),
    Listed(Result<Vec<PlaylistEntry>, YtDlpError>),
    Updated,
    DoneChecked(DoneCheck),
    AttemptChecked { shutdown: bool, elapsed_secs: u64 },
    /// A file, or none where the archive of yt-dlp already listed the id.
    Downloaded(Result<Option<DownloadResult>, YtDlpError>),
    Slept,
    Saved,
    Tagged(TagKind),
    Recorded,
}

/// The characters of an `Event`.
pub enum EventView {
    ShutdownPolled(bool),
    Listed(Result<Seq<PlaylistEntryView>, YtDlpErrorView>),
    Updated,
    DoneChecked(DoneCheck),
    AttemptChecked { shutdown: bool, elapsed_secs: u64 },
    Downloaded(Result<Option<DownloadResultView>, YtDlpErrorView>),
    Slept,
    Saved,
    Tagged(TagKind),
    Recorded,
}

impl View for Event {
    type V = EventView;

    open spec fn view(&self) -> EventView {
        match *self {
            Event::ShutdownPolled(b) => EventView::ShutdownPolled(b),
            Event::Listed(Ok(v)) => EventView::Listed(Ok(entry_views(v@))),
            Event::Listed(Err(e)) => EventView::Listed(Err(e@)),
            Event::Updated => EventView::Updated,
            Event::DoneChecked(d) => EventView::DoneChecked(d),
            Event::AttemptChecked { shutdown, elapsed_secs } => EventView::AttemptChecked {
                shutdown,
                elapsed_secs,
            },
            Event::Downloaded(Ok(Some(d))) => EventView::Downloaded(Ok(Some(d@))),
            Event::Downloaded(Ok(None)) => EventView::Downloaded(Ok(None)),
            Event::Downloaded(Err(e)) => EventView::Downloaded(Err(e@)),
            Event::Slept => EventView::Slept,
            Event::Saved => EventView::Saved,
            Event::Tagged(k) => EventView::Tagged(k),
            Event::Recorded => EventView::Recorded,
        }
    }
}

/// The characters of a `Source`.
pub struct SourceView {
    pub name: Seq<char>,
    pub url: Seq<char>,
    pub mode: ItemMode,
    pub quality: Option<Seq<char>>,
}

/// The mode in which the items of a source are kept.
pub open spec fn item_mode(mode: SourceMode) -> ItemMode {
    match mode {
        SourceMode::Audio => ItemMode::Audio,
        SourceMode::Video => ItemMode::Video,
    }
}

impl View for Source {
    type V = SourceView;

    open spec fn view(&self) -> SourceView {
        SourceView {
            name: self.name@,
            url: self.url@,
            mode: item_mode(self.mode),
            quality: opt_text(self.quality),
        }
    }
}

/// What stays the same throughout a cycle.
pub struct SyncEnv {
    pub sources: Seq<SourceView>,
    pub retries: u32,
    pub budget_secs: u64,
    pub backoff_secs: u64,
    pub update_on_extract_error: bool,
    pub audio_dir: Seq<char>,
    pub video_dir: Seq<char>,
    pub archive: Seq<char>,
    /// Whether downloaded audio is tagged.
    pub tagging: bool,
}

/// The cycle of a configuration.
pub open spec fn env_of(cfg: Config, archive: Seq<char>, tagging: bool) -> SyncEnv {
    SyncEnv {
        sources: cfg.sources@.map_values(|s: Source| s@),
        retries: cfg.retries,
        budget_secs: cfg.per_item_timeout_sec,
        backoff_secs: cfg.retry_backoff_sec,
        update_on_extract_error: cfg.yt_dlp.update_on_extract_error,
        audio_dir: cfg.output_audio_dir@,
        video_dir: cfg.output_video_dir@,
        archive,
        tagging,
    }
}

/// What changes in the course of a cycle.
#[verifier::ext_equal]
pub struct SyncState {
    pub phase: Phase,
    /// The source at hand.
    pub source: int,
    /// Its entries.
    pub listing: Seq<PlaylistEntryView>,
    /// How many of them have been looked up.
    pub checked: int,
    /// Those that are new, by their position.
    pub fresh: Seq<int>,
    /// The item at hand, by its position among the new ones.
    pub item: int,
    /// The attempt at it, counted from one.
    pub attempt: int,
    /// Why the last attempt failed.
    pub last_display: Seq<char>,
    pub last_full: Seq<char>,
    /// What the download left behind.
    pub result: Option<DownloadResultView>,
    /// Whether yt-dlp was updated in this run because of a failure.
    pub updated: bool,
    pub stats: StatsView,
}

/// How often an item is tried at most.
pub open spec fn attempts(env: SyncEnv) -> int {
    if env.retries == u32::MAX {
        u32::MAX as int
    } else {
        env.retries + 1
    }
}

/// Whether a failure calls for an update of yt-dlp: it looks like an outdated extractor, updates
/// on that account are on, and there was none in this run yet.
pub open spec fn calls_for_update(env: SyncEnv, s: SyncState, e: YtDlpErrorView) -> bool {
    e.looks_like_extractor && !s.updated && env.update_on_extract_error
}

/// How an attempt is named in messages.
pub open spec fn attempt_label(env: SyncEnv, s: SyncState) -> Seq<char> {
    "attempt "@ + decimal(s.attempt as nat) + "/"@ + decimal(attempts(env) as nat) + ": "@
}

/// The short message of a failed attempt.
pub open spec fn attempt_display(env: SyncEnv, s: SyncState, e: YtDlpErrorView) -> Seq<char> {
    attempt_label(env, s) + e.message + " (stderr: "@ + first_chars(trimmed(e.stderr), 300) + ")"@
}

/// The full message of a failed attempt.
pub open spec fn attempt_full(env: SyncEnv, s: SyncState, e: YtDlpErrorView) -> Seq<char> {
    attempt_label(env, s) + e.message + "\n--- stderr ---\n"@ + trimmed(e.stderr)
}

/// On to a source, or to the end where there is none.
pub open spec fn to_source(env: SyncEnv, s: SyncState) -> SyncState {
    SyncState {
        phase: if s.source < env.sources.len() {
            Phase::BeforeSource
        } else {
            Phase::Finished
        },
        listing: seq![],
        checked: 0,
        fresh: seq![],
        item: 0,
        ..s
    }
}

/// On to the next source.
pub open spec fn next_source(env: SyncEnv, s: SyncState) -> SyncState {
    to_source(env, SyncState { source: s.source + 1, ..s })
}

/// On to an item, or to the next source where there is none.
pub open spec fn to_item(env: SyncEnv, s: SyncState) -> SyncState {
    if s.item < s.fresh.len() {
        SyncState { phase: Phase::BeforeItem, ..s }
    } else {
        next_source(env, s)
    }
}

/// On to the next item.
pub open spec fn next_item(env: SyncEnv, s: SyncState) -> SyncState {
    to_item(env, SyncState { item: s.item + 1, result: None, ..s })
}

/// On to the next attempt, or to giving the item up where there is none.
pub open spec fn next_attempt(env: SyncEnv, s: SyncState) -> SyncState {
    if s.attempt < attempts(env) {
        SyncState { phase: Phase::BeforeAttempt, attempt: s.attempt + 1, ..s }
    } else {
        SyncState { phase: Phase::Recording, ..s }
    }
}

/// The source is given up.
pub open spec fn listing_failed(env: SyncEnv, s: SyncState) -> SyncState {
    next_source(
        env,
        SyncState { stats: StatsView { failed: s.stats.failed + 1, ..s.stats }, ..s },
    )
}

/// The entries of the source are known, and are looked up.
pub open spec fn listed(
    env: SyncEnv,
    s: SyncState,
    entries: Seq<PlaylistEntryView>,
) -> SyncState {
    let s1 = SyncState { listing: entries, checked: 0, fresh: seq![], item: 0, ..s };
    if entries.len() > 0 {
        SyncState { phase: Phase::Checking, ..s1 }
    } else {
        to_item(env, s1)
    }
}

/// An error whose output shows refused cookies marks the run.
pub open spec fn cookies_noted(s: SyncState, e: YtDlpErrorView) -> SyncState {
    SyncState {
        stats: StatsView {
            cookies_suspicious: s.stats.cookies_suspicious || e.looks_like_auth,
            ..s.stats
        },
        ..s
    }
}

/// The listing failed for the first time.
pub open spec fn first_listing_failed(
    env: SyncEnv,
    s: SyncState,
    e: YtDlpErrorView,
) -> SyncState {
    let s1 = cookies_noted(s, e);
    if calls_for_update(env, s, e) {
        SyncState { phase: Phase::ListUpdating, ..s1 }
    } else {
        listing_failed(env, s1)
    }
}

/// An entry was looked up.
pub open spec fn entry_checked(env: SyncEnv, s: SyncState, d: DoneCheck) -> SyncState {
    let s1 = SyncState {
        checked: s.checked + 1,
        fresh: if d == DoneCheck::New {
            s.fresh.push(s.checked)
        } else {
            s.fresh
        },
        ..s
    };
    if s1.checked < s1.listing.len() {
        s1
    } else {
        to_item(env, s1)
    }
}

/// The item is taken up.
pub open spec fn item_begun(s: SyncState) -> SyncState {
    SyncState {
        phase: Phase::BeforeAttempt,
        attempt: 1,
        last_display: seq![],
        last_full: seq![],
        ..s
    }
}

/// The attempt goes ahead unless a shutdown is asked for or the time for the item is used up; then
/// the item is given up.
pub open spec fn attempt_checked(
    env: SyncEnv,
    s: SyncState,
    shutdown: bool,
    elapsed_secs: u64,
) -> SyncState {
    if shutdown {
        SyncState {
            phase: Phase::Recording,
            last_display: attempt_label(env, s) + "shutdown requested"@,
            last_full: "shutdown requested before attempt"@,
            ..s
        }
    } else if elapsed_secs >= env.budget_secs {
        SyncState {
            phase: Phase::Recording,
            last_display: "item budget of "@ + decimal(env.budget_secs as nat)
                + "s exhausted before attempt "@ + decimal(s.attempt as nat),
            ..s
        }
    } else {
        SyncState { phase: Phase::Downloading, ..s }
    }
}

/// The attempt failed.
pub open spec fn attempt_failed(env: SyncEnv, s: SyncState, e: YtDlpErrorView) -> SyncState {
    let s1 = SyncState {
        last_display: attempt_display(env, s, e),
        last_full: attempt_full(env, s, e),
        ..cookies_noted(s, e)
    };
    if calls_for_update(env, s, e) {
        SyncState { phase: Phase::AttemptUpdating, ..s1 }
    } else if s.attempt < attempts(env) {
        SyncState { phase: Phase::BackingOff, ..s1 }
    } else {
        SyncState { phase: Phase::Recording, ..s1 }
    }
}

/// The mode of the source at hand.
pub open spec fn mode_at(env: SyncEnv, s: SyncState) -> ItemMode {
    env.sources[s.source].mode
}

/// The item was recorded; a file of audio is tagged where that is possible.
pub open spec fn item_saved(env: SyncEnv, s: SyncState) -> SyncState {
    let s1 = SyncState { stats: StatsView { ok: s.stats.ok + 1, ..s.stats }, ..s };
    if s.result is Some && mode_at(env, s) == ItemMode::Audio && env.tagging {
        SyncState { phase: Phase::Tagging, ..s1 }
    } else {
        next_item(env, s1)
    }
}

/// The file was tagged, or not.
pub open spec fn item_tagged(env: SyncEnv, s: SyncState, k: TagKind) -> SyncState {
    let stats = match k {
        TagKind::Enriched => StatsView { tagged: s.stats.tagged + 1, ..s.stats },
        TagKind::NoMatch => StatsView { tag_no_match: s.stats.tag_no_match + 1, ..s.stats },
        TagKind::Skipped => StatsView { tag_skipped: s.stats.tag_skipped + 1, ..s.stats },
    };
    next_item(env, SyncState { stats, ..s })
}

/// The item was recorded as failed.
pub open spec fn failure_recorded(env: SyncEnv, s: SyncState) -> SyncState {
    next_item(
        env,
        SyncState { stats: StatsView { failed: s.stats.failed + 1, ..s.stats }, ..s },
    )
}

/// The state that follows. An event that does not answer the action changes nothing.
pub open spec fn step(env: SyncEnv, s: SyncState, e: EventView) -> SyncState {
    match (s.phase, e) {
        (Phase::BeforeSource, EventView::ShutdownPolled(down)) => if down {
            SyncState { phase: Phase::Finished, ..s }
        } else {
            SyncState { phase: Phase::Listing, ..s }
        },
        (Phase::Listing, EventView::Listed(Ok(entries))) => listed(env, s, entries),
        (Phase::Listing, EventView::Listed(Err(err))) => first_listing_failed(env, s, err),
        (Phase::ListUpdating, EventView::Updated) => SyncState {
            phase: Phase::Relisting,
            updated: true,
            ..s
        },
        (Phase::Relisting, EventView::Listed(Ok(entries))) => listed(env, s, entries),
        (Phase::Relisting, EventView::Listed(Err(err))) => listing_failed(env, cookies_noted(s, err)),
        (Phase::Checking, EventView::DoneChecked(d)) => entry_checked(env, s, d),
        (Phase::BeforeItem, EventView::ShutdownPolled(down)) => if down {
            next_source(env, s)
        } else {
            item_begun(s)
        },
        (
            Phase::BeforeAttempt,
            EventView::AttemptChecked { shutdown, elapsed_secs },
        ) => attempt_checked(env, s, shutdown, elapsed_secs),
        (Phase::Downloading, EventView::Downloaded(Ok(result))) => SyncState {
            phase: Phase::Saving,
            result,
            ..s
        },
        (Phase::Downloading, EventView::Downloaded(Err(err))) => attempt_failed(env, s, err),
        (Phase::AttemptUpdating, EventView::Updated) => next_attempt(
            env,
            SyncState { updated: true, ..s },
        ),
        (Phase::BackingOff, EventView::Slept) => next_attempt(env, s),
        (Phase::Saving, EventView::Saved) => item_saved(env, s),
        (Phase::Tagging, EventView::Tagged(k)) => item_tagged(env, s, k),
        (Phase::Recording, EventView::Recorded) => failure_recorded(env, s),
        _ => s,
    }
}

/// The entry at hand, of those that are new.
pub open spec fn item_at(s: SyncState) -> PlaylistEntryView {
    s.listing[s.fresh[s.item]]
}

/// Where files of a mode go.
pub open spec fn dest_dir(env: SyncEnv, mode: ItemMode) -> Seq<char> {
    match mode {
        ItemMode::Audio => env.audio_dir,
        ItemMode::Video => env.video_dir,
    }
}

/// The listing of the source at hand.
pub open spec fn list_action(env: SyncEnv, s: SyncState) -> ActionView {
    ActionView::ListPlaylist {
        source: env.sources[s.source].name,
        url: env.sources[s.source].url,
    }
}

/// What is to be done next.
pub open spec fn action(env: SyncEnv, s: SyncState) -> ActionView {
    match s.phase {
        Phase::BeforeSource => ActionView::PollShutdown,
        Phase::Listing => list_action(env, s),
        Phase::ListUpdating => ActionView::UpdateYtDlp,
        Phase::Relisting => list_action(env, s),
        Phase::Checking => ActionView::CheckDone {
            video_id: s.listing[s.checked].id,
            mode: mode_at(env, s),
        },
        Phase::BeforeItem => ActionView::PollShutdown,
        Phase::BeforeAttempt => ActionView::CheckAttempt { attempt: s.attempt },
        Phase::Downloading => ActionView::Download {
            video_id: item_at(s).id,
            mode: mode_at(env, s),
            dest_dir: dest_dir(env, mode_at(env, s)),
            archive: env.archive,
            quality: env.sources[s.source].quality,
        },
        Phase::AttemptUpdating => ActionView::UpdateYtDlp,
        Phase::BackingOff => ActionView::Sleep { secs: env.backoff_secs },
        Phase::Saving => ActionView::MarkDone {
            video_id: item_at(s).id,
            source: env.sources[s.source].name,
            mode: mode_at(env, s),
            title: match s.result {
                Some(r) => Some(r.title),
                None => None,
            },
            file_path: match s.result {
                Some(r) => r.file_path,
                None => "(archive-hit)"@,
            },
        },
        Phase::Tagging => ActionView::Tag {
            file_path: match s.result {
                Some(r) => r.file_path,
                None => seq![],
            },
        },
        Phase::Recording => ActionView::RecordFailure {
            video_id: item_at(s).id,
            source: env.sources[s.source].name,
            mode: mode_at(env, s),
            display: s.last_display,
            full: s.last_full,
        },
        Phase::Finished => ActionView::Finish,
    }
}

/// Whether a phase is spent on an item.
pub open spec fn on_item(p: Phase) -> bool {
    p is BeforeItem || on_attempt(p) || p is Saving || p is Tagging || p is Recording
}

/// Whether a phase is spent on an attempt at an item.
pub open spec fn on_attempt(p: Phase) -> bool {
    p is BeforeAttempt || p is Downloading || p is AttemptUpdating || p is BackingOff
}

/// What holds in every state of a cycle.
pub open spec fn valid(env: SyncEnv, s: SyncState) -> bool {
    &&& 0 <= s.source <= env.sources.len()
    &&& s.phase !is Finished ==> s.source < env.sources.len()
    &&& 0 <= s.checked <= s.listing.len()
    &&& s.phase is Checking ==> s.checked < s.listing.len() && s.item == 0
    &&& forall|i: int| 0 <= i < s.fresh.len() ==> 0 <= #[trigger] s.fresh[i] < s.checked
    &&& forall|i: int, j: int| 0 <= i < j < s.fresh.len() ==> s.fresh[i] < s.fresh[j]
    &&& 0 <= s.item
    &&& on_item(s.phase) ==> s.item < s.fresh.len()
    &&& on_attempt(s.phase) || s.phase is Recording || s.phase is Saving || s.phase is Tagging ==> 1
        <= s.attempt <= attempts(env)
    &&& s.phase is BackingOff ==> s.attempt < attempts(env)
    &&& s.phase is ListUpdating || s.phase is AttemptUpdating ==> !s.updated
        && env.update_on_extract_error
    &&& s.phase is Tagging ==> s.result is Some && mode_at(env, s) == ItemMode::Audio && env.tagging
}

/// Where a cycle starts.
pub open spec fn start(env: SyncEnv) -> SyncState {
    to_source(
        env,
        SyncState {
            phase: Phase::BeforeSource,
            source: 0,
            listing: seq![],
            checked: 0,
            fresh: seq![],
            item: 0,
            attempt: 1,
            last_display: seq![],
            last_full: seq![],
            result: None,
            updated: false,
            stats: StatsView::zero(),
        },
    )
}

/// Every step of a valid state leads to a valid state.
pub proof fn lemma_step_keeps_valid(env: SyncEnv, s: SyncState, e: EventView)
    requires
        valid(env, s),
    ensures
        valid(env, step(env, s, e)),
{
}

/// What a download left behind, in characters.
pub open spec fn result_view(r: Option<DownloadResult>) -> Option<DownloadResultView> {
    match r {
        Some(d) => Some(d@),
        None => None,
    }
}

/// Whether every counter can go up by one.
pub open spec fn has_room(stats: StatsView) -> bool {
    &&& stats.ok < u64::MAX
    &&& stats.failed < u64::MAX
    &&& stats.tagged < u64::MAX
    &&& stats.tag_no_match < u64::MAX
    &&& stats.tag_skipped < u64::MAX
}

/// A sync cycle in progress.
pub struct SyncMachine<'a> {
    cfg: &'a Config,
    archive: String,
    tagging: bool,
    phase: Phase,
    source: usize,
    listing: Vec<PlaylistEntry>,
    checked: usize,
    fresh: Vec<usize>,
    item: usize,
    attempt: u32,
    last_display: String,
    last_full: String,
    result: Option<DownloadResult>,
    updated: bool,
    stats: SyncStats,
}

impl<'a> View for SyncMachine<'a> {
    type V = SyncState;

    closed spec fn view(&self) -> SyncState {
        SyncState {
            phase: self.phase,
            source: self.source as int,
            listing: entry_views(self.listing@),
            checked: self.checked as int,
            fresh: self.fresh@.map_values(|i: usize| i as int),
            item: self.item as int,
            attempt: self.attempt as int,
            last_display: self.last_display@,
            last_full: self.last_full@,
            result: result_view(self.result),
            updated: self.updated,
            stats: self.stats@,
        }
    }
}

impl<'a> SyncMachine<'a> {
    /// What stays the same throughout the cycle.
    pub closed spec fn env(&self) -> SyncEnv {
        env_of(*self.cfg, self.archive@, self.tagging)
    }

    /// Whether the machine is in a state of a cycle.
    pub open spec fn valid(&self) -> bool {
        valid(self.env(), self@)
    }

    /// How often an item is tried at most.
    fn attempts(&self) -> (r: u32)
        ensures
            r == attempts(self.env()),
            r >= 1,
    {
        if self.cfg.retries == u32::MAX {
            u32::MAX
        } else {
            self.cfg.retries + 1
        }
    }

    /// On to a source, or to the end where there is none.
    fn to_source(&mut self)
        ensures
            final(self)@ == to_source(old(self).env(), old(self)@),
            final(self).env() == old(self).env(),
    {
        if self.source < self.cfg.sources.len() {
            self.phase = Phase::BeforeSource;
        } else {
            self.phase = Phase::Finished;
        }
        self.listing = Vec::new();
        self.checked = 0;
        self.fresh = Vec::new();
        self.item = 0;
    }

    /// On to the next source.
    fn next_source(&mut self)
        requires
            old(self)@.source < old(self).env().sources.len(),
        ensures
            final(self)@ == next_source(old(self).env(), old(self)@),
            final(self).env() == old(self).env(),
    {
        assert(self.source < self.cfg.sources.len());
        self.source = self.source + 1;
        self.to_source();
    }

    /// On to an item, or to the next source where there is none.
    fn to_item(&mut self)
        requires
            old(self)@.source < old(self).env().sources.len(),
        ensures
            final(self)@ == to_item(old(self).env(), old(self)@),
            final(self).env() == old(self).env(),
    {
        if self.item < self.fresh.len() {
            self.phase = Phase::BeforeItem;
        } else {
            self.next_source();
        }
    }

    /// On to the next item.
    fn next_item(&mut self)
        requires
            old(self)@.source < old(self).env().sources.len(),
            old(self)@.item < old(self)@.fresh.len(),
        ensures
            final(self)@ == next_item(old(self).env(), old(self)@),
            final(self).env() == old(self).env(),
    {
        assert(self.item < self.fresh.len());
        self.item = self.item + 1;
        self.result = None;
        self.to_item();
    }

    /// On to the next attempt, or to giving the item up where there is none.
    fn next_attempt(&mut self)
        ensures
            final(self)@ == next_attempt(old(self).env(), old(self)@),
            final(self).env() == old(self).env(),
    {
        if self.attempt < self.attempts() {
            self.attempt = self.attempt + 1;
            self.phase = Phase::BeforeAttempt;
        } else {
            self.phase = Phase::Recording;
        }
    }

    /// The source is given up.
    fn listing_failed(&mut self)
        requires
            old(self)@.source < old(self).env().sources.len(),
            old(self)@.stats.failed < u64::MAX,
        ensures
            final(self)@ == listing_failed(old(self).env(), old(self)@),
            final(self).env() == old(self).env(),
    {
        self.stats.failed = self.stats.failed + 1;
        self.next_source();
    }

    /// The entries of the source are known, and are looked up.
    fn listed(&mut self, entries: Vec<PlaylistEntry>)
        requires
            old(self)@.source < old(self).env().sources.len(),
        ensures
            final(self)@ == listed(old(self).env(), old(self)@, entry_views(entries@)),
            final(self).env() == old(self).env(),
    {
        self.listing = entries;
        self.checked = 0;
        self.fresh = Vec::new();
        self.item = 0;
        assert(self@.fresh =~= seq![]);
        if self.listing.len() > 0 {
            self.phase = Phase::Checking;
        } else {
            self.to_item();
        }
    }

    /// An error whose output shows refused cookies marks the run.
    fn flag_cookies_suspicious(&mut self, e: &YtDlpError)
        ensures
            final(self)@ == cookies_noted(old(self)@, e@),
            final(self).env() == old(self).env(),
    {
        if e.looks_like_auth {
            self.stats.cookies_suspicious = true;
        }
    }

    /// Whether a failure calls for an update of yt-dlp.
    fn calls_for_update(&self, e: &YtDlpError) -> (r: bool)
        ensures
            r == calls_for_update(self.env(), self@, e@),
    {
        e.looks_like_extractor && !self.updated && self.cfg.yt_dlp.update_on_extract_error
    }

    /// The listing failed for the first time.
    fn first_listing_failed(&mut self, e: YtDlpError)
        requires
            old(self)@.source < old(self).env().sources.len(),
            old(self)@.stats.failed < u64::MAX,
        ensures
            final(self)@ == first_listing_failed(old(self).env(), old(self)@, e@),
            final(self).env() == old(self).env(),
    {
        self.flag_cookies_suspicious(&e);
        if self.calls_for_update(&e) {
            self.phase = Phase::ListUpdating;
        } else {
            self.listing_failed();
        }
    }

    /// An entry was looked up.
    fn entry_checked(&mut self, d: DoneCheck)
        requires
            old(self)@.source < old(self).env().sources.len(),
            old(self)@.checked < old(self)@.listing.len(),
        ensures
            final(self)@ == entry_checked(old(self).env(), old(self)@, d),
            final(self).env() == old(self).env(),
    {
        assert(self.checked < self.listing.len());
        if d == DoneCheck::New {
            self.fresh.push(self.checked);
            assert(self@.fresh =~= old(self)@.fresh.push(self@.checked));
        }
        self.checked = self.checked + 1;
        if self.checked >= self.listing.len() {
            self.to_item();
        }
    }

    /// How the attempt at hand is named in messages.
    fn attempt_label(&self) -> (r: String)
        ensures
            r@ == attempt_label(self.env(), self@),
    {
        let mut out = "attempt ".to_owned();
        push_decimal(&mut out, self.attempt as u64);
        out.append("/");
        push_decimal(&mut out, self.attempts() as u64);
        out.append(": ");
        out
    }

    /// The attempt goes ahead unless a shutdown is asked for or the time for the item is used up.
    fn attempt_checked(&mut self, shutdown: bool, elapsed_secs: u64)
        ensures
            final(self)@ == attempt_checked(old(self).env(), old(self)@, shutdown, elapsed_secs),
            final(self).env() == old(self).env(),
    {
        if shutdown {
            let mut display = self.attempt_label();
            display.append("shutdown requested");
            self.last_display = display;
            self.last_full = "shutdown requested before attempt".to_owned();
            self.phase = Phase::Recording;
        } else if elapsed_secs >= self.cfg.per_item_timeout_sec {
            let mut display = "item budget of ".to_owned();
            push_decimal(&mut display, self.cfg.per_item_timeout_sec);
            display.append("s exhausted before attempt ");
            push_decimal(&mut display, self.attempt as u64);
            self.last_display = display;
            self.phase = Phase::Recording;
        } else {
            self.phase = Phase::Downloading;
        }
    }

    /// The attempt failed.
    fn attempt_failed(&mut self, e: YtDlpError)
        ensures
            final(self)@ == attempt_failed(old(self).env(), old(self)@, e@),
            final(self).env() == old(self).env(),
    {
        let stderr = trim(e.stderr.as_str());
        let snippet = take_chars(stderr.as_str(), 300);
        let mut display = self.attempt_label();
        display.append(e.message.as_str());
        display.append(" (stderr: ");
        display.append(snippet.as_str());
        display.append(")");
        let mut full = self.attempt_label();
        full.append(e.message.as_str());
        full.append("\n--- stderr ---\n");
        full.append(stderr.as_str());
        self.last_display = display;
        self.last_full = full;
        self.flag_cookies_suspicious(&e);
        if self.calls_for_update(&e) {
            self.phase = Phase::AttemptUpdating;
        } else if self.attempt < self.attempts() {
            self.phase = Phase::BackingOff;
        } else {
            self.phase = Phase::Recording;
        }
    }

    /// How the items of the source at hand are kept.
    fn mode(&self) -> (r: ItemMode)
        requires
            self@.source < self.env().sources.len(),
        ensures
            r == mode_at(self.env(), self@),
    {
        match self.cfg.sources[self.source].mode {
            SourceMode::Audio => ItemMode::Audio,
            SourceMode::Video => ItemMode::Video,
        }
    }

    /// The item was recorded; a file of audio is tagged where that is possible.
    fn item_saved(&mut self)
        requires
            old(self)@.source < old(self).env().sources.len(),
            old(self)@.item < old(self)@.fresh.len(),
            old(self)@.stats.ok < u64::MAX,
        ensures
            final(self)@ == item_saved(old(self).env(), old(self)@),
            final(self).env() == old(self).env(),
    {
        self.stats.ok = self.stats.ok + 1;
        if self.result.is_some() && self.mode() == ItemMode::Audio && self.tagging {
            self.phase = Phase::Tagging;
        } else {
            self.next_item();
        }
    }

    /// The file was tagged, or not.
    fn enrich_tags(&mut self, k: TagKind)
        requires
            old(self)@.source < old(self).env().sources.len(),
            old(self)@.item < old(self)@.fresh.len(),
            old(self)@.stats.tagged < u64::MAX,
            old(self)@.stats.tag_no_match < u64::MAX,
            old(self)@.stats.tag_skipped < u64::MAX,
        ensures
            final(self)@ == item_tagged(old(self).env(), old(self)@, k),
            final(self).env() == old(self).env(),
    {
        match k {
            TagKind::Enriched => {
                self.stats.tagged = self.stats.tagged + 1;
            },
            TagKind::NoMatch => {
                self.stats.tag_no_match = self.stats.tag_no_match + 1;
            },
            TagKind::Skipped => {
                self.stats.tag_skipped = self.stats.tag_skipped + 1;
            },
        }
        self.next_item();
    }

    /// The item was recorded as failed.
    fn failure_recorded(&mut self)
        requires
            old(self)@.source < old(self).env().sources.len(),
            old(self)@.item < old(self)@.fresh.len(),
            old(self)@.stats.failed < u64::MAX,
        ensures
            final(self)@ == failure_recorded(old(self).env(), old(self)@),
            final(self).env() == old(self).env(),
    {
        self.stats.failed = self.stats.failed + 1;
        self.next_item();
    }

    /// Whether every counter can go up by one.
    pub fn has_room(&self) -> (r: bool)
        ensures
            r == has_room(self@.stats),
    {
        self.stats.ok < u64::MAX && self.stats.failed < u64::MAX && self.stats.tagged < u64::MAX
            && self.stats.tag_no_match < u64::MAX && self.stats.tag_skipped < u64::MAX
    }

    /// What the cycle has come to.
    pub fn stats(&self) -> (r: SyncStats)
        ensures
            r@ == self@.stats,
    {
        self.stats
    }

    /// Takes note of what came of the action, and moves on.
    pub fn advance(&mut self, event: Event)
        requires
            old(self).valid(),
            has_room(old(self)@.stats),
        ensures
            final(self)@ == step(old(self).env(), old(self)@, event@),
            final(self).env() == old(self).env(),
            final(self).valid(),
            match event {
                Event::Listed(Ok(entries)) => (old(self)@.phase is Listing
                    || old(self)@.phase is Relisting) && entries@.len() > 0 ==> {
                    &&& final(self)@.phase is Checking
                    &&& final(self)@.listing == entry_views(entries@)
                    &&& final(self)@.checked == 0
                    &&& final(self)@.source == old(self)@.source
                },
                _ => true,
            },
    {
        proof {
            lemma_step_keeps_valid(self.env(), self@, event@);
        }
        match (self.phase, event) {
            (Phase::BeforeSource, Event::ShutdownPolled(down)) => {
                if down {
                    self.phase = Phase::Finished;
                } else {
                    self.phase = Phase::Listing;
                }
            },
            (Phase::Listing, Event::Listed(Ok(entries))) => {
                self.listed(entries);
            },
            (Phase::Listing, Event::Listed(Err(e))) => {
                self.first_listing_failed(e);
            },
            (Phase::ListUpdating, Event::Updated) => {
                self.updated = true;
                self.phase = Phase::Relisting;
            },
            (Phase::Relisting, Event::Listed(Ok(entries))) => {
                self.listed(entries);
            },
            (Phase::Relisting, Event::Listed(Err(e))) => {
                self.flag_cookies_suspicious(&e);
                self.listing_failed();
            },
            (Phase::Checking, Event::DoneChecked(d)) => {
                self.entry_checked(d);
            },
            (Phase::BeforeItem, Event::ShutdownPolled(down)) => {
                if down {
                    self.next_source();
                } else {
                    self.phase = Phase::BeforeAttempt;
                    self.attempt = 1;
                    self.last_display = String::new();
                    self.last_full = String::new();
                }
            },
            (Phase::BeforeAttempt, Event::AttemptChecked { shutdown, elapsed_secs }) => {
                self.attempt_checked(shutdown, elapsed_secs);
            },
            (Phase::Downloading, Event::Downloaded(Ok(result))) => {
                self.result = result;
                self.phase = Phase::Saving;
            },
            (Phase::Downloading, Event::Downloaded(Err(e))) => {
                self.attempt_failed(e);
            },
            (Phase::AttemptUpdating, Event::Updated) => {
                self.updated = true;
                self.next_attempt();
            },
            (Phase::BackingOff, Event::Slept) => {
                self.next_attempt();
            },
            (Phase::Saving, Event::Saved) => {
                self.item_saved();
            },
            (Phase::Tagging, Event::Tagged(k)) => {
                self.enrich_tags(k);
            },
            (Phase::Recording, Event::Recorded) => {
                self.failure_recorded();
            },
            _ => {},
        }
    }

    /// The id of the item at hand.
    fn video_id(&self) -> (r: String)
        requires
            self.valid(),
            on_item(self@.phase),
        ensures
            r@ == item_at(self@).id,
    {
        assert(self@.fresh[self@.item] == self.fresh@[self.item as int]);
        self.listing[self.fresh[self.item]].id.clone()
    }

    /// The listing of the source at hand.
    fn list_action(&self) -> (r: Action)
        requires
            self@.source < self.env().sources.len(),
        ensures
            r@ == list_action(self.env(), self@),
    {
        Action::ListPlaylist {
            source: self.cfg.sources[self.source].name.clone(),
            url: self.cfg.sources[self.source].url.clone(),
        }
    }

    /// The download of the item at hand.
    fn download_action(&self) -> (r: Action)
        requires
            self.valid(),
            self@.phase is Downloading,
        ensures
            r@ == action(self.env(), self@),
    {
        let mode = self.mode();
        Action::Download {
            video_id: self.video_id(),
            mode,
            dest_dir: match mode {
                ItemMode::Audio => self.cfg.output_audio_dir.clone(),
                ItemMode::Video => self.cfg.output_video_dir.clone(),
            },
            archive: self.archive.clone(),
            quality: match &self.cfg.sources[self.source].quality {
                Some(q) => Some(q.clone()),
                None => None,
            },
        }
    }

    /// The record of the item at hand.
    fn mark_done_action(&self) -> (r: Action)
        requires
            self.valid(),
            self@.phase is Saving,
        ensures
            r@ == action(self.env(), self@),
    {
        Action::MarkDone {
            video_id: self.video_id(),
            source: self.cfg.sources[self.source].name.clone(),
            mode: self.mode(),
            title: match &self.result {
                Some(r) => Some(r.title.clone()),
                None => None,
            },
            file_path: match &self.result {
                Some(r) => r.file_path.clone(),
                None => "(archive-hit)".to_owned(),
            },
        }
    }

    /// What is to be done next.
    pub fn next_action(&self) -> (r: Action)
        requires
            self.valid(),
        ensures
            r@ == action(self.env(), self@),
    {
        match self.phase {
            Phase::BeforeSource => Action::PollShutdown,
            Phase::Listing => self.list_action(),
            Phase::ListUpdating => Action::UpdateYtDlp,
            Phase::Relisting => self.list_action(),
            Phase::Checking => Action::CheckDone {
                video_id: self.listing[self.checked].id.clone(),
                mode: self.mode(),
            },
            Phase::BeforeItem => Action::PollShutdown,
            Phase::BeforeAttempt => Action::CheckAttempt { attempt: self.attempt },
            Phase::Downloading => self.download_action(),
            Phase::AttemptUpdating => Action::UpdateYtDlp,
            Phase::BackingOff => Action::Sleep { secs: self.cfg.retry_backoff_sec },
            Phase::Saving => self.mark_done_action(),
            Phase::Tagging => Action::Tag {
                file_path: match &self.result {
                    Some(r) => r.file_path.clone(),
                    None => String::new(),
                },
            },
            Phase::Recording => Action::RecordFailure {
                video_id: self.video_id(),
                source: self.cfg.sources[self.source].name.clone(),
                mode: self.mode(),
                error: AttemptError {
                    display: self.last_display.clone(),
                    full: self.last_full.clone(),
                },
            },
            Phase::Finished => Action::Finish,
        }
    }
}

/// Starts a sync cycle across every configured source, audio and video. Where the database has no
/// directory there is no place for the archive of yt-dlp, and the cycle is over with one failure.
pub fn run_sync<'a>(cfg: &'a Config, tagging: bool) -> (r: Result<SyncMachine<'a>, SyncStats>)
    ensures
        match path_parent(cfg.db_path@) {
            Some(dir) => match r {
                Ok(m) => {
                    &&& m.env() == env_of(*cfg, joined_path(dir, "ytdlp-archive.txt"@), tagging)
                    &&& m@ == start(m.env())
                    &&& m.valid()
                },
                Err(_) => false,
            },
            None => match r {
                Ok(_) => false,
                Err(stats) => stats@ == (StatsView { failed: 1, ..StatsView::zero() }),
            },
        },
{
    let stats = SyncStats {
        ok: 0,
        failed: 0,
        skipped_sources: 0,
        tagged: 0,
        tag_no_match: 0,
        tag_skipped: 0,
        cookies_suspicious: false,
    };
    match archive_path_for(cfg) {
        Ok(archive) => {
            let mut machine = SyncMachine {
                cfg,
                archive,
                tagging,
                phase: Phase::BeforeSource,
                source: 0,
                listing: Vec::new(),
                checked: 0,
                fresh: Vec::new(),
                item: 0,
                attempt: 1,
                last_display: String::new(),
                last_full: String::new(),
                result: None,
                updated: false,
                stats,
            };
            machine.to_source();
            Ok(machine)
        },
        Err(_) => Err(SyncStats { failed: 1, ..stats }),
    }
}

} // verus!

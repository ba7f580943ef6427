//! What holds of every sync cycle, whatever happens in its course.

use vstd::prelude::*;
use crate::config::{Config, SourceMode};
use crate::db::ItemMode;
use crate::numbers::decimal;
use crate::paths::opt_text;
use crate::sync::{
    action, attempts, env_of, item_at, lemma_step_keeps_valid, mode_at, on_attempt, on_item, start,
    step, valid, Action, ActionView, DoneCheck, Event, EventView, Phase, StatsView, SyncEnv,
    SyncState, SyncStats, TagKind,
};
use crate::text::{first_chars, trimmed};
use crate::ytdlp::{DownloadResultView, PlaylistEntryView, YtDlpErrorView};

verus! {

/// The state after some events.
pub open spec fn after(env: SyncEnv, s: SyncState, events: Seq<EventView>) -> SyncState
    decreases events.len(),
{
    if events.len() == 0 {
        s
    } else {
        step(env, after(env, s, events.drop_last()), events.last())
    }
}

/// Whether an event is the answer that a phase waits for.
pub open spec fn answers(p: Phase, e: EventView) -> bool {
    match p {
        Phase::BeforeSource => e is ShutdownPolled,
        Phase::Listing => e is Listed,
        Phase::ListUpdating => e is Updated,
        Phase::Relisting => e is Listed,
        Phase::Checking => e is DoneChecked,
        Phase::BeforeItem => e is ShutdownPolled,
        Phase::BeforeAttempt => e is AttemptChecked,
        Phase::Downloading => e is Downloaded,
        Phase::AttemptUpdating => e is Updated,
        Phase::BackingOff => e is Slept,
        Phase::Saving => e is Saved,
        Phase::Tagging => e is Tagged,
        Phase::Recording => e is Recorded,
        Phase::Finished => false,
    }
}

/// One, where something holds.
pub open spec fn one_if(b: bool) -> nat {
    if b {
        1
    } else {
        0
    }
}

/// How many of the events answer an action of a kind.
pub open spec fn times(
    env: SyncEnv,
    s: SyncState,
    events: Seq<EventView>,
    kind: spec_fn(ActionView, EventView) -> bool,
) -> nat
    decreases events.len(),
{
    if events.len() == 0 {
        0
    } else {
        let before = after(env, s, events.drop_last());
        times(env, s, events.drop_last(), kind) + one_if(
            answers(before.phase, events.last()) && kind(action(env, before), events.last()),
        )
    }
}

/// Every state that a cycle reaches is valid.
pub proof fn law_cycle_stays_valid(env: SyncEnv, events: Seq<EventView>)
    ensures
        valid(env, after(env, start(env), events)),
    decreases events.len(),
{
    if events.len() > 0 {
        law_cycle_stays_valid(env, events.drop_last());
        lemma_step_keeps_valid(env, after(env, start(env), events.drop_last()), events.last());
    }
}

/// yt-dlp is updated on account of failures at most once in a cycle, and not at all where that is
/// switched off.
pub proof fn law_one_update_per_cycle(env: SyncEnv, events: Seq<EventView>)
    ensures
        times(env, start(env), events, |a: ActionView, e: EventView| a is UpdateYtDlp) <= 1,
        !env.update_on_extract_error ==> times(
            env,
            start(env),
            events,
            |a: ActionView, e: EventView| a is UpdateYtDlp,
        ) == 0,
{
    lemma_updates(env, events);
}

proof fn lemma_updates(env: SyncEnv, events: Seq<EventView>)
    ensures
        ({
            let n = times(
                env,
                start(env),
                events,
                |a: ActionView, e: EventView| a is UpdateYtDlp,
            );
            &&& n == one_if(after(env, start(env), events).updated)
            &&& !env.update_on_extract_error ==> n == 0
        }),
    decreases events.len(),
{
    if events.len() > 0 {
        lemma_updates(env, events.drop_last());
        law_cycle_stays_valid(env, events.drop_last());
    }
}

/// Once cookies were found suspicious they stay so until the end of the cycle.
pub proof fn law_cookie_suspicion_stays(
    env: SyncEnv,
    s: SyncState,
    events: Seq<EventView>,
)
    requires
        s.stats.cookies_suspicious,
    ensures
        after(env, s, events).stats.cookies_suspicious,
    decreases events.len(),
{
    if events.len() > 0 {
        law_cookie_suspicion_stays(env, s, events.drop_last());
    }
}

/// Cookies become suspicious only through an error that looks like a refusal.
pub proof fn law_cookie_suspicion_has_a_reason(env: SyncEnv, s: SyncState, e: EventView)
    requires
        !s.stats.cookies_suspicious,
        step(env, s, e).stats.cookies_suspicious,
    ensures
        match e {
            EventView::Listed(Err(err)) => (s.phase is Listing || s.phase is Relisting)
                && err.looks_like_auth,
            EventView::Downloaded(Err(err)) => s.phase is Downloading && err.looks_like_auth,
            _ => false,
        },
{
}

/// Every call of yt-dlp that fails with what looks like a refusal makes the cookies suspicious: each
/// listing of a source, and each attempt at an item.
pub proof fn law_every_refusal_is_noted(env: SyncEnv, s: SyncState, e: EventView)
    requires
        answers(s.phase, e),
        match e {
            EventView::Listed(Err(err)) => err.looks_like_auth,
            EventView::Downloaded(Err(err)) => err.looks_like_auth,
            _ => false,
        },
    ensures
        step(env, s, e).stats.cookies_suspicious,
{
}

/// Whether an event gives a source up: its listing failed, and no update comes to the rescue.
pub open spec fn gives_source_up(env: SyncEnv, s: SyncState, e: EventView) -> bool {
    match (s.phase, e) {
        (Phase::Listing, EventView::Listed(Err(err))) => !(err.looks_like_extractor && !s.updated
            && env.update_on_extract_error),
        (Phase::Relisting, EventView::Listed(Err(_))) => true,
        _ => false,
    }
}

/// How many sources were given up.
pub open spec fn sources_given_up(env: SyncEnv, s: SyncState, events: Seq<EventView>) -> nat
    decreases events.len(),
{
    if events.len() == 0 {
        0
    } else {
        sources_given_up(env, s, events.drop_last()) + one_if(
            gives_source_up(env, after(env, s, events.drop_last()), events.last()),
        )
    }
}

proof fn lemma_counts_of_step(env: SyncEnv, s: SyncState, e: EventView)
    ensures
        ({
            let t = step(env, s, e);
            let a = action(env, s);
            let done = answers(s.phase, e);
            &&& t.stats.ok == s.stats.ok + one_if(done && a is MarkDone)
            &&& t.stats.failed == s.stats.failed + one_if(done && a is RecordFailure) + one_if(
                gives_source_up(env, s, e),
            )
            &&& t.stats.tagged == s.stats.tagged + one_if(
                done && e == EventView::Tagged(TagKind::Enriched),
            )
            &&& t.stats.tag_no_match == s.stats.tag_no_match + one_if(
                done && e == EventView::Tagged(TagKind::NoMatch),
            )
            &&& t.stats.tag_skipped == s.stats.tag_skipped + one_if(
                done && e == EventView::Tagged(TagKind::Skipped),
            )
            &&& t.stats.skipped_sources == s.stats.skipped_sources
        }),
{
}

/// The counters tell what happened: `ok` is the number of items recorded as done, `failed` the
/// number recorded as failed and of sources given up, and the tag counters the number of files
/// tagged with each outcome. Nothing is ever counted as a skipped source.
pub proof fn law_counters_tell_what_happened(env: SyncEnv, events: Seq<EventView>)
    ensures
        ({
            let stats = after(env, start(env), events).stats;
            &&& stats.ok == times(
                env,
                start(env),
                events,
                |a: ActionView, e: EventView| a is MarkDone,
            )
            &&& stats.failed == times(
                env,
                start(env),
                events,
                |a: ActionView, e: EventView| a is RecordFailure,
            ) + sources_given_up(env, start(env), events)
            &&& stats.tagged == times(
                env,
                start(env),
                events,
                |a: ActionView, e: EventView| e == EventView::Tagged(TagKind::Enriched),
            )
            &&& stats.tag_no_match == times(
                env,
                start(env),
                events,
                |a: ActionView, e: EventView| e == EventView::Tagged(TagKind::NoMatch),
            )
            &&& stats.tag_skipped == times(
                env,
                start(env),
                events,
                |a: ActionView, e: EventView| e == EventView::Tagged(TagKind::Skipped),
            )
            &&& stats.skipped_sources == 0
        }),
    decreases events.len(),
{
    if events.len() > 0 {
        law_counters_tell_what_happened(env, events.drop_last());
        lemma_counts_of_step(env, after(env, start(env), events.drop_last()), events.last());
    }
}

/// No counter ever goes down.
pub proof fn law_counters_never_go_down(env: SyncEnv, s: SyncState, events: Seq<EventView>)
    ensures
        ({
            let stats = after(env, s, events).stats;
            &&& s.stats.ok <= stats.ok
            &&& s.stats.failed <= stats.failed
            &&& s.stats.tagged <= stats.tagged
            &&& s.stats.tag_no_match <= stats.tag_no_match
            &&& s.stats.tag_skipped <= stats.tag_skipped
        }),
    decreases events.len(),
{
    if events.len() > 0 {
        law_counters_never_go_down(env, s, events.drop_last());
    }
}

/// Only items that were downloaded are tagged, each at most once.
pub proof fn law_tagging_follows_success(env: SyncEnv, events: Seq<EventView>)
    ensures
        ({
            let s = after(env, start(env), events);
            s.stats.tagged + s.stats.tag_no_match + s.stats.tag_skipped + one_if(
                s.phase is Tagging,
            ) <= s.stats.ok
        }),
    decreases events.len(),
{
    if events.len() > 0 {
        law_tagging_follows_success(env, events.drop_last());
    }
}

/// Whether an event, where it speaks of a shutdown, says that one is asked for.
pub open spec fn reports_shutdown(e: EventView) -> bool {
    match e {
        EventView::ShutdownPolled(down) => down,
        EventView::AttemptChecked { shutdown, .. } => shutdown,
        _ => true,
    }
}

/// Once a shutdown is asked for, no source is begun and no download is started any more.
pub proof fn law_shutdown_stops_new_work(env: SyncEnv, s: SyncState, events: Seq<EventView>)
    requires
        s.phase !is Listing,
        s.phase !is Downloading,
        forall|i: int| 0 <= i < events.len() ==> reports_shutdown(#[trigger] events[i]),
    ensures
        after(env, s, events).phase !is Listing,
        after(env, s, events).phase !is Downloading,
    decreases events.len(),
{
    if events.len() > 0 {
        let rest = events.drop_last();
        assert forall|i: int| 0 <= i < rest.len() implies reports_shutdown(#[trigger] rest[i]) by {
            assert(rest[i] == events[i]);
        }
        law_shutdown_stops_new_work(env, s, rest);
        assert(reports_shutdown(events[events.len() - 1]));
    }
}

/// A download starts only while no shutdown is asked for and the item has time left.
pub proof fn law_download_needs_time(env: SyncEnv, s: SyncState, e: EventView)
    requires
        s.phase !is Downloading,
        step(env, s, e).phase is Downloading,
    ensures
        s.phase is BeforeAttempt,
        match e {
            EventView::AttemptChecked { shutdown, elapsed_secs } => !shutdown && elapsed_secs
                < env.budget_secs,
            _ => false,
        },
{
}

/// How many downloads are made before the machine is done with the attempts at an item.
pub open spec fn downloads_of_item(env: SyncEnv, s: SyncState, events: Seq<EventView>) -> nat
    decreases events.len(),
{
    if events.len() == 0 || !on_attempt(s.phase) {
        0
    } else {
        downloads_of_item(env, step(env, s, events.first()), events.drop_first())
            + one_if(s.phase is Downloading && events.first() is Downloaded)
    }
}

/// An item is downloaded at most as often as there are retries, and once more.
pub proof fn law_attempts_are_bounded(env: SyncEnv, s: SyncState, events: Seq<EventView>)
    requires
        valid(env, s),
        s.phase is BeforeAttempt,
        s.attempt == 1,
    ensures
        downloads_of_item(env, s, events) <= env.retries + 1,
{
    lemma_downloads(env, s, events);
}

proof fn lemma_downloads(env: SyncEnv, s: SyncState, events: Seq<EventView>)
    requires
        valid(env, s),
        on_attempt(s.phase),
    ensures
        downloads_of_item(env, s, events) <= attempts(env) - s.attempt + one_if(
            s.phase is BeforeAttempt || s.phase is Downloading,
        ),
    decreases events.len(),
{
    if events.len() > 0 {
        let t = step(env, s, events.first());
        lemma_step_keeps_valid(env, s, events.first());
        if on_attempt(t.phase) {
            lemma_downloads(env, t, events.drop_first());
        } else {
            assert(downloads_of_item(env, t, events.drop_first()) == 0);
        }
    }
}

/// Whether the database was asked of an entry, and said that it is new.
pub open spec fn found_new(
    env: SyncEnv,
    events: Seq<EventView>,
    k: int,
    video_id: Seq<char>,
    mode: ItemMode,
) -> bool {
    let t = after(env, start(env), events.take(k));
    &&& 0 <= k < events.len()
    &&& action(env, t) == (ActionView::CheckDone { video_id, mode })
    &&& events[k] == EventView::DoneChecked(DoneCheck::New)
}

/// Only entries of which the database said that they are new are downloaded: what it knows, and
/// what it could not be asked of, is left alone.
pub proof fn law_only_new_entries_are_downloaded(env: SyncEnv, events: Seq<EventView>)
    requires
        on_item(after(env, start(env), events).phase),
    ensures
        ({
            let s = after(env, start(env), events);
            exists|k: int| found_new(env, events, k, item_at(s).id, mode_at(env, s))
        }),
{
    law_cycle_stays_valid(env, events);
    let s = after(env, start(env), events);
    lemma_fresh_were_found_new(env, events, s.item);
    let k = choose|k: int|
        found_new(env, events, k, s.listing[s.fresh[s.item]].id, mode_at(env, s));
    assert(found_new(env, events, k, item_at(s).id, mode_at(env, s)));
}

proof fn lemma_fresh_were_found_new(env: SyncEnv, events: Seq<EventView>, i: int)
    requires
        0 <= i < after(env, start(env), events).fresh.len(),
        after(env, start(env), events).phase !is Finished,
    ensures
        ({
            let s = after(env, start(env), events);
            exists|k: int|
                found_new(env, events, k, s.listing[s.fresh[i]].id, mode_at(env, s))
        }),
    decreases events.len(),
{
    if events.len() > 0 {
        let rest = events.drop_last();
        let t = after(env, start(env), rest);
        let s = after(env, start(env), events);
        law_cycle_stays_valid(env, rest);
        let id = s.listing[s.fresh[i]].id;
        let mode = mode_at(env, s);
        if i < t.fresh.len() && t.phase !is Finished {
            lemma_fresh_were_found_new(env, rest, i);
            let k = choose|k: int| found_new(env, rest, k, id, mode);
            assert(rest.take(k) =~= events.take(k));
            assert(found_new(env, events, k, id, mode));
        } else {
            let k = events.len() - 1;
            assert(events.take(k) =~= rest);
            assert(found_new(env, events, k, id, mode));
        }
    }
}

/// How far a source has come, from its beginning to its end.
pub open spec fn stage(p: Phase) -> int {
    match p {
        Phase::BeforeSource => 6,
        Phase::Listing => 5,
        Phase::ListUpdating => 4,
        Phase::Relisting => 3,
        Phase::Checking => 2,
        Phase::Finished => 0,
        _ => 1,
    }
}

/// How many attempts at the item are still to come.
pub open spec fn attempts_left(env: SyncEnv, s: SyncState) -> int {
    if on_attempt(s.phase) {
        attempts(env) - s.attempt + 1
    } else if s.phase is BeforeItem {
        attempts(env) + 1
    } else {
        0
    }
}

/// How far an attempt has come.
pub open spec fn attempt_stage(p: Phase) -> int {
    match p {
        Phase::BeforeAttempt => 3,
        Phase::Downloading => 2,
        Phase::Saving => 2,
        _ => 1,
    }
}

/// Every answer brings a cycle closer to its end: there are fewer sources left, or the source has
/// come further, or fewer entries are left to look up, or fewer items, or fewer attempts, or the
/// attempt has come further. So a cycle cannot go on for ever.
pub proof fn law_every_answer_is_progress(env: SyncEnv, s: SyncState, e: EventView)
    requires
        valid(env, s),
        answers(s.phase, e),
    ensures
        ({
            let t = step(env, s, e);
            decreases_to!(
                env.sources.len() - s.source, stage(s.phase), s.listing.len() - s.checked,
                s.fresh.len() - s.item, attempts_left(env, s), attempt_stage(s.phase)
                =>
                env.sources.len() - t.source, stage(t.phase), t.listing.len() - t.checked,
                t.fresh.len() - t.item, attempts_left(env, t), attempt_stage(t.phase)
            )
        }),
{
}

/// The cycle has an action to perform until it is over.
pub proof fn law_finish_is_the_end(env: SyncEnv, s: SyncState, e: EventView)
    ensures
        action(env, s) is Finish <==> s.phase is Finished,
        s.phase is Finished ==> step(env, s, e) == s,
        !answers(s.phase, e) ==> step(env, s, e) == s,
{
}

/// Sources are taken one after another, in the order of the configuration: a step stays with the
/// source at hand or goes on to the one behind it, before which the cycle stops to ask for a
/// shutdown; a source is not left before it was begun; and it is begun once, by the first listing.
pub proof fn law_sources_in_order(env: SyncEnv, s: SyncState, e: EventView)
    ensures
        ({
            let t = step(env, s, e);
            &&& t.source == s.source || t.source == s.source + 1
            &&& t.source != s.source ==> t.phase is BeforeSource || t.phase is Finished
            &&& s.phase is BeforeSource ==> t.source == s.source
            &&& s.phase is BeforeSource && t.phase is Finished ==> e == EventView::ShutdownPolled(
                true,
            )
            &&& t.phase is Listing && s.phase !is Listing ==> s.phase is BeforeSource && t.source
                == s.source
        }),
{
}

/// Whether the first listing of a source was asked for after so many of the events.
pub open spec fn listed_after(env: SyncEnv, events: Seq<EventView>, k: int, source: int) -> bool {
    let t = after(env, start(env), events.take(k));
    &&& 0 <= k <= events.len()
    &&& t.phase is Listing
    &&& action(env, t) == (ActionView::ListPlaylist {
        source: env.sources[source].name,
        url: env.sources[source].url,
    })
}

/// No source is passed over: once the cycle has come to a source, each one before it was listed.
pub proof fn law_no_source_is_passed_over(env: SyncEnv, events: Seq<EventView>, source: int)
    requires
        0 <= source < after(env, start(env), events).source,
    ensures
        exists|k: int| listed_after(env, events, k, source),
{
    lemma_begun_sources_were_listed(env, events, source);
}

/// How many sources the cycle has begun.
spec fn begun(s: SyncState) -> int {
    if s.phase is BeforeSource || s.phase is Finished {
        s.source
    } else {
        s.source + 1
    }
}

proof fn lemma_begun_sources_were_listed(env: SyncEnv, events: Seq<EventView>, source: int)
    requires
        0 <= source < begun(after(env, start(env), events)),
    ensures
        exists|k: int| listed_after(env, events, k, source),
    decreases events.len(),
{
    if events.len() > 0 {
        let rest = events.drop_last();
        let t = after(env, start(env), rest);
        let s = after(env, start(env), events);
        if source < begun(t) {
            lemma_begun_sources_were_listed(env, rest, source);
            let k = choose|k: int| listed_after(env, rest, k, source);
            assert(rest.take(k) =~= events.take(k));
            assert(listed_after(env, events, k, source));
        } else {
            assert(s.phase is Listing && s.source == source);
            assert(events.take(events.len() as int) =~= events);
            assert(listed_after(env, events, events.len() as int, source));
        }
    }
}

/// Only audio is tagged, and only where tagging is possible; without it items are downloaded all the
/// same.
pub proof fn law_only_audio_is_tagged(env: SyncEnv, events: Seq<EventView>)
    ensures
        ({
            let s = after(env, start(env), events);
            action(env, s) is Tag ==> env.tagging && mode_at(env, s) == ItemMode::Audio
        }),
{
    law_cycle_stays_valid(env, events);
}

/// Whether an event closes the item at hand: it is on record, as done or as failed.
pub open spec fn closes_item(env: SyncEnv, s: SyncState, e: EventView) -> bool {
    answers(s.phase, e) && (action(env, s) is MarkDone || action(env, s) is RecordFailure)
}

/// The new items of a source are closed one by one, in their order, and none is passed over: while
/// the source lasts, the position of the item at hand is the number of items closed.
pub proof fn law_items_are_closed_in_turn(env: SyncEnv, s: SyncState, e: EventView)
    requires
        valid(env, s),
        on_item(s.phase),
        step(env, s, e).source == s.source,
    ensures
        ({
            let t = step(env, s, e);
            &&& on_item(t.phase)
            &&& t.listing == s.listing
            &&& t.fresh == s.fresh
            &&& t.item + one_if(t.phase is Tagging) == s.item + one_if(s.phase is Tagging) + one_if(
                closes_item(env, s, e),
            )
        }),
{
}

/// A source is left once its last new item was closed, or where a shutdown is asked for before an
/// item.
pub proof fn law_source_is_left_when_done(env: SyncEnv, s: SyncState, e: EventView)
    requires
        valid(env, s),
        on_item(s.phase),
        step(env, s, e).source != s.source,
    ensures
        step(env, s, e).source == s.source + 1,
        (s.phase is BeforeItem && e == EventView::ShutdownPolled(true)) || (s.item + 1
            == s.fresh.len() && (closes_item(env, s, e) || s.phase is Tagging)),
{
}

/// Every successful listing of a source, the first or the one repeated after an update, makes its
/// entries the entries at hand, of which none is looked up yet. An empty one ends the source.
pub proof fn law_successful_listing_is_taken_up(
    env: SyncEnv,
    s: SyncState,
    entries: Seq<PlaylistEntryView>,
)
    requires
        s.phase is Listing || s.phase is Relisting,
    ensures
        ({
            let t = step(env, s, EventView::Listed(Ok(entries)));
            &&& t.stats == s.stats
            &&& t.updated == s.updated
            &&& entries.len() > 0 ==> {
                &&& t.phase is Checking
                &&& t.listing == entries
                &&& t.checked == 0
                &&& t.fresh.len() == 0
                &&& t.source == s.source
            }
            &&& entries.len() == 0 ==> t.source == s.source + 1
        }),
{
}

/// A listing that fails is repeated once, after an update, where the error looks like an outdated
/// extractor, updates are on and there was none yet. Otherwise the source is given up, and that is
/// one failure.
pub proof fn law_failed_listing_is_repeated_or_counted(
    env: SyncEnv,
    s: SyncState,
    err: YtDlpErrorView,
)
    requires
        s.phase is Listing || s.phase is Relisting,
    ensures
        ({
            let t = step(env, s, EventView::Listed(Err(err)));
            let again = step(env, t, EventView::Updated);
            if s.phase is Listing && err.looks_like_extractor && !s.updated
                && env.update_on_extract_error {
                &&& action(env, t) is UpdateYtDlp
                &&& t.source == s.source
                &&& t.stats.failed == s.stats.failed
                &&& again.phase is Relisting
                &&& again.source == s.source
                &&& again.updated
                &&& again.stats == t.stats
                &&& action(env, again) == action(env, s)
            } else {
                &&& t.source == s.source + 1
                &&& t.updated == s.updated
                &&& t.stats.failed == s.stats.failed + 1
            }
        }),
{
}

/// Each entry of a listing is looked up in turn, under its id and the mode of its source, and just
/// those that the database calls new are kept. The source is not left before the last entry was
/// looked up, nor while a new one is waiting; and then the first new one is at hand.
pub proof fn law_each_entry_is_looked_up(env: SyncEnv, s: SyncState, d: DoneCheck)
    requires
        valid(env, s),
        s.phase is Checking,
    ensures
        ({
            let t = step(env, s, EventView::DoneChecked(d));
            &&& action(env, s) == (ActionView::CheckDone {
                video_id: s.listing[s.checked].id,
                mode: env.sources[s.source].mode,
            })
            &&& t.stats == s.stats
            &&& t.source == s.source || (t.source == s.source + 1 && s.checked + 1
                == s.listing.len() && s.fresh.len() == 0 && d != DoneCheck::New)
            &&& t.source == s.source ==> {
                &&& t.listing == s.listing
                &&& d == DoneCheck::New ==> t.fresh == s.fresh.push(s.checked)
                &&& d != DoneCheck::New ==> t.fresh == s.fresh
                &&& s.checked + 1 < s.listing.len() ==> t.phase is Checking && t.checked
                    == s.checked + 1
                &&& s.checked + 1 == s.listing.len() ==> t.phase is BeforeItem && t.item == 0
            }
        }),
{
}

/// An item is begun with its first attempt unless a shutdown is asked for.
pub proof fn law_item_is_begun(env: SyncEnv, s: SyncState)
    requires
        s.phase is BeforeItem,
    ensures
        ({
            let t = step(env, s, EventView::ShutdownPolled(false));
            &&& action(env, t) == (ActionView::CheckAttempt { attempt: 1 })
            &&& t.source == s.source
            &&& t.listing == s.listing
            &&& t.fresh == s.fresh
            &&& t.item == s.item
            &&& t.stats == s.stats
            &&& t.last_display.len() == 0
            &&& t.last_full.len() == 0
        }),
{
}

/// A source is begun with its listing unless a shutdown is asked for, which ends the cycle.
pub proof fn law_source_is_begun(env: SyncEnv, s: SyncState)
    requires
        s.phase is BeforeSource,
    ensures
        action(env, s) is PollShutdown,
        action(env, step(env, s, EventView::ShutdownPolled(false))) == (ActionView::ListPlaylist {
            source: env.sources[s.source].name,
            url: env.sources[s.source].url,
        }),
        step(env, s, EventView::ShutdownPolled(false)).stats == s.stats,
        step(env, s, EventView::ShutdownPolled(false)).updated == s.updated,
        action(env, step(env, s, EventView::ShutdownPolled(true))) is Finish,
        step(env, s, EventView::ShutdownPolled(true)).stats == s.stats,
{
}

/// A shutdown that is asked for before an item leaves the source, and counts nothing.
pub proof fn law_shutdown_leaves_the_source(env: SyncEnv, s: SyncState)
    requires
        s.phase is BeforeItem,
    ensures
        action(env, s) is PollShutdown,
        step(env, s, EventView::ShutdownPolled(true)).source == s.source + 1,
        step(env, s, EventView::ShutdownPolled(true)).stats == s.stats,
        step(env, s, EventView::ShutdownPolled(true)).updated == s.updated,
{
}

/// An attempt goes ahead where no shutdown is asked for and the item has time left, and nowhere
/// else; otherwise the item is given up.
pub proof fn law_attempt_goes_ahead(
    env: SyncEnv,
    s: SyncState,
    shutdown: bool,
    elapsed_secs: u64,
)
    requires
        s.phase is BeforeAttempt,
    ensures
        ({
            let t = step(env, s, EventView::AttemptChecked { shutdown, elapsed_secs });
            &&& action(env, t) is Download <==> !shutdown && elapsed_secs < env.budget_secs
            &&& action(env, t) is RecordFailure <==> shutdown || elapsed_secs >= env.budget_secs
            &&& t.source == s.source
            &&& t.item == s.item
            &&& t.fresh == s.fresh
            &&& t.listing == s.listing
            &&& t.attempt == s.attempt
            &&& t.stats == s.stats
            &&& shutdown && env.retries < u32::MAX ==> t.last_display == "attempt "@ + decimal(
                s.attempt as nat,
            ) + "/"@ + decimal((env.retries + 1) as nat) + ": "@ + "shutdown requested"@
            &&& shutdown ==> t.last_full == "shutdown requested before attempt"@
            &&& !shutdown ==> t.last_full == s.last_full
            &&& !shutdown && elapsed_secs >= env.budget_secs ==> t.last_display
                == "item budget of "@ + decimal(env.budget_secs as nat)
                + "s exhausted before attempt "@ + decimal(s.attempt as nat)
        }),
{
}

/// What is downloaded is the item at hand, as its source asks: audio into the directory for audio,
/// video into that for video, with the archive of the cycle and the quality of the source.
pub proof fn law_download_is_of_the_item(env: SyncEnv, s: SyncState)
    requires
        s.phase is Downloading,
    ensures
        match action(env, s) {
            ActionView::Download { video_id, mode, dest_dir, archive, quality } => {
                &&& video_id == s.listing[s.fresh[s.item]].id
                &&& mode == env.sources[s.source].mode
                &&& mode == ItemMode::Audio ==> dest_dir == env.audio_dir
                &&& mode == ItemMode::Video ==> dest_dir == env.video_dir
                &&& archive == env.archive
                &&& quality == env.sources[s.source].quality
            },
            _ => false,
        },
{
}

/// What was downloaded is recorded as done under its id, with its title and its file; what the
/// archive listed already is recorded without them. Then it counts, and a file of audio is tagged
/// where that is possible.
pub proof fn law_success_is_recorded(
    env: SyncEnv,
    s: SyncState,
    result: Option<DownloadResultView>,
)
    requires
        valid(env, s),
        s.phase is Downloading,
    ensures
        ({
            let t = step(env, s, EventView::Downloaded(Ok(result)));
            let u = step(env, t, EventView::Saved);
            &&& t.stats == s.stats
            &&& match action(env, t) {
                ActionView::MarkDone { video_id, source, mode, title, file_path } => {
                    &&& video_id == s.listing[s.fresh[s.item]].id
                    &&& source == env.sources[s.source].name
                    &&& mode == env.sources[s.source].mode
                    &&& match result {
                        Some(r) => title == Some(r.title) && file_path == r.file_path,
                        None => title is None && file_path == "(archive-hit)"@,
                    }
                },
                _ => false,
            }
            &&& u.stats.ok == s.stats.ok + 1
            &&& match result {
                Some(r) => if env.tagging && env.sources[s.source].mode == ItemMode::Audio {
                    action(env, u) == (ActionView::Tag { file_path: r.file_path })
                } else {
                    action(env, u) !is Tag
                },
                None => action(env, u) !is Tag,
            }
        }),
{
}

/// A failed attempt is followed by another one while there are attempts left: after an update of
/// yt-dlp where the error calls for one, else after a pause. Only the last one gives the item up.
pub proof fn law_failed_attempt_is_retried(env: SyncEnv, s: SyncState, err: YtDlpErrorView)
    requires
        valid(env, s),
        s.phase is Downloading,
    ensures
        ({
            let t = step(env, s, EventView::Downloaded(Err(err)));
            let update = err.looks_like_extractor && !s.updated && env.update_on_extract_error;
            let u = step(
                env,
                t,
                if update {
                    EventView::Updated
                } else {
                    EventView::Slept
                },
            );
            let last = s.attempt >= env.retries + 1 || s.attempt >= u32::MAX;
            &&& update <==> action(env, t) is UpdateYtDlp
            &&& !update && !last ==> action(env, t) == (ActionView::Sleep {
                secs: env.backoff_secs,
            })
            &&& !last ==> {
                &&& action(env, u) == (ActionView::CheckAttempt { attempt: s.attempt + 1 })
                &&& u.item == s.item
                &&& u.source == s.source
                &&& u.fresh == s.fresh
                &&& u.listing == s.listing
            }
            &&& last && update ==> action(env, u) is RecordFailure
            &&& last && !update ==> action(env, t) is RecordFailure
            &&& update ==> u.updated
            &&& u.stats.ok == s.stats.ok
            &&& u.stats.failed == s.stats.failed
        }),
{
}

/// The words about a failed attempt: the number of the attempt and of all attempts, the message, and
/// the error output, whole for the record and cut short for the log.
pub proof fn law_failed_attempt_is_told(env: SyncEnv, s: SyncState, err: YtDlpErrorView)
    requires
        valid(env, s),
        s.phase is Downloading,
        env.retries < u32::MAX,
    ensures
        ({
            let t = step(env, s, EventView::Downloaded(Err(err)));
            let label = "attempt "@ + decimal(s.attempt as nat) + "/"@ + decimal(
                (env.retries + 1) as nat,
            ) + ": "@;
            &&& t.last_full == label + (err.message + "\n--- stderr ---\n"@ + trimmed(err.stderr))
            &&& t.last_display == label + (err.message + " (stderr: "@ + first_chars(
                trimmed(err.stderr),
                300,
            ) + ")"@)
        }),
{
    let t = step(env, s, EventView::Downloaded(Err(err)));
    let label = "attempt "@ + decimal(s.attempt as nat) + "/"@ + decimal((env.retries + 1) as nat)
        + ": "@;
    assert(t.last_full =~= label + (err.message + "\n--- stderr ---\n"@ + trimmed(err.stderr)));
    assert(t.last_display =~= label + (err.message + " (stderr: "@ + first_chars(
        trimmed(err.stderr),
        300,
    ) + ")"@));
}

/// An item that was given up is recorded under its id with what was said of its last attempt, and
/// counts as one failure.
pub proof fn law_given_up_item_is_recorded(env: SyncEnv, s: SyncState)
    requires
        valid(env, s),
        s.phase is Recording,
    ensures
        action(env, s) == (ActionView::RecordFailure {
            video_id: s.listing[s.fresh[s.item]].id,
            source: env.sources[s.source].name,
            mode: env.sources[s.source].mode,
            display: s.last_display,
            full: s.last_full,
        }),
        step(env, s, EventView::Recorded).stats == (StatsView {
            failed: s.stats.failed + 1,
            ..s.stats
        }),
{
}

/// A cycle begins with the first source, where there is one, and with nothing counted.
pub proof fn law_cycle_begins_at_the_first_source(env: SyncEnv)
    ensures
        start(env).source == 0,
        start(env).phase is BeforeSource <==> env.sources.len() > 0,
        env.sources.len() == 0 ==> start(env).phase is Finished,
        !start(env).updated,
        start(env).stats == StatsView::zero(),
        StatsView::zero().ok == 0,
        StatsView::zero().failed == 0,
        StatsView::zero().tagged == 0,
        StatsView::zero().tag_no_match == 0,
        StatsView::zero().tag_skipped == 0,
        StatsView::zero().skipped_sources == 0,
        !StatsView::zero().cookies_suspicious,
        env.sources.len() > 0 ==> action(
            env,
            step(env, start(env), EventView::ShutdownPolled(false)),
        ) == (ActionView::ListPlaylist { source: env.sources[0].name, url: env.sources[0].url }),
{
}

/// A cycle goes by its configuration: every source under its name, URL, mode and quality, and the
/// limits and directories as they are set.
pub proof fn law_cycle_goes_by_its_configuration(cfg: Config, archive: Seq<char>, tagging: bool)
    ensures
        ({
            let env = env_of(cfg, archive, tagging);
            &&& env.sources.len() == cfg.sources@.len()
            &&& forall|i: int|
                0 <= i < cfg.sources@.len() ==> {
                    &&& (#[trigger] env.sources[i]).name == cfg.sources@[i].name@
                    &&& env.sources[i].url == cfg.sources@[i].url@
                    &&& env.sources[i].mode == ItemMode::Audio <==> cfg.sources@[i].mode
                        == SourceMode::Audio
                    &&& env.sources[i].quality == opt_text(cfg.sources@[i].quality)
                }
            &&& env.retries == cfg.retries
            &&& env.budget_secs == cfg.per_item_timeout_sec
            &&& env.backoff_secs == cfg.retry_backoff_sec
            &&& env.update_on_extract_error == cfg.yt_dlp.update_on_extract_error
            &&& env.audio_dir == cfg.output_audio_dir@
            &&& env.video_dir == cfg.output_video_dir@
            &&& env.archive == archive
            &&& env.tagging == tagging
        }),
{
}

/// Actions are seen field by field as they are, and so are the counters.
pub proof fn law_actions_are_seen_as_they_are(a: Action, stats: SyncStats)
    ensures
        match a {
            Action::ListPlaylist { source, url } => a@ == (ActionView::ListPlaylist {
                source: source@,
                url: url@,
            }),
            Action::CheckDone { video_id, mode } => a@ == (ActionView::CheckDone {
                video_id: video_id@,
                mode,
            }),
            Action::CheckAttempt { attempt } => a@ == (ActionView::CheckAttempt {
                attempt: attempt as int,
            }),
            Action::Download { video_id, mode, dest_dir, archive, quality } => a@
                == (ActionView::Download {
                video_id: video_id@,
                mode,
                dest_dir: dest_dir@,
                archive: archive@,
                quality: opt_text(quality),
            }),
            Action::Sleep { secs } => a@ == (ActionView::Sleep { secs }),
            Action::MarkDone { video_id, source, mode, title, file_path } => a@
                == (ActionView::MarkDone {
                video_id: video_id@,
                source: source@,
                mode,
                title: opt_text(title),
                file_path: file_path@,
            }),
            Action::Tag { file_path } => a@ == (ActionView::Tag { file_path: file_path@ }),
            Action::RecordFailure { video_id, source, mode, error } => a@
                == (ActionView::RecordFailure {
                video_id: video_id@,
                source: source@,
                mode,
                display: error.display@,
                full: error.full@,
            }),
            Action::PollShutdown => a@ is PollShutdown,
            Action::UpdateYtDlp => a@ is UpdateYtDlp,
            Action::Finish => a@ is Finish,
        },
        stats@.ok == stats.ok,
        stats@.failed == stats.failed,
        stats@.skipped_sources == stats.skipped_sources,
        stats@.tagged == stats.tagged,
        stats@.tag_no_match == stats.tag_no_match,
        stats@.tag_skipped == stats.tag_skipped,
        stats@.cookies_suspicious == stats.cookies_suspicious,
{
}

/// Events are seen as they are: a listing with all its entries, an error as an error, and a download
/// with what it left behind.
pub proof fn law_events_are_seen_as_they_are(e: Event)
    ensures
        match e {
            Event::ShutdownPolled(b) => e@ == EventView::ShutdownPolled(b),
            Event::Listed(Ok(v)) => e@ matches EventView::Listed(Ok(seen)) && seen.len()
                == v@.len() && (forall|i: int|
                0 <= i < seen.len() ==> (#[trigger] seen[i]) == v@[i]@),
            Event::Listed(Err(err)) => e@ == EventView::Listed(Err(err@)),
            Event::Updated => e@ is Updated,
            Event::DoneChecked(d) => e@ == EventView::DoneChecked(d),
            Event::AttemptChecked { shutdown, elapsed_secs } => e@ == (EventView::AttemptChecked {
                shutdown,
                elapsed_secs,
            }),
            Event::Downloaded(Ok(Some(d))) => e@ == EventView::Downloaded(Ok(Some(d@))),
            Event::Downloaded(Ok(None)) => e@ == EventView::Downloaded(Ok(None)),
            Event::Downloaded(Err(err)) => e@ == EventView::Downloaded(Err(err@)),
            Event::Slept => e@ is Slept,
            Event::Saved => e@ is Saved,
            Event::Tagged(k) => e@ == EventView::Tagged(k),
            Event::Recorded => e@ is Recorded,
        },
{
}

} // verus!

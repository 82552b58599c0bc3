//! What holds of every run of the resolver, whatever the events: proved
//! over the model of its steps.

use vstd::prelude::*;
use crate::release::{
    cached_at, first_firmware_asset, fresh_at, is_firmware_name, lemma_first_firmware_asset,
    release_in, AssetView, CachedFirmwareView, ReleaseView, FRESHNESS_WINDOW_SECS,
};
use crate::model::{
    action_names_firmware, describe_local, download, initial, lemma_step_names_firmware,
    names_firmware, record_of, step_model, PhaseView, ResolverView,
};
use crate::protocol::{
    bytes_of_reply, download_path, release_of_reply, ActionView, BinaryView, DownloadReplyView,
    EventView, Operation, OutcomeView, ReleaseReplyView, ResolveError,
};
use crate::scan::{local_override, ScannedEntryView};
use crate::text::joined;

verus! {

/// The state of a resolution after the first `k` of a run of events.
pub open spec fn state_at(r: ResolverView, events: Seq<EventView>, k: int) -> ResolverView
    decreases k,
{
    if k <= 0 {
        r
    } else {
        step_model(state_at(r, events, k - 1), events[k - 1]).0
    }
}

/// The action with which a resolution answers event `k` of a run.
pub open spec fn action_at(r: ResolverView, events: Seq<EventView>, k: int) -> ActionView {
    step_model(state_at(r, events, k), events[k]).1
}

/// How far a resolution has come: each phase has a rank, and the order of
/// the ranks is the order in which a resolution can pass through them.
pub open spec fn rank(phase: PhaseView) -> nat {
    match phase {
        PhaseView::AwaitScan => 0,
        PhaseView::AwaitOverrideRead { .. } => 1,
        PhaseView::AwaitReleaseCache => 2,
        PhaseView::AwaitReleaseFetch => 3,
        PhaseView::AwaitReleaseStore { .. } => 4,
        PhaseView::AwaitFirmwareCache { .. } => 5,
        PhaseView::AwaitCachedRead { .. } => 6,
        PhaseView::AwaitDownload { .. } => 7,
        PhaseView::AwaitFirmwareWrite { .. } => 8,
        PhaseView::AwaitFirmwareRecord { .. } => 9,
        PhaseView::Finished => 10,
    }
}

/// Whether an event reads the release cache and finds nothing fresh in it.
pub open spec fn finds_no_fresh_release(event: EventView) -> bool {
    event matches EventView::ReleaseCacheLoaded { cached, now } && !(cached matches Some(c)
        && fresh_at(c.fetched_at, now))
}

/// A step either rejects the event and changes nothing, or moves the
/// resolution to a phase of higher rank. So a resolution never returns to
/// a phase, and is over after at most ten answers.
pub proof fn lemma_step_advances(r: ResolverView, event: EventView)
    ensures
        step_model(r, event).1 is Rejected ==> step_model(r, event).0 == r,
        !(step_model(r, event).1 is Rejected) ==> rank(step_model(r, event).0.phase) > rank(
            r.phase,
        ),
        step_model(r, event).1 is Done <==> !(r.phase is Finished) && step_model(
            r,
            event,
        ).0.phase is Finished,
        step_model(r, event).0.op == r.op,
        step_model(r, event).0.cache_dir == r.cache_dir,
{
}

/// Along a run the rank never falls.
pub proof fn lemma_rank_never_falls(r: ResolverView, events: Seq<EventView>, i: int, j: int)
    requires
        0 <= i <= j,
    ensures
        rank(state_at(r, events, i).phase) <= rank(state_at(r, events, j).phase),
    decreases j - i,
{
    if i < j {
        lemma_rank_never_falls(r, events, i, j - 1);
        lemma_step_advances(state_at(r, events, j - 1), events[j - 1]);
    }
}

/// Once a run has finished, every later event is rejected.
pub proof fn lemma_finished_from(r: ResolverView, events: Seq<EventView>, i: int, k: int)
    requires
        0 <= i <= k,
        state_at(r, events, i).phase is Finished,
    ensures
        state_at(r, events, k) == state_at(r, events, i),
        action_at(r, events, k) is Rejected,
    decreases k - i,
{
    if i < k {
        lemma_finished_from(r, events, i, k - 1);
    }
}

/// The release host is asked exactly when the release cache was read and
/// held nothing fresh: a stale or absent record is never used, and a fresh
/// one always is.
pub proof fn lemma_fetch_iff_nothing_fresh(r: ResolverView, event: EventView)
    ensures
        step_model(r, event).1 is FetchRelease <==> r.phase is AwaitReleaseCache
            && finds_no_fresh_release(event),
{
}

/// A release fetched at `fetched` is stored under that time; and a
/// resolution that reads the stored release back within the freshness
/// window after `fetched`, at each reading of the release cache, never asks the
/// release host.
pub proof fn lemma_fresh_release_is_not_fetched_again(
    fetching: ResolverView,
    reply: ReleaseReplyView,
    fetched: nat,
    op: Operation,
    cache_dir: Seq<char>,
    events: Seq<EventView>,
    k: int,
)
    requires
        fetching.phase is AwaitReleaseFetch,
        release_of_reply(reply) is Ok,
        0 <= k < events.len(),
        forall|i: int|
            0 <= i < events.len() ==> (#[trigger] events[i] matches EventView::ReleaseCacheLoaded {
                cached,
                now,
            } ==> cached == Some(cached_at(release_of_reply(reply)->Ok_0, fetched)) && now
                < fetched + FRESHNESS_WINDOW_SECS),
    ensures
        step_model(fetching, EventView::ReleaseFetched { reply, now: fetched }).1
            == ActionView::StoreRelease(cached_at(release_of_reply(reply)->Ok_0, fetched)),
        !(action_at(initial(op, cache_dir), events, k) is FetchRelease),
{
    let r = state_at(initial(op, cache_dir), events, k);
    lemma_fetch_iff_nothing_fresh(r, events[k]);
}

/// A resolution asks the release host at most once.
pub proof fn lemma_at_most_one_fetch(r: ResolverView, events: Seq<EventView>, i: int, j: int)
    requires
        0 <= i < j,
        action_at(r, events, i) is FetchRelease,
    ensures
        !(action_at(r, events, j) is FetchRelease),
{
    lemma_fetch_iff_nothing_fresh(state_at(r, events, i), events[i]);
    assert(state_at(r, events, i + 1).phase is AwaitReleaseFetch);
    lemma_rank_never_falls(r, events, i + 1, j);
    lemma_fetch_iff_nothing_fresh(state_at(r, events, j), events[j]);
}

/// Where the cache directory holds an override, describing the latest
/// firmware describes the override, at once and whatever the caches and
/// the release host hold: nothing else is asked of the caller, and every
/// later event is rejected.
pub proof fn lemma_override_is_described(
    cache_dir: Seq<char>,
    entries: Seq<ScannedEntryView>,
    events: Seq<EventView>,
    k: int,
)
    requires
        local_override(entries) is Some,
        events.len() > 0,
        events[0] == EventView::Scanned(Some(entries)),
        0 < k,
    ensures
        action_at(initial(Operation::Describe, cache_dir), events, 0) == (ActionView::Done {
            outcome: OutcomeView::Described(describe_local(local_override(entries)->0)),
            cache_write_failed: false,
        }),
        action_at(initial(Operation::Describe, cache_dir), events, k) is Rejected,
{
    let start = initial(Operation::Describe, cache_dir);
    let done = state_at(start, events, 1);
    assert(state_at(start, events, 0) == start);
    assert(done.phase is Finished);
    lemma_finished_from(start, events, 1, k);
}

/// Where the cache directory holds an override whose file can be read,
/// fetching the latest firmware hands out that file under the override's
/// name, whatever the caches and the release host hold: the caller is
/// asked to read the file and nothing else, and every later event is
/// rejected.
pub proof fn lemma_override_is_served(
    cache_dir: Seq<char>,
    entries: Seq<ScannedEntryView>,
    data: Seq<u8>,
    events: Seq<EventView>,
    k: int,
)
    requires
        local_override(entries) is Some,
        events.len() > 1,
        events[0] == EventView::Scanned(Some(entries)),
        events[1] == EventView::FileRead(Some(data)),
        1 < k,
    ensures
        action_at(initial(Operation::Fetch, cache_dir), events, 0) == (ActionView::ReadFile {
            path: local_override(entries)->0.file_path,
        }),
        action_at(initial(Operation::Fetch, cache_dir), events, 1) == (ActionView::Done {
            outcome: OutcomeView::Binary(
                BinaryView { data, file_name: local_override(entries)->0.asset_name },
            ),
            cache_write_failed: false,
        }),
        action_at(initial(Operation::Fetch, cache_dir), events, k) is Rejected,
{
    let start = initial(Operation::Fetch, cache_dir);
    assert(state_at(start, events, 0) == start);
    let reading = state_at(start, events, 1);
    assert(reading.phase == PhaseView::AwaitOverrideRead { local: local_override(entries)->0 });
    let done = state_at(start, events, 2);
    assert(done.phase is Finished);
    lemma_finished_from(start, events, 2, k);
}

/// Where the stored firmware record names another tag or another asset
/// than the one selected, or where there is none, the stored file is not
/// read: the asset is downloaded from its URL.
pub proof fn lemma_mismatched_record_forces_download(
    r: ResolverView,
    tag: Seq<char>,
    asset: AssetView,
    cached: Option<CachedFirmwareView>,
)
    requires
        r.phase == (PhaseView::AwaitFirmwareCache { tag, asset }),
        !(cached matches Some(c) && c.tag == tag && c.asset_name == asset.name),
    ensures
        step_model(r, EventView::FirmwareCacheLoaded(cached)) == download(r, tag, asset),
        step_model(r, EventView::FirmwareCacheLoaded(cached)).1 == (ActionView::Download {
            url: asset.browser_download_url,
        }),
{
}

/// The stored firmware file is read only for a record that names the tag
/// and the asset selected, and then it is the record's file that is read.
pub proof fn lemma_cached_file_is_read_only_on_match(r: ResolverView, event: EventView)
    requires
        r.phase is AwaitFirmwareCache,
        step_model(r, event).1 is ReadFile,
    ensures
        event matches EventView::FirmwareCacheLoaded(Some(c)) && c.tag
            == r.phase->AwaitFirmwareCache_tag && c.asset_name
            == r.phase->AwaitFirmwareCache_asset.name && step_model(r, event).1
            == (ActionView::ReadFile { path: c.file_path }),
{
}

/// What a download brings is what is handed out, and no record is stored
/// of a file that was not written. The bytes are to be written under the
/// asset's name in the cache directory. Where that succeeds, the record of
/// the tag, the asset, the length of the bytes, the time and that path is
/// stored next; where it fails, no record is asked for. Either way the
/// outcome is the downloaded bytes under the asset's name.
pub proof fn lemma_download_is_written_recorded_and_served(
    r: ResolverView,
    tag: Seq<char>,
    asset: AssetView,
    reply: DownloadReplyView,
    now: nat,
    stored: bool,
)
    requires
        r.phase == (PhaseView::AwaitDownload { tag, asset }),
        bytes_of_reply(reply) is Some,
    ensures
        ({
            let data = bytes_of_reply(reply)->0;
            let path = joined(r.cache_dir, asset.name);
            let file = BinaryView { data, file_name: asset.name };
            let (writing, write) = step_model(r, EventView::Downloaded { download: reply, now });
            let (recording, record) = step_model(writing, EventView::Stored(true));
            &&& write == (ActionView::WriteFirmware { file_path: path, data })
            &&& record == ActionView::StoreFirmwareRecord(record_of(tag, asset, data, now, path))
            &&& record_of(tag, asset, data, now, path).size == data.len()
            &&& step_model(recording, EventView::Stored(stored)).1 == (ActionView::Done {
                outcome: OutcomeView::Binary(file),
                cache_write_failed: r.cache_write_failed || !stored,
            })
            &&& step_model(writing, EventView::Stored(false)).1 == (ActionView::Done {
                outcome: OutcomeView::Binary(file),
                cache_write_failed: true,
            })
        }),
{
}

/// Where the cache directory holds an override whose file cannot be read,
/// fetching the latest firmware fails with `LocalIoFailure`, which the
/// service answers with 500: the override is not passed over for what the
/// caches or upstream hold, and every later event is rejected.
pub proof fn lemma_unreadable_override_fails(
    cache_dir: Seq<char>,
    entries: Seq<ScannedEntryView>,
    events: Seq<EventView>,
    k: int,
)
    requires
        local_override(entries) is Some,
        events.len() > 1,
        events[0] == EventView::Scanned(Some(entries)),
        events[1] == EventView::FileRead(None),
        1 < k,
    ensures
        ResolveError::LocalIoFailure.status() == 500,
        action_at(initial(Operation::Fetch, cache_dir), events, 0) == (ActionView::ReadFile {
            path: local_override(entries)->0.file_path,
        }),
        action_at(initial(Operation::Fetch, cache_dir), events, 1) == (ActionView::Done {
            outcome: OutcomeView::Failed(ResolveError::LocalIoFailure),
            cache_write_failed: false,
        }),
        action_at(initial(Operation::Fetch, cache_dir), events, k) is Rejected,
{
    let start = initial(Operation::Fetch, cache_dir);
    assert(state_at(start, events, 0) == start);
    let reading = state_at(start, events, 1);
    assert(reading.phase == PhaseView::AwaitOverrideRead { local: local_override(entries)->0 });
    let done = state_at(start, events, 2);
    assert(done.phase is Finished);
    lemma_finished_from(start, events, 2, k);
}

/// A release none of whose assets is named like firmware ends the
/// resolution with `AssetNotFound`, which the service answers with 404,
/// whether the release came from the cache or from the release host.
pub proof fn lemma_no_firmware_asset_is_not_found(
    r: ResolverView,
    release: ReleaseView,
    fetched_at: nat,
    now: nat,
    reply: ReleaseReplyView,
    stored: bool,
)
    requires
        forall|i: int|
            0 <= i < release.assets.len() ==> !is_firmware_name(#[trigger] release.assets[i].name),
    ensures
        ResolveError::AssetNotFound.status() == 404,
        r.phase is AwaitReleaseCache && fresh_at(fetched_at, now) ==> step_model(
            r,
            EventView::ReleaseCacheLoaded { cached: Some(cached_at(release, fetched_at)), now },
        ).1 == (ActionView::Done {
            outcome: OutcomeView::Failed(ResolveError::AssetNotFound),
            cache_write_failed: r.cache_write_failed,
        }),
        r.phase is AwaitReleaseFetch && release_of_reply(reply) == Ok::<
            ReleaseView,
            ResolveError,
        >(release) ==> step_model(
            step_model(r, EventView::ReleaseFetched { reply, now }).0,
            EventView::Stored(stored),
        ).1 == (ActionView::Done {
            outcome: OutcomeView::Failed(ResolveError::AssetNotFound),
            cache_write_failed: r.cache_write_failed || !stored,
        }),
{
    lemma_first_firmware_asset(release.assets);
    assert(first_firmware_asset(release.assets) is None);
    assert(release_in(cached_at(release, fetched_at)) == release);
}

/// A release put into the cache and taken out again is the same release.
pub proof fn lemma_cached_release_round_trip(release: ReleaseView, now: nat)
    ensures
        release_in(cached_at(release, now)) == release,
        cached_at(release, now).fetched_at == now,
{
}

/// A failed answer of the release host ends the resolution with the error
/// that the answer amounts to; the stale record, if there was one, is not
/// used in its place.
pub proof fn lemma_failed_fetch_fails(r: ResolverView, reply: ReleaseReplyView, now: nat)
    requires
        r.phase is AwaitReleaseFetch,
        release_of_reply(reply) is Err,
    ensures
        step_model(r, EventView::ReleaseFetched { reply, now }).1 == (ActionView::Done {
            outcome: OutcomeView::Failed(release_of_reply(reply)->Err_0),
            cache_write_failed: r.cache_write_failed,
        }),
{
}

/// Every resolution, whatever the events, hands out and stores firmware
/// only: all along a run from the start, the state and the action keep to
/// firmware names.
pub proof fn lemma_run_names_firmware(
    op: Operation,
    cache_dir: Seq<char>,
    events: Seq<EventView>,
    k: int,
)
    requires
        0 <= k,
    ensures
        names_firmware(state_at(initial(op, cache_dir), events, k)),
        state_at(initial(op, cache_dir), events, k).cache_dir == cache_dir,
        action_names_firmware(cache_dir, action_at(initial(op, cache_dir), events, k)),
    decreases k,
{
    let start = initial(op, cache_dir);
    if k > 0 {
        lemma_run_names_firmware(op, cache_dir, events, k - 1);
        lemma_step_names_firmware(state_at(start, events, k - 1), events[k - 1]);
    }
    lemma_step_names_firmware(state_at(start, events, k), events[k]);
}

} // verus!

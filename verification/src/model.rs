//! The resolver's model: the state of a resolution and its steps, as
//! functions on views.
//!
//! The order of a resolution is fixed. A local override, where the cache
//! directory holds one, is used first and alone. Otherwise the release is
//! taken from the stored copy where that is fresh and fetched where it is
//! not; the firmware asset is picked from it; and, where the binary is
//! asked for, it is read from the stored file where the stored record
//! names the same tag and asset, and downloaded where it does not. What
//! was downloaded is written to the cache directory, and its record is
//! stored only once the file is written.

use vstd::prelude::*;
use crate::protocol::{
    bytes_of_reply, download_path, release_of_reply, ActionView, BinaryView, DownloadReplyView,
    EventView, Operation, OutcomeView, ReleaseReplyView, ResolveError, ResponseView,
};
use crate::release::{
    cached_at, first_firmware_asset, fresh_at, is_firmware_name, lemma_first_firmware_asset,
    release_in, AssetView, CachedFirmwareView, CachedReleaseView, ReleaseView,
};
use crate::scan::{
    lemma_override_exists_iff, local_override, LocalFirmwareView, ScannedEntryView,
};
use crate::text::joined;

verus! {

/// Where a resolution stands: which answer it waits for, with what it has
/// settled so far.
pub enum PhaseView {
    AwaitScan,
    AwaitOverrideRead { local: LocalFirmwareView },
    AwaitReleaseCache,
    AwaitReleaseFetch,
    AwaitReleaseStore { release: ReleaseView },
    AwaitFirmwareCache { tag: Seq<char>, asset: AssetView },
    AwaitCachedRead { tag: Seq<char>, asset: AssetView },
    AwaitDownload { tag: Seq<char>, asset: AssetView },
    AwaitFirmwareWrite { file: BinaryView, record: CachedFirmwareView },
    AwaitFirmwareRecord { file: BinaryView },
    Finished,
}

/// The state of a resolution.
pub struct ResolverView {
    pub op: Operation,
    pub cache_dir: Seq<char>,
    pub phase: PhaseView,
    pub cache_write_failed: bool,
}

/// The state in which a resolution begins, waiting for the listing of the
/// cache directory.
pub open spec fn initial(op: Operation, cache_dir: Seq<char>) -> ResolverView {
    ResolverView { op, cache_dir, phase: PhaseView::AwaitScan, cache_write_failed: false }
}

/// The state moved to another phase, with its action.
pub open spec fn proceed(r: ResolverView, phase: PhaseView, action: ActionView) -> (
    ResolverView,
    ActionView,
) {
    (ResolverView { phase, ..r }, action)
}

/// The resolution ended with an outcome.
pub open spec fn finish(r: ResolverView, outcome: OutcomeView) -> (ResolverView, ActionView) {
    proceed(
        r,
        PhaseView::Finished,
        ActionView::Done { outcome, cache_write_failed: r.cache_write_failed },
    )
}

/// The state with the result of a store taken in.
pub open spec fn noting(r: ResolverView, stored: bool) -> ResolverView {
    ResolverView { cache_write_failed: r.cache_write_failed || !stored, ..r }
}

/// The description of a local override.
pub open spec fn describe_local(local: LocalFirmwareView) -> ResponseView {
    ResponseView {
        tag: local.tag,
        asset_name: local.asset_name,
        size: local.size,
        download_path: download_path(),
    }
}

/// The description of an asset of the release tagged `tag`.
pub open spec fn describe_asset(tag: Seq<char>, asset: AssetView) -> ResponseView {
    ResponseView {
        tag,
        asset_name: asset.name,
        size: asset.size,
        download_path: download_path(),
    }
}

/// The override of a listing that may have failed.
pub open spec fn override_in(listing: Option<Seq<ScannedEntryView>>) -> Option<LocalFirmwareView> {
    match listing {
        Some(entries) => local_override(entries),
        None => None,
    }
}

/// Whether the stored firmware record is the one of this tag and asset.
pub open spec fn record_matches(
    cached: Option<CachedFirmwareView>,
    tag: Seq<char>,
    asset: AssetView,
) -> bool {
    cached matches Some(c) && c.tag == tag && c.asset_name == asset.name
}

/// The record of a firmware binary downloaded at `now` and written to
/// `file_path`.
pub open spec fn record_of(
    tag: Seq<char>,
    asset: AssetView,
    data: Seq<u8>,
    now: nat,
    file_path: Seq<char>,
) -> CachedFirmwareView {
    CachedFirmwareView {
        tag,
        asset_name: asset.name,
        size: data.len(),
        downloaded_at: now,
        file_path,
    }
}

/// The step taken once the release is known: pick the firmware asset and
/// describe it, or go on to the binary.
pub open spec fn with_release(r: ResolverView, release: ReleaseView) -> (
    ResolverView,
    ActionView,
) {
    match first_firmware_asset(release.assets) {
        None => finish(r, OutcomeView::Failed(ResolveError::AssetNotFound)),
        Some(asset) => match r.op {
            Operation::Describe => finish(
                r,
                OutcomeView::Described(describe_asset(release.tag_name, asset)),
            ),
            Operation::Fetch => proceed(
                r,
                PhaseView::AwaitFirmwareCache { tag: release.tag_name, asset },
                ActionView::LoadFirmwareCache,
            ),
        },
    }
}

/// The step that starts a download of the asset.
pub open spec fn download(r: ResolverView, tag: Seq<char>, asset: AssetView) -> (
    ResolverView,
    ActionView,
) {
    proceed(
        r,
        PhaseView::AwaitDownload { tag, asset },
        ActionView::Download { url: asset.browser_download_url },
    )
}

/// The step after the listing of the cache directory.
pub open spec fn after_scan(r: ResolverView, listing: Option<Seq<ScannedEntryView>>) -> (
    ResolverView,
    ActionView,
) {
    match override_in(listing) {
        Some(local) => match r.op {
            Operation::Describe => finish(r, OutcomeView::Described(describe_local(local))),
            Operation::Fetch => proceed(
                r,
                PhaseView::AwaitOverrideRead { local },
                ActionView::ReadFile { path: local.file_path },
            ),
        },
        None => proceed(r, PhaseView::AwaitReleaseCache, ActionView::LoadReleaseCache),
    }
}

/// The step after reading the override's file: the file is handed out,
/// and where it cannot be read the resolution fails. Nothing else takes
/// the place of an override.
pub open spec fn after_override_read(
    r: ResolverView,
    local: LocalFirmwareView,
    read: Option<Seq<u8>>,
) -> (ResolverView, ActionView) {
    match read {
        Some(data) => finish(
            r,
            OutcomeView::Binary(BinaryView { data, file_name: local.asset_name }),
        ),
        None => finish(r, OutcomeView::Failed(ResolveError::LocalIoFailure)),
    }
}

/// The step after loading the stored release.
pub open spec fn after_release_cache(
    r: ResolverView,
    cached: Option<CachedReleaseView>,
    now: nat,
) -> (ResolverView, ActionView) {
    match cached {
        Some(c) => if fresh_at(c.fetched_at, now) {
            with_release(r, release_in(c))
        } else {
            proceed(r, PhaseView::AwaitReleaseFetch, ActionView::FetchRelease)
        },
        None => proceed(r, PhaseView::AwaitReleaseFetch, ActionView::FetchRelease),
    }
}

/// The step after the release host answered.
pub open spec fn after_release_fetch(r: ResolverView, reply: ReleaseReplyView, now: nat) -> (
    ResolverView,
    ActionView,
) {
    match release_of_reply(reply) {
        Err(e) => finish(r, OutcomeView::Failed(e)),
        Ok(release) => proceed(
            r,
            PhaseView::AwaitReleaseStore { release },
            ActionView::StoreRelease(cached_at(release, now)),
        ),
    }
}

/// The step after loading the stored firmware record.
pub open spec fn after_firmware_cache(
    r: ResolverView,
    tag: Seq<char>,
    asset: AssetView,
    cached: Option<CachedFirmwareView>,
) -> (ResolverView, ActionView) {
    if record_matches(cached, tag, asset) {
        proceed(
            r,
            PhaseView::AwaitCachedRead { tag, asset },
            ActionView::ReadFile { path: cached->0.file_path },
        )
    } else {
        download(r, tag, asset)
    }
}

/// The step after reading the cached firmware file.
pub open spec fn after_cached_read(
    r: ResolverView,
    tag: Seq<char>,
    asset: AssetView,
    read: Option<Seq<u8>>,
) -> (ResolverView, ActionView) {
    match read {
        Some(data) => finish(r, OutcomeView::Binary(BinaryView { data, file_name: asset.name })),
        None => download(r, tag, asset),
    }
}

/// The step after the download answered: where it brought bytes, they are
/// to be written under the asset's name in the cache directory, and the
/// record of them is held back until they are.
pub open spec fn after_download(
    r: ResolverView,
    tag: Seq<char>,
    asset: AssetView,
    reply: DownloadReplyView,
    now: nat,
) -> (ResolverView, ActionView) {
    match bytes_of_reply(reply) {
        None => finish(r, OutcomeView::Failed(ResolveError::UpstreamUnavailable)),
        Some(data) => {
            let file_path = joined(r.cache_dir, asset.name);
            proceed(
                r,
                PhaseView::AwaitFirmwareWrite {
                    file: BinaryView { data, file_name: asset.name },
                    record: record_of(tag, asset, data, now, file_path),
                },
                ActionView::WriteFirmware { file_path, data },
            )
        },
    }
}

/// The step after the write of the firmware file: its record is stored
/// where the file was written. Where it was not, no record is stored, and
/// the resolution ends with the bytes all the same.
pub open spec fn after_firmware_write(
    r: ResolverView,
    file: BinaryView,
    record: CachedFirmwareView,
    written: bool,
) -> (ResolverView, ActionView) {
    if written {
        proceed(
            r,
            PhaseView::AwaitFirmwareRecord { file },
            ActionView::StoreFirmwareRecord(record),
        )
    } else {
        finish(noting(r, false), OutcomeView::Binary(file))
    }
}

/// One step of a resolution: the state and the action that follow from a
/// state and an event. An event that does not answer the pending action
/// changes nothing and is rejected.
pub open spec fn step_model(r: ResolverView, event: EventView) -> (ResolverView, ActionView) {
    match (r.phase, event) {
        (PhaseView::AwaitScan, EventView::Scanned(listing)) => after_scan(r, listing),
        (PhaseView::AwaitOverrideRead { local }, EventView::FileRead(read)) => {
            after_override_read(r, local, read)
        },
        (PhaseView::AwaitReleaseCache, EventView::ReleaseCacheLoaded { cached, now }) => {
            after_release_cache(r, cached, now)
        },
        (PhaseView::AwaitReleaseFetch, EventView::ReleaseFetched { reply, now }) => {
            after_release_fetch(r, reply, now)
        },
        (PhaseView::AwaitReleaseStore { release }, EventView::Stored(stored)) => with_release(
            noting(r, stored),
            release,
        ),
        (PhaseView::AwaitFirmwareCache { tag, asset }, EventView::FirmwareCacheLoaded(cached)) => {
            after_firmware_cache(r, tag, asset, cached)
        },
        (PhaseView::AwaitCachedRead { tag, asset }, EventView::FileRead(read)) => {
            after_cached_read(r, tag, asset, read)
        },
        (PhaseView::AwaitDownload { tag, asset }, EventView::Downloaded { download, now }) => {
            after_download(r, tag, asset, download, now)
        },
        (PhaseView::AwaitFirmwareWrite { file, record }, EventView::Stored(written)) => {
            after_firmware_write(r, file, record, written)
        },
        (PhaseView::AwaitFirmwareRecord { file }, EventView::Stored(stored)) => finish(
            noting(r, stored),
            OutcomeView::Binary(file),
        ),
        _ => (r, ActionView::Rejected),
    }
}

/// Whatever a resolution has settled on is named like firmware: the
/// override it reads, the asset it looks up, reads or downloads, and the
/// file it is about to hand out. And a record that is held back for a file
/// being written is the record of that file: of its name, of the length of
/// its bytes, and of its path under the cache directory.
pub open spec fn phase_names_firmware(cache_dir: Seq<char>, phase: PhaseView) -> bool {
    match phase {
        PhaseView::AwaitOverrideRead { local } => is_firmware_name(local.asset_name),
        PhaseView::AwaitFirmwareCache { asset, .. } => is_firmware_name(asset.name),
        PhaseView::AwaitCachedRead { asset, .. } => is_firmware_name(asset.name),
        PhaseView::AwaitDownload { asset, .. } => is_firmware_name(asset.name),
        PhaseView::AwaitFirmwareWrite { file, record } => {
            &&& is_firmware_name(file.file_name)
            &&& record.asset_name == file.file_name
            &&& record.size == file.data.len()
            &&& record.file_path == joined(cache_dir, file.file_name)
        },
        PhaseView::AwaitFirmwareRecord { file } => is_firmware_name(file.file_name),
        _ => true,
    }
}

/// The state of a resolution is well formed where its phase keeps to
/// firmware names. Every state that a resolution reaches is.
pub open spec fn names_firmware(r: ResolverView) -> bool {
    phase_names_firmware(r.cache_dir, r.phase)
}

/// What an action hands out or stores is named like firmware; a
/// description points to the download path; and a firmware record names
/// the path of its asset under the cache directory.
pub open spec fn action_names_firmware(cache_dir: Seq<char>, action: ActionView) -> bool {
    match action {
        ActionView::Done { outcome: OutcomeView::Described(response), .. } => {
            &&& is_firmware_name(response.asset_name)
            &&& response.download_path == download_path()
        },
        ActionView::Done { outcome: OutcomeView::Binary(file), .. } => is_firmware_name(
            file.file_name,
        ),
        ActionView::StoreFirmwareRecord(record) => {
            &&& is_firmware_name(record.asset_name)
            &&& record.file_path == joined(cache_dir, record.asset_name)
        },
        _ => true,
    }
}

/// A step keeps to firmware names: from a state that has settled on
/// firmware names only, so has the next state, and so does the action.
pub proof fn lemma_step_names_firmware(r: ResolverView, event: EventView)
    requires
        names_firmware(r),
    ensures
        names_firmware(step_model(r, event).0),
        action_names_firmware(r.cache_dir, step_model(r, event).1),
{
    match (r.phase, event) {
        (PhaseView::AwaitScan, EventView::Scanned(Some(entries))) => {
            lemma_override_exists_iff(entries);
        },
        (PhaseView::AwaitReleaseCache, EventView::ReleaseCacheLoaded { cached: Some(c), .. }) => {
            lemma_first_firmware_asset(c.assets);
        },
        (PhaseView::AwaitReleaseStore { release }, EventView::Stored(_)) => {
            lemma_first_firmware_asset(release.assets);
        },
        _ => {},
    }
}

/// A firmware record is stored only for a file that was written. A step
/// asks to store a record only as the answer to a write that succeeded,
/// and the record is then the one of the file written: of its name, the
/// length of its bytes and its path. And a step that begins to wait for a
/// write has asked for exactly that write: of the bytes to hand out, to
/// the path that the record names.
pub proof fn lemma_record_follows_the_write(r: ResolverView, event: EventView)
    requires
        names_firmware(r),
    ensures
        step_model(r, event).1 matches ActionView::StoreFirmwareRecord(record) ==> {
            &&& r.phase matches PhaseView::AwaitFirmwareWrite { file, record: held }
            &&& event == EventView::Stored(true)
            &&& record == held
            &&& record.asset_name == file.file_name
            &&& record.size == file.data.len()
            &&& record.file_path == joined(r.cache_dir, file.file_name)
        },
        r.phase is AwaitFirmwareWrite && event == EventView::Stored(false) ==> step_model(
            r,
            event,
        ).1 == (ActionView::Done {
            outcome: OutcomeView::Binary(r.phase->AwaitFirmwareWrite_file),
            cache_write_failed: true,
        }),
        !(step_model(r, event).1 is Rejected) ==> (step_model(
            r,
            event,
        ).0.phase matches PhaseView::AwaitFirmwareWrite { file, record } ==> step_model(r, event).1
            == (ActionView::WriteFirmware { file_path: record.file_path, data: file.data })),
{
}

} // verus!

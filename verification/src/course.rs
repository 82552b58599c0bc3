//! The course of a resolution in a given world.
//!
//! A world is what a resolution can observe: the listing of the cache
//! directory, the files that can be read, what is stored, what upstream
//! answers, the time, and which writes succeed. [`course`] says, as one
//! function of the world, every action that a resolution asks for and the
//! outcome it ends with; [`lemma_resolver_follows_the_course`] proves that
//! the resolver, answered by that world, does exactly this.

use vstd::prelude::*;
use crate::release::{
    cached_at, first_firmware_asset, fresh_at, release_in, AssetView, CachedFirmwareView,
    CachedReleaseView, ReleaseView,
};
use crate::model::{
    describe_asset, describe_local, initial, noting, override_in, record_matches, record_of,
    step_model, with_release, PhaseView, ResolverView,
};
use crate::protocol::{
    bytes_of_reply, release_of_reply, ActionView, BinaryView, DownloadReplyView, EventView,
    Operation, OutcomeView, ReleaseReplyView, ResolveError,
};
use crate::scan::ScannedEntryView;
use crate::text::joined;

verus! {

/// What a resolution can observe.
pub struct World {
    /// The listing of the cache directory, or `None` where it cannot be
    /// listed.
    pub listing: Option<Seq<ScannedEntryView>>,
    /// The files that can be read, by path, with their content.
    pub files: Map<Seq<char>, Seq<u8>>,
    /// The release that is stored, if any.
    pub stored_release: Option<CachedReleaseView>,
    /// The firmware record that is stored, if any.
    pub stored_firmware: Option<CachedFirmwareView>,
    /// What the release host answers.
    pub release_reply: ReleaseReplyView,
    /// What a download answers, by URL; no answer for any other URL.
    pub downloads: Map<Seq<char>, DownloadReplyView>,
    /// The time, in seconds since the Unix epoch.
    pub now: nat,
    /// Whether a release can be stored.
    pub release_stored: bool,
    /// Whether a firmware file can be written.
    pub firmware_written: bool,
    /// Whether a firmware record can be stored.
    pub record_stored: bool,
}

/// The content of the file at `path`, if it can be read.
pub open spec fn read_in(w: World, path: Seq<char>) -> Option<Seq<u8>> {
    if w.files.dom().contains(path) {
        Some(w.files[path])
    } else {
        None
    }
}

/// The answer to a download of `url`.
pub open spec fn download_in(w: World, url: Seq<char>) -> DownloadReplyView {
    if w.downloads.dom().contains(url) {
        w.downloads[url]
    } else {
        DownloadReplyView::NoResponse
    }
}

/// The event with which the world answers an action.
pub open spec fn answer(w: World, action: ActionView) -> EventView {
    match action {
        ActionView::ScanCacheDir => EventView::Scanned(w.listing),
        ActionView::ReadFile { path } => EventView::FileRead(read_in(w, path)),
        ActionView::LoadReleaseCache => EventView::ReleaseCacheLoaded {
            cached: w.stored_release,
            now: w.now,
        },
        ActionView::FetchRelease => EventView::ReleaseFetched {
            reply: w.release_reply,
            now: w.now,
        },
        ActionView::LoadFirmwareCache => EventView::FirmwareCacheLoaded(w.stored_firmware),
        ActionView::Download { url } => EventView::Downloaded {
            download: download_in(w, url),
            now: w.now,
        },
        ActionView::StoreRelease(_) => EventView::Stored(w.release_stored),
        ActionView::WriteFirmware { .. } => EventView::Stored(w.firmware_written),
        _ => EventView::Stored(w.record_stored),
    }
}

/// The actions that the resolver asks for when the world answers each of
/// them, from `action` on and for at most `steps` answers, up to and with
/// the action that ends the resolution.
pub open spec fn run_in(w: World, r: ResolverView, action: ActionView, steps: nat) -> Seq<
    ActionView,
>
    decreases steps,
{
    if steps == 0 || action is Done || action is Rejected {
        seq![action]
    } else {
        let (next, then) = step_model(r, answer(w, action));
        seq![action] + run_in(w, next, then, (steps - 1) as nat)
    }
}

/// The end of a resolution.
pub open spec fn done(outcome: OutcomeView, cache_write_failed: bool) -> Seq<ActionView> {
    seq![ActionView::Done { outcome, cache_write_failed }]
}

/// The course from the download on: the asset is downloaded, and where
/// that fails the resolution fails. Where it succeeds, the bytes are to be
/// written under the asset's name in the cache directory; the record of
/// them is stored only where they were written; and the bytes are handed
/// out whatever came of either.
pub open spec fn download_course(
    w: World,
    cache_dir: Seq<char>,
    tag: Seq<char>,
    asset: AssetView,
    failed_before: bool,
) -> Seq<ActionView> {
    let url = asset.browser_download_url;
    seq![ActionView::Download { url }] + match bytes_of_reply(download_in(w, url)) {
        None => done(OutcomeView::Failed(ResolveError::UpstreamUnavailable), failed_before),
        Some(data) => {
            let file_path = joined(cache_dir, asset.name);
            let file = BinaryView { data, file_name: asset.name };
            seq![ActionView::WriteFirmware { file_path, data }] + (if w.firmware_written {
                seq![
                    ActionView::StoreFirmwareRecord(
                        record_of(tag, asset, data, w.now, file_path),
                    ),
                ] + done(OutcomeView::Binary(file), failed_before || !w.record_stored)
            } else {
                done(OutcomeView::Binary(file), true)
            })
        },
    }
}

/// The course from the selection of the asset on. Without a firmware asset
/// the resolution fails. A description ends here. For the binary, the
/// stored record is looked up: where it names this tag and asset and its
/// file can be read, that file is handed out; otherwise the asset is
/// downloaded.
pub open spec fn asset_course(
    w: World,
    op: Operation,
    cache_dir: Seq<char>,
    release: ReleaseView,
    failed_before: bool,
) -> Seq<ActionView> {
    match first_firmware_asset(release.assets) {
        None => done(OutcomeView::Failed(ResolveError::AssetNotFound), failed_before),
        Some(asset) => match op {
            Operation::Describe => done(
                OutcomeView::Described(describe_asset(release.tag_name, asset)),
                failed_before,
            ),
            Operation::Fetch => seq![ActionView::LoadFirmwareCache] + (if record_matches(
                w.stored_firmware,
                release.tag_name,
                asset,
            ) {
                let path = w.stored_firmware->0.file_path;
                seq![ActionView::ReadFile { path }] + match read_in(w, path) {
                    Some(data) => done(
                        OutcomeView::Binary(BinaryView { data, file_name: asset.name }),
                        failed_before,
                    ),
                    None => download_course(w, cache_dir, release.tag_name, asset, failed_before),
                }
            } else {
                download_course(w, cache_dir, release.tag_name, asset, failed_before)
            }),
        },
    }
}

/// Whether the stored release is fresh.
pub open spec fn has_fresh_release(w: World) -> bool {
    w.stored_release matches Some(c) && fresh_at(c.fetched_at, w.now)
}

/// The course from the release on: the stored release is loaded and used
/// where it is fresh; otherwise the release host is asked, and its release
/// is stored under the time of the fetch before it is used. Where the
/// release host fails, the resolution fails.
pub open spec fn release_course(w: World, op: Operation, cache_dir: Seq<char>) -> Seq<
    ActionView,
> {
    seq![ActionView::LoadReleaseCache] + (if has_fresh_release(w) {
        asset_course(w, op, cache_dir, release_in(w.stored_release->0), false)
    } else {
        seq![ActionView::FetchRelease] + match release_of_reply(w.release_reply) {
            Err(e) => done(OutcomeView::Failed(e), false),
            Ok(release) => seq![ActionView::StoreRelease(cached_at(release, w.now))]
                + asset_course(w, op, cache_dir, release, !w.release_stored),
        }
    })
}

/// The course of a resolution: the cache directory is listed; an override
/// in it is described at once, or its file is read and handed out, and
/// where that file cannot be read the resolution fails. Only without an
/// override is the release turned to.
pub open spec fn course(w: World, op: Operation, cache_dir: Seq<char>) -> Seq<ActionView> {
    seq![ActionView::ScanCacheDir] + match override_in(w.listing) {
        Some(local) => match op {
            Operation::Describe => done(OutcomeView::Described(describe_local(local)), false),
            Operation::Fetch => seq![ActionView::ReadFile { path: local.file_path }]
                + match read_in(w, local.file_path) {
                Some(data) => done(
                    OutcomeView::Binary(BinaryView { data, file_name: local.asset_name }),
                    false,
                ),
                None => done(OutcomeView::Failed(ResolveError::LocalIoFailure), false),
            },
        },
        None => release_course(w, op, cache_dir),
    }
}

/// A run that has reached its end is that end alone.
proof fn lemma_run_ends(w: World, r: ResolverView, outcome: OutcomeView, failed: bool, steps: nat)
    ensures
        run_in(w, r, ActionView::Done { outcome, cache_write_failed: failed }, steps) == done(
            outcome,
            failed,
        ),
{
}

/// From the download on, the resolver follows the download course.
proof fn lemma_download_course(
    w: World,
    r: ResolverView,
    tag: Seq<char>,
    asset: AssetView,
    steps: nat,
)
    requires
        r.phase == (PhaseView::AwaitDownload { tag, asset }),
        steps >= 3,
    ensures
        run_in(w, r, ActionView::Download { url: asset.browser_download_url }, steps)
            == download_course(w, r.cache_dir, tag, asset, r.cache_write_failed),
{
    let asked = ActionView::Download { url: asset.browser_download_url };
    let (next, then) = step_model(r, answer(w, asked));
    match bytes_of_reply(download_in(w, asset.browser_download_url)) {
        None => {
            lemma_run_ends(
                w,
                next,
                OutcomeView::Failed(ResolveError::UpstreamUnavailable),
                r.cache_write_failed,
                (steps - 1) as nat,
            );
        },
        Some(data) => {
            let file = BinaryView { data, file_name: asset.name };
            let (written, after) = step_model(next, answer(w, then));
            assert(then is WriteFirmware);
            assert(run_in(w, next, then, (steps - 1) as nat) == seq![then] + run_in(
                w,
                written,
                after,
                (steps - 2) as nat,
            ));
            if w.firmware_written {
                let (last, end) = step_model(written, answer(w, after));
                assert(after is StoreFirmwareRecord);
                assert(run_in(w, written, after, (steps - 2) as nat) == seq![after] + run_in(
                    w,
                    last,
                    end,
                    (steps - 3) as nat,
                ));
                lemma_run_ends(
                    w,
                    last,
                    OutcomeView::Binary(file),
                    r.cache_write_failed || !w.record_stored,
                    (steps - 3) as nat,
                );
            } else {
                lemma_run_ends(w, written, OutcomeView::Binary(file), true, (steps - 2) as nat);
            }
        },
    }
}

/// From the selection of the asset on, the resolver follows the asset
/// course.
proof fn lemma_asset_course(w: World, r: ResolverView, release: ReleaseView, steps: nat)
    requires
        !(r.phase is Finished),
        steps >= 5,
    ensures
        ({
            let (next, then) = with_release(r, release);
            run_in(w, next, then, steps) == asset_course(
                w,
                r.op,
                r.cache_dir,
                release,
                r.cache_write_failed,
            )
        }),
{
    let (next, then) = with_release(r, release);
    match first_firmware_asset(release.assets) {
        None => {},
        Some(asset) => match r.op {
            Operation::Describe => {},
            Operation::Fetch => {
                let tag = release.tag_name;
                let (looked, after) = step_model(next, answer(w, then));
                assert(run_in(w, next, then, steps) == seq![then] + run_in(
                    w,
                    looked,
                    after,
                    (steps - 1) as nat,
                ));
                if record_matches(w.stored_firmware, tag, asset) {
                    let path = w.stored_firmware->0.file_path;
                    let (read, last) = step_model(looked, answer(w, after));
                    assert(run_in(w, looked, after, (steps - 1) as nat) == seq![after] + run_in(
                        w,
                        read,
                        last,
                        (steps - 2) as nat,
                    ));
                    match read_in(w, path) {
                        Some(data) => {},
                        None => {
                            lemma_download_course(w, read, tag, asset, (steps - 2) as nat);
                        },
                    }
                } else {
                    lemma_download_course(w, looked, tag, asset, (steps - 1) as nat);
                }
            },
        },
    }
}

/// From the release on, the resolver follows the release course.
proof fn lemma_release_course(w: World, r: ResolverView, steps: nat)
    requires
        r.phase is AwaitReleaseCache,
        !r.cache_write_failed,
        steps >= 8,
    ensures
        run_in(w, r, ActionView::LoadReleaseCache, steps) == release_course(w, r.op, r.cache_dir),
{
    let (next, then) = step_model(r, answer(w, ActionView::LoadReleaseCache));
    if has_fresh_release(w) {
        lemma_asset_course(w, r, release_in(w.stored_release->0), (steps - 1) as nat);
    } else {
        let (fetched, after) = step_model(next, answer(w, then));
        assert(run_in(w, next, then, (steps - 1) as nat) == seq![then] + run_in(
            w,
            fetched,
            after,
            (steps - 2) as nat,
        ));
        match release_of_reply(w.release_reply) {
            Err(e) => {},
            Ok(release) => {
                let (stored, last) = step_model(fetched, answer(w, after));
                assert(run_in(w, fetched, after, (steps - 2) as nat) == seq![after] + run_in(
                    w,
                    stored,
                    last,
                    (steps - 3) as nat,
                ));
                lemma_asset_course(
                    w,
                    noting(fetched, w.release_stored),
                    release,
                    (steps - 3) as nat,
                );
            },
        }
    }
}

/// The resolver, answered by a world, follows the course of that world:
/// it asks for exactly the actions of [`course`], in that order, and ends
/// with its outcome, within nine answers.
pub proof fn lemma_resolver_follows_the_course(
    w: World,
    op: Operation,
    cache_dir: Seq<char>,
    steps: nat,
)
    requires
        steps >= 9,
    ensures
        run_in(w, initial(op, cache_dir), ActionView::ScanCacheDir, steps) == course(
            w,
            op,
            cache_dir,
        ),
        course(w, op, cache_dir).last() is Done,
        course(w, op, cache_dir).len() <= 10,
{
    let start = initial(op, cache_dir);
    let (next, then) = step_model(start, answer(w, ActionView::ScanCacheDir));
    assert(run_in(w, start, ActionView::ScanCacheDir, steps) == seq![ActionView::ScanCacheDir]
        + run_in(w, next, then, (steps - 1) as nat));
    match override_in(w.listing) {
        Some(local) => match op {
            Operation::Describe => {
                assert(then is Done);
                assert(run_in(w, next, then, (steps - 1) as nat) == seq![then]);
            },
            Operation::Fetch => {
                let (read, last) = step_model(next, answer(w, then));
                assert(run_in(w, next, then, (steps - 1) as nat) == seq![then] + run_in(
                    w,
                    read,
                    last,
                    (steps - 2) as nat,
                ));
                match read_in(w, local.file_path) {
                    Some(data) => {
                        assert(last is Done);
                        assert(run_in(w, read, last, (steps - 2) as nat) == seq![last]);
                    },
                    None => {
                        assert(last is Done);
                        assert(run_in(w, read, last, (steps - 2) as nat) == seq![last]);
                    },
                }
            },
        },
        None => {
            assert(then == ActionView::LoadReleaseCache);
            lemma_release_course(w, next, (steps - 1) as nat);
        },
    }
    lemma_course_ends(w, op, cache_dir);
}

/// A course ends with the outcome, after at most nine other actions.
pub proof fn lemma_course_ends(w: World, op: Operation, cache_dir: Seq<char>)
    ensures
        course(w, op, cache_dir).last() is Done,
        course(w, op, cache_dir).len() <= 10,
{
}

/// Whether a course asks the release host.
pub open spec fn asks_release_host(actions: Seq<ActionView>) -> bool {
    exists|i: int| 0 <= i < actions.len() && #[trigger] actions[i] is FetchRelease
}

/// Whether a course asks for a download.
pub open spec fn asks_for_download(actions: Seq<ActionView>) -> bool {
    exists|i: int| 0 <= i < actions.len() && #[trigger] actions[i] is Download
}

/// Once the release is known, the release host is not asked.
proof fn lemma_asset_course_is_local_to_the_asset(
    w: World,
    op: Operation,
    cache_dir: Seq<char>,
    release: ReleaseView,
    failed_before: bool,
)
    ensures
        !asks_release_host(asset_course(w, op, cache_dir, release, failed_before)),
{
}

/// The release host is asked exactly where the release is turned to and
/// the stored release is not fresh: within the freshness window after a
/// fetch, no resolution asks it again. And where the cache directory holds
/// an override, neither the release host nor a download is asked for,
/// whether or not the override's file can be read.
pub proof fn lemma_course_spares_upstream(w: World, op: Operation, cache_dir: Seq<char>)
    ensures
        has_fresh_release(w) ==> !asks_release_host(course(w, op, cache_dir)),
        override_in(w.listing) is Some ==> !asks_release_host(course(w, op, cache_dir))
            && !asks_for_download(course(w, op, cache_dir)),
{
    if has_fresh_release(w) {
        lemma_asset_course_is_local_to_the_asset(
            w,
            op,
            cache_dir,
            release_in(w.stored_release->0),
            false,
        );
    }
}

} // verus!

//! The firmware resolver.
//!
//! A resolution alternates between decisions, which are made here, and work
//! on the file system and the network, which the caller does. The resolver
//! is a state machine: the caller performs the [`Action`] it is handed and
//! answers with the matching [`Event`], until the action is
//! [`Action::Done`]. What the machine does is given by [`step_model`].

use vstd::prelude::*;
use crate::model::{
    action_names_firmware, after_cached_read, after_download, after_firmware_cache,
    after_firmware_write, after_override_read, after_release_cache, after_release_fetch, after_scan, download, finish,
    initial, lemma_step_names_firmware, names_firmware, noting, phase_names_firmware, proceed,
    step_model, with_release, PhaseView, ResolverView,
};
use crate::protocol::{
    bytes_from_reply, bytes_view, release_from_reply, scanned_view, stored_firmware_view,
    stored_release_view, Action, ActionView, BinaryFile, DownloadReply, Event,
    FirmwareLatestResponse, Operation, Outcome, ReleaseReply, ResolveError,
};
use crate::release::{
    is_firmware_name, is_fresh, lemma_first_firmware_asset, select_app_asset, CachedFirmware,
    CachedRelease, GithubAsset, GithubRelease,
};
use crate::scan::{
    discover_local_firmware, lemma_override_exists_iff, listing_view, LocalFirmware,
    ScannedEntry,
};
use crate::text::join_path;

verus! {

/// The phase of a resolution, holding what has been settled so far.
enum Phase {
    AwaitScan,
    AwaitOverrideRead { local: LocalFirmware },
    AwaitReleaseCache,
    AwaitReleaseFetch,
    AwaitReleaseStore { release: GithubRelease },
    AwaitFirmwareCache { tag: String, asset: GithubAsset },
    AwaitCachedRead { tag: String, asset: GithubAsset },
    AwaitDownload { tag: String, asset: GithubAsset },
    AwaitFirmwareWrite { file: BinaryFile, record: CachedFirmware },
    AwaitFirmwareRecord { file: BinaryFile },
    Finished,
}

impl View for Phase {
    type V = PhaseView;

    closed spec fn view(&self) -> PhaseView {
        match self {
            Phase::AwaitScan => PhaseView::AwaitScan,
            Phase::AwaitOverrideRead { local } => PhaseView::AwaitOverrideRead { local: local@ },
            Phase::AwaitReleaseCache => PhaseView::AwaitReleaseCache,
            Phase::AwaitReleaseFetch => PhaseView::AwaitReleaseFetch,
            Phase::AwaitReleaseStore { release } => PhaseView::AwaitReleaseStore {
                release: release@,
            },
            Phase::AwaitFirmwareCache { tag, asset } => PhaseView::AwaitFirmwareCache {
                tag: tag@,
                asset: asset@,
            },
            Phase::AwaitCachedRead { tag, asset } => PhaseView::AwaitCachedRead {
                tag: tag@,
                asset: asset@,
            },
            Phase::AwaitDownload { tag, asset } => PhaseView::AwaitDownload {
                tag: tag@,
                asset: asset@,
            },
            Phase::AwaitFirmwareWrite { file, record } => PhaseView::AwaitFirmwareWrite {
                file: file@,
                record: record@,
            },
            Phase::AwaitFirmwareRecord { file } => PhaseView::AwaitFirmwareRecord {
                file: file@,
            },
            Phase::Finished => PhaseView::Finished,
        }
    }
}

/// A resolution under way.
pub struct Resolver {
    op: Operation,
    cache_dir: String,
    phase: Phase,
    cache_write_failed: bool,
}

impl View for Resolver {
    type V = ResolverView;

    closed spec fn view(&self) -> ResolverView {
        ResolverView {
            op: self.op,
            cache_dir: self.cache_dir@,
            phase: self.phase@,
            cache_write_failed: self.cache_write_failed,
        }
    }
}

impl Resolver {
    /// Whatever a resolver has settled on is named like firmware.
    #[verifier::type_invariant]
    spec fn settled_on_firmware(&self) -> bool {
        names_firmware(self@)
    }

    /// Begins a resolution over the cache directory `cache_dir`. The first
    /// thing to do is to list that directory.
    pub fn new(op: Operation, cache_dir: &str) -> (start: (Resolver, Action))
        ensures
            start.0@ == initial(op, cache_dir@),
            start.1@ == ActionView::ScanCacheDir,
    {
        let resolver = Resolver {
            op,
            cache_dir: cache_dir.to_owned(),
            phase: Phase::AwaitScan,
            cache_write_failed: false,
        };
        (resolver, Action::ScanCacheDir)
    }

    /// Begins a resolution that describes the latest firmware.
    pub fn describe_latest(cache_dir: &str) -> (start: (Resolver, Action))
        ensures
            start.0@ == initial(Operation::Describe, cache_dir@),
            start.1@ == ActionView::ScanCacheDir,
    {
        Resolver::new(Operation::Describe, cache_dir)
    }

    /// Begins a resolution that hands out the latest firmware binary.
    pub fn fetch_latest_binary(cache_dir: &str) -> (start: (Resolver, Action))
        ensures
            start.0@ == initial(Operation::Fetch, cache_dir@),
            start.1@ == ActionView::ScanCacheDir,
    {
        Resolver::new(Operation::Fetch, cache_dir)
    }

    /// What the resolution was asked for.
    pub fn operation(&self) -> (op: Operation)
        ensures
            op == self@.op,
    {
        self.op
    }

    /// Whether the resolution is over.
    pub fn is_finished(&self) -> (over: bool)
        ensures
            over == (self@.phase is Finished),
    {
        match self.phase {
            Phase::Finished => true,
            _ => false,
        }
    }

    /// Moves to `phase` and asks for `action`.
    fn go_to(self, phase: Phase, action: Action) -> (next: (Resolver, Action))
        requires
            phase_names_firmware(self@.cache_dir, phase@),
        ensures
            (next.0@, next.1@) == proceed(self@, phase@, action@),
    {
        let resolver = Resolver {
            op: self.op,
            cache_dir: self.cache_dir,
            phase,
            cache_write_failed: self.cache_write_failed,
        };
        (resolver, action)
    }

    /// Ends the resolution with `outcome`.
    fn end_with(self, outcome: Outcome) -> (next: (Resolver, Action))
        ensures
            (next.0@, next.1@) == finish(self@, outcome@),
    {
        let cache_write_failed = self.cache_write_failed;
        self.go_to(Phase::Finished, Action::Done { outcome, cache_write_failed })
    }

    /// Takes in whether a store succeeded.
    fn note(self, stored: bool) -> (noted: Resolver)
        ensures
            noted@ == noting(self@, stored),
    {
        proof {
            use_type_invariant(&self);
        }
        Resolver {
            op: self.op,
            cache_dir: self.cache_dir,
            phase: self.phase,
            cache_write_failed: self.cache_write_failed || !stored,
        }
    }

    /// Goes on with the release: picks its firmware asset, and describes
    /// it or looks up the stored firmware record.
    fn use_release(self, release: GithubRelease) -> (next: (Resolver, Action))
        ensures
            (next.0@, next.1@) == with_release(self@, release@),
    {
        proof {
            lemma_first_firmware_asset(release@.assets);
        }
        match select_app_asset(&release) {
            None => self.end_with(Outcome::Failed(ResolveError::AssetNotFound)),
            Some(asset) => match self.op {
                Operation::Describe => {
                    let response = FirmwareLatestResponse {
                        tag: release.tag_name,
                        asset_name: asset.name,
                        size: asset.size,
                        download_path: "/api/firmware/app".to_string(),
                    };
                    self.end_with(Outcome::Described(response))
                },
                Operation::Fetch => self.go_to(
                    Phase::AwaitFirmwareCache { tag: release.tag_name, asset },
                    Action::LoadFirmwareCache,
                ),
            },
        }
    }

    /// Asks for the download of the asset.
    fn start_download(self, tag: String, asset: GithubAsset) -> (next: (Resolver, Action))
        requires
            is_firmware_name(asset@.name),
        ensures
            (next.0@, next.1@) == download(self@, tag@, asset@),
    {
        let url = asset.browser_download_url.clone();
        self.go_to(Phase::AwaitDownload { tag, asset }, Action::Download { url })
    }

    /// Takes in the listing of the cache directory.
    fn on_scan(self, listing: Option<Vec<ScannedEntry>>) -> (next: (Resolver, Action))
        ensures
            (next.0@, next.1@) == after_scan(self@, scanned_view(listing)),
    {
        let found = match listing {
            Some(entries) => {
                proof {
                    lemma_override_exists_iff(listing_view(entries@));
                }
                discover_local_firmware(&entries)
            },
            None => None,
        };
        match found {
            Some(local) => match self.op {
                Operation::Describe => {
                    let response = FirmwareLatestResponse {
                        tag: local.tag,
                        asset_name: local.asset_name,
                        size: local.size,
                        download_path: "/api/firmware/app".to_string(),
                    };
                    self.end_with(Outcome::Described(response))
                },
                Operation::Fetch => {
                    let path = local.file_path.clone();
                    self.go_to(Phase::AwaitOverrideRead { local }, Action::ReadFile { path })
                },
            },
            None => self.go_to(Phase::AwaitReleaseCache, Action::LoadReleaseCache),
        }
    }

    /// Takes in the content of the override's file.
    fn on_override_read(self, local: LocalFirmware, read: Option<Vec<u8>>) -> (next: (
        Resolver,
        Action,
    ))
        ensures
            (next.0@, next.1@) == after_override_read(self@, local@, bytes_view(read)),
    {
        match read {
            Some(data) => self.end_with(
                Outcome::Binary(BinaryFile { data, file_name: local.asset_name }),
            ),
            None => self.end_with(Outcome::Failed(ResolveError::LocalIoFailure)),
        }
    }

    /// Takes in the stored release.
    fn on_release_cache(self, cached: Option<CachedRelease>, now: u64) -> (next: (
        Resolver,
        Action,
    ))
        ensures
            (next.0@, next.1@) == after_release_cache(
                self@,
                stored_release_view(cached),
                now as nat,
            ),
    {
        match cached {
            Some(c) => if is_fresh(&c, now) {
                self.use_release(c.into_release())
            } else {
                self.go_to(Phase::AwaitReleaseFetch, Action::FetchRelease)
            },
            None => self.go_to(Phase::AwaitReleaseFetch, Action::FetchRelease),
        }
    }

    /// Takes in the release host's answer.
    fn on_release_fetch(self, reply: ReleaseReply, now: u64) -> (next: (Resolver, Action))
        ensures
            (next.0@, next.1@) == after_release_fetch(self@, reply@, now as nat),
    {
        match release_from_reply(reply) {
            Err(e) => self.end_with(Outcome::Failed(e)),
            Ok(release) => {
                let record = CachedRelease::of_release(&release, now);
                self.go_to(Phase::AwaitReleaseStore { release }, Action::StoreRelease(record))
            },
        }
    }

    /// Takes in the stored firmware record.
    fn on_firmware_cache(
        self,
        tag: String,
        asset: GithubAsset,
        cached: Option<CachedFirmware>,
    ) -> (next: (Resolver, Action))
        requires
            is_firmware_name(asset@.name),
        ensures
            (next.0@, next.1@) == after_firmware_cache(
                self@,
                tag@,
                asset@,
                stored_firmware_view(cached),
            ),
    {
        match cached {
            Some(c) => if c.tag == tag && c.asset_name == asset.name {
                self.go_to(
                    Phase::AwaitCachedRead { tag, asset },
                    Action::ReadFile { path: c.file_path },
                )
            } else {
                self.start_download(tag, asset)
            },
            None => self.start_download(tag, asset),
        }
    }

    /// Takes in the content of the stored firmware file.
    fn on_cached_read(self, tag: String, asset: GithubAsset, read: Option<Vec<u8>>) -> (next: (
        Resolver,
        Action,
    ))
        requires
            is_firmware_name(asset@.name),
        ensures
            (next.0@, next.1@) == after_cached_read(self@, tag@, asset@, bytes_view(read)),
    {
        match read {
            Some(data) => self.end_with(
                Outcome::Binary(BinaryFile { data, file_name: asset.name }),
            ),
            None => self.start_download(tag, asset),
        }
    }

    /// Takes in the answer to the download.
    fn on_download(self, tag: String, asset: GithubAsset, reply: DownloadReply, now: u64) -> (next:
        (Resolver, Action))
        requires
            is_firmware_name(asset@.name),
        ensures
            (next.0@, next.1@) == after_download(self@, tag@, asset@, reply@, now as nat),
    {
        match bytes_from_reply(reply) {
            None => self.end_with(Outcome::Failed(ResolveError::UpstreamUnavailable)),
            Some(data) => {
                let file_path = join_path(self.cache_dir.as_str(), asset.name.as_str());
                let record = CachedFirmware {
                    tag,
                    asset_name: asset.name.clone(),
                    size: data.len() as u64,
                    downloaded_at: now,
                    file_path: file_path.clone(),
                };
                let copy = data.clone();
                self.go_to(
                    Phase::AwaitFirmwareWrite {
                        file: BinaryFile { data, file_name: asset.name },
                        record,
                    },
                    Action::WriteFirmware { file_path, data: copy },
                )
            },
        }
    }

    /// Takes in whether the firmware file was written.
    fn on_firmware_write(self, file: BinaryFile, record: CachedFirmware, written: bool) -> (next: (
        Resolver,
        Action,
    ))
        requires
            is_firmware_name(file@.file_name),
        ensures
            (next.0@, next.1@) == after_firmware_write(self@, file@, record@, written),
    {
        if written {
            self.go_to(Phase::AwaitFirmwareRecord { file }, Action::StoreFirmwareRecord(record))
        } else {
            self.note(false).end_with(Outcome::Binary(file))
        }
    }

    /// Takes in the answer to the pending action and says what to do next.
    ///
    /// The resolver and action returned are those of [`step_model`]. An
    /// event that does not answer the pending action is rejected and
    /// leaves the resolver as it was. Whatever the action hands out or
    /// stores is named like firmware.
    pub fn step(self, event: Event) -> (next: (Resolver, Action))
        ensures
            (next.0@, next.1@) == step_model(self@, event@),
            action_names_firmware(self@.cache_dir, next.1@),
    {
        proof {
            use_type_invariant(&self);
            lemma_step_names_firmware(self@, event@);
        }
        let Resolver { op, cache_dir, phase, cache_write_failed } = self;
        let state = Resolver { op, cache_dir, phase: Phase::Finished, cache_write_failed };
        match (phase, event) {
            (Phase::AwaitScan, Event::Scanned(listing)) => state.on_scan(listing),
            (Phase::AwaitOverrideRead { local }, Event::FileRead(read)) => {
                state.on_override_read(local, read)
            },
            (Phase::AwaitReleaseCache, Event::ReleaseCacheLoaded { cached, now }) => {
                state.on_release_cache(cached, now)
            },
            (Phase::AwaitReleaseFetch, Event::ReleaseFetched { reply, now }) => {
                state.on_release_fetch(reply, now)
            },
            (Phase::AwaitReleaseStore { release }, Event::Stored(stored)) => {
                state.note(stored).use_release(release)
            },
            (Phase::AwaitFirmwareCache { tag, asset }, Event::FirmwareCacheLoaded(cached)) => {
                state.on_firmware_cache(tag, asset, cached)
            },
            (Phase::AwaitCachedRead { tag, asset }, Event::FileRead(read)) => {
                state.on_cached_read(tag, asset, read)
            },
            (Phase::AwaitDownload { tag, asset }, Event::Downloaded { download, now }) => {
                state.on_download(tag, asset, download, now)
            },
            (Phase::AwaitFirmwareWrite { file, record }, Event::Stored(written)) => {
                state.on_firmware_write(file, record, written)
            },
            (Phase::AwaitFirmwareRecord { file }, Event::Stored(stored)) => {
                state.note(stored).end_with(Outcome::Binary(file))
            },
            (phase, _) => (Resolver { phase, ..state }, Action::Rejected),
        }
    }
}

} // verus!

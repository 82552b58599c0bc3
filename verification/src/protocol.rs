//! What a resolution exchanges with its caller: the actions that the
//! resolver asks for, the events that answer them, and the outcome that a
//! resolution ends with. Each type has a view, on which the resolver's
//! model is stated.

use vstd::prelude::*;
use crate::release::{
    CachedFirmware, CachedFirmwareView, CachedRelease, CachedReleaseView, GithubRelease,
    ReleaseView,
};
use crate::scan::{listing_view, ScannedEntry, ScannedEntryView};

verus! {

/// The two things a resolution can be asked for.
#[derive(Debug, Clone, Copy, PartialEq, Eq, Structural)]
pub enum Operation {
    /// Say which firmware is the latest, without transferring it.
    Describe,
    /// Hand out the bytes of the latest firmware.
    Fetch,
}

/// Why a resolution failed.
#[derive(Debug, Clone, Copy, PartialEq, Eq, Structural)]
pub enum ResolveError {
    /// The release host or the asset download did not answer, or answered
    /// with a status outside the 2xx range.
    UpstreamUnavailable,
    /// The release host answered, but not with a release.
    UpstreamUnparseable,
    /// No asset of the release follows the firmware naming convention.
    AssetNotFound,
    /// The cache directory holds an override, but its file could not be
    /// read. An override is never passed over for what upstream offers.
    LocalIoFailure,
}

impl ResolveError {
    /// The HTTP status that the service answers with.
    pub open spec fn status(self) -> nat {
        match self {
            ResolveError::UpstreamUnavailable => 502,
            ResolveError::UpstreamUnparseable => 502,
            ResolveError::AssetNotFound => 404,
            ResolveError::LocalIoFailure => 500,
        }
    }

    /// The HTTP status that the service answers with: 502 where upstream
    /// failed, 404 where the release has no firmware asset, 500 where the
    /// override's file could not be read.
    pub fn http_status(&self) -> (code: u16)
        ensures
            code == self.status(),
    {
        match self {
            ResolveError::UpstreamUnavailable => 502,
            ResolveError::UpstreamUnparseable => 502,
            ResolveError::AssetNotFound => 404,
            ResolveError::LocalIoFailure => 500,
        }
    }
}

/// The path under which the service hands out the firmware binary.
pub open spec fn download_path() -> Seq<char> {
    "/api/firmware/app"@
}

/// Whether an HTTP status is in the 2xx range.
pub open spec fn is_success(status: u16) -> bool {
    200 <= status < 300
}

/// The description of the latest firmware.
#[derive(Debug, PartialEq, Eq)]
pub struct FirmwareLatestResponse {
    pub tag: String,
    pub asset_name: String,
    pub size: u64,
    pub download_path: String,
}

/// The view of [`FirmwareLatestResponse`]: the same value over texts and numbers.
pub struct ResponseView {
    pub tag: Seq<char>,
    pub asset_name: Seq<char>,
    pub size: nat,
    pub download_path: Seq<char>,
}

impl View for FirmwareLatestResponse {
    type V = ResponseView;

    open spec fn view(&self) -> ResponseView {
        ResponseView {
            tag: self.tag@,
            asset_name: self.asset_name@,
            size: self.size as nat,
            download_path: self.download_path@,
        }
    }
}

/// A firmware binary with the file name to offer it under.
#[derive(Debug, PartialEq, Eq)]
pub struct BinaryFile {
    pub data: Vec<u8>,
    pub file_name: String,
}

/// The view of [`BinaryFile`]: the same value over texts and numbers.
pub struct BinaryView {
    pub data: Seq<u8>,
    pub file_name: Seq<char>,
}

impl View for BinaryFile {
    type V = BinaryView;

    open spec fn view(&self) -> BinaryView {
        BinaryView { data: self.data@, file_name: self.file_name@ }
    }
}

/// How a resolution ended.
#[derive(Debug, PartialEq, Eq)]
pub enum Outcome {
    Described(FirmwareLatestResponse),
    Binary(BinaryFile),
    Failed(ResolveError),
}

/// The view of [`Outcome`]: the same value over texts and numbers.
pub enum OutcomeView {
    Described(ResponseView),
    Binary(BinaryView),
    Failed(ResolveError),
}

impl View for Outcome {
    type V = OutcomeView;

    open spec fn view(&self) -> OutcomeView {
        match self {
            Outcome::Described(r) => OutcomeView::Described(r@),
            Outcome::Binary(b) => OutcomeView::Binary(b@),
            Outcome::Failed(e) => OutcomeView::Failed(*e),
        }
    }
}

/// The body of the release host's answer.
#[derive(Debug, PartialEq, Eq)]
pub enum ReleaseBody {
    /// The body could not be read to its end.
    Unreadable,
    /// The body is not a release.
    Malformed,
    /// The release that the body holds.
    Decoded(GithubRelease),
}

/// The view of [`ReleaseBody`]: the same value over texts and numbers.
pub enum ReleaseBodyView {
    Unreadable,
    Malformed,
    Decoded(ReleaseView),
}

impl View for ReleaseBody {
    type V = ReleaseBodyView;

    open spec fn view(&self) -> ReleaseBodyView {
        match self {
            ReleaseBody::Unreadable => ReleaseBodyView::Unreadable,
            ReleaseBody::Malformed => ReleaseBodyView::Malformed,
            ReleaseBody::Decoded(r) => ReleaseBodyView::Decoded(r@),
        }
    }
}

/// What came back from asking the release host for the latest release.
#[derive(Debug, PartialEq, Eq)]
pub enum ReleaseReply {
    /// No answer: the connection failed or timed out.
    NoResponse,
    /// An answer with its status and body.
    Response { status: u16, body: ReleaseBody },
}

/// The view of [`ReleaseReply`]: the same value over texts and numbers.
pub enum ReleaseReplyView {
    NoResponse,
    Response { status: u16, body: ReleaseBodyView },
}

impl View for ReleaseReply {
    type V = ReleaseReplyView;

    open spec fn view(&self) -> ReleaseReplyView {
        match self {
            ReleaseReply::NoResponse => ReleaseReplyView::NoResponse,
            ReleaseReply::Response { status, body } => ReleaseReplyView::Response {
                status: *status,
                body: body@,
            },
        }
    }
}

/// What came back from downloading an asset.
#[derive(Debug, PartialEq, Eq)]
pub enum DownloadReply {
    /// No answer: the connection failed or timed out.
    NoResponse,
    /// An answer with its status and, where it could be read to its end,
    /// its body.
    Response { status: u16, body: Option<Vec<u8>> },
}

/// The view of [`DownloadReply`]: the same value over texts and numbers.
pub enum DownloadReplyView {
    NoResponse,
    Response { status: u16, body: Option<Seq<u8>> },
}

/// The view of bytes that may be absent.
pub open spec fn bytes_view(bytes: Option<Vec<u8>>) -> Option<Seq<u8>> {
    match bytes {
        Some(b) => Some(b@),
        None => None,
    }
}

impl View for DownloadReply {
    type V = DownloadReplyView;

    open spec fn view(&self) -> DownloadReplyView {
        match self {
            DownloadReply::NoResponse => DownloadReplyView::NoResponse,
            DownloadReply::Response { status, body } => DownloadReplyView::Response {
                status: *status,
                body: bytes_view(*body),
            },
        }
    }
}

/// What the caller reports back after performing an action.
#[derive(Debug, PartialEq, Eq)]
pub enum Event {
    /// The listing of the cache directory, or `None` where it could not be
    /// listed. Answers [`Action::ScanCacheDir`].
    Scanned(Option<Vec<ScannedEntry>>),
    /// The content of the file, or `None` where it could not be read.
    /// Answers [`Action::ReadFile`].
    FileRead(Option<Vec<u8>>),
    /// The stored release, if there is one that can be read, and the time
    /// in seconds since the Unix epoch. Answers
    /// [`Action::LoadReleaseCache`].
    ReleaseCacheLoaded { cached: Option<CachedRelease>, now: u64 },
    /// The release host's answer and the time in seconds since the Unix
    /// epoch. Answers [`Action::FetchRelease`].
    ReleaseFetched { reply: ReleaseReply, now: u64 },
    /// The stored firmware record, if there is one that can be read.
    /// Answers [`Action::LoadFirmwareCache`].
    FirmwareCacheLoaded(Option<CachedFirmware>),
    /// The answer to the download and the time in seconds since the Unix
    /// epoch. Answers [`Action::Download`].
    Downloaded { download: DownloadReply, now: u64 },
    /// Whether what was to be written was written. Answers
    /// [`Action::StoreRelease`], [`Action::WriteFirmware`] and
    /// [`Action::StoreFirmwareRecord`].
    Stored(bool),
}

/// The view of [`Event`]: the same value over texts and numbers.
pub enum EventView {
    Scanned(Option<Seq<ScannedEntryView>>),
    FileRead(Option<Seq<u8>>),
    ReleaseCacheLoaded { cached: Option<CachedReleaseView>, now: nat },
    ReleaseFetched { reply: ReleaseReplyView, now: nat },
    FirmwareCacheLoaded(Option<CachedFirmwareView>),
    Downloaded { download: DownloadReplyView, now: nat },
    Stored(bool),
}

/// The view of a listing that may have failed.
pub open spec fn scanned_view(listing: Option<Vec<ScannedEntry>>) -> Option<
    Seq<ScannedEntryView>,
> {
    match listing {
        Some(entries) => Some(listing_view(entries@)),
        None => None,
    }
}

/// The view of a stored release that may be absent.
pub open spec fn stored_release_view(cached: Option<CachedRelease>) -> Option<CachedReleaseView> {
    match cached {
        Some(c) => Some(c@),
        None => None,
    }
}

/// The view of a stored firmware record that may be absent.
pub open spec fn stored_firmware_view(cached: Option<CachedFirmware>) -> Option<
    CachedFirmwareView,
> {
    match cached {
        Some(c) => Some(c@),
        None => None,
    }
}

impl View for Event {
    type V = EventView;

    open spec fn view(&self) -> EventView {
        match self {
            Event::Scanned(listing) => EventView::Scanned(scanned_view(*listing)),
            Event::FileRead(bytes) => EventView::FileRead(bytes_view(*bytes)),
            Event::ReleaseCacheLoaded { cached, now } => EventView::ReleaseCacheLoaded {
                cached: stored_release_view(*cached),
                now: *now as nat,
            },
            Event::ReleaseFetched { reply, now } => EventView::ReleaseFetched {
                reply: reply@,
                now: *now as nat,
            },
            Event::FirmwareCacheLoaded(cached) => EventView::FirmwareCacheLoaded(
                stored_firmware_view(*cached),
            ),
            Event::Downloaded { download, now } => EventView::Downloaded {
                download: download@,
                now: *now as nat,
            },
            Event::Stored(ok) => EventView::Stored(*ok),
        }
    }
}

/// What the caller is to do next.
#[derive(Debug, PartialEq, Eq)]
pub enum Action {
    /// List the cache directory.
    ScanCacheDir,
    /// Read the file at `path`.
    ReadFile { path: String },
    /// Load the stored release.
    LoadReleaseCache,
    /// Ask the release host for the latest release.
    FetchRelease,
    /// Store the release, replacing what was stored. Failure is reported
    /// and otherwise ignored.
    StoreRelease(CachedRelease),
    /// Load the stored firmware record.
    LoadFirmwareCache,
    /// Download the asset at `url`.
    Download { url: String },
    /// Write `data` to `file_path`, so that no reader sees half a file.
    /// Failure is reported; no record is stored then.
    WriteFirmware { file_path: String, data: Vec<u8> },
    /// Store the record of the firmware file just written, replacing what
    /// was stored. Failure is reported and otherwise ignored.
    StoreFirmwareRecord(CachedFirmware),
    /// The resolution is over. `cache_write_failed` says whether a store
    /// on the way failed; the outcome stands either way.
    Done { outcome: Outcome, cache_write_failed: bool },
    /// The event does not answer the action that is pending. Nothing
    /// changed, and the pending action is still to be answered.
    Rejected,
}

/// The view of [`Action`]: the same value over texts and numbers.
pub enum ActionView {
    ScanCacheDir,
    ReadFile { path: Seq<char> },
    LoadReleaseCache,
    FetchRelease,
    StoreRelease(CachedReleaseView),
    LoadFirmwareCache,
    Download { url: Seq<char> },
    WriteFirmware { file_path: Seq<char>, data: Seq<u8> },
    StoreFirmwareRecord(CachedFirmwareView),
    Done { outcome: OutcomeView, cache_write_failed: bool },
    Rejected,
}

impl View for Action {
    type V = ActionView;

    open spec fn view(&self) -> ActionView {
        match self {
            Action::ScanCacheDir => ActionView::ScanCacheDir,
            Action::ReadFile { path } => ActionView::ReadFile { path: path@ },
            Action::LoadReleaseCache => ActionView::LoadReleaseCache,
            Action::FetchRelease => ActionView::FetchRelease,
            Action::StoreRelease(record) => ActionView::StoreRelease(record@),
            Action::LoadFirmwareCache => ActionView::LoadFirmwareCache,
            Action::Download { url } => ActionView::Download { url: url@ },
            Action::WriteFirmware { file_path, data } => ActionView::WriteFirmware {
                file_path: file_path@,
                data: data@,
            },
            Action::StoreFirmwareRecord(record) => ActionView::StoreFirmwareRecord(record@),
            Action::Done { outcome, cache_write_failed } => ActionView::Done {
                outcome: outcome@,
                cache_write_failed: *cache_write_failed,
            },
            Action::Rejected => ActionView::Rejected,
        }
    }
}

/// The release that the release host's answer holds, or the error that the
/// answer amounts to.
pub open spec fn release_of_reply(reply: ReleaseReplyView) -> Result<ReleaseView, ResolveError> {
    match reply {
        ReleaseReplyView::NoResponse => Err(ResolveError::UpstreamUnavailable),
        ReleaseReplyView::Response { status, body } => if !is_success(status) {
            Err(ResolveError::UpstreamUnavailable)
        } else {
            match body {
                ReleaseBodyView::Unreadable => Err(ResolveError::UpstreamUnavailable),
                ReleaseBodyView::Malformed => Err(ResolveError::UpstreamUnparseable),
                ReleaseBodyView::Decoded(release) => Ok(release),
            }
        },
    }
}

/// The bytes that a download brought, if it succeeded.
pub open spec fn bytes_of_reply(reply: DownloadReplyView) -> Option<Seq<u8>> {
    match reply {
        DownloadReplyView::NoResponse => None,
        DownloadReplyView::Response { status, body } => if is_success(status) {
            body
        } else {
            None
        },
    }
}

/// Whether an HTTP status is in the 2xx range.
pub fn status_is_success(status: u16) -> (ok: bool)
    ensures
        ok == is_success(status),
{
    200 <= status && status < 300
}

/// Reads the release host's answer: the release it holds, or the error
/// that it amounts to.
pub fn release_from_reply(reply: ReleaseReply) -> (read: Result<GithubRelease, ResolveError>)
    ensures
        match read {
            Ok(release) => release_of_reply(reply@) == Ok::<ReleaseView, ResolveError>(release@),
            Err(e) => release_of_reply(reply@) == Err::<ReleaseView, ResolveError>(e),
        },
{
    match reply {
        ReleaseReply::NoResponse => Err(ResolveError::UpstreamUnavailable),
        ReleaseReply::Response { status, body } => if !status_is_success(status) {
            Err(ResolveError::UpstreamUnavailable)
        } else {
            match body {
                ReleaseBody::Unreadable => Err(ResolveError::UpstreamUnavailable),
                ReleaseBody::Malformed => Err(ResolveError::UpstreamUnparseable),
                ReleaseBody::Decoded(release) => Ok(release),
            }
        },
    }
}

/// Reads the answer to a download: its bytes where it succeeded.
pub fn bytes_from_reply(reply: DownloadReply) -> (bytes: Option<Vec<u8>>)
    ensures
        bytes_view(bytes) == bytes_of_reply(reply@),
{
    match reply {
        DownloadReply::NoResponse => None,
        DownloadReply::Response { status, body } => if status_is_success(status) {
            body
        } else {
            None
        },
    }
}

} // verus!

//! Release metadata: the assets of a release, the cached copy of the last
//! release fetched, the record of the last firmware downloaded, and the
//! rules that pick the firmware asset and tell whether a cached release is
//! still fresh.

use vstd::prelude::*;
use crate::text::{chars_of, ends_with_at, starts_with_at, string_of};

verus! {

/// For how many seconds after it was fetched a cached release is fresh.
pub const FRESHNESS_WINDOW_SECS: u64 = 600;

/// What every firmware file name begins with.
pub open spec fn firmware_prefix() -> Seq<char> {
    "tern-fw-"@
}

/// What every firmware file name ends with.
pub open spec fn firmware_suffix() -> Seq<char> {
    ".bin"@
}

/// The naming convention of firmware files, for upstream assets and for
/// files placed in the cache directory alike.
pub open spec fn is_firmware_name(name: Seq<char>) -> bool {
    firmware_prefix().is_prefix_of(name) && firmware_suffix().is_suffix_of(name)
}

/// The tag inside a firmware file name: what stands between the prefix and
/// the suffix. A name that does not follow the convention has no tag in
/// it, and is given back whole.
pub open spec fn firmware_tag(name: Seq<char>) -> Seq<char> {
    if is_firmware_name(name) {
        name.subrange(firmware_prefix().len() as int, name.len() - firmware_suffix().len())
    } else {
        name
    }
}

/// The firmware file name that carries a tag.
pub open spec fn firmware_name_of(tag: Seq<char>) -> Seq<char> {
    firmware_prefix() + tag + firmware_suffix()
}

/// A firmware file name is the prefix, its tag and the suffix, in that
/// order and with nothing shared between them: the prefix and the suffix
/// do not overlap, and the tag is the name from its ninth character to the
/// fifth from its end.
pub proof fn lemma_firmware_name_is_prefix_tag_suffix(name: Seq<char>)
    requires
        is_firmware_name(name),
    ensures
        name.len() >= firmware_prefix().len() + firmware_suffix().len(),
        firmware_prefix().len() == 8,
        firmware_suffix().len() == 4,
        firmware_tag(name) == name.subrange(8, name.len() - 4),
        name == firmware_name_of(firmware_tag(name)),
{
    reveal_strlit("tern-fw-");
    reveal_strlit(".bin");
    let pre = firmware_prefix();
    let suf = firmware_suffix();
    let n = name.len() as int;
    assert(name.subrange(0, 8) =~= pre);
    assert(name.subrange(n - 4, n) =~= suf);
    if n < 12 {
        assert(name.subrange(n - 4, n)[0] == name[n - 4]);
        assert(name.subrange(0, 8)[n - 4] == name[n - 4]);
        assert(suf[0] == '.');
        assert(pre[4] == '-' && pre[5] == 'f' && pre[6] == 'w' && pre[7] == '-');
        assert(false);
    }
    let tag = firmware_tag(name);
    assert forall|i: int| 0 <= i < n implies name[i] == firmware_name_of(tag)[i] by {
        if i < 8 {
            assert(name.subrange(0, 8)[i] == name[i]);
        } else if i >= n - 4 {
            assert(name.subrange(n - 4, n)[i - (n - 4)] == name[i]);
        }
    }
    assert(name =~= firmware_name_of(tag));
}

/// The file named after a tag follows the naming convention, and the tag
/// read back from it is that tag, whatever the tag.
pub proof fn lemma_tag_of_firmware_name(tag: Seq<char>)
    ensures
        is_firmware_name(firmware_name_of(tag)),
        firmware_tag(firmware_name_of(tag)) == tag,
{
    reveal_strlit("tern-fw-");
    reveal_strlit(".bin");
    let pre = firmware_prefix();
    let suf = firmware_suffix();
    let name = firmware_name_of(tag);
    assert(name.subrange(0, pre.len() as int) =~= pre);
    assert(name.subrange(name.len() - suf.len(), name.len() as int) =~= suf);
    assert(name.subrange(pre.len() as int, name.len() - suf.len()) =~= tag);
}

/// Whether `name` follows the firmware naming convention.
pub fn is_firmware_file_name(name: &str) -> (matches: bool)
    ensures
        matches == is_firmware_name(name@),
{
    let chars = chars_of(name);
    let pre = chars_of("tern-fw-");
    let suf = chars_of(".bin");
    proof {
        assert(chars@.subrange(0, chars@.len() as int) =~= chars@);
    }
    starts_with_at(&chars, 0, chars.len(), &pre) && ends_with_at(&chars, 0, chars.len(), &suf)
}

/// The tag that a firmware file name carries: the name without the prefix
/// and the suffix, each taken off once. A name that does not follow the
/// convention is given back whole.
pub fn firmware_tag_of(name: &str) -> (tag: String)
    ensures
        tag@ == firmware_tag(name@),
{
    let chars = chars_of(name);
    let pre = chars_of("tern-fw-");
    let suf = chars_of(".bin");
    let n = chars.len();
    proof {
        assert(chars@.subrange(0, n as int) =~= chars@);
    }
    if starts_with_at(&chars, 0, n, &pre) && ends_with_at(&chars, 0, n, &suf) {
        proof {
            lemma_firmware_name_is_prefix_tag_suffix(name@);
        }
        string_of(&chars, pre.len(), n - suf.len())
    } else {
        string_of(&chars, 0, n)
    }
}

/// One downloadable file of a release, as the release host lists it.
#[derive(Debug, PartialEq, Eq)]
pub struct GithubAsset {
    pub name: String,
    pub browser_download_url: String,
    pub size: u64,
}

/// The view of [`GithubAsset`]: the same value over texts and numbers.
pub struct AssetView {
    pub name: Seq<char>,
    pub browser_download_url: Seq<char>,
    pub size: nat,
}

impl View for GithubAsset {
    type V = AssetView;

    open spec fn view(&self) -> AssetView {
        AssetView {
            name: self.name@,
            browser_download_url: self.browser_download_url@,
            size: self.size as nat,
        }
    }
}

impl Clone for GithubAsset {
    fn clone(&self) -> (copy: Self)
        ensures
            copy@ == self@,
    {
        GithubAsset {
            name: self.name.clone(),
            browser_download_url: self.browser_download_url.clone(),
            size: self.size,
        }
    }
}

/// The views of a list of assets, in order.
pub open spec fn assets_view(assets: Seq<GithubAsset>) -> Seq<AssetView> {
    assets.map_values(|a: GithubAsset| a@)
}

/// A copy of a list of assets.
pub fn clone_assets(assets: &Vec<GithubAsset>) -> (copy: Vec<GithubAsset>)
    ensures
        assets_view(copy@) == assets_view(assets@),
{
    let mut copy: Vec<GithubAsset> = Vec::new();
    let mut i: usize = 0;
    while i < assets.len()
        invariant
            i <= assets.len(),
            copy@.len() == i,
            forall|j: int| 0 <= j < i ==> copy@[j]@ == assets@[j]@,
        decreases assets.len() - i,
    {
        copy.push(assets[i].clone());
        i += 1;
    }
    proof {
        assert(assets_view(copy@) =~= assets_view(assets@));
    }
    copy
}

/// The latest release as the release host describes it.
#[derive(Debug, PartialEq, Eq)]
pub struct GithubRelease {
    pub tag_name: String,
    pub assets: Vec<GithubAsset>,
}

/// The view of [`GithubRelease`]: the same value over texts and numbers.
pub struct ReleaseView {
    pub tag_name: Seq<char>,
    pub assets: Seq<AssetView>,
}

impl View for GithubRelease {
    type V = ReleaseView;

    open spec fn view(&self) -> ReleaseView {
        ReleaseView { tag_name: self.tag_name@, assets: assets_view(self.assets@) }
    }
}

impl Clone for GithubRelease {
    fn clone(&self) -> (copy: Self)
        ensures
            copy@ == self@,
    {
        GithubRelease { tag_name: self.tag_name.clone(), assets: clone_assets(&self.assets) }
    }
}

/// The last release fetched, with the time of the fetch in seconds since
/// the Unix epoch.
#[derive(Debug, PartialEq, Eq)]
pub struct CachedRelease {
    pub tag_name: String,
    pub assets: Vec<GithubAsset>,
    pub fetched_at: u64,
}

/// The view of [`CachedRelease`]: the same value over texts and numbers.
pub struct CachedReleaseView {
    pub tag_name: Seq<char>,
    pub assets: Seq<AssetView>,
    pub fetched_at: nat,
}

impl View for CachedRelease {
    type V = CachedReleaseView;

    open spec fn view(&self) -> CachedReleaseView {
        CachedReleaseView {
            tag_name: self.tag_name@,
            assets: assets_view(self.assets@),
            fetched_at: self.fetched_at as nat,
        }
    }
}

impl Clone for CachedRelease {
    fn clone(&self) -> (copy: Self)
        ensures
            copy@ == self@,
    {
        CachedRelease {
            tag_name: self.tag_name.clone(),
            assets: clone_assets(&self.assets),
            fetched_at: self.fetched_at,
        }
    }
}

/// The record of the last firmware binary downloaded and stored.
#[derive(Debug, PartialEq, Eq)]
pub struct CachedFirmware {
    pub tag: String,
    pub asset_name: String,
    pub size: u64,
    pub downloaded_at: u64,
    pub file_path: String,
}

/// The view of [`CachedFirmware`]: the same value over texts and numbers.
pub struct CachedFirmwareView {
    pub tag: Seq<char>,
    pub asset_name: Seq<char>,
    pub size: nat,
    pub downloaded_at: nat,
    pub file_path: Seq<char>,
}

impl View for CachedFirmware {
    type V = CachedFirmwareView;

    open spec fn view(&self) -> CachedFirmwareView {
        CachedFirmwareView {
            tag: self.tag@,
            asset_name: self.asset_name@,
            size: self.size as nat,
            downloaded_at: self.downloaded_at as nat,
            file_path: self.file_path@,
        }
    }
}

impl Clone for CachedFirmware {
    fn clone(&self) -> (copy: Self)
        ensures
            copy@ == self@,
    {
        CachedFirmware {
            tag: self.tag.clone(),
            asset_name: self.asset_name.clone(),
            size: self.size,
            downloaded_at: self.downloaded_at,
            file_path: self.file_path.clone(),
        }
    }
}

/// The first asset, in listing order, whose name follows the firmware
/// naming convention.
pub open spec fn first_firmware_asset(assets: Seq<AssetView>) -> Option<AssetView>
    decreases assets.len(),
{
    if assets.len() == 0 {
        None
    } else if is_firmware_name(assets[0].name) {
        Some(assets[0])
    } else {
        first_firmware_asset(assets.skip(1))
    }
}

/// The asset selected from a list is its first firmware asset: it stands
/// in the list, is named like firmware, and nothing before it is. None is
/// selected exactly where no asset is named like firmware.
pub proof fn lemma_first_firmware_asset(assets: Seq<AssetView>)
    ensures
        match first_firmware_asset(assets) {
            Some(asset) => exists|i: int|
                0 <= i < assets.len() && #[trigger] assets[i] == asset && is_firmware_name(
                    asset.name,
                ) && forall|j: int| 0 <= j < i ==> !is_firmware_name(#[trigger] assets[j].name),
            None => forall|i: int|
                0 <= i < assets.len() ==> !is_firmware_name(#[trigger] assets[i].name),
        },
    decreases assets.len(),
{
    if assets.len() > 0 && !is_firmware_name(assets[0].name) {
        let rest = assets.skip(1);
        lemma_first_firmware_asset(rest);
        match first_firmware_asset(rest) {
            Some(asset) => {
                let i = choose|i: int|
                    0 <= i < rest.len() && #[trigger] rest[i] == asset && is_firmware_name(
                        asset.name,
                    ) && forall|j: int| 0 <= j < i ==> !is_firmware_name(#[trigger] rest[j].name);
                assert(assets[i + 1] == asset);
                assert forall|j: int| 0 <= j < i + 1 implies !is_firmware_name(
                    #[trigger] assets[j].name,
                ) by {
                    if j > 0 {
                        assert(rest[j - 1] == assets[j]);
                    }
                }
            },
            None => {
                assert forall|i: int| 0 <= i < assets.len() implies !is_firmware_name(
                    #[trigger] assets[i].name,
                ) by {
                    if i > 0 {
                        assert(rest[i - 1] == assets[i]);
                    }
                }
            },
        }
    } else if assets.len() > 0 {
        assert(assets[0] == first_firmware_asset(assets)->0);
    }
}

/// Picks the firmware asset of a release: the first one whose name follows
/// the naming convention, or none where no name does.
pub fn select_app_asset(release: &GithubRelease) -> (selected: Option<GithubAsset>)
    ensures
        match selected {
            Some(asset) => first_firmware_asset(release@.assets) == Some(asset@),
            None => first_firmware_asset(release@.assets) is None,
        },
{
    let ghost all = release@.assets;
    let mut i: usize = 0;
    proof {
        assert(all.skip(0) =~= all);
    }
    while i < release.assets.len()
        invariant
            i <= release.assets.len(),
            all == release@.assets,
            all.len() == release.assets.len(),
            first_firmware_asset(all) == first_firmware_asset(all.skip(i as int)),
        decreases release.assets.len() - i,
    {
        proof {
            assert(all.skip(i as int)[0] == release.assets@[i as int]@);
            assert(all.skip(i as int).skip(1) =~= all.skip(i as int + 1));
        }
        if is_firmware_file_name(release.assets[i].name.as_str()) {
            return Some(release.assets[i].clone());
        }
        i += 1;
    }
    None
}

/// Whether a release fetched at `fetched_at` is still fresh at `now`: its
/// age is under the freshness window. A fetch time in the future counts as
/// age zero.
pub open spec fn fresh_at(fetched_at: nat, now: nat) -> bool {
    now < fetched_at + FRESHNESS_WINDOW_SECS
}

/// Whether the cached release is still fresh at `now`.
pub fn is_fresh(cached: &CachedRelease, now: u64) -> (fresh: bool)
    ensures
        fresh == fresh_at(cached@.fetched_at, now as nat),
{
    let age: u64 = if now >= cached.fetched_at {
        now - cached.fetched_at
    } else {
        0
    };
    age < FRESHNESS_WINDOW_SECS
}

/// The release that a cached copy holds.
pub open spec fn release_in(cached: CachedReleaseView) -> ReleaseView {
    ReleaseView { tag_name: cached.tag_name, assets: cached.assets }
}

/// The cached copy of a release fetched at `now`.
pub open spec fn cached_at(release: ReleaseView, now: nat) -> CachedReleaseView {
    CachedReleaseView { tag_name: release.tag_name, assets: release.assets, fetched_at: now }
}

impl CachedRelease {
    /// The record to store for a release fetched at `now`.
    pub fn of_release(release: &GithubRelease, now: u64) -> (cached: CachedRelease)
        ensures
            cached@ == cached_at(release@, now as nat),
    {
        CachedRelease {
            tag_name: release.tag_name.clone(),
            assets: clone_assets(&release.assets),
            fetched_at: now,
        }
    }

    /// The release that this record holds.
    pub fn into_release(self) -> (release: GithubRelease)
        ensures
            release@ == release_in(self@),
    {
        GithubRelease { tag_name: self.tag_name, assets: self.assets }
    }
}

} // verus!

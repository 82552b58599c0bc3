//! The local override: firmware files that an operator placed in the cache
//! directory by hand. Among the entries of a directory listing, the files
//! named like firmware are candidates, and the one modified last wins.

use vstd::prelude::*;
use crate::release::{
    firmware_name_of, firmware_tag, firmware_tag_of, is_firmware_file_name, is_firmware_name,
    lemma_firmware_name_is_prefix_tag_suffix,
};

verus! {

/// What the file system says of a file: its length in bytes and when it was
/// last modified, in nanoseconds from the Unix epoch (negative before it).
#[derive(Debug, Clone, Copy, PartialEq, Eq)]
pub struct FileMeta {
    pub size: u64,
    pub modified_at: i128,
}

/// One entry of the cache directory's listing. `meta` is `None` where the
/// file's metadata could not be read.
#[derive(Debug, PartialEq, Eq)]
pub struct ScannedEntry {
    pub file_name: String,
    pub file_path: String,
    pub meta: Option<FileMeta>,
}

/// The view of [`ScannedEntry`]: the same value over texts and numbers.
pub struct ScannedEntryView {
    pub file_name: Seq<char>,
    pub file_path: Seq<char>,
    pub meta: Option<FileMeta>,
}

impl View for ScannedEntry {
    type V = ScannedEntryView;

    open spec fn view(&self) -> ScannedEntryView {
        ScannedEntryView {
            file_name: self.file_name@,
            file_path: self.file_path@,
            meta: self.meta,
        }
    }
}

/// The views of a directory listing, in listing order.
pub open spec fn listing_view(entries: Seq<ScannedEntry>) -> Seq<ScannedEntryView> {
    entries.map_values(|e: ScannedEntry| e@)
}

/// A firmware file found in the cache directory.
#[derive(Debug, PartialEq, Eq)]
pub struct LocalFirmware {
    pub tag: String,
    pub asset_name: String,
    pub size: u64,
    pub file_path: String,
    pub modified_at: i128,
}

/// The view of [`LocalFirmware`]: the same value over texts and numbers.
pub struct LocalFirmwareView {
    pub tag: Seq<char>,
    pub asset_name: Seq<char>,
    pub size: nat,
    pub file_path: Seq<char>,
    pub modified_at: int,
}

impl View for LocalFirmware {
    type V = LocalFirmwareView;

    open spec fn view(&self) -> LocalFirmwareView {
        LocalFirmwareView {
            tag: self.tag@,
            asset_name: self.asset_name@,
            size: self.size as nat,
            file_path: self.file_path@,
            modified_at: self.modified_at as int,
        }
    }
}

impl Clone for LocalFirmware {
    fn clone(&self) -> (copy: Self)
        ensures
            copy@ == self@,
    {
        LocalFirmware {
            tag: self.tag.clone(),
            asset_name: self.asset_name.clone(),
            size: self.size,
            file_path: self.file_path.clone(),
            modified_at: self.modified_at,
        }
    }
}

/// An entry is a candidate where its file name follows the firmware naming
/// convention.
pub open spec fn is_candidate(entry: ScannedEntryView) -> bool {
    is_firmware_name(entry.file_name)
}

/// A listing is unreadable where the metadata of one of its candidates
/// could not be read: such a listing yields no override at all.
pub open spec fn has_unreadable_candidate(entries: Seq<ScannedEntryView>) -> bool {
    exists|i: int|
        0 <= i < entries.len() && is_candidate(#[trigger] entries[i]) && entries[i].meta is None
}

/// Entry `i` wins: it is a candidate, no candidate was modified later, and
/// every candidate listed before it was modified strictly earlier.
pub open spec fn wins(entries: Seq<ScannedEntryView>, i: int) -> bool {
    &&& 0 <= i < entries.len()
    &&& is_candidate(entries[i])
    &&& forall|j: int|
        0 <= j < entries.len() && is_candidate(#[trigger] entries[j]) ==> {
            &&& entries[j].meta->0.modified_at <= entries[i].meta->0.modified_at
            &&& j < i ==> entries[j].meta->0.modified_at < entries[i].meta->0.modified_at
        }
}

/// The firmware that a candidate entry stands for.
pub open spec fn candidate_of(entry: ScannedEntryView) -> LocalFirmwareView {
    LocalFirmwareView {
        tag: firmware_tag(entry.file_name),
        asset_name: entry.file_name,
        size: entry.meta->0.size as nat,
        file_path: entry.file_path,
        modified_at: entry.meta->0.modified_at as int,
    }
}

/// The override that a listing yields: the winning candidate, or none where
/// the listing has no candidate or has one whose metadata is unreadable.
pub open spec fn local_override(entries: Seq<ScannedEntryView>) -> Option<LocalFirmwareView> {
    if has_unreadable_candidate(entries) {
        None
    } else if exists|i: int| wins(entries, i) {
        Some(candidate_of(entries[choose|i: int| wins(entries, i)]))
    } else {
        None
    }
}

/// At most one entry wins.
pub proof fn lemma_winner_is_unique(entries: Seq<ScannedEntryView>, i: int, j: int)
    requires
        wins(entries, i),
        wins(entries, j),
    ensures
        i == j,
{
    if i < j {
        assert(is_candidate(entries[i]));
        assert(entries[i].meta->0.modified_at < entries[j].meta->0.modified_at);
        assert(is_candidate(entries[j]));
        assert(entries[j].meta->0.modified_at <= entries[i].meta->0.modified_at);
    } else if j < i {
        assert(is_candidate(entries[j]));
        assert(entries[j].meta->0.modified_at < entries[i].meta->0.modified_at);
        assert(is_candidate(entries[i]));
        assert(entries[i].meta->0.modified_at <= entries[j].meta->0.modified_at);
    }
}

/// Among the first `n` entries, where one of them is a candidate, one
/// leads: no candidate among them was modified later, and every candidate
/// before it was modified strictly earlier.
proof fn lemma_some_candidate_leads(entries: Seq<ScannedEntryView>, n: int) -> (b: int)
    requires
        0 <= n <= entries.len(),
        exists|i: int| 0 <= i < n && is_candidate(#[trigger] entries[i]),
    ensures
        0 <= b < n,
        is_candidate(entries[b]),
        forall|j: int|
            0 <= j < n && is_candidate(#[trigger] entries[j]) ==> {
                &&& entries[j].meta->0.modified_at <= entries[b].meta->0.modified_at
                &&& j < b ==> entries[j].meta->0.modified_at < entries[b].meta->0.modified_at
            },
    decreases n,
{
    let last = n - 1;
    if exists|i: int| 0 <= i < last && is_candidate(#[trigger] entries[i]) {
        let before = lemma_some_candidate_leads(entries, last);
        if is_candidate(entries[last]) && entries[last].meta->0.modified_at
            > entries[before].meta->0.modified_at {
            last
        } else {
            before
        }
    } else {
        let i = choose|i: int| 0 <= i < n && is_candidate(#[trigger] entries[i]);
        assert(i == last);
        last
    }
}

/// A listing yields an override exactly where it has a candidate and the
/// metadata of each of its candidates could be read; the override is then
/// the one entry that wins. Its name is the entry's file name, which is
/// the prefix, the override's tag and the suffix; its size and path are
/// the entry's.
pub proof fn lemma_override_exists_iff(entries: Seq<ScannedEntryView>)
    ensures
        local_override(entries) is Some <==> !has_unreadable_candidate(entries) && exists|i: int|
            0 <= i < entries.len() && is_candidate(#[trigger] entries[i]),
        local_override(entries) matches Some(local) ==> exists|i: int| #[trigger]
            wins(entries, i) && entries[i].meta is Some && local == candidate_of(entries[i]),
        local_override(entries) matches Some(local) ==> is_firmware_name(local.asset_name)
            && local.asset_name == firmware_name_of(local.tag) && local.tag
            == local.asset_name.subrange(8, local.asset_name.len() - 4),
{
    if local_override(entries) is Some {
        let w = choose|i: int| wins(entries, i);
        assert(wins(entries, w));
        lemma_firmware_name_is_prefix_tag_suffix(entries[w].file_name);
    }
    if !has_unreadable_candidate(entries) && exists|i: int|
        0 <= i < entries.len() && is_candidate(#[trigger] entries[i]) {
        let b = lemma_some_candidate_leads(entries, entries.len() as int);
        assert(wins(entries, b));
    }
    if local_override(entries) is Some {
        let w = choose|i: int| wins(entries, i);
        assert(wins(entries, w));
        assert(is_candidate(entries[w]));
        assert(entries[w].meta is Some);
    }
}

/// Selects the local override from a listing of the cache directory.
///
/// The files named like firmware are the candidates. The candidate modified
/// last is returned; of several modified at that same instant, the one
/// listed first. Where the metadata of any candidate could not be read, or
/// where there is no candidate, there is no override.
pub fn discover_local_firmware(entries: &Vec<ScannedEntry>) -> (found: Option<LocalFirmware>)
    ensures
        match found {
            Some(fw) => local_override(listing_view(entries@)) == Some(fw@),
            None => local_override(listing_view(entries@)) is None,
        },
{
    let ghost all = listing_view(entries@);
    let mut best: Option<usize> = None;
    let mut best_time: i128 = 0;
    let mut i: usize = 0;
    while i < entries.len()
        invariant
            i <= entries.len(),
            all == listing_view(entries@),
            all.len() == entries.len(),
            forall|j: int| 0 <= j < i && is_candidate(#[trigger] all[j]) ==> all[j].meta is Some,
            match best {
                Some(b) => {
                    &&& b < i
                    &&& is_candidate(all[b as int])
                    &&& best_time == all[b as int].meta->0.modified_at
                    &&& forall|j: int|
                        0 <= j < i && is_candidate(#[trigger] all[j]) ==> {
                            &&& all[j].meta->0.modified_at <= best_time
                            &&& j < b ==> all[j].meta->0.modified_at < best_time
                        }
                },
                None => forall|j: int| 0 <= j < i ==> !is_candidate(#[trigger] all[j]),
            },
        decreases entries.len() - i,
    {
        let entry = &entries[i];
        assert(all[i as int] == entry@);
        if is_firmware_file_name(entry.file_name.as_str()) {
            match entry.meta {
                None => {
                    assert(has_unreadable_candidate(all));
                    return None;
                },
                Some(meta) => {
                    let later = match best {
                        Some(_) => best_time < meta.modified_at,
                        None => true,
                    };
                    if later {
                        best = Some(i);
                        best_time = meta.modified_at;
                    }
                },
            }
        }
        i += 1;
    }
    assert(!has_unreadable_candidate(all));
    match best {
        None => {
            assert(forall|j: int| !wins(all, j));
            None
        },
        Some(b) => {
            let entry = &entries[b];
            assert(all[b as int] == entry@);
            assert(wins(all, b as int));
            proof {
                let w = choose|j: int| wins(all, j);
                lemma_winner_is_unique(all, w, b as int);
            }
            let meta = entry.meta.unwrap();
            Some(
                LocalFirmware {
                    tag: firmware_tag_of(entry.file_name.as_str()),
                    asset_name: entry.file_name.clone(),
                    size: meta.size,
                    file_path: entry.file_path.clone(),
                    modified_at: meta.modified_at,
                },
            )
        },
    }
}

} // verus!

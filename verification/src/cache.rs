//! A small, bounded store of drafts, keyed by a hash of the input that
//! produced them.
//!
//! Entries stand in the order in which they were inserted. When the store
//! is full the oldest entry leaves; reading an entry does not renew it.

use vstd::prelude::*;
use vstd::utf8::encode_utf8;
use crate::domain::branch::{category_named, category_text, BranchCategory};
use crate::domain::ticket::{DraftView, TicketDraft};
use crate::error::{AppError, AppResult, ErrorKind};
use crate::text::{
    append_str, append_vec, chars_of, decimal, decimal_digits, string_of, trim, unicode_lowercase,
};

verus! {

/// How many entries the store keeps at most.
pub const CACHE_LIMIT: usize = 32;

/// One stored draft with the key it is found by. The category is kept as
/// text.
pub struct CacheEntry {
    pub key: String,
    pub title: String,
    pub description: String,
    pub branch_category: String,
    pub branch_summary: String,
}

/// An entry as the contracts see it.
pub struct EntryView {
    pub key: Seq<char>,
    pub title: Seq<char>,
    pub description: Seq<char>,
    pub branch_category: Seq<char>,
    pub branch_summary: Seq<char>,
}

impl View for CacheEntry {
    type V = EntryView;

    open spec fn view(&self) -> EntryView {
        EntryView {
            key: self.key@,
            title: self.title@,
            description: self.description@,
            branch_category: self.branch_category@,
            branch_summary: self.branch_summary@,
        }
    }
}

/// What the cache file holds: the entries, oldest first.
pub struct CacheFile {
    pub entries: Vec<CacheEntry>,
}

/// The views of a list of entries.
pub open spec fn entry_views(entries: Seq<CacheEntry>) -> Seq<EntryView> {
    Seq::new(entries.len(), |i: int| entries[i]@)
}

/// The entry under which `draft` is stored by `key`.
pub open spec fn entry_of(key: Seq<char>, draft: DraftView) -> EntryView {
    EntryView {
        key,
        title: draft.title,
        description: draft.description,
        branch_category: category_text(draft.branch_category),
        branch_summary: draft.branch_summary,
    }
}

/// The draft an entry stands for when its category text reads as
/// `category`. A text that names no category counts as `Feature`.
pub open spec fn draft_in(entry: EntryView, category: Option<BranchCategory>) -> DraftView {
    DraftView {
        title: entry.title,
        description: entry.description,
        branch_category: match category {
            Some(category) => category,
            None => BranchCategory::Feature,
        },
        branch_summary: entry.branch_summary,
    }
}

/// The draft an entry stands for.
pub open spec fn draft_of(entry: EntryView) -> DraftView {
    draft_in(entry, category_named(unicode_lowercase(trim(entry.branch_category))))
}

/// The first entry of `entries` stored by `key`.
pub open spec fn lookup(entries: Seq<EntryView>, key: Seq<char>) -> Option<EntryView>
    decreases entries.len(),
{
    if entries.len() == 0 {
        None
    } else if entries[0].key == key {
        Some(entries[0])
    } else {
        lookup(entries.drop_first(), key)
    }
}

/// `entries` without those stored by `key`.
pub open spec fn without_key(entries: Seq<EntryView>, key: Seq<char>) -> Seq<EntryView>
    decreases entries.len(),
{
    if entries.len() == 0 {
        entries
    } else if entries.last().key == key {
        without_key(entries.drop_last(), key)
    } else {
        without_key(entries.drop_last(), key).push(entries.last())
    }
}

/// The last `limit` of `entries`, or all of them if there are fewer.
pub open spec fn newest(entries: Seq<EntryView>, limit: nat) -> Seq<EntryView> {
    if entries.len() <= limit {
        entries
    } else {
        entries.skip(entries.len() - limit)
    }
}

/// `entries` after `entry` was inserted: any entry with the same key is
/// gone, `entry` stands last, and only the newest [`CACHE_LIMIT`] remain.
pub open spec fn inserted(entries: Seq<EntryView>, entry: EntryView) -> Seq<EntryView> {
    newest(without_key(entries, entry.key).push(entry), CACHE_LIMIT as nat)
}

/// The store of drafts, with the place of its file.
pub struct TicketDraftCache {
    file_path: std::path::PathBuf,
    file: CacheFile,
}

impl View for TicketDraftCache {
    type V = Seq<EntryView>;

    closed spec fn view(&self) -> Seq<EntryView> {
        entry_views(self.file.entries@)
    }
}

impl TicketDraftCache {
    /// Where the store is kept.
    pub closed spec fn path(&self) -> std::path::PathBuf {
        self.file_path
    }
}

/// A copy of `entry`.
fn copy_entry(entry: &CacheEntry) -> (out: CacheEntry)
    ensures
        out@ == entry@,
{
    CacheEntry {
        key: entry.key.clone(),
        title: entry.title.clone(),
        description: entry.description.clone(),
        branch_category: entry.branch_category.clone(),
        branch_summary: entry.branch_summary.clone(),
    }
}

impl CacheEntry {
    /// The draft this entry stands for, given what its category text was
    /// read as.
    pub fn to_draft(&self, category: Option<BranchCategory>) -> (draft: TicketDraft)
        ensures
            draft@ == draft_in(self@, category),
    {
        TicketDraft {
            title: self.title.clone(),
            description: self.description.clone(),
            branch_category: match category {
                Some(category) => category,
                None => BranchCategory::Feature,
            },
            branch_summary: self.branch_summary.clone(),
        }
    }
}

impl TicketDraftCache {
    /// A store that holds `file` and is kept at `file_path`.
    pub fn from_file(file_path: std::path::PathBuf, file: CacheFile) -> (cache: Self)
        ensures
            cache@ == entry_views(file.entries@),
            cache.path() == file_path,
    {
        Self { file_path, file }
    }

    /// Where the store is kept.
    pub fn file_path(&self) -> (file_path: &std::path::PathBuf)
        ensures
            *file_path == self.path(),
    {
        &self.file_path
    }

    /// The entries, oldest first.
    pub fn entries(&self) -> (entries: &Vec<CacheEntry>)
        ensures
            entry_views(entries@) == self@,
    {
        &self.file.entries
    }

    /// The draft stored by `key`, if there is one.
    pub fn get(&self, key: &str) -> (found: Option<TicketDraft>)
        ensures
            match found {
                Some(draft) => lookup(self@, key@) is Some && draft@ == draft_of(
                    lookup(self@, key@)->Some_0,
                ),
                None => lookup(self@, key@) is None,
            },
    {
        let wanted = key.to_owned();
        let ghost all = entry_views(self.file.entries@);
        let mut i: usize = 0;
        assert(all.skip(0) == all);
        while i < self.file.entries.len()
            invariant
                i <= self.file.entries.len(),
                all == entry_views(self.file.entries@),
                wanted@ == key@,
                lookup(all, key@) == lookup(all.skip(i as int), key@),
            decreases self.file.entries.len() - i,
        {
            proof {
                assert(all.skip(i as int)[0] == self.file.entries@[i as int]@);
                assert(all.skip(i as int).drop_first() == all.skip(i + 1));
            }
            let entry = &self.file.entries[i];
            if entry.key == wanted {
                let category = BranchCategory::from_str(entry.branch_category.as_str());
                return Some(entry.to_draft(category));
            }
            i += 1;
        }
        None
    }

    /// Stores `draft` by `key` as the newest entry. An entry already stored
    /// by `key` is replaced; beyond [`CACHE_LIMIT`] entries the oldest leave.
    pub fn insert(&mut self, key: String, draft: &TicketDraft)
        ensures
            final(self)@ == inserted(old(self)@, entry_of(key@, draft@)),
            final(self).path() == old(self).path(),
    {
        let ghost before = entry_views(self.file.entries@);
        let mut kept: Vec<CacheEntry> = Vec::new();
        let mut i: usize = 0;
        assert(before.take(0) == Seq::<EntryView>::empty());
        assert(entry_views(kept@) == Seq::<EntryView>::empty());
        while i < self.file.entries.len()
            invariant
                i <= self.file.entries.len(),
                before == entry_views(self.file.entries@),
                entry_views(kept@) == without_key(before.take(i as int), key@),
            decreases self.file.entries.len() - i,
        {
            proof {
                let next = before.take(i + 1);
                assert(next.drop_last() == before.take(i as int));
                assert(next.last() == self.file.entries@[i as int]@);
            }
            if !(self.file.entries[i].key == key) {
                let ghost so_far = entry_views(kept@);
                let entry = copy_entry(&self.file.entries[i]);
                kept.push(entry);
                assert(entry_views(kept@) == so_far.push(entry@));
            }
            i += 1;
        }
        assert(before.take(self.file.entries.len() as int) == before);
        let ghost so_far = entry_views(kept@);
        let entry = CacheEntry {
            key,
            title: draft.title.clone(),
            description: draft.description.clone(),
            branch_category: draft.branch_category.as_str().to_owned(),
            branch_summary: draft.branch_summary.clone(),
        };
        kept.push(entry);
        assert(entry_views(kept@) == so_far.push(entry@));
        if kept.len() > CACHE_LIMIT {
            let overflow = kept.len() - CACHE_LIMIT;
            let ghost full = entry_views(kept@);
            let tail = kept.split_off(overflow);
            assert(entry_views(tail@) == full.skip(overflow as int));
            kept = tail;
        }
        self.file.entries = kept;
    }
}

/// The lowercase hexadecimal text of the BLAKE3 hash of `input`.
pub uninterp spec fn blake3_hex(input: Seq<u8>) -> Seq<char>;

/// Hashes `input` with BLAKE3 and writes the hash in hexadecimal
/// (`blake3::hash`, then `Hash::to_hex`).
///
/// Claimed, not proved: the text is a function of the bytes alone, named
/// [`blake3_hex`].
#[verifier::external_body]
fn blake3_hex_of(input: &[u8]) -> (hex: String)
    ensures
        hex@ == blake3_hex(input@),
{
    blake3::hash(input).to_hex().to_string()
}

/// The text that is hashed into a key: the summary, the number of changed
/// files in decimal, and the board if there is one, with nothing between
/// them.
pub open spec fn key_text(summary: Seq<char>, files_changed: nat, board: Option<Seq<char>>) -> Seq<
    char,
> {
    summary + decimal(files_changed) + match board {
        Some(name) => name,
        None => Seq::<char>::empty(),
    }
}

/// The key of a draft: the BLAKE3 hash, in hexadecimal, of the UTF-8 bytes
/// of its [`key_text`].
pub open spec fn cache_key(summary: Seq<char>, files_changed: nat, board: Option<Seq<char>>) -> Seq<
    char,
> {
    blake3_hex(encode_utf8(key_text(summary, files_changed, board)))
}

/// The board as the contracts see it.
pub open spec fn board_text(board: Option<&str>) -> Option<Seq<char>> {
    match board {
        Some(name) => Some(name@),
        None => None,
    }
}

/// How an attempt to read the cache file ended.
pub enum CacheRead {
    /// There is no such file.
    Missing,
    /// The file could not be read.
    Failed(std::io::Error),
    /// The file does not hold a cache; the text says why.
    Corrupt(String),
    /// What the file holds.
    Contents(CacheFile),
}

impl TicketDraftCache {
    /// Writes out the text that [`TicketDraftCache::compute_key`] hashes.
    pub fn key_material(summary: &str, files_changed: usize, board: Option<&str>) -> (text: String)
        ensures
            text@ == key_text(summary@, files_changed as nat, board_text(board)),
    {
        let mut text = chars_of(summary);
        append_vec(&mut text, &decimal_digits(files_changed));
        match board {
            Some(name) => append_str(&mut text, name),
            None => {
                assert(text@ + Seq::<char>::empty() == text@);
            },
        }
        string_of(&text)
    }

    /// The key under which the draft for these inputs is stored. Equal
    /// inputs give equal keys.
    pub fn compute_key(summary: &str, files_changed: usize, board: Option<&str>) -> (key: String)
        ensures
            key@ == cache_key(summary@, files_changed as nat, board_text(board)),
    {
        let text = Self::key_material(summary, files_changed, board);
        blake3_hex_of(text.as_str().as_bytes())
    }

    /// The error for a store that could not be written out; `reason` says
    /// why.
    pub fn write_failure(reason: &str) -> (error: AppError)
        ensures
            error.reads(ErrorKind::Configuration, "failed to write cache: "@ + reason@),
    {
        let mut text = chars_of("failed to write cache: ");
        append_str(&mut text, reason);
        AppError::Configuration(string_of(&text))
    }

    /// Makes the store from the outcome of reading its file: a missing file
    /// is an empty store, a corrupt one a configuration error, and a failed
    /// read the I/O error itself.
    pub fn from_read(file_path: std::path::PathBuf, read: CacheRead) -> (out: AppResult<Self>)
        ensures
            match read {
                CacheRead::Missing => out is Ok && out->Ok_0@ == Seq::<EntryView>::empty()
                    && out->Ok_0.path() == file_path,
                CacheRead::Contents(file) => out is Ok && out->Ok_0@ == entry_views(file.entries@)
                    && out->Ok_0.path() == file_path,
                CacheRead::Corrupt(reason) => out is Err && out->Err_0 is Configuration
                    && out->Err_0->Configuration_0@ == "invalid cache file: "@ + reason@,
                CacheRead::Failed(error) => out is Err && out->Err_0 == AppError::Io(error),
            },
    {
        match read {
            CacheRead::Missing => {
                let file = CacheFile { entries: Vec::new() };
                assert(entry_views(file.entries@) == Seq::<EntryView>::empty());
                Ok(Self { file_path, file })
            },
            CacheRead::Contents(file) => Ok(Self { file_path, file }),
            CacheRead::Corrupt(reason) => {
                let mut text: Vec<char> = Vec::new();
                append_str(&mut text, "invalid cache file: ");
                append_str(&mut text, reason.as_str());
                Err(AppError::Configuration(string_of(&text)))
            },
            CacheRead::Failed(error) => Err(AppError::Io(error)),
        }
    }
}

} // verus!

//! What holds of the store of drafts whatever is put into it.

use vstd::prelude::*;
use vstd::utf8::{encode_utf8, encode_utf8_decode_utf8};
use crate::cache::{
    cache_key, inserted, key_text, lookup, newest, without_key, EntryView, CACHE_LIMIT,
};
use crate::text::{decimal, lemma_decimal_value};

verus! {

/// Whether some entry of `entries` is stored by `key`.
pub open spec fn has_key(entries: Seq<EntryView>, key: Seq<char>) -> bool {
    exists|i: int| 0 <= i < entries.len() && (#[trigger] entries[i]).key == key
}

/// Whether no two entries of `entries` share a key.
pub open spec fn distinct_keys(entries: Seq<EntryView>) -> bool {
    forall|i: int, j: int|
        0 <= i < j < entries.len() ==> (#[trigger] entries[i]).key != (#[trigger] entries[j]).key
}

/// `entries` after each of `items` was inserted in turn.
pub open spec fn inserted_all(entries: Seq<EntryView>, items: Seq<EntryView>) -> Seq<EntryView>
    decreases items.len(),
{
    if items.len() == 0 {
        entries
    } else {
        inserted(inserted_all(entries, items.drop_last()), items.last())
    }
}

/// Looking up a key finds the first entry stored by it.
pub proof fn lemma_lookup_first(entries: Seq<EntryView>, key: Seq<char>, i: int)
    requires
        0 <= i < entries.len(),
        entries[i].key == key,
        forall|j: int| 0 <= j < i ==> (#[trigger] entries[j]).key != key,
    ensures
        lookup(entries, key) == Some(entries[i]),
    decreases i,
{
    if i > 0 {
        let rest = entries.drop_first();
        assert(entries[0].key != key);
        assert forall|j: int| 0 <= j < i - 1 implies (#[trigger] rest[j]).key != key by {
            assert(rest[j] == entries[j + 1]);
        }
        assert(rest[i - 1] == entries[i]);
        lemma_lookup_first(rest, key, i - 1);
    }
}

/// Looking up a key that no entry is stored by finds nothing.
pub proof fn lemma_lookup_absent(entries: Seq<EntryView>, key: Seq<char>)
    requires
        !has_key(entries, key),
    ensures
        lookup(entries, key) is None,
    decreases entries.len(),
{
    if entries.len() > 0 {
        let rest = entries.drop_first();
        assert(entries[0].key != key);
        assert forall|j: int| 0 <= j < rest.len() implies (#[trigger] rest[j]).key != key by {
            assert(rest[j] == entries[j + 1]);
        }
        lemma_lookup_absent(rest, key);
    }
}

/// Looking up in a list that grew by one entry: what was found before is
/// still found; otherwise the new entry is, if it is stored by the key.
pub proof fn lemma_lookup_push(entries: Seq<EntryView>, entry: EntryView, key: Seq<char>)
    ensures
        lookup(entries.push(entry), key) == match lookup(entries, key) {
            Some(found) => Some(found),
            None => if entry.key == key {
                Some(entry)
            } else {
                None
            },
        },
    decreases entries.len(),
{
    let grown = entries.push(entry);
    if entries.len() == 0 {
        assert(grown.drop_first() == Seq::<EntryView>::empty());
        assert(grown[0] == entry);
    } else {
        assert(grown[0] == entries[0]);
        assert(grown.drop_first() == entries.drop_first().push(entry));
        if entries[0].key != key {
            lemma_lookup_push(entries.drop_first(), entry, key);
        }
    }
}

/// Removing a key from a list that grew by one entry: the new entry stays
/// unless it is stored by that key.
pub proof fn lemma_without_key_push(entries: Seq<EntryView>, entry: EntryView, key: Seq<char>)
    ensures
        without_key(entries.push(entry), key) == if entry.key == key {
            without_key(entries, key)
        } else {
            without_key(entries, key).push(entry)
        },
{
    assert(entries.push(entry).drop_last() == entries);
}

/// Removing a key that no entry is stored by changes nothing.
pub proof fn lemma_without_absent(entries: Seq<EntryView>, key: Seq<char>)
    requires
        !has_key(entries, key),
    ensures
        without_key(entries, key) == entries,
    decreases entries.len(),
{
    if entries.len() > 0 {
        let init = entries.drop_last();
        assert(entries[entries.len() - 1].key != key);
        assert forall|j: int| 0 <= j < init.len() implies (#[trigger] init[j]).key != key by {
            assert(init[j] == entries[j]);
        }
        lemma_without_absent(init, key);
        assert(init.push(entries.last()) == entries);
    }
}

/// After a key was removed no entry is stored by it, and nothing was added.
pub proof fn lemma_without_key_props(entries: Seq<EntryView>, key: Seq<char>)
    ensures
        !has_key(without_key(entries, key), key),
        without_key(entries, key).len() <= entries.len(),
    decreases entries.len(),
{
    if entries.len() > 0 {
        lemma_without_key_props(entries.drop_last(), key);
        let init = without_key(entries.drop_last(), key);
        let all = without_key(entries, key);
        assert forall|j: int| 0 <= j < all.len() implies (#[trigger] all[j]).key != key by {
            if j < init.len() {
                assert(all[j] == init[j]);
            }
        }
    }
}

/// What one insertion leaves: at most [`CACHE_LIMIT`] entries, the new one
/// last, and no other stored by its key.
pub proof fn lemma_inserted_shape(entries: Seq<EntryView>, entry: EntryView)
    ensures
        0 < inserted(entries, entry).len() <= CACHE_LIMIT,
        inserted(entries, entry).last() == entry,
        !has_key(inserted(entries, entry).drop_last(), entry.key),
{
    lemma_without_key_props(entries, entry.key);
    let kept = without_key(entries, entry.key);
    let full = kept.push(entry);
    let out = inserted(entries, entry);
    let init = out.drop_last();
    assert forall|j: int| 0 <= j < init.len() implies (#[trigger] init[j]).key != entry.key by {
        if full.len() <= CACHE_LIMIT {
            assert(init[j] == kept[j]);
        } else {
            assert(init[j] == kept[full.len() - CACHE_LIMIT + j]);
        }
    }
}

/// An inserted draft is the one found by its key.
pub proof fn lemma_lookup_inserted(entries: Seq<EntryView>, entry: EntryView)
    ensures
        lookup(inserted(entries, entry), entry.key) == Some(entry),
{
    lemma_inserted_shape(entries, entry);
    let out = inserted(entries, entry);
    assert forall|j: int| 0 <= j < out.len() - 1 implies (#[trigger] out[j]).key != entry.key by {
        assert(out[j] == out.drop_last()[j]);
    }
    lemma_lookup_first(out, entry.key, out.len() - 1);
}

/// The store never holds more than [`CACHE_LIMIT`] entries after an
/// insertion, whatever it held before.
pub proof fn lemma_insert_bounded(entries: Seq<EntryView>, entry: EntryView)
    ensures
        inserted(entries, entry).len() <= CACHE_LIMIT,
{
    lemma_inserted_shape(entries, entry);
}

/// Inserting by the same key twice keeps only the later draft: it takes the
/// place of the earlier one as the newest entry, it is what the key finds,
/// and the store holds no more entries than after the first insertion.
pub proof fn lemma_insert_overwrites(entries: Seq<EntryView>, first: EntryView, second: EntryView)
    requires
        first.key == second.key,
    ensures
        inserted(inserted(entries, first), second) == inserted(entries, first).drop_last().push(
            second,
        ),
        inserted(inserted(entries, first), second).len() == inserted(entries, first).len(),
        lookup(inserted(inserted(entries, first), second), second.key) == Some(second),
        !has_key(inserted(inserted(entries, first), second).drop_last(), second.key),
{
    let once = inserted(entries, first);
    lemma_inserted_shape(entries, first);
    lemma_without_absent(once.drop_last(), second.key);
    assert(once.drop_last().push(once.last()) == once);
    assert(without_key(once, second.key) == once.drop_last());
    lemma_lookup_inserted(once, second);
    lemma_inserted_shape(once, second);
}

/// The newest entries of a list that grew by one are the newest of its
/// newest entries with that one.
proof fn lemma_newest_push(items: Seq<EntryView>, entry: EntryView, limit: nat)
    requires
        limit > 0,
    ensures
        newest(newest(items, limit).push(entry), limit) == newest(items.push(entry), limit),
{
    if items.len() < limit {
    } else if items.len() == limit {
        assert(newest(items, limit).push(entry).skip(1) == items.push(entry).skip(1));
    } else {
        let tail = newest(items, limit);
        assert(tail.push(entry).skip(1) == items.push(entry).skip(items.len() + 1 - limit));
    }
}

/// Inserting entries with distinct keys into an empty store leaves exactly
/// the newest [`CACHE_LIMIT`] of them, in the order of insertion.
pub proof fn lemma_insert_distinct(items: Seq<EntryView>)
    requires
        distinct_keys(items),
    ensures
        inserted_all(Seq::<EntryView>::empty(), items) == newest(items, CACHE_LIMIT as nat),
    decreases items.len(),
{
    if items.len() > 0 {
        let init = items.drop_last();
        let entry = items.last();
        assert forall|i: int, j: int| 0 <= i < j < init.len() implies (#[trigger] init[i]).key != (
        #[trigger] init[j]).key by {
            assert(init[i] == items[i] && init[j] == items[j]);
        }
        lemma_insert_distinct(init);
        let held = newest(init, CACHE_LIMIT as nat);
        assert forall|j: int| 0 <= j < held.len() implies (#[trigger] held[j]).key
            != entry.key by {
            let k = if init.len() <= CACHE_LIMIT {
                j
            } else {
                init.len() - CACHE_LIMIT + j
            };
            assert(held[j] == items[k]);
            assert(items[k].key != items[items.len() - 1].key);
        }
        lemma_without_absent(held, entry.key);
        lemma_newest_push(init, entry, CACHE_LIMIT as nat);
        assert(init.push(entry) == items);
    }
}

/// After entries with distinct keys were inserted into an empty store, the
/// newest [`CACHE_LIMIT`] of them are found by their keys and the older
/// ones are not.
pub proof fn lemma_newest_retrievable(items: Seq<EntryView>, i: int)
    requires
        distinct_keys(items),
        0 <= i < items.len(),
    ensures
        i >= items.len() - CACHE_LIMIT ==> lookup(
            inserted_all(Seq::<EntryView>::empty(), items),
            items[i].key,
        ) == Some(items[i]),
        i < items.len() - CACHE_LIMIT ==> lookup(
            inserted_all(Seq::<EntryView>::empty(), items),
            items[i].key,
        ) is None,
{
    lemma_insert_distinct(items);
    let held = newest(items, CACHE_LIMIT as nat);
    let shift = if items.len() <= CACHE_LIMIT {
        0
    } else {
        items.len() - CACHE_LIMIT
    };
    assert forall|j: int| 0 <= j < held.len() implies #[trigger] held[j] == items[shift + j] by {}
    if i >= items.len() - CACHE_LIMIT {
        assert forall|j: int| 0 <= j < i - shift implies (#[trigger] held[j]).key
            != items[i].key by {
            assert(held[j] == items[shift + j]);
        }
        assert(held[i - shift] == items[i]);
        lemma_lookup_first(held, items[i].key, i - shift);
    } else {
        assert forall|j: int| 0 <= j < held.len() implies (#[trigger] held[j]).key
            != items[i].key by {
            assert(held[j] == items[shift + j]);
        }
        lemma_lookup_absent(held, items[i].key);
    }
}

/// The board as it enters the key: its name, or nothing.
pub open spec fn board_part(board: Option<Seq<char>>) -> Seq<char> {
    match board {
        Some(name) => name,
        None => Seq::<char>::empty(),
    }
}

/// The key is a function of its inputs: equal inputs give equal keys.
pub proof fn lemma_key_deterministic(
    summary: Seq<char>,
    files_changed: nat,
    board: Option<Seq<char>>,
    other_summary: Seq<char>,
    other_files_changed: nat,
    other_board: Option<Seq<char>>,
)
    requires
        summary == other_summary,
        files_changed == other_files_changed,
        board == other_board,
    ensures
        cache_key(summary, files_changed, board) == cache_key(
            other_summary,
            other_files_changed,
            other_board,
        ),
{
}

/// Different texts are hashed as different bytes.
pub proof fn lemma_hashed_bytes_differ(text: Seq<char>, other: Seq<char>)
    requires
        text != other,
    ensures
        encode_utf8(text) != encode_utf8(other),
{
    encode_utf8_decode_utf8(text);
    encode_utf8_decode_utf8(other);
}

/// Changing the summary alone changes the bytes that are hashed.
pub proof fn lemma_summary_changes_hashed_bytes(
    summary: Seq<char>,
    other: Seq<char>,
    files_changed: nat,
    board: Option<Seq<char>>,
)
    requires
        summary != other,
    ensures
        encode_utf8(key_text(summary, files_changed, board)) != encode_utf8(
            key_text(other, files_changed, board),
        ),
{
    let tail = decimal(files_changed) + board_part(board);
    let a = key_text(summary, files_changed, board);
    let b = key_text(other, files_changed, board);
    assert(a == summary + tail);
    assert(b == other + tail);
    if a == b {
        assert(summary.len() == other.len());
        assert(summary =~= a.subrange(0, summary.len() as int));
        assert(other =~= b.subrange(0, other.len() as int));
    }
    lemma_hashed_bytes_differ(a, b);
}

/// Changing the number of files alone changes the bytes that are hashed.
pub proof fn lemma_count_changes_hashed_bytes(
    summary: Seq<char>,
    files_changed: nat,
    other: nat,
    board: Option<Seq<char>>,
)
    requires
        files_changed != other,
    ensures
        encode_utf8(key_text(summary, files_changed, board)) != encode_utf8(
            key_text(summary, other, board),
        ),
{
    let a = key_text(summary, files_changed, board);
    let b = key_text(summary, other, board);
    let d = decimal(files_changed);
    let e = decimal(other);
    if a == b {
        assert(a.len() == summary.len() + d.len() + board_part(board).len());
        assert(b.len() == summary.len() + e.len() + board_part(board).len());
        assert(d.len() == e.len());
        assert(d =~= a.subrange(summary.len() as int, (summary.len() + d.len()) as int));
        assert(e =~= b.subrange(summary.len() as int, (summary.len() + e.len()) as int));
        lemma_decimal_value(files_changed);
        lemma_decimal_value(other);
    }
    lemma_hashed_bytes_differ(a, b);
}

/// Changing the board alone changes the bytes that are hashed, unless the
/// change is between no board and a board without a name.
pub proof fn lemma_board_changes_hashed_bytes(
    summary: Seq<char>,
    files_changed: nat,
    board: Option<Seq<char>>,
    other: Option<Seq<char>>,
)
    requires
        board_part(board) != board_part(other),
    ensures
        encode_utf8(key_text(summary, files_changed, board)) != encode_utf8(
            key_text(summary, files_changed, other),
        ),
{
    let a = key_text(summary, files_changed, board);
    let b = key_text(summary, files_changed, other);
    let head = summary + decimal(files_changed);
    assert(a == head + board_part(board));
    assert(b == head + board_part(other));
    if a == b {
        assert(board_part(board).len() == board_part(other).len());
        assert(board_part(board) =~= a.subrange(head.len() as int, a.len() as int));
        assert(board_part(other) =~= b.subrange(head.len() as int, b.len() as int));
    }
    lemma_hashed_bytes_differ(a, b);
}

} // verus!

//! The export table as it lies in the memory of a loaded plugin.
//!
//! At the table's symbol lies one machine word, the number of entries `n`.
//! Directly behind it lie `n` records of four machine words each: the type
//! identifier, the address of the name's first byte, the length of the name
//! in bytes, and the address of the function. Plugin and host have to agree
//! on this layout; the image carries no version.
//!
//! Nothing here touches memory. The loader reads the words and hands them
//! over; this module says how many to read and what they mean.

use vstd::prelude::*;
use crate::table::{Callable, EntryView, ExportEntry, TypeId};

verus! {

/// The name of the symbol at which a plugin exposes its export table.
pub const TABLE_SYMBOL: &'static str = "rust_plugin_typeinfo";

/// The number of machine words in one record of the table.
pub const RECORD_WORDS: usize = 4;

/// No machine word is wider than this many bytes.
pub const WORD_BYTES: usize = 8;

/// One record of the table as it was read: the name is still where the
/// plugin keeps it.
#[derive(Clone, Copy, Debug, PartialEq, Eq)]
pub struct RawEntry {
    pub type_id: TypeId,
    /// The address of the first byte of the name.
    pub name_addr: usize,
    /// The length of the name in bytes.
    pub name_len: usize,
    pub callable: Callable,
}

/// The number of words that a table of `count` entries takes, the count
/// word included.
pub open spec fn image_len(count: int) -> int {
    1 + RECORD_WORDS * count
}

/// A table of `count` entries can lie in memory: its size in bytes is that
/// of an object which can exist.
pub open spec fn count_in_bounds(count: int) -> bool {
    image_len(count) * WORD_BYTES <= isize::MAX
}

/// The words hold a count and every record that the count announces.
pub open spec fn holds_table(words: Seq<usize>) -> bool {
    words.len() >= 1 && image_len(words[0] as int) <= words.len()
}

/// Record `i` of the table that the words hold.
pub open spec fn record_at(words: Seq<usize>, i: int) -> RawEntry {
    RawEntry {
        type_id: TypeId(words[image_len(i)] as u64),
        name_addr: words[image_len(i) + 1],
        name_len: words[image_len(i) + 2],
        callable: Callable(words[image_len(i) + 3]),
    }
}

/// The records of the table that the words hold, in table order.
pub open spec fn records(words: Seq<usize>) -> Seq<RawEntry> {
    Seq::new(words[0] as nat, |i: int| record_at(words, i))
}

/// Says how many words to read at the table's symbol once the count, its
/// first word, is known: the count word and four words for each entry.
///
/// A count so large that the table could not lie in memory is refused.
pub fn image_words(count: usize) -> (r: Option<usize>)
    ensures
        r == if count_in_bounds(count as int) {
            Some(image_len(count as int) as usize)
        } else {
            None
        },
{
    let most_words: usize = (isize::MAX as usize) / WORD_BYTES;
    if count <= (most_words - 1) / RECORD_WORDS {
        Some(1 + RECORD_WORDS * count)
    } else {
        None
    }
}

/// Reads the table out of the words found at its symbol.
///
/// The first word is the count; the records follow it. Words behind the
/// last record are not part of the table and are ignored. Where the words
/// end before the last record that the count announces, there is no table.
pub fn decode_image(words: &[usize]) -> (r: Option<Vec<RawEntry>>)
    ensures
        match r {
            Some(entries) => holds_table(words@) && entries@ == records(words@),
            None => !holds_table(words@),
        },
{
    if words.len() < 1 {
        return None;
    }
    let count: usize = words[0];
    if count > (words.len() - 1) / RECORD_WORDS {
        return None;
    }
    let mut entries: Vec<RawEntry> = Vec::new();
    let mut i: usize = 0;
    while i < count
        invariant
            i <= count,
            count == words@[0],
            image_len(count as int) <= words@.len() <= usize::MAX,
            entries@.len() == i,
            forall|k: int| 0 <= k < i ==> entries@[k] == record_at(words@, k),
        decreases count - i,
    {
        let at: usize = 1 + RECORD_WORDS * i;
        entries.push(
            RawEntry {
                type_id: TypeId(words[at] as u64),
                name_addr: words[at + 1],
                name_len: words[at + 2],
                callable: Callable(words[at + 3]),
            },
        );
        i += 1;
    }
    assert(entries@ =~= records(words@));
    Some(entries)
}

/// Words read as `image_words` says, with the count in front, always hold a
/// table, and it has as many records as the count announces.
pub proof fn lemma_announced_image_holds_table(words: Seq<usize>)
    requires
        words.len() >= 1,
        words.len() == image_len(words[0] as int),
    ensures
        holds_table(words),
        records(words).len() == words[0],
{
}

impl RawEntry {
    /// The entry that this record stands for, once its name has been read.
    pub fn named(&self, name: String) -> (r: ExportEntry)
        ensures
            r@ == (EntryView { type_id: self.type_id, name: name@, callable: self.callable }),
    {
        ExportEntry { type_id: self.type_id, name, callable: self.callable }
    }
}

} // verus!

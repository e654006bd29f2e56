//! The four tracked counters and the batch record that groups them.
//!
//! Each counter is a newtype over its count, named after the database
//! table it is read from; the table name doubles as the cache key.

use vstd::prelude::*;

verus! {

/// A tracked counter: it knows the database table it is read from, the
/// field that holds its count, and wraps the count itself.
pub trait Statistic: Sized {
    /// The database table (and cache key) this counter is read from.
    spec fn spec_source_table() -> Seq<char>;

    /// The record field that holds the count.
    spec fn spec_field_name() -> Seq<char>;

    /// The wrapped count.
    spec fn spec_count(&self) -> nat;

    fn from_count(value: usize) -> (s: Self)
        ensures
            s.spec_count() == value,
    ;

    fn source_table(&self) -> (r: &'static str)
        ensures
            r@ == Self::spec_source_table(),
    ;

    fn field_name(&self) -> (r: &'static str)
        ensures
            r@ == Self::spec_field_name(),
    ;
}

/// Total number of emojis.
#[derive(Debug, Clone)]
pub struct TotalEmojiCount(pub usize);

impl Statistic for TotalEmojiCount {
    open spec fn spec_source_table() -> Seq<char> {
        "total_emoji_count"@
    }

    open spec fn spec_field_name() -> Seq<char> {
        "count"@
    }

    open spec fn spec_count(&self) -> nat {
        self.0 as nat
    }

    fn from_count(value: usize) -> Self {
        TotalEmojiCount(value)
    }

    fn source_table(&self) -> &'static str {
        "total_emoji_count"
    }

    fn field_name(&self) -> &'static str {
        "count"
    }
}

impl From<usize> for TotalEmojiCount {
    fn from(value: usize) -> Self {
        TotalEmojiCount(value)
    }
}

impl vstd::std_specs::convert::FromSpecImpl<usize> for TotalEmojiCount {
    open spec fn obeys_from_spec() -> bool {
        true
    }

    open spec fn from_spec(value: usize) -> Self {
        TotalEmojiCount(value)
    }
}

/// Total number of emoji packs.
#[derive(Debug, Clone)]
pub struct TotalEmojipackCount(pub usize);

impl Statistic for TotalEmojipackCount {
    open spec fn spec_source_table() -> Seq<char> {
        "total_emojipack_count"@
    }

    open spec fn spec_field_name() -> Seq<char> {
        "count"@
    }

    open spec fn spec_count(&self) -> nat {
        self.0 as nat
    }

    fn from_count(value: usize) -> Self {
        TotalEmojipackCount(value)
    }

    fn source_table(&self) -> &'static str {
        "total_emojipack_count"
    }

    fn field_name(&self) -> &'static str {
        "count"
    }
}

impl From<usize> for TotalEmojipackCount {
    fn from(value: usize) -> Self {
        TotalEmojipackCount(value)
    }
}

impl vstd::std_specs::convert::FromSpecImpl<usize> for TotalEmojipackCount {
    open spec fn obeys_from_spec() -> bool {
        true
    }

    open spec fn from_spec(value: usize) -> Self {
        TotalEmojipackCount(value)
    }
}

/// Number of emojis already indexed.
#[derive(Debug, Clone)]
pub struct IndexedEmojiCount(pub usize);

impl Statistic for IndexedEmojiCount {
    open spec fn spec_source_table() -> Seq<char> {
        "indexed_emoji_count"@
    }

    open spec fn spec_field_name() -> Seq<char> {
        "count"@
    }

    open spec fn spec_count(&self) -> nat {
        self.0 as nat
    }

    fn from_count(value: usize) -> Self {
        IndexedEmojiCount(value)
    }

    fn source_table(&self) -> &'static str {
        "indexed_emoji_count"
    }

    fn field_name(&self) -> &'static str {
        "count"
    }
}

impl From<usize> for IndexedEmojiCount {
    fn from(value: usize) -> Self {
        IndexedEmojiCount(value)
    }
}

impl vstd::std_specs::convert::FromSpecImpl<usize> for IndexedEmojiCount {
    open spec fn obeys_from_spec() -> bool {
        true
    }

    open spec fn from_spec(value: usize) -> Self {
        IndexedEmojiCount(value)
    }
}

/// Number of emoji packs already indexed.
#[derive(Debug, Clone)]
pub struct IndexedEmojipackCount(pub usize);

impl Statistic for IndexedEmojipackCount {
    open spec fn spec_source_table() -> Seq<char> {
        "indexed_emojipack_count"@
    }

    open spec fn spec_field_name() -> Seq<char> {
        "count"@
    }

    open spec fn spec_count(&self) -> nat {
        self.0 as nat
    }

    fn from_count(value: usize) -> Self {
        IndexedEmojipackCount(value)
    }

    fn source_table(&self) -> &'static str {
        "indexed_emojipack_count"
    }

    fn field_name(&self) -> &'static str {
        "count"
    }
}

impl From<usize> for IndexedEmojipackCount {
    fn from(value: usize) -> Self {
        IndexedEmojipackCount(value)
    }
}

impl vstd::std_specs::convert::FromSpecImpl<usize> for IndexedEmojipackCount {
    open spec fn obeys_from_spec() -> bool {
        true
    }

    open spec fn from_spec(value: usize) -> Self {
        IndexedEmojipackCount(value)
    }
}

/// One batch of all four counters, read together from the database.
#[derive(Debug, Clone)]
pub struct Statistics {
    pub total_emoji_count: TotalEmojiCount,
    pub total_emojipack_count: TotalEmojipackCount,
    pub indexed_emoji_count: IndexedEmojiCount,
    pub indexed_emojipack_count: IndexedEmojipackCount,
}

/// The four cache keys in the order every batch read and every snapshot
/// uses them.
pub fn statistics_keys() -> (keys: Vec<&'static str>)
    ensures
        keys@.len() == 4,
        keys@[0]@ == TotalEmojiCount::spec_source_table(),
        keys@[1]@ == TotalEmojipackCount::spec_source_table(),
        keys@[2]@ == IndexedEmojiCount::spec_source_table(),
        keys@[3]@ == IndexedEmojipackCount::spec_source_table(),
{
    let mut keys: Vec<&'static str> = Vec::new();
    keys.push("total_emoji_count");
    keys.push("total_emojipack_count");
    keys.push("indexed_emoji_count");
    keys.push("indexed_emojipack_count");
    keys
}

/// Groups four freshly read counts into one batch record.
pub fn statistics_from_counts(
    total_emoji: usize,
    total_emojipacks: usize,
    indexed_emoji: usize,
    indexed_emojipacks: usize,
) -> (s: Statistics)
    ensures
        s.total_emoji_count.spec_count() == total_emoji,
        s.total_emojipack_count.spec_count() == total_emojipacks,
        s.indexed_emoji_count.spec_count() == indexed_emoji,
        s.indexed_emojipack_count.spec_count() == indexed_emojipacks,
{
    Statistics {
        total_emoji_count: TotalEmojiCount::from_count(total_emoji),
        total_emojipack_count: TotalEmojipackCount::from_count(total_emojipacks),
        indexed_emoji_count: IndexedEmojiCount::from_count(indexed_emoji),
        indexed_emojipack_count: IndexedEmojipackCount::from_count(indexed_emojipacks),
    }
}

} // verus!

use statserver::database::{baseline_of, statistic_from_row, CountUpdate, DatabaseError};
use statserver::statistics::{
    statistics_from_counts, statistics_keys, IndexedEmojiCount, IndexedEmojipackCount, Statistic,
    TotalEmojiCount, TotalEmojipackCount,
};

#[test]
fn missing_row_means_baseline_zero() {
    let rows: Vec<CountUpdate> = Vec::new();
    assert_eq!(baseline_of(&rows), 0);
}

#[test]
fn baseline_is_the_first_row() {
    let rows = vec![CountUpdate { count: 7 }, CountUpdate { count: 9 }];
    assert_eq!(baseline_of(&rows), 7);
}

#[test]
fn a_row_becomes_the_counter() {
    let s: TotalEmojiCount = statistic_from_row(Some(5));
    assert_eq!(s.0, 5);
}

#[test]
fn no_row_reads_as_count_zero() {
    let s: TotalEmojiCount = statistic_from_row(None);
    assert_eq!(s.0, 0);
}

#[test]
fn counters_know_their_tables_and_field() {
    assert_eq!(TotalEmojiCount::from(1usize).source_table(), "total_emoji_count");
    assert_eq!(TotalEmojipackCount::from(1usize).source_table(), "total_emojipack_count");
    assert_eq!(IndexedEmojiCount::from(1usize).source_table(), "indexed_emoji_count");
    assert_eq!(IndexedEmojipackCount::from(1usize).source_table(), "indexed_emojipack_count");
    assert_eq!(TotalEmojiCount::from(1usize).field_name(), "count");
    assert_eq!(TotalEmojipackCount::from(1usize).field_name(), "count");
    assert_eq!(IndexedEmojiCount::from(1usize).field_name(), "count");
    assert_eq!(IndexedEmojipackCount::from(1usize).field_name(), "count");
}

#[test]
fn from_wraps_the_count() {
    assert_eq!(TotalEmojiCount::from(3usize).0, 3);
    assert_eq!(IndexedEmojipackCount::from(0usize).0, 0);
}

#[test]
fn statistics_batch_holds_all_four_counts() {
    let s = statistics_from_counts(1, 2, 3, 4);
    assert_eq!(s.total_emoji_count.0, 1);
    assert_eq!(s.total_emojipack_count.0, 2);
    assert_eq!(s.indexed_emoji_count.0, 3);
    assert_eq!(s.indexed_emojipack_count.0, 4);
}

#[test]
fn cache_keys_match_the_source_tables() {
    let keys = statistics_keys();
    assert_eq!(
        keys,
        vec![
            "total_emoji_count",
            "total_emojipack_count",
            "indexed_emoji_count",
            "indexed_emojipack_count",
        ]
    );
}

#[test]
fn database_errors_carry_their_detail() {
    assert_eq!(
        DatabaseError::Connection("refused".to_string()).describe(),
        "failed to connect to database: refused"
    );
    assert_eq!(
        DatabaseError::Authorization("denied".to_string()).describe(),
        "failed to authorize to database: denied"
    );
    assert_eq!(
        DatabaseError::Namespace("missing".to_string()).describe(),
        "failed to switch namespace and database: missing"
    );
    assert_eq!(
        DatabaseError::Command("syntax".to_string()).describe(),
        "failed to execute query: syntax"
    );
}

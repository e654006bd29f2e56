use statserver::config::ServerConfig;
use statserver::websocket::{
    bind_address, encode_statistics, session_react, snapshot_from_fields, SessionAction,
    SessionEvent, StatisticsMessage,
};

fn message(a: usize, b: usize, c: usize, d: usize) -> StatisticsMessage {
    StatisticsMessage {
        total_emoji_count: a,
        total_emojipack_count: b,
        indexed_emoji_count: c,
        indexed_emojipack_count: d,
    }
}

#[test]
fn encodes_the_exact_json_shape() {
    let s = encode_statistics(&message(1, 2, 3, 4));
    assert_eq!(
        s,
        "{\"total_emoji_count\":1,\"total_emojipack_count\":2,\"indexed_emoji_count\":3,\"indexed_emojipack_count\":4}"
    );
}

#[test]
fn encodes_zeros() {
    let s = encode_statistics(&message(0, 0, 0, 0));
    assert_eq!(
        s,
        "{\"total_emoji_count\":0,\"total_emojipack_count\":0,\"indexed_emoji_count\":0,\"indexed_emojipack_count\":0}"
    );
}

#[test]
fn identical_snapshots_encode_byte_identically() {
    let a = message(17, 8, 5, 3);
    let b = message(17, 8, 5, 3);
    assert_eq!(encode_statistics(&a).into_bytes(), encode_statistics(&b).into_bytes());
}

#[test]
fn snapshot_reads_the_cached_counts() {
    let total = "12".to_string();
    let packs = "34".to_string();
    let indexed = "5".to_string();
    let indexed_packs = "0".to_string();
    let m = snapshot_from_fields(Some(&total), Some(&packs), Some(&indexed), Some(&indexed_packs));
    assert_eq!(m, message(12, 34, 5, 0));
}

#[test]
fn failed_batch_read_degrades_to_zeros() {
    let m = snapshot_from_fields(None, None, None, None);
    assert_eq!(m, message(0, 0, 0, 0));
}

#[test]
fn unreadable_slots_degrade_individually() {
    let good = "9".to_string();
    let garbage = "not a number".to_string();
    let empty = "".to_string();
    let m = snapshot_from_fields(Some(&good), None, Some(&garbage), Some(&empty));
    assert_eq!(m, message(9, 0, 0, 0));
}

#[test]
fn ping_is_answered_with_its_payload() {
    let a = session_react(SessionEvent::Ping(vec![1, 2, 3]));
    assert!(matches!(a, SessionAction::ReplyPong(p) if p == vec![1, 2, 3]));
}

#[test]
fn close_and_transport_error_end_the_session() {
    assert!(matches!(session_react(SessionEvent::Close), SessionAction::EndSession));
    assert!(matches!(session_react(SessionEvent::TransportError), SessionAction::EndSession));
}

#[test]
fn heartbeat_and_data_frames_trigger_a_snapshot() {
    assert!(matches!(session_react(SessionEvent::Heartbeat), SessionAction::SendSnapshot));
    assert!(matches!(session_react(SessionEvent::Data), SessionAction::SendSnapshot));
}

#[test]
fn binds_host_and_port() {
    let cfg = ServerConfig { host: "0.0.0.0".to_string(), port: 8080 };
    assert_eq!(bind_address(&cfg), "0.0.0.0:8080");
}

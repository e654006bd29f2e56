//! The websocket broadcaster's decision logic.
//!
//! Sockets, upgrades and frames in flight belong to the embedding
//! binary.  This module decides how a session reacts to each event,
//! assembles a snapshot from whatever the cache batch read returned —
//! substituting zero for every slot that could not be read — and
//! encodes the snapshot as the JSON text sent to every client.

use vstd::prelude::*;

use crate::config::ServerConfig;
use crate::decimal::{all_digits, decimal_rep, digits_value, to_decimal, parse_count};

verus! {

/// Cadence of unsolicited snapshots on one session, in milliseconds.
pub const SESSION_HEARTBEAT_MILLIS: u64 = 500;

/// Budget for the cache batch read behind one snapshot, in
/// milliseconds.
pub const SNAPSHOT_READ_TIMEOUT_MILLIS: u64 = 500;

/// One snapshot of the four cached counters, as sent to websocket
/// clients.
#[derive(Debug, Clone, PartialEq, Eq, Structural)]
pub struct StatisticsMessage {
    pub total_emoji_count: usize,
    pub total_emojipack_count: usize,
    pub indexed_emoji_count: usize,
    pub indexed_emojipack_count: usize,
}

/// The JSON text of a snapshot: one object, the four counts as bare
/// numbers, in a fixed key order.
pub open spec fn spec_statistics_json(m: StatisticsMessage) -> Seq<char> {
    "{\"total_emoji_count\":"@ + decimal_rep(m.total_emoji_count as nat)
        + ",\"total_emojipack_count\":"@ + decimal_rep(m.total_emojipack_count as nat)
        + ",\"indexed_emoji_count\":"@ + decimal_rep(m.indexed_emoji_count as nat)
        + ",\"indexed_emojipack_count\":"@ + decimal_rep(m.indexed_emojipack_count as nat) + "}"@
}

/// Encodes a snapshot as the JSON text frame sent to clients.
pub fn encode_statistics(m: &StatisticsMessage) -> (s: String)
    ensures
        s@ == spec_statistics_json(*m),
{
    let mut s = String::from_str("{\"total_emoji_count\":");
    let total = to_decimal(m.total_emoji_count);
    s.append(total.as_str());
    s.append(",\"total_emojipack_count\":");
    let packs = to_decimal(m.total_emojipack_count);
    s.append(packs.as_str());
    s.append(",\"indexed_emoji_count\":");
    let indexed = to_decimal(m.indexed_emoji_count);
    s.append(indexed.as_str());
    s.append(",\"indexed_emojipack_count\":");
    let indexed_packs = to_decimal(m.indexed_emojipack_count);
    s.append(indexed_packs.as_str());
    s.append("}");
    proof {
        assert(s@ =~= spec_statistics_json(*m));
    }
    s
}

/// LAW (deterministic encoding): the JSON text is a function of the
/// snapshot alone, so two identical snapshots encode to byte-identical
/// frames.
pub proof fn lemma_snapshot_encoding_deterministic(a: StatisticsMessage, b: StatisticsMessage)
    requires
        a == b,
    ensures
        spec_statistics_json(a) == spec_statistics_json(b),
{
}

/// What one cache slot contributed to a snapshot: its parsed count, or
/// zero when the slot was missing, unreadable, or not a count.
pub open spec fn spec_field_count(f: Option<Seq<char>>) -> nat {
    match f {
        Some(s) => if s.len() > 0 && all_digits(s) && digits_value(s) <= usize::MAX {
            digits_value(s)
        } else {
            0
        },
        None => 0,
    }
}

/// The text a read cache slot holds, if it was read at all.
pub open spec fn view_field(f: Option<&String>) -> Option<Seq<char>> {
    match f {
        Some(s) => Some(s@),
        None => None,
    }
}

/// Parses one cache slot of a batch read, substituting zero for a slot
/// that was not readable.
pub fn field_count(f: Option<&String>) -> (n: usize)
    ensures
        n == spec_field_count(view_field(f)),
{
    match f {
        Some(s) => match parse_count(s.as_str()) {
            Some(n) => n,
            None => 0,
        },
        None => 0,
    }
}

/// Assembles a snapshot from the four slots of a cache batch read.  A
/// slot that could not be read — the whole batch failed, the key is
/// missing, or its text is not a count — degrades to zero rather than
/// failing the snapshot.
pub fn snapshot_from_fields(
    total_emoji: Option<&String>,
    total_emojipacks: Option<&String>,
    indexed_emoji: Option<&String>,
    indexed_emojipacks: Option<&String>,
) -> (m: StatisticsMessage)
    ensures
        m.total_emoji_count == spec_field_count(view_field(total_emoji)),
        m.total_emojipack_count == spec_field_count(view_field(total_emojipacks)),
        m.indexed_emoji_count == spec_field_count(view_field(indexed_emoji)),
        m.indexed_emojipack_count == spec_field_count(view_field(indexed_emojipacks)),
{
    StatisticsMessage {
        total_emoji_count: field_count(total_emoji),
        total_emojipack_count: field_count(total_emojipacks),
        indexed_emoji_count: field_count(indexed_emoji),
        indexed_emojipack_count: field_count(indexed_emojipacks),
    }
}

/// One event on a websocket session: an inbound frame, the heartbeat
/// tick, or a transport failure.
#[derive(Debug, Clone)]
pub enum SessionEvent {
    /// An inbound ping frame with its payload.
    Ping(Vec<u8>),
    /// The peer asked to close the session.
    Close,
    /// Any other inbound frame (text, binary, pong): a snapshot request.
    Data,
    /// The periodic heartbeat tick.
    Heartbeat,
    /// Reading from the socket failed.
    TransportError,
}

/// What a session does in reaction to one event.
#[derive(Debug, Clone)]
pub enum SessionAction {
    /// Reply with a pong frame carrying the given payload.
    ReplyPong(Vec<u8>),
    /// Read the cache and send a snapshot frame.
    SendSnapshot,
    /// Tear the session down.
    EndSession,
}

/// Decides a session's reaction: pings are answered in kind, a close or
/// a transport failure ends the session, and everything else — the
/// heartbeat or any non-control inbound frame — triggers a snapshot.
pub fn session_react(ev: SessionEvent) -> (a: SessionAction)
    ensures
        (ev matches SessionEvent::Ping(p) ==> a matches SessionAction::ReplyPong(q) && q@ == p@),
        ev is Close ==> a is EndSession,
        ev is TransportError ==> a is EndSession,
        ev is Data ==> a is SendSnapshot,
        ev is Heartbeat ==> a is SendSnapshot,
{
    match ev {
        SessionEvent::Ping(payload) => SessionAction::ReplyPong(payload),
        SessionEvent::Close => SessionAction::EndSession,
        SessionEvent::TransportError => SessionAction::EndSession,
        SessionEvent::Data => SessionAction::SendSnapshot,
        SessionEvent::Heartbeat => SessionAction::SendSnapshot,
    }
}

/// The `host:port` text the broadcaster binds its listener to.
pub fn bind_address(cfg: &ServerConfig) -> (s: String)
    ensures
        s@ == cfg.host@ + ":"@ + decimal_rep(cfg.port as nat),
{
    let mut s = cfg.host.clone();
    s.append(":");
    let port = to_decimal(cfg.port as usize);
    s.append(port.as_str());
    proof {
        assert(s@ =~= cfg.host@ + ":"@ + decimal_rep(cfg.port as nat));
    }
    s
}

} // verus!

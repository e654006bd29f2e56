//! The burst-smoothing aggregator.
//!
//! One aggregator follows one resource.  It consumes the merged stream
//! of database notifications and cache ticks and maintains a smoothed
//! count: increases are accepted at once, decreases are suppressed while
//! the burst window is open and accepted verbatim once it has expired.
//! On each tick the smoothed count is flushed to the cache, but only
//! when it differs from the value flushed last.
//!
//! The aggregator itself performs no I/O.  [`step`] turns one event into
//! a new state plus a requested [`FlushAction`]; the embedding event
//! loop carries the action out and reports a successful cache write back
//! through [`record_flush`].  All timestamps come from a monotonic clock
//! and are expressed in milliseconds.

use vstd::prelude::*;

use crate::cache::CacheError;
use crate::config::BurstConfig;
use crate::database::DatabaseError;
use crate::stream::StreamEvent;

verus! {

/// Why an aggregator gave up and asked its supervisor for a restart.
#[derive(Debug, Clone)]
pub enum ProcessorError {
    /// A database operation failed.
    Database(DatabaseError),
    /// A cache operation failed.
    Cache(CacheError),
    /// Joining concurrently spawned setup tasks failed.
    AsyncJoin(String),
}

impl ProcessorError {
    /// The text `describe` returns: which operation failed, with the
    /// wrapped error's own description appended.
    pub open spec fn spec_describe(&self) -> Seq<char> {
        match self {
            ProcessorError::Database(e) => "failed to perform database operation: "@
                + e.spec_describe(),
            ProcessorError::Cache(e) => "failed to perform cache operation: "@ + e.spec_describe(),
            ProcessorError::AsyncJoin(d) => "failed to join multiple async tasks: "@ + d@,
        }
    }

    /// A human-readable description, delegating to the wrapped error.
    pub fn describe(&self) -> (s: String)
        ensures
            s@ == self.spec_describe(),
    {
        match self {
            ProcessorError::Database(e) => {
                let mut s = String::from_str("failed to perform database operation: ");
                let detail = e.describe();
                s.append(detail.as_str());
                s
            },
            ProcessorError::Cache(e) => {
                let mut s = String::from_str("failed to perform cache operation: ");
                let detail = e.describe();
                s.append(detail.as_str());
                s
            },
            ProcessorError::AsyncJoin(detail) => {
                let mut s = String::from_str("failed to join multiple async tasks: ");
                s.append(detail.as_str());
                s
            },
        }
    }
}

/// Stream silence tolerated before an aggregator asks to be restarted,
/// in milliseconds.
pub const WATCHDOG_MILLIS: u64 = 5000;

/// Cooldown the supervisor waits before restarting a crashed aggregator,
/// in milliseconds.
pub const RESTART_COOLDOWN_MILLIS: u64 = 1000;

/// The in-memory state of one aggregator.
#[derive(Debug, Clone, PartialEq, Eq, Structural)]
pub struct AggregatorState {
    /// The current smoothed count.
    pub current: usize,
    /// The count most recently written to the cache.
    pub flushed: usize,
    /// When the last database notification was applied.
    pub last_update: u64,
    /// When the stream last showed any database activity; watched by the
    /// stall detector.
    pub last_activity: u64,
}

/// What the embedding event loop is asked to do after a step.
#[derive(Debug, Clone, PartialEq, Eq, Structural)]
pub enum FlushAction {
    /// Nothing to do.
    Idle,
    /// Write the given count to the cache under the resource's key.
    Flush(usize),
    /// The stream looks dead; restart the aggregator.
    Stall,
}

/// An event paired with the monotonic time of its arrival, for replaying
/// a stream of events through the aggregator.
#[derive(Debug, Clone)]
pub struct TimedEvent {
    pub event: StreamEvent,
    /// Monotonic arrival time in milliseconds.
    pub at: u64,
}

/// The state an aggregator starts from once the baseline has been read:
/// both counts equal the baseline and both clocks are fresh.
pub open spec fn spec_startup(baseline: usize, now: u64) -> AggregatorState {
    AggregatorState { current: baseline, flushed: baseline, last_update: now, last_activity: now }
}

/// How one database notification changes the state: growth is always
/// accepted, a lower value only once the burst window has expired.
pub open spec fn spec_update(
    st: AggregatorState,
    value: usize,
    now: u64,
    expire_millis: u64,
) -> AggregatorState {
    AggregatorState {
        current: if value > st.current {
            value
        } else if now - st.last_update >= expire_millis {
            value
        } else {
            st.current
        },
        flushed: st.flushed,
        last_update: now,
        last_activity: now,
    }
}

/// The aggregator's transition function: one event in, the new state and
/// the requested action out.
pub open spec fn spec_step(
    cfg: BurstConfig,
    st: AggregatorState,
    ev: StreamEvent,
    now: u64,
) -> (AggregatorState, FlushAction) {
    match ev {
        StreamEvent::Database { resource: _, value } => (
            spec_update(st, value, now, cfg.expire_millis),
            FlushAction::Idle,
        ),
        StreamEvent::Cache { resource: _ } => {
            if now - st.last_activity > WATCHDOG_MILLIS {
                (st, FlushAction::Stall)
            } else if st.current == st.flushed {
                (st, FlushAction::Idle)
            } else {
                (st, FlushAction::Flush(st.current))
            }
        },
        StreamEvent::DatabaseTimeout => (st, FlushAction::Stall),
        StreamEvent::CacheTimeout => (st, FlushAction::Stall),
    }
}

/// A step followed by the success of the flush it requested, if any:
/// the state a replay reaches when every cache write goes through.
pub open spec fn spec_apply(
    cfg: BurstConfig,
    st: AggregatorState,
    ev: StreamEvent,
    now: u64,
) -> AggregatorState {
    let stepped = spec_step(cfg, st, ev, now);
    match stepped.1 {
        FlushAction::Flush(v) => AggregatorState {
            current: stepped.0.current,
            flushed: v,
            last_update: stepped.0.last_update,
            last_activity: stepped.0.last_activity,
        },
        _ => stepped.0,
    }
}

/// The state reached by replaying `evs` from `st` with every flush
/// succeeding.
pub open spec fn spec_run(cfg: BurstConfig, st: AggregatorState, evs: Seq<TimedEvent>) -> AggregatorState
    decreases evs.len(),
{
    if evs.len() == 0 {
        st
    } else {
        spec_run(cfg, spec_apply(cfg, st, evs[0].event, evs[0].at), evs.drop_first())
    }
}

/// The counts written to the cache during such a replay, in order.
pub open spec fn spec_writes(cfg: BurstConfig, st: AggregatorState, evs: Seq<TimedEvent>) -> Seq<usize>
    decreases evs.len(),
{
    if evs.len() == 0 {
        Seq::empty()
    } else {
        let head = match spec_step(cfg, st, evs[0].event, evs[0].at).1 {
            FlushAction::Flush(v) => seq![v],
            _ => Seq::<usize>::empty(),
        };
        head + spec_writes(cfg, spec_apply(cfg, st, evs[0].event, evs[0].at), evs.drop_first())
    }
}

/// Event times are admissible for `st`: none precedes the state's clocks
/// and they never decrease.
pub open spec fn times_admissible(st: AggregatorState, evs: Seq<TimedEvent>) -> bool {
    &&& forall|i: int|
        0 <= i < evs.len() ==> (#[trigger] evs[i].at) >= st.last_update && evs[i].at
            >= st.last_activity
    &&& forall|i: int, j: int|
        #![trigger evs[i].at, evs[j].at]
        0 <= i <= j < evs.len() ==> evs[i].at <= evs[j].at
}

/// Builds the state an aggregator enters its event loop with, right
/// after the baseline read.  The startup sequence then flushes
/// `baseline` to the cache unconditionally, so the cache key starts out
/// equal to the database baseline.
pub fn startup_state(baseline: usize, now: u64) -> (st: AggregatorState)
    ensures
        st == spec_startup(baseline, now),
{
    AggregatorState { current: baseline, flushed: baseline, last_update: now, last_activity: now }
}

/// Applies one event to the aggregator and returns the action the
/// caller must carry out.  The state never moves backwards in time, so
/// `now` may not precede the state's clocks.
pub fn step(cfg: &BurstConfig, st: &mut AggregatorState, ev: &StreamEvent, now: u64) -> (a: FlushAction)
    requires
        now >= old(st).last_update,
        now >= old(st).last_activity,
    ensures
        (*final(st), a) == spec_step(*cfg, *old(st), *ev, now),
        final(st).flushed == old(st).flushed,
        a matches FlushAction::Flush(v) ==> v == old(st).current && old(st).current != old(
            st,
        ).flushed,
        (ev matches StreamEvent::Database { value, .. } ==> ({
            &&& a is Idle
            &&& final(st).last_update == now
            &&& final(st).last_activity == now
            &&& value > old(st).current ==> final(st).current == value
            &&& (value <= old(st).current && now - old(st).last_update >= cfg.expire_millis)
                ==> final(st).current == value
            &&& (value <= old(st).current && now - old(st).last_update < cfg.expire_millis)
                ==> final(st).current == old(st).current
        })),
        (ev matches StreamEvent::Cache { .. } ==> ({
            &&& *final(st) == *old(st)
            &&& (a is Stall <==> now - old(st).last_activity > WATCHDOG_MILLIS)
            &&& (a is Flush <==> now - old(st).last_activity <= WATCHDOG_MILLIS && old(
                st,
            ).current != old(st).flushed)
        })),
        (ev is DatabaseTimeout || ev is CacheTimeout) ==> a is Stall && *final(st) == *old(st),
{
    match ev {
        StreamEvent::Database { resource: _, value } => {
            let v: usize = *value;
            st.last_activity = now;
            if v > st.current {
                st.current = v;
            } else if now - st.last_update >= cfg.expire_millis {
                st.current = v;
            }
            st.last_update = now;
            FlushAction::Idle
        },
        StreamEvent::Cache { resource: _ } => {
            if now - st.last_activity > WATCHDOG_MILLIS {
                FlushAction::Stall
            } else if st.current == st.flushed {
                FlushAction::Idle
            } else {
                FlushAction::Flush(st.current)
            }
        },
        StreamEvent::DatabaseTimeout => FlushAction::Stall,
        StreamEvent::CacheTimeout => FlushAction::Stall,
    }
}

/// Records that a requested flush of the current count reached the
/// cache: from here on `flushed` equals `current` again.
pub fn record_flush(st: &mut AggregatorState)
    ensures
        final(st).flushed == old(st).current,
        final(st).current == old(st).current,
        final(st).last_update == old(st).last_update,
        final(st).last_activity == old(st).last_activity,
{
    st.flushed = st.current;
}

/// Replays a whole stream of timed events from `st`, as if every
/// requested cache write succeeded, and returns the written counts in
/// order.  This is the aggregator's behaviour with the I/O stripped
/// away, and what the scenario tests drive.
pub fn run_events(cfg: &BurstConfig, st: &mut AggregatorState, events: &Vec<TimedEvent>) -> (writes: Vec<
    usize,
>)
    requires
        times_admissible(*old(st), events@),
    ensures
        *final(st) == spec_run(*cfg, *old(st), events@),
        writes@ == spec_writes(*cfg, *old(st), events@),
{
    let ghost st0 = *st;
    let mut writes: Vec<usize> = Vec::new();
    let mut i: usize = 0;
    proof {
        assert(events@.skip(0) =~= events@);
        assert(writes@ + spec_writes(*cfg, *st, events@) =~= spec_writes(*cfg, *st, events@));
    }
    while i < events.len()
        invariant
            0 <= i <= events@.len(),
            times_admissible(*st, events@.skip(i as int)),
            spec_run(*cfg, st0, events@) == spec_run(*cfg, *st, events@.skip(i as int)),
            spec_writes(*cfg, st0, events@) == writes@ + spec_writes(
                *cfg,
                *st,
                events@.skip(i as int),
            ),
        decreases events@.len() - i,
    {
        let ghost pre = *st;
        let ghost rest = events@.skip(i as int);
        proof {
            assert(rest[0] == events@[i as int]);
            assert(rest.drop_first() =~= events@.skip(i + 1));
        }
        let a = step(cfg, st, &events[i].event, events[i].at);
        if let FlushAction::Flush(v) = a {
            writes.push(v);
            record_flush(st);
        }
        proof {
            assert(*st == spec_apply(*cfg, pre, events@[i as int].event, events@[i as int].at));
            assert(spec_writes(*cfg, pre, rest) == (match spec_step(
                *cfg,
                pre,
                rest[0].event,
                rest[0].at,
            ).1 {
                FlushAction::Flush(v) => seq![v],
                _ => Seq::<usize>::empty(),
            }) + spec_writes(*cfg, *st, events@.skip(i + 1)));
            assert(forall|k: int|
                0 <= k < events@.skip(i + 1).len() ==> (#[trigger] events@.skip(i + 1)[k].at)
                    >= st.last_update && events@.skip(i + 1)[k].at >= st.last_activity);
            assert(writes@ + spec_writes(*cfg, *st, events@.skip(i + 1)) == spec_writes(
                *cfg,
                st0,
                events@,
            ));
        }
        i = i + 1;
    }
    proof {
        assert(events@.skip(i as int) =~= Seq::<TimedEvent>::empty());
        assert(writes@ + Seq::<usize>::empty() =~= writes@);
    }
    writes
}

/// LAW (startup synchronisation): the startup sequence reads the
/// baseline, starts with both counts equal to it, and flushes it to the
/// cache unconditionally — so right after startup the cache key holds
/// exactly the database baseline, and `flushed` records that fact.
pub proof fn lemma_startup_synchronised(baseline: usize, now: u64)
    ensures
        spec_startup(baseline, now).current == baseline,
        spec_startup(baseline, now).flushed == baseline,
        spec_startup(baseline, now).current == spec_startup(baseline, now).flushed,
{
}

/// LAW (flush consistency): a requested flush always carries the
/// current smoothed count, and once it succeeds `flushed` equals
/// `current`.
pub proof fn lemma_flush_writes_current(
    cfg: BurstConfig,
    st: AggregatorState,
    ev: StreamEvent,
    now: u64,
)
    ensures
        spec_step(cfg, st, ev, now).1 matches FlushAction::Flush(v) ==> v == st.current
            && spec_apply(cfg, st, ev, now).flushed == st.current && spec_apply(
            cfg,
            st,
            ev,
            now,
        ).current == st.current,
{
}

/// LAW (bounded lag, one step): if the cache does not run ahead of the
/// smoothed count, it still does not after any single event — except
/// right after a sustained decrease, when a value below the flushed one
/// was accepted because the burst window had expired.  The lemma over
/// whole histories is [`lemma_flushed_bound_over_history`].
pub proof fn lemma_flushed_le_current_preserved(
    cfg: BurstConfig,
    st: AggregatorState,
    ev: StreamEvent,
    now: u64,
)
    requires
        st.flushed <= st.current,
    ensures
        ({
            let st2 = spec_apply(cfg, st, ev, now);
            st2.flushed <= st2.current || (ev matches StreamEvent::Database { value, .. }
                && value < st.flushed && now - st.last_update >= cfg.expire_millis && st2.current
                == value)
        }),
{
}

/// Splitting a replay: running `evs1 + evs2` is running `evs1`, then
/// running `evs2` from the state reached.
proof fn lemma_run_append(
    cfg: BurstConfig,
    st: AggregatorState,
    evs1: Seq<TimedEvent>,
    evs2: Seq<TimedEvent>,
)
    ensures
        spec_run(cfg, st, evs1 + evs2) == spec_run(cfg, spec_run(cfg, st, evs1), evs2),
    decreases evs1.len(),
{
    if evs1.len() == 0 {
        assert(evs1 + evs2 =~= evs2);
    } else {
        let all = evs1 + evs2;
        assert(all[0] == evs1[0]);
        assert(all.drop_first() =~= evs1.drop_first() + evs2);
        lemma_run_append(
            cfg,
            spec_apply(cfg, st, evs1[0].event, evs1[0].at),
            evs1.drop_first(),
            evs2,
        );
    }
}

/// Splitting the writes of a replay the same way.
proof fn lemma_writes_append(
    cfg: BurstConfig,
    st: AggregatorState,
    evs1: Seq<TimedEvent>,
    evs2: Seq<TimedEvent>,
)
    ensures
        spec_writes(cfg, st, evs1 + evs2) == spec_writes(cfg, st, evs1) + spec_writes(
            cfg,
            spec_run(cfg, st, evs1),
            evs2,
        ),
    decreases evs1.len(),
{
    if evs1.len() == 0 {
        assert(evs1 + evs2 =~= evs2);
        assert(spec_writes(cfg, st, evs1) + spec_writes(cfg, st, evs2) =~= spec_writes(
            cfg,
            st,
            evs2,
        ));
    } else {
        let all = evs1 + evs2;
        assert(all[0] == evs1[0]);
        assert(all.drop_first() =~= evs1.drop_first() + evs2);
        let st1 = spec_apply(cfg, st, evs1[0].event, evs1[0].at);
        let head = match spec_step(cfg, st, evs1[0].event, evs1[0].at).1 {
            FlushAction::Flush(v) => seq![v],
            _ => Seq::<usize>::empty(),
        };
        lemma_writes_append(cfg, st1, evs1.drop_first(), evs2);
        lemma_run_append(cfg, st1, evs1.drop_first(), evs2);
        assert(head + (spec_writes(cfg, st1, evs1.drop_first()) + spec_writes(
            cfg,
            spec_run(cfg, st, evs1),
            evs2,
        )) =~= (head + spec_writes(cfg, st1, evs1.drop_first())) + spec_writes(
            cfg,
            spec_run(cfg, st, evs1),
            evs2,
        ));
    }
}

/// The flushed count exceeds the smoothed one, and position `i` of the
/// history explains it: there a value below the flushed count was
/// accepted because the burst window had expired, and no flush has been
/// requested since.
pub open spec fn lag_explained_by(
    cfg: BurstConfig,
    st0: AggregatorState,
    evs: Seq<TimedEvent>,
    i: int,
) -> bool {
    let before = spec_run(cfg, st0, evs.take(i));
    let after = spec_run(cfg, st0, evs.take(i + 1));
    &&& 0 <= i < evs.len()
    &&& evs[i].event is Database
    &&& evs[i].at - before.last_update >= cfg.expire_millis
    &&& after.current < after.flushed
    &&& after.flushed == spec_run(cfg, st0, evs).flushed
    &&& spec_writes(cfg, after, evs.skip(i + 1)).len() == 0
}

/// LAW (bounded lag, over any history): starting from any state where
/// the cache does not run ahead of the smoothed count — the startup
/// state, in particular — it can run ahead after a replay only because
/// of a sustained decrease: some notification was accepted below the
/// flushed count at window expiry, and no flush has happened since.
pub proof fn lemma_flushed_bound_over_history(
    cfg: BurstConfig,
    st0: AggregatorState,
    evs: Seq<TimedEvent>,
)
    requires
        st0.flushed <= st0.current,
    ensures
        spec_run(cfg, st0, evs).flushed <= spec_run(cfg, st0, evs).current || exists|i: int|
            lag_explained_by(cfg, st0, evs, i),
    decreases evs.len(),
{
    if evs.len() > 0 {
        let front = evs.drop_last();
        let last = evs.last();
        let stf = spec_run(cfg, st0, front);
        let stn = spec_run(cfg, st0, evs);
        lemma_flushed_bound_over_history(cfg, st0, front);
        assert(evs =~= front + seq![last]);
        lemma_run_append(cfg, st0, front, seq![last]);
        assert(seq![last].drop_first() =~= Seq::<TimedEvent>::empty());
        let mid = spec_apply(cfg, stf, last.event, last.at);
        assert(seq![last][0] == last);
        assert(spec_run(cfg, stf, seq![last]) == spec_run(cfg, mid, seq![last].drop_first()));
        assert(spec_run(cfg, mid, seq![last].drop_first()) == mid);
        assert(stn == spec_apply(cfg, stf, last.event, last.at));
        if stn.flushed > stn.current {
            // the last step requested no flush: a flush would have left
            // `flushed == current` behind
            assert(!(spec_step(cfg, stf, last.event, last.at).1 is Flush));
            let fresh_acceptance = last.event is Database && last.at - stf.last_update
                >= cfg.expire_millis;
            if fresh_acceptance {
                // the last event itself is the explanation
                assert(evs.take(evs.len() - 1) =~= front);
                assert(evs.take(evs.len() as int) =~= evs);
                assert(evs.skip(evs.len() as int) =~= Seq::<TimedEvent>::empty());
                assert(lag_explained_by(cfg, st0, evs, evs.len() - 1));
            } else {
                // the lag predates the last event; carry its witness over
                assert(stf.flushed > stf.current && stn.flushed == stf.flushed);
                let i = choose|i: int| lag_explained_by(cfg, st0, front, i);
                assert(lag_explained_by(cfg, st0, front, i));
                assert(evs[i] == front[i]);
                assert(evs.take(i) =~= front.take(i));
                assert(evs.take(i + 1) =~= front.take(i + 1));
                let after = spec_run(cfg, st0, front.take(i + 1));
                // the state after the witness reaches `stf` by replaying
                // the rest of `front`...
                assert(front.take(i + 1) + front.skip(i + 1) =~= front);
                lemma_run_append(cfg, st0, front.take(i + 1), front.skip(i + 1));
                assert(spec_run(cfg, after, front.skip(i + 1)) == stf);
                // ...so the suffix writes of `evs` are the empty suffix
                // writes of `front` plus those of the last, flushless step
                assert(evs.skip(i + 1) =~= front.skip(i + 1) + seq![last]);
                lemma_writes_append(cfg, after, front.skip(i + 1), seq![last]);
                assert(spec_writes(cfg, mid, seq![last].drop_first()) =~= Seq::<usize>::empty());
                assert(spec_writes(cfg, stf, seq![last]) =~= Seq::<usize>::empty());
                assert(spec_writes(cfg, after, evs.skip(i + 1)).len() == 0);
                assert(lag_explained_by(cfg, st0, evs, i));
            }
        }
    }
}

/// LAW (write coalescing): no flush is requested while the smoothed
/// count equals the flushed one.
pub proof fn lemma_no_redundant_flush(
    cfg: BurstConfig,
    st: AggregatorState,
    ev: StreamEvent,
    now: u64,
)
    requires
        st.current == st.flushed,
    ensures
        !(spec_step(cfg, st, ev, now).1 is Flush),
{
}

/// LAW (window expiry): once `expire` has elapsed since the last
/// update, the next notification is accepted verbatim, higher or lower.
pub proof fn lemma_expired_window_accepts(
    cfg: BurstConfig,
    st: AggregatorState,
    ev: StreamEvent,
    now: u64,
)
    requires
        ev is Database,
        now - st.last_update >= cfg.expire_millis,
    ensures
        spec_apply(cfg, st, ev, now).current == ev->Database_value,
{
}

/// LAW (flush idempotence): flushing the same value twice yields one
/// cache write — after a successful flush, a further tick with no
/// intervening change of the smoothed count requests nothing.
pub proof fn lemma_second_flush_is_noop(
    cfg: BurstConfig,
    st: AggregatorState,
    ev1: StreamEvent,
    now1: u64,
    ev2: StreamEvent,
    now2: u64,
)
    requires
        ev1 is Cache,
        ev2 is Cache,
        spec_step(cfg, st, ev1, now1).1 is Flush,
        now2 - spec_apply(cfg, st, ev1, now1).last_activity <= WATCHDOG_MILLIS,
    ensures
        spec_step(cfg, spec_apply(cfg, st, ev1, now1), ev2, now2).1 is Idle,
{
}

/// All of `evs` falls inside the burst window that opened at
/// `st.last_update`.
pub open spec fn within_burst_window(
    cfg: BurstConfig,
    st: AggregatorState,
    evs: Seq<TimedEvent>,
) -> bool {
    forall|i: int|
        0 <= i < evs.len() ==> st.last_update <= (#[trigger] evs[i].at) && evs[i].at
            < st.last_update + cfg.expire_millis
}

/// LAW (burst ceiling): while one burst window stays open the smoothed
/// count never decreases, it ends at least as high as every value
/// notified during the window, and the cache writes of the window form
/// a non-decreasing run bounded by the count the window opened with and
/// the final smoothed count.
pub proof fn lemma_burst_window(cfg: BurstConfig, st: AggregatorState, evs: Seq<TimedEvent>)
    requires
        within_burst_window(cfg, st, evs),
        times_admissible(st, evs),
    ensures
        spec_run(cfg, st, evs).current >= st.current,
        forall|j: int|
            0 <= j < evs.len() && (#[trigger] evs[j]).event is Database ==> spec_run(
                cfg,
                st,
                evs,
            ).current >= evs[j].event->Database_value,
        forall|k: int|
            0 <= k < spec_writes(cfg, st, evs).len() ==> st.current <= (#[trigger] spec_writes(
                cfg,
                st,
                evs,
            )[k]) && spec_writes(cfg, st, evs)[k] <= spec_run(cfg, st, evs).current,
        forall|k1: int, k2: int|
            #![trigger spec_writes(cfg, st, evs)[k1], spec_writes(cfg, st, evs)[k2]]
            0 <= k1 <= k2 < spec_writes(cfg, st, evs).len() ==> spec_writes(cfg, st, evs)[k1]
                <= spec_writes(cfg, st, evs)[k2],
        st.last_update <= spec_run(cfg, st, evs).last_update,
        st.last_activity <= spec_run(cfg, st, evs).last_activity,
        evs.len() == 0 ==> spec_run(cfg, st, evs) == st,
        evs.len() > 0 ==> spec_run(cfg, st, evs).last_update <= evs.last().at && spec_run(
            cfg,
            st,
            evs,
        ).last_activity <= evs.last().at,
    decreases evs.len(),
{
    if evs.len() > 0 {
        let st1 = spec_apply(cfg, st, evs[0].event, evs[0].at);
        let rest = evs.drop_first();
        assert(st1.current >= st.current);
        assert(evs[0].event is Database ==> st1.current >= evs[0].event->Database_value);
        assert forall|i: int| 0 <= i < rest.len() implies st1.last_update <= (
        #[trigger] rest[i].at) && rest[i].at < st1.last_update + cfg.expire_millis && rest[i].at
            >= st1.last_activity by {
            assert(rest[i] == evs[i + 1]);
            assert(evs[0].at <= evs[i + 1].at);
        }
        assert forall|i: int, j: int|
            #![trigger rest[i].at, rest[j].at]
            0 <= i <= j < rest.len() implies rest[i].at <= rest[j].at by {
            assert(rest[i] == evs[i + 1]);
            assert(rest[j] == evs[j + 1]);
        }
        lemma_burst_window(cfg, st1, rest);
        assert(spec_run(cfg, st, evs) == spec_run(cfg, st1, rest));
        assert(spec_writes(cfg, st, evs) == (match spec_step(cfg, st, evs[0].event, evs[0].at).1 {
            FlushAction::Flush(v) => seq![v],
            _ => Seq::<usize>::empty(),
        }) + spec_writes(cfg, st1, rest));
        assert forall|j: int|
            0 <= j < evs.len() && (#[trigger] evs[j]).event is Database implies spec_run(
            cfg,
            st,
            evs,
        ).current >= evs[j].event->Database_value by {
            if j > 0 {
                assert(rest[j - 1] == evs[j]);
            }
        }
        assert forall|k: int| 0 <= k < spec_writes(cfg, st, evs).len() implies st.current <= (
        #[trigger] spec_writes(cfg, st, evs)[k]) && spec_writes(cfg, st, evs)[k] <= spec_run(
            cfg,
            st,
            evs,
        ).current by {
            let head = (match spec_step(cfg, st, evs[0].event, evs[0].at).1 {
                FlushAction::Flush(v) => seq![v],
                _ => Seq::<usize>::empty(),
            });
            if k >= head.len() {
                assert(spec_writes(cfg, st, evs)[k] == spec_writes(cfg, st1, rest)[k - head.len()]);
            }
        }
        if rest.len() > 0 {
            assert(rest.last() == evs.last());
        }
    }
}

/// LAW (the window holds its peak): once some value `m` has been
/// notified inside the window, every cache write requested later in the
/// same window is at least `m` — transient dips are absorbed and never
/// reach the cache.
pub proof fn lemma_window_writes_hold_peak(
    cfg: BurstConfig,
    st: AggregatorState,
    evs1: Seq<TimedEvent>,
    evs2: Seq<TimedEvent>,
    j: int,
)
    requires
        within_burst_window(cfg, st, evs1 + evs2),
        times_admissible(st, evs1 + evs2),
        0 <= j < evs1.len(),
        evs1[j].event is Database,
    ensures
        forall|k: int|
            0 <= k < spec_writes(cfg, spec_run(cfg, st, evs1), evs2).len() ==> (
            #[trigger] spec_writes(cfg, spec_run(cfg, st, evs1), evs2)[k])
                >= evs1[j].event->Database_value,
{
    let all = evs1 + evs2;
    assert forall|i: int|
        0 <= i < evs1.len() implies st.last_update <= (#[trigger] evs1[i].at) && evs1[i].at
        < st.last_update + cfg.expire_millis && evs1[i].at >= st.last_activity by {
        assert(evs1[i] == all[i]);
    }
    assert forall|i: int, j2: int|
        #![trigger evs1[i].at, evs1[j2].at]
        0 <= i <= j2 < evs1.len() implies evs1[i].at <= evs1[j2].at by {
        assert(evs1[i] == all[i]);
        assert(evs1[j2] == all[j2]);
    }
    lemma_burst_window(cfg, st, evs1);
    let st1 = spec_run(cfg, st, evs1);
    assert(st1.current >= evs1[j].event->Database_value);
    assert forall|i: int|
        0 <= i < evs2.len() implies st1.last_update <= (#[trigger] evs2[i].at) && evs2[i].at
        < st1.last_update + cfg.expire_millis && evs2[i].at >= st1.last_activity by {
        assert(evs2[i] == all[evs1.len() + i]);
        assert(evs1.last() == all[evs1.len() - 1]);
        assert(all[evs1.len() - 1].at <= all[evs1.len() + i].at);
    }
    assert forall|i: int, j2: int|
        #![trigger evs2[i].at, evs2[j2].at]
        0 <= i <= j2 < evs2.len() implies evs2[i].at <= evs2[j2].at by {
        assert(evs2[i] == all[evs1.len() + i]);
        assert(evs2[j2] == all[evs1.len() + j2]);
    }
    lemma_burst_window(cfg, st1, evs2);
}

} // verus!

//! Whole runs of a session: what holds of every sequence of events.

use crate::relay::{
    truncated, Effect, Event, SessionState, Side, BUFFER_SIZE, CHECK_INTERVAL, MAX_INACTIVITY,
};
use vstd::prelude::*;

verus! {

/// The state that a session reaches from `from` through `events`, taken one
/// after another.
pub open spec fn run(from: SessionState, events: Seq<Event>) -> SessionState
    decreases events.len(),
{
    if events.len() == 0 {
        from
    } else {
        run(from, events.drop_last()).next(events.last())
    }
}

/// The number of completion signals that the session gives out on that way.
pub open spec fn signals(from: SessionState, events: Seq<Event>) -> nat
    decreases events.len(),
{
    if events.len() == 0 {
        0
    } else {
        let before = signals(from, events.drop_last());
        if run(from, events.drop_last()).effect(events.last()) is Complete {
            before + 1
        } else {
            before
        }
    }
}

/// Whether `event` is a datagram that arrived on `side`.
pub open spec fn arrives_on(event: Event, side: Side) -> bool {
    event matches Event::Datagram { side: at, .. } && at == side
}

/// Whether `event` is a datagram.
pub open spec fn is_traffic(event: Event) -> bool {
    event is Datagram
}

/// A datagram that fits the buffer is sent on as it came: the same bytes, in
/// the same number, to the endpoint last known for the other side.
pub proof fn lemma_datagram_is_forwarded_unchanged(state: SessionState, event: Event)
    requires
        state.running,
        event matches Event::Datagram { payload, .. } && payload@.len() <= BUFFER_SIZE,
    ensures
        event matches Event::Datagram { side, payload, .. } && state.effect(event)
            == (Effect::Forward {
            via: side.opposite(),
            target: state.last_known(side.opposite()),
            payload: payload@,
        }),
{
}

/// A longer datagram is not refused: its first [`BUFFER_SIZE`] bytes are
/// sent on.
pub proof fn lemma_long_datagram_is_cut(state: SessionState, event: Event)
    requires
        state.running,
        event matches Event::Datagram { payload, .. } && payload@.len() > BUFFER_SIZE,
    ensures
        event matches Event::Datagram { side, payload, .. } && state.effect(event)
            == (Effect::Forward {
            via: side.opposite(),
            target: state.last_known(side.opposite()),
            payload: payload@.subrange(0, BUFFER_SIZE as int),
        }),
{
}

/// Ports and configured endpoints never change, and a session that has ended
/// stays ended.
pub proof fn lemma_run_keeps_identity(from: SessionState, events: Seq<Event>)
    ensures
        run(from, events).entity_a == from.entity_a,
        run(from, events).entity_b == from.entity_b,
        !from.running ==> run(from, events) == from,
        run(from, events).running ==> from.running,
    decreases events.len(),
{
    if events.len() > 0 {
        lemma_run_keeps_identity(from, events.drop_last());
    }
}

/// After its end a session does nothing: every event is answered with
/// `Stop`, so nothing is sent, nothing is awaited and no second signal is
/// given.
pub proof fn lemma_ended_session_is_silent(state: SessionState, event: Event)
    requires
        !state.running,
    ensures
        state.next(event) == state,
        state.effect(event) == Effect::Stop,
{
}

/// A session gives its completion signal exactly once, in the step that ends
/// it, whatever ended it: none while it runs, one from its end on, however
/// many events follow. The signal carries the session's two ports.
pub proof fn lemma_one_completion_signal(from: SessionState, events: Seq<Event>)
    requires
        from.running,
    ensures
        signals(from, events) == if run(from, events).running {
            0nat
        } else {
            1nat
        },
        forall|k: int|
            0 <= k < events.len() && #[trigger] run(from, events.take(k)).effect(events[k])
                is Complete ==> run(from, events.take(k)).effect(events[k]) == (Effect::Complete {
                port_a: from.entity_a.port,
                port_b: from.entity_b.port,
            }),
    decreases events.len(),
{
    if events.len() > 0 {
        lemma_one_completion_signal(from, events.drop_last());
        assert forall|k: int|
            0 <= k < events.len() && #[trigger] run(from, events.take(k)).effect(events[k])
                is Complete implies run(from, events.take(k)).effect(events[k])
            == (Effect::Complete {
            port_a: from.entity_a.port,
            port_b: from.entity_b.port,
        }) by {
            lemma_run_keeps_identity(from, events.take(k));
        }
    }
}

/// The source of a datagram replaces the endpoint of its side, whether or not
/// it is the configured one, and stays the target of everything meant for
/// that side until another datagram arrives there: after any further events
/// that bring no datagram on `side`, a datagram from the other side is sent
/// to that source.
pub proof fn lemma_rebinding_lasts(
    from: SessionState,
    rebinding: Event,
    side: Side,
    later: Seq<Event>,
    reply: Event,
)
    requires
        from.running,
        arrives_on(rebinding, side),
        forall|k: int| 0 <= k < later.len() ==> !arrives_on(#[trigger] later[k], side),
        run(from.next(rebinding), later).running,
        arrives_on(reply, side.opposite()),
    ensures
        ({
            let reached = run(from.next(rebinding), later);
            &&& rebinding matches Event::Datagram { source, .. }
            &&& reply matches Event::Datagram { payload, .. }
            &&& reached.last_known(side) == source
            &&& reached.effect(reply) == (Effect::Forward {
                via: side,
                target: source,
                payload: truncated(payload@),
            })
        }),
    decreases later.len(),
{
    if later.len() > 0 {
        lemma_rebinding_lasts(from, rebinding, side, later.drop_last(), reply);
    }
}

/// While no datagram arrives, the time of the latest activity stands still.
pub proof fn lemma_silence_keeps_last_activity(from: SessionState, quiet: Seq<Event>)
    requires
        forall|k: int| 0 <= k < quiet.len() ==> !is_traffic(#[trigger] quiet[k]),
    ensures
        run(from, quiet).last_activity == from.last_activity,
    decreases quiet.len(),
{
    if quiet.len() > 0 {
        lemma_silence_keeps_last_activity(from, quiet.drop_last());
    }
}

/// An idle session is ended by its watchdog. If no datagram arrives any
/// more, the watchdog checks at a time `now` that lies more than
/// [`MAX_INACTIVITY`] after the latest activity, and the loop then comes to
/// the start of a wait cycle or finds its wait timed out, the session is
/// over, and it has given exactly one completion signal.
pub proof fn lemma_idle_session_ends(
    from: SessionState,
    quiet: Seq<Event>,
    now: u64,
    boundary: Event,
)
    requires
        from.running,
        forall|k: int| 0 <= k < quiet.len() ==> !is_traffic(#[trigger] quiet[k]),
        from.expired(now),
        boundary is CycleStart || boundary is WaitTimedOut,
    ensures
        !run(from, quiet.push(Event::WatchdogTick { now }).push(boundary)).running,
        signals(from, quiet.push(Event::WatchdogTick { now }).push(boundary)) == 1,
{
    let ticked = quiet.push(Event::WatchdogTick { now });
    let whole = ticked.push(boundary);
    lemma_silence_keeps_last_activity(from, quiet);
    assert(ticked.drop_last() =~= quiet);
    assert(whole.drop_last() =~= ticked);
    lemma_one_completion_signal(from, whole);
}

/// The time of the watchdog's check number `number`, counted from zero, when
/// its first check is at `first_check` and it checks every
/// [`CHECK_INTERVAL`].
pub open spec fn check_time(first_check: int, number: nat) -> int {
    first_check + number * CHECK_INTERVAL
}

/// The watchdog notices idleness no later than one interval after the
/// threshold has passed. Let the session be idle since `last_activity`, and
/// let the first check come before the threshold has passed. Then the check
/// number `checks` is the first to find the session idle for more than
/// [`MAX_INACTIVITY`], and by then the session has been idle for at most one
/// interval longer than that.
pub proof fn lemma_watchdog_latency(last_activity: int, first_check: int) -> (checks: nat)
    requires
        first_check - last_activity <= MAX_INACTIVITY,
    ensures
        check_time(first_check, checks) - last_activity > MAX_INACTIVITY,
        check_time(first_check, checks) - last_activity <= MAX_INACTIVITY + CHECK_INTERVAL,
        forall|earlier: nat|
            earlier < checks ==> #[trigger] check_time(first_check, earlier) - last_activity
                <= MAX_INACTIVITY,
{
    let interval = CHECK_INTERVAL as int;
    let left = last_activity + MAX_INACTIVITY - first_check;
    let full = left / interval;
    assert(left == interval * full + left % interval && 0 <= left % interval < interval) by {
        vstd::arithmetic::div_mod::lemma_fundamental_div_mod(left, interval);
    }
    let checks = (full + 1) as nat;
    assert(checks * interval == interval * full + interval) by (nonlinear_arith)
        requires
            checks == full + 1,
    ;
    assert forall|earlier: nat| earlier < checks implies #[trigger] check_time(
        first_check,
        earlier,
    ) - last_activity <= MAX_INACTIVITY by {
        assert(earlier * interval <= interval * full) by (nonlinear_arith)
            requires
                0 <= earlier <= full,
                0 < interval,
        ;
    }
    checks
}

} // verus!

use crate::alert::alert_text;
use crate::door_state::DoorState;
use crate::state::{State, Timestamp};
use vstd::prelude::*;

verus! {

/// One write that reaches the shared record: a sample handled by the
/// aggregator, or a notifier tick that found an alert owed and tried to
/// deliver it.
pub enum Event {
    /// A door state sampled at the given time.
    Sample(DoorState, u64),
    /// A notifier tick at the given time; the flag says whether delivery succeeded.
    Tick(u64, bool),
}

/// The notifier's update on one tick: `notified_at` is set only where an
/// alert was owed and delivered.
pub open spec fn notify(s: State, now: u64, delivered: bool) -> State {
    if delivered && alert_text(s.timestamp, s.notified_at, now) is Some {
        State { notified_at: Some(now), ..s }
    } else {
        s
    }
}

pub open spec fn step(s: State, e: Event) -> State {
    match e {
        Event::Sample(sample, now) => s.next(sample, now),
        Event::Tick(now, delivered) => notify(s, now, delivered),
    }
}

/// Whether the event is a successful delivery of an alert.
pub open spec fn alerted(s: State, e: Event) -> bool {
    match e {
        Event::Sample(_, _) => false,
        Event::Tick(now, delivered) => delivered && alert_text(s.timestamp, s.notified_at, now) is Some,
    }
}

/// The record after the events, in order, starting from `s`.
pub open spec fn run(s: State, events: Seq<Event>) -> State
    decreases events.len(),
{
    if events.len() == 0 {
        s
    } else {
        step(run(s, events.drop_last()), events.last())
    }
}

/// How many alerts were delivered over the events.
pub open spec fn alerts_sent(s: State, events: Seq<Event>) -> nat
    decreases events.len(),
{
    if events.len() == 0 {
        0
    } else {
        alerts_sent(s, events.drop_last()) + if alerted(run(s, events.drop_last()), events.last()) {
            1nat
        } else {
            0nat
        }
    }
}

pub open spec fn is_closed_sample(e: Event) -> bool {
    match e {
        Event::Sample(sample, _) => sample == DoorState::Closed,
        Event::Tick(_, _) => false,
    }
}

pub open spec fn is_unknown_sample_or_tick(e: Event) -> bool {
    match e {
        Event::Sample(sample, _) => sample == DoorState::Unknown,
        Event::Tick(_, _) => true,
    }
}

proof fn lemma_run_prefix(s: State, events: Seq<Event>, i: int)
    requires
        0 <= i < events.len(),
    ensures
        run(s, events.take(i + 1)) == step(run(s, events.take(i)), events[i]),
{
    assert(events.take(i + 1).drop_last() == events.take(i));
}

/// Re-arming: whenever an event starts a new open episode, the record holds
/// no notification time right after it, whatever came before.
pub proof fn lemma_new_episode_clears_notification(s: State, events: Seq<Event>, i: int)
    requires
        0 <= i < events.len(),
        !(run(s, events.take(i)).timestamp is OpenSince),
        run(s, events.take(i + 1)).timestamp is OpenSince,
    ensures
        run(s, events.take(i + 1)).notified_at is None,
{
    lemma_run_prefix(s, events, i);
}

/// Within one open episode (no `Closed` sample arrives), at most one alert is
/// delivered, and none if one had already been delivered when it was observed.
pub proof fn lemma_at_most_one_alert_per_episode(s: State, events: Seq<Event>)
    requires
        s.timestamp is OpenSince,
        forall|i: int| 0 <= i < events.len() ==> !is_closed_sample(#[trigger] events[i]),
    ensures
        alerts_sent(s, events) <= 1,
        s.notified_at is Some ==> alerts_sent(s, events) == 0,
        run(s, events).timestamp == s.timestamp,
{
    lemma_episode_run(s, events);
}

proof fn lemma_episode_run(s: State, events: Seq<Event>)
    requires
        s.timestamp is OpenSince,
        forall|i: int| 0 <= i < events.len() ==> !is_closed_sample(#[trigger] events[i]),
    ensures
        run(s, events).timestamp == s.timestamp,
        alerts_sent(s, events) <= 1,
        alerts_sent(s, events) == 1 ==> run(s, events).notified_at is Some,
        alerts_sent(s, events) == 0 ==> run(s, events).notified_at == s.notified_at,
        s.notified_at is Some ==> alerts_sent(s, events) == 0,
    decreases events.len(),
{
    if events.len() > 0 {
        let prefix = events.drop_last();
        assert forall|i: int| 0 <= i < prefix.len() implies !is_closed_sample(#[trigger] prefix[i]) by {
            assert(prefix[i] == events[i]);
        }
        lemma_episode_run(s, prefix);
        assert(!is_closed_sample(events[events.len() - 1]));
    }
}

/// A sensor that is never read (only `Unknown` samples arrive, between any
/// notifier ticks) keeps the record at unknown from the initial state on, and
/// no alert is ever delivered.
pub proof fn lemma_unreadable_sensor_never_alerts(events: Seq<Event>)
    requires
        forall|i: int| 0 <= i < events.len() ==> is_unknown_sample_or_tick(#[trigger] events[i]),
    ensures
        run(State::initial(), events) == State::initial(),
        alerts_sent(State::initial(), events) == 0,
    decreases events.len(),
{
    if events.len() > 0 {
        let prefix = events.drop_last();
        assert forall|i: int| 0 <= i < prefix.len() implies is_unknown_sample_or_tick(#[trigger] prefix[i]) by {
            assert(prefix[i] == events[i]);
        }
        lemma_unreadable_sensor_never_alerts(prefix);
        assert(is_unknown_sample_or_tick(events[events.len() - 1]));
    }
}

/// Door state and episode stay consistent over any run of writes from a
/// consistent record (the initial one included).
pub proof fn lemma_run_keeps_consistency(s: State, events: Seq<Event>)
    requires
        s.wf(),
    ensures
        run(s, events).wf(),
    decreases events.len(),
{
    if events.len() > 0 {
        lemma_run_keeps_consistency(s, events.drop_last());
    }
}

/// A sample equal to the current door state changes nothing in a consistent
/// record, so the equality-gated write is skipped and `notified_at` stays.
pub proof fn lemma_same_sample_is_noop(s: State, now: u64)
    requires
        s.wf(),
    ensures
        s.next(s.door_state, now) == s,
{
}

} // verus!

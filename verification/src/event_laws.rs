//! What emitting and recording do to events and intents.

use vstd::prelude::*;

use crate::journal::{
    FighterPresentationIntentMetrics, intents_after_record, kept_through, lookup,
    metrics_after_record,
};
use crate::pending::{
    PendingFighterPresentationEvent, PendingFighterPresentationIntent, events_after_pending,
    intents_after_pending, metrics_after_pending,
};
use crate::presentation::FighterPresentationIntent;
use crate::sim_event::{
    SimEvent, SimEventId, SimEventKind, SimEventSource, events_after_emit,
};
use crate::ticks::SimTick;

verus! {

/// An event comes behind all others, named by its tick, its source and how many came
/// before it. A full buffer takes no more.
pub proof fn events_line_up(
    tick: SimTick,
    capacity: usize,
    events: Seq<SimEvent>,
    source: SimEventSource,
    kind: SimEventKind,
)
    requires
        events.len() <= u16::MAX,
    ensures
        ({
            let after = events_after_emit(tick, capacity, events, source, kind);
            &&& events.len() >= capacity ==> after == events
            &&& events.len() < capacity ==> {
                &&& after.len() == events.len() + 1
                &&& after.last().kind == kind
                &&& after.last().id.tick == tick
                &&& after.last().id.source == source
                &&& after.last().id.ordinal == events.len()
                &&& forall|i: int| 0 <= i < events.len() ==> #[trigger] after[i] == events[i]
            }
        }),
{
}

/// A journal takes an intent whose ordinal fits, under its tick and ordinal. It keeps
/// everything else of that tick, and every other tick that does not share its place in
/// the ring, and forgets those that do.
pub proof fn records_keep_the_others(
    intents: Map<(u64, u16), FighterPresentationIntent>,
    intent: FighterPresentationIntent,
    history: nat,
    per_tick: nat,
    key: (u64, u16),
)
    requires
        0 < history <= u64::MAX,
    ensures
        ({
            let after = intents_after_record(intents, intent, history, per_tick);
            let tick = intent.event_id.tick.0;
            let own = (tick, intent.event_id.ordinal);
            let shares = key.0 != tick && key.0 % (history as u64) == tick % (history as u64);
            &&& intent.event_id.ordinal >= per_tick ==> after == intents
            &&& intent.event_id.ordinal < per_tick ==> {
                &&& after.contains_key(own)
                &&& after[own] == intent
                &&& key != own ==> (after.contains_key(key) <==> intents.contains_key(key)
                    && !shares)
                &&& key != own && after.contains_key(key) ==> after[key] == intents[key]
            }
        }),
{
}

/// A journal counts what it takes, what that replaced, and what it refuses.
pub proof fn records_are_counted(
    metrics: FighterPresentationIntentMetrics,
    intents: Map<(u64, u16), FighterPresentationIntent>,
    intent: FighterPresentationIntent,
    per_tick: nat,
)
    requires
        metrics.recorded < u64::MAX,
        metrics.replaced < u64::MAX,
        metrics.rejected < u64::MAX,
    ensures
        ({
            let after = metrics_after_record(metrics, intents, intent, per_tick);
            let taken = intent.event_id.ordinal < per_tick;
            let again = intents.contains_key(
                (intent.event_id.tick.0, intent.event_id.ordinal),
            );
            &&& after.recorded == metrics.recorded + (if taken {
                1int
            } else {
                0int
            })
            &&& after.replaced == metrics.replaced + (if taken && again {
                1int
            } else {
                0int
            })
            &&& after.rejected == metrics.rejected + (if taken {
                0int
            } else {
                1int
            })
            &&& after.discarded == metrics.discarded
        }),
{
}

/// What is kept through a tick is everything up to it, unchanged. An intent is found by
/// the whole name of its event only.
pub proof fn intents_are_kept_and_found(
    intents: Map<(u64, u16), FighterPresentationIntent>,
    through: u64,
    key: (u64, u16),
    id: SimEventId,
)
    ensures
        kept_through(intents, through).contains_key(key) <==> intents.contains_key(key) && key.0
            <= through,
        kept_through(intents, through).contains_key(key) ==> kept_through(intents, through)[key]
            == intents[key],
        ({
            let own = (id.tick.0, id.ordinal);
            lookup(intents, id) == (if intents.contains_key(own) && intents[own].event_id == id {
                Some(intents[own])
            } else {
                None
            })
        }),
{
}

/// What is pending becomes an event of its fighter, and an intent under that very
/// event's name, with the name and payload that it brought along. With no room for the
/// event nothing is recorded.
pub proof fn pending_intents_follow_their_event(
    tick: SimTick,
    capacity: usize,
    events: Seq<SimEvent>,
    metrics: FighterPresentationIntentMetrics,
    intents: Map<(u64, u16), FighterPresentationIntent>,
    history: nat,
    per_tick: nat,
    pending: PendingFighterPresentationIntent,
)
    requires
        events.len() < per_tick <= u16::MAX,
    ensures
        ({
            let shown = events_after_pending(tick, capacity, events, pending);
            let after = intents_after_pending(
                tick,
                capacity,
                events,
                intents,
                history,
                per_tick,
                pending,
            );
            let own = (tick.0, events.len() as u16);
            &&& events.len() >= capacity ==> shown == events && after == intents
                && metrics_after_pending(
                tick,
                capacity,
                events,
                metrics,
                intents,
                per_tick,
                pending,
            ) == metrics
            &&& events.len() < capacity ==> {
                &&& shown.last().id.source == SimEventSource::Fighter(pending.fighter)
                &&& pending.event matches PendingFighterPresentationEvent::Lifecycle(event)
                    ==> shown.last().kind == SimEventKind::FighterLifecycle {
                    fighter: pending.fighter,
                    event,
                }
                &&& pending.event is Respawned ==> shown.last().kind
                    == SimEventKind::FighterRespawned { fighter: pending.fighter }
                &&& after.contains_key(own)
                &&& after[own].event_id == shown.last().id
                &&& after[own].fighter == pending.fighter
                &&& after[own].fighter_name == pending.fighter_name
                &&& after[own].kind == pending.kind
            }
        }),
{
}

} // verus!

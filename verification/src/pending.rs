//! Presentation intents gathered while the fighters are walked in storage order
//! and emitted in canonical fighter order.

use vstd::prelude::*;

use crate::ids::{FighterId, FIGHTER_COUNT};
use crate::journal::{
    FighterPresentationIntentJournal, FighterPresentationIntentMetrics, intents_after_record,
    lookup, metrics_after_record, recorded_intent_is_found,
};
use crate::presentation::{FighterPresentationIntent, FighterPresentationKind};
use crate::sim_event::{
    FighterLifecycleEvent, SimEvent, SimEventId, SimEventKind, SimEventSource, TickEventBuffer,
    buffers_are_bounded, events_after_emit,
};
use crate::ticks::SimTick;

verus! {

/// The event that a pending intent will emit.
#[derive(Clone, Copy, Debug, PartialEq, Eq, Structural)]
pub enum PendingFighterPresentationEvent {
    Lifecycle(FighterLifecycleEvent),
    Respawned,
}

#[derive(Clone, Copy, Debug, PartialEq, Eq)]
pub struct PendingFighterPresentationIntent {
    pub fighter: FighterId,
    pub fighter_name: &'static str,
    pub event: PendingFighterPresentationEvent,
    pub kind: FighterPresentationKind,
}

/// The meaning of the event that a pending intent emits.
pub open spec fn pending_event_kind(pending: PendingFighterPresentationIntent) -> SimEventKind {
    match pending.event {
        PendingFighterPresentationEvent::Lifecycle(event) => SimEventKind::FighterLifecycle {
            fighter: pending.fighter,
            event,
        },
        PendingFighterPresentationEvent::Respawned => SimEventKind::FighterRespawned {
            fighter: pending.fighter,
        },
    }
}

/// The events after one pending intent is emitted. They do not depend on whether
/// anyone records presentation.
pub open spec fn events_after_pending(
    tick: SimTick,
    capacity: usize,
    events: Seq<SimEvent>,
    pending: PendingFighterPresentationIntent,
) -> Seq<SimEvent> {
    events_after_emit(
        tick,
        capacity,
        events,
        SimEventSource::Fighter(pending.fighter),
        pending_event_kind(pending),
    )
}

/// The intent that a pending one becomes when its event takes place `ordinal`.
pub open spec fn intent_for_pending(
    tick: SimTick,
    ordinal: u16,
    pending: PendingFighterPresentationIntent,
) -> FighterPresentationIntent {
    FighterPresentationIntent {
        event_id: SimEventId { tick, source: SimEventSource::Fighter(pending.fighter), ordinal },
        fighter: pending.fighter,
        fighter_name: pending.fighter_name,
        kind: pending.kind,
    }
}

/// The recorded intents after one pending intent is emitted: recorded exactly
/// when its event was accepted.
pub open spec fn intents_after_pending(
    tick: SimTick,
    capacity: usize,
    events: Seq<SimEvent>,
    intents: Map<(u64, u16), FighterPresentationIntent>,
    history: nat,
    per_tick: nat,
    pending: PendingFighterPresentationIntent,
) -> Map<(u64, u16), FighterPresentationIntent> {
    if events.len() < capacity {
        intents_after_record(
            intents,
            intent_for_pending(tick, events.len() as u16, pending),
            history,
            per_tick,
        )
    } else {
        intents
    }
}

/// The journal's totals after one pending intent is emitted: one that was accepted
/// is offered once, any other not at all.
pub open spec fn metrics_after_pending(
    tick: SimTick,
    capacity: usize,
    events: Seq<SimEvent>,
    metrics: FighterPresentationIntentMetrics,
    intents: Map<(u64, u16), FighterPresentationIntent>,
    per_tick: nat,
    pending: PendingFighterPresentationIntent,
) -> FighterPresentationIntentMetrics {
    if events.len() < capacity {
        metrics_after_record(
            metrics,
            intents,
            intent_for_pending(tick, events.len() as u16, pending),
            per_tick,
        )
    } else {
        metrics
    }
}

/// The events after a run of pending intents, first to last.
pub open spec fn events_after_run(
    tick: SimTick,
    capacity: usize,
    events: Seq<SimEvent>,
    run: Seq<PendingFighterPresentationIntent>,
) -> Seq<SimEvent>
    decreases run.len(),
{
    if run.len() == 0 {
        events
    } else {
        events_after_pending(
            tick,
            capacity,
            events_after_run(tick, capacity, events, run.drop_last()),
            run.last(),
        )
    }
}

/// The recorded intents after a run of pending intents, first to last.
pub open spec fn intents_after_run(
    tick: SimTick,
    capacity: usize,
    events: Seq<SimEvent>,
    intents: Map<(u64, u16), FighterPresentationIntent>,
    history: nat,
    per_tick: nat,
    run: Seq<PendingFighterPresentationIntent>,
) -> Map<(u64, u16), FighterPresentationIntent>
    decreases run.len(),
{
    if run.len() == 0 {
        intents
    } else {
        intents_after_pending(
            tick,
            capacity,
            events_after_run(tick, capacity, events, run.drop_last()),
            intents_after_run(tick, capacity, events, intents, history, per_tick, run.drop_last()),
            history,
            per_tick,
            run.last(),
        )
    }
}

/// The journal's totals after a run of pending intents, first to last.
pub open spec fn metrics_after_run(
    tick: SimTick,
    capacity: usize,
    events: Seq<SimEvent>,
    metrics: FighterPresentationIntentMetrics,
    intents: Map<(u64, u16), FighterPresentationIntent>,
    history: nat,
    per_tick: nat,
    run: Seq<PendingFighterPresentationIntent>,
) -> FighterPresentationIntentMetrics
    decreases run.len(),
{
    if run.len() == 0 {
        metrics
    } else {
        metrics_after_pending(
            tick,
            capacity,
            events_after_run(tick, capacity, events, run.drop_last()),
            metrics_after_run(
                tick,
                capacity,
                events,
                metrics,
                intents,
                history,
                per_tick,
                run.drop_last(),
            ),
            intents_after_run(tick, capacity, events, intents, history, per_tick, run.drop_last()),
            per_tick,
            run.last(),
        )
    }
}

/// A run only ever appends, at most one event per pending intent, and none once
/// the buffer is full.
pub proof fn run_only_appends(
    tick: SimTick,
    capacity: usize,
    events: Seq<SimEvent>,
    run: Seq<PendingFighterPresentationIntent>,
)
    requires
        events.len() <= capacity,
    ensures
        events.is_prefix_of(events_after_run(tick, capacity, events, run)),
        events_after_run(tick, capacity, events, run).len() == (if events.len() + run.len()
            <= capacity {
            events.len() + run.len()
        } else {
            capacity as nat
        }),
    decreases run.len(),
{
    if run.len() > 0 {
        run_only_appends(tick, capacity, events, run.drop_last());
    }
}

/// The event of a pending intent that comes behind `earlier` events.
pub open spec fn event_for_pending(
    tick: SimTick,
    earlier: nat,
    pending: PendingFighterPresentationIntent,
) -> SimEvent {
    SimEvent {
        id: SimEventId {
            tick,
            source: SimEventSource::Fighter(pending.fighter),
            ordinal: earlier as u16,
        },
        kind: pending_event_kind(pending),
    }
}

/// Every pending intent that still fits becomes an event, in the order of the run,
/// and its event's name finds the intent in the journal afterwards, as long as its
/// ordinal is below the journal's per-tick limit.
pub proof fn emitted_intents_are_found(
    tick: SimTick,
    capacity: usize,
    events: Seq<SimEvent>,
    intents: Map<(u64, u16), FighterPresentationIntent>,
    history: nat,
    per_tick: nat,
    run: Seq<PendingFighterPresentationIntent>,
    place: int,
)
    requires
        capacity <= u16::MAX,
        events.len() <= capacity,
        0 <= place < run.len(),
        events.len() + place < capacity,
    ensures
        ({
            let ordinal = events.len() + place;
            let emitted = events_after_run(tick, capacity, events, run);
            let recorded = intents_after_run(
                tick,
                capacity,
                events,
                intents,
                history,
                per_tick,
                run,
            );
            let event = event_for_pending(tick, ordinal as nat, run[place]);
            &&& ordinal < emitted.len()
            &&& emitted[ordinal] == event
            &&& ordinal < per_tick ==> lookup(recorded, event.id) == Some(
                intent_for_pending(tick, ordinal as u16, run[place]),
            )
        }),
    decreases run.len(),
{
    let before = run.drop_last();
    let earlier = events_after_run(tick, capacity, events, before);
    let kept = intents_after_run(tick, capacity, events, intents, history, per_tick, before);
    run_only_appends(tick, capacity, events, before);
    let ordinal = events.len() + place;
    let event = event_for_pending(tick, ordinal as nat, run[place]);
    if place < before.len() {
        emitted_intents_are_found(
            tick,
            capacity,
            events,
            intents,
            history,
            per_tick,
            before,
            place,
        );
        if earlier.len() < capacity && earlier.len() < per_tick {
            recorded_intent_is_found(
                kept,
                intent_for_pending(tick, earlier.len() as u16, run.last()),
                history,
                per_tick,
                event.id,
            );
        }
    } else if ordinal < per_tick {
        recorded_intent_is_found(
            kept,
            intent_for_pending(tick, earlier.len() as u16, run.last()),
            history,
            per_tick,
            event.id,
        );
    }
}

/// The events depend on nothing that is only shown: two runs that agree on fighters
/// and transitions emit the same events, wherever their intents are and whatever
/// they are called.
pub proof fn events_ignore_what_is_shown(
    tick: SimTick,
    capacity: usize,
    events: Seq<SimEvent>,
    left: Seq<PendingFighterPresentationIntent>,
    right: Seq<PendingFighterPresentationIntent>,
)
    requires
        left.len() == right.len(),
        forall|i: int|
            0 <= i < left.len() ==> (#[trigger] left[i]).fighter == right[i].fighter
                && left[i].event == right[i].event,
    ensures
        events_after_run(tick, capacity, events, left) == events_after_run(
            tick,
            capacity,
            events,
            right,
        ),
    decreases left.len(),
{
    if left.len() > 0 {
        assert(left[left.len() - 1].fighter == right[right.len() - 1].fighter);
        events_ignore_what_is_shown(tick, capacity, events, left.drop_last(), right.drop_last());
    }
}

/// Emits one pending intent: the event always, the render-side record only where
/// a journal is kept and the event was accepted.
pub fn emit_fighter_presentation_intent(
    sim_events: &mut TickEventBuffer,
    presentation_intents: Option<&mut FighterPresentationIntentJournal>,
    pending: PendingFighterPresentationIntent,
)
    requires
        old(sim_events).wf(),
        presentation_intents.is_some() ==> old(presentation_intents.unwrap()).wf(),
    ensures
        final(sim_events).wf(),
        final(sim_events).spec_tick() == old(sim_events).spec_tick(),
        final(sim_events).spec_capacity() == old(sim_events).spec_capacity(),
        final(sim_events)@ == events_after_pending(
            old(sim_events).spec_tick(),
            old(sim_events).spec_capacity(),
            old(sim_events)@,
            pending,
        ),
        presentation_intents.is_some() ==> {
            let journal = presentation_intents.unwrap();
            let before = *journal;
            &&& final(journal).wf()
            &&& final(journal).history_ticks() == before.history_ticks()
            &&& final(journal).spec_events_per_tick() == before.spec_events_per_tick()
            &&& final(journal)@ == intents_after_pending(
                old(sim_events).spec_tick(),
                old(sim_events).spec_capacity(),
                old(sim_events)@,
                before@,
                before.history_ticks(),
                before.spec_events_per_tick(),
                pending,
            )
            &&& final(journal).spec_metrics() == metrics_after_pending(
                old(sim_events).spec_tick(),
                old(sim_events).spec_capacity(),
                old(sim_events)@,
                before.spec_metrics(),
                before@,
                before.spec_events_per_tick(),
                pending,
            )
        },
{
    let kind = match pending.event {
        PendingFighterPresentationEvent::Lifecycle(event) => SimEventKind::FighterLifecycle {
            fighter: pending.fighter,
            event,
        },
        PendingFighterPresentationEvent::Respawned => SimEventKind::FighterRespawned {
            fighter: pending.fighter,
        },
    };
    match sim_events.emit(SimEventSource::Fighter(pending.fighter), kind) {
        Ok(event_id) => {
            if let Some(journal) = presentation_intents {
                let _ = journal.record(
                    FighterPresentationIntent {
                        event_id,
                        fighter: pending.fighter,
                        fighter_name: pending.fighter_name,
                        kind: pending.kind,
                    },
                );
            }
        },
        Err(_) => {},
    }
}

/// How many intents one fighter may queue in one system.
pub const MAX_FIGHTER_PRESENTATION_INTENTS_PER_SYSTEM: usize = 4;

/// Pending intents, queued per fighter.
#[derive(Debug)]
pub struct PendingFighterPresentationBuffer {
    entries: Vec<Vec<PendingFighterPresentationIntent>>,
}

/// `after` is `before` with one more intent behind its fighter's earlier ones, or
/// unchanged where that queue was full.
pub open spec fn pushed(
    before: PendingFighterPresentationBuffer,
    after: PendingFighterPresentationBuffer,
    intent: PendingFighterPresentationIntent,
) -> bool {
    &&& after.queue(intent.fighter) == (if before.queue(intent.fighter).len()
        < MAX_FIGHTER_PRESENTATION_INTENTS_PER_SYSTEM {
        before.queue(intent.fighter).push(intent)
    } else {
        before.queue(intent.fighter)
    })
    &&& forall|other: FighterId|
        other != intent.fighter ==> #[trigger] after.queue(other) == before.queue(other)
}

impl PendingFighterPresentationBuffer {
    /// What is queued for one fighter, oldest first.
    pub closed spec fn queue(&self, fighter: FighterId) -> Seq<PendingFighterPresentationIntent> {
        self.entries@[fighter.spec_index() as int]@
    }

    /// One bounded queue for each fighter, of that fighter's intents.
    pub closed spec fn wf(&self) -> bool {
        &&& self.entries@.len() == FIGHTER_COUNT
        &&& forall|i: int|
            0 <= i < self.entries@.len() ==> (#[trigger] self.entries@[i])@.len()
                <= MAX_FIGHTER_PRESENTATION_INTENTS_PER_SYSTEM
        &&& forall|i: int, j: int|
            0 <= i < self.entries@.len() && 0 <= j < self.entries@[i]@.len() ==> (
            #[trigger] self.entries@[i]@[j]).fighter.spec_index() == i
    }

    /// Everything queued, in canonical fighter order.
    pub open spec fn view(&self) -> Seq<PendingFighterPresentationIntent> {
        self.queue(FighterId::Zero) + self.queue(FighterId::One) + self.queue(FighterId::Two)
            + self.queue(FighterId::Three)
    }

    pub fn new() -> (buffer: Self)
        ensures
            buffer.wf(),
            forall|fighter: FighterId| #[trigger]
                buffer.queue(fighter) == Seq::<PendingFighterPresentationIntent>::empty(),
    {
        let mut entries: Vec<Vec<PendingFighterPresentationIntent>> = Vec::new();
        while entries.len() < FIGHTER_COUNT
            invariant
                entries@.len() <= FIGHTER_COUNT,
                forall|i: int|
                    0 <= i < entries@.len() ==> (#[trigger] entries@[i])@ == Seq::<
                        PendingFighterPresentationIntent,
                    >::empty(),
            decreases FIGHTER_COUNT - entries@.len(),
        {
            entries.push(Vec::new());
        }
        PendingFighterPresentationBuffer { entries }
    }

    /// Queues an intent behind the fighter's earlier ones; a full queue drops it.
    pub fn push(&mut self, intent: PendingFighterPresentationIntent)
        requires
            old(self).wf(),
        ensures
            final(self).wf(),
            pushed(*old(self), *final(self), intent),
    {
        let index: usize = intent.fighter.index();
        if self.entries[index].len() < MAX_FIGHTER_PRESENTATION_INTENTS_PER_SYSTEM {
            self.entries[index].push(intent);
        }
        proof {
            assert forall|other: FighterId| other != intent.fighter implies #[trigger] self.queue(
                other,
            ) == old(self).queue(other) by {}
        }
    }

    /// Emits everything queued in canonical fighter order.
    pub fn emit(
        self,
        sim_events: &mut TickEventBuffer,
        presentation_intents: Option<&mut FighterPresentationIntentJournal>,
    )
        requires
            self.wf(),
            old(sim_events).wf(),
            presentation_intents.is_some() ==> old(presentation_intents.unwrap()).wf(),
        ensures
            final(sim_events).wf(),
            final(sim_events).spec_tick() == old(sim_events).spec_tick(),
            final(sim_events).spec_capacity() == old(sim_events).spec_capacity(),
            final(sim_events)@ == events_after_run(
                old(sim_events).spec_tick(),
                old(sim_events).spec_capacity(),
                old(sim_events)@,
                self@,
            ),
            presentation_intents.is_some() ==> {
                let journal = presentation_intents.unwrap();
                let before = *journal;
                &&& final(journal).wf()
                &&& final(journal).history_ticks() == before.history_ticks()
                &&& final(journal).spec_events_per_tick() == before.spec_events_per_tick()
                &&& final(journal)@ == intents_after_run(
                    old(sim_events).spec_tick(),
                    old(sim_events).spec_capacity(),
                    old(sim_events)@,
                    before@,
                    before.history_ticks(),
                    before.spec_events_per_tick(),
                    self@,
                )
                &&& final(journal).spec_metrics() == metrics_after_run(
                    old(sim_events).spec_tick(),
                    old(sim_events).spec_capacity(),
                    old(sim_events)@,
                    before.spec_metrics(),
                    before@,
                    before.history_ticks(),
                    before.spec_events_per_tick(),
                    self@,
                )
            },
    {
        let run = self.flatten();
        match presentation_intents {
            Some(journal) => emit_recorded_run(sim_events, journal, &run),
            None => emit_run(sim_events, &run),
        }
    }

    fn flatten(self) -> (run: Vec<PendingFighterPresentationIntent>)
        requires
            self.wf(),
        ensures
            run@ == self@,
    {
        let mut run: Vec<PendingFighterPresentationIntent> = Vec::new();
        append_queue(&mut run, &self.entries[0]);
        append_queue(&mut run, &self.entries[1]);
        append_queue(&mut run, &self.entries[2]);
        append_queue(&mut run, &self.entries[3]);
        proof {
            assert(run@ =~= self@);
        }
        run
    }
}

fn append_queue(
    run: &mut Vec<PendingFighterPresentationIntent>,
    queue: &Vec<PendingFighterPresentationIntent>,
)
    ensures
        final(run)@ == old(run)@ + queue@,
{
    let mut next: usize = 0;
    while next < queue.len()
        invariant
            next <= queue@.len(),
            run@ == old(run)@ + queue@.take(next as int),
        decreases queue@.len() - next,
    {
        run.push(queue[next]);
        next += 1;
        proof {
            assert(run@ =~= old(run)@ + queue@.take(next as int));
        }
    }
    proof {
        assert(queue@.take(next as int) =~= queue@);
    }
}

/// Emits a run where nobody records presentation.
fn emit_run(sim_events: &mut TickEventBuffer, run: &Vec<PendingFighterPresentationIntent>)
    requires
        old(sim_events).wf(),
    ensures
        final(sim_events).wf(),
        final(sim_events).spec_tick() == old(sim_events).spec_tick(),
        final(sim_events).spec_capacity() == old(sim_events).spec_capacity(),
        final(sim_events)@ == events_after_run(
            old(sim_events).spec_tick(),
            old(sim_events).spec_capacity(),
            old(sim_events)@,
            run@,
        ),
{
    let ghost tick = sim_events.spec_tick();
    let ghost capacity = sim_events.spec_capacity();
    let mut next: usize = 0;
    while next < run.len()
        invariant
            next <= run@.len(),
            sim_events.wf(),
            sim_events.spec_tick() == tick,
            sim_events.spec_capacity() == capacity,
            tick == old(sim_events).spec_tick(),
            capacity == old(sim_events).spec_capacity(),
            sim_events@ == events_after_run(
                tick,
                capacity,
                old(sim_events)@,
                run@.take(next as int),
            ),
        decreases run@.len() - next,
    {
        emit_fighter_presentation_intent(sim_events, None, run[next]);
        next += 1;
        proof {
            assert(run@.take(next as int).drop_last() =~= run@.take(next - 1));
        }
    }
    proof {
        assert(run@.take(next as int) =~= run@);
    }
}

/// Emits a run and records each accepted intent.
fn emit_recorded_run(
    sim_events: &mut TickEventBuffer,
    journal: &mut FighterPresentationIntentJournal,
    run: &Vec<PendingFighterPresentationIntent>,
)
    requires
        old(sim_events).wf(),
        old(journal).wf(),
    ensures
        final(sim_events).wf(),
        final(sim_events).spec_tick() == old(sim_events).spec_tick(),
        final(sim_events).spec_capacity() == old(sim_events).spec_capacity(),
        final(sim_events)@ == events_after_run(
            old(sim_events).spec_tick(),
            old(sim_events).spec_capacity(),
            old(sim_events)@,
            run@,
        ),
        final(journal).wf(),
        final(journal).history_ticks() == old(journal).history_ticks(),
        final(journal).spec_events_per_tick() == old(journal).spec_events_per_tick(),
        final(journal)@ == intents_after_run(
            old(sim_events).spec_tick(),
            old(sim_events).spec_capacity(),
            old(sim_events)@,
            old(journal)@,
            old(journal).history_ticks(),
            old(journal).spec_events_per_tick(),
            run@,
        ),
        final(journal).spec_metrics() == metrics_after_run(
            old(sim_events).spec_tick(),
            old(sim_events).spec_capacity(),
            old(sim_events)@,
            old(journal).spec_metrics(),
            old(journal)@,
            old(journal).history_ticks(),
            old(journal).spec_events_per_tick(),
            run@,
        ),
{
    let ghost tick = sim_events.spec_tick();
    let ghost capacity = sim_events.spec_capacity();
    let mut next: usize = 0;
    while next < run.len()
        invariant
            next <= run@.len(),
            sim_events.wf(),
            sim_events.spec_tick() == tick,
            sim_events.spec_capacity() == capacity,
            tick == old(sim_events).spec_tick(),
            capacity == old(sim_events).spec_capacity(),
            sim_events@ == events_after_run(
                tick,
                capacity,
                old(sim_events)@,
                run@.take(next as int),
            ),
            journal.wf(),
            journal.history_ticks() == old(journal).history_ticks(),
            journal.spec_events_per_tick() == old(journal).spec_events_per_tick(),
            journal@ == intents_after_run(
                tick,
                capacity,
                old(sim_events)@,
                old(journal)@,
                old(journal).history_ticks(),
                old(journal).spec_events_per_tick(),
                run@.take(next as int),
            ),
            journal.spec_metrics() == metrics_after_run(
                tick,
                capacity,
                old(sim_events)@,
                old(journal).spec_metrics(),
                old(journal)@,
                old(journal).history_ticks(),
                old(journal).spec_events_per_tick(),
                run@.take(next as int),
            ),
        decreases run@.len() - next,
    {
        emit_fighter_presentation_intent(sim_events, Some(&mut *journal), run[next]);
        next += 1;
        proof {
            assert(run@.take(next as int).drop_last() =~= run@.take(next - 1));
        }
    }
    proof {
        assert(run@.take(next as int) =~= run@);
    }
}

/// Different fighters do not disturb each other: whichever of them was visited
/// first, the same intents come out in the same order.
pub proof fn emission_ignores_visit_order(
    start: PendingFighterPresentationBuffer,
    left_first: PendingFighterPresentationBuffer,
    left_then_right: PendingFighterPresentationBuffer,
    right_first: PendingFighterPresentationBuffer,
    right_then_left: PendingFighterPresentationBuffer,
    left: PendingFighterPresentationIntent,
    right: PendingFighterPresentationIntent,
)
    requires
        left.fighter != right.fighter,
        pushed(start, left_first, left),
        pushed(left_first, left_then_right, right),
        pushed(start, right_first, right),
        pushed(right_first, right_then_left, left),
    ensures
        left_then_right@ == right_then_left@,
{
    assert forall|fighter: FighterId| #[trigger]
        left_then_right.queue(fighter) == right_then_left.queue(fighter) by {
        let a = left_first.queue(fighter);
        let b = right_first.queue(fighter);
    }
}

/// Queues are bounded, and everything queued leaves in the order of the fighters,
/// whichever of them was visited first.
pub proof fn queues_leave_in_fighter_order(
    buffer: PendingFighterPresentationBuffer,
    earlier: int,
    later: int,
)
    requires
        buffer.wf(),
        0 <= earlier <= later < buffer@.len(),
    ensures
        buffer@[earlier].fighter.spec_index() <= buffer@[later].fighter.spec_index(),
        forall|fighter: FighterId| #[trigger]
            buffer.queue(fighter).len() <= MAX_FIGHTER_PRESENTATION_INTENTS_PER_SYSTEM,
{
    lemma_place_of_queued(buffer, earlier);
    lemma_place_of_queued(buffer, later);
}

/// Where the intents of each fighter stand in the whole.
proof fn lemma_place_of_queued(buffer: PendingFighterPresentationBuffer, place: int)
    requires
        buffer.wf(),
        0 <= place < buffer@.len(),
    ensures
        ({
            let one = buffer.queue(FighterId::Zero).len();
            let two = one + buffer.queue(FighterId::One).len();
            let three = two + buffer.queue(FighterId::Two).len();
            buffer@[place].fighter.spec_index() == (if place < one {
                0int
            } else if place < two {
                1
            } else if place < three {
                2
            } else {
                3
            })
        }),
{
    let zero = buffer.entries@[0]@;
    let one = buffer.entries@[1]@;
    let two = buffer.entries@[2]@;
    let three = buffer.entries@[3]@;
    assert(buffer@ == zero + one + two + three);
    if place < zero.len() {
        assert(buffer@[place] == buffer.entries@[0]@[place]);
    } else if place < zero.len() + one.len() {
        assert(buffer@[place] == buffer.entries@[1]@[place - zero.len()]);
    } else if place < zero.len() + one.len() + two.len() {
        assert(buffer@[place] == buffer.entries@[2]@[place - zero.len() - one.len()]);
    } else {
        assert(buffer@[place] == buffer.entries@[3]@[place - zero.len() - one.len() - two.len()]);
    }
}

/// What is queued becomes events, as far as these have room: each with its fighter
/// as the source, at the place where it stands in the queues. Whoever keeps a journal
/// finds the intent of each such event in it, up to the journal's per-tick limit.
pub proof fn queued_intents_are_found(
    buffer: PendingFighterPresentationBuffer,
    sim_events: TickEventBuffer,
    journal: FighterPresentationIntentJournal,
    place: int,
)
    requires
        buffer.wf(),
        sim_events.wf(),
        journal.wf(),
        0 <= place < buffer@.len(),
        sim_events@.len() + place < sim_events.spec_capacity(),
    ensures
        ({
            let tick = sim_events.spec_tick();
            let capacity = sim_events.spec_capacity();
            let ordinal = sim_events@.len() + place;
            let emitted = events_after_run(tick, capacity, sim_events@, buffer@);
            let recorded = intents_after_run(
                tick,
                capacity,
                sim_events@,
                journal@,
                journal.history_ticks(),
                journal.spec_events_per_tick(),
                buffer@,
            );
            let event = event_for_pending(tick, ordinal as nat, buffer@[place]);
            &&& ordinal < emitted.len()
            &&& emitted[ordinal] == event
            &&& ordinal < journal.spec_events_per_tick() ==> lookup(recorded, event.id) == Some(
                intent_for_pending(tick, ordinal as u16, buffer@[place]),
            )
        }),
{
    buffers_are_bounded(sim_events);
    emitted_intents_are_found(
        sim_events.spec_tick(),
        sim_events.spec_capacity(),
        sim_events@,
        journal@,
        journal.history_ticks(),
        journal.spec_events_per_tick(),
        buffer@,
        place,
    );
}

} // verus!

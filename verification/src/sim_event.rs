//! Deterministic events: who caused them, what they say, and the bounded buffer
//! in which one tick collects them.

use vstd::prelude::*;

use crate::ids::FighterId;
use crate::ticks::SimTick;

verus! {

/// What happened to a fighter's body or control.
#[derive(Clone, Copy, Debug, PartialEq, Eq, Structural)]
pub enum FighterLifecycleEvent {
    DrunkBubble,
    DashTrail,
    RecoveryStarted,
    RecoveryCompleted,
    WallBounced,
    Landed,
    LandingAftermath,
    GroundBounced,
    KnockdownLanded,
    RingOut,
    Knockout,
}

/// What happened to the match.
#[derive(Clone, Copy, Debug, PartialEq, Eq, Structural)]
pub enum MatchLifecycleEvent {
    Results,
}

/// The meaning of one event.
#[derive(Clone, Copy, Debug, PartialEq, Eq, Structural)]
pub enum SimEventKind {
    FighterLifecycle { fighter: FighterId, event: FighterLifecycleEvent },
    FighterRespawned { fighter: FighterId },
    StockLost { fighter: FighterId, stocks_remaining: u8 },
    HitConfirmed { attacker: Option<FighterId>, victim: FighterId },
    MatchLifecycle { event: MatchLifecycleEvent },
}

/// Who caused an event.
#[derive(Clone, Copy, Debug, PartialEq, Eq, Structural)]
pub enum SimEventSource {
    Fighter(FighterId),
    Match,
}

/// The stable name of an event: its tick, its cause and its place in the tick.
#[derive(Clone, Copy, Debug, PartialEq, Eq, Structural)]
pub struct SimEventId {
    pub tick: SimTick,
    pub source: SimEventSource,
    pub ordinal: u16,
}

#[derive(Clone, Copy, Debug, PartialEq, Eq, Structural)]
pub struct SimEvent {
    pub id: SimEventId,
    pub kind: SimEventKind,
}

/// Why an event was not kept.
#[derive(Clone, Copy, Debug, PartialEq, Eq, Structural)]
pub enum EventEmitError {
    CapacityExceeded { capacity: usize },
}

/// The events of one tick, in the order in which they were emitted. Once the
/// buffer is full, further events are refused.
#[derive(Clone, Debug)]
pub struct TickEventBuffer {
    tick: SimTick,
    capacity: usize,
    events: Vec<SimEvent>,
}

/// The events after one more emission.
pub open spec fn events_after_emit(
    tick: SimTick,
    capacity: usize,
    events: Seq<SimEvent>,
    source: SimEventSource,
    kind: SimEventKind,
) -> Seq<SimEvent> {
    if events.len() < capacity {
        events.push(
            (SimEvent { id: SimEventId { tick, source, ordinal: events.len() as u16 }, kind }),
        )
    } else {
        events
    }
}

impl TickEventBuffer {
    pub closed spec fn view(&self) -> Seq<SimEvent> {
        self.events@
    }

    pub closed spec fn spec_tick(&self) -> SimTick {
        self.tick
    }

    pub closed spec fn spec_capacity(&self) -> usize {
        self.capacity
    }

    /// Never over capacity, and every event carries this tick and its own place.
    pub closed spec fn wf(&self) -> bool {
        &&& self.capacity <= u16::MAX
        &&& self.events@.len() <= self.capacity
        &&& forall|i: int|
            0 <= i < self.events@.len() ==> {
                &&& (#[trigger] self.events@[i]).id.tick == self.tick
                &&& self.events@[i].id.ordinal == i
            }
    }

    /// An empty buffer for `tick` that keeps at most `capacity` events.
    pub fn new(tick: SimTick, capacity: usize) -> (buffer: TickEventBuffer)
        requires
            capacity <= u16::MAX,
        ensures
            buffer.wf(),
            buffer@ == Seq::<SimEvent>::empty(),
            buffer.spec_tick() == tick,
            buffer.spec_capacity() == capacity,
    {
        TickEventBuffer { tick, capacity, events: Vec::new() }
    }

    pub fn len(&self) -> (count: usize)
        ensures
            count == self@.len(),
    {
        self.events.len()
    }

    pub fn get(&self, ordinal: usize) -> (event: Option<SimEvent>)
        ensures
            event == (if ordinal < self@.len() {
                Some(self@[ordinal as int])
            } else {
                None
            }),
    {
        if ordinal < self.events.len() {
            Some(self.events[ordinal])
        } else {
            None
        }
    }

    /// Appends an event and names it; a full buffer refuses and is unchanged.
    pub fn emit(&mut self, source: SimEventSource, kind: SimEventKind) -> (result: Result<
        SimEventId,
        EventEmitError,
    >)
        requires
            old(self).wf(),
        ensures
            final(self).wf(),
            final(self).spec_tick() == old(self).spec_tick(),
            final(self).spec_capacity() == old(self).spec_capacity(),
            final(self)@ == events_after_emit(
                old(self).spec_tick(),
                old(self).spec_capacity(),
                old(self)@,
                source,
                kind,
            ),
            result == (if old(self)@.len() < old(self).spec_capacity() {
                Ok::<SimEventId, EventEmitError>(
                    (SimEventId {
                        tick: old(self).spec_tick(),
                        source,
                        ordinal: old(self)@.len() as u16,
                    }),
                )
            } else {
                Err((EventEmitError::CapacityExceeded { capacity: old(self).spec_capacity() }))
            }),
    {
        if self.events.len() >= self.capacity {
            return Err(EventEmitError::CapacityExceeded { capacity: self.capacity });
        }
        let id = SimEventId { tick: self.tick, source, ordinal: self.events.len() as u16 };
        self.events.push(SimEvent { id, kind });
        Ok(id)
    }
}

/// A buffer never holds more than it has room for, and every place that it has room
/// for can be named.
pub proof fn buffers_are_bounded(buffer: TickEventBuffer)
    requires
        buffer.wf(),
    ensures
        buffer@.len() <= buffer.spec_capacity(),
        buffer.spec_capacity() <= u16::MAX,
{
}

/// No two events of one tick share a name, and names follow emission order.
pub proof fn event_names_are_unique(buffer: TickEventBuffer, first: int, second: int)
    requires
        buffer.wf(),
        0 <= first < second < buffer@.len(),
    ensures
        buffer@[first].id != buffer@[second].id,
        buffer@[first].id.ordinal < buffer@[second].id.ordinal,
{
}

} // verus!

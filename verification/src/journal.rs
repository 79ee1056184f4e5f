//! The bounded, rollback-aware journal of presentation intents.
//!
//! The journal keeps the intents of the last ticks in a ring of slots. Its
//! mathematical model is a map from the tick and ordinal of an event to the
//! intent recorded for it.

use vstd::prelude::*;
use vstd::set_lib::*;

use crate::presentation::FighterPresentationIntent;
use crate::sim_event::{EventEmitError, SimEventId};
use crate::ticks::SimTick;

verus! {

/// One ring slot: the tick that owns it and that tick's intents by ordinal.
#[derive(Clone, Debug)]
struct FighterPresentationIntentSlot {
    tick: SimTick,
    len: u16,
    occupied: bool,
    entries: Vec<Option<FighterPresentationIntent>>,
}

/// Running totals, each stopping at its maximum.
#[derive(Clone, Copy, Debug, PartialEq, Eq, Structural)]
pub struct FighterPresentationIntentMetrics {
    pub recorded: u64,
    pub replaced: u64,
    pub rejected: u64,
    pub discarded: u64,
}

/// A fixed-capacity journal of intents, keyed by event.
#[derive(Clone, Debug)]
pub struct FighterPresentationIntentJournal {
    slots: Vec<FighterPresentationIntentSlot>,
    events_per_tick: usize,
    len: usize,
    metrics: FighterPresentationIntentMetrics,
}

/// The key under which an event's intent is kept.
pub open spec fn intent_key(id: SimEventId) -> (u64, u16) {
    (id.tick.0, id.ordinal)
}

/// `value + amount`, stopping at the largest `u64`.
pub open spec fn saturating_total(value: u64, amount: int) -> u64 {
    if value + amount > u64::MAX {
        u64::MAX
    } else {
        (value + amount) as u64
    }
}

/// Two ticks share a ring slot.
pub open spec fn ticks_collide(left: u64, right: u64, history: nat) -> bool {
    history > 0 && left % (history as u64) == right % (history as u64)
}

/// The intents that survive when `tick` takes its ring slot: all but those of
/// an older or newer tick in the same slot.
pub open spec fn kept_for_tick(
    intents: Map<(u64, u16), FighterPresentationIntent>,
    tick: u64,
    history: nat,
) -> Map<(u64, u16), FighterPresentationIntent> {
    intents.restrict(
        Set::new(|key: (u64, u16)| key.0 == tick || !ticks_collide(key.0, tick, history)),
    )
}

/// The intents after `intent` was offered: kept under its event unless its
/// ordinal is beyond the per-tick limit.
pub open spec fn intents_after_record(
    intents: Map<(u64, u16), FighterPresentationIntent>,
    intent: FighterPresentationIntent,
    history: nat,
    per_tick: nat,
) -> Map<(u64, u16), FighterPresentationIntent> {
    if intent.event_id.ordinal < per_tick {
        kept_for_tick(intents, intent.event_id.tick.0, history).insert(
            intent_key(intent.event_id),
            intent,
        )
    } else {
        intents
    }
}

/// The running totals after `intent` was offered to `intents`: an ordinal beyond the
/// per-tick limit counts as rejected, any other as recorded, and also as replaced
/// where its event had an intent already.
pub open spec fn metrics_after_record(
    metrics: FighterPresentationIntentMetrics,
    intents: Map<(u64, u16), FighterPresentationIntent>,
    intent: FighterPresentationIntent,
    per_tick: nat,
) -> FighterPresentationIntentMetrics {
    if intent.event_id.ordinal < per_tick {
        FighterPresentationIntentMetrics {
            recorded: saturating_total(metrics.recorded, 1),
            replaced: saturating_total(
                metrics.replaced,
                if intents.contains_key(intent_key(intent.event_id)) {
                    1
                } else {
                    0
                },
            ),
            ..metrics
        }
    } else {
        FighterPresentationIntentMetrics {
            rejected: saturating_total(metrics.rejected, 1),
            ..metrics
        }
    }
}

/// The intents of ticks up to and including `retained_through`.
pub open spec fn kept_through(
    intents: Map<(u64, u16), FighterPresentationIntent>,
    retained_through: u64,
) -> Map<(u64, u16), FighterPresentationIntent> {
    intents.restrict(Set::new(|key: (u64, u16)| key.0 <= retained_through))
}

/// What a lookup by event finds.
pub open spec fn lookup(
    intents: Map<(u64, u16), FighterPresentationIntent>,
    id: SimEventId,
) -> Option<FighterPresentationIntent> {
    if intents.contains_key(intent_key(id)) && intents[intent_key(id)].event_id == id {
        Some(intents[intent_key(id)])
    } else {
        None
    }
}

/// The keys of one tick.
spec fn keys_of_tick(keys: Set<(u64, u16)>, tick: u64) -> Set<(u64, u16)> {
    keys.filter(|key: (u64, u16)| key.0 == tick)
}

impl FighterPresentationIntentJournal {
    /// How many ticks the ring tells apart.
    pub closed spec fn history_ticks(&self) -> nat {
        self.slots@.len()
    }

    /// How many intents each tick may have.
    pub closed spec fn spec_events_per_tick(&self) -> nat {
        self.events_per_tick as nat
    }

    spec fn ring_slot(&self, tick: u64) -> int {
        (tick as int) % (self.slots@.len() as int)
    }

    spec fn holds(&self, key: (u64, u16)) -> bool {
        let slot = self.slots@[self.ring_slot(key.0)];
        &&& slot.occupied
        &&& slot.tick.0 == key.0
        &&& (key.1 as int) < slot.entries@.len()
        &&& slot.entries@[key.1 as int].is_some()
    }

    /// The recorded intents by tick and ordinal.
    pub closed spec fn view(&self) -> Map<(u64, u16), FighterPresentationIntent> {
        Map::new(
            |key: (u64, u16)| self.holds(key),
            |key: (u64, u16)|
                self.slots@[self.ring_slot(key.0)].entries@[key.1 as int].unwrap(),
        )
    }

    pub closed spec fn spec_metrics(&self) -> FighterPresentationIntentMetrics {
        self.metrics
    }

    spec fn shape(&self) -> bool {
        &&& 0 < self.slots@.len() <= u64::MAX
        &&& self.events_per_tick <= u16::MAX
        &&& self.slots@.len() * self.events_per_tick <= usize::MAX
        &&& forall|s: int|
            0 <= s < self.slots@.len() ==> {
                let slot = #[trigger] self.slots@[s];
                &&& slot.entries@.len() == self.events_per_tick
                &&& slot.occupied ==> self.ring_slot(slot.tick.0) == s
                &&& forall|o: int|
                    0 <= o < slot.entries@.len() && (#[trigger] slot.entries@[o]).is_some() ==> {
                        &&& slot.occupied
                        &&& slot.entries@[o].unwrap().event_id.tick == slot.tick
                        &&& slot.entries@[o].unwrap().event_id.ordinal == o
                    }
            }
    }

    spec fn counts(&self) -> bool {
        &&& self@.dom().finite()
        &&& self.len == self@.dom().len()
        &&& forall|s: int|
            0 <= s < self.slots@.len() && (#[trigger] self.slots@[s]).occupied
                ==> self.slots@[s].len == keys_of_tick(self@.dom(), self.slots@[s].tick.0).len()
    }

    /// Every intent stands under its own event's key in the slot of its tick, and
    /// the counters agree with what is stored.
    pub closed spec fn wf(&self) -> bool {
        self.shape() && self.counts()
    }

    fn ring_index(&self, tick: SimTick) -> (index: usize)
        requires
            self.shape(),
        ensures
            index == self.ring_slot(tick.0),
            index < self.slots@.len(),
    {
        (tick.0 % (self.slots.len() as u64)) as usize
    }

    /// An empty journal that tells `history_ticks` ticks apart and keeps at most
    /// `events_per_tick` intents for each.
    pub fn new(history_ticks: usize, events_per_tick: usize) -> (journal: Self)
        requires
            history_ticks > 0,
            events_per_tick <= u16::MAX,
            history_ticks * events_per_tick <= usize::MAX,
        ensures
            journal.wf(),
            journal@ == Map::<(u64, u16), FighterPresentationIntent>::empty(),
            journal.history_ticks() == history_ticks,
            journal.spec_events_per_tick() == events_per_tick,
            journal.spec_metrics() == (FighterPresentationIntentMetrics {
                recorded: 0,
                replaced: 0,
                rejected: 0,
                discarded: 0,
            }),
    {
        let mut slots: Vec<FighterPresentationIntentSlot> = Vec::new();
        while slots.len() < history_ticks
            invariant
                slots@.len() <= history_ticks,
                forall|s: int|
                    0 <= s < slots@.len() ==> {
                        &&& (#[trigger] slots@[s]).entries@.len() == events_per_tick
                        &&& !slots@[s].occupied
                        &&& forall|o: int|
                            0 <= o < slots@[s].entries@.len()
                                ==> (#[trigger] slots@[s].entries@[o]).is_none()
                    },
            decreases history_ticks - slots@.len(),
        {
            let mut entries: Vec<Option<FighterPresentationIntent>> = Vec::new();
            while entries.len() < events_per_tick
                invariant
                    entries@.len() <= events_per_tick,
                    forall|o: int| 0 <= o < entries@.len() ==> (#[trigger] entries@[o]).is_none(),
                decreases events_per_tick - entries@.len(),
            {
                entries.push(None);
            }
            slots.push(
                FighterPresentationIntentSlot { tick: SimTick(0), len: 0, occupied: false, entries },
            );
        }
        let journal = FighterPresentationIntentJournal {
            slots,
            events_per_tick,
            len: 0,
            metrics: FighterPresentationIntentMetrics {
                recorded: 0,
                replaced: 0,
                rejected: 0,
                discarded: 0,
            },
        };
        proof {
            assert(journal@ =~= Map::<(u64, u16), FighterPresentationIntent>::empty());
        }
        journal
    }

    /// How many intents are recorded.
    pub fn len(&self) -> (count: usize)
        requires
            self.wf(),
        ensures
            count == self@.len(),
    {
        self.len
    }

    /// The most intents that the journal can hold.
    pub fn capacity(&self) -> (capacity: usize)
        requires
            self.wf(),
        ensures
            capacity == self.history_ticks() * self.spec_events_per_tick(),
    {
        self.slots.len() * self.events_per_tick
    }

    pub fn metrics(&self) -> (metrics: FighterPresentationIntentMetrics)
        ensures
            metrics == self.spec_metrics(),
    {
        self.metrics
    }

    /// Empties one ring slot and returns how many intents it held.
    fn clear_slot(&mut self, index: usize) -> (removed: u16)
        requires
            old(self).wf(),
            index < old(self).slots@.len(),
        ensures
            final(self).wf(),
            final(self).slots@.len() == old(self).slots@.len(),
            final(self).events_per_tick == old(self).events_per_tick,
            final(self).metrics == old(self).metrics,
            !final(self).slots@[index as int].occupied,
            final(self)@ == old(self)@.restrict(
                Set::new(|key: (u64, u16)| old(self).ring_slot(key.0) != index),
            ),
            final(self)@.dom().len() + removed == old(self)@.dom().len(),
            forall|s: int|
                0 <= s < old(self).slots@.len() && s != index ==> final(self).slots@[s]
                    == old(self).slots@[s],
    {
        let ghost before = *self;
        let ghost cleared = self.slots@[index as int].tick.0;
        let ghost was_occupied = self.slots@[index as int].occupied;
        let removed: u16 = if self.slots[index].occupied {
            self.slots[index].len
        } else {
            0
        };
        let mut ordinal: usize = 0;
        while ordinal < self.events_per_tick
            invariant
                ordinal <= self.events_per_tick,
                index < self.slots@.len(),
                self.slots@.len() == before.slots@.len(),
                self.events_per_tick == before.events_per_tick,
                self.metrics == before.metrics,
                self.len == before.len,
                self.slots@[index as int].entries@.len() == self.events_per_tick,
                forall|o: int|
                    0 <= o < ordinal ==> (#[trigger] self.slots@[index as int].entries@[o]).is_none(),
                forall|s: int|
                    0 <= s < before.slots@.len() && s != index ==> self.slots@[s]
                        == before.slots@[s],
            decreases self.events_per_tick - ordinal,
        {
            self.slots[index].entries.set(ordinal, None);
            ordinal += 1;
        }
        self.slots[index].tick = SimTick(0);
        self.slots[index].len = 0;
        self.slots[index].occupied = false;
        proof {
            let kept = Set::new(|key: (u64, u16)| before.ring_slot(key.0) != index);
            assert(self@ =~= before@.restrict(kept));
            let old_keys = before@.dom();
            let gone = keys_of_tick(old_keys, cleared);
            let new_keys = self@.dom();
            if was_occupied {
                assert(new_keys =~= old_keys.difference(gone));
                assert(gone.subset_of(old_keys));
                assert(old_keys =~= new_keys.union(gone));
                assert(new_keys.disjoint(gone));
                lemma_set_disjoint_lens(new_keys, gone);
            } else {
                assert(new_keys =~= old_keys);
            }
            assert forall|s: int|
                0 <= s < self.slots@.len() && (#[trigger] self.slots@[s]).occupied implies
                self.slots@[s].len == keys_of_tick(new_keys, self.slots@[s].tick.0).len() by {
                assert(s != index);
                assert(before.slots@[s].occupied);
                assert(keys_of_tick(new_keys, self.slots@[s].tick.0) =~= keys_of_tick(
                    old_keys,
                    before.slots@[s].tick.0,
                ));
            }
        }
        let ghost emptied = *self;
        self.len = self.len - removed as usize;
        proof {
            assert(self@ =~= emptied@);
            assert forall|s: int| 0 <= s < self.slots@.len() && s != index implies (
            #[trigger] self.slots@[s]) == before.slots@[s] by {}
            assert(self.shape());
        }
        removed
    }

    /// Records an intent under its event. Another tick that held the same ring
    /// slot is dropped, an intent already kept for the event is replaced, and an
    /// ordinal beyond the per-tick limit is refused.
    pub fn record(&mut self, intent: FighterPresentationIntent) -> (result: Result<
        (),
        EventEmitError,
    >)
        requires
            old(self).wf(),
        ensures
            final(self).wf(),
            final(self).history_ticks() == old(self).history_ticks(),
            final(self).spec_events_per_tick() == old(self).spec_events_per_tick(),
            result == (if intent.event_id.ordinal < old(self).spec_events_per_tick() {
                Ok::<(), EventEmitError>(())
            } else {
                Err(
                    (EventEmitError::CapacityExceeded {
                        capacity: old(self).spec_events_per_tick() as usize,
                    }),
                )
            }),
            final(self)@ == intents_after_record(
                old(self)@,
                intent,
                old(self).history_ticks(),
                old(self).spec_events_per_tick(),
            ),
            final(self).spec_metrics() == metrics_after_record(
                old(self).spec_metrics(),
                old(self)@,
                intent,
                old(self).spec_events_per_tick(),
            ),
    {
        let ordinal: usize = intent.event_id.ordinal as usize;
        if ordinal >= self.events_per_tick {
            self.metrics.rejected = self.metrics.rejected.saturating_add(1);
            proof {
                assert(self@ =~= old(self)@);
            }
            return Err(EventEmitError::CapacityExceeded { capacity: self.events_per_tick });
        }
        let index: usize = self.ring_index(intent.event_id.tick);
        let ghost before = *self;
        let ghost tick = intent.event_id.tick.0;
        let ghost key = intent_key(intent.event_id);
        let ghost kept = kept_for_tick(before@, tick, before.history_ticks());
        if self.slots[index].occupied && self.slots[index].tick != intent.event_id.tick {
            self.clear_slot(index);
        }
        proof {
            assert(self@ =~= kept);
        }
        let ghost cleared = *self;
        if !self.slots[index].occupied {
            self.slots[index].tick = intent.event_id.tick;
            self.slots[index].len = 0;
            self.slots[index].occupied = true;
            proof {
                assert(self@ =~= kept);
                assert(keys_of_tick(self@.dom(), tick) =~= Set::<(u64, u16)>::empty());
                assert forall|s: int|
                    0 <= s < self.slots@.len() && (#[trigger] self.slots@[s]).occupied implies
                    self.slots@[s].len == keys_of_tick(self@.dom(), self.slots@[s].tick.0).len() by {
                    if s != index {
                        assert(cleared.slots@[s].occupied);
                    }
                }
            }
        }
        assert(self.wf());
        let ghost claimed = *self;
        if self.slots[index].entries[ordinal].is_some() {
            self.metrics.replaced = self.metrics.replaced.saturating_add(1);
        } else {
            proof {
                lemma_row_count(claimed, index as int, key);
            }
            self.slots[index].len = self.slots[index].len + 1;
            self.len = self.len + 1;
        }
        self.slots[index].entries.set(ordinal, Some(intent));
        self.metrics.recorded = self.metrics.recorded.saturating_add(1);
        proof {
            assert(self@ =~= kept.insert(key, intent));
            assert(before@.contains_key(key) == kept.contains_key(key));
            let keys = self@.dom();
            assert(keys =~= claimed@.dom().insert(key));
            assert forall|s: int|
                0 <= s < self.slots@.len() && (#[trigger] self.slots@[s]).occupied implies
                self.slots@[s].len == keys_of_tick(keys, self.slots@[s].tick.0).len() by {
                assert(claimed.slots@[s].occupied);
                let row = keys_of_tick(claimed@.dom(), claimed.slots@[s].tick.0);
                if s == index {
                    assert(keys_of_tick(keys, tick) =~= row.insert(key));
                } else {
                    assert(keys_of_tick(keys, self.slots@[s].tick.0) =~= row);
                }
            }
        }
        Ok(())
    }

    /// The intent recorded for exactly this event, if there is one.
    pub fn get(&self, event_id: SimEventId) -> (intent: Option<FighterPresentationIntent>)
        requires
            self.wf(),
        ensures
            intent == lookup(self@, event_id),
    {
        let ordinal: usize = event_id.ordinal as usize;
        if ordinal >= self.events_per_tick {
            return None;
        }
        let index: usize = self.ring_index(event_id.tick);
        if !self.slots[index].occupied || self.slots[index].tick != event_id.tick {
            return None;
        }
        match self.slots[index].entries[ordinal] {
            Some(intent) => if intent.event_id == event_id {
                Some(intent)
            } else {
                None
            },
            None => None,
        }
    }

    /// Drops the intents of every tick after `retained_through`.
    pub fn discard_after(&mut self, retained_through: SimTick)
        requires
            old(self).wf(),
        ensures
            final(self).wf(),
            final(self).history_ticks() == old(self).history_ticks(),
            final(self).spec_events_per_tick() == old(self).spec_events_per_tick(),
            final(self)@ == kept_through(old(self)@, retained_through.0),
            final(self).spec_metrics() == (FighterPresentationIntentMetrics {
                discarded: saturating_total(
                    old(self).spec_metrics().discarded,
                    old(self)@.len() - final(self)@.len(),
                ),
                ..old(self).spec_metrics()
            }),
    {
        let ghost before = *self;
        let mut index: usize = 0;
        while index < self.slots.len()
            invariant
                self.wf(),
                index <= self.slots@.len(),
                self.slots@.len() == before.slots@.len(),
                self.events_per_tick == before.events_per_tick,
                self@.dom().len() <= before@.dom().len(),
                self@ == before@.restrict(
                    Set::new(
                        |key: (u64, u16)|
                            before.ring_slot(key.0) >= index || key.0 <= retained_through.0,
                    ),
                ),
                self.metrics == (FighterPresentationIntentMetrics {
                    discarded: saturating_total(
                        before.metrics.discarded,
                        before@.dom().len() - self@.dom().len(),
                    ),
                    ..before.metrics
                }),
            decreases self.slots@.len() - index,
        {
            let ghost step = *self;
            if self.slots[index].occupied && self.slots[index].tick.0 > retained_through.0 {
                let removed: u16 = self.clear_slot(index);
                let ghost cleared = *self;
                self.metrics.discarded = self.metrics.discarded.saturating_add(removed as u64);
                proof {
                    assert(self@ =~= cleared@);
                }
            }
            proof {
                assert forall|key: (u64, u16)| step@.contains_key(key) implies self@.contains_key(
                    key,
                ) == (before.ring_slot(key.0) != index || key.0 <= retained_through.0) by {
                    assert(step.holds(key));
                }
                assert(self@ =~= before@.restrict(
                    Set::new(
                        |key: (u64, u16)|
                            before.ring_slot(key.0) >= index + 1 || key.0 <= retained_through.0,
                    ),
                ));
                assert(self.counts());
            }
            index += 1;
        }
        proof {
            assert(self@ =~= kept_through(before@, retained_through.0));
        }
    }
}

/// Where a key stands when the ring is laid out row by row.
spec fn flat_place(key: (u64, u16), history: int, per_tick: int) -> int {
    ((key.0 as int) % history) * per_tick + key.1
}

/// Keys that never share a slot across ticks are told apart by their place, so
/// there are at most `history * per_tick` of them.
proof fn lemma_keys_bounded(keys: Set<(u64, u16)>, history: int, per_tick: int)
    requires
        history > 0,
        per_tick >= 0,
        keys.finite(),
        forall|key: (u64, u16)| keys.contains(key) ==> (#[trigger] key.1) < per_tick,
        forall|left: (u64, u16), right: (u64, u16)| #[trigger]
            keys.contains(left) && #[trigger] keys.contains(right) && (left.0 as int) % history == (
            right.0 as int) % history ==> left.0 == right.0,
    ensures
        keys.len() <= history * per_tick,
{
    let place = |key: (u64, u16)| flat_place(key, history, per_tick);
    assert forall|left: (u64, u16), right: (u64, u16)|
        keys.contains(left) && keys.contains(right) && #[trigger] place(left) == #[trigger] place(
            right,
        ) implies left == right by {
        let a = (left.0 as int) % history;
        let b = (right.0 as int) % history;
        assert(left.1 < per_tick && right.1 < per_tick);
        assert(a == b) by (nonlinear_arith)
            requires
                a * per_tick + left.1 == b * per_tick + right.1,
                0 <= left.1 < per_tick,
                0 <= right.1 < per_tick,
        ;
    }
    let places = keys.map(place);
    lemma_map_size(keys, places, place);
    lemma_int_range(0, history * per_tick);
    assert(places.subset_of(set_int_range(0, history * per_tick))) by {
        assert forall|p: int| places.contains(p) implies 0 <= p < history * per_tick by {
            let key = choose|key: (u64, u16)| keys.contains(key) && place(key) == p;
            let row = (key.0 as int) % history;
            assert(key.1 < per_tick);
            assert(0 <= row * per_tick + key.1 < history * per_tick) by (nonlinear_arith)
                requires
                    0 <= row < history,
                    0 <= key.1 < per_tick,
            ;
        }
    }
    lemma_len_subset(places, set_int_range(0, history * per_tick));
}

/// A row with a free ordinal leaves room in every counter.
proof fn lemma_row_count(journal: FighterPresentationIntentJournal, index: int, key: (u64, u16))
    requires
        journal.wf(),
        0 <= index < journal.slots@.len(),
        journal.slots@[index].occupied,
        key.0 == journal.slots@[index].tick.0,
        key.1 < journal.events_per_tick,
        !journal@.contains_key(key),
    ensures
        journal.slots@[index].len < u16::MAX,
        journal.len < usize::MAX,
{
    let history = journal.slots@.len() as int;
    let per_tick = journal.events_per_tick as int;
    let keys = journal@.dom().insert(key);
    assert forall|k: (u64, u16)| journal@.dom().contains(k) implies journal.holds(k) by {}
    lemma_keys_bounded(keys, history, per_tick);
    let row = keys_of_tick(journal@.dom(), key.0);
    assert(row.subset_of(journal@.dom()));
    lemma_len_subset(row, journal@.dom());
    lemma_keys_bounded(row.insert(key), 1, per_tick);
}

/// The journal is bounded: it never holds more intents than its capacity, no
/// intent has an ordinal beyond the per-tick limit, every intent stands under
/// the key of its own event, and two ticks that share a ring slot are never held
/// at once.
pub proof fn journal_is_bounded(journal: FighterPresentationIntentJournal)
    requires
        journal.wf(),
    ensures
        journal@.dom().finite(),
        journal@.len() <= journal.history_ticks() * journal.spec_events_per_tick(),
        forall|key: (u64, u16)|
            journal@.contains_key(key) ==> key.1 < journal.spec_events_per_tick() && intent_key(
                (#[trigger] journal@[key]).event_id,
            ) == key,
        forall|left: (u64, u16), right: (u64, u16)|
            #![trigger journal@.contains_key(left), journal@.contains_key(right)]
            journal@.contains_key(left) && journal@.contains_key(right) && ticks_collide(
                left.0,
                right.0,
                journal.history_ticks(),
            ) ==> left.0 == right.0,
{
    assert forall|k: (u64, u16)| journal@.contains_key(k) implies journal.holds(k) by {}
    lemma_keys_bounded(
        journal@.dom(),
        journal.slots@.len() as int,
        journal.events_per_tick as int,
    );
}

/// Reading back: right after an intent is recorded, its event's own name finds
/// it and no other event of the same tick and ordinal is found. Other events are
/// found as before, except those of another tick in the same ring slot, which
/// are gone.
pub proof fn recorded_intent_is_found(
    before: Map<(u64, u16), FighterPresentationIntent>,
    intent: FighterPresentationIntent,
    history: nat,
    per_tick: nat,
    other: SimEventId,
)
    requires
        intent.event_id.ordinal < per_tick,
    ensures
        ({
            let after = intents_after_record(before, intent, history, per_tick);
            let same_key = intent_key(other) == intent_key(intent.event_id);
            let evicted = other.tick != intent.event_id.tick && ticks_collide(
                other.tick.0,
                intent.event_id.tick.0,
                history,
            );
            &&& lookup(after, intent.event_id) == Some(intent)
            &&& same_key && other != intent.event_id ==> lookup(after, other) == None::<
                FighterPresentationIntent,
            >
            &&& evicted ==> lookup(after, other) == None::<FighterPresentationIntent>
            &&& !same_key && !evicted ==> lookup(after, other) == lookup(before, other)
        }),
{
}

/// Rolling back: after a discard, events up to the retained tick are found as
/// before and later ones are not found at all.
pub proof fn discard_keeps_the_past(
    before: Map<(u64, u16), FighterPresentationIntent>,
    retained_through: u64,
    id: SimEventId,
)
    ensures
        id.tick.0 <= retained_through ==> lookup(kept_through(before, retained_through), id)
            == lookup(before, id),
        id.tick.0 > retained_through ==> lookup(kept_through(before, retained_through), id)
            == None::<FighterPresentationIntent>,
{
}

/// Replaying: discarding the ticks after a retained one and recording the same
/// intent again leaves the event's lookup as it was.
pub proof fn replay_restores_the_lookup(
    before: Map<(u64, u16), FighterPresentationIntent>,
    intent: FighterPresentationIntent,
    retained_through: u64,
    history: nat,
    per_tick: nat,
)
    requires
        retained_through < intent.event_id.tick.0,
        intent.event_id.ordinal < per_tick,
    ensures
        ({
            let first = intents_after_record(before, intent, history, per_tick);
            let rolled_back = kept_through(first, retained_through);
            let replayed = intents_after_record(rolled_back, intent, history, per_tick);
            &&& lookup(rolled_back, intent.event_id) == None::<FighterPresentationIntent>
            &&& lookup(replayed, intent.event_id) == lookup(first, intent.event_id)
        }),
{
}

} // verus!

//! Which local device feeds which seat, at render rate and at the fixed rate.

use vstd::prelude::*;

use crate::ids::{FighterId, FIGHTER_COUNT};
use crate::keys::{
    KeyModel, KeySnapshot, PlayerControlBindings, PlayerKeyBindings, RenderInputSample, bound_mask,
    directions_claimed, light_claimed, movement_axis, sample_bound_tick_input,
};
use crate::loadout::{Controller, LocalInputAssignment, ParticipantKind};

verus! {

/// What a render frame does to one seat's accumulated input: forget what was
/// accumulated, merge a new sample, or both in that order.
#[derive(Clone, Copy, Debug, PartialEq, Eq, Structural)]
pub struct SeatSampling {
    pub reset: bool,
    pub sample: Option<RenderInputSample>,
}

/// A human controls this seat.
pub open spec fn human_of(controller: Controller, slot: int) -> bool {
    controller.participant == ParticipantKind::Human && controller.slot.spec_index() == slot
}

/// How many human controllers claim a seat.
pub open spec fn human_claims(controllers: Seq<Controller>, slot: int) -> nat
    decreases controllers.len(),
{
    if controllers.len() == 0 {
        0
    } else {
        human_claims(controllers.drop_last(), slot) + (if human_of(controllers.last(), slot) {
            1nat
        } else {
            0nat
        })
    }
}

/// The first human controller that claims a seat.
pub open spec fn first_human(controllers: Seq<Controller>, slot: int) -> Option<Controller>
    decreases controllers.len(),
{
    if controllers.len() == 0 {
        None
    } else {
        match first_human(controllers.drop_last(), slot) {
            Some(controller) => Some(controller),
            None => if human_of(controllers.last(), slot) {
                Some(controllers.last())
            } else {
                None
            },
        }
    }
}

/// The one human controller of a seat; nobody where several claim it.
pub open spec fn sole_human(controllers: Seq<Controller>, slot: int) -> Option<Controller> {
    if human_claims(controllers, slot) == 1 {
        first_human(controllers, slot)
    } else {
        None
    }
}

/// The sample of a player's keys.
pub open spec fn bound_sample(
    keys: KeyModel,
    bindings: PlayerControlBindings,
    reserve_camera_inputs: bool,
) -> RenderInputSample {
    let directions = !directions_claimed(keys, bindings, reserve_camera_inputs);
    let light = !light_claimed(keys, bindings, reserve_camera_inputs);
    RenderInputSample {
        axis: movement_axis(keys, bindings, reserve_camera_inputs),
        held: bound_mask(keys.pressed, bindings, directions, light),
        pressed: bound_mask(keys.just_pressed, bindings, directions, light),
        released: bound_mask(keys.just_released, bindings, directions, light),
    }
}

/// The device that feeds a seat in this frame: that of its one human, where it
/// has keys, and none outside of a fight.
pub open spec fn seat_source(
    fighting: bool,
    controllers: Seq<Controller>,
    bindings: PlayerKeyBindings,
    slot: int,
) -> Option<LocalInputAssignment> {
    if !fighting {
        None
    } else {
        match sole_human(controllers, slot) {
            Some(controller) => if bindings.bindings_for_assignment(controller.input).is_some() {
                Some(controller.input)
            } else {
                None
            },
            None => None,
        }
    }
}

/// What this frame does to a seat. A seat without a device is reset; a seat
/// whose device or bindings changed is reset before it is sampled.
pub open spec fn seat_sampling(
    source: Option<LocalInputAssignment>,
    previous: Option<LocalInputAssignment>,
    bindings: PlayerKeyBindings,
    bindings_changed: bool,
    keys: KeyModel,
    reserve_camera_inputs: bool,
) -> SeatSampling {
    match source {
        Some(assignment) => SeatSampling {
            reset: previous != source || bindings_changed,
            sample: Some(
                bound_sample(
                    keys,
                    bindings.bindings_for_assignment(assignment).unwrap(),
                    reserve_camera_inputs,
                ),
            ),
        },
        None => SeatSampling { reset: true, sample: None },
    }
}

fn human_for_slot(controllers: &Vec<Controller>, slot: usize) -> (controller: Option<Controller>)
    ensures
        controller == sole_human(controllers@, slot as int),
{
    let mut found: Option<Controller> = None;
    let mut duplicate = false;
    let mut next: usize = 0;
    while next < controllers.len()
        invariant
            next <= controllers@.len(),
            found == first_human(controllers@.take(next as int), slot as int),
            found.is_some() == (human_claims(controllers@.take(next as int), slot as int) > 0),
            duplicate == (human_claims(controllers@.take(next as int), slot as int) > 1),
        decreases controllers@.len() - next,
    {
        let controller = controllers[next];
        if controller.is_human() && controller.slot.index() == slot {
            if found.is_some() {
                duplicate = true;
            } else {
                found = Some(controller);
            }
        }
        next += 1;
        proof {
            assert(controllers@.take(next as int).drop_last() =~= controllers@.take(next - 1));
        }
    }
    proof {
        assert(controllers@.take(next as int) =~= controllers@);
    }
    if duplicate {
        None
    } else {
        found
    }
}

fn sample_seat(
    fighting: bool,
    keys: &KeySnapshot,
    bindings: &PlayerKeyBindings,
    bindings_changed: bool,
    reserve_camera_inputs: bool,
    controllers: &Vec<Controller>,
    slot: usize,
    previous: Option<LocalInputAssignment>,
) -> (result: (SeatSampling, Option<LocalInputAssignment>))
    ensures
        ({
            let source = seat_source(fighting, controllers@, *bindings, slot as int);
            result == (
                seat_sampling(
                    source,
                    previous,
                    *bindings,
                    bindings_changed,
                    keys@,
                    reserve_camera_inputs,
                ),
                source,
            )
        }),
{
    if !fighting {
        return (SeatSampling { reset: true, sample: None }, None);
    }
    match human_for_slot(controllers, slot) {
        Some(controller) => match bindings.bindings_for_assignment(controller.input) {
            Some(player_bindings) => {
                let source_changed = match previous {
                    Some(source) => source != controller.input,
                    None => true,
                };
                let sample = sample_bound_tick_input(keys, player_bindings, reserve_camera_inputs);
                (
                    SeatSampling { reset: source_changed || bindings_changed, sample: Some(sample) },
                    Some(controller.input),
                )
            },
            None => (SeatSampling { reset: true, sample: None }, None),
        },
        None => (SeatSampling { reset: true, sample: None }, None),
    }
}

/// Samples every seat once per render frame and remembers the device that fed
/// it. Outside of a fight every seat is reset and no device is remembered.
pub fn sample_local_player_input(
    fighting: bool,
    keys: &KeySnapshot,
    bindings: &PlayerKeyBindings,
    bindings_changed: bool,
    reserve_camera_inputs: bool,
    controllers: &Vec<Controller>,
    previous_sources: &mut [Option<LocalInputAssignment>; FIGHTER_COUNT],
) -> (sampling: [SeatSampling; FIGHTER_COUNT])
    ensures
        sampling@ == Seq::new(
            FIGHTER_COUNT as nat,
            |slot: int|
                seat_sampling(
                    seat_source(fighting, controllers@, *bindings, slot),
                    old(previous_sources)@[slot],
                    *bindings,
                    bindings_changed,
                    keys@,
                    reserve_camera_inputs,
                ),
        ),
        final(previous_sources)@ == Seq::new(
            FIGHTER_COUNT as nat,
            |slot: int| seat_source(fighting, controllers@, *bindings, slot),
        ),
{
    let ghost before = previous_sources@;
    let (first, first_source) = sample_seat(
        fighting,
        keys,
        bindings,
        bindings_changed,
        reserve_camera_inputs,
        controllers,
        0,
        previous_sources[0],
    );
    let (second, second_source) = sample_seat(
        fighting,
        keys,
        bindings,
        bindings_changed,
        reserve_camera_inputs,
        controllers,
        1,
        previous_sources[1],
    );
    let (third, third_source) = sample_seat(
        fighting,
        keys,
        bindings,
        bindings_changed,
        reserve_camera_inputs,
        controllers,
        2,
        previous_sources[2],
    );
    let (fourth, fourth_source) = sample_seat(
        fighting,
        keys,
        bindings,
        bindings_changed,
        reserve_camera_inputs,
        controllers,
        3,
        previous_sources[3],
    );
    *previous_sources = [first_source, second_source, third_source, fourth_source];
    let sampling = [first, second, third, fourth];
    proof {
        assert(sampling@ =~= Seq::new(
            FIGHTER_COUNT as nat,
            |slot: int|
                seat_sampling(
                    seat_source(fighting, controllers@, *bindings, slot),
                    before[slot],
                    *bindings,
                    bindings_changed,
                    keys@,
                    reserve_camera_inputs,
                ),
        ));
        assert(previous_sources@ =~= Seq::new(
            FIGHTER_COUNT as nat,
            |slot: int| seat_source(fighting, controllers@, *bindings, slot),
        ));
    }
    sampling
}

/// Setup and menu input never leaks into a match: outside of a fight nothing is
/// sampled, and the first sample of a fight starts from a reset seat.
pub proof fn menus_do_not_leak_into_fights(
    controllers: Seq<Controller>,
    bindings: PlayerKeyBindings,
    slot: int,
    bindings_changed: bool,
    keys: KeyModel,
    reserve: bool,
    previous: Option<LocalInputAssignment>,
)
    ensures
        ({
            let idle_source = seat_source(false, controllers, bindings, slot);
            let idle = seat_sampling(
                idle_source,
                previous,
                bindings,
                bindings_changed,
                keys,
                reserve,
            );
            let fight_source = seat_source(true, controllers, bindings, slot);
            let first = seat_sampling(
                fight_source,
                idle_source,
                bindings,
                bindings_changed,
                keys,
                reserve,
            );
            &&& idle.reset
            &&& idle.sample.is_none()
            &&& first.reset
        }),
{
}

/// A seat that several humans claim takes no input at all.
pub proof fn contested_seats_take_no_input(
    controllers: Seq<Controller>,
    bindings: PlayerKeyBindings,
    slot: int,
    fighting: bool,
)
    requires
        human_claims(controllers, slot) > 1,
    ensures
        seat_source(fighting, controllers, bindings, slot) == None::<LocalInputAssignment>,
{
}

/// Where a fighter's input of one tick comes from.
#[derive(Clone, Copy, Debug, PartialEq, Eq, Structural)]
pub enum TickInputSource {
    /// Not driven by a local player; its input is left alone.
    Untouched,
    /// A local player without keys; its input is neutral.
    Neutral,
    /// The first fighter to read its seat, whose accumulated input is drained.
    Drain(FighterId),
    /// A later fighter on a seat that was drained already in this tick.
    Shared(FighterId),
}

/// The seat that a controller reads, if any.
pub open spec fn read_seat(controller: Controller) -> Option<FighterId> {
    if controller.participant == ParticipantKind::Human {
        match controller.input {
            LocalInputAssignment::Keyboard(index) => if index < FIGHTER_COUNT {
                Some(controller.slot)
            } else {
                None
            },
            LocalInputAssignment::Unassigned => None,
        }
    } else {
        None
    }
}

/// An earlier controller reads this seat.
pub open spec fn seat_read_before(controllers: Seq<Controller>, before: int, seat: FighterId) -> bool {
    exists|j: int| 0 <= j < before && read_seat(#[trigger] controllers[j]) == Some(seat)
}

/// Where the input of the fighter at `index` comes from.
pub open spec fn tick_input_source(controllers: Seq<Controller>, index: int) -> TickInputSource {
    if controllers[index].participant != ParticipantKind::Human {
        TickInputSource::Untouched
    } else {
        match read_seat(controllers[index]) {
            Some(seat) => if seat_read_before(controllers, index, seat) {
                TickInputSource::Shared(seat)
            } else {
                TickInputSource::Drain(seat)
            },
            None => TickInputSource::Neutral,
        }
    }
}

/// Decides where every fighter's input of this tick comes from.
pub fn consume_local_player_input(controllers: &Vec<Controller>) -> (sources: Vec<
    TickInputSource,
>)
    ensures
        sources@ == Seq::new(
            controllers@.len(),
            |i: int| tick_input_source(controllers@, i),
        ),
{
    let mut sources: Vec<TickInputSource> = Vec::new();
    let mut drained = [false, false, false, false];
    let mut next: usize = 0;
    while next < controllers.len()
        invariant
            next <= controllers@.len(),
            sources@.len() == next,
            forall|i: int|
                0 <= i < next ==> (#[trigger] sources@[i]) == tick_input_source(controllers@, i),
            forall|seat: FighterId|
                drained@[#[trigger] seat.spec_index() as int] == seat_read_before(
                    controllers@,
                    next as int,
                    seat,
                ),
        decreases controllers@.len() - next,
    {
        let controller = controllers[next];
        let mut seat: Option<FighterId> = None;
        if controller.is_human() {
            match controller.input {
                LocalInputAssignment::Keyboard(index) => {
                    if index < FIGHTER_COUNT {
                        seat = Some(controller.slot);
                    }
                },
                LocalInputAssignment::Unassigned => {},
            }
        }
        let ghost read = drained@;
        let source = if !controller.is_human() {
            TickInputSource::Untouched
        } else {
            match seat {
                Some(seat) => {
                    let index: usize = seat.index();
                    if drained[index] {
                        TickInputSource::Shared(seat)
                    } else {
                        drained[index] = true;
                        TickInputSource::Drain(seat)
                    }
                },
                None => TickInputSource::Neutral,
            }
        };
        proof {
            assert(seat == read_seat(controllers@[next as int]));
            assert(source == tick_input_source(controllers@, next as int));
            assert forall|other: FighterId|
                drained@[#[trigger] other.spec_index() as int] == seat_read_before(
                    controllers@,
                    next + 1,
                    other,
                ) by {
                let was_read = seat_read_before(controllers@, next as int, other);
                assert(read[other.spec_index() as int] == was_read);
                if was_read {
                    let j = choose|j: int|
                        0 <= j < next && read_seat(#[trigger] controllers@[j]) == Some(other);
                    assert(read_seat(controllers@[j]) == Some(other));
                }
                if seat == Some(other) {
                    assert(read_seat(controllers@[next as int]) == Some(other));
                }
                if seat_read_before(controllers@, next + 1, other) && !was_read {
                    let j = choose|j: int|
                        0 <= j < next + 1 && read_seat(#[trigger] controllers@[j]) == Some(other);
                    assert(j == next);
                }
            }
        }
        sources.push(source);
        next += 1;
    }
    proof {
        assert(sources@ =~= Seq::new(
            controllers@.len(),
            |i: int| tick_input_source(controllers@, i),
        ));
    }
    sources
}

/// Accumulated input is drained at most once per seat and tick.
pub proof fn seats_are_drained_once(
    controllers: Seq<Controller>,
    first: int,
    second: int,
    seat: FighterId,
)
    requires
        0 <= first < controllers.len(),
        0 <= second < controllers.len(),
        tick_input_source(controllers, first) == TickInputSource::Drain(seat),
        tick_input_source(controllers, second) == TickInputSource::Drain(seat),
    ensures
        first == second,
{
    if first < second {
        assert(read_seat(controllers[first]) == Some(seat));
    } else if second < first {
        assert(read_seat(controllers[second]) == Some(seat));
    }
}

} // verus!

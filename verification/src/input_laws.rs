//! What keys, chords and taps come to.

use vstd::prelude::*;

use crate::gestures::{
    ChordSample, DashTapTracker, GuardChordButton, GuardChordOutput, GuardChordPending,
    GuardChordTracker, chord_sample, chord_step, taps_step,
};
use crate::keys::{
    KeyCode, KeyModel, PlayerControlBindings, PlayerKeyBindings, bound_mask, movement_axis,
};
use crate::loadout::{Controller, LocalInputAssignment, ParticipantKind};
use crate::menu_laws::{resets, shifted};
use crate::sampling::{
    TickInputSource, bound_sample, first_human, human_claims, read_seat, seat_read_before,
    seat_sampling, seat_source, tick_input_source,
};

verus! {

/// When a button last went down, this sample counted.
pub open spec fn last_press(stored: Option<u64>, just: bool, now: u64) -> Option<u64> {
    if just {
        Some(now)
    } else {
        stored
    }
}

/// Two moments lie no farther apart than a time.
pub open spec fn within(left: int, right: int, time: int) -> bool {
    left - right <= time && right - left <= time
}

/// The three buttons are held, and the two attacks went down together just now, or all
/// three together at any time.
pub open spec fn asks_for_all_three(
    tracker: GuardChordTracker,
    sample: ChordSample,
    grace: u64,
) -> bool {
    let light = last_press(tracker.light_pressed_at, sample.light_just, sample.now);
    let heavy = last_press(tracker.heavy_pressed_at, sample.heavy_just, sample.now);
    let grab = last_press(tracker.grab_pressed_at, sample.grab_just, sample.now);
    &&& sample.light_held
    &&& sample.heavy_held
    &&& sample.grab_held
    &&& light.is_some()
    &&& heavy.is_some()
    &&& within(light.unwrap() as int, heavy.unwrap() as int, grace as int)
    &&& {
        ||| (sample.now - light.unwrap() <= grace || sample.now - heavy.unwrap() <= grace)
        ||| (grab.is_some() && within(grab.unwrap() as int, light.unwrap() as int, grace as int)
            && within(grab.unwrap() as int, heavy.unwrap() as int, grace as int))
    }
}

/// The ultimate comes out when all three buttons are asked for together and were not
/// down since the last one. It beats every other meaning of the buttons.
pub proof fn three_buttons_make_the_ultimate(
    tracker: GuardChordTracker,
    sample: ChordSample,
    grace: u64,
)
    ensures
        ({
            let (after, output) = chord_step(tracker, sample, grace);
            let silent = tracker.ultimate_latched && sample.light_held && sample.heavy_held
                && sample.grab_held;
            &&& output.ultimate <==> !silent && asks_for_all_three(tracker, sample, grace)
            &&& output.ultimate ==> after.ultimate_latched && !after.guard_latched
                && after.pending.is_none()
            &&& silent ==> output == GuardChordOutput::nothing() && after.ultimate_latched
            &&& !silent && !output.ultimate ==> !after.ultimate_latched
            &&& after.light_pressed_at == last_press(
                tracker.light_pressed_at,
                sample.light_just,
                sample.now,
            )
            &&& after.heavy_pressed_at == last_press(
                tracker.heavy_pressed_at,
                sample.heavy_just,
                sample.now,
            )
            &&& after.grab_pressed_at == last_press(
                tracker.grab_pressed_at,
                sample.grab_just,
                sample.now,
            )
        }),
{
}

/// An attack that waits is joined by the other one in time, and still held.
pub open spec fn joined_in_time(
    waiting: GuardChordPending,
    sample: ChordSample,
    grace: u64,
) -> bool {
    &&& sample.now - waiting.started_at <= grace
    &&& {
        ||| waiting.button == GuardChordButton::Light && sample.light_held && sample.heavy_just
        ||| waiting.button == GuardChordButton::Heavy && sample.heavy_held && sample.light_just
    }
}

/// Both attacks together guard, pressed at once or within the grace. The guard lasts
/// while both are held and ends with either.
pub proof fn two_attacks_make_the_guard(
    tracker: GuardChordTracker,
    sample: ChordSample,
    grace: u64,
)
    requires
        !asks_for_all_three(tracker, sample, grace),
        !(tracker.ultimate_latched && sample.light_held && sample.heavy_held && sample.grab_held),
    ensures
        ({
            let (after, output) = chord_step(tracker, sample, grace);
            let at_once = sample.light_just && sample.heavy_just && !sample.grab_just;
            let joined = match tracker.pending {
                Some(waiting) => joined_in_time(waiting, sample, grace),
                None => false,
            };
            &&& tracker.guard_latched ==> (output.guard <==> sample.light_held
                && sample.heavy_held)
            &&& !tracker.guard_latched ==> (output.guard <==> at_once || joined)
            &&& output.guard <==> after.guard_latched
            &&& output.guard && !tracker.guard_latched ==> after.pending.is_none()
            &&& tracker.guard_latched && !output.guard ==> output == GuardChordOutput::nothing()
                && after.pending.is_none()
        }),
{
}

/// One attack alone waits for the grace and then comes out as itself; the aim comes
/// out as nothing. Whatever went down in the same sample waits next. A button that
/// goes down while none waits begins to wait.
pub proof fn lone_attacks_come_out_late(
    tracker: GuardChordTracker,
    sample: ChordSample,
    grace: u64,
)
    requires
        !asks_for_all_three(tracker, sample, grace),
        !tracker.ultimate_latched,
        !tracker.guard_latched,
        !(sample.light_just && sample.heavy_just),
        tracker.pending matches Some(waiting) ==> !joined_in_time(waiting, sample, grace)
            && waiting.started_at <= sample.now,
    ensures
        ({
            let (after, output) = chord_step(tracker, sample, grace);
            let fresh = if sample.grab_just {
                Some(GuardChordButton::Grab)
            } else if sample.light_just {
                Some(GuardChordButton::Light)
            } else if sample.heavy_just {
                Some(GuardChordButton::Heavy)
            } else {
                None
            };
            let due = match tracker.pending {
                Some(waiting) => sample.now - waiting.started_at >= grace,
                None => false,
            };
            &&& output.light <==> due && tracker.pending.unwrap().button == GuardChordButton::Light
            &&& output.heavy <==> due && tracker.pending.unwrap().button == GuardChordButton::Heavy
            &&& !output.guard
            &&& tracker.pending.is_some() && !due ==> after.pending == tracker.pending
            &&& tracker.pending.is_none() ==> after.pending == (match fresh {
                Some(button) => Some(GuardChordPending { button, started_at: sample.now }),
                None => None,
            })
            &&& due && fresh != Some(tracker.pending.unwrap().button) ==> after.pending == (
            match fresh {
                Some(button) => Some(GuardChordPending { button, started_at: sample.now }),
                None => None,
            })
        }),
{
}

/// A direction went down for the second time within twenty-eight hundredths of a
/// second.
pub open spec fn tapped_twice(keys: KeyModel, key: KeyCode, last: Option<u64>, now: u64) -> bool {
    &&& keys.just_pressed.contains(key)
    &&& last.is_some()
    &&& now - last.unwrap() <= 280_000
}

/// A dash starts when any direction is tapped twice. A first tap is remembered, and
/// what was not tapped stays as it was.
pub proof fn two_taps_make_a_dash(
    tracker: DashTapTracker,
    keys: KeyModel,
    bindings: PlayerControlBindings,
    now: u64,
)
    ensures
        ({
            let (after, dash) = taps_step(tracker, keys, bindings, now);
            &&& dash <==> tapped_twice(keys, bindings.left, tracker.left, now) || tapped_twice(
                keys,
                bindings.right,
                tracker.right,
                now,
            ) || tapped_twice(keys, bindings.down, tracker.down, now) || tapped_twice(
                keys,
                bindings.up,
                tracker.up,
                now,
            )
            &&& after.left == last_press(
                tracker.left,
                keys.just_pressed.contains(bindings.left),
                now,
            )
            &&& !dash ==> after.right == last_press(
                tracker.right,
                keys.just_pressed.contains(bindings.right),
                now,
            ) && after.down == last_press(
                tracker.down,
                keys.just_pressed.contains(bindings.down),
                now,
            ) && after.up == last_press(tracker.up, keys.just_pressed.contains(bindings.up), now)
            &&& after.right == tracker.right || after.right == Some(now)
            &&& after.down == tracker.down || after.down == Some(now)
            &&& after.up == tracker.up || after.up == Some(now)
        }),
{
}

/// The key is one of the arrows.
pub open spec fn an_arrow(key: KeyCode) -> bool {
    key == KeyCode::ArrowLeft || key == KeyCode::ArrowRight || key == KeyCode::ArrowUp || key
        == KeyCode::ArrowDown
}

/// The camera takes a player's directions.
pub open spec fn camera_steers(
    keys: KeyModel,
    bindings: PlayerControlBindings,
    reserve: bool,
) -> bool {
    reserve && shifted(keys) && (an_arrow(bindings.left) || an_arrow(bindings.right) || an_arrow(
        bindings.up,
    ) || an_arrow(bindings.down))
}

pub open spec fn key_value(keys: KeyModel, key: KeyCode) -> int {
    if keys.pressed.contains(key) {
        1
    } else {
        0
    }
}

/// The directions of a player: right against left, down against up, and none while
/// the camera takes the keys.
pub proof fn directions_cancel_out(keys: KeyModel, bindings: PlayerControlBindings, reserve: bool)
    ensures
        ({
            let axis = movement_axis(keys, bindings, reserve);
            &&& camera_steers(keys, bindings, reserve) ==> axis.x == 0 && axis.y == 0
            &&& !camera_steers(keys, bindings, reserve) ==> axis.x == key_value(
                keys,
                bindings.right,
            ) - key_value(keys, bindings.left) && axis.y == key_value(keys, bindings.down)
                - key_value(keys, bindings.up)
        }),
{
}

/// Every button of a sample is what its own key says, but for directions that the
/// camera takes, and a light attack on the key that it takes.
pub proof fn samples_say_what_the_keys_say(
    keys: KeyModel,
    bindings: PlayerControlBindings,
    reserve: bool,
)
    ensures
        ({
            let sample = bound_sample(keys, bindings, reserve);
            let steers = !camera_steers(keys, bindings, reserve);
            let strikes = !(reserve && shifted(keys) && bindings.light == KeyCode::KeyC);
            &&& sample.axis == movement_axis(keys, bindings, reserve)
            &&& sample.held.left == (steers && keys.pressed.contains(bindings.left))
            &&& sample.held.right == (steers && keys.pressed.contains(bindings.right))
            &&& sample.held.up == (steers && keys.pressed.contains(bindings.up))
            &&& sample.held.down == (steers && keys.pressed.contains(bindings.down))
            &&& sample.held.light == (strikes && keys.pressed.contains(bindings.light))
            &&& sample.held.heavy == keys.pressed.contains(bindings.heavy)
            &&& sample.held.aim_grab == keys.pressed.contains(bindings.aim_grab)
            &&& sample.held.jump == keys.pressed.contains(bindings.jump)
            &&& sample.pressed == bound_mask(keys.just_pressed, bindings, steers, strikes)
            &&& sample.released == bound_mask(keys.just_released, bindings, steers, strikes)
            &&& sample.pressed.jump == keys.just_pressed.contains(bindings.jump)
            &&& sample.released.heavy == keys.just_released.contains(bindings.heavy)
            &&& sample.pressed.light == (strikes && keys.just_pressed.contains(bindings.light))
        }),
        ({
            let sample = chord_sample(keys, bindings, reserve, 0);
            let strikes = !(reserve && shifted(keys) && bindings.light == KeyCode::KeyC);
            &&& sample.light_just == (strikes && keys.just_pressed.contains(bindings.light))
            &&& sample.light_held == (strikes && keys.pressed.contains(bindings.light))
            &&& sample.heavy_just == keys.just_pressed.contains(bindings.heavy)
            &&& sample.heavy_held == keys.pressed.contains(bindings.heavy)
            &&& sample.grab_just == keys.just_pressed.contains(bindings.aim_grab)
            &&& sample.grab_held == keys.pressed.contains(bindings.aim_grab)
        }),
        keys.match_reset() == resets(keys),
        keys.dev_character_cycle() == (shifted(keys) && keys.just_pressed.contains(KeyCode::KeyP)),
{
}

/// The layouts belong to the first four keyboards in turn.
pub proof fn keyboards_have_their_layouts(bindings: PlayerKeyBindings, index: usize)
    ensures
        ({
            let layout = bindings.bindings_for_assignment(LocalInputAssignment::Keyboard(index));
            &&& index == 0 ==> layout == Some(bindings.p1)
            &&& index == 1 ==> layout == Some(bindings.p2)
            &&& index == 2 ==> layout == Some(bindings.p3)
            &&& index == 3 ==> layout == Some(bindings.p4)
            &&& index > 3 ==> layout.is_none()
        }),
        bindings.bindings_for_assignment(LocalInputAssignment::Unassigned).is_none(),
{
}

/// A human holds the seat.
pub open spec fn holds_the_seat(controller: Controller, seat: int) -> bool {
    controller.participant == ParticipantKind::Human && controller.slot.spec_index() == seat
}

proof fn lemma_no_human(controllers: Seq<Controller>, seat: int)
    requires
        forall|i: int|
            0 <= i < controllers.len() ==> !holds_the_seat(#[trigger] controllers[i], seat),
    ensures
        human_claims(controllers, seat) == 0,
        first_human(controllers, seat).is_none(),
    decreases controllers.len(),
{
    if controllers.len() > 0 {
        let rest = controllers.drop_last();
        assert forall|i: int| 0 <= i < rest.len() implies !holds_the_seat(
            #[trigger] rest[i],
            seat,
        ) by {
            assert(rest[i] == controllers[i]);
        }
        lemma_no_human(rest, seat);
        assert(!holds_the_seat(controllers[controllers.len() - 1], seat));
    }
}

proof fn lemma_one_human(controllers: Seq<Controller>, seat: int, place: int)
    requires
        0 <= place < controllers.len(),
        holds_the_seat(controllers[place], seat),
        forall|i: int|
            0 <= i < controllers.len() && i != place ==> !holds_the_seat(
                #[trigger] controllers[i],
                seat,
            ),
    ensures
        human_claims(controllers, seat) == 1,
        first_human(controllers, seat) == Some(controllers[place]),
    decreases controllers.len(),
{
    let rest = controllers.drop_last();
    if place == controllers.len() - 1 {
        assert forall|i: int| 0 <= i < rest.len() implies !holds_the_seat(
            #[trigger] rest[i],
            seat,
        ) by {
            assert(rest[i] == controllers[i]);
        }
        lemma_no_human(rest, seat);
    } else {
        assert forall|i: int| 0 <= i < rest.len() && i != place implies !holds_the_seat(
            #[trigger] rest[i],
            seat,
        ) by {
            assert(rest[i] == controllers[i]);
        }
        assert(rest[place] == controllers[place]);
        lemma_one_human(rest, seat, place);
        assert(!holds_the_seat(controllers[controllers.len() - 1], seat));
    }
}

/// In a fight, a seat that exactly one human holds is fed by that human's keys, if they
/// have any. A seat that no human holds is fed by nothing.
pub proof fn seats_are_fed_by_their_human(
    controllers: Seq<Controller>,
    bindings: PlayerKeyBindings,
    seat: int,
    place: int,
)
    requires
        0 <= place <= controllers.len(),
        place < controllers.len() ==> holds_the_seat(controllers[place], seat),
        forall|i: int|
            0 <= i < controllers.len() && i != place ==> !holds_the_seat(
                #[trigger] controllers[i],
                seat,
            ),
    ensures
        place == controllers.len() ==> seat_source(true, controllers, bindings, seat).is_none(),
        place < controllers.len() ==> seat_source(true, controllers, bindings, seat) == (
        match controllers[place].input {
            LocalInputAssignment::Keyboard(index) => if index < 4 {
                Some(controllers[place].input)
            } else {
                None
            },
            LocalInputAssignment::Unassigned => None,
        }),
{
    if place == controllers.len() {
        lemma_no_human(controllers, seat);
    } else {
        lemma_one_human(controllers, seat, place);
    }
}

/// A frame samples a seat by the keys that feed it. What was gathered before is
/// dropped where other keys fed the seat, or the keys were bound anew, or nothing feeds
/// it now.
pub proof fn frames_sample_the_fed_seats(
    source: Option<LocalInputAssignment>,
    previous: Option<LocalInputAssignment>,
    bindings: PlayerKeyBindings,
    rebound: bool,
    keys: KeyModel,
    reserve: bool,
)
    ensures
        ({
            let sampling = seat_sampling(source, previous, bindings, rebound, keys, reserve);
            &&& sampling.sample.is_some() <==> source.is_some()
            &&& sampling.reset <==> source.is_none() || source != previous || rebound
            &&& source == Some(LocalInputAssignment::Keyboard(0)) ==> sampling.sample == Some(
                bound_sample(keys, bindings.p1, reserve),
            )
            &&& source == Some(LocalInputAssignment::Keyboard(1)) ==> sampling.sample == Some(
                bound_sample(keys, bindings.p2, reserve),
            )
            &&& source == Some(LocalInputAssignment::Keyboard(2)) ==> sampling.sample == Some(
                bound_sample(keys, bindings.p3, reserve),
            )
            &&& source == Some(LocalInputAssignment::Keyboard(3)) ==> sampling.sample == Some(
                bound_sample(keys, bindings.p4, reserve),
            )
        }),
{
}

/// The controller reads a seat's gathered input.
pub open spec fn reads(controller: Controller) -> bool {
    controller.participant == ParticipantKind::Human && (match controller.input {
        LocalInputAssignment::Keyboard(index) => index < 4,
        LocalInputAssignment::Unassigned => false,
    })
}

/// Bots and closed seats are left alone, humans without keys get nothing, and of the
/// others the first on a seat takes what it gathered, which the later ones share.
pub proof fn the_first_reader_drains_its_seat(controllers: Seq<Controller>, index: int)
    requires
        0 <= index < controllers.len(),
    ensures
        ({
            let controller = controllers[index];
            let source = tick_input_source(controllers, index);
            let shared = exists|j: int|
                0 <= j < index && reads(#[trigger] controllers[j]) && controllers[j].slot
                    == controller.slot;
            &&& source == TickInputSource::Untouched <==> controller.participant
                != ParticipantKind::Human
            &&& controller.participant == ParticipantKind::Human && !reads(controller) ==> source
                == TickInputSource::Neutral
            &&& reads(controller) && !shared ==> source == TickInputSource::Drain(controller.slot)
            &&& reads(controller) && shared ==> source == TickInputSource::Shared(controller.slot)
        }),
{
    let controller = controllers[index];
    if reads(controller) {
        if exists|j: int|
            0 <= j < index && reads(#[trigger] controllers[j]) && controllers[j].slot
                == controller.slot {
            let j = choose|j: int|
                0 <= j < index && reads(#[trigger] controllers[j]) && controllers[j].slot
                    == controller.slot;
            assert(read_seat(controllers[j]) == Some(controller.slot));
        }
        if seat_read_before(controllers, index, controller.slot) {
            let j = choose|j: int|
                0 <= j < index && read_seat(#[trigger] controllers[j]) == Some(
                    controller.slot,
                );
            assert(reads(controllers[j]));
        }
    }
}

} // verus!

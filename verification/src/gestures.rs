//! Gestures over several samples: the guard and ultimate chords, and the double
//! tap that starts a dash. Times are in microseconds.

use vstd::prelude::*;

use crate::input::FighterInput;
use crate::keys::{
    KeyCode, KeyModel, KeySnapshot, PlayerControlBindings, directions_claimed, light_claimed,
    shift_pressed, uses_camera_arrow_keys,
};

verus! {

/// How close two taps must be to start a dash.
pub const DOUBLE_TAP_DASH_WINDOW: u64 = 280_000;

#[derive(Clone, Copy, Debug, PartialEq, Eq, Structural)]
pub enum GuardChordButton {
    Light,
    Heavy,
    Grab,
}

/// A button that waits for its chord partner.
#[derive(Clone, Copy, Debug, PartialEq, Eq, Structural)]
pub struct GuardChordPending {
    pub button: GuardChordButton,
    pub started_at: u64,
}

#[derive(Clone, Copy, Debug, PartialEq, Eq, Structural)]
pub struct GuardChordTracker {
    pub pending: Option<GuardChordPending>,
    pub guard_latched: bool,
    pub ultimate_latched: bool,
    pub light_pressed_at: Option<u64>,
    pub heavy_pressed_at: Option<u64>,
    pub grab_pressed_at: Option<u64>,
}

/// What the chord buttons mean in one sample.
#[derive(Clone, Copy, Debug, PartialEq, Eq, Structural)]
pub struct GuardChordOutput {
    pub light: bool,
    pub heavy: bool,
    pub grab: bool,
    pub guard: bool,
    pub ultimate: bool,
}

/// The chord buttons of one sample.
#[derive(Clone, Copy, Debug, PartialEq, Eq, Structural)]
pub struct ChordSample {
    pub light_just: bool,
    pub heavy_just: bool,
    pub grab_just: bool,
    pub light_held: bool,
    pub heavy_held: bool,
    pub grab_held: bool,
    pub now: u64,
}

impl GuardChordOutput {
    pub open spec fn spec_nothing() -> GuardChordOutput {
        GuardChordOutput { light: false, heavy: false, grab: false, guard: false, ultimate: false }
    }

    #[verifier::when_used_as_spec(spec_nothing)]
    pub fn nothing() -> (output: GuardChordOutput)
        ensures
            output == Self::spec_nothing(),
    {
        GuardChordOutput { light: false, heavy: false, grab: false, guard: false, ultimate: false }
    }
}

impl Default for GuardChordOutput {
    fn default() -> (output: GuardChordOutput)
        ensures
            output == GuardChordOutput::nothing(),
    {
        GuardChordOutput::nothing()
    }
}

impl Default for GuardChordTracker {
    fn default() -> (tracker: GuardChordTracker)
        ensures
            tracker == (GuardChordTracker {
                pending: None,
                guard_latched: false,
                ultimate_latched: false,
                light_pressed_at: None,
                heavy_pressed_at: None,
                grab_pressed_at: None,
            }),
    {
        GuardChordTracker {
            pending: None,
            guard_latched: false,
            ultimate_latched: false,
            light_pressed_at: None,
            heavy_pressed_at: None,
            grab_pressed_at: None,
        }
    }
}

/// The smaller of two times.
pub open spec fn earlier(left: int, right: int) -> int {
    if right < left {
        right
    } else {
        left
    }
}

/// The larger of two times.
pub open spec fn later(left: int, right: int) -> int {
    if right > left {
        right
    } else {
        left
    }
}

fn earlier_of(left: u64, right: u64) -> (time: u64)
    ensures
        time == earlier(left as int, right as int),
{
    if right < left {
        right
    } else {
        left
    }
}

fn later_of(left: u64, right: u64) -> (time: u64)
    ensures
        time == later(left as int, right as int),
{
    if right > left {
        right
    } else {
        left
    }
}

impl GuardChordTracker {
    /// The tracker with the press times of this sample.
    pub open spec fn with_presses(self, sample: ChordSample) -> GuardChordTracker {
        GuardChordTracker {
            light_pressed_at: if sample.light_just {
                Some(sample.now)
            } else {
                self.light_pressed_at
            },
            heavy_pressed_at: if sample.heavy_just {
                Some(sample.now)
            } else {
                self.heavy_pressed_at
            },
            grab_pressed_at: if sample.grab_just {
                Some(sample.now)
            } else {
                self.grab_pressed_at
            },
            ..self
        }
    }

    /// All three buttons are held, and either the two attacks went down together
    /// a moment ago or all three went down close together.
    pub open spec fn ultimate_chord(self, sample: ChordSample, grace: u64) -> bool {
        &&& sample.light_held
        &&& sample.heavy_held
        &&& sample.grab_held
        &&& match (self.light_pressed_at, self.heavy_pressed_at) {
            (Some(light), Some(heavy)) => {
                let first = earlier(light as int, heavy as int);
                let last = later(light as int, heavy as int);
                ||| (last - first <= grace && sample.now - last <= grace)
                ||| match self.grab_pressed_at {
                    Some(grab) => later(last, grab as int) - earlier(first, grab as int) <= grace,
                    None => false,
                }
            },
            _ => false,
        }
    }

    pub open spec fn latched_ultimate(self) -> GuardChordTracker {
        GuardChordTracker {
            pending: None,
            guard_latched: false,
            ultimate_latched: true,
            ..self
        }
    }

    pub open spec fn latched_guard(self) -> GuardChordTracker {
        GuardChordTracker { pending: None, guard_latched: true, ..self }
    }
}

/// The partner of a waiting attack went down while that attack is still held.
pub open spec fn partner_arrived(button: GuardChordButton, sample: ChordSample) -> bool {
    match button {
        GuardChordButton::Light => sample.heavy_just && sample.light_held,
        GuardChordButton::Heavy => sample.light_just && sample.heavy_held,
        GuardChordButton::Grab => false,
    }
}

/// Which button waits next once another has waited long enough.
pub open spec fn next_waiting(button: GuardChordButton, sample: ChordSample) -> Option<
    GuardChordPending,
> {
    let waiting = |next: GuardChordButton|
        Some(GuardChordPending { button: next, started_at: sample.now });
    if sample.grab_just {
        waiting(GuardChordButton::Grab)
    } else {
        match button {
            GuardChordButton::Light => if sample.heavy_just {
                waiting(GuardChordButton::Heavy)
            } else {
                None
            },
            GuardChordButton::Heavy => if sample.light_just {
                waiting(GuardChordButton::Light)
            } else {
                None
            },
            GuardChordButton::Grab => if sample.light_just {
                waiting(GuardChordButton::Light)
            } else if sample.heavy_just {
                waiting(GuardChordButton::Heavy)
            } else {
                None
            },
        }
    }
}

/// What a button means by itself. A lone grab button only aims.
pub open spec fn lone_button(button: GuardChordButton) -> GuardChordOutput {
    match button {
        GuardChordButton::Light => GuardChordOutput { light: true, ..GuardChordOutput::nothing() },
        GuardChordButton::Heavy => GuardChordOutput { heavy: true, ..GuardChordOutput::nothing() },
        GuardChordButton::Grab => GuardChordOutput::nothing(),
    }
}

pub open spec fn guard_output() -> GuardChordOutput {
    GuardChordOutput { guard: true, ..GuardChordOutput::nothing() }
}

pub open spec fn ultimate_output() -> GuardChordOutput {
    GuardChordOutput { ultimate: true, ..GuardChordOutput::nothing() }
}

/// The chords in order of precedence: a held ultimate stays silent, the ultimate
/// chord beats the guard chord, a held guard keeps guarding, and a lone attack
/// waits `grace` for its partner before it comes out.
pub open spec fn chord_step(
    tracker: GuardChordTracker,
    sample: ChordSample,
    grace: u64,
) -> (GuardChordTracker, GuardChordOutput) {
    let pressed = tracker.with_presses(sample);
    let nothing = GuardChordOutput::nothing();
    let all_held = sample.light_held && sample.heavy_held && sample.grab_held;
    if pressed.ultimate_latched && all_held {
        (pressed, nothing)
    } else {
        let ready = GuardChordTracker { ultimate_latched: false, ..pressed };
        if ready.ultimate_chord(sample, grace) {
            (ready.latched_ultimate(), ultimate_output())
        } else if ready.guard_latched {
            if sample.light_held && sample.heavy_held {
                (ready, guard_output())
            } else {
                (GuardChordTracker { guard_latched: false, pending: None, ..ready }, nothing)
            }
        } else if sample.light_just && sample.heavy_just && !sample.grab_just {
            (ready.latched_guard(), guard_output())
        } else {
            match ready.pending {
                Some(pending) => {
                    let waited = later(0, sample.now - pending.started_at);
                    if partner_arrived(pending.button, sample) && waited <= grace {
                        (ready.latched_guard(), guard_output())
                    } else if waited >= grace {
                        (
                            GuardChordTracker {
                                pending: next_waiting(pending.button, sample),
                                ..ready
                            },
                            lone_button(pending.button),
                        )
                    } else {
                        (ready, nothing)
                    }
                },
                None => {
                    let waiting = if sample.grab_just {
                        Some(GuardChordButton::Grab)
                    } else if sample.light_just {
                        Some(GuardChordButton::Light)
                    } else if sample.heavy_just {
                        Some(GuardChordButton::Heavy)
                    } else {
                        None
                    };
                    match waiting {
                        Some(button) => (
                            GuardChordTracker {
                                pending: Some(
                                    GuardChordPending { button, started_at: sample.now },
                                ),
                                ..ready
                            },
                            nothing,
                        ),
                        None => (ready, nothing),
                    }
                },
            }
        }
    }
}

fn record_chord_press_times(tracker: &mut GuardChordTracker, sample: ChordSample)
    ensures
        *final(tracker) == old(tracker).with_presses(sample),
{
    if sample.light_just {
        tracker.light_pressed_at = Some(sample.now);
    }
    if sample.heavy_just {
        tracker.heavy_pressed_at = Some(sample.now);
    }
    if sample.grab_just {
        tracker.grab_pressed_at = Some(sample.now);
    }
}

fn ultimate_chord_pressed(
    tracker: &GuardChordTracker,
    sample: ChordSample,
    grace: u64,
) -> (pressed: bool)
    ensures
        pressed == tracker.ultimate_chord(sample, grace),
{
    if !(sample.light_held && sample.heavy_held && sample.grab_held) {
        return false;
    }
    match (tracker.light_pressed_at, tracker.heavy_pressed_at) {
        (Some(light), Some(heavy)) => {
            let first: u64 = earlier_of(light, heavy);
            let last: u64 = later_of(light, heavy);
            if last - first <= grace && sample.now.saturating_sub(last) <= grace {
                return true;
            }
            match tracker.grab_pressed_at {
                Some(grab) => later_of(last, grab) - earlier_of(first, grab) <= grace,
                None => false,
            }
        },
        _ => false,
    }
}

fn latch_ultimate_chord(tracker: &mut GuardChordTracker) -> (output: GuardChordOutput)
    ensures
        *final(tracker) == old(tracker).latched_ultimate(),
        output == ultimate_output(),
{
    tracker.pending = None;
    tracker.guard_latched = false;
    tracker.ultimate_latched = true;
    GuardChordOutput { light: false, heavy: false, grab: false, guard: false, ultimate: true }
}

fn latch_guard_chord(tracker: &mut GuardChordTracker) -> (output: GuardChordOutput)
    ensures
        *final(tracker) == old(tracker).latched_guard(),
        output == guard_output(),
{
    tracker.pending = None;
    tracker.guard_latched = true;
    GuardChordOutput { light: false, heavy: false, grab: false, guard: true, ultimate: false }
}

fn waiting_after(button: GuardChordButton, sample: ChordSample) -> (pending: Option<
    GuardChordPending,
>)
    ensures
        pending == next_waiting(button, sample),
{
    let next = match (button, sample.light_just, sample.heavy_just, sample.grab_just) {
        (_, _, _, true) => GuardChordButton::Grab,
        (GuardChordButton::Light, _, true, _) => GuardChordButton::Heavy,
        (GuardChordButton::Heavy, true, _, _) => GuardChordButton::Light,
        (GuardChordButton::Grab, true, _, _) => GuardChordButton::Light,
        (GuardChordButton::Grab, _, true, _) => GuardChordButton::Heavy,
        _ => {
            return None;
        },
    };
    Some(GuardChordPending { button: next, started_at: sample.now })
}

fn lone_button_output(button: GuardChordButton) -> (output: GuardChordOutput)
    ensures
        output == lone_button(button),
{
    let mut output = GuardChordOutput::nothing();
    match button {
        GuardChordButton::Light => {
            output.light = true;
        },
        GuardChordButton::Heavy => {
            output.heavy = true;
        },
        GuardChordButton::Grab => {},
    }
    output
}

/// Resolves the chord buttons of one sample.
pub fn resolve_guard_chord_input(
    tracker: &mut GuardChordTracker,
    sample: ChordSample,
    grace: u64,
) -> (output: GuardChordOutput)
    ensures
        (*final(tracker), output) == chord_step(*old(tracker), sample, grace),
{
    record_chord_press_times(tracker, sample);
    if tracker.ultimate_latched {
        if sample.light_held && sample.heavy_held && sample.grab_held {
            return GuardChordOutput::nothing();
        }
        tracker.ultimate_latched = false;
    }
    if ultimate_chord_pressed(tracker, sample, grace) {
        return latch_ultimate_chord(tracker);
    }
    if tracker.guard_latched {
        if sample.light_held && sample.heavy_held {
            return GuardChordOutput {
                light: false,
                heavy: false,
                grab: false,
                guard: true,
                ultimate: false,
            };
        }
        tracker.guard_latched = false;
        tracker.pending = None;
        return GuardChordOutput::nothing();
    }
    if sample.light_just && sample.heavy_just && !sample.grab_just {
        return latch_guard_chord(tracker);
    }
    if let Some(pending) = tracker.pending {
        let elapsed: u64 = sample.now.saturating_sub(pending.started_at);
        let opposite_arrived = match pending.button {
            GuardChordButton::Light => sample.heavy_just && sample.light_held,
            GuardChordButton::Heavy => sample.light_just && sample.heavy_held,
            GuardChordButton::Grab => false,
        };
        if opposite_arrived && elapsed <= grace {
            return latch_guard_chord(tracker);
        }
        if elapsed >= grace {
            tracker.pending = waiting_after(pending.button, sample);
            return lone_button_output(pending.button);
        }
        return GuardChordOutput::nothing();
    }
    if sample.grab_just {
        tracker.pending = Some(
            GuardChordPending { button: GuardChordButton::Grab, started_at: sample.now },
        );
    } else if sample.light_just {
        tracker.pending = Some(
            GuardChordPending { button: GuardChordButton::Light, started_at: sample.now },
        );
    } else if sample.heavy_just {
        tracker.pending = Some(
            GuardChordPending { button: GuardChordButton::Heavy, started_at: sample.now },
        );
    }
    GuardChordOutput::nothing()
}

/// A sample never means two things at once, and the chord buttons never grab.
pub proof fn chord_output_is_single(
    tracker: GuardChordTracker,
    sample: ChordSample,
    grace: u64,
)
    ensures
        ({
            let output = chord_step(tracker, sample, grace).1;
            &&& !output.grab
            &&& !(output.light && output.heavy)
            &&& output.guard ==> !output.light && !output.heavy && !output.ultimate
            &&& output.ultimate ==> !output.light && !output.heavy
        }),
{
}

/// The ultimate fires once per hold: while all three buttons stay down after it,
/// nothing else comes out.
pub proof fn ultimate_fires_once_per_hold(
    tracker: GuardChordTracker,
    first: ChordSample,
    second: ChordSample,
    grace: u64,
)
    requires
        chord_step(tracker, first, grace).1.ultimate,
        second.light_held && second.heavy_held && second.grab_held,
    ensures
        chord_step(chord_step(tracker, first, grace).0, second, grace).1
            == GuardChordOutput::nothing(),
{
}

/// A lone attack comes out only after it has waited the whole grace.
pub proof fn lone_attack_waits_for_grace(
    tracker: GuardChordTracker,
    sample: ChordSample,
    grace: u64,
)
    requires
        chord_step(tracker, sample, grace).1.light || chord_step(tracker, sample, grace).1.heavy,
    ensures
        tracker.pending.is_some(),
        sample.now - tracker.pending.unwrap().started_at >= grace || grace == 0,
{
}

/// A guard that is latched guards for as long as both attacks stay down and the
/// ultimate chord does not come.
pub proof fn guard_holds_while_held(
    tracker: GuardChordTracker,
    sample: ChordSample,
    grace: u64,
)
    requires
        tracker.guard_latched,
        !tracker.ultimate_latched,
        sample.light_held && sample.heavy_held,
        !tracker.with_presses(sample).ultimate_chord(sample, grace),
    ensures
        chord_step(tracker, sample, grace).1 == guard_output(),
        chord_step(tracker, sample, grace).0.guard_latched,
{
}

/// When each direction was last tapped.
#[derive(Clone, Copy, Debug, PartialEq, Eq, Structural)]
pub struct DashTapTracker {
    pub left: Option<u64>,
    pub right: Option<u64>,
    pub down: Option<u64>,
    pub up: Option<u64>,
}

impl Default for DashTapTracker {
    fn default() -> (tracker: DashTapTracker)
        ensures
            tracker == (DashTapTracker { left: None, right: None, down: None, up: None }),
    {
        DashTapTracker { left: None, right: None, down: None, up: None }
    }
}

/// Two taps are close enough for a dash.
pub open spec fn double_tapped(last_tap: Option<u64>, now: u64) -> bool {
    match last_tap {
        Some(last) => now - last <= DOUBLE_TAP_DASH_WINDOW,
        None => false,
    }
}

/// The last tap of a direction after this sample.
pub open spec fn tap_after(last_tap: Option<u64>, tapped: bool, now: u64) -> Option<u64> {
    if tapped {
        Some(now)
    } else {
        last_tap
    }
}

/// The tracker and whether a dash starts. Directions are looked at left, right,
/// down, up; a dash ends the look, so later directions keep their last tap.
pub open spec fn taps_step(
    tracker: DashTapTracker,
    keys: KeyModel,
    bindings: PlayerControlBindings,
    now: u64,
) -> (DashTapTracker, bool) {
    let left = keys.just_pressed.contains(bindings.left);
    let right = keys.just_pressed.contains(bindings.right);
    let down = keys.just_pressed.contains(bindings.down);
    let up = keys.just_pressed.contains(bindings.up);
    let after_left = DashTapTracker { left: tap_after(tracker.left, left, now), ..tracker };
    let after_right = DashTapTracker {
        right: tap_after(tracker.right, right, now),
        ..after_left
    };
    let after_down = DashTapTracker { down: tap_after(tracker.down, down, now), ..after_right };
    let after_up = DashTapTracker { up: tap_after(tracker.up, up, now), ..after_down };
    if left && double_tapped(tracker.left, now) {
        (after_left, true)
    } else if right && double_tapped(tracker.right, now) {
        (after_right, true)
    } else if down && double_tapped(tracker.down, now) {
        (after_down, true)
    } else {
        (after_up, up && double_tapped(tracker.up, now))
    }
}

fn double_tap_key(
    keys: &KeySnapshot,
    key: KeyCode,
    now: u64,
    last_tap: &mut Option<u64>,
) -> (dash: bool)
    ensures
        dash == (keys@.just_pressed.contains(key) && double_tapped(*old(last_tap), now)),
        *final(last_tap) == tap_after(*old(last_tap), keys@.just_pressed.contains(key), now),
{
    if !keys.just_pressed(key) {
        return false;
    }
    let dash = match *last_tap {
        Some(last) => now.saturating_sub(last) <= DOUBLE_TAP_DASH_WINDOW,
        None => false,
    };
    *last_tap = Some(now);
    dash
}

pub fn movement_double_tapped(
    keys: &KeySnapshot,
    now: u64,
    tracker: &mut DashTapTracker,
    bindings: PlayerControlBindings,
) -> (dash: bool)
    ensures
        (*final(tracker), dash) == taps_step(*old(tracker), keys@, bindings, now),
{
    double_tap_key(keys, bindings.left, now, &mut tracker.left) || double_tap_key(
        keys,
        bindings.right,
        now,
        &mut tracker.right,
    ) || double_tap_key(keys, bindings.down, now, &mut tracker.down) || double_tap_key(
        keys,
        bindings.up,
        now,
        &mut tracker.up,
    )
}

/// A dash by double tap; none, and no tap is remembered, while the camera claims
/// the direction keys.
pub fn player_dash_input(
    keys: &KeySnapshot,
    now: u64,
    tracker: &mut DashTapTracker,
    bindings: PlayerControlBindings,
    reserve_camera_inputs: bool,
) -> (dash: bool)
    ensures
        (*final(tracker), dash) == (if directions_claimed(keys@, bindings, reserve_camera_inputs) {
            (*old(tracker), false)
        } else {
            taps_step(*old(tracker), keys@, bindings, now)
        }),
{
    if reserve_camera_inputs && shift_pressed(keys) && uses_camera_arrow_keys(bindings) {
        return false;
    }
    movement_double_tapped(keys, now, tracker, bindings)
}

/// The chord buttons of a player in one snapshot.
pub open spec fn chord_sample(
    keys: KeyModel,
    bindings: PlayerControlBindings,
    reserve_camera_inputs: bool,
    now: u64,
) -> ChordSample {
    let light = !light_claimed(keys, bindings, reserve_camera_inputs);
    ChordSample {
        light_just: keys.just_pressed.contains(bindings.light) && light,
        heavy_just: keys.just_pressed.contains(bindings.heavy),
        grab_just: keys.just_pressed.contains(bindings.aim_grab),
        light_held: keys.pressed.contains(bindings.light) && light,
        heavy_held: keys.pressed.contains(bindings.heavy),
        grab_held: keys.pressed.contains(bindings.aim_grab),
        now,
    }
}

/// Fills in the buttons of a player's input from one snapshot. The direction is
/// left to the caller, who knows where the camera looks.
pub fn collect_bound_player_input(
    keys: &KeySnapshot,
    now: u64,
    bindings: PlayerControlBindings,
    dash_taps: &mut DashTapTracker,
    guard_chord: &mut GuardChordTracker,
    reserve_camera_inputs: bool,
    grace: u64,
    input: &mut FighterInput,
)
    ensures
        ({
            let sample = chord_sample(keys@, bindings, reserve_camera_inputs, now);
            let (chord_tracker, chord) = chord_step(*old(guard_chord), sample, grace);
            let (tap_tracker, dash) = if directions_claimed(
                keys@,
                bindings,
                reserve_camera_inputs,
            ) {
                (*old(dash_taps), false)
            } else {
                taps_step(*old(dash_taps), keys@, bindings, now)
            };
            &&& *final(guard_chord) == chord_tracker
            &&& *final(dash_taps) == tap_tracker
            &&& *final(input) == (FighterInput {
                movement: old(input).movement,
                aim: sample.grab_held,
                jump: keys@.just_pressed.contains(bindings.jump),
                dash,
                light: chord.light,
                light_held: sample.light_held,
                raw_light_pressed: sample.light_just,
                heavy: chord.heavy,
                heavy_held: sample.heavy_held,
                raw_heavy_pressed: sample.heavy_just,
                heavy_released: keys@.just_released.contains(bindings.heavy),
                grab: chord.grab,
                guard: chord.guard,
                ultimate: chord.ultimate,
                special: false,
            })
        }),
{
    let light_blocked = reserve_camera_inputs && shift_pressed(keys) && bindings.light
        == KeyCode::KeyC;
    let sample = ChordSample {
        light_just: keys.just_pressed(bindings.light) && !light_blocked,
        heavy_just: keys.just_pressed(bindings.heavy),
        grab_just: keys.just_pressed(bindings.aim_grab),
        light_held: keys.pressed(bindings.light) && !light_blocked,
        heavy_held: keys.pressed(bindings.heavy),
        grab_held: keys.pressed(bindings.aim_grab),
        now,
    };
    let chord = resolve_guard_chord_input(guard_chord, sample, grace);
    input.aim = sample.grab_held;
    input.jump = keys.just_pressed(bindings.jump);
    input.dash = player_dash_input(keys, now, dash_taps, bindings, reserve_camera_inputs);
    input.light = chord.light;
    input.light_held = sample.light_held;
    input.raw_light_pressed = sample.light_just;
    input.heavy = chord.heavy;
    input.heavy_held = sample.heavy_held;
    input.raw_heavy_pressed = sample.heavy_just;
    input.heavy_released = keys.just_released(bindings.heavy);
    input.grab = chord.grab;
    input.guard = chord.guard;
    input.ultimate = chord.ultimate;
    input.special = false;
}

} // verus!

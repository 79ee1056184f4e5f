//! Guarding and the counter out of a guard.

use vstd::prelude::*;

use crate::action::{FighterAction, FighterActionState, set_action, set_technique_action};
use crate::fighter::{
    FighterMeasures, FighterMotor, FighterStats, FighterTuning, MotionCommand, points_somewhere,
};
use crate::scalar::{NEUTRAL_LENGTH_SQUARED_BITS, Scalar};
use crate::technique::{MoveTable, TechniqueId};
use crate::ticks::{ElapsedTicks, TickTimer};

verus! {

/// The guard key was not asked for in the tick before.
pub open spec fn guard_newly_pressed(motor: FighterMotor, guard_requested: bool) -> bool {
    guard_requested && !motor.guard_was_requested
}

/// The motor after a tick of guard input: the cooldown runs down, a new press is
/// remembered for a while, a held one runs down, a released one is forgotten.
pub open spec fn guard_input_ticked(
    motor: FighterMotor,
    guard_requested: bool,
    tuning: FighterTuning,
) -> FighterMotor {
    FighterMotor {
        guard_was_requested: guard_requested,
        guard_cooldown_timer: motor.guard_cooldown_timer.ticked(),
        guard_start_buffer_timer: if guard_newly_pressed(motor, guard_requested) {
            TickTimer { remaining: tuning.guard_start_buffer }
        } else if guard_requested {
            motor.guard_start_buffer_timer.ticked()
        } else {
            TickTimer::zero()
        },
        ..motor
    }
}

pub fn tick_guard_input(
    motor: &mut FighterMotor,
    guard_requested: bool,
    tuning: &FighterTuning,
) -> (pressed: bool)
    ensures
        pressed == guard_newly_pressed(*old(motor), guard_requested),
        *final(motor) == guard_input_ticked(*old(motor), guard_requested, *tuning),
{
    let pressed = guard_requested && !motor.guard_was_requested;
    motor.guard_was_requested = guard_requested;
    motor.guard_cooldown_timer.tick();
    if pressed {
        motor.guard_start_buffer_timer = TickTimer::from_ticks(tuning.guard_start_buffer);
    } else if guard_requested {
        motor.guard_start_buffer_timer.tick();
    } else {
        motor.guard_start_buffer_timer.clear();
    }
    pressed
}

/// A guard may start: asked for now or a moment ago, on the ground, not cooling
/// down and not active already.
pub open spec fn spec_can_start_guard(motor: &FighterMotor, guard_pressed: bool) -> bool {
    &&& guard_pressed || motor.guard_start_buffer_timer.active()
    &&& motor.grounded
    &&& !motor.guard_cooldown_timer.active()
    &&& motor.guard_active_timer == ElapsedTicks::zero()
}

#[verifier::when_used_as_spec(spec_can_start_guard)]
pub fn can_start_guard(motor: &FighterMotor, guard_pressed: bool) -> (able: bool)
    ensures
        able == spec_can_start_guard(motor, guard_pressed),
{
    (guard_pressed || motor.guard_start_buffer_timer.active()) && motor.grounded
        && !motor.guard_cooldown_timer.active() && motor.guard_active_timer == ElapsedTicks::zero()
}

/// The motor with a guard that has just begun.
pub open spec fn guard_started(motor: FighterMotor) -> FighterMotor {
    FighterMotor {
        guard_active_timer: ElapsedTicks::zero(),
        guard_cooldown_timer: TickTimer::zero(),
        guard_start_buffer_timer: TickTimer::zero(),
        ..motor
    }
}

/// Starts a guard; the fighter is to be slowed down.
pub fn start_guard(motor: &mut FighterMotor, action: &mut FighterActionState) -> (motion:
    MotionCommand)
    ensures
        *final(motor) == guard_started(*old(motor)),
        *final(action) == old(action).switched(FighterAction::Guarding),
        motion == MotionCommand::BrakeGuardStart,
{
    motor.guard_active_timer.reset();
    motor.guard_cooldown_timer.clear();
    motor.guard_start_buffer_timer.clear();
    set_action(action, FighterAction::Guarding);
    MotionCommand::BrakeGuardStart
}

/// A guard ends when released, when off the ground, or after its longest time.
pub open spec fn spec_guard_should_end(
    motor: &FighterMotor,
    guard_requested: bool,
    tuning: &FighterTuning,
) -> bool {
    !guard_requested || !motor.grounded || motor.guard_active_timer.reached(
        tuning.guard_max_duration,
    )
}

#[verifier::when_used_as_spec(spec_guard_should_end)]
pub fn guard_should_end(
    motor: &FighterMotor,
    guard_requested: bool,
    tuning: &FighterTuning,
) -> (ends: bool)
    ensures
        ends == spec_guard_should_end(motor, guard_requested, tuning),
{
    !guard_requested || !motor.grounded || motor.guard_active_timer.reached(
        tuning.guard_max_duration,
    )
}

/// The motor with a guard that has just ended and cools down.
pub open spec fn guard_finished(motor: FighterMotor, tuning: FighterTuning) -> FighterMotor {
    FighterMotor {
        guard_active_timer: ElapsedTicks::zero(),
        guard_cooldown_timer: TickTimer { remaining: tuning.guard_restart_cooldown },
        guard_start_buffer_timer: TickTimer::zero(),
        ..motor
    }
}

pub fn finish_guard(
    motor: &mut FighterMotor,
    action: &mut FighterActionState,
    tuning: &FighterTuning,
)
    ensures
        *final(motor) == guard_finished(*old(motor), *tuning),
        *final(action) == old(action).switched(FighterAction::Idle),
{
    motor.guard_active_timer.reset();
    motor.guard_cooldown_timer = TickTimer::from_ticks(tuning.guard_restart_cooldown);
    motor.guard_start_buffer_timer.clear();
    set_action(action, FighterAction::Idle);
}

/// The counter window one tick later; once it is over its source and a buffered
/// counter are forgotten.
pub open spec fn counter_window_ticked(motor: FighterMotor) -> FighterMotor {
    let ticked = FighterMotor {
        guard_counter_window_timer: motor.guard_counter_window_timer.ticked(),
        ..motor
    };
    if ticked.guard_counter_window_timer.active() {
        ticked
    } else {
        FighterMotor { guard_counter_source: None, guard_counter_buffered: false, ..ticked }
    }
}

pub fn tick_guard_counter_window(motor: &mut FighterMotor)
    ensures
        *final(motor) == counter_window_ticked(*old(motor)),
{
    if !motor.guard_counter_window_timer.active() {
        motor.guard_counter_source = None;
        motor.guard_counter_buffered = false;
        return ;
    }
    motor.guard_counter_window_timer.tick();
    if !motor.guard_counter_window_timer.active() {
        motor.guard_counter_source = None;
        motor.guard_counter_buffered = false;
    }
}

/// A counter may come out of a guard, or from standing or moving.
pub open spec fn spec_guard_counter_action_can_trigger(action: FighterAction) -> bool {
    action == FighterAction::Guarding || action == FighterAction::Idle || action
        == FighterAction::Moving
}

#[verifier::when_used_as_spec(spec_guard_counter_action_can_trigger)]
pub fn guard_counter_action_can_trigger(action: FighterAction) -> (able: bool)
    ensures
        able == spec_guard_counter_action_can_trigger(action),
{
    matches!(action, FighterAction::Guarding | FighterAction::Idle | FighterAction::Moving)
}

/// A requested counter comes out: inside the window, on the ground, from a calm
/// action, with more health than it costs, and with a technique for it.
pub open spec fn guard_counter_starts(
    stats: FighterStats,
    motor: FighterMotor,
    action: FighterActionState,
    tuning: FighterTuning,
    table: &MoveTable,
    requested: bool,
) -> bool {
    &&& requested
    &&& motor.guard_counter_window_timer.active()
    &&& motor.grounded
    &&& guard_counter_action_can_trigger(action.action)
    &&& !stats.health.le(tuning.guard_counter_health_cost)
    &&& table.definition(TechniqueId::GuardCounter).is_some()
}

/// The motor after a counter was asked for.
pub open spec fn after_counter_attempt(
    motor: FighterMotor,
    tuning: FighterTuning,
    requested: bool,
    starts: bool,
) -> FighterMotor {
    if starts {
        guard_finished(motor, tuning).without_counter_window()
    } else if requested {
        FighterMotor { guard_counter_buffered: false, ..motor }
    } else {
        motor
    }
}

/// A counter faces where the input points, else what it answers.
pub open spec fn counter_motions(
    motor: FighterMotor,
    measures: FighterMeasures,
) -> Seq<MotionCommand> {
    if measures.moving() {
        seq![MotionCommand::FaceMovement, MotionCommand::BrakeGuardCounter]
    } else if motor.guard_counter_source.is_some() && points_somewhere(
        measures.guard_source_distance_squared,
    ) {
        seq![MotionCommand::FaceGuardSource, MotionCommand::BrakeGuardCounter]
    } else {
        seq![MotionCommand::BrakeGuardCounter]
    }
}

/// Starts a counter where it may come out. It costs health, which the caller
/// takes.
pub fn try_start_guard_counter(
    stats: &FighterStats,
    motor: &mut FighterMotor,
    action: &mut FighterActionState,
    measures: &FighterMeasures,
    tuning: &FighterTuning,
    table: &MoveTable,
    requested: bool,
    motions: &mut Vec<MotionCommand>,
) -> (started: bool)
    ensures
        started == guard_counter_starts(
            *stats,
            *old(motor),
            *old(action),
            *tuning,
            table,
            requested,
        ),
        *final(motor) == after_counter_attempt(*old(motor), *tuning, requested, started),
        *final(action) == (if started {
            FighterActionState::technique(table.definition(TechniqueId::GuardCounter).unwrap())
        } else {
            *old(action)
        }),
        final(motions)@ == (if started {
            old(motions)@ + counter_motions(*old(motor), *measures)
        } else {
            old(motions)@
        }),
{
    if !requested {
        return false;
    }
    if !motor.guard_counter_window_timer.active() || !motor.grounded
        || !guard_counter_action_can_trigger(action.action) || stats.health.le(
        tuning.guard_counter_health_cost,
    ) {
        motor.guard_counter_buffered = false;
        return false;
    }
    let technique = match table.technique_definition(TechniqueId::GuardCounter) {
        Some(technique) => technique,
        None => {
            motor.guard_counter_buffered = false;
            return false;
        },
    };
    let ghost before = motions@;
    if measures.moving() {
        motions.push(MotionCommand::FaceMovement);
    } else if motor.guard_counter_source.is_some() && points_somewhere(
        measures.guard_source_distance_squared,
    ) {
        motions.push(MotionCommand::FaceGuardSource);
    }
    motions.push(MotionCommand::BrakeGuardCounter);
    proof {
        assert(motions@ =~= before + counter_motions(*motor, *measures));
    }
    motor.guard_active_timer.reset();
    motor.guard_cooldown_timer = TickTimer::from_ticks(tuning.guard_restart_cooldown);
    motor.guard_start_buffer_timer.clear();
    motor.clear_guard_counter_window();
    set_technique_action(action, technique);
    true
}

/// A counter never takes the last of a fighter's health.
pub proof fn counters_leave_health(
    stats: FighterStats,
    motor: FighterMotor,
    action: FighterActionState,
    tuning: FighterTuning,
    table: &MoveTable,
    requested: bool,
)
    requires
        guard_counter_starts(stats, motor, action, tuning, table, requested),
        !stats.health.is_nan(),
        !tuning.guard_counter_health_cost.is_nan(),
    ensures
        tuning.guard_counter_health_cost.lt(stats.health),
{
}

/// A press of the guard key is remembered until the fighter may guard: held
/// through `ticks` further ticks, fewer than the buffer lasts, it still starts a
/// guard on landing.
pub open spec fn guard_held(motor: FighterMotor, ticks: nat, tuning: FighterTuning) -> FighterMotor
    decreases ticks,
{
    if ticks == 0 {
        motor
    } else {
        guard_input_ticked(guard_held(motor, (ticks - 1) as nat, tuning), true, tuning)
    }
}

/// Holding the guard key after a press keeps the press remembered for the length
/// of the buffer and no longer.
pub proof fn held_guard_is_buffered(motor: FighterMotor, ticks: nat, tuning: FighterTuning)
    requires
        motor.guard_was_requested,
        motor.guard_start_buffer_timer.remaining == tuning.guard_start_buffer,
        tuning.guard_start_buffer < u32::MAX,
    ensures
        guard_held(motor, ticks, tuning).guard_was_requested,
        guard_held(motor, ticks, tuning).guard_start_buffer_timer.remaining == (if ticks
            >= tuning.guard_start_buffer {
            0
        } else {
            tuning.guard_start_buffer - ticks
        }),
    decreases ticks,
{
    if ticks > 0 {
        held_guard_is_buffered(motor, (ticks - 1) as nat, tuning);
    }
}

/// After a guard has run its time, holding on does not start another: with the
/// key still held, no press is seen and none is remembered.
pub proof fn expired_guard_needs_a_release(
    motor: FighterMotor,
    ticks: nat,
    tuning: FighterTuning,
)
    requires
        motor.guard_was_requested,
    ensures
        ({
            let held = guard_held(guard_finished(motor, tuning), ticks, tuning);
            &&& held.guard_was_requested
            &&& !held.guard_start_buffer_timer.active()
            &&& !guard_newly_pressed(held, true)
            &&& !can_start_guard(&held, guard_newly_pressed(held, true))
        }),
    decreases ticks,
{
    if ticks > 0 {
        expired_guard_needs_a_release(motor, (ticks - 1) as nat, tuning);
    }
}

/// Releasing the key forgets a remembered press.
pub proof fn release_forgets_the_press(motor: FighterMotor, tuning: FighterTuning)
    ensures
        !guard_newly_pressed(motor, false),
        !guard_input_ticked(motor, false, tuning).guard_start_buffer_timer.active(),
        !can_start_guard(&guard_input_ticked(motor, false, tuning), false),
{
}

/// The bit pattern of `0.1`, the alignment above which a step would go forward.
pub const FORWARD_ALIGNMENT_BITS: u32 = 0x3dcc_cccd;

/// Where an evasive move goes, seen from the way the fighter faces.
#[derive(Clone, Copy, Debug, PartialEq, Eq, Structural)]
pub enum EvasiveHeading {
    Requested,
    Back,
    Right,
    Left,
}

/// The heading of a guard step: back without a direction, where it is asked for
/// if that is not forward, else to the side it leans to.
pub open spec fn spec_defensive_step_direction(
    movement_length_squared: Scalar,
    facing_alignment: Scalar,
    right_alignment: Scalar,
) -> EvasiveHeading {
    if movement_length_squared.le(Scalar { bits: NEUTRAL_LENGTH_SQUARED_BITS }) {
        EvasiveHeading::Back
    } else if facing_alignment.le(Scalar { bits: FORWARD_ALIGNMENT_BITS }) {
        EvasiveHeading::Requested
    } else if Scalar::zero().le(right_alignment) {
        EvasiveHeading::Right
    } else {
        EvasiveHeading::Left
    }
}

/// The heading of a guard step. The alignments are those of the asked direction
/// with the way the fighter faces and with its right.
pub fn defensive_step_direction(
    movement_length_squared: Scalar,
    facing_alignment: Scalar,
    right_alignment: Scalar,
) -> (heading: EvasiveHeading)
    ensures
        heading == spec_defensive_step_direction(
            movement_length_squared,
            facing_alignment,
            right_alignment,
        ),
{
    if movement_length_squared.le(Scalar { bits: NEUTRAL_LENGTH_SQUARED_BITS }) {
        EvasiveHeading::Back
    } else if facing_alignment.le(Scalar { bits: FORWARD_ALIGNMENT_BITS }) {
        EvasiveHeading::Requested
    } else if Scalar::zero().le(right_alignment) {
        EvasiveHeading::Right
    } else {
        EvasiveHeading::Left
    }
}

/// The heading of a recovery roll: where it is asked for, else back.
pub fn recovery_roll_direction(movement_length_squared: Scalar) -> (heading: EvasiveHeading)
    ensures
        heading == (if points_somewhere(movement_length_squared) {
            EvasiveHeading::Requested
        } else {
            EvasiveHeading::Back
        }),
{
    if points_somewhere(movement_length_squared) {
        EvasiveHeading::Requested
    } else {
        EvasiveHeading::Back
    }
}

/// A guard step never goes forward: it takes the asked direction only where that
/// does not point the way the fighter faces.
pub proof fn guard_steps_never_go_forward(
    movement_length_squared: Scalar,
    facing_alignment: Scalar,
    right_alignment: Scalar,
)
    ensures
        spec_defensive_step_direction(movement_length_squared, facing_alignment, right_alignment)
            == EvasiveHeading::Requested ==> facing_alignment.le(
            Scalar { bits: FORWARD_ALIGNMENT_BITS },
        ),
{
}

} // verus!

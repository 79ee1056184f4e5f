//! Dashes: their trails and slides, the finishers out of them, and Pig's charge.

use vstd::prelude::*;

use crate::action::{FighterActionState, set_technique_action};
use crate::fighter::{FighterMeasures, FighterMotor, FighterTuning, MotionCommand};
use crate::input::FighterInput;
use crate::loadout::CharacterKind;
use crate::technique::{CharacterMoveSlot, MoveTable, TechniqueId, start_technique_by_id};
use crate::ticks::{ElapsedTicks, TickTimer, milliseconds_to_ticks_ceil, ticks_covering_millis};

verus! {

/// The finisher asked for in a dash; the heavy one outranks the light one.
pub open spec fn spec_dash_finisher_for_input(input: &FighterInput, table: &MoveTable) -> Option<
    TechniqueId,
> {
    if input.raw_heavy_pressed || input.heavy {
        table.slot_technique(CharacterMoveSlot::DashHeavy)
    } else if input.light {
        table.slot_technique(CharacterMoveSlot::DashLight)
    } else {
        None
    }
}

pub fn dash_finisher_for_input(input: &FighterInput, table: &MoveTable) -> (finisher: Option<
    TechniqueId,
>)
    ensures
        finisher == spec_dash_finisher_for_input(input, table),
{
    if input.raw_heavy_pressed || input.heavy {
        table.slot_technique_id(CharacterMoveSlot::DashHeavy)
    } else if input.light {
        table.slot_technique_id(CharacterMoveSlot::DashLight)
    } else {
        None
    }
}

/// Pig plants itself for its combo finisher; every other finisher lunges.
pub open spec fn spec_dash_finisher_lunges(next: TechniqueId, character: CharacterKind) -> bool {
    !(character == CharacterKind::Pig && next == TechniqueId::PigComboFinisher)
}

#[verifier::when_used_as_spec(spec_dash_finisher_lunges)]
pub fn dash_finisher_lunges(next: TechniqueId, character: CharacterKind) -> (lunges: bool)
    ensures
        lunges == spec_dash_finisher_lunges(next, character),
{
    !(character == CharacterKind::Pig && next == TechniqueId::PigComboFinisher)
}

/// Penguin turns with the input for its dash attacks.
pub open spec fn finisher_turn(
    next: TechniqueId,
    character: CharacterKind,
    measures: FighterMeasures,
) -> Seq<MotionCommand> {
    if character == CharacterKind::Penguin && (next == TechniqueId::PenguinDashAttack || next
        == TechniqueId::PenguinDashHeavy) && measures.moving() {
        seq![MotionCommand::FaceMovement]
    } else {
        seq![]
    }
}

/// How a finisher moves: Chick hops back, Penguin's shot keeps its dash, others
/// lunge or stop.
pub open spec fn finisher_motion(
    next: TechniqueId,
    character: CharacterKind,
) -> Seq<MotionCommand> {
    if next == TechniqueId::ChickDashAttack {
        seq![MotionCommand::ChickBackstepLight]
    } else if next == TechniqueId::ChickDashHeavy {
        seq![MotionCommand::ChickBackstepHeavy]
    } else if character == CharacterKind::Penguin && next == TechniqueId::PenguinDashAttack {
        seq![]
    } else if dash_finisher_lunges(next, character) {
        seq![MotionCommand::FinisherImpulse]
    } else {
        seq![MotionCommand::FinisherStop]
    }
}

/// Starts the finisher asked for, if there is one.
pub fn start_dash_finisher_from_dash(
    action: &mut FighterActionState,
    input: &FighterInput,
    character: CharacterKind,
    measures: &FighterMeasures,
    table: &MoveTable,
    motions: &mut Vec<MotionCommand>,
) -> (started: bool)
    ensures
        started == spec_dash_finisher_for_input(input, table).is_some(),
        match spec_dash_finisher_for_input(input, table) {
            Some(next) => {
                &&& *final(action) == table.started(*old(action), next)
                &&& final(motions)@ == old(motions)@ + finisher_turn(next, character, *measures)
                    + finisher_motion(next, character)
            },
            None => *final(action) == *old(action) && final(motions)@ == old(motions)@,
        },
{
    let next = match dash_finisher_for_input(input, table) {
        Some(next) => next,
        None => {
            return false;
        },
    };
    let ghost before = motions@;
    if character == CharacterKind::Penguin && matches!(
        next,
        TechniqueId::PenguinDashAttack | TechniqueId::PenguinDashHeavy
    ) {
        if measures.moving() {
            motions.push(MotionCommand::FaceMovement);
        }
    }
    proof {
        assert(motions@ =~= before + finisher_turn(next, character, *measures));
    }
    let ghost turned = motions@;
    if next == TechniqueId::ChickDashAttack {
        motions.push(MotionCommand::ChickBackstepLight);
    } else if next == TechniqueId::ChickDashHeavy {
        motions.push(MotionCommand::ChickBackstepHeavy);
    } else if !(character == CharacterKind::Penguin && next == TechniqueId::PenguinDashAttack) {
        if dash_finisher_lunges(next, character) {
            motions.push(MotionCommand::FinisherImpulse);
        } else {
            motions.push(MotionCommand::FinisherStop);
        }
    }
    proof {
        assert(motions@ =~= turned + finisher_motion(next, character));
    }
    start_technique_by_id(action, next, table);
    true
}

/// Chick may dash out of its first light attack, on the ground.
pub open spec fn chick_dash_interrupts(
    motor: FighterMotor,
    action: FighterActionState,
    input: FighterInput,
    character: CharacterKind,
) -> bool {
    &&& character == CharacterKind::Chick
    &&& action.technique_id == Some(TechniqueId::ChickLight1)
    &&& motor.grounded
    &&& input.dash
}

/// The buttons as that dash reads them: held ones count.
pub open spec fn chick_dash_input(input: FighterInput) -> FighterInput {
    FighterInput {
        movement: input.movement,
        light: input.light || input.light_held || input.raw_light_pressed,
        heavy: input.heavy || input.heavy_held,
        raw_heavy_pressed: input.raw_heavy_pressed,
        ..FighterInput::neutral()
    }
}

/// The finisher with which Chick dashes out of its first light attack.
pub open spec fn chick_interrupt_finisher(
    motor: FighterMotor,
    action: FighterActionState,
    input: FighterInput,
    character: CharacterKind,
    table: &MoveTable,
) -> Option<TechniqueId> {
    if chick_dash_interrupts(motor, action, input, character) {
        spec_dash_finisher_for_input(&chick_dash_input(input), table)
    } else {
        None
    }
}

pub fn start_chick_dash_finisher_from_light_attack(
    motor: &FighterMotor,
    action: &mut FighterActionState,
    input: &FighterInput,
    character: CharacterKind,
    measures: &FighterMeasures,
    table: &MoveTable,
    motions: &mut Vec<MotionCommand>,
) -> (started: bool)
    ensures
        started == chick_interrupt_finisher(
            *motor,
            *old(action),
            *input,
            character,
            table,
        ).is_some(),
        match chick_interrupt_finisher(*motor, *old(action), *input, character, table) {
            Some(next) => {
                &&& *final(action) == table.started(*old(action), next)
                &&& final(motions)@ == old(motions)@ + finisher_turn(next, character, *measures)
                    + finisher_motion(next, character)
            },
            None => *final(action) == *old(action) && final(motions)@ == old(motions)@,
        },
{
    if character != CharacterKind::Chick || action.technique_id != Some(TechniqueId::ChickLight1)
        || !motor.grounded || !input.dash {
        return false;
    }
    let mut dash_input = FighterInput::default();
    dash_input.movement = input.movement;
    dash_input.light = input.light || input.light_held || input.raw_light_pressed;
    dash_input.heavy = input.heavy || input.heavy_held;
    dash_input.raw_heavy_pressed = input.raw_heavy_pressed;
    start_dash_finisher_from_dash(action, &dash_input, character, measures, table, motions)
}

/// Dash attacks that lead back into the dash.
pub open spec fn spec_should_return_to_dashing_on_dash_completion(
    action: &FighterActionState,
) -> bool {
    &&& action.action == crate::action::FighterAction::DashAttack
    &&& action.technique_id == Some(TechniqueId::PenguinDashAttack) || action.technique_id == Some(
        TechniqueId::PenguinDashHeavy,
    )
}

#[verifier::when_used_as_spec(spec_should_return_to_dashing_on_dash_completion)]
pub fn should_return_to_dashing_on_dash_completion(action: &FighterActionState) -> (dashes_on: bool)
    ensures
        dashes_on == spec_should_return_to_dashing_on_dash_completion(action),
{
    action.action == crate::action::FighterAction::DashAttack && (action.technique_id == Some(
        TechniqueId::PenguinDashAttack,
    ) || action.technique_id == Some(TechniqueId::PenguinDashHeavy))
}

/// Pig's full charge, in ticks.
pub open spec fn full_charge(tuning: FighterTuning) -> ElapsedTicks {
    ElapsedTicks { ticks: ticks_covering_millis(tuning.pig_heavy_full_charge_ms as int) as u32 }
}

pub(crate) fn full_charge_ticks(tuning: &FighterTuning) -> (charge: ElapsedTicks)
    ensures
        charge == full_charge(*tuning),
{
    ElapsedTicks::from_ticks(milliseconds_to_ticks_ceil(tuning.pig_heavy_full_charge_ms))
}

/// One more tick of charge, up to the full charge.
pub open spec fn charged(action: FighterActionState, tuning: FighterTuning) -> FighterActionState {
    if action.charge_elapsed.ticks < full_charge(tuning).ticks {
        FighterActionState { charge_elapsed: action.charge_elapsed.next(), ..action }
    } else {
        action
    }
}

/// Pig's heavy attack after a tick of input: held it charges, let go it is
/// released for good.
pub open spec fn pig_charge_ticked(
    action: FighterActionState,
    input: FighterInput,
    tuning: FighterTuning,
) -> FighterActionState {
    if action.technique_id != Some(TechniqueId::PigHeavy) || action.charge_release_requested {
        action
    } else {
        let held = if input.heavy_held {
            charged(action, tuning)
        } else {
            action
        };
        FighterActionState {
            charge_release_requested: input.heavy_released || !input.heavy_held,
            ..held
        }
    }
}

pub fn tick_pig_heavy_charge(
    action: &mut FighterActionState,
    input: &FighterInput,
    tuning: &FighterTuning,
) -> (charge: (ElapsedTicks, ElapsedTicks))
    ensures
        *final(action) == pig_charge_ticked(*old(action), *input, *tuning),
        charge == (old(action).charge_elapsed, final(action).charge_elapsed),
{
    let before = action.charge_elapsed;
    if action.technique_id != Some(TechniqueId::PigHeavy) || action.charge_release_requested {
        return (before, before);
    }
    if input.heavy_held && action.charge_elapsed.ticks < full_charge_ticks(tuning).ticks {
        action.charge_elapsed.advance();
    }
    if input.heavy_released || !input.heavy_held {
        action.charge_release_requested = true;
    }
    (before, action.charge_elapsed)
}

/// Pig charges, or has charged, its heavy attack in a dash.
pub open spec fn spec_pig_dash_heavy_charge_active(
    input: &FighterInput,
    action: &FighterActionState,
    character: CharacterKind,
) -> bool {
    &&& character == CharacterKind::Pig
    &&& input.heavy_held || input.heavy_released || action.charge_elapsed != ElapsedTicks::zero()
}

#[verifier::when_used_as_spec(spec_pig_dash_heavy_charge_active)]
pub fn pig_dash_heavy_charge_active(
    input: &FighterInput,
    action: &FighterActionState,
    character: CharacterKind,
) -> (active: bool)
    ensures
        active == spec_pig_dash_heavy_charge_active(input, action, character),
{
    character == CharacterKind::Pig && (input.heavy_held || input.heavy_released
        || action.charge_elapsed != ElapsedTicks::zero())
}

/// Pig's heavy attack let go out of a dash, with the charge gathered there.
pub open spec fn pig_dash_released(
    action: FighterActionState,
    tuning: FighterTuning,
    table: &MoveTable,
) -> FighterActionState {
    match table.slot_definition(CharacterMoveSlot::DashHeavy) {
        Some(technique) => FighterActionState {
            charge_elapsed: action.charge_elapsed.min(full_charge(tuning)),
            charge_release_requested: true,
            ..FighterActionState::technique(technique)
        },
        None => action,
    }
}

pub fn start_pig_dash_heavy_release(
    action: &mut FighterActionState,
    tuning: &FighterTuning,
    table: &MoveTable,
)
    ensures
        *final(action) == pig_dash_released(*old(action), *tuning, table),
{
    let charge_elapsed = action.charge_elapsed.min(full_charge_ticks(tuning));
    if let Some(technique) = table.technique_slot(CharacterMoveSlot::DashHeavy) {
        set_technique_action(action, technique);
        action.charge_elapsed = charge_elapsed;
        action.charge_release_requested = true;
    }
}

/// A dash leaves a trail every so many ticks.
pub open spec fn spec_dash_trail_due(elapsed: ElapsedTicks, tuning: &FighterTuning) -> bool {
    let cadence = if tuning.dash_trail_repeat == 0 {
        1
    } else {
        tuning.dash_trail_repeat as int
    };
    elapsed.ticks != 0 && elapsed.ticks as int % cadence == 0
}

#[verifier::when_used_as_spec(spec_dash_trail_due)]
pub fn dash_trail_due(elapsed: ElapsedTicks, tuning: &FighterTuning) -> (due: bool)
    ensures
        due == spec_dash_trail_due(elapsed, tuning),
{
    let cadence: u32 = if tuning.dash_trail_repeat == 0 {
        1
    } else {
        tuning.dash_trail_repeat
    };
    elapsed.get() != 0 && elapsed.get() % cadence == 0
}

/// A dash stops once the direction is let go and its shortest time is over.
pub open spec fn spec_dash_should_stop(
    elapsed: ElapsedTicks,
    measures: &FighterMeasures,
    tuning: &FighterTuning,
) -> bool {
    !measures.moving() && elapsed.reached(tuning.dash_duration)
}

#[verifier::when_used_as_spec(spec_dash_should_stop)]
pub fn dash_should_stop(
    elapsed: ElapsedTicks,
    measures: &FighterMeasures,
    tuning: &FighterTuning,
) -> (stops: bool)
    ensures
        stops == spec_dash_should_stop(elapsed, measures, tuning),
{
    !measures.moving() && elapsed.reached(tuning.dash_duration)
}

/// The motor as a dash ends: it slides on where it is fast enough.
pub open spec fn dash_slid(
    motor: FighterMotor,
    measures: FighterMeasures,
    tuning: FighterTuning,
) -> FighterMotor {
    FighterMotor {
        dash_slide_timer: if tuning.dash_slide_stop_speed_squared.lt(
            measures.planar_speed_squared,
        ) {
            TickTimer { remaining: tuning.dash_slide_duration }
        } else {
            TickTimer::zero()
        },
        ..motor.without_dash_carry()
    }
}

pub fn start_dash_slide(
    motor: &mut FighterMotor,
    measures: &FighterMeasures,
    tuning: &FighterTuning,
)
    ensures
        *final(motor) == dash_slid(*old(motor), *measures, *tuning),
{
    motor.clear_dash_carry();
    motor.dash_slide_timer = if tuning.dash_slide_stop_speed_squared.lt(
        measures.planar_speed_squared,
    ) {
        TickTimer::from_ticks(tuning.dash_slide_duration)
    } else {
        TickTimer::zero()
    };
}

/// Ends a dash slide, which is to be damped; there is nothing to damp otherwise.
pub fn cancel_dash_slide_for_action(motor: &mut FighterMotor) -> (motion: Option<MotionCommand>)
    ensures
        motion == (if old(motor).dash_slide_timer.active() {
            Some(MotionCommand::DampDashSlide)
        } else {
            None
        }),
        *final(motor) == (FighterMotor { dash_slide_timer: TickTimer::zero(), ..*old(motor) }),
{
    if !motor.dash_slide_timer.active() {
        return None;
    }
    motor.dash_slide_timer.clear();
    Some(MotionCommand::DampDashSlide)
}

/// The charge after `ticks` ticks with the button held.
pub open spec fn held_charge(
    action: FighterActionState,
    ticks: nat,
    input: FighterInput,
    tuning: FighterTuning,
) -> FighterActionState
    decreases ticks,
{
    if ticks == 0 {
        action
    } else {
        pig_charge_ticked(
            held_charge(action, (ticks - 1) as nat, input, tuning),
            input,
            tuning,
        )
    }
}

/// A held charge grows by one each tick, stops at the full charge and is not
/// released; letting go releases it and keeps what was gathered.
pub proof fn held_charge_caps_and_waits(
    action: FighterActionState,
    ticks: nat,
    held: FighterInput,
    released: FighterInput,
    tuning: FighterTuning,
)
    requires
        action.technique_id == Some(TechniqueId::PigHeavy),
        !action.charge_release_requested,
        action.charge_elapsed == ElapsedTicks::zero(),
        held.heavy_held,
        !held.heavy_released,
        released.heavy_released || !released.heavy_held,
        !released.heavy_held,
    ensures
        ({
            let charging = held_charge(action, ticks, held, tuning);
            let let_go = pig_charge_ticked(charging, released, tuning);
            &&& charging.technique_id == Some(TechniqueId::PigHeavy)
            &&& !charging.charge_release_requested
            &&& charging.charge_elapsed.ticks == (if ticks <= full_charge(tuning).ticks {
                ticks as int
            } else {
                full_charge(tuning).ticks as int
            })
            &&& let_go.charge_release_requested
            &&& let_go.charge_elapsed == charging.charge_elapsed
        }),
    decreases ticks,
{
    if ticks > 0 {
        held_charge_caps_and_waits(action, (ticks - 1) as nat, held, released, tuning);
    }
}

} // verus!

//! Jumps and air attacks.

use vstd::prelude::*;

use crate::action::{FighterAction, FighterActionState, set_action, set_technique_action};
use crate::fighter::{FighterMeasures, FighterMotor, FighterTuning, MotionCommand};
use crate::input::{FighterInput, TechniqueButton, jump_heavy_pressed};
use crate::scalar::Scalar;
use crate::technique::{CharacterMoveSlot, MoveTable, TechniqueDefinition, TechniqueId};
use crate::ticks::{TickTimer, milliseconds_to_ticks_ceil, ticks_covering_millis};

verus! {

/// How long an air attack asked for on the ground waits, in milliseconds.
pub const JUMP_ATTACK_QUEUE_GRACE_MS: u32 = 180;

/// What may be left of a takeoff when an air attack starts, in milliseconds.
pub const JUMP_ATTACK_QUEUE_TAKEOFF_REMAINING_MS: u32 = 35;

/// How long a takeoff lasts, in milliseconds.
pub const JUMP_TAKEOFF_MS: u32 = 90;

/// A countdown that lasts at least `millis` milliseconds.
pub open spec fn timer_of_millis(millis: u32) -> TickTimer {
    TickTimer { remaining: ticks_covering_millis(millis as int) as u32 }
}

fn timer_from_millis(millis: u32) -> (timer: TickTimer)
    ensures
        timer == timer_of_millis(millis),
{
    TickTimer::from_ticks(milliseconds_to_ticks_ceil(millis))
}

/// The motor with an air attack lined up.
pub open spec fn air_attack_queued(motor: FighterMotor, button: TechniqueButton) -> FighterMotor {
    FighterMotor {
        queued_air_attack: Some(button),
        queued_air_attack_timer: timer_of_millis(JUMP_ATTACK_QUEUE_GRACE_MS),
        ..motor
    }
}

pub fn queue_air_attack(motor: &mut FighterMotor, button: TechniqueButton)
    ensures
        *final(motor) == air_attack_queued(*old(motor), button),
{
    motor.queued_air_attack = Some(button);
    motor.queued_air_attack_timer = timer_from_millis(JUMP_ATTACK_QUEUE_GRACE_MS);
}

/// The motor one tick later, as far as a lined-up air attack goes.
pub open spec fn air_queue_ticked(motor: FighterMotor) -> FighterMotor {
    if motor.queued_air_attack.is_some() {
        if motor.queued_air_attack_timer.ticked().active() {
            FighterMotor {
                queued_air_attack_timer: motor.queued_air_attack_timer.ticked(),
                ..motor
            }
        } else {
            motor.without_air_queue()
        }
    } else {
        motor
    }
}

pub fn tick_queued_air_attack(motor: &mut FighterMotor)
    ensures
        *final(motor) == air_queue_ticked(*old(motor)),
{
    if motor.queued_air_attack.is_some() {
        motor.queued_air_attack_timer.tick();
        if !motor.queued_air_attack_timer.active() {
            motor.clear_air_queue();
        }
    }
}

/// The takeoff is as good as over.
pub open spec fn takeoff_done(motor: &FighterMotor) -> bool {
    motor.jump_takeoff_timer.remaining <= timer_of_millis(
        JUMP_ATTACK_QUEUE_TAKEOFF_REMAINING_MS,
    ).remaining
}

/// A lined-up air attack starts now: in the air, takeoff done, and no air attack
/// used yet.
pub open spec fn spec_queued_air_attack_ready(motor: &FighterMotor) -> bool {
    motor.queued_air_attack.is_some() && !motor.grounded && !motor.air_attack_used && takeoff_done(
        motor,
    )
}

pub fn takeoff_is_done(motor: &FighterMotor) -> (done: bool)
    ensures
        done == takeoff_done(motor),
{
    motor.jump_takeoff_timer.remaining <= timer_from_millis(
        JUMP_ATTACK_QUEUE_TAKEOFF_REMAINING_MS,
    ).remaining
}

#[verifier::when_used_as_spec(spec_queued_air_attack_ready)]
pub fn queued_air_attack_ready(motor: &FighterMotor) -> (ready: bool)
    ensures
        ready == spec_queued_air_attack_ready(motor),
{
    motor.queued_air_attack.is_some() && !motor.grounded && !motor.air_attack_used
        && takeoff_is_done(motor)
}

/// A jump off the ground, or off a ledge left a moment ago.
pub open spec fn spec_can_start_ground_jump(motor: &FighterMotor) -> bool {
    motor.grounded || motor.ledge_grace_timer.active()
}

#[verifier::when_used_as_spec(spec_can_start_ground_jump)]
pub fn can_start_ground_jump(motor: &FighterMotor) -> (able: bool)
    ensures
        able == spec_can_start_ground_jump(motor),
{
    motor.grounded || motor.ledge_grace_timer.active()
}

/// The motor at takeoff.
pub open spec fn jumped(motor: FighterMotor) -> FighterMotor {
    FighterMotor {
        grounded: false,
        ledge_grace_timer: TickTimer::zero(),
        jump_takeoff_timer: timer_of_millis(JUMP_TAKEOFF_MS),
        dash_slide_timer: TickTimer::zero(),
        air_attack_used: false,
        jump_attack_landing_recovery: false,
        ..motor.without_dash_carry().without_air_queue().without_bee_dash()
    }
}

/// Takes off.
pub fn start_jump(motor: &mut FighterMotor, action: &mut FighterActionState) -> (motion:
    MotionCommand)
    ensures
        *final(motor) == jumped(*old(motor)),
        *final(action) == old(action).switched(FighterAction::Jumping),
        motion == MotionCommand::Jump,
{
    motor.grounded = false;
    motor.ledge_grace_timer.clear();
    motor.jump_takeoff_timer = timer_from_millis(JUMP_TAKEOFF_MS);
    motor.dash_slide_timer.clear();
    motor.clear_dash_carry();
    motor.air_attack_used = false;
    motor.clear_air_queue();
    motor.jump_attack_landing_recovery = false;
    motor.clear_bee_dash();
    set_action(action, FighterAction::Jumping);
    MotionCommand::Jump
}

/// The motor at takeoff with an air attack lined up, if one was asked for.
pub open spec fn jumped_with_queue(
    motor: FighterMotor,
    button: Option<TechniqueButton>,
) -> FighterMotor {
    match button {
        Some(button) => air_attack_queued(jumped(motor), button),
        None => jumped(motor),
    }
}

pub fn start_jump_with_air_attack_queue(
    motor: &mut FighterMotor,
    action: &mut FighterActionState,
    button: Option<TechniqueButton>,
) -> (motion: MotionCommand)
    ensures
        *final(motor) == jumped_with_queue(*old(motor), button),
        *final(action) == old(action).switched(FighterAction::Jumping),
        motion == MotionCommand::Jump,
{
    let motion = start_jump(motor, action);
    if let Some(button) = button {
        queue_air_attack(motor, button);
    }
    motion
}

/// The motor at takeoff out of a dash, whose speed is carried for a while.
pub open spec fn dash_jumped(
    motor: FighterMotor,
    carry_limit: Scalar,
    tuning: FighterTuning,
) -> FighterMotor {
    FighterMotor {
        dash_jump_carry_timer: TickTimer { remaining: tuning.dash_jump_carry_duration },
        dash_jump_carry_speed_limit: carry_limit,
        ..jumped(motor)
    }
}

/// Takes off out of a dash. `carry_limit` bounds the speed that is carried.
pub fn start_dash_jump(
    motor: &mut FighterMotor,
    action: &mut FighterActionState,
    carry_limit: Scalar,
    tuning: &FighterTuning,
) -> (motion: MotionCommand)
    ensures
        *final(motor) == dash_jumped(*old(motor), carry_limit, *tuning),
        *final(action) == old(action).switched(FighterAction::Jumping),
        motion == MotionCommand::DashJump,
{
    let _ = start_jump(motor, action);
    motor.dash_jump_carry_timer = TickTimer::from_ticks(tuning.dash_jump_carry_duration);
    motor.dash_jump_carry_speed_limit = carry_limit;
    MotionCommand::DashJump
}

/// The motor as an air attack begins.
pub open spec fn air_attack_begun(motor: FighterMotor) -> FighterMotor {
    FighterMotor {
        grounded: false,
        ledge_grace_timer: TickTimer::zero(),
        ..motor.without_dash_carry().without_air_queue()
    }
}

/// The motor with a light air attack under way. Bee dashes on, Penguin keeps its
/// air attack, and only the plain dive has to recover on landing.
pub open spec fn light_air_attack(motor: FighterMotor, id: TechniqueId) -> FighterMotor {
    let begun = air_attack_begun(motor);
    if id == TechniqueId::BeeJumpAttack {
        FighterMotor {
            jump_attack_landing_recovery: false,
            bee_air_dash_motion_active: true,
            bee_air_dash_shot_available: true,
            air_attack_used: true,
            ..begun
        }
    } else {
        FighterMotor {
            jump_attack_landing_recovery: id != TechniqueId::PenguinJumpAttack && id
                != TechniqueId::ChickJumpAttack,
            air_attack_used: id != TechniqueId::PenguinJumpAttack,
            ..begun.without_bee_dash()
        }
    }
}

/// How a light air attack moves.
pub open spec fn light_air_motion(id: TechniqueId) -> MotionCommand {
    if id == TechniqueId::BeeJumpAttack {
        MotionCommand::BeeAirDash
    } else if id == TechniqueId::PenguinJumpAttack {
        MotionCommand::PenguinSnowflakeFloat
    } else if id == TechniqueId::ChickJumpAttack {
        MotionCommand::ChickUpdraft
    } else {
        MotionCommand::JumpAttackDive
    }
}

/// Starts the light air attack of the loadout, if it has one.
pub fn start_jump_attack(
    motor: &mut FighterMotor,
    action: &mut FighterActionState,
    table: &MoveTable,
) -> (motion: Option<MotionCommand>)
    ensures
        match table.slot_definition(CharacterMoveSlot::JumpLight) {
            Some(technique) => {
                &&& *final(motor) == light_air_attack(*old(motor), technique.id)
                &&& *final(action) == FighterActionState::technique(technique)
                &&& motion == Some(light_air_motion(technique.id))
            },
            None => {
                &&& *final(motor) == *old(motor)
                &&& *final(action) == *old(action)
                &&& motion == None::<MotionCommand>
            },
        },
{
    let technique = match table.technique_slot(CharacterMoveSlot::JumpLight) {
        Some(technique) => technique,
        None => {
            return None;
        },
    };
    motor.grounded = false;
    motor.ledge_grace_timer.clear();
    let motion = if technique.id == TechniqueId::BeeJumpAttack {
        motor.jump_attack_landing_recovery = false;
        motor.bee_air_dash_motion_active = true;
        motor.bee_air_dash_shot_available = true;
        MotionCommand::BeeAirDash
    } else if technique.id == TechniqueId::PenguinJumpAttack {
        motor.jump_attack_landing_recovery = false;
        motor.clear_bee_dash();
        MotionCommand::PenguinSnowflakeFloat
    } else if technique.id == TechniqueId::ChickJumpAttack {
        motor.jump_attack_landing_recovery = false;
        motor.clear_bee_dash();
        MotionCommand::ChickUpdraft
    } else {
        motor.jump_attack_landing_recovery = true;
        motor.clear_bee_dash();
        MotionCommand::JumpAttackDive
    };
    motor.clear_dash_carry();
    motor.clear_air_queue();
    motor.air_attack_used = technique.id != TechniqueId::PenguinJumpAttack;
    set_technique_action(action, technique);
    Some(motion)
}

/// The motor with a heavy air attack under way. Only Pig's slam has to recover on
/// landing.
pub open spec fn heavy_air_attack(motor: FighterMotor, id: TechniqueId) -> FighterMotor {
    FighterMotor {
        jump_attack_landing_recovery: id == TechniqueId::PigJumpHeavy,
        air_attack_used: true,
        ..air_attack_begun(motor).without_bee_dash()
    }
}

/// How a heavy air attack moves.
pub open spec fn heavy_air_motion(id: TechniqueId) -> MotionCommand {
    if id == TechniqueId::PigJumpHeavy {
        MotionCommand::PigMeatSlam
    } else if id == TechniqueId::PenguinJumpHeavy {
        MotionCommand::PenguinSnowflakeFloat
    } else if id == TechniqueId::ChickJumpHeavy {
        MotionCommand::ChickEggRide
    } else {
        MotionCommand::AirStall
    }
}

/// Starts the heavy air attack of the loadout, if it has one.
pub fn start_jump_heavy_attack(
    motor: &mut FighterMotor,
    action: &mut FighterActionState,
    table: &MoveTable,
) -> (motion: Option<MotionCommand>)
    ensures
        match table.slot_definition(CharacterMoveSlot::JumpHeavy) {
            Some(technique) => {
                &&& *final(motor) == heavy_air_attack(*old(motor), technique.id)
                &&& *final(action) == FighterActionState::technique(technique)
                &&& motion == Some(heavy_air_motion(technique.id))
            },
            None => {
                &&& *final(motor) == *old(motor)
                &&& *final(action) == *old(action)
                &&& motion == None::<MotionCommand>
            },
        },
{
    let technique = match table.technique_slot(CharacterMoveSlot::JumpHeavy) {
        Some(technique) => technique,
        None => {
            return None;
        },
    };
    motor.grounded = false;
    motor.ledge_grace_timer.clear();
    let motion = if technique.id == TechniqueId::PigJumpHeavy {
        motor.jump_attack_landing_recovery = true;
        MotionCommand::PigMeatSlam
    } else if technique.id == TechniqueId::PenguinJumpHeavy {
        motor.jump_attack_landing_recovery = false;
        MotionCommand::PenguinSnowflakeFloat
    } else if technique.id == TechniqueId::ChickJumpHeavy {
        motor.jump_attack_landing_recovery = false;
        MotionCommand::ChickEggRide
    } else {
        motor.jump_attack_landing_recovery = false;
        MotionCommand::AirStall
    };
    motor.clear_dash_carry();
    motor.clear_air_queue();
    motor.air_attack_used = true;
    motor.clear_bee_dash();
    set_technique_action(action, technique);
    Some(motion)
}

/// What an air attack button starts.
pub open spec fn air_attack_slot(button: TechniqueButton, table: &MoveTable) -> Option<
    TechniqueDefinition,
> {
    match button {
        TechniqueButton::A => table.slot_definition(CharacterMoveSlot::JumpLight),
        TechniqueButton::B => table.slot_definition(CharacterMoveSlot::JumpHeavy),
        _ => None,
    }
}

/// The motor after an air attack by button. A button without an attack only
/// clears what was lined up.
pub open spec fn air_attacked(
    motor: FighterMotor,
    button: TechniqueButton,
    table: &MoveTable,
) -> FighterMotor {
    let cleared = motor.without_air_queue();
    match air_attack_slot(button, table) {
        Some(technique) => if button == TechniqueButton::A {
            light_air_attack(cleared, technique.id)
        } else {
            heavy_air_attack(cleared, technique.id)
        },
        None => cleared,
    }
}

/// The action after an air attack by button.
pub open spec fn air_attack_action(
    action: FighterActionState,
    button: TechniqueButton,
    table: &MoveTable,
) -> FighterActionState {
    match air_attack_slot(button, table) {
        Some(technique) => FighterActionState::technique(technique),
        None => action,
    }
}

/// How an air attack by button moves.
pub open spec fn air_attack_motion(button: TechniqueButton, table: &MoveTable) -> Option<
    MotionCommand,
> {
    match air_attack_slot(button, table) {
        Some(technique) => if button == TechniqueButton::A {
            Some(light_air_motion(technique.id))
        } else {
            Some(heavy_air_motion(technique.id))
        },
        None => None,
    }
}

pub fn start_air_attack_by_button(
    motor: &mut FighterMotor,
    action: &mut FighterActionState,
    button: TechniqueButton,
    table: &MoveTable,
) -> (motion: Option<MotionCommand>)
    ensures
        *final(motor) == air_attacked(*old(motor), button, table),
        *final(action) == air_attack_action(*old(action), button, table),
        motion == air_attack_motion(button, table),
{
    motor.clear_air_queue();
    match button {
        TechniqueButton::B => start_jump_heavy_attack(motor, action, table),
        TechniqueButton::A => start_jump_attack(motor, action, table),
        _ => None,
    }
}

/// Chick may turn one air attack into the other by pressing the other button.
pub open spec fn chick_air_cancel(
    motor: FighterMotor,
    action: FighterActionState,
    input: FighterInput,
) -> Option<TechniqueButton> {
    if motor.grounded {
        None
    } else if action.action == FighterAction::JumpAttack && action.technique_id == Some(
        TechniqueId::ChickJumpAttack,
    ) && input.raw_heavy_pressed {
        Some(TechniqueButton::B)
    } else if action.action == FighterAction::JumpHeavyAttack && action.technique_id == Some(
        TechniqueId::ChickJumpHeavy,
    ) && input.raw_light_pressed {
        Some(TechniqueButton::A)
    } else {
        None
    }
}

/// The motor after Chick's air attack turned into that of `button`. What was
/// lined up stays where the other attack is missing.
pub open spec fn cancelled_into(
    motor: FighterMotor,
    button: TechniqueButton,
    table: &MoveTable,
) -> FighterMotor {
    match air_attack_slot(button, table) {
        Some(technique) => if button == TechniqueButton::A {
            light_air_attack(motor, technique.id)
        } else {
            heavy_air_attack(motor, technique.id)
        },
        None => motor,
    }
}

/// Turns one of Chick's air attacks into the other. `Some` says that the input
/// was answered, with the motion if the other attack exists.
pub fn try_start_chick_air_attack_cancel(
    motor: &mut FighterMotor,
    action: &mut FighterActionState,
    input: &FighterInput,
    table: &MoveTable,
) -> (answered: Option<Option<MotionCommand>>)
    ensures
        match chick_air_cancel(*old(motor), *old(action), *input) {
            Some(button) => {
                &&& *final(motor) == cancelled_into(*old(motor), button, table)
                &&& *final(action) == air_attack_action(*old(action), button, table)
                &&& answered == Some(air_attack_motion(button, table))
            },
            None => {
                &&& *final(motor) == *old(motor)
                &&& *final(action) == *old(action)
                &&& answered == None::<Option<MotionCommand>>
            },
        },
{
    if motor.grounded {
        return None;
    }
    if action.action == FighterAction::JumpAttack && action.technique_id == Some(
        TechniqueId::ChickJumpAttack,
    ) && input.raw_heavy_pressed {
        return Some(start_jump_heavy_attack(motor, action, table));
    }
    if action.action == FighterAction::JumpHeavyAttack && action.technique_id == Some(
        TechniqueId::ChickJumpHeavy,
    ) && input.raw_light_pressed {
        return Some(start_jump_attack(motor, action, table));
    }
    None
}

/// Bee shoots out of its air dash: once per dash, in the air, with its heavy air
/// attack.
pub open spec fn bee_shot_starts(motor: FighterMotor, input: FighterInput, table: &MoveTable) -> bool {
    &&& !motor.grounded
    &&& motor.bee_air_dash_shot_available
    &&& jump_heavy_pressed(&input)
    &&& table.slot_definition(CharacterMoveSlot::JumpHeavy).is_some()
    &&& table.slot_definition(CharacterMoveSlot::JumpHeavy).unwrap().id == TechniqueId::BeeJumpHeavy
}

/// The motor with Bee's shot under way; the dash goes on.
pub open spec fn bee_shot(motor: FighterMotor) -> FighterMotor {
    FighterMotor {
        jump_attack_landing_recovery: false,
        air_attack_used: true,
        bee_air_dash_motion_active: true,
        bee_air_dash_shot_available: false,
        ..air_attack_begun(motor)
    }
}

/// Starts Bee's shot out of its air dash. The fighter turns where the input
/// points and keeps its velocity.
pub fn try_start_bee_air_dash_x_shot(
    motor: &mut FighterMotor,
    action: &mut FighterActionState,
    input: &FighterInput,
    measures: &FighterMeasures,
    table: &MoveTable,
    motions: &mut Vec<MotionCommand>,
) -> (started: bool)
    ensures
        started == bee_shot_starts(*old(motor), *input, table),
        *final(motor) == (if started {
            bee_shot(*old(motor))
        } else {
            *old(motor)
        }),
        *final(action) == (if started {
            FighterActionState::technique(
                table.slot_definition(CharacterMoveSlot::JumpHeavy).unwrap(),
            )
        } else {
            *old(action)
        }),
        final(motions)@ == (if started && measures.moving() {
            old(motions)@.push(MotionCommand::FaceMovement)
        } else {
            old(motions)@
        }),
{
    if motor.grounded || !motor.bee_air_dash_shot_available || !jump_heavy_pressed(input) {
        return false;
    }
    let technique = match table.technique_slot(CharacterMoveSlot::JumpHeavy) {
        Some(technique) => technique,
        None => {
            return false;
        },
    };
    if technique.id != TechniqueId::BeeJumpHeavy {
        return false;
    }
    if measures.moving() {
        motions.push(MotionCommand::FaceMovement);
    }
    motor.grounded = false;
    motor.ledge_grace_timer.clear();
    motor.jump_attack_landing_recovery = false;
    motor.clear_dash_carry();
    motor.clear_air_queue();
    motor.air_attack_used = true;
    motor.bee_air_dash_motion_active = true;
    motor.bee_air_dash_shot_available = false;
    set_technique_action(action, technique);
    true
}

/// Bee turns with the input during its air dash.
pub open spec fn spec_bee_air_dash_turns(
    action: &FighterActionState,
    measures: &FighterMeasures,
) -> bool {
    action.technique_id == Some(TechniqueId::BeeJumpAttack) && measures.moving()
}

#[verifier::when_used_as_spec(spec_bee_air_dash_turns)]
pub fn bee_air_dash_turns(action: &FighterActionState, measures: &FighterMeasures) -> (turns: bool)
    ensures
        turns == spec_bee_air_dash_turns(action, measures),
{
    action.technique_id == Some(TechniqueId::BeeJumpAttack) && measures.moving()
}

/// Air attacks that end in the air rather than on landing.
pub open spec fn spec_should_return_to_jumping_on_air_attack_completion(
    action: &FighterActionState,
) -> bool {
    match action.action {
        FighterAction::JumpHeavyAttack => true,
        FighterAction::JumpAttack => action.technique_id == Some(TechniqueId::BeeJumpAttack)
            || action.technique_id == Some(TechniqueId::PenguinJumpAttack) || action.technique_id
            == Some(TechniqueId::ChickJumpAttack),
        _ => false,
    }
}

#[verifier::when_used_as_spec(spec_should_return_to_jumping_on_air_attack_completion)]
pub fn should_return_to_jumping_on_air_attack_completion(action: &FighterActionState) -> (jumps_on:
    bool)
    ensures
        jumps_on == spec_should_return_to_jumping_on_air_attack_completion(action),
{
    match action.action {
        FighterAction::JumpHeavyAttack => true,
        FighterAction::JumpAttack => action.technique_id == Some(TechniqueId::BeeJumpAttack)
            || action.technique_id == Some(TechniqueId::PenguinJumpAttack) || action.technique_id
            == Some(TechniqueId::ChickJumpAttack),
        _ => false,
    }
}

/// A late jump off a ledge uses up the grace: it cannot be repeated in the air.
pub proof fn ledge_jump_is_not_repeated(motor: FighterMotor, button: Option<TechniqueButton>)
    ensures
        !can_start_ground_jump(&jumped_with_queue(motor, button)),
{
}

/// An air attack asked for at takeoff waits for the takeoff to be over, and is
/// ready from then on.
pub proof fn queued_attack_waits_for_takeoff(motor: FighterMotor, button: TechniqueButton)
    ensures
        !queued_air_attack_ready(&jumped_with_queue(motor, Some(button))),
        queued_air_attack_ready(
            &(FighterMotor {
                jump_takeoff_timer: timer_of_millis(JUMP_ATTACK_QUEUE_TAKEOFF_REMAINING_MS),
                ..jumped_with_queue(motor, Some(button))
            }),
        ),
{
}

/// Bee shoots at most once out of one air dash.
pub proof fn bee_shoots_once_per_dash(
    motor: FighterMotor,
    first: FighterInput,
    second: FighterInput,
    table: &MoveTable,
)
    requires
        bee_shot_starts(motor, first, table),
    ensures
        !bee_shot_starts(bee_shot(motor), second, table),
{
}

} // verus!

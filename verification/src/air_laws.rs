//! What a tick of a fighter makes of its buttons in the air.

use vstd::prelude::*;

use crate::action::FighterAction;
use crate::air::{air_attack_queued, bee_shot_starts, takeoff_done};
use crate::fighter::MotionCommand;
use crate::ground_laws::{lemma_free_tick, technique_begun};
use crate::input::{TechniqueButton, jump_attack_button};
use crate::step::{
    StepContext, StepModel, air_attacking, airborne, free, jumping_off, shot, stepped,
};
use crate::technique::{CharacterMoveSlot, TechniqueDefinition, TechniqueId};

verus! {

/// The air attack that the buttons ask for: the heavy one first, and none in a chord.
pub open spec fn air_button(context: StepContext) -> Option<TechniqueButton> {
    let input = context.input;
    if input.guard || input.ultimate || input.grab {
        None
    } else if input.heavy || input.heavy_held {
        Some(TechniqueButton::B)
    } else if input.light || input.light_held {
        Some(TechniqueButton::A)
    } else {
        None
    }
}

/// The air attack that starts in this tick: one that was lined up, else one that is
/// asked for now; only once in a jump, and only when the takeoff is over.
pub open spec fn air_attack_due(step: StepModel, context: StepContext) -> Option<
    TechniqueButton,
> {
    let lined_up = step.motor.queued_air_attack.is_some()
        && step.motor.queued_air_attack_timer.remaining > 1;
    if step.motor.air_attack_used || step.motor.jump_takeoff_timer.remaining > 3 {
        None
    } else if lined_up {
        step.motor.queued_air_attack
    } else {
        air_button(context)
    }
}

/// Bee may shoot out of its air dash.
pub open spec fn shot_due(step: StepModel, context: StepContext) -> bool {
    let input = context.input;
    &&& step.motor.bee_air_dash_shot_available
    &&& !(input.guard || input.ultimate || input.grab)
    &&& input.heavy || input.heavy_held
    &&& context.table.slot_definition(CharacterMoveSlot::JumpHeavy) matches Some(technique)
        && technique.id == TechniqueId::BeeJumpHeavy
}

/// What a free tick in the air comes down to.
proof fn lemma_airborne_tick(step: StepModel, context: StepContext) -> (turned: StepModel)
    requires
        step.action.action == FighterAction::Jumping,
        !step.motor.grounded,
    ensures
        turned.action.action == FighterAction::Jumping,
        turned.spend == step.spend,
        turned.presentation == step.presentation,
        !turned.motor.grounded,
        turned.motor.air_attack_used == step.motor.air_attack_used,
        turned.motor.jump_attack_landing_recovery == step.motor.jump_attack_landing_recovery,
        turned.motor.bee_air_dash_shot_available == step.motor.bee_air_dash_shot_available,
        turned.motor.queued_air_attack == (if step.motor.queued_air_attack.is_some()
            && step.motor.queued_air_attack_timer.remaining > 1 {
            step.motor.queued_air_attack
        } else {
            None
        }),
        ({
            let after = stepped(step, context);
            let ledge = context.input.jump && step.motor.ledge_grace_timer.remaining > 0;
            let shoots = shot_due(step, context);
            &&& ledge ==> after == jumping_off(turned, context)
            &&& !ledge && shoots ==> after == shot(turned, context)
            &&& !ledge && !shoots && air_attack_due(step, context).is_some() ==> after
                == air_attacking(turned, air_attack_due(step, context).unwrap(), context.table)
            &&& !ledge && !shoots && air_attack_due(step, context).is_none() ==> {
                &&& after.action == turned.action
                &&& after.spend == turned.spend
                &&& after.presentation == turned.presentation
                &&& after.motions == turned.motions
                &&& after.motor == (if turned.motor.queued_air_attack.is_none()
                    && !turned.motor.air_attack_used && air_button(context).is_some() {
                    air_attack_queued(turned.motor, air_button(context).unwrap())
                } else {
                    turned.motor
                })
            }
        }),
{
    let ready = lemma_free_tick(step, context);
    let turned = if context.measures.moving() {
        ready.moved(MotionCommand::FaceMovement)
    } else {
        ready
    };
    assert(stepped(step, context) == airborne(turned, context)) by {
        reveal(free);
    }
    assert(jump_attack_button(&context.input) == air_button(context));
    assert(takeoff_done(&turned.motor) == (step.motor.jump_takeoff_timer.remaining <= 3));
    assert(shot_due(step, context) == bee_shot_starts(
        turned.motor,
        context.input,
        context.table,
    ));
    reveal(airborne);
    turned
}

/// A fighter that has just left a ledge may still jump.
pub proof fn ledges_allow_a_jump(step: StepModel, context: StepContext)
    requires
        step.action.action == FighterAction::Jumping,
        !step.motor.grounded,
        context.input.jump,
        step.motor.ledge_grace_timer.remaining > 0,
    ensures
        ({
            let after = stepped(step, context);
            &&& after.action.action == FighterAction::Jumping
            &&& after.motions.last() == MotionCommand::Jump
            &&& after.motor.jump_takeoff_timer.remaining == 6
            &&& after.motor.ledge_grace_timer.remaining == 0
            &&& !after.motor.air_attack_used
            &&& !after.motor.grounded
            &&& after.motor.queued_air_attack == air_button(context)
        }),
{
    let turned = lemma_airborne_tick(step, context);
}

/// Bee shoots out of its air dash, once, and flies on.
pub proof fn bee_shoots_out_of_its_dash(step: StepModel, context: StepContext)
    requires
        step.action.action == FighterAction::Jumping,
        !step.motor.grounded,
        !(context.input.jump && step.motor.ledge_grace_timer.remaining > 0),
        shot_due(step, context),
    ensures
        ({
            let after = stepped(step, context);
            &&& technique_begun(
                after,
                context.table.slot_definition(CharacterMoveSlot::JumpHeavy).unwrap(),
            )
            &&& !after.motor.bee_air_dash_shot_available
            &&& after.motor.bee_air_dash_motion_active
            &&& after.motor.air_attack_used
            &&& !after.motor.jump_attack_landing_recovery
            &&& !after.motor.grounded
            &&& after.spend == step.spend
        }),
{
    let turned = lemma_airborne_tick(step, context);
}

/// An air attack that is due starts. It is used up, except for Penguin's light one; a
/// plain dive and Pig's slam have to recover when they land; each moves in its own way.
pub proof fn due_air_attacks_start(
    step: StepModel,
    context: StepContext,
    technique: TechniqueDefinition,
)
    requires
        step.action.action == FighterAction::Jumping,
        !step.motor.grounded,
        !(context.input.jump && step.motor.ledge_grace_timer.remaining > 0),
        !shot_due(step, context),
        match air_attack_due(step, context) {
            Some(TechniqueButton::A) => context.table.slot_definition(
                CharacterMoveSlot::JumpLight,
            ) == Some(technique),
            Some(TechniqueButton::B) => context.table.slot_definition(
                CharacterMoveSlot::JumpHeavy,
            ) == Some(technique),
            _ => false,
        },
    ensures
        ({
            let after = stepped(step, context);
            let light = air_attack_due(step, context) == Some(TechniqueButton::A);
            let id = technique.id;
            &&& technique_begun(after, technique)
            &&& !after.motor.grounded
            &&& after.motor.queued_air_attack.is_none()
            &&& after.motor.queued_air_attack_timer.remaining == 0
            &&& after.motor.dash_jump_carry_timer.remaining == 0
            &&& after.motor.ledge_grace_timer.remaining == 0
            &&& after.motor.air_attack_used == !(light && id == TechniqueId::PenguinJumpAttack)
            &&& after.motor.jump_attack_landing_recovery == (if light {
                id != TechniqueId::BeeJumpAttack && id != TechniqueId::PenguinJumpAttack && id
                    != TechniqueId::ChickJumpAttack
            } else {
                id == TechniqueId::PigJumpHeavy
            })
            &&& after.motor.bee_air_dash_motion_active == (light && id
                == TechniqueId::BeeJumpAttack)
            &&& after.motor.bee_air_dash_shot_available == (light && id
                == TechniqueId::BeeJumpAttack)
            &&& after.motions.last() == (if light {
                if id == TechniqueId::BeeJumpAttack {
                    MotionCommand::BeeAirDash
                } else if id == TechniqueId::PenguinJumpAttack {
                    MotionCommand::PenguinSnowflakeFloat
                } else if id == TechniqueId::ChickJumpAttack {
                    MotionCommand::ChickUpdraft
                } else {
                    MotionCommand::JumpAttackDive
                }
            } else if id == TechniqueId::PigJumpHeavy {
                MotionCommand::PigMeatSlam
            } else if id == TechniqueId::PenguinJumpHeavy {
                MotionCommand::PenguinSnowflakeFloat
            } else if id == TechniqueId::ChickJumpHeavy {
                MotionCommand::ChickEggRide
            } else {
                MotionCommand::AirStall
            })
            &&& after.spend == step.spend
            &&& after.presentation == step.presentation
        }),
{
    let turned = lemma_airborne_tick(step, context);
}

/// Without an air attack that is due, a fighter goes on falling. One that is asked for
/// too early in a jump is lined up for eleven ticks; one that was lined up stays.
pub proof fn early_air_attacks_are_lined_up(step: StepModel, context: StepContext)
    requires
        step.action.action == FighterAction::Jumping,
        !step.motor.grounded,
        !(context.input.jump && step.motor.ledge_grace_timer.remaining > 0),
        !shot_due(step, context),
        air_attack_due(step, context).is_none(),
    ensures
        ({
            let after = stepped(step, context);
            let queued = step.motor.queued_air_attack.is_some()
                && step.motor.queued_air_attack_timer.remaining > 1;
            &&& after.action.action == FighterAction::Jumping
            &&& !after.motor.grounded
            &&& after.motor.air_attack_used == step.motor.air_attack_used
            &&& after.motor.jump_attack_landing_recovery == step.motor.jump_attack_landing_recovery
            &&& after.motor.queued_air_attack == (if queued {
                step.motor.queued_air_attack
            } else if step.motor.air_attack_used {
                None
            } else {
                air_button(context)
            })
            &&& !queued && after.motor.queued_air_attack.is_some()
                ==> after.motor.queued_air_attack_timer.remaining == 11
            &&& after.spend == step.spend
            &&& after.presentation == step.presentation
        }),
{
    let turned = lemma_airborne_tick(step, context);
}

} // verus!

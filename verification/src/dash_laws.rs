//! How a dash goes on and ends.

use vstd::prelude::*;

use crate::action::FighterAction;
use crate::action_laws::lemma_busy_tick;
use crate::air_laws::air_button;
use crate::fighter::{DashDirection, MotionCommand, ResourceSpend};
use crate::ground_laws::technique_begun;
use crate::loadout::CharacterKind;
use crate::reaction_laws::{outlasts, points_far, tick_later};
use crate::step::{StepContext, StepModel, StepPresentation, acted, dashing, stepped};
use crate::technique::{CharacterMoveSlot, TechniqueId};
use crate::ticks::ticks_cover_exactly;

verus! {

/// Pig charges its heavy attack in a dash, from the first tick on which it holds the
/// button.
pub open spec fn pig_charges(step: StepModel, context: StepContext) -> bool {
    &&& context.character == CharacterKind::Pig
    &&& context.input.heavy_held || context.input.heavy_released || step.action.charge_elapsed.ticks
        != 0
}

/// Pig's charge grows tick by tick up to its full time and the dash goes on, wherever
/// Pig steers or looks. The attack comes out in the tick in which the button is up.
pub proof fn pig_charges_in_its_dash(step: StepModel, context: StepContext)
    requires
        step.action.action == FighterAction::Dashing,
        pig_charges(step, context),
        step.action.charge_elapsed.ticks == 0 || !outlasts(
            step.action.charge_elapsed.ticks - 1,
            context.tuning.pig_heavy_full_charge_ms,
        ),
    ensures
        ({
            let after = stepped(step, context);
            let charge = step.action.charge_elapsed.ticks;
            let grown = if context.input.heavy_held && !outlasts(
                charge as int,
                context.tuning.pig_heavy_full_charge_ms,
            ) {
                charge + 1
            } else {
                charge as int
            };
            let lets_go = context.input.heavy_released || !context.input.heavy_held;
            &&& !lets_go ==> {
                &&& after.action.action == FighterAction::Dashing
                &&& after.action.elapsed.ticks == tick_later(step.action.elapsed.ticks)
                &&& after.action.charge_elapsed.ticks == grown
                &&& after.motions == step.motions.push(
                    MotionCommand::DashHold(
                        if points_far(context.measures.movement_length_squared) {
                            DashDirection::Movement
                        } else {
                            DashDirection::Facing
                        },
                    ),
                )
            }
            &&& lets_go ==> match context.table.slot_definition(CharacterMoveSlot::DashHeavy) {
                Some(technique) => {
                    &&& technique_begun(after, technique)
                    &&& after.action.charge_elapsed.ticks == grown
                    &&& after.action.charge_release_requested
                    &&& after.motions == step.motions
                },
                None => after.action.action == FighterAction::Dashing,
            }
        }),
{
    let ready = lemma_busy_tick(step, context);
    ticks_cover_exactly(context.tuning.pig_heavy_full_charge_ms as int);
    reveal(acted);
    reveal(dashing);
}

/// Penguin asks for its ultimate in a dash, with its stamina.
pub open spec fn penguin_ultimate_due(step: StepModel, context: StepContext) -> bool {
    &&& context.character == CharacterKind::Penguin
    &&& context.input.ultimate || (context.input.light_held && context.input.heavy_held)
    &&& step.motor.grounded
    &&& context.tuning.ultimate_stamina_cost.le(step.stats.stamina)
    &&& context.table.slot_definition(CharacterMoveSlot::UltimateRush).is_some()
}

/// Penguin lunges from its dash right into the rush of its ultimate, for stamina.
pub proof fn penguin_dashes_into_its_ultimate(step: StepModel, context: StepContext)
    requires
        step.action.action == FighterAction::Dashing,
        penguin_ultimate_due(step, context),
    ensures
        ({
            let after = stepped(step, context);
            let technique = context.table.slot_definition(
                CharacterMoveSlot::UltimateRush,
            ).unwrap();
            &&& technique_begun(after, technique)
            &&& after.spend == Some(ResourceSpend::UltimateStamina)
            &&& after.motions == step.motions.push(MotionCommand::BrakeUltimateStart).push(
                MotionCommand::FinisherImpulse,
            )
            &&& after.motor.guard_active_timer.ticks == 0
        }),
{
    let ready = lemma_busy_tick(step, context);
    reveal(acted);
    reveal(dashing);
}

/// How a fighter moves into the attack out of its dash: Penguin turns first where it
/// steers, Chick steps back, Pig stops for its combo finisher, Penguin's light attack
/// keeps the speed, and everything else lunges.
pub open spec fn finisher_motions(context: StepContext, id: TechniqueId) -> Seq<MotionCommand> {
    let penguin = context.character == CharacterKind::Penguin;
    let steers = points_far(context.measures.movement_length_squared);
    if penguin && id == TechniqueId::PenguinDashAttack {
        if steers {
            seq![MotionCommand::FaceMovement]
        } else {
            seq![]
        }
    } else if penguin && id == TechniqueId::PenguinDashHeavy {
        if steers {
            seq![MotionCommand::FaceMovement, MotionCommand::FinisherImpulse]
        } else {
            seq![MotionCommand::FinisherImpulse]
        }
    } else if id == TechniqueId::ChickDashAttack {
        seq![MotionCommand::ChickBackstepLight]
    } else if id == TechniqueId::ChickDashHeavy {
        seq![MotionCommand::ChickBackstepHeavy]
    } else if context.character == CharacterKind::Pig && id == TechniqueId::PigComboFinisher {
        seq![MotionCommand::FinisherStop]
    } else {
        seq![MotionCommand::FinisherImpulse]
    }
}

/// The attack that the buttons ask for in a dash: the heavy one before the light one.
pub open spec fn dash_attack_due(context: StepContext) -> Option<TechniqueId> {
    if context.input.heavy || context.input.raw_heavy_pressed {
        context.table.slot_technique(CharacterMoveSlot::DashHeavy)
    } else if context.input.light {
        context.table.slot_technique(CharacterMoveSlot::DashLight)
    } else {
        None
    }
}

/// A dash ends in the attack that is asked for, before any jump.
pub proof fn dashes_end_in_attacks(step: StepModel, context: StepContext)
    requires
        step.action.action == FighterAction::Dashing,
        !pig_charges(step, context),
        !penguin_ultimate_due(step, context),
        dash_attack_due(context).is_some(),
        context.table.definition(dash_attack_due(context).unwrap()).is_some(),
    ensures
        ({
            let after = stepped(step, context);
            let id = dash_attack_due(context).unwrap();
            &&& technique_begun(after, context.table.definition(id).unwrap())
            &&& after.motions =~= step.motions + finisher_motions(context, id)
            &&& after.spend == step.spend
            &&& after.presentation == step.presentation
        }),
{
    let ready = lemma_busy_tick(step, context);
    reveal(acted);
    reveal(dashing);
}

/// Without an attack a dash jumps where that is asked for and possible, and carries its
/// speed along. Otherwise it goes on while the fighter steers, leaving its trail at the
/// set pace. When the fighter does not steer it goes on for its shortest time, and then
/// ends in a slide if it is fast enough.
pub proof fn dashes_jump_go_on_or_stop(step: StepModel, context: StepContext)
    requires
        step.action.action == FighterAction::Dashing,
        !pig_charges(step, context),
        !penguin_ultimate_due(step, context),
        dash_attack_due(context).is_none(),
    ensures
        ({
            let after = stepped(step, context);
            let ticks = tick_later(step.action.elapsed.ticks);
            let jumps = context.input.jump && (step.motor.grounded
                || step.motor.ledge_grace_timer.remaining > 0);
            let steers = points_far(context.measures.movement_length_squared);
            let tuning = context.tuning;
            &&& jumps ==> {
                &&& after.action.action == FighterAction::Jumping
                &&& after.action.elapsed.ticks == 0
                &&& after.motions == step.motions.push(MotionCommand::DashJump)
                &&& !after.motor.grounded
                &&& after.motor.ledge_grace_timer.remaining == 0
                &&& after.motor.jump_takeoff_timer.remaining == 6
                &&& after.motor.dash_jump_carry_timer.remaining == tuning.dash_jump_carry_duration
                &&& after.motor.dash_jump_carry_speed_limit == context.measures.dash_carry_limit
                &&& after.motor.queued_air_attack == air_button(context)
                &&& !after.motor.air_attack_used
            }
            &&& !jumps && steers ==> {
                &&& after.action.action == FighterAction::Dashing
                &&& after.action.elapsed.ticks == ticks
                &&& after.motions == step.motions.push(
                    MotionCommand::DashHold(DashDirection::Movement),
                )
                &&& tuning.dash_trail_repeat > 0 && ticks % (tuning.dash_trail_repeat as int) == 0
                    ==> after.presentation == Some(StepPresentation::DashTrail)
                &&& tuning.dash_trail_repeat > 0 && ticks % (tuning.dash_trail_repeat as int) != 0
                    ==> after.presentation == step.presentation
            }
            &&& !jumps && !steers && ticks >= tuning.dash_duration ==> {
                &&& after.action.action == FighterAction::Idle
                &&& after.action.elapsed.ticks == 0
                &&& after.motions == step.motions
                &&& after.motor.dash_slide_timer.remaining == (
                if tuning.dash_slide_stop_speed_squared.lt(
                    context.measures.planar_speed_squared,
                ) {
                    tuning.dash_slide_duration
                } else {
                    0
                })
                &&& after.motor.dash_jump_carry_timer.remaining == 0
                &&& after.motor.dash_jump_carry_speed_limit.bits == 0
            }
            &&& !jumps && !steers && ticks < tuning.dash_duration ==> {
                &&& after.action.action == FighterAction::Dashing
                &&& after.action.elapsed.ticks == ticks
                &&& after.motions == step.motions
                &&& after.presentation == step.presentation
            }
        }),
{
    let ready = lemma_busy_tick(step, context);
    reveal(acted);
    reveal(dashing);
}

} // verus!

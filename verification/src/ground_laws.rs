//! What a tick of a fighter makes of its buttons on the ground.

use vstd::prelude::*;

use crate::action::{FighterAction, FighterActionState};
use crate::fighter::{DashDirection, MotionCommand, ResourceSpend};
use crate::guard::{after_counter_attempt, guard_started};
use crate::input::{TechniqueButton, guard_counter_trigger_pressed};
use crate::reaction_laws::{counter_is_due, points_far, ultimate_begun, ultimate_due};
use crate::scalar::Scalar;
use crate::start::{ChickSkillKind, owns_commandable_egg};
use crate::step::{
    StepContext, StepModel, StepPresentation, acted, counter_window_checked, free, grounded, opened,
    slide_checked, stepped, technique_requested,
};
use crate::technique::{CharacterMoveSlot, TechniqueDefinition, TechniqueId};

verus! {

/// A guard step is asked for, on the ground, with its stamina.
pub open spec fn guard_step_due(step: StepModel, context: StepContext) -> bool {
    &&& context.input.guard
    &&& context.input.dash
    &&& step.motor.grounded
    &&& context.tuning.guard_step_stamina_cost.le(step.stats.stamina)
}

/// The technique behind the buttons on the ground. The ultimate outranks the grab, the
/// grab the light attack, and that the heavy one.
pub open spec fn button_technique(context: StepContext) -> Option<TechniqueDefinition> {
    let input = context.input;
    if input.ultimate {
        context.table.raw_technique(TechniqueButton::Ultimate, true)
    } else if input.grab {
        context.table.raw_technique(TechniqueButton::Grab, true)
    } else if input.light {
        context.table.raw_technique(TechniqueButton::A, true)
    } else if input.heavy {
        context.table.raw_technique(TechniqueButton::B, true)
    } else {
        None
    }
}

/// Anything is asked for but a direction.
pub open spec fn ends_a_slide(context: StepContext) -> bool {
    let input = context.input;
    input.jump || input.light || input.heavy || input.grab || input.guard || input.ultimate
        || input.special || input.dash
}

/// A tick without an action under way, up to where the buttons are looked at.
pub proof fn lemma_free_tick(step: StepModel, context: StepContext) -> (ready: StepModel)
    requires
        step.action.action == FighterAction::Idle || step.action.action == FighterAction::Moving
            || step.action.action == FighterAction::Jumping,
        !counter_is_due(step, context),
    ensures
        stepped(step, context) == free(
            ready,
            context,
            context.input.guard && !step.motor.guard_was_requested,
        ),
        ready.action.action == step.action.action,
        ready.action.elapsed == step.action.elapsed,
        ready.stats.stamina == step.stats.stamina,
        ready.stats.health == step.stats.health,
        ready.stats.invulnerability == step.stats.invulnerability.ticked(),
        ready.spend == step.spend,
        ready.presentation == step.presentation,
        ready.motor.grounded == step.motor.grounded,
        ready.motor.ledge_grace_timer == step.motor.ledge_grace_timer,
        ready.motor.jump_takeoff_timer == step.motor.jump_takeoff_timer,
        ready.motor.air_attack_used == step.motor.air_attack_used,
        ready.motor.jump_attack_landing_recovery == step.motor.jump_attack_landing_recovery,
        ready.motor.bee_air_dash_shot_available == step.motor.bee_air_dash_shot_available,
        ready.motor.bee_air_dash_motion_active == step.motor.bee_air_dash_motion_active,
        ready.motor.guard_active_timer == step.motor.guard_active_timer,
        ready.motor.guard_cooldown_timer == step.motor.guard_cooldown_timer.ticked(),
        ready.motor.guard_start_buffer_timer.remaining > 0 <==> context.input.guard && (
        !step.motor.guard_was_requested && context.tuning.guard_start_buffer > 0
            || step.motor.guard_was_requested && step.motor.guard_start_buffer_timer.remaining > 1),
        ready.motor.queued_air_attack == (if step.motor.queued_air_attack.is_some()
            && step.motor.queued_air_attack_timer.remaining > 1 {
            step.motor.queued_air_attack
        } else {
            None
        }),
        ({
            let ended = step.motor.dash_slide_timer.remaining > 0 && ends_a_slide(context)
                && step.action.action != FighterAction::Jumping;
            &&& ready.motor.dash_slide_timer.remaining == (if ended {
                0
            } else {
                step.motor.dash_slide_timer.remaining
            })
            &&& ready.motions == (if ended {
                step.motions.push(MotionCommand::DampDashSlide)
            } else {
                step.motions
            })
        }),
{
    reveal(acted);
    let opening = opened(step, context);
    let calm = counter_window_checked(opening);
    let requested = guard_counter_trigger_pressed(&context.input)
        || calm.motor.guard_counter_buffered;
    let tried = calm.driven(
        after_counter_attempt(calm.motor, context.tuning, requested, false),
    );
    slide_checked(tried, context)
}

/// Guard and dash together step aside, whatever else is pressed: it costs stamina, and
/// shields for its time.
pub proof fn guard_and_dash_step_aside(step: StepModel, context: StepContext)
    requires
        step.action.action == FighterAction::Idle || step.action.action == FighterAction::Moving,
        guard_step_due(step, context),
        !counter_is_due(step, context),
    ensures
        ({
            let after = stepped(step, context);
            let shield = step.stats.invulnerability.ticked().remaining;
            &&& after.action.action == FighterAction::GuardStep
            &&& after.action.elapsed.ticks == 0
            &&& after.spend == Some(ResourceSpend::GuardStepStamina)
            &&& after.presentation == Some(StepPresentation::DashTrail)
            &&& after.motions.last() == MotionCommand::GuardStep
            &&& after.motor.grounded
            &&& after.stats.invulnerability.remaining == (if shield
                < context.tuning.guard_step_invulnerable {
                context.tuning.guard_step_invulnerable
            } else {
                shield
            })
        }),
{
    let ready = lemma_free_tick(step, context);
    reveal(free);
}

/// A fighter that stands or walks and jumps leaves the ground, with nothing of an
/// earlier jump or dash left. An attack that is pressed with it is lined up, the heavy
/// one first, unless a chord is held.
pub proof fn jumps_leave_the_ground(step: StepModel, context: StepContext)
    requires
        step.action.action == FighterAction::Idle || step.action.action == FighterAction::Moving,
        step.motor.grounded,
        context.input.jump,
        !guard_step_due(step, context),
        !counter_is_due(step, context),
    ensures
        ({
            let after = stepped(step, context);
            let input = context.input;
            let chord = input.guard || input.ultimate || input.grab;
            let button = if !chord && (input.heavy || input.heavy_held) {
                Some(TechniqueButton::B)
            } else if !chord && (input.light || input.light_held) {
                Some(TechniqueButton::A)
            } else {
                None
            };
            &&& after.action.action == FighterAction::Jumping
            &&& after.action.elapsed.ticks == 0
            &&& !after.motor.grounded
            &&& after.motor.ledge_grace_timer.remaining == 0
            &&& after.motor.jump_takeoff_timer.remaining == 6
            &&& after.motor.dash_slide_timer.remaining == 0
            &&& after.motor.dash_jump_carry_timer.remaining == 0
            &&& !after.motor.air_attack_used
            &&& !after.motor.jump_attack_landing_recovery
            &&& !after.motor.bee_air_dash_shot_available
            &&& after.motor.queued_air_attack == button
            &&& after.motor.queued_air_attack_timer.remaining == (if button.is_some() {
                11u32
            } else {
                0
            })
            &&& after.motions.last() == MotionCommand::Jump
            &&& after.spend == step.spend
            &&& after.presentation == step.presentation
        }),
{
    let ready = lemma_free_tick(step, context);
    let turned = if context.measures.moving() {
        ready.moved(MotionCommand::FaceMovement)
    } else {
        ready
    };
    let pressed = context.input.guard && !step.motor.guard_was_requested;
    assert(stepped(step, context) == grounded(turned, context, pressed)) by {
        reveal(free);
    }
    reveal(grounded);
}

/// A technique has begun from the ground.
pub open spec fn technique_begun(after: StepModel, technique: TechniqueDefinition) -> bool {
    &&& after.action.action == technique.action
    &&& after.action.technique_id == Some(technique.id)
    &&& after.action.elapsed.ticks == 0
    &&& !after.action.confirmed_hit
    &&& after.action.queued_technique.is_none()
}

/// The fighter has an egg in orbit or in flight.
pub open spec fn has_egg_to_command(context: StepContext) -> bool {
    exists|i: int|
        0 <= i < context.skills@.len() && (#[trigger] context.skills@[i]).owner == context.owner
            && (context.skills@[i].kind == ChickSkillKind::OrbitEgg
            || context.skills@[i].kind == ChickSkillKind::OrbitEggLaunch)
}

/// Without a jump, the ground comes down to the ultimate or the technique asked for.
proof fn lemma_grounded_techniques(step: StepModel, context: StepContext, guard_pressed: bool)
    requires
        step.motor.grounded,
        !context.input.jump,
        ultimate_due(step, context) || button_technique(context).is_some(),
    ensures
        ultimate_due(step, context) ==> grounded(step, context, guard_pressed) == step.driven(
            guard_started(step.motor),
        ).acting(
            FighterActionState::technique(
                context.table.slot_definition(CharacterMoveSlot::UltimateStartup).unwrap(),
            ),
        ).moved(MotionCommand::BrakeUltimateStart).paying(ResourceSpend::UltimateStamina),
        !ultimate_due(step, context) ==> grounded(step, context, guard_pressed)
            == technique_requested(step, button_technique(context).unwrap(), context),
{
    reveal(grounded);
}

/// Without a jump, a fighter that stands or walks starts its ultimate where that is
/// due, else the technique behind its buttons: where it can pay, where Chick's first
/// attack has an egg to command, and otherwise not at all. Cat's heavy attack shields
/// where the loadout says so.
pub proof fn buttons_start_techniques(step: StepModel, context: StepContext)
    requires
        step.action.action == FighterAction::Idle || step.action.action == FighterAction::Moving,
        step.motor.grounded,
        !context.input.jump,
        !guard_step_due(step, context),
        !counter_is_due(step, context),
        ultimate_due(step, context) || button_technique(context).is_some(),
    ensures
        ({
            let after = stepped(step, context);
            let technique = button_technique(context).unwrap();
            let is_ultimate = technique.action == FighterAction::UltimateStartup;
            let costs = Scalar { bits: 0x3400_0000 }.lt(technique.stamina_cost);
            let has_egg = has_egg_to_command(context);
            let shield = step.stats.invulnerability.ticked().remaining;
            let starts = if is_ultimate {
                context.tuning.ultimate_stamina_cost.le(step.stats.stamina)
            } else {
                &&& technique.id == TechniqueId::ChickLight1 ==> has_egg
                &&& !(costs && step.stats.stamina.lt(technique.stamina_cost))
            };
            &&& ultimate_due(step, context) ==> ultimate_begun(
                step,
                after,
                context.table.slot_definition(CharacterMoveSlot::UltimateStartup).unwrap(),
            ) && after.motions.last() == MotionCommand::BrakeUltimateStart
            &&& !ultimate_due(step, context) && starts && is_ultimate ==> ultimate_begun(
                step,
                after,
                technique,
            ) && after.motions.last() == MotionCommand::BrakeUltimateStart
            &&& !ultimate_due(step, context) && starts && !is_ultimate ==> {
                &&& technique_begun(after, technique)
                &&& after.spend == (if costs {
                    Some(ResourceSpend::TechniqueStamina(technique.stamina_cost))
                } else {
                    step.spend
                })
                &&& after.stats.invulnerability.remaining == (match context.table.heavy_armor_ticks {
                    Some(ticks) => if technique.id == TechniqueId::CatHeavy && shield < ticks {
                        ticks
                    } else {
                        shield
                    },
                    None => shield,
                })
            }
            &&& !ultimate_due(step, context) && !starts ==> {
                &&& after.action.action == step.action.action
                &&& after.action.elapsed == step.action.elapsed
                &&& after.spend == step.spend
                &&& after.stats.invulnerability.remaining == shield
            }
            &&& after.presentation == step.presentation
            &&& after.motor.grounded
        }),
{
    let ready = lemma_free_tick(step, context);
    let turned = if context.measures.moving() {
        ready.moved(MotionCommand::FaceMovement)
    } else {
        ready
    };
    assert(stepped(step, context) == grounded(
        turned,
        context,
        context.input.guard && !step.motor.guard_was_requested,
    )) by {
        reveal(free);
    }
    lemma_grounded_techniques(
        turned,
        context,
        context.input.guard && !step.motor.guard_was_requested,
    );
    assert(has_egg_to_command(context) == owns_commandable_egg(context.skills@, context.owner));
    reveal(technique_requested);
}

/// Without any of these, a dash starts where it is asked for, else a guard where one
/// is asked for, now or a moment ago, and none has to cool down or is up; else the
/// fighter walks where a direction is held, and stands where none is.
pub proof fn fighters_dash_guard_or_walk(step: StepModel, context: StepContext)
    requires
        step.action.action == FighterAction::Idle || step.action.action == FighterAction::Moving,
        step.motor.grounded,
        !context.input.jump,
        !guard_step_due(step, context),
        !counter_is_due(step, context),
        !ultimate_due(step, context),
        button_technique(context).is_none(),
    ensures
        ({
            let after = stepped(step, context);
            let moves = points_far(context.measures.movement_length_squared);
            let pressed = context.input.guard && !step.motor.guard_was_requested;
            let remembered = context.input.guard && step.motor.guard_start_buffer_timer.remaining
                > 1;
            let guards = (pressed || remembered) && step.motor.guard_cooldown_timer.remaining <= 1
                && step.motor.guard_active_timer.ticks == 0;
            &&& context.input.dash ==> {
                &&& after.action.action == FighterAction::Dashing
                &&& after.action.elapsed.ticks == 0
                &&& after.presentation == Some(StepPresentation::DashTrail)
                &&& after.motions.last() == MotionCommand::DashStart(
                    if moves {
                        DashDirection::Movement
                    } else {
                        DashDirection::Facing
                    },
                )
                &&& after.motor.dash_slide_timer.remaining == 0
                &&& after.motor.dash_jump_carry_timer.remaining == 0
            }
            &&& !context.input.dash && guards ==> {
                &&& after.action.action == FighterAction::Guarding
                &&& after.action.elapsed.ticks == 0
                &&& after.motions.last() == MotionCommand::BrakeGuardStart
                &&& after.motor.guard_active_timer.ticks == 0
                &&& after.motor.guard_cooldown_timer.remaining == 0
                &&& after.motor.guard_start_buffer_timer.remaining == 0
            }
            &&& !context.input.dash && !guards && moves ==> after.action.action
                == FighterAction::Moving && after.motions.last() == MotionCommand::FaceMovement
            &&& !context.input.dash && !guards && !moves ==> after.action.action
                == FighterAction::Idle
            &&& after.spend == step.spend
            &&& after.motor.grounded
        }),
{
    let ready = lemma_free_tick(step, context);
    let turned = if context.measures.moving() {
        ready.moved(MotionCommand::FaceMovement)
    } else {
        ready
    };
    let pressed = context.input.guard && !step.motor.guard_was_requested;
    assert(stepped(step, context) == grounded(turned, context, pressed)) by {
        reveal(free);
    }
    reveal(grounded);
}

/// A slide after a dash ends with any request of a calm fighter, and is damped.
pub proof fn requests_end_a_slide(step: StepModel, context: StepContext)
    requires
        step.action.action == FighterAction::Idle || step.action.action == FighterAction::Moving,
        step.motor.grounded,
        step.motor.dash_slide_timer.remaining > 0,
        !counter_is_due(step, context),
        !context.input.jump,
        !context.input.dash,
    ensures
        ({
            let after = stepped(step, context);
            let input = context.input;
            let asks = input.light || input.heavy || input.grab || input.guard || input.ultimate
                || input.special;
            &&& asks ==> after.motor.dash_slide_timer.remaining == 0
                && after.motions[step.motions.len() as int] == MotionCommand::DampDashSlide
            &&& !asks ==> after.motor.dash_slide_timer == step.motor.dash_slide_timer
        }),
{
    let ready = lemma_free_tick(step, context);
    let turned = if context.measures.moving() {
        ready.moved(MotionCommand::FaceMovement)
    } else {
        ready
    };
    let pressed = context.input.guard && !step.motor.guard_was_requested;
    assert(stepped(step, context) == grounded(turned, context, pressed)) by {
        reveal(free);
    }
    reveal(grounded);
    reveal(technique_requested);
}

} // verus!

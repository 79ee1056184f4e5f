//! What a tick of a fighter does to its reactions, its guard and its counter.

use vstd::prelude::*;

use crate::action::FighterAction;
use crate::fighter::{MotionCommand, ResourceSpend};
use crate::loadout::CharacterKind;
use crate::scalar::Scalar;
use crate::step::{
    StepContext, StepModel, StepPresentation, acted, floored, guarding, rising, stepped, stunned,
};
use crate::technique::{CharacterMoveSlot, TechniqueDefinition, TechniqueId};

verus! {

/// A tick later, up to the largest count.
pub open spec fn tick_later(ticks: u32) -> int {
    if ticks == u32::MAX {
        u32::MAX as int
    } else {
        ticks + 1
    }
}

/// So many ticks last at least so many milliseconds, at sixty ticks a second.
pub open spec fn outlasts(ticks: int, millis: u32) -> bool {
    ticks * 1000 >= millis * 60
}

/// A counter is due: one attack button went down, or was remembered, with the window
/// still open after this tick, on the ground, in a calm action, with more health than
/// it costs.
pub open spec fn counter_is_due(step: StepModel, context: StepContext) -> bool {
    let window = step.motor.guard_counter_window_timer.remaining;
    let input = context.input;
    &&& step.action.action == FighterAction::Idle || step.action.action == FighterAction::Moving
        || step.action.action == FighterAction::Guarding
    &&& window > 1
    &&& step.motor.grounded
    &&& step.motor.guard_counter_buffered || (input.raw_light_pressed != input.raw_heavy_pressed
        && !(input.light_held && input.heavy_held))
    &&& !step.stats.health.le(context.tuning.guard_counter_health_cost)
    &&& context.table.definition(TechniqueId::GuardCounter).is_some()
}

/// A counter that is due comes out, whatever else is pressed: it costs health, turns
/// the fighter and slows it, and closes the window and the guard behind it.
pub proof fn due_counters_come_out(step: StepModel, context: StepContext)
    requires
        counter_is_due(step, context),
    ensures
        ({
            let after = stepped(step, context);
            let technique = context.table.definition(TechniqueId::GuardCounter).unwrap();
            &&& after.action.action == technique.action
            &&& after.action.technique_id == Some(technique.id)
            &&& after.action.elapsed.ticks == 0
            &&& after.spend == Some(ResourceSpend::GuardCounterHealth)
            &&& after.presentation == step.presentation
            &&& after.motor.guard_counter_window_timer.remaining == 0
            &&& after.motor.guard_counter_source.is_none()
            &&& !after.motor.guard_counter_buffered
            &&& after.motor.guard_active_timer.ticks == 0
            &&& after.motor.guard_cooldown_timer.remaining == context.tuning.guard_restart_cooldown
            &&& after.motor.guard_start_buffer_timer.remaining == 0
            &&& after.motions == step.motions + (if points_far(
                context.measures.movement_length_squared,
            ) {
                seq![MotionCommand::FaceMovement, MotionCommand::BrakeGuardCounter]
            } else if step.motor.guard_counter_source.is_some() && points_far(
                context.measures.guard_source_distance_squared,
            ) {
                seq![MotionCommand::FaceGuardSource, MotionCommand::BrakeGuardCounter]
            } else {
                seq![MotionCommand::BrakeGuardCounter]
            })
        }),
{
}

/// A squared length above a hundredth.
pub open spec fn points_far(length_squared: Scalar) -> bool {
    Scalar { bits: 0x3c23_d70a }.lt(length_squared)
}

/// Whoever is held only waits: its shield and its time run for one tick, it is slowed,
/// or stopped in an ultimate, and nothing else comes of its input.
pub proof fn shields_run_down(step: StepModel, context: StepContext)
    requires
        step.action.action == FighterAction::Grabbed || step.action.action
            == FighterAction::GrabHold || step.action.action == FighterAction::UltimateVictim,
    ensures
        ({
            let after = stepped(step, context);
            let shield = step.stats.invulnerability.remaining;
            &&& after.stats.invulnerability.remaining == (if 0 < shield < u32::MAX {
                (shield - 1) as u32
            } else {
                shield
            })
            &&& after.action.action == step.action.action
            &&& after.action.elapsed.ticks == tick_later(step.action.elapsed.ticks)
            &&& after.motions == step.motions.push(
                if step.action.action == FighterAction::UltimateVictim {
                    MotionCommand::Stop
                } else {
                    MotionCommand::BrakeGrab
                },
            )
            &&& after.spend == step.spend
            &&& after.presentation == step.presentation
            &&& after.stats.health == step.stats.health
            &&& after.stats.stamina == step.stats.stamina
            &&& after.motor.grounded == step.motor.grounded
            &&& after.motor.guard_was_requested == context.input.guard
            &&& after.motor.guard_counter_window_timer.remaining == 0
        }),
{
    reveal(acted);
}

/// A clinging element fades by what was measured, and is gone once its time or its
/// strength is.
pub proof fn elements_fade(step: StepModel, context: StepContext)
    requires
        step.action.action == FighterAction::Grabbed,
    ensures
        ({
            let after = stepped(step, context).stats;
            let time = step.stats.element_carry_timer.remaining;
            let decayed = context.measures.decayed_carry_strength;
            let gone = time <= 1 || step.stats.element_carry_strength.le(Scalar::zero())
                || decayed.le(Scalar::zero());
            &&& gone ==> after.element_carry.is_none() && after.element_carry_timer.remaining == 0
            &&& !gone ==> after.element_carry == step.stats.element_carry
                && after.element_carry_strength == decayed && after.element_carry_timer.remaining
                == (if time == u32::MAX {
                time
            } else {
                (time - 1) as u32
            })
        }),
{
    reveal(acted);
}

/// A fighter that is knocked down stays down for its knockdown time, authored or
/// tuned, and gets up in the tick that reaches it. Without an authored reaction it may,
/// after a moment, stand up at once with a jump or roll away with a dash.
pub proof fn knockdowns_last_their_time(step: StepModel, context: StepContext)
    requires
        step.action.action == FighterAction::Knockdown,
    ensures
        ({
            let after = stepped(step, context);
            let ticks = tick_later(step.action.elapsed.ticks);
            let shield = step.stats.invulnerability.ticked().remaining;
            let may_leave = step.action.reaction_getup_ms.is_none()
                && step.action.reaction_recover_ms.is_none() && ticks
                >= context.tuning.quick_stand_after;
            let over = match step.action.reaction_getup_ms {
                Some(millis) => outlasts(ticks, millis),
                None => ticks >= context.tuning.knockdown_duration,
            };
            let input = context.input;
            &&& may_leave && input.jump ==> {
                &&& after.action.action == FighterAction::QuickStand
                &&& after.action.elapsed.ticks == 0
                &&& after.stats.invulnerability.remaining == 0
                &&& after.motions == step.motions
                &&& after.presentation == step.presentation
            }
            &&& may_leave && !input.jump && input.dash ==> {
                &&& after.action.action == FighterAction::RecoveryRoll
                &&& after.action.elapsed.ticks == 0
                &&& after.stats.invulnerability.remaining == (if shield
                    < context.tuning.recovery_roll_invulnerable {
                    context.tuning.recovery_roll_invulnerable
                } else {
                    shield
                })
                &&& after.motions == step.motions.push(MotionCommand::RecoveryRoll)
                &&& after.presentation == Some(StepPresentation::DashTrail)
            }
            &&& !(may_leave && (input.jump || input.dash)) && !over ==> {
                &&& after.action.action == FighterAction::Knockdown
                &&& after.action.elapsed.ticks == ticks
                &&& after.action.reaction_getup_ms == step.action.reaction_getup_ms
                &&& after.action.reaction_recover_ms == step.action.reaction_recover_ms
                &&& after.stats.invulnerability.remaining == shield
                &&& after.motions == step.motions
                &&& after.presentation == step.presentation
            }
            &&& !(may_leave && (input.jump || input.dash)) && over ==> {
                &&& after.action.action == FighterAction::GetUp
                &&& after.action.elapsed.ticks == 0
                &&& after.action.reaction_getup_ms.is_none()
                &&& after.action.reaction_family.is_none()
                &&& after.action.reaction_recover_ms == (match (
                    step.action.reaction_recover_ms,
                    step.action.reaction_getup_ms,
                ) {
                    (Some(recover), Some(getup)) => Some(
                        if recover > getup {
                            (recover - getup) as u32
                        } else {
                            1u32
                        },
                    ),
                    _ => None,
                })
                &&& after.stats.invulnerability.remaining == (if shield
                    < context.tuning.getup_invulnerable {
                    context.tuning.getup_invulnerable
                } else {
                    shield
                })
                &&& after.motions == step.motions
                &&& after.presentation == Some(StepPresentation::RecoveryStarted)
            }
            &&& after.spend == step.spend
            &&& after.motor.grounded == step.motor.grounded
            &&& !after.motor.bee_air_dash_motion_active
        }),
{
    reveal(acted);
    reveal(floored);
}

/// A fighter is on its way up for its time to recover, authored or tuned. Then it
/// stands, and its shield is gone.
pub proof fn getting_up_lasts_its_time(step: StepModel, context: StepContext)
    requires
        step.action.action == FighterAction::GetUp,
    ensures
        ({
            let after = stepped(step, context);
            let ticks = tick_later(step.action.elapsed.ticks);
            let over = match step.action.reaction_recover_ms {
                Some(millis) => outlasts(ticks, millis),
                None => ticks >= context.tuning.getup_duration,
            };
            &&& over ==> {
                &&& after.action.action == FighterAction::Idle
                &&& after.action.elapsed.ticks == 0
                &&& after.stats.invulnerability.remaining == 0
                &&& after.presentation == Some(StepPresentation::RecoveryCompleted)
            }
            &&& !over ==> {
                &&& after.action.action == FighterAction::GetUp
                &&& after.action.elapsed.ticks == ticks
                &&& after.stats.invulnerability == step.stats.invulnerability.ticked()
                &&& after.presentation == step.presentation
            }
            &&& after.motions == step.motions
            &&& after.spend == step.spend
        }),
{
    reveal(acted);
    reveal(rising);
}

/// A hit stuns for its authored time, else for the longer time where no health is
/// left and for the shorter one where there is. Then the fighter stands, or falls. One
/// that is thrown into the air for a hard landing stays stunned up there.
pub proof fn hits_stun_for_their_time(step: StepModel, context: StepContext)
    requires
        step.action.action == FighterAction::Hitstun,
    ensures
        ({
            let after = stepped(step, context);
            let ticks = tick_later(step.action.elapsed.ticks);
            let over = match step.action.reaction_recover_ms {
                Some(millis) => outlasts(ticks, millis),
                None => ticks >= (if step.stats.health.le(Scalar::zero()) {
                    context.tuning.hitstun_heavy
                } else {
                    context.tuning.hitstun_light
                }),
            };
            let flung = !step.motor.grounded && step.motor.landing_aftermath.is_some();
            &&& flung || !over ==> {
                &&& after.action.action == FighterAction::Hitstun
                &&& after.action.elapsed.ticks == ticks
                &&& after.action.reaction_recover_ms == step.action.reaction_recover_ms
            }
            &&& !flung && over ==> {
                &&& after.action.action == (if step.motor.grounded {
                    FighterAction::Idle
                } else {
                    FighterAction::Jumping
                })
                &&& after.action.elapsed.ticks == 0
            }
            &&& after.motor.grounded == step.motor.grounded
            &&& after.motor.landing_aftermath == step.motor.landing_aftermath
            &&& !after.motor.bee_air_dash_motion_active
            &&& !after.motor.bee_air_dash_shot_available
            &&& after.motions == step.motions
            &&& after.spend == step.spend
            &&& after.presentation == step.presentation
            &&& after.stats.invulnerability == step.stats.invulnerability.ticked()
        }),
{
    reveal(acted);
    reveal(stunned);
}

/// A broken guard leaves a fighter open for its time, and no longer.
pub proof fn broken_guards_last_their_time(step: StepModel, context: StepContext)
    requires
        step.action.action == FighterAction::GuardBroken,
    ensures
        ({
            let after = stepped(step, context);
            let ticks = tick_later(step.action.elapsed.ticks);
            &&& ticks >= context.tuning.guard_break_duration ==> after.action.action
                == FighterAction::Idle && after.action.elapsed.ticks == 0
            &&& ticks < context.tuning.guard_break_duration ==> after.action.action
                == FighterAction::GuardBroken && after.action.elapsed.ticks == ticks
            &&& after.motions == step.motions
            &&& after.spend == step.spend
            &&& after.presentation == step.presentation
        }),
{
    reveal(acted);
}

/// The ultimate is asked for: by its key, or, for Penguin and Chick, with aim and both
/// attacks held.
pub open spec fn asks_for_ultimate(context: StepContext) -> bool {
    context.input.ultimate || ((context.character == CharacterKind::Penguin || context.character
        == CharacterKind::Chick) && context.input.aim && context.input.light_held
        && context.input.heavy_held)
}

/// The ultimate that comes out on the ground: asked for, with its stamina, and in the
/// move list.
pub open spec fn ultimate_due(step: StepModel, context: StepContext) -> bool {
    &&& asks_for_ultimate(context)
    &&& step.motor.grounded
    &&& context.tuning.ultimate_stamina_cost.le(step.stats.stamina)
    &&& context.table.slot_definition(CharacterMoveSlot::UltimateStartup).is_some()
}

/// An ultimate has begun: its technique runs, its stamina is to be paid, the fighter
/// is slowed and no guard is left.
pub open spec fn ultimate_begun(
    before: StepModel,
    after: StepModel,
    technique: TechniqueDefinition,
) -> bool {
    &&& after.action.action == technique.action
    &&& after.action.technique_id == Some(technique.id)
    &&& after.action.elapsed.ticks == 0
    &&& after.spend == Some(ResourceSpend::UltimateStamina)
    &&& after.presentation == before.presentation
    &&& after.motor.guard_active_timer.ticks == 0
    &&& after.motor.guard_cooldown_timer.remaining == 0
    &&& after.motor.guard_start_buffer_timer.remaining == 0
}

/// A guard goes on while it is held, on the ground and within its longest time. It
/// ends otherwise, and then has to cool down; an ultimate that is due comes out of it
/// first.
pub proof fn guards_last_while_held(step: StepModel, context: StepContext)
    requires
        step.action.action == FighterAction::Guarding,
        !counter_is_due(step, context),
    ensures
        ({
            let after = stepped(step, context);
            let held_for = tick_later(step.motor.guard_active_timer.ticks);
            let ends = !context.input.guard || !step.motor.grounded || held_for
                >= context.tuning.guard_max_duration;
            &&& ultimate_due(step, context) ==> ultimate_begun(
                step,
                after,
                context.table.slot_definition(CharacterMoveSlot::UltimateStartup).unwrap(),
            )
            &&& !ultimate_due(step, context) && ends ==> {
                &&& after.action.action == FighterAction::Idle
                &&& after.action.elapsed.ticks == 0
                &&& after.motor.guard_active_timer.ticks == 0
                &&& after.motor.guard_cooldown_timer.remaining
                    == context.tuning.guard_restart_cooldown
                &&& after.motor.guard_start_buffer_timer.remaining == 0
                &&& after.spend == step.spend
                &&& after.motions.last() == MotionCommand::BrakeGuardHold
            }
            &&& !ultimate_due(step, context) && !ends ==> {
                &&& after.action.action == FighterAction::Guarding
                &&& after.action.elapsed.ticks == tick_later(step.action.elapsed.ticks)
                &&& after.motor.guard_active_timer.ticks == held_for
                &&& after.spend == step.spend
                &&& after.motions.last() == MotionCommand::BrakeGuardHold
            }
            &&& after.motor.grounded == step.motor.grounded
        }),
{
    reveal(acted);
    reveal(guarding);
}

} // verus!

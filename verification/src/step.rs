//! One tick of a fighter's state machine.

use vstd::prelude::*;

use crate::action::{
    FighterAction, FighterActionState, out_of_play, set_action, set_technique_action,
};
use crate::air::{
    air_attack_action, air_attack_motion, air_attack_queued, air_attacked, air_queue_ticked,
    bee_air_dash_turns, bee_shot, bee_shot_starts, can_start_ground_jump, cancelled_into,
    chick_air_cancel, dash_jumped, jumped_with_queue, queue_air_attack, queued_air_attack_ready,
    should_return_to_jumping_on_air_attack_completion, start_air_attack_by_button,
    start_dash_jump, start_jump_with_air_attack_queue, takeoff_done, takeoff_is_done,
    tick_queued_air_attack, try_start_bee_air_dash_x_shot, try_start_chick_air_attack_cancel,
};
use crate::dash::{
    cancel_dash_slide_for_action, charged, chick_interrupt_finisher, dash_should_stop, dash_slid,
    dash_trail_due, finisher_motion, finisher_turn, full_charge_ticks, pig_charge_ticked,
    pig_dash_heavy_charge_active, pig_dash_released, should_return_to_dashing_on_dash_completion,
    spec_dash_finisher_for_input, start_chick_dash_finisher_from_light_attack,
    start_dash_finisher_from_dash, start_dash_slide, start_pig_dash_heavy_release,
    tick_pig_heavy_charge,
};
use crate::feedback::Hitstop;
use crate::fighter::{
    DashDirection, FighterMeasures, FighterMotor, FighterStats, FighterTuning, MotionCommand,
    ResourceSpend,
};
use crate::guard::{
    after_counter_attempt, can_start_guard, counter_motions, counter_window_ticked, finish_guard,
    guard_counter_action_can_trigger, guard_counter_starts, guard_finished, guard_input_ticked,
    guard_newly_pressed, guard_should_end, guard_started, start_guard, tick_guard_counter_window,
    tick_guard_input, try_start_guard_counter,
};
use crate::ids::FighterId;
use crate::input::{
    FighterInput, guard_counter_trigger_pressed, jump_attack_button, pressed_raw_technique_button,
    slide_cancel_requested,
};
use crate::loadout::CharacterKind;
use crate::pending::{PendingFighterPresentationEvent, PendingFighterPresentationIntent};
use crate::presentation::FighterPresentationKind;
use crate::scalar::{Scalar, SimVec3};
use crate::sim_event::FighterLifecycleEvent;
use crate::start::{
    ActiveChickSkill, can_start_ultimate, chick_light_recall_interrupt_requested,
    owns_commandable_egg, penguin_dash_ultimate, raw_technique_special_requirement_met,
    raw_technique_starts, recall_requested, start_ultimate, technique_spend,
    try_start_penguin_dash_ultimate, try_start_raw_technique, try_start_ultimate_from_input,
    ultimate_from_input,
};
use crate::technique::{
    CharacterMoveSlot, MoveTable, TechniqueDefinition, TechniqueId, action_is_over,
    after_hitstop_tick, buffer_hitstop_followup_input, queue_chained_followup,
    refresh_technique_runtime, start_technique_by_id, technique_runtime, with_followup,
};
use crate::ticks::{ElapsedTicks, TickTimer, milliseconds_to_ticks_ceil, ticks_covering_millis};

verus! {

/// What a tick of one fighter shows to the renderer.
#[derive(Clone, Copy, Debug, PartialEq, Eq, Structural)]
pub enum StepPresentation {
    DashTrail,
    RecoveryStarted,
    RecoveryCompleted,
}

/// One fighter and what its tick asks of others: how it moves, what it pays and
/// what is shown.
#[derive(Debug)]
pub struct FighterStep {
    pub stats: FighterStats,
    pub motor: FighterMotor,
    pub action: FighterActionState,
    pub motions: Vec<MotionCommand>,
    pub spend: Option<ResourceSpend>,
    pub presentation: Option<StepPresentation>,
}

/// A fighter's tick as a mathematical value.
pub struct StepModel {
    pub stats: FighterStats,
    pub motor: FighterMotor,
    pub action: FighterActionState,
    pub motions: Seq<MotionCommand>,
    pub spend: Option<ResourceSpend>,
    pub presentation: Option<StepPresentation>,
}

impl View for FighterStep {
    type V = StepModel;

    open spec fn view(&self) -> StepModel {
        StepModel {
            stats: self.stats,
            motor: self.motor,
            action: self.action,
            motions: self.motions@,
            spend: self.spend,
            presentation: self.presentation,
        }
    }
}

impl FighterStep {
    /// A fighter whose tick has not asked for anything yet.
    pub fn new(stats: FighterStats, motor: FighterMotor, action: FighterActionState) -> (step: Self)
        ensures
            step@ == (StepModel {
                stats,
                motor,
                action,
                motions: Seq::empty(),
                spend: None,
                presentation: None,
            }),
    {
        FighterStep { stats, motor, action, motions: Vec::new(), spend: None, presentation: None }
    }
}

/// Everything outside of a fighter that its tick depends on.
pub struct StepContext<'a> {
    pub owner: FighterId,
    pub character: CharacterKind,
    pub input: FighterInput,
    pub measures: FighterMeasures,
    pub tuning: FighterTuning,
    pub table: &'a MoveTable,
    pub skills: &'a Vec<ActiveChickSkill>,
}

impl StepModel {
    pub open spec fn acting(self, action: FighterActionState) -> StepModel {
        StepModel { action, ..self }
    }

    pub open spec fn driven(self, motor: FighterMotor) -> StepModel {
        StepModel { motor, ..self }
    }

    pub open spec fn moved(self, motion: MotionCommand) -> StepModel {
        StepModel { motions: self.motions.push(motion), ..self }
    }

    pub open spec fn moved_if(self, motion: Option<MotionCommand>) -> StepModel {
        match motion {
            Some(motion) => self.moved(motion),
            None => self,
        }
    }

    pub open spec fn paying(self, spend: ResourceSpend) -> StepModel {
        StepModel { spend: Some(spend), ..self }
    }

    pub open spec fn shown(self, presentation: StepPresentation) -> StepModel {
        StepModel { presentation: Some(presentation), ..self }
    }

    /// Invulnerable for at least `ticks` ticks.
    pub open spec fn shielded(self, ticks: u32) -> StepModel {
        StepModel {
            stats: FighterStats {
                invulnerability: self.stats.invulnerability.spec_max(
                    TickTimer { remaining: ticks },
                ),
                ..self.stats
            },
            ..self
        }
    }

    /// No longer invulnerable.
    pub open spec fn exposed(self) -> StepModel {
        StepModel {
            stats: FighterStats { invulnerability: TickTimer::zero(), ..self.stats },
            ..self
        }
    }
}

/// The ticks that cover an authored time in milliseconds.
pub open spec fn ticks_of(millis: u32) -> u32 {
    ticks_covering_millis(millis as int) as u32
}

/// A clinging element one tick later: it fades, and is gone with its time or its
/// strength.
pub open spec fn carry_ticked(stats: FighterStats, decayed: Scalar) -> FighterStats {
    let timer = stats.element_carry_timer.ticked();
    if !timer.active() || stats.element_carry_strength.le(Scalar::zero()) {
        stats.without_carry()
    } else if decayed.le(Scalar::zero()) {
        FighterStats {
            element_carry: None,
            element_carry_strength: decayed,
            element_carry_timer: TickTimer::zero(),
            ..stats
        }
    } else {
        FighterStats { element_carry_strength: decayed, element_carry_timer: timer, ..stats }
    }
}

/// What every tick does first: timers run, and the technique under way is
/// brought up to date.
pub open spec fn opened(step: StepModel, context: StepContext) -> StepModel {
    StepModel {
        motor: counter_window_ticked(
            air_queue_ticked(
                guard_input_ticked(step.motor, context.input.guard, context.tuning),
            ),
        ),
        action: context.table.refreshed(step.action),
        stats: carry_ticked(
            FighterStats {
                invulnerability: step.stats.invulnerability.ticked(),
                ..step.stats
            },
            context.measures.decayed_carry_strength,
        ),
        ..step
    }
}

/// A guard held for one more tick.
pub open spec fn guard_held_on(step: StepModel) -> StepModel {
    step.acting(step.action.aged()).driven(
        FighterMotor { guard_active_timer: step.motor.guard_active_timer.next(), ..step.motor },
    ).moved(MotionCommand::BrakeGuardHold)
}

/// A tick of guarding.
#[verifier::opaque]
pub open spec fn guarding(step: StepModel, context: StepContext) -> StepModel {
    let held = guard_held_on(step);
    match ultimate_from_input(
        held.motor,
        held.stats,
        context.input,
        context.character,
        context.tuning,
        context.table,
    ) {
        Some(technique) => held.driven(guard_started(held.motor)).acting(
            FighterActionState::technique(technique),
        ).moved(MotionCommand::BrakeUltimateStart).paying(ResourceSpend::UltimateStamina),
        None => if guard_should_end(&held.motor, context.input.guard, &context.tuning) {
            held.driven(guard_finished(held.motor, context.tuning)).acting(
                held.action.switched(FighterAction::Idle),
            )
        } else {
            held
        },
    }
}

/// How long a hit stuns, in ticks.
pub open spec fn hitstun_ticks(
    action: FighterActionState,
    stats: FighterStats,
    tuning: FighterTuning,
) -> u32 {
    match action.reaction_recover_ms {
        Some(millis) => ticks_of(millis),
        None => if stats.depleted() {
            tuning.hitstun_heavy
        } else {
            tuning.hitstun_light
        },
    }
}

/// A tick of hitstun. A fighter thrown into the air for a hard landing stays
/// stunned until it lands.
#[verifier::opaque]
pub open spec fn stunned(step: StepModel, context: StepContext) -> StepModel {
    let held = step.driven(step.motor.without_bee_dash()).acting(step.action.aged());
    if !held.motor.grounded && held.motor.landing_aftermath.is_some() {
        held
    } else if held.action.elapsed.reached(
        hitstun_ticks(held.action, held.stats, context.tuning),
    ) {
        held.acting(
            held.action.switched(
                if held.motor.grounded {
                    FighterAction::Idle
                } else {
                    FighterAction::Jumping
                },
            ),
        )
    } else {
        held
    }
}

/// The time to recover that is left once getting up begins, at least one
/// millisecond.
pub open spec fn recover_after_getup(recover: Option<u32>, getup: Option<u32>) -> Option<u32> {
    match (recover, getup) {
        (Some(recover), Some(getup)) => Some(
            if recover > getup {
                (recover - getup) as u32
            } else {
                1
            },
        ),
        _ => None,
    }
}

/// A fighter that begins to get up.
pub open spec fn getting_up(action: FighterActionState) -> FighterActionState {
    FighterActionState {
        reaction_getup_ms: None,
        reaction_recover_ms: recover_after_getup(
            action.reaction_recover_ms,
            action.reaction_getup_ms,
        ),
        ..action.forced(FighterAction::GetUp).without_reaction_visual()
    }
}

/// A tick on the floor. Without an authored recovery a fighter may stand up
/// quickly or roll away after a moment.
#[verifier::opaque]
pub open spec fn floored(step: StepModel, context: StepContext) -> StepModel {
    let held = step.driven(step.motor.without_bee_dash()).acting(step.action.aged());
    let free = held.action.reaction_getup_ms.is_none() && held.action.reaction_recover_ms.is_none()
        && held.action.elapsed.reached(context.tuning.quick_stand_after);
    let getup_at = match held.action.reaction_getup_ms {
        Some(millis) => ticks_of(millis),
        None => context.tuning.knockdown_duration,
    };
    if free && context.input.jump {
        held.exposed().acting(held.action.switched(FighterAction::QuickStand))
    } else if free && context.input.dash {
        held.moved(MotionCommand::RecoveryRoll).shielded(
            context.tuning.recovery_roll_invulnerable,
        ).shown(StepPresentation::DashTrail).acting(
            held.action.switched(FighterAction::RecoveryRoll),
        )
    } else if held.action.elapsed.reached(getup_at) {
        held.shielded(context.tuning.getup_invulnerable).shown(
            StepPresentation::RecoveryStarted,
        ).acting(getting_up(held.action))
    } else {
        held
    }
}

/// A tick of getting up.
#[verifier::opaque]
pub open spec fn rising(step: StepModel, context: StepContext) -> StepModel {
    let held = step.acting(step.action.aged());
    let duration = match held.action.reaction_recover_ms {
        Some(millis) => ticks_of(millis),
        None => context.tuning.getup_duration,
    };
    if held.action.elapsed.reached(duration) {
        held.exposed().shown(StepPresentation::RecoveryCompleted).acting(
            held.action.switched(FighterAction::Idle),
        )
    } else {
        held
    }
}

/// The follow-up that starts now.
pub open spec fn followup_now(action: FighterActionState, table: &MoveTable) -> Option<
    TechniqueId,
> {
    if table.runtime(action).next_technique_open {
        action.queued_technique
    } else {
        None
    }
}

/// A tick of a light attack.
#[verifier::opaque]
pub open spec fn light_attacking(step: StepModel, context: StepContext) -> StepModel {
    let action = context.table.refreshed(step.action.aged());
    match chick_interrupt_finisher(
        step.motor,
        action,
        context.input,
        context.character,
        context.table,
    ) {
        Some(next) => StepModel {
            action: context.table.started(action, next),
            motions: step.motions + finisher_turn(next, context.character, context.measures)
                + finisher_motion(next, context.character),
            ..step
        },
        None => if recall_requested(context.owner, action, context.input, context.skills@) {
            step.acting(context.table.started(action, TechniqueId::ChickLight1))
        } else {
            let queued = with_followup(context.table, action, context.input, step.motor.grounded);
            match followup_now(queued, context.table) {
                Some(next) => step.acting(context.table.started(queued, next)),
                None => if context.table.action_over(queued) {
                    step.acting(queued.switched(FighterAction::Idle))
                } else {
                    step.acting(queued)
                },
            }
        },
    }
}

/// Actions that last as long as their technique does.
pub open spec fn spec_timed_action(action: FighterAction) -> bool {
    match action {
        FighterAction::ComboFinisher
        | FighterAction::HeavyAttack
        | FighterAction::HeavyAttack2
        | FighterAction::UltimateStartup
        | FighterAction::UltimateRush
        | FighterAction::GrabStartup
        | FighterAction::Throwing
        | FighterAction::SpecialCast
        | FighterAction::ItemPickup
        | FighterAction::ItemSwing
        | FighterAction::ItemThrow
        | FighterAction::ItemDrop
        | FighterAction::DashAttack
        | FighterAction::JumpAttack
        | FighterAction::JumpHeavyAttack
        | FighterAction::LandingRecovery
        | FighterAction::GuardCounter
        | FighterAction::GuardStep
        | FighterAction::QuickStand
        | FighterAction::RecoveryRoll => true,
        _ => false,
    }
}

/// The timed action under way after this tick's input: a charge that is held
/// keeps the attack from going on.
pub open spec fn timed_action_ticked(
    action: FighterActionState,
    context: StepContext,
) -> FighterActionState {
    let charging = pig_charge_ticked(action.aged(), context.input, context.tuning);
    let held = if charging.technique_id == Some(TechniqueId::PigHeavy)
        && !charging.charge_release_requested {
        FighterActionState {
            elapsed: charging.elapsed.min(
                ElapsedTicks { ticks: ticks_of(context.tuning.pig_heavy_attack_ms) },
            ),
            ..charging
        }
    } else {
        charging
    };
    context.table.refreshed(held)
}

/// The end of a timed action. Air attacks may end in the air, a plain dive only
/// on landing, and Penguin's dash attacks in the dash.
pub open spec fn timed_action_ended(step: StepModel) -> StepModel {
    if !step.motor.grounded && should_return_to_jumping_on_air_attack_completion(&step.action) {
        step.acting(step.action.switched(FighterAction::Jumping))
    } else if step.action.action == FighterAction::JumpAttack && !step.motor.grounded {
        step
    } else {
        let ended = step.acting(
            step.action.switched(
                if should_return_to_dashing_on_dash_completion(&step.action) {
                    FighterAction::Dashing
                } else {
                    FighterAction::Idle
                },
            ),
        );
        if step.action.action == FighterAction::GuardStep || step.action.action
            == FighterAction::QuickStand || step.action.action == FighterAction::RecoveryRoll {
            ended.exposed()
        } else {
            ended
        }
    }
}

/// A tick of a timed action.
#[verifier::opaque]
pub open spec fn timed_acting(step: StepModel, context: StepContext) -> StepModel {
    let action = timed_action_ticked(step.action, context);
    if action.action == FighterAction::DashAttack && context.input.light
        && action.branch_window_open {
        match context.table.slot_definition(CharacterMoveSlot::DashLight) {
            Some(technique) => step.acting(FighterActionState::technique(technique)),
            None => step.acting(action),
        }
    } else {
        let turned = if bee_air_dash_turns(&action, &context.measures) {
            step.acting(action).moved(MotionCommand::FaceMovement)
        } else {
            step.acting(action)
        };
        if bee_shot_starts(turned.motor, context.input, context.table) {
            shot(turned, context)
        } else {
            match chick_air_cancel(turned.motor, action, context.input) {
                Some(button) => turned.driven(
                    cancelled_into(turned.motor, button, context.table),
                ).acting(air_attack_action(action, button, context.table)).moved_if(
                    air_attack_motion(button, context.table),
                ),
                None => {
                    let queued = with_followup(
                        context.table,
                        action,
                        context.input,
                        turned.motor.grounded,
                    );
                    match followup_now(queued, context.table) {
                        Some(next) => turned.acting(context.table.started(queued, next)),
                        None => if context.table.action_over(queued) {
                            timed_action_ended(turned.acting(queued))
                        } else {
                            turned.acting(queued)
                        },
                    }
                },
            }
        }
    }
}

/// Bee's shot out of its air dash.
pub open spec fn shot(step: StepModel, context: StepContext) -> StepModel {
    let fired = step.driven(bee_shot(step.motor)).acting(
        FighterActionState::technique(
            context.table.slot_definition(CharacterMoveSlot::JumpHeavy).unwrap(),
        ),
    );
    if context.measures.moving() {
        fired.moved(MotionCommand::FaceMovement)
    } else {
        fired
    }
}

/// A held dash, with its trail.
pub open spec fn dash_held(
    step: StepModel,
    direction: DashDirection,
    tuning: FighterTuning,
) -> StepModel {
    let held = step.moved(MotionCommand::DashHold(direction));
    if dash_trail_due(held.action.elapsed, &tuning) {
        held.shown(StepPresentation::DashTrail)
    } else {
        held
    }
}

/// A tick of Pig's charge in a dash.
pub open spec fn pig_dash_charging(step: StepModel, context: StepContext) -> StepModel {
    let charging = if context.input.heavy_held {
        step.acting(charged(step.action, context.tuning))
    } else {
        step
    };
    if context.input.heavy_released || !context.input.heavy_held {
        charging.acting(pig_dash_released(charging.action, context.tuning, context.table))
    } else {
        dash_held(
            charging,
            if context.measures.moving() {
                DashDirection::Movement
            } else {
                DashDirection::Facing
            },
            context.tuning,
        )
    }
}

/// A jump out of a dash, with an air attack lined up if one was asked for.
pub open spec fn dash_jumping(step: StepModel, context: StepContext) -> StepModel {
    let jumped = dash_jumped(step.motor, context.measures.dash_carry_limit, context.tuning);
    step.driven(
        match jump_attack_button(&context.input) {
            Some(button) => air_attack_queued(jumped, button),
            None => jumped,
        },
    ).acting(step.action.switched(FighterAction::Jumping)).moved(MotionCommand::DashJump)
}

/// A tick of a dash.
#[verifier::opaque]
pub open spec fn dashing(step: StepModel, context: StepContext) -> StepModel {
    let aged = step.acting(context.table.refreshed(step.action.aged()));
    if pig_dash_heavy_charge_active(&context.input, &aged.action, context.character) {
        pig_dash_charging(aged, context)
    } else {
        match penguin_dash_ultimate(
            aged.motor,
            aged.stats,
            context.input,
            context.character,
            context.tuning,
            context.table,
        ) {
            Some(technique) => aged.driven(guard_started(aged.motor)).acting(
                FighterActionState::technique(technique),
            ).moved(MotionCommand::BrakeUltimateStart).moved(
                MotionCommand::FinisherImpulse,
            ).paying(ResourceSpend::UltimateStamina),
            None => match spec_dash_finisher_for_input(&context.input, context.table) {
                Some(next) => StepModel {
                    action: context.table.started(aged.action, next),
                    motions: aged.motions + finisher_turn(
                        next,
                        context.character,
                        context.measures,
                    ) + finisher_motion(next, context.character),
                    ..aged
                },
                None => if context.input.jump && can_start_ground_jump(&aged.motor) {
                    dash_jumping(aged, context)
                } else if context.measures.moving() {
                    dash_held(aged, DashDirection::Movement, context.tuning)
                } else if dash_should_stop(
                    aged.action.elapsed,
                    &context.measures,
                    &context.tuning,
                ) {
                    aged.driven(dash_slid(aged.motor, context.measures, context.tuning)).acting(
                        aged.action.switched(FighterAction::Idle),
                    )
                } else {
                    aged
                },
            },
        }
    }
}

/// A jump, with an air attack lined up if one was asked for.
pub open spec fn jumping_off(step: StepModel, context: StepContext) -> StepModel {
    step.driven(jumped_with_queue(step.motor, jump_attack_button(&context.input))).acting(
        step.action.switched(FighterAction::Jumping),
    ).moved(MotionCommand::Jump)
}

/// An air attack by button.
pub open spec fn air_attacking(
    step: StepModel,
    button: crate::input::TechniqueButton,
    table: &MoveTable,
) -> StepModel {
    step.driven(air_attacked(step.motor, button, table)).acting(
        air_attack_action(step.action, button, table),
    ).moved_if(air_attack_motion(button, table))
}

/// A free tick in the air.
#[verifier::opaque]
pub open spec fn airborne(step: StepModel, context: StepContext) -> StepModel {
    let floating = step.acting(step.action.switched(FighterAction::Jumping));
    if context.input.jump && can_start_ground_jump(&step.motor) {
        jumping_off(step, context)
    } else if bee_shot_starts(step.motor, context.input, context.table) {
        shot(step, context)
    } else if queued_air_attack_ready(&step.motor) {
        air_attacking(step, step.motor.queued_air_attack.unwrap(), context.table)
    } else if step.motor.queued_air_attack.is_some() {
        floating
    } else {
        match jump_attack_button(&context.input) {
            Some(button) => if step.motor.air_attack_used {
                floating
            } else if takeoff_done(&step.motor) {
                air_attacking(step, button, context.table)
            } else {
                floating.driven(air_attack_queued(step.motor, button))
            },
            None => floating,
        }
    }
}

/// A technique asked for on the ground. Nothing happens where it may not start.
#[verifier::opaque]
pub open spec fn technique_requested(
    step: StepModel,
    technique: TechniqueDefinition,
    context: StepContext,
) -> StepModel {
    if technique.action == FighterAction::UltimateStartup {
        if can_start_ultimate(&step.motor, &step.stats, &context.tuning) {
            step.driven(guard_started(step.motor)).acting(
                FighterActionState::technique(technique),
            ).moved(MotionCommand::BrakeUltimateStart).paying(ResourceSpend::UltimateStamina)
        } else {
            step
        }
    } else if technique.id == TechniqueId::ChickLight1 && !owns_commandable_egg(
        context.skills@,
        context.owner,
    ) {
        step
    } else if !raw_technique_starts(step.stats, technique) {
        step
    } else {
        let started = StepModel {
            action: FighterActionState::technique(technique),
            spend: match technique_spend(technique) {
                Some(spend) => Some(spend),
                None => step.spend,
            },
            ..step
        };
        match context.table.heavy_armor_ticks {
            Some(ticks) => if technique.id == TechniqueId::CatHeavy {
                started.shielded(ticks)
            } else {
                started
            },
            None => started,
        }
    }
}

/// The technique asked for on the ground, if any.
pub open spec fn ground_technique(context: StepContext) -> Option<TechniqueDefinition> {
    match pressed_raw_technique_button(&context.input) {
        Some(button) => context.table.raw_technique(button, true),
        None => None,
    }
}

/// The start of a dash.
pub open spec fn dash_started(step: StepModel, context: StepContext) -> StepModel {
    step.moved(
        MotionCommand::DashStart(
            if context.measures.moving() {
                DashDirection::Movement
            } else {
                DashDirection::Facing
            },
        ),
    ).shown(StepPresentation::DashTrail).driven(
        FighterMotor {
            dash_slide_timer: TickTimer::zero(),
            ..step.motor.without_dash_carry()
        },
    ).acting(step.action.switched(FighterAction::Dashing))
}

/// A free tick on the ground.
#[verifier::opaque]
pub open spec fn grounded(step: StepModel, context: StepContext, guard_pressed: bool) -> StepModel {
    if context.input.jump {
        jumping_off(step, context)
    } else {
        match ultimate_from_input(
            step.motor,
            step.stats,
            context.input,
            context.character,
            context.tuning,
            context.table,
        ) {
            Some(technique) => step.driven(guard_started(step.motor)).acting(
                FighterActionState::technique(technique),
            ).moved(MotionCommand::BrakeUltimateStart).paying(ResourceSpend::UltimateStamina),
            None => match ground_technique(context) {
                Some(technique) => technique_requested(step, technique, context),
                None => if context.input.dash {
                    dash_started(step, context)
                } else if can_start_guard(&step.motor, guard_pressed) {
                    step.driven(guard_started(step.motor)).acting(
                        step.action.switched(FighterAction::Guarding),
                    ).moved(MotionCommand::BrakeGuardStart)
                } else if context.measures.moving() {
                    step.acting(step.action.switched(FighterAction::Moving))
                } else {
                    step.acting(step.action.switched(FighterAction::Idle))
                },
            },
        }
    }
}

/// Whether a guard step comes out.
pub open spec fn guard_step_starts(step: StepModel, context: StepContext) -> bool {
    &&& context.input.guard
    &&& context.input.dash
    &&& step.motor.grounded
    &&& context.tuning.guard_step_stamina_cost.le(step.stats.stamina)
}

/// A tick without an action under way.
#[verifier::opaque]
pub open spec fn free(step: StepModel, context: StepContext, guard_pressed: bool) -> StepModel {
    if guard_step_starts(step, context) {
        step.paying(ResourceSpend::GuardStepStamina).moved(MotionCommand::GuardStep).shielded(
            context.tuning.guard_step_invulnerable,
        ).shown(StepPresentation::DashTrail).acting(
            step.action.switched(FighterAction::GuardStep),
        )
    } else {
        let turned = if context.measures.moving() {
            step.moved(MotionCommand::FaceMovement)
        } else {
            step
        };
        if turned.motor.grounded {
            grounded(turned, context, guard_pressed)
        } else {
            airborne(turned, context)
        }
    }
}

/// A tick of whatever is under way.
#[verifier::opaque]
pub open spec fn acted(step: StepModel, context: StepContext, guard_pressed: bool) -> StepModel {
    match step.action.action {
        FighterAction::Guarding => guarding(step, context),
        FighterAction::Hitstun => stunned(step, context),
        FighterAction::Knockdown => floored(step, context),
        FighterAction::GetUp => rising(step, context),
        FighterAction::GuardBroken => {
            let held = step.acting(step.action.aged());
            if held.action.elapsed.reached(context.tuning.guard_break_duration) {
                held.acting(held.action.switched(FighterAction::Idle))
            } else {
                held
            }
        },
        FighterAction::UltimateVictim => step.acting(step.action.aged()).moved(
            MotionCommand::Stop,
        ),
        FighterAction::GrabHold | FighterAction::Grabbed => step.acting(step.action.aged()).moved(
            MotionCommand::BrakeGrab,
        ),
        FighterAction::LightAttack1 | FighterAction::LightAttack2 => light_attacking(step, context),
        FighterAction::Dashing => dashing(step, context),
        _ => if spec_timed_action(step.action.action) {
            timed_acting(step, context)
        } else {
            free(step, context, guard_pressed)
        },
    }
}

/// A dash slide ends where a calm fighter asks for anything.
pub open spec fn slide_checked(step: StepModel, context: StepContext) -> StepModel {
    if step.motor.dash_slide_timer.active() && slide_cancel_requested(&context.input) && (
    step.action.action == FighterAction::Idle || step.action.action == FighterAction::Moving
        || step.action.action == FighterAction::Guarding) {
        step.driven(
            FighterMotor { dash_slide_timer: TickTimer::zero(), ..step.motor },
        ).moved(MotionCommand::DampDashSlide)
    } else {
        step
    }
}

/// The counter window closes outside of calm actions and the counter itself.
pub open spec fn counter_window_checked(step: StepModel) -> StepModel {
    if !guard_counter_action_can_trigger(step.action.action) && step.action.action
        != FighterAction::GuardCounter {
        step.driven(step.motor.without_counter_window())
    } else {
        step
    }
}

/// The rest of a tick, once its timers have run.
pub open spec fn played(step: StepModel, context: StepContext, guard_pressed: bool) -> StepModel {
    if out_of_play(step.action.action) {
        step.driven(step.motor.without_bee_dash().without_counter_window())
    } else {
        let calm = counter_window_checked(step);
        let requested = guard_counter_trigger_pressed(&context.input)
            || calm.motor.guard_counter_buffered;
        let starts = guard_counter_starts(
            calm.stats,
            calm.motor,
            calm.action,
            context.tuning,
            context.table,
            requested,
        );
        let tried = calm.driven(
            after_counter_attempt(calm.motor, context.tuning, requested, starts),
        );
        if starts {
            StepModel {
                action: FighterActionState::technique(
                    context.table.definition(TechniqueId::GuardCounter).unwrap(),
                ),
                motions: tried.motions + counter_motions(calm.motor, context.measures),
                spend: Some(ResourceSpend::GuardCounterHealth),
                ..tried
            }
        } else {
            acted(slide_checked(tried, context), context, guard_pressed)
        }
    }
}

/// One tick of a fighter.
pub open spec fn stepped(step: StepModel, context: StepContext) -> StepModel {
    played(
        opened(step, context),
        context,
        guard_newly_pressed(step.motor, context.input.guard),
    )
}

/// One tick of a fighter during hitstop: nothing moves, but a counter and a
/// follow-up are remembered.
pub open spec fn frozen(step: StepModel, context: StepContext) -> StepModel {
    StepModel {
        motor: if step.motor.guard_counter_window_timer.active() && guard_counter_trigger_pressed(
            &context.input,
        ) {
            FighterMotor { guard_counter_buffered: true, ..step.motor }
        } else {
            step.motor
        },
        action: after_hitstop_tick(context.table, step.action, context.input),
        ..step
    }
}

fn tick_element_carry(stats: &mut FighterStats, decayed: Scalar)
    ensures
        *final(stats) == carry_ticked(*old(stats), decayed),
{
    stats.element_carry_timer.tick();
    if !stats.element_carry_timer.active() || stats.element_carry_strength.le(Scalar::zero()) {
        stats.clear_carry();
    } else {
        stats.element_carry_strength = decayed;
        if stats.element_carry_strength.le(Scalar::zero()) {
            stats.element_carry = None;
            stats.element_carry_timer.clear();
        }
    }
}

fn reaction_ticks(millis: Option<u32>, otherwise: u32) -> (ticks: u32)
    ensures
        ticks == (match millis {
            Some(millis) => ticks_of(millis),
            None => otherwise,
        }),
{
    match millis {
        Some(millis) => milliseconds_to_ticks_ceil(millis),
        None => otherwise,
    }
}

fn hold_guard(step: &mut FighterStep)
    ensures
        final(step)@ == guard_held_on(old(step)@),
{
    step.action.elapsed.advance();
    step.motor.guard_active_timer.advance();
    step.motions.push(MotionCommand::BrakeGuardHold);
}

fn step_guarding(step: &mut FighterStep, context: &StepContext)
    ensures
        final(step)@ == guarding(old(step)@, *context),
{
    proof {
        reveal(guarding);
    }
    hold_guard(step);
    match try_start_ultimate_from_input(
        &mut step.motor,
        &step.stats,
        &mut step.action,
        &context.input,
        context.character,
        &context.tuning,
        context.table,
    ) {
        Some((spend, motion)) => {
            step.spend = Some(spend);
            step.motions.push(motion);
        },
        None => {
            if guard_should_end(&step.motor, context.input.guard, &context.tuning) {
                finish_guard(&mut step.motor, &mut step.action, &context.tuning);
            }
        },
    }
}

fn step_hitstun(step: &mut FighterStep, context: &StepContext)
    ensures
        final(step)@ == stunned(old(step)@, *context),
{
    proof {
        reveal(stunned);
    }
    step.motor.clear_bee_dash();
    step.action.elapsed.advance();
    if !step.motor.grounded && step.motor.landing_aftermath.is_some() {
        return ;
    }
    let unauthored: u32 = if step.stats.depleted() {
        context.tuning.hitstun_heavy
    } else {
        context.tuning.hitstun_light
    };
    let duration: u32 = reaction_ticks(step.action.reaction_recover_ms, unauthored);
    if step.action.elapsed.reached(duration) {
        if step.motor.grounded {
            set_action(&mut step.action, FighterAction::Idle);
        } else {
            set_action(&mut step.action, FighterAction::Jumping);
        }
    }
}

fn begin_getting_up(action: &mut FighterActionState)
    ensures
        *final(action) == getting_up(*old(action)),
{
    let recover = action.reaction_recover_ms;
    let getup = action.reaction_getup_ms;
    action.force(FighterAction::GetUp);
    action.reaction_getup_ms = None;
    action.reaction_recover_ms = match (recover, getup) {
        (Some(recover), Some(getup)) => Some(
            if recover > getup {
                recover - getup
            } else {
                1
            },
        ),
        _ => None,
    };
    action.clear_reaction_visual();
}

fn step_knockdown(step: &mut FighterStep, context: &StepContext)
    ensures
        final(step)@ == floored(old(step)@, *context),
{
    proof {
        reveal(floored);
    }
    step.motor.clear_bee_dash();
    step.action.elapsed.advance();
    let authored = step.action.reaction_getup_ms.is_some()
        || step.action.reaction_recover_ms.is_some();
    let free = !authored && step.action.elapsed.reached(context.tuning.quick_stand_after);
    if free && context.input.jump {
        step.stats.invulnerability.clear();
        set_action(&mut step.action, FighterAction::QuickStand);
        return ;
    }
    if free && context.input.dash {
        step.motions.push(MotionCommand::RecoveryRoll);
        step.stats.invulnerability.set_max(
            TickTimer::from_ticks(context.tuning.recovery_roll_invulnerable),
        );
        step.presentation = Some(StepPresentation::DashTrail);
        set_action(&mut step.action, FighterAction::RecoveryRoll);
        return ;
    }
    let getup_at: u32 = reaction_ticks(
        step.action.reaction_getup_ms,
        context.tuning.knockdown_duration,
    );
    if step.action.elapsed.reached(getup_at) {
        step.stats.invulnerability.set_max(
            TickTimer::from_ticks(context.tuning.getup_invulnerable),
        );
        step.presentation = Some(StepPresentation::RecoveryStarted);
        begin_getting_up(&mut step.action);
    }
}

fn step_getup(step: &mut FighterStep, context: &StepContext)
    ensures
        final(step)@ == rising(old(step)@, *context),
{
    proof {
        reveal(rising);
    }
    step.action.elapsed.advance();
    let duration: u32 = reaction_ticks(
        step.action.reaction_recover_ms,
        context.tuning.getup_duration,
    );
    if step.action.elapsed.reached(duration) {
        step.stats.invulnerability.clear();
        step.presentation = Some(StepPresentation::RecoveryCompleted);
        set_action(&mut step.action, FighterAction::Idle);
    }
}

fn step_light_attack(step: &mut FighterStep, context: &StepContext)
    ensures
        final(step)@ == light_attacking(old(step)@, *context),
{
    proof {
        reveal(light_attacking);
    }
    step.action.elapsed.advance();
    refresh_technique_runtime(&mut step.action, context.table);
    if start_chick_dash_finisher_from_light_attack(
        &step.motor,
        &mut step.action,
        &context.input,
        context.character,
        &context.measures,
        context.table,
        &mut step.motions,
    ) {
        return ;
    }
    if chick_light_recall_interrupt_requested(
        context.owner,
        &step.action,
        &context.input,
        context.skills,
    ) {
        start_technique_by_id(&mut step.action, TechniqueId::ChickLight1, context.table);
        return ;
    }
    queue_chained_followup(&mut step.action, &context.input, step.motor.grounded, context.table);
    if let Some(next) = step.action.queued_technique {
        if technique_runtime(&step.action, context.table).next_technique_open {
            start_technique_by_id(&mut step.action, next, context.table);
            return ;
        }
    }
    if action_is_over(&step.action, context.table) {
        set_action(&mut step.action, FighterAction::Idle);
    }
}

fn tick_timed_action(action: &mut FighterActionState, context: &StepContext)
    ensures
        *final(action) == timed_action_ticked(*old(action), *context),
{
    action.elapsed.advance();
    let _ = tick_pig_heavy_charge(action, &context.input, &context.tuning);
    if action.technique_id == Some(TechniqueId::PigHeavy) && !action.charge_release_requested {
        action.elapsed = action.elapsed.min(
            ElapsedTicks::from_ticks(
                milliseconds_to_ticks_ceil(context.tuning.pig_heavy_attack_ms),
            ),
        );
    }
    refresh_technique_runtime(action, context.table);
}

fn end_timed_action(step: &mut FighterStep)
    ensures
        final(step)@ == timed_action_ended(old(step)@),
{
    if !step.motor.grounded && should_return_to_jumping_on_air_attack_completion(&step.action) {
        set_action(&mut step.action, FighterAction::Jumping);
    } else if step.action.action == FighterAction::JumpAttack && !step.motor.grounded {
    } else {
        if matches!(
            step.action.action,
            FighterAction::GuardStep | FighterAction::QuickStand | FighterAction::RecoveryRoll
        ) {
            step.stats.invulnerability.clear();
        }
        if should_return_to_dashing_on_dash_completion(&step.action) {
            set_action(&mut step.action, FighterAction::Dashing);
        } else {
            set_action(&mut step.action, FighterAction::Idle);
        }
    }
}

fn step_timed_action(step: &mut FighterStep, context: &StepContext)
    ensures
        final(step)@ == timed_acting(old(step)@, *context),
{
    proof {
        reveal(timed_acting);
    }
    tick_timed_action(&mut step.action, context);
    if step.action.action == FighterAction::DashAttack && context.input.light
        && step.action.branch_window_open {
        if let Some(technique) = context.table.technique_slot(CharacterMoveSlot::DashLight) {
            set_technique_action(&mut step.action, technique);
        }
        return ;
    }
    if bee_air_dash_turns(&step.action, &context.measures) {
        step.motions.push(MotionCommand::FaceMovement);
    }
    if try_start_bee_air_dash_x_shot(
        &mut step.motor,
        &mut step.action,
        &context.input,
        &context.measures,
        context.table,
        &mut step.motions,
    ) {
        return ;
    }
    if let Some(motion) = try_start_chick_air_attack_cancel(
        &mut step.motor,
        &mut step.action,
        &context.input,
        context.table,
    ) {
        if let Some(motion) = motion {
            step.motions.push(motion);
        }
        return ;
    }
    queue_chained_followup(&mut step.action, &context.input, step.motor.grounded, context.table);
    if let Some(next) = step.action.queued_technique {
        if technique_runtime(&step.action, context.table).next_technique_open {
            start_technique_by_id(&mut step.action, next, context.table);
            return ;
        }
    }
    if action_is_over(&step.action, context.table) {
        end_timed_action(step);
    }
}

fn hold_dash(step: &mut FighterStep, direction: DashDirection, tuning: &FighterTuning)
    ensures
        final(step)@ == dash_held(old(step)@, direction, *tuning),
{
    step.motions.push(MotionCommand::DashHold(direction));
    if dash_trail_due(step.action.elapsed, tuning) {
        step.presentation = Some(StepPresentation::DashTrail);
    }
}

fn step_pig_dash_charge(step: &mut FighterStep, context: &StepContext)
    ensures
        final(step)@ == pig_dash_charging(old(step)@, *context),
{
    if context.input.heavy_held {
        if step.action.charge_elapsed.ticks < full_charge_ticks(&context.tuning).ticks {
            step.action.charge_elapsed.advance();
        }
    }
    if context.input.heavy_released || !context.input.heavy_held {
        start_pig_dash_heavy_release(&mut step.action, &context.tuning, context.table);
        return ;
    }
    let direction = if context.measures.moving() {
        DashDirection::Movement
    } else {
        DashDirection::Facing
    };
    hold_dash(step, direction, &context.tuning);
}

fn step_dash(step: &mut FighterStep, context: &StepContext)
    ensures
        final(step)@ == dashing(old(step)@, *context),
{
    proof {
        reveal(dashing);
    }
    step.action.elapsed.advance();
    refresh_technique_runtime(&mut step.action, context.table);
    if pig_dash_heavy_charge_active(&context.input, &step.action, context.character) {
        step_pig_dash_charge(step, context);
        return ;
    }
    if let Some((spend, brake, lunge)) = try_start_penguin_dash_ultimate(
        &mut step.motor,
        &step.stats,
        &mut step.action,
        &context.input,
        context.character,
        &context.tuning,
        context.table,
    ) {
        step.spend = Some(spend);
        step.motions.push(brake);
        step.motions.push(lunge);
        return ;
    }
    if start_dash_finisher_from_dash(
        &mut step.action,
        &context.input,
        context.character,
        &context.measures,
        context.table,
        &mut step.motions,
    ) {
        return ;
    }
    if context.input.jump && can_start_ground_jump(&step.motor) {
        let queued_attack = jump_attack_button(&context.input);
        let motion = start_dash_jump(
            &mut step.motor,
            &mut step.action,
            context.measures.dash_carry_limit,
            &context.tuning,
        );
        if let Some(button) = queued_attack {
            queue_air_attack(&mut step.motor, button);
        }
        step.motions.push(motion);
        return ;
    }
    if context.measures.moving() {
        hold_dash(step, DashDirection::Movement, &context.tuning);
        return ;
    }
    if dash_should_stop(step.action.elapsed, &context.measures, &context.tuning) {
        start_dash_slide(&mut step.motor, &context.measures, &context.tuning);
        set_action(&mut step.action, FighterAction::Idle);
    }
}

fn jump_off(step: &mut FighterStep, context: &StepContext)
    ensures
        final(step)@ == jumping_off(old(step)@, *context),
{
    let queued_attack = jump_attack_button(&context.input);
    let motion = start_jump_with_air_attack_queue(
        &mut step.motor,
        &mut step.action,
        queued_attack,
    );
    step.motions.push(motion);
}

fn attack_in_air(step: &mut FighterStep, button: crate::input::TechniqueButton, table: &MoveTable)
    ensures
        final(step)@ == air_attacking(old(step)@, button, table),
{
    if let Some(motion) = start_air_attack_by_button(
        &mut step.motor,
        &mut step.action,
        button,
        table,
    ) {
        step.motions.push(motion);
    }
}

fn step_airborne(step: &mut FighterStep, context: &StepContext)
    ensures
        final(step)@ == airborne(old(step)@, *context),
{
    proof {
        reveal(airborne);
    }
    if context.input.jump && can_start_ground_jump(&step.motor) {
        jump_off(step, context);
        return ;
    }
    if try_start_bee_air_dash_x_shot(
        &mut step.motor,
        &mut step.action,
        &context.input,
        &context.measures,
        context.table,
        &mut step.motions,
    ) {
        return ;
    }
    if queued_air_attack_ready(&step.motor) {
        if let Some(button) = step.motor.queued_air_attack {
            attack_in_air(step, button, context.table);
        }
        return ;
    }
    if step.motor.queued_air_attack.is_some() {
        set_action(&mut step.action, FighterAction::Jumping);
        return ;
    }
    match jump_attack_button(&context.input) {
        Some(button) => {
            if step.motor.air_attack_used {
                set_action(&mut step.action, FighterAction::Jumping);
            } else if takeoff_is_done(&step.motor) {
                attack_in_air(step, button, context.table);
            } else {
                queue_air_attack(&mut step.motor, button);
                set_action(&mut step.action, FighterAction::Jumping);
            }
        },
        None => {
            set_action(&mut step.action, FighterAction::Jumping);
        },
    }
}

fn request_technique(step: &mut FighterStep, technique: TechniqueDefinition, context: &StepContext)
    ensures
        final(step)@ == technique_requested(old(step)@, technique, *context),
{
    proof {
        reveal(technique_requested);
    }
    if technique.action == FighterAction::UltimateStartup {
        if can_start_ultimate(&step.motor, &step.stats, &context.tuning) {
            let (spend, motion) = start_ultimate(&mut step.motor, &mut step.action, technique);
            step.spend = Some(spend);
            step.motions.push(motion);
        }
        return ;
    }
    if !raw_technique_special_requirement_met(context.owner, technique, context.skills) {
        return ;
    }
    match try_start_raw_technique(&step.stats, &mut step.action, technique) {
        Some(spend) => {
            if spend.is_some() {
                step.spend = spend;
            }
        },
        None => {
            return ;
        },
    }
    if technique.id == TechniqueId::CatHeavy {
        if let Some(ticks) = context.table.heavy_armor_ticks {
            step.stats.invulnerability.set_max(TickTimer::from_ticks(ticks));
        }
    }
}

fn start_dash(step: &mut FighterStep, context: &StepContext)
    ensures
        final(step)@ == dash_started(old(step)@, *context),
{
    let direction = if context.measures.moving() {
        DashDirection::Movement
    } else {
        DashDirection::Facing
    };
    step.motions.push(MotionCommand::DashStart(direction));
    step.presentation = Some(StepPresentation::DashTrail);
    step.motor.dash_slide_timer.clear();
    step.motor.clear_dash_carry();
    set_action(&mut step.action, FighterAction::Dashing);
}

fn step_grounded(step: &mut FighterStep, context: &StepContext, guard_pressed: bool)
    requires
        old(step).motor.grounded,
    ensures
        final(step)@ == grounded(old(step)@, *context, guard_pressed),
{
    proof {
        reveal(grounded);
    }
    if context.input.jump && can_start_ground_jump(&step.motor) {
        jump_off(step, context);
        return ;
    }
    if let Some((spend, motion)) = try_start_ultimate_from_input(
        &mut step.motor,
        &step.stats,
        &mut step.action,
        &context.input,
        context.character,
        &context.tuning,
        context.table,
    ) {
        step.spend = Some(spend);
        step.motions.push(motion);
        return ;
    }
    if let Some(button) = pressed_raw_technique_button(&context.input) {
        if let Some(technique) = context.table.raw_technique_for(button, step.motor.grounded) {
            request_technique(step, technique, context);
            return ;
        }
    }
    if context.input.dash {
        start_dash(step, context);
        return ;
    }
    if can_start_guard(&step.motor, guard_pressed) {
        let motion = start_guard(&mut step.motor, &mut step.action);
        step.motions.push(motion);
    } else if context.measures.moving() {
        set_action(&mut step.action, FighterAction::Moving);
    } else {
        set_action(&mut step.action, FighterAction::Idle);
    }
}

fn step_free(step: &mut FighterStep, context: &StepContext, guard_pressed: bool)
    ensures
        final(step)@ == free(old(step)@, *context, guard_pressed),
{
    proof {
        reveal(free);
    }
    if context.input.guard && context.input.dash && step.motor.grounded
        && context.tuning.guard_step_stamina_cost.le(step.stats.stamina) {
        step.spend = Some(ResourceSpend::GuardStepStamina);
        step.motions.push(MotionCommand::GuardStep);
        step.stats.invulnerability.set_max(
            TickTimer::from_ticks(context.tuning.guard_step_invulnerable),
        );
        step.presentation = Some(StepPresentation::DashTrail);
        set_action(&mut step.action, FighterAction::GuardStep);
        return ;
    }
    if context.measures.moving() {
        step.motions.push(MotionCommand::FaceMovement);
    }
    if step.motor.grounded {
        step_grounded(step, context, guard_pressed);
    } else {
        step_airborne(step, context);
    }
}

fn timed_action(action: FighterAction) -> (timed: bool)
    ensures
        timed == spec_timed_action(action),
{
    matches!(
        action,
        FighterAction::ComboFinisher | FighterAction::HeavyAttack | FighterAction::HeavyAttack2
            | FighterAction::UltimateStartup | FighterAction::UltimateRush
            | FighterAction::GrabStartup | FighterAction::Throwing | FighterAction::SpecialCast
            | FighterAction::ItemPickup | FighterAction::ItemSwing | FighterAction::ItemThrow
            | FighterAction::ItemDrop | FighterAction::DashAttack | FighterAction::JumpAttack
            | FighterAction::JumpHeavyAttack | FighterAction::LandingRecovery
            | FighterAction::GuardCounter | FighterAction::GuardStep | FighterAction::QuickStand
            | FighterAction::RecoveryRoll
    )
}

fn step_action(step: &mut FighterStep, context: &StepContext, guard_pressed: bool)
    ensures
        final(step)@ == acted(old(step)@, *context, guard_pressed),
{
    proof {
        reveal(acted);
    }
    match step.action.action {
        FighterAction::Guarding => step_guarding(step, context),
        FighterAction::Hitstun => step_hitstun(step, context),
        FighterAction::Knockdown => step_knockdown(step, context),
        FighterAction::GetUp => step_getup(step, context),
        FighterAction::GuardBroken => {
            step.action.elapsed.advance();
            if step.action.elapsed.reached(context.tuning.guard_break_duration) {
                set_action(&mut step.action, FighterAction::Idle);
            }
        },
        FighterAction::UltimateVictim => {
            step.action.elapsed.advance();
            step.motions.push(MotionCommand::Stop);
        },
        FighterAction::GrabHold | FighterAction::Grabbed => {
            step.action.elapsed.advance();
            step.motions.push(MotionCommand::BrakeGrab);
        },
        FighterAction::LightAttack1 | FighterAction::LightAttack2 => step_light_attack(
            step,
            context,
        ),
        FighterAction::Dashing => step_dash(step, context),
        _ => {
            if timed_action(step.action.action) {
                step_timed_action(step, context);
            } else {
                step_free(step, context, guard_pressed);
            }
        },
    }
}

fn open_tick(step: &mut FighterStep, context: &StepContext) -> (guard_pressed: bool)
    ensures
        final(step)@ == opened(old(step)@, *context),
        guard_pressed == guard_newly_pressed(old(step).motor, context.input.guard),
{
    let guard_pressed = tick_guard_input(&mut step.motor, context.input.guard, &context.tuning);
    tick_queued_air_attack(&mut step.motor);
    tick_guard_counter_window(&mut step.motor);
    refresh_technique_runtime(&mut step.action, context.table);
    step.stats.invulnerability.tick();
    tick_element_carry(&mut step.stats, context.measures.decayed_carry_strength);
    guard_pressed
}

fn check_counter_window(step: &mut FighterStep)
    ensures
        final(step)@ == counter_window_checked(old(step)@),
{
    if !guard_counter_action_can_trigger(step.action.action) && step.action.action
        != FighterAction::GuardCounter {
        step.motor.clear_guard_counter_window();
    }
}

fn check_slide(step: &mut FighterStep, context: &StepContext)
    ensures
        final(step)@ == slide_checked(old(step)@, *context),
{
    if step.motor.dash_slide_timer.active() && slide_cancel_requested(&context.input) && matches!(
        step.action.action,
        FighterAction::Idle | FighterAction::Moving | FighterAction::Guarding
    ) {
        if let Some(motion) = cancel_dash_slide_for_action(&mut step.motor) {
            step.motions.push(motion);
        }
    }
}

fn play_tick(step: &mut FighterStep, context: &StepContext, guard_pressed: bool)
    ensures
        final(step)@ == played(old(step)@, *context, guard_pressed),
{
    if out_of_play(step.action.action) {
        step.motor.clear_bee_dash();
        step.motor.clear_guard_counter_window();
        return ;
    }
    check_counter_window(step);
    let requested = guard_counter_trigger_pressed(&context.input)
        || step.motor.guard_counter_buffered;
    if try_start_guard_counter(
        &step.stats,
        &mut step.motor,
        &mut step.action,
        &context.measures,
        &context.tuning,
        context.table,
        requested,
        &mut step.motions,
    ) {
        step.spend = Some(ResourceSpend::GuardCounterHealth);
        return ;
    }
    check_slide(step, context);
    step_action(step, context, guard_pressed);
}

/// One tick of a fighter's state machine; in hitstop only its buffers move.
pub fn update_fighter_state(step: &mut FighterStep, context: &StepContext, hitstop: &Hitstop)
    ensures
        final(step)@ == (if hitstop.active() {
            frozen(old(step)@, *context)
        } else {
            stepped(old(step)@, *context)
        }),
{
    if hitstop.active() {
        if step.motor.guard_counter_window_timer.active() && guard_counter_trigger_pressed(
            &context.input,
        ) {
            step.motor.guard_counter_buffered = true;
        }
        buffer_hitstop_followup_input(&mut step.action, &context.input, context.table);
        return ;
    }
    let guard_pressed = open_tick(step, context);
    play_tick(step, context, guard_pressed);
}

/// The event and payload behind what a tick shows. A recovery flash stands above
/// the fighter, a trail behind its direction.
pub open spec fn step_intent(
    owner: FighterId,
    name: &'static str,
    presentation: StepPresentation,
    position: SimVec3,
    raised_position: SimVec3,
    direction: SimVec3,
) -> PendingFighterPresentationIntent {
    match presentation {
        StepPresentation::DashTrail => PendingFighterPresentationIntent {
            fighter: owner,
            fighter_name: name,
            event: PendingFighterPresentationEvent::Lifecycle(FighterLifecycleEvent::DashTrail),
            kind: FighterPresentationKind::DashTrail { position, direction },
        },
        StepPresentation::RecoveryStarted => PendingFighterPresentationIntent {
            fighter: owner,
            fighter_name: name,
            event: PendingFighterPresentationEvent::Lifecycle(
                FighterLifecycleEvent::RecoveryStarted,
            ),
            kind: FighterPresentationKind::RecoveryStarted { position: raised_position },
        },
        StepPresentation::RecoveryCompleted => PendingFighterPresentationIntent {
            fighter: owner,
            fighter_name: name,
            event: PendingFighterPresentationEvent::Lifecycle(
                FighterLifecycleEvent::RecoveryCompleted,
            ),
            kind: FighterPresentationKind::RecoveryCompleted,
        },
    }
}

pub fn pending_step_intent(
    owner: FighterId,
    name: &'static str,
    presentation: StepPresentation,
    position: SimVec3,
    raised_position: SimVec3,
    direction: SimVec3,
) -> (intent: PendingFighterPresentationIntent)
    ensures
        intent == step_intent(owner, name, presentation, position, raised_position, direction),
{
    let (event, kind) = match presentation {
        StepPresentation::DashTrail => (
            FighterLifecycleEvent::DashTrail,
            FighterPresentationKind::DashTrail { position, direction },
        ),
        StepPresentation::RecoveryStarted => (
            FighterLifecycleEvent::RecoveryStarted,
            FighterPresentationKind::RecoveryStarted { position: raised_position },
        ),
        StepPresentation::RecoveryCompleted => (
            FighterLifecycleEvent::RecoveryCompleted,
            FighterPresentationKind::RecoveryCompleted,
        ),
    };
    PendingFighterPresentationIntent {
        fighter: owner,
        fighter_name: name,
        event: PendingFighterPresentationEvent::Lifecycle(event),
        kind,
    }
}

/// A fighter that is out of the arena is left alone: its action and resources
/// stay, and it neither moves nor pays nor shows anything.
pub proof fn out_of_play_fighters_do_nothing(step: StepModel, context: StepContext)
    requires
        out_of_play(step.action.action),
    ensures
        stepped(step, context).action.action == step.action.action,
        stepped(step, context).action.elapsed == step.action.elapsed,
        stepped(step, context).motions == step.motions,
        stepped(step, context).spend == step.spend,
        stepped(step, context).presentation == step.presentation,
        stepped(step, context).stats.health == step.stats.health,
        stepped(step, context).stats.stamina == step.stats.stamina,
{
}

/// Hitstop freezes a fighter: no time passes for its action, nothing moves and
/// nothing is paid or shown.
pub proof fn hitstop_freezes_fighters(step: StepModel, context: StepContext)
    ensures
        frozen(step, context).action.action == step.action.action,
        frozen(step, context).action.elapsed == step.action.elapsed,
        frozen(step, context).action.queued_technique == step.action.queued_technique,
        frozen(step, context).stats == step.stats,
        frozen(step, context).motions == step.motions,
        frozen(step, context).spend == step.spend,
        frozen(step, context).presentation == step.presentation,
{
}

/// What a tick asks to be paid is there: stamina costs are covered, and a
/// counter leaves some health.
pub open spec fn spend_covered(spend: ResourceSpend, stats: FighterStats, tuning: FighterTuning) -> bool {
    match spend {
        ResourceSpend::UltimateStamina => tuning.ultimate_stamina_cost.le(stats.stamina),
        ResourceSpend::GuardStepStamina => tuning.guard_step_stamina_cost.le(stats.stamina),
        ResourceSpend::TechniqueStamina(cost) => !stats.stamina.lt(cost),
        ResourceSpend::GuardCounterHealth => !stats.health.le(tuning.guard_counter_health_cost),
    }
}

proof fn lemma_technique_spends_are_covered(step: StepModel, context: StepContext, technique: TechniqueDefinition)
    requires
        step.spend.is_none(),
    ensures
        ({
            let after = technique_requested(step, technique, context);
            after.spend.is_some() ==> spend_covered(after.spend.unwrap(), step.stats, context.tuning)
        }),
{
    reveal(technique_requested);
}

proof fn lemma_grounded_spends_are_covered(step: StepModel, context: StepContext, guard_pressed: bool)
    requires
        step.spend.is_none(),
    ensures
        ({
            let after = grounded(step, context, guard_pressed);
            after.spend.is_some() ==> spend_covered(after.spend.unwrap(), step.stats, context.tuning)
        }),
{
    reveal(grounded);
    if ground_technique(context).is_some() {
        lemma_technique_spends_are_covered(step, context, ground_technique(context).unwrap());
    }
}

proof fn lemma_airborne_spends_are_covered(step: StepModel, context: StepContext)
    requires
        step.spend.is_none(),
    ensures
        ({
            let after = airborne(step, context);
            after.spend.is_some() ==> spend_covered(after.spend.unwrap(), step.stats, context.tuning)
        }),
{
    reveal(airborne);
}

proof fn lemma_free_spends_are_covered(step: StepModel, context: StepContext, guard_pressed: bool)
    requires
        step.spend.is_none(),
    ensures
        ({
            let after = free(step, context, guard_pressed);
            after.spend.is_some() ==> spend_covered(after.spend.unwrap(), step.stats, context.tuning)
        }),
{
    reveal(free);
    let turned = if context.measures.moving() {
        step.moved(MotionCommand::FaceMovement)
    } else {
        step
    };
    lemma_grounded_spends_are_covered(turned, context, guard_pressed);
    lemma_airborne_spends_are_covered(turned, context);
}

proof fn lemma_guarding_spends_are_covered(step: StepModel, context: StepContext)
    requires
        step.spend.is_none(),
    ensures
        ({
            let after = guarding(step, context);
            after.spend.is_some() ==> spend_covered(after.spend.unwrap(), step.stats, context.tuning)
        }),
{
    reveal(guarding);
}

proof fn lemma_dashing_spends_are_covered(step: StepModel, context: StepContext)
    requires
        step.spend.is_none(),
    ensures
        ({
            let after = dashing(step, context);
            after.spend.is_some() ==> spend_covered(after.spend.unwrap(), step.stats, context.tuning)
        }),
{
    reveal(dashing);
}

proof fn lemma_other_actions_spend_nothing(step: StepModel, context: StepContext)
    ensures
        stunned(step, context).spend == step.spend,
        floored(step, context).spend == step.spend,
        rising(step, context).spend == step.spend,
        light_attacking(step, context).spend == step.spend,
{
    reveal(stunned);
    reveal(floored);
    reveal(rising);
    reveal(light_attacking);
}

proof fn lemma_timed_actions_spend_nothing(step: StepModel, context: StepContext)
    ensures
        timed_acting(step, context).spend == step.spend,
{
    reveal(timed_acting);
}

proof fn lemma_acted_spends_are_covered(step: StepModel, context: StepContext, guard_pressed: bool)
    requires
        step.spend.is_none(),
    ensures
        ({
            let after = acted(step, context, guard_pressed);
            after.spend.is_some() ==> spend_covered(after.spend.unwrap(), step.stats, context.tuning)
        }),
{
    reveal(acted);
    lemma_guarding_spends_are_covered(step, context);
    lemma_dashing_spends_are_covered(step, context);
    lemma_free_spends_are_covered(step, context, guard_pressed);
    lemma_other_actions_spend_nothing(step, context);
    lemma_timed_actions_spend_nothing(step, context);
}

/// A fighter never pays what it does not have.
pub proof fn spends_are_covered(step: StepModel, context: StepContext)
    requires
        step.spend.is_none(),
    ensures
        stepped(step, context).spend.is_some() ==> spend_covered(
            stepped(step, context).spend.unwrap(),
            step.stats,
            context.tuning,
        ),
{
    let ready = opened(step, context);
    let pressed = guard_newly_pressed(step.motor, context.input.guard);
    let calm = counter_window_checked(ready);
    let requested = guard_counter_trigger_pressed(&context.input)
        || calm.motor.guard_counter_buffered;
    let starts = guard_counter_starts(
        calm.stats,
        calm.motor,
        calm.action,
        context.tuning,
        context.table,
        requested,
    );
    let tried = calm.driven(after_counter_attempt(calm.motor, context.tuning, requested, starts));
    lemma_acted_spends_are_covered(slide_checked(tried, context), context, pressed);
}

/// A guard never outlasts its longest time: the tick in which it reaches it
/// ends it, unless an ultimate or a counter comes out of it instead.
pub proof fn guards_end_in_time(step: StepModel, context: StepContext)
    requires
        step.action.action == FighterAction::Guarding,
        step.motor.guard_active_timer.next().reached(context.tuning.guard_max_duration),
        table_keeps_ultimates(context),
    ensures
        guarding(step, context).action.action != FighterAction::Guarding,
{
    reveal(guarding);
}

/// Ultimates of the loadout are actions of their own.
pub open spec fn table_keeps_ultimates(context: StepContext) -> bool {
    match context.table.slot_definition(CharacterMoveSlot::UltimateStartup) {
        Some(technique) => technique.action != FighterAction::Guarding,
        None => true,
    }
}

} // verus!

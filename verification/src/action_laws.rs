//! How attacks and other timed actions go on, chain and end.

use vstd::prelude::*;

use crate::action::{FighterAction, FighterActionState, with_pressed_button};
use crate::air::{
    air_attack_action, air_attack_motion, bee_shot_starts, cancelled_into, chick_air_cancel,
};
use crate::air_laws::shot_due;
use crate::dash_laws::finisher_motions;
use crate::fighter::{FighterStats, MotionCommand};
use crate::ground_laws::technique_begun;
use crate::guard::after_counter_attempt;
use crate::input::{FighterInput, TechniqueButton, guard_counter_trigger_pressed};
use crate::loadout::CharacterKind;
use crate::reaction_laws::{outlasts, points_far, tick_later};
use crate::start::{ChickSkillKind, owns_launched_egg};
use crate::step::{
    StepContext, StepModel, acted, counter_window_checked, followup_now, frozen, light_attacking,
    opened, shot, stepped, timed_acting, timed_action_ended, timed_action_ticked,
};
use crate::technique::{
    ActiveTechnique, CharacterMoveSlot, ChainRule, MoveTable, TechniqueDefinition, TechniqueId,
    TickWindow, any_window_open, chain_context, chained_in, with_followup,
};
use crate::ticks::ticks_cover_exactly;

verus! {

/// The technique under way is the one that its row says.
pub open spec fn under_way(step: StepModel, context: StepContext, row: ActiveTechnique) -> bool {
    &&& context.table.active_for(step.action) == Some(row)
    &&& step.action.technique_id == Some(row.id)
}

/// A window is open so many ticks into an action.
pub open spec fn open_at(windows: Seq<TickWindow>, ticks: int) -> bool {
    exists|i: int|
        0 <= i < windows.len() && (#[trigger] windows[i]).opens <= ticks && ticks
            < windows[i].closes
}

/// None of the buttons that start techniques is pressed.
pub open spec fn no_button(input: FighterInput) -> bool {
    !input.ultimate && !input.grab && !input.light && !input.heavy && !input.raw_light_pressed
        && !input.raw_heavy_pressed
}

/// Nothing is lined up or remembered.
pub open spec fn nothing_waits(action: FighterActionState) -> bool {
    action.queued_technique.is_none() && action.buffered_button.is_none()
}

/// A tick of an action that no counter can come out of, up to the action itself.
pub proof fn lemma_busy_tick(step: StepModel, context: StepContext) -> (ready: StepModel)
    requires
        step.action.action != FighterAction::Idle,
        step.action.action != FighterAction::Moving,
        step.action.action != FighterAction::Guarding,
        step.action.action != FighterAction::RingOut,
        step.action.action != FighterAction::Respawning,
    ensures
        stepped(step, context) == acted(
            ready,
            context,
            context.input.guard && !step.motor.guard_was_requested,
        ),
        ready.action == context.table.refreshed(step.action),
        ready.motions == step.motions,
        ready.spend == step.spend,
        ready.presentation == step.presentation,
        ready.stats.stamina == step.stats.stamina,
        ready.stats.health == step.stats.health,
        ready.stats.invulnerability == step.stats.invulnerability.ticked(),
        ready.motor.grounded == step.motor.grounded,
        ready.motor.ledge_grace_timer == step.motor.ledge_grace_timer,
        ready.motor.bee_air_dash_shot_available == step.motor.bee_air_dash_shot_available,
        ready.motor.air_attack_used == step.motor.air_attack_used,
{
    let opening = opened(step, context);
    let calm = counter_window_checked(opening);
    let requested = guard_counter_trigger_pressed(&context.input)
        || calm.motor.guard_counter_buffered;
    calm.driven(after_counter_attempt(calm.motor, context.tuning, requested, false))
}

/// Chick turns its first light attack into an attack out of a dash, with buttons that
/// are merely held, too.
pub open spec fn chick_attack_due(step: StepModel, context: StepContext) -> Option<TechniqueId> {
    let input = context.input;
    if context.character == CharacterKind::Chick && step.action.technique_id == Some(
        TechniqueId::ChickLight1,
    ) && step.motor.grounded && input.dash {
        if input.heavy || input.heavy_held || input.raw_heavy_pressed {
            context.table.slot_technique(CharacterMoveSlot::DashHeavy)
        } else if input.light || input.light_held || input.raw_light_pressed {
            context.table.slot_technique(CharacterMoveSlot::DashLight)
        } else {
            None
        }
    } else {
        None
    }
}

/// Chick's egg is in flight and may be recalled by pressing again.
pub open spec fn recall_due(step: StepModel, context: StepContext) -> bool {
    &&& step.action.technique_id == Some(TechniqueId::ChickLight1)
    &&& context.input.raw_light_pressed
    &&& exists|i: int|
        0 <= i < context.skills@.len() && (#[trigger] context.skills@[i]).owner == context.owner
            && context.skills@[i].kind == ChickSkillKind::OrbitEggLaunch
}

/// A light attack before and after a tick.
pub open spec fn chains_or_ends(
    step: StepModel,
    after: StepModel,
    context: StepContext,
    row: ActiveTechnique,
) -> bool {
    let ticks = tick_later(step.action.elapsed.ticks);
    let chick = chick_attack_due(step, context);
    let recalled = chick.is_none() && recall_due(step, context);
    let plain = chick.is_none() && !recalled;
    let queued = step.action.queued_technique;
    &&& after.spend == step.spend
    &&& chick.is_some() && context.table.definition(chick.unwrap()).is_some() ==> {
        &&& technique_begun(after, context.table.definition(chick.unwrap()).unwrap())
        &&& after.motions =~= step.motions + finisher_motions(context, chick.unwrap())
    }
    &&& recalled && context.table.definition(TechniqueId::ChickLight1).is_some() ==> {
        &&& technique_begun(
            after,
            context.table.definition(TechniqueId::ChickLight1).unwrap(),
        )
        &&& after.motions == step.motions
    }
    &&& plain && queued.is_some() && open_at(row.next_technique@, ticks)
        && context.table.definition(queued.unwrap()).is_some() ==> technique_begun(
        after,
        context.table.definition(queued.unwrap()).unwrap(),
    ) && after.motions == step.motions
    &&& plain && (queued.is_some() && !open_at(row.next_technique@, ticks)
        || nothing_waits(step.action) && no_button(context.input)) ==> {
        &&& ticks >= row.duration ==> after.action.action == FighterAction::Idle
            && after.action.elapsed.ticks == 0
        &&& ticks < row.duration ==> after.action.action == step.action.action
            && after.action.elapsed.ticks == ticks && after.action.queued_technique
            == queued && after.action.cancel_window_open == open_at(row.cancel@, ticks)
            && after.action.branch_window_open == open_at(row.branch@, ticks)
    }
}

proof fn lemma_light_tick(step: StepModel, context: StepContext, row: ActiveTechnique)
    requires
        step.action.action == FighterAction::LightAttack1 || step.action.action
            == FighterAction::LightAttack2,
        under_way(step, context, row),
        row.id != TechniqueId::PigHeavy,
    ensures
        chains_or_ends(step, light_attacking(step, context), context, row),
{
    let action = context.table.refreshed(step.action.aged());
    assert(context.table.active_for(step.action.aged()) == Some(row));
    assert(context.table.active_for(action) == Some(row));
    assert(any_window_open(row.next_technique@, action.elapsed) == open_at(
        row.next_technique@,
        action.elapsed.ticks as int,
    ));
    assert(any_window_open(row.cancel@, action.elapsed) == open_at(
        row.cancel@,
        action.elapsed.ticks as int,
    ));
    assert(any_window_open(row.branch@, action.elapsed) == open_at(
        row.branch@,
        action.elapsed.ticks as int,
    ));
    assert(owns_launched_egg(context.skills@, context.owner) == exists|i: int|
        0 <= i < context.skills@.len() && (#[trigger] context.skills@[i]).owner == context.owner
            && context.skills@[i].kind == ChickSkillKind::OrbitEggLaunch);
    assert(step.action.queued_technique.is_some() || nothing_waits(step.action) && no_button(
        context.input,
    ) ==> with_followup(context.table, action, context.input, step.motor.grounded) == action);
    reveal(light_attacking);
}

/// A light attack is interrupted by Chick's attack out of a dash, then by its recall.
/// Otherwise the technique that is lined up starts in the first tick of a window for
/// it; without one the attack ends after its time, and until then it goes on.
pub proof fn light_attacks_chain_or_end(step: StepModel, context: StepContext, row: ActiveTechnique)
    requires
        step.action.action == FighterAction::LightAttack1 || step.action.action
            == FighterAction::LightAttack2,
        under_way(step, context, row),
        row.id != TechniqueId::PigHeavy,
    ensures
        chains_or_ends(step, stepped(step, context), context, row),
{
    let ready = lemma_busy_tick(step, context);
    assert(context.table.active_for(ready.action) == Some(row));
    lemma_acted(ready, context, context.input.guard && !step.motor.guard_was_requested);
    lemma_light_tick(ready, context, row);
}

/// An action that lasts as long as its technique does.
pub open spec fn lasts(action: FighterAction) -> bool {
    match action {
        FighterAction::ComboFinisher => true,
        FighterAction::HeavyAttack | FighterAction::HeavyAttack2 => true,
        FighterAction::UltimateStartup | FighterAction::UltimateRush => true,
        FighterAction::GrabStartup | FighterAction::Throwing => true,
        FighterAction::SpecialCast => true,
        FighterAction::ItemPickup | FighterAction::ItemSwing => true,
        FighterAction::ItemThrow | FighterAction::ItemDrop => true,
        FighterAction::DashAttack => true,
        FighterAction::JumpAttack | FighterAction::JumpHeavyAttack => true,
        FighterAction::LandingRecovery => true,
        FighterAction::GuardCounter | FighterAction::GuardStep => true,
        FighterAction::QuickStand | FighterAction::RecoveryRoll => true,
        _ => false,
    }
}

/// A timed action gets a timed tick, and a light attack one of its own.
proof fn lemma_acted(step: StepModel, context: StepContext, guard_pressed: bool)
    ensures
        lasts(step.action.action) ==> acted(step, context, guard_pressed) == timed_acting(
            step,
            context,
        ),
        step.action.action == FighterAction::LightAttack1 || step.action.action
            == FighterAction::LightAttack2 ==> acted(step, context, guard_pressed)
            == light_attacking(step, context),
{
    reveal(acted);
}

/// How long a technique runs: a heavy attack that has not hit may take longer.
pub open spec fn runs_for(step: StepModel, row: ActiveTechnique) -> u32 {
    if (step.action.action == FighterAction::HeavyAttack || step.action.action
        == FighterAction::HeavyAttack2) && !step.action.confirmed_hit {
        row.whiff_duration
    } else {
        row.duration
    }
}

/// What a tick of a timed action comes down to without a button pressed.
proof fn lemma_timed_tick(step: StepModel, context: StepContext, row: ActiveTechnique)
    requires
        lasts(step.action.action),
        under_way(step, context, row),
        step.action.queued_technique.is_some() || step.action.buffered_button.is_none(),
        no_button(context.input),
        step.motor.grounded || !step.motor.bee_air_dash_shot_available,
        row.id != TechniqueId::PigHeavy,
    ensures
        ({
            let action = context.table.refreshed(step.action.aged());
            let turned = if row.id == TechniqueId::BeeJumpAttack && points_far(
                context.measures.movement_length_squared,
            ) {
                step.acting(action).moved(MotionCommand::FaceMovement)
            } else {
                step.acting(action)
            };
            &&& action.elapsed.ticks == tick_later(step.action.elapsed.ticks)
            &&& action.action == step.action.action
            &&& action.technique_id == Some(row.id)
            &&& action.queued_technique == step.action.queued_technique
            &&& action.confirmed_hit == step.action.confirmed_hit
            &&& context.table.action_over(action) == (tick_later(step.action.elapsed.ticks)
                >= runs_for(step, row))
            &&& timed_acting(step, context) == (match followup_now(action, context.table) {
                Some(next) => turned.acting(context.table.started(action, next)),
                None => if context.table.action_over(action) {
                    timed_action_ended(turned)
                } else {
                    turned
                },
            })
            &&& followup_now(action, context.table) == (if open_at(
                row.next_technique@,
                tick_later(step.action.elapsed.ticks),
            ) {
                step.action.queued_technique
            } else {
                None
            })
        }),
{
    let action = context.table.refreshed(step.action.aged());
    assert(context.table.active_for(step.action.aged()) == Some(row));
    assert(context.table.active_for(action) == Some(row));
    assert(any_window_open(row.next_technique@, action.elapsed) == open_at(
        row.next_technique@,
        action.elapsed.ticks as int,
    ));
    assert(with_followup(context.table, action, context.input, step.motor.grounded) == action);
    assert(timed_action_ticked(step.action, context) == action);
    reveal(timed_acting);
}

/// A timed action without a follow-up before and after a tick.
pub open spec fn lasts_its_time(
    step: StepModel,
    after: StepModel,
    context: StepContext,
    row: ActiveTechnique,
) -> bool {
    let ticks = tick_later(step.action.elapsed.ticks);
    let over = ticks >= runs_for(step, row);
    let action = step.action.action;
    let flies_on = !step.motor.grounded && (action == FighterAction::JumpHeavyAttack
        || action == FighterAction::JumpAttack && (row.id == TechniqueId::BeeJumpAttack
        || row.id == TechniqueId::PenguinJumpAttack || row.id
        == TechniqueId::ChickJumpAttack));
    let dives = !flies_on && !step.motor.grounded && action == FighterAction::JumpAttack;
    let dashes_on = action == FighterAction::DashAttack && (row.id
        == TechniqueId::PenguinDashAttack || row.id == TechniqueId::PenguinDashHeavy);
    let evades = action == FighterAction::GuardStep || action == FighterAction::QuickStand
        || action == FighterAction::RecoveryRoll;
    &&& after.spend == step.spend
    &&& after.presentation == step.presentation
    &&& !over || dives ==> after.action.action == action && after.action.elapsed.ticks
        == ticks && after.action.technique_id == Some(row.id)
    &&& over && !dives ==> {
        &&& after.action.elapsed.ticks == 0
        &&& after.action.technique_id.is_none()
        &&& after.action.action == (if flies_on {
            FighterAction::Jumping
        } else if dashes_on {
            FighterAction::Dashing
        } else {
            FighterAction::Idle
        })
    }
    &&& after.stats.invulnerability.remaining == (if over && evades {
        0
    } else {
        step.stats.invulnerability.remaining
    })
    &&& after.motions == (if row.id == TechniqueId::BeeJumpAttack && points_far(
        context.measures.movement_length_squared,
    ) {
        step.motions.push(MotionCommand::FaceMovement)
    } else {
        step.motions
    })
}

proof fn lemma_timed_end(step: StepModel, context: StepContext, row: ActiveTechnique)
    requires
        lasts(step.action.action),
        under_way(step, context, row),
        nothing_waits(step.action),
        no_button(context.input),
        step.motor.grounded || !step.motor.bee_air_dash_shot_available,
        row.id != TechniqueId::PigHeavy,
    ensures
        lasts_its_time(step, timed_acting(step, context), context, row),
{
    lemma_timed_tick(step, context, row);
}

/// A timed action that nothing follows goes on for its time. In the air, a heavy attack
/// and the light ones of Bee, Penguin and Chick then end in the jump, and every other
/// light one lasts until it lands. Penguin's attacks out of a dash end in the dash.
/// Everything else ends at rest, and the shield of an evasion ends with it.
pub proof fn timed_actions_last_their_time(
    step: StepModel,
    context: StepContext,
    row: ActiveTechnique,
)
    requires
        lasts(step.action.action),
        under_way(step, context, row),
        nothing_waits(step.action),
        no_button(context.input),
        step.motor.grounded || !step.motor.bee_air_dash_shot_available,
        row.id != TechniqueId::PigHeavy,
    ensures
        lasts_its_time(
            StepModel {
                stats: FighterStats {
                    invulnerability: step.stats.invulnerability.ticked(),
                    ..step.stats
                },
                ..step
            },
            stepped(step, context),
            context,
            row,
        ),
{
    let ready = lemma_busy_tick(step, context);
    assert(context.table.active_for(ready.action) == Some(row));
    lemma_acted(ready, context, context.input.guard && !step.motor.guard_was_requested);
    lemma_timed_end(ready, context, row);
}

/// What is lined up behind a timed action starts in the first tick of a window for it.
pub proof fn lined_up_techniques_start(
    step: StepModel,
    context: StepContext,
    row: ActiveTechnique,
    next: TechniqueId,
)
    requires
        lasts(step.action.action),
        under_way(step, context, row),
        step.action.queued_technique == Some(next),
        context.table.definition(next).is_some(),
        no_button(context.input),
        step.motor.grounded || !step.motor.bee_air_dash_shot_available,
        row.id != TechniqueId::PigHeavy,
    ensures
        ({
            let after = stepped(step, context);
            let ticks = tick_later(step.action.elapsed.ticks);
            &&& open_at(row.next_technique@, ticks) ==> technique_begun(
                after,
                context.table.definition(next).unwrap(),
            )
            &&& !open_at(row.next_technique@, ticks) && ticks < runs_for(step, row) ==> {
                &&& after.action.action == step.action.action
                &&& after.action.elapsed.ticks == ticks
                &&& after.action.queued_technique == Some(next)
            }
        }),
{
    let ready = lemma_busy_tick(step, context);
    assert(context.table.active_for(ready.action) == Some(row));
    lemma_acted(ready, context, context.input.guard && !step.motor.guard_was_requested);
    lemma_timed_tick(ready, context, row);
}

/// An attack out of a dash branches into the light one while its window is open.
pub proof fn dash_attacks_branch(step: StepModel, context: StepContext, row: ActiveTechnique)
    requires
        step.action.action == FighterAction::DashAttack,
        under_way(step, context, row),
        context.input.light,
        open_at(row.branch@, tick_later(step.action.elapsed.ticks)),
        row.id != TechniqueId::PigHeavy,
        context.table.slot_definition(CharacterMoveSlot::DashLight).is_some(),
    ensures
        technique_begun(
            stepped(step, context),
            context.table.slot_definition(CharacterMoveSlot::DashLight).unwrap(),
        ),
        stepped(step, context).motions == step.motions,
{
    let ready = lemma_busy_tick(step, context);
    lemma_acted(ready, context, context.input.guard && !step.motor.guard_was_requested);
    reveal(timed_acting);
    let action = context.table.refreshed(ready.action.aged());
    assert(any_window_open(row.branch@, action.elapsed) == open_at(
        row.branch@,
        action.elapsed.ticks as int,
    ));
}

/// Pig's heavy attack before and after a tick in which it may be held.
pub open spec fn blow_held_back(
    step: StepModel,
    after: StepModel,
    context: StepContext,
    row: ActiveTechnique,
) -> bool {
    let ticks = tick_later(step.action.elapsed.ticks);
    let charge = step.action.charge_elapsed.ticks;
    let grown = if context.input.heavy_held && !outlasts(
        charge as int,
        context.tuning.pig_heavy_full_charge_ms,
    ) {
        charge + 1
    } else {
        charge as int
    };
    let lets_go = context.input.heavy_released || !context.input.heavy_held;
    &&& !lets_go ==> {
        &&& after.action.action == FighterAction::HeavyAttack
        &&& after.action.charge_elapsed.ticks == grown
        &&& !after.action.charge_release_requested
        &&& !outlasts(ticks - 1, context.tuning.pig_heavy_attack_ms)
            ==> after.action.elapsed.ticks == ticks
        &&& outlasts(ticks - 1, context.tuning.pig_heavy_attack_ms) ==> outlasts(
            after.action.elapsed.ticks as int,
            context.tuning.pig_heavy_attack_ms,
        ) && after.action.elapsed.ticks <= ticks
    }
    &&& lets_go && ticks < runs_for(step, row) ==> {
        &&& after.action.action == FighterAction::HeavyAttack
        &&& after.action.charge_elapsed.ticks == grown
        &&& after.action.charge_release_requested
        &&& after.action.elapsed.ticks == ticks
    }
}

proof fn lemma_pig_blow(step: StepModel, context: StepContext, row: ActiveTechnique)
    requires
        step.action.action == FighterAction::HeavyAttack,
        under_way(step, context, row),
        row.id == TechniqueId::PigHeavy,
        !step.action.charge_release_requested,
        step.motor.grounded,
        nothing_waits(step.action),
        no_button(context.input),
    ensures
        blow_held_back(step, timed_acting(step, context), context, row),
{
    ticks_cover_exactly(context.tuning.pig_heavy_full_charge_ms as int);
    ticks_cover_exactly(context.tuning.pig_heavy_attack_ms as int);
    let action = timed_action_ticked(step.action, context);
    assert(action.technique_id == Some(row.id) && context.table.active_for(action) == Some(row));
    assert(with_followup(context.table, action, context.input, step.motor.grounded) == action);
    reveal(timed_acting);
}

/// Pig holds its heavy attack back before the blow while the button is down, and the
/// charge grows up to its full time. With the button up the attack goes on.
pub proof fn pig_holds_its_blow_back(step: StepModel, context: StepContext, row: ActiveTechnique)
    requires
        step.action.action == FighterAction::HeavyAttack,
        under_way(step, context, row),
        row.id == TechniqueId::PigHeavy,
        !step.action.charge_release_requested,
        step.motor.grounded,
        nothing_waits(step.action),
        no_button(context.input),
    ensures
        blow_held_back(step, stepped(step, context), context, row),
{
    let ready = lemma_busy_tick(step, context);
    assert(context.table.active_for(ready.action) == Some(row));
    lemma_acted(ready, context, context.input.guard && !step.motor.guard_was_requested);
    lemma_pig_blow(ready, context, row);
}

/// A rule says what follows the action under way on a button.
pub open spec fn rule_fits(
    rule: ChainRule,
    action: FighterActionState,
    button: TechniqueButton,
    grounded: bool,
) -> bool {
    &&& rule.previous == action.technique_id
    &&& rule.button == button
    &&& rule.window.opens <= action.elapsed.ticks < rule.window.closes
    &&& rule.grounded.is_none() || rule.grounded == Some(grounded)
    &&& rule.confirmed_hit.is_none() || rule.confirmed_hit == Some(action.confirmed_hit)
    &&& rule.cancel_open.is_none() || rule.cancel_open == Some(action.cancel_window_open)
    &&& rule.branch_open.is_none() || rule.branch_open == Some(action.branch_window_open)
    &&& rule.action.is_none() || rule.action == Some(action.action)
}

proof fn lemma_first_rule(
    rules: Seq<ChainRule>,
    action: FighterActionState,
    button: TechniqueButton,
    grounded: bool,
    place: int,
)
    requires
        0 <= place <= rules.len(),
        place < rules.len() ==> rule_fits(rules[place], action, button, grounded),
        forall|i: int| 0 <= i < place ==> !rule_fits(#[trigger] rules[i], action, button, grounded),
    ensures
        chained_in(rules, chain_context(action, button, grounded)) == (if place < rules.len() {
            Some(rules[place].next)
        } else {
            None
        }),
    decreases rules.len(),
{
    if rules.len() > 0 {
        assert(rules[0].applies(chain_context(action, button, grounded)) == rule_fits(
            rules[0],
            action,
            button,
            grounded,
        ));
        if place > 0 {
            let rest = rules.drop_first();
            assert forall|i: int| 0 <= i < place - 1 implies !rule_fits(
                #[trigger] rest[i],
                action,
                button,
                grounded,
            ) by {
                assert(rest[i] == rules[i + 1]);
            }
            lemma_first_rule(rest, action, button, grounded, place - 1);
        }
    }
}

/// The button of this tick: the ultimate before the grab, the grab before the light
/// attack, and that before the heavy one.
pub open spec fn button_of(input: FighterInput) -> Option<TechniqueButton> {
    if input.ultimate {
        Some(TechniqueButton::Ultimate)
    } else if input.grab {
        Some(TechniqueButton::Grab)
    } else if input.light {
        Some(TechniqueButton::A)
    } else if input.heavy {
        Some(TechniqueButton::B)
    } else {
        None
    }
}

/// A pressed button lines up the technique of the first rule that fits, and is then
/// forgotten. Where no rule fits yet, it is remembered.
pub proof fn pressed_buttons_line_up(
    table: &MoveTable,
    action: FighterActionState,
    input: FighterInput,
    grounded: bool,
    place: int,
)
    requires
        action.queued_technique.is_none(),
        button_of(input).is_some(),
        0 <= place <= table.chains@.len(),
        place < table.chains@.len() ==> rule_fits(
            table.chains@[place],
            action,
            button_of(input).unwrap(),
            grounded,
        ),
        forall|i: int|
            0 <= i < place ==> !rule_fits(
                #[trigger] table.chains@[i],
                action,
                button_of(input).unwrap(),
                grounded,
            ),
    ensures
        ({
            let after = with_followup(table, action, input, grounded);
            &&& after.action == action.action
            &&& after.elapsed == action.elapsed
            &&& after.buffered_button_elapsed.ticks == 0
            &&& place < table.chains@.len() ==> {
                &&& after.queued_technique == Some(table.chains@[place].next)
                &&& after.queued_button == button_of(input)
                &&& after.queued_combo
                &&& after.buffered_button.is_none()
            }
            &&& place == table.chains@.len() ==> {
                &&& after.queued_technique.is_none()
                &&& after.buffered_button == button_of(input)
            }
        }),
{
    let pressed = with_pressed_button(action, input);
    let button = button_of(input).unwrap();
    assert forall|i: int| 0 <= i < place implies !rule_fits(
        #[trigger] table.chains@[i],
        pressed,
        button,
        grounded,
    ) by {
        assert(!rule_fits(table.chains@[i], action, button, grounded));
    }
    lemma_first_rule(table.chains@, pressed, button, grounded, place);
}

/// A remembered button ages by a tick in every tick without another. It is forgotten
/// after the technique's buffer time, and counts like a pressed one until then.
pub proof fn remembered_buttons_expire(
    table: &MoveTable,
    action: FighterActionState,
    input: FighterInput,
    grounded: bool,
    button: TechniqueButton,
    row: ActiveTechnique,
)
    requires
        action.queued_technique.is_none(),
        action.buffered_button == Some(button),
        button_of(input).is_none(),
        table.active_for(action) == Some(row),
        action.buffered_button_elapsed.ticks < u32::MAX,
    ensures
        ({
            let after = with_followup(table, action, input, grounded);
            let age = action.buffered_button_elapsed.ticks + 1;
            let expired = age * 1000 / 60 > row.input_buffer_ms;
            &&& expired ==> after.buffered_button.is_none() && after.queued_technique.is_none()
            &&& !expired && (forall|i: int|
                0 <= i < table.chains@.len() ==> !rule_fits(
                    #[trigger] table.chains@[i],
                    action,
                    button,
                    grounded,
                )) ==> after.buffered_button == Some(button)
                && after.buffered_button_elapsed.ticks == age
                && after.queued_technique.is_none()
        }),
{
    let aged = FighterActionState {
        buffered_button_elapsed: action.buffered_button_elapsed.next(),
        ..action
    };
    assert(table.active_for(aged) == Some(row));
    if forall|i: int|
        0 <= i < table.chains@.len() ==> !rule_fits(
            #[trigger] table.chains@[i],
            action,
            button,
            grounded,
        ) {
        assert forall|i: int| 0 <= i < table.chains@.len() implies !rule_fits(
            #[trigger] table.chains@[i],
            aged,
            button,
            grounded,
        ) by {
            assert(!rule_fits(table.chains@[i], action, button, grounded));
        }
        lemma_first_rule(table.chains@, aged, button, grounded, table.chains@.len() as int);
    }
}

/// Hitstop lets nothing run: it only remembers the button of a technique that
/// remembers buttons at all and has nothing lined up, and a counter while its window
/// is open.
pub proof fn hitstop_only_remembers(step: StepModel, context: StepContext)
    ensures
        ({
            let after = frozen(step, context);
            let input = context.input;
            let buffers = match context.table.active_for(step.action) {
                Some(row) => row.input_buffer_ms > 0,
                None => false,
            };
            let counter = step.motor.guard_counter_window_timer.remaining > 0 && (
            input.raw_light_pressed != input.raw_heavy_pressed) && !(input.light_held
                && input.heavy_held);
            let kept = step.action.queued_technique.is_none() && buffers && button_of(
                input,
            ).is_some();
            &&& after.stats == step.stats
            &&& after.motions == step.motions
            &&& after.spend == step.spend
            &&& after.presentation == step.presentation
            &&& after.motor.guard_counter_buffered == (step.motor.guard_counter_buffered || counter)
            &&& after.action.action == step.action.action
            &&& after.action.elapsed == step.action.elapsed
            &&& after.action.queued_technique == step.action.queued_technique
            &&& after.action.buffered_button == (if kept {
                button_of(input)
            } else {
                step.action.buffered_button
            })
            &&& kept ==> after.action.buffered_button_elapsed.ticks == 0
        }),
{
}

/// Chick asks for the other of its air attacks, and this is it.
pub open spec fn chick_switches(
    step: StepModel,
    context: StepContext,
    row: ActiveTechnique,
    technique: TechniqueDefinition,
) -> bool {
    ||| {
        &&& step.action.action == FighterAction::JumpAttack
        &&& row.id == TechniqueId::ChickJumpAttack
        &&& context.input.raw_heavy_pressed
        &&& context.table.slot_definition(CharacterMoveSlot::JumpHeavy) == Some(technique)
    }
    ||| {
        &&& step.action.action == FighterAction::JumpHeavyAttack
        &&& row.id == TechniqueId::ChickJumpHeavy
        &&& context.input.raw_light_pressed
        &&& context.table.slot_definition(CharacterMoveSlot::JumpLight) == Some(technique)
    }
}

proof fn lemma_air_tick(step: StepModel, context: StepContext, row: ActiveTechnique)
    requires
        step.action.action == FighterAction::JumpAttack || step.action.action
            == FighterAction::JumpHeavyAttack,
        under_way(step, context, row),
        row.id != TechniqueId::PigHeavy,
    ensures
        ({
            let action = context.table.refreshed(step.action.aged());
            let turned = if row.id == TechniqueId::BeeJumpAttack && points_far(
                context.measures.movement_length_squared,
            ) {
                step.acting(action).moved(MotionCommand::FaceMovement)
            } else {
                step.acting(action)
            };
            let cancelled = chick_air_cancel(step.motor, action, context.input);
            &&& action.action == step.action.action
            &&& action.technique_id == Some(row.id)
            &&& bee_shot_starts(step.motor, context.input, context.table) ==> timed_acting(
                step,
                context,
            ) == shot(turned, context)
            &&& !bee_shot_starts(step.motor, context.input, context.table) && cancelled.is_some()
                ==> timed_acting(step, context) == turned.driven(
                cancelled_into(step.motor, cancelled.unwrap(), context.table),
            ).acting(air_attack_action(action, cancelled.unwrap(), context.table)).moved_if(
                air_attack_motion(cancelled.unwrap(), context.table),
            )
        }),
{
    let action = context.table.refreshed(step.action.aged());
    assert(context.table.active_for(step.action.aged()) == Some(row));
    assert(timed_action_ticked(step.action, context) == action);
    reveal(timed_acting);
}

/// Chick turns one of its air attacks into the other while it is in the air, and moves
/// as that one does.
pub proof fn chick_switches_in_the_air(
    step: StepModel,
    context: StepContext,
    row: ActiveTechnique,
    technique: TechniqueDefinition,
)
    requires
        !step.motor.grounded,
        !step.motor.bee_air_dash_shot_available,
        under_way(step, context, row),
        chick_switches(step, context, row, technique),
    ensures
        ({
            let after = stepped(step, context);
            let light = step.action.action == FighterAction::JumpHeavyAttack;
            &&& technique_begun(after, technique)
            &&& after.motor.queued_air_attack.is_none()
            &&& !light || technique.id != TechniqueId::PenguinJumpAttack
                ==> after.motor.air_attack_used
            &&& !after.motor.grounded
            &&& after.spend == step.spend
            &&& light && technique.id == TechniqueId::ChickJumpAttack ==> after.motions
                == step.motions.push(MotionCommand::ChickUpdraft)
            &&& !light && technique.id == TechniqueId::ChickJumpHeavy ==> after.motions
                == step.motions.push(MotionCommand::ChickEggRide)
        }),
{
    let ready = lemma_busy_tick(step, context);
    assert(context.table.active_for(ready.action) == Some(row));
    lemma_acted(ready, context, context.input.guard && !step.motor.guard_was_requested);
    lemma_air_tick(ready, context, row);
}

/// Bee shoots out of its air dash while the dash's attack is under way, too.
pub proof fn bee_shoots_during_its_dash(
    step: StepModel,
    context: StepContext,
    row: ActiveTechnique,
)
    requires
        !step.motor.grounded,
        step.action.action == FighterAction::JumpAttack || step.action.action
            == FighterAction::JumpHeavyAttack,
        under_way(step, context, row),
        row.id != TechniqueId::PigHeavy,
        shot_due(step, context),
    ensures
        ({
            let after = stepped(step, context);
            &&& technique_begun(
                after,
                context.table.slot_definition(CharacterMoveSlot::JumpHeavy).unwrap(),
            )
            &&& !after.motor.bee_air_dash_shot_available
            &&& after.motor.bee_air_dash_motion_active
            &&& after.motor.air_attack_used
            &&& !after.motor.jump_attack_landing_recovery
            &&& !after.motor.grounded
            &&& after.spend == step.spend
        }),
{
    let ready = lemma_busy_tick(step, context);
    assert(context.table.active_for(ready.action) == Some(row));
    lemma_acted(ready, context, context.input.guard && !step.motor.guard_was_requested);
    assert(bee_shot_starts(ready.motor, context.input, context.table));
    lemma_air_tick(ready, context, row);
}

} // verus!

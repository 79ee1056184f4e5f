//! Starting ultimates and techniques off the ground state.

use vstd::prelude::*;

use crate::action::{FighterAction, FighterActionState, set_technique_action};
use crate::fighter::{FighterMotor, FighterStats, FighterTuning, MotionCommand, ResourceSpend};
use crate::guard::guard_started;
use crate::ids::FighterId;
use crate::input::{FighterInput, penguin_dash_ultimate_shortcut, ultimate_input_requested};
use crate::loadout::CharacterKind;
use crate::scalar::{EPSILON_BITS, Scalar};
use crate::technique::{CharacterMoveSlot, MoveTable, TechniqueDefinition, TechniqueId};

verus! {

/// What Chick has out in the arena.
#[derive(Clone, Copy, Debug, PartialEq, Eq, Structural)]
pub enum ChickSkillKind {
    OrbitEgg,
    OrbitEggLaunch,
    OrbitEggReturn,
    ShellChip,
}

/// A skill in the arena and its owner.
#[derive(Clone, Copy, Debug, PartialEq, Eq, Structural)]
pub struct ActiveChickSkill {
    pub owner: FighterId,
    pub kind: ChickSkillKind,
}

/// An ultimate needs the ground and its stamina.
pub open spec fn spec_can_start_ultimate(
    motor: &FighterMotor,
    stats: &FighterStats,
    tuning: &FighterTuning,
) -> bool {
    motor.grounded && tuning.ultimate_stamina_cost.le(stats.stamina)
}

#[verifier::when_used_as_spec(spec_can_start_ultimate)]
pub fn can_start_ultimate(
    motor: &FighterMotor,
    stats: &FighterStats,
    tuning: &FighterTuning,
) -> (able: bool)
    ensures
        able == spec_can_start_ultimate(motor, stats, tuning),
{
    motor.grounded && tuning.ultimate_stamina_cost.le(stats.stamina)
}

/// Starts an ultimate. It costs stamina, which the caller takes, and slows the
/// fighter down.
pub fn start_ultimate(
    motor: &mut FighterMotor,
    action: &mut FighterActionState,
    technique: TechniqueDefinition,
) -> (effects: (ResourceSpend, MotionCommand))
    ensures
        *final(motor) == guard_started(*old(motor)),
        *final(action) == FighterActionState::technique(technique),
        effects == (ResourceSpend::UltimateStamina, MotionCommand::BrakeUltimateStart),
{
    motor.guard_active_timer.reset();
    motor.guard_cooldown_timer.clear();
    motor.guard_start_buffer_timer.clear();
    set_technique_action(action, technique);
    (ResourceSpend::UltimateStamina, MotionCommand::BrakeUltimateStart)
}

/// The ultimate that the input starts on the ground.
pub open spec fn ultimate_from_input(
    motor: FighterMotor,
    stats: FighterStats,
    input: FighterInput,
    character: CharacterKind,
    tuning: FighterTuning,
    table: &MoveTable,
) -> Option<TechniqueDefinition> {
    if ultimate_input_requested(&input, character) && can_start_ultimate(&motor, &stats, &tuning) {
        table.slot_definition(CharacterMoveSlot::UltimateStartup)
    } else {
        None
    }
}

pub fn try_start_ultimate_from_input(
    motor: &mut FighterMotor,
    stats: &FighterStats,
    action: &mut FighterActionState,
    input: &FighterInput,
    character: CharacterKind,
    tuning: &FighterTuning,
    table: &MoveTable,
) -> (effects: Option<(ResourceSpend, MotionCommand)>)
    ensures
        match ultimate_from_input(*old(motor), *stats, *input, character, *tuning, table) {
            Some(technique) => {
                &&& *final(motor) == guard_started(*old(motor))
                &&& *final(action) == FighterActionState::technique(technique)
                &&& effects == Some(
                    (ResourceSpend::UltimateStamina, MotionCommand::BrakeUltimateStart),
                )
            },
            None => {
                &&& *final(motor) == *old(motor)
                &&& *final(action) == *old(action)
                &&& effects.is_none()
            },
        },
{
    if !ultimate_input_requested(input, character) || !can_start_ultimate(motor, stats, tuning) {
        return None;
    }
    match table.technique_slot(CharacterMoveSlot::UltimateStartup) {
        Some(technique) => Some(start_ultimate(motor, action, technique)),
        None => None,
    }
}

/// The ultimate that Penguin starts out of a dash.
pub open spec fn penguin_dash_ultimate(
    motor: FighterMotor,
    stats: FighterStats,
    input: FighterInput,
    character: CharacterKind,
    tuning: FighterTuning,
    table: &MoveTable,
) -> Option<TechniqueDefinition> {
    if character == CharacterKind::Penguin && (input.ultimate || penguin_dash_ultimate_shortcut(
        &input,
        character,
    )) && can_start_ultimate(&motor, &stats, &tuning) {
        table.slot_definition(CharacterMoveSlot::UltimateRush)
    } else {
        None
    }
}

/// Starts Penguin's ultimate out of a dash, which it lunges into.
pub fn try_start_penguin_dash_ultimate(
    motor: &mut FighterMotor,
    stats: &FighterStats,
    action: &mut FighterActionState,
    input: &FighterInput,
    character: CharacterKind,
    tuning: &FighterTuning,
    table: &MoveTable,
) -> (effects: Option<(ResourceSpend, MotionCommand, MotionCommand)>)
    ensures
        match penguin_dash_ultimate(*old(motor), *stats, *input, character, *tuning, table) {
            Some(technique) => {
                &&& *final(motor) == guard_started(*old(motor))
                &&& *final(action) == FighterActionState::technique(technique)
                &&& effects == Some(
                    (
                        ResourceSpend::UltimateStamina,
                        MotionCommand::BrakeUltimateStart,
                        MotionCommand::FinisherImpulse,
                    ),
                )
            },
            None => {
                &&& *final(motor) == *old(motor)
                &&& *final(action) == *old(action)
                &&& effects.is_none()
            },
        },
{
    let requested = input.ultimate || penguin_dash_ultimate_shortcut(input, character);
    if character != CharacterKind::Penguin || !requested || !can_start_ultimate(
        motor,
        stats,
        tuning,
    ) {
        return None;
    }
    match table.technique_slot(CharacterMoveSlot::UltimateRush) {
        Some(technique) => {
            let (spend, brake) = start_ultimate(motor, action, technique);
            Some((spend, brake, MotionCommand::FinisherImpulse))
        },
        None => None,
    }
}

/// The technique costs stamina at all.
pub open spec fn technique_costs(technique: TechniqueDefinition) -> bool {
    Scalar { bits: EPSILON_BITS }.lt(technique.stamina_cost)
}

/// A technique starts unless it is an ultimate or costs more stamina than there
/// is.
pub open spec fn raw_technique_starts(stats: FighterStats, technique: TechniqueDefinition) -> bool {
    &&& technique.action != FighterAction::UltimateStartup
    &&& !(technique_costs(technique) && stats.stamina.lt(technique.stamina_cost))
}

/// What a technique costs.
pub open spec fn technique_spend(technique: TechniqueDefinition) -> Option<ResourceSpend> {
    if technique_costs(technique) {
        Some(ResourceSpend::TechniqueStamina(technique.stamina_cost))
    } else {
        None
    }
}

/// Starts a technique where it may start. `Some` says that it did, with its cost
/// for the caller to take.
pub fn try_start_raw_technique(
    stats: &FighterStats,
    action: &mut FighterActionState,
    technique: TechniqueDefinition,
) -> (started: Option<Option<ResourceSpend>>)
    ensures
        started == (if raw_technique_starts(*stats, technique) {
            Some(technique_spend(technique))
        } else {
            None
        }),
        *final(action) == (if started.is_some() {
            FighterActionState::technique(technique)
        } else {
            *old(action)
        }),
{
    if technique.action == FighterAction::UltimateStartup {
        return None;
    }
    let costs = Scalar { bits: EPSILON_BITS }.lt(technique.stamina_cost);
    if costs && stats.stamina.lt(technique.stamina_cost) {
        return None;
    }
    set_technique_action(action, technique);
    if costs {
        Some(Some(ResourceSpend::TechniqueStamina(technique.stamina_cost)))
    } else {
        Some(None)
    }
}

/// Chick's first light attack commands an egg that orbits or was launched.
pub open spec fn spec_chick_c_can_start_from_skill(kind: ChickSkillKind) -> bool {
    kind == ChickSkillKind::OrbitEgg || kind == ChickSkillKind::OrbitEggLaunch
}

#[verifier::when_used_as_spec(spec_chick_c_can_start_from_skill)]
pub fn chick_c_can_start_from_skill(kind: ChickSkillKind) -> (able: bool)
    ensures
        able == spec_chick_c_can_start_from_skill(kind),
{
    matches!(kind, ChickSkillKind::OrbitEgg | ChickSkillKind::OrbitEggLaunch)
}

/// The owner has an egg to command.
pub open spec fn owns_commandable_egg(skills: Seq<ActiveChickSkill>, owner: FighterId) -> bool {
    exists|i: int|
        0 <= i < skills.len() && (#[trigger] skills[i]).owner == owner
            && chick_c_can_start_from_skill(skills[i].kind)
}

/// The owner has an egg in flight.
pub open spec fn owns_launched_egg(skills: Seq<ActiveChickSkill>, owner: FighterId) -> bool {
    exists|i: int|
        0 <= i < skills.len() && (#[trigger] skills[i]).owner == owner && skills[i].kind
            == ChickSkillKind::OrbitEggLaunch
}

/// Only Chick's first light attack needs an egg.
pub fn raw_technique_special_requirement_met(
    owner: FighterId,
    technique: TechniqueDefinition,
    active_chick_skills: &Vec<ActiveChickSkill>,
) -> (met: bool)
    ensures
        met == (technique.id != TechniqueId::ChickLight1 || owns_commandable_egg(
            active_chick_skills@,
            owner,
        )),
{
    if technique.id != TechniqueId::ChickLight1 {
        return true;
    }
    let mut next: usize = 0;
    while next < active_chick_skills.len()
        invariant
            next <= active_chick_skills@.len(),
            forall|i: int|
                0 <= i < next ==> !((#[trigger] active_chick_skills@[i]).owner == owner
                    && chick_c_can_start_from_skill(active_chick_skills@[i].kind)),
        decreases active_chick_skills@.len() - next,
    {
        let skill = active_chick_skills[next];
        if skill.owner == owner && chick_c_can_start_from_skill(skill.kind) {
            return true;
        }
        next += 1;
    }
    false
}

/// A second press recalls an egg in flight.
pub open spec fn recall_requested(
    owner: FighterId,
    action: FighterActionState,
    input: FighterInput,
    skills: Seq<ActiveChickSkill>,
) -> bool {
    action.technique_id == Some(TechniqueId::ChickLight1) && input.raw_light_pressed
        && owns_launched_egg(skills, owner)
}

pub fn chick_light_recall_interrupt_requested(
    owner: FighterId,
    action: &FighterActionState,
    input: &FighterInput,
    active_chick_skills: &Vec<ActiveChickSkill>,
) -> (requested: bool)
    ensures
        requested == recall_requested(owner, *action, *input, active_chick_skills@),
{
    if action.technique_id != Some(TechniqueId::ChickLight1) || !input.raw_light_pressed {
        return false;
    }
    let mut next: usize = 0;
    while next < active_chick_skills.len()
        invariant
            action.technique_id == Some(TechniqueId::ChickLight1),
            input.raw_light_pressed,
            next <= active_chick_skills@.len(),
            forall|i: int|
                0 <= i < next ==> !((#[trigger] active_chick_skills@[i]).owner == owner
                    && active_chick_skills@[i].kind == ChickSkillKind::OrbitEggLaunch),
        decreases active_chick_skills@.len() - next,
    {
        let skill = active_chick_skills[next];
        if skill.owner == owner && skill.kind == ChickSkillKind::OrbitEggLaunch {
            return true;
        }
        next += 1;
    }
    false
}

/// Stamina is only ever spent where there is enough of it.
pub proof fn techniques_are_affordable(stats: FighterStats, technique: TechniqueDefinition)
    requires
        raw_technique_starts(stats, technique),
        technique_spend(technique).is_some(),
        !stats.stamina.is_nan(),
    ensures
        technique.stamina_cost.le(stats.stamina),
{
}

} // verus!

//! The canonical order of one fixed tick. Every system has one place, so two
//! simulations of the same match do the same things in the same order.

use vstd::prelude::*;

verus! {

/// The stages of a fixed tick, in order.
#[derive(Clone, Copy, Debug, PartialEq, Eq, Structural)]
pub enum SimulationSet {
    TickStart,
    Match,
    Input,
    Action,
    Movement,
    Combat,
    Items,
    Respawn,
    TickEnd,
}

/// Everything that runs in a fixed tick.
#[derive(Clone, Copy, Debug, PartialEq, Eq, Structural)]
pub enum CanonicalSystem {
    AdvanceSimTick,
    BeginSimEventTick,
    SyncActiveArena,
    ReclaimOrphanedEntities,
    TickHitstop,
    TickMatchTimer,
    UpdateDrunkStatus,
    ApplyDrunkInputModifier,
    ApplyAimAssist,
    HandleItemInputs,
    HandleSpecialInputs,
    TickSpecialCooldowns,
    TickEquipmentCooldowns,
    UpdateFighterState,
    UpdateGrabHolds,
    UpdateUltimateLocks,
    SpawnAttackHitboxes,
    SpawnItemHitboxes,
    ApplyFighterMovement,
    UpdateArenaPipeTransits,
    SeparateFighters,
    BeginContactCollection,
    UpdateHitboxes,
    CollectHitboxContacts,
    CollectSpecialContacts,
    CollectBeeSkillContacts,
    CollectChickSkillContacts,
    CollectPenguinSkillContacts,
    UpdatePenguinSurfaces,
    DropItemsFromDisabledFighters,
    UpdateItems,
    AdvanceMovingItems,
    AdvanceArenaHazards,
    UpdateCrankYardMachinery,
    AdvancePowderKegCannons,
    ResolveContacts,
    ApplyHitboxOutcomes,
    ApplyItemOutcomes,
    ApplyBeeSkillOutcomes,
    ApplyChickSkillOutcomes,
    ApplyPenguinSkillOutcomes,
    ApplySpecialOutcomes,
    ApplyPowderKegOutcomes,
    ApplyArenaHazardOutcomes,
    RingoutAndRespawn,
    CanonicalizeState,
    CommitSimEventTick,
}

/// How many systems a fixed tick runs.
pub const CANONICAL_SYSTEM_COUNT: usize = 47;

/// The place of a stage.
pub open spec fn set_place(set: SimulationSet) -> int {
    match set {
        SimulationSet::TickStart => 0,
        SimulationSet::Match => 1,
        SimulationSet::Input => 2,
        SimulationSet::Action => 3,
        SimulationSet::Movement => 4,
        SimulationSet::Combat => 5,
        SimulationSet::Items => 6,
        SimulationSet::Respawn => 7,
        SimulationSet::TickEnd => 8,
    }
}

/// Stages that only run while a fight is on.
pub open spec fn spec_runs_only_in_fights(set: SimulationSet) -> bool {
    3 <= set_place(set) <= 7
}

/// Stages that only run while a fight is on: the clock and the inputs go on
/// without one, gameplay does not.
#[verifier::when_used_as_spec(spec_runs_only_in_fights)]
pub fn runs_only_in_fights(set: SimulationSet) -> (gated: bool)
    ensures
        gated == spec_runs_only_in_fights(set),
{
    matches!(
        set,
        SimulationSet::Action | SimulationSet::Movement | SimulationSet::Combat
            | SimulationSet::Items | SimulationSet::Respawn
    )
}

/// The place of a system in the tick.
pub open spec fn system_place(system: CanonicalSystem) -> int {
    match system {
        CanonicalSystem::AdvanceSimTick => 0,
        CanonicalSystem::BeginSimEventTick => 1,
        CanonicalSystem::SyncActiveArena => 2,
        CanonicalSystem::ReclaimOrphanedEntities => 3,
        CanonicalSystem::TickHitstop => 4,
        CanonicalSystem::TickMatchTimer => 5,
        CanonicalSystem::UpdateDrunkStatus => 6,
        CanonicalSystem::ApplyDrunkInputModifier => 7,
        CanonicalSystem::ApplyAimAssist => 8,
        CanonicalSystem::HandleItemInputs => 9,
        CanonicalSystem::HandleSpecialInputs => 10,
        CanonicalSystem::TickSpecialCooldowns => 11,
        CanonicalSystem::TickEquipmentCooldowns => 12,
        CanonicalSystem::UpdateFighterState => 13,
        CanonicalSystem::UpdateGrabHolds => 14,
        CanonicalSystem::UpdateUltimateLocks => 15,
        CanonicalSystem::SpawnAttackHitboxes => 16,
        CanonicalSystem::SpawnItemHitboxes => 17,
        CanonicalSystem::ApplyFighterMovement => 18,
        CanonicalSystem::UpdateArenaPipeTransits => 19,
        CanonicalSystem::SeparateFighters => 20,
        CanonicalSystem::BeginContactCollection => 21,
        CanonicalSystem::UpdateHitboxes => 22,
        CanonicalSystem::CollectHitboxContacts => 23,
        CanonicalSystem::CollectSpecialContacts => 24,
        CanonicalSystem::CollectBeeSkillContacts => 25,
        CanonicalSystem::CollectChickSkillContacts => 26,
        CanonicalSystem::CollectPenguinSkillContacts => 27,
        CanonicalSystem::UpdatePenguinSurfaces => 28,
        CanonicalSystem::DropItemsFromDisabledFighters => 29,
        CanonicalSystem::UpdateItems => 30,
        CanonicalSystem::AdvanceMovingItems => 31,
        CanonicalSystem::AdvanceArenaHazards => 32,
        CanonicalSystem::UpdateCrankYardMachinery => 33,
        CanonicalSystem::AdvancePowderKegCannons => 34,
        CanonicalSystem::ResolveContacts => 35,
        CanonicalSystem::ApplyHitboxOutcomes => 36,
        CanonicalSystem::ApplyItemOutcomes => 37,
        CanonicalSystem::ApplyBeeSkillOutcomes => 38,
        CanonicalSystem::ApplyChickSkillOutcomes => 39,
        CanonicalSystem::ApplyPenguinSkillOutcomes => 40,
        CanonicalSystem::ApplySpecialOutcomes => 41,
        CanonicalSystem::ApplyPowderKegOutcomes => 42,
        CanonicalSystem::ApplyArenaHazardOutcomes => 43,
        CanonicalSystem::RingoutAndRespawn => 44,
        CanonicalSystem::CanonicalizeState => 45,
        CanonicalSystem::CommitSimEventTick => 46,
    }
}

/// The stage that a place of the tick belongs to.
pub open spec fn set_at(place: int) -> SimulationSet {
    if place < 4 {
        SimulationSet::TickStart
    } else if place < 7 {
        SimulationSet::Match
    } else if place < 8 {
        SimulationSet::Input
    } else if place < 18 {
        SimulationSet::Action
    } else if place < 21 {
        SimulationSet::Movement
    } else if place < 29 {
        SimulationSet::Combat
    } else if place < 44 {
        SimulationSet::Items
    } else if place < 45 {
        SimulationSet::Respawn
    } else {
        SimulationSet::TickEnd
    }
}

/// One entry of the schedule.
#[derive(Clone, Copy, Debug, PartialEq, Eq, Structural)]
pub struct ScheduledSystem {
    pub set: SimulationSet,
    pub system: CanonicalSystem,
    pub only_in_fights: bool,
}

/// The entry stands at its place, in its stage, with its run condition.
pub open spec fn scheduled_at(entry: ScheduledSystem, place: int) -> bool {
    &&& system_place(entry.system) == place
    &&& entry.set == set_at(place)
    &&& entry.only_in_fights == runs_only_in_fights(entry.set)
}

fn schedule_system(
    schedule: &mut Vec<ScheduledSystem>,
    set: SimulationSet,
    system: CanonicalSystem,
)
    requires
        system_place(system) == old(schedule)@.len(),
        set == set_at(old(schedule)@.len() as int),
        forall|i: int| 0 <= i < old(schedule)@.len() ==> scheduled_at(#[trigger] old(schedule)@[i], i),
    ensures
        final(schedule)@.len() == old(schedule)@.len() + 1,
        forall|i: int|
            0 <= i < final(schedule)@.len() ==> scheduled_at(#[trigger] final(schedule)@[i], i),
{
    let entry = ScheduledSystem { set, system, only_in_fights: runs_only_in_fights(set) };
    schedule.push(entry);
}

fn schedule_opening(schedule: &mut Vec<ScheduledSystem>)
    requires
        old(schedule)@.len() == 0,
    ensures
        final(schedule)@.len() == 18,
        forall|i: int|
            0 <= i < final(schedule)@.len() ==> scheduled_at(#[trigger] final(schedule)@[i], i),
{
    schedule_system(schedule, SimulationSet::TickStart, CanonicalSystem::AdvanceSimTick);
    schedule_system(schedule, SimulationSet::TickStart, CanonicalSystem::BeginSimEventTick);
    schedule_system(schedule, SimulationSet::TickStart, CanonicalSystem::SyncActiveArena);
    schedule_system(schedule, SimulationSet::TickStart, CanonicalSystem::ReclaimOrphanedEntities);
    schedule_system(schedule, SimulationSet::Match, CanonicalSystem::TickHitstop);
    schedule_system(schedule, SimulationSet::Match, CanonicalSystem::TickMatchTimer);
    schedule_system(schedule, SimulationSet::Match, CanonicalSystem::UpdateDrunkStatus);
    schedule_system(schedule, SimulationSet::Input, CanonicalSystem::ApplyDrunkInputModifier);
    schedule_system(schedule, SimulationSet::Action, CanonicalSystem::ApplyAimAssist);
    schedule_system(schedule, SimulationSet::Action, CanonicalSystem::HandleItemInputs);
    schedule_system(schedule, SimulationSet::Action, CanonicalSystem::HandleSpecialInputs);
    schedule_system(schedule, SimulationSet::Action, CanonicalSystem::TickSpecialCooldowns);
    schedule_system(schedule, SimulationSet::Action, CanonicalSystem::TickEquipmentCooldowns);
    schedule_system(schedule, SimulationSet::Action, CanonicalSystem::UpdateFighterState);
    schedule_system(schedule, SimulationSet::Action, CanonicalSystem::UpdateGrabHolds);
    schedule_system(schedule, SimulationSet::Action, CanonicalSystem::UpdateUltimateLocks);
    schedule_system(schedule, SimulationSet::Action, CanonicalSystem::SpawnAttackHitboxes);
    schedule_system(schedule, SimulationSet::Action, CanonicalSystem::SpawnItemHitboxes);
}

fn schedule_contacts(schedule: &mut Vec<ScheduledSystem>)
    requires
        old(schedule)@.len() == 18,
        forall|i: int| 0 <= i < old(schedule)@.len() ==> scheduled_at(#[trigger] old(schedule)@[i], i),
    ensures
        final(schedule)@.len() == 29,
        forall|i: int|
            0 <= i < final(schedule)@.len() ==> scheduled_at(#[trigger] final(schedule)@[i], i),
{
    schedule_system(schedule, SimulationSet::Movement, CanonicalSystem::ApplyFighterMovement);
    schedule_system(schedule, SimulationSet::Movement, CanonicalSystem::UpdateArenaPipeTransits);
    schedule_system(schedule, SimulationSet::Movement, CanonicalSystem::SeparateFighters);
    schedule_system(schedule, SimulationSet::Combat, CanonicalSystem::BeginContactCollection);
    schedule_system(schedule, SimulationSet::Combat, CanonicalSystem::UpdateHitboxes);
    schedule_system(schedule, SimulationSet::Combat, CanonicalSystem::CollectHitboxContacts);
    schedule_system(schedule, SimulationSet::Combat, CanonicalSystem::CollectSpecialContacts);
    schedule_system(schedule, SimulationSet::Combat, CanonicalSystem::CollectBeeSkillContacts);
    schedule_system(schedule, SimulationSet::Combat, CanonicalSystem::CollectChickSkillContacts);
    schedule_system(schedule, SimulationSet::Combat, CanonicalSystem::CollectPenguinSkillContacts);
    schedule_system(schedule, SimulationSet::Combat, CanonicalSystem::UpdatePenguinSurfaces);
}

fn schedule_outcomes(schedule: &mut Vec<ScheduledSystem>)
    requires
        old(schedule)@.len() == 29,
        forall|i: int| 0 <= i < old(schedule)@.len() ==> scheduled_at(#[trigger] old(schedule)@[i], i),
    ensures
        final(schedule)@.len() == CANONICAL_SYSTEM_COUNT,
        forall|i: int|
            0 <= i < final(schedule)@.len() ==> scheduled_at(#[trigger] final(schedule)@[i], i),
{
    schedule_system(
        schedule,
        SimulationSet::Items,
        CanonicalSystem::DropItemsFromDisabledFighters,
    );
    schedule_system(schedule, SimulationSet::Items, CanonicalSystem::UpdateItems);
    schedule_system(schedule, SimulationSet::Items, CanonicalSystem::AdvanceMovingItems);
    schedule_system(schedule, SimulationSet::Items, CanonicalSystem::AdvanceArenaHazards);
    schedule_system(schedule, SimulationSet::Items, CanonicalSystem::UpdateCrankYardMachinery);
    schedule_system(schedule, SimulationSet::Items, CanonicalSystem::AdvancePowderKegCannons);
    schedule_system(schedule, SimulationSet::Items, CanonicalSystem::ResolveContacts);
    schedule_system(schedule, SimulationSet::Items, CanonicalSystem::ApplyHitboxOutcomes);
    schedule_system(schedule, SimulationSet::Items, CanonicalSystem::ApplyItemOutcomes);
    schedule_system(schedule, SimulationSet::Items, CanonicalSystem::ApplyBeeSkillOutcomes);
    schedule_system(schedule, SimulationSet::Items, CanonicalSystem::ApplyChickSkillOutcomes);
    schedule_system(schedule, SimulationSet::Items, CanonicalSystem::ApplyPenguinSkillOutcomes);
    schedule_system(schedule, SimulationSet::Items, CanonicalSystem::ApplySpecialOutcomes);
    schedule_system(schedule, SimulationSet::Items, CanonicalSystem::ApplyPowderKegOutcomes);
    schedule_system(schedule, SimulationSet::Items, CanonicalSystem::ApplyArenaHazardOutcomes);
    schedule_system(schedule, SimulationSet::Respawn, CanonicalSystem::RingoutAndRespawn);
    schedule_system(schedule, SimulationSet::TickEnd, CanonicalSystem::CanonicalizeState);
    schedule_system(schedule, SimulationSet::TickEnd, CanonicalSystem::CommitSimEventTick);
}

/// The schedule of a fixed tick, first to last.
pub fn canonical_fixed_schedule() -> (schedule: Vec<ScheduledSystem>)
    ensures
        schedule@.len() == CANONICAL_SYSTEM_COUNT,
        forall|i: int|
            0 <= i < schedule@.len() ==> scheduled_at(#[trigger] schedule@[i], i),
{
    let mut schedule: Vec<ScheduledSystem> = Vec::new();
    schedule_opening(&mut schedule);
    schedule_contacts(&mut schedule);
    schedule_outcomes(&mut schedule);
    schedule
}

/// Every system runs exactly once, stages follow each other, and gameplay is
/// what a fight gates.
pub proof fn every_system_has_one_place(schedule: Seq<ScheduledSystem>, system: CanonicalSystem)
    requires
        schedule.len() == CANONICAL_SYSTEM_COUNT,
        forall|i: int| 0 <= i < schedule.len() ==> scheduled_at(#[trigger] schedule[i], i),
    ensures
        0 <= system_place(system) < schedule.len(),
        schedule[system_place(system)].system == system,
        forall|i: int|
            0 <= i < schedule.len() && (#[trigger] schedule[i]).system == system ==> i
                == system_place(system),
        forall|i: int, j: int|
            0 <= i <= j < schedule.len() ==> set_place((#[trigger] schedule[i]).set) <= set_place(
                (#[trigger] schedule[j]).set,
            ),
{
    let place = system_place(system);
    assert(scheduled_at(schedule[place], place));
    lemma_places_name_systems(schedule[place].system, system);
}

proof fn lemma_places_name_systems(left: CanonicalSystem, right: CanonicalSystem)
    ensures
        system_place(left) == system_place(right) ==> left == right,
{
}

/// Lives are lost after every hit of the tick has been applied, and everything of
/// the tick is committed last.
pub proof fn falls_come_after_hits(system: CanonicalSystem)
    ensures
        set_at(system_place(system)) == SimulationSet::Items ==> system_place(system)
            < system_place(CanonicalSystem::RingoutAndRespawn),
        system != CanonicalSystem::CommitSimEventTick ==> system_place(system) < system_place(
            CanonicalSystem::CommitSimEventTick,
        ),
        system_place(CanonicalSystem::UpdateDrunkStatus) < system_place(
            CanonicalSystem::ApplyDrunkInputModifier,
        ) < system_place(CanonicalSystem::UpdateFighterState),
{
}

} // verus!

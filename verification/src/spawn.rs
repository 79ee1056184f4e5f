//! The four fighters with which a match world starts.

use vstd::prelude::*;

use crate::action::{FighterAction, FighterActionState};
use crate::fighter::{FighterStats, FighterTuning};
use crate::ids::{FighterId, FIGHTER_COUNT};
use crate::loadout::{CharacterKind, Controller, EquipmentKind, FighterStyleKind};
use crate::scalar::SimVec3;
use crate::setup::{LocalSetup, seat_occupied};
use crate::ticks::TickTimer;

verus! {

/// Which way a fighter looks at first: even seats along the arena, odd ones back.
#[derive(Clone, Copy, Debug, PartialEq, Eq, Structural)]
pub enum StartFacing {
    Positive,
    Negative,
}

/// What a seat's fighter starts with.
#[derive(Clone, Copy, Debug, PartialEq, Eq, Structural)]
pub struct ConfiguredFighterSpawn {
    pub fighter: FighterId,
    pub spawn: SimVec3,
    pub facing: StartFacing,
    pub character: CharacterKind,
    pub style: FighterStyleKind,
    pub equipment: EquipmentKind,
    pub controller: Controller,
    pub active: bool,
    pub stats: FighterStats,
    pub action: FighterActionState,
}

/// What a seat's fighter starts with: its seat's loadout and controller, full
/// resources, and out of the arena for good where nobody sits.
pub open spec fn configured_spawn(
    setup: &LocalSetup,
    fighter: FighterId,
    spawn: SimVec3,
    tuning: FighterTuning,
) -> ConfiguredFighterSpawn {
    let i = fighter.spec_index() as int;
    let slot = setup@.slots[i];
    let active = seat_occupied(setup@.slots, i);
    let fresh = FighterStats::fresh(tuning.max_health, tuning.max_stamina);
    ConfiguredFighterSpawn {
        fighter,
        spawn,
        facing: if i % 2 == 0 {
            StartFacing::Positive
        } else {
            StartFacing::Negative
        },
        character: slot.character,
        style: slot.style,
        equipment: slot.equipment,
        controller: Controller { slot: fighter, participant: slot.participant, input: slot.input },
        active,
        stats: if active {
            fresh
        } else {
            FighterStats { respawn_timer: TickTimer::indefinite(), ..fresh }
        },
        action: if active {
            FighterActionState::fresh(FighterAction::Idle)
        } else {
            FighterActionState::fresh(FighterAction::RingOut)
        },
    }
}

pub fn configure_fighter_spawn(
    setup: &LocalSetup,
    fighter: FighterId,
    spawn: SimVec3,
    tuning: &FighterTuning,
) -> (configured: ConfiguredFighterSpawn)
    ensures
        configured == configured_spawn(setup, fighter, spawn, *tuning),
{
    let index: usize = fighter.index();
    let slot = setup.slots[index];
    let active = setup.is_slot_occupied(index);
    let mut stats = FighterStats::new(tuning.max_health, tuning.max_stamina);
    let mut action = FighterActionState::default();
    if !active {
        stats.respawn_timer = TickTimer::indefinite();
        action.action = FighterAction::RingOut;
    }
    let facing = if index % 2 == 0 {
        StartFacing::Positive
    } else {
        StartFacing::Negative
    };
    ConfiguredFighterSpawn {
        fighter,
        spawn,
        facing,
        character: slot.character,
        style: slot.style,
        equipment: slot.equipment,
        controller: Controller::new(fighter, slot.participant, slot.input),
        active,
        stats,
        action,
    }
}

/// All four fighters in canonical order, each at its spawn point.
pub fn bootstrap_canonical_fighters(
    setup: &LocalSetup,
    spawn_points: &[SimVec3; FIGHTER_COUNT],
    tuning: &FighterTuning,
) -> (fighters: [ConfiguredFighterSpawn; FIGHTER_COUNT])
    ensures
        forall|fighter: FighterId|
            fighters@[#[trigger] fighter.spec_index() as int] == configured_spawn(
                setup,
                fighter,
                spawn_points@[fighter.spec_index() as int],
                *tuning,
            ),
{
    let fighters = [
        configure_fighter_spawn(setup, FighterId::Zero, spawn_points[0], tuning),
        configure_fighter_spawn(setup, FighterId::One, spawn_points[1], tuning),
        configure_fighter_spawn(setup, FighterId::Two, spawn_points[2], tuning),
        configure_fighter_spawn(setup, FighterId::Three, spawn_points[3], tuning),
    ];
    fighters
}

/// A closed seat keeps a place in the world, but its fighter never comes back by
/// itself.
pub proof fn closed_seats_stay_out(
    setup: &LocalSetup,
    fighter: FighterId,
    spawn: SimVec3,
    tuning: FighterTuning,
    ticks: nat,
)
    requires
        !seat_occupied(setup@.slots, fighter.spec_index() as int),
    ensures
        configured_spawn(setup, fighter, spawn, tuning).action.action == FighterAction::RingOut,
        crate::ticks::timer_after(
            configured_spawn(setup, fighter, spawn, tuning).stats.respawn_timer,
            ticks,
        ).active(),
{
    crate::ticks::countdown_lasts_its_length(
        configured_spawn(setup, fighter, spawn, tuning).stats.respawn_timer,
        ticks,
    );
}

} // verus!

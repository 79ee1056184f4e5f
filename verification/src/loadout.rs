//! Characters, styles, equipment, teams and who controls a seat.

use vstd::prelude::*;

use crate::ids::{FighterId, FIGHTER_COUNT};

verus! {

#[derive(Clone, Copy, Debug, PartialEq, Eq, Structural)]
pub enum CharacterKind {
    Cat,
    Pig,
    Dog,
    Fox,
    Panda,
    Bee,
    Penguin,
    Chick,
}

#[derive(Clone, Copy, Debug, PartialEq, Eq, Structural)]
pub enum FighterStyleKind {
    Anchor,
    Vector,
    Catalyst,
}

#[derive(Clone, Copy, Debug, PartialEq, Eq, Structural)]
pub enum EquipmentKind {
    DashCoil,
    AerialSpur,
    CounterCell,
    HeavySeal,
}

#[derive(Clone, Copy, Debug, PartialEq, Eq, Structural)]
pub enum TeamId {
    Red,
    Blue,
}

/// Who sits in a seat.
#[derive(Clone, Copy, Debug, PartialEq, Eq, Structural)]
pub enum ParticipantKind {
    Human,
    Bot,
    Closed,
}

/// The local device that drives a seat.
#[derive(Clone, Copy, Debug, PartialEq, Eq, Structural)]
pub enum LocalInputAssignment {
    Keyboard(usize),
    Unassigned,
}

pub open spec fn spec_next_character_kind(kind: CharacterKind) -> CharacterKind {
    match kind {
        CharacterKind::Cat => CharacterKind::Pig,
        CharacterKind::Pig => CharacterKind::Dog,
        CharacterKind::Dog => CharacterKind::Fox,
        CharacterKind::Fox => CharacterKind::Panda,
        CharacterKind::Panda => CharacterKind::Bee,
        CharacterKind::Bee => CharacterKind::Penguin,
        CharacterKind::Penguin => CharacterKind::Chick,
        CharacterKind::Chick => CharacterKind::Cat,
    }
}

/// The next character of the roster; the last is followed by the first.
#[verifier::when_used_as_spec(spec_next_character_kind)]
pub fn next_character_kind(kind: CharacterKind) -> (next: CharacterKind)
    ensures
        next == spec_next_character_kind(kind),
{
    match kind {
        CharacterKind::Cat => CharacterKind::Pig,
        CharacterKind::Pig => CharacterKind::Dog,
        CharacterKind::Dog => CharacterKind::Fox,
        CharacterKind::Fox => CharacterKind::Panda,
        CharacterKind::Panda => CharacterKind::Bee,
        CharacterKind::Bee => CharacterKind::Penguin,
        CharacterKind::Penguin => CharacterKind::Chick,
        CharacterKind::Chick => CharacterKind::Cat,
    }
}

pub open spec fn spec_previous_character_kind(kind: CharacterKind) -> CharacterKind {
    match kind {
        CharacterKind::Cat => CharacterKind::Chick,
        CharacterKind::Pig => CharacterKind::Cat,
        CharacterKind::Dog => CharacterKind::Pig,
        CharacterKind::Fox => CharacterKind::Dog,
        CharacterKind::Panda => CharacterKind::Fox,
        CharacterKind::Bee => CharacterKind::Panda,
        CharacterKind::Penguin => CharacterKind::Bee,
        CharacterKind::Chick => CharacterKind::Penguin,
    }
}

/// The character that [`next_character_kind`] leads from.
#[verifier::when_used_as_spec(spec_previous_character_kind)]
pub fn previous_character_kind(kind: CharacterKind) -> (previous: CharacterKind)
    ensures
        previous == spec_previous_character_kind(kind),
{
    match kind {
        CharacterKind::Cat => CharacterKind::Chick,
        CharacterKind::Pig => CharacterKind::Cat,
        CharacterKind::Dog => CharacterKind::Pig,
        CharacterKind::Fox => CharacterKind::Dog,
        CharacterKind::Panda => CharacterKind::Fox,
        CharacterKind::Bee => CharacterKind::Panda,
        CharacterKind::Penguin => CharacterKind::Bee,
        CharacterKind::Chick => CharacterKind::Penguin,
    }
}

/// Cycling forwards and backwards undo each other.
pub proof fn character_cycles_are_inverse(kind: CharacterKind)
    ensures
        previous_character_kind(next_character_kind(kind)) == kind,
        next_character_kind(previous_character_kind(kind)) == kind,
{
}

pub open spec fn spec_next_style_kind(kind: FighterStyleKind) -> FighterStyleKind {
    match kind {
        FighterStyleKind::Anchor => FighterStyleKind::Vector,
        FighterStyleKind::Vector => FighterStyleKind::Catalyst,
        FighterStyleKind::Catalyst => FighterStyleKind::Anchor,
    }
}

#[verifier::when_used_as_spec(spec_next_style_kind)]
pub fn next_style_kind(kind: FighterStyleKind) -> (next: FighterStyleKind)
    ensures
        next == spec_next_style_kind(kind),
{
    match kind {
        FighterStyleKind::Anchor => FighterStyleKind::Vector,
        FighterStyleKind::Vector => FighterStyleKind::Catalyst,
        FighterStyleKind::Catalyst => FighterStyleKind::Anchor,
    }
}

pub open spec fn spec_next_equipment_kind(kind: EquipmentKind) -> EquipmentKind {
    match kind {
        EquipmentKind::DashCoil => EquipmentKind::AerialSpur,
        EquipmentKind::AerialSpur => EquipmentKind::CounterCell,
        EquipmentKind::CounterCell => EquipmentKind::HeavySeal,
        EquipmentKind::HeavySeal => EquipmentKind::DashCoil,
    }
}

#[verifier::when_used_as_spec(spec_next_equipment_kind)]
pub fn next_equipment_kind(kind: EquipmentKind) -> (next: EquipmentKind)
    ensures
        next == spec_next_equipment_kind(kind),
{
    match kind {
        EquipmentKind::DashCoil => EquipmentKind::AerialSpur,
        EquipmentKind::AerialSpur => EquipmentKind::CounterCell,
        EquipmentKind::CounterCell => EquipmentKind::HeavySeal,
        EquipmentKind::HeavySeal => EquipmentKind::DashCoil,
    }
}

impl ParticipantKind {
    pub open spec fn spec_occupied(self) -> bool {
        self != ParticipantKind::Closed
    }

    #[verifier::when_used_as_spec(spec_occupied)]
    pub fn is_occupied(self) -> (occupied: bool)
        ensures
            occupied == self.spec_occupied(),
    {
        self != ParticipantKind::Closed
    }
}

/// Who drives a fighter, and by which device.
#[derive(Clone, Copy, Debug, PartialEq, Eq, Structural)]
pub struct Controller {
    pub slot: FighterId,
    pub participant: ParticipantKind,
    pub input: LocalInputAssignment,
}

impl Controller {
    pub open spec fn spec_closed(slot: FighterId) -> Controller {
        Controller {
            slot,
            participant: ParticipantKind::Closed,
            input: LocalInputAssignment::Unassigned,
        }
    }

    pub fn new(
        slot: FighterId,
        participant: ParticipantKind,
        input: LocalInputAssignment,
    ) -> (controller: Controller)
        ensures
            controller == (Controller { slot, participant, input }),
    {
        Controller { slot, participant, input }
    }

    /// The controller of a seat that nobody sits in.
    #[verifier::when_used_as_spec(spec_closed)]
    pub fn closed(slot: FighterId) -> (controller: Controller)
        ensures
            controller == Controller::spec_closed(slot),
    {
        Controller {
            slot,
            participant: ParticipantKind::Closed,
            input: LocalInputAssignment::Unassigned,
        }
    }

    pub fn is_bot(&self) -> (bot: bool)
        ensures
            bot == (self.participant == ParticipantKind::Bot),
    {
        self.participant == ParticipantKind::Bot
    }

    pub fn is_human(&self) -> (human: bool)
        ensures
            human == (self.participant == ParticipantKind::Human),
    {
        self.participant == ParticipantKind::Human
    }
}

pub open spec fn spec_default_slot_team(fighter_id: int) -> TeamId {
    if fighter_id % 2 == 0 {
        TeamId::Red
    } else {
        TeamId::Blue
    }
}

/// Even seats start on the red team, odd seats on the blue one.
pub fn default_slot_team(fighter_id: usize) -> (team: TeamId)
    ensures
        team == spec_default_slot_team(fighter_id as int),
{
    if fighter_id % 2 == 0 {
        TeamId::Red
    } else {
        TeamId::Blue
    }
}

/// The default team of a seat; there is none beyond the last seat.
pub fn fighter_team(fighter_id: usize) -> (team: Option<TeamId>)
    ensures
        team == (if fighter_id < FIGHTER_COUNT {
            Some(spec_default_slot_team(fighter_id as int))
        } else {
            None
        }),
{
    if fighter_id < FIGHTER_COUNT {
        Some(default_slot_team(fighter_id))
    } else {
        None
    }
}

/// Two seats share a default team.
pub open spec fn spec_default_teammates(first: int, second: int) -> bool {
    &&& 0 <= first < FIGHTER_COUNT
    &&& 0 <= second < FIGHTER_COUNT
    &&& spec_default_slot_team(first) == spec_default_slot_team(second)
}

pub fn fighters_share_team(first_id: usize, second_id: usize) -> (shared: bool)
    ensures
        shared == spec_default_teammates(first_id as int, second_id as int),
{
    match (fighter_team(first_id), fighter_team(second_id)) {
        (Some(first), Some(second)) => first == second,
        _ => false,
    }
}

/// The choices behind one seat.
#[derive(Clone, Copy, Debug, PartialEq, Eq, Structural)]
pub struct SlotSetup {
    pub participant: ParticipantKind,
    pub character: CharacterKind,
    pub style: FighterStyleKind,
    pub equipment: EquipmentKind,
    pub team: TeamId,
    pub input: LocalInputAssignment,
}

/// The loadout with which a seat starts out.
#[derive(Clone, Copy, Debug, PartialEq, Eq, Structural)]
pub struct SeatDefaults {
    pub character: CharacterKind,
    pub style: FighterStyleKind,
    pub equipment: EquipmentKind,
}

impl SlotSetup {
    pub open spec fn spec_default_for(
        fighter_id: int,
        defaults: SeatDefaults,
        participant: ParticipantKind,
        input: LocalInputAssignment,
    ) -> SlotSetup {
        SlotSetup {
            participant,
            character: defaults.character,
            style: defaults.style,
            equipment: defaults.equipment,
            team: spec_default_slot_team(fighter_id),
            input,
        }
    }

    pub fn default_for(
        fighter_id: usize,
        defaults: SeatDefaults,
        participant: ParticipantKind,
        input: LocalInputAssignment,
    ) -> (slot: SlotSetup)
        ensures
            slot == Self::spec_default_for(fighter_id as int, defaults, participant, input),
    {
        SlotSetup {
            participant,
            character: defaults.character,
            style: defaults.style,
            equipment: defaults.equipment,
            team: default_slot_team(fighter_id),
            input,
        }
    }
}

} // verus!

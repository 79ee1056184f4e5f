//! Agreement between a match manifest, the snapshot contract and the local setup
//! before a simulation is built from them.

use vstd::prelude::*;

use crate::ids::{FighterId, FIGHTER_COUNT};
use crate::loadout::{
    CharacterKind, EquipmentKind, FighterStyleKind, ParticipantKind, SlotSetup, TeamId,
};
use crate::match_state::{MatchModel, MatchPhase, MatchState, initial_match};
use crate::rules::{RULE_PRESET_COUNT, rule_preset};
use crate::setup::{LocalSetup, SetupModel};

verus! {

/// Who drives an occupied seat.
#[derive(Clone, Copy, Debug, PartialEq, Eq, Structural)]
pub enum SeatOwner {
    Peer(u64),
    AuthorityBot,
}

/// One seat as all sides agreed on it, by definition numbers.
#[derive(Clone, Copy, Debug, PartialEq, Eq, Structural)]
pub struct ManifestSlot {
    pub occupied: bool,
    pub owner: Option<SeatOwner>,
    pub character: u16,
    pub style: u16,
    pub equipment: u16,
    pub team: u8,
}

/// The match as all sides agreed on it.
#[derive(Debug)]
pub struct MatchManifest {
    pub simulation_version: u16,
    pub protocol_version: u16,
    /// The 64-bit projection of the gameplay content's identity.
    pub gameplay_content_hash: u64,
    pub match_id: Vec<u8>,
    pub master_gameplay_seed: u64,
    pub arena: u16,
    pub rules: u16,
    pub slots: [ManifestSlot; FIGHTER_COUNT],
}

impl MatchManifest {
    /// Every occupied seat has an owner, as in every manifest that is valid itself.
    pub open spec fn seats_owned(&self) -> bool {
        forall|i: int|
            0 <= i < FIGHTER_COUNT && (#[trigger] self.slots@[i]).occupied
                ==> self.slots@[i].owner.is_some()
    }
}

/// What snapshots have to agree on.
#[derive(Debug)]
pub struct SnapshotContract {
    pub simulation_version: u32,
    pub protocol_version: u32,
    pub gameplay_content_hash: u64,
    pub match_id: Vec<u8>,
    pub master_seed: u64,
    pub pool_capacities: Vec<u32>,
}

/// A snapshot contract as a mathematical value.
pub struct ContractModel {
    pub simulation_version: u32,
    pub protocol_version: u32,
    pub gameplay_content_hash: u64,
    pub match_id: Seq<u8>,
    pub master_seed: u64,
    pub pool_capacities: Seq<u32>,
}

impl View for SnapshotContract {
    type V = ContractModel;

    open spec fn view(&self) -> ContractModel {
        ContractModel {
            simulation_version: self.simulation_version,
            protocol_version: self.protocol_version,
            gameplay_content_hash: self.gameplay_content_hash,
            match_id: self.match_id@,
            master_seed: self.master_seed,
            pool_capacities: self.pool_capacities@,
        }
    }
}

/// What the protocol found wrong with a manifest, by the protocol's own number.
#[derive(Clone, Copy, Debug, PartialEq, Eq, Structural)]
pub struct ManifestFault {
    pub code: u32,
}

/// Why a simulation is not built.
#[derive(Clone, Copy, Debug, PartialEq, Eq)]
pub enum HeadlessBuildError {
    /// The manifest itself is not valid.
    Manifest(ManifestFault),
    ContractMismatch(&'static str),
    SetupMismatch { field: &'static str, fighter: Option<FighterId> },
    ItemCapacity { requested: usize, rejected: usize },
}

/// Everything needed to build one simulation.
pub struct HeadlessMatchConfig {
    pub manifest: MatchManifest,
    pub snapshot_contract: SnapshotContract,
    pub local_setup: LocalSetup,
}

pub open spec fn spec_style_definition_id(style: FighterStyleKind) -> u16 {
    match style {
        FighterStyleKind::Anchor => 0,
        FighterStyleKind::Vector => 1,
        FighterStyleKind::Catalyst => 2,
    }
}

#[verifier::when_used_as_spec(spec_style_definition_id)]
pub fn style_definition_id(style: FighterStyleKind) -> (id: u16)
    ensures
        id == spec_style_definition_id(style),
{
    match style {
        FighterStyleKind::Anchor => 0,
        FighterStyleKind::Vector => 1,
        FighterStyleKind::Catalyst => 2,
    }
}

pub open spec fn spec_equipment_definition_id(equipment: EquipmentKind) -> u16 {
    match equipment {
        EquipmentKind::DashCoil => 0,
        EquipmentKind::AerialSpur => 1,
        EquipmentKind::CounterCell => 2,
        EquipmentKind::HeavySeal => 3,
    }
}

#[verifier::when_used_as_spec(spec_equipment_definition_id)]
pub fn equipment_definition_id(equipment: EquipmentKind) -> (id: u16)
    ensures
        id == spec_equipment_definition_id(equipment),
{
    match equipment {
        EquipmentKind::DashCoil => 0,
        EquipmentKind::AerialSpur => 1,
        EquipmentKind::CounterCell => 2,
        EquipmentKind::HeavySeal => 3,
    }
}

pub open spec fn spec_team_definition_id(team: TeamId) -> u8 {
    match team {
        TeamId::Red => 0,
        TeamId::Blue => 1,
    }
}

#[verifier::when_used_as_spec(spec_team_definition_id)]
pub fn team_definition_id(team: TeamId) -> (id: u8)
    ensures
        id == spec_team_definition_id(team),
{
    match team {
        TeamId::Red => 0,
        TeamId::Blue => 1,
    }
}

/// The character with a definition number, in roster order.
pub open spec fn spec_character_for_definition(id: u16) -> Option<CharacterKind> {
    if id == 0 {
        Some(CharacterKind::Cat)
    } else if id == 1 {
        Some(CharacterKind::Pig)
    } else if id == 2 {
        Some(CharacterKind::Dog)
    } else if id == 3 {
        Some(CharacterKind::Fox)
    } else if id == 4 {
        Some(CharacterKind::Panda)
    } else if id == 5 {
        Some(CharacterKind::Bee)
    } else if id == 6 {
        Some(CharacterKind::Penguin)
    } else if id == 7 {
        Some(CharacterKind::Chick)
    } else {
        None
    }
}

#[verifier::when_used_as_spec(spec_character_for_definition)]
pub fn character_for_definition(id: u16) -> (character: Option<CharacterKind>)
    ensures
        character == spec_character_for_definition(id),
{
    match id {
        0 => Some(CharacterKind::Cat),
        1 => Some(CharacterKind::Pig),
        2 => Some(CharacterKind::Dog),
        3 => Some(CharacterKind::Fox),
        4 => Some(CharacterKind::Panda),
        5 => Some(CharacterKind::Bee),
        6 => Some(CharacterKind::Penguin),
        7 => Some(CharacterKind::Chick),
        _ => None,
    }
}

/// The one contract that a manifest implies.
pub open spec fn contract_for_manifest(
    manifest: &MatchManifest,
    pool_capacities: Seq<u32>,
) -> ContractModel {
    ContractModel {
        simulation_version: manifest.simulation_version as u32,
        protocol_version: manifest.protocol_version as u32,
        gameplay_content_hash: manifest.gameplay_content_hash,
        match_id: manifest.match_id@,
        master_seed: manifest.master_gameplay_seed,
        pool_capacities,
    }
}

fn copy_bytes(bytes: &Vec<u8>) -> (copy: Vec<u8>)
    ensures
        copy@ == bytes@,
{
    let mut copy: Vec<u8> = Vec::new();
    let mut next: usize = 0;
    while next < bytes.len()
        invariant
            next <= bytes@.len(),
            copy@ == bytes@.take(next as int),
        decreases bytes@.len() - next,
    {
        copy.push(bytes[next]);
        next += 1;
        proof {
            assert(copy@ =~= bytes@.take(next as int));
        }
    }
    proof {
        assert(bytes@.take(next as int) =~= bytes@);
    }
    copy
}

fn copy_capacities(capacities: &Vec<u32>) -> (copy: Vec<u32>)
    ensures
        copy@ == capacities@,
{
    let mut copy: Vec<u32> = Vec::new();
    let mut next: usize = 0;
    while next < capacities.len()
        invariant
            next <= capacities@.len(),
            copy@ == capacities@.take(next as int),
        decreases capacities@.len() - next,
    {
        copy.push(capacities[next]);
        next += 1;
        proof {
            assert(copy@ =~= capacities@.take(next as int));
        }
    }
    proof {
        assert(capacities@.take(next as int) =~= capacities@);
    }
    copy
}

fn bytes_agree(left: &Vec<u8>, right: &Vec<u8>) -> (agree: bool)
    ensures
        agree == (left@ == right@),
{
    if left.len() != right.len() {
        return false;
    }
    let mut next: usize = 0;
    while next < left.len()
        invariant
            next <= left@.len(),
            left@.len() == right@.len(),
            forall|i: int| 0 <= i < next ==> left@[i] == right@[i],
        decreases left@.len() - next,
    {
        if left[next] != right[next] {
            return false;
        }
        next += 1;
    }
    proof {
        assert(left@ =~= right@);
    }
    true
}

fn capacities_agree(left: &Vec<u32>, right: &Vec<u32>) -> (agree: bool)
    ensures
        agree == (left@ == right@),
{
    if left.len() != right.len() {
        return false;
    }
    let mut next: usize = 0;
    while next < left.len()
        invariant
            next <= left@.len(),
            left@.len() == right@.len(),
            forall|i: int| 0 <= i < next ==> left@[i] == right@[i],
        decreases left@.len() - next,
    {
        if left[next] != right[next] {
            return false;
        }
        next += 1;
    }
    proof {
        assert(left@ =~= right@);
    }
    true
}

pub fn snapshot_contract_for_manifest(
    manifest: &MatchManifest,
    pool_capacities: &Vec<u32>,
) -> (contract: SnapshotContract)
    ensures
        contract@ == contract_for_manifest(manifest, pool_capacities@),
{
    SnapshotContract {
        simulation_version: manifest.simulation_version as u32,
        protocol_version: manifest.protocol_version as u32,
        gameplay_content_hash: manifest.gameplay_content_hash,
        match_id: copy_bytes(&manifest.match_id),
        master_seed: manifest.master_gameplay_seed,
        pool_capacities: copy_capacities(pool_capacities),
    }
}

/// The first field in which two contracts differ.
pub open spec fn contract_difference(
    contract: ContractModel,
    expected: ContractModel,
) -> Option<&'static str> {
    if contract.simulation_version != expected.simulation_version {
        Some("simulation version")
    } else if contract.protocol_version != expected.protocol_version {
        Some("protocol version")
    } else if contract.gameplay_content_hash != expected.gameplay_content_hash {
        Some("gameplay content hash")
    } else if contract.match_id != expected.match_id {
        Some("match ID")
    } else if contract.master_seed != expected.master_seed {
        Some("master seed")
    } else if contract.pool_capacities != expected.pool_capacities {
        Some("simulation entity pool capacities")
    } else {
        None
    }
}

/// A contract that differs in no field is the implied one.
pub proof fn agreeing_contracts_are_equal(contract: ContractModel, expected: ContractModel)
    ensures
        contract_difference(contract, expected).is_none() <==> contract == expected,
{
}

pub fn validate_snapshot_contract(
    manifest: &MatchManifest,
    contract: &SnapshotContract,
    pool_capacities: &Vec<u32>,
) -> (result: Result<(), HeadlessBuildError>)
    ensures
        result == (match contract_difference(
            contract@,
            contract_for_manifest(manifest, pool_capacities@),
        ) {
            Some(field) => Err(HeadlessBuildError::ContractMismatch(field)),
            None => Ok(()),
        }),
{
    let expected = snapshot_contract_for_manifest(manifest, pool_capacities);
    if contract.simulation_version != expected.simulation_version {
        return Err(HeadlessBuildError::ContractMismatch("simulation version"));
    }
    if contract.protocol_version != expected.protocol_version {
        return Err(HeadlessBuildError::ContractMismatch("protocol version"));
    }
    if contract.gameplay_content_hash != expected.gameplay_content_hash {
        return Err(HeadlessBuildError::ContractMismatch("gameplay content hash"));
    }
    if !bytes_agree(&contract.match_id, &expected.match_id) {
        return Err(HeadlessBuildError::ContractMismatch("match ID"));
    }
    if contract.master_seed != expected.master_seed {
        return Err(HeadlessBuildError::ContractMismatch("master seed"));
    }
    if !capacities_agree(&contract.pool_capacities, &expected.pool_capacities) {
        return Err(HeadlessBuildError::ContractMismatch("simulation entity pool capacities"));
    }
    Ok(())
}

/// Who has to sit in a manifest seat.
pub open spec fn expected_participant(slot: ManifestSlot) -> ParticipantKind {
    if !slot.occupied {
        ParticipantKind::Closed
    } else if slot.owner == Some(SeatOwner::AuthorityBot) {
        ParticipantKind::Bot
    } else {
        ParticipantKind::Human
    }
}

/// The first field in which a local seat differs from its manifest seat. The
/// loadout of a closed seat and the device of any seat do not matter.
pub open spec fn seat_difference(slot: SlotSetup, manifest_slot: ManifestSlot) -> Option<
    &'static str,
> {
    if slot.participant != expected_participant(manifest_slot) {
        Some("participant")
    } else if !manifest_slot.occupied {
        None
    } else if character_for_definition(manifest_slot.character) != Some(slot.character) {
        Some("character")
    } else if style_definition_id(slot.style) != manifest_slot.style {
        Some("style")
    } else if equipment_definition_id(slot.equipment) != manifest_slot.equipment {
        Some("equipment")
    } else if team_definition_id(slot.team) != manifest_slot.team {
        Some("team")
    } else {
        None
    }
}

/// What is wrong with a seat, as an error.
pub open spec fn seat_error(
    setup: SetupModel,
    manifest: &MatchManifest,
    fighter: FighterId,
) -> Option<HeadlessBuildError> {
    let i = fighter.spec_index() as int;
    match seat_difference(setup.slots[i], manifest.slots@[i]) {
        Some(field) => Some(HeadlessBuildError::SetupMismatch { field, fighter: Some(fighter) }),
        None => None,
    }
}

/// The first of two faults.
pub open spec fn first_fault(
    first: Option<HeadlessBuildError>,
    second: Option<HeadlessBuildError>,
) -> Option<HeadlessBuildError> {
    match first {
        Some(fault) => Some(fault),
        None => second,
    }
}

/// What is wrong with a local setup: the arena, the rules and the seed first, then
/// the seats in fighter order.
pub open spec fn setup_error(
    setup: SetupModel,
    manifest: &MatchManifest,
    arena_count: usize,
) -> Option<HeadlessBuildError> {
    if setup.arena_index != manifest.arena as usize || setup.arena_index >= arena_count {
        Some(HeadlessBuildError::SetupMismatch { field: "arena", fighter: None })
    } else if setup.rule_index != manifest.rules as usize || setup.rule_index
        >= RULE_PRESET_COUNT {
        Some(HeadlessBuildError::SetupMismatch { field: "rules", fighter: None })
    } else if setup.replay_seed != manifest.master_gameplay_seed {
        Some(HeadlessBuildError::SetupMismatch { field: "master gameplay seed", fighter: None })
    } else {
        first_fault(
            seat_error(setup, manifest, FighterId::Zero),
            first_fault(
                seat_error(setup, manifest, FighterId::One),
                first_fault(
                    seat_error(setup, manifest, FighterId::Two),
                    seat_error(setup, manifest, FighterId::Three),
                ),
            ),
        )
    }
}

fn setup_mismatch(field: &'static str, fighter: Option<FighterId>) -> (error: HeadlessBuildError)
    ensures
        error == (HeadlessBuildError::SetupMismatch { field, fighter }),
{
    HeadlessBuildError::SetupMismatch { field, fighter }
}

fn validate_seat(setup: &LocalSetup, manifest: &MatchManifest, fighter: FighterId) -> (result:
    Result<(), HeadlessBuildError>)
    requires
        manifest.seats_owned(),
    ensures
        result == (match seat_error(setup@, manifest, fighter) {
            Some(fault) => Err(fault),
            None => Ok(()),
        }),
{
    let index: usize = fighter.index();
    let slot = setup.slots[index];
    let manifest_slot = manifest.slots[index];
    let expected = if !manifest_slot.occupied {
        ParticipantKind::Closed
    } else {
        match manifest_slot.owner {
            Some(SeatOwner::AuthorityBot) => ParticipantKind::Bot,
            _ => ParticipantKind::Human,
        }
    };
    if slot.participant != expected {
        return Err(setup_mismatch("participant", Some(fighter)));
    }
    if !manifest_slot.occupied {
        return Ok(());
    }
    let same_character = match character_for_definition(manifest_slot.character) {
        Some(character) => character == slot.character,
        None => false,
    };
    if !same_character {
        return Err(setup_mismatch("character", Some(fighter)));
    }
    if style_definition_id(slot.style) != manifest_slot.style {
        return Err(setup_mismatch("style", Some(fighter)));
    }
    if equipment_definition_id(slot.equipment) != manifest_slot.equipment {
        return Err(setup_mismatch("equipment", Some(fighter)));
    }
    if team_definition_id(slot.team) != manifest_slot.team {
        return Err(setup_mismatch("team", Some(fighter)));
    }
    Ok(())
}

/// Holds a local setup against a manifest that is valid itself.
pub fn validate_local_setup(
    manifest: &MatchManifest,
    setup: &LocalSetup,
    arena_count: usize,
) -> (result: Result<(), HeadlessBuildError>)
    requires
        manifest.seats_owned(),
    ensures
        result == (match setup_error(setup@, manifest, arena_count) {
            Some(fault) => Err(fault),
            None => Ok(()),
        }),
{
    if setup.arena_index != manifest.arena as usize || setup.arena_index >= arena_count {
        return Err(setup_mismatch("arena", None));
    }
    if setup.rule_index != manifest.rules as usize || setup.rule_index >= RULE_PRESET_COUNT {
        return Err(setup_mismatch("rules", None));
    }
    if setup.replay_seed != manifest.master_gameplay_seed {
        return Err(setup_mismatch("master gameplay seed", None));
    }
    match validate_seat(setup, manifest, FighterId::Zero) {
        Ok(()) => {},
        Err(fault) => {
            return Err(fault);
        },
    }
    match validate_seat(setup, manifest, FighterId::One) {
        Ok(()) => {},
        Err(fault) => {
            return Err(fault);
        },
    }
    match validate_seat(setup, manifest, FighterId::Two) {
        Ok(()) => {},
        Err(fault) => {
            return Err(fault);
        },
    }
    validate_seat(setup, manifest, FighterId::Three)
}

impl HeadlessMatchConfig {
    /// What is wrong with the whole: the manifest itself first, then the contract,
    /// then the setup.
    pub open spec fn fault(
        &self,
        manifest_check: Result<(), ManifestFault>,
        pool_capacities: Seq<u32>,
        arena_count: usize,
    ) -> Option<HeadlessBuildError> {
        first_fault(
            match manifest_check {
                Ok(_) => None,
                Err(fault) => Some(HeadlessBuildError::Manifest(fault)),
            },
            first_fault(
                match contract_difference(
                    self.snapshot_contract@,
                    contract_for_manifest(&self.manifest, pool_capacities),
                ) {
                    Some(field) => Some(HeadlessBuildError::ContractMismatch(field)),
                    None => None,
                },
                setup_error(self.local_setup@, &self.manifest, arena_count),
            ),
        )
    }

    /// Judges the whole. `manifest_check` is what the protocol says of the manifest
    /// itself, which comes first.
    pub fn validate(
        &self,
        manifest_check: Result<(), ManifestFault>,
        pool_capacities: &Vec<u32>,
        arena_count: usize,
    ) -> (result: Result<(), HeadlessBuildError>)
        requires
            manifest_check.is_ok() ==> self.manifest.seats_owned(),
        ensures
            result == (match self.fault(manifest_check, pool_capacities@, arena_count) {
                Some(fault) => Err(fault),
                None => Ok(()),
            }),
    {
        match manifest_check {
            Ok(()) => {},
            Err(fault) => {
                return Err(HeadlessBuildError::Manifest(fault));
            },
        }
        match validate_snapshot_contract(
            &self.manifest,
            &self.snapshot_contract,
            pool_capacities,
        ) {
            Ok(()) => {},
            Err(fault) => {
                return Err(fault);
            },
        }
        validate_local_setup(&self.manifest, &self.local_setup, arena_count)
    }
}

/// The match with which a validated simulation starts: fighting at once, under the
/// setup's rules and arena and the agreed seed.
pub fn headless_match_state(setup: &LocalSetup, master_seed: u64) -> (state: MatchState)
    ensures
        state@ == (MatchModel {
            rules: rule_preset(setup.rule_index),
            rule_index: setup.rule_index,
            arena_index: setup.arena_index,
            replay_seed: master_seed,
            ..initial_match()
        }).with_setup(setup@).restarted(),
        state.phase == MatchPhase::Fighting,
{
    let mut state = MatchState::new();
    state.rule_index = setup.rule_index;
    state.rules = setup.active_rule();
    state.arena_index = setup.arena_index;
    state.replay_seed = master_seed;
    state.apply_local_setup(setup);
    state.reset_for_new_match();
    state
}

/// All item anchors of an arena have to find room.
pub fn check_item_capacity(requested: usize, rejected: usize) -> (result: Result<
    (),
    HeadlessBuildError,
>)
    ensures
        result == (if rejected != 0 {
            Err::<(), HeadlessBuildError>(HeadlessBuildError::ItemCapacity { requested, rejected })
        } else {
            Ok(())
        }),
{
    if rejected != 0 {
        Err(HeadlessBuildError::ItemCapacity { requested, rejected })
    } else {
        Ok(())
    }
}

/// Local devices never decide: setups that differ only in them are judged alike.
pub proof fn devices_do_not_matter(
    left: SetupModel,
    right: SetupModel,
    manifest: &MatchManifest,
    arena_count: usize,
)
    requires
        left.rule_index == right.rule_index,
        left.arena_index == right.arena_index,
        left.replay_seed == right.replay_seed,
        left.slots.len() == FIGHTER_COUNT,
        right.slots.len() == FIGHTER_COUNT,
        forall|i: int|
            0 <= i < FIGHTER_COUNT ==> (#[trigger] left.slots[i]) == (SlotSetup {
                input: left.slots[i].input,
                ..right.slots[i]
            }),
    ensures
        setup_error(left, manifest, arena_count) == setup_error(right, manifest, arena_count),
{
    assert(left.slots[0].participant == right.slots[0].participant);
    assert(left.slots[1].participant == right.slots[1].participant);
    assert(left.slots[2].participant == right.slots[2].participant);
    assert(left.slots[3].participant == right.slots[3].participant);
}

/// Definition numbers tell loadouts apart.
pub proof fn definition_ids_are_distinct(
    style: FighterStyleKind,
    other_style: FighterStyleKind,
    equipment: EquipmentKind,
    other_equipment: EquipmentKind,
    team: TeamId,
    other_team: TeamId,
)
    ensures
        style_definition_id(style) == style_definition_id(other_style) <==> style == other_style,
        equipment_definition_id(equipment) == equipment_definition_id(other_equipment)
            <==> equipment == other_equipment,
        team_definition_id(team) == team_definition_id(other_team) <==> team == other_team,
{
}

} // verus!

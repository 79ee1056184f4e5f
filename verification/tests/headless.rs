use arena_fighter::action::FighterAction;
use arena_fighter::fighter::FighterTuning;
use arena_fighter::headless::{
    HeadlessBuildError, HeadlessMatchConfig, ManifestFault, ManifestSlot, MatchManifest, SeatOwner,
    character_for_definition, check_item_capacity, equipment_definition_id, headless_match_state,
    snapshot_contract_for_manifest, style_definition_id, team_definition_id,
};
use arena_fighter::ids::FighterId;
use arena_fighter::loadout::{
    CharacterKind, EquipmentKind, FighterStyleKind, LocalInputAssignment, ParticipantKind,
    SeatDefaults, TeamId,
};
use arena_fighter::match_state::MatchPhase;
use arena_fighter::scalar::{Scalar, SimVec3};
use arena_fighter::schedule::{
    CANONICAL_SYSTEM_COUNT, CanonicalSystem, SimulationSet, canonical_fixed_schedule,
    runs_only_in_fights,
};
use arena_fighter::setup::LocalSetup;
use arena_fighter::spawn::{StartFacing, bootstrap_canonical_fighters};
use arena_fighter::ticks::TickTimer;

const ARENA_COUNT: usize = 10;

fn s(value: f32) -> Scalar {
    Scalar::from_bits(value.to_bits())
}

fn capacities() -> Vec<u32> {
    vec![4, 32, 64]
}

fn setup() -> LocalSetup {
    let seat = SeatDefaults {
        character: CharacterKind::Cat,
        style: FighterStyleKind::Anchor,
        equipment: EquipmentKind::CounterCell,
    };
    let mut setup = LocalSetup::from_defaults([
        seat,
        SeatDefaults { character: CharacterKind::Pig, ..seat },
        seat,
        seat,
    ]);
    setup.replay_seed = 77;
    setup
}

fn slot(setup: &LocalSetup, fighter: usize, owner: Option<SeatOwner>) -> ManifestSlot {
    let seat = setup.slot(fighter).unwrap();
    ManifestSlot {
        occupied: seat.participant.is_occupied(),
        owner,
        character: if seat.character == CharacterKind::Cat { 0 } else { 1 },
        style: style_definition_id(seat.style),
        equipment: equipment_definition_id(seat.equipment),
        team: team_definition_id(seat.team),
    }
}

fn manifest() -> MatchManifest {
    let setup = setup();
    MatchManifest {
        simulation_version: 3,
        protocol_version: 5,
        gameplay_content_hash: 0x1234_5678_9abc_def0,
        match_id: vec![1, 2, 3],
        master_gameplay_seed: 77,
        arena: 0,
        rules: 0,
        slots: [
            slot(&setup, 0, Some(SeatOwner::Peer(9))),
            slot(&setup, 1, Some(SeatOwner::AuthorityBot)),
            slot(&setup, 2, None),
            slot(&setup, 3, None),
        ],
    }
}

fn fixture() -> HeadlessMatchConfig {
    HeadlessMatchConfig {
        manifest: manifest(),
        snapshot_contract: snapshot_contract_for_manifest(&manifest(), &capacities()),
        local_setup: setup(),
    }
}

fn judge(config: &HeadlessMatchConfig) -> Result<(), HeadlessBuildError> {
    config.validate(Ok(()), &capacities(), ARENA_COUNT)
}

#[test]
fn contract_and_setup_disagreement_fail_before_world_construction() {
    assert_eq!(judge(&fixture()), Ok(()));
    let mut bad_contract = fixture();
    bad_contract.snapshot_contract.master_seed ^= 1;
    assert_eq!(judge(&bad_contract), Err(HeadlessBuildError::ContractMismatch("master seed")));

    let mut bad_setup = fixture();
    bad_setup.local_setup.slots[0].input = LocalInputAssignment::Keyboard(9);
    assert!(judge(&bad_setup).is_ok());
    bad_setup.local_setup.slots[0].participant = ParticipantKind::Bot;
    assert_eq!(
        judge(&bad_setup),
        Err(HeadlessBuildError::SetupMismatch {
            field: "participant",
            fighter: Some(FighterId::Zero)
        })
    );
}

#[test]
fn every_contract_field_is_compared() {
    let mut config = fixture();
    config.snapshot_contract.pool_capacities[1] += 1;
    assert!(matches!(judge(&config), Err(HeadlessBuildError::ContractMismatch(_))));
    let mut config = fixture();
    config.snapshot_contract.match_id.push(4);
    assert!(matches!(judge(&config), Err(HeadlessBuildError::ContractMismatch(_))));
    let mut config = fixture();
    config.snapshot_contract.gameplay_content_hash ^= 1;
    assert!(matches!(judge(&config), Err(HeadlessBuildError::ContractMismatch(_))));
}

#[test]
fn an_invalid_manifest_is_answered_first() {
    let mut config = fixture();
    config.snapshot_contract.master_seed ^= 1;
    config.manifest.slots[1].owner = None;
    let fault = ManifestFault { code: 6 };
    assert_eq!(
        config.validate(Err(fault), &capacities(), ARENA_COUNT),
        Err(HeadlessBuildError::Manifest(fault))
    );
}

#[test]
fn items_need_room() {
    assert_eq!(check_item_capacity(6, 0), Ok(()));
    assert_eq!(
        check_item_capacity(6, 2),
        Err(HeadlessBuildError::ItemCapacity { requested: 6, rejected: 2 })
    );
}

#[test]
fn definition_numbers_name_the_roster() {
    assert_eq!(character_for_definition(0), Some(CharacterKind::Cat));
    assert_eq!(character_for_definition(7), Some(CharacterKind::Chick));
    assert_eq!(character_for_definition(8), None);
    assert_eq!(style_definition_id(FighterStyleKind::Catalyst), 2);
    assert_eq!(equipment_definition_id(EquipmentKind::HeavySeal), 3);
    assert_eq!(team_definition_id(TeamId::Blue), 1);
}

#[test]
fn validated_matches_start_in_the_fight() {
    let state = headless_match_state(&setup(), 77);
    assert_eq!(state.phase, MatchPhase::Fighting);
    assert_eq!(state.replay_seed, 77);
    assert_eq!(state.active_slots, [true, true, false, false]);
}

fn tuning() -> FighterTuning {
    FighterTuning {
        hitstun_light: 14,
        hitstun_heavy: 24,
        quick_stand_after: 10,
        recovery_roll_invulnerable: 18,
        knockdown_duration: 40,
        getup_invulnerable: 20,
        getup_duration: 30,
        guard_break_duration: 60,
        guard_max_duration: 90,
        guard_restart_cooldown: 30,
        guard_start_buffer: 8,
        guard_counter_window: 20,
        guard_step_invulnerable: 12,
        dash_duration: 12,
        dash_slide_duration: 20,
        dash_trail_repeat: 5,
        dash_jump_carry_duration: 24,
        ledge_grace: 6,
        respawn_delay: 60,
        respawn_invulnerable: 90,
        pig_heavy_full_charge_ms: 800,
        pig_heavy_attack_ms: 500,
        max_health: s(100.0),
        max_stamina: s(100.0),
        ultimate_stamina_cost: s(50.0),
        guard_step_stamina_cost: s(12.0),
        guard_counter_health_cost: s(5.0),
        dash_slide_stop_speed_squared: s(0.36),
    }
}

fn point(x: f32) -> SimVec3 {
    SimVec3 { x: s(x), y: s(0.5), z: s(0.0) }
}

#[test]
fn canonical_spawn_builds_fixed_snapshot_slots_without_render_entities() {
    let mut setup = setup();
    setup.slots[1].participant = ParticipantKind::Closed;
    setup.slots[1].input = LocalInputAssignment::Unassigned;
    setup.slots[2].participant = ParticipantKind::Bot;
    setup.slots[2].input = LocalInputAssignment::Unassigned;
    setup.slots[3].participant = ParticipantKind::Human;
    setup.slots[3].input = LocalInputAssignment::Keyboard(1);
    let active_slots = setup.active_slots();
    assert_eq!(active_slots, [true, false, true, true]);

    let points = [point(-3.0), point(3.0), point(-1.0), point(1.0)];
    let fighters = bootstrap_canonical_fighters(&setup, &points, &tuning());
    assert_eq!(fighters.len(), 4);
    for (index, spawned) in fighters.iter().enumerate() {
        assert_eq!(spawned.fighter.index(), index);
        assert_eq!(spawned.spawn, points[index]);
        assert_eq!(spawned.active, active_slots[index]);
        assert_eq!(spawned.controller.participant, setup.slots[index].participant);
        if spawned.active {
            assert_eq!(spawned.action.action, FighterAction::Idle);
            assert_eq!(spawned.stats.respawn_timer, TickTimer::zero());
        } else {
            assert_eq!(spawned.action.action, FighterAction::RingOut);
            assert_eq!(spawned.stats.respawn_timer, TickTimer::indefinite());
        }
    }
    assert_eq!(fighters[0].facing, StartFacing::Positive);
}

#[test]
fn canonical_spawn_order_and_fighter_ids_are_deterministic() {
    let points = [point(-3.0), point(3.0), point(-1.0), point(1.0)];
    let first = bootstrap_canonical_fighters(&setup(), &points, &tuning());
    let second = bootstrap_canonical_fighters(&setup(), &points, &tuning());
    assert_eq!(second, first);
    let ids = first.iter().map(|spawned| spawned.fighter.index()).collect::<Vec<_>>();
    assert_eq!(ids, vec![0, 1, 2, 3]);
}

#[test]
fn the_schedule_holds_every_system_once() {
    let schedule = canonical_fixed_schedule();
    assert_eq!(schedule.len(), CANONICAL_SYSTEM_COUNT);
    let place = |system: CanonicalSystem| {
        let places = schedule
            .iter()
            .enumerate()
            .filter(|(_, scheduled)| scheduled.system == system)
            .map(|(place, _)| place)
            .collect::<Vec<_>>();
        assert_eq!(places.len(), 1);
        places[0]
    };
    assert_eq!(place(CanonicalSystem::AdvanceSimTick), 0);
    assert!(place(CanonicalSystem::ResolveContacts) < place(CanonicalSystem::RingoutAndRespawn));
    assert!(
        place(CanonicalSystem::UpdateFighterState) < place(CanonicalSystem::ApplyFighterMovement)
    );
    assert!(!runs_only_in_fights(SimulationSet::TickStart));
    assert!(runs_only_in_fights(SimulationSet::Movement));
}

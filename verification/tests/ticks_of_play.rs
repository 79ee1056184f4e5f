use arena_fighter::action::{FighterAction, FighterActionState};
use arena_fighter::feedback::{Hitstop, MatchTelemetry};
use arena_fighter::fighter::{
    FighterMeasures, FighterMotor, FighterStats, FighterTuning, MotionCommand, ResourceSpend,
};
use arena_fighter::global_input::{
    GlobalAnnouncement, GlobalContext, GlobalOutcome, GlobalWorld, ResettableFighter,
    announcement_text, apply_global_outcome, character_label, handle_global_input, item_anchors,
    reset_fighter, sync_fighter_with_setup,
};
use arena_fighter::grab::FighterGrabState;
use arena_fighter::ids::FighterId;
use arena_fighter::input::{FighterInput, TechniqueButton};
use arena_fighter::keys::{KeyCode, KeySnapshot};
use arena_fighter::loadout::{CharacterKind, EquipmentKind, FighterStyleKind, SeatDefaults};
use arena_fighter::match_state::{MatchPhase, MatchState};
use arena_fighter::presentation::FighterPresentationKind;
use arena_fighter::scalar::{Scalar, SimVec3};
use arena_fighter::setup::{DEFAULT_REPLAY_SEED, LocalSetup};
use arena_fighter::step::{
    FighterStep, StepContext, StepPresentation, pending_step_intent, update_fighter_state,
};
use arena_fighter::technique::{MoveTable, RawTechnique, TechniqueDefinition, TechniqueId};
use arena_fighter::ticks::{ElapsedTicks, TickTimer};

fn s(value: f32) -> Scalar {
    Scalar::from_bits(value.to_bits())
}

fn tuning() -> FighterTuning {
    FighterTuning {
        hitstun_light: 14,
        hitstun_heavy: 24,
        quick_stand_after: 10,
        recovery_roll_invulnerable: 18,
        knockdown_duration: 40,
        getup_invulnerable: 20,
        getup_duration: 30,
        guard_break_duration: 60,
        guard_max_duration: 90,
        guard_restart_cooldown: 30,
        guard_start_buffer: 8,
        guard_counter_window: 20,
        guard_step_invulnerable: 12,
        dash_duration: 12,
        dash_slide_duration: 20,
        dash_trail_repeat: 5,
        dash_jump_carry_duration: 24,
        ledge_grace: 6,
        respawn_delay: 60,
        respawn_invulnerable: 90,
        pig_heavy_full_charge_ms: 800,
        pig_heavy_attack_ms: 500,
        max_health: s(100.0),
        max_stamina: s(100.0),
        ultimate_stamina_cost: s(50.0),
        guard_step_stamina_cost: s(12.0),
        guard_counter_health_cost: s(5.0),
        dash_slide_stop_speed_squared: s(0.36),
    }
}

fn measures(movement_length_squared: f32) -> FighterMeasures {
    FighterMeasures {
        movement_length_squared: s(movement_length_squared),
        planar_speed_squared: s(0.0),
        guard_source_distance_squared: s(0.0),
        decayed_carry_strength: s(0.0),
        dash_carry_limit: s(0.0),
    }
}

fn table() -> MoveTable {
    let light = TechniqueDefinition {
        id: TechniqueId::CatLight1,
        action: FighterAction::LightAttack1,
        stamina_cost: s(0.0),
    };
    MoveTable {
        definitions: vec![light],
        slots: vec![],
        active: vec![],
        chains: vec![],
        raw: vec![RawTechnique { button: TechniqueButton::A, grounded: true, technique: light }],
        heavy_armor_ticks: None,
    }
}

fn play(
    action: FighterAction,
    input: FighterInput,
    movement: f32,
    hitstop: u64,
) -> FighterStep {
    let table = table();
    let skills = vec![];
    let mut step = FighterStep::new(
        FighterStats::new(s(100.0), s(100.0)),
        FighterMotor::default(),
        FighterActionState { action, ..FighterActionState::default() },
    );
    let context = StepContext {
        owner: FighterId::Zero,
        character: CharacterKind::Cat,
        input,
        measures: measures(movement),
        tuning: tuning(),
        table: &table,
        skills: &skills,
    };
    update_fighter_state(&mut step, &context, &Hitstop { remaining: hitstop });
    step
}

#[test]
fn idle_fighters_start_running_with_the_input() {
    let step = play(FighterAction::Idle, FighterInput::default(), 1.0, 0);
    assert_eq!(step.action.action, FighterAction::Moving);
    let step = play(FighterAction::Moving, FighterInput::default(), 0.0, 0);
    assert_eq!(step.action.action, FighterAction::Idle);
    assert_eq!(step.spend, None);
}

#[test]
fn light_buttons_start_the_light_attack() {
    let input = FighterInput { light: true, ..FighterInput::default() };
    let step = play(FighterAction::Idle, input, 0.0, 0);
    assert_eq!(step.action.action, FighterAction::LightAttack1);
    assert_eq!(step.action.technique_id, Some(TechniqueId::CatLight1));
}

#[test]
fn jump_buttons_take_off() {
    let input = FighterInput { jump: true, ..FighterInput::default() };
    let step = play(FighterAction::Idle, input, 0.0, 0);
    assert_eq!(step.action.action, FighterAction::Jumping);
    assert!(step.motions.contains(&MotionCommand::Jump));
    assert!(!step.motor.grounded);
}

#[test]
fn guard_buttons_guard() {
    let input = FighterInput { guard: true, ..FighterInput::default() };
    let step = play(FighterAction::Idle, input, 0.0, 0);
    assert_eq!(step.action.action, FighterAction::Guarding);
}

#[test]
fn hitstop_freezes_the_action_clock() {
    let input = FighterInput { jump: true, ..FighterInput::default() };
    let step = play(FighterAction::Idle, input, 0.0, 5);
    assert_eq!(step.action.action, FighterAction::Idle);
    assert_eq!(step.action.elapsed, ElapsedTicks::zero());
    assert_eq!(step.motions, vec![]);
}

#[test]
fn fallen_fighters_take_no_step() {
    let input = FighterInput { jump: true, guard: true, ..FighterInput::default() };
    let step = play(FighterAction::RingOut, input, 1.0, 0);
    assert_eq!(step.action.action, FighterAction::RingOut);
    assert_eq!(step.motions, vec![]);
    assert_eq!(step.spend, None::<ResourceSpend>);
}

#[test]
fn steps_become_intents_of_their_fighter() {
    let at = SimVec3 { x: s(1.0), y: s(0.0), z: s(2.0) };
    let raised = SimVec3 { x: s(1.0), y: s(0.5), z: s(2.0) };
    let facing = SimVec3 { x: s(1.0), y: s(0.0), z: s(0.0) };
    let intent =
        pending_step_intent(FighterId::Two, "Fox", StepPresentation::DashTrail, at, raised, facing);
    assert_eq!(intent.fighter, FighterId::Two);
    assert!(matches!(intent.kind, FighterPresentationKind::DashTrail { .. }));
    let done = pending_step_intent(
        FighterId::Two,
        "Fox",
        StepPresentation::RecoveryCompleted,
        at,
        raised,
        facing,
    );
    assert_eq!(done.kind, FighterPresentationKind::RecoveryCompleted);
}

fn press(keys: &[KeyCode]) -> KeySnapshot {
    KeySnapshot { pressed: keys.to_vec(), just_pressed: keys.to_vec(), just_released: vec![] }
}

fn context() -> GlobalContext {
    GlobalContext {
        dev_input_blocked: false,
        editor_allows_setup: true,
        hides_dev_controls: false,
        gameplay_ready: true,
        item_assets_ready: true,
        first_fighter_present: true,
        arena_count: 3,
    }
}

fn world() -> GlobalWorld {
    let seat = SeatDefaults {
        character: CharacterKind::Cat,
        style: FighterStyleKind::Anchor,
        equipment: EquipmentKind::CounterCell,
    };
    GlobalWorld {
        setup: LocalSetup::from_defaults([seat; 4]),
        state: MatchState::new(),
        telemetry: MatchTelemetry::new(),
        hitstop: Hitstop { remaining: 9 },
        outcome: GlobalOutcome::nothing(),
    }
}

#[test]
fn menu_keys_choose_arena_and_rules() {
    let mut world = world();
    handle_global_input(&mut world, &press(&[KeyCode::KeyA, KeyCode::Digit2]), &context());
    assert_eq!(world.setup.arena_index, 1);
    assert_eq!(world.setup.rule_index, 1);
    assert_eq!(world.outcome.active_arena, Some(1));
}

#[test]
fn enter_starts_the_fight_with_the_chosen_setup() {
    let mut world = world();
    handle_global_input(&mut world, &press(&[KeyCode::Enter]), &context());
    assert_eq!(world.state.phase, MatchPhase::Fighting);
    assert_eq!(world.outcome.announcement, Some(GlobalAnnouncement::Fight));
    assert!(world.outcome.reset_world);
    assert_eq!(world.state.replay_seed, DEFAULT_REPLAY_SEED);
}

#[test]
fn blocked_keys_change_nothing_at_all() {
    let mut world = world();
    let blocked = GlobalContext { dev_input_blocked: true, ..context() };
    handle_global_input(&mut world, &press(&[KeyCode::Enter, KeyCode::KeyA]), &blocked);
    assert_eq!(world.state.phase, MatchPhase::Setup);
    assert_eq!(world.setup.arena_index, 0);
    assert_eq!(world.outcome, GlobalOutcome::nothing());
}

#[test]
fn announcements_have_words() {
    assert_eq!(character_label(CharacterKind::Penguin), "Penguin");
    let (text, millis) = announcement_text(GlobalAnnouncement::PlayerCharacter(CharacterKind::Pig));
    assert!(text.contains(character_label(CharacterKind::Pig)));
    assert!(millis > 0);
}

fn at(x: f32) -> SimVec3 {
    SimVec3 { x: s(x), y: s(0.5), z: s(0.0) }
}

fn worn_fighter() -> ResettableFighter {
    ResettableFighter {
        stats: FighterStats {
            health: s(3.0),
            respawn_timer: TickTimer::from_ticks(9),
            ..FighterStats::new(s(100.0), s(100.0))
        },
        motor: FighterMotor { knockdown_on_land: true, reaction_bounces: 2, ..FighterMotor::default() },
        input: FighterInput { jump: true, ..FighterInput::default() },
        action: FighterActionState {
            action: FighterAction::Knockdown,
            ..FighterActionState::default()
        },
        grab: FighterGrabState {
            holding: Some(FighterId::One),
            held_by: None,
            regrab_lockout: TickTimer::from_ticks(4),
        },
        special_cooldown: s(2.0),
        held_item: Some(3),
        position: at(4.0),
        spawn: at(1.0),
        halted: false,
        visible: false,
    }
}

#[test]
fn resets_bring_fighters_back_whole() {
    let mut fighter = worn_fighter();
    reset_fighter(&mut fighter, true, at(-2.0), &tuning());
    assert_eq!(fighter.stats.health, s(100.0));
    assert_eq!(fighter.stats.respawn_timer, TickTimer::zero());
    assert_eq!(fighter.action.action, FighterAction::Idle);
    assert_eq!(fighter.grab.holding, None);
    assert_eq!(fighter.special_cooldown, s(0.0));
    assert!(!fighter.motor.knockdown_on_land);
    assert!(fighter.visible);
    assert_eq!((fighter.position, fighter.spawn), (at(-2.0), at(-2.0)));
    assert!(fighter.halted);
    assert_eq!(fighter.held_item, None);

    let mut closed = worn_fighter();
    reset_fighter(&mut closed, false, at(-2.0), &tuning());
    assert_eq!(closed.action.action, FighterAction::RingOut);
    assert_eq!(closed.stats.respawn_timer, TickTimer::indefinite());
    assert!(!closed.visible);
    assert_eq!((closed.position, closed.spawn), (at(-2.0), at(-2.0)));
    assert!(closed.halted);
    assert_eq!(closed.held_item, None);
}

#[test]
fn requested_resets_come_while_keys_are_blocked() {
    let mut world = world();
    let blocked = GlobalContext { dev_input_blocked: true, ..context() };
    world.state.request_rematch();
    handle_global_input(&mut world, &press(&[]), &blocked);
    assert_eq!(world.state.phase, MatchPhase::Fighting);
    assert!(!world.state.reset_requested);
    assert_eq!(world.state.replay_seed, world.setup.replay_seed);
    assert_eq!(world.telemetry.replay_seed, world.state.replay_seed);

    let spawns = [at(1.0), at(2.0), at(3.0), at(4.0)];
    let mut fighters = [Some(worn_fighter()), None, Some(worn_fighter()), Some(worn_fighter())];
    apply_global_outcome(&world, &mut fighters, &spawns, &tuning());
    assert!(fighters[1].is_none());
    for seat in [0, 2, 3] {
        let fighter = fighters[seat].unwrap();
        let active = world.state.fighter_active(seat);
        assert_eq!((fighter.position, fighter.spawn), (spawns[seat], spawns[seat]));
        assert!(fighter.halted);
        assert_eq!(fighter.held_item, None);
        assert_eq!(fighter.visible, active);
        let action = if active { FighterAction::Idle } else { FighterAction::RingOut };
        assert_eq!(fighter.action.action, action);
    }
}

#[test]
fn the_menu_moves_nobody() {
    let mut world = world();
    handle_global_input(&mut world, &press(&[KeyCode::KeyT]), &context());
    assert!(world.outcome.sync_setup && !world.outcome.reset_world);
    let mut fighters = [Some(worn_fighter()); 4];
    apply_global_outcome(&world, &mut fighters, &[at(9.0); 4], &tuning());
    let fighter = fighters[0].unwrap();
    assert_eq!((fighter.position, fighter.spawn), (at(4.0), at(1.0)));
    assert!(!fighter.halted);
    assert_eq!(fighter.held_item, Some(3));
    assert!(fighter.visible);

    world.outcome = GlobalOutcome::nothing();
    let before = fighters;
    apply_global_outcome(&world, &mut fighters, &[at(9.0); 4], &tuning());
    assert_eq!(fighters, before);
}

#[test]
fn items_go_to_the_anchors_that_there_are() {
    assert_eq!(item_anchors(3, 2), vec![Some(0), Some(1), None]);
    assert_eq!(item_anchors(0, 2), vec![]);
}

#[test]
fn closed_seats_leave_the_arena() {
    let mut fighter = worn_fighter();
    sync_fighter_with_setup(&mut fighter, false);
    assert_eq!(fighter.action.action, FighterAction::RingOut);
    assert!(!fighter.visible);
}

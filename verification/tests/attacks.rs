use arena_fighter::action::{FighterAction, FighterActionState, set_action};
use arena_fighter::air::{
    JUMP_ATTACK_QUEUE_TAKEOFF_REMAINING_MS, bee_air_dash_turns, can_start_ground_jump,
    queued_air_attack_ready, should_return_to_jumping_on_air_attack_completion,
    start_air_attack_by_button, start_dash_jump, start_jump, start_jump_attack,
    start_jump_heavy_attack, start_jump_with_air_attack_queue, try_start_bee_air_dash_x_shot,
    try_start_chick_air_attack_cancel,
};
use arena_fighter::dash::{
    cancel_dash_slide_for_action, dash_finisher_for_input, dash_finisher_lunges, dash_should_stop,
    dash_trail_due, should_return_to_dashing_on_dash_completion,
    start_chick_dash_finisher_from_light_attack, start_dash_finisher_from_dash, start_dash_slide,
    start_pig_dash_heavy_release, tick_pig_heavy_charge,
};
use arena_fighter::fighter::{
    FighterMeasures, FighterMotor, FighterStats, FighterTuning, MotionCommand, ResourceSpend,
};
use arena_fighter::ids::FighterId;
use arena_fighter::input::{FighterInput, TechniqueButton, jump_heavy_pressed, jump_light_pressed};
use arena_fighter::loadout::CharacterKind;
use arena_fighter::scalar::Scalar;
use arena_fighter::start::{
    ActiveChickSkill, ChickSkillKind, can_start_ultimate, chick_light_recall_interrupt_requested,
    raw_technique_special_requirement_met, start_ultimate, try_start_penguin_dash_ultimate,
    try_start_raw_technique, try_start_ultimate_from_input,
};
use arena_fighter::technique::{
    ActiveTechnique, CharacterMoveSlot, MoveSlotEntry, MoveTable, RawTechnique,
    TechniqueDefinition, TechniqueId, attack_duration_for_state,
};
use arena_fighter::ticks::{ElapsedTicks, TickTimer, milliseconds_to_ticks_ceil};

const MAX_STAMINA: f32 = 100.0;

const ULTIMATE_COST: f32 = 50.0;

const CHICK_X_COST: f32 = 15.0;

fn s(value: f32) -> Scalar {
    Scalar::from_bits(value.to_bits())
}

fn ticks(millis: u32) -> u32 {
    milliseconds_to_ticks_ceil(millis)
}

fn timer(millis: u32) -> TickTimer {
    TickTimer::from_ticks(ticks(millis))
}

fn elapsed(millis: u32) -> ElapsedTicks {
    ElapsedTicks::from_ticks(ticks(millis))
}

fn tuning() -> FighterTuning {
    FighterTuning {
        hitstun_light: 14,
        hitstun_heavy: 24,
        quick_stand_after: 10,
        recovery_roll_invulnerable: 18,
        knockdown_duration: 40,
        getup_invulnerable: 20,
        getup_duration: 30,
        guard_break_duration: 60,
        guard_max_duration: 90,
        guard_restart_cooldown: 30,
        guard_start_buffer: 8,
        guard_counter_window: 20,
        guard_step_invulnerable: 12,
        dash_duration: 12,
        dash_slide_duration: 20,
        dash_trail_repeat: 5,
        dash_jump_carry_duration: 24,
        ledge_grace: 6,
        respawn_delay: 60,
        respawn_invulnerable: 90,
        pig_heavy_full_charge_ms: 800,
        pig_heavy_attack_ms: 500,
        max_health: s(100.0),
        max_stamina: s(MAX_STAMINA),
        ultimate_stamina_cost: s(ULTIMATE_COST),
        guard_step_stamina_cost: s(12.0),
        guard_counter_health_cost: s(5.0),
        dash_slide_stop_speed_squared: s(0.36),
    }
}

fn measures(movement_length_squared: f32, planar_speed_squared: f32) -> FighterMeasures {
    FighterMeasures {
        movement_length_squared: s(movement_length_squared),
        planar_speed_squared: s(planar_speed_squared),
        guard_source_distance_squared: s(0.0),
        decayed_carry_strength: s(0.0),
        dash_carry_limit: s(0.0),
    }
}

fn full_stats() -> FighterStats {
    FighterStats::new(s(100.0), s(MAX_STAMINA))
}

fn definition(id: TechniqueId, action: FighterAction, cost: f32) -> TechniqueDefinition {
    TechniqueDefinition { id, action, stamina_cost: s(cost) }
}

fn slot(slot: CharacterMoveSlot, id: TechniqueId, action: FighterAction, cost: f32) -> MoveSlotEntry {
    MoveSlotEntry { slot, technique: Some(id), definition: Some(definition(id, action, cost)) }
}

fn raw(button: TechniqueButton, technique: TechniqueDefinition) -> RawTechnique {
    RawTechnique { button, grounded: true, technique }
}

fn active(id: TechniqueId, action: FighterAction, millis: u32) -> ActiveTechnique {
    ActiveTechnique {
        action,
        technique_id: Some(id),
        id,
        input_buffer_ms: 200,
        duration: ticks(millis),
        whiff_duration: ticks(millis),
        cancel: vec![],
        branch: vec![],
        next_technique: vec![],
    }
}

/// The moves of a character, as far as they are started here.
fn table(character: CharacterKind) -> MoveTable {
    let (dash_light, dash_heavy, jump_light, jump_heavy, startup, rush) = match character {
        CharacterKind::Pig => (
            (TechniqueId::PigComboFinisher, FighterAction::ComboFinisher),
            (TechniqueId::PigHeavy, FighterAction::HeavyAttack),
            TechniqueId::CatJumpAttack,
            TechniqueId::PigJumpHeavy,
            TechniqueId::PigUltimateStartup,
            TechniqueId::PigUltimateRush,
        ),
        CharacterKind::Bee => (
            (TechniqueId::CatDashComboFinisher, FighterAction::ComboFinisher),
            (TechniqueId::CatHeavy2, FighterAction::HeavyAttack2),
            TechniqueId::BeeJumpAttack,
            TechniqueId::BeeJumpHeavy,
            TechniqueId::BeeUltimateStartup,
            TechniqueId::BeeLegacyUltimateRush,
        ),
        CharacterKind::Penguin => (
            (TechniqueId::PenguinDashAttack, FighterAction::DashAttack),
            (TechniqueId::PenguinDashHeavy, FighterAction::DashAttack),
            TechniqueId::PenguinJumpAttack,
            TechniqueId::PenguinJumpHeavy,
            TechniqueId::PenguinUltimateStartup,
            TechniqueId::PenguinUltimateRush,
        ),
        CharacterKind::Chick => (
            (TechniqueId::ChickDashAttack, FighterAction::DashAttack),
            (TechniqueId::ChickDashHeavy, FighterAction::DashAttack),
            TechniqueId::ChickJumpAttack,
            TechniqueId::ChickJumpHeavy,
            TechniqueId::ChickUltimateStartup,
            TechniqueId::ChickUltimateStartup,
        ),
        _ => (
            (TechniqueId::CatDashComboFinisher, FighterAction::ComboFinisher),
            (TechniqueId::CatHeavy2, FighterAction::HeavyAttack2),
            TechniqueId::CatJumpAttack,
            TechniqueId::CatJumpHeavy,
            TechniqueId::CatUltimateStartup,
            TechniqueId::CatUltimateRush,
        ),
    };
    let chick = character == CharacterKind::Chick;
    MoveTable {
        definitions: vec![
            definition(dash_light.0, dash_light.1, 0.0),
            definition(dash_heavy.0, dash_heavy.1, 0.0),
            definition(rush, FighterAction::UltimateRush, 0.0),
        ],
        slots: vec![
            slot(CharacterMoveSlot::DashLight, dash_light.0, dash_light.1, 0.0),
            slot(CharacterMoveSlot::DashHeavy, dash_heavy.0, dash_heavy.1, 0.0),
            slot(CharacterMoveSlot::JumpLight, jump_light, FighterAction::JumpAttack, 0.0),
            slot(CharacterMoveSlot::JumpHeavy, jump_heavy, FighterAction::JumpHeavyAttack, 0.0),
            slot(
                CharacterMoveSlot::UltimateStartup,
                startup,
                FighterAction::UltimateStartup,
                ULTIMATE_COST,
            ),
            slot(CharacterMoveSlot::UltimateRush, rush, FighterAction::UltimateRush, 0.0),
        ],
        active: vec![
            active(TechniqueId::PenguinDashAttack, FighterAction::DashAttack, 160),
            active(TechniqueId::PenguinDashHeavy, FighterAction::DashAttack, 180),
        ],
        chains: vec![],
        raw: vec![
            raw(
                TechniqueButton::A,
                definition(
                    if chick { TechniqueId::ChickLight1 } else { TechniqueId::CatLight1 },
                    FighterAction::LightAttack1,
                    0.0,
                ),
            ),
            raw(
                TechniqueButton::B,
                definition(
                    if chick { TechniqueId::ChickHeavy } else { TechniqueId::CatHeavy },
                    FighterAction::HeavyAttack,
                    if chick { CHICK_X_COST } else { 0.0 },
                ),
            ),
        ],
        heavy_armor_ticks: None,
    }
}

fn in_action(action: FighterAction) -> FighterActionState {
    FighterActionState { action, ..FighterActionState::default() }
}

fn in_technique(action: FighterAction, id: TechniqueId) -> FighterActionState {
    FighterActionState { technique_id: Some(id), ..in_action(action) }
}

fn airborne() -> FighterMotor {
    FighterMotor {
        grounded: false,
        dash_jump_carry_timer: timer(200),
        dash_jump_carry_speed_limit: s(6.0),
        jump_attack_landing_recovery: true,
        bee_air_dash_motion_active: true,
        ..FighterMotor::default()
    }
}

#[test]
fn ultimate_requires_half_max_mp() {
    let motor = FighterMotor::default();
    let mut stats = full_stats();
    stats.stamina = s(ULTIMATE_COST - 0.1);
    assert!(!can_start_ultimate(&motor, &stats, &tuning()));
    stats.stamina = s(ULTIMATE_COST);
    assert!(can_start_ultimate(&motor, &stats, &tuning()));
}

#[test]
fn ultimate_drains_half_max_mp() {
    let mut motor = FighterMotor::default();
    let mut action = FighterActionState::default();
    let technique =
        definition(TechniqueId::CatUltimateStartup, FighterAction::UltimateStartup, ULTIMATE_COST);
    let (spend, motion) = start_ultimate(&mut motor, &mut action, technique);
    assert_eq!(spend, ResourceSpend::UltimateStamina);
    assert_eq!(motion, MotionCommand::BrakeUltimateStart);
}

#[test]
fn bee_ultimate_drains_half_max_mp() {
    let mut motor = FighterMotor::default();
    let mut action = FighterActionState::default();
    let technique =
        definition(TechniqueId::BeeUltimateStartup, FighterAction::UltimateStartup, ULTIMATE_COST);
    let (spend, _) = start_ultimate(&mut motor, &mut action, technique);
    assert_eq!(spend, ResourceSpend::UltimateStamina);
    assert_eq!(ULTIMATE_COST, MAX_STAMINA * 0.5);
    assert_eq!(action.technique_id, Some(TechniqueId::BeeUltimateStartup));
}

#[test]
fn roster_ultimate_inputs_spend_half_max_mp() {
    for character in [
        CharacterKind::Cat,
        CharacterKind::Pig,
        CharacterKind::Dog,
        CharacterKind::Fox,
        CharacterKind::Panda,
        CharacterKind::Bee,
        CharacterKind::Penguin,
        CharacterKind::Chick,
    ] {
        let table = table(character);
        let expected = table.technique_slot(CharacterMoveSlot::UltimateStartup).unwrap();
        let mut motor = FighterMotor { grounded: true, ..FighterMotor::default() };
        let mut action = FighterActionState::default();
        assert_eq!(expected.stamina_cost, s(ULTIMATE_COST));
        let effects = try_start_ultimate_from_input(
            &mut motor,
            &full_stats(),
            &mut action,
            &FighterInput { ultimate: true, ..FighterInput::default() },
            character,
            &tuning(),
            &table,
        );
        assert_eq!(
            effects,
            Some((ResourceSpend::UltimateStamina, MotionCommand::BrakeUltimateStart))
        );
        assert_eq!(action.technique_id, Some(expected.id));
    }
}

#[test]
fn chick_grounded_x_starts_and_drains_fifteen_percent_mp() {
    let technique = table(CharacterKind::Chick)
        .raw_technique_for(TechniqueButton::B, true)
        .unwrap();
    let mut action = FighterActionState::default();
    assert_eq!(technique.id, TechniqueId::ChickHeavy);
    assert_eq!(technique.stamina_cost, s(CHICK_X_COST));
    assert_eq!(
        try_start_raw_technique(&full_stats(), &mut action, technique),
        Some(Some(ResourceSpend::TechniqueStamina(s(CHICK_X_COST))))
    );
    assert_eq!(action.technique_id, Some(TechniqueId::ChickHeavy));
}

#[test]
fn chick_grounded_x_does_not_start_below_cost() {
    let technique = table(CharacterKind::Chick)
        .raw_technique_for(TechniqueButton::B, true)
        .unwrap();
    let stats = FighterStats { stamina: s(CHICK_X_COST - 0.1), ..full_stats() };
    let mut action = FighterActionState::default();
    assert_eq!(try_start_raw_technique(&stats, &mut action, technique), None);
    assert_eq!(action.technique_id, None);
    assert_eq!(action.action, FighterAction::Idle);
}

#[test]
fn other_grounded_heavy_attacks_remain_free() {
    let technique =
        table(CharacterKind::Cat).raw_technique_for(TechniqueButton::B, true).unwrap();
    let mut action = FighterActionState::default();
    assert_eq!(technique.id, TechniqueId::CatHeavy);
    assert_eq!(technique.stamina_cost, s(0.0));
    assert_eq!(try_start_raw_technique(&full_stats(), &mut action, technique), Some(None));
    assert_eq!(action.technique_id, Some(TechniqueId::CatHeavy));
}

fn skill(owner: FighterId, kind: ChickSkillKind) -> Vec<ActiveChickSkill> {
    vec![ActiveChickSkill { owner, kind }]
}

#[test]
fn chick_grounded_c_requires_owned_controllable_egg() {
    let technique = table(CharacterKind::Chick)
        .raw_technique_for(TechniqueButton::A, true)
        .unwrap();
    let owner = FighterId::Zero;
    let other = FighterId::One;
    assert_eq!(technique.id, TechniqueId::ChickLight1);
    assert!(!raw_technique_special_requirement_met(owner, technique, &vec![]));
    for (skills, met) in [
        (skill(other, ChickSkillKind::OrbitEgg), false),
        (skill(owner, ChickSkillKind::ShellChip), false),
        (skill(owner, ChickSkillKind::OrbitEgg), true),
        (skill(owner, ChickSkillKind::OrbitEggLaunch), true),
        (skill(owner, ChickSkillKind::OrbitEggReturn), false),
        (skill(other, ChickSkillKind::OrbitEggLaunch), false),
    ] {
        assert_eq!(raw_technique_special_requirement_met(owner, technique, &skills), met);
    }
}

#[test]
fn other_grounded_light_attacks_do_not_require_orbit_egg() {
    let technique =
        table(CharacterKind::Cat).raw_technique_for(TechniqueButton::A, true).unwrap();
    assert_eq!(technique.id, TechniqueId::CatLight1);
    assert!(raw_technique_special_requirement_met(FighterId::Zero, technique, &vec![]));
}

#[test]
fn chick_c_recall_interrupt_restarts_only_from_owned_launch() {
    let owner = FighterId::Zero;
    let other = FighterId::One;
    let chick_action = in_technique(FighterAction::LightAttack1, TechniqueId::ChickLight1);
    let input = FighterInput { raw_light_pressed: true, ..FighterInput::default() };
    for (skills, requested) in [
        (skill(owner, ChickSkillKind::OrbitEggLaunch), true),
        (vec![], false),
        (skill(other, ChickSkillKind::OrbitEggLaunch), false),
        (skill(owner, ChickSkillKind::OrbitEgg), false),
        (skill(owner, ChickSkillKind::OrbitEggReturn), false),
    ] {
        assert_eq!(
            chick_light_recall_interrupt_requested(owner, &chick_action, &input, &skills),
            requested
        );
    }
    let launch = skill(owner, ChickSkillKind::OrbitEggLaunch);
    assert!(!chick_light_recall_interrupt_requested(
        owner,
        &in_technique(FighterAction::LightAttack1, TechniqueId::CatLight1),
        &input,
        &launch
    ));
    assert!(!chick_light_recall_interrupt_requested(
        owner,
        &chick_action,
        &FighterInput::default(),
        &launch
    ));
}

#[test]
fn jump_attack_selection_uses_held_attack_buttons_on_jump_frame() {
    let heavy_jump = FighterInput { jump: true, heavy_held: true, ..FighterInput::default() };
    let light_jump = FighterInput { jump: true, light_held: true, ..FighterInput::default() };
    let guarded_jump = FighterInput {
        jump: true,
        light_held: true,
        heavy_held: true,
        guard: true,
        ..FighterInput::default()
    };
    assert!(jump_heavy_pressed(&heavy_jump));
    assert!(!jump_light_pressed(&heavy_jump));
    assert!(jump_light_pressed(&light_jump));
    assert!(!jump_heavy_pressed(&guarded_jump));
    assert!(!jump_light_pressed(&guarded_jump));
}

#[test]
fn jump_attack_pressed_on_takeoff_is_queued_until_airborne() {
    let mut action = FighterActionState::default();
    let mut motor = FighterMotor::default();
    let motion =
        start_jump_with_air_attack_queue(&mut motor, &mut action, Some(TechniqueButton::B));
    assert_eq!(action.action, FighterAction::Jumping);
    assert_eq!(motor.queued_air_attack, Some(TechniqueButton::B));
    assert_eq!(motion, MotionCommand::Jump);
    assert!(!queued_air_attack_ready(&motor));

    motor.jump_takeoff_timer = timer(JUMP_ATTACK_QUEUE_TAKEOFF_REMAINING_MS);
    assert!(queued_air_attack_ready(&motor));

    let motion = start_air_attack_by_button(
        &mut motor,
        &mut action,
        TechniqueButton::B,
        &table(CharacterKind::Pig),
    );
    assert_eq!(action.action, FighterAction::JumpHeavyAttack);
    assert_eq!(action.technique_id, Some(TechniqueId::PigJumpHeavy));
    assert_eq!(motor.queued_air_attack, None);
    assert_eq!(motion, Some(MotionCommand::PigMeatSlam));
}

#[test]
fn ledge_grace_allows_one_late_ground_jump() {
    let mut motor = FighterMotor {
        grounded: false,
        ledge_grace_timer: timer(60),
        ..FighterMotor::default()
    };
    let mut action = FighterActionState::default();
    assert!(can_start_ground_jump(&motor));
    let motion = start_jump(&mut motor, &mut action);
    assert!(!can_start_ground_jump(&motor));
    assert_eq!(action.action, FighterAction::Jumping);
    assert_eq!(motion, MotionCommand::Jump);
}

#[test]
fn dash_jump_carries_forward_speed_with_authored_caps() {
    let mut action = in_action(FighterAction::Dashing);
    let mut motor = FighterMotor::default();
    let motion = start_dash_jump(&mut motor, &mut action, s(7.5), &tuning());
    assert_eq!(action.action, FighterAction::Jumping);
    assert_eq!(motion, MotionCommand::DashJump);
    assert_eq!(motor.dash_jump_carry_timer, TickTimer::from_ticks(24));
    assert_eq!(motor.dash_jump_carry_speed_limit, s(7.5));
}

#[test]
fn jump_attack_starts_locked_diagonal_dive() {
    let mut action = in_action(FighterAction::Jumping);
    let mut motor = FighterMotor { jump_attack_landing_recovery: false, ..airborne() };
    let motion = start_jump_attack(&mut motor, &mut action, &table(CharacterKind::Cat));
    assert_eq!(action.action, FighterAction::JumpAttack);
    assert!(motor.air_attack_used);
    assert!(motor.jump_attack_landing_recovery);
    assert_eq!(motor.dash_jump_carry_timer, TickTimer::zero());
    assert_eq!(motion, Some(MotionCommand::JumpAttackDive));
}

#[test]
fn bee_jump_attack_flies_forward_and_slightly_upward() {
    let mut action = in_action(FighterAction::Jumping);
    let mut motor = FighterMotor { bee_air_dash_motion_active: false, ..airborne() };
    let motion = start_jump_attack(&mut motor, &mut action, &table(CharacterKind::Bee));
    assert_eq!(action.action, FighterAction::JumpAttack);
    assert_eq!(action.technique_id, Some(TechniqueId::BeeJumpAttack));
    assert!(motor.air_attack_used);
    assert!(!motor.jump_attack_landing_recovery);
    assert!(motor.bee_air_dash_motion_active);
    assert!(motor.bee_air_dash_shot_available);
    assert_eq!(motor.dash_jump_carry_timer, TickTimer::zero());
    assert_eq!(motion, Some(MotionCommand::BeeAirDash));
}

#[test]
fn penguin_jump_attack_shoots_snowflake_without_forcing_dive() {
    let mut action = in_action(FighterAction::Jumping);
    let mut motor = airborne();
    let motion = start_jump_attack(&mut motor, &mut action, &table(CharacterKind::Penguin));
    assert_eq!(action.action, FighterAction::JumpAttack);
    assert_eq!(action.technique_id, Some(TechniqueId::PenguinJumpAttack));
    assert!(!motor.air_attack_used);
    assert!(!motor.jump_attack_landing_recovery);
    assert!(!motor.bee_air_dash_motion_active);
    assert_eq!(motor.dash_jump_carry_timer, TickTimer::zero());
    assert_eq!(motion, Some(MotionCommand::PenguinSnowflakeFloat));
}

#[test]
fn chick_jump_c_starts_updraft_glide_and_preserves_rising_speed() {
    let mut action = in_action(FighterAction::Jumping);
    let mut motor = airborne();
    let motion = start_jump_attack(&mut motor, &mut action, &table(CharacterKind::Chick));
    assert_eq!(action.action, FighterAction::JumpAttack);
    assert_eq!(action.technique_id, Some(TechniqueId::ChickJumpAttack));
    assert!(!motor.grounded);
    assert!(motor.air_attack_used);
    assert!(!motor.jump_attack_landing_recovery);
    assert!(!motor.bee_air_dash_motion_active);
    assert_eq!(motor.dash_jump_carry_timer, TickTimer::zero());
    assert_eq!(motor.dash_jump_carry_speed_limit, s(0.0));
    assert_eq!(motion, Some(MotionCommand::ChickUpdraft));
}

#[test]
fn penguin_jump_heavy_prepares_snowflake_teleport_without_dive() {
    let mut action = in_action(FighterAction::Jumping);
    let mut motor = airborne();
    let motion = start_jump_heavy_attack(&mut motor, &mut action, &table(CharacterKind::Penguin));
    assert_eq!(action.action, FighterAction::JumpHeavyAttack);
    assert_eq!(action.technique_id, Some(TechniqueId::PenguinJumpHeavy));
    assert!(motor.air_attack_used);
    assert!(!motor.jump_attack_landing_recovery);
    assert!(!motor.bee_air_dash_motion_active);
    assert_eq!(motor.dash_jump_carry_timer, TickTimer::zero());
    assert_eq!(motion, Some(MotionCommand::PenguinSnowflakeFloat));
}

#[test]
fn chick_jump_x_starts_fresh_egg_ride_flight() {
    let mut action = in_action(FighterAction::Jumping);
    let mut motor = airborne();
    let motion = start_jump_heavy_attack(&mut motor, &mut action, &table(CharacterKind::Chick));
    assert_eq!(action.action, FighterAction::JumpHeavyAttack);
    assert_eq!(action.technique_id, Some(TechniqueId::ChickJumpHeavy));
    assert!(!motor.grounded);
    assert!(motor.air_attack_used);
    assert!(!motor.jump_attack_landing_recovery);
    assert!(!motor.bee_air_dash_motion_active);
    assert_eq!(motor.dash_jump_carry_timer, TickTimer::zero());
    assert_eq!(motor.dash_jump_carry_speed_limit, s(0.0));
    assert_eq!(motion, Some(MotionCommand::ChickEggRide));
}

#[test]
fn chick_jump_x_can_cancel_to_jump_c_climb() {
    let mut action = in_technique(FighterAction::JumpHeavyAttack, TechniqueId::ChickJumpHeavy);
    let mut motor =
        FighterMotor { grounded: false, air_attack_used: true, ..FighterMotor::default() };
    let input =
        FighterInput { raw_light_pressed: true, heavy_held: true, ..FighterInput::default() };
    let answered = try_start_chick_air_attack_cancel(
        &mut motor,
        &mut action,
        &input,
        &table(CharacterKind::Chick),
    );
    assert_eq!(answered, Some(Some(MotionCommand::ChickUpdraft)));
    assert_eq!(action.action, FighterAction::JumpAttack);
    assert_eq!(action.technique_id, Some(TechniqueId::ChickJumpAttack));
    assert!(motor.air_attack_used);
    assert!(!motor.jump_attack_landing_recovery);
}

#[test]
fn chick_jump_c_can_cancel_to_jump_x_ride() {
    let mut action = in_technique(FighterAction::JumpAttack, TechniqueId::ChickJumpAttack);
    let mut motor =
        FighterMotor { grounded: false, air_attack_used: true, ..FighterMotor::default() };
    let input =
        FighterInput { raw_heavy_pressed: true, light_held: true, ..FighterInput::default() };
    let answered = try_start_chick_air_attack_cancel(
        &mut motor,
        &mut action,
        &input,
        &table(CharacterKind::Chick),
    );
    assert_eq!(answered, Some(Some(MotionCommand::ChickEggRide)));
    assert_eq!(action.action, FighterAction::JumpHeavyAttack);
    assert_eq!(action.technique_id, Some(TechniqueId::ChickJumpHeavy));
    assert!(motor.air_attack_used);
    assert!(!motor.jump_attack_landing_recovery);
}

#[test]
fn chick_air_attack_cancel_requires_raw_opposite_press() {
    let table = table(CharacterKind::Chick);
    let in_air =
        FighterMotor { grounded: false, air_attack_used: true, ..FighterMotor::default() };
    let mut jump_c = in_technique(FighterAction::JumpAttack, TechniqueId::ChickJumpAttack);
    let mut jump_c_motor = in_air;
    let held_heavy = FighterInput { heavy_held: true, ..FighterInput::default() };
    assert_eq!(
        try_start_chick_air_attack_cancel(&mut jump_c_motor, &mut jump_c, &held_heavy, &table),
        None
    );
    assert_eq!(jump_c.technique_id, Some(TechniqueId::ChickJumpAttack));

    let mut jump_x = in_technique(FighterAction::JumpHeavyAttack, TechniqueId::ChickJumpHeavy);
    let mut jump_x_motor = in_air;
    let held_light = FighterInput { light_held: true, ..FighterInput::default() };
    assert_eq!(
        try_start_chick_air_attack_cancel(&mut jump_x_motor, &mut jump_x, &held_light, &table),
        None
    );
    assert_eq!(jump_x.technique_id, Some(TechniqueId::ChickJumpHeavy));
}

#[test]
fn chick_glides_recover_airborne() {
    assert!(should_return_to_jumping_on_air_attack_completion(&in_technique(
        FighterAction::JumpAttack,
        TechniqueId::ChickJumpAttack
    )));
    assert!(!should_return_to_jumping_on_air_attack_completion(&in_technique(
        FighterAction::LightAttack1,
        TechniqueId::ChickLight1
    )));
}

#[test]
fn bee_jump_attack_can_rotate_facing_without_changing_trajectory() {
    let mut action = in_technique(FighterAction::JumpAttack, TechniqueId::BeeJumpAttack);
    assert!(bee_air_dash_turns(&action, &measures(1.0, 0.0)));
    assert!(!bee_air_dash_turns(&action, &measures(0.0, 0.0)));
    action.technique_id = Some(TechniqueId::BeeJumpHeavy);
    assert!(!bee_air_dash_turns(&action, &measures(1.0, 0.0)));
}

#[test]
fn bee_jump_attack_can_shoot_rotated_jump_x_without_stopping() {
    let mut action = in_technique(FighterAction::JumpAttack, TechniqueId::BeeJumpAttack);
    let mut motor = FighterMotor {
        air_attack_used: true,
        bee_air_dash_shot_available: true,
        ..airborne()
    };
    let input = FighterInput { heavy: true, ..FighterInput::default() };
    let mut motions = vec![];
    assert!(try_start_bee_air_dash_x_shot(
        &mut motor,
        &mut action,
        &input,
        &measures(1.0, 0.0),
        &table(CharacterKind::Bee),
        &mut motions,
    ));
    assert_eq!(action.action, FighterAction::JumpHeavyAttack);
    assert_eq!(action.technique_id, Some(TechniqueId::BeeJumpHeavy));
    assert_eq!(motions, vec![MotionCommand::FaceMovement]);
    assert!(motor.air_attack_used);
    assert!(!motor.jump_attack_landing_recovery);
    assert!(motor.bee_air_dash_motion_active);
    assert!(!motor.bee_air_dash_shot_available);
    assert_eq!(motor.dash_jump_carry_timer, TickTimer::zero());
    assert_eq!(motor.dash_jump_carry_speed_limit, s(0.0));
}

#[test]
fn bee_air_dash_jump_x_stays_available_after_jump_c_recovers() {
    let mut action = in_action(FighterAction::Jumping);
    let mut motor = FighterMotor {
        grounded: false,
        air_attack_used: true,
        bee_air_dash_motion_active: true,
        bee_air_dash_shot_available: true,
        ..FighterMotor::default()
    };
    let input = FighterInput { heavy: true, ..FighterInput::default() };
    let mut motions = vec![];
    assert!(try_start_bee_air_dash_x_shot(
        &mut motor,
        &mut action,
        &input,
        &measures(0.0, 0.0),
        &table(CharacterKind::Bee),
        &mut motions,
    ));
    assert_eq!(action.action, FighterAction::JumpHeavyAttack);
    assert_eq!(action.technique_id, Some(TechniqueId::BeeJumpHeavy));
    assert!(motor.bee_air_dash_motion_active);
    assert!(!motor.bee_air_dash_shot_available);
}

#[test]
fn jump_heavy_attack_starts_air_stall_fish_throw() {
    let mut action = in_action(FighterAction::Jumping);
    let mut motor = FighterMotor { jump_attack_landing_recovery: false, ..airborne() };
    let motion = start_jump_heavy_attack(&mut motor, &mut action, &table(CharacterKind::Cat));
    assert_eq!(action.action, FighterAction::JumpHeavyAttack);
    assert!(motor.air_attack_used);
    assert!(!motor.jump_attack_landing_recovery);
    assert_eq!(motor.dash_jump_carry_timer, TickTimer::zero());
    assert_eq!(motion, Some(MotionCommand::AirStall));
}

#[test]
fn pig_jump_heavy_starts_downward_meat_slam_from_jump_command() {
    let mut action = FighterActionState::default();
    let mut motor = FighterMotor {
        grounded: true,
        ledge_grace_timer: timer(200),
        ..FighterMotor::default()
    };
    let motion = start_jump_heavy_attack(&mut motor, &mut action, &table(CharacterKind::Pig));
    assert_eq!(action.action, FighterAction::JumpHeavyAttack);
    assert_eq!(action.technique_id, Some(TechniqueId::PigJumpHeavy));
    assert!(!motor.grounded);
    assert_eq!(motor.ledge_grace_timer, TickTimer::zero());
    assert!(motor.air_attack_used);
    assert!(motor.jump_attack_landing_recovery);
    assert_eq!(motion, Some(MotionCommand::PigMeatSlam));
}

#[test]
fn dash_attack_inputs_route_to_combo_finishers() {
    let light = FighterInput { light: true, ..FighterInput::default() };
    let heavy = FighterInput { heavy: true, ..FighterInput::default() };
    let raw_heavy = FighterInput { raw_heavy_pressed: true, ..FighterInput::default() };
    let cat = table(CharacterKind::Cat);
    let pig = table(CharacterKind::Pig);
    let chick = table(CharacterKind::Chick);
    assert_eq!(dash_finisher_for_input(&light, &cat), Some(TechniqueId::CatDashComboFinisher));
    assert_eq!(dash_finisher_for_input(&heavy, &cat), Some(TechniqueId::CatHeavy2));
    assert_eq!(dash_finisher_for_input(&raw_heavy, &cat), Some(TechniqueId::CatHeavy2));
    assert_eq!(dash_finisher_for_input(&heavy, &pig), Some(TechniqueId::PigHeavy));
    assert!(!dash_finisher_lunges(TechniqueId::PigComboFinisher, CharacterKind::Pig));
    assert!(dash_finisher_lunges(TechniqueId::CatDashComboFinisher, CharacterKind::Cat));
    assert_eq!(dash_finisher_for_input(&light, &chick), Some(TechniqueId::ChickDashAttack));
    assert_eq!(dash_finisher_for_input(&heavy, &chick), Some(TechniqueId::ChickDashHeavy));
    assert_eq!(dash_finisher_for_input(&FighterInput::default(), &cat), None);
}

#[test]
fn penguin_dash_ultimate_routes_before_dash_x_and_spends_mp() {
    let mut motor = FighterMotor { grounded: true, ..FighterMotor::default() };
    let mut action = in_action(FighterAction::Dashing);
    let effects = try_start_penguin_dash_ultimate(
        &mut motor,
        &full_stats(),
        &mut action,
        &FighterInput { light_held: true, heavy_held: true, ..FighterInput::default() },
        CharacterKind::Penguin,
        &tuning(),
        &table(CharacterKind::Penguin),
    );
    assert_eq!(
        effects,
        Some((
            ResourceSpend::UltimateStamina,
            MotionCommand::BrakeUltimateStart,
            MotionCommand::FinisherImpulse
        ))
    );
    assert_eq!(action.action, FighterAction::UltimateRush);
    assert_eq!(action.technique_id, Some(TechniqueId::PenguinUltimateRush));
}

#[test]
fn penguin_dash_c_shoots_snowflake_shot_in_current_dash_direction() {
    let mut action = in_action(FighterAction::Dashing);
    let mut motions = vec![];
    assert!(start_dash_finisher_from_dash(
        &mut action,
        &FighterInput { light: true, ..FighterInput::default() },
        CharacterKind::Penguin,
        &measures(1.0, 31.25),
        &table(CharacterKind::Penguin),
        &mut motions,
    ));
    assert_eq!(action.action, FighterAction::DashAttack);
    assert_eq!(action.technique_id, Some(TechniqueId::PenguinDashAttack));
    assert_eq!(motions, vec![MotionCommand::FaceMovement]);
}

#[test]
fn chick_dash_finishers_backstep_without_turning() {
    let table = table(CharacterKind::Chick);
    let mut dash_c = in_action(FighterAction::Dashing);
    let mut motions = vec![];
    assert!(start_dash_finisher_from_dash(
        &mut dash_c,
        &FighterInput { light: true, ..FighterInput::default() },
        CharacterKind::Chick,
        &measures(1.0, 13.0),
        &table,
        &mut motions,
    ));
    assert_eq!(dash_c.action, FighterAction::DashAttack);
    assert_eq!(dash_c.technique_id, Some(TechniqueId::ChickDashAttack));
    assert_eq!(motions, vec![MotionCommand::ChickBackstepLight]);

    let mut dash_x = in_action(FighterAction::Dashing);
    let mut motions = vec![];
    assert!(start_dash_finisher_from_dash(
        &mut dash_x,
        &FighterInput { heavy: true, ..FighterInput::default() },
        CharacterKind::Chick,
        &measures(1.0, 13.0),
        &table,
        &mut motions,
    ));
    assert_eq!(dash_x.action, FighterAction::DashAttack);
    assert_eq!(dash_x.technique_id, Some(TechniqueId::ChickDashHeavy));
    assert_eq!(motions, vec![MotionCommand::ChickBackstepHeavy]);
}

#[test]
fn chick_orbit_egg_c_can_interrupt_to_dash_finishers() {
    let table = table(CharacterKind::Chick);
    let motor = FighterMotor { grounded: true, ..FighterMotor::default() };
    let mut dash_c = in_technique(FighterAction::LightAttack1, TechniqueId::ChickLight1);
    let mut motions = vec![];
    assert!(start_chick_dash_finisher_from_light_attack(
        &motor,
        &mut dash_c,
        &FighterInput { dash: true, light_held: true, ..FighterInput::default() },
        CharacterKind::Chick,
        &measures(1.0, 17.0),
        &table,
        &mut motions,
    ));
    assert_eq!(dash_c.action, FighterAction::DashAttack);
    assert_eq!(dash_c.technique_id, Some(TechniqueId::ChickDashAttack));
    assert_eq!(motions, vec![MotionCommand::ChickBackstepLight]);

    let mut dash_x = in_technique(FighterAction::LightAttack1, TechniqueId::ChickLight1);
    let mut motions = vec![];
    assert!(start_chick_dash_finisher_from_light_attack(
        &motor,
        &mut dash_x,
        &FighterInput {
            dash: true,
            light_held: true,
            heavy_held: true,
            ..FighterInput::default()
        },
        CharacterKind::Chick,
        &measures(1.0, 17.0),
        &table,
        &mut motions,
    ));
    assert_eq!(dash_x.action, FighterAction::DashAttack);
    assert_eq!(dash_x.technique_id, Some(TechniqueId::ChickDashHeavy));
    assert_eq!(motions, vec![MotionCommand::ChickBackstepHeavy]);
}

#[test]
fn chick_orbit_egg_dash_interrupt_requires_dash_and_chick_c() {
    let table = table(CharacterKind::Chick);
    let motor = FighterMotor { grounded: true, ..FighterMotor::default() };
    let mut action = in_technique(FighterAction::LightAttack1, TechniqueId::ChickLight1);
    let mut motions = vec![];
    assert!(!start_chick_dash_finisher_from_light_attack(
        &motor,
        &mut action,
        &FighterInput { light_held: true, ..FighterInput::default() },
        CharacterKind::Chick,
        &measures(0.0, 0.0),
        &table,
        &mut motions,
    ));
    assert_eq!(action.technique_id, Some(TechniqueId::ChickLight1));
    action.technique_id = Some(TechniqueId::ChickLight2);
    assert!(!start_chick_dash_finisher_from_light_attack(
        &motor,
        &mut action,
        &FighterInput { dash: true, light_held: true, ..FighterInput::default() },
        CharacterKind::Chick,
        &measures(0.0, 0.0),
        &table,
        &mut motions,
    ));
    assert_eq!(action.technique_id, Some(TechniqueId::ChickLight2));
    assert_eq!(motions, vec![]);
}

#[test]
fn penguin_dash_snowflake_shots_recover_to_dashing_instead_of_idle() {
    let table = table(CharacterKind::Penguin);
    for (technique, expected) in
        [(TechniqueId::PenguinDashAttack, 160), (TechniqueId::PenguinDashHeavy, 180)]
    {
        let mut action = in_technique(FighterAction::DashAttack, technique);
        let duration = attack_duration_for_state(&action, &table).unwrap();
        action.elapsed = ElapsedTicks::from_ticks(duration);
        assert_eq!(action.elapsed, elapsed(expected));
        if should_return_to_dashing_on_dash_completion(&action) {
            set_action(&mut action, FighterAction::Dashing);
        } else {
            set_action(&mut action, FighterAction::Idle);
        }
        assert_eq!(action.action, FighterAction::Dashing);
        assert!(action.technique_id.is_none());
    }
}

#[test]
fn penguin_ground_ultimate_accepts_held_z_x_c_shortcut() {
    let mut motor = FighterMotor { grounded: true, ..FighterMotor::default() };
    let mut action = FighterActionState::default();
    let effects = try_start_ultimate_from_input(
        &mut motor,
        &full_stats(),
        &mut action,
        &FighterInput { aim: true, light_held: true, heavy_held: true, ..FighterInput::default() },
        CharacterKind::Penguin,
        &tuning(),
        &table(CharacterKind::Penguin),
    );
    assert_eq!(effects.unwrap().0, ResourceSpend::UltimateStamina);
    assert_eq!(action.action, FighterAction::UltimateStartup);
    assert_eq!(action.technique_id, Some(TechniqueId::PenguinUltimateStartup));
}

#[test]
fn chick_ground_ultimate_accepts_held_z_x_c_shortcut() {
    let mut motor = FighterMotor { grounded: true, ..FighterMotor::default() };
    let mut action = FighterActionState::default();
    let effects = try_start_ultimate_from_input(
        &mut motor,
        &full_stats(),
        &mut action,
        &FighterInput { aim: true, light_held: true, heavy_held: true, ..FighterInput::default() },
        CharacterKind::Chick,
        &tuning(),
        &table(CharacterKind::Chick),
    );
    assert_eq!(effects.unwrap().0, ResourceSpend::UltimateStamina);
    assert_eq!(action.action, FighterAction::UltimateStartup);
    assert_eq!(action.technique_id, Some(TechniqueId::ChickUltimateStartup));
}

#[test]
fn pig_heavy_charge_tracks_hold_release_and_dash_release() {
    let mut action = in_technique(FighterAction::HeavyAttack, TechniqueId::PigHeavy);
    let held = FighterInput { heavy_held: true, ..FighterInput::default() };
    for _ in 0..ticks(300) {
        tick_pig_heavy_charge(&mut action, &held, &tuning());
    }
    assert!(action.charge_elapsed.get() >= elapsed(300).get());
    assert!(!action.charge_release_requested);
    for _ in 0..ticks(2000) {
        tick_pig_heavy_charge(&mut action, &held, &tuning());
    }
    assert_eq!(action.charge_elapsed, elapsed(800));
    assert!(!action.charge_release_requested);
    tick_pig_heavy_charge(
        &mut action,
        &FighterInput { heavy_released: true, ..FighterInput::default() },
        &tuning(),
    );
    assert!(action.charge_release_requested);

    let mut dash_action =
        FighterActionState { charge_elapsed: elapsed(520), ..in_action(FighterAction::Dashing) };
    start_pig_dash_heavy_release(&mut dash_action, &tuning(), &table(CharacterKind::Pig));
    assert_eq!(dash_action.action, FighterAction::HeavyAttack);
    assert_eq!(dash_action.technique_id, Some(TechniqueId::PigHeavy));
    assert!(dash_action.charge_release_requested);
    assert!(dash_action.charge_elapsed.get() > elapsed(500).get());
}

#[test]
fn pig_heavy_hold_pauses_duration_until_release() {
    let mut table = table(CharacterKind::Pig);
    table.active.push(active(TechniqueId::PigHeavy, FighterAction::HeavyAttack, 500));
    let mut action = FighterActionState {
        charge_elapsed: elapsed(800),
        elapsed: elapsed(10_000),
        ..in_technique(FighterAction::HeavyAttack, TechniqueId::PigHeavy)
    };
    assert_eq!(attack_duration_for_state(&action, &table), None);
    action.charge_release_requested = true;
    assert!(attack_duration_for_state(&action, &table).is_some());
}

#[test]
fn held_dash_updates_direction_speed_and_tick_derived_trail_cadence() {
    let cadence = tuning().dash_trail_repeat;
    assert!(!dash_trail_due(ElapsedTicks::from_ticks(cadence - 1), &tuning()));
    assert!(dash_trail_due(ElapsedTicks::from_ticks(cadence), &tuning()));
    assert!(!dash_trail_due(ElapsedTicks::from_ticks(cadence + 1), &tuning()));
    assert!(dash_trail_due(ElapsedTicks::from_ticks(cadence * 2), &tuning()));
}

#[test]
fn held_dash_only_stops_after_arrow_input_is_released() {
    let duration = tuning().dash_duration;
    assert!(!dash_should_stop(
        ElapsedTicks::from_ticks(duration * 4),
        &measures(1.0, 0.0),
        &tuning()
    ));
    assert!(!dash_should_stop(
        ElapsedTicks::from_ticks(duration / 2),
        &measures(0.0, 0.0),
        &tuning()
    ));
    assert!(dash_should_stop(
        ElapsedTicks::from_ticks(duration),
        &measures(0.0, 0.0),
        &tuning()
    ));
}

#[test]
fn dash_release_starts_inertial_slide_when_moving_fast_enough() {
    let mut motor = FighterMotor::default();
    start_dash_slide(&mut motor, &measures(0.0, 25.0), &tuning());
    assert_eq!(motor.dash_slide_timer, TickTimer::from_ticks(20));
    start_dash_slide(&mut motor, &measures(0.0, 0.09), &tuning());
    assert_eq!(motor.dash_slide_timer, TickTimer::zero());
}

#[test]
fn slide_cancel_damps_momentum_for_standing_actions() {
    let mut motor = FighterMotor { dash_slide_timer: timer(120), ..FighterMotor::default() };
    assert_eq!(cancel_dash_slide_for_action(&mut motor), Some(MotionCommand::DampDashSlide));
    assert_eq!(motor.dash_slide_timer, TickTimer::zero());
    assert_eq!(cancel_dash_slide_for_action(&mut motor), None);
}

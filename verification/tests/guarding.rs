use arena_fighter::action::{
    FighterAction, FighterActionState, guard_shield_visible, reset_action_state,
};
use arena_fighter::fighter::{
    FighterMeasures, FighterMotor, FighterStats, FighterTuning, MotionCommand,
};
use arena_fighter::guard::{
    EvasiveHeading, can_start_guard, defensive_step_direction, finish_guard, guard_should_end,
    recovery_roll_direction, start_guard, tick_guard_counter_window, tick_guard_input,
    try_start_guard_counter,
};
use arena_fighter::input::{FighterInput, guard_counter_trigger_pressed, invert_directional_input};
use arena_fighter::reaction::ReactionFamilyId;
use arena_fighter::scalar::{Scalar, SimVec2, SimVec3};
use arena_fighter::technique::{MoveTable, TechniqueDefinition, TechniqueId};
use arena_fighter::ticks::{ElapsedTicks, TickTimer};

const COUNTER_COST: f32 = 5.0;

fn s(value: f32) -> Scalar {
    Scalar::from_bits(value.to_bits())
}

fn v(x: f32, y: f32, z: f32) -> SimVec3 {
    SimVec3 { x: s(x), y: s(y), z: s(z) }
}

fn tuning() -> FighterTuning {
    FighterTuning {
        hitstun_light: 14,
        hitstun_heavy: 24,
        quick_stand_after: 10,
        recovery_roll_invulnerable: 18,
        knockdown_duration: 40,
        getup_invulnerable: 20,
        getup_duration: 30,
        guard_break_duration: 60,
        guard_max_duration: 90,
        guard_restart_cooldown: 30,
        guard_start_buffer: 8,
        guard_counter_window: 20,
        guard_step_invulnerable: 12,
        dash_duration: 12,
        dash_slide_duration: 20,
        dash_trail_repeat: 5,
        dash_jump_carry_duration: 24,
        ledge_grace: 6,
        respawn_delay: 60,
        respawn_invulnerable: 90,
        pig_heavy_full_charge_ms: 800,
        pig_heavy_attack_ms: 500,
        max_health: s(100.0),
        max_stamina: s(100.0),
        ultimate_stamina_cost: s(50.0),
        guard_step_stamina_cost: s(12.0),
        guard_counter_health_cost: s(COUNTER_COST),
        dash_slide_stop_speed_squared: s(0.36),
    }
}

fn table() -> MoveTable {
    MoveTable {
        definitions: vec![TechniqueDefinition {
            id: TechniqueId::GuardCounter,
            action: FighterAction::GuardCounter,
            stamina_cost: s(0.0),
        }],
        slots: vec![],
        active: vec![],
        chains: vec![],
        raw: vec![],
        heavy_armor_ticks: None,
    }
}

fn measures(movement_length_squared: f32, source_distance_squared: f32) -> FighterMeasures {
    FighterMeasures {
        movement_length_squared: s(movement_length_squared),
        planar_speed_squared: s(0.0),
        guard_source_distance_squared: s(source_distance_squared),
        decayed_carry_strength: s(0.0),
        dash_carry_limit: s(0.0),
    }
}

fn in_action(action: FighterAction) -> FighterActionState {
    FighterActionState { action, ..FighterActionState::default() }
}

fn with_health(health: f32) -> FighterStats {
    FighterStats { health: s(health), ..FighterStats::new(s(100.0), s(100.0)) }
}

#[test]
fn counter_trigger_accepts_single_raw_attack_only() {
    let light =
        FighterInput { raw_light_pressed: true, light_held: true, ..FighterInput::default() };
    let heavy =
        FighterInput { raw_heavy_pressed: true, heavy_held: true, ..FighterInput::default() };
    let chord = FighterInput {
        raw_light_pressed: true,
        raw_heavy_pressed: true,
        light_held: true,
        heavy_held: true,
        guard: true,
        ..FighterInput::default()
    };
    let late_chord = FighterInput {
        raw_heavy_pressed: true,
        light_held: true,
        heavy_held: true,
        guard: true,
        ..FighterInput::default()
    };
    assert!(guard_counter_trigger_pressed(&light));
    assert!(guard_counter_trigger_pressed(&heavy));
    assert!(!guard_counter_trigger_pressed(&chord));
    assert!(!guard_counter_trigger_pressed(&late_chord));
}

#[test]
fn held_guard_expires_and_requires_release_after_cooldown() {
    let mut motor = FighterMotor::default();
    let mut action = FighterActionState::default();
    let pressed = tick_guard_input(&mut motor, true, &tuning());
    assert!(can_start_guard(&motor, pressed));
    assert_eq!(start_guard(&mut motor, &mut action), MotionCommand::BrakeGuardStart);
    assert_eq!(action.action, FighterAction::Guarding);
    assert_eq!(motor.guard_start_buffer_timer, TickTimer::zero());

    motor.guard_active_timer = ElapsedTicks::from_ticks(90);
    assert!(guard_should_end(&motor, true, &tuning()));
    finish_guard(&mut motor, &mut action, &tuning());
    assert_eq!(action.action, FighterAction::Idle);
    assert_eq!(motor.guard_cooldown_timer, TickTimer::from_ticks(30));
    assert_eq!(motor.guard_start_buffer_timer, TickTimer::zero());

    let cooldown_ticks = motor.guard_cooldown_timer.remaining();
    let mut pressed_while_held = false;
    for _ in 0..cooldown_ticks {
        pressed_while_held |= tick_guard_input(&mut motor, true, &tuning());
    }
    assert!(!pressed_while_held);
    assert!(!can_start_guard(&motor, pressed_while_held));

    let released = tick_guard_input(&mut motor, false, &tuning());
    assert!(!released);
    let pressed_again = tick_guard_input(&mut motor, true, &tuning());
    assert!(can_start_guard(&motor, pressed_again));
}

#[test]
fn guard_press_buffers_until_grounded_while_held() {
    let mut motor = FighterMotor { grounded: false, ..FighterMotor::default() };
    let pressed = tick_guard_input(&mut motor, true, &tuning());
    assert!(pressed);
    assert!(!can_start_guard(&motor, pressed));
    assert!(motor.guard_start_buffer_timer.active());
    let held = tick_guard_input(&mut motor, true, &tuning());
    motor.grounded = true;
    assert!(!held);
    assert!(can_start_guard(&motor, held));
}

#[test]
fn releasing_guard_clears_start_buffer() {
    let mut motor = FighterMotor { grounded: false, ..FighterMotor::default() };
    let pressed = tick_guard_input(&mut motor, true, &tuning());
    assert!(!can_start_guard(&motor, pressed));
    let released = tick_guard_input(&mut motor, false, &tuning());
    motor.grounded = true;
    assert!(!released);
    assert_eq!(motor.guard_start_buffer_timer, TickTimer::zero());
    assert!(!can_start_guard(&motor, released));
}

#[test]
fn guard_press_during_dash_can_start_after_dash_branch_returns() {
    let mut motor = FighterMotor::default();
    let mut action = in_action(FighterAction::Dashing);
    let pressed = tick_guard_input(&mut motor, true, &tuning());
    assert!(pressed);
    assert!(can_start_guard(&motor, pressed));
    let held = tick_guard_input(&mut motor, true, &tuning());
    action.action = FighterAction::Idle;
    assert!(!held);
    assert!(can_start_guard(&motor, held));
    start_guard(&mut motor, &mut action);
    assert_eq!(action.action, FighterAction::Guarding);
}

#[test]
fn guard_shield_visibility_tracks_guard_action() {
    assert!(guard_shield_visible(FighterAction::Guarding));
    assert!(!guard_shield_visible(FighterAction::Idle));
    assert!(!guard_shield_visible(FighterAction::LightAttack1));
}

#[test]
fn guard_counter_window_ticks_and_expires() {
    let mut motor = FighterMotor::default();
    let source = v(2.0, 0.0, 0.0);
    motor.open_guard_counter_window(source, &tuning());
    motor.guard_counter_buffered = true;
    assert_eq!(motor.guard_counter_source, Some(source));
    let expected_window = TickTimer::from_ticks(20);
    assert_eq!(motor.guard_counter_window_timer, expected_window);
    for _ in 0..expected_window.remaining().saturating_sub(1) {
        tick_guard_counter_window(&mut motor);
    }
    assert_eq!(motor.guard_counter_window_timer.remaining(), 1);
    assert_eq!(motor.guard_counter_source, Some(source));
    tick_guard_counter_window(&mut motor);
    assert_eq!(motor.guard_counter_window_timer, TickTimer::zero());
    assert_eq!(motor.guard_counter_source, None);
    assert!(!motor.guard_counter_buffered);
}

#[test]
fn guard_counter_refreshes_existing_window() {
    let mut motor = FighterMotor::default();
    let first = v(1.0, 0.0, 0.0);
    let second = v(-1.0, 0.0, 0.0);
    motor.open_guard_counter_window(first, &tuning());
    tick_guard_counter_window(&mut motor);
    motor.open_guard_counter_window(second, &tuning());
    assert_eq!(motor.guard_counter_window_timer, TickTimer::from_ticks(20));
    assert_eq!(motor.guard_counter_source, Some(second));
}

#[test]
fn guard_counter_starts_from_light_or_heavy_and_spends_health() {
    let light =
        FighterInput { raw_light_pressed: true, light_held: true, ..FighterInput::default() };
    let mut motor = FighterMotor::default();
    let mut action = in_action(FighterAction::Guarding);
    let mut motions = vec![];
    motor.open_guard_counter_window(v(1.0, 0.0, 0.0), &tuning());
    assert!(try_start_guard_counter(
        &with_health(20.0),
        &mut motor,
        &mut action,
        &measures(0.0, 1.0),
        &tuning(),
        &table(),
        guard_counter_trigger_pressed(&light),
        &mut motions,
    ));
    assert_eq!(action.action, FighterAction::GuardCounter);
    assert_eq!(action.technique_id, Some(TechniqueId::GuardCounter));
    assert_eq!(motor.guard_counter_window_timer, TickTimer::zero());
    assert_eq!(motions, vec![MotionCommand::FaceGuardSource, MotionCommand::BrakeGuardCounter]);

    let heavy =
        FighterInput { raw_heavy_pressed: true, heavy_held: true, ..FighterInput::default() };
    let mut motor = FighterMotor::default();
    let mut action = in_action(FighterAction::Idle);
    motor.open_guard_counter_window(v(1.0, 0.0, 0.0), &tuning());
    assert!(try_start_guard_counter(
        &with_health(20.0),
        &mut motor,
        &mut action,
        &measures(0.0, 1.0),
        &tuning(),
        &table(),
        guard_counter_trigger_pressed(&heavy),
        &mut vec![],
    ));
    assert_eq!(action.action, FighterAction::GuardCounter);
}

#[test]
fn guard_counter_rejects_chord_and_low_health() {
    let chord = FighterInput {
        raw_light_pressed: true,
        raw_heavy_pressed: true,
        light_held: true,
        heavy_held: true,
        guard: true,
        ..FighterInput::default()
    };
    let mut motor = FighterMotor::default();
    let mut action = in_action(FighterAction::Guarding);
    motor.open_guard_counter_window(v(1.0, 0.0, 0.0), &tuning());
    assert!(!try_start_guard_counter(
        &with_health(20.0),
        &mut motor,
        &mut action,
        &measures(0.0, 1.0),
        &tuning(),
        &table(),
        guard_counter_trigger_pressed(&chord),
        &mut vec![],
    ));
    assert_eq!(action.action, FighterAction::Guarding);

    let input =
        FighterInput { raw_light_pressed: true, light_held: true, ..FighterInput::default() };
    assert!(!try_start_guard_counter(
        &with_health(COUNTER_COST),
        &mut motor,
        &mut action,
        &measures(0.0, 1.0),
        &tuning(),
        &table(),
        guard_counter_trigger_pressed(&input),
        &mut vec![],
    ));
    assert_eq!(action.action, FighterAction::Guarding);
}

#[test]
fn guard_counter_movement_input_overrides_source_facing() {
    let input =
        FighterInput { raw_light_pressed: true, light_held: true, ..FighterInput::default() };
    let mut motor = FighterMotor::default();
    let mut action = in_action(FighterAction::Moving);
    let mut motions = vec![];
    motor.open_guard_counter_window(v(1.0, 0.0, 0.0), &tuning());
    assert!(try_start_guard_counter(
        &with_health(20.0),
        &mut motor,
        &mut action,
        &measures(1.0, 1.0),
        &tuning(),
        &table(),
        guard_counter_trigger_pressed(&input),
        &mut motions,
    ));
    assert_eq!(motions[0], MotionCommand::FaceMovement);
}

#[test]
fn reset_action_state_clears_reaction_visual_context() {
    let mut action = FighterActionState {
        reaction_family: Some(ReactionFamilyId::HeavyStandingStagger),
        reaction_visual_side: s(-1.0),
        ..in_action(FighterAction::Hitstun)
    };
    reset_action_state(&mut action, FighterAction::Idle);
    assert_eq!(action.reaction_family, None);
    assert_eq!(action.reaction_visual_side, s(1.0));
}

#[test]
fn drunk_input_inverts_both_axes_without_changing_actions() {
    let mut input = FighterInput {
        movement: SimVec2 { x: s(0.75), y: s(-0.4) },
        aim: true,
        jump: true,
        dash: true,
        light: true,
        heavy: true,
        grab: true,
        guard: true,
        ultimate: true,
        special: true,
        ..FighterInput::default()
    };
    invert_directional_input(&mut input);
    assert_eq!(input.movement, SimVec2 { x: s(-0.75), y: s(0.4) });
    assert!(input.aim && input.jump && input.dash);
    assert!(input.light && input.heavy && input.grab && input.guard);
    assert!(input.ultimate && input.special);
}

#[test]
fn defensive_step_never_moves_forward() {
    assert_eq!(defensive_step_direction(s(0.0), s(0.0), s(0.0)), EvasiveHeading::Back);
    assert_eq!(defensive_step_direction(s(1.0), s(-1.0), s(0.0)), EvasiveHeading::Requested);
    assert_eq!(defensive_step_direction(s(1.0), s(1.0), s(0.0)), EvasiveHeading::Right);
    assert_eq!(defensive_step_direction(s(1.0), s(0.5), s(-0.4)), EvasiveHeading::Left);
}

#[test]
fn recovery_roll_uses_requested_direction_or_backstep() {
    assert_eq!(recovery_roll_direction(s(0.0)), EvasiveHeading::Back);
    assert_eq!(recovery_roll_direction(s(1.0)), EvasiveHeading::Requested);
}

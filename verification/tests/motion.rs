use arena_fighter::action::{FighterAction, FighterActionState};
use arena_fighter::fighter::{FighterMotor, FighterStats, FighterTuning};
use arena_fighter::ids::FighterId;
use arena_fighter::loadout::FighterStyleKind;
use arena_fighter::movement::{
    BrakeChoice, FloorContact, FloorEffect, IceHeading, IceSlideEntry, LandingKind, WallEffect,
    begin_movement, choose_brake, floor_intents, force_penguin_hard_ice_slide_velocity,
    gravity_applies, hit_wall, ice_heading, landing_stick_duration, meet_floor,
    planar_speed_limit, settle_dash_slide, should_cancel_axis_velocity, snaps_to_rest,
    turning_against_velocity, update_penguin_hard_ice_slide_state,
};
use arena_fighter::profile::{
    self, Amount, BaseFriction, BodyMotionProfile, BodyOverride, CarriedSpeeds, CharacterBodyDef,
    Quantity, StyleStep, body_override,
};
use arena_fighter::reaction::{
    LandingAftermath, ReactionFamilyId, aftermath_feedback_priority, aftermath_landing_shake,
};
use arena_fighter::scalar::{Scalar, SimVec3};
use arena_fighter::technique::TechniqueId;
use arena_fighter::ticks::{ElapsedTicks, TickTimer, milliseconds_to_ticks_ceil};
use arena_fighter::travel::{
    MovementOrder, MovementReport, MovementStage, MovingFighter, apply_fighter_movement,
};

fn s(value: f32) -> Scalar {
    Scalar::from_bits(value.to_bits())
}

fn v(x: f32, y: f32, z: f32) -> SimVec3 {
    SimVec3 { x: s(x), y: s(y), z: s(z) }
}

fn timer(millis: u32) -> TickTimer {
    TickTimer::from_ticks(milliseconds_to_ticks_ceil(millis))
}

fn friction() -> BaseFriction {
    BaseFriction { ground: s(10.0), air: s(1.2) }
}

fn plain_body() -> CharacterBodyDef {
    CharacterBodyDef {
        stop_friction: s(1.0),
        landing_stick: s(1.0),
        gravity: s(1.0),
        fall_gravity: s(1.0),
    }
}

fn pig_body() -> CharacterBodyDef {
    CharacterBodyDef {
        stop_friction: s(0.88),
        landing_stick: s(1.22),
        gravity: s(1.05),
        fall_gravity: s(1.12),
    }
}

fn speeds() -> CarriedSpeeds {
    CarriedSpeeds {
        chick_egg_ride: s(8.8),
        chick_updraft: s(3.2),
        chick_backstep: s(12.0),
        bee_air_dash: s(8.0),
    }
}

/// The limit of a body whose own speed along the ground is `top`.
fn limit(motor: &FighterMotor, grounded: bool, top: f32, profile: &Numbers) -> f32 {
    let base = s(top + profile.max_speed_bonus);
    f32::from_bits(planar_speed_limit(motor, grounded, base).bits)
}

fn decimal(millionths: i64) -> f32 {
    millionths as f32 / 1_000_000.0
}

fn number(quantity: Quantity) -> f32 {
    let mut value = match quantity.start {
        Amount::Millionths(millionths) => decimal(millionths),
        Amount::Given(scalar) => f32::from_bits(scalar.bits),
    };
    match quantity.style {
        StyleStep::Keep => {}
        StyleStep::Plus(plus) => value += decimal(plus),
        StyleStep::Times(times) => value *= decimal(times),
        StyleStep::PlusUpTo { plus, most } => value = (value + decimal(plus)).min(decimal(most)),
    }
    if let Some(weight) = quantity.body {
        value *= f32::from_bits(weight.bits);
    }
    if let Some(weight) = quantity.technique {
        value *= decimal(weight);
    }
    value
}

/// A profile as the physics sees it.
struct Numbers {
    input_scale: f32,
    max_speed_bonus: f32,
    ground_friction: f32,
    air_friction: f32,
    stop_friction: f32,
    turn_brake: f32,
    landing_input_scale: f32,
    landing_brake: f32,
    gravity_scale: f32,
    fall_gravity_scale: f32,
    takeoff_gravity_scale: f32,
    terminal_fall_speed: f32,
    stop_snap_speed: f32,
}

fn numbers(profile: BodyMotionProfile) -> Numbers {
    Numbers {
        input_scale: number(profile.input_scale),
        max_speed_bonus: number(profile.max_speed_bonus),
        ground_friction: number(profile.ground_friction),
        air_friction: number(profile.air_friction),
        stop_friction: number(profile.stop_friction),
        turn_brake: number(profile.turn_brake),
        landing_input_scale: number(profile.landing_input_scale),
        landing_brake: number(profile.landing_brake),
        gravity_scale: number(profile.gravity_scale),
        fall_gravity_scale: number(profile.fall_gravity_scale),
        takeoff_gravity_scale: number(profile.takeoff_gravity_scale),
        terminal_fall_speed: number(profile.terminal_fall_speed),
        stop_snap_speed: number(profile.stop_snap_speed),
    }
}

fn body_motion_profile(action: FighterAction, friction: BaseFriction) -> Numbers {
    numbers(profile::body_motion_profile(action, friction))
}

fn styled_body_motion_profile(
    action: FighterAction,
    style: FighterStyleKind,
    friction: BaseFriction,
) -> Numbers {
    numbers(profile::styled_body_motion_profile(action, style, friction))
}

fn character_body_motion_profile(
    action: FighterAction,
    style: FighterStyleKind,
    body: CharacterBodyDef,
    friction: BaseFriction,
) -> Numbers {
    numbers(profile::character_body_motion_profile(action, style, body, friction))
}

fn character_body_motion_profile_for_state(
    action: &FighterActionState,
    motor: &FighterMotor,
    style: FighterStyleKind,
    body: CharacterBodyDef,
    speeds: CarriedSpeeds,
    friction: BaseFriction,
) -> Numbers {
    numbers(profile::character_body_motion_profile_for_state(
        action, motor, style, body, speeds, friction,
    ))
}

fn tuning() -> FighterTuning {
    FighterTuning {
        hitstun_light: 14,
        hitstun_heavy: 24,
        quick_stand_after: 10,
        recovery_roll_invulnerable: 18,
        knockdown_duration: 40,
        getup_invulnerable: 20,
        getup_duration: 30,
        guard_break_duration: 60,
        guard_max_duration: 90,
        guard_restart_cooldown: 30,
        guard_start_buffer: 8,
        guard_counter_window: 20,
        guard_step_invulnerable: 12,
        dash_duration: 12,
        dash_slide_duration: 20,
        dash_trail_repeat: 5,
        dash_jump_carry_duration: 24,
        ledge_grace: 6,
        respawn_delay: 60,
        respawn_invulnerable: 90,
        pig_heavy_full_charge_ms: 800,
        pig_heavy_attack_ms: 500,
        max_health: s(100.0),
        max_stamina: s(100.0),
        ultimate_stamina_cost: s(50.0),
        guard_step_stamina_cost: s(12.0),
        guard_counter_health_cost: s(5.0),
        dash_slide_stop_speed_squared: s(0.36),
    }
}

fn in_action(action: FighterAction) -> FighterActionState {
    FighterActionState { action, ..FighterActionState::default() }
}

fn in_technique(action: FighterAction, id: TechniqueId) -> FighterActionState {
    FighterActionState { technique_id: Some(id), ..in_action(action) }
}

#[test]
fn side_collision_only_cancels_velocity_into_wall() {
    assert!(should_cancel_axis_velocity(s(-2.0), s(0.1)));
    assert!(!should_cancel_axis_velocity(s(2.0), s(0.1)));
    assert!(!should_cancel_axis_velocity(s(0.0), s(0.1)));
}

#[test]
fn body_motion_profiles_are_state_authored() {
    let idle = body_motion_profile(FighterAction::Idle, friction());
    let dash_attack = body_motion_profile(FighterAction::DashAttack, friction());
    let jump_attack = body_motion_profile(FighterAction::JumpAttack, friction());
    let combo_finisher = body_motion_profile(FighterAction::ComboFinisher, friction());
    let hitstun = body_motion_profile(FighterAction::Hitstun, friction());
    assert!(idle.input_scale > dash_attack.input_scale);
    assert!(dash_attack.max_speed_bonus > idle.max_speed_bonus);
    assert!(combo_finisher.max_speed_bonus > idle.max_speed_bonus);
    assert!(combo_finisher.max_speed_bonus > dash_attack.max_speed_bonus);
    assert!(
        combo_finisher.stop_friction
            < body_motion_profile(FighterAction::HeavyAttack, friction()).stop_friction
    );
    assert!(jump_attack.fall_gravity_scale > idle.fall_gravity_scale);
    assert_eq!(hitstun.input_scale, 0.0);
    assert_eq!(body_motion_profile(FighterAction::Guarding, friction()).input_scale, 0.0);
    assert!(idle.stop_friction > dash_attack.stop_friction);
    assert!(jump_attack.terminal_fall_speed > idle.terminal_fall_speed * 0.9);
    assert_eq!(idle.turn_brake, 8.4);
    assert_eq!(dash_attack.max_speed_bonus, 2.6);
}

#[test]
fn cat_ultimate_startup_uses_twice_dash_c_motion_profile_without_steering() {
    let body = plain_body();
    let style = FighterStyleKind::Anchor;
    let motor = FighterMotor::default();
    let mut cat_ult = in_technique(FighterAction::UltimateStartup, TechniqueId::CatUltimateStartup);
    let pig_ult = in_technique(FighterAction::UltimateStartup, TechniqueId::PigUltimateStartup);
    let cat_profile = character_body_motion_profile_for_state(
        &cat_ult, &motor, style, body, speeds(), friction(),
    );
    let pig_profile = character_body_motion_profile_for_state(
        &pig_ult, &motor, style, body, speeds(), friction(),
    );
    let combo_profile =
        character_body_motion_profile(FighterAction::ComboFinisher, style, body, friction());
    let generic_ult =
        character_body_motion_profile(FighterAction::UltimateStartup, style, body, friction());
    assert_eq!(cat_profile.input_scale, 0.0);
    assert_eq!(cat_profile.landing_input_scale, 0.0);
    assert_eq!(cat_profile.max_speed_bonus, combo_profile.max_speed_bonus * 2.0);
    assert_eq!(cat_profile.ground_friction, combo_profile.ground_friction);
    assert_eq!(cat_profile.turn_brake, combo_profile.turn_brake);
    assert_eq!(pig_profile.max_speed_bonus, generic_ult.max_speed_bonus);
    assert_eq!(pig_profile.ground_friction, generic_ult.ground_friction);

    cat_ult.technique_id = Some(TechniqueId::PigUltimateStartup);
    let recategorized_profile = character_body_motion_profile_for_state(
        &cat_ult, &motor, style, body, speeds(), friction(),
    );
    assert_eq!(recategorized_profile.max_speed_bonus, generic_ult.max_speed_bonus);
}

#[test]
fn penguin_slope_moves_use_quicker_fall_landing_profile() {
    let body = plain_body();
    let style = FighterStyleKind::Anchor;
    let motor = FighterMotor::default();
    let dash = in_technique(FighterAction::DashAttack, TechniqueId::PenguinDashHeavy);
    let startup = in_technique(FighterAction::UltimateStartup, TechniqueId::PenguinUltimateStartup);
    let rush = in_technique(FighterAction::UltimateRush, TechniqueId::PenguinUltimateRush);
    let dash_profile =
        character_body_motion_profile_for_state(&dash, &motor, style, body, speeds(), friction());
    let base = character_body_motion_profile(FighterAction::DashAttack, style, body, friction());
    for action in [startup, rush] {
        let profile = character_body_motion_profile_for_state(
            &action, &motor, style, body, speeds(), friction(),
        );
        assert_eq!(profile.input_scale, dash_profile.input_scale);
        assert_eq!(profile.max_speed_bonus, dash_profile.max_speed_bonus);
        assert_eq!(profile.air_friction, dash_profile.air_friction);
        assert_eq!(profile.stop_friction, dash_profile.stop_friction);
        assert_eq!(profile.stop_snap_speed, dash_profile.stop_snap_speed);
    }
    assert!(dash_profile.fall_gravity_scale > base.fall_gravity_scale);
    assert!(dash_profile.air_friction < base.air_friction);
    assert!(dash_profile.stop_friction < base.stop_friction);
}

#[test]
fn style_body_profiles_keep_movement_identity() {
    let anchor_heavy = styled_body_motion_profile(
        FighterAction::HeavyAttack,
        FighterStyleKind::Anchor,
        friction(),
    );
    let vector_jump =
        styled_body_motion_profile(FighterAction::Jumping, FighterStyleKind::Vector, friction());
    let base_jump = body_motion_profile(FighterAction::Jumping, friction());
    let vector_heavy = styled_body_motion_profile(
        FighterAction::HeavyAttack,
        FighterStyleKind::Vector,
        friction(),
    );
    assert!(anchor_heavy.input_scale < vector_heavy.input_scale);
    assert!(vector_jump.landing_input_scale > base_jump.landing_input_scale);
    assert!(vector_jump.takeoff_gravity_scale < base_jump.takeoff_gravity_scale);
    assert_eq!(anchor_heavy.input_scale, 0.04 * 0.82);
    assert_eq!(anchor_heavy.turn_brake, 0.6 * 0.8);
    assert_eq!(vector_jump.takeoff_gravity_scale, 0.5 * 0.92);
    let catalyst =
        styled_body_motion_profile(FighterAction::Idle, FighterStyleKind::Catalyst, friction());
    assert_eq!(catalyst.air_friction, 1.2 + 0.08);
    assert_eq!(catalyst.gravity_scale, 0.98);
}

#[test]
fn character_body_profiles_layer_after_style_motion() {
    let style = FighterStyleKind::Anchor;
    let base = styled_body_motion_profile(FighterAction::Jumping, style, friction());
    let pig_jump =
        character_body_motion_profile(FighterAction::Jumping, style, pig_body(), friction());
    let pig_idle =
        character_body_motion_profile(FighterAction::Idle, style, pig_body(), friction());
    assert!(pig_jump.fall_gravity_scale > base.fall_gravity_scale);
    assert!(pig_jump.terminal_fall_speed > base.terminal_fall_speed);
    assert!(
        pig_idle.stop_friction
            < styled_body_motion_profile(FighterAction::Idle, style, friction()).stop_friction
    );
    assert!(
        pig_idle.landing_brake > body_motion_profile(FighterAction::Idle, friction()).landing_brake
    );
    assert_eq!(pig_idle.stop_friction, (22.0 + 1.6) * 0.88);
}

#[test]
fn bee_jump_attack_motion_profile_preserves_air_dash_speed() {
    let action = in_technique(FighterAction::JumpAttack, TechniqueId::BeeJumpAttack);
    let motor = FighterMotor {
        grounded: false,
        bee_air_dash_motion_active: true,
        ..FighterMotor::default()
    };
    let profile = character_body_motion_profile_for_state(
        &action,
        &motor,
        FighterStyleKind::Anchor,
        plain_body(),
        speeds(),
        friction(),
    );
    let base = body_motion_profile(FighterAction::JumpAttack, friction());
    assert_eq!(profile.max_speed_bonus, 8.0);
    assert!(profile.stop_friction < base.stop_friction);
    assert!(profile.gravity_scale < base.gravity_scale);
    let damp = (1.0 - profile.stop_friction * 0.016).clamp(0.0, 1.0);
    assert!(8.0 - 8.0 * damp < 0.03);
    assert!(limit(&motor, false, 5.0, &profile) > 8.0);
}

#[test]
fn chick_jump_c_motion_profile_hover_glides_and_recovers_airborne() {
    let action = in_technique(FighterAction::JumpAttack, TechniqueId::ChickJumpAttack);
    let motor = FighterMotor { grounded: false, ..FighterMotor::default() };
    let style = FighterStyleKind::Anchor;
    let profile = character_body_motion_profile_for_state(
        &action, &motor, style, plain_body(), speeds(), friction(),
    );
    let base =
        character_body_motion_profile(FighterAction::JumpAttack, style, plain_body(), friction());
    assert_eq!(profile.max_speed_bonus, 3.2);
    assert!(limit(&motor, false, 5.0, &profile) > 3.2);
    assert_eq!(profile.input_scale, 0.0);
    assert!(profile.air_friction < base.air_friction);
    assert!(profile.stop_friction < base.stop_friction);
    assert!(profile.gravity_scale < base.gravity_scale);
    assert!(profile.fall_gravity_scale < base.fall_gravity_scale);
    let damp = (1.0 - profile.stop_friction * 0.016).clamp(0.0, 1.0);
    assert!(3.2 - 3.2 * damp < 0.02);
    assert!(arena_fighter::air::should_return_to_jumping_on_air_attack_completion(&action));
}

#[test]
fn chick_jump_x_motion_profile_preserves_fresh_egg_ride_flight() {
    let action = in_technique(FighterAction::JumpHeavyAttack, TechniqueId::ChickJumpHeavy);
    let motor = FighterMotor { grounded: false, ..FighterMotor::default() };
    let style = FighterStyleKind::Anchor;
    let profile = character_body_motion_profile_for_state(
        &action, &motor, style, plain_body(), speeds(), friction(),
    );
    let base = character_body_motion_profile(
        FighterAction::JumpHeavyAttack,
        style,
        plain_body(),
        friction(),
    );
    assert_eq!(profile.max_speed_bonus, 8.8);
    assert!(limit(&motor, false, 5.0, &profile) > 8.8);
    let damp = (1.0 - profile.stop_friction * 0.016).clamp(0.0, 1.0);
    assert!(8.8 - 8.8 * damp < 0.02);
    assert_eq!(profile.input_scale, 0.0);
    assert!(profile.stop_friction < base.stop_friction);
    assert!(profile.gravity_scale < base.gravity_scale);
    assert!(profile.fall_gravity_scale < base.fall_gravity_scale);
}

#[test]
fn chick_dash_backstep_profile_preserves_authored_speed_until_stop() {
    let motor = FighterMotor { grounded: true, ..FighterMotor::default() };
    for technique in [TechniqueId::ChickDashAttack, TechniqueId::ChickDashHeavy] {
        let profile = character_body_motion_profile_for_state(
            &in_technique(FighterAction::DashAttack, technique),
            &motor,
            FighterStyleKind::Anchor,
            plain_body(),
            speeds(),
            friction(),
        );
        assert_eq!(profile.input_scale, 0.0);
        assert_eq!(profile.ground_friction, 0.0);
        assert_eq!(profile.stop_friction, 0.0);
        assert_eq!(profile.max_speed_bonus, 12.0);
        assert!(limit(&motor, true, 5.0, &profile) > 12.0);
    }
}

#[test]
fn profiles_stay_in_their_range() {
    let helpless = [
        FighterAction::Guarding,
        FighterAction::UltimateStartup,
        FighterAction::UltimateRush,
        FighterAction::JumpAttack,
        FighterAction::GuardStep,
        FighterAction::RecoveryRoll,
        FighterAction::Hitstun,
        FighterAction::Knockdown,
        FighterAction::RingOut,
        FighterAction::Grabbed,
        FighterAction::UltimateVictim,
        FighterAction::GetUp,
        FighterAction::GuardBroken,
    ];
    let steering =
        [FighterAction::Idle, FighterAction::Dashing, FighterAction::HeavyAttack, FighterAction::Jumping];
    let finisher = body_motion_profile(FighterAction::ComboFinisher, friction());
    for action in helpless.iter().chain(&steering) {
        let profile = body_motion_profile(*action, friction());
        assert_eq!(profile.input_scale == 0.0, helpless.contains(action));
        assert!((0.0..=1.0).contains(&profile.input_scale));
        assert!(profile.ground_friction >= 0.0 && profile.air_friction >= 0.0);
        assert!(profile.stop_friction >= 0.0 && profile.stop_snap_speed >= 0.0);
        assert!(profile.turn_brake >= 0.0 && profile.landing_brake >= 0.0);
        assert!(profile.terminal_fall_speed > 0.0);
        assert!(profile.max_speed_bonus < finisher.max_speed_bonus);
    }
}

#[test]
fn overrides_follow_their_order() {
    let dashing = FighterMotor { bee_air_dash_motion_active: true, ..FighterMotor::default() };
    let still = FighterMotor::default();
    assert_eq!(body_override(&in_action(FighterAction::Jumping), &dashing), BodyOverride::BeeAirDash);
    assert_eq!(body_override(&in_action(FighterAction::Jumping), &still), BodyOverride::Action);
    assert_eq!(body_override(&in_action(FighterAction::Idle), &dashing), BodyOverride::Action);
    assert_eq!(
        body_override(
            &in_technique(FighterAction::JumpAttack, TechniqueId::ChickJumpAttack),
            &dashing
        ),
        BodyOverride::ChickUpdraft
    );
}

#[test]
fn penguin_hard_ice_slide_locks_double_entry_velocity_until_exit() {
    let mut motor = FighterMotor::default();
    let entry = IceSlideEntry { direction: v(1.0, 0.0, 0.0), speed: s(6.0) };
    assert_eq!(ice_heading(s(9.0), s(1.0)), IceHeading::Velocity);
    let direction =
        update_penguin_hard_ice_slide_state(&mut motor, FighterAction::Moving, true, entry);
    assert_eq!(direction, Some(v(1.0, 0.0, 0.0)));
    assert_eq!(motor.penguin_ice_slide_speed, s(6.0));
    assert_eq!(force_penguin_hard_ice_slide_velocity(&mut motor, s(6.0)), s(6.0));

    let slower = IceSlideEntry { direction: v(0.0, 0.0, 1.0), speed: s(0.8) };
    let locked =
        update_penguin_hard_ice_slide_state(&mut motor, FighterAction::JumpAttack, true, slower);
    assert_eq!(locked, Some(v(1.0, 0.0, 0.0)));
    assert_eq!(force_penguin_hard_ice_slide_velocity(&mut motor, s(0.8)), s(6.0));

    let exit =
        update_penguin_hard_ice_slide_state(&mut motor, FighterAction::JumpAttack, false, slower);
    assert_eq!(exit, None);
    assert_eq!(motor.penguin_ice_slide_direction, None);
    assert_eq!(motor.penguin_ice_slide_speed, s(0.0));
}

#[test]
fn penguin_hard_ice_slide_uses_input_or_facing_when_entering_slowly() {
    assert_eq!(ice_heading(s(0.0), s(1.0)), IceHeading::Input);
    assert_eq!(ice_heading(s(0.0), s(0.0)), IceHeading::Facing);
    let mut motor = FighterMotor::default();
    let entry = IceSlideEntry { direction: v(0.0, 0.0, 1.0), speed: s(2.2) };
    assert_eq!(
        update_penguin_hard_ice_slide_state(&mut motor, FighterAction::Moving, true, entry),
        Some(v(0.0, 0.0, 1.0))
    );
    assert_eq!(motor.penguin_ice_slide_speed, s(2.2));
    assert_eq!(
        update_penguin_hard_ice_slide_state(&mut motor, FighterAction::Hitstun, true, entry),
        None
    );
    assert_eq!(motor.penguin_ice_slide_direction, None);
    assert_eq!(motor.penguin_ice_slide_speed, s(0.0));
}

#[test]
fn penguin_hard_ice_slide_doubles_dash_entry_speed() {
    let mut motor = FighterMotor::default();
    let entry = IceSlideEntry { direction: v(1.0, 0.0, 0.0), speed: s(16.0) };
    assert_eq!(ice_heading(s(64.0), s(0.0)), IceHeading::Velocity);
    assert_eq!(
        update_penguin_hard_ice_slide_state(&mut motor, FighterAction::Dashing, true, entry),
        Some(v(1.0, 0.0, 0.0))
    );
    assert_eq!(motor.penguin_ice_slide_speed, s(16.0));
    assert_eq!(force_penguin_hard_ice_slide_velocity(&mut motor, s(16.0)), s(16.0));
    assert_eq!(motor.impact_speed_limit, s(16.0));
}

#[test]
fn dash_jump_carry_extends_airborne_speed_limit_temporarily() {
    let mut motor = FighterMotor {
        grounded: false,
        dash_jump_carry_timer: timer(120),
        dash_jump_carry_speed_limit: s(7.5),
        ..FighterMotor::default()
    };
    let carry_limit = planar_speed_limit(&motor, false, s(4.0));
    motor.dash_jump_carry_timer = TickTimer::zero();
    let normal_limit = planar_speed_limit(&motor, false, s(4.0));
    assert_eq!(carry_limit, s(7.5));
    assert_eq!(normal_limit, s(4.0));
}

#[test]
fn landing_stick_scales_with_fall_speed() {
    assert_eq!(landing_stick_duration(s(-1.0)), 0);
    assert_eq!(landing_stick_duration(s(-3.0)), 35);
    assert_eq!(landing_stick_duration(s(-5.0)), 65);
    assert_eq!(landing_stick_duration(s(-9.0)), 100);
    assert!(landing_stick_duration(s(-5.0)) > landing_stick_duration(s(-3.0)));
    assert!(landing_stick_duration(s(-9.0)) > landing_stick_duration(s(-5.0)));
}

#[test]
fn aftermath_feedback_weights_distinguish_floor_outcomes() {
    assert!(
        aftermath_feedback_priority(ReactionFamilyId::GroundBounceDown)
            > aftermath_feedback_priority(ReactionFamilyId::GroundedDownGetup)
    );
    assert!(
        aftermath_landing_shake(ReactionFamilyId::GroundBounceDown)
            > aftermath_landing_shake(ReactionFamilyId::AerialSpikeDown)
    );
    assert_eq!(aftermath_feedback_priority(ReactionFamilyId::AirFishKnockdown), 54);
    assert_eq!(aftermath_landing_shake(ReactionFamilyId::AirFishKnockdown), 38);
}

#[test]
fn bounce_helpers_reflect_wall_and_ground_pressure() {
    let mut motor = FighterMotor { reaction_bounces: 2, ..FighterMotor::default() };
    let mut action = FighterActionState {
        elapsed: ElapsedTicks::from_ticks(9),
        ..in_action(FighterAction::Hitstun)
    };
    let effect = hit_wall(&mut motor, &mut action, s(-6.0), s(0.5), s(0.2), s(0.0));
    assert_eq!(effect, WallEffect::Bounce { x: true, z: false });
    assert_eq!(motor.reaction_bounces, 1);
    assert!(motor.knockdown_on_land);
    assert_eq!(action.elapsed, ElapsedTicks::zero());

    let mut standing = in_action(FighterAction::Moving);
    let effect = hit_wall(&mut motor, &mut standing, s(-6.0), s(0.5), s(0.2), s(0.0));
    assert_eq!(effect, WallEffect::Cancel { x: true, z: false });
    assert_eq!(motor.reaction_bounces, 1);
}

fn contact(height: f32, velocity_y: f32, fall: f32, was_grounded: bool) -> FloorContact {
    FloorContact {
        snap_height: Some(s(0.05)),
        height: s(height),
        velocity_y: s(velocity_y),
        fall_velocity: s(fall),
        was_grounded,
    }
}

#[test]
fn landings_bounce_first_and_then_lie_down() {
    let mut motor = FighterMotor {
        grounded: false,
        knockdown_on_land: true,
        reaction_bounces: 1,
        ..FighterMotor::default()
    };
    let mut action = in_action(FighterAction::Hitstun);
    let effect = meet_floor(&mut motor, &mut action, contact(0.0, -6.0, -6.0, false), &tuning());
    assert_eq!(effect, FloorEffect::Touched { kind: LandingKind::GroundBounce, felt: true });
    assert!(!motor.grounded);
    assert_eq!(action.reaction_family, Some(ReactionFamilyId::GroundBounceDown));

    let effect = meet_floor(&mut motor, &mut action, contact(0.0, -6.0, -6.0, false), &tuning());
    assert_eq!(effect, FloorEffect::Touched { kind: LandingKind::Knockdown, felt: true });
    assert!(motor.grounded);
    assert!(!motor.knockdown_on_land);
    assert_eq!(action.action, FighterAction::Knockdown);
    assert_eq!(motor.landing_stick_timer, timer(65));
    let intents = floor_intents(FighterId::Two, "Fox", v(0.0, 0.0, 0.0), effect);
    assert_eq!(intents.len(), 2);
}

#[test]
fn an_aftermath_takes_over_the_landing() {
    let aftermath = LandingAftermath {
        family: ReactionFamilyId::AirFishKnockdown,
        cue: "fish",
        horizontal_damping: s(0.4),
        landing_stick_ms: 120,
        getup_transition_ms: 300,
        recover_ms: 700,
    };
    let mut motor = FighterMotor {
        grounded: false,
        landing_aftermath: Some(aftermath),
        knockdown_on_land: true,
        reaction_bounces: 2,
        ..FighterMotor::default()
    };
    let mut action = in_action(FighterAction::Hitstun);
    let effect = meet_floor(&mut motor, &mut action, contact(0.0, -1.0, -1.0, false), &tuning());
    assert_eq!(
        effect,
        FloorEffect::Touched { kind: LandingKind::Aftermath(aftermath), felt: false }
    );
    assert_eq!(motor.landing_aftermath, None);
    assert_eq!(motor.landing_stick_timer, timer(120));
    assert_eq!(action.reaction_getup_ms, Some(300));
    assert_eq!(action.reaction_recover_ms, Some(700));
    assert_eq!(action.action, FighterAction::Knockdown);
}

#[test]
fn leaving_the_floor_opens_the_ledge_grace() {
    let mut motor = FighterMotor { grounded: true, ..FighterMotor::default() };
    let mut action = FighterActionState::default();
    let missing = FloorContact { snap_height: None, ..contact(0.0, 0.0, 0.0, true) };
    assert_eq!(meet_floor(&mut motor, &mut action, missing, &tuning()), FloorEffect::Missing);
    assert!(!motor.grounded);
    assert_eq!(motor.ledge_grace_timer, TickTimer::from_ticks(6));
    let above = contact(2.0, -1.0, -1.0, false);
    assert_eq!(meet_floor(&mut motor, &mut action, above, &tuning()), FloorEffect::Above);
}

#[test]
fn brakes_follow_their_order() {
    let motor = FighterMotor {
        grounded: true,
        landing_stick_timer: timer(100),
        dash_slide_timer: timer(100),
        ..FighterMotor::default()
    };
    assert!(turning_against_velocity(s(1.0), s(4.0), s(-0.5)));
    assert!(!turning_against_velocity(s(1.0), s(4.0), s(-0.1)));
    assert_eq!(choose_brake(&motor, s(1.0), s(1.0), true), Some(BrakeChoice::Turn));
    assert_eq!(choose_brake(&motor, s(0.0), s(1.0), false), Some(BrakeChoice::Landing));
    let sliding = FighterMotor { landing_stick_timer: TickTimer::zero(), ..motor };
    assert_eq!(choose_brake(&sliding, s(0.0), s(1.0), false), Some(BrakeChoice::DashSlide));
    let still = FighterMotor { dash_slide_timer: TickTimer::zero(), ..sliding };
    assert_eq!(choose_brake(&still, s(0.0), s(1.0), false), Some(BrakeChoice::Stopping));
    assert_eq!(choose_brake(&still, s(1.0), s(0.2), false), Some(BrakeChoice::Friction));
    assert_eq!(choose_brake(&still, s(1.0), s(1.0), false), None);
}

#[test]
fn slow_slides_and_slow_bodies_come_to_rest() {
    let mut motor = FighterMotor {
        grounded: true,
        dash_slide_timer: timer(100),
        ..FighterMotor::default()
    };
    assert!(!settle_dash_slide(&mut motor, s(4.0), &tuning()));
    assert!(settle_dash_slide(&mut motor, s(0.3), &tuning()));
    assert_eq!(motor.dash_slide_timer, TickTimer::zero());
    assert!(snaps_to_rest(s(0.0), s(0.004), s(0.0064)));
    assert!(!snaps_to_rest(s(1.0), s(0.004), s(0.0064)));
    assert!(!snaps_to_rest(s(0.0), s(0.04), s(0.0064)));
}

#[test]
fn gravity_pulls_whatever_does_not_stand() {
    assert!(gravity_applies(false, Some(s(0.05)), s(0.0)));
    assert!(gravity_applies(true, None, s(0.0)));
    assert!(gravity_applies(true, Some(s(0.05)), s(0.5)));
    assert!(!gravity_applies(true, Some(s(0.05)), s(0.0)));
}

#[test]
fn fallen_fighters_do_not_move() {
    let mut stats = FighterStats::new(s(100.0), s(100.0));
    let mut motor = FighterMotor::default();
    assert!(!begin_movement(&mut stats, &mut motor, FighterAction::RingOut, &tuning()));
    assert!(begin_movement(&mut stats, &mut motor, FighterAction::Idle, &tuning()));
    assert_eq!(motor.ledge_grace_timer, TickTimer::from_ticks(6));
}

fn begin(fighter: &mut MovingFighter, velocity_y: f32) -> MovementOrder {
    let report = MovementReport::Begin { frozen: false, velocity_y: s(velocity_y) };
    apply_fighter_movement(fighter, report, &tuning())
}

fn surface(fighter: &mut MovingFighter, on_hard_ice: bool) -> MovementOrder {
    let entry = IceSlideEntry { direction: v(1.0, 0.0, 0.0), speed: s(7.5) };
    let report = MovementReport::Surface { on_hard_ice, entry, ice_slide_ticks: None };
    apply_fighter_movement(fighter, report, &tuning())
}

fn steer(fighter: &mut MovingFighter, input: f32, speed: f32) -> MovementOrder {
    let report = MovementReport::Steered {
        input_length_squared: s(input * input),
        planar_speed_squared: s(speed * speed),
        alignment: s(input),
        input_scale: s(1.0),
    };
    apply_fighter_movement(fighter, report, &tuning())
}

fn standing() -> MovingFighter {
    let stats = FighterStats::new(s(100.0), s(100.0));
    let motor = FighterMotor { grounded: true, ..FighterMotor::default() };
    MovingFighter::new(stats, motor, in_action(FighterAction::Idle))
}

#[test]
fn a_tick_of_movement_runs_from_the_ground_to_the_floor() {
    let mut fighter = standing();
    assert_eq!(begin(&mut fighter, 0.0), MovementOrder::MeasureSurface);
    assert_eq!(
        surface(&mut fighter, false),
        MovementOrder::Steer { steered: true, landing: false, icy: false }
    );
    assert_eq!(steer(&mut fighter, 0.0, 0.2), MovementOrder::Brake(BrakeChoice::Stopping));
    let braked = MovementReport::Braked {
        input_length_squared: s(0.0),
        planar_speed_squared: s(0.01),
        snap_speed_squared: s(0.04),
    };
    assert_eq!(
        apply_fighter_movement(&mut fighter, braked, &tuning()),
        MovementOrder::Settle { stops: true }
    );
    let settled = MovementReport::Settled { entry_speed: s(5.0) };
    assert_eq!(apply_fighter_movement(&mut fighter, settled, &tuning()), MovementOrder::Drift);
    let placed = MovementReport::Placed { snap_height: Some(s(0.1)), height: s(0.0) };
    assert_eq!(
        apply_fighter_movement(&mut fighter, placed, &tuning()),
        MovementOrder::Travel { pulls: false, takeoff: false }
    );
    let moved = MovementReport::Moved {
        velocity_x: s(-2.0),
        velocity_z: s(0.0),
        correction_x: s(0.1),
        correction_z: s(0.0),
    };
    assert_eq!(
        apply_fighter_movement(&mut fighter, moved, &tuning()),
        MovementOrder::Wall(WallEffect::Cancel { x: true, z: false })
    );
    let floor = MovementReport::Floor {
        snap_height: Some(s(0.1)),
        height: s(0.0),
        velocity_y: s(0.0),
    };
    assert_eq!(
        apply_fighter_movement(&mut fighter, floor, &tuning()),
        MovementOrder::Land(FloorEffect::Touched { kind: LandingKind::Plain, felt: false })
    );
    assert!(fighter.motor.grounded);
    assert_eq!(fighter.motor.ledge_grace_timer, TickTimer::from_ticks(6));
    assert_eq!(fighter.stage, MovementStage::Done);
    assert_eq!(begin(&mut fighter, 0.0), MovementOrder::Rest);
}

#[test]
fn a_steered_runner_is_not_braked() {
    let mut fighter = standing();
    begin(&mut fighter, 0.0);
    surface(&mut fighter, false);
    assert_eq!(steer(&mut fighter, 1.0, 3.0), MovementOrder::Coast);
    assert_eq!(fighter.stage, MovementStage::Settled);
}

#[test]
fn a_fighter_off_the_edge_is_in_the_air() {
    let mut fighter = standing();
    begin(&mut fighter, 0.0);
    surface(&mut fighter, false);
    steer(&mut fighter, 1.0, 3.0);
    apply_fighter_movement(
        &mut fighter,
        MovementReport::Settled { entry_speed: s(0.0) },
        &tuning(),
    );
    assert_eq!(
        apply_fighter_movement(
            &mut fighter,
            MovementReport::Placed { snap_height: None, height: s(0.0) },
            &tuning(),
        ),
        MovementOrder::Travel { pulls: true, takeoff: false }
    );
    let free = MovementReport::Moved {
        velocity_x: s(3.0),
        velocity_z: s(0.0),
        correction_x: s(0.0),
        correction_z: s(0.0),
    };
    apply_fighter_movement(&mut fighter, free, &tuning());
    let nothing_below =
        MovementReport::Floor { snap_height: None, height: s(-0.1), velocity_y: s(-0.3) };
    assert_eq!(
        apply_fighter_movement(&mut fighter, nothing_below, &tuning()),
        MovementOrder::Land(FloorEffect::Missing)
    );
    assert!(!fighter.motor.grounded);
}

#[test]
fn frozen_fighters_keep_their_timers() {
    let mut fighter = standing();
    fighter.motor.dash_slide_timer = TickTimer::from_ticks(9);
    let motor = fighter.motor;
    let report = MovementReport::Begin { frozen: true, velocity_y: s(-3.0) };
    assert_eq!(apply_fighter_movement(&mut fighter, report, &tuning()), MovementOrder::Rest);
    assert_eq!(fighter.motor, motor);
    assert_eq!(fighter.stage, MovementStage::Done);
}

#[test]
fn fallen_fighters_rest_while_their_timers_run() {
    let mut fighter = standing();
    fighter.action = in_action(FighterAction::RingOut);
    fighter.motor.dash_slide_timer = TickTimer::from_ticks(9);
    assert_eq!(begin(&mut fighter, 0.0), MovementOrder::Rest);
    assert_eq!(fighter.motor.dash_slide_timer, TickTimer::from_ticks(8));
}

#[test]
fn hard_ice_takes_the_steering_and_sets_the_speed() {
    let mut fighter = standing();
    begin(&mut fighter, 0.0);
    assert_eq!(
        surface(&mut fighter, true),
        MovementOrder::Steer { steered: false, landing: false, icy: false }
    );
    steer(&mut fighter, 0.0, 4.0);
    let braked = MovementReport::Braked {
        input_length_squared: s(0.0),
        planar_speed_squared: s(9.0),
        snap_speed_squared: s(0.04),
    };
    apply_fighter_movement(&mut fighter, braked, &tuning());
    assert_eq!(
        apply_fighter_movement(
            &mut fighter,
            MovementReport::Settled { entry_speed: s(6.0) },
            &tuning(),
        ),
        MovementOrder::Slide { direction: v(1.0, 0.0, 0.0), speed: s(7.5) }
    );
    assert_eq!(fighter.motor.impact_speed_limit, s(7.5));
}

#[test]
fn reports_out_of_turn_change_nothing() {
    let mut fighter = standing();
    let motor = fighter.motor;
    let report = MovementReport::Settled { entry_speed: s(6.0) };
    assert_eq!(apply_fighter_movement(&mut fighter, report, &tuning()), MovementOrder::Rest);
    assert_eq!(fighter.motor, motor);
    assert_eq!(fighter.stage, MovementStage::Begin);
}

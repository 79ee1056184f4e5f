//! What a fighter's motor and action make of its movement: braking, slides,
//! walls and landings. The vectors themselves are moved by their owner.

use vstd::prelude::*;

use crate::action::{FighterAction, FighterActionState, out_of_play};
use crate::fighter::{FighterMotor, FighterStats, FighterTuning, points_somewhere};
use crate::ids::FighterId;
use crate::pending::{PendingFighterPresentationEvent, PendingFighterPresentationIntent};
use crate::presentation::FighterPresentationKind;
use crate::reaction::{LandingAftermath, ReactionFamilyId};
use crate::scalar::{NEUTRAL_LENGTH_SQUARED_BITS, SIGN_BIT, Scalar, SimVec3};
use crate::sim_event::FighterLifecycleEvent;
use crate::ticks::{ElapsedTicks, TickTimer, milliseconds_to_ticks_ceil, ticks_covering_millis};

verus! {

/// The bit pattern of `0.001`, the size below which a velocity or a correction
/// does not count.
pub const AXIS_NOISE_BITS: u32 = 0x3a83_126f;

/// The bit pattern of `-0.15`, the alignment below which input turns against the
/// velocity.
pub const TURNING_ALIGNMENT_BITS: u32 = 0xbe19_999a;

/// The bit pattern of `0.5`, the input weight below which a body always brakes.
pub const STEERABLE_INPUT_BITS: u32 = 0x3f00_0000;

/// The bit pattern of the squared speed, `0.22` squared, above which an ice slide
/// keeps its direction.
pub const ICE_ENTRY_SPEED_SQUARED_BITS: u32 = 0x3d46_3f14;

/// The bit pattern of `-2`, the fall speed from which a landing is felt.
pub const FELT_FALL_BITS: u32 = 0xc000_0000;

/// The bit pattern of `-4.5`, the fall speed of a firm landing.
pub const FIRM_FALL_BITS: u32 = 0xc090_0000;

/// The bit pattern of `-4.6`, the fall speed from which a body bounces.
pub const BOUNCING_FALL_BITS: u32 = 0xc093_3333;

/// The bit pattern of `-8`, the fall speed of a hard landing.
pub const HARD_FALL_BITS: u32 = 0xc100_0000;

/// How long an ice slide keeps a dash slide going, in milliseconds.
pub const ICE_SLIDE_MS: u32 = 280;

/// How long an ice slide lifts the speed limit, in milliseconds.
pub const ICE_SPEED_LIMIT_MS: u32 = 80;

/// A countdown of at least `millis` milliseconds.
pub open spec fn millis_timer(millis: u32) -> TickTimer {
    TickTimer { remaining: ticks_covering_millis(millis as int) as u32 }
}

fn timer_of(millis: u32) -> (timer: TickTimer)
    ensures
        timer == millis_timer(millis),
{
    TickTimer::from_ticks(milliseconds_to_ticks_ceil(millis))
}

/// The motor's timers one tick later. Speed limits end with their timers.
pub open spec fn timers_ticked(motor: FighterMotor) -> FighterMotor {
    FighterMotor {
        landing_stick_timer: motor.landing_stick_timer.ticked(),
        jump_takeoff_timer: motor.jump_takeoff_timer.ticked(),
        dash_slide_timer: motor.dash_slide_timer.ticked(),
        dash_jump_carry_timer: motor.dash_jump_carry_timer.ticked(),
        impact_speed_limit_timer: motor.impact_speed_limit_timer.ticked(),
        dash_jump_carry_speed_limit: if motor.dash_jump_carry_timer.ticked().active() {
            motor.dash_jump_carry_speed_limit
        } else {
            Scalar::zero()
        },
        impact_speed_limit: if motor.impact_speed_limit_timer.ticked().active() {
            motor.impact_speed_limit
        } else {
            Scalar::zero()
        },
        ..motor
    }
}

/// The motor as a tick of movement begins: a fighter on the ground earns its
/// ledge grace, one in the air uses it up, and one out of the arena moves no more.
pub open spec fn movement_begun(
    motor: FighterMotor,
    action: FighterAction,
    tuning: FighterTuning,
) -> FighterMotor {
    let ticked = timers_ticked(motor);
    if out_of_play(action) {
        ticked.without_ice_slide().without_bee_dash()
    } else {
        FighterMotor {
            ledge_grace_timer: if ticked.grounded {
                TickTimer { remaining: tuning.ledge_grace }
            } else {
                ticked.ledge_grace_timer.ticked()
            },
            ..ticked
        }
    }
}

/// Begins a tick of movement. False says that the fighter does not move.
pub fn begin_movement(
    stats: &mut FighterStats,
    motor: &mut FighterMotor,
    action: FighterAction,
    tuning: &FighterTuning,
) -> (moves: bool)
    ensures
        moves == !out_of_play(action),
        *final(motor) == movement_begun(*old(motor), action, *tuning),
        *final(stats) == (FighterStats {
            item_speed_timer: old(stats).item_speed_timer.ticked(),
            item_giant_timer: old(stats).item_giant_timer.ticked(),
            ..*old(stats)
        }),
{
    stats.item_speed_timer.tick();
    stats.item_giant_timer.tick();
    motor.landing_stick_timer.tick();
    motor.jump_takeoff_timer.tick();
    motor.dash_slide_timer.tick();
    motor.dash_jump_carry_timer.tick();
    motor.impact_speed_limit_timer.tick();
    if !motor.dash_jump_carry_timer.active() {
        motor.dash_jump_carry_speed_limit = Scalar::zero();
    }
    if !motor.impact_speed_limit_timer.active() {
        motor.impact_speed_limit = Scalar::zero();
    }
    if out_of_play(action) {
        motor.clear_ice_slide();
        motor.clear_bee_dash();
        return false;
    }
    if motor.grounded {
        motor.ledge_grace_timer = TickTimer::from_ticks(tuning.ledge_grace);
    } else {
        motor.ledge_grace_timer.tick();
    }
    true
}

/// Actions that end Penguin's ice slide.
pub open spec fn spec_penguin_ice_slide_cleared_by_action(action: FighterAction) -> bool {
    action == FighterAction::Hitstun || action == FighterAction::Knockdown || action
        == FighterAction::Grabbed || action == FighterAction::GetUp || action
        == FighterAction::RingOut || action == FighterAction::Respawning
}

#[verifier::when_used_as_spec(spec_penguin_ice_slide_cleared_by_action)]
pub fn penguin_ice_slide_cleared_by_action(action: FighterAction) -> (cleared: bool)
    ensures
        cleared == spec_penguin_ice_slide_cleared_by_action(action),
{
    matches!(
        action,
        FighterAction::Hitstun | FighterAction::Knockdown | FighterAction::Grabbed
            | FighterAction::GetUp | FighterAction::RingOut | FighterAction::Respawning
    )
}

/// Where an ice slide goes that begins now: on with the velocity, where the input
/// points, or where the fighter faces.
#[derive(Clone, Copy, Debug, PartialEq, Eq, Structural)]
pub enum IceHeading {
    Velocity,
    Input,
    Facing,
}

pub open spec fn spec_ice_heading(
    planar_speed_squared: Scalar,
    input_length_squared: Scalar,
) -> IceHeading {
    if (Scalar { bits: ICE_ENTRY_SPEED_SQUARED_BITS }).lt(planar_speed_squared) {
        IceHeading::Velocity
    } else if points_somewhere(input_length_squared) {
        IceHeading::Input
    } else {
        IceHeading::Facing
    }
}

pub fn ice_heading(planar_speed_squared: Scalar, input_length_squared: Scalar) -> (heading:
    IceHeading)
    ensures
        heading == spec_ice_heading(planar_speed_squared, input_length_squared),
{
    if (Scalar { bits: ICE_ENTRY_SPEED_SQUARED_BITS }).lt(planar_speed_squared) {
        IceHeading::Velocity
    } else if points_somewhere(input_length_squared) {
        IceHeading::Input
    } else {
        IceHeading::Facing
    }
}

/// The direction and speed with which a slide would begin now.
#[derive(Clone, Copy, Debug, PartialEq, Eq, Structural)]
pub struct IceSlideEntry {
    pub direction: SimVec3,
    pub speed: Scalar,
}

/// The motor's slide on hard ice: it keeps the direction and speed with which it
/// began until the ice or the action ends it.
pub open spec fn ice_slid(
    motor: FighterMotor,
    action: FighterAction,
    on_hard_ice: bool,
    entry: IceSlideEntry,
) -> FighterMotor {
    if !on_hard_ice || penguin_ice_slide_cleared_by_action(action) {
        motor.without_ice_slide()
    } else if motor.penguin_ice_slide_direction.is_some() {
        motor
    } else {
        FighterMotor {
            penguin_ice_slide_direction: Some(entry.direction),
            penguin_ice_slide_speed: entry.speed,
            ..motor
        }
    }
}

/// Updates the slide on hard ice and gives its direction. While it lasts the
/// input does not steer.
pub fn update_penguin_hard_ice_slide_state(
    motor: &mut FighterMotor,
    action: FighterAction,
    on_hard_ice: bool,
    entry: IceSlideEntry,
) -> (direction: Option<SimVec3>)
    ensures
        *final(motor) == ice_slid(*old(motor), action, on_hard_ice, entry),
        direction == final(motor).penguin_ice_slide_direction,
{
    if !on_hard_ice || penguin_ice_slide_cleared_by_action(action) {
        motor.clear_ice_slide();
        return None;
    }
    if motor.penguin_ice_slide_direction.is_none() {
        motor.penguin_ice_slide_direction = Some(entry.direction);
        motor.penguin_ice_slide_speed = entry.speed;
    }
    motor.penguin_ice_slide_direction
}

/// The larger of two numbers; a pattern that is no number yields to the other.
pub open spec fn larger(left: Scalar, right: Scalar) -> Scalar {
    if left.is_nan() || left.lt(right) {
        right
    } else {
        left
    }
}

/// The motor while a slide on hard ice sets its speed.
pub open spec fn ice_speed_forced(motor: FighterMotor, speed: Scalar) -> FighterMotor {
    FighterMotor {
        dash_slide_timer: motor.dash_slide_timer.spec_max(millis_timer(ICE_SLIDE_MS)),
        impact_speed_limit_timer: motor.impact_speed_limit_timer.spec_max(
            millis_timer(ICE_SPEED_LIMIT_MS),
        ),
        impact_speed_limit: larger(motor.impact_speed_limit, speed),
        ..motor
    }
}

/// The speed of a slide on hard ice: the remembered one, else `entry_speed`. The
/// speed limit is lifted to it.
pub fn force_penguin_hard_ice_slide_velocity(
    motor: &mut FighterMotor,
    entry_speed: Scalar,
) -> (speed: Scalar)
    ensures
        speed == (if Scalar::zero().lt(old(motor).penguin_ice_slide_speed) {
            old(motor).penguin_ice_slide_speed
        } else {
            entry_speed
        }),
        *final(motor) == ice_speed_forced(*old(motor), speed),
{
    let speed = if Scalar::zero().lt(motor.penguin_ice_slide_speed) {
        motor.penguin_ice_slide_speed
    } else {
        entry_speed
    };
    motor.dash_slide_timer.set_max(timer_of(ICE_SLIDE_MS));
    motor.impact_speed_limit_timer.set_max(timer_of(ICE_SPEED_LIMIT_MS));
    motor.impact_speed_limit = larger_of(motor.impact_speed_limit, speed);
    speed
}

/// A slide on hard ice keeps its direction and speed for as long as it lasts,
/// whatever the input, and is forgotten when it ends.
pub proof fn ice_slides_are_locked(
    motor: FighterMotor,
    action: FighterAction,
    next_action: FighterAction,
    entry: IceSlideEntry,
    other: IceSlideEntry,
)
    requires
        !penguin_ice_slide_cleared_by_action(action),
        !penguin_ice_slide_cleared_by_action(next_action),
        motor.penguin_ice_slide_direction.is_none(),
    ensures
        ({
            let begun = ice_slid(motor, action, true, entry);
            let locked = ice_slid(begun, next_action, true, other);
            let ended = ice_slid(locked, next_action, false, other);
            &&& begun.penguin_ice_slide_direction == Some(entry.direction)
            &&& locked.penguin_ice_slide_direction == Some(entry.direction)
            &&& locked.penguin_ice_slide_speed == entry.speed
            &&& ended.penguin_ice_slide_direction.is_none()
            &&& ended.penguin_ice_slide_speed == Scalar::zero()
        }),
{
}

/// Which of its brakes a body uses.
#[derive(Clone, Copy, Debug, PartialEq, Eq, Structural)]
pub enum BrakeChoice {
    /// Friction and the turning brake.
    Turn,
    /// Friction and the landing brake.
    Landing,
    /// The dash slide's friction.
    DashSlide,
    /// The stopping friction.
    Stopping,
    /// Friction alone.
    Friction,
}

/// The input turns against the velocity.
pub open spec fn spec_turning_against_velocity(
    input_length_squared: Scalar,
    planar_speed_squared: Scalar,
    alignment: Scalar,
) -> bool {
    points_somewhere(input_length_squared) && points_somewhere(planar_speed_squared)
        && alignment.lt(Scalar { bits: TURNING_ALIGNMENT_BITS })
}

#[verifier::when_used_as_spec(spec_turning_against_velocity)]
pub fn turning_against_velocity(
    input_length_squared: Scalar,
    planar_speed_squared: Scalar,
    alignment: Scalar,
) -> (turning: bool)
    ensures
        turning == spec_turning_against_velocity(
            input_length_squared,
            planar_speed_squared,
            alignment,
        ),
{
    points_somewhere(input_length_squared) && points_somewhere(planar_speed_squared)
        && alignment.lt(Scalar { bits: TURNING_ALIGNMENT_BITS })
}

/// No direction is held.
pub open spec fn input_idle(input_length_squared: Scalar) -> bool {
    input_length_squared.lt(Scalar { bits: NEUTRAL_LENGTH_SQUARED_BITS })
}

/// The brake of this tick. A steerable body that is steered along its way does
/// not brake; a slide and a landing have brakes of their own.
pub open spec fn brake_for(
    motor: FighterMotor,
    input_length_squared: Scalar,
    input_scale: Scalar,
    turning: bool,
) -> Option<BrakeChoice> {
    let idle = input_idle(input_length_squared);
    if !(idle || input_scale.lt(Scalar { bits: STEERABLE_INPUT_BITS }) || turning) {
        None
    } else if turning {
        Some(BrakeChoice::Turn)
    } else if motor.grounded && motor.landing_stick_timer.active() {
        Some(BrakeChoice::Landing)
    } else if motor.grounded && motor.dash_slide_timer.active() && idle {
        Some(BrakeChoice::DashSlide)
    } else if idle {
        Some(BrakeChoice::Stopping)
    } else {
        Some(BrakeChoice::Friction)
    }
}

pub fn choose_brake(
    motor: &FighterMotor,
    input_length_squared: Scalar,
    input_scale: Scalar,
    turning: bool,
) -> (brake: Option<BrakeChoice>)
    ensures
        brake == brake_for(*motor, input_length_squared, input_scale, turning),
{
    let idle = input_length_squared.lt(Scalar { bits: NEUTRAL_LENGTH_SQUARED_BITS });
    if !(idle || input_scale.lt(Scalar { bits: STEERABLE_INPUT_BITS }) || turning) {
        return None;
    }
    if turning {
        Some(BrakeChoice::Turn)
    } else if motor.grounded && motor.landing_stick_timer.active() {
        Some(BrakeChoice::Landing)
    } else if motor.grounded && motor.dash_slide_timer.active() && idle {
        Some(BrakeChoice::DashSlide)
    } else if idle {
        Some(BrakeChoice::Stopping)
    } else {
        Some(BrakeChoice::Friction)
    }
}

/// A dash slide on the ground that has become slow.
pub open spec fn slide_spent(
    motor: FighterMotor,
    planar_speed_squared: Scalar,
    tuning: FighterTuning,
) -> bool {
    motor.grounded && motor.dash_slide_timer.active() && planar_speed_squared.le(
        tuning.dash_slide_stop_speed_squared,
    )
}

/// Ends a dash slide that has become slow; true says that the fighter is to stop
/// along the ground.
pub fn settle_dash_slide(
    motor: &mut FighterMotor,
    planar_speed_squared: Scalar,
    tuning: &FighterTuning,
) -> (stops: bool)
    ensures
        stops == slide_spent(*old(motor), planar_speed_squared, *tuning),
        *final(motor) == (if stops {
            FighterMotor { dash_slide_timer: TickTimer::zero(), ..*old(motor) }
        } else {
            *old(motor)
        }),
{
    if motor.grounded && motor.dash_slide_timer.active() && planar_speed_squared.le(
        tuning.dash_slide_stop_speed_squared,
    ) {
        motor.dash_slide_timer.clear();
        true
    } else {
        false
    }
}

/// Ice underfoot keeps a dash slide going for at least `ticks` ticks.
pub fn extend_slide_on_ice(motor: &mut FighterMotor, ticks: u32)
    ensures
        *final(motor) == (if old(motor).grounded {
            FighterMotor {
                dash_slide_timer: old(motor).dash_slide_timer.spec_max(
                    TickTimer { remaining: ticks },
                ),
                ..*old(motor)
            }
        } else {
            *old(motor)
        }),
{
    if motor.grounded {
        motor.dash_slide_timer.set_max(TickTimer::from_ticks(ticks));
    }
}

/// The speed limit along the ground: a dash jump lifts it in the air, an impact
/// anywhere, for as long as they last.
pub open spec fn speed_limit(motor: FighterMotor, grounded: bool, base: Scalar) -> Scalar {
    let carried = if !grounded && motor.dash_jump_carry_timer.active() {
        larger(base, motor.dash_jump_carry_speed_limit)
    } else {
        base
    };
    if motor.impact_speed_limit_timer.active() {
        larger(carried, motor.impact_speed_limit)
    } else {
        carried
    }
}

fn larger_of(left: Scalar, right: Scalar) -> (value: Scalar)
    ensures
        value == larger(left, right),
{
    if left.is_nan() || left.lt(right) {
        right
    } else {
        left
    }
}

/// The speed limit along the ground; `base` is that of the body and its style.
pub fn planar_speed_limit(motor: &FighterMotor, grounded: bool, base: Scalar) -> (limit: Scalar)
    ensures
        limit == speed_limit(*motor, grounded, base),
{
    let carried = if !grounded && motor.dash_jump_carry_timer.active() {
        larger_of(base, motor.dash_jump_carry_speed_limit)
    } else {
        base
    };
    if motor.impact_speed_limit_timer.active() {
        larger_of(carried, motor.impact_speed_limit)
    } else {
        carried
    }
}

/// The speed limit is never below that of the body.
pub proof fn speed_limits_only_lift(motor: FighterMotor, grounded: bool, base: Scalar)
    requires
        !base.is_nan(),
    ensures
        base.le(speed_limit(motor, grounded, base)),
{
}

/// A body without input that is slower than its snap speed comes to rest.
pub fn snaps_to_rest(
    input_length_squared: Scalar,
    planar_speed_squared: Scalar,
    snap_speed_squared: Scalar,
) -> (rests: bool)
    ensures
        rests == (input_length_squared.le(Scalar { bits: NEUTRAL_LENGTH_SQUARED_BITS })
            && planar_speed_squared.le(snap_speed_squared)),
{
    input_length_squared.le(Scalar { bits: NEUTRAL_LENGTH_SQUARED_BITS })
        && planar_speed_squared.le(snap_speed_squared)
}

/// Gravity pulls in the air, where there is no floor, and above the height at
/// which the floor holds a fighter.
pub fn gravity_applies(grounded: bool, snap_height: Option<Scalar>, height: Scalar) -> (applies:
    bool)
    ensures
        applies == (!grounded || match snap_height {
            Some(snap) => snap.lt(height),
            None => true,
        }),
{
    !grounded || match snap_height {
        Some(snap) => snap.lt(height),
        None => true,
    }
}

/// The size of a number is above the noise.
pub open spec fn above_noise(value: Scalar) -> bool {
    !value.is_nan() && value.spec_magnitude() > AXIS_NOISE_BITS
}

fn is_above_noise(value: Scalar) -> (above: bool)
    ensures
        above == above_noise(value),
{
    if value.is_nan() {
        return false;
    }
    if value.bits >= SIGN_BIT {
        value.bits - SIGN_BIT > AXIS_NOISE_BITS
    } else {
        value.bits > AXIS_NOISE_BITS
    }
}

/// A wall pushes against the velocity on one axis.
pub open spec fn spec_should_cancel_axis_velocity(velocity: Scalar, correction: Scalar) -> bool {
    above_noise(correction) && above_noise(velocity) && velocity.spec_negative()
        != correction.spec_negative()
}

#[verifier::when_used_as_spec(spec_should_cancel_axis_velocity)]
pub fn should_cancel_axis_velocity(velocity: Scalar, correction: Scalar) -> (cancels: bool)
    ensures
        cancels == spec_should_cancel_axis_velocity(velocity, correction),
{
    is_above_noise(correction) && is_above_noise(velocity) && (velocity.bits >= SIGN_BIT) != (
    correction.bits >= SIGN_BIT)
}

/// What a wall does to the velocity.
#[derive(Clone, Copy, Debug, PartialEq, Eq, Structural)]
pub enum WallEffect {
    /// Thrown back on the axes that hit the wall.
    Bounce { x: bool, z: bool },
    /// Stopped on the axes that hit the wall.
    Cancel { x: bool, z: bool },
}

/// A stunned fighter with bounces left is thrown back by a wall.
pub open spec fn wall_bounces(
    motor: FighterMotor,
    action: FighterAction,
    x: bool,
    z: bool,
) -> bool {
    action == FighterAction::Hitstun && motor.reaction_bounces > 0 && (x || z)
}

/// Lets a wall act on a fighter. A bounce uses up one of its bounces, starts its
/// stun over and ends in a knockdown.
pub fn hit_wall(
    motor: &mut FighterMotor,
    action: &mut FighterActionState,
    velocity_x: Scalar,
    velocity_z: Scalar,
    correction_x: Scalar,
    correction_z: Scalar,
) -> (effect: WallEffect)
    ensures
        ({
            let x = should_cancel_axis_velocity(velocity_x, correction_x);
            let z = should_cancel_axis_velocity(velocity_z, correction_z);
            if wall_bounces(*old(motor), old(action).action, x, z) {
                &&& effect == WallEffect::Bounce { x, z }
                &&& *final(motor) == (FighterMotor {
                    reaction_bounces: (old(motor).reaction_bounces - 1) as u8,
                    knockdown_on_land: true,
                    ..*old(motor)
                })
                &&& *final(action) == (FighterActionState {
                    elapsed: ElapsedTicks::zero(),
                    ..*old(action)
                })
            } else {
                &&& effect == WallEffect::Cancel { x, z }
                &&& *final(motor) == *old(motor)
                &&& *final(action) == *old(action)
            }
        }),
{
    let x = should_cancel_axis_velocity(velocity_x, correction_x);
    let z = should_cancel_axis_velocity(velocity_z, correction_z);
    if action.action == FighterAction::Hitstun && motor.reaction_bounces > 0 && (x || z) {
        motor.reaction_bounces = motor.reaction_bounces - 1;
        motor.knockdown_on_land = true;
        action.elapsed.reset();
        WallEffect::Bounce { x, z }
    } else {
        WallEffect::Cancel { x, z }
    }
}

/// How long a landing sticks, in milliseconds, by its fall velocity.
pub open spec fn spec_landing_stick_duration(fall_velocity: Scalar) -> u32 {
    if fall_velocity.lt(Scalar { bits: HARD_FALL_BITS }) {
        100
    } else if fall_velocity.lt(Scalar { bits: FIRM_FALL_BITS }) {
        65
    } else if fall_velocity.lt(Scalar { bits: FELT_FALL_BITS }) {
        35
    } else {
        0
    }
}

#[verifier::when_used_as_spec(spec_landing_stick_duration)]
pub fn landing_stick_duration(fall_velocity: Scalar) -> (millis: u32)
    ensures
        millis == spec_landing_stick_duration(fall_velocity),
{
    if fall_velocity.lt(Scalar { bits: HARD_FALL_BITS }) {
        100
    } else if fall_velocity.lt(Scalar { bits: FIRM_FALL_BITS }) {
        65
    } else if fall_velocity.lt(Scalar { bits: FELT_FALL_BITS }) {
        35
    } else {
        0
    }
}

/// Falling faster never makes a landing stick for a shorter time.
pub proof fn harder_landings_stick_longer(soft: Scalar, hard: Scalar)
    requires
        hard.le(soft),
    ensures
        landing_stick_duration(soft) <= landing_stick_duration(hard),
{
}

/// What a landing turns into.
#[derive(Clone, Copy, Debug, PartialEq, Eq)]
pub enum LandingKind {
    /// An authored aftermath of a hit, which damps the speed along the ground.
    Aftermath(LandingAftermath),
    /// Off the ground again.
    GroundBounce,
    /// Onto the floor.
    Knockdown,
    /// A pause after a dive.
    Recovery,
    /// Nothing out of the ordinary.
    Plain,
}

/// What the floor does to a fighter.
#[derive(Clone, Copy, Debug, PartialEq, Eq)]
pub enum FloorEffect {
    /// There is no floor.
    Missing,
    /// The fighter is above the floor.
    Above,
    /// The fighter stands on the floor or lands on it. `felt` landings are shown.
    Touched { kind: LandingKind, felt: bool },
}

/// What a landing turns into, in order of precedence.
pub open spec fn landing_kind(motor: FighterMotor, fall_velocity: Scalar) -> LandingKind {
    match motor.landing_aftermath {
        Some(aftermath) => LandingKind::Aftermath(aftermath),
        None => if motor.knockdown_on_land {
            if motor.reaction_bounces > 0 && fall_velocity.lt(
                Scalar { bits: BOUNCING_FALL_BITS },
            ) {
                LandingKind::GroundBounce
            } else {
                LandingKind::Knockdown
            }
        } else if motor.jump_attack_landing_recovery {
            LandingKind::Recovery
        } else {
            LandingKind::Plain
        },
    }
}

/// The motor that stands on the floor.
pub open spec fn standing(motor: FighterMotor, tuning: FighterTuning) -> FighterMotor {
    FighterMotor {
        air_attack_used: false,
        grounded: true,
        pig_air_meat_slam_air_hits: 0,
        ledge_grace_timer: TickTimer { remaining: tuning.ledge_grace },
        ..motor.without_air_queue().without_bee_dash().without_dash_carry()
    }
}

/// The motor with the landing's stick time.
pub open spec fn stuck(motor: FighterMotor, was_grounded: bool, fall_velocity: Scalar) -> FighterMotor {
    if was_grounded {
        motor
    } else {
        FighterMotor {
            landing_stick_timer: motor.landing_stick_timer.spec_max(
                millis_timer(landing_stick_duration(fall_velocity)),
            ),
            ..motor
        }
    }
}

/// The motor after a landing.
pub open spec fn landed_motor(
    motor: FighterMotor,
    kind: LandingKind,
    tuning: FighterTuning,
) -> FighterMotor {
    match kind {
        LandingKind::Aftermath(aftermath) => standing(
            FighterMotor {
                landing_aftermath: None,
                knockdown_on_land: false,
                reaction_bounces: 0,
                jump_attack_landing_recovery: false,
                landing_stick_timer: motor.landing_stick_timer.spec_max(
                    millis_timer(aftermath.landing_stick_ms),
                ),
                ..motor
            },
            tuning,
        ),
        LandingKind::GroundBounce => FighterMotor {
            reaction_bounces: (motor.reaction_bounces - 1) as u8,
            grounded: false,
            ..motor.without_bee_dash()
        },
        LandingKind::Knockdown => standing(
            FighterMotor {
                knockdown_on_land: false,
                reaction_bounces: 0,
                jump_attack_landing_recovery: false,
                ..motor
            },
            tuning,
        ),
        LandingKind::Recovery => standing(
            FighterMotor { jump_attack_landing_recovery: false, ..motor },
            tuning,
        ),
        LandingKind::Plain => standing(motor, tuning),
    }
}

/// The action after a landing.
pub open spec fn landed_action(action: FighterActionState, kind: LandingKind) -> FighterActionState {
    match kind {
        LandingKind::Aftermath(aftermath) => FighterActionState {
            reaction_getup_ms: Some(aftermath.getup_transition_ms),
            reaction_recover_ms: Some(aftermath.recover_ms),
            ..action.forced(FighterAction::Knockdown).without_reaction_visual()
        },
        LandingKind::GroundBounce => FighterActionState {
            reaction_family: Some(ReactionFamilyId::GroundBounceDown),
            ..action.forced(FighterAction::Hitstun)
        },
        LandingKind::Knockdown => action.forced(
            FighterAction::Knockdown,
        ).without_reaction_visual(),
        LandingKind::Recovery => action.forced(
            FighterAction::LandingRecovery,
        ).without_reaction_visual(),
        LandingKind::Plain => action,
    }
}

/// Where the floor is, and how the fighter moves towards it.
#[derive(Clone, Copy, Debug, PartialEq, Eq, Structural)]
pub struct FloorContact {
    /// The height at and below which the floor holds a fighter; none without one.
    pub snap_height: Option<Scalar>,
    pub height: Scalar,
    pub velocity_y: Scalar,
    /// The fall velocity at the start of the tick.
    pub fall_velocity: Scalar,
    pub was_grounded: bool,
}

/// The floor holds the fighter.
pub open spec fn floor_touched(contact: FloorContact) -> bool {
    match contact.snap_height {
        Some(snap) => contact.height.le(snap) && contact.velocity_y.le(Scalar::zero()),
        None => false,
    }
}

/// The motor after it met the floor, or did not.
pub open spec fn floored_motor(
    motor: FighterMotor,
    contact: FloorContact,
    tuning: FighterTuning,
) -> FighterMotor {
    if floor_touched(contact) {
        landed_motor(
            stuck(motor, contact.was_grounded, contact.fall_velocity),
            landing_kind(motor, contact.fall_velocity),
            tuning,
        )
    } else if contact.snap_height.is_some() {
        motor
    } else {
        FighterMotor {
            ledge_grace_timer: if motor.grounded {
                TickTimer { remaining: tuning.ledge_grace }
            } else {
                motor.ledge_grace_timer
            },
            grounded: false,
            ..motor
        }
    }
}

/// The action after the fighter met the floor, or did not.
pub open spec fn floored_action(
    motor: FighterMotor,
    action: FighterActionState,
    contact: FloorContact,
) -> FighterActionState {
    if floor_touched(contact) {
        landed_action(action, landing_kind(motor, contact.fall_velocity))
    } else {
        action
    }
}

/// What the floor does.
pub open spec fn floor_effect(motor: FighterMotor, contact: FloorContact) -> FloorEffect {
    if floor_touched(contact) {
        FloorEffect::Touched {
            kind: landing_kind(motor, contact.fall_velocity),
            felt: !contact.was_grounded && contact.fall_velocity.lt(
                Scalar { bits: FELT_FALL_BITS },
            ),
        }
    } else if contact.snap_height.is_some() {
        FloorEffect::Above
    } else {
        FloorEffect::Missing
    }
}

fn stand(motor: &mut FighterMotor, tuning: &FighterTuning)
    ensures
        *final(motor) == standing(*old(motor), *tuning),
{
    motor.air_attack_used = false;
    motor.clear_air_queue();
    motor.clear_bee_dash();
    motor.grounded = true;
    motor.pig_air_meat_slam_air_hits = 0;
    motor.ledge_grace_timer = TickTimer::from_ticks(tuning.ledge_grace);
    motor.clear_dash_carry();
}

fn choose_landing(motor: &FighterMotor, fall_velocity: Scalar) -> (kind: LandingKind)
    ensures
        kind == landing_kind(*motor, fall_velocity),
{
    if let Some(aftermath) = motor.landing_aftermath {
        LandingKind::Aftermath(aftermath)
    } else if motor.knockdown_on_land {
        if motor.reaction_bounces > 0 && fall_velocity.lt(Scalar { bits: BOUNCING_FALL_BITS }) {
            LandingKind::GroundBounce
        } else {
            LandingKind::Knockdown
        }
    } else if motor.jump_attack_landing_recovery {
        LandingKind::Recovery
    } else {
        LandingKind::Plain
    }
}

fn land(
    motor: &mut FighterMotor,
    action: &mut FighterActionState,
    kind: LandingKind,
    tuning: &FighterTuning,
)
    requires
        kind == LandingKind::GroundBounce ==> old(motor).reaction_bounces > 0,
    ensures
        *final(motor) == landed_motor(*old(motor), kind, *tuning),
        *final(action) == landed_action(*old(action), kind),
{
    match kind {
        LandingKind::Aftermath(aftermath) => {
            motor.landing_aftermath = None;
            motor.knockdown_on_land = false;
            motor.reaction_bounces = 0;
            motor.jump_attack_landing_recovery = false;
            motor.landing_stick_timer.set_max(timer_of(aftermath.landing_stick_ms));
            action.force(FighterAction::Knockdown);
            action.reaction_getup_ms = Some(aftermath.getup_transition_ms);
            action.reaction_recover_ms = Some(aftermath.recover_ms);
            action.clear_reaction_visual();
            stand(motor, tuning);
        },
        LandingKind::GroundBounce => {
            motor.reaction_bounces = motor.reaction_bounces - 1;
            motor.grounded = false;
            motor.clear_bee_dash();
            let side = action.reaction_visual_side;
            action.force(FighterAction::Hitstun);
            action.set_reaction_visual(ReactionFamilyId::GroundBounceDown, side);
        },
        LandingKind::Knockdown => {
            motor.knockdown_on_land = false;
            motor.reaction_bounces = 0;
            motor.jump_attack_landing_recovery = false;
            action.force(FighterAction::Knockdown);
            action.clear_reaction_visual();
            stand(motor, tuning);
        },
        LandingKind::Recovery => {
            motor.jump_attack_landing_recovery = false;
            action.force(FighterAction::LandingRecovery);
            action.clear_reaction_visual();
            stand(motor, tuning);
        },
        LandingKind::Plain => {
            stand(motor, tuning);
        },
    }
}

/// Lets the floor act on a fighter.
pub fn meet_floor(
    motor: &mut FighterMotor,
    action: &mut FighterActionState,
    contact: FloorContact,
    tuning: &FighterTuning,
) -> (effect: FloorEffect)
    ensures
        *final(motor) == floored_motor(*old(motor), contact, *tuning),
        *final(action) == floored_action(*old(motor), *old(action), contact),
        effect == floor_effect(*old(motor), contact),
{
    let snap = match contact.snap_height {
        Some(snap) => snap,
        None => {
            if motor.grounded {
                motor.ledge_grace_timer = TickTimer::from_ticks(tuning.ledge_grace);
            }
            motor.grounded = false;
            return FloorEffect::Missing;
        },
    };
    if !(contact.height.le(snap) && contact.velocity_y.le(Scalar::zero())) {
        return FloorEffect::Above;
    }
    let felt = !contact.was_grounded && contact.fall_velocity.lt(Scalar { bits: FELT_FALL_BITS });
    let kind = choose_landing(motor, contact.fall_velocity);
    if !contact.was_grounded {
        motor.landing_stick_timer.set_max(
            timer_of(landing_stick_duration(contact.fall_velocity)),
        );
    }
    land(motor, action, kind, tuning);
    FloorEffect::Touched { kind, felt }
}

/// What a tick of movement shows.
pub open spec fn movement_intent(
    fighter: FighterId,
    fighter_name: &'static str,
    event: FighterLifecycleEvent,
    kind: FighterPresentationKind,
) -> PendingFighterPresentationIntent {
    PendingFighterPresentationIntent {
        fighter,
        fighter_name,
        event: PendingFighterPresentationEvent::Lifecycle(event),
        kind,
    }
}

/// What is shown of a bounce off a wall.
pub fn wall_bounce_intent(
    fighter: FighterId,
    fighter_name: &'static str,
    position: SimVec3,
) -> (intent: PendingFighterPresentationIntent)
    ensures
        intent == movement_intent(
            fighter,
            fighter_name,
            FighterLifecycleEvent::WallBounced,
            FighterPresentationKind::WallBounced { position },
        ),
{
    PendingFighterPresentationIntent {
        fighter,
        fighter_name,
        event: PendingFighterPresentationEvent::Lifecycle(FighterLifecycleEvent::WallBounced),
        kind: FighterPresentationKind::WallBounced { position },
    }
}

/// What is shown of a landing that is felt.
pub open spec fn felt_intents(
    fighter: FighterId,
    fighter_name: &'static str,
    position: SimVec3,
    felt: bool,
) -> Seq<PendingFighterPresentationIntent> {
    if felt {
        seq![
            movement_intent(
                fighter,
                fighter_name,
                FighterLifecycleEvent::Landed,
                FighterPresentationKind::Landed { position },
            ),
        ]
    } else {
        seq![]
    }
}

/// What is shown of what a landing turns into.
pub open spec fn landing_intents(
    fighter: FighterId,
    fighter_name: &'static str,
    position: SimVec3,
    kind: LandingKind,
) -> Seq<PendingFighterPresentationIntent> {
    match kind {
        LandingKind::Aftermath(aftermath) => seq![
            movement_intent(
                fighter,
                fighter_name,
                FighterLifecycleEvent::LandingAftermath,
                FighterPresentationKind::LandingAftermath {
                    position,
                    family: aftermath.family,
                    cue: aftermath.cue,
                },
            ),
        ],
        LandingKind::GroundBounce => seq![
            movement_intent(
                fighter,
                fighter_name,
                FighterLifecycleEvent::GroundBounced,
                FighterPresentationKind::GroundBounced { position },
            ),
        ],
        LandingKind::Knockdown => seq![
            movement_intent(
                fighter,
                fighter_name,
                FighterLifecycleEvent::KnockdownLanded,
                FighterPresentationKind::KnockdownLanded { position },
            ),
        ],
        LandingKind::Recovery | LandingKind::Plain => seq![],
    }
}

/// What is shown of a meeting with the floor, in order.
pub fn floor_intents(
    fighter: FighterId,
    fighter_name: &'static str,
    position: SimVec3,
    effect: FloorEffect,
) -> (intents: Vec<PendingFighterPresentationIntent>)
    ensures
        intents@ == (match effect {
            FloorEffect::Touched { kind, felt } => felt_intents(
                fighter,
                fighter_name,
                position,
                felt,
            ) + landing_intents(fighter, fighter_name, position, kind),
            _ => seq![],
        }),
{
    let mut intents: Vec<PendingFighterPresentationIntent> = Vec::new();
    if let FloorEffect::Touched { kind, felt } = effect {
        if felt {
            intents.push(
                PendingFighterPresentationIntent {
                    fighter,
                    fighter_name,
                    event: PendingFighterPresentationEvent::Lifecycle(
                        FighterLifecycleEvent::Landed,
                    ),
                    kind: FighterPresentationKind::Landed { position },
                },
            );
        }
        proof {
            assert(intents@ =~= felt_intents(fighter, fighter_name, position, felt));
        }
        let ghost shown = intents@;
        match kind {
            LandingKind::Aftermath(aftermath) => intents.push(
                PendingFighterPresentationIntent {
                    fighter,
                    fighter_name,
                    event: PendingFighterPresentationEvent::Lifecycle(
                        FighterLifecycleEvent::LandingAftermath,
                    ),
                    kind: FighterPresentationKind::LandingAftermath {
                        position,
                        family: aftermath.family,
                        cue: aftermath.cue,
                    },
                },
            ),
            LandingKind::GroundBounce => intents.push(
                PendingFighterPresentationIntent {
                    fighter,
                    fighter_name,
                    event: PendingFighterPresentationEvent::Lifecycle(
                        FighterLifecycleEvent::GroundBounced,
                    ),
                    kind: FighterPresentationKind::GroundBounced { position },
                },
            ),
            LandingKind::Knockdown => intents.push(
                PendingFighterPresentationIntent {
                    fighter,
                    fighter_name,
                    event: PendingFighterPresentationEvent::Lifecycle(
                        FighterLifecycleEvent::KnockdownLanded,
                    ),
                    kind: FighterPresentationKind::KnockdownLanded { position },
                },
            ),
            LandingKind::Recovery | LandingKind::Plain => {},
        }
        proof {
            assert(intents@ =~= shown + landing_intents(fighter, fighter_name, position, kind));
        }
    }
    intents
}

/// Every landing but a bounce leaves the fighter on the ground with its air
/// attack and ledge grace restored; a bounce leaves it in the air and stunned.
pub proof fn landings_restore_the_ground(
    motor: FighterMotor,
    action: FighterActionState,
    contact: FloorContact,
    tuning: FighterTuning,
)
    requires
        floor_touched(contact),
    ensures
        ({
            let after = floored_motor(motor, contact, tuning);
            let kind = landing_kind(motor, contact.fall_velocity);
            if kind == LandingKind::GroundBounce {
                &&& !after.grounded
                &&& after.reaction_bounces == motor.reaction_bounces - 1
                &&& floored_action(motor, action, contact).action == FighterAction::Hitstun
            } else {
                &&& after.grounded
                &&& !after.air_attack_used
                &&& after.queued_air_attack.is_none()
                &&& after.ledge_grace_timer.remaining == tuning.ledge_grace
                &&& after.landing_aftermath.is_none()
            }
        }),
{
}

/// Bounces run out: each one, off a wall or off the ground, leaves one fewer, and
/// without any left a knockdown stays down.
pub proof fn bounces_run_out(motor: FighterMotor, contact: FloorContact)
    requires
        motor.reaction_bounces == 0,
        motor.landing_aftermath.is_none(),
    ensures
        landing_kind(motor, contact.fall_velocity) != LandingKind::GroundBounce,
        motor.knockdown_on_land ==> landing_kind(motor, contact.fall_velocity)
            == LandingKind::Knockdown,
        forall|x: bool, z: bool, action: FighterAction|
            !(#[trigger] wall_bounces(motor, action, x, z)),
{
}

} // verus!

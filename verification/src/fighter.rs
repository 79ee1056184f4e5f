//! A fighter's resources, its motor, and the authored numbers that they follow.
//!
//! Velocity and facing are not held here: a rule that moves a fighter names a
//! [`MotionCommand`], which the owner of those vectors carries out.

use vstd::prelude::*;

use crate::ids::FighterId;
use crate::input::TechniqueButton;
use crate::reaction::LandingAftermath;
use crate::scalar::{NEUTRAL_LENGTH_SQUARED_BITS, Scalar, SimVec3};
use crate::ticks::{ElapsedTicks, TickTimer};

verus! {

/// An element that clings to a fighter after a hit.
#[derive(Clone, Copy, Debug, PartialEq, Eq, Structural)]
pub enum DamageElement {
    Neutral,
    Authored(u8),
}

#[derive(Clone, Copy, Debug, PartialEq, Eq, Structural)]
pub struct FighterStats {
    pub health: Scalar,
    pub stamina: Scalar,
    pub score: i32,
    pub last_attacker: Option<FighterId>,
    pub invulnerability: TickTimer,
    pub respawn_timer: TickTimer,
    pub health_refill_timer: TickTimer,
    pub item_speed_timer: TickTimer,
    pub item_giant_timer: TickTimer,
    pub element_carry: Option<DamageElement>,
    pub element_carry_strength: Scalar,
    pub element_carry_timer: TickTimer,
}

impl FighterStats {
    /// Full resources and no status.
    pub open spec fn fresh(max_health: Scalar, max_stamina: Scalar) -> FighterStats {
        FighterStats {
            health: max_health,
            stamina: max_stamina,
            score: 0,
            last_attacker: None,
            invulnerability: TickTimer::zero(),
            respawn_timer: TickTimer::zero(),
            health_refill_timer: TickTimer::zero(),
            item_speed_timer: TickTimer::zero(),
            item_giant_timer: TickTimer::zero(),
            element_carry: None,
            element_carry_strength: Scalar::zero(),
            element_carry_timer: TickTimer::zero(),
        }
    }

    pub fn new(max_health: Scalar, max_stamina: Scalar) -> (stats: FighterStats)
        ensures
            stats == Self::fresh(max_health, max_stamina),
    {
        FighterStats {
            health: max_health,
            stamina: max_stamina,
            score: 0,
            last_attacker: None,
            invulnerability: TickTimer::zero(),
            respawn_timer: TickTimer::zero(),
            health_refill_timer: TickTimer::zero(),
            item_speed_timer: TickTimer::zero(),
            item_giant_timer: TickTimer::zero(),
            element_carry: None,
            element_carry_strength: Scalar::zero(),
            element_carry_timer: TickTimer::zero(),
        }
    }

    /// Without an element clinging to it.
    pub open spec fn without_carry(self) -> FighterStats {
        FighterStats {
            element_carry: None,
            element_carry_strength: Scalar::zero(),
            element_carry_timer: TickTimer::zero(),
            ..self
        }
    }

    pub(crate) fn clear_carry(&mut self)
        ensures
            *final(self) == old(self).without_carry(),
    {
        self.element_carry = None;
        self.element_carry_strength = Scalar::zero();
        self.element_carry_timer.clear();
    }

    /// Nothing is left of its health.
    pub open spec fn spec_depleted(&self) -> bool {
        self.health.le(Scalar::zero())
    }

    #[verifier::when_used_as_spec(spec_depleted)]
    pub fn depleted(&self) -> (depleted: bool)
        ensures
            depleted == self.spec_depleted(),
    {
        self.health.le(Scalar::zero())
    }
}

/// The part of a fighter's motor that is not a velocity or a direction.
#[derive(Clone, Copy, Debug, PartialEq, Eq)]
pub struct FighterMotor {
    pub grounded: bool,
    pub ledge_grace_timer: TickTimer,
    pub landing_stick_timer: TickTimer,
    pub jump_takeoff_timer: TickTimer,
    pub dash_slide_timer: TickTimer,
    pub dash_jump_carry_timer: TickTimer,
    pub dash_jump_carry_speed_limit: Scalar,
    pub impact_speed_limit_timer: TickTimer,
    pub impact_speed_limit: Scalar,
    pub air_attack_used: bool,
    pub queued_air_attack: Option<TechniqueButton>,
    pub queued_air_attack_timer: TickTimer,
    pub jump_attack_landing_recovery: bool,
    pub bee_air_dash_motion_active: bool,
    pub bee_air_dash_shot_available: bool,
    pub penguin_ice_slide_direction: Option<SimVec3>,
    pub penguin_ice_slide_speed: Scalar,
    pub guard_active_timer: ElapsedTicks,
    pub guard_cooldown_timer: TickTimer,
    pub guard_start_buffer_timer: TickTimer,
    pub guard_was_requested: bool,
    pub guard_counter_window_timer: TickTimer,
    pub guard_counter_source: Option<SimVec3>,
    pub guard_counter_buffered: bool,
    pub knockdown_on_land: bool,
    pub landing_aftermath: Option<LandingAftermath>,
    pub reaction_bounces: u8,
    pub pig_air_meat_slam_air_hits: u8,
}

impl FighterMotor {
    /// At rest on the ground.
    pub open spec fn at_rest() -> FighterMotor {
        FighterMotor {
            grounded: true,
            ledge_grace_timer: TickTimer::zero(),
            landing_stick_timer: TickTimer::zero(),
            jump_takeoff_timer: TickTimer::zero(),
            dash_slide_timer: TickTimer::zero(),
            dash_jump_carry_timer: TickTimer::zero(),
            dash_jump_carry_speed_limit: Scalar::zero(),
            impact_speed_limit_timer: TickTimer::zero(),
            impact_speed_limit: Scalar::zero(),
            air_attack_used: false,
            queued_air_attack: None,
            queued_air_attack_timer: TickTimer::zero(),
            jump_attack_landing_recovery: false,
            bee_air_dash_motion_active: false,
            bee_air_dash_shot_available: false,
            penguin_ice_slide_direction: None,
            penguin_ice_slide_speed: Scalar::zero(),
            guard_active_timer: ElapsedTicks::zero(),
            guard_cooldown_timer: TickTimer::zero(),
            guard_start_buffer_timer: TickTimer::zero(),
            guard_was_requested: false,
            guard_counter_window_timer: TickTimer::zero(),
            guard_counter_source: None,
            guard_counter_buffered: false,
            knockdown_on_land: false,
            landing_aftermath: None,
            reaction_bounces: 0,
            pig_air_meat_slam_air_hits: 0,
        }
    }

    /// Without an air attack lined up.
    pub open spec fn without_air_queue(self) -> FighterMotor {
        FighterMotor {
            queued_air_attack: None,
            queued_air_attack_timer: TickTimer::zero(),
            ..self
        }
    }

    /// Without Bee's air dash.
    pub open spec fn without_bee_dash(self) -> FighterMotor {
        FighterMotor {
            bee_air_dash_motion_active: false,
            bee_air_dash_shot_available: false,
            ..self
        }
    }

    /// Without a dash jump's extra speed.
    pub open spec fn without_dash_carry(self) -> FighterMotor {
        FighterMotor {
            dash_jump_carry_timer: TickTimer::zero(),
            dash_jump_carry_speed_limit: Scalar::zero(),
            ..self
        }
    }

    /// Without Penguin's ice slide.
    pub open spec fn without_ice_slide(self) -> FighterMotor {
        FighterMotor {
            penguin_ice_slide_direction: None,
            penguin_ice_slide_speed: Scalar::zero(),
            ..self
        }
    }

    /// Without a chance to counter.
    pub open spec fn without_counter_window(self) -> FighterMotor {
        FighterMotor {
            guard_counter_window_timer: TickTimer::zero(),
            guard_counter_source: None,
            guard_counter_buffered: false,
            ..self
        }
    }

    pub fn clear_guard_counter_window(&mut self)
        ensures
            *final(self) == old(self).without_counter_window(),
    {
        self.guard_counter_window_timer.clear();
        self.guard_counter_source = None;
        self.guard_counter_buffered = false;
    }

    /// Opens the whole window to counter what came from `source`, also where a
    /// window is open already.
    pub fn open_guard_counter_window(&mut self, source: SimVec3, tuning: &FighterTuning)
        ensures
            *final(self) == (FighterMotor {
                guard_counter_window_timer: TickTimer { remaining: tuning.guard_counter_window },
                guard_counter_source: Some(source),
                ..*old(self)
            }),
    {
        self.guard_counter_window_timer = TickTimer::from_ticks(tuning.guard_counter_window);
        self.guard_counter_source = Some(source);
    }

    pub(crate) fn clear_air_queue(&mut self)
        ensures
            *final(self) == old(self).without_air_queue(),
    {
        self.queued_air_attack = None;
        self.queued_air_attack_timer.clear();
    }

    pub(crate) fn clear_bee_dash(&mut self)
        ensures
            *final(self) == old(self).without_bee_dash(),
    {
        self.bee_air_dash_motion_active = false;
        self.bee_air_dash_shot_available = false;
    }

    pub(crate) fn clear_dash_carry(&mut self)
        ensures
            *final(self) == old(self).without_dash_carry(),
    {
        self.dash_jump_carry_timer.clear();
        self.dash_jump_carry_speed_limit = Scalar::zero();
    }

    pub(crate) fn clear_ice_slide(&mut self)
        ensures
            *final(self) == old(self).without_ice_slide(),
    {
        self.penguin_ice_slide_direction = None;
        self.penguin_ice_slide_speed = Scalar::zero();
    }
}

impl Default for FighterMotor {
    fn default() -> (motor: FighterMotor)
        ensures
            motor == FighterMotor::at_rest(),
    {
        FighterMotor {
            grounded: true,
            ledge_grace_timer: TickTimer::zero(),
            landing_stick_timer: TickTimer::zero(),
            jump_takeoff_timer: TickTimer::zero(),
            dash_slide_timer: TickTimer::zero(),
            dash_jump_carry_timer: TickTimer::zero(),
            dash_jump_carry_speed_limit: Scalar::zero(),
            impact_speed_limit_timer: TickTimer::zero(),
            impact_speed_limit: Scalar::zero(),
            air_attack_used: false,
            queued_air_attack: None,
            queued_air_attack_timer: TickTimer::zero(),
            jump_attack_landing_recovery: false,
            bee_air_dash_motion_active: false,
            bee_air_dash_shot_available: false,
            penguin_ice_slide_direction: None,
            penguin_ice_slide_speed: Scalar::zero(),
            guard_active_timer: ElapsedTicks::zero(),
            guard_cooldown_timer: TickTimer::zero(),
            guard_start_buffer_timer: TickTimer::zero(),
            guard_was_requested: false,
            guard_counter_window_timer: TickTimer::zero(),
            guard_counter_source: None,
            guard_counter_buffered: false,
            knockdown_on_land: false,
            landing_aftermath: None,
            reaction_bounces: 0,
            pig_air_meat_slam_air_hits: 0,
        }
    }
}

/// Authored numbers for one fighter, its style and body included. Times are in
/// fixed ticks unless the name says milliseconds.
#[derive(Clone, Copy, Debug, PartialEq, Eq, Structural)]
pub struct FighterTuning {
    pub hitstun_light: u32,
    pub hitstun_heavy: u32,
    pub quick_stand_after: u32,
    pub recovery_roll_invulnerable: u32,
    pub knockdown_duration: u32,
    pub getup_invulnerable: u32,
    pub getup_duration: u32,
    pub guard_break_duration: u32,
    pub guard_max_duration: u32,
    pub guard_restart_cooldown: u32,
    pub guard_start_buffer: u32,
    pub guard_counter_window: u32,
    pub guard_step_invulnerable: u32,
    pub dash_duration: u32,
    pub dash_slide_duration: u32,
    pub dash_trail_repeat: u32,
    pub dash_jump_carry_duration: u32,
    pub ledge_grace: u32,
    pub respawn_delay: u32,
    pub respawn_invulnerable: u32,
    pub pig_heavy_full_charge_ms: u32,
    pub pig_heavy_attack_ms: u32,
    pub max_health: Scalar,
    pub max_stamina: Scalar,
    pub ultimate_stamina_cost: Scalar,
    pub guard_step_stamina_cost: Scalar,
    pub guard_counter_health_cost: Scalar,
    pub dash_slide_stop_speed_squared: Scalar,
}

/// What was measured of a fighter's vectors before its rules are applied.
#[derive(Clone, Copy, Debug, PartialEq, Eq, Structural)]
pub struct FighterMeasures {
    /// The squared length of the input direction.
    pub movement_length_squared: Scalar,
    /// The squared speed along the ground.
    pub planar_speed_squared: Scalar,
    /// The squared ground distance to what the guard last blocked.
    pub guard_source_distance_squared: Scalar,
    /// The clinging element's strength after one more tick.
    pub decayed_carry_strength: Scalar,
    /// The speed limit that a dash jump would carry.
    pub dash_carry_limit: Scalar,
}

/// A squared length is long enough to point somewhere.
pub open spec fn spec_points_somewhere(length_squared: Scalar) -> bool {
    Scalar { bits: NEUTRAL_LENGTH_SQUARED_BITS }.lt(length_squared)
}

#[verifier::when_used_as_spec(spec_points_somewhere)]
pub fn points_somewhere(length_squared: Scalar) -> (directed: bool)
    ensures
        directed == spec_points_somewhere(length_squared),
{
    Scalar { bits: NEUTRAL_LENGTH_SQUARED_BITS }.lt(length_squared)
}

impl FighterMeasures {
    /// A direction is being held.
    pub open spec fn spec_moving(&self) -> bool {
        points_somewhere(self.movement_length_squared)
    }

    #[verifier::when_used_as_spec(spec_moving)]
    pub fn moving(&self) -> (moving: bool)
        ensures
            moving == self.spec_moving(),
    {
        points_somewhere(self.movement_length_squared)
    }
}

/// Where a dash is headed.
#[derive(Clone, Copy, Debug, PartialEq, Eq, Structural)]
pub enum DashDirection {
    Movement,
    Facing,
}

/// A change of velocity or facing, carried out by their owner in the order in
/// which the commands are given.
#[derive(Clone, Copy, Debug, PartialEq, Eq, Structural)]
pub enum MotionCommand {
    /// End a dash slide: damp the ground velocity, or stop it when slow.
    DampDashSlide,
    /// Slow the ground velocity while guarding.
    BrakeGuardHold,
    /// Slow the ground velocity as a guard starts.
    BrakeGuardStart,
    /// Slow the velocity as a counter starts.
    BrakeGuardCounter,
    /// Slow the ground velocity in a hold.
    BrakeGrab,
    /// Slow the ground velocity as an ultimate starts.
    BrakeUltimateStart,
    /// Stop.
    Stop,
    /// Face where the input points.
    FaceMovement,
    /// Face what the guard last blocked.
    FaceGuardSource,
    /// Roll where the input points, else backwards.
    RecoveryRoll,
    /// Step where the input points, but never forwards.
    GuardStep,
    /// Face the direction and add the dash impulse.
    DashStart(DashDirection),
    /// Face the direction and speed up towards the held dash speed.
    DashHold(DashDirection),
    /// Add the dash attack impulse.
    FinisherImpulse,
    /// Stop along the ground.
    FinisherStop,
    /// Hop back for a light dash finisher.
    ChickBackstepLight,
    /// Hop back for a heavy dash finisher.
    ChickBackstepHeavy,
    /// Take off.
    Jump,
    /// Take off and carry the dash speed along.
    DashJump,
    /// Fly forwards and slightly up.
    BeeAirDash,
    /// Fall no faster than while shooting.
    PenguinSnowflakeFloat,
    /// Glide forwards and at least hold the climb.
    ChickUpdraft,
    /// Dive forwards and down.
    JumpAttackDive,
    /// Drop almost straight down.
    PigMeatSlam,
    /// Ride forwards.
    ChickEggRide,
    /// Hang in the air.
    AirStall,
}

/// A cost that is paid in this tick.
#[derive(Clone, Copy, Debug, PartialEq, Eq, Structural)]
pub enum ResourceSpend {
    UltimateStamina,
    GuardStepStamina,
    TechniqueStamina(Scalar),
    GuardCounterHealth,
}

} // verus!

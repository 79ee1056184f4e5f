//! Authored body motion: how strongly a body steers, brakes and falls in each
//! action.
//!
//! The numbers are floats for whoever moves the body. Here each is kept as it is
//! put together: an authored number, what the style does to it, and by what body
//! and technique weigh it, in that order.

use vstd::prelude::*;

use crate::action::{FighterAction, FighterActionState};
use crate::fighter::FighterMotor;
use crate::loadout::FighterStyleKind;
use crate::scalar::Scalar;
use crate::technique::TechniqueId;

verus! {

/// A number to start from.
#[derive(Clone, Copy, Debug, PartialEq, Eq, Structural)]
pub enum Amount {
    /// A decimal constant, in millionths.
    Millionths(i64),
    /// A number that was given.
    Given(Scalar),
}

/// What a style does to a number, with decimal constants in millionths.
#[derive(Clone, Copy, Debug, PartialEq, Eq, Structural)]
pub enum StyleStep {
    Keep,
    Plus(i64),
    Times(i64),
    /// Adds, and goes no higher than `most`.
    PlusUpTo { plus: i64, most: i64 },
}

/// A number of a body's motion: `start`, changed by the style, times the weight of
/// the body, times the weight of the technique, a decimal constant in millionths.
#[derive(Clone, Copy, Debug, PartialEq, Eq, Structural)]
pub struct Quantity {
    pub start: Amount,
    pub style: StyleStep,
    pub body: Option<Scalar>,
    pub technique: Option<i64>,
}

impl Quantity {
    pub open spec fn spec_starting(start: Amount) -> Quantity {
        Quantity { start, style: StyleStep::Keep, body: None, technique: None }
    }

    /// A number that nothing changes yet.
    #[verifier::when_used_as_spec(spec_starting)]
    pub fn starting(start: Amount) -> (quantity: Quantity)
        ensures
            quantity == Self::spec_starting(start),
    {
        Quantity { start, style: StyleStep::Keep, body: None, technique: None }
    }

    pub open spec fn spec_authored(millionths: i64) -> Quantity {
        Self::spec_starting(Amount::Millionths(millionths))
    }

    /// A decimal constant, in millionths.
    #[verifier::when_used_as_spec(spec_authored)]
    pub fn authored(millionths: i64) -> (quantity: Quantity)
        ensures
            quantity == Self::spec_authored(millionths),
    {
        Self::starting(Amount::Millionths(millionths))
    }

    pub open spec fn spec_styled(self, style: StyleStep) -> Quantity {
        Quantity { style, ..self }
    }

    #[verifier::when_used_as_spec(spec_styled)]
    pub fn styled(self, style: StyleStep) -> (quantity: Quantity)
        ensures
            quantity == self.spec_styled(style),
    {
        Quantity { style, ..self }
    }

    pub open spec fn spec_weighed(self, weight: Scalar) -> Quantity {
        Quantity { body: Some(weight), ..self }
    }

    #[verifier::when_used_as_spec(spec_weighed)]
    pub fn weighed(self, weight: Scalar) -> (quantity: Quantity)
        ensures
            quantity == self.spec_weighed(weight),
    {
        Quantity { body: Some(weight), ..self }
    }

    pub open spec fn spec_carried(self, millionths: i64) -> Quantity {
        Quantity { technique: Some(millionths), ..self }
    }

    #[verifier::when_used_as_spec(spec_carried)]
    pub fn carried(self, millionths: i64) -> (quantity: Quantity)
        ensures
            quantity == self.spec_carried(millionths),
    {
        Quantity { technique: Some(millionths), ..self }
    }

    /// The number without the weight of the body.
    pub open spec fn unweighed(self) -> Quantity {
        Quantity { body: None, ..self }
    }

    /// Nothing, whatever finite number it is multiplied with.
    pub open spec fn is_nothing(self) -> bool {
        &&& self.start == Amount::Millionths(0)
        &&& self.style is Keep || self.style is Times
    }

    /// The decimal constant, in millionths, where the number is one that nothing
    /// changes.
    pub open spec fn constant(self) -> Option<i64> {
        match self {
            Quantity {
                start: Amount::Millionths(millionths),
                style: StyleStep::Keep,
                body: None,
                technique: None,
            } => Some(millionths),
            _ => None,
        }
    }

    /// A decimal constant from `least` to `most`, in millionths.
    pub open spec fn is_constant_within(self, least: int, most: int) -> bool {
        self.constant() matches Some(millionths) && least <= millionths <= most
    }

    /// Not less than nothing, for every body whose weight is not.
    pub open spec fn is_not_negative(self) -> bool {
        &&& match self.start {
            Amount::Millionths(start) => start >= 0,
            Amount::Given(start) => Scalar::zero().le(start),
        }
        &&& match self.style {
            StyleStep::Keep => true,
            StyleStep::Plus(plus) => plus >= 0,
            StyleStep::Times(times) => times >= 0,
            StyleStep::PlusUpTo { plus, most } => plus >= 0 && most >= 0,
        }
        &&& match self.technique {
            Some(times) => times >= 0,
            None => true,
        }
    }

    /// More than nothing, for every body of some weight.
    pub open spec fn is_something(self) -> bool {
        &&& self.start matches Amount::Millionths(start) && start > 0
        &&& match self.style {
            StyleStep::Keep => true,
            StyleStep::Plus(plus) => plus >= 0,
            StyleStep::Times(times) => times > 0,
            StyleStep::PlusUpTo { plus, most } => plus >= 0 && most > 0,
        }
        &&& match self.technique {
            Some(times) => times > 0,
            None => true,
        }
    }
}

/// How a body moves.
#[derive(Clone, Copy, Debug, PartialEq, Eq, Structural)]
pub struct BodyMotionProfile {
    pub input_scale: Quantity,
    pub max_speed_bonus: Quantity,
    pub ground_friction: Quantity,
    pub air_friction: Quantity,
    pub stop_friction: Quantity,
    pub turn_brake: Quantity,
    pub landing_input_scale: Quantity,
    pub landing_brake: Quantity,
    pub gravity_scale: Quantity,
    pub fall_gravity_scale: Quantity,
    pub takeoff_gravity_scale: Quantity,
    pub terminal_fall_speed: Quantity,
    pub stop_snap_speed: Quantity,
}

/// The friction of the ground and of the air where an action does not set its own.
#[derive(Clone, Copy, Debug, PartialEq, Eq, Structural)]
pub struct BaseFriction {
    pub ground: Scalar,
    pub air: Scalar,
}

/// The profile that actions start from.
pub open spec fn base_profile(friction: BaseFriction) -> BodyMotionProfile {
    BodyMotionProfile {
        input_scale: Quantity::authored(1_000_000),
        max_speed_bonus: Quantity::authored(0),
        ground_friction: Quantity::starting(Amount::Given(friction.ground)),
        air_friction: Quantity::starting(Amount::Given(friction.air)),
        stop_friction: Quantity::authored(16_000_000),
        turn_brake: Quantity::authored(4_000_000),
        landing_input_scale: Quantity::authored(180_000),
        landing_brake: Quantity::authored(12_000_000),
        gravity_scale: Quantity::authored(1_000_000),
        fall_gravity_scale: Quantity::authored(1_180_000),
        takeoff_gravity_scale: Quantity::authored(550_000),
        terminal_fall_speed: Quantity::authored(17_000_000),
        stop_snap_speed: Quantity::authored(80_000),
    }
}

/// The authored profile of an action.
pub open spec fn action_profile(action: FighterAction, friction: BaseFriction) -> BodyMotionProfile {
    let base = base_profile(friction);
    match action {
        FighterAction::Idle
        | FighterAction::Moving => BodyMotionProfile {
            ground_friction: Quantity::authored(18_000_000),
            stop_friction: Quantity::authored(22_000_000),
            turn_brake: Quantity::authored(8_400_000),
            stop_snap_speed: Quantity::authored(160_000),
            ..base
        },
        FighterAction::Jumping => BodyMotionProfile {
            input_scale: Quantity::authored(720_000),
            air_friction: Quantity::authored(780_000),
            stop_friction: Quantity::authored(920_000),
            gravity_scale: Quantity::authored(940_000),
            fall_gravity_scale: Quantity::authored(1_220_000),
            takeoff_gravity_scale: Quantity::authored(500_000),
            terminal_fall_speed: Quantity::authored(13_800_000),
            ..base
        },
        FighterAction::Dashing => BodyMotionProfile {
            input_scale: Quantity::authored(180_000),
            max_speed_bonus: Quantity::authored(3_400_000),
            ground_friction: Quantity::authored(5_800_000),
            stop_friction: Quantity::authored(8_800_000),
            turn_brake: Quantity::authored(1_800_000),
            landing_input_scale: Quantity::authored(240_000),
            stop_snap_speed: Quantity::authored(50_000),
            ..base
        },
        FighterAction::DashAttack => BodyMotionProfile {
            input_scale: Quantity::authored(60_000),
            max_speed_bonus: Quantity::authored(2_600_000),
            ground_friction: Quantity::authored(8_500_000),
            stop_friction: Quantity::authored(12_500_000),
            turn_brake: Quantity::authored(1_000_000),
            landing_input_scale: Quantity::authored(120_000),
            ..base
        },
        FighterAction::Guarding => BodyMotionProfile {
            input_scale: Quantity::authored(0),
            ground_friction: Quantity::authored(20_000_000),
            stop_friction: Quantity::authored(24_000_000),
            turn_brake: Quantity::authored(10_000_000),
            landing_input_scale: Quantity::authored(80_000),
            stop_snap_speed: Quantity::authored(200_000),
            ..base
        },
        FighterAction::LightAttack1
        | FighterAction::LightAttack2 => BodyMotionProfile {
            input_scale: Quantity::authored(120_000),
            ground_friction: Quantity::authored(13_500_000),
            stop_friction: Quantity::authored(16_500_000),
            turn_brake: Quantity::authored(2_400_000),
            landing_input_scale: Quantity::authored(100_000),
            ..base
        },
        FighterAction::ComboFinisher => BodyMotionProfile {
            input_scale: Quantity::authored(40_000),
            max_speed_bonus: Quantity::authored(12_000_000),
            ground_friction: Quantity::authored(1_800_000),
            stop_friction: Quantity::authored(3_000_000),
            turn_brake: Quantity::authored(200_000),
            landing_input_scale: Quantity::authored(40_000),
            ..base
        },
        FighterAction::HeavyAttack => BodyMotionProfile {
            input_scale: Quantity::authored(40_000),
            max_speed_bonus: Quantity::authored(5_200_000),
            ground_friction: Quantity::authored(4_200_000),
            stop_friction: Quantity::authored(5_800_000),
            turn_brake: Quantity::authored(600_000),
            landing_input_scale: Quantity::authored(60_000),
            ..base
        },
        FighterAction::HeavyAttack2 => BodyMotionProfile {
            input_scale: Quantity::authored(40_000),
            max_speed_bonus: Quantity::authored(2_400_000),
            ground_friction: Quantity::authored(6_800_000),
            air_friction: Quantity::authored(900_000),
            stop_friction: Quantity::authored(8_200_000),
            turn_brake: Quantity::authored(450_000),
            gravity_scale: Quantity::authored(820_000),
            landing_input_scale: Quantity::authored(60_000),
            ..base
        },
        FighterAction::UltimateStartup
        | FighterAction::UltimateRush => BodyMotionProfile {
            input_scale: Quantity::authored(0),
            max_speed_bonus: Quantity::authored(3_800_000),
            ground_friction: Quantity::authored(7_000_000),
            stop_friction: Quantity::authored(9_000_000),
            turn_brake: Quantity::authored(0),
            landing_input_scale: Quantity::authored(0),
            stop_snap_speed: Quantity::authored(20_000),
            ..base
        },
        FighterAction::GrabStartup
        | FighterAction::Throwing
        | FighterAction::SpecialCast
        | FighterAction::ItemSwing
        | FighterAction::ItemThrow
        | FighterAction::GuardCounter => BodyMotionProfile {
            input_scale: Quantity::authored(50_000),
            ground_friction: Quantity::authored(11_000_000),
            stop_friction: Quantity::authored(13_000_000),
            turn_brake: Quantity::authored(1_500_000),
            landing_input_scale: Quantity::authored(60_000),
            ..base
        },
        FighterAction::ItemPickup
        | FighterAction::ItemDrop
        | FighterAction::LandingRecovery => BodyMotionProfile {
            input_scale: Quantity::authored(100_000),
            ground_friction: Quantity::authored(22_000_000),
            stop_friction: Quantity::authored(27_000_000),
            turn_brake: Quantity::authored(8_000_000),
            landing_input_scale: Quantity::authored(40_000),
            landing_brake: Quantity::authored(18_000_000),
            stop_snap_speed: Quantity::authored(240_000),
            ..base
        },
        FighterAction::JumpAttack => BodyMotionProfile {
            input_scale: Quantity::authored(0),
            air_friction: Quantity::authored(380_000),
            stop_friction: Quantity::authored(580_000),
            gravity_scale: Quantity::authored(720_000),
            fall_gravity_scale: Quantity::authored(1_450_000),
            takeoff_gravity_scale: Quantity::authored(480_000),
            terminal_fall_speed: Quantity::authored(16_200_000),
            landing_input_scale: Quantity::authored(50_000),
            ..base
        },
        FighterAction::JumpHeavyAttack => BodyMotionProfile {
            input_scale: Quantity::authored(20_000),
            air_friction: Quantity::authored(3_400_000),
            stop_friction: Quantity::authored(4_000_000),
            gravity_scale: Quantity::authored(280_000),
            fall_gravity_scale: Quantity::authored(740_000),
            takeoff_gravity_scale: Quantity::authored(240_000),
            terminal_fall_speed: Quantity::authored(8_800_000),
            landing_input_scale: Quantity::authored(40_000),
            ..base
        },
        FighterAction::GuardStep
        | FighterAction::RecoveryRoll => BodyMotionProfile {
            input_scale: Quantity::authored(0),
            max_speed_bonus: Quantity::authored(2_600_000),
            ground_friction: Quantity::authored(5_000_000),
            stop_friction: Quantity::authored(7_200_000),
            turn_brake: Quantity::authored(0),
            landing_input_scale: Quantity::authored(0),
            stop_snap_speed: Quantity::authored(40_000),
            ..base
        },
        FighterAction::Hitstun => BodyMotionProfile {
            input_scale: Quantity::authored(0),
            ground_friction: Quantity::authored(5_000_000),
            air_friction: Quantity::authored(280_000),
            stop_friction: Quantity::authored(4_800_000),
            gravity_scale: Quantity::authored(960_000),
            fall_gravity_scale: Quantity::authored(1_080_000),
            terminal_fall_speed: Quantity::authored(18_500_000),
            stop_snap_speed: Quantity::authored(30_000),
            ..base
        },
        FighterAction::Knockdown
        | FighterAction::RingOut
        | FighterAction::Grabbed
        | FighterAction::UltimateVictim
        | FighterAction::GetUp
        | FighterAction::GuardBroken => BodyMotionProfile {
            input_scale: Quantity::authored(0),
            ground_friction: Quantity::authored(9_000_000),
            air_friction: Quantity::authored(320_000),
            stop_friction: Quantity::authored(18_000_000),
            gravity_scale: Quantity::authored(1_050_000),
            fall_gravity_scale: Quantity::authored(1_220_000),
            landing_input_scale: Quantity::authored(0),
            landing_brake: Quantity::authored(20_000_000),
            stop_snap_speed: Quantity::authored(180_000),
            ..base
        },
        FighterAction::GrabHold => BodyMotionProfile {
            input_scale: Quantity::authored(80_000),
            ground_friction: Quantity::authored(16_000_000),
            stop_friction: Quantity::authored(20_000_000),
            landing_input_scale: Quantity::authored(80_000),
            ..base
        },
        FighterAction::QuickStand => BodyMotionProfile {
            input_scale: Quantity::authored(120_000),
            ground_friction: Quantity::authored(18_000_000),
            stop_friction: Quantity::authored(24_000_000),
            landing_input_scale: Quantity::authored(80_000),
            stop_snap_speed: Quantity::authored(200_000),
            ..base
        },
        FighterAction::Respawning => base,
    }
}

/// The authored profile of an action.
pub fn body_motion_profile(action: FighterAction, friction: BaseFriction) -> (profile:
    BodyMotionProfile)
    ensures
        profile == action_profile(action, friction),
{
    let mut profile = BodyMotionProfile {
        input_scale: Quantity::authored(1_000_000),
        max_speed_bonus: Quantity::authored(0),
        ground_friction: Quantity::starting(Amount::Given(friction.ground)),
        air_friction: Quantity::starting(Amount::Given(friction.air)),
        stop_friction: Quantity::authored(16_000_000),
        turn_brake: Quantity::authored(4_000_000),
        landing_input_scale: Quantity::authored(180_000),
        landing_brake: Quantity::authored(12_000_000),
        gravity_scale: Quantity::authored(1_000_000),
        fall_gravity_scale: Quantity::authored(1_180_000),
        takeoff_gravity_scale: Quantity::authored(550_000),
        terminal_fall_speed: Quantity::authored(17_000_000),
        stop_snap_speed: Quantity::authored(80_000),
    };
    match action {
        FighterAction::Idle
        | FighterAction::Moving => {
            profile.ground_friction = Quantity::authored(18_000_000);
            profile.stop_friction = Quantity::authored(22_000_000);
            profile.turn_brake = Quantity::authored(8_400_000);
            profile.stop_snap_speed = Quantity::authored(160_000);
        },
        FighterAction::Jumping => {
            profile.input_scale = Quantity::authored(720_000);
            profile.air_friction = Quantity::authored(780_000);
            profile.stop_friction = Quantity::authored(920_000);
            profile.gravity_scale = Quantity::authored(940_000);
            profile.fall_gravity_scale = Quantity::authored(1_220_000);
            profile.takeoff_gravity_scale = Quantity::authored(500_000);
            profile.terminal_fall_speed = Quantity::authored(13_800_000);
        },
        FighterAction::Dashing => {
            profile.input_scale = Quantity::authored(180_000);
            profile.max_speed_bonus = Quantity::authored(3_400_000);
            profile.ground_friction = Quantity::authored(5_800_000);
            profile.stop_friction = Quantity::authored(8_800_000);
            profile.turn_brake = Quantity::authored(1_800_000);
            profile.landing_input_scale = Quantity::authored(240_000);
            profile.stop_snap_speed = Quantity::authored(50_000);
        },
        FighterAction::DashAttack => {
            profile.input_scale = Quantity::authored(60_000);
            profile.max_speed_bonus = Quantity::authored(2_600_000);
            profile.ground_friction = Quantity::authored(8_500_000);
            profile.stop_friction = Quantity::authored(12_500_000);
            profile.turn_brake = Quantity::authored(1_000_000);
            profile.landing_input_scale = Quantity::authored(120_000);
        },
        FighterAction::Guarding => {
            profile.input_scale = Quantity::authored(0);
            profile.ground_friction = Quantity::authored(20_000_000);
            profile.stop_friction = Quantity::authored(24_000_000);
            profile.turn_brake = Quantity::authored(10_000_000);
            profile.landing_input_scale = Quantity::authored(80_000);
            profile.stop_snap_speed = Quantity::authored(200_000);
        },
        FighterAction::LightAttack1
        | FighterAction::LightAttack2 => {
            profile.input_scale = Quantity::authored(120_000);
            profile.ground_friction = Quantity::authored(13_500_000);
            profile.stop_friction = Quantity::authored(16_500_000);
            profile.turn_brake = Quantity::authored(2_400_000);
            profile.landing_input_scale = Quantity::authored(100_000);
        },
        FighterAction::ComboFinisher => {
            profile.input_scale = Quantity::authored(40_000);
            profile.max_speed_bonus = Quantity::authored(12_000_000);
            profile.ground_friction = Quantity::authored(1_800_000);
            profile.stop_friction = Quantity::authored(3_000_000);
            profile.turn_brake = Quantity::authored(200_000);
            profile.landing_input_scale = Quantity::authored(40_000);
        },
        FighterAction::HeavyAttack => {
            profile.input_scale = Quantity::authored(40_000);
            profile.max_speed_bonus = Quantity::authored(5_200_000);
            profile.ground_friction = Quantity::authored(4_200_000);
            profile.stop_friction = Quantity::authored(5_800_000);
            profile.turn_brake = Quantity::authored(600_000);
            profile.landing_input_scale = Quantity::authored(60_000);
        },
        FighterAction::HeavyAttack2 => {
            profile.input_scale = Quantity::authored(40_000);
            profile.max_speed_bonus = Quantity::authored(2_400_000);
            profile.ground_friction = Quantity::authored(6_800_000);
            profile.air_friction = Quantity::authored(900_000);
            profile.stop_friction = Quantity::authored(8_200_000);
            profile.turn_brake = Quantity::authored(450_000);
            profile.gravity_scale = Quantity::authored(820_000);
            profile.landing_input_scale = Quantity::authored(60_000);
        },
        FighterAction::UltimateStartup
        | FighterAction::UltimateRush => {
            profile.input_scale = Quantity::authored(0);
            profile.max_speed_bonus = Quantity::authored(3_800_000);
            profile.ground_friction = Quantity::authored(7_000_000);
            profile.stop_friction = Quantity::authored(9_000_000);
            profile.turn_brake = Quantity::authored(0);
            profile.landing_input_scale = Quantity::authored(0);
            profile.stop_snap_speed = Quantity::authored(20_000);
        },
        FighterAction::GrabStartup
        | FighterAction::Throwing
        | FighterAction::SpecialCast
        | FighterAction::ItemSwing
        | FighterAction::ItemThrow
        | FighterAction::GuardCounter => {
            profile.input_scale = Quantity::authored(50_000);
            profile.ground_friction = Quantity::authored(11_000_000);
            profile.stop_friction = Quantity::authored(13_000_000);
            profile.turn_brake = Quantity::authored(1_500_000);
            profile.landing_input_scale = Quantity::authored(60_000);
        },
        FighterAction::ItemPickup
        | FighterAction::ItemDrop
        | FighterAction::LandingRecovery => {
            profile.input_scale = Quantity::authored(100_000);
            profile.ground_friction = Quantity::authored(22_000_000);
            profile.stop_friction = Quantity::authored(27_000_000);
            profile.turn_brake = Quantity::authored(8_000_000);
            profile.landing_input_scale = Quantity::authored(40_000);
            profile.landing_brake = Quantity::authored(18_000_000);
            profile.stop_snap_speed = Quantity::authored(240_000);
        },
        FighterAction::JumpAttack => {
            profile.input_scale = Quantity::authored(0);
            profile.air_friction = Quantity::authored(380_000);
            profile.stop_friction = Quantity::authored(580_000);
            profile.gravity_scale = Quantity::authored(720_000);
            profile.fall_gravity_scale = Quantity::authored(1_450_000);
            profile.takeoff_gravity_scale = Quantity::authored(480_000);
            profile.terminal_fall_speed = Quantity::authored(16_200_000);
            profile.landing_input_scale = Quantity::authored(50_000);
        },
        FighterAction::JumpHeavyAttack => {
            profile.input_scale = Quantity::authored(20_000);
            profile.air_friction = Quantity::authored(3_400_000);
            profile.stop_friction = Quantity::authored(4_000_000);
            profile.gravity_scale = Quantity::authored(280_000);
            profile.fall_gravity_scale = Quantity::authored(740_000);
            profile.takeoff_gravity_scale = Quantity::authored(240_000);
            profile.terminal_fall_speed = Quantity::authored(8_800_000);
            profile.landing_input_scale = Quantity::authored(40_000);
        },
        FighterAction::GuardStep
        | FighterAction::RecoveryRoll => {
            profile.input_scale = Quantity::authored(0);
            profile.max_speed_bonus = Quantity::authored(2_600_000);
            profile.ground_friction = Quantity::authored(5_000_000);
            profile.stop_friction = Quantity::authored(7_200_000);
            profile.turn_brake = Quantity::authored(0);
            profile.landing_input_scale = Quantity::authored(0);
            profile.stop_snap_speed = Quantity::authored(40_000);
        },
        FighterAction::Hitstun => {
            profile.input_scale = Quantity::authored(0);
            profile.ground_friction = Quantity::authored(5_000_000);
            profile.air_friction = Quantity::authored(280_000);
            profile.stop_friction = Quantity::authored(4_800_000);
            profile.gravity_scale = Quantity::authored(960_000);
            profile.fall_gravity_scale = Quantity::authored(1_080_000);
            profile.terminal_fall_speed = Quantity::authored(18_500_000);
            profile.stop_snap_speed = Quantity::authored(30_000);
        },
        FighterAction::Knockdown
        | FighterAction::RingOut
        | FighterAction::Grabbed
        | FighterAction::UltimateVictim
        | FighterAction::GetUp
        | FighterAction::GuardBroken => {
            profile.input_scale = Quantity::authored(0);
            profile.ground_friction = Quantity::authored(9_000_000);
            profile.air_friction = Quantity::authored(320_000);
            profile.stop_friction = Quantity::authored(18_000_000);
            profile.gravity_scale = Quantity::authored(1_050_000);
            profile.fall_gravity_scale = Quantity::authored(1_220_000);
            profile.landing_input_scale = Quantity::authored(0);
            profile.landing_brake = Quantity::authored(20_000_000);
            profile.stop_snap_speed = Quantity::authored(180_000);
        },
        FighterAction::GrabHold => {
            profile.input_scale = Quantity::authored(80_000);
            profile.ground_friction = Quantity::authored(16_000_000);
            profile.stop_friction = Quantity::authored(20_000_000);
            profile.landing_input_scale = Quantity::authored(80_000);
        },
        FighterAction::QuickStand => {
            profile.input_scale = Quantity::authored(120_000);
            profile.ground_friction = Quantity::authored(18_000_000);
            profile.stop_friction = Quantity::authored(24_000_000);
            profile.landing_input_scale = Quantity::authored(80_000);
            profile.stop_snap_speed = Quantity::authored(200_000);
        },
        FighterAction::Respawning => {},
    }
    profile
}

/// Committed swings, which an anchored style steers less.
pub open spec fn heavy_swing(action: FighterAction) -> bool {
    action == FighterAction::HeavyAttack || action == FighterAction::HeavyAttack2 || action
        == FighterAction::ComboFinisher
}

/// The profile of an action with its style: Anchor stands firmer and falls
/// faster, Vector turns and takes off more lightly, Catalyst floats a little.
pub open spec fn styled_profile(
    action: FighterAction,
    style: FighterStyleKind,
    friction: BaseFriction,
) -> BodyMotionProfile {
    let base = action_profile(action, friction);
    match style {
        FighterStyleKind::Anchor => BodyMotionProfile {
            stop_friction: base.stop_friction.styled(StyleStep::Plus(1_600_000)),
            landing_brake: base.landing_brake.styled(StyleStep::Plus(2_000_000)),
            terminal_fall_speed: base.terminal_fall_speed.styled(StyleStep::Times(1_060_000)),
            input_scale: if heavy_swing(action) {
                base.input_scale.styled(StyleStep::Times(820_000))
            } else {
                base.input_scale
            },
            turn_brake: if heavy_swing(action) {
                base.turn_brake.styled(StyleStep::Times(800_000))
            } else {
                base.turn_brake
            },
            ..base
        },
        FighterStyleKind::Vector => BodyMotionProfile {
            turn_brake: base.turn_brake.styled(StyleStep::Plus(1_400_000)),
            landing_input_scale: base.landing_input_scale.styled(
                StyleStep::PlusUpTo { plus: 60_000, most: 320_000 },
            ),
            takeoff_gravity_scale: base.takeoff_gravity_scale.styled(StyleStep::Times(920_000)),
            stop_snap_speed: base.stop_snap_speed.styled(StyleStep::Times(820_000)),
            ..base
        },
        FighterStyleKind::Catalyst => BodyMotionProfile {
            air_friction: base.air_friction.styled(StyleStep::Plus(80_000)),
            stop_friction: base.stop_friction.styled(StyleStep::Plus(800_000)),
            gravity_scale: base.gravity_scale.styled(StyleStep::Times(980_000)),
            fall_gravity_scale: base.fall_gravity_scale.styled(StyleStep::Times(980_000)),
            ..base
        },
    }
}

/// The profile of an action with its style.
pub fn styled_body_motion_profile(
    action: FighterAction,
    style: FighterStyleKind,
    friction: BaseFriction,
) -> (profile: BodyMotionProfile)
    ensures
        profile == styled_profile(action, style, friction),
{
    let mut profile = body_motion_profile(action, friction);
    match style {
        FighterStyleKind::Anchor => {
            profile.stop_friction = profile.stop_friction.styled(StyleStep::Plus(1_600_000));
            profile.landing_brake = profile.landing_brake.styled(StyleStep::Plus(2_000_000));
            profile.terminal_fall_speed =
            profile.terminal_fall_speed.styled(StyleStep::Times(1_060_000));
            if matches!(
                action,
                FighterAction::HeavyAttack | FighterAction::HeavyAttack2
                    | FighterAction::ComboFinisher
            ) {
                profile.input_scale = profile.input_scale.styled(StyleStep::Times(820_000));
                profile.turn_brake = profile.turn_brake.styled(StyleStep::Times(800_000));
            }
        },
        FighterStyleKind::Vector => {
            profile.turn_brake = profile.turn_brake.styled(StyleStep::Plus(1_400_000));
            profile.landing_input_scale =
            profile.landing_input_scale.styled(
                StyleStep::PlusUpTo { plus: 60_000, most: 320_000 },
            );
            profile.takeoff_gravity_scale =
            profile.takeoff_gravity_scale.styled(StyleStep::Times(920_000));
            profile.stop_snap_speed = profile.stop_snap_speed.styled(StyleStep::Times(820_000));
        },
        FighterStyleKind::Catalyst => {
            profile.air_friction = profile.air_friction.styled(StyleStep::Plus(80_000));
            profile.stop_friction = profile.stop_friction.styled(StyleStep::Plus(800_000));
            profile.gravity_scale = profile.gravity_scale.styled(StyleStep::Times(980_000));
            profile.fall_gravity_scale =
            profile.fall_gravity_scale.styled(StyleStep::Times(980_000));
        },
    }
    profile
}

/// How a character's body differs from the plain one: what its numbers are weighed
/// with.
#[derive(Clone, Copy, Debug, PartialEq, Eq, Structural)]
pub struct CharacterBodyDef {
    pub stop_friction: Scalar,
    pub landing_stick: Scalar,
    pub gravity: Scalar,
    pub fall_gravity: Scalar,
}

/// The bit pattern of `0.2`, the least fall weight that counts towards the terminal
/// speed.
pub const LEAST_FALL_WEIGHT_BITS: u32 = 0x3e4c_cccd;

/// The fall weight as it counts towards the terminal speed.
pub open spec fn terminal_weight(body: CharacterBodyDef) -> Scalar {
    let least = Scalar { bits: LEAST_FALL_WEIGHT_BITS };
    if least.lt(body.fall_gravity) {
        body.fall_gravity
    } else {
        least
    }
}

/// The profile of an action with its style, on the body of a character.
pub open spec fn character_profile(
    action: FighterAction,
    style: FighterStyleKind,
    body: CharacterBodyDef,
    friction: BaseFriction,
) -> BodyMotionProfile {
    let base = styled_profile(action, style, friction);
    BodyMotionProfile {
        stop_friction: base.stop_friction.weighed(body.stop_friction),
        landing_brake: base.landing_brake.weighed(body.landing_stick),
        gravity_scale: base.gravity_scale.weighed(body.gravity),
        fall_gravity_scale: base.fall_gravity_scale.weighed(body.fall_gravity),
        terminal_fall_speed: base.terminal_fall_speed.weighed(terminal_weight(body)),
        ..base
    }
}

/// The profile of an action with its style, on the body of a character.
pub fn character_body_motion_profile(
    action: FighterAction,
    style: FighterStyleKind,
    body: CharacterBodyDef,
    friction: BaseFriction,
) -> (profile: BodyMotionProfile)
    ensures
        profile == character_profile(action, style, body, friction),
{
    let mut profile = styled_body_motion_profile(action, style, friction);
    profile.stop_friction = profile.stop_friction.weighed(body.stop_friction);
    profile.landing_brake = profile.landing_brake.weighed(body.landing_stick);
    profile.gravity_scale = profile.gravity_scale.weighed(body.gravity);
    profile.fall_gravity_scale = profile.fall_gravity_scale.weighed(body.fall_gravity);
    let least = Scalar { bits: LEAST_FALL_WEIGHT_BITS };
    let fall = if least.lt(body.fall_gravity) {
        body.fall_gravity
    } else {
        least
    };
    profile.terminal_fall_speed = profile.terminal_fall_speed.weighed(fall);
    profile
}

/// A technique or state whose motion replaces that of its action.
#[derive(Clone, Copy, Debug, PartialEq, Eq, Structural)]
pub enum BodyOverride {
    /// The action's own motion.
    Action,
    /// Twice the speed of a combo finisher, without steering.
    CatUltimate,
    /// A slope that is slid down.
    PenguinSlope,
    /// Riding an egg.
    ChickEggRide,
    /// Gliding on an updraft.
    ChickUpdraft,
    /// Hopping back without friction.
    ChickBackstep,
    /// Dashing through the air.
    BeeAirDash,
}

/// The motion that replaces that of the action, in order of precedence.
pub open spec fn spec_body_override(
    action: &FighterActionState,
    motor: &FighterMotor,
) -> BodyOverride {
    let id = action.technique_id;
    if id == Some(TechniqueId::CatUltimateStartup) {
        BodyOverride::CatUltimate
    } else if id == Some(TechniqueId::PenguinDashHeavy) || id == Some(
        TechniqueId::PenguinUltimateStartup,
    ) || id == Some(TechniqueId::PenguinUltimateRush) {
        BodyOverride::PenguinSlope
    } else if id == Some(TechniqueId::ChickJumpHeavy) {
        BodyOverride::ChickEggRide
    } else if id == Some(TechniqueId::ChickJumpAttack) {
        BodyOverride::ChickUpdraft
    } else if id == Some(TechniqueId::ChickDashAttack) || id == Some(TechniqueId::ChickDashHeavy) {
        BodyOverride::ChickBackstep
    } else if (motor.bee_air_dash_motion_active && (action.action == FighterAction::Jumping
        || action.action == FighterAction::JumpAttack || action.action
        == FighterAction::JumpHeavyAttack)) || id == Some(TechniqueId::BeeJumpAttack) || id == Some(
        TechniqueId::BeeJumpHeavy,
    ) {
        BodyOverride::BeeAirDash
    } else {
        BodyOverride::Action
    }
}

pub fn body_override(action: &FighterActionState, motor: &FighterMotor) -> (replaced: BodyOverride)
    ensures
        replaced == spec_body_override(action, motor),
{
    match action.technique_id {
        Some(TechniqueId::CatUltimateStartup) => BodyOverride::CatUltimate,
        Some(TechniqueId::PenguinDashHeavy) => BodyOverride::PenguinSlope,
        Some(TechniqueId::PenguinUltimateStartup) => BodyOverride::PenguinSlope,
        Some(TechniqueId::PenguinUltimateRush) => BodyOverride::PenguinSlope,
        Some(TechniqueId::ChickJumpHeavy) => BodyOverride::ChickEggRide,
        Some(TechniqueId::ChickJumpAttack) => BodyOverride::ChickUpdraft,
        Some(TechniqueId::ChickDashAttack) => BodyOverride::ChickBackstep,
        Some(TechniqueId::ChickDashHeavy) => BodyOverride::ChickBackstep,
        Some(TechniqueId::BeeJumpAttack) => BodyOverride::BeeAirDash,
        Some(TechniqueId::BeeJumpHeavy) => BodyOverride::BeeAirDash,
        _ => if motor.bee_air_dash_motion_active && matches!(
            action.action,
            FighterAction::Jumping | FighterAction::JumpAttack | FighterAction::JumpHeavyAttack
        ) {
            BodyOverride::BeeAirDash
        } else {
            BodyOverride::Action
        },
    }
}

/// The authored speeds of techniques that carry their fighter along.
#[derive(Clone, Copy, Debug, PartialEq, Eq, Structural)]
pub struct CarriedSpeeds {
    pub chick_egg_ride: Scalar,
    pub chick_updraft: Scalar,
    pub chick_backstep: Scalar,
    pub bee_air_dash: Scalar,
}

/// The motion of a fighter in its state: that of its action and body, unless its
/// technique moves it in a way of its own.
pub open spec fn state_profile(
    action: &FighterActionState,
    motor: &FighterMotor,
    style: FighterStyleKind,
    body: CharacterBodyDef,
    speeds: CarriedSpeeds,
    friction: BaseFriction,
) -> BodyMotionProfile {
    let base = character_profile(action.action, style, body, friction);
    match spec_body_override(action, motor) {
        BodyOverride::Action => base,
        BodyOverride::CatUltimate => {
            let finisher = character_profile(FighterAction::ComboFinisher, style, body, friction);
            BodyMotionProfile {
                input_scale: Quantity::authored(0),
                max_speed_bonus: finisher.max_speed_bonus.carried(2_000_000),
                ground_friction: finisher.ground_friction,
                stop_friction: finisher.stop_friction,
                turn_brake: finisher.turn_brake,
                landing_input_scale: Quantity::authored(0),
                stop_snap_speed: finisher.stop_snap_speed,
                ..base
            }
        },
        BodyOverride::PenguinSlope => BodyMotionProfile {
            input_scale: Quantity::authored(0),
            max_speed_bonus: Quantity::authored(10_500_000),
            ground_friction: Quantity::authored(1_100_000),
            air_friction: Quantity::authored(180_000),
            stop_friction: Quantity::authored(1_400_000),
            turn_brake: Quantity::authored(100_000),
            gravity_scale: base.gravity_scale.carried(860_000),
            fall_gravity_scale: base.fall_gravity_scale.carried(1_080_000),
            landing_input_scale: Quantity::authored(0),
            stop_snap_speed: Quantity::authored(10_000),
            ..base
        },
        BodyOverride::ChickEggRide => BodyMotionProfile {
            input_scale: Quantity::authored(0),
            max_speed_bonus: Quantity::starting(Amount::Given(speeds.chick_egg_ride)),
            air_friction: Quantity::authored(80_000),
            stop_friction: Quantity::authored(80_000),
            gravity_scale: base.gravity_scale.carried(380_000),
            fall_gravity_scale: base.fall_gravity_scale.carried(660_000),
            landing_input_scale: Quantity::authored(0),
            stop_snap_speed: Quantity::authored(10_000),
            ..base
        },
        BodyOverride::ChickUpdraft => BodyMotionProfile {
            input_scale: Quantity::authored(0),
            max_speed_bonus: Quantity::starting(Amount::Given(speeds.chick_updraft)),
            air_friction: Quantity::authored(120_000),
            stop_friction: Quantity::authored(120_000),
            gravity_scale: base.gravity_scale.carried(340_000),
            fall_gravity_scale: base.fall_gravity_scale.carried(580_000),
            landing_input_scale: Quantity::authored(0),
            stop_snap_speed: Quantity::authored(10_000),
            ..base
        },
        BodyOverride::ChickBackstep => BodyMotionProfile {
            input_scale: Quantity::authored(0),
            max_speed_bonus: Quantity::starting(Amount::Given(speeds.chick_backstep)),
            ground_friction: Quantity::authored(0),
            air_friction: Quantity::authored(0),
            stop_friction: Quantity::authored(0),
            turn_brake: Quantity::authored(0),
            landing_input_scale: Quantity::authored(0),
            stop_snap_speed: Quantity::authored(10_000),
            ..base
        },
        BodyOverride::BeeAirDash => BodyMotionProfile {
            input_scale: Quantity::authored(0),
            max_speed_bonus: Quantity::starting(Amount::Given(speeds.bee_air_dash)),
            air_friction: Quantity::authored(80_000),
            stop_friction: Quantity::authored(80_000),
            gravity_scale: base.gravity_scale.carried(420_000),
            fall_gravity_scale: base.fall_gravity_scale.carried(820_000),
            landing_input_scale: Quantity::authored(0),
            stop_snap_speed: Quantity::authored(10_000),
            ..base
        },
    }
}

/// The motion of a fighter in its state.
pub fn character_body_motion_profile_for_state(
    action: &FighterActionState,
    motor: &FighterMotor,
    style: FighterStyleKind,
    body: CharacterBodyDef,
    speeds: CarriedSpeeds,
    friction: BaseFriction,
) -> (profile: BodyMotionProfile)
    ensures
        profile == state_profile(action, motor, style, body, speeds, friction),
{
    let mut profile = character_body_motion_profile(action.action, style, body, friction);
    let replaced = body_override(action, motor);
    if replaced == BodyOverride::Action {
        return profile;
    }
    profile.input_scale = Quantity::authored(0);
    profile.landing_input_scale = Quantity::authored(0);
    profile.stop_snap_speed = Quantity::authored(10_000);
    match replaced {
        BodyOverride::Action => {},
        BodyOverride::CatUltimate => {
            let finisher = character_body_motion_profile(
                FighterAction::ComboFinisher,
                style,
                body,
                friction,
            );
            profile.max_speed_bonus = finisher.max_speed_bonus.carried(2_000_000);
            profile.ground_friction = finisher.ground_friction;
            profile.stop_friction = finisher.stop_friction;
            profile.turn_brake = finisher.turn_brake;
            profile.stop_snap_speed = finisher.stop_snap_speed;
        },
        BodyOverride::PenguinSlope => {
            profile.max_speed_bonus = Quantity::authored(10_500_000);
            profile.ground_friction = Quantity::authored(1_100_000);
            profile.air_friction = Quantity::authored(180_000);
            profile.stop_friction = Quantity::authored(1_400_000);
            profile.turn_brake = Quantity::authored(100_000);
            profile.gravity_scale = profile.gravity_scale.carried(860_000);
            profile.fall_gravity_scale = profile.fall_gravity_scale.carried(1_080_000);
        },
        BodyOverride::ChickEggRide => {
            profile.max_speed_bonus = Quantity::starting(Amount::Given(speeds.chick_egg_ride));
            profile.air_friction = Quantity::authored(80_000);
            profile.stop_friction = Quantity::authored(80_000);
            profile.gravity_scale = profile.gravity_scale.carried(380_000);
            profile.fall_gravity_scale = profile.fall_gravity_scale.carried(660_000);
        },
        BodyOverride::ChickUpdraft => {
            profile.max_speed_bonus = Quantity::starting(Amount::Given(speeds.chick_updraft));
            profile.air_friction = Quantity::authored(120_000);
            profile.stop_friction = Quantity::authored(120_000);
            profile.gravity_scale = profile.gravity_scale.carried(340_000);
            profile.fall_gravity_scale = profile.fall_gravity_scale.carried(580_000);
        },
        BodyOverride::ChickBackstep => {
            profile.max_speed_bonus = Quantity::starting(Amount::Given(speeds.chick_backstep));
            profile.ground_friction = Quantity::authored(0);
            profile.air_friction = Quantity::authored(0);
            profile.stop_friction = Quantity::authored(0);
            profile.turn_brake = Quantity::authored(0);
        },
        BodyOverride::BeeAirDash => {
            profile.max_speed_bonus = Quantity::starting(Amount::Given(speeds.bee_air_dash));
            profile.air_friction = Quantity::authored(80_000);
            profile.stop_friction = Quantity::authored(80_000);
            profile.gravity_scale = profile.gravity_scale.carried(420_000);
            profile.fall_gravity_scale = profile.fall_gravity_scale.carried(820_000);
        },
    }
    profile
}

/// A technique that carries its fighter along cannot be steered, in the air or on
/// landing.
pub proof fn carried_bodies_do_not_steer(
    action: FighterActionState,
    motor: FighterMotor,
    style: FighterStyleKind,
    body: CharacterBodyDef,
    speeds: CarriedSpeeds,
    friction: BaseFriction,
)
    requires
        spec_body_override(&action, &motor) != BodyOverride::Action,
    ensures
        ({
            let profile = state_profile(&action, &motor, style, body, speeds, friction);
            profile.input_scale.is_nothing() && profile.landing_input_scale.is_nothing()
        }),
{
}

/// A body comes after action and style: without its weights, its motion is that of
/// its action and style.
pub proof fn bodies_weigh_after_style(
    action: FighterAction,
    style: FighterStyleKind,
    body: CharacterBodyDef,
    friction: BaseFriction,
)
    ensures
        ({
            let whole = character_profile(action, style, body, friction);
            styled_profile(action, style, friction) == (BodyMotionProfile {
                stop_friction: whole.stop_friction.unweighed(),
                landing_brake: whole.landing_brake.unweighed(),
                gravity_scale: whole.gravity_scale.unweighed(),
                fall_gravity_scale: whole.fall_gravity_scale.unweighed(),
                terminal_fall_speed: whole.terminal_fall_speed.unweighed(),
                ..whole
            })
        }),
{
}

/// A fighter that is hit, held, down or guarding cannot steer, in any style.
pub proof fn helpless_bodies_do_not_steer(
    action: FighterAction,
    style: FighterStyleKind,
    friction: BaseFriction,
)
    requires
        action == FighterAction::Hitstun || action == FighterAction::Knockdown || action
            == FighterAction::Grabbed || action == FighterAction::GetUp || action
            == FighterAction::GuardBroken || action == FighterAction::UltimateVictim || action
            == FighterAction::RingOut || action == FighterAction::Guarding,
    ensures
        styled_profile(action, style, friction).input_scale.is_nothing(),
{
}

/// Every body falls, brakes and comes to rest: gravity, terminal speed and snap
/// speed are positive in every action and style.
pub proof fn bodies_always_fall(
    action: FighterAction,
    style: FighterStyleKind,
    friction: BaseFriction,
)
    ensures
        ({
            let profile = styled_profile(action, style, friction);
            &&& profile.gravity_scale.is_something()
            &&& profile.fall_gravity_scale.is_something()
            &&& profile.takeoff_gravity_scale.is_something()
            &&& profile.terminal_fall_speed.is_something()
            &&& profile.stop_snap_speed.is_something()
            &&& profile.stop_friction.is_something()
        }),
{
}

impl BaseFriction {
    /// Neither the ground nor the air drives a body on.
    pub open spec fn is_not_negative(self) -> bool {
        Scalar::zero().le(self.ground) && Scalar::zero().le(self.air)
    }
}

/// The actions in which a body does not steer.
pub open spec fn steering_is_off(action: FighterAction) -> bool {
    match action {
        FighterAction::Guarding
        | FighterAction::UltimateStartup
        | FighterAction::UltimateRush
        | FighterAction::JumpAttack
        | FighterAction::GuardStep
        | FighterAction::RecoveryRoll
        | FighterAction::Hitstun
        | FighterAction::Knockdown
        | FighterAction::RingOut
        | FighterAction::Grabbed
        | FighterAction::UltimateVictim
        | FighterAction::GetUp
        | FighterAction::GuardBroken => true,
        _ => false,
    }
}

/// The range of the authored profiles. Steering goes from none to full, and there is
/// none exactly in the actions of `steering_is_off`. No friction or brake speeds a body
/// up, as long as those of the ground and the air do not, and every body falls.
pub proof fn profiles_stay_in_range(action: FighterAction, friction: BaseFriction)
    requires
        friction.is_not_negative(),
    ensures
        ({
            let profile = action_profile(action, friction);
            &&& profile.input_scale.is_constant_within(0, 1_000_000)
            &&& profile.input_scale.constant() == Some(0i64) <==> steering_is_off(action)
            &&& profile.landing_input_scale.is_constant_within(0, 1_000_000)
            &&& profile.max_speed_bonus.is_not_negative()
            &&& profile.ground_friction.is_not_negative()
            &&& profile.air_friction.is_not_negative()
            &&& profile.stop_friction.is_not_negative()
            &&& profile.turn_brake.is_not_negative()
            &&& profile.landing_brake.is_not_negative()
            &&& profile.stop_snap_speed.is_not_negative()
            &&& profile.gravity_scale.is_something()
            &&& profile.fall_gravity_scale.is_something()
            &&& profile.takeoff_gravity_scale.is_something()
            &&& profile.terminal_fall_speed.is_something()
        }),
{
}

/// No action lets a body go faster than the finisher of a combo does.
pub proof fn finishers_are_fastest(action: FighterAction, friction: BaseFriction)
    requires
        action != FighterAction::ComboFinisher,
    ensures
        ({
            let bonus = action_profile(action, friction).max_speed_bonus.constant();
            let finisher = action_profile(
                FighterAction::ComboFinisher,
                friction,
            ).max_speed_bonus.constant();
            bonus.is_some() && finisher.is_some() && bonus.unwrap() < finisher.unwrap()
        }),
{
}

/// No style, body or technique turns a friction or a brake into a drive: none is
/// negative in any state, as long as those of the ground and the air are not.
pub proof fn brakes_never_drive(
    action: &FighterActionState,
    motor: &FighterMotor,
    style: FighterStyleKind,
    body: CharacterBodyDef,
    speeds: CarriedSpeeds,
    friction: BaseFriction,
)
    requires
        friction.is_not_negative(),
    ensures
        ({
            let profile = state_profile(action, motor, style, body, speeds, friction);
            &&& profile.ground_friction.is_not_negative()
            &&& profile.air_friction.is_not_negative()
            &&& profile.stop_friction.is_not_negative()
            &&& profile.turn_brake.is_not_negative()
            &&& profile.landing_brake.is_not_negative()
            &&& profile.stop_snap_speed.is_not_negative()
        }),
{
}

} // verus!

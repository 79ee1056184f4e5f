//! What styles, bodies and techniques change of how a fighter moves.

use vstd::prelude::*;

use crate::action::{FighterAction, FighterActionState};
use crate::fighter::FighterMotor;
use crate::loadout::FighterStyleKind;
use crate::profile::{
    Amount, BaseFriction, CarriedSpeeds, CharacterBodyDef, Quantity, StyleStep,
    action_profile, character_profile, state_profile, styled_profile,
};
use crate::scalar::Scalar;
use crate::technique::TechniqueId;

verus! {

/// The quantity is the other with nothing but its style changed.
pub open spec fn restyled(quantity: Quantity, plain: Quantity, style: StyleStep) -> bool {
    &&& quantity.start == plain.start
    &&& quantity.body == plain.body
    &&& quantity.technique == plain.technique
    &&& quantity.style == style
}

/// Every style leaves the speed and the grip of a fighter alone. An anchor stops and
/// lands harder, falls faster at most, and steers less in its heavy swings. A vector
/// turns harder, keeps more of its steering on landing, takes off lighter and glides
/// longer. A catalyst brakes more in the air and in stopping, and weighs less.
pub proof fn styles_change_their_own(
    action: FighterAction,
    style: FighterStyleKind,
    friction: BaseFriction,
)
    ensures
        ({
            let plain = action_profile(action, friction);
            let after = styled_profile(action, style, friction);
            let swings = action == FighterAction::HeavyAttack || action
                == FighterAction::HeavyAttack2 || action == FighterAction::ComboFinisher;
            let anchor = style == FighterStyleKind::Anchor;
            let vector = style == FighterStyleKind::Vector;
            let catalyst = style == FighterStyleKind::Catalyst;
            &&& after.max_speed_bonus == plain.max_speed_bonus
            &&& after.ground_friction == plain.ground_friction
            &&& anchor ==> restyled(
                after.stop_friction,
                plain.stop_friction,
                StyleStep::Plus(1_600_000),
            )
            &&& catalyst ==> restyled(
                after.stop_friction,
                plain.stop_friction,
                StyleStep::Plus(800_000),
            )
            &&& vector ==> after.stop_friction == plain.stop_friction
            &&& anchor ==> restyled(
                after.landing_brake,
                plain.landing_brake,
                StyleStep::Plus(2_000_000),
            )
            &&& !anchor ==> after.landing_brake == plain.landing_brake
            &&& anchor ==> restyled(
                after.terminal_fall_speed,
                plain.terminal_fall_speed,
                StyleStep::Times(1_060_000),
            )
            &&& !anchor ==> after.terminal_fall_speed == plain.terminal_fall_speed
            &&& anchor && swings ==> restyled(
                after.input_scale,
                plain.input_scale,
                StyleStep::Times(820_000),
            ) && restyled(after.turn_brake, plain.turn_brake, StyleStep::Times(800_000))
            &&& !(anchor && swings) ==> after.input_scale == plain.input_scale
            &&& vector ==> restyled(after.turn_brake, plain.turn_brake, StyleStep::Plus(1_400_000))
            &&& !vector && !(anchor && swings) ==> after.turn_brake == plain.turn_brake
            &&& vector ==> restyled(
                after.landing_input_scale,
                plain.landing_input_scale,
                StyleStep::PlusUpTo { plus: 60_000, most: 320_000 },
            )
            &&& !vector ==> after.landing_input_scale == plain.landing_input_scale
            &&& vector ==> restyled(
                after.takeoff_gravity_scale,
                plain.takeoff_gravity_scale,
                StyleStep::Times(920_000),
            )
            &&& !vector ==> after.takeoff_gravity_scale == plain.takeoff_gravity_scale
            &&& vector ==> restyled(
                after.stop_snap_speed,
                plain.stop_snap_speed,
                StyleStep::Times(820_000),
            )
            &&& !vector ==> after.stop_snap_speed == plain.stop_snap_speed
            &&& catalyst ==> restyled(
                after.air_friction,
                plain.air_friction,
                StyleStep::Plus(80_000),
            )
            &&& !catalyst ==> after.air_friction == plain.air_friction
            &&& catalyst ==> restyled(
                after.gravity_scale,
                plain.gravity_scale,
                StyleStep::Times(980_000),
            ) && restyled(
                after.fall_gravity_scale,
                plain.fall_gravity_scale,
                StyleStep::Times(980_000),
            )
            &&& !catalyst ==> after.gravity_scale == plain.gravity_scale
                && after.fall_gravity_scale == plain.fall_gravity_scale
        }),
{
}

/// A character's body weighs on stopping, landing, its gravity and its fall, each with
/// its own number, and on the fastest fall with that of the fall, but with no less than
/// a fifth. It weighs on nothing else.
pub proof fn bodies_weigh_on_their_own(
    action: FighterAction,
    style: FighterStyleKind,
    body: CharacterBodyDef,
    friction: BaseFriction,
)
    ensures
        ({
            let plain = styled_profile(action, style, friction);
            let after = character_profile(action, style, body, friction);
            let fifth = Scalar { bits: 0x3e4c_cccd };
            &&& after.stop_friction.body == Some(body.stop_friction)
            &&& after.landing_brake.body == Some(body.landing_stick)
            &&& after.gravity_scale.body == Some(body.gravity)
            &&& after.fall_gravity_scale.body == Some(body.fall_gravity)
            &&& after.terminal_fall_speed.body == Some(
                if fifth.lt(body.fall_gravity) {
                    body.fall_gravity
                } else {
                    fifth
                },
            )
            &&& after.stop_friction.start == plain.stop_friction.start
            &&& after.stop_friction.style == plain.stop_friction.style
            &&& after.landing_brake.start == plain.landing_brake.start
            &&& after.gravity_scale.start == plain.gravity_scale.start
            &&& after.gravity_scale.style == plain.gravity_scale.style
            &&& after.fall_gravity_scale.start == plain.fall_gravity_scale.start
            &&& after.terminal_fall_speed.start == plain.terminal_fall_speed.start
            &&& after.input_scale == plain.input_scale
            &&& after.max_speed_bonus == plain.max_speed_bonus
            &&& after.ground_friction == plain.ground_friction
            &&& after.air_friction == plain.air_friction
            &&& after.turn_brake == plain.turn_brake
            &&& after.landing_input_scale == plain.landing_input_scale
            &&& after.takeoff_gravity_scale == plain.takeoff_gravity_scale
            &&& after.stop_snap_speed == plain.stop_snap_speed
        }),
{
}

/// Penguin slides down its slope.
pub open spec fn on_the_slope(id: Option<TechniqueId>) -> bool {
    id == Some(TechniqueId::PenguinDashHeavy) || id == Some(TechniqueId::PenguinUltimateStartup)
        || id == Some(TechniqueId::PenguinUltimateRush)
}

/// Bee flies in its air dash: with one of its air attacks, or still in the dash's motion
/// when no technique that carries it otherwise is under way.
pub open spec fn in_the_air_dash(action: &FighterActionState, motor: &FighterMotor) -> bool {
    let id = action.technique_id;
    ||| id == Some(TechniqueId::BeeJumpAttack)
    ||| id == Some(TechniqueId::BeeJumpHeavy)
    ||| {
        &&& motor.bee_air_dash_motion_active
        &&& action.action == FighterAction::Jumping || action.action == FighterAction::JumpAttack
            || action.action == FighterAction::JumpHeavyAttack
        &&& id != Some(TechniqueId::CatUltimateStartup)
        &&& !on_the_slope(id)
        &&& id != Some(TechniqueId::ChickJumpHeavy)
        &&& id != Some(TechniqueId::ChickJumpAttack)
        &&& id != Some(TechniqueId::ChickDashAttack)
        &&& id != Some(TechniqueId::ChickDashHeavy)
    }
}

/// Techniques that carry a fighter along set its speed: Chick's ride, updraft and
/// backstep and Bee's air dash by the speed that is given for each, Penguin's slope by
/// its own, and Cat's ultimate by twice that of its finisher. They take the steering,
/// and what they do not speak of stays as the action has it. Without one of them, the
/// action alone says how the fighter moves.
pub proof fn techniques_carry_by_their_speed(
    action: &FighterActionState,
    motor: &FighterMotor,
    style: FighterStyleKind,
    body: CharacterBodyDef,
    speeds: CarriedSpeeds,
    friction: BaseFriction,
)
    ensures
        ({
            let id = action.technique_id;
            let plain = character_profile(action.action, style, body, friction);
            let after = state_profile(action, motor, style, body, speeds, friction);
            let cat = id == Some(TechniqueId::CatUltimateStartup);
            let slope = on_the_slope(id);
            let ride = id == Some(TechniqueId::ChickJumpHeavy);
            let updraft = id == Some(TechniqueId::ChickJumpAttack);
            let backstep = id == Some(TechniqueId::ChickDashAttack) || id == Some(
                TechniqueId::ChickDashHeavy,
            );
            let flight = in_the_air_dash(action, motor);
            let finisher = character_profile(FighterAction::ComboFinisher, style, body, friction);
            let carried = cat || slope || ride || updraft || backstep || flight;
            &&& !carried ==> after == plain
            &&& carried ==> {
                &&& after.input_scale.start == Amount::Millionths(0)
                &&& after.landing_input_scale.start == Amount::Millionths(0)
                &&& after.landing_brake == plain.landing_brake
                &&& after.terminal_fall_speed == plain.terminal_fall_speed
                &&& after.takeoff_gravity_scale == plain.takeoff_gravity_scale
            }
            &&& ride ==> after.max_speed_bonus.start == Amount::Given(speeds.chick_egg_ride)
            &&& updraft ==> after.max_speed_bonus.start == Amount::Given(speeds.chick_updraft)
            &&& backstep ==> after.max_speed_bonus.start == Amount::Given(speeds.chick_backstep)
            &&& flight ==> after.max_speed_bonus.start == Amount::Given(speeds.bee_air_dash)
            &&& slope ==> after.max_speed_bonus.start == Amount::Millionths(10_500_000)
            &&& cat ==> {
                &&& after.max_speed_bonus.start == finisher.max_speed_bonus.start
                &&& after.max_speed_bonus.technique == Some(2_000_000i64)
                &&& after.ground_friction == finisher.ground_friction
                &&& after.stop_friction == finisher.stop_friction
                &&& after.turn_brake == finisher.turn_brake
            }
            &&& backstep ==> {
                &&& after.ground_friction.start == Amount::Millionths(0)
                &&& after.air_friction.start == Amount::Millionths(0)
                &&& after.stop_friction.start == Amount::Millionths(0)
                &&& after.turn_brake.start == Amount::Millionths(0)
                &&& after.gravity_scale == plain.gravity_scale
            }
            &&& slope || ride || updraft || flight ==> {
                &&& after.gravity_scale.start == plain.gravity_scale.start
                &&& after.gravity_scale.body == plain.gravity_scale.body
                &&& after.gravity_scale.technique == Some(
                    if slope {
                        860_000i64
                    } else if ride {
                        380_000i64
                    } else if updraft {
                        340_000i64
                    } else {
                        420_000i64
                    },
                )
                &&& after.fall_gravity_scale.technique == Some(
                    if slope {
                        1_080_000i64
                    } else if ride {
                        660_000i64
                    } else if updraft {
                        580_000i64
                    } else {
                        820_000i64
                    },
                )
            }
        }),
{
}

} // verus!

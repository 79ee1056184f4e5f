//! What a tick of movement does to a fighter: its timers, its brakes, ice, walls and
//! the floor.

use vstd::prelude::*;

use crate::action::{FighterAction, FighterActionState};
use crate::fighter::{FighterMotor, FighterTuning};
use crate::movement::{
    BrakeChoice, FloorContact, FloorEffect, IceHeading, LandingKind, WallEffect, floor_effect,
    floored_action, floored_motor, spec_ice_heading, speed_limit,
};
use crate::reaction::ReactionFamilyId;
use crate::scalar::Scalar;
use crate::ticks::TickTimer;
use crate::travel::{MovementOrder, MovementReport, MovementStage, MovingFighter, moved_on};

verus! {

/// A countdown one tick later; the largest one never runs out.
pub open spec fn run_down(timer: TickTimer) -> int {
    if timer.remaining == 0 || timer.remaining == u32::MAX {
        timer.remaining as int
    } else {
        timer.remaining - 1
    }
}

/// The longer of two countdowns.
pub open spec fn longer(left: u32, right: u32) -> u32 {
    if left < right {
        right
    } else {
        left
    }
}

/// The floor has the fighter: it is not above it and does not rise.
pub open spec fn comes_down(contact: FloorContact) -> bool {
    contact.snap_height matches Some(snap) && contact.height.le(snap) && contact.velocity_y.le(
        Scalar { bits: 0 },
    )
}

/// The ticks for which a landing sticks: none below two units a second, then three,
/// four and, beyond eight, six.
pub open spec fn sticks_for(fall_velocity: Scalar) -> u32 {
    if fall_velocity.lt(Scalar { bits: 0xc100_0000 }) {
        6
    } else if fall_velocity.lt(Scalar { bits: 0xc090_0000 }) {
        4
    } else if fall_velocity.lt(Scalar { bits: 0xc000_0000 }) {
        3
    } else {
        0
    }
}

/// A fighter that touches the floor with an aftermath waiting lies there, for the
/// aftermath's own times, and nothing of the flight is left.
pub proof fn aftermaths_end_on_the_floor(
    motor: FighterMotor,
    action: FighterActionState,
    contact: FloorContact,
    tuning: FighterTuning,
)
    requires
        comes_down(contact),
        motor.landing_aftermath.is_some(),
    ensures
        ({
            let aftermath = motor.landing_aftermath.unwrap();
            let after = floored_motor(motor, contact, tuning);
            let acts = floored_action(motor, action, contact);
            &&& floor_effect(motor, contact) matches FloorEffect::Touched { kind, felt }
                && kind == LandingKind::Aftermath(aftermath) && felt == (!contact.was_grounded
                && contact.fall_velocity.lt(Scalar { bits: 0xc000_0000 }))
            &&& acts.action == FighterAction::Knockdown
            &&& acts.elapsed.ticks == 0
            &&& acts.reaction_getup_ms == Some(aftermath.getup_transition_ms)
            &&& acts.reaction_recover_ms == Some(aftermath.recover_ms)
            &&& acts.reaction_family.is_none()
            &&& acts.queued_technique.is_none()
            &&& after.landing_aftermath.is_none()
            &&& !after.knockdown_on_land
            &&& after.reaction_bounces == 0
            &&& !after.jump_attack_landing_recovery
            &&& stands(after, tuning)
        }),
{
}

/// A fighter stands on the floor: its air attack and its ledge are back, and nothing
/// is lined up.
pub open spec fn stands(motor: FighterMotor, tuning: FighterTuning) -> bool {
    &&& motor.grounded
    &&& !motor.air_attack_used
    &&& motor.queued_air_attack.is_none()
    &&& motor.queued_air_attack_timer.remaining == 0
    &&& !motor.bee_air_dash_motion_active
    &&& !motor.bee_air_dash_shot_available
    &&& motor.dash_jump_carry_timer.remaining == 0
    &&& motor.pig_air_meat_slam_air_hits == 0
    &&& motor.ledge_grace_timer.remaining == tuning.ledge_grace
}

/// Without an aftermath, a fighter that is to be knocked down bounces where it has a
/// bounce left and comes down fast, and else lies on the floor.
pub proof fn knockdowns_bounce_or_lie(
    motor: FighterMotor,
    action: FighterActionState,
    contact: FloorContact,
    tuning: FighterTuning,
)
    requires
        comes_down(contact),
        motor.landing_aftermath.is_none(),
        motor.knockdown_on_land,
    ensures
        ({
            let after = floored_motor(motor, contact, tuning);
            let acts = floored_action(motor, action, contact);
            let bounces = motor.reaction_bounces > 0 && contact.fall_velocity.lt(
                Scalar { bits: 0xc093_3333 },
            );
            let felt = !contact.was_grounded && contact.fall_velocity.lt(
                Scalar { bits: 0xc000_0000 },
            );
            &&& floor_effect(motor, contact) == (FloorEffect::Touched {
                kind: if bounces {
                    LandingKind::GroundBounce
                } else {
                    LandingKind::Knockdown
                },
                felt,
            })
            &&& acts.elapsed.ticks == 0
            &&& acts.action == (if bounces {
                FighterAction::Hitstun
            } else {
                FighterAction::Knockdown
            })
            &&& bounces ==> !after.grounded && after.reaction_bounces == motor.reaction_bounces - 1
                && after.knockdown_on_land && acts.reaction_family == Some(
                ReactionFamilyId::GroundBounceDown,
            )
            &&& !bounces ==> stands(after, tuning) && !after.knockdown_on_land
                && after.reaction_bounces == 0 && !after.jump_attack_landing_recovery
                && acts.reaction_family.is_none()
        }),
{
}

/// Without an aftermath or a knockdown, a dive that has to recover does so on the
/// floor, and any other landing leaves the action alone.
pub proof fn dives_recover_on_the_floor(
    motor: FighterMotor,
    action: FighterActionState,
    contact: FloorContact,
    tuning: FighterTuning,
)
    requires
        comes_down(contact),
        motor.landing_aftermath.is_none(),
        !motor.knockdown_on_land,
    ensures
        ({
            let after = floored_motor(motor, contact, tuning);
            let acts = floored_action(motor, action, contact);
            let felt = !contact.was_grounded && contact.fall_velocity.lt(
                Scalar { bits: 0xc000_0000 },
            );
            &&& stands(after, tuning)
            &&& !after.jump_attack_landing_recovery
            &&& !after.knockdown_on_land
            &&& after.reaction_bounces == motor.reaction_bounces
            &&& motor.jump_attack_landing_recovery ==> {
                &&& floor_effect(motor, contact) == (FloorEffect::Touched {
                    kind: LandingKind::Recovery,
                    felt,
                })
                &&& acts.action == FighterAction::LandingRecovery
                &&& acts.elapsed.ticks == 0
                &&& acts.reaction_family.is_none()
                &&& acts.queued_technique.is_none()
            }
            &&& !motor.jump_attack_landing_recovery ==> {
                &&& floor_effect(motor, contact) == (FloorEffect::Touched {
                    kind: LandingKind::Plain,
                    felt,
                })
                &&& acts == action
            }
        }),
{
}

/// A landing sticks for a time that grows with the fall; whoever stood already is not
/// held.
pub proof fn landings_stick(motor: FighterMotor, contact: FloorContact, tuning: FighterTuning)
    requires
        comes_down(contact),
        motor.landing_aftermath.is_none(),
    ensures
        floored_motor(motor, contact, tuning).landing_stick_timer.remaining == (
        if contact.was_grounded {
            motor.landing_stick_timer.remaining
        } else {
            longer(motor.landing_stick_timer.remaining, sticks_for(contact.fall_velocity))
        }),
{
}

/// Above the floor nothing happens. Where there is none, a fighter that stood is in
/// the air, with its ledge still near.
pub proof fn without_a_floor_fighters_fall(
    motor: FighterMotor,
    action: FighterActionState,
    contact: FloorContact,
    tuning: FighterTuning,
)
    requires
        !comes_down(contact),
    ensures
        ({
            let after = floored_motor(motor, contact, tuning);
            &&& floored_action(motor, action, contact) == action
            &&& contact.snap_height.is_some() ==> after == motor && floor_effect(motor, contact)
                == FloorEffect::Above
            &&& contact.snap_height.is_none() ==> {
                &&& floor_effect(motor, contact) == FloorEffect::Missing
                &&& !after.grounded
                &&& after.ledge_grace_timer.remaining == (if motor.grounded {
                    tuning.ledge_grace
                } else {
                    motor.ledge_grace_timer.remaining
                })
                &&& after.air_attack_used == motor.air_attack_used
                &&& after.knockdown_on_land == motor.knockdown_on_land
            }
        }),
{
}

/// A tick of movement begins with the timers, unless hitstop holds everybody. Who is
/// out of the arena rests; everybody else looks at the ground, with its ledge near as
/// long as it stands.
pub proof fn movement_begins_with_the_timers(
    fighter: MovingFighter,
    frozen: bool,
    velocity_y: Scalar,
    tuning: FighterTuning,
)
    requires
        fighter.stage == MovementStage::Begin,
    ensures
        ({
            let (after, order) = moved_on(
                fighter,
                MovementReport::Begin { frozen, velocity_y },
                tuning,
            );
            let out = fighter.action.action == FighterAction::RingOut || fighter.action.action
                == FighterAction::Respawning;
            &&& order == (if frozen || out {
                MovementOrder::Rest
            } else {
                MovementOrder::MeasureSurface
            })
            &&& frozen ==> after.motor == fighter.motor && after.stats == fighter.stats
            &&& after.action == fighter.action
            &&& !frozen ==> {
                &&& after.was_grounded == fighter.motor.grounded
                &&& after.fall_velocity == velocity_y
                &&& after.stats.item_speed_timer.remaining == run_down(
                    fighter.stats.item_speed_timer,
                )
                &&& after.stats.item_giant_timer.remaining == run_down(
                    fighter.stats.item_giant_timer,
                )
                &&& after.stats.health == fighter.stats.health
                &&& after.motor.landing_stick_timer.remaining == run_down(
                    fighter.motor.landing_stick_timer,
                )
                &&& after.motor.jump_takeoff_timer.remaining == run_down(
                    fighter.motor.jump_takeoff_timer,
                )
                &&& after.motor.dash_slide_timer.remaining == run_down(
                    fighter.motor.dash_slide_timer,
                )
                &&& after.motor.dash_jump_carry_timer.remaining == run_down(
                    fighter.motor.dash_jump_carry_timer,
                )
                &&& after.motor.impact_speed_limit_timer.remaining == run_down(
                    fighter.motor.impact_speed_limit_timer,
                )
                &&& after.motor.dash_jump_carry_speed_limit == (if run_down(
                    fighter.motor.dash_jump_carry_timer,
                ) > 0 {
                    fighter.motor.dash_jump_carry_speed_limit
                } else {
                    Scalar { bits: 0 }
                })
                &&& after.motor.impact_speed_limit == (if run_down(
                    fighter.motor.impact_speed_limit_timer,
                ) > 0 {
                    fighter.motor.impact_speed_limit
                } else {
                    Scalar { bits: 0 }
                })
                &&& after.motor.grounded == fighter.motor.grounded
            }
            &&& !frozen && out ==> after.motor.penguin_ice_slide_direction.is_none()
                && !after.motor.bee_air_dash_motion_active
            &&& !frozen && !out ==> after.motor.ledge_grace_timer.remaining == (
            if fighter.motor.grounded {
                tuning.ledge_grace as int
            } else {
                run_down(fighter.motor.ledge_grace_timer)
            })
        }),
{
}

/// Hard ice takes a fighter along: a slide begins with the entry's direction and
/// speed, goes on unchanged while the ice lasts, and ends off the ice or with a hit.
/// Sliding, nobody steers. Ice keeps a slide on the ground going for its time.
pub proof fn hard_ice_takes_along(
    fighter: MovingFighter,
    report: MovementReport,
    tuning: FighterTuning,
)
    requires
        fighter.stage == MovementStage::Surface,
        report is Surface,
    ensures
        ({
            let (after, order) = moved_on(fighter, report, tuning);
            let action = fighter.action.action;
            let hurt = action == FighterAction::Hitstun || action == FighterAction::Knockdown
                || action == FighterAction::Grabbed || action == FighterAction::GetUp || action
                == FighterAction::RingOut || action == FighterAction::Respawning;
            let slides = report->on_hard_ice && !hurt;
            let entry = report->entry;
            let icy = fighter.motor.grounded && report->ice_slide_ticks.is_some();
            &&& slides ==> after.motor.penguin_ice_slide_direction == (
            if fighter.motor.penguin_ice_slide_direction.is_some() {
                fighter.motor.penguin_ice_slide_direction
            } else {
                Some(entry.direction)
            }) && after.motor.penguin_ice_slide_speed == (
            if fighter.motor.penguin_ice_slide_direction.is_some() {
                fighter.motor.penguin_ice_slide_speed
            } else {
                entry.speed
            })
            &&& !slides ==> after.motor.penguin_ice_slide_direction.is_none()
                && after.motor.penguin_ice_slide_speed == Scalar { bits: 0 }
            &&& after.motor.dash_slide_timer.remaining == (if icy {
                longer(
                    fighter.motor.dash_slide_timer.remaining,
                    report->ice_slide_ticks.unwrap(),
                )
            } else {
                fighter.motor.dash_slide_timer.remaining
            })
            &&& order == (MovementOrder::Steer {
                steered: !slides,
                landing: fighter.motor.grounded && fighter.motor.landing_stick_timer.remaining > 0,
                icy,
            })
            &&& after.action == fighter.action
        }),
{
}

/// A slide heads where the fighter already goes, else where the input points, else
/// where it faces.
pub proof fn slides_keep_their_heading(planar_speed_squared: Scalar, input_length_squared: Scalar)
    ensures
        ({
            let heading = spec_ice_heading(planar_speed_squared, input_length_squared);
            let fast = Scalar { bits: 0x3d46_3f14 }.lt(planar_speed_squared);
            let asked = Scalar { bits: 0x3c23_d70a }.lt(input_length_squared);
            &&& heading == IceHeading::Velocity <==> fast
            &&& heading == IceHeading::Input <==> !fast && asked
            &&& heading == IceHeading::Facing <==> !fast && !asked
        }),
{
}

/// Whoever turns against its velocity brakes for that. Whoever holds no direction, or
/// can hardly steer, brakes on the ground as its landing or its slide says, and else by
/// stopping or by friction; whoever steers freely does not brake.
pub proof fn brakes_follow_the_input(
    fighter: MovingFighter,
    report: MovementReport,
    tuning: FighterTuning,
)
    requires
        fighter.stage == MovementStage::Steering,
        report is Steered,
    ensures
        ({
            let (after, order) = moved_on(fighter, report, tuning);
            let input = report->Steered_input_length_squared;
            let speed = report->Steered_planar_speed_squared;
            let turning = Scalar { bits: 0x3c23_d70a }.lt(input) && Scalar {
                bits: 0x3c23_d70a,
            }.lt(speed) && report->alignment.lt(Scalar { bits: 0xbe19_999a });
            let idle = input.lt(Scalar { bits: 0x3c23_d70a });
            let free = !turning && !idle && !report->input_scale.lt(Scalar { bits: 0x3f00_0000 });
            let sticks = fighter.motor.grounded && fighter.motor.landing_stick_timer.remaining > 0;
            let slides = fighter.motor.grounded && fighter.motor.dash_slide_timer.remaining > 0;
            &&& order == (if free {
                MovementOrder::Coast
            } else if turning {
                MovementOrder::Brake(BrakeChoice::Turn)
            } else if sticks {
                MovementOrder::Brake(BrakeChoice::Landing)
            } else if slides && idle {
                MovementOrder::Brake(BrakeChoice::DashSlide)
            } else if idle {
                MovementOrder::Brake(BrakeChoice::Stopping)
            } else {
                MovementOrder::Brake(BrakeChoice::Friction)
            })
            &&& after.motor == fighter.motor
            &&& after.action == fighter.action
        }),
{
}

/// A body without a direction that is slower than its snap speed stops, and so does a
/// slide on the ground that is slow enough, which is then over.
pub proof fn slow_bodies_stop(fighter: MovingFighter, report: MovementReport, tuning: FighterTuning)
    requires
        fighter.stage == MovementStage::Braking,
        report is Braked,
        !tuning.dash_slide_stop_speed_squared.lt(Scalar { bits: 0 }),
        !tuning.dash_slide_stop_speed_squared.is_nan(),
    ensures
        ({
            let (after, order) = moved_on(fighter, report, tuning);
            let speed = report->Braked_planar_speed_squared;
            let snaps = report->Braked_input_length_squared.le(Scalar { bits: 0x3c23_d70a })
                && speed.le(report->snap_speed_squared);
            let slides = fighter.motor.grounded && fighter.motor.dash_slide_timer.remaining > 0;
            let spent = slides && (snaps || speed.le(tuning.dash_slide_stop_speed_squared));
            &&& order == (MovementOrder::Settle { stops: snaps || spent })
            &&& after.motor.dash_slide_timer.remaining == (if spent {
                0
            } else {
                fighter.motor.dash_slide_timer.remaining
            })
        }),
{
}

/// A slide on hard ice goes with its own speed, which also becomes the least limit for
/// five ticks, and lasts seventeen ticks more. Without one the velocity stays.
pub proof fn ice_sets_the_speed(fighter: MovingFighter, entry_speed: Scalar, tuning: FighterTuning)
    requires
        fighter.stage == MovementStage::Settled,
    ensures
        ({
            let (after, order) = moved_on(
                fighter,
                MovementReport::Settled { entry_speed },
                tuning,
            );
            match fighter.motor.penguin_ice_slide_direction {
                Some(direction) => {
                    let speed = if (Scalar { bits: 0 }).lt(fighter.motor.penguin_ice_slide_speed) {
                        fighter.motor.penguin_ice_slide_speed
                    } else {
                        entry_speed
                    };
                    &&& order == MovementOrder::Slide { direction, speed }
                    &&& after.motor.dash_slide_timer.remaining == longer(
                        fighter.motor.dash_slide_timer.remaining,
                        17,
                    )
                    &&& after.motor.impact_speed_limit_timer.remaining == longer(
                        fighter.motor.impact_speed_limit_timer.remaining,
                        5,
                    )
                    &&& !speed.is_nan() ==> speed.le(after.motor.impact_speed_limit)
                },
                None => order == MovementOrder::Drift && after.motor == fighter.motor,
            }
        }),
{
}

/// Gravity pulls in the air, where there is no floor, and above it; less so in a
/// takeoff.
pub proof fn gravity_pulls_off_the_floor(
    fighter: MovingFighter,
    snap_height: Option<Scalar>,
    height: Scalar,
    tuning: FighterTuning,
)
    requires
        fighter.stage == MovementStage::Placed,
    ensures
        ({
            let (after, order) = moved_on(
                fighter,
                MovementReport::Placed { snap_height, height },
                tuning,
            );
            let held = fighter.motor.grounded && snap_height.is_some()
                && !snap_height.unwrap().lt(height);
            &&& order == (MovementOrder::Travel {
                pulls: !held,
                takeoff: fighter.motor.jump_takeoff_timer.remaining > 0,
            })
            &&& after.motor == fighter.motor
        }),
{
}

/// A wall stops what goes into it: a velocity that is noticeable and points against a
/// noticeable correction.
pub open spec fn runs_into(velocity: Scalar, correction: Scalar) -> bool {
    let noticeable = |value: Scalar|
        {
            let magnitude = if value.bits >= 0x8000_0000 {
                value.bits - 0x8000_0000
            } else {
                value.bits as int
            };
            0x3a83_126f < magnitude <= 0x7f80_0000
        };
    &&& noticeable(velocity)
    &&& noticeable(correction)
    &&& (velocity.bits >= 0x8000_0000) != (correction.bits >= 0x8000_0000)
}

/// A stunned fighter with a bounce left is thrown back by a wall that it runs into,
/// and is then to be knocked down; anybody else is only stopped there.
pub proof fn walls_bounce_the_stunned(
    fighter: MovingFighter,
    report: MovementReport,
    tuning: FighterTuning,
)
    requires
        fighter.stage == MovementStage::Moved,
        report is Moved,
    ensures
        ({
            let (after, order) = moved_on(fighter, report, tuning);
            let x = runs_into(report->velocity_x, report->correction_x);
            let z = runs_into(report->velocity_z, report->correction_z);
            let bounces = fighter.action.action == FighterAction::Hitstun
                && fighter.motor.reaction_bounces > 0 && (x || z);
            &&& bounces ==> {
                &&& order == MovementOrder::Wall(WallEffect::Bounce { x, z })
                &&& after.motor.reaction_bounces == fighter.motor.reaction_bounces - 1
                &&& after.motor.knockdown_on_land
                &&& after.action.action == FighterAction::Hitstun
                &&& after.action.elapsed.ticks == 0
            }
            &&& !bounces ==> {
                &&& order == MovementOrder::Wall(WallEffect::Cancel { x, z })
                &&& after.motor == fighter.motor
                &&& after.action == fighter.action
            }
        }),
{
}

/// The floor at the end of a tick sees the fall with which the tick began.
pub proof fn landings_feel_the_whole_fall(
    fighter: MovingFighter,
    snap_height: Option<Scalar>,
    height: Scalar,
    velocity_y: Scalar,
    tuning: FighterTuning,
)
    requires
        fighter.stage == MovementStage::Floor,
    ensures
        ({
            let (after, order) = moved_on(
                fighter,
                MovementReport::Floor { snap_height, height, velocity_y },
                tuning,
            );
            let contact = FloorContact {
                snap_height,
                height,
                velocity_y,
                fall_velocity: fighter.fall_velocity,
                was_grounded: fighter.was_grounded,
            };
            &&& order == MovementOrder::Land(floor_effect(fighter.motor, contact))
            &&& after.motor == floored_motor(fighter.motor, contact, tuning)
            &&& after.action == floored_action(fighter.motor, fighter.action, contact)
            &&& after.stats == fighter.stats
            &&& after.stage == MovementStage::Done
        }),
{
}

/// A fighter may go as fast as its body lets it, or as fast as a dash jump carries it
/// in the air, or as an impact threw it, whichever is the most.
pub proof fn speed_limits_are_the_largest(motor: FighterMotor, grounded: bool, base: Scalar)
    requires
        !base.is_nan(),
        !motor.dash_jump_carry_speed_limit.is_nan(),
        !motor.impact_speed_limit.is_nan(),
    ensures
        ({
            let limit = speed_limit(motor, grounded, base);
            let carried = !grounded && motor.dash_jump_carry_timer.remaining > 0;
            let thrown = motor.impact_speed_limit_timer.remaining > 0;
            &&& base.le(limit)
            &&& carried ==> motor.dash_jump_carry_speed_limit.le(limit)
            &&& thrown ==> motor.impact_speed_limit.le(limit)
            &&& limit == base || (carried && limit == motor.dash_jump_carry_speed_limit) || (thrown
                && limit == motor.impact_speed_limit)
        }),
{
}

} // verus!

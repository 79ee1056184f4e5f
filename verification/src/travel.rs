//! One tick of a fighter's movement, as a conversation with the owner of its
//! vectors: the owner reports what it measured, and is told what to do next.

use vstd::prelude::*;

use crate::action::{FighterActionState, out_of_play};
use crate::fighter::{FighterMotor, FighterStats, FighterTuning};
use crate::movement::{
    BrakeChoice, FloorContact, FloorEffect, IceSlideEntry, WallEffect, begin_movement,
    choose_brake, extend_slide_on_ice, force_penguin_hard_ice_slide_velocity, gravity_applies,
    hit_wall, meet_floor, settle_dash_slide, should_cancel_axis_velocity, snaps_to_rest,
    turning_against_velocity, update_penguin_hard_ice_slide_state,
};
use crate::scalar::{NEUTRAL_LENGTH_SQUARED_BITS, Scalar, SimVec3};
use crate::ticks::{ElapsedTicks, TickTimer};

verus! {

/// How far a tick of movement has come; each stage waits for one report.
#[derive(Clone, Copy, Debug, PartialEq, Eq, Structural)]
pub enum MovementStage {
    Begin,
    Surface,
    Steering,
    Braking,
    Settled,
    Placed,
    Moved,
    Floor,
    Done,
}

impl MovementStage {
    /// The place of a stage in the tick.
    pub open spec fn rank(self) -> nat {
        match self {
            MovementStage::Begin => 0,
            MovementStage::Surface => 1,
            MovementStage::Steering => 2,
            MovementStage::Braking => 3,
            MovementStage::Settled => 4,
            MovementStage::Placed => 5,
            MovementStage::Moved => 6,
            MovementStage::Floor => 7,
            MovementStage::Done => 8,
        }
    }
}

/// A fighter during a tick of movement.
#[derive(Clone, Copy, Debug, PartialEq, Eq)]
pub struct MovingFighter {
    pub stats: FighterStats,
    pub motor: FighterMotor,
    pub action: FighterActionState,
    pub stage: MovementStage,
    /// Whether it stood on the ground when the tick began.
    pub was_grounded: bool,
    /// Its vertical velocity when the tick began.
    pub fall_velocity: Scalar,
}

/// What the owner measured.
#[derive(Clone, Copy, Debug, PartialEq, Eq, Structural)]
pub enum MovementReport {
    /// A tick begins. `frozen` while hitstop holds everybody.
    Begin { frozen: bool, velocity_y: Scalar },
    /// The ground below: whether it is hard ice, how a slide would begin there, and
    /// for how long ice keeps a slide going.
    Surface { on_hard_ice: bool, entry: IceSlideEntry, ice_slide_ticks: Option<u32> },
    /// The steered velocity, within the speed limit.
    Steered {
        input_length_squared: Scalar,
        planar_speed_squared: Scalar,
        alignment: Scalar,
        input_scale: Scalar,
    },
    /// The braked velocity.
    Braked {
        input_length_squared: Scalar,
        planar_speed_squared: Scalar,
        snap_speed_squared: Scalar,
    },
    /// The speed with which a slide would begin now.
    Settled { entry_speed: Scalar },
    /// Where the floor would hold the fighter, and where it is.
    Placed { snap_height: Option<Scalar>, height: Scalar },
    /// The velocity, and what walls corrected of the position.
    Moved { velocity_x: Scalar, velocity_z: Scalar, correction_x: Scalar, correction_z: Scalar },
    /// Where the floor holds the fighter after the move.
    Floor { snap_height: Option<Scalar>, height: Scalar, velocity_y: Scalar },
}

/// What the owner is to do next.
#[derive(Clone, Copy, Debug, PartialEq, Eq)]
pub enum MovementOrder {
    /// Nothing more in this tick.
    Rest,
    /// Look at the ground below.
    MeasureSurface,
    /// Accelerate along the input and keep to the speed limit. Without `steered`
    /// there is no input; `landing` weakens it, and `icy` ground changes how the
    /// body holds.
    Steer { steered: bool, landing: bool, icy: bool },
    /// Brake along the ground.
    Brake(BrakeChoice),
    /// Do not brake.
    Coast,
    /// The braking is over; where it `stops` the fighter rests along the ground.
    Settle { stops: bool },
    /// Slide in this direction with this speed.
    Slide { direction: SimVec3, speed: Scalar },
    /// Keep the velocity.
    Drift,
    /// Move for the tick, under gravity where it `pulls`; it pulls less in a
    /// `takeoff`.
    Travel { pulls: bool, takeoff: bool },
    /// Carry out what walls do.
    Wall(WallEffect),
    /// Carry out what the floor does.
    Land(FloorEffect),
}

impl MovingFighter {
    /// A fighter before its tick of movement.
    pub fn new(stats: FighterStats, motor: FighterMotor, action: FighterActionState) -> (fighter:
        MovingFighter)
        ensures
            fighter.stats == stats,
            fighter.motor == motor,
            fighter.action == action,
            fighter.stage == MovementStage::Begin,
    {
        MovingFighter {
            stats,
            motor,
            action,
            stage: MovementStage::Begin,
            was_grounded: motor.grounded,
            fall_velocity: Scalar::zero(),
        }
    }

    pub open spec fn at(self, stage: MovementStage) -> MovingFighter {
        MovingFighter { stage, ..self }
    }

    pub open spec fn with_motor(self, motor: FighterMotor) -> MovingFighter {
        MovingFighter { motor, ..self }
    }
}

/// A tick begins: timers run, and who is frozen or out of the arena rests.
pub open spec fn begun(
    fighter: MovingFighter,
    frozen: bool,
    velocity_y: Scalar,
    tuning: FighterTuning,
) -> (MovingFighter, MovementOrder) {
    if frozen {
        (fighter.at(MovementStage::Done), MovementOrder::Rest)
    } else {
        let started = MovingFighter {
            stats: FighterStats {
                item_speed_timer: fighter.stats.item_speed_timer.ticked(),
                item_giant_timer: fighter.stats.item_giant_timer.ticked(),
                ..fighter.stats
            },
            motor: crate::movement::movement_begun(fighter.motor, fighter.action.action, tuning),
            was_grounded: fighter.motor.grounded,
            fall_velocity: velocity_y,
            ..fighter
        };
        if out_of_play(fighter.action.action) {
            (started.at(MovementStage::Done), MovementOrder::Rest)
        } else {
            (started.at(MovementStage::Surface), MovementOrder::MeasureSurface)
        }
    }
}

/// The ground below sets a slide going, keeps it or ends it.
pub open spec fn surfaced(
    fighter: MovingFighter,
    on_hard_ice: bool,
    entry: IceSlideEntry,
    ice_slide_ticks: Option<u32>,
) -> (MovingFighter, MovementOrder) {
    let slid = crate::movement::ice_slid(fighter.motor, fighter.action.action, on_hard_ice, entry);
    let icy = slid.grounded && ice_slide_ticks.is_some();
    let motor = if icy {
        FighterMotor {
            dash_slide_timer: slid.dash_slide_timer.spec_max(
                TickTimer { remaining: ice_slide_ticks.unwrap() },
            ),
            ..slid
        }
    } else {
        slid
    };
    (
        fighter.with_motor(motor).at(MovementStage::Steering),
        MovementOrder::Steer {
            steered: motor.penguin_ice_slide_direction.is_none(),
            landing: motor.grounded && motor.landing_stick_timer.active(),
            icy,
        },
    )
}

/// The steered velocity is braked, or not.
pub open spec fn steered(
    fighter: MovingFighter,
    input_length_squared: Scalar,
    planar_speed_squared: Scalar,
    alignment: Scalar,
    input_scale: Scalar,
) -> (MovingFighter, MovementOrder) {
    let turning = turning_against_velocity(input_length_squared, planar_speed_squared, alignment);
    match crate::movement::brake_for(fighter.motor, input_length_squared, input_scale, turning) {
        Some(brake) => (fighter.at(MovementStage::Braking), MovementOrder::Brake(brake)),
        None => (fighter.at(MovementStage::Settled), MovementOrder::Coast),
    }
}

/// A body without input that is slower than its snap speed.
pub open spec fn rests(
    input_length_squared: Scalar,
    planar_speed_squared: Scalar,
    snap_speed_squared: Scalar,
) -> bool {
    input_length_squared.le(Scalar { bits: NEUTRAL_LENGTH_SQUARED_BITS })
        && planar_speed_squared.le(snap_speed_squared)
}

/// The braked fighter comes to rest, its slide ends, or neither.
pub open spec fn braked(
    fighter: MovingFighter,
    input_length_squared: Scalar,
    planar_speed_squared: Scalar,
    snap_speed_squared: Scalar,
    tuning: FighterTuning,
) -> (MovingFighter, MovementOrder) {
    let snaps = rests(input_length_squared, planar_speed_squared, snap_speed_squared);
    let speed = if snaps {
        Scalar::zero()
    } else {
        planar_speed_squared
    };
    let spent = crate::movement::slide_spent(fighter.motor, speed, tuning);
    let motor = if spent {
        FighterMotor { dash_slide_timer: TickTimer::zero(), ..fighter.motor }
    } else {
        fighter.motor
    };
    (
        fighter.with_motor(motor).at(MovementStage::Settled),
        MovementOrder::Settle { stops: snaps || spent },
    )
}

/// A slide on hard ice sets the velocity.
pub open spec fn settled(
    fighter: MovingFighter,
    entry_speed: Scalar,
) -> (MovingFighter, MovementOrder) {
    match fighter.motor.penguin_ice_slide_direction {
        Some(direction) => {
            let speed = if Scalar::zero().lt(fighter.motor.penguin_ice_slide_speed) {
                fighter.motor.penguin_ice_slide_speed
            } else {
                entry_speed
            };
            (
                fighter.with_motor(crate::movement::ice_speed_forced(fighter.motor, speed)).at(
                    MovementStage::Placed,
                ),
                MovementOrder::Slide { direction, speed },
            )
        },
        None => (fighter.at(MovementStage::Placed), MovementOrder::Drift),
    }
}

/// Gravity pulls in the air, where there is no floor, and above it.
pub open spec fn placed(
    fighter: MovingFighter,
    snap_height: Option<Scalar>,
    height: Scalar,
) -> (MovingFighter, MovementOrder) {
    (
        fighter.at(MovementStage::Moved),
        MovementOrder::Travel {
            pulls: !fighter.motor.grounded || match snap_height {
                Some(snap) => snap.lt(height),
                None => true,
            },
            takeoff: fighter.motor.jump_takeoff_timer.active(),
        },
    )
}

/// Walls stop the fighter or throw it back.
pub open spec fn walled(
    fighter: MovingFighter,
    velocity_x: Scalar,
    velocity_z: Scalar,
    correction_x: Scalar,
    correction_z: Scalar,
) -> (MovingFighter, MovementOrder) {
    let x = should_cancel_axis_velocity(velocity_x, correction_x);
    let z = should_cancel_axis_velocity(velocity_z, correction_z);
    if crate::movement::wall_bounces(fighter.motor, fighter.action.action, x, z) {
        (
            MovingFighter {
                motor: FighterMotor {
                    reaction_bounces: (fighter.motor.reaction_bounces - 1) as u8,
                    knockdown_on_land: true,
                    ..fighter.motor
                },
                action: FighterActionState { elapsed: ElapsedTicks::zero(), ..fighter.action },
                stage: MovementStage::Floor,
                ..fighter
            },
            MovementOrder::Wall(WallEffect::Bounce { x, z }),
        )
    } else {
        (fighter.at(MovementStage::Floor), MovementOrder::Wall(WallEffect::Cancel { x, z }))
    }
}

/// The floor holds the fighter, or does not.
pub open spec fn floored(
    fighter: MovingFighter,
    snap_height: Option<Scalar>,
    height: Scalar,
    velocity_y: Scalar,
    tuning: FighterTuning,
) -> (MovingFighter, MovementOrder) {
    let contact = FloorContact {
        snap_height,
        height,
        velocity_y,
        fall_velocity: fighter.fall_velocity,
        was_grounded: fighter.was_grounded,
    };
    (
        MovingFighter {
            motor: crate::movement::floored_motor(fighter.motor, contact, tuning),
            action: crate::movement::floored_action(fighter.motor, fighter.action, contact),
            stage: MovementStage::Done,
            ..fighter
        },
        MovementOrder::Land(crate::movement::floor_effect(fighter.motor, contact)),
    )
}

/// A fighter after a report, and what is to be done next. A report that is not
/// waited for changes nothing.
pub open spec fn moved_on(
    fighter: MovingFighter,
    report: MovementReport,
    tuning: FighterTuning,
) -> (MovingFighter, MovementOrder) {
    match (fighter.stage, report) {
        (MovementStage::Begin, MovementReport::Begin { frozen, velocity_y }) => begun(
            fighter,
            frozen,
            velocity_y,
            tuning,
        ),
        (
            MovementStage::Surface,
            MovementReport::Surface { on_hard_ice, entry, ice_slide_ticks },
        ) => surfaced(fighter, on_hard_ice, entry, ice_slide_ticks),
        (
            MovementStage::Steering,
            MovementReport::Steered {
                input_length_squared,
                planar_speed_squared,
                alignment,
                input_scale,
            },
        ) => steered(fighter, input_length_squared, planar_speed_squared, alignment, input_scale),
        (
            MovementStage::Braking,
            MovementReport::Braked {
                input_length_squared,
                planar_speed_squared,
                snap_speed_squared,
            },
        ) => braked(
            fighter,
            input_length_squared,
            planar_speed_squared,
            snap_speed_squared,
            tuning,
        ),
        (MovementStage::Settled, MovementReport::Settled { entry_speed }) => settled(
            fighter,
            entry_speed,
        ),
        (MovementStage::Placed, MovementReport::Placed { snap_height, height }) => placed(
            fighter,
            snap_height,
            height,
        ),
        (
            MovementStage::Moved,
            MovementReport::Moved { velocity_x, velocity_z, correction_x, correction_z },
        ) => walled(fighter, velocity_x, velocity_z, correction_x, correction_z),
        (
            MovementStage::Floor,
            MovementReport::Floor { snap_height, height, velocity_y },
        ) => floored(fighter, snap_height, height, velocity_y, tuning),
        _ => (fighter, MovementOrder::Rest),
    }
}

fn begin(
    fighter: &mut MovingFighter,
    frozen: bool,
    velocity_y: Scalar,
    tuning: &FighterTuning,
) -> (order: MovementOrder)
    ensures
        (*final(fighter), order) == begun(*old(fighter), frozen, velocity_y, *tuning),
{
    if frozen {
        fighter.stage = MovementStage::Done;
        return MovementOrder::Rest;
    }
    fighter.was_grounded = fighter.motor.grounded;
    fighter.fall_velocity = velocity_y;
    let action = fighter.action.action;
    if begin_movement(&mut fighter.stats, &mut fighter.motor, action, tuning) {
        fighter.stage = MovementStage::Surface;
        MovementOrder::MeasureSurface
    } else {
        fighter.stage = MovementStage::Done;
        MovementOrder::Rest
    }
}

fn meet_surface(
    fighter: &mut MovingFighter,
    on_hard_ice: bool,
    entry: IceSlideEntry,
    ice_slide_ticks: Option<u32>,
) -> (order: MovementOrder)
    ensures
        (*final(fighter), order) == surfaced(*old(fighter), on_hard_ice, entry, ice_slide_ticks),
{
    let action = fighter.action.action;
    let direction = update_penguin_hard_ice_slide_state(
        &mut fighter.motor,
        action,
        on_hard_ice,
        entry,
    );
    let icy = match ice_slide_ticks {
        Some(ticks) => {
            extend_slide_on_ice(&mut fighter.motor, ticks);
            fighter.motor.grounded
        },
        None => false,
    };
    fighter.stage = MovementStage::Steering;
    MovementOrder::Steer {
        steered: direction.is_none(),
        landing: fighter.motor.grounded && fighter.motor.landing_stick_timer.active(),
        icy,
    }
}

fn finish_braking(
    fighter: &mut MovingFighter,
    input_length_squared: Scalar,
    planar_speed_squared: Scalar,
    snap_speed_squared: Scalar,
    tuning: &FighterTuning,
) -> (order: MovementOrder)
    ensures
        (*final(fighter), order) == braked(
            *old(fighter),
            input_length_squared,
            planar_speed_squared,
            snap_speed_squared,
            *tuning,
        ),
{
    let snaps = snaps_to_rest(input_length_squared, planar_speed_squared, snap_speed_squared);
    let speed = if snaps {
        Scalar::zero()
    } else {
        planar_speed_squared
    };
    let spent = settle_dash_slide(&mut fighter.motor, speed, tuning);
    fighter.stage = MovementStage::Settled;
    MovementOrder::Settle { stops: snaps || spent }
}

fn force_slide(fighter: &mut MovingFighter, entry_speed: Scalar) -> (order: MovementOrder)
    ensures
        (*final(fighter), order) == settled(*old(fighter), entry_speed),
{
    fighter.stage = MovementStage::Placed;
    match fighter.motor.penguin_ice_slide_direction {
        Some(direction) => {
            let speed = force_penguin_hard_ice_slide_velocity(&mut fighter.motor, entry_speed);
            MovementOrder::Slide { direction, speed }
        },
        None => MovementOrder::Drift,
    }
}

/// Takes the owner's report and tells it what to do next.
pub fn apply_fighter_movement(
    fighter: &mut MovingFighter,
    report: MovementReport,
    tuning: &FighterTuning,
) -> (order: MovementOrder)
    ensures
        (*final(fighter), order) == moved_on(*old(fighter), report, *tuning),
{
    match (fighter.stage, report) {
        (MovementStage::Begin, MovementReport::Begin { frozen, velocity_y }) => begin(
            fighter,
            frozen,
            velocity_y,
            tuning,
        ),
        (
            MovementStage::Surface,
            MovementReport::Surface { on_hard_ice, entry, ice_slide_ticks },
        ) => meet_surface(fighter, on_hard_ice, entry, ice_slide_ticks),
        (
            MovementStage::Steering,
            MovementReport::Steered {
                input_length_squared,
                planar_speed_squared,
                alignment,
                input_scale,
            },
        ) => {
            let turning = turning_against_velocity(
                input_length_squared,
                planar_speed_squared,
                alignment,
            );
            match choose_brake(&fighter.motor, input_length_squared, input_scale, turning) {
                Some(brake) => {
                    fighter.stage = MovementStage::Braking;
                    MovementOrder::Brake(brake)
                },
                None => {
                    fighter.stage = MovementStage::Settled;
                    MovementOrder::Coast
                },
            }
        },
        (
            MovementStage::Braking,
            MovementReport::Braked {
                input_length_squared,
                planar_speed_squared,
                snap_speed_squared,
            },
        ) => finish_braking(
            fighter,
            input_length_squared,
            planar_speed_squared,
            snap_speed_squared,
            tuning,
        ),
        (MovementStage::Settled, MovementReport::Settled { entry_speed }) => force_slide(
            fighter,
            entry_speed,
        ),
        (MovementStage::Placed, MovementReport::Placed { snap_height, height }) => {
            fighter.stage = MovementStage::Moved;
            MovementOrder::Travel {
                pulls: gravity_applies(fighter.motor.grounded, snap_height, height),
                takeoff: fighter.motor.jump_takeoff_timer.active(),
            }
        },
        (
            MovementStage::Moved,
            MovementReport::Moved { velocity_x, velocity_z, correction_x, correction_z },
        ) => {
            fighter.stage = MovementStage::Floor;
            MovementOrder::Wall(
                hit_wall(
                    &mut fighter.motor,
                    &mut fighter.action,
                    velocity_x,
                    velocity_z,
                    correction_x,
                    correction_z,
                ),
            )
        },
        (
            MovementStage::Floor,
            MovementReport::Floor { snap_height, height, velocity_y },
        ) => {
            let contact = FloorContact {
                snap_height,
                height,
                velocity_y,
                fall_velocity: fighter.fall_velocity,
                was_grounded: fighter.was_grounded,
            };
            fighter.stage = MovementStage::Done;
            MovementOrder::Land(
                meet_floor(&mut fighter.motor, &mut fighter.action, contact, tuning),
            )
        },
        _ => MovementOrder::Rest,
    }
}

/// The fighter after a run of reports.
pub open spec fn after_reports(
    fighter: MovingFighter,
    reports: Seq<MovementReport>,
    tuning: FighterTuning,
) -> MovingFighter
    decreases reports.len(),
{
    if reports.len() == 0 {
        fighter
    } else {
        moved_on(
            after_reports(fighter, reports.drop_last(), tuning),
            reports.last(),
            tuning,
        ).0
    }
}

/// A tick of movement only goes forward: a report brings it to a later stage, or
/// changes nothing at all. Stages cannot be repeated, so a tick ends.
pub proof fn movement_only_goes_forward(
    fighter: MovingFighter,
    report: MovementReport,
    tuning: FighterTuning,
)
    ensures
        ({
            let (after, order) = moved_on(fighter, report, tuning);
            ||| after.stage.rank() > fighter.stage.rank()
            ||| after == fighter && order == MovementOrder::Rest
        }),
{
}

/// Hitstop freezes a fighter: whatever is reported after it, nothing of the
/// fighter changes in that tick.
pub proof fn frozen_fighters_do_not_move(
    fighter: MovingFighter,
    velocity_y: Scalar,
    reports: Seq<MovementReport>,
    tuning: FighterTuning,
)
    requires
        fighter.stage == MovementStage::Begin,
        reports.len() > 0,
        reports[0] == (MovementReport::Begin { frozen: true, velocity_y }),
    ensures
        after_reports(fighter, reports, tuning) == fighter.at(MovementStage::Done),
    decreases reports.len(),
{
    if reports.len() == 1 {
        assert(after_reports(fighter, reports.drop_last(), tuning) == fighter);
    } else {
        assert(reports.drop_last()[0] == reports[0]);
        frozen_fighters_do_not_move(fighter, velocity_y, reports.drop_last(), tuning);
    }
}

/// On hard ice the input does not steer, and the velocity is set by the slide that
/// the surface began or kept, at a speed that braking cannot change.
pub proof fn hard_ice_sets_the_velocity(
    fighter: MovingFighter,
    entry: IceSlideEntry,
    ice_slide_ticks: Option<u32>,
    steering: MovementReport,
    braking: MovementReport,
    entry_speed: Scalar,
    tuning: FighterTuning,
)
    requires
        fighter.stage == MovementStage::Surface,
        !crate::movement::spec_penguin_ice_slide_cleared_by_action(fighter.action.action),
        fighter.motor.penguin_ice_slide_direction.is_none(),
        Scalar::zero().lt(entry.speed),
        steering is Steered,
        braking is Braked,
    ensures
        ({
            let (on_ice, first) = moved_on(
                fighter,
                MovementReport::Surface { on_hard_ice: true, entry, ice_slide_ticks },
                tuning,
            );
            let (steered, second) = moved_on(on_ice, steering, tuning);
            let settled = moved_on(steered, braking, tuning).0;
            &&& first matches MovementOrder::Steer { steered, .. } && !steered
            &&& moved_on(settled, MovementReport::Settled { entry_speed }, tuning).1
                == (MovementOrder::Slide { direction: entry.direction, speed: entry.speed })
        }),
{
}

} // verus!

//! Losing a life, coming back, and the statuses that end with a life.

use vstd::prelude::*;

use crate::action::{FighterAction, FighterActionState, out_of_play};
use crate::feedback::MatchTelemetry;
use crate::fighter::{FighterMotor, FighterStats, FighterTuning};
use crate::ids::{FighterId, FIGHTER_COUNT};
use crate::input::{FighterInput, invert_directional_input};
use crate::journal::{FighterPresentationIntentJournal, FighterPresentationIntentMetrics};
use crate::match_state::{
    LifeLoss, LifeLossBatch, LifeLossBatchResolution, LifeLossCause, MatchModel, MatchPhase,
    MatchState, RingoutResolution, batch_resolutions, batch_victims,
};
use crate::pending::{
    PendingFighterPresentationEvent, PendingFighterPresentationIntent,
    emit_fighter_presentation_intent, events_after_pending, intents_after_pending,
    metrics_after_pending,
};
use crate::presentation::{
    FighterLifeLossAnnouncement, FighterPresentationIntent, FighterPresentationKind,
};
use crate::scalar::{Scalar, SimVec3};
use crate::sim_event::{
    FighterLifecycleEvent, MatchLifecycleEvent, SimEvent, SimEventKind, SimEventSource,
    TickEventBuffer, events_after_emit,
};
use crate::ticks::{ElapsedTicks, SimTick, TickTimer, milliseconds_to_ticks_ceil,
    ticks_covering_millis};
use crate::ultimate::FighterUltimateState;

verus! {

/// How long a fighter stands at its spawn before it may act, in milliseconds.
pub const RESPAWN_STAND_MS: u32 = 450;

/// Reversed controls for a while.
#[derive(Clone, Copy, Debug, PartialEq, Eq, Structural)]
pub struct DrunkStatus {
    pub remaining: TickTimer,
}

impl DrunkStatus {
    pub open spec fn spec_sober() -> DrunkStatus {
        DrunkStatus { remaining: TickTimer::zero() }
    }

    #[verifier::when_used_as_spec(spec_sober)]
    pub fn sober() -> (status: DrunkStatus)
        ensures
            status == Self::spec_sober(),
    {
        DrunkStatus { remaining: TickTimer::zero() }
    }

    pub open spec fn spec_active(&self) -> bool {
        self.remaining.active()
    }

    #[verifier::when_used_as_spec(spec_active)]
    pub fn active(&self) -> (active: bool)
        ensures
            active == self.spec_active(),
    {
        self.remaining.active()
    }

    /// A new contact starts the full time over; it neither stacks nor cuts a
    /// longer time short.
    pub fn refresh(&mut self, duration: u32)
        ensures
            final(self).remaining == old(self).remaining.spec_max(
                TickTimer { remaining: duration },
            ),
    {
        self.remaining.set_max(TickTimer::from_ticks(duration));
    }
}

/// Everything that a life's end and a return touch.
#[derive(Clone, Copy, Debug, PartialEq, Eq)]
pub struct LifecycleFighter {
    pub name: &'static str,
    pub stats: FighterStats,
    pub motor: FighterMotor,
    pub action: FighterActionState,
    pub ultimate: FighterUltimateState,
    pub drunk: DrunkStatus,
    pub position: SimVec3,
    pub spawn: SimVec3,
    /// The squared distance from the middle of the arena along the ground.
    pub planar_distance_squared: Scalar,
    /// The velocity is to be zero.
    pub halted: bool,
}

/// How far a fighter may go before it is out.
#[derive(Clone, Copy, Debug, PartialEq, Eq, Structural)]
pub struct ArenaBounds {
    pub ringout_y: Scalar,
    pub ringout_radius_squared: Scalar,
}

/// Below the floor of the arena, or beyond its radius.
pub open spec fn spec_is_ringout_position(
    height: Scalar,
    planar_distance_squared: Scalar,
    bounds: ArenaBounds,
) -> bool {
    height.lt(bounds.ringout_y) || bounds.ringout_radius_squared.lt(planar_distance_squared)
}

#[verifier::when_used_as_spec(spec_is_ringout_position)]
pub fn is_ringout_position(
    height: Scalar,
    planar_distance_squared: Scalar,
    bounds: ArenaBounds,
) -> (out: bool)
    ensures
        out == spec_is_ringout_position(height, planar_distance_squared, bounds),
{
    height.lt(bounds.ringout_y) || bounds.ringout_radius_squared.lt(planar_distance_squared)
}

/// A knockout waits for a hit reaction to play out: in the air, before a hard
/// landing, a knockdown or a bounce.
pub open spec fn spec_should_defer_knockout_resolution(
    motor: &FighterMotor,
    action: &FighterActionState,
) -> bool {
    &&& action.action == FighterAction::Hitstun
    &&& !motor.grounded || motor.landing_aftermath.is_some() || motor.knockdown_on_land
        || motor.reaction_bounces > 0
}

#[verifier::when_used_as_spec(spec_should_defer_knockout_resolution)]
pub fn should_defer_knockout_resolution(
    motor: &FighterMotor,
    action: &FighterActionState,
) -> (deferred: bool)
    ensures
        deferred == spec_should_defer_knockout_resolution(motor, action),
{
    action.action == FighterAction::Hitstun && (!motor.grounded
        || motor.landing_aftermath.is_some() || motor.knockdown_on_land || motor.reaction_bounces
        > 0)
}

/// The life that a fighter loses in this tick. A fighter that is out loses it at
/// once, one without health once its hit reaction is over.
pub open spec fn life_lost(fighter: LifecycleFighter, bounds: ArenaBounds) -> Option<LifeLoss> {
    let out = is_ringout_position(fighter.position.y, fighter.planar_distance_squared, bounds);
    let knocked_out = fighter.stats.depleted() && !should_defer_knockout_resolution(
        &fighter.motor,
        &fighter.action,
    );
    if (out || knocked_out) && !out_of_play(fighter.action.action) {
        Some(
            LifeLoss {
                attacker: fighter.stats.last_attacker,
                cause: if out {
                    LifeLossCause::RingOut
                } else {
                    LifeLossCause::Knockout
                },
            },
        )
    } else {
        None
    }
}

/// The lives lost in this tick, by seat. Who is out of the match loses nothing.
pub open spec fn lives_lost(
    state: MatchModel,
    fighters: Seq<Option<LifecycleFighter>>,
    bounds: ArenaBounds,
) -> Seq<Option<LifeLoss>> {
    Seq::new(
        FIGHTER_COUNT as nat,
        |i: int|
            match fighters[i] {
                Some(fighter) => if state.eliminated(i) {
                    None
                } else {
                    life_lost(fighter, bounds)
                },
                None => None,
            },
    )
}

/// One for a resolution that credits the seat.
pub open spec fn credit(resolution: Option<RingoutResolution>, seat: int) -> int {
    match resolution {
        Some(resolution) => if resolution.awarded_to == Some(seat as usize) {
            1
        } else {
            0
        },
        None => 0,
    }
}

/// How many lost lives a seat is credited with.
pub open spec fn credits(resolutions: Seq<Option<RingoutResolution>>, seat: int) -> int {
    credit(resolutions[0], seat) + credit(resolutions[1], seat) + credit(resolutions[2], seat)
        + credit(resolutions[3], seat)
}

/// A score raised by `amount`, stopping at its maximum.
pub open spec fn raised_score(score: i32, amount: int) -> i32 {
    if score + amount > i32::MAX {
        i32::MAX
    } else {
        (score + amount) as i32
    }
}

/// Without anything that a body carries along from an action.
pub open spec fn body_reset(motor: FighterMotor) -> FighterMotor {
    FighterMotor {
        knockdown_on_land: false,
        landing_aftermath: None,
        reaction_bounces: 0,
        pig_air_meat_slam_air_hits: 0,
        air_attack_used: false,
        jump_attack_landing_recovery: false,
        landing_stick_timer: TickTimer::zero(),
        jump_takeoff_timer: TickTimer::zero(),
        dash_slide_timer: TickTimer::zero(),
        impact_speed_limit_timer: TickTimer::zero(),
        impact_speed_limit: Scalar::zero(),
        guard_active_timer: ElapsedTicks::zero(),
        guard_cooldown_timer: TickTimer::zero(),
        guard_start_buffer_timer: TickTimer::zero(),
        guard_was_requested: false,
        ..motor.without_bee_dash().without_dash_carry()
    }
}

/// A fighter that has just lost a life.
pub open spec fn fallen(
    fighter: LifecycleFighter,
    eliminated: bool,
    tuning: FighterTuning,
) -> LifecycleFighter {
    LifecycleFighter {
        action: fighter.action.forced(FighterAction::RingOut).without_reaction(),
        drunk: DrunkStatus::sober(),
        stats: FighterStats {
            respawn_timer: if eliminated {
                TickTimer::zero()
            } else {
                TickTimer { remaining: tuning.respawn_delay }
            },
            health_refill_timer: TickTimer::zero(),
            ..fighter.stats
        },
        motor: body_reset(fighter.motor),
        ultimate: FighterUltimateState { target: None, owner: None },
        halted: true,
        ..fighter
    }
}

/// A fighter after the tick's losses: credited for those it caused, fallen where
/// it lost a life itself.
pub open spec fn settled(
    fighter: LifecycleFighter,
    credits: int,
    resolution: Option<RingoutResolution>,
    tuning: FighterTuning,
) -> LifecycleFighter {
    let scored = LifecycleFighter {
        stats: FighterStats {
            score: raised_score(fighter.stats.score, credits),
            ..fighter.stats
        },
        ..fighter
    };
    match resolution {
        Some(resolution) => fallen(scored, resolution.eliminated, tuning),
        None => scored,
    }
}

/// All fighters after the tick's losses.
pub open spec fn all_settled(
    fighters: Seq<Option<LifecycleFighter>>,
    resolutions: Seq<Option<RingoutResolution>>,
    tuning: FighterTuning,
) -> Seq<Option<LifecycleFighter>> {
    Seq::new(
        FIGHTER_COUNT as nat,
        |i: int|
            match fighters[i] {
                Some(fighter) => Some(
                    settled(fighter, credits(resolutions, i), resolutions[i], tuning),
                ),
                None => None,
            },
    )
}

/// How a lost life is announced.
pub open spec fn announcement_for(resolution: RingoutResolution) -> FighterLifeLossAnnouncement {
    if resolution.match_finished {
        FighterLifeLossAnnouncement::MatchDecided
    } else if resolution.eliminated {
        FighterLifeLossAnnouncement::Eliminated
    } else {
        match resolution.remaining_stock {
            Some(stock) => FighterLifeLossAnnouncement::StockRemaining(stock),
            None => FighterLifeLossAnnouncement::LifeLost,
        }
    }
}

/// Something to be emitted: a bare event, or one with a render-side payload.
#[derive(Clone, Copy, Debug, PartialEq, Eq)]
pub enum LifecycleEmission {
    Bare { source: SimEventSource, kind: SimEventKind },
    Presented(PendingFighterPresentationIntent),
}

/// Remaining lives as they are told in events; what does not fit is told as the
/// largest number.
pub open spec fn told_stock(stock: i32) -> u8 {
    if 0 <= stock <= 255 {
        stock as u8
    } else {
        255
    }
}

/// What is emitted for one lost life: the remaining lives, where they are
/// counted, and the loss itself.
pub open spec fn loss_emissions(
    fighter: FighterId,
    name: &'static str,
    position: SimVec3,
    loss: LifeLoss,
    resolution: RingoutResolution,
) -> Seq<LifecycleEmission> {
    let ring_out = loss.cause == LifeLossCause::RingOut;
    let stock = match resolution.remaining_stock {
        Some(stock) => seq![
            LifecycleEmission::Bare {
                source: SimEventSource::Fighter(fighter),
                kind: SimEventKind::StockLost { fighter, stocks_remaining: told_stock(stock) },
            },
        ],
        None => seq![],
    };
    stock.push(
        LifecycleEmission::Presented(
            PendingFighterPresentationIntent {
                fighter,
                fighter_name: name,
                event: PendingFighterPresentationEvent::Lifecycle(
                    if ring_out {
                        FighterLifecycleEvent::RingOut
                    } else {
                        FighterLifecycleEvent::Knockout
                    },
                ),
                kind: FighterPresentationKind::LifeLost {
                    position,
                    ring_out,
                    announcement: announcement_for(resolution),
                },
            },
        ),
    )
}

/// What is emitted for a seat's lost life, if it lost one.
pub open spec fn seat_loss_emissions(
    fighters: Seq<Option<LifecycleFighter>>,
    losses: Seq<Option<LifeLoss>>,
    resolutions: Seq<Option<RingoutResolution>>,
    fighter: FighterId,
) -> Seq<LifecycleEmission> {
    let i = fighter.spec_index() as int;
    match (fighters[i], losses[i], resolutions[i]) {
        (Some(body), Some(loss), Some(resolution)) => loss_emissions(
            fighter,
            body.name,
            body.position,
            loss,
            resolution,
        ),
        _ => seq![],
    }
}

/// The counters after one seat's lost life: only ring-outs are counted.
pub open spec fn telemetry_after_loss(
    telemetry: MatchTelemetry,
    loss: Option<LifeLoss>,
    resolution: Option<RingoutResolution>,
) -> MatchTelemetry {
    match (loss, resolution) {
        (Some(loss), Some(resolution)) => if loss.cause == LifeLossCause::RingOut {
            telemetry.after_ringout(resolution.awarded_to.is_some())
        } else {
            telemetry
        },
        _ => telemetry,
    }
}

/// The counters after all lost lives.
pub open spec fn telemetry_after_losses(
    telemetry: MatchTelemetry,
    losses: Seq<Option<LifeLoss>>,
    resolutions: Seq<Option<RingoutResolution>>,
) -> MatchTelemetry {
    let zero = telemetry_after_loss(telemetry, losses[0], resolutions[0]);
    let one = telemetry_after_loss(zero, losses[1], resolutions[1]);
    let two = telemetry_after_loss(one, losses[2], resolutions[2]);
    telemetry_after_loss(two, losses[3], resolutions[3])
}

/// A fighter at its spawn, as good as new, with its score.
pub open spec fn returned(fighter: LifecycleFighter, tuning: FighterTuning) -> LifecycleFighter {
    LifecycleFighter {
        position: fighter.spawn,
        stats: FighterStats {
            health: tuning.max_health,
            stamina: tuning.max_stamina,
            health_refill_timer: TickTimer::zero(),
            item_speed_timer: TickTimer::zero(),
            item_giant_timer: TickTimer::zero(),
            last_attacker: None,
            invulnerability: TickTimer { remaining: tuning.respawn_invulnerable },
            respawn_timer: TickTimer::zero(),
            ..fighter.stats.without_carry()
        },
        motor: FighterMotor {
            grounded: true,
            ledge_grace_timer: TickTimer::zero(),
            ..body_reset(fighter.motor)
        },
        ultimate: FighterUltimateState { target: None, owner: None },
        action: FighterActionState {
            action: FighterAction::Respawning,
            elapsed: ElapsedTicks::zero(),
            ..fighter.action.unqueued().without_reaction()
        },
        halted: true,
        ..fighter
    }
}

/// A fallen or returning fighter one tick later.
pub open spec fn recovered(fighter: LifecycleFighter, tuning: FighterTuning) -> LifecycleFighter {
    match fighter.action.action {
        FighterAction::RingOut => {
            let waiting = LifecycleFighter {
                drunk: DrunkStatus::sober(),
                stats: FighterStats {
                    respawn_timer: fighter.stats.respawn_timer.ticked(),
                    ..fighter.stats
                },
                ..fighter
            };
            if waiting.stats.respawn_timer.active() {
                waiting
            } else {
                returned(waiting, tuning)
            }
        },
        FighterAction::Respawning => {
            let standing = fighter.action.aged();
            if standing.elapsed.reached(ticks_covering_millis(RESPAWN_STAND_MS as int) as u32) {
                LifecycleFighter {
                    action: FighterActionState {
                        action: FighterAction::Idle,
                        elapsed: ElapsedTicks::zero(),
                        ..standing.unqueued().without_reaction()
                    },
                    ..fighter
                }
            } else {
                LifecycleFighter { action: standing, ..fighter }
            }
        },
        _ => fighter,
    }
}

/// A fighter comes back in this tick.
pub open spec fn returns_now(fighter: LifecycleFighter) -> bool {
    fighter.action.action == FighterAction::RingOut
        && !fighter.stats.respawn_timer.ticked().active()
}

/// What is emitted when a seat's fighter comes back.
pub open spec fn return_emissions(
    state: MatchModel,
    fighters: Seq<Option<LifecycleFighter>>,
    fighter: FighterId,
) -> Seq<LifecycleEmission> {
    let i = fighter.spec_index() as int;
    match fighters[i] {
        Some(body) => if !state.eliminated(i) && returns_now(body) {
            seq![
                LifecycleEmission::Presented(
                    PendingFighterPresentationIntent {
                        fighter,
                        fighter_name: body.name,
                        event: PendingFighterPresentationEvent::Respawned,
                        kind: FighterPresentationKind::Respawned { position: body.spawn },
                    },
                ),
            ]
        } else {
            seq![]
        },
        None => seq![],
    }
}

/// All fighters after the tick's returns.
pub open spec fn all_recovered(
    state: MatchModel,
    fighters: Seq<Option<LifecycleFighter>>,
    tuning: FighterTuning,
) -> Seq<Option<LifecycleFighter>> {
    Seq::new(
        FIGHTER_COUNT as nat,
        |i: int|
            match fighters[i] {
                Some(fighter) => if state.eliminated(i) {
                    Some(fighter)
                } else {
                    Some(recovered(fighter, tuning))
                },
                None => None,
            },
    )
}

/// The results are in.
pub open spec fn result_emissions(finalized: bool) -> Seq<LifecycleEmission> {
    if finalized {
        seq![
            LifecycleEmission::Bare {
                source: SimEventSource::Match,
                kind: SimEventKind::MatchLifecycle { event: MatchLifecycleEvent::Results },
            },
        ]
    } else {
        seq![]
    }
}

/// One tick of falling and coming back.
pub struct LifecycleTick {
    pub state: MatchModel,
    pub fighters: Seq<Option<LifecycleFighter>>,
    pub telemetry: MatchTelemetry,
    pub emissions: Seq<LifecycleEmission>,
}

/// Lives are lost all at once, then the results come in, then fighters return.
/// Everything is told in fighter order.
pub open spec fn lifecycle_tick(
    state: MatchModel,
    fighters: Seq<Option<LifecycleFighter>>,
    telemetry: MatchTelemetry,
    bounds: ArenaBounds,
    tuning: FighterTuning,
) -> LifecycleTick {
    let losses = lives_lost(state, fighters, bounds);
    let resolutions = batch_resolutions(state, losses);
    let after = state.after_losses(batch_victims(losses));
    let settled = all_settled(fighters, resolutions, tuning);
    let finalized = state.rules.uses_stocks() && !batch_victims(losses).is_empty()
        && after.running_count() <= 1;
    LifecycleTick {
        state: after,
        fighters: all_recovered(after, settled, tuning),
        telemetry: telemetry_after_losses(telemetry, losses, resolutions),
        emissions: all_loss_emissions(fighters, losses, resolutions) + result_emissions(finalized)
            + all_return_emissions(after, settled),
    }
}

fn loss_of(
    state: &MatchState,
    fighter: &Option<LifecycleFighter>,
    seat: usize,
    bounds: ArenaBounds,
) -> (loss: Option<LifeLoss>)
    ensures
        loss == (match *fighter {
            Some(body) => if state@.eliminated(seat as int) {
                None
            } else {
                life_lost(body, bounds)
            },
            None => None,
        }),
{
    let body = match fighter {
        Some(body) => body,
        None => {
            return None;
        },
    };
    if state.fighter_eliminated(seat) {
        return None;
    }
    let out = is_ringout_position(body.position.y, body.planar_distance_squared, bounds);
    let knocked_out = body.stats.depleted();
    if (out || (knocked_out && !should_defer_knockout_resolution(&body.motor, &body.action)))
        && !out_of_play(body.action.action) {
        let cause = if out {
            LifeLossCause::RingOut
        } else {
            LifeLossCause::Knockout
        };
        Some(LifeLoss { attacker: body.stats.last_attacker, cause })
    } else {
        None
    }
}

fn reset_body(motor: &mut FighterMotor)
    ensures
        *final(motor) == body_reset(*old(motor)),
{
    motor.knockdown_on_land = false;
    motor.landing_aftermath = None;
    motor.reaction_bounces = 0;
    motor.pig_air_meat_slam_air_hits = 0;
    motor.air_attack_used = false;
    motor.jump_attack_landing_recovery = false;
    motor.clear_bee_dash();
    motor.landing_stick_timer.clear();
    motor.jump_takeoff_timer.clear();
    motor.dash_slide_timer.clear();
    motor.clear_dash_carry();
    motor.impact_speed_limit_timer.clear();
    motor.impact_speed_limit = Scalar::zero();
    motor.guard_active_timer.reset();
    motor.guard_cooldown_timer.clear();
    motor.guard_start_buffer_timer.clear();
    motor.guard_was_requested = false;
}

fn fall(fighter: &mut LifecycleFighter, eliminated: bool, tuning: &FighterTuning)
    ensures
        *final(fighter) == fallen(*old(fighter), eliminated, *tuning),
{
    fighter.action.force(FighterAction::RingOut);
    fighter.action.reaction_getup_ms = None;
    fighter.action.reaction_recover_ms = None;
    fighter.action.clear_reaction_visual();
    fighter.drunk = DrunkStatus::sober();
    fighter.stats.respawn_timer = if eliminated {
        TickTimer::zero()
    } else {
        TickTimer::from_ticks(tuning.respawn_delay)
    };
    fighter.stats.health_refill_timer.clear();
    reset_body(&mut fighter.motor);
    fighter.ultimate.target = None;
    fighter.ultimate.owner = None;
    fighter.halted = true;
}

fn credit_of(resolution: Option<RingoutResolution>, seat: usize) -> (amount: i32)
    ensures
        amount == credit(resolution, seat as int),
{
    match resolution {
        Some(resolution) => match resolution.awarded_to {
            Some(attacker) => if attacker == seat {
                1
            } else {
                0
            },
            None => 0,
        },
        None => 0,
    }
}

fn settle(
    fighter: Option<LifecycleFighter>,
    seat: FighterId,
    resolutions: &LifeLossBatchResolution,
    tuning: &FighterTuning,
) -> (after: Option<LifecycleFighter>)
    ensures
        after == (match fighter {
            Some(body) => Some(
                settled(
                    body,
                    credits(resolutions@, seat.spec_index() as int),
                    resolutions@[seat.spec_index() as int],
                    *tuning,
                ),
            ),
            None => None,
        }),
{
    let mut body = match fighter {
        Some(body) => body,
        None => {
            return None;
        },
    };
    let index: usize = seat.index();
    let amount: i32 = credit_of(resolutions.for_fighter(FighterId::Zero), index) + credit_of(
        resolutions.for_fighter(FighterId::One),
        index,
    ) + credit_of(resolutions.for_fighter(FighterId::Two), index) + credit_of(
        resolutions.for_fighter(FighterId::Three),
        index,
    );
    body.stats.score = if body.stats.score > i32::MAX - amount {
        i32::MAX
    } else {
        body.stats.score + amount
    };
    if let Some(resolution) = resolutions.for_fighter(seat) {
        fall(&mut body, resolution.eliminated, tuning);
    }
    Some(body)
}

fn announce(resolution: RingoutResolution) -> (announcement: FighterLifeLossAnnouncement)
    ensures
        announcement == announcement_for(resolution),
{
    if resolution.match_finished {
        FighterLifeLossAnnouncement::MatchDecided
    } else if resolution.eliminated {
        FighterLifeLossAnnouncement::Eliminated
    } else if let Some(stock) = resolution.remaining_stock {
        FighterLifeLossAnnouncement::StockRemaining(stock)
    } else {
        FighterLifeLossAnnouncement::LifeLost
    }
}

fn tell_loss(
    fighter: &Option<LifecycleFighter>,
    seat: FighterId,
    loss: Option<LifeLoss>,
    resolution: Option<RingoutResolution>,
    telemetry: &mut MatchTelemetry,
    emissions: &mut Vec<LifecycleEmission>,
)
    requires
        old(telemetry).ring_outs < u32::MAX,
        old(telemetry).falls < u32::MAX,
    ensures
        fighter.is_none() ==> *final(telemetry) == *old(telemetry),
        fighter.is_some() ==> *final(telemetry) == telemetry_after_loss(
            *old(telemetry),
            loss,
            resolution,
        ),
        final(emissions)@ == old(emissions)@ + (match (*fighter, loss, resolution) {
            (Some(body), Some(loss), Some(resolution)) => loss_emissions(
                seat,
                body.name,
                body.position,
                loss,
                resolution,
            ),
            _ => seq![],
        }),
{
    let ghost before = emissions@;
    match (fighter, loss, resolution) {
        (Some(body), Some(loss), Some(resolution)) => {
            let ring_out = loss.cause == LifeLossCause::RingOut;
            if ring_out {
                telemetry.record_ringout(resolution.awarded_to.is_some());
            }
            if let Some(stock) = resolution.remaining_stock {
                let stocks_remaining: u8 = if stock >= 0 && stock <= 255 {
                    stock as u8
                } else {
                    255
                };
                emissions.push(
                    LifecycleEmission::Bare {
                        source: SimEventSource::Fighter(seat),
                        kind: SimEventKind::StockLost { fighter: seat, stocks_remaining },
                    },
                );
            }
            let event = if ring_out {
                FighterLifecycleEvent::RingOut
            } else {
                FighterLifecycleEvent::Knockout
            };
            emissions.push(
                LifecycleEmission::Presented(
                    PendingFighterPresentationIntent {
                        fighter: seat,
                        fighter_name: body.name,
                        event: PendingFighterPresentationEvent::Lifecycle(event),
                        kind: FighterPresentationKind::LifeLost {
                            position: body.position,
                            ring_out,
                            announcement: announce(resolution),
                        },
                    },
                ),
            );
            proof {
                assert(emissions@ =~= before + loss_emissions(
                    seat,
                    body.name,
                    body.position,
                    loss,
                    resolution,
                ));
            }
        },
        _ => {
            proof {
                assert(before + Seq::<LifecycleEmission>::empty() =~= before);
            }
        },
    }
}

fn come_back(fighter: &mut LifecycleFighter, tuning: &FighterTuning)
    ensures
        *final(fighter) == returned(*old(fighter), *tuning),
{
    fighter.position = fighter.spawn;
    fighter.stats.health = tuning.max_health;
    fighter.stats.health_refill_timer.clear();
    fighter.stats.stamina = tuning.max_stamina;
    fighter.stats.item_speed_timer.clear();
    fighter.stats.item_giant_timer.clear();
    fighter.stats.last_attacker = None;
    fighter.stats.invulnerability = TickTimer::from_ticks(tuning.respawn_invulnerable);
    fighter.stats.respawn_timer.clear();
    fighter.stats.clear_carry();
    reset_body(&mut fighter.motor);
    fighter.motor.grounded = true;
    fighter.motor.ledge_grace_timer.clear();
    fighter.ultimate.target = None;
    fighter.ultimate.owner = None;
    fighter.action.action = FighterAction::Respawning;
    fighter.action.elapsed.reset();
    fighter.action.clear_queues();
    fighter.action.reaction_getup_ms = None;
    fighter.action.reaction_recover_ms = None;
    fighter.action.clear_reaction_visual();
    fighter.halted = true;
}

fn recover(fighter: &mut LifecycleFighter, tuning: &FighterTuning) -> (back: bool)
    ensures
        *final(fighter) == recovered(*old(fighter), *tuning),
        back == returns_now(*old(fighter)),
{
    match fighter.action.action {
        FighterAction::RingOut => {
            fighter.drunk = DrunkStatus::sober();
            fighter.stats.respawn_timer.tick();
            if !fighter.stats.respawn_timer.active() {
                come_back(fighter, tuning);
                return true;
            }
        },
        FighterAction::Respawning => {
            fighter.action.elapsed.advance();
            if fighter.action.elapsed.reached(milliseconds_to_ticks_ceil(RESPAWN_STAND_MS)) {
                fighter.action.action = FighterAction::Idle;
                fighter.action.elapsed.reset();
                fighter.action.clear_queues();
                fighter.action.reaction_getup_ms = None;
                fighter.action.reaction_recover_ms = None;
                fighter.action.clear_reaction_visual();
            }
        },
        _ => {},
    }
    false
}

fn recover_seat(
    state: &MatchState,
    fighter: Option<LifecycleFighter>,
    seat: FighterId,
    tuning: &FighterTuning,
    emissions: &mut Vec<LifecycleEmission>,
) -> (after: Option<LifecycleFighter>)
    ensures
        after == (match fighter {
            Some(body) => if state@.eliminated(seat.spec_index() as int) {
                Some(body)
            } else {
                Some(recovered(body, *tuning))
            },
            None => None,
        }),
        final(emissions)@ == old(emissions)@ + (match fighter {
            Some(body) => if !state@.eliminated(seat.spec_index() as int) && returns_now(body) {
                seq![
                    LifecycleEmission::Presented(
                        PendingFighterPresentationIntent {
                            fighter: seat,
                            fighter_name: body.name,
                            event: PendingFighterPresentationEvent::Respawned,
                            kind: FighterPresentationKind::Respawned { position: body.spawn },
                        },
                    ),
                ]
            } else {
                seq![]
            },
            None => seq![],
        }),
{
    let ghost before = emissions@;
    proof {
        assert(before + Seq::<LifecycleEmission>::empty() =~= before);
    }
    let mut body = match fighter {
        Some(body) => body,
        None => {
            return None;
        },
    };
    if state.fighter_eliminated(seat.index()) {
        return Some(body);
    }
    if recover(&mut body, tuning) {
        let emission = LifecycleEmission::Presented(
            PendingFighterPresentationIntent {
                fighter: seat,
                fighter_name: body.name,
                event: PendingFighterPresentationEvent::Respawned,
                kind: FighterPresentationKind::Respawned { position: body.position },
            },
        );
        emissions.push(emission);
        proof {
            assert(emissions@ =~= before + seq![emission]);
        }
    }
    Some(body)
}

fn losses_of(
    state: &MatchState,
    fighters: &[Option<LifecycleFighter>; FIGHTER_COUNT],
    bounds: ArenaBounds,
) -> (losses: [Option<LifeLoss>; FIGHTER_COUNT])
    ensures
        losses@ == lives_lost(state@, fighters@, bounds),
{
    let losses = [
        loss_of(state, &fighters[0], 0, bounds),
        loss_of(state, &fighters[1], 1, bounds),
        loss_of(state, &fighters[2], 2, bounds),
        loss_of(state, &fighters[3], 3, bounds),
    ];
    proof {
        assert(losses@ =~= lives_lost(state@, fighters@, bounds));
    }
    losses
}

/// What is emitted for all lost lives.
pub open spec fn all_loss_emissions(
    fighters: Seq<Option<LifecycleFighter>>,
    losses: Seq<Option<LifeLoss>>,
    resolutions: Seq<Option<RingoutResolution>>,
) -> Seq<LifecycleEmission> {
    seat_loss_emissions(fighters, losses, resolutions, FighterId::Zero) + seat_loss_emissions(
        fighters,
        losses,
        resolutions,
        FighterId::One,
    ) + seat_loss_emissions(fighters, losses, resolutions, FighterId::Two) + seat_loss_emissions(
        fighters,
        losses,
        resolutions,
        FighterId::Three,
    )
}

fn tell_losses(
    fighters: &[Option<LifecycleFighter>; FIGHTER_COUNT],
    losses: &[Option<LifeLoss>; FIGHTER_COUNT],
    resolutions: &LifeLossBatchResolution,
    telemetry: &mut MatchTelemetry,
) -> (emissions: Vec<LifecycleEmission>)
    requires
        old(telemetry).ring_outs <= u32::MAX - FIGHTER_COUNT,
        old(telemetry).falls <= u32::MAX - FIGHTER_COUNT,
        losses@[0].is_some() ==> fighters@[0].is_some(),
        losses@[1].is_some() ==> fighters@[1].is_some(),
        losses@[2].is_some() ==> fighters@[2].is_some(),
        losses@[3].is_some() ==> fighters@[3].is_some(),
    ensures
        *final(telemetry) == telemetry_after_losses(*old(telemetry), losses@, resolutions@),
        emissions@ == all_loss_emissions(fighters@, losses@, resolutions@),
{
    let mut emissions: Vec<LifecycleEmission> = Vec::new();
    tell_loss(
        &fighters[0],
        FighterId::Zero,
        losses[0],
        resolutions.for_fighter(FighterId::Zero),
        telemetry,
        &mut emissions,
    );
    tell_loss(
        &fighters[1],
        FighterId::One,
        losses[1],
        resolutions.for_fighter(FighterId::One),
        telemetry,
        &mut emissions,
    );
    tell_loss(
        &fighters[2],
        FighterId::Two,
        losses[2],
        resolutions.for_fighter(FighterId::Two),
        telemetry,
        &mut emissions,
    );
    tell_loss(
        &fighters[3],
        FighterId::Three,
        losses[3],
        resolutions.for_fighter(FighterId::Three),
        telemetry,
        &mut emissions,
    );
    proof {
        assert(emissions@ =~= all_loss_emissions(fighters@, losses@, resolutions@));
    }
    emissions
}

fn settle_all(
    fighters: &[Option<LifecycleFighter>; FIGHTER_COUNT],
    resolutions: &LifeLossBatchResolution,
    tuning: &FighterTuning,
) -> (settled: [Option<LifecycleFighter>; FIGHTER_COUNT])
    ensures
        settled@ == all_settled(fighters@, resolutions@, *tuning),
{
    let settled = [
        settle(fighters[0], FighterId::Zero, resolutions, tuning),
        settle(fighters[1], FighterId::One, resolutions, tuning),
        settle(fighters[2], FighterId::Two, resolutions, tuning),
        settle(fighters[3], FighterId::Three, resolutions, tuning),
    ];
    proof {
        assert(settled@ =~= all_settled(fighters@, resolutions@, *tuning));
    }
    settled
}

/// What is emitted for all returns.
pub open spec fn all_return_emissions(
    state: MatchModel,
    fighters: Seq<Option<LifecycleFighter>>,
) -> Seq<LifecycleEmission> {
    return_emissions(state, fighters, FighterId::Zero) + return_emissions(
        state,
        fighters,
        FighterId::One,
    ) + return_emissions(state, fighters, FighterId::Two) + return_emissions(
        state,
        fighters,
        FighterId::Three,
    )
}

fn recover_all(
    state: &MatchState,
    settled: &[Option<LifecycleFighter>; FIGHTER_COUNT],
    tuning: &FighterTuning,
    emissions: &mut Vec<LifecycleEmission>,
) -> (after: [Option<LifecycleFighter>; FIGHTER_COUNT])
    ensures
        after@ == all_recovered(state@, settled@, *tuning),
        final(emissions)@ == old(emissions)@ + all_return_emissions(state@, settled@),
{
    let ghost before = emissions@;
    let after = [
        recover_seat(state, settled[0], FighterId::Zero, tuning, emissions),
        recover_seat(state, settled[1], FighterId::One, tuning, emissions),
        recover_seat(state, settled[2], FighterId::Two, tuning, emissions),
        recover_seat(state, settled[3], FighterId::Three, tuning, emissions),
    ];
    proof {
        assert(after@ =~= all_recovered(state@, settled@, *tuning));
        assert(emissions@ =~= before + all_return_emissions(state@, settled@));
    }
    after
}

/// Lets fighters fall and come back, and says what is to be emitted for it.
pub fn resolve_lifecycle(
    state: &mut MatchState,
    fighters: &mut [Option<LifecycleFighter>; FIGHTER_COUNT],
    telemetry: &mut MatchTelemetry,
    bounds: ArenaBounds,
    tuning: &FighterTuning,
) -> (emissions: Vec<LifecycleEmission>)
    requires
        old(telemetry).ring_outs <= u32::MAX - FIGHTER_COUNT,
        old(telemetry).falls <= u32::MAX - FIGHTER_COUNT,
    ensures
        ({
            let tick = lifecycle_tick(
                old(state)@,
                old(fighters)@,
                *old(telemetry),
                bounds,
                *tuning,
            );
            &&& final(state)@ == tick.state
            &&& final(fighters)@ == tick.fighters
            &&& *final(telemetry) == tick.telemetry
            &&& emissions@ == tick.emissions
        }),
{
    let losses = losses_of(state, fighters, bounds);
    proof {
        lemma_losses_need_fighters(state@, fighters@, bounds);
    }
    let batch = batch_of(&losses);
    let resolutions = batch.commit(state);
    let mut emissions = tell_losses(fighters, &losses, &resolutions, telemetry);
    let settled = settle_all(fighters, &resolutions, tuning);
    let ghost told = emissions@;
    if resolutions.result_finalized {
        emissions.push(
            LifecycleEmission::Bare {
                source: SimEventSource::Match,
                kind: SimEventKind::MatchLifecycle { event: MatchLifecycleEvent::Results },
            },
        );
    }
    proof {
        assert(emissions@ =~= told + result_emissions(resolutions.result_finalized));
    }
    *fighters = recover_all(state, &settled, tuning, &mut emissions);
    emissions
}

proof fn lemma_losses_need_fighters(
    state: MatchModel,
    fighters: Seq<Option<LifecycleFighter>>,
    bounds: ArenaBounds,
)
    ensures
        forall|i: int|
            0 <= i < FIGHTER_COUNT && (#[trigger] lives_lost(state, fighters, bounds)[i]).is_some()
                ==> fighters[i].is_some(),
{
}

fn batch_of(losses: &[Option<LifeLoss>; FIGHTER_COUNT]) -> (batch: LifeLossBatch)
    ensures
        batch@ == losses@,
{
    let mut batch = LifeLossBatch::new();
    if let Some(loss) = losses[0] {
        let _ = batch.push(FighterId::Zero, loss.attacker, loss.cause);
    }
    if let Some(loss) = losses[1] {
        let _ = batch.push(FighterId::One, loss.attacker, loss.cause);
    }
    if let Some(loss) = losses[2] {
        let _ = batch.push(FighterId::Two, loss.attacker, loss.cause);
    }
    if let Some(loss) = losses[3] {
        let _ = batch.push(FighterId::Three, loss.attacker, loss.cause);
    }
    proof {
        assert(batch@ =~= losses@);
    }
    batch
}

/// The events after one emission.
pub open spec fn events_after_emission(
    tick: SimTick,
    capacity: usize,
    events: Seq<SimEvent>,
    emission: LifecycleEmission,
) -> Seq<SimEvent> {
    match emission {
        LifecycleEmission::Bare { source, kind } => events_after_emit(
            tick,
            capacity,
            events,
            source,
            kind,
        ),
        LifecycleEmission::Presented(pending) => events_after_pending(
            tick,
            capacity,
            events,
            pending,
        ),
    }
}

/// The recorded intents after one emission.
pub open spec fn intents_after_emission(
    tick: SimTick,
    capacity: usize,
    events: Seq<SimEvent>,
    intents: Map<(u64, u16), FighterPresentationIntent>,
    history: nat,
    per_tick: nat,
    emission: LifecycleEmission,
) -> Map<(u64, u16), FighterPresentationIntent> {
    match emission {
        LifecycleEmission::Bare { .. } => intents,
        LifecycleEmission::Presented(pending) => intents_after_pending(
            tick,
            capacity,
            events,
            intents,
            history,
            per_tick,
            pending,
        ),
    }
}

/// The journal's totals after one emission.
pub open spec fn metrics_after_emission(
    tick: SimTick,
    capacity: usize,
    events: Seq<SimEvent>,
    metrics: FighterPresentationIntentMetrics,
    intents: Map<(u64, u16), FighterPresentationIntent>,
    per_tick: nat,
    emission: LifecycleEmission,
) -> FighterPresentationIntentMetrics {
    match emission {
        LifecycleEmission::Bare { .. } => metrics,
        LifecycleEmission::Presented(pending) => metrics_after_pending(
            tick,
            capacity,
            events,
            metrics,
            intents,
            per_tick,
            pending,
        ),
    }
}

/// The events after a run of emissions, first to last.
pub open spec fn events_after_emissions(
    tick: SimTick,
    capacity: usize,
    events: Seq<SimEvent>,
    run: Seq<LifecycleEmission>,
) -> Seq<SimEvent>
    decreases run.len(),
{
    if run.len() == 0 {
        events
    } else {
        events_after_emission(
            tick,
            capacity,
            events_after_emissions(tick, capacity, events, run.drop_last()),
            run.last(),
        )
    }
}

/// The recorded intents after a run of emissions, first to last.
pub open spec fn intents_after_emissions(
    tick: SimTick,
    capacity: usize,
    events: Seq<SimEvent>,
    intents: Map<(u64, u16), FighterPresentationIntent>,
    history: nat,
    per_tick: nat,
    run: Seq<LifecycleEmission>,
) -> Map<(u64, u16), FighterPresentationIntent>
    decreases run.len(),
{
    if run.len() == 0 {
        intents
    } else {
        intents_after_emission(
            tick,
            capacity,
            events_after_emissions(tick, capacity, events, run.drop_last()),
            intents_after_emissions(
                tick,
                capacity,
                events,
                intents,
                history,
                per_tick,
                run.drop_last(),
            ),
            history,
            per_tick,
            run.last(),
        )
    }
}

/// The journal's totals after a run of emissions, first to last.
pub open spec fn metrics_after_emissions(
    tick: SimTick,
    capacity: usize,
    events: Seq<SimEvent>,
    metrics: FighterPresentationIntentMetrics,
    intents: Map<(u64, u16), FighterPresentationIntent>,
    history: nat,
    per_tick: nat,
    run: Seq<LifecycleEmission>,
) -> FighterPresentationIntentMetrics
    decreases run.len(),
{
    if run.len() == 0 {
        metrics
    } else {
        let before = run.drop_last();
        metrics_after_emission(
            tick,
            capacity,
            events_after_emissions(tick, capacity, events, before),
            metrics_after_emissions(
                tick,
                capacity,
                events,
                metrics,
                intents,
                history,
                per_tick,
                before,
            ),
            intents_after_emissions(tick, capacity, events, intents, history, per_tick, before),
            per_tick,
            run.last(),
        )
    }
}

fn emit_unrecorded(sim_events: &mut TickEventBuffer, run: &Vec<LifecycleEmission>)
    requires
        old(sim_events).wf(),
    ensures
        final(sim_events).wf(),
        final(sim_events).spec_tick() == old(sim_events).spec_tick(),
        final(sim_events).spec_capacity() == old(sim_events).spec_capacity(),
        final(sim_events)@ == events_after_emissions(
            old(sim_events).spec_tick(),
            old(sim_events).spec_capacity(),
            old(sim_events)@,
            run@,
        ),
{
    let ghost tick = sim_events.spec_tick();
    let ghost capacity = sim_events.spec_capacity();
    let mut next: usize = 0;
    while next < run.len()
        invariant
            next <= run@.len(),
            sim_events.wf(),
            sim_events.spec_tick() == tick,
            sim_events.spec_capacity() == capacity,
            tick == old(sim_events).spec_tick(),
            capacity == old(sim_events).spec_capacity(),
            sim_events@ == events_after_emissions(
                tick,
                capacity,
                old(sim_events)@,
                run@.take(next as int),
            ),
        decreases run@.len() - next,
    {
        match run[next] {
            LifecycleEmission::Bare { source, kind } => {
                let _ = sim_events.emit(source, kind);
            },
            LifecycleEmission::Presented(pending) => {
                emit_fighter_presentation_intent(sim_events, None, pending);
            },
        }
        next += 1;
        proof {
            assert(run@.take(next as int).drop_last() =~= run@.take(next - 1));
        }
    }
    proof {
        assert(run@.take(next as int) =~= run@);
    }
}

fn emit_recorded(
    sim_events: &mut TickEventBuffer,
    journal: &mut FighterPresentationIntentJournal,
    run: &Vec<LifecycleEmission>,
)
    requires
        old(sim_events).wf(),
        old(journal).wf(),
    ensures
        final(sim_events).wf(),
        final(sim_events).spec_tick() == old(sim_events).spec_tick(),
        final(sim_events).spec_capacity() == old(sim_events).spec_capacity(),
        final(sim_events)@ == events_after_emissions(
            old(sim_events).spec_tick(),
            old(sim_events).spec_capacity(),
            old(sim_events)@,
            run@,
        ),
        final(journal).wf(),
        final(journal).history_ticks() == old(journal).history_ticks(),
        final(journal).spec_events_per_tick() == old(journal).spec_events_per_tick(),
        final(journal)@ == intents_after_emissions(
            old(sim_events).spec_tick(),
            old(sim_events).spec_capacity(),
            old(sim_events)@,
            old(journal)@,
            old(journal).history_ticks(),
            old(journal).spec_events_per_tick(),
            run@,
        ),
        final(journal).spec_metrics() == metrics_after_emissions(
            old(sim_events).spec_tick(),
            old(sim_events).spec_capacity(),
            old(sim_events)@,
            old(journal).spec_metrics(),
            old(journal)@,
            old(journal).history_ticks(),
            old(journal).spec_events_per_tick(),
            run@,
        ),
{
    let ghost tick = sim_events.spec_tick();
    let ghost capacity = sim_events.spec_capacity();
    let mut next: usize = 0;
    while next < run.len()
        invariant
            next <= run@.len(),
            sim_events.wf(),
            sim_events.spec_tick() == tick,
            sim_events.spec_capacity() == capacity,
            tick == old(sim_events).spec_tick(),
            capacity == old(sim_events).spec_capacity(),
            sim_events@ == events_after_emissions(
                tick,
                capacity,
                old(sim_events)@,
                run@.take(next as int),
            ),
            journal.wf(),
            journal.history_ticks() == old(journal).history_ticks(),
            journal.spec_events_per_tick() == old(journal).spec_events_per_tick(),
            journal@ == intents_after_emissions(
                tick,
                capacity,
                old(sim_events)@,
                old(journal)@,
                old(journal).history_ticks(),
                old(journal).spec_events_per_tick(),
                run@.take(next as int),
            ),
            journal.spec_metrics() == metrics_after_emissions(
                tick,
                capacity,
                old(sim_events)@,
                old(journal).spec_metrics(),
                old(journal)@,
                old(journal).history_ticks(),
                old(journal).spec_events_per_tick(),
                run@.take(next as int),
            ),
        decreases run@.len() - next,
    {
        match run[next] {
            LifecycleEmission::Bare { source, kind } => {
                let _ = sim_events.emit(source, kind);
            },
            LifecycleEmission::Presented(pending) => {
                emit_fighter_presentation_intent(sim_events, Some(&mut *journal), pending);
            },
        }
        next += 1;
        proof {
            assert(run@.take(next as int).drop_last() =~= run@.take(next - 1));
        }
    }
    proof {
        assert(run@.take(next as int) =~= run@);
    }
}

/// One tick of falling and coming back, with its events. The events are the same
/// whether or not anybody records presentation.
pub fn ringout_and_respawn(
    state: &mut MatchState,
    fighters: &mut [Option<LifecycleFighter>; FIGHTER_COUNT],
    telemetry: &mut MatchTelemetry,
    bounds: ArenaBounds,
    tuning: &FighterTuning,
    sim_events: &mut TickEventBuffer,
    presentation_intents: Option<&mut FighterPresentationIntentJournal>,
)
    requires
        old(telemetry).ring_outs <= u32::MAX - FIGHTER_COUNT,
        old(telemetry).falls <= u32::MAX - FIGHTER_COUNT,
        old(sim_events).wf(),
        presentation_intents.is_some() ==> old(presentation_intents.unwrap()).wf(),
    ensures
        ({
            let tick = lifecycle_tick(
                old(state)@,
                old(fighters)@,
                *old(telemetry),
                bounds,
                *tuning,
            );
            &&& final(state)@ == tick.state
            &&& final(fighters)@ == tick.fighters
            &&& *final(telemetry) == tick.telemetry
            &&& final(sim_events).wf()
            &&& final(sim_events).spec_tick() == old(sim_events).spec_tick()
            &&& final(sim_events).spec_capacity() == old(sim_events).spec_capacity()
            &&& final(sim_events)@ == events_after_emissions(
                old(sim_events).spec_tick(),
                old(sim_events).spec_capacity(),
                old(sim_events)@,
                tick.emissions,
            )
            &&& presentation_intents.is_some() ==> {
                let journal = presentation_intents.unwrap();
                let before = *journal;
                &&& final(journal).wf()
                &&& final(journal).history_ticks() == before.history_ticks()
                &&& final(journal).spec_events_per_tick() == before.spec_events_per_tick()
                &&& final(journal)@ == intents_after_emissions(
                    old(sim_events).spec_tick(),
                    old(sim_events).spec_capacity(),
                    old(sim_events)@,
                    before@,
                    before.history_ticks(),
                    before.spec_events_per_tick(),
                    tick.emissions,
                )
                &&& final(journal).spec_metrics() == metrics_after_emissions(
                    old(sim_events).spec_tick(),
                    old(sim_events).spec_capacity(),
                    old(sim_events)@,
                    before.spec_metrics(),
                    before@,
                    before.history_ticks(),
                    before.spec_events_per_tick(),
                    tick.emissions,
                )
            }
        }),
{
    let emissions = resolve_lifecycle(state, fighters, telemetry, bounds, tuning);
    match presentation_intents {
        Some(journal) => emit_recorded(sim_events, journal, &emissions),
        None => emit_unrecorded(sim_events, &emissions),
    }
}

/// A fighter after `ticks` ticks out of the arena.
pub open spec fn recovered_for(
    fighter: LifecycleFighter,
    ticks: nat,
    tuning: FighterTuning,
) -> LifecycleFighter
    decreases ticks,
{
    if ticks == 0 {
        fighter
    } else {
        recovered(recovered_for(fighter, (ticks - 1) as nat, tuning), tuning)
    }
}

/// A fallen fighter waits exactly its delay: it is out for every tick before, and
/// stands at its spawn with full resources in the last.
pub proof fn fallen_fighters_return_on_time(
    fighter: LifecycleFighter,
    ticks: nat,
    tuning: FighterTuning,
)
    requires
        0 < tuning.respawn_delay < u32::MAX,
        ticks <= tuning.respawn_delay,
    ensures
        ({
            let later = recovered_for(fallen(fighter, false, tuning), ticks, tuning);
            &&& ticks < tuning.respawn_delay ==> later.action.action == FighterAction::RingOut
                && later.stats.respawn_timer.remaining == tuning.respawn_delay - ticks
            &&& ticks == tuning.respawn_delay ==> later.action.action == FighterAction::Respawning
                && later.action.elapsed == ElapsedTicks::zero() && later.position
                == fighter.spawn && later.stats.health == tuning.max_health && later.stats.stamina
                == tuning.max_stamina && later.stats.invulnerability.remaining
                == tuning.respawn_invulnerable && later.stats.score == fighter.stats.score
            &&& later.spawn == fighter.spawn
            &&& later.stats.score == fighter.stats.score
        }),
    decreases ticks,
{
    if ticks > 0 {
        fallen_fighters_return_on_time(fighter, (ticks - 1) as nat, tuning);
    }
}

/// A fighter that has come back may act again after its stand, and not before.
pub proof fn returned_fighters_stand_first(
    fighter: LifecycleFighter,
    ticks: nat,
    tuning: FighterTuning,
)
    requires
        fighter.action.action == FighterAction::Respawning,
        fighter.action.elapsed == ElapsedTicks::zero(),
        ticks <= ticks_covering_millis(RESPAWN_STAND_MS as int),
    ensures
        ({
            let later = recovered_for(fighter, ticks, tuning);
            &&& ticks < ticks_covering_millis(RESPAWN_STAND_MS as int) ==> later.action.action
                == FighterAction::Respawning && later.action.elapsed.ticks == ticks
            &&& ticks == ticks_covering_millis(RESPAWN_STAND_MS as int) ==> later.action.action
                == FighterAction::Idle && later.action.elapsed == ElapsedTicks::zero()
        }),
    decreases ticks,
{
    if ticks > 0 {
        returned_fighters_stand_first(fighter, (ticks - 1) as nat, tuning);
    }
}

/// A fighter that is out of the match is never brought back, and one that is out
/// of the arena does not lose a second life.
pub proof fn the_fallen_lose_no_second_life(
    state: MatchModel,
    fighters: Seq<Option<LifecycleFighter>>,
    bounds: ArenaBounds,
    tuning: FighterTuning,
    seat: int,
)
    requires
        0 <= seat < FIGHTER_COUNT,
        fighters[seat].is_some(),
    ensures
        out_of_play(fighters[seat].unwrap().action.action) ==> lives_lost(
            state,
            fighters,
            bounds,
        )[seat].is_none(),
        state.eliminated(seat) ==> all_recovered(state, fighters, tuning)[seat] == fighters[seat],
        state.eliminated(seat) ==> lives_lost(state, fighters, bounds)[seat].is_none(),
{
}

/// Whether a fight begins in this tick, remembering the phase for the next.
pub fn entering_fight(
    previous_phase: &mut Option<MatchPhase>,
    phase: MatchPhase,
) -> (entering: bool)
    ensures
        entering == (phase == MatchPhase::Fighting && *old(previous_phase) != Some(phase)),
        *final(previous_phase) == Some(phase),
{
    let entering = phase == MatchPhase::Fighting && match *previous_phase {
        Some(previous) => previous != phase,
        None => true,
    };
    *previous_phase = Some(phase);
    entering
}

/// How the drunk status runs and shows, in ticks.
#[derive(Clone, Copy, Debug, PartialEq, Eq, Structural)]
pub struct DrunkTuning {
    pub duration: u32,
    pub bubble_cadence: u32,
}

/// What the drunk status depends on.
#[derive(Clone, Copy, Debug, PartialEq, Eq, Structural)]
pub struct DrunkContext {
    pub entering_fight: bool,
    pub fighting: bool,
    pub can_participate: bool,
    pub action: FighterAction,
    pub hitstop: bool,
}

/// The status one tick later: a new fight starts sober, who is not in play is
/// sober, and hitstop stops its time.
pub open spec fn drunk_ticked(status: DrunkStatus, context: DrunkContext) -> DrunkStatus {
    if context.entering_fight || !context.fighting || !context.can_participate || out_of_play(
        context.action,
    ) {
        DrunkStatus::sober()
    } else if context.hitstop {
        status
    } else {
        DrunkStatus { remaining: status.remaining.ticked() }
    }
}

/// The number of the bubble that rises in this tick: one right away and then one
/// per cadence, for as long as the status lasts.
pub open spec fn drunk_bubble(
    status: DrunkStatus,
    context: DrunkContext,
    tuning: DrunkTuning,
) -> Option<u32> {
    let after = drunk_ticked(status, context);
    let elapsed = if tuning.duration > after.remaining.remaining {
        tuning.duration - after.remaining.remaining
    } else {
        0
    };
    let cadence = if tuning.bubble_cadence == 0 {
        1
    } else {
        tuning.bubble_cadence as int
    };
    if after.active() && !context.hitstop && elapsed > 0 && (elapsed - 1) % cadence == 0 {
        Some(((elapsed - 1) / cadence) as u32)
    } else {
        None
    }
}

/// Lets the drunk status run for one tick. `Some` is the number of the bubble that
/// rises.
pub fn update_drunk_status(
    status: &mut DrunkStatus,
    context: DrunkContext,
    tuning: &DrunkTuning,
) -> (bubble: Option<u32>)
    ensures
        *final(status) == drunk_ticked(*old(status), context),
        bubble == drunk_bubble(*old(status), context, *tuning),
{
    if context.entering_fight {
        *status = DrunkStatus::sober();
    }
    if !context.fighting || !context.can_participate || out_of_play(context.action) {
        status.remaining.clear();
        return None;
    }
    if context.hitstop || !status.active() {
        return None;
    }
    status.remaining.tick();
    if !status.remaining.active() {
        return None;
    }
    let elapsed: u32 = tuning.duration.saturating_sub(status.remaining.remaining());
    let cadence: u32 = if tuning.bubble_cadence == 0 {
        1
    } else {
        tuning.bubble_cadence
    };
    if elapsed > 0 && (elapsed - 1) % cadence == 0 {
        Some((elapsed - 1) / cadence)
    } else {
        None
    }
}

/// A drunk fighter goes the other way.
pub fn apply_drunk_input_modifier(status: &DrunkStatus, input: &mut FighterInput)
    ensures
        *final(input) == (if status.active() {
            FighterInput { movement: old(input).movement.spec_negated(), ..*old(input) }
        } else {
            *old(input)
        }),
{
    if status.active() {
        invert_directional_input(input);
    }
}

/// The intent of a bubble.
pub fn drunk_bubble_intent(
    fighter: FighterId,
    fighter_name: &'static str,
    position: SimVec3,
    phase: u32,
) -> (intent: PendingFighterPresentationIntent)
    ensures
        intent == (PendingFighterPresentationIntent {
            fighter,
            fighter_name,
            event: PendingFighterPresentationEvent::Lifecycle(FighterLifecycleEvent::DrunkBubble),
            kind: FighterPresentationKind::DrunkBubble { position, phase },
        }),
{
    PendingFighterPresentationIntent {
        fighter,
        fighter_name,
        event: PendingFighterPresentationEvent::Lifecycle(FighterLifecycleEvent::DrunkBubble),
        kind: FighterPresentationKind::DrunkBubble { position, phase },
    }
}

/// Contacts refresh without stacking: however many come in one tick, the status
/// lasts as after one.
pub proof fn drunk_contacts_do_not_stack(remaining: TickTimer, duration: u32)
    ensures
        ({
            let full = TickTimer { remaining: duration };
            let once = remaining.spec_max(full);
            &&& once.spec_max(full) == once
            &&& once.remaining >= duration
            &&& once == remaining || once == full
        }),
{
}

/// The resources of a practice partner: restored whenever damaged, but never
/// brought back from nothing, and left alone out of the arena.
pub open spec fn practice_refilled(
    stats: FighterStats,
    action: FighterActionState,
    max_health: Scalar,
) -> FighterStats {
    if out_of_play(action.action) || stats.depleted() {
        FighterStats { health_refill_timer: TickTimer::zero(), ..stats }
    } else if stats.health.lt(max_health) {
        FighterStats {
            health: max_health,
            health_refill_timer: TickTimer::zero(),
            ..stats.without_carry()
        }
    } else {
        stats
    }
}

pub fn tick_practice_health_refill(
    stats: &mut FighterStats,
    action: &FighterActionState,
    max_health: Scalar,
)
    ensures
        *final(stats) == practice_refilled(*old(stats), *action, max_health),
{
    if out_of_play(action.action) {
        stats.health_refill_timer.clear();
        return ;
    }
    if stats.depleted() {
        stats.health_refill_timer.clear();
        return ;
    }
    if stats.health.lt(max_health) {
        stats.health = max_health;
        stats.health_refill_timer.clear();
        stats.clear_carry();
    }
}

/// Refills the chosen practice partner, where refills are on and it is still in
/// the match.
pub fn refill_depleted_practice_health(
    state: &MatchState,
    refill_blocked: bool,
    refill_bot_id: Option<usize>,
    fighter_id: usize,
    stats: &mut FighterStats,
    action: &FighterActionState,
    max_health: Scalar,
)
    ensures
        *final(stats) == (if !refill_blocked && refill_bot_id == Some(fighter_id)
            && !state@.eliminated(fighter_id as int) {
            practice_refilled(*old(stats), *action, max_health)
        } else {
            *old(stats)
        }),
{
    if refill_blocked {
        return ;
    }
    match refill_bot_id {
        Some(bot) => {
            if fighter_id != bot || state.fighter_eliminated(fighter_id) {
                return ;
            }
        },
        None => {
            return ;
        },
    }
    tick_practice_health_refill(stats, action, max_health);
}

/// A refill never revives: what has no health left has none after it.
pub proof fn refills_do_not_revive(
    stats: FighterStats,
    action: FighterActionState,
    max_health: Scalar,
)
    requires
        stats.depleted(),
    ensures
        practice_refilled(stats, action, max_health).health == stats.health,
        practice_refilled(stats, action, max_health).depleted(),
{
}

/// A fighter is hidden while it is not in the match, and while it is out of the
/// arena after a ring-out. One that was knocked out stays in sight.
pub fn lifecycle_hidden(active: bool, action: FighterAction, out: bool) -> (hidden: bool)
    ensures
        hidden == (!active || (action == FighterAction::RingOut && out)),
{
    !active || (action == FighterAction::RingOut && out)
}

} // verus!

//! Who loses a life, what it costs, and how fighters come back.

use vstd::prelude::*;

use crate::action::FighterAction;
use crate::feedback::MatchTelemetry;
use crate::fighter::{FighterMotor, FighterStats, FighterTuning};
use crate::ids::FighterId;
use crate::lifecycle::{
    ArenaBounds, DrunkContext, DrunkStatus, DrunkTuning, LifecycleEmission, LifecycleFighter,
    all_loss_emissions, all_return_emissions, all_settled, credits, drunk_bubble, drunk_ticked,
    lifecycle_tick, lives_lost, practice_refilled, recovered, result_emissions, return_emissions,
    seat_loss_emissions, settled,
};
use crate::match_state::{
    LifeLoss, LifeLossCause, MatchModel, MatchPhase, RingoutResolution, batch_resolutions,
    batch_victims,
};
use crate::pending::{PendingFighterPresentationEvent, PendingFighterPresentationIntent};
use crate::presentation::{FighterLifeLossAnnouncement, FighterPresentationKind};
use crate::scalar::Scalar;
use crate::sim_event::{FighterLifecycleEvent, MatchLifecycleEvent, SimEventKind, SimEventSource};

verus! {

/// The seat plays, and has a life left where lives count.
pub open spec fn has_lives(state: MatchModel, seat: int) -> bool {
    state.active_slots[seat] && (state.rules.starting_stocks.is_some() ==> state.stocks[seat] > 0)
}

/// Below the arena or too far from its middle.
pub open spec fn left_the_arena(body: LifecycleFighter, bounds: ArenaBounds) -> bool {
    body.position.y.lt(bounds.ringout_y) || bounds.ringout_radius_squared.lt(
        body.planar_distance_squared,
    )
}

/// Without health, and not in the middle of a hit's flight: still in the air, about
/// to be knocked down, or about to bounce.
pub open spec fn beaten(body: LifecycleFighter) -> bool {
    &&& body.stats.health.le(Scalar { bits: 0 })
    &&& body.action.action == FighterAction::Hitstun ==> {
        &&& body.motor.grounded
        &&& body.motor.landing_aftermath.is_none()
        &&& !body.motor.knockdown_on_land
        &&& body.motor.reaction_bounces == 0
    }
}

/// The seat loses a life in this tick.
pub open spec fn falls(
    state: MatchModel,
    fighters: Seq<Option<LifecycleFighter>>,
    bounds: ArenaBounds,
    seat: int,
) -> bool {
    &&& fighters[seat].is_some()
    &&& has_lives(state, seat)
    &&& fighters[seat].unwrap().action.action != FighterAction::RingOut
    &&& fighters[seat].unwrap().action.action != FighterAction::Respawning
    &&& left_the_arena(fighters[seat].unwrap(), bounds) || beaten(fighters[seat].unwrap())
}

/// The match has its four seats.
pub open spec fn four_seats(state: MatchModel, fighters: Seq<Option<LifecycleFighter>>) -> bool {
    &&& state.stocks.len() == 4
    &&& state.active_slots.len() == 4
    &&& state.teams.len() == 4
    &&& fighters.len() == 4
}

/// A fighter that is in the match and in play loses a life exactly when it left the
/// arena or is beaten. Leaving counts as a ring-out, anything else as a knockout, and
/// the last attacker is named.
pub proof fn the_fallen_and_the_beaten_lose_a_life(
    state: MatchModel,
    fighters: Seq<Option<LifecycleFighter>>,
    bounds: ArenaBounds,
    seat: int,
)
    requires
        0 <= seat < 4,
        four_seats(state, fighters),
    ensures
        lives_lost(state, fighters, bounds).len() == 4,
        lives_lost(state, fighters, bounds)[seat].is_some() <==> falls(
            state,
            fighters,
            bounds,
            seat,
        ),
        falls(state, fighters, bounds, seat) ==> lives_lost(state, fighters, bounds)[seat] == Some(
            LifeLoss {
                attacker: fighters[seat].unwrap().stats.last_attacker,
                cause: if left_the_arena(fighters[seat].unwrap(), bounds) {
                    LifeLossCause::RingOut
                } else {
                    LifeLossCause::Knockout
                },
            },
        ),
{
}

/// A lost life is one life: the victim's stock falls by one where lives count, and
/// nobody else's does. Nothing but the stocks and the phase of the match changes.
pub proof fn a_fall_costs_one_life(
    state: MatchModel,
    fighters: Seq<Option<LifecycleFighter>>,
    telemetry: MatchTelemetry,
    bounds: ArenaBounds,
    tuning: FighterTuning,
    seat: int,
)
    requires
        0 <= seat < 4,
        four_seats(state, fighters),
    ensures
        ({
            let after = lifecycle_tick(state, fighters, telemetry, bounds, tuning).state;
            &&& after.stocks.len() == 4
            &&& state.rules.starting_stocks.is_some() && falls(state, fighters, bounds, seat)
                ==> after.stocks[seat] == state.stocks[seat] - 1
            &&& !(state.rules.starting_stocks.is_some() && falls(state, fighters, bounds, seat))
                ==> after.stocks[seat] == state.stocks[seat]
            &&& after == MatchModel {
                stocks: after.stocks,
                phase: after.phase,
                phase_timer: after.phase_timer,
                ..state
            }
        }),
{
    the_fallen_and_the_beaten_lose_a_life(state, fighters, bounds, seat);
    let losses = lives_lost(state, fighters, bounds);
    assert(batch_victims(losses).contains(seat) <==> losses[seat].is_some());
}

/// The seat is in the running.
pub open spec fn remains(state: MatchModel, seat: int) -> bool {
    state.active_slots[seat] && state.stocks[seat] > 0
}

/// No two seats are in the running.
pub open spec fn at_most_one_remains(state: MatchModel) -> bool {
    &&& !(remains(state, 0) && remains(state, 1))
    &&& !(remains(state, 0) && remains(state, 2))
    &&& !(remains(state, 0) && remains(state, 3))
    &&& !(remains(state, 1) && remains(state, 2))
    &&& !(remains(state, 1) && remains(state, 3))
    &&& !(remains(state, 2) && remains(state, 3))
}

pub open spec fn somebody_falls(
    state: MatchModel,
    fighters: Seq<Option<LifecycleFighter>>,
    bounds: ArenaBounds,
) -> bool {
    falls(state, fighters, bounds, 0) || falls(state, fighters, bounds, 1) || falls(
        state,
        fighters,
        bounds,
        2,
    ) || falls(state, fighters, bounds, 3)
}

proof fn lemma_victims(
    state: MatchModel,
    fighters: Seq<Option<LifecycleFighter>>,
    bounds: ArenaBounds,
)
    requires
        four_seats(state, fighters),
    ensures
        !batch_victims(lives_lost(state, fighters, bounds)).is_empty() <==> somebody_falls(
            state,
            fighters,
            bounds,
        ),
        forall|seat: int|
            0 <= seat < 4 ==> (#[trigger] batch_victims(
                lives_lost(state, fighters, bounds),
            ).contains(seat) <==> falls(state, fighters, bounds, seat)),
{
    let victims = batch_victims(lives_lost(state, fighters, bounds));
    the_fallen_and_the_beaten_lose_a_life(state, fighters, bounds, 0);
    the_fallen_and_the_beaten_lose_a_life(state, fighters, bounds, 1);
    the_fallen_and_the_beaten_lose_a_life(state, fighters, bounds, 2);
    the_fallen_and_the_beaten_lose_a_life(state, fighters, bounds, 3);
    assert(victims.contains(0) <==> falls(state, fighters, bounds, 0));
    assert(victims.contains(1) <==> falls(state, fighters, bounds, 1));
    assert(victims.contains(2) <==> falls(state, fighters, bounds, 2));
    assert(victims.contains(3) <==> falls(state, fighters, bounds, 3));
    if !victims.is_empty() {
        assert(victims.contains(victims.choose()));
    }
}

/// A match with lives ends with the fall that leaves at most one seat in the
/// running, and with no other.
pub proof fn the_last_fall_ends_the_match(
    state: MatchModel,
    fighters: Seq<Option<LifecycleFighter>>,
    telemetry: MatchTelemetry,
    bounds: ArenaBounds,
    tuning: FighterTuning,
)
    requires
        four_seats(state, fighters),
    ensures
        ({
            let tick = lifecycle_tick(state, fighters, telemetry, bounds, tuning);
            let ends = state.rules.starting_stocks.is_some() && somebody_falls(
                state,
                fighters,
                bounds,
            ) && at_most_one_remains(tick.state);
            &&& ends ==> tick.state.phase == MatchPhase::Results && tick.state.phase_timer == 0
            &&& !ends ==> tick.state.phase == state.phase && tick.state.phase_timer
                == state.phase_timer
            &&& ends <==> tick.emissions.contains(
                LifecycleEmission::Bare {
                    source: SimEventSource::Match,
                    kind: SimEventKind::MatchLifecycle { event: MatchLifecycleEvent::Results },
                },
            )
        }),
{
    lemma_victims(state, fighters, bounds);
    let tick = lifecycle_tick(state, fighters, telemetry, bounds, tuning);
    let losses = lives_lost(state, fighters, bounds);
    let resolutions = batch_resolutions(state, losses);
    let settled = all_settled(fighters, resolutions, tuning);
    let told = LifecycleEmission::Bare {
        source: SimEventSource::Match,
        kind: SimEventKind::MatchLifecycle { event: MatchLifecycleEvent::Results },
    };
    let finalized = state.rules.uses_stocks() && !batch_victims(losses).is_empty()
        && tick.state.running_count() <= 1;
    lemma_emissions_contain(state, fighters, telemetry, bounds, tuning, told);
    assert(result_emissions(finalized).contains(told) <==> finalized) by {
        if finalized {
            assert(result_emissions(finalized)[0] == told);
        }
    }
}

proof fn lemma_concat<T>(left: Seq<T>, right: Seq<T>, item: T)
    ensures
        (left + right).contains(item) <==> left.contains(item) || right.contains(item),
{
    if left.contains(item) {
        let i = left.index_of(item);
        assert((left + right)[i] == item);
    }
    if right.contains(item) {
        let i = right.index_of(item);
        assert((left + right)[left.len() + i] == item);
    }
}

/// What one seat's fall tells.
spec fn told_of(
    state: MatchModel,
    fighters: Seq<Option<LifecycleFighter>>,
    bounds: ArenaBounds,
    fighter: FighterId,
) -> Seq<LifecycleEmission> {
    let losses = lives_lost(state, fighters, bounds);
    seat_loss_emissions(fighters, losses, batch_resolutions(state, losses), fighter)
}

/// What one seat's return tells.
spec fn return_told_of(
    state: MatchModel,
    fighters: Seq<Option<LifecycleFighter>>,
    bounds: ArenaBounds,
    tuning: FighterTuning,
    fighter: FighterId,
) -> Seq<LifecycleEmission> {
    let losses = lives_lost(state, fighters, bounds);
    let resolutions = batch_resolutions(state, losses);
    return_emissions(
        state.after_losses(batch_victims(losses)),
        all_settled(fighters, resolutions, tuning),
        fighter,
    )
}

proof fn lemma_emissions_contain(
    state: MatchModel,
    fighters: Seq<Option<LifecycleFighter>>,
    telemetry: MatchTelemetry,
    bounds: ArenaBounds,
    tuning: FighterTuning,
    item: LifecycleEmission,
)
    ensures
        ({
            let tick = lifecycle_tick(state, fighters, telemetry, bounds, tuning);
            let losses = lives_lost(state, fighters, bounds);
            let finalized = state.rules.uses_stocks() && !batch_victims(losses).is_empty()
                && tick.state.running_count() <= 1;
            tick.emissions.contains(item) <==> {
                ||| told_of(state, fighters, bounds, FighterId::Zero).contains(item)
                ||| told_of(state, fighters, bounds, FighterId::One).contains(item)
                ||| told_of(state, fighters, bounds, FighterId::Two).contains(item)
                ||| told_of(state, fighters, bounds, FighterId::Three).contains(item)
                ||| result_emissions(finalized).contains(item)
                ||| return_told_of(state, fighters, bounds, tuning, FighterId::Zero).contains(item)
                ||| return_told_of(state, fighters, bounds, tuning, FighterId::One).contains(item)
                ||| return_told_of(state, fighters, bounds, tuning, FighterId::Two).contains(item)
                ||| return_told_of(state, fighters, bounds, tuning, FighterId::Three).contains(
                    item,
                )
            }
        }),
{
    let tick = lifecycle_tick(state, fighters, telemetry, bounds, tuning);
    let losses = lives_lost(state, fighters, bounds);
    let resolutions = batch_resolutions(state, losses);
    let settled = all_settled(fighters, resolutions, tuning);
    let finalized = state.rules.uses_stocks() && !batch_victims(losses).is_empty()
        && tick.state.running_count() <= 1;
    let t0 = told_of(state, fighters, bounds, FighterId::Zero);
    let t1 = told_of(state, fighters, bounds, FighterId::One);
    let t2 = told_of(state, fighters, bounds, FighterId::Two);
    let t3 = told_of(state, fighters, bounds, FighterId::Three);
    let r0 = return_told_of(state, fighters, bounds, tuning, FighterId::Zero);
    let r1 = return_told_of(state, fighters, bounds, tuning, FighterId::One);
    let r2 = return_told_of(state, fighters, bounds, tuning, FighterId::Two);
    let r3 = return_told_of(state, fighters, bounds, tuning, FighterId::Three);
    let told = all_loss_emissions(fighters, losses, resolutions);
    let results = result_emissions(finalized);
    let comebacks = all_return_emissions(tick.state, settled);
    assert(told == t0 + t1 + t2 + t3);
    assert(comebacks == r0 + r1 + r2 + r3);
    lemma_concat(t0, t1, item);
    lemma_concat(t0 + t1, t2, item);
    lemma_concat(t0 + t1 + t2, t3, item);
    lemma_concat(r0, r1, item);
    lemma_concat(r0 + r1, r2, item);
    lemma_concat(r0 + r1 + r2, r3, item);
    lemma_concat(told, results, item);
    lemma_concat(told + results, comebacks, item);
}

/// Every fall is told with its cause, where it happened, and what it means: that
/// it decided the match, that the victim is out, how many lives are left, or merely
/// that a life was lost. Where lives count, the new count is told as well.
pub proof fn falls_are_announced(
    state: MatchModel,
    fighters: Seq<Option<LifecycleFighter>>,
    telemetry: MatchTelemetry,
    bounds: ArenaBounds,
    tuning: FighterTuning,
    fighter: FighterId,
)
    requires
        four_seats(state, fighters),
        falls(state, fighters, bounds, fighter.spec_index() as int),
    ensures
        ({
            let seat = fighter.spec_index() as int;
            let body = fighters[seat].unwrap();
            let tick = lifecycle_tick(state, fighters, telemetry, bounds, tuning);
            let out = left_the_arena(body, bounds);
            let counted = state.rules.starting_stocks.is_some();
            let left = tick.state.stocks[seat];
            &&& tick.emissions.contains(
                LifecycleEmission::Presented(
                    PendingFighterPresentationIntent {
                        fighter,
                        fighter_name: body.name,
                        event: PendingFighterPresentationEvent::Lifecycle(
                            if out {
                                FighterLifecycleEvent::RingOut
                            } else {
                                FighterLifecycleEvent::Knockout
                            },
                        ),
                        kind: FighterPresentationKind::LifeLost {
                            position: body.position,
                            ring_out: out,
                            announcement: if counted && at_most_one_remains(tick.state) {
                                FighterLifeLossAnnouncement::MatchDecided
                            } else if counted && left == 0 {
                                FighterLifeLossAnnouncement::Eliminated
                            } else if counted {
                                FighterLifeLossAnnouncement::StockRemaining(left)
                            } else {
                                FighterLifeLossAnnouncement::LifeLost
                            },
                        },
                    },
                ),
            )
            &&& counted && left <= 255 ==> tick.emissions.contains(
                LifecycleEmission::Bare {
                    source: SimEventSource::Fighter(fighter),
                    kind: SimEventKind::StockLost { fighter, stocks_remaining: left as u8 },
                },
            )
        }),
{
    let seat = fighter.spec_index() as int;
    the_fallen_and_the_beaten_lose_a_life(state, fighters, bounds, seat);
    a_fall_costs_one_life(state, fighters, telemetry, bounds, tuning, seat);
    let body = fighters[seat].unwrap();
    let tick = lifecycle_tick(state, fighters, telemetry, bounds, tuning);
    let told = told_of(state, fighters, bounds, fighter);
    let counted = state.rules.starting_stocks.is_some();
    let left = tick.state.stocks[seat];
    lemma_emissions_contain(state, fighters, telemetry, bounds, tuning, told.last());
    assert(told.contains(told.last())) by {
        assert(told[told.len() - 1] == told.last());
    }
    if counted {
        lemma_emissions_contain(state, fighters, telemetry, bounds, tuning, told[0]);
        assert(told.contains(told[0]));
    }
}

/// The attacker is credited with the victim's fall.
pub open spec fn credited(
    state: MatchModel,
    fighters: Seq<Option<LifecycleFighter>>,
    bounds: ArenaBounds,
    attacker: FighterId,
    victim: int,
) -> bool {
    let by = attacker.spec_index() as int;
    &&& falls(state, fighters, bounds, victim)
    &&& fighters[victim].unwrap().stats.last_attacker == Some(attacker)
    &&& by != victim
    &&& has_lives(state, by)
    &&& !(state.rules.team_scoring && !state.rules.friendly_fire && state.teams[by]
        == state.teams[victim])
}

pub open spec fn one_if(condition: bool) -> int {
    if condition {
        1
    } else {
        0
    }
}

/// Every fall is a point for the last attacker, if that is an opponent still in the
/// match. Nobody else's score changes.
pub proof fn falls_are_points_for_the_attacker(
    state: MatchModel,
    fighters: Seq<Option<LifecycleFighter>>,
    telemetry: MatchTelemetry,
    bounds: ArenaBounds,
    tuning: FighterTuning,
    fighter: FighterId,
)
    requires
        four_seats(state, fighters),
        fighters[fighter.spec_index() as int].is_some(),
        fighters[fighter.spec_index() as int].unwrap().stats.score <= i32::MAX - 4,
    ensures
        ({
            let seat = fighter.spec_index() as int;
            let after = lifecycle_tick(state, fighters, telemetry, bounds, tuning).fighters[seat];
            &&& after.is_some()
            &&& after.unwrap().stats.score == fighters[seat].unwrap().stats.score + one_if(
                credited(state, fighters, bounds, fighter, 0),
            ) + one_if(credited(state, fighters, bounds, fighter, 1)) + one_if(
                credited(state, fighters, bounds, fighter, 2),
            ) + one_if(credited(state, fighters, bounds, fighter, 3))
        }),
{
    lemma_awards(state, fighters, bounds, fighter, 0);
    lemma_awards(state, fighters, bounds, fighter, 1);
    lemma_awards(state, fighters, bounds, fighter, 2);
    lemma_awards(state, fighters, bounds, fighter, 3);
    let seat = fighter.spec_index() as int;
    let losses = lives_lost(state, fighters, bounds);
    let resolutions = batch_resolutions(state, losses);
    let before = fighters[seat].unwrap();
    lemma_score(before, credits(resolutions, seat), resolutions[seat], tuning);
    assert(all_settled(fighters, resolutions, tuning)[seat] == Some(
        settled(before, credits(resolutions, seat), resolutions[seat], tuning),
    ));
}

proof fn lemma_score(
    body: LifecycleFighter,
    points: int,
    resolution: Option<RingoutResolution>,
    tuning: FighterTuning,
)
    requires
        0 <= points <= 4,
        body.stats.score <= i32::MAX - 4,
    ensures
        settled(body, points, resolution, tuning).stats.score == body.stats.score + points,
        recovered(settled(body, points, resolution, tuning), tuning).stats.score
            == body.stats.score + points,
{
}

proof fn lemma_awards(
    state: MatchModel,
    fighters: Seq<Option<LifecycleFighter>>,
    bounds: ArenaBounds,
    attacker: FighterId,
    victim: int,
)
    requires
        0 <= victim < 4,
        four_seats(state, fighters),
    ensures
        ({
            let resolution = batch_resolutions(state, lives_lost(state, fighters, bounds))[victim];
            credited(state, fighters, bounds, attacker, victim) <==> resolution.is_some()
                && resolution.unwrap().awarded_to == Some(attacker.spec_index())
        }),
{
    the_fallen_and_the_beaten_lose_a_life(state, fighters, bounds, victim);
}

/// The seat leaves the arena, and somebody is credited with it.
pub open spec fn credited_ring_out(
    state: MatchModel,
    fighters: Seq<Option<LifecycleFighter>>,
    bounds: ArenaBounds,
    seat: int,
) -> bool {
    &&& falls(state, fighters, bounds, seat)
    &&& left_the_arena(fighters[seat].unwrap(), bounds)
    &&& {
        ||| credited(state, fighters, bounds, FighterId::Zero, seat)
        ||| credited(state, fighters, bounds, FighterId::One, seat)
        ||| credited(state, fighters, bounds, FighterId::Two, seat)
        ||| credited(state, fighters, bounds, FighterId::Three, seat)
    }
}

/// The seat leaves the arena, and nobody is credited with it.
pub open spec fn mere_fall(
    state: MatchModel,
    fighters: Seq<Option<LifecycleFighter>>,
    bounds: ArenaBounds,
    seat: int,
) -> bool {
    &&& falls(state, fighters, bounds, seat)
    &&& left_the_arena(fighters[seat].unwrap(), bounds)
    &&& !credited_ring_out(state, fighters, bounds, seat)
}

/// The match counts ring-outs somebody is credited with and mere falls apart, and
/// knockouts not at all.
pub proof fn ring_outs_and_falls_are_counted_apart(
    state: MatchModel,
    fighters: Seq<Option<LifecycleFighter>>,
    telemetry: MatchTelemetry,
    bounds: ArenaBounds,
    tuning: FighterTuning,
)
    requires
        four_seats(state, fighters),
        telemetry.ring_outs <= u32::MAX - 4,
        telemetry.falls <= u32::MAX - 4,
    ensures
        ({
            let after = lifecycle_tick(state, fighters, telemetry, bounds, tuning).telemetry;
            &&& after == MatchTelemetry {
                ring_outs: after.ring_outs,
                falls: after.falls,
                ..telemetry
            }
            &&& after.ring_outs == telemetry.ring_outs + one_if(
                credited_ring_out(state, fighters, bounds, 0),
            ) + one_if(credited_ring_out(state, fighters, bounds, 1)) + one_if(
                credited_ring_out(state, fighters, bounds, 2),
            ) + one_if(credited_ring_out(state, fighters, bounds, 3))
            &&& after.falls == telemetry.falls + one_if(mere_fall(state, fighters, bounds, 0))
                + one_if(mere_fall(state, fighters, bounds, 1)) + one_if(
                mere_fall(state, fighters, bounds, 2),
            ) + one_if(mere_fall(state, fighters, bounds, 3))
        }),
{
    lemma_counted(state, fighters, bounds, 0);
    lemma_counted(state, fighters, bounds, 1);
    lemma_counted(state, fighters, bounds, 2);
    lemma_counted(state, fighters, bounds, 3);
}

proof fn lemma_counted(
    state: MatchModel,
    fighters: Seq<Option<LifecycleFighter>>,
    bounds: ArenaBounds,
    seat: int,
)
    requires
        0 <= seat < 4,
        four_seats(state, fighters),
    ensures
        ({
            let losses = lives_lost(state, fighters, bounds);
            let resolution = batch_resolutions(state, losses)[seat];
            let out = losses[seat].is_some() && losses[seat].unwrap().cause
                == LifeLossCause::RingOut;
            &&& losses[seat].is_some() <==> resolution.is_some()
            &&& credited_ring_out(state, fighters, bounds, seat) <==> out
                && resolution.unwrap().awarded_to.is_some()
            &&& mere_fall(state, fighters, bounds, seat) <==> out
                && resolution.unwrap().awarded_to.is_none()
        }),
{
    the_fallen_and_the_beaten_lose_a_life(state, fighters, bounds, seat);
    lemma_awards(state, fighters, bounds, FighterId::Zero, seat);
    lemma_awards(state, fighters, bounds, FighterId::One, seat);
    lemma_awards(state, fighters, bounds, FighterId::Two, seat);
    lemma_awards(state, fighters, bounds, FighterId::Three, seat);
}

/// Nothing of a dash, a guard or a hit is left in a motor.
pub open spec fn at_ease(motor: FighterMotor) -> bool {
    &&& !motor.knockdown_on_land
    &&& motor.landing_aftermath.is_none()
    &&& motor.reaction_bounces == 0
    &&& motor.pig_air_meat_slam_air_hits == 0
    &&& !motor.air_attack_used
    &&& !motor.jump_attack_landing_recovery
    &&& !motor.bee_air_dash_motion_active
    &&& !motor.bee_air_dash_shot_available
    &&& motor.landing_stick_timer.remaining == 0
    &&& motor.jump_takeoff_timer.remaining == 0
    &&& motor.dash_slide_timer.remaining == 0
    &&& motor.dash_jump_carry_timer.remaining == 0
    &&& motor.dash_jump_carry_speed_limit.bits == 0
    &&& motor.impact_speed_limit_timer.remaining == 0
    &&& motor.impact_speed_limit.bits == 0
    &&& motor.guard_active_timer.ticks == 0
    &&& motor.guard_cooldown_timer.remaining == 0
    &&& motor.guard_start_buffer_timer.remaining == 0
    &&& !motor.guard_was_requested
}

/// Nothing is queued or left of a reaction in a fighter's action.
pub open spec fn undisturbed(body: LifecycleFighter) -> bool {
    &&& !body.action.queued_combo
    &&& body.action.queued_technique.is_none()
    &&& body.action.queued_button.is_none()
    &&& body.action.buffered_button.is_none()
    &&& body.action.buffered_button_elapsed.ticks == 0
    &&& body.action.timeline_events_fired == 0
    &&& body.action.reaction_getup_ms.is_none()
    &&& body.action.reaction_recover_ms.is_none()
    &&& body.action.reaction_family.is_none()
}

/// Who falls lies out of the arena, stopped and free of everything that it did or
/// suffered, where it fell. It waits for its delay, or for nothing when that was its
/// last life; the tick of the fall counts toward the delay.
pub proof fn the_fallen_wait_out_of_play(
    state: MatchModel,
    fighters: Seq<Option<LifecycleFighter>>,
    telemetry: MatchTelemetry,
    bounds: ArenaBounds,
    tuning: FighterTuning,
    seat: int,
)
    requires
        0 <= seat < 4,
        four_seats(state, fighters),
        falls(state, fighters, bounds, seat),
        1 < tuning.respawn_delay < u32::MAX,
    ensures
        ({
            let before = fighters[seat].unwrap();
            let tick = lifecycle_tick(state, fighters, telemetry, bounds, tuning);
            let after = tick.fighters[seat].unwrap();
            let last = state.rules.starting_stocks.is_some() && state.stocks[seat] == 1;
            &&& after.action.action == FighterAction::RingOut
            &&& after.action.elapsed.ticks == 0
            &&& !after.action.hitbox_spawned
            &&& undisturbed(after)
            &&& at_ease(after.motor)
            &&& after.motor.grounded == before.motor.grounded
            &&& after.halted
            &&& after.drunk.remaining.remaining == 0
            &&& after.ultimate.target.is_none()
            &&& after.ultimate.owner.is_none()
            &&& after.position == before.position
            &&& after.spawn == before.spawn
            &&& after.stats.health == before.stats.health
            &&& after.stats.stamina == before.stats.stamina
            &&& after.stats.last_attacker == before.stats.last_attacker
            &&& after.stats.health_refill_timer.remaining == 0
            &&& last ==> after.stats.respawn_timer.remaining == 0
            &&& !last ==> after.stats.respawn_timer.remaining == tuning.respawn_delay - 1
        }),
{
    the_fallen_and_the_beaten_lose_a_life(state, fighters, bounds, seat);
    a_fall_costs_one_life(state, fighters, telemetry, bounds, tuning, seat);
}

/// Who waits comes back in the tick in which its delay runs out: at its spawn, on
/// the ground, with full health and stamina, without an attacker, safe for a while
/// and rid of items, elements and drink. It is told.
pub proof fn the_fallen_come_back(
    state: MatchModel,
    fighters: Seq<Option<LifecycleFighter>>,
    telemetry: MatchTelemetry,
    bounds: ArenaBounds,
    tuning: FighterTuning,
    fighter: FighterId,
)
    requires
        four_seats(state, fighters),
        fighters[fighter.spec_index() as int].is_some(),
        has_lives(state, fighter.spec_index() as int),
        fighters[fighter.spec_index() as int].unwrap().action.action == FighterAction::RingOut,
        fighters[fighter.spec_index() as int].unwrap().stats.respawn_timer.remaining < u32::MAX,
    ensures
        ({
            let seat = fighter.spec_index() as int;
            let before = fighters[seat].unwrap();
            let tick = lifecycle_tick(state, fighters, telemetry, bounds, tuning);
            let after = tick.fighters[seat].unwrap();
            let due = before.stats.respawn_timer.remaining <= 1;
            &&& after.drunk.remaining.remaining == 0
            &&& !due ==> {
                &&& after.stats.respawn_timer.remaining == before.stats.respawn_timer.remaining - 1
                &&& after.action == before.action
                &&& after.motor == before.motor
                &&& after.position == before.position
                &&& after.stats.health == before.stats.health
            }
            &&& due ==> {
                &&& after.action.action == FighterAction::Respawning
                &&& after.action.elapsed.ticks == 0
                &&& undisturbed(after)
                &&& at_ease(after.motor)
                &&& after.motor.grounded
                &&& after.motor.ledge_grace_timer.remaining == 0
                &&& after.position == before.spawn
                &&& after.halted
                &&& after.ultimate.target.is_none()
                &&& after.ultimate.owner.is_none()
                &&& after.stats.health == tuning.max_health
                &&& after.stats.stamina == tuning.max_stamina
                &&& after.stats.last_attacker.is_none()
                &&& after.stats.invulnerability.remaining == tuning.respawn_invulnerable
                &&& after.stats.respawn_timer.remaining == 0
                &&& after.stats.health_refill_timer.remaining == 0
                &&& after.stats.item_speed_timer.remaining == 0
                &&& after.stats.item_giant_timer.remaining == 0
                &&& after.stats.element_carry.is_none()
                &&& after.stats.element_carry_strength.bits == 0
                &&& after.stats.element_carry_timer.remaining == 0
                &&& tick.emissions.contains(
                    LifecycleEmission::Presented(
                        PendingFighterPresentationIntent {
                            fighter,
                            fighter_name: before.name,
                            event: PendingFighterPresentationEvent::Respawned,
                            kind: FighterPresentationKind::Respawned { position: before.spawn },
                        },
                    ),
                )
            }
        }),
{
    let seat = fighter.spec_index() as int;
    the_fallen_and_the_beaten_lose_a_life(state, fighters, bounds, seat);
    a_fall_costs_one_life(state, fighters, telemetry, bounds, tuning, seat);
    let before = fighters[seat].unwrap();
    let tick = lifecycle_tick(state, fighters, telemetry, bounds, tuning);
    let told = return_told_of(state, fighters, bounds, tuning, fighter);
    if before.stats.respawn_timer.remaining <= 1 {
        assert(told.len() == 1);
        lemma_emissions_contain(state, fighters, telemetry, bounds, tuning, told[0]);
        assert(told.contains(told[0]));
    }
}

/// Who came back stands for twenty-seven ticks and then may act.
pub proof fn the_returned_stand_for_a_while(
    state: MatchModel,
    fighters: Seq<Option<LifecycleFighter>>,
    telemetry: MatchTelemetry,
    bounds: ArenaBounds,
    tuning: FighterTuning,
    seat: int,
)
    requires
        0 <= seat < 4,
        four_seats(state, fighters),
        fighters[seat].is_some(),
        has_lives(state, seat),
        fighters[seat].unwrap().action.action == FighterAction::Respawning,
    ensures
        ({
            let before = fighters[seat].unwrap();
            let after = lifecycle_tick(
                state,
                fighters,
                telemetry,
                bounds,
                tuning,
            ).fighters[seat].unwrap();
            &&& before.action.elapsed.ticks < 26 ==> after.action.action
                == FighterAction::Respawning && after.action.elapsed.ticks
                == before.action.elapsed.ticks + 1
            &&& before.action.elapsed.ticks >= 26 ==> after.action.action == FighterAction::Idle
                && after.action.elapsed.ticks == 0 && undisturbed(after)
            &&& after.motor == before.motor
            &&& after.position == before.position
            &&& after.stats.health == before.stats.health
        }),
{
    the_fallen_and_the_beaten_lose_a_life(state, fighters, bounds, seat);
    a_fall_costs_one_life(state, fighters, telemetry, bounds, tuning, seat);
}

/// Who is in play and does not fall, and who is out of the match, stays as it is,
/// but for points.
pub proof fn everybody_else_stays(
    state: MatchModel,
    fighters: Seq<Option<LifecycleFighter>>,
    telemetry: MatchTelemetry,
    bounds: ArenaBounds,
    tuning: FighterTuning,
    seat: int,
)
    requires
        0 <= seat < 4,
        four_seats(state, fighters),
        fighters[seat].is_some(),
        !falls(state, fighters, bounds, seat),
        has_lives(state, seat) ==> fighters[seat].unwrap().action.action != FighterAction::RingOut
            && fighters[seat].unwrap().action.action != FighterAction::Respawning,
    ensures
        ({
            let before = fighters[seat].unwrap();
            let after = lifecycle_tick(state, fighters, telemetry, bounds, tuning).fighters[seat];
            after == Some(
                LifecycleFighter {
                    stats: FighterStats { score: after.unwrap().stats.score, ..before.stats },
                    ..before
                },
            )
        }),
{
    the_fallen_and_the_beaten_lose_a_life(state, fighters, bounds, seat);
    a_fall_costs_one_life(state, fighters, telemetry, bounds, tuning, seat);
}

/// Drink wears off tick by tick. It is gone at once when a fight begins or is over,
/// and for a fighter that is out of the match, out of the arena or coming back.
/// Hitstop holds it.
pub proof fn drink_wears_off(status: DrunkStatus, context: DrunkContext)
    requires
        status.remaining.remaining < u32::MAX,
    ensures
        ({
            let after = drunk_ticked(status, context).remaining.remaining;
            let before = status.remaining.remaining;
            let plays = context.fighting && !context.entering_fight && context.can_participate
                && context.action != FighterAction::RingOut && context.action
                != FighterAction::Respawning;
            &&& !plays ==> after == 0
            &&& plays && context.hitstop ==> after == before
            &&& plays && !context.hitstop && before > 0 ==> after == before - 1
            &&& plays && !context.hitstop && before == 0 ==> after == 0
        }),
{
}

/// A bubble rises in the first tick after the drink and then once per cadence, while
/// the drink lasts. The bubbles count up from nothing.
pub proof fn bubbles_rise_in_step(status: DrunkStatus, context: DrunkContext, tuning: DrunkTuning)
    requires
        context.fighting,
        !context.entering_fight,
        context.can_participate,
        context.action != FighterAction::RingOut,
        context.action != FighterAction::Respawning,
        tuning.bubble_cadence > 0,
        0 < status.remaining.remaining <= tuning.duration,
        status.remaining.remaining < u32::MAX,
    ensures
        ({
            let bubble = drunk_bubble(status, context, tuning);
            let passed = tuning.duration - status.remaining.remaining;
            &&& bubble.is_some() <==> !context.hitstop && status.remaining.remaining > 1 && passed
                % (tuning.bubble_cadence as int) == 0
            &&& bubble.is_some() ==> bubble.unwrap() * tuning.bubble_cadence == passed
        }),
{
    let passed = tuning.duration - status.remaining.remaining;
    let cadence = tuning.bubble_cadence as int;
    vstd::arithmetic::div_mod::lemma_fundamental_div_mod(passed, cadence);
    assert(0 <= passed / cadence <= passed) by (nonlinear_arith)
        requires
            passed >= 0,
            cadence > 0,
    ;
    let bubble = drunk_bubble(status, context, tuning);
    if bubble.is_some() {
        assert((passed / cadence) * cadence == cadence * (passed / cadence)) by (nonlinear_arith);
    }
}

/// A practice partner's health is full again in the tick after any damage that left
/// it some; an element lets go of it then. Neither is anybody revived, nor touched out
/// of the arena, and whatever the refill was waiting for is forgotten.
pub proof fn practice_partners_recover(
    stats: FighterStats,
    body: LifecycleFighter,
    max_health: Scalar,
)
    ensures
        ({
            let after = practice_refilled(stats, body.action, max_health);
            let away = body.action.action == FighterAction::RingOut || body.action.action
                == FighterAction::Respawning;
            let empty = stats.health.le(Scalar { bits: 0 });
            let hurt = stats.health.lt(max_health);
            &&& !away && !empty && hurt ==> {
                &&& after.health == max_health
                &&& after.element_carry.is_none()
                &&& after.element_carry_strength.bits == 0
                &&& after.element_carry_timer.remaining == 0
            }
            &&& away || empty || !hurt ==> {
                &&& after.health == stats.health
                &&& after.element_carry == stats.element_carry
                &&& after.element_carry_timer == stats.element_carry_timer
            }
            &&& away || empty || hurt ==> after.health_refill_timer.remaining == 0
            &&& after.stamina == stats.stamina
            &&& after.score == stats.score
            &&& after.last_attacker == stats.last_attacker
            &&& after.invulnerability == stats.invulnerability
            &&& after.respawn_timer == stats.respawn_timer
        }),
{
}

} // verus!

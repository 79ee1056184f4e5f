//! What is shown, told and faded.

use vstd::prelude::*;

use crate::feedback::{
    CueSource, LifecycleCue, LifecycleEffect, LifecycleSound, cue_for, decimal, effect_for,
    life_lost_message, message_for, shake_for, signed_decimal, sound_for, spec_phase_cue,
};
use crate::ids::FighterId;
use crate::match_state::{MatchPhase, MatchPhaseEvent};
use crate::movement::{LandingKind, felt_intents, landing_intents};
use crate::pending::pending_event_kind;
use crate::presentation::{
    FighterLifeLossAnnouncement, FighterPresentationKind, event_kind_for,
};
use crate::reaction::{ReactionFamilyId, aftermath_feedback_priority, aftermath_landing_shake};
use crate::scalar::SimVec3;
use crate::step::{StepPresentation, step_intent};
use crate::transition::{
    GameTransition, GameTransitionReveal, GameTransitionStage, reveal_is_ready,
};

verus! {

/// How long a stage of a transition takes, in milliseconds.
pub open spec fn stage_millis(stage: GameTransitionStage) -> int {
    match stage {
        GameTransitionStage::Idle => 0,
        GameTransitionStage::FadingOut => 180,
        GameTransitionStage::Covered => 60,
        GameTransitionStage::FadingIn => 260,
    }
}

/// A transition rests when idle, and while it is covered as long as its action is not
/// done or the other side is not ready. Otherwise its time runs, and each stage gives
/// way to the next when its time is over: fading out, covered, fading in, idle again.
pub proof fn transitions_go_stage_by_stage(transition: GameTransition, delta: u64, ready: bool)
    requires
        transition.wf(),
    ensures
        ({
            let (after, ended) = transition.advanced(delta, ready);
            let stage = transition.stage;
            let rests = stage == GameTransitionStage::Idle || stage == GameTransitionStage::Covered
                && !(transition.committed && ready);
            let over = transition.elapsed + delta >= stage_millis(stage) * 1_000_000;
            &&& rests ==> after == transition && !ended
            &&& !rests && !over ==> after.stage == stage && after.elapsed == transition.elapsed
                + delta && !ended
            &&& !rests && over ==> {
                &&& after.elapsed == 0
                &&& after.stage == (if stage == GameTransitionStage::FadingOut {
                    GameTransitionStage::Covered
                } else if stage == GameTransitionStage::Covered {
                    GameTransitionStage::FadingIn
                } else {
                    GameTransitionStage::Idle
                })
                &&& ended <==> stage == GameTransitionStage::FadingIn
            }
            &&& !ended ==> after.action == transition.action && after.reveal == transition.reveal
                && after.committed == transition.committed
            &&& ended ==> after.action.is_none() && !after.committed
        }),
{
}

/// The action of a transition is due while the screen is covered and it is not done.
pub proof fn actions_wait_for_the_cover(transition: GameTransition)
    ensures
        transition.pending_action() == (if transition.stage == GameTransitionStage::Covered
            && !transition.committed {
            transition.action
        } else {
            None
        }),
{
}

/// A battle is revealed when its scene is there and it fights, a lesson when it was
/// prompted, and anything else at once.
pub proof fn reveals_wait_for_their_side(scene: bool, phase: MatchPhase, prompted: bool)
    ensures
        reveal_is_ready(GameTransitionReveal::Immediate, scene, phase, prompted),
        reveal_is_ready(GameTransitionReveal::BattleReady, scene, phase, prompted) <==> scene
            && phase == MatchPhase::Fighting,
        reveal_is_ready(GameTransitionReveal::TutorialLessonReady, scene, phase, prompted)
            <==> prompted,
{
}

/// The screen is clear when idle and dark when covered. Fading out, it is darker the
/// more of the stage is over; fading in, lighter. Halfway through either it is half
/// dark.
pub proof fn fades_pass_the_middle(transition: GameTransition)
    requires
        transition.wf(),
    ensures
        ({
            let alpha = transition.spec_alpha();
            &&& transition.stage == GameTransitionStage::Idle ==> alpha.part == 0
            &&& transition.stage == GameTransitionStage::Covered ==> alpha.part == alpha.whole
            &&& transition.stage == GameTransitionStage::FadingOut && transition.elapsed == 0
                ==> alpha.part == 0
            &&& transition.stage == GameTransitionStage::FadingIn && transition.elapsed == 0
                ==> alpha.part == alpha.whole
            &&& transition.stage == GameTransitionStage::FadingOut && transition.elapsed
                == 90_000_000 ==> 2 * alpha.part == alpha.whole
            &&& transition.stage == GameTransitionStage::FadingIn && transition.elapsed
                == 130_000_000 ==> 2 * alpha.part == alpha.whole
        }),
{
    assert(180_000_000int * 180_000_000 * 180_000_000 == 5_832_000_000_000_000_000_000_000)
        by (nonlinear_arith);
    assert(260_000_000int * 260_000_000 * 260_000_000 == 17_576_000_000_000_000_000_000_000)
        by (nonlinear_arith);
    assert(90_000_000int * 90_000_000 * 360_000_000 == 2_916_000_000_000_000_000_000_000)
        by (nonlinear_arith);
    assert(130_000_000int * 130_000_000 * 520_000_000 == 8_788_000_000_000_000_000_000_000)
        by (nonlinear_arith);
    assert(0int * 0 * 540_000_000 == 0) by (nonlinear_arith);
    assert(0int * 0 * 780_000_000 == 0) by (nonlinear_arith);
}

/// What digits say.
pub open spec fn number_read(digits: Seq<char>) -> int
    decreases digits.len(),
{
    if digits.len() == 0 {
        0
    } else {
        number_read(digits.drop_last()) * 10 + (digits.last() as int - '0' as int)
    }
}

/// A number is written with digits that say it, and without a leading zero.
pub proof fn numbers_read_back(value: nat)
    ensures
        number_read(decimal(value)) == value,
        decimal(value).len() > 0,
        value > 0 ==> decimal(value)[0] != '0',
        forall|i: int|
            0 <= i < decimal(value).len() ==> '0' <= #[trigger] decimal(value)[i] <= '9',
    decreases value,
{
    let digits = decimal(value);
    if value >= 10 {
        numbers_read_back(value / 10);
        assert(digits.drop_last() =~= decimal(value / 10));
        assert(digits[0] == decimal(value / 10)[0]);
    } else {
        assert(digits.drop_last() =~= Seq::<char>::empty());
        assert(number_read(Seq::<char>::empty()) == 0);
    }
}

/// A lost life is announced by name, unless it decided the match: out for good, or how
/// it was lost and, where lives count, how many are left, in the singular for one.
pub proof fn losses_are_worded(name: Seq<char>, ring_out: bool, stock: i32)
    ensures
        ({
            let decided = life_lost_message(
                name,
                ring_out,
                FighterLifeLossAnnouncement::MatchDecided,
            );
            let out = life_lost_message(name, ring_out, FighterLifeLossAnnouncement::Eliminated);
            let lost = life_lost_message(name, ring_out, FighterLifeLossAnnouncement::LifeLost);
            let left = life_lost_message(
                name,
                ring_out,
                FighterLifeLossAnnouncement::StockRemaining(stock),
            );
            &&& decided == "Life match decided - press R"@
            &&& out == name + " eliminated"@
            &&& lost == name + (if ring_out {
                " ring out"@
            } else {
                " KO"@
            })
            &&& left == lost + (" - "@ + signed_decimal(stock as int) + (if stock == 1 {
                " life left"@
            } else {
                " lives left"@
            }))
        }),
        stock >= 0 ==> signed_decimal(stock as int) == decimal(stock as nat),
        stock < 0 ==> signed_decimal(stock as int) == seq!['-'] + decimal((-stock) as nat),
{
    let lost = life_lost_message(name, ring_out, FighterLifeLossAnnouncement::LifeLost);
    let left = life_lost_message(
        name,
        ring_out,
        FighterLifeLossAnnouncement::StockRemaining(stock),
    );
    let tail = " - "@ + signed_decimal(stock as int) + (if stock == 1 {
        " life left"@
    } else {
        " lives left"@
    });
    assert(left =~= lost + tail);
}

/// Time up and the results are announced differently, the results longer and before
/// the other.
pub proof fn phases_are_announced()
    ensures
        spec_phase_cue(MatchPhaseEvent::TimeUp).message == "Time up",
        spec_phase_cue(MatchPhaseEvent::TimeUp).cue == "match_timeup",
        spec_phase_cue(MatchPhaseEvent::TimeUp).message_ms == 1100,
        spec_phase_cue(MatchPhaseEvent::Results).message == "Results - press R",
        spec_phase_cue(MatchPhaseEvent::Results).cue == "match_results",
        spec_phase_cue(MatchPhaseEvent::Results).message_ms == 1400,
        spec_phase_cue(MatchPhaseEvent::Results).priority > spec_phase_cue(
            MatchPhaseEvent::TimeUp,
        ).priority,
{
}

/// Landings and bounces puff up dust; a wall or the ground is heard for every bounce
/// and for a knockdown, which shows nothing; a plain landing is not heard.
pub proof fn impacts_are_shown_and_heard(fighter: FighterId, position: SimVec3)
    ensures
        ({
            let wall = FighterPresentationKind::WallBounced { position };
            let ground = FighterPresentationKind::GroundBounced { position };
            let down = FighterPresentationKind::KnockdownLanded { position };
            let landed = FighterPresentationKind::Landed { position };
            &&& effect_for(fighter, wall) == Some(LifecycleEffect::DustPuff)
            &&& effect_for(fighter, ground) == Some(LifecycleEffect::DustPuff)
            &&& effect_for(fighter, landed) == Some(LifecycleEffect::DustPuff)
            &&& effect_for(fighter, down).is_none()
            &&& sound_for(wall) == Some(LifecycleSound::WallImpact { priority: 52 })
            &&& sound_for(ground) == Some(LifecycleSound::GroundImpact { priority: 50 })
            &&& sound_for(down) == Some(LifecycleSound::GroundImpact { priority: 46 })
            &&& sound_for(landed).is_none()
            &&& cue_for(wall).is_none() && cue_for(ground).is_none() && cue_for(down).is_none()
                && cue_for(landed).is_none()
            &&& shake_for(wall) == 0 && shake_for(ground) == 0 && shake_for(down) == 0
                && shake_for(landed) == 0
        }),
{
}

/// Only a ring-out bursts and sounds; every lost life is announced, as is every return,
/// with its column. Nothing else of a fighter is put into words.
pub proof fn lives_are_announced(
    fighter: FighterId,
    name: Seq<char>,
    kind: FighterPresentationKind,
)
    ensures
        message_for(name, kind).is_some() <==> {
            ||| kind matches FighterPresentationKind::LifeLost { .. }
            ||| kind matches FighterPresentationKind::Respawned { .. }
        },
        kind matches FighterPresentationKind::LifeLost { ring_out, announcement, .. } ==> {
            &&& message_for(name, kind) == Some(
                (life_lost_message(name, ring_out, announcement), 1100u32),
            )
            &&& effect_for(fighter, kind) == (if ring_out {
                Some(LifecycleEffect::RingOutBurst)
            } else {
                None
            })
            &&& cue_for(kind) == (if ring_out {
                Some(LifecycleCue::RingOutProfile)
            } else {
                None
            })
            &&& sound_for(kind).is_none()
        },
        kind matches FighterPresentationKind::Respawned { .. } ==> {
            &&& message_for(name, kind) == Some((name + " returns"@, 900u32))
            &&& effect_for(fighter, kind) == Some(LifecycleEffect::RespawnColumn)
            &&& cue_for(kind) == Some(
                LifecycleCue::Named {
                    cue: "respawn_return",
                    source: CueSource::MatchFlow,
                    priority: 16,
                },
            )
        },
{
}

/// The aftermath of a landing pulses, sounds and shakes after its family, with the cue
/// that it brings along and its family's rank.
pub proof fn aftermaths_follow_their_family(
    fighter: FighterId,
    position: SimVec3,
    family: ReactionFamilyId,
    cue: &'static str,
)
    ensures
        ({
            let kind = FighterPresentationKind::LandingAftermath { position, family, cue };
            &&& effect_for(fighter, kind) == Some(LifecycleEffect::AftermathPulse(family))
            &&& sound_for(kind) == Some(LifecycleSound::AftermathImpact(family))
            &&& shake_for(kind) == aftermath_landing_shake(family)
            &&& cue_for(kind) == Some(
                LifecycleCue::Named {
                    cue,
                    source: CueSource::FighterStrike,
                    priority: aftermath_feedback_priority(family),
                },
            )
        }),
        aftermath_feedback_priority(ReactionFamilyId::AirFishKnockdown)
            > aftermath_feedback_priority(ReactionFamilyId::GroundBounceDown)
            > aftermath_feedback_priority(ReactionFamilyId::AerialSpikeDown)
            > aftermath_feedback_priority(ReactionFamilyId::GroundedDownGetup)
            > aftermath_feedback_priority(ReactionFamilyId::LauncherDown),
        family != ReactionFamilyId::AirFishKnockdown && family != ReactionFamilyId::GroundBounceDown
            && family != ReactionFamilyId::AerialSpikeDown && family
            != ReactionFamilyId::GroundedDownGetup ==> aftermath_feedback_priority(family) == 42
            && aftermath_landing_shake(family) == 18,
{
}

/// Getting up flashes and shakes, control that is back is only cued, a dash leaves its
/// trail, and a bubble is its fighter's with its number.
pub proof fn recoveries_and_trails_are_shown(
    fighter: FighterId,
    position: SimVec3,
    direction: SimVec3,
    phase: u32,
)
    ensures
        ({
            let started = FighterPresentationKind::RecoveryStarted { position };
            let done = FighterPresentationKind::RecoveryCompleted;
            let trail = FighterPresentationKind::DashTrail { position, direction };
            let bubble = FighterPresentationKind::DrunkBubble { position, phase };
            &&& effect_for(fighter, started) == Some(LifecycleEffect::GuardFlash)
            &&& shake_for(started) == 12
            &&& cue_for(started) == Some(
                LifecycleCue::Named {
                    cue: "reaction_getup_transition",
                    source: CueSource::FighterStrike,
                    priority: 44,
                },
            )
            &&& effect_for(fighter, done).is_none()
            &&& cue_for(done) == Some(
                LifecycleCue::Named {
                    cue: "reaction_recover_control",
                    source: CueSource::FighterStrike,
                    priority: 28,
                },
            )
            &&& effect_for(fighter, trail) == Some(LifecycleEffect::DashTrail)
            &&& cue_for(trail).is_none()
            &&& effect_for(fighter, bubble) == Some(
                LifecycleEffect::DrunkBubble { fighter: fighter.spec_index(), phase },
            )
            &&& shake_for(done) == 0 && shake_for(trail) == 0 && shake_for(bubble) == 0
            &&& sound_for(started).is_none() && sound_for(done).is_none()
                && sound_for(trail).is_none() && sound_for(bubble).is_none()
        }),
{
}

/// What a tick shows belongs to its fighter, and its event to its payload: a trail lies
/// where the fighter is and points its way, a recovery flashes above it.
pub proof fn ticks_show_their_own(
    owner: FighterId,
    name: &'static str,
    presentation: StepPresentation,
    position: SimVec3,
    above: SimVec3,
    direction: SimVec3,
)
    ensures
        ({
            let intent = step_intent(owner, name, presentation, position, above, direction);
            &&& intent.fighter == owner
            &&& intent.fighter_name == name
            &&& pending_event_kind(intent) == event_kind_for(owner, intent.kind)
            &&& presentation == StepPresentation::DashTrail ==> intent.kind
                == FighterPresentationKind::DashTrail { position, direction }
            &&& presentation == StepPresentation::RecoveryStarted ==> intent.kind
                == FighterPresentationKind::RecoveryStarted { position: above }
            &&& presentation == StepPresentation::RecoveryCompleted ==> intent.kind
                == FighterPresentationKind::RecoveryCompleted
        }),
{
}

/// A landing that is felt is told. What else it was is told once, with its event and
/// payload: an aftermath with its family and cue, a bounce, or a knockdown. A plain
/// landing and a recovery tell nothing more.
pub proof fn landings_tell_what_they_were(
    fighter: FighterId,
    name: &'static str,
    position: SimVec3,
    felt: bool,
    kind: LandingKind,
)
    ensures
        felt_intents(fighter, name, position, felt).len() == (if felt {
            1nat
        } else {
            0nat
        }),
        felt ==> felt_intents(fighter, name, position, felt)[0].kind == (
        FighterPresentationKind::Landed { position }),
        ({
            let told = landing_intents(fighter, name, position, kind);
            &&& told.len() == (if kind is Recovery || kind is Plain {
                0nat
            } else {
                1nat
            })
            &&& told.len() == 1 ==> {
                &&& told[0].fighter == fighter
                &&& told[0].fighter_name == name
                &&& pending_event_kind(told[0]) == event_kind_for(fighter, told[0].kind)
            }
            &&& kind matches LandingKind::Aftermath(aftermath) ==> told[0].kind
                == FighterPresentationKind::LandingAftermath {
                position,
                family: aftermath.family,
                cue: aftermath.cue,
            }
            &&& kind is GroundBounce ==> told[0].kind == FighterPresentationKind::GroundBounced {
                position,
            }
            &&& kind is Knockdown ==> told[0].kind == FighterPresentationKind::KnockdownLanded {
                position,
            }
        }),
        felt ==> pending_event_kind(felt_intents(fighter, name, position, felt)[0])
            == event_kind_for(fighter, (FighterPresentationKind::Landed { position })),
{
}

} // verus!

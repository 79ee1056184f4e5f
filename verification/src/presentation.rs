//! What the renderer is told about fighter lifecycle events, and the pairing of
//! each such intent with the event it belongs to.

use vstd::prelude::*;

use crate::ids::FighterId;
use crate::reaction::ReactionFamilyId;
use crate::scalar::SimVec3;
use crate::sim_event::{FighterLifecycleEvent, SimEvent, SimEventId, SimEventKind, SimEventSource};

verus! {

/// How a lost life is announced.
#[derive(Clone, Copy, Debug, PartialEq, Eq, Structural)]
pub enum FighterLifeLossAnnouncement {
    MatchDecided,
    Eliminated,
    StockRemaining(i32),
    LifeLost,
}

/// Render-side payload of a fighter lifecycle event. Positions and cue choices
/// stay out of the events themselves.
#[derive(Clone, Copy, Debug, PartialEq, Eq)]
pub enum FighterPresentationKind {
    DrunkBubble { position: SimVec3, phase: u32 },
    DashTrail { position: SimVec3, direction: SimVec3 },
    RecoveryStarted { position: SimVec3 },
    RecoveryCompleted,
    WallBounced { position: SimVec3 },
    Landed { position: SimVec3 },
    LandingAftermath { position: SimVec3, family: ReactionFamilyId, cue: &'static str },
    GroundBounced { position: SimVec3 },
    KnockdownLanded { position: SimVec3 },
    LifeLost { position: SimVec3, ring_out: bool, announcement: FighterLifeLossAnnouncement },
    Respawned { position: SimVec3 },
}

/// A payload together with the event it decorates.
#[derive(Clone, Copy, Debug, PartialEq, Eq)]
pub struct FighterPresentationIntent {
    pub event_id: SimEventId,
    pub fighter: FighterId,
    pub fighter_name: &'static str,
    pub kind: FighterPresentationKind,
}

/// A lifecycle event of one fighter.
pub open spec fn lifecycle(fighter: FighterId, event: FighterLifecycleEvent) -> SimEventKind {
    SimEventKind::FighterLifecycle { fighter, event }
}

/// The one kind of event that a payload may decorate.
pub open spec fn event_kind_for(fighter: FighterId, kind: FighterPresentationKind) -> SimEventKind {
    match kind {
        FighterPresentationKind::DrunkBubble { .. } => lifecycle(
            fighter,
            FighterLifecycleEvent::DrunkBubble,
        ),
        FighterPresentationKind::DashTrail { .. } => lifecycle(
            fighter,
            FighterLifecycleEvent::DashTrail,
        ),
        FighterPresentationKind::RecoveryStarted { .. } => lifecycle(
            fighter,
            FighterLifecycleEvent::RecoveryStarted,
        ),
        FighterPresentationKind::RecoveryCompleted => lifecycle(
            fighter,
            FighterLifecycleEvent::RecoveryCompleted,
        ),
        FighterPresentationKind::WallBounced { .. } => lifecycle(
            fighter,
            FighterLifecycleEvent::WallBounced,
        ),
        FighterPresentationKind::Landed { .. } => lifecycle(fighter, FighterLifecycleEvent::Landed),
        FighterPresentationKind::LandingAftermath { .. } => lifecycle(
            fighter,
            FighterLifecycleEvent::LandingAftermath,
        ),
        FighterPresentationKind::GroundBounced { .. } => lifecycle(
            fighter,
            FighterLifecycleEvent::GroundBounced,
        ),
        FighterPresentationKind::KnockdownLanded { .. } => lifecycle(
            fighter,
            FighterLifecycleEvent::KnockdownLanded,
        ),
        FighterPresentationKind::LifeLost { ring_out: true, .. } => lifecycle(
            fighter,
            FighterLifecycleEvent::RingOut,
        ),
        FighterPresentationKind::LifeLost { ring_out: false, .. } => lifecycle(
            fighter,
            FighterLifecycleEvent::Knockout,
        ),
        FighterPresentationKind::Respawned { .. } => SimEventKind::FighterRespawned { fighter },
    }
}

/// Whether an intent decorates exactly this event: same name, caused by the
/// intent's fighter, and of the kind that the payload stands for.
pub open spec fn spec_fighter_presentation_matches_event(
    event: SimEvent,
    intent: FighterPresentationIntent,
) -> bool {
    &&& event.id == intent.event_id
    &&& event.id.source == SimEventSource::Fighter(intent.fighter)
    &&& event.kind == event_kind_for(intent.fighter, intent.kind)
}

/// Whether an intent decorates exactly this event.
#[verifier::when_used_as_spec(spec_fighter_presentation_matches_event)]
pub fn fighter_presentation_matches_event(
    event: SimEvent,
    intent: FighterPresentationIntent,
) -> (matched: bool)
    ensures
        matched == spec_fighter_presentation_matches_event(event, intent),
{
    if event.id != intent.event_id || event.id.source != SimEventSource::Fighter(intent.fighter) {
        return false;
    }
    match event.kind {
        SimEventKind::FighterRespawned { fighter } => {
            fighter == intent.fighter && matches!(
                intent.kind,
                FighterPresentationKind::Respawned { .. }
            )
        },
        SimEventKind::FighterLifecycle { fighter, event: lifecycle } => {
            fighter == intent.fighter && match intent.kind {
                FighterPresentationKind::DrunkBubble { .. } => lifecycle
                    == FighterLifecycleEvent::DrunkBubble,
                FighterPresentationKind::DashTrail { .. } => lifecycle
                    == FighterLifecycleEvent::DashTrail,
                FighterPresentationKind::RecoveryStarted { .. } => lifecycle
                    == FighterLifecycleEvent::RecoveryStarted,
                FighterPresentationKind::RecoveryCompleted => lifecycle
                    == FighterLifecycleEvent::RecoveryCompleted,
                FighterPresentationKind::WallBounced { .. } => lifecycle
                    == FighterLifecycleEvent::WallBounced,
                FighterPresentationKind::Landed { .. } => lifecycle
                    == FighterLifecycleEvent::Landed,
                FighterPresentationKind::LandingAftermath { .. } => lifecycle
                    == FighterLifecycleEvent::LandingAftermath,
                FighterPresentationKind::GroundBounced { .. } => lifecycle
                    == FighterLifecycleEvent::GroundBounced,
                FighterPresentationKind::KnockdownLanded { .. } => lifecycle
                    == FighterLifecycleEvent::KnockdownLanded,
                FighterPresentationKind::LifeLost { ring_out, .. } => if ring_out {
                    lifecycle == FighterLifecycleEvent::RingOut
                } else {
                    lifecycle == FighterLifecycleEvent::Knockout
                },
                FighterPresentationKind::Respawned { .. } => false,
            }
        },
        _ => false,
    }
}

} // verus!

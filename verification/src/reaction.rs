//! Authored hit reactions.

use vstd::prelude::*;

use crate::scalar::Scalar;

verus! {

/// The family of an authored hit reaction.
#[derive(Clone, Copy, Debug, PartialEq, Eq, Structural)]
pub enum ReactionFamilyId {
    ShortStandingStagger,
    MediumStandingStagger,
    HeavyStandingStagger,
    LightAirPop,
    LauncherDown,
    SlidingKnockdown,
    GroundBounceDown,
    GroundedDownGetup,
    AerialSpikeDown,
    AirFishKnockdown,
    CounterPop,
    FrozenStun,
    UltimateBombDown,
    UltimateLockedStagger,
}

/// How strongly a landing competes for feedback. Spikes and bounces outrank
/// plain knockdowns.
pub open spec fn spec_aftermath_feedback_priority(family: ReactionFamilyId) -> u8 {
    match family {
        ReactionFamilyId::AirFishKnockdown => 54,
        ReactionFamilyId::GroundBounceDown => 52,
        ReactionFamilyId::AerialSpikeDown => 50,
        ReactionFamilyId::GroundedDownGetup => 46,
        _ => 42,
    }
}

#[verifier::when_used_as_spec(spec_aftermath_feedback_priority)]
pub fn aftermath_feedback_priority(family: ReactionFamilyId) -> (priority: u8)
    ensures
        priority == spec_aftermath_feedback_priority(family),
{
    match family {
        ReactionFamilyId::AirFishKnockdown => 54,
        ReactionFamilyId::GroundBounceDown => 52,
        ReactionFamilyId::AerialSpikeDown => 50,
        ReactionFamilyId::GroundedDownGetup => 46,
        _ => 42,
    }
}

/// The camera shake of a landing, in hundredths.
pub open spec fn spec_aftermath_landing_shake(family: ReactionFamilyId) -> u8 {
    match family {
        ReactionFamilyId::AirFishKnockdown => 38,
        ReactionFamilyId::GroundBounceDown => 34,
        ReactionFamilyId::AerialSpikeDown => 28,
        ReactionFamilyId::GroundedDownGetup => 24,
        _ => 18,
    }
}

/// The camera shake of a landing, in hundredths.
#[verifier::when_used_as_spec(spec_aftermath_landing_shake)]
pub fn aftermath_landing_shake(family: ReactionFamilyId) -> (hundredths: u8)
    ensures
        hundredths == spec_aftermath_landing_shake(family),
{
    match family {
        ReactionFamilyId::AirFishKnockdown => 38,
        ReactionFamilyId::GroundBounceDown => 34,
        ReactionFamilyId::AerialSpikeDown => 28,
        ReactionFamilyId::GroundedDownGetup => 24,
        _ => 18,
    }
}

/// Shake and priority rank landings alike: a family that outranks another also
/// shakes harder.
pub proof fn aftermath_feedback_ranks_agree(left: ReactionFamilyId, right: ReactionFamilyId)
    ensures
        aftermath_feedback_priority(left) > aftermath_feedback_priority(right)
            <==> aftermath_landing_shake(left) > aftermath_landing_shake(right),
{
}

/// What waits for a fighter in hitstun when it next touches the ground.
#[derive(Clone, Copy, Debug, PartialEq, Eq)]
pub struct LandingAftermath {
    pub family: ReactionFamilyId,
    pub cue: &'static str,
    pub horizontal_damping: Scalar,
    pub landing_stick_ms: u32,
    pub getup_transition_ms: u32,
    pub recover_ms: u32,
}

} // verus!

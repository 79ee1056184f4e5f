//! What a fighter's body looks like: which pose it strikes, how far a tint has
//! come, and which of two tints wins. Angles are in thousandths of a radian and
//! scales in thousandths; what goes on with time is given as an exact share.

use vstd::prelude::*;

use crate::action::{FighterAction, FighterActionState};
use crate::lifecycle::DrunkStatus;
use crate::loadout::CharacterKind;
use crate::reaction::ReactionFamilyId;
use crate::scalar::Scalar;
use crate::technique::TechniqueId;
use crate::ticks::{milliseconds_to_ticks_ceil, ticks_covering_millis};

verus! {

/// A share of a whole: `part` of `whole`, which is never nothing.
#[derive(Clone, Copy, Debug, PartialEq, Eq, Structural)]
pub struct Share {
    pub part: u64,
    pub whole: u64,
}

impl Share {
    pub open spec fn spec_all() -> Share {
        Share { part: 1, whole: 1 }
    }

    #[verifier::when_used_as_spec(spec_all)]
    pub fn all() -> (share: Share)
        ensures
            share == Self::spec_all(),
    {
        Share { part: 1, whole: 1 }
    }

    pub open spec fn spec_none() -> Share {
        Share { part: 0, whole: 1 }
    }

    #[verifier::when_used_as_spec(spec_none)]
    pub fn none() -> (share: Share)
        ensures
            share == Self::spec_none(),
    {
        Share { part: 0, whole: 1 }
    }

    /// At most all of something.
    pub open spec fn wf(self) -> bool {
        self.part <= self.whole && 0 < self.whole
    }

    /// One share is at most as large as another.
    pub open spec fn at_most(self, other: Share) -> bool {
        self.part * other.whole <= other.part * self.whole
    }
}

/// The pitch of a body that lies head low, in thousandths of a radian.
pub const KNOCKDOWN_PITCH: i32 = 2_720;

/// How far a body is stretched along each axis, in thousandths.
#[derive(Clone, Copy, Debug, PartialEq, Eq, Structural)]
pub struct PoseScale {
    pub x: i32,
    pub y: i32,
    pub z: i32,
}

/// The extreme of a hit reaction. `lift` and `push` move the body up and forth,
/// in thousandths of a unit.
#[derive(Clone, Copy, Debug, PartialEq, Eq, Structural)]
pub struct ReactionPose {
    pub pitch: i32,
    pub yaw: i32,
    pub roll: i32,
    pub scale: PoseScale,
    pub lift: i32,
    pub push: i32,
}

/// A pose without motion.
#[derive(Clone, Copy, Debug, PartialEq, Eq, Structural)]
pub struct StillPose {
    pub pitch: i32,
    pub yaw: i32,
    pub roll: i32,
    pub scale: PoseScale,
}

/// The side that a light attack swings to.
#[derive(Clone, Copy, Debug, PartialEq, Eq, Structural)]
pub enum PunchSide {
    Left,
    Right,
}

/// The pose that a fighter strikes.
#[derive(Clone, Copy, Debug, PartialEq, Eq, Structural)]
pub enum PoseKind {
    /// Thrown back by a hit, mirrored when it came from the other side.
    HitReaction { family: ReactionFamilyId, mirrored: bool },
    LightAttack(PunchSide),
    SnowflakeCast,
    ComboFinisher,
    HeavyStep,
    Launcher,
    UltimateStartup,
    UltimateRush,
    BeeSwarm,
    /// Held still while a heavy attack charges.
    PigHeavy,
    PigHamLauncher,
    PigUltimateStartup,
    PigUltimateRush,
    /// Rocking with the steps of a run.
    Running,
    /// Half a turn away from the attacker.
    UltimateVictim,
    /// Rolling back onto the feet; `left` of the pitch of a downed body is left.
    GettingUp { left: Share },
    Still(StillPose),
}

/// The extreme of each reaction.
pub open spec fn spec_hit_reaction_visual_profile(family: ReactionFamilyId) -> ReactionPose {
    match family {
        ReactionFamilyId::ShortStandingStagger => ReactionPose {
            pitch: 340,
            yaw: 180,
            roll: 220,
            scale: PoseScale { x: 1_080, y: 820, z: 1_080 },
            lift: 20,
            push: -35i32,
        },
        ReactionFamilyId::MediumStandingStagger => ReactionPose {
            pitch: 460,
            yaw: 280,
            roll: 360,
            scale: PoseScale { x: 1_120, y: 760, z: 1_120 },
            lift: 25,
            push: -55i32,
        },
        ReactionFamilyId::HeavyStandingStagger => ReactionPose {
            pitch: 640,
            yaw: 400,
            roll: 560,
            scale: PoseScale { x: 1_180, y: 680, z: 1_180 },
            lift: 30,
            push: -80i32,
        },
        ReactionFamilyId::FrozenStun => ReactionPose {
            pitch: 80,
            yaw: 0,
            roll: 0,
            scale: PoseScale { x: 1_040, y: 920, z: 1_040 },
            lift: 10,
            push: -20i32,
        },
        ReactionFamilyId::LightAirPop
        | ReactionFamilyId::CounterPop => ReactionPose {
            pitch: -420i32,
            yaw: 300,
            roll: 420,
            scale: PoseScale { x: 940, y: 1_200, z: 940 },
            lift: 160,
            push: -40i32,
        },
        ReactionFamilyId::LauncherDown => ReactionPose {
            pitch: -560i32,
            yaw: 340,
            roll: 520,
            scale: PoseScale { x: 920, y: 1_280, z: 920 },
            lift: 200,
            push: -45i32,
        },
        ReactionFamilyId::GroundBounceDown
        | ReactionFamilyId::AerialSpikeDown
        | ReactionFamilyId::AirFishKnockdown => ReactionPose {
            pitch: 820,
            yaw: 500,
            roll: 820,
            scale: PoseScale { x: 1_160, y: 720, z: 1_220 },
            lift: 40,
            push: -90i32,
        },
        ReactionFamilyId::UltimateLockedStagger => ReactionPose {
            pitch: 520,
            yaw: 480,
            roll: 640,
            scale: PoseScale { x: 1_160, y: 720, z: 1_160 },
            lift: 30,
            push: -75i32,
        },
        ReactionFamilyId::GroundedDownGetup
        | ReactionFamilyId::SlidingKnockdown
        | ReactionFamilyId::UltimateBombDown => ReactionPose {
            pitch: 1_020,
            yaw: 580,
            roll: 960,
            scale: PoseScale { x: 1_220, y: 620, z: 1_240 },
            lift: 20,
            push: -110i32,
        },
    }
}

#[verifier::when_used_as_spec(spec_hit_reaction_visual_profile)]
pub fn hit_reaction_visual_profile(family: ReactionFamilyId) -> (pose: ReactionPose)
    ensures
        pose == spec_hit_reaction_visual_profile(family),
{
    match family {
        ReactionFamilyId::ShortStandingStagger => ReactionPose {
            pitch: 340,
            yaw: 180,
            roll: 220,
            scale: PoseScale { x: 1_080, y: 820, z: 1_080 },
            lift: 20,
            push: -35i32,
        },
        ReactionFamilyId::MediumStandingStagger => ReactionPose {
            pitch: 460,
            yaw: 280,
            roll: 360,
            scale: PoseScale { x: 1_120, y: 760, z: 1_120 },
            lift: 25,
            push: -55i32,
        },
        ReactionFamilyId::HeavyStandingStagger => ReactionPose {
            pitch: 640,
            yaw: 400,
            roll: 560,
            scale: PoseScale { x: 1_180, y: 680, z: 1_180 },
            lift: 30,
            push: -80i32,
        },
        ReactionFamilyId::FrozenStun => ReactionPose {
            pitch: 80,
            yaw: 0,
            roll: 0,
            scale: PoseScale { x: 1_040, y: 920, z: 1_040 },
            lift: 10,
            push: -20i32,
        },
        ReactionFamilyId::LightAirPop
        | ReactionFamilyId::CounterPop => ReactionPose {
            pitch: -420i32,
            yaw: 300,
            roll: 420,
            scale: PoseScale { x: 940, y: 1_200, z: 940 },
            lift: 160,
            push: -40i32,
        },
        ReactionFamilyId::LauncherDown => ReactionPose {
            pitch: -560i32,
            yaw: 340,
            roll: 520,
            scale: PoseScale { x: 920, y: 1_280, z: 920 },
            lift: 200,
            push: -45i32,
        },
        ReactionFamilyId::GroundBounceDown
        | ReactionFamilyId::AerialSpikeDown
        | ReactionFamilyId::AirFishKnockdown => ReactionPose {
            pitch: 820,
            yaw: 500,
            roll: 820,
            scale: PoseScale { x: 1_160, y: 720, z: 1_220 },
            lift: 40,
            push: -90i32,
        },
        ReactionFamilyId::UltimateLockedStagger => ReactionPose {
            pitch: 520,
            yaw: 480,
            roll: 640,
            scale: PoseScale { x: 1_160, y: 720, z: 1_160 },
            lift: 30,
            push: -75i32,
        },
        ReactionFamilyId::GroundedDownGetup
        | ReactionFamilyId::SlidingKnockdown
        | ReactionFamilyId::UltimateBombDown => ReactionPose {
            pitch: 1_020,
            yaw: 580,
            roll: 960,
            scale: PoseScale { x: 1_220, y: 620, z: 1_240 },
            lift: 20,
            push: -110i32,
        },
    }
}

/// How each action stretches the body.
pub open spec fn spec_action_visual_scale(action: FighterAction) -> PoseScale {
    match action {
        FighterAction::Dashing => PoseScale { x: 1_120, y: 860, z: 1_120 },
        FighterAction::DashAttack => PoseScale { x: 1_180, y: 820, z: 1_220 },
        FighterAction::JumpAttack => PoseScale { x: 1_080, y: 900, z: 1_140 },
        FighterAction::JumpHeavyAttack => PoseScale { x: 1_080, y: 940, z: 1_160 },
        FighterAction::LandingRecovery => PoseScale { x: 1_020, y: 820, z: 1_020 },
        FighterAction::Guarding => PoseScale { x: 940, y: 940, z: 1_080 },
        FighterAction::LightAttack1 => PoseScale { x: 1_030, y: 990, z: 1_060 },
        FighterAction::LightAttack2 => PoseScale { x: 1_050, y: 980, z: 1_050 },
        FighterAction::ComboFinisher => PoseScale { x: 1_100, y: 940, z: 1_100 },
        FighterAction::HeavyAttack => PoseScale { x: 1_120, y: 960, z: 1_160 },
        FighterAction::HeavyAttack2 => PoseScale { x: 1_080, y: 1_040, z: 1_080 },
        FighterAction::UltimateStartup => PoseScale { x: 1_160, y: 880, z: 1_200 },
        FighterAction::UltimateRush => PoseScale { x: 1_220, y: 840, z: 1_260 },
        FighterAction::UltimateVictim => PoseScale { x: 1_040, y: 780, z: 1_040 },
        FighterAction::GrabStartup => PoseScale { x: 1_040, y: 920, z: 1_120 },
        FighterAction::GrabHold => PoseScale { x: 1_060, y: 900, z: 1_080 },
        FighterAction::Grabbed => PoseScale { x: 1_050, y: 760, z: 1_050 },
        FighterAction::Throwing => PoseScale { x: 1_120, y: 920, z: 1_060 },
        FighterAction::SpecialCast => PoseScale { x: 1_080, y: 960, z: 1_120 },
        FighterAction::ItemPickup => PoseScale { x: 1_020, y: 880, z: 1_020 },
        FighterAction::ItemSwing => PoseScale { x: 1_140, y: 950, z: 1_180 },
        FighterAction::ItemThrow => PoseScale { x: 1_100, y: 940, z: 1_140 },
        FighterAction::ItemDrop => PoseScale { x: 980, y: 940, z: 1_020 },
        FighterAction::Hitstun => PoseScale { x: 1_050, y: 900, z: 1_050 },
        FighterAction::GuardCounter => PoseScale { x: 1_100, y: 940, z: 1_120 },
        FighterAction::GuardStep => PoseScale { x: 1_080, y: 840, z: 1_140 },
        FighterAction::Knockdown | FighterAction::RingOut => PoseScale { x: 1_120, y: 620, z: 1_120 },
        FighterAction::QuickStand => PoseScale { x: 1_080, y: 680, z: 1_080 },
        FighterAction::RecoveryRoll => PoseScale { x: 1_160, y: 420, z: 1_160 },
        FighterAction::GetUp => PoseScale { x: 1_080, y: 740, z: 1_080 },
        FighterAction::GuardBroken => PoseScale { x: 900, y: 820, z: 900 },
        _ => PoseScale { x: 1_000, y: 1_000, z: 1_000 },
    }
}

#[verifier::when_used_as_spec(spec_action_visual_scale)]
pub fn action_visual_scale(action: FighterAction) -> (scale: PoseScale)
    ensures
        scale == spec_action_visual_scale(action),
{
    match action {
        FighterAction::Dashing => PoseScale { x: 1_120, y: 860, z: 1_120 },
        FighterAction::DashAttack => PoseScale { x: 1_180, y: 820, z: 1_220 },
        FighterAction::JumpAttack => PoseScale { x: 1_080, y: 900, z: 1_140 },
        FighterAction::JumpHeavyAttack => PoseScale { x: 1_080, y: 940, z: 1_160 },
        FighterAction::LandingRecovery => PoseScale { x: 1_020, y: 820, z: 1_020 },
        FighterAction::Guarding => PoseScale { x: 940, y: 940, z: 1_080 },
        FighterAction::LightAttack1 => PoseScale { x: 1_030, y: 990, z: 1_060 },
        FighterAction::LightAttack2 => PoseScale { x: 1_050, y: 980, z: 1_050 },
        FighterAction::ComboFinisher => PoseScale { x: 1_100, y: 940, z: 1_100 },
        FighterAction::HeavyAttack => PoseScale { x: 1_120, y: 960, z: 1_160 },
        FighterAction::HeavyAttack2 => PoseScale { x: 1_080, y: 1_040, z: 1_080 },
        FighterAction::UltimateStartup => PoseScale { x: 1_160, y: 880, z: 1_200 },
        FighterAction::UltimateRush => PoseScale { x: 1_220, y: 840, z: 1_260 },
        FighterAction::UltimateVictim => PoseScale { x: 1_040, y: 780, z: 1_040 },
        FighterAction::GrabStartup => PoseScale { x: 1_040, y: 920, z: 1_120 },
        FighterAction::GrabHold => PoseScale { x: 1_060, y: 900, z: 1_080 },
        FighterAction::Grabbed => PoseScale { x: 1_050, y: 760, z: 1_050 },
        FighterAction::Throwing => PoseScale { x: 1_120, y: 920, z: 1_060 },
        FighterAction::SpecialCast => PoseScale { x: 1_080, y: 960, z: 1_120 },
        FighterAction::ItemPickup => PoseScale { x: 1_020, y: 880, z: 1_020 },
        FighterAction::ItemSwing => PoseScale { x: 1_140, y: 950, z: 1_180 },
        FighterAction::ItemThrow => PoseScale { x: 1_100, y: 940, z: 1_140 },
        FighterAction::ItemDrop => PoseScale { x: 980, y: 940, z: 1_020 },
        FighterAction::Hitstun => PoseScale { x: 1_050, y: 900, z: 1_050 },
        FighterAction::GuardCounter => PoseScale { x: 1_100, y: 940, z: 1_120 },
        FighterAction::GuardStep => PoseScale { x: 1_080, y: 840, z: 1_140 },
        FighterAction::Knockdown | FighterAction::RingOut => PoseScale { x: 1_120, y: 620, z: 1_120 },
        FighterAction::QuickStand => PoseScale { x: 1_080, y: 680, z: 1_080 },
        FighterAction::RecoveryRoll => PoseScale { x: 1_160, y: 420, z: 1_160 },
        FighterAction::GetUp => PoseScale { x: 1_080, y: 740, z: 1_080 },
        FighterAction::GuardBroken => PoseScale { x: 900, y: 820, z: 900 },
        _ => PoseScale { x: 1_000, y: 1_000, z: 1_000 },
    }
}

/// How far each action leans the body.
pub open spec fn spec_action_pitch(action: FighterAction) -> i32 {
    match action {
        FighterAction::Dashing => -220i32,
        FighterAction::LandingRecovery => 240,
        FighterAction::UltimateVictim => 320,
        FighterAction::GrabStartup => -180i32,
        FighterAction::GrabHold => -240i32,
        FighterAction::Grabbed => 400,
        FighterAction::Throwing => 340,
        FighterAction::SpecialCast => 240,
        FighterAction::ItemPickup => -100i32,
        FighterAction::ItemSwing => 300,
        FighterAction::ItemThrow => 220,
        FighterAction::ItemDrop => -80i32,
        FighterAction::Guarding => -120i32,
        FighterAction::GuardCounter => 180,
        FighterAction::GuardStep => -260i32,
        FighterAction::QuickStand => 820,
        FighterAction::RecoveryRoll => 1_050,
        FighterAction::GuardBroken => -280i32,
        FighterAction::Knockdown | FighterAction::RingOut => KNOCKDOWN_PITCH,
        _ => 0,
    }
}

#[verifier::when_used_as_spec(spec_action_pitch)]
pub fn action_pitch(action: FighterAction) -> (pitch: i32)
    ensures
        pitch == spec_action_pitch(action),
{
    match action {
        FighterAction::Dashing => -220i32,
        FighterAction::LandingRecovery => 240,
        FighterAction::UltimateVictim => 320,
        FighterAction::GrabStartup => -180i32,
        FighterAction::GrabHold => -240i32,
        FighterAction::Grabbed => 400,
        FighterAction::Throwing => 340,
        FighterAction::SpecialCast => 240,
        FighterAction::ItemPickup => -100i32,
        FighterAction::ItemSwing => 300,
        FighterAction::ItemThrow => 220,
        FighterAction::ItemDrop => -80i32,
        FighterAction::Guarding => -120i32,
        FighterAction::GuardCounter => 180,
        FighterAction::GuardStep => -260i32,
        FighterAction::QuickStand => 820,
        FighterAction::RecoveryRoll => 1_050,
        FighterAction::GuardBroken => -280i32,
        FighterAction::Knockdown | FighterAction::RingOut => KNOCKDOWN_PITCH,
        _ => 0,
    }
}

/// The side of a light attack, for the two characters that punch.
pub open spec fn spec_light_attack_pose_side(technique: TechniqueId) -> Option<PunchSide> {
    if technique == TechniqueId::CatLight1 || technique == TechniqueId::PigLight1 {
        Some(PunchSide::Left)
    } else if technique == TechniqueId::CatLight2 || technique == TechniqueId::PigLight2 {
        Some(PunchSide::Right)
    } else {
        None
    }
}

#[verifier::when_used_as_spec(spec_light_attack_pose_side)]
pub fn light_attack_pose_side(technique: TechniqueId) -> (side: Option<PunchSide>)
    ensures
        side == spec_light_attack_pose_side(technique),
{
    match technique {
        TechniqueId::CatLight1 | TechniqueId::PigLight1 => Some(PunchSide::Left),
        TechniqueId::CatLight2 | TechniqueId::PigLight2 => Some(PunchSide::Right),
        _ => None,
    }
}

/// The front corner of the body that a punch to `side` leads with: the other one.
pub fn light_attack_forward_corner_side(side: PunchSide) -> (corner: PunchSide)
    ensures
        corner != side,
{
    match side {
        PunchSide::Left => PunchSide::Right,
        PunchSide::Right => PunchSide::Left,
    }
}

/// The side on which a punch is marked: only during a light attack.
pub fn light_punch_side(
    action: FighterAction,
    technique: Option<TechniqueId>,
) -> (side: Option<PunchSide>)
    ensures
        side == (if (action == FighterAction::LightAttack1 || action
            == FighterAction::LightAttack2) && technique.is_some() {
            light_attack_pose_side(technique.unwrap())
        } else {
            None
        }),
{
    if !matches!(action, FighterAction::LightAttack1 | FighterAction::LightAttack2) {
        return None;
    }
    match technique {
        Some(id) => light_attack_pose_side(id),
        None => None,
    }
}

/// Actions whose looks belong to the technique, and that stand plain without one.
pub open spec fn spec_authored_visual_action_requires_technique_id(action: FighterAction) -> bool {
    action == FighterAction::LightAttack1 || action == FighterAction::LightAttack2 || action
        == FighterAction::ComboFinisher || action == FighterAction::HeavyAttack || action
        == FighterAction::HeavyAttack2 || action == FighterAction::UltimateStartup || action
        == FighterAction::UltimateRush || action == FighterAction::DashAttack || action
        == FighterAction::JumpAttack || action == FighterAction::JumpHeavyAttack
}

#[verifier::when_used_as_spec(spec_authored_visual_action_requires_technique_id)]
pub fn authored_visual_action_requires_technique_id(action: FighterAction) -> (authored: bool)
    ensures
        authored == spec_authored_visual_action_requires_technique_id(action),
{
    matches!(
        action,
        FighterAction::LightAttack1 | FighterAction::LightAttack2 | FighterAction::ComboFinisher
            | FighterAction::HeavyAttack | FighterAction::HeavyAttack2
            | FighterAction::UltimateStartup | FighterAction::UltimateRush
            | FighterAction::DashAttack | FighterAction::JumpAttack
            | FighterAction::JumpHeavyAttack
    )
}

/// The pose that belongs to a technique, where it has one of its own.
pub open spec fn spec_technique_visual_pose(technique: TechniqueId) -> Option<PoseKind> {
    match technique {
        TechniqueId::CatLight1 | TechniqueId::PigLight1 => Some(
            PoseKind::LightAttack(PunchSide::Left),
        ),
        TechniqueId::CatLight2 | TechniqueId::PigLight2 => Some(
            PoseKind::LightAttack(PunchSide::Right),
        ),
        TechniqueId::PenguinLight1 | TechniqueId::PenguinLight2 => Some(PoseKind::SnowflakeCast),
        TechniqueId::CatComboFinisher | TechniqueId::CatDashComboFinisher => Some(
            PoseKind::ComboFinisher,
        ),
        TechniqueId::CatHeavy => Some(PoseKind::HeavyStep),
        TechniqueId::CatHeavy2 => Some(PoseKind::Launcher),
        TechniqueId::CatUltimateStartup => Some(PoseKind::UltimateStartup),
        TechniqueId::CatUltimateRush => Some(PoseKind::UltimateRush),
        TechniqueId::BeeUltimateStartup
        | TechniqueId::BeeLegacyUltimateStartup
        | TechniqueId::BeeLegacyUltimateRush => Some(PoseKind::BeeSwarm),
        TechniqueId::CatDashAttack => Some(
            PoseKind::Still(StillPose { pitch: -340i32, yaw: 0, roll: 0, scale: action_visual_scale(FighterAction::DashAttack) }),
        ),
        TechniqueId::CatJumpAttack => Some(
            PoseKind::Still(StillPose { pitch: 320, yaw: 0, roll: 0, scale: action_visual_scale(FighterAction::JumpAttack) }),
        ),
        TechniqueId::CatJumpHeavy => Some(
            PoseKind::Still(StillPose { pitch: -120i32, yaw: 180, roll: 100, scale: action_visual_scale(FighterAction::JumpHeavyAttack) }),
        ),
        TechniqueId::PigHeavy => Some(PoseKind::PigHeavy),
        TechniqueId::PigHeavy2 => Some(PoseKind::PigHamLauncher),
        TechniqueId::PigJumpHeavy => Some(
            PoseKind::Still(StillPose { pitch: 720, yaw: 0, roll: -240i32, scale: PoseScale { x: 1_180, y: 820, z: 1_200 } }),
        ),
        TechniqueId::PigUltimateStartup => Some(PoseKind::PigUltimateStartup),
        TechniqueId::PigUltimateRush => Some(PoseKind::PigUltimateRush),
        _ => None,
    }
}

#[verifier::when_used_as_spec(spec_technique_visual_pose)]
pub fn technique_visual_pose(technique: TechniqueId) -> (pose: Option<PoseKind>)
    ensures
        pose == spec_technique_visual_pose(technique),
{
    match technique {
        TechniqueId::CatLight1 | TechniqueId::PigLight1 => Some(
            PoseKind::LightAttack(PunchSide::Left),
        ),
        TechniqueId::CatLight2 | TechniqueId::PigLight2 => Some(
            PoseKind::LightAttack(PunchSide::Right),
        ),
        TechniqueId::PenguinLight1 | TechniqueId::PenguinLight2 => Some(PoseKind::SnowflakeCast),
        TechniqueId::CatComboFinisher | TechniqueId::CatDashComboFinisher => Some(
            PoseKind::ComboFinisher,
        ),
        TechniqueId::CatHeavy => Some(PoseKind::HeavyStep),
        TechniqueId::CatHeavy2 => Some(PoseKind::Launcher),
        TechniqueId::CatUltimateStartup => Some(PoseKind::UltimateStartup),
        TechniqueId::CatUltimateRush => Some(PoseKind::UltimateRush),
        TechniqueId::BeeUltimateStartup
        | TechniqueId::BeeLegacyUltimateStartup
        | TechniqueId::BeeLegacyUltimateRush => Some(PoseKind::BeeSwarm),
        TechniqueId::CatDashAttack => Some(
            PoseKind::Still(StillPose { pitch: -340i32, yaw: 0, roll: 0, scale: action_visual_scale(FighterAction::DashAttack) }),
        ),
        TechniqueId::CatJumpAttack => Some(
            PoseKind::Still(StillPose { pitch: 320, yaw: 0, roll: 0, scale: action_visual_scale(FighterAction::JumpAttack) }),
        ),
        TechniqueId::CatJumpHeavy => Some(
            PoseKind::Still(StillPose { pitch: -120i32, yaw: 180, roll: 100, scale: action_visual_scale(FighterAction::JumpHeavyAttack) }),
        ),
        TechniqueId::PigHeavy => Some(PoseKind::PigHeavy),
        TechniqueId::PigHeavy2 => Some(PoseKind::PigHamLauncher),
        TechniqueId::PigJumpHeavy => Some(
            PoseKind::Still(StillPose { pitch: 720, yaw: 0, roll: -240i32, scale: PoseScale { x: 1_180, y: 820, z: 1_200 } }),
        ),
        TechniqueId::PigUltimateStartup => Some(PoseKind::PigUltimateStartup),
        TechniqueId::PigUltimateRush => Some(PoseKind::PigUltimateRush),
        _ => None,
    }
}

/// How much of the pitch of a downed body is left while it rolls back onto its feet:
/// all of it at first, and nothing when the recovery is over.
pub open spec fn spec_getup_pitch(action: &FighterActionState, getup_ms: u32) -> Share {
    let asked = if action.reaction_recover_ms.is_some() {
        action.reaction_recover_ms.unwrap()
    } else {
        getup_ms
    };
    let whole = if asked == 0 {
        60int
    } else {
        asked * 60
    };
    let spent = action.elapsed.ticks * 1000;
    if spent >= whole {
        Share::none()
    } else {
        Share { part: (whole - spent) as u64, whole: whole as u64 }
    }
}

pub fn getup_belly_up_pitch(action: &FighterActionState, getup_ms: u32) -> (left: Share)
    ensures
        left == spec_getup_pitch(action, getup_ms),
        left.wf(),
{
    let asked: u32 = match action.reaction_recover_ms {
        Some(millis) => millis,
        None => getup_ms,
    };
    let whole: u64 = if asked == 0 {
        60
    } else {
        asked as u64 * 60
    };
    let spent: u64 = action.elapsed.ticks as u64 * 1000;
    if spent >= whole {
        return Share::none();
    }
    Share { part: whole - spent, whole }
}

/// The pose of a fighter: a hit reaction while it is stunned, else the pose of
/// its technique, else that of its action.
pub open spec fn spec_fighter_visual_pose(action: &FighterActionState, getup_ms: u32) -> PoseKind {
    if action.action == FighterAction::Hitstun {
        PoseKind::HitReaction {
            family: if action.reaction_family.is_some() {
                action.reaction_family.unwrap()
            } else {
                ReactionFamilyId::ShortStandingStagger
            },
            mirrored: action.reaction_visual_side.lt(Scalar::zero()),
        }
    } else if action.technique_id.is_some() && technique_visual_pose(
        action.technique_id.unwrap(),
    ).is_some() {
        technique_visual_pose(action.technique_id.unwrap()).unwrap()
    } else if action.action == FighterAction::Moving {
        PoseKind::Running
    } else if action.action == FighterAction::UltimateVictim {
        PoseKind::UltimateVictim
    } else if action.action == FighterAction::GetUp {
        PoseKind::GettingUp { left: spec_getup_pitch(action, getup_ms) }
    } else {
        PoseKind::Still(
            StillPose {
                pitch: if authored_visual_action_requires_technique_id(action.action) {
                    0
                } else {
                    action_pitch(action.action)
                },
                yaw: 0,
                roll: 0,
                scale: action_visual_scale(action.action),
            },
        )
    }
}

pub fn fighter_visual_pose(action: &FighterActionState, getup_ms: u32) -> (pose: PoseKind)
    ensures
        pose == spec_fighter_visual_pose(action, getup_ms),
{
    if action.action == FighterAction::Hitstun {
        let family = match action.reaction_family {
            Some(family) => family,
            None => ReactionFamilyId::ShortStandingStagger,
        };
        let mirrored = action.reaction_visual_side.lt(Scalar::zero());
        return PoseKind::HitReaction { family, mirrored };
    }
    if let Some(technique) = action.technique_id {
        if let Some(pose) = technique_visual_pose(technique) {
            return pose;
        }
    }
    match action.action {
        FighterAction::Moving => PoseKind::Running,
        FighterAction::UltimateVictim => PoseKind::UltimateVictim,
        FighterAction::GetUp => PoseKind::GettingUp {
            left: getup_belly_up_pitch(action, getup_ms),
        },
        _ => {
            let pitch: i32 = if authored_visual_action_requires_technique_id(action.action) {
                0
            } else {
                action_pitch(action.action)
            };
            PoseKind::Still(
                StillPose { pitch, yaw: 0, roll: 0, scale: action_visual_scale(action.action) },
            )
        },
    }
}

/// A tint on a fighter's body.
#[derive(Clone, Copy, Debug, PartialEq, Eq, Structural)]
pub enum FighterTint {
    Burning,
    /// The flash of a counter, fading from full.
    CounterFlash { amount: Share },
    Drunk,
    /// The glow of a charge, growing to full.
    PigCharge { amount: Share },
}

/// A heavy attack of the pig is being charged, and not yet let go.
pub open spec fn pig_charge_shows(character: CharacterKind, action: &FighterActionState) -> bool {
    character == CharacterKind::Pig && !action.charge_release_requested
        && action.charge_elapsed.ticks > 0 && (action.technique_id == Some(TechniqueId::PigHeavy)
        || action.action == FighterAction::Dashing)
}

/// How much of `millis` the `ticks` make up, at most all of it.
pub open spec fn share(ticks: u32, millis: u32) -> Share {
    if ticks * 1000 >= millis * 60 {
        Share::all()
    } else {
        Share { part: (ticks * 1000) as u64, whole: (millis * 60) as u64 }
    }
}

fn share_of(ticks: u32, millis: u32) -> (amount: Share)
    ensures
        amount == share(ticks, millis),
        amount.wf(),
{
    let spent: u64 = ticks as u64 * 1000;
    let whole: u64 = millis as u64 * 60;
    if spent >= whole {
        return Share::all();
    }
    Share { part: spent, whole }
}

/// How far the pig's charge has come.
pub open spec fn spec_pig_charge_tint_amount(
    character: CharacterKind,
    action: &FighterActionState,
    full_charge_ms: u32,
) -> Share {
    if pig_charge_shows(character, action) {
        share(action.charge_elapsed.ticks, full_charge_ms)
    } else {
        Share::none()
    }
}

pub fn pig_charge_tint_amount(
    character: CharacterKind,
    action: &FighterActionState,
    full_charge_ms: u32,
) -> (amount: Share)
    ensures
        amount == spec_pig_charge_tint_amount(character, action, full_charge_ms),
        amount.wf(),
{
    if character != CharacterKind::Pig || action.charge_release_requested
        || action.charge_elapsed.ticks == 0 {
        return Share::none();
    }
    let ground = match action.technique_id {
        Some(technique) => technique == TechniqueId::PigHeavy,
        None => false,
    };
    if ground || action.action == FighterAction::Dashing {
        share_of(action.charge_elapsed.ticks, full_charge_ms)
    } else {
        Share::none()
    }
}

/// What is left of the flash of a counter that shines for `flash_ms`.
pub open spec fn spec_guard_counter_flash_tint_amount(
    action: &FighterActionState,
    flash_ms: u32,
) -> Share {
    if action.action == FighterAction::GuardCounter && action.elapsed.ticks < ticks_covering_millis(
        flash_ms as int,
    ) {
        let spent = share(action.elapsed.ticks, flash_ms);
        Share { part: (spent.whole - spent.part) as u64, whole: spent.whole }
    } else {
        Share::none()
    }
}

pub fn guard_counter_flash_tint_amount(
    action: &FighterActionState,
    flash_ms: u32,
) -> (amount: Share)
    ensures
        amount == spec_guard_counter_flash_tint_amount(action, flash_ms),
        amount.wf(),
{
    if action.action != FighterAction::GuardCounter || action.elapsed.reached(
        milliseconds_to_ticks_ceil(flash_ms),
    ) {
        return Share::none();
    }
    let spent = share_of(action.elapsed.ticks, flash_ms);
    Share { part: spent.whole - spent.part, whole: spent.whole }
}

/// The tint of a fighter. Fire hides all others; a counter's flash shows through
/// drunkenness; a charge shows only on a body that nothing else colours.
pub open spec fn spec_active_fighter_tint(
    character: CharacterKind,
    action: &FighterActionState,
    burning: bool,
    drunk: Option<DrunkStatus>,
    flash_ms: u32,
    full_charge_ms: u32,
) -> Option<FighterTint> {
    if burning {
        Some(FighterTint::Burning)
    } else if spec_guard_counter_flash_tint_amount(action, flash_ms).part > 0 {
        Some(
            FighterTint::CounterFlash {
                amount: spec_guard_counter_flash_tint_amount(action, flash_ms),
            },
        )
    } else if drunk.is_some() && drunk.unwrap().active() {
        Some(FighterTint::Drunk)
    } else if pig_charge_shows(character, action) {
        Some(
            FighterTint::PigCharge {
                amount: share(action.charge_elapsed.ticks, full_charge_ms),
            },
        )
    } else {
        None
    }
}

pub fn active_fighter_tint(
    character: CharacterKind,
    action: &FighterActionState,
    burning: bool,
    drunk: Option<DrunkStatus>,
    flash_ms: u32,
    full_charge_ms: u32,
) -> (tint: Option<FighterTint>)
    ensures
        tint == spec_active_fighter_tint(
            character,
            action,
            burning,
            drunk,
            flash_ms,
            full_charge_ms,
        ),
{
    if burning {
        return Some(FighterTint::Burning);
    }
    let flash = guard_counter_flash_tint_amount(action, flash_ms);
    if flash.part > 0 {
        return Some(FighterTint::CounterFlash { amount: flash });
    }
    if let Some(status) = drunk {
        if status.active() {
            return Some(FighterTint::Drunk);
        }
    }
    if character == CharacterKind::Pig && !action.charge_release_requested
        && action.charge_elapsed.ticks > 0 {
        let ground = match action.technique_id {
            Some(technique) => technique == TechniqueId::PigHeavy,
            None => false,
        };
        if ground || action.action == FighterAction::Dashing {
            let amount = pig_charge_tint_amount(character, action, full_charge_ms);
            return Some(FighterTint::PigCharge { amount });
        }
    }
    None
}

/// A counter that has just begun flashes, whatever else but fire is on the body,
/// and the flash has gone when its time is up.
pub proof fn flashes_begin_and_end(
    character: CharacterKind,
    action: FighterActionState,
    drunk: Option<DrunkStatus>,
    flash_ms: u32,
    full_charge_ms: u32,
)
    requires
        action.action == FighterAction::GuardCounter,
        flash_ms > 0,
    ensures
        ({
            let tint = spec_active_fighter_tint(
                character,
                &action,
                false,
                drunk,
                flash_ms,
                full_charge_ms,
            );
            tint is Some && tint.unwrap() is CounterFlash <==> action.elapsed.ticks
                < ticks_covering_millis(flash_ms as int)
        }),
{
    if action.elapsed.ticks < ticks_covering_millis(flash_ms as int) {
        assert(action.elapsed.ticks * 1000 < flash_ms * 60);
    }
}

/// A body that gets up never sinks back: its pitch only falls with time.
pub proof fn getting_up_only_rises(
    earlier: FighterActionState,
    later: FighterActionState,
    getup_ms: u32,
)
    requires
        earlier.reaction_recover_ms == later.reaction_recover_ms,
        earlier.elapsed.ticks <= later.elapsed.ticks,
    ensures
        spec_getup_pitch(&later, getup_ms).at_most(spec_getup_pitch(&earlier, getup_ms)),
{
    let left = spec_getup_pitch(&later, getup_ms);
    let more = spec_getup_pitch(&earlier, getup_ms);
    assert(left.part * more.whole <= more.part * left.whole) by (nonlinear_arith)
        requires
            left.part == 0 || (left.whole == more.whole && left.part <= more.part),
    ;
}

} // verus!

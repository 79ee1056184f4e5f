use arena_fighter::action::{FighterAction, FighterActionState};
use arena_fighter::lifecycle::DrunkStatus;
use arena_fighter::loadout::CharacterKind;
use arena_fighter::pose::{
    FighterTint, KNOCKDOWN_PITCH, PoseKind, PoseScale, PunchSide, Share, StillPose,
    action_pitch, action_visual_scale, active_fighter_tint, fighter_visual_pose,
    guard_counter_flash_tint_amount, hit_reaction_visual_profile,
    light_attack_forward_corner_side, light_punch_side, pig_charge_tint_amount,
};
use arena_fighter::reaction::ReactionFamilyId;
use arena_fighter::scalar::Scalar;
use arena_fighter::technique::TechniqueId;
use arena_fighter::ticks::{ElapsedTicks, TickTimer, milliseconds_to_ticks_ceil};
use arena_fighter::ultimate::ultimate_lock_release_after;

const GETUP_MS: u32 = 500;

const FLASH_MS: u32 = 200;

const FULL_CHARGE_MS: u32 = 800;

fn s(value: f32) -> Scalar {
    Scalar::from_bits(value.to_bits())
}

fn elapsed(millis: u32) -> ElapsedTicks {
    ElapsedTicks::from_ticks(milliseconds_to_ticks_ceil(millis))
}

fn in_action(action: FighterAction) -> FighterActionState {
    FighterActionState { action, ..FighterActionState::default() }
}

fn in_technique(action: FighterAction, id: TechniqueId) -> FighterActionState {
    FighterActionState { technique_id: Some(id), ..in_action(action) }
}

fn hit(family: Option<ReactionFamilyId>, side: f32) -> PoseKind {
    let action = FighterActionState {
        elapsed: elapsed(55),
        reaction_family: family,
        reaction_visual_side: s(side),
        ..in_action(FighterAction::Hitstun)
    };
    fighter_visual_pose(&action, GETUP_MS)
}

fn amount(share: Share) -> f32 {
    share.part as f32 / share.whole as f32
}

#[test]
fn hit_reaction_visuals_scale_by_reaction_family() {
    let short = hit_reaction_visual_profile(ReactionFamilyId::ShortStandingStagger);
    let heavy = hit_reaction_visual_profile(ReactionFamilyId::HeavyStandingStagger);
    let launch = hit_reaction_visual_profile(ReactionFamilyId::LauncherDown);
    assert!(heavy.pitch.abs() * 2 > short.pitch.abs() * 3);
    assert!(heavy.roll.abs() > short.roll.abs() * 2);
    assert!(heavy.scale.y < short.scale.y);
    assert!(launch.scale.y > short.scale.y);
    assert!(launch.lift > short.lift);
    assert_eq!((heavy.pitch, heavy.yaw, heavy.roll), (640, 400, 560));
    assert_eq!(heavy.scale, PoseScale { x: 1180, y: 680, z: 1180 });
}

#[test]
fn hit_reaction_visual_side_flips_yaw_and_roll() {
    let family = ReactionFamilyId::HeavyStandingStagger;
    assert_eq!(hit(Some(family), 1.0), PoseKind::HitReaction { family, mirrored: false });
    assert_eq!(hit(Some(family), -1.0), PoseKind::HitReaction { family, mirrored: true });
}

#[test]
fn hit_reaction_visual_fallback_uses_short_stagger() {
    assert_eq!(hit(None, 1.0), hit(Some(ReactionFamilyId::ShortStandingStagger), 1.0));
}

#[test]
fn fighter_visual_poses_distinguish_light_string_and_launcher() {
    for (action, id, pose) in [
        (FighterAction::LightAttack1, TechniqueId::CatLight1, PoseKind::LightAttack(PunchSide::Left)),
        (FighterAction::LightAttack2, TechniqueId::CatLight2, PoseKind::LightAttack(PunchSide::Right)),
        (FighterAction::LightAttack1, TechniqueId::PigLight1, PoseKind::LightAttack(PunchSide::Left)),
        (FighterAction::LightAttack2, TechniqueId::PigLight2, PoseKind::LightAttack(PunchSide::Right)),
        (FighterAction::LightAttack1, TechniqueId::PenguinLight1, PoseKind::SnowflakeCast),
        (FighterAction::ComboFinisher, TechniqueId::CatComboFinisher, PoseKind::ComboFinisher),
        (FighterAction::HeavyAttack2, TechniqueId::CatHeavy2, PoseKind::Launcher),
    ] {
        assert_eq!(fighter_visual_pose(&in_technique(action, id), GETUP_MS), pose);
    }
}

#[test]
fn light_punch_corner_cue_only_lives_during_light_punch() {
    assert_eq!(
        light_punch_side(FighterAction::LightAttack1, Some(TechniqueId::CatLight1)),
        Some(PunchSide::Left)
    );
    assert_eq!(light_punch_side(FighterAction::HeavyAttack, Some(TechniqueId::CatLight1)), None);
    assert_eq!(
        light_punch_side(FighterAction::LightAttack1, Some(TechniqueId::PenguinLight1)),
        None
    );
    assert_eq!(light_punch_side(FighterAction::LightAttack1, None), None);
}

#[test]
fn light_punch_corner_cue_uses_forward_rotated_mesh_corner() {
    assert_eq!(light_attack_forward_corner_side(PunchSide::Left), PunchSide::Right);
    assert_eq!(light_attack_forward_corner_side(PunchSide::Right), PunchSide::Left);
}

#[test]
fn pig_heavy_followup_uses_pig_launcher_pose() {
    let action = FighterAction::HeavyAttack2;
    assert_eq!(
        fighter_visual_pose(&in_technique(action, TechniqueId::CatHeavy2), GETUP_MS),
        PoseKind::Launcher
    );
    assert_eq!(
        fighter_visual_pose(&in_technique(action, TechniqueId::PigHeavy2), GETUP_MS),
        PoseKind::PigHamLauncher
    );
    assert_eq!(
        fighter_visual_pose(&in_action(action), GETUP_MS),
        PoseKind::Still(StillPose {
            pitch: 0,
            yaw: 0,
            roll: 0,
            scale: action_visual_scale(action)
        })
    );
}

#[test]
fn downed_visuals_are_belly_up_then_rotate_to_standing() {
    let down = fighter_visual_pose(&in_action(FighterAction::Knockdown), GETUP_MS);
    let getting_up = |millis: u32| FighterActionState {
        elapsed: elapsed(millis),
        reaction_recover_ms: Some(700),
        ..in_action(FighterAction::GetUp)
    };
    let pitch = |pose: PoseKind| match pose {
        PoseKind::Still(still) => still.pitch as f32 / 1000.0,
        PoseKind::GettingUp { left } => KNOCKDOWN_PITCH as f32 / 1000.0 * amount(left),
        _ => panic!("a downed fighter lies or gets up"),
    };
    let rising = fighter_visual_pose(&getting_up(350), GETUP_MS);
    let stood = fighter_visual_pose(&getting_up(700), GETUP_MS);
    assert_eq!(pitch(down), 2.72);
    assert!(pitch(rising) < pitch(down));
    assert_eq!(pitch(rising), 1.36);
    assert_eq!(pitch(stood), 0.0);
}

#[test]
fn ringout_pose_reuses_knockdown_flip_for_death_visuals() {
    assert_eq!(
        fighter_visual_pose(&in_action(FighterAction::RingOut), GETUP_MS),
        fighter_visual_pose(&in_action(FighterAction::Knockdown), GETUP_MS)
    );
    assert_eq!(action_pitch(FighterAction::RingOut), 2720);
}

#[test]
fn pig_heavy_pose_uses_tint_weight_without_body_rotation() {
    let charging = in_technique(FighterAction::HeavyAttack, TechniqueId::PigHeavy);
    assert_eq!(fighter_visual_pose(&charging, GETUP_MS), PoseKind::PigHeavy);
}

#[test]
fn plain_actions_have_their_own_pose() {
    assert_eq!(fighter_visual_pose(&in_action(FighterAction::Moving), GETUP_MS), PoseKind::Running);
    assert_eq!(
        fighter_visual_pose(&in_action(FighterAction::UltimateVictim), GETUP_MS),
        PoseKind::UltimateVictim
    );
    assert_eq!(
        fighter_visual_pose(&in_action(FighterAction::Dashing), GETUP_MS),
        PoseKind::Still(StillPose {
            pitch: -220,
            yaw: 0,
            roll: 0,
            scale: PoseScale { x: 1120, y: 860, z: 1120 }
        })
    );
}

#[test]
fn pig_ultimate_lock_lasts_until_heavy_finisher() {
    assert_eq!(ultimate_lock_release_after(Some(TechniqueId::CatUltimateRush)), 900);
    assert!(ultimate_lock_release_after(Some(TechniqueId::PigUltimateRush)) > 1180);
}

#[test]
fn pig_charge_tint_tracks_only_active_pig_charge() {
    let charging = FighterActionState {
        charge_elapsed: elapsed(400),
        ..in_technique(FighterAction::HeavyAttack, TechniqueId::PigHeavy)
    };
    let released = FighterActionState { charge_release_requested: true, ..charging };
    let dash_charging =
        FighterActionState { charge_elapsed: elapsed(800), ..in_action(FighterAction::Dashing) };
    assert_eq!(pig_charge_tint_amount(CharacterKind::Pig, &charging, FULL_CHARGE_MS), Share { part: 24_000, whole: 48_000 });
    assert_eq!(pig_charge_tint_amount(CharacterKind::Cat, &charging, FULL_CHARGE_MS), Share::none());
    assert_eq!(pig_charge_tint_amount(CharacterKind::Pig, &released, FULL_CHARGE_MS), Share::none());
    assert_eq!(pig_charge_tint_amount(CharacterKind::Pig, &dash_charging, FULL_CHARGE_MS), Share::all());
}

#[test]
fn tint_priority_keeps_counter_flash_above_drunk() {
    let drunk = Some(DrunkStatus { remaining: TickTimer::from_ticks(300) });
    let counter = active_fighter_tint(
        CharacterKind::Cat,
        &in_action(FighterAction::GuardCounter),
        false,
        drunk,
        FLASH_MS,
        FULL_CHARGE_MS,
    );
    assert!(matches!(counter, Some(FighterTint::CounterFlash { amount: full }) if amount(full) == 1.0));
    let drunk_tint = active_fighter_tint(
        CharacterKind::Cat,
        &FighterActionState::default(),
        false,
        drunk,
        FLASH_MS,
        FULL_CHARGE_MS,
    );
    assert_eq!(drunk_tint, Some(FighterTint::Drunk));
    let burning = active_fighter_tint(
        CharacterKind::Cat,
        &in_action(FighterAction::GuardCounter),
        true,
        drunk,
        FLASH_MS,
        FULL_CHARGE_MS,
    );
    assert_eq!(burning, Some(FighterTint::Burning));
}

#[test]
fn guard_counter_flash_tint_fades_quickly() {
    let at = |millis: u32| FighterActionState {
        elapsed: elapsed(millis),
        ..in_action(FighterAction::GuardCounter)
    };
    assert_eq!(amount(guard_counter_flash_tint_amount(&at(0), FLASH_MS)), 1.0);
    assert_eq!(amount(guard_counter_flash_tint_amount(&at(100), FLASH_MS)), 0.5);
    assert_eq!(amount(guard_counter_flash_tint_amount(&at(200), FLASH_MS)), 0.0);
}

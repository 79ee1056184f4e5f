//! How bodies keep apart, whom fighters aim at, how they look, and what a headless match
//! is checked for.

use vstd::prelude::*;

use crate::action::{FighterAction, FighterActionState};
use crate::bodies::{
    AimFighter, BodyCorrection, CorrectionKind, PairContact, PairMove, PairSeparation,
    aim_candidate, aim_distances, aim_preferred, aim_slots, aims_at, correction_counts,
    fighter_body_blocks_overlap, separation_moves, spec_correction_by, spec_pair_separation,
};
use crate::fixed::{
    accepted_iff_slots_are_distinct, collection_fault, entry_is_in_range, entry_of,
};
use crate::headless::{
    HeadlessBuildError, HeadlessMatchConfig, ManifestFault, ManifestSlot, SeatOwner,
    character_for_definition, equipment_definition_id, seat_difference, setup_error,
    style_definition_id, team_definition_id,
};
use crate::ids::FighterId;
use crate::lifecycle::DrunkStatus;
use crate::loadout::{
    CharacterKind, EquipmentKind, FighterStyleKind, ParticipantKind, SlotSetup, TeamId,
    next_character_kind, next_equipment_kind, next_style_kind,
};
use crate::pose::{
    FighterTint, PoseKind, PunchSide, action_pitch, action_visual_scale,
    hit_reaction_visual_profile, light_attack_pose_side, spec_active_fighter_tint,
    spec_fighter_visual_pose, spec_getup_pitch, spec_guard_counter_flash_tint_amount,
    technique_visual_pose,
};
use crate::reaction::ReactionFamilyId;
use crate::scalar::Scalar;
use crate::setup::SetupModel;
use crate::technique::TechniqueId;
use crate::ticks::ticks_cover_exactly;

verus! {

/// The fighter is out of play, in a hold or in an ultimate's rush.
pub open spec fn passes_through(action: FighterAction) -> bool {
    ||| action == FighterAction::RingOut
    ||| action == FighterAction::Respawning
    ||| action == FighterAction::Grabbed
    ||| action == FighterAction::GrabHold
    ||| action == FighterAction::Throwing
    ||| action == FighterAction::UltimateVictim
    ||| action == FighterAction::UltimateRush
}

/// Bodies block, but for those that pass through. A correction moves a body that blocks
/// unless it is too small to tell.
pub proof fn bodies_block_or_pass(action: FighterAction, length_squared: Scalar)
    ensures
        fighter_body_blocks_overlap(action) <==> !passes_through(action),
        correction_counts(action, length_squared) <==> !passes_through(action)
            && !length_squared.le(Scalar { bits: 0x3586_37bd }),
{
}

/// The same contact, told from the other body.
pub open spec fn seen_from_the_other(contact: PairContact) -> PairContact {
    PairContact {
        first_velocity_y: contact.second_velocity_y,
        first_lands_on_second: contact.second_lands_on_first,
        second_velocity_y: contact.first_velocity_y,
        second_lands_on_first: contact.first_lands_on_second,
        overlap: contact.overlap,
    }
}

/// A body that lands on the other without rising is lifted onto it, the first one
/// before the second. Otherwise two that overlap are pushed apart, and others are left
/// alone. It does not matter which body comes first, but where both land.
pub proof fn landing_bodies_are_lifted(contact: PairContact)
    ensures
        ({
            let first = contact.first_lands_on_second && contact.first_velocity_y.le(
                Scalar { bits: 0 },
            );
            let second = contact.second_lands_on_first && contact.second_velocity_y.le(
                Scalar { bits: 0 },
            );
            let here = spec_pair_separation(contact);
            let there = spec_pair_separation(seen_from_the_other(contact));
            &&& here == PairSeparation::LiftFirst <==> first
            &&& here == PairSeparation::LiftSecond <==> second && !first
            &&& here == PairSeparation::Push <==> !first && !second && contact.overlap
            &&& here == PairSeparation::Apart <==> !first && !second && !contact.overlap
            &&& !(first && second) ==> (here == PairSeparation::LiftFirst <==> there
                == PairSeparation::LiftSecond)
            &&& here == PairSeparation::Push <==> there == PairSeparation::Push
            &&& here == PairSeparation::Apart <==> there == PairSeparation::Apart
        }),
{
}

/// Every pair that touches is moved, as its contact asks.
pub proof fn touching_pairs_are_moved(
    pairs: Seq<(usize, usize)>,
    contacts: Seq<PairContact>,
    place: int,
)
    requires
        0 <= place < pairs.len(),
        spec_pair_separation(contacts[place]) != PairSeparation::Apart,
    ensures
        separation_moves(pairs, contacts).contains(
            PairMove {
                first: pairs[place].0,
                second: pairs[place].1,
                separation: spec_pair_separation(contacts[place]),
            },
        ),
    decreases pairs.len(),
{
    let last = pairs.len() - 1;
    let before = separation_moves(pairs.take(last), contacts);
    let all = separation_moves(pairs, contacts);
    let wanted = PairMove {
        first: pairs[place].0,
        second: pairs[place].1,
        separation: spec_pair_separation(contacts[place]),
    };
    if place < last {
        touching_pairs_are_moved(pairs.take(last), contacts, place);
        let i = before.index_of(wanted);
        assert(all[i] == wanted);
    } else {
        assert(all[all.len() - 1] == wanted);
    }
}

/// A lift moves only the body that is lifted, off the other one. A push moves both,
/// the first one forth and the second one back.
pub proof fn moves_correct_their_bodies(step: PairMove, place: usize)
    requires
        step.first != step.second,
    ensures
        ({
            let correction = spec_correction_by(step, place);
            let forth = BodyCorrection { other: step.second, kind: CorrectionKind::Forth };
            let back = BodyCorrection { other: step.first, kind: CorrectionKind::Back };
            let lifted = if step.separation == PairSeparation::LiftFirst {
                Some((step.first, step.second))
            } else if step.separation == PairSeparation::LiftSecond {
                Some((step.second, step.first))
            } else {
                None
            };
            &&& step.separation == PairSeparation::Push && place == step.first ==> correction
                == Some(forth)
            &&& step.separation == PairSeparation::Push && place == step.second ==> correction
                == Some(back)
            &&& lifted matches Some((upper, lower)) ==> (if place == upper {
                correction == Some(BodyCorrection { other: lower, kind: CorrectionKind::Lift })
            } else {
                correction.is_none()
            })
            &&& step.separation == PairSeparation::Apart ==> correction.is_none()
            &&& place != step.first && place != step.second ==> correction.is_none()
        }),
{
}

/// A hit shows before anything else: after its family, or as a short stagger, and
/// mirrored where its side is negative. A technique with a pose shows it next. Then
/// running, suffering an ultimate and getting up have poses of their own, and
/// everything else stands still in its shape.
pub proof fn hits_show_before_techniques(action: &FighterActionState, getup_ms: u32)
    ensures
        ({
            let pose = spec_fighter_visual_pose(action, getup_ms);
            let posed = action.technique_id.is_some() && technique_visual_pose(
                action.technique_id.unwrap(),
            ).is_some();
            &&& action.action == FighterAction::Hitstun ==> pose == PoseKind::HitReaction {
                family: match action.reaction_family {
                    Some(family) => family,
                    None => ReactionFamilyId::ShortStandingStagger,
                },
                mirrored: action.reaction_visual_side.lt(Scalar { bits: 0 }),
            }
            &&& action.action != FighterAction::Hitstun && posed ==> Some(pose)
                == technique_visual_pose(action.technique_id.unwrap())
            &&& !posed && action.action == FighterAction::Moving ==> pose == PoseKind::Running
            &&& !posed && action.action == FighterAction::UltimateVictim ==> pose
                == PoseKind::UltimateVictim
            &&& !posed && action.action == FighterAction::GetUp ==> pose is GettingUp
            &&& !posed && action.action != FighterAction::Hitstun && action.action
                != FighterAction::Moving && action.action != FighterAction::UltimateVictim
                && action.action != FighterAction::GetUp ==> pose is Still
        }),
{
}

/// Fire colours a fighter before anything else, then the flash of a counter while it
/// lasts, then drink, and last the charge of Pig's heavy attack, which shows while it is
/// held.
pub proof fn fire_colours_before_drink(
    character: CharacterKind,
    action: &FighterActionState,
    burning: bool,
    drunk: Option<DrunkStatus>,
    flash_ms: u32,
    full_charge_ms: u32,
)
    ensures
        ({
            let tint = spec_active_fighter_tint(
                character,
                action,
                burning,
                drunk,
                flash_ms,
                full_charge_ms,
            );
            let flashes = action.action == FighterAction::GuardCounter && action.elapsed.ticks
                * 1000 < flash_ms * 60;
            let drinks = drunk.is_some() && drunk.unwrap().remaining.remaining > 0;
            let charges = character == CharacterKind::Pig && !action.charge_release_requested
                && action.charge_elapsed.ticks > 0 && (action.technique_id == Some(
                TechniqueId::PigHeavy,
            ) || action.action == FighterAction::Dashing);
            &&& burning ==> tint == Some(FighterTint::Burning)
            &&& !burning && flashes ==> tint == Some(
                FighterTint::CounterFlash {
                    amount: spec_guard_counter_flash_tint_amount(action, flash_ms),
                },
            )
            &&& !burning && !flashes && drinks ==> tint == Some(FighterTint::Drunk)
            &&& !burning && !flashes && !drinks && charges ==> tint.is_some()
                && tint.unwrap() is PigCharge
            &&& !burning && !flashes && !drinks && !charges ==> tint.is_none()
        }),
{
    ticks_cover_exactly(flash_ms as int);
}

/// The numbers of a manifest go through characters, styles and equipment in the order
/// in which the setup does, from the first one on.
pub proof fn manifest_numbers_follow_the_setup(
    id: u16,
    style: FighterStyleKind,
    equipment: EquipmentKind,
)
    ensures
        character_for_definition(0) == Some(CharacterKind::Cat),
        id < 7 ==> character_for_definition((id + 1) as u16) == Some(
            next_character_kind(character_for_definition(id).unwrap()),
        ),
        character_for_definition(id).is_some() <==> id < 8,
        style_definition_id(FighterStyleKind::Anchor) == 0,
        style_definition_id(next_style_kind(style)) == (style_definition_id(style) + 1) % 3,
        equipment_definition_id(EquipmentKind::DashCoil) == 0,
        equipment_definition_id(next_equipment_kind(equipment)) == (equipment_definition_id(
            equipment,
        ) + 1) % 4,
        team_definition_id(TeamId::Red) == 0,
        team_definition_id(TeamId::Blue) == 1,
{
}

/// A seat is set up as the manifest says: closed where it is not occupied, a bot where
/// the authority plays it, a human otherwise, and with the loadout of its numbers.
pub open spec fn seat_agrees(slot: SlotSetup, listed: ManifestSlot) -> bool {
    &&& !listed.occupied ==> slot.participant == ParticipantKind::Closed
    &&& listed.occupied ==> {
        &&& slot.participant == (if listed.owner == Some(SeatOwner::AuthorityBot) {
            ParticipantKind::Bot
        } else {
            ParticipantKind::Human
        })
        &&& character_for_definition(listed.character) == Some(slot.character)
        &&& listed.style == style_definition_id(slot.style)
        &&& listed.equipment == equipment_definition_id(slot.equipment)
        &&& listed.team == team_definition_id(slot.team)
    }
}

/// A headless match is accepted exactly when the manifest is valid, the contract says
/// the same as it and the pools, and the setup has its arena, rules and seed, both of
/// them known, and its seats. A manifest that is not valid itself is named first.
pub proof fn headless_matches_agree_with_their_manifest(
    config: &HeadlessMatchConfig,
    check: Result<(), ManifestFault>,
    pools: Seq<u32>,
    arenas: usize,
)
    ensures
        ({
            let manifest = config.manifest;
            let contract = config.snapshot_contract@;
            let setup = config.local_setup@;
            config.fault(check, pools, arenas).is_none() <==> {
                &&& check.is_ok()
                &&& contract.simulation_version == manifest.simulation_version
                &&& contract.protocol_version == manifest.protocol_version
                &&& contract.gameplay_content_hash == manifest.gameplay_content_hash
                &&& contract.match_id == manifest.match_id@
                &&& contract.master_seed == manifest.master_gameplay_seed
                &&& contract.pool_capacities == pools
                &&& setup.arena_index == manifest.arena
                &&& setup.arena_index < arenas
                &&& setup.rule_index == manifest.rules
                &&& setup.rule_index < 3
                &&& setup.replay_seed == manifest.master_gameplay_seed
                &&& seat_agrees(setup.slots[0], manifest.slots@[0])
                &&& seat_agrees(setup.slots[1], manifest.slots@[1])
                &&& seat_agrees(setup.slots[2], manifest.slots@[2])
                &&& seat_agrees(setup.slots[3], manifest.slots@[3])
            }
        }),
        check matches Err(fault) ==> config.fault(check, pools, arenas) == Some(
            HeadlessBuildError::Manifest(fault),
        ),
{
}

/// The first seat that does not agree is named, with what it differs in.
pub proof fn the_first_wrong_seat_is_named(
    setup: SetupModel,
    config: &HeadlessMatchConfig,
    arenas: usize,
    fighter: FighterId,
)
    requires
        setup.arena_index == config.manifest.arena,
        setup.arena_index < arenas,
        setup.rule_index == config.manifest.rules,
        setup.rule_index < 3,
        setup.replay_seed == config.manifest.master_gameplay_seed,
        !seat_agrees(
            setup.slots[fighter.spec_index() as int],
            config.manifest.slots@[fighter.spec_index() as int],
        ),
        forall|i: int|
            0 <= i < fighter.spec_index() ==> seat_agrees(
                #[trigger] setup.slots[i],
                config.manifest.slots@[i],
            ),
    ensures
        ({
            let slot = setup.slots[fighter.spec_index() as int];
            let listed = config.manifest.slots@[fighter.spec_index() as int];
            setup_error(setup, &config.manifest, arenas) == Some(
                HeadlessBuildError::SetupMismatch {
                    field: seat_difference(slot, listed).unwrap(),
                    fighter: Some(fighter),
                },
            )
        }),
{
    if fighter.spec_index() > 0 {
        assert(seat_agrees(setup.slots[0], config.manifest.slots@[0]));
    }
    if fighter.spec_index() > 1 {
        assert(seat_agrees(setup.slots[1], config.manifest.slots@[1]));
    }
    if fighter.spec_index() > 2 {
        assert(seat_agrees(setup.slots[2], config.manifest.slots@[2]));
    }
}

/// The fighter can be aimed at: in the match, and neither out of the arena nor on its
/// way back.
pub open spec fn can_be_aimed_at(fighter: AimFighter) -> bool {
    fighter.active && fighter.action != FighterAction::RingOut && fighter.action
        != FighterAction::Respawning
}

/// Where a fighter that takes part is listed.
proof fn lemma_listed(fighters: Seq<AimFighter>, distances: Seq<Scalar>, place: int) -> (k: int)
    requires
        0 <= place < fighters.len(),
        can_be_aimed_at(fighters[place]),
    ensures
        aim_distances(fighters, distances).len() == aim_slots(fighters).len(),
        0 <= k < aim_slots(fighters).len(),
        aim_slots(fighters)[k] == fighters[place].slot,
        aim_distances(fighters, distances)[k] == distances[place],
    decreases fighters.len(),
{
    lemma_lists_agree(fighters, distances);
    lemma_lists_agree(fighters.drop_last(), distances);
    if place == fighters.len() - 1 {
        aim_slots(fighters).len() - 1
    } else {
        lemma_listed(fighters.drop_last(), distances, place)
    }
}

proof fn lemma_lists_agree(fighters: Seq<AimFighter>, distances: Seq<Scalar>)
    ensures
        aim_distances(fighters, distances).len() == aim_slots(fighters).len(),
    decreases fighters.len(),
{
    if fighters.len() > 0 {
        lemma_lists_agree(fighters.drop_last(), distances);
    }
}

/// Who is listed, and where it stands among all.
proof fn lemma_unlisted(fighters: Seq<AimFighter>, distances: Seq<Scalar>, k: int) -> (place: int)
    requires
        0 <= k < aim_slots(fighters).len(),
    ensures
        0 <= place < fighters.len(),
        can_be_aimed_at(fighters[place]),
        aim_slots(fighters)[k] == fighters[place].slot,
        aim_distances(fighters, distances)[k] == distances[place],
    decreases fighters.len(),
{
    lemma_lists_agree(fighters, distances);
    lemma_lists_agree(fighters.drop_last(), distances);
    if k < aim_slots(fighters.drop_last()).len() {
        lemma_unlisted(fighters.drop_last(), distances, k)
    } else {
        fighters.len() - 1
    }
}

/// A fighter that aims turns to somebody whenever anybody else can be aimed at, and
/// nobody that can is nearer; among equally near ones it turns to the lowest seat. It
/// never turns to itself.
pub proof fn aims_go_to_the_nearest(
    fighters: Seq<AimFighter>,
    distances: Seq<Scalar>,
    aiming: AimFighter,
    target: Option<FighterId>,
    other: int,
)
    requires
        collection_fault(aim_slots(fighters)).is_none(),
        aims_at(fighters, distances, aiming, target),
        aiming.aims,
        can_be_aimed_at(aiming),
        0 <= other < fighters.len(),
        can_be_aimed_at(fighters[other]),
        fighters[other].slot != aiming.slot,
    ensures
        target.is_some(),
        target.unwrap().spec_index() != aiming.slot,
        exists|i: int|
            0 <= i < fighters.len() && can_be_aimed_at(#[trigger] fighters[i]) && fighters[i].slot
                == target.unwrap().spec_index() && (distances[i].total_place()
                < distances[other].total_place() || (distances[i].total_place()
                == distances[other].total_place() && fighters[i].slot <= fighters[other].slot)),
{
    let ids = aim_slots(fighters);
    let near = aim_distances(fighters, distances);
    accepted_iff_slots_are_distinct(ids);
    let fighter = FighterId::at(aiming.slot as int).unwrap();
    let k = lemma_listed(fighters, distances, other);
    let rival = fighters[other].slot as int;
    entry_is_in_range(ids, rival);
    assert(aim_candidate(ids, fighter, rival));
    let chosen = target.unwrap().spec_index() as int;
    assert(aim_candidate(ids, fighter, chosen));
    entry_is_in_range(ids, chosen);
    let at = entry_of(ids, chosen).unwrap() as int;
    let i = lemma_unlisted(fighters, distances, at);
    assert(can_be_aimed_at(fighters[i]));
    if chosen != rival {
        assert(aim_preferred(ids, near, chosen, rival));
    } else {
        assert(at == k);
    }
}

/// A fighter that does not aim, or cannot be aimed at itself, turns to nobody.
pub proof fn others_do_not_aim(
    fighters: Seq<AimFighter>,
    distances: Seq<Scalar>,
    aiming: AimFighter,
    target: Option<FighterId>,
)
    requires
        aims_at(fighters, distances, aiming, target),
        !aiming.aims || !can_be_aimed_at(aiming),
    ensures
        target.is_none(),
{
}

/// A light attack shows the side that its technique strikes with, and only light attacks
/// have one: the first of a pair the left, the second the right.
pub proof fn light_attacks_show_their_side(technique: TechniqueId, side: PunchSide)
    ensures
        light_attack_pose_side(technique) == Some(side) <==> technique_visual_pose(technique)
            == Some(PoseKind::LightAttack(side)),
        light_attack_pose_side(technique) == Some(PunchSide::Left) <==> technique
            == TechniqueId::CatLight1 || technique == TechniqueId::PigLight1,
        light_attack_pose_side(technique) == Some(PunchSide::Right) <==> technique
            == TechniqueId::CatLight2 || technique == TechniqueId::PigLight2,
{
}

/// A harder standing stagger bends, turns and rolls a fighter farther, squashes it more
/// and pushes it back farther. Who is out of the arena lies as who is knocked down.
pub proof fn harder_staggers_bend_farther()
    ensures
        ({
            let short = hit_reaction_visual_profile(ReactionFamilyId::ShortStandingStagger);
            let medium = hit_reaction_visual_profile(ReactionFamilyId::MediumStandingStagger);
            let heavy = hit_reaction_visual_profile(ReactionFamilyId::HeavyStandingStagger);
            &&& short.pitch < medium.pitch < heavy.pitch
            &&& short.yaw < medium.yaw < heavy.yaw
            &&& short.roll < medium.roll < heavy.roll
            &&& short.scale.y > medium.scale.y > heavy.scale.y
            &&& short.push > medium.push > heavy.push
        }),
        action_visual_scale(FighterAction::RingOut) == action_visual_scale(
            FighterAction::Knockdown,
        ),
        action_pitch(FighterAction::RingOut) == action_pitch(FighterAction::Knockdown),
{
}

/// What is left of lying, in getting up, is the share of its time that has not passed:
/// the time of the recovery under way, or else the usual one.
pub proof fn getting_up_takes_its_time(action: &FighterActionState, getup_ms: u32)
    requires
        (match action.reaction_recover_ms {
            Some(millis) => millis,
            None => getup_ms,
        }) > 0,
    ensures
        ({
            let left = spec_getup_pitch(action, getup_ms);
            let whole = (match action.reaction_recover_ms {
                Some(millis) => millis,
                None => getup_ms,
            }) * 60;
            let passed = action.elapsed.ticks * 1000;
            &&& passed >= whole ==> left.part == 0
            &&& passed < whole ==> left.whole == whole && left.part + passed == whole
        }),
{
}

} // verus!

//! How holds end, and what that does to both sides.

use vstd::prelude::*;

use crate::action::FighterAction;
use crate::fixed::{entry_is_in_range, slots_distinct};
use crate::grab::{
    GrabFighter, GrabResolution, GrabSnapshot, GrabTuning, ImpactFeedbackIntensity, ThrowAim,
    ThrowStrength, grab_resolutions, holder_resolution, listed, lockouts_ticked,
    resolution_applied, snapshot_of, snapshot_slots, spec_throw_profile, throw_hits, thrown_victim,
    victim_resolution,
};
use crate::ids::FighterId;
use crate::reaction::ReactionFamilyId;
use crate::scalar::Scalar;

verus! {

/// The two sides of a resolution.
pub open spec fn sides(resolution: GrabResolution) -> (FighterId, FighterId) {
    match resolution {
        GrabResolution::Throw { holder, victim, .. } => (holder, victim),
        GrabResolution::Release { holder, victim } => (holder, victim),
    }
}

/// The holder holds, and the victim is held by it.
pub open spec fn agree(
    holder: GrabSnapshot,
    holder_id: FighterId,
    victim: GrabSnapshot,
    victim_id: FighterId,
) -> bool {
    &&& holder.action == FighterAction::GrabHold
    &&& holder.holding == Some(victim_id)
    &&& victim.action == FighterAction::Grabbed
    &&& victim.held_by == Some(holder_id)
}

/// The victim guards and pulls away, once it may.
pub open spec fn pulls_free(
    holder: GrabSnapshot,
    victim: GrabSnapshot,
    tuning: GrabTuning,
) -> bool {
    &&& victim.input_guard
    &&& Scalar { bits: 0x3c23_d70a }.lt(victim.movement_length_squared)
    &&& Scalar { bits: 0x3e80_0000 }.lt(victim.escape_alignment)
    &&& holder.elapsed.ticks >= tuning.escape_after
}

proof fn lemma_found(snapshots: Seq<GrabSnapshot>, place: int)
    requires
        slots_distinct(snapshot_slots(snapshots)),
        0 <= place < snapshots.len(),
    ensures
        snapshot_of(snapshots, snapshots[place].slot as int) == Some(snapshots[place]),
{
    let slots = snapshot_slots(snapshots);
    entry_is_in_range(slots, snapshots[place].slot as int);
    assert(slots[place] == snapshots[place].slot);
}

proof fn lemma_missing(snapshots: Seq<GrabSnapshot>, slot: int)
    requires
        slots_distinct(snapshot_slots(snapshots)),
        forall|i: int| 0 <= i < snapshots.len() ==> (#[trigger] snapshots[i]).slot != slot,
    ensures
        snapshot_of(snapshots, slot).is_none(),
{
    entry_is_in_range(snapshot_slots(snapshots), slot);
}

/// Every resolution is that of a holder or of a victim.
proof fn lemma_members(snapshots: Seq<GrabSnapshot>, tuning: GrabTuning)
    ensures
        forall|fighter: FighterId|
            (#[trigger] holder_resolution(snapshots, fighter, tuning)).is_some()
                ==> grab_resolutions(snapshots, tuning).contains(
                holder_resolution(snapshots, fighter, tuning).unwrap(),
            ),
        forall|fighter: FighterId|
            (#[trigger] victim_resolution(snapshots, fighter)).is_some() ==> grab_resolutions(
                snapshots,
                tuning,
            ).contains(victim_resolution(snapshots, fighter).unwrap()),
        forall|resolution: GrabResolution| #[trigger]
            grab_resolutions(snapshots, tuning).contains(resolution) ==> exists|fighter: FighterId|
                holder_resolution(snapshots, fighter, tuning) == Some(resolution)
                    || #[trigger] victim_resolution(snapshots, fighter) == Some(resolution),
{
    let h0 = listed(holder_resolution(snapshots, FighterId::Zero, tuning));
    let h1 = listed(holder_resolution(snapshots, FighterId::One, tuning));
    let h2 = listed(holder_resolution(snapshots, FighterId::Two, tuning));
    let h3 = listed(holder_resolution(snapshots, FighterId::Three, tuning));
    let v0 = listed(victim_resolution(snapshots, FighterId::Zero));
    let v1 = listed(victim_resolution(snapshots, FighterId::One));
    let v2 = listed(victim_resolution(snapshots, FighterId::Two));
    let v3 = listed(victim_resolution(snapshots, FighterId::Three));
    let all = grab_resolutions(snapshots, tuning);
    assert(all == h0 + h1 + h2 + h3 + v0 + v1 + v2 + v3);
    let l1 = h0.len() as int;
    let l2 = l1 + h1.len();
    let l3 = l2 + h2.len();
    let l4 = l3 + h3.len();
    let l5 = l4 + v0.len();
    let l6 = l5 + v1.len();
    let l7 = l6 + v2.len();
    assert forall|fighter: FighterId|
        (#[trigger] holder_resolution(snapshots, fighter, tuning)).is_some() implies all.contains(
        holder_resolution(snapshots, fighter, tuning).unwrap(),
    ) by {
        let place = match fighter {
            FighterId::Zero => 0,
            FighterId::One => l1,
            FighterId::Two => l2,
            FighterId::Three => l3,
        };
        assert(all[place] == holder_resolution(snapshots, fighter, tuning).unwrap());
    }
    assert forall|fighter: FighterId|
        (#[trigger] victim_resolution(snapshots, fighter)).is_some() implies all.contains(
        victim_resolution(snapshots, fighter).unwrap(),
    ) by {
        let place = match fighter {
            FighterId::Zero => l4,
            FighterId::One => l5,
            FighterId::Two => l6,
            FighterId::Three => l7,
        };
        assert(all[place] == victim_resolution(snapshots, fighter).unwrap());
    }
    assert forall|resolution: GrabResolution| #[trigger] all.contains(resolution) implies exists|
        fighter: FighterId,
    |
        holder_resolution(snapshots, fighter, tuning) == Some(resolution)
            || #[trigger] victim_resolution(snapshots, fighter) == Some(resolution) by {
        let i = choose|i: int| 0 <= i < all.len() && all[i] == resolution;
        let fighter = if i < l1 {
            FighterId::Zero
        } else if i < l2 {
            FighterId::One
        } else if i < l3 {
            FighterId::Two
        } else if i < l4 {
            FighterId::Three
        } else if i < l5 {
            FighterId::Zero
        } else if i < l6 {
            FighterId::One
        } else if i < l7 {
            FighterId::Two
        } else {
            FighterId::Three
        };
        assert(holder_resolution(snapshots, fighter, tuning) == Some(resolution)
            || victim_resolution(snapshots, fighter) == Some(resolution));
    }
}

/// How a hold that both sides agree on ends: the victim that pulls free is let go.
/// Else the light button throws quickly, the heavy one hard where the light one is not
/// pressed, and without a button the throw comes exactly once the hold has lasted its
/// longest. A throw goes where the holder points, and a victim that guards is braced.
pub proof fn agreed_holds_end_as_asked(
    snapshots: Seq<GrabSnapshot>,
    tuning: GrabTuning,
    above: int,
    below: int,
    holder_id: FighterId,
    victim_id: FighterId,
)
    requires
        slots_distinct(snapshot_slots(snapshots)),
        0 <= above < snapshots.len(),
        0 <= below < snapshots.len(),
        snapshots[above].slot == holder_id.spec_index(),
        snapshots[below].slot == victim_id.spec_index(),
        agree(snapshots[above], holder_id, snapshots[below], victim_id),
    ensures
        ({
            let holder = snapshots[above];
            let victim = snapshots[below];
            let resolutions = grab_resolutions(snapshots, tuning);
            let throw = |strength: ThrowStrength|
                GrabResolution::Throw {
                    holder: holder_id,
                    victim: victim_id,
                    strength,
                    aim: if (Scalar { bits: 0x3c23_d70a }).lt(holder.movement_length_squared) {
                        ThrowAim::Movement
                    } else {
                        ThrowAim::Facing
                    },
                    braced: victim.input_guard,
                };
            let free = pulls_free(holder, victim, tuning);
            let owed = holder.elapsed.ticks >= tuning.hold_max;
            &&& free ==> resolutions.contains(
                GrabResolution::Release { holder: holder_id, victim: victim_id },
            )
            &&& !free && holder.input_light ==> resolutions.contains(throw(ThrowStrength::Quick))
            &&& !free && !holder.input_light && holder.input_heavy ==> resolutions.contains(
                throw(ThrowStrength::Heavy),
            )
            &&& !free && !holder.input_light && !holder.input_heavy && owed
                ==> resolutions.contains(throw(ThrowStrength::Standard))
            &&& forall|resolution: GrabResolution| #[trigger]
                resolutions.contains(resolution) && sides(resolution) == (holder_id, victim_id)
                    ==> {
                    ||| free && resolution == (GrabResolution::Release {
                        holder: holder_id,
                        victim: victim_id,
                    })
                    ||| !free && holder.input_light && resolution == throw(ThrowStrength::Quick)
                    ||| !free && !holder.input_light && holder.input_heavy && resolution == throw(
                        ThrowStrength::Heavy,
                    )
                    ||| !free && !holder.input_light && !holder.input_heavy && owed && resolution
                        == throw(ThrowStrength::Standard)
                }
        }),
{
    lemma_found(snapshots, above);
    lemma_found(snapshots, below);
    lemma_members(snapshots, tuning);
    let held = holder_resolution(snapshots, holder_id, tuning);
    assert(victim_resolution(snapshots, victim_id).is_none());
    assert forall|resolution: GrabResolution| #[trigger]
        grab_resolutions(snapshots, tuning).contains(resolution) && sides(resolution) == (
        holder_id,
        victim_id,
    ) implies held == Some(resolution) by {
        let fighter = choose|fighter: FighterId|
            holder_resolution(snapshots, fighter, tuning) == Some(resolution)
                || #[trigger] victim_resolution(snapshots, fighter) == Some(resolution);
    }
}

/// A hold that only one side knows of is let go.
pub proof fn one_sided_holds_lapse(
    snapshots: Seq<GrabSnapshot>,
    tuning: GrabTuning,
    place: int,
    id: FighterId,
    other: FighterId,
)
    requires
        slots_distinct(snapshot_slots(snapshots)),
        0 <= place < snapshots.len(),
        snapshots[place].slot == id.spec_index(),
        forall|i: int|
            0 <= i < snapshots.len() && (#[trigger] snapshots[i]).slot == other.spec_index()
                ==> !agree(snapshots[place], id, snapshots[i], other) && !agree(
                snapshots[i],
                other,
                snapshots[place],
                id,
            ),
    ensures
        snapshots[place].action == FighterAction::GrabHold && snapshots[place].holding == Some(
            other,
        ) ==> grab_resolutions(snapshots, tuning).contains(
            GrabResolution::Release { holder: id, victim: other },
        ),
        snapshots[place].action == FighterAction::Grabbed && snapshots[place].held_by == Some(other)
            ==> grab_resolutions(snapshots, tuning).contains(
            GrabResolution::Release { holder: other, victim: id },
        ),
{
    lemma_found(snapshots, place);
    lemma_members(snapshots, tuning);
    if exists|i: int|
        0 <= i < snapshots.len() && (#[trigger] snapshots[i]).slot == other.spec_index() {
        let i = choose|i: int|
            0 <= i < snapshots.len() && (#[trigger] snapshots[i]).slot == other.spec_index();
        lemma_found(snapshots, i);
    } else {
        lemma_missing(snapshots, other.spec_index() as int);
    }
    if snapshots[place].action == FighterAction::GrabHold && snapshots[place].holding == Some(
        other,
    ) {
        assert(holder_resolution(snapshots, id, tuning) == Some(
            GrabResolution::Release { holder: id, victim: other },
        ));
    }
    if snapshots[place].action == FighterAction::Grabbed && snapshots[place].held_by == Some(
        other,
    ) {
        assert(victim_resolution(snapshots, id) == Some(
            GrabResolution::Release { holder: other, victim: id },
        ));
    }
}

/// Nobody is thrown but by a holder whose hold both sides agree on, and nobody is let
/// go who is not holding or held.
pub proof fn resolutions_have_a_hold(
    snapshots: Seq<GrabSnapshot>,
    tuning: GrabTuning,
    resolution: GrabResolution,
)
    requires
        slots_distinct(snapshot_slots(snapshots)),
        grab_resolutions(snapshots, tuning).contains(resolution),
    ensures
        ({
            let (holder_id, victim_id) = sides(resolution);
            let above = snapshot_of(snapshots, holder_id.spec_index() as int);
            let below = snapshot_of(snapshots, victim_id.spec_index() as int);
            match resolution {
                GrabResolution::Throw { .. } => above.is_some() && below.is_some() && agree(
                    above.unwrap(),
                    holder_id,
                    below.unwrap(),
                    victim_id,
                ),
                GrabResolution::Release { .. } => {
                    ||| above.is_some() && above.unwrap().action == FighterAction::GrabHold
                        && above.unwrap().holding == Some(victim_id)
                    ||| below.is_some() && below.unwrap().action == FighterAction::Grabbed
                        && below.unwrap().held_by == Some(holder_id)
                },
            }
        }),
{
    lemma_members(snapshots, tuning);
    let fighter = choose|fighter: FighterId|
        holder_resolution(snapshots, fighter, tuning) == Some(resolution)
            || #[trigger] victim_resolution(snapshots, fighter) == Some(resolution);
}

/// What a resolution does: a release leaves both sides standing and free of each other,
/// a throw leaves the thrower throwing. Whoever is let go or thrown cannot be grabbed
/// again for the time that belongs to it, and nobody else is touched.
pub proof fn resolutions_free_both_sides(
    fighters: Seq<Option<GrabFighter>>,
    resolution: GrabResolution,
    tuning: GrabTuning,
    fighter: FighterId,
)
    requires
        fighters.len() == 4,
        fighters[fighter.spec_index() as int].is_some(),
        sides(resolution).0 != sides(resolution).1,
    ensures
        ({
            let (holder, victim) = sides(resolution);
            let before = fighters[fighter.spec_index() as int].unwrap();
            let after = resolution_applied(
                fighters,
                resolution,
                tuning,
            )[fighter.spec_index() as int].unwrap();
            &&& fighter == holder ==> {
                &&& after.state.holding.is_none()
                &&& after.state.held_by == before.state.held_by
                &&& after.state.regrab_lockout == before.state.regrab_lockout
                &&& after.action.action == (if resolution is Throw {
                    FighterAction::Throwing
                } else {
                    FighterAction::Idle
                })
                &&& before.action.action == FighterAction::GrabHold ==> after.action.elapsed.ticks
                    == 0
            }
            &&& fighter == victim ==> {
                &&& after.state.held_by.is_none()
                &&& after.state.holding == before.state.holding
                &&& after.state.regrab_lockout.remaining == (if resolution is Throw {
                    tuning.throw_lockout
                } else {
                    tuning.release_lockout
                })
                &&& resolution is Throw ==> after.action == before.action
                &&& resolution is Release ==> after.action.action == FighterAction::Idle
            }
            &&& fighter != holder && fighter != victim ==> after == before
        }),
{
}

/// A lockout runs for one tick, and nothing else changes with it.
pub proof fn lockouts_run_for_one_tick(fighters: Seq<Option<GrabFighter>>, place: int)
    requires
        0 <= place < fighters.len(),
    ensures
        ({
            let before = fighters[place];
            let after = lockouts_ticked(fighters)[place];
            &&& after.is_some() == before.is_some()
            &&& before.is_some() ==> {
                let time = before.unwrap().state.regrab_lockout.remaining;
                &&& after.unwrap().state.regrab_lockout.remaining == (if 0 < time < u32::MAX {
                    (time - 1) as u32
                } else {
                    time
                })
                &&& after.unwrap().state.holding == before.unwrap().state.holding
                &&& after.unwrap().state.held_by == before.unwrap().state.held_by
                &&& after.unwrap().action == before.unwrap().action
            }
        }),
{
}

/// Only a quick throw leaves its victim on its feet, and only it is light.
pub proof fn only_quick_throws_are_light(strength: ThrowStrength)
    ensures
        spec_throw_profile(strength).force_knockdown == (strength != ThrowStrength::Quick),
        spec_throw_profile(strength).intensity == ImpactFeedbackIntensity::Light <==> strength
            == ThrowStrength::Quick,
        spec_throw_profile(strength).reaction == (if strength == ThrowStrength::Quick {
            ReactionFamilyId::LightAirPop
        } else {
            ReactionFamilyId::SlidingKnockdown
        }),
{
}

/// A throw hits its victim, if that is somebody else who is there. A release hits
/// nobody.
pub proof fn throws_hit_who_is_there(
    fighters: Seq<Option<GrabFighter>>,
    resolution: GrabResolution,
)
    ensures
        throw_hits(fighters, resolution) <==> resolution is Throw && sides(resolution).0
            != sides(resolution).1 && fighters[sides(resolution).1.spec_index() as int].is_some(),
        thrown_victim(resolution) == (if resolution is Throw {
            Some(sides(resolution).1)
        } else {
            None
        }),
{
}

} // verus!

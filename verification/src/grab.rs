//! Holds: who is thrown, who breaks free, and what that does to both sides.

use vstd::prelude::*;

use crate::action::{FighterAction, FighterActionState, set_action};
use crate::feedback::Hitstop;
use crate::fighter::points_somewhere;
use crate::fixed::{SlotCollectionError, collection_fault, entry_of, fighter_entries};
use crate::ids::{FighterId, FIGHTER_COUNT};
use crate::reaction::ReactionFamilyId;
use crate::scalar::Scalar;
use crate::sim_event::{
    SimEvent, SimEventId, SimEventKind, SimEventSource, TickEventBuffer, buffers_are_bounded,
};
use crate::ticks::{ElapsedTicks, SimTick, TickTimer};

verus! {

/// The bit pattern of `0.25`, the alignment beyond which two directions agree.
pub const AGREEING_ALIGNMENT_BITS: u32 = 0x3e80_0000;

#[derive(Clone, Copy, Debug, PartialEq, Eq, Structural)]
pub enum ThrowStrength {
    Quick,
    Standard,
    Heavy,
}

/// Where a throw goes: where the holder's input points, else where it faces.
#[derive(Clone, Copy, Debug, PartialEq, Eq, Structural)]
pub enum ThrowAim {
    Movement,
    Facing,
}

#[derive(Clone, Copy, Debug, PartialEq, Eq, Structural)]
pub struct FighterGrabState {
    pub holding: Option<FighterId>,
    pub held_by: Option<FighterId>,
    pub regrab_lockout: TickTimer,
}

/// What is looked at of a fighter to resolve holds.
#[derive(Clone, Copy, Debug, PartialEq, Eq, Structural)]
pub struct GrabSnapshot {
    pub slot: usize,
    pub action: FighterAction,
    pub elapsed: ElapsedTicks,
    pub holding: Option<FighterId>,
    pub held_by: Option<FighterId>,
    pub input_light: bool,
    pub input_heavy: bool,
    pub input_guard: bool,
    /// The squared length of the input direction.
    pub movement_length_squared: Scalar,
    /// How far the input direction agrees with the way from the holder.
    pub escape_alignment: Scalar,
}

#[derive(Clone, Copy, Debug, PartialEq, Eq, Structural)]
pub enum GrabResolution {
    Throw {
        holder: FighterId,
        victim: FighterId,
        strength: ThrowStrength,
        aim: ThrowAim,
        braced: bool,
    },
    Release { holder: FighterId, victim: FighterId },
}

/// Authored times of holds, in ticks.
#[derive(Clone, Copy, Debug, PartialEq, Eq, Structural)]
pub struct GrabTuning {
    pub escape_after: u32,
    pub hold_max: u32,
    pub throw_lockout: u32,
    pub release_lockout: u32,
}

/// The slots of the snapshots, in storage order.
pub open spec fn snapshot_slots(snapshots: Seq<GrabSnapshot>) -> Seq<usize> {
    Seq::new(snapshots.len(), |i: int| snapshots[i].slot)
}

/// A fighter's snapshot.
pub open spec fn snapshot_of(snapshots: Seq<GrabSnapshot>, fighter: int) -> Option<GrabSnapshot> {
    match entry_of(snapshot_slots(snapshots), fighter) {
        Some(entry) => Some(snapshots[entry as int]),
        None => None,
    }
}

/// A victim breaks free by guarding and pulling away from its holder.
pub open spec fn spec_victim_can_escape_grab(victim: &GrabSnapshot) -> bool {
    &&& victim.input_guard
    &&& points_somewhere(victim.movement_length_squared)
    &&& Scalar { bits: AGREEING_ALIGNMENT_BITS }.lt(victim.escape_alignment)
}

#[verifier::when_used_as_spec(spec_victim_can_escape_grab)]
pub fn victim_can_escape_grab(victim: &GrabSnapshot) -> (able: bool)
    ensures
        able == spec_victim_can_escape_grab(victim),
{
    victim.input_guard && points_somewhere(victim.movement_length_squared) && Scalar {
        bits: AGREEING_ALIGNMENT_BITS,
    }.lt(victim.escape_alignment)
}

/// The throw that the holder asks for, or owes once it has held long enough.
pub open spec fn throw_strength(holder: GrabSnapshot, tuning: GrabTuning) -> Option<ThrowStrength> {
    if holder.input_light {
        Some(ThrowStrength::Quick)
    } else if holder.input_heavy {
        Some(ThrowStrength::Heavy)
    } else if holder.elapsed.reached(tuning.hold_max) {
        Some(ThrowStrength::Standard)
    } else {
        None
    }
}

fn holder_throw_strength(holder: &GrabSnapshot, tuning: &GrabTuning) -> (strength: Option<
    ThrowStrength,
>)
    ensures
        strength == throw_strength(*holder, *tuning),
{
    if holder.input_light {
        Some(ThrowStrength::Quick)
    } else if holder.input_heavy {
        Some(ThrowStrength::Heavy)
    } else if holder.elapsed.reached(tuning.hold_max) {
        Some(ThrowStrength::Standard)
    } else {
        None
    }
}

/// Where a throw goes.
pub open spec fn spec_aimed_throw(movement_length_squared: Scalar) -> ThrowAim {
    if points_somewhere(movement_length_squared) {
        ThrowAim::Movement
    } else {
        ThrowAim::Facing
    }
}

#[verifier::when_used_as_spec(spec_aimed_throw)]
pub fn aimed_throw(movement_length_squared: Scalar) -> (aim: ThrowAim)
    ensures
        aim == spec_aimed_throw(movement_length_squared),
{
    if points_somewhere(movement_length_squared) {
        ThrowAim::Movement
    } else {
        ThrowAim::Facing
    }
}

/// What becomes of a fighter's hold on another: it lapses where the other is not
/// there or not held by it, the other may break free, and else a throw comes when
/// asked for or owed.
pub open spec fn holder_resolution(
    snapshots: Seq<GrabSnapshot>,
    fighter: FighterId,
    tuning: GrabTuning,
) -> Option<GrabResolution> {
    match snapshot_of(snapshots, fighter.spec_index() as int) {
        Some(holder) => match holder.holding {
            Some(victim_id) => if holder.action != FighterAction::GrabHold {
                None
            } else {
                let release = Some(GrabResolution::Release { holder: fighter, victim: victim_id });
                match snapshot_of(snapshots, victim_id.spec_index() as int) {
                    Some(victim) => if victim.action != FighterAction::Grabbed || victim.held_by
                        != Some(fighter) {
                        release
                    } else if victim_can_escape_grab(&victim) && holder.elapsed.reached(
                        tuning.escape_after,
                    ) {
                        release
                    } else {
                        match throw_strength(holder, tuning) {
                            Some(strength) => Some(
                                GrabResolution::Throw {
                                    holder: fighter,
                                    victim: victim_id,
                                    strength,
                                    aim: aimed_throw(holder.movement_length_squared),
                                    braced: victim.input_guard,
                                },
                            ),
                            None => None,
                        }
                    },
                    None => release,
                }
            },
            None => None,
        },
        None => None,
    }
}

/// A holder that really holds the fighter.
pub open spec fn holder_is_active(
    snapshots: Seq<GrabSnapshot>,
    holder: FighterId,
    victim: FighterId,
) -> bool {
    match snapshot_of(snapshots, holder.spec_index() as int) {
        Some(snapshot) => snapshot.action == FighterAction::GrabHold && snapshot.holding == Some(
            victim,
        ),
        None => false,
    }
}

/// A held fighter whose holder does not hold it is let go.
pub open spec fn victim_resolution(
    snapshots: Seq<GrabSnapshot>,
    fighter: FighterId,
) -> Option<GrabResolution> {
    match snapshot_of(snapshots, fighter.spec_index() as int) {
        Some(victim) => match victim.held_by {
            Some(holder) => if victim.action == FighterAction::Grabbed && !holder_is_active(
                snapshots,
                holder,
                fighter,
            ) {
                Some(GrabResolution::Release { holder, victim: fighter })
            } else {
                None
            },
            None => None,
        },
        None => None,
    }
}

/// One resolution or none, as a list.
pub open spec fn listed(resolution: Option<GrabResolution>) -> Seq<GrabResolution> {
    match resolution {
        Some(resolution) => seq![resolution],
        None => seq![],
    }
}

/// All resolutions: those of the holders in fighter order, then those of victims
/// without a holder.
pub open spec fn grab_resolutions(
    snapshots: Seq<GrabSnapshot>,
    tuning: GrabTuning,
) -> Seq<GrabResolution> {
    listed(holder_resolution(snapshots, FighterId::Zero, tuning)) + listed(
        holder_resolution(snapshots, FighterId::One, tuning),
    ) + listed(holder_resolution(snapshots, FighterId::Two, tuning)) + listed(
        holder_resolution(snapshots, FighterId::Three, tuning),
    ) + listed(victim_resolution(snapshots, FighterId::Zero)) + listed(
        victim_resolution(snapshots, FighterId::One),
    ) + listed(victim_resolution(snapshots, FighterId::Two)) + listed(
        victim_resolution(snapshots, FighterId::Three),
    )
}

fn lookup_snapshot(
    snapshots: &Vec<GrabSnapshot>,
    entries: &[Option<usize>; FIGHTER_COUNT],
    fighter: FighterId,
) -> (snapshot: Option<GrabSnapshot>)
    requires
        entries@ == Seq::new(
            FIGHTER_COUNT as nat,
            |f: int| entry_of(snapshot_slots(snapshots@), f),
        ),
        forall|f: int|
            0 <= f < FIGHTER_COUNT ==> match #[trigger] entries@[f] {
                Some(entry) => entry < snapshots@.len(),
                None => true,
            },
    ensures
        snapshot == snapshot_of(snapshots@, fighter.spec_index() as int),
{
    match entries[fighter.index()] {
        Some(entry) => Some(snapshots[entry]),
        None => None,
    }
}

fn resolve_holder(
    snapshots: &Vec<GrabSnapshot>,
    entries: &[Option<usize>; FIGHTER_COUNT],
    fighter: FighterId,
    tuning: &GrabTuning,
    resolutions: &mut Vec<GrabResolution>,
)
    requires
        entries@ == Seq::new(
            FIGHTER_COUNT as nat,
            |f: int| entry_of(snapshot_slots(snapshots@), f),
        ),
        forall|f: int|
            0 <= f < FIGHTER_COUNT ==> match #[trigger] entries@[f] {
                Some(entry) => entry < snapshots@.len(),
                None => true,
            },
    ensures
        final(resolutions)@ == old(resolutions)@ + listed(
            holder_resolution(snapshots@, fighter, *tuning),
        ),
{
    let ghost before = resolutions@;
    let holder = match lookup_snapshot(snapshots, entries, fighter) {
        Some(holder) => holder,
        None => {
            proof {
                assert(before + Seq::<GrabResolution>::empty() =~= before);
            }
            return ;
        },
    };
    let mut resolution: Option<GrabResolution> = None;
    if holder.action == FighterAction::GrabHold {
        if let Some(victim_id) = holder.holding {
            let release = GrabResolution::Release { holder: fighter, victim: victim_id };
            match lookup_snapshot(snapshots, entries, victim_id) {
                Some(victim) => {
                    let held_here = match victim.held_by {
                        Some(by) => by == fighter,
                        None => false,
                    };
                    if victim.action != FighterAction::Grabbed || !held_here {
                        resolution = Some(release);
                    } else if victim_can_escape_grab(&victim) && holder.elapsed.reached(
                        tuning.escape_after,
                    ) {
                        resolution = Some(release);
                    } else if let Some(strength) = holder_throw_strength(&holder, tuning) {
                        resolution = Some(
                            GrabResolution::Throw {
                                holder: fighter,
                                victim: victim_id,
                                strength,
                                aim: aimed_throw(holder.movement_length_squared),
                                braced: victim.input_guard,
                            },
                        );
                    }
                },
                None => {
                    resolution = Some(release);
                },
            }
        }
    }
    if let Some(resolution) = resolution {
        resolutions.push(resolution);
    }
    proof {
        assert(resolution == holder_resolution(snapshots@, fighter, *tuning));
        assert(resolutions@ =~= before + listed(resolution));
    }
}

fn resolve_victim(
    snapshots: &Vec<GrabSnapshot>,
    entries: &[Option<usize>; FIGHTER_COUNT],
    fighter: FighterId,
    resolutions: &mut Vec<GrabResolution>,
)
    requires
        entries@ == Seq::new(
            FIGHTER_COUNT as nat,
            |f: int| entry_of(snapshot_slots(snapshots@), f),
        ),
        forall|f: int|
            0 <= f < FIGHTER_COUNT ==> match #[trigger] entries@[f] {
                Some(entry) => entry < snapshots@.len(),
                None => true,
            },
    ensures
        final(resolutions)@ == old(resolutions)@ + listed(victim_resolution(snapshots@, fighter)),
{
    let ghost before = resolutions@;
    let mut resolution: Option<GrabResolution> = None;
    if let Some(victim) = lookup_snapshot(snapshots, entries, fighter) {
        if victim.action == FighterAction::Grabbed {
            if let Some(holder_id) = victim.held_by {
                let active = match lookup_snapshot(snapshots, entries, holder_id) {
                    Some(holder) => holder.action == FighterAction::GrabHold && (
                    match holder.holding {
                        Some(held) => held == fighter,
                        None => false,
                    }),
                    None => false,
                };
                if !active {
                    resolution = Some(
                        GrabResolution::Release { holder: holder_id, victim: fighter },
                    );
                }
            }
        }
    }
    if let Some(resolution) = resolution {
        resolutions.push(resolution);
    }
    proof {
        assert(resolution == victim_resolution(snapshots@, fighter));
        assert(resolutions@ =~= before + listed(resolution));
    }
}

fn slots_of(snapshots: &Vec<GrabSnapshot>) -> (slots: Vec<usize>)
    ensures
        slots@ == snapshot_slots(snapshots@),
{
    let mut slots: Vec<usize> = Vec::new();
    let mut next: usize = 0;
    while next < snapshots.len()
        invariant
            next <= snapshots@.len(),
            slots@.len() == next,
            forall|i: int| 0 <= i < next ==> (#[trigger] slots@[i]) == snapshots@[i].slot,
        decreases snapshots@.len() - next,
    {
        slots.push(snapshots[next].slot);
        next += 1;
    }
    proof {
        assert(slots@ =~= snapshot_slots(snapshots@));
    }
    slots
}

/// A fighter's side of the holds.
#[derive(Clone, Copy, Debug, PartialEq, Eq)]
pub struct GrabFighter {
    pub state: FighterGrabState,
    pub action: FighterActionState,
}

/// The fighters one tick later: whoever broke free or was thrown comes closer to
/// being grabbed again.
pub open spec fn lockouts_ticked(fighters: Seq<Option<GrabFighter>>) -> Seq<Option<GrabFighter>> {
    Seq::new(
        fighters.len(),
        |i: int|
            match fighters[i] {
                Some(fighter) => Some(
                    GrabFighter {
                        state: FighterGrabState {
                            regrab_lockout: fighter.state.regrab_lockout.ticked(),
                            ..fighter.state
                        },
                        ..fighter
                    },
                ),
                None => None,
            },
    )
}

/// Lets the lockouts of all fighters run for one tick.
fn tick_regrab_lockouts(fighters: &mut [Option<GrabFighter>; FIGHTER_COUNT])
    ensures
        final(fighters)@ == lockouts_ticked(old(fighters)@),
{
    let mut next: usize = 0;
    while next < FIGHTER_COUNT
        invariant
            next <= FIGHTER_COUNT,
            forall|i: int|
                0 <= i < FIGHTER_COUNT ==> (#[trigger] fighters@[i]) == (if i < next {
                    lockouts_ticked(old(fighters)@)[i]
                } else {
                    old(fighters)@[i]
                }),
        decreases FIGHTER_COUNT - next,
    {
        if let Some(fighter) = fighters[next] {
            let mut ticked = fighter;
            ticked.state.regrab_lockout.tick();
            fighters[next] = Some(ticked);
        }
        next += 1;
    }
    proof {
        assert(fighters@ =~= lockouts_ticked(old(fighters)@));
    }
}

/// Resolves all holds of a tick and lets the lockouts of all fighters run, before any
/// resolution is applied. Nothing happens in hitstop, and a set of snapshots in which a
/// slot is unknown or repeated is refused as a whole.
pub fn update_grab_holds(
    hitstop: &Hitstop,
    snapshots: &Vec<GrabSnapshot>,
    fighters: &mut [Option<GrabFighter>; FIGHTER_COUNT],
    tuning: &GrabTuning,
) -> (result: Result<Vec<GrabResolution>, SlotCollectionError>)
    ensures
        match result {
            Ok(resolutions) => if hitstop.active() {
                &&& resolutions@ == Seq::<GrabResolution>::empty()
                &&& final(fighters)@ == old(fighters)@
            } else {
                &&& collection_fault(snapshot_slots(snapshots@)).is_none()
                &&& resolutions@ == grab_resolutions(snapshots@, *tuning)
                &&& final(fighters)@ == lockouts_ticked(old(fighters)@)
            },
            Err(fault) => {
                &&& !hitstop.active()
                &&& collection_fault(snapshot_slots(snapshots@)) == Some(fault)
                &&& final(fighters)@ == old(fighters)@
            },
        },
{
    let mut resolutions: Vec<GrabResolution> = Vec::new();
    if hitstop.active() {
        return Ok(resolutions);
    }
    let slots = slots_of(snapshots);
    let entries = match fighter_entries(&slots, "grab fighters") {
        Ok(entries) => entries,
        Err(fault) => {
            return Err(fault);
        },
    };
    proof {
        crate::fixed::accepted_iff_slots_are_distinct(slots@);
        assert forall|f: int| 0 <= f < FIGHTER_COUNT implies match #[trigger] entries@[f] {
            Some(entry) => entry < snapshots@.len(),
            None => true,
        } by {
            crate::fixed::entry_is_in_range(slots@, f);
        }
    }
    resolve_holder(snapshots, &entries, FighterId::Zero, tuning, &mut resolutions);
    resolve_holder(snapshots, &entries, FighterId::One, tuning, &mut resolutions);
    resolve_holder(snapshots, &entries, FighterId::Two, tuning, &mut resolutions);
    resolve_holder(snapshots, &entries, FighterId::Three, tuning, &mut resolutions);
    resolve_victim(snapshots, &entries, FighterId::Zero, &mut resolutions);
    resolve_victim(snapshots, &entries, FighterId::One, &mut resolutions);
    resolve_victim(snapshots, &entries, FighterId::Two, &mut resolutions);
    resolve_victim(snapshots, &entries, FighterId::Three, &mut resolutions);
    proof {
        assert(resolutions@ =~= grab_resolutions(snapshots@, *tuning));
    }
    tick_regrab_lockouts(fighters);
    Ok(resolutions)
}

/// A fighter's hold after one resolution, and whether it is hit by a throw.
pub open spec fn after_resolution(
    state: FighterGrabState,
    action: FighterActionState,
    fighter: FighterId,
    resolution: GrabResolution,
    tuning: GrabTuning,
) -> (FighterGrabState, FighterActionState, bool) {
    match resolution {
        GrabResolution::Release { holder, victim } => if fighter == holder {
            (
                FighterGrabState { holding: None, ..state },
                action.switched(FighterAction::Idle),
                false,
            )
        } else if fighter == victim {
            (
                FighterGrabState {
                    held_by: None,
                    regrab_lockout: TickTimer { remaining: tuning.release_lockout },
                    ..state
                },
                action.switched(FighterAction::Idle),
                false,
            )
        } else {
            (state, action, false)
        },
        GrabResolution::Throw { holder, victim, strength: _, aim: _, braced: _ } => if fighter
            == holder {
            (
                FighterGrabState { holding: None, ..state },
                action.switched(FighterAction::Throwing),
                false,
            )
        } else if fighter == victim {
            (
                FighterGrabState {
                    held_by: None,
                    regrab_lockout: TickTimer { remaining: tuning.throw_lockout },
                    ..state
                },
                action,
                true,
            )
        } else {
            (state, action, false)
        },
    }
}

/// Applies one resolution to one fighter. True says that the fighter is thrown,
/// so that the throw's impact is due.
pub fn apply_grab_resolution(
    state: &mut FighterGrabState,
    action: &mut FighterActionState,
    fighter: FighterId,
    resolution: GrabResolution,
    tuning: &GrabTuning,
) -> (thrown: bool)
    ensures
        (*final(state), *final(action), thrown) == after_resolution(
            *old(state),
            *old(action),
            fighter,
            resolution,
            *tuning,
        ),
{
    match resolution {
        GrabResolution::Release { holder, victim } => {
            if fighter == holder {
                state.holding = None;
                set_action(action, FighterAction::Idle);
            } else if fighter == victim {
                state.held_by = None;
                state.regrab_lockout = TickTimer::from_ticks(tuning.release_lockout);
                set_action(action, FighterAction::Idle);
            }
            false
        },
        GrabResolution::Throw { holder, victim, strength: _, aim: _, braced: _ } => {
            if fighter == holder {
                state.holding = None;
                set_action(action, FighterAction::Throwing);
                false
            } else if fighter == victim {
                state.held_by = None;
                state.regrab_lockout = TickTimer::from_ticks(tuning.throw_lockout);
                true
            } else {
                false
            }
        },
    }
}

/// The four fighters after one resolution.
pub open spec fn resolution_applied(
    fighters: Seq<Option<GrabFighter>>,
    resolution: GrabResolution,
    tuning: GrabTuning,
) -> Seq<Option<GrabFighter>> {
    Seq::new(
        fighters.len(),
        |i: int|
            match (fighters[i], FighterId::at(i)) {
                (Some(fighter), Some(id)) => {
                    let after = after_resolution(
                        fighter.state,
                        fighter.action,
                        id,
                        resolution,
                        tuning,
                    );
                    Some(GrabFighter { state: after.0, action: after.1 })
                },
                _ => fighters[i],
            },
    )
}

/// The four fighters after a list of resolutions, first to last.
pub open spec fn resolutions_applied(
    fighters: Seq<Option<GrabFighter>>,
    resolutions: Seq<GrabResolution>,
    tuning: GrabTuning,
) -> Seq<Option<GrabFighter>>
    decreases resolutions.len(),
{
    if resolutions.len() == 0 {
        fighters
    } else {
        resolution_applied(
            resolutions_applied(fighters, resolutions.drop_last(), tuning),
            resolutions.last(),
            tuning,
        )
    }
}

/// A resolution throws somebody who is there.
pub open spec fn throw_hits(
    fighters: Seq<Option<GrabFighter>>,
    resolution: GrabResolution,
) -> bool {
    match resolution {
        GrabResolution::Throw { holder, victim, .. } => holder != victim
            && fighters[victim.spec_index() as int].is_some(),
        GrabResolution::Release { .. } => false,
    }
}

/// Applies one resolution to the four fighters. True says that the victim is hit.
fn apply_to_all(
    fighters: &mut [Option<GrabFighter>; FIGHTER_COUNT],
    resolution: GrabResolution,
    tuning: &GrabTuning,
) -> (hit: bool)
    ensures
        final(fighters)@ == resolution_applied(old(fighters)@, resolution, *tuning),
        hit == throw_hits(old(fighters)@, resolution),
{
    let mut hit = false;
    let mut next: usize = 0;
    while next < FIGHTER_COUNT
        invariant
            next <= FIGHTER_COUNT,
            forall|i: int|
                0 <= i < FIGHTER_COUNT ==> (#[trigger] fighters@[i]) == (if i < next {
                    resolution_applied(old(fighters)@, resolution, *tuning)[i]
                } else {
                    old(fighters)@[i]
                }),
            hit == (throw_hits(old(fighters)@, resolution) && match thrown_victim(resolution) {
                Some(victim) => victim.spec_index() < next,
                None => false,
            }),
        decreases FIGHTER_COUNT - next,
    {
        if let Some(fighter) = fighters[next] {
            if let Some(id) = FighterId::from_index(next) {
                let mut after = fighter;
                let thrown = apply_grab_resolution(
                    &mut after.state,
                    &mut after.action,
                    id,
                    resolution,
                    tuning,
                );
                fighters[next] = Some(after);
                if thrown {
                    hit = true;
                }
            }
        }
        next += 1;
    }
    proof {
        assert(fighters@ =~= resolution_applied(old(fighters)@, resolution, *tuning));
    }
    hit
}

/// Applies resolutions to the four fighters, from the place `from` on, up to and with
/// the first throw that hits somebody, whose impact is then due before the rest. The
/// result is the place behind the last one applied, and that throw.
pub fn apply_grab_resolutions(
    fighters: &mut [Option<GrabFighter>; FIGHTER_COUNT],
    resolutions: &Vec<GrabResolution>,
    from: usize,
    tuning: &GrabTuning,
) -> (applied: (usize, Option<GrabResolution>))
    requires
        from <= resolutions@.len(),
    ensures
        from <= applied.0 <= resolutions@.len(),
        final(fighters)@ == resolutions_applied(
            old(fighters)@,
            resolutions@.subrange(from as int, applied.0 as int),
            *tuning,
        ),
        match applied.1 {
            Some(throw) => {
                &&& from < applied.0
                &&& throw == resolutions@[applied.0 - 1]
                &&& throw_hits(old(fighters)@, throw)
                &&& forall|i: int|
                    from <= i < applied.0 - 1 ==> !throw_hits(
                        old(fighters)@,
                        #[trigger] resolutions@[i],
                    )
            },
            None => {
                &&& applied.0 == resolutions@.len()
                &&& forall|i: int|
                    from <= i < applied.0 ==> !throw_hits(
                        old(fighters)@,
                        #[trigger] resolutions@[i],
                    )
            },
        },
{
    let mut next: usize = from;
    proof {
        assert(resolutions@.subrange(from as int, next as int) =~= Seq::empty());
    }
    while next < resolutions.len()
        invariant
            from <= next <= resolutions@.len(),
            fighters@ == resolutions_applied(
                old(fighters)@,
                resolutions@.subrange(from as int, next as int),
                *tuning,
            ),
            forall|i: int|
                from <= i < next ==> !throw_hits(old(fighters)@, #[trigger] resolutions@[i]),
        decreases resolutions@.len() - next,
    {
        let resolution = resolutions[next];
        proof {
            lemma_nobody_leaves(
                old(fighters)@,
                resolutions@.subrange(from as int, next as int),
                *tuning,
            );
            assert(resolutions@.subrange(from as int, next + 1).drop_last()
                =~= resolutions@.subrange(from as int, next as int));
        }
        let hit = apply_to_all(fighters, resolution, tuning);
        next += 1;
        if hit {
            return (next, Some(resolution));
        }
    }
    (next, None)
}

/// Who is there stays there.
proof fn lemma_nobody_leaves(
    fighters: Seq<Option<GrabFighter>>,
    resolutions: Seq<GrabResolution>,
    tuning: GrabTuning,
)
    ensures
        resolutions_applied(fighters, resolutions, tuning).len() == fighters.len(),
        forall|i: int|
            0 <= i < fighters.len() ==> (#[trigger] resolutions_applied(
                fighters,
                resolutions,
                tuning,
            )[i]).is_some() == fighters[i].is_some(),
    decreases resolutions.len(),
{
    if resolutions.len() > 0 {
        lemma_nobody_leaves(fighters, resolutions.drop_last(), tuning);
    }
}

/// Resolutions may be applied in parts: what stops for an impact goes on as if it had
/// not stopped.
pub proof fn resolutions_go_on(
    fighters: Seq<Option<GrabFighter>>,
    first: Seq<GrabResolution>,
    second: Seq<GrabResolution>,
    tuning: GrabTuning,
)
    ensures
        resolutions_applied(resolutions_applied(fighters, first, tuning), second, tuning)
            == resolutions_applied(fighters, first + second, tuning),
    decreases second.len(),
{
    if second.len() == 0 {
        assert(first + second =~= first);
    } else {
        resolutions_go_on(fighters, first, second.drop_last(), tuning);
        assert((first + second).drop_last() =~= first + second.drop_last());
    }
}

/// A throw that hit somebody, with the event that its impact calls for.
#[derive(Clone, Copy, Debug, PartialEq, Eq, Structural)]
pub struct ThrowHit {
    pub attacker: FighterId,
    pub victim: FighterId,
    pub kind: SimEventKind,
}

/// What is to be shown of a throw's impact, under the name of its event.
#[derive(Clone, Copy, Debug, PartialEq, Eq, Structural)]
pub struct CombatPresentationIntent {
    pub event_id: SimEventId,
    pub victim: FighterId,
}

/// The last hit on a victim.
pub open spec fn last_hit(hits: Seq<ThrowHit>, victim: FighterId) -> Option<ThrowHit>
    decreases hits.len(),
{
    if hits.len() == 0 {
        None
    } else if hits.last().victim == victim {
        Some(hits.last())
    } else {
        last_hit(hits.drop_last(), victim)
    }
}

/// A hit as a list.
pub open spec fn listed_hit(hit: Option<ThrowHit>) -> Seq<ThrowHit> {
    match hit {
        Some(hit) => seq![hit],
        None => Seq::empty(),
    }
}

/// The hits that become events: the last on each victim, in the order of the victims.
pub open spec fn hits_by_victim(hits: Seq<ThrowHit>) -> Seq<ThrowHit> {
    listed_hit(last_hit(hits, FighterId::Zero)) + listed_hit(last_hit(hits, FighterId::One))
        + listed_hit(last_hit(hits, FighterId::Two)) + listed_hit(last_hit(hits, FighterId::Three))
}

/// The name of the event of a hit that comes behind `earlier` events.
pub open spec fn hit_event_id(tick: SimTick, earlier: int, hit: ThrowHit) -> SimEventId {
    SimEventId { tick, source: SimEventSource::Fighter(hit.attacker), ordinal: earlier as u16 }
}

/// How many of `wanted` events still fit behind `earlier` ones.
pub open spec fn fitting(capacity: usize, earlier: nat, wanted: nat) -> nat {
    if earlier + wanted <= capacity {
        wanted
    } else if earlier <= capacity {
        (capacity - earlier) as nat
    } else {
        0
    }
}

/// The events of hits that come behind `earlier` events, as far as they fit.
pub open spec fn hit_events(
    tick: SimTick,
    capacity: usize,
    earlier: nat,
    hits: Seq<ThrowHit>,
) -> Seq<SimEvent> {
    Seq::new(
        fitting(capacity, earlier, hits.len()),
        |i: int| SimEvent { id: hit_event_id(tick, earlier + i, hits[i]), kind: hits[i].kind },
    )
}

/// What is to be shown of the same hits.
pub open spec fn hit_intents(
    tick: SimTick,
    capacity: usize,
    earlier: nat,
    hits: Seq<ThrowHit>,
) -> Seq<CombatPresentationIntent> {
    Seq::new(
        fitting(capacity, earlier, hits.len()),
        |i: int|
            CombatPresentationIntent {
                event_id: hit_event_id(tick, earlier + i, hits[i]),
                victim: hits[i].victim,
            },
    )
}

fn find_last_hit(hits: &Vec<ThrowHit>, victim: FighterId) -> (found: Option<ThrowHit>)
    ensures
        found == last_hit(hits@, victim),
{
    let mut left: usize = hits.len();
    proof {
        assert(hits@.take(left as int) =~= hits@);
    }
    while left > 0
        invariant
            left <= hits@.len(),
            last_hit(hits@.take(left as int), victim) == last_hit(hits@, victim),
        decreases left,
    {
        proof {
            assert(hits@.take(left as int).drop_last() =~= hits@.take(left - 1));
        }
        left -= 1;
        if hits[left].victim == victim {
            return Some(hits[left]);
        }
    }
    None
}

fn list_hit(hit: Option<ThrowHit>, due: &mut Vec<ThrowHit>)
    ensures
        final(due)@ == old(due)@ + listed_hit(hit),
{
    if let Some(hit) = hit {
        due.push(hit);
    }
    proof {
        assert(due@ =~= old(due)@ + listed_hit(hit));
    }
}

fn due_hits(hits: &Vec<ThrowHit>) -> (due: Vec<ThrowHit>)
    ensures
        due@ == hits_by_victim(hits@),
{
    let mut due: Vec<ThrowHit> = Vec::new();
    list_hit(find_last_hit(hits, FighterId::Zero), &mut due);
    list_hit(find_last_hit(hits, FighterId::One), &mut due);
    list_hit(find_last_hit(hits, FighterId::Two), &mut due);
    list_hit(find_last_hit(hits, FighterId::Three), &mut due);
    proof {
        assert(due@ =~= hits_by_victim(hits@));
    }
    due
}

/// Emits the events of a tick's throws, once all resolutions are applied: one for each
/// victim, in the order of the victims, with the attacker as the source. Where a victim
/// was hit more than once, the last hit counts. The result is what whoever shows the
/// fight has to record, one for each event that was accepted.
pub fn emit_throw_hits(hits: &Vec<ThrowHit>, sim_events: &mut TickEventBuffer) -> (intents: Vec<
    CombatPresentationIntent,
>)
    requires
        old(sim_events).wf(),
    ensures
        final(sim_events).wf(),
        final(sim_events).spec_tick() == old(sim_events).spec_tick(),
        final(sim_events).spec_capacity() == old(sim_events).spec_capacity(),
        final(sim_events)@ == old(sim_events)@ + hit_events(
            old(sim_events).spec_tick(),
            old(sim_events).spec_capacity(),
            old(sim_events)@.len(),
            hits_by_victim(hits@),
        ),
        intents@ == hit_intents(
            old(sim_events).spec_tick(),
            old(sim_events).spec_capacity(),
            old(sim_events)@.len(),
            hits_by_victim(hits@),
        ),
{
    let due = due_hits(hits);
    let mut intents: Vec<CombatPresentationIntent> = Vec::new();
    let ghost tick = sim_events.spec_tick();
    let ghost capacity = sim_events.spec_capacity();
    let ghost earlier = sim_events@;
    proof {
        buffers_are_bounded(*sim_events);
        let none = hit_events(tick, capacity, earlier.len(), due@.take(0));
        assert(sim_events@ =~= earlier + none);
        assert(intents@ =~= hit_intents(tick, capacity, earlier.len(), due@.take(0)));
    }
    let mut next: usize = 0;
    while next < due.len()
        invariant
            next <= due@.len(),
            earlier.len() <= capacity,
            sim_events.wf(),
            sim_events.spec_tick() == tick,
            sim_events.spec_capacity() == capacity,
            sim_events@ == earlier + hit_events(
                tick,
                capacity,
                earlier.len(),
                due@.take(next as int),
            ),
            intents@ == hit_intents(tick, capacity, earlier.len(), due@.take(next as int)),
        decreases due@.len() - next,
    {
        let hit = due[next];
        if let Ok(event_id) = sim_events.emit(SimEventSource::Fighter(hit.attacker), hit.kind) {
            intents.push(CombatPresentationIntent { event_id, victim: hit.victim });
        }
        next += 1;
        proof {
            let done = due@.take(next as int);
            assert(done.drop_last() =~= due@.take(next - 1));
            assert(sim_events@ =~= earlier + hit_events(tick, capacity, earlier.len(), done));
            assert(intents@ =~= hit_intents(tick, capacity, earlier.len(), done));
        }
    }
    proof {
        assert(due@.take(next as int) =~= due@);
    }
    intents
}

proof fn lemma_last_hit_is_a_hit(hits: Seq<ThrowHit>, victim: FighterId)
    ensures
        last_hit(hits, victim) matches Some(hit) ==> hit.victim == victim && hits.contains(hit),
        last_hit(hits, victim).is_none() <==> forall|i: int|
            0 <= i < hits.len() ==> (#[trigger] hits[i]).victim != victim,
    decreases hits.len(),
{
    if hits.len() > 0 {
        let before = hits.drop_last();
        lemma_last_hit_is_a_hit(before, victim);
        assert(hits[hits.len() - 1] == hits.last());
        if hits.last().victim != victim {
            if let Some(hit) = last_hit(before, victim) {
                let place = choose|i: int| 0 <= i < before.len() && before[i] == hit;
                assert(hits[place] == hit);
                assert(before[place].victim == victim);
            } else {
                assert forall|i: int| 0 <= i < hits.len() implies (
                #[trigger] hits[i]).victim != victim by {
                    if i < before.len() {
                        assert(before[i].victim != victim);
                    }
                }
            }
        }
    }
}

/// Every victim of a tick's throws has exactly one event, and the events come in the
/// order of the victims.
pub proof fn throws_report_each_victim_once(hits: Seq<ThrowHit>)
    ensures
        forall|i: int, j: int|
            0 <= i < j < hits_by_victim(hits).len() ==> (#[trigger] hits_by_victim(
                hits,
            )[i]).victim.spec_index() < (#[trigger] hits_by_victim(hits)[j]).victim.spec_index(),
        forall|i: int|
            0 <= i < hits_by_victim(hits).len() ==> last_hit(
                hits,
                (#[trigger] hits_by_victim(hits)[i]).victim,
            ) == Some(hits_by_victim(hits)[i]),
        forall|i: int|
            0 <= i < hits.len() ==> exists|j: int|
                0 <= j < hits_by_victim(hits).len() && (#[trigger] hits_by_victim(hits)[j]).victim
                    == (#[trigger] hits[i]).victim,
{
    let due = hits_by_victim(hits);
    lemma_last_hit_is_a_hit(hits, FighterId::Zero);
    lemma_last_hit_is_a_hit(hits, FighterId::One);
    lemma_last_hit_is_a_hit(hits, FighterId::Two);
    lemma_last_hit_is_a_hit(hits, FighterId::Three);
    let zero = listed_hit(last_hit(hits, FighterId::Zero));
    let one = listed_hit(last_hit(hits, FighterId::One));
    let two = listed_hit(last_hit(hits, FighterId::Two));
    let three = listed_hit(last_hit(hits, FighterId::Three));
    assert(due == zero + one + two + three);
    assert forall|i: int| 0 <= i < hits.len() implies exists|j: int|
        0 <= j < due.len() && (#[trigger] due[j]).victim == (#[trigger] hits[i]).victim by {
        let place = match hits[i].victim {
            FighterId::Zero => 0,
            FighterId::One => zero.len(),
            FighterId::Two => zero.len() + one.len(),
            FighterId::Three => zero.len() + one.len() + two.len(),
        };
        assert(due[place as int].victim == hits[i].victim);
    }
}

/// How hard an impact is felt.
#[derive(Clone, Copy, Debug, PartialEq, Eq, Structural)]
pub enum ImpactFeedbackIntensity {
    Light,
    Heavy,
}

/// What a throw does besides its damage and speed.
#[derive(Clone, Copy, Debug, PartialEq, Eq, Structural)]
pub struct ThrowProfile {
    pub force_knockdown: bool,
    pub intensity: ImpactFeedbackIntensity,
    pub reaction: ReactionFamilyId,
}

/// A quick throw pops its victim up; every other throw knocks it down.
pub open spec fn spec_throw_profile(strength: ThrowStrength) -> ThrowProfile {
    if strength == ThrowStrength::Quick {
        ThrowProfile {
            force_knockdown: false,
            intensity: ImpactFeedbackIntensity::Light,
            reaction: ReactionFamilyId::LightAirPop,
        }
    } else {
        ThrowProfile {
            force_knockdown: true,
            intensity: ImpactFeedbackIntensity::Heavy,
            reaction: ReactionFamilyId::SlidingKnockdown,
        }
    }
}

pub fn throw_profile(strength: ThrowStrength) -> (profile: ThrowProfile)
    ensures
        profile == spec_throw_profile(strength),
{
    match strength {
        ThrowStrength::Quick => ThrowProfile {
            force_knockdown: false,
            intensity: ImpactFeedbackIntensity::Light,
            reaction: ReactionFamilyId::LightAirPop,
        },
        ThrowStrength::Standard | ThrowStrength::Heavy => ThrowProfile {
            force_knockdown: true,
            intensity: ImpactFeedbackIntensity::Heavy,
            reaction: ReactionFamilyId::SlidingKnockdown,
        },
    }
}

/// A throw towards the edge near the edge is boosted: far enough out, and going
/// outwards.
pub fn throw_edge_pressure(
    distance_squared: Scalar,
    pressure_start_squared: Scalar,
    outward_alignment: Scalar,
) -> (pressed: bool)
    ensures
        pressed == (pressure_start_squared.le(distance_squared) && Scalar {
            bits: AGREEING_ALIGNMENT_BITS,
        }.lt(outward_alignment)),
{
    pressure_start_squared.le(distance_squared) && Scalar { bits: AGREEING_ALIGNMENT_BITS }.lt(
        outward_alignment,
    )
}

/// The fighter that a resolution throws, if any.
pub open spec fn thrown_victim(resolution: GrabResolution) -> Option<FighterId> {
    match resolution {
        GrabResolution::Throw { victim, .. } => Some(victim),
        GrabResolution::Release { .. } => None,
    }
}

/// A fighter is thrown by at most one other, namely the one that it is held by.
pub proof fn victims_have_one_thrower(
    snapshots: Seq<GrabSnapshot>,
    first: FighterId,
    second: FighterId,
    victim: FighterId,
    tuning: GrabTuning,
)
    requires
        holder_resolution(snapshots, first, tuning).is_some(),
        holder_resolution(snapshots, second, tuning).is_some(),
        thrown_victim(holder_resolution(snapshots, first, tuning).unwrap()) == Some(victim),
        thrown_victim(holder_resolution(snapshots, second, tuning).unwrap()) == Some(victim),
    ensures
        first == second,
        snapshot_of(snapshots, victim.spec_index() as int).is_some(),
        snapshot_of(snapshots, victim.spec_index() as int).unwrap().held_by == Some(first),
{
}

/// There are at most two resolutions per fighter.
pub proof fn resolutions_are_bounded(snapshots: Seq<GrabSnapshot>, tuning: GrabTuning)
    ensures
        grab_resolutions(snapshots, tuning).len() <= 2 * FIGHTER_COUNT,
{
}

/// A hold that both sides agree on and that nobody ends goes on: there is no
/// resolution for it before the victim may break free, a throw is asked for, or
/// the longest time is reached.
pub proof fn undisturbed_holds_go_on(
    snapshots: Seq<GrabSnapshot>,
    holder: FighterId,
    victim: FighterId,
    tuning: GrabTuning,
)
    requires
        snapshot_of(snapshots, holder.spec_index() as int).is_some(),
        snapshot_of(snapshots, victim.spec_index() as int).is_some(),
        ({
            let above = snapshot_of(snapshots, holder.spec_index() as int).unwrap();
            let below = snapshot_of(snapshots, victim.spec_index() as int).unwrap();
            &&& above.action == FighterAction::GrabHold
            &&& above.holding == Some(victim)
            &&& !above.input_light
            &&& !above.input_heavy
            &&& !above.elapsed.reached(tuning.hold_max)
            &&& !above.elapsed.reached(tuning.escape_after)
            &&& below.action == FighterAction::Grabbed
            &&& below.held_by == Some(holder)
        }),
    ensures
        holder_resolution(snapshots, holder, tuning).is_none(),
        victim_resolution(snapshots, victim).is_none(),
{
}

/// After a release both sides are free of each other and idle.
pub proof fn releases_free_both_sides(
    state: FighterGrabState,
    action: FighterActionState,
    holder: FighterId,
    victim: FighterId,
    tuning: GrabTuning,
)
    requires
        holder != victim,
    ensures
        ({
            let release = GrabResolution::Release { holder, victim };
            let above = after_resolution(state, action, holder, release, tuning);
            let below = after_resolution(state, action, victim, release, tuning);
            &&& above.0.holding.is_none()
            &&& above.1.action == FighterAction::Idle
            &&& below.0.held_by.is_none()
            &&& below.1.action == FighterAction::Idle
        }),
{
}

/// Storage order does not matter: the same snapshots in another order are accepted
/// alike and give the same resolutions in the same order.
pub proof fn holds_ignore_storage_order(
    forward: Seq<GrabSnapshot>,
    reversed: Seq<GrabSnapshot>,
    tuning: GrabTuning,
)
    requires
        forward.to_multiset() == reversed.to_multiset(),
        collection_fault(snapshot_slots(forward)).is_none(),
    ensures
        collection_fault(snapshot_slots(reversed)).is_none(),
        grab_resolutions(forward, tuning) == grab_resolutions(reversed, tuning),
{
    let slot = |snapshot: GrabSnapshot| snapshot.slot;
    crate::fixed::accepted_iff_slots_are_distinct(snapshot_slots(forward));
    crate::fixed::accepted_iff_slots_are_distinct(snapshot_slots(reversed));
    assert(snapshot_slots(forward) =~= Seq::new(forward.len(), |i: int| slot(forward[i])));
    assert(snapshot_slots(reversed) =~= Seq::new(reversed.len(), |i: int| slot(reversed[i])));
    assert forall|fighter: int| #[trigger]
        snapshot_of(forward, fighter) == snapshot_of(reversed, fighter) by {
        crate::fixed::entries_ignore_storage_order(forward, reversed, slot, fighter);
    }
    crate::fixed::entries_ignore_storage_order(forward, reversed, slot, 0);
    assert forall|fighter: FighterId| #[trigger]
        holder_resolution(forward, fighter, tuning) == holder_resolution(
            reversed,
            fighter,
            tuning,
        ) by {}
    assert forall|fighter: FighterId| #[trigger]
        victim_resolution(forward, fighter) == victim_resolution(reversed, fighter) by {}
}

} // verus!

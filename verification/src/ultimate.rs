//! Ultimate locks: an attacker in its rush and the victim that it carries along.

use arrayvec::ArrayVec;
use vstd::prelude::*;

use crate::action::{FighterAction, FighterActionState, set_action};
use crate::fixed::{
    SlotCollectionError, collection_fault, entry_of, fighter_entries, find_in_pairs, leads_pair,
    new_slots, pair_leader, slot_entries, try_push_fixed_fighter,
};
use crate::ids::{FighterId, FIGHTER_COUNT};
use crate::technique::TechniqueId;
use crate::ticks::{ElapsedTicks, milliseconds_to_ticks_ceil, ticks_covering_millis};

verus! {

/// How long an ultimate lock lasts, in milliseconds.
pub const ULTIMATE_LOCK_RELEASE_AFTER_MS: u32 = 900;

/// How long Pig's ultimate lock lasts, in milliseconds.
pub const PIG_ULTIMATE_LOCK_RELEASE_AFTER_MS: u32 = 1360;

#[derive(Clone, Copy, Debug, PartialEq, Eq, Structural)]
pub struct FighterUltimateState {
    pub target: Option<FighterId>,
    pub owner: Option<FighterId>,
}

/// What is looked at of a fighter to resolve locks.
#[derive(Clone, Copy, Debug, PartialEq, Eq, Structural)]
pub struct UltimateLockSnapshot {
    pub slot: usize,
    pub action: FighterAction,
    pub technique_id: Option<TechniqueId>,
    pub elapsed: ElapsedTicks,
    pub target: Option<FighterId>,
    pub owner: Option<FighterId>,
}

/// How long the lock of a rush lasts, in milliseconds. Pig's lasts until its
/// heavy finisher.
pub open spec fn spec_ultimate_lock_release_after(technique_id: Option<TechniqueId>) -> u32 {
    if technique_id == Some(TechniqueId::PigUltimateRush) {
        PIG_ULTIMATE_LOCK_RELEASE_AFTER_MS
    } else {
        ULTIMATE_LOCK_RELEASE_AFTER_MS
    }
}

#[verifier::when_used_as_spec(spec_ultimate_lock_release_after)]
pub fn ultimate_lock_release_after(technique_id: Option<TechniqueId>) -> (millis: u32)
    ensures
        millis == spec_ultimate_lock_release_after(technique_id),
{
    if technique_id == Some(TechniqueId::PigUltimateRush) {
        PIG_ULTIMATE_LOCK_RELEASE_AFTER_MS
    } else {
        ULTIMATE_LOCK_RELEASE_AFTER_MS
    }
}

/// The slots of the snapshots, in storage order.
pub open spec fn lock_slots(snapshots: Seq<UltimateLockSnapshot>) -> Seq<usize> {
    Seq::new(snapshots.len(), |i: int| snapshots[i].slot)
}

/// A fighter's snapshot.
pub open spec fn lock_snapshot_of(
    snapshots: Seq<UltimateLockSnapshot>,
    fighter: int,
) -> Option<UltimateLockSnapshot> {
    match entry_of(lock_slots(snapshots), fighter) {
        Some(entry) => Some(snapshots[entry as int]),
        None => None,
    }
}

/// Whom a fighter in its rush goes for.
pub open spec fn rush_target(
    snapshots: Seq<UltimateLockSnapshot>,
    attacker: FighterId,
) -> Option<FighterId> {
    match lock_snapshot_of(snapshots, attacker.spec_index() as int) {
        Some(snapshot) => if snapshot.action == FighterAction::UltimateRush {
            snapshot.target
        } else {
            None
        },
        None => None,
    }
}

/// A lock holds: the attacker rushes, the victim is its victim, and the lock's
/// time is not over.
pub open spec fn lock_holds(
    snapshots: Seq<UltimateLockSnapshot>,
    attacker: FighterId,
    victim: FighterId,
) -> bool {
    &&& rush_target(snapshots, attacker) == Some(victim)
    &&& match lock_snapshot_of(snapshots, victim.spec_index() as int) {
        Some(below) => {
            let above = lock_snapshot_of(snapshots, attacker.spec_index() as int).unwrap();
            &&& below.owner == Some(attacker)
            &&& below.action == FighterAction::UltimateVictim
            &&& !above.elapsed.reached(
                ticks_covering_millis(ultimate_lock_release_after(above.technique_id) as int) as u32,
            )
        },
        None => false,
    }
}

/// A rush whose lock does not hold, seen from its attacker.
pub open spec fn attacker_stale(snapshots: Seq<UltimateLockSnapshot>, fighter: FighterId) -> bool {
    match rush_target(snapshots, fighter) {
        Some(victim) => !lock_holds(snapshots, fighter, victim),
        None => false,
    }
}

/// Somebody's rush goes for this fighter and its lock does not hold.
pub open spec fn target_stale(snapshots: Seq<UltimateLockSnapshot>, fighter: FighterId) -> bool {
    &&& lock_snapshot_of(snapshots, fighter.spec_index() as int).is_some()
    &&& exists|attacker: FighterId| #[trigger]
        rush_target(snapshots, attacker) == Some(fighter) && !lock_holds(
            snapshots,
            attacker,
            fighter,
        )
}

/// A victim whose owner does not rush for it.
pub open spec fn victim_stale(snapshots: Seq<UltimateLockSnapshot>, fighter: FighterId) -> bool {
    match lock_snapshot_of(snapshots, fighter.spec_index() as int) {
        Some(snapshot) => snapshot.action == FighterAction::UltimateVictim && (
        match snapshot.owner {
            Some(owner) => rush_target(snapshots, owner) != Some(fighter),
            None => true,
        }),
        None => false,
    }
}

/// A fighter's lock is to be forgotten.
pub open spec fn lock_stale(snapshots: Seq<UltimateLockSnapshot>, fighter: FighterId) -> bool {
    attacker_stale(snapshots, fighter) || target_stale(snapshots, fighter) || victim_stale(
        snapshots,
        fighter,
    )
}

/// The pair of a fighter whose lock holds, or nothing, as a list.
pub open spec fn lock_pair(
    snapshots: Seq<UltimateLockSnapshot>,
    attacker: FighterId,
) -> Seq<(usize, usize)> {
    match rush_target(snapshots, attacker) {
        Some(victim) => if lock_holds(snapshots, attacker, victim) {
            seq![(attacker.spec_index(), victim.spec_index())]
        } else {
            seq![]
        },
        None => seq![],
    }
}

/// All pairs whose lock holds, attacker and victim, by attacker.
pub open spec fn lock_pairs(snapshots: Seq<UltimateLockSnapshot>) -> Seq<(usize, usize)> {
    lock_pair(snapshots, FighterId::Zero) + lock_pair(snapshots, FighterId::One) + lock_pair(
        snapshots,
        FighterId::Two,
    ) + lock_pair(snapshots, FighterId::Three)
}

/// The locks of a tick.
pub struct UltimateLocks {
    pub pairs: ArrayVec<(usize, usize), FIGHTER_COUNT>,
    pub stale: [bool; FIGHTER_COUNT],
}

fn lookup_lock(
    snapshots: &Vec<UltimateLockSnapshot>,
    entries: &[Option<usize>; FIGHTER_COUNT],
    fighter: FighterId,
) -> (snapshot: Option<UltimateLockSnapshot>)
    requires
        entries_agree(snapshots@, entries@),
    ensures
        snapshot == lock_snapshot_of(snapshots@, fighter.spec_index() as int),
{
    match entries[fighter.index()] {
        Some(entry) => Some(snapshots[entry]),
        None => None,
    }
}

/// The entries say where every fighter's snapshot stands.
spec fn entries_agree(snapshots: Seq<UltimateLockSnapshot>, entries: Seq<Option<usize>>) -> bool {
    &&& entries == Seq::new(FIGHTER_COUNT as nat, |f: int| entry_of(lock_slots(snapshots), f))
    &&& forall|f: int|
        0 <= f < FIGHTER_COUNT ==> match #[trigger] entries[f] {
            Some(entry) => entry < snapshots.len(),
            None => true,
        }
}

/// Where the stale marks stand after the rushes of the attackers before `done`.
spec fn marked_so_far(
    snapshots: Seq<UltimateLockSnapshot>,
    stale: Seq<bool>,
    done: int,
    fighter: FighterId,
) -> bool {
    stale[fighter.spec_index() as int] == {
        ||| fighter.spec_index() < done && attacker_stale(snapshots, fighter)
        ||| lock_snapshot_of(snapshots, fighter.spec_index() as int).is_some() && exists|
            attacker: FighterId,
        |
            attacker.spec_index() < done && #[trigger] rush_target(snapshots, attacker) == Some(
                fighter,
            ) && !lock_holds(snapshots, attacker, fighter)
    }
}

fn check_rush(
    snapshots: &Vec<UltimateLockSnapshot>,
    entries: &[Option<usize>; FIGHTER_COUNT],
    attacker: FighterId,
    locks: &mut UltimateLocks,
) -> (result: Result<(), SlotCollectionError>)
    requires
        entries_agree(snapshots@, entries@),
        slot_entries(old(locks).pairs).len() <= attacker.spec_index(),
        forall|fighter: FighterId| #[trigger]
            marked_so_far(
                snapshots@,
                old(locks).stale@,
                attacker.spec_index() as int,
                fighter,
            ),
    ensures
        result.is_ok(),
        slot_entries(final(locks).pairs) == slot_entries(old(locks).pairs) + lock_pair(
            snapshots@,
            attacker,
        ),
        forall|fighter: FighterId| #[trigger]
            marked_so_far(
                snapshots@,
                final(locks).stale@,
                attacker.spec_index() + 1,
                fighter,
            ),
{
    let ghost before = *locks;
    let ghost done = attacker.spec_index() as int;
    let mut target: Option<FighterId> = None;
    let mut released = false;
    if let Some(above) = lookup_lock(snapshots, entries, attacker) {
        if above.action == FighterAction::UltimateRush {
            target = above.target;
            released = above.elapsed.reached(
                milliseconds_to_ticks_ceil(ultimate_lock_release_after(above.technique_id)),
            );
        }
    }
    proof {
        assert(target == rush_target(snapshots@, attacker));
    }
    match target {
        Some(victim_id) => {
            match lookup_lock(snapshots, entries, victim_id) {
                Some(victim) => {
                    let owned = match victim.owner {
                        Some(owner) => owner == attacker,
                        None => false,
                    };
                    if !owned || victim.action != FighterAction::UltimateVictim || released {
                        locks.stale[attacker.index()] = true;
                        locks.stale[victim_id.index()] = true;
                        proof {
                            assert(!lock_holds(snapshots@, attacker, victim_id));
                        }
                    } else {
                        proof {
                            assert(lock_holds(snapshots@, attacker, victim_id));
                        }
                        match try_push_fixed_fighter(
                            &mut locks.pairs,
                            (attacker.index(), victim_id.index()),
                            "ultimate-lock pairs",
                        ) {
                            Ok(()) => {},
                            Err(overflow) => {
                                return Err(SlotCollectionError::Overflow(overflow));
                            },
                        }
                    }
                },
                None => {
                    locks.stale[attacker.index()] = true;
                    proof {
                        assert(!lock_holds(snapshots@, attacker, victim_id));
                    }
                },
            }
        },
        None => {},
    }
    proof {
        assert(slot_entries(locks.pairs) =~= slot_entries(before.pairs) + lock_pair(
            snapshots@,
            attacker,
        ));
        assert forall|fighter: FighterId| #[trigger]
            marked_so_far(snapshots@, locks.stale@, done + 1, fighter) by {
            assert(marked_so_far(snapshots@, before.stale@, done, fighter));
            lemma_marks_extend(snapshots@, before.stale@, locks.stale@, attacker, fighter);
        }
    }
    Ok(())
}

/// One more attacker adds exactly its own marks.
proof fn lemma_marks_extend(
    snapshots: Seq<UltimateLockSnapshot>,
    before: Seq<bool>,
    after: Seq<bool>,
    attacker: FighterId,
    fighter: FighterId,
)
    requires
        before.len() == FIGHTER_COUNT,
        after.len() == FIGHTER_COUNT,
        marked_so_far(snapshots, before, attacker.spec_index() as int, fighter),
        after[fighter.spec_index() as int] == {
            ||| before[fighter.spec_index() as int]
            ||| fighter == attacker && attacker_stale(snapshots, attacker)
            ||| lock_snapshot_of(snapshots, fighter.spec_index() as int).is_some() && rush_target(
                snapshots,
                attacker,
            ) == Some(fighter) && !lock_holds(snapshots, attacker, fighter)
        },
    ensures
        marked_so_far(snapshots, after, attacker.spec_index() + 1, fighter),
{
    let done = attacker.spec_index() as int;
    let here = lock_snapshot_of(snapshots, fighter.spec_index() as int).is_some();
    let earlier = exists|a: FighterId|
        a.spec_index() < done && #[trigger] rush_target(snapshots, a) == Some(fighter)
            && !lock_holds(snapshots, a, fighter);
    let now = exists|a: FighterId|
        a.spec_index() < done + 1 && #[trigger] rush_target(snapshots, a) == Some(fighter)
            && !lock_holds(snapshots, a, fighter);
    let own = rush_target(snapshots, attacker) == Some(fighter) && !lock_holds(
        snapshots,
        attacker,
        fighter,
    );
    if earlier {
        let a = choose|a: FighterId|
            a.spec_index() < done && #[trigger] rush_target(snapshots, a) == Some(fighter)
                && !lock_holds(snapshots, a, fighter);
        assert(rush_target(snapshots, a) == Some(fighter));
        assert(now);
    }
    if own {
        assert(now);
    }
    if now && !own {
        let a = choose|a: FighterId|
            a.spec_index() < done + 1 && #[trigger] rush_target(snapshots, a) == Some(fighter)
                && !lock_holds(snapshots, a, fighter);
        assert(rush_target(snapshots, a) == Some(fighter));
        assert(a != attacker);
        assert(a.spec_index() < done);
        assert(earlier);
    }
}

fn check_victim(
    snapshots: &Vec<UltimateLockSnapshot>,
    entries: &[Option<usize>; FIGHTER_COUNT],
    fighter: FighterId,
) -> (stale: bool)
    requires
        entries_agree(snapshots@, entries@),
    ensures
        stale == victim_stale(snapshots@, fighter),
{
    match lookup_lock(snapshots, entries, fighter) {
        Some(victim) => {
            if victim.action != FighterAction::UltimateVictim {
                return false;
            }
            match victim.owner {
                Some(owner) => match lookup_lock(snapshots, entries, owner) {
                    Some(above) => {
                        let aimed = match above.target {
                            Some(target) => target == fighter,
                            None => false,
                        };
                        !(above.action == FighterAction::UltimateRush && aimed)
                    },
                    None => true,
                },
                None => true,
            }
        },
        None => false,
    }
}

fn slots_of_locks(snapshots: &Vec<UltimateLockSnapshot>) -> (slots: Vec<usize>)
    ensures
        slots@ == lock_slots(snapshots@),
{
    let mut slots: Vec<usize> = Vec::new();
    let mut next: usize = 0;
    while next < snapshots.len()
        invariant
            next <= snapshots@.len(),
            slots@.len() == next,
            forall|i: int| 0 <= i < next ==> (#[trigger] slots@[i]) == snapshots@[i].slot,
        decreases snapshots@.len() - next,
    {
        slots.push(snapshots[next].slot);
        next += 1;
    }
    proof {
        assert(slots@ =~= lock_slots(snapshots@));
    }
    slots
}

/// Resolves all locks of a tick. A set of snapshots in which a slot is unknown or
/// repeated is refused as a whole.
pub fn update_ultimate_locks(snapshots: &Vec<UltimateLockSnapshot>) -> (result: Result<
    UltimateLocks,
    SlotCollectionError,
>)
    ensures
        match result {
            Ok(locks) => {
                &&& collection_fault(lock_slots(snapshots@)).is_none()
                &&& slot_entries(locks.pairs) == lock_pairs(snapshots@)
                &&& forall|fighter: FighterId|
                    locks.stale@[#[trigger] fighter.spec_index() as int] == lock_stale(
                        snapshots@,
                        fighter,
                    )
            },
            Err(fault) => collection_fault(lock_slots(snapshots@)) == Some(fault),
        },
{
    let slots = slots_of_locks(snapshots);
    let entries = match fighter_entries(&slots, "ultimate-lock fighters") {
        Ok(entries) => entries,
        Err(fault) => {
            return Err(fault);
        },
    };
    proof {
        crate::fixed::accepted_iff_slots_are_distinct(slots@);
        assert forall|f: int| 0 <= f < FIGHTER_COUNT implies match #[trigger] entries@[f] {
            Some(entry) => entry < snapshots@.len(),
            None => true,
        } by {
            crate::fixed::entry_is_in_range(slots@, f);
        }
    }
    let mut locks = UltimateLocks { pairs: new_slots(), stale: [false, false, false, false] };
    proof {
        assert forall|fighter: FighterId| #[trigger]
            marked_so_far(snapshots@, locks.stale@, 0, fighter) by {}
        assert(FighterId::Zero.spec_index() == 0);
        assert(FighterId::Zero.spec_index() + 1 == FighterId::One.spec_index());
        assert(FighterId::One.spec_index() + 1 == FighterId::Two.spec_index());
        assert(FighterId::Two.spec_index() + 1 == FighterId::Three.spec_index());
        assert(FighterId::Three.spec_index() + 1 == 4);
    }
    match check_rush(snapshots, &entries, FighterId::Zero, &mut locks) {
        Ok(()) => {},
        Err(fault) => {
            return Err(fault);
        },
    }
    match check_rush(snapshots, &entries, FighterId::One, &mut locks) {
        Ok(()) => {},
        Err(fault) => {
            return Err(fault);
        },
    }
    match check_rush(snapshots, &entries, FighterId::Two, &mut locks) {
        Ok(()) => {},
        Err(fault) => {
            return Err(fault);
        },
    }
    match check_rush(snapshots, &entries, FighterId::Three, &mut locks) {
        Ok(()) => {},
        Err(fault) => {
            return Err(fault);
        },
    }
    let ghost rushes = locks;
    if check_victim(snapshots, &entries, FighterId::Zero) {
        locks.stale[0] = true;
    }
    if check_victim(snapshots, &entries, FighterId::One) {
        locks.stale[1] = true;
    }
    if check_victim(snapshots, &entries, FighterId::Two) {
        locks.stale[2] = true;
    }
    if check_victim(snapshots, &entries, FighterId::Three) {
        locks.stale[3] = true;
    }
    proof {
        assert(slot_entries(locks.pairs) =~= lock_pairs(snapshots@));
        assert forall|fighter: FighterId|
            locks.stale@[#[trigger] fighter.spec_index() as int] == lock_stale(
                snapshots@,
                fighter,
            ) by {
            assert(marked_so_far(snapshots@, rushes.stale@, 4, fighter));
            if target_stale(snapshots@, fighter) {
                let a = choose|a: FighterId| #[trigger]
                    rush_target(snapshots@, a) == Some(fighter) && !lock_holds(
                        snapshots@,
                        a,
                        fighter,
                    );
                assert(a.spec_index() < 4);
            }
        }
    }
    Ok(locks)
}

/// How a lock moves a fighter.
#[derive(Clone, Copy, Debug, PartialEq, Eq, Structural)]
pub enum LockMotion {
    /// Not locked.
    Free,
    /// Keeps its facing and slows down.
    Attacker,
    /// Is placed in front of the attacker at this index and faces it.
    Victim { attacker: usize },
}

/// How the locks move a fighter.
pub open spec fn lock_motion(pairs: Seq<(usize, usize)>, fighter: FighterId) -> LockMotion {
    if leads_pair(pairs, fighter.spec_index()) {
        LockMotion::Attacker
    } else {
        match pair_leader(pairs, fighter.spec_index()) {
            Some(attacker) => LockMotion::Victim { attacker },
            None => LockMotion::Free,
        }
    }
}

/// Forgets a stale lock, which stuns a victim, and says how a lock that holds
/// moves the fighter.
pub fn apply_ultimate_lock(
    locks: &UltimateLocks,
    fighter: FighterId,
    action: &mut FighterActionState,
    state: &mut FighterUltimateState,
) -> (motion: LockMotion)
    ensures
        motion == lock_motion(slot_entries(locks.pairs), fighter),
        *final(state) == (if locks.stale@[fighter.spec_index() as int] {
            FighterUltimateState { target: None, owner: None }
        } else {
            *old(state)
        }),
        *final(action) == (if locks.stale@[fighter.spec_index() as int] && old(action).action
            == FighterAction::UltimateVictim {
            FighterActionState::fresh(FighterAction::Hitstun)
        } else {
            *old(action)
        }),
{
    if locks.stale[fighter.index()] {
        state.target = None;
        state.owner = None;
        if action.action == FighterAction::UltimateVictim {
            set_action(action, FighterAction::Hitstun);
        }
    }
    let index: usize = fighter.index();
    let (attacks, owner) = find_in_pairs(&locks.pairs, index);
    if attacks {
        LockMotion::Attacker
    } else {
        match owner {
            Some(attacker) => LockMotion::Victim { attacker },
            None => LockMotion::Free,
        }
    }
}

/// A lock that holds is not forgotten on either side: a fighter whose rush holds
/// its victim, and that victim where nobody else goes for it, keep their lock.
pub proof fn holding_locks_are_kept(
    snapshots: Seq<UltimateLockSnapshot>,
    attacker: FighterId,
    victim: FighterId,
)
    requires
        lock_holds(snapshots, attacker, victim),
        forall|other: FighterId| #[trigger]
            rush_target(snapshots, other) == Some(victim) ==> other == attacker,
    ensures
        !lock_stale(snapshots, victim),
        !attacker_stale(snapshots, attacker),
        lock_pairs(snapshots).contains((attacker.spec_index(), victim.spec_index())),
{
    let zero = lock_pair(snapshots, FighterId::Zero);
    let one = lock_pair(snapshots, FighterId::One);
    let two = lock_pair(snapshots, FighterId::Two);
    let three = lock_pair(snapshots, FighterId::Three);
    let pair = (attacker.spec_index(), victim.spec_index());
    let all = lock_pairs(snapshots);
    let place = match attacker {
        FighterId::Zero => 0,
        FighterId::One => zero.len() as int,
        FighterId::Two => (zero.len() + one.len()) as int,
        FighterId::Three => (zero.len() + one.len() + two.len()) as int,
    };
    assert(lock_pair(snapshots, attacker)[0] == pair);
    assert(all[place] == pair);
}

/// A rush is over for both sides once the lock's time is reached.
pub proof fn locks_end_in_time(
    snapshots: Seq<UltimateLockSnapshot>,
    attacker: FighterId,
    victim: FighterId,
)
    requires
        rush_target(snapshots, attacker) == Some(victim),
        lock_snapshot_of(snapshots, victim.spec_index() as int).is_some(),
        ({
            let above = lock_snapshot_of(snapshots, attacker.spec_index() as int).unwrap();
            above.elapsed.reached(
                ticks_covering_millis(ultimate_lock_release_after(above.technique_id) as int) as u32,
            )
        }),
    ensures
        lock_stale(snapshots, attacker),
        lock_stale(snapshots, victim),
{
}

/// Storage order does not matter: the same snapshots in another order are accepted
/// alike and give the same locks.
pub proof fn locks_ignore_storage_order(
    forward: Seq<UltimateLockSnapshot>,
    reversed: Seq<UltimateLockSnapshot>,
)
    requires
        forward.to_multiset() == reversed.to_multiset(),
        collection_fault(lock_slots(forward)).is_none(),
    ensures
        collection_fault(lock_slots(reversed)).is_none(),
        lock_pairs(forward) == lock_pairs(reversed),
        forall|fighter: FighterId| #[trigger]
            lock_stale(forward, fighter) == lock_stale(reversed, fighter),
{
    let slot = |snapshot: UltimateLockSnapshot| snapshot.slot;
    crate::fixed::accepted_iff_slots_are_distinct(lock_slots(forward));
    crate::fixed::accepted_iff_slots_are_distinct(lock_slots(reversed));
    assert(lock_slots(forward) =~= Seq::new(forward.len(), |i: int| slot(forward[i])));
    assert(lock_slots(reversed) =~= Seq::new(reversed.len(), |i: int| slot(reversed[i])));
    assert forall|fighter: int| #[trigger]
        lock_snapshot_of(forward, fighter) == lock_snapshot_of(reversed, fighter) by {
        crate::fixed::entries_ignore_storage_order(forward, reversed, slot, fighter);
    }
    crate::fixed::entries_ignore_storage_order(forward, reversed, slot, 0);
    assert forall|fighter: FighterId| #[trigger]
        rush_target(forward, fighter) == rush_target(reversed, fighter) by {}
    assert forall|attacker: FighterId, victim: FighterId| #[trigger]
        lock_holds(forward, attacker, victim) == lock_holds(reversed, attacker, victim) by {
        assert(rush_target(forward, attacker) == rush_target(reversed, attacker));
    }
    assert forall|fighter: FighterId| #[trigger]
        lock_stale(forward, fighter) == lock_stale(reversed, fighter) by {
        assert(rush_target(forward, fighter) == rush_target(reversed, fighter));
        if target_stale(forward, fighter) {
            let attacker = choose|attacker: FighterId| #[trigger]
                rush_target(forward, attacker) == Some(fighter) && !lock_holds(
                    forward,
                    attacker,
                    fighter,
                );
            assert(rush_target(reversed, attacker) == Some(fighter));
            assert(lock_holds(forward, attacker, fighter) == lock_holds(
                reversed,
                attacker,
                fighter,
            ));
        }
        if target_stale(reversed, fighter) {
            let attacker = choose|attacker: FighterId| #[trigger]
                rush_target(reversed, attacker) == Some(fighter) && !lock_holds(
                    reversed,
                    attacker,
                    fighter,
                );
            assert(rush_target(forward, attacker) == Some(fighter));
            assert(lock_holds(forward, attacker, fighter) == lock_holds(
                reversed,
                attacker,
                fighter,
            ));
        }
    }
    assert forall|attacker: FighterId| #[trigger]
        lock_pair(forward, attacker) == lock_pair(reversed, attacker) by {
        assert(rush_target(forward, attacker) == rush_target(reversed, attacker));
        match rush_target(forward, attacker) {
            Some(victim) => {
                assert(lock_holds(forward, attacker, victim) == lock_holds(
                    reversed,
                    attacker,
                    victim,
                ));
            },
            None => {},
        }
    }
}

} // verus!

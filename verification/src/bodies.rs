//! Fighters among each other: which bodies block, in which order pairs are
//! separated, and whom an aiming fighter turns to.

use vstd::prelude::*;

use crate::action::{FighterAction, out_of_play};
use crate::fighter::{FighterMotor, FighterTuning};
use crate::fixed::{SlotCollectionError, collection_fault, entry_of, fighter_entries};
use crate::ids::{FighterId, FIGHTER_COUNT};
use crate::scalar::Scalar;
use crate::ticks::TickTimer;

verus! {

/// The bit pattern of `0.000001`, the squared length up to which a correction
/// does not count.
pub const CORRECTION_NOISE_SQUARED_BITS: u32 = 0x3586_37bd;

/// A body that others cannot pass through.
pub open spec fn spec_fighter_body_blocks_overlap(action: FighterAction) -> bool {
    match action {
        FighterAction::RingOut
        | FighterAction::Respawning
        | FighterAction::Grabbed
        | FighterAction::GrabHold
        | FighterAction::Throwing
        | FighterAction::UltimateVictim
        | FighterAction::UltimateRush => false,
        _ => true,
    }
}

#[verifier::when_used_as_spec(spec_fighter_body_blocks_overlap)]
pub fn fighter_body_blocks_overlap(action: FighterAction) -> (blocks: bool)
    ensures
        blocks == spec_fighter_body_blocks_overlap(action),
{
    !matches!(
        action,
        FighterAction::RingOut | FighterAction::Respawning | FighterAction::Grabbed
            | FighterAction::GrabHold | FighterAction::Throwing | FighterAction::UltimateVictim
            | FighterAction::UltimateRush
    )
}

/// The storage places of two fighters, if both are there.
pub open spec fn body_pair(ids: Seq<usize>, first: int, second: int) -> Seq<(usize, usize)> {
    match (entry_of(ids, first), entry_of(ids, second)) {
        (Some(left), Some(right)) => seq![(left, right)],
        _ => seq![],
    }
}

/// All pairs of bodies by storage place, in canonical fighter order.
pub open spec fn body_pairs(ids: Seq<usize>) -> Seq<(usize, usize)> {
    body_pair(ids, 0, 1) + body_pair(ids, 0, 2) + body_pair(ids, 0, 3) + body_pair(ids, 1, 2)
        + body_pair(ids, 1, 3) + body_pair(ids, 2, 3)
}

fn push_pair(
    entries: &[Option<usize>; FIGHTER_COUNT],
    first: usize,
    second: usize,
    pairs: &mut Vec<(usize, usize)>,
    Ghost(ids): Ghost<Seq<usize>>,
)
    requires
        entries@ == Seq::new(FIGHTER_COUNT as nat, |f: int| entry_of(ids, f)),
        first < FIGHTER_COUNT,
        second < FIGHTER_COUNT,
    ensures
        final(pairs)@ == old(pairs)@ + body_pair(ids, first as int, second as int),
{
    let ghost before = pairs@;
    match (entries[first], entries[second]) {
        (Some(left), Some(right)) => {
            pairs.push((left, right));
        },
        _ => {},
    }
    proof {
        assert(pairs@ =~= before + body_pair(ids, first as int, second as int));
    }
}

/// The pairs of the fighters `ids`, by their places there, in canonical fighter
/// order. A set in which a slot is unknown or repeated is refused.
fn pairs_of(ids: &Vec<usize>) -> (result: Result<
    Vec<(usize, usize)>,
    SlotCollectionError,
>)
    ensures
        match result {
            Ok(pairs) => collection_fault(ids@).is_none() && pairs@ == body_pairs(ids@),
            Err(fault) => collection_fault(ids@) == Some(fault),
        },
{
    let entries = match fighter_entries(ids, "fighter bodies") {
        Ok(entries) => entries,
        Err(fault) => {
            return Err(fault);
        },
    };
    let mut pairs: Vec<(usize, usize)> = Vec::new();
    push_pair(&entries, 0, 1, &mut pairs, Ghost(ids@));
    push_pair(&entries, 0, 2, &mut pairs, Ghost(ids@));
    push_pair(&entries, 0, 3, &mut pairs, Ghost(ids@));
    push_pair(&entries, 1, 2, &mut pairs, Ghost(ids@));
    push_pair(&entries, 1, 3, &mut pairs, Ghost(ids@));
    push_pair(&entries, 2, 3, &mut pairs, Ghost(ids@));
    proof {
        assert(pairs@ =~= body_pairs(ids@));
    }
    Ok(pairs)
}

/// A fighter as the separation of bodies sees it.
#[derive(Clone, Copy, Debug, PartialEq, Eq, Structural)]
pub struct BodyFighter {
    pub slot: usize,
    pub action: FighterAction,
}

/// The places of those whose bodies block, in storage order.
pub open spec fn blocking_places(fighters: Seq<BodyFighter>) -> Seq<usize>
    decreases fighters.len(),
{
    if fighters.len() == 0 {
        seq![]
    } else {
        let before = blocking_places(fighters.drop_last());
        if fighter_body_blocks_overlap(fighters.last().action) {
            before.push((fighters.len() - 1) as usize)
        } else {
            before
        }
    }
}

/// The slots of those whose bodies block, in storage order.
pub open spec fn blocking_slots(fighters: Seq<BodyFighter>) -> Seq<usize> {
    let places = blocking_places(fighters);
    Seq::new(places.len(), |i: int| fighters[places[i] as int].slot)
}

/// The pairs to be separated: the pairs of those whose bodies block, by their places
/// among all fighters, in canonical fighter order.
pub open spec fn separated_pairs(fighters: Seq<BodyFighter>) -> Seq<(usize, usize)> {
    let places = blocking_places(fighters);
    let pairs = body_pairs(blocking_slots(fighters));
    Seq::new(
        pairs.len(),
        |i: int| (places[pairs[i].0 as int], places[pairs[i].1 as int]),
    )
}

/// A place is listed exactly where a fighter with a body that blocks stands.
proof fn lemma_blocking_places(fighters: Seq<BodyFighter>)
    requires
        fighters.len() <= usize::MAX,
    ensures
        blocking_places(fighters).len() <= fighters.len(),
        forall|i: int|
            0 <= i < blocking_places(fighters).len() ==> {
                let place = #[trigger] blocking_places(fighters)[i];
                place < fighters.len() && fighter_body_blocks_overlap(
                    fighters[place as int].action,
                )
            },
        forall|place: int|
            0 <= place < fighters.len() && fighter_body_blocks_overlap(
                (#[trigger] fighters[place]).action,
            ) ==> blocking_places(fighters).contains(place as usize),
    decreases fighters.len(),
{
    if fighters.len() > 0 {
        let before = fighters.drop_last();
        lemma_blocking_places(before);
        assert forall|place: int|
            0 <= place < fighters.len() && fighter_body_blocks_overlap(
                (#[trigger] fighters[place]).action,
            ) implies blocking_places(fighters).contains(place as usize) by {
            let places = blocking_places(fighters);
            if place == fighters.len() - 1 {
                assert(places[places.len() - 1] == place as usize);
            } else {
                assert(before[place] == fighters[place]);
                let i = choose|i: int|
                    0 <= i < blocking_places(before).len() && blocking_places(before)[i]
                        == place as usize;
                assert(places[i] == place as usize);
            }
        }
    }
}

/// The places of the fighters whose bodies block, in storage order. Nobody else
/// takes part in the separation.
pub fn blocking_bodies(fighters: &Vec<BodyFighter>) -> (places: Vec<usize>)
    ensures
        places@ == blocking_places(fighters@),
{
    let mut places: Vec<usize> = Vec::new();
    let mut next: usize = 0;
    while next < fighters.len()
        invariant
            next <= fighters@.len(),
            places@ == blocking_places(fighters@.take(next as int)),
        decreases fighters@.len() - next,
    {
        proof {
            assert(fighters@.take(next + 1).drop_last() =~= fighters@.take(next as int));
        }
        if fighter_body_blocks_overlap(fighters[next].action) {
            places.push(next);
        }
        next += 1;
    }
    proof {
        assert(fighters@.take(next as int) =~= fighters@);
    }
    places
}

/// The pairs of bodies to be separated, by their places among the fighters, in
/// canonical fighter order. Only bodies that block take part. A set in which a slot
/// of one of these is unknown or repeated is refused.
pub fn separation_pairs(fighters: &Vec<BodyFighter>) -> (result: Result<
    Vec<(usize, usize)>,
    SlotCollectionError,
>)
    ensures
        match result {
            Ok(pairs) => collection_fault(blocking_slots(fighters@)).is_none() && pairs@
                == separated_pairs(fighters@),
            Err(fault) => collection_fault(blocking_slots(fighters@)) == Some(fault),
        },
{
    let places = blocking_bodies(fighters);
    proof {
        assert(fighters@.len() == fighters.len());
        lemma_blocking_places(fighters@);
    }
    let mut ids: Vec<usize> = Vec::new();
    let mut next: usize = 0;
    while next < places.len()
        invariant
            next <= places@.len(),
            places@ == blocking_places(fighters@),
            forall|i: int| 0 <= i < places@.len() ==> (#[trigger] places@[i]) < fighters@.len(),
            ids@ == blocking_slots(fighters@).take(next as int),
        decreases places@.len() - next,
    {
        ids.push(fighters[places[next]].slot);
        next += 1;
        proof {
            assert(ids@ =~= blocking_slots(fighters@).take(next as int));
        }
    }
    proof {
        assert(ids@ =~= blocking_slots(fighters@));
    }
    let listed = match pairs_of(&ids) {
        Ok(listed) => listed,
        Err(fault) => {
            return Err(fault);
        },
    };
    proof {
        crate::fixed::accepted_iff_slots_are_distinct(ids@);
        lemma_pair_entries(ids@);
    }
    let mut pairs: Vec<(usize, usize)> = Vec::new();
    let mut done: usize = 0;
    while done < listed.len()
        invariant
            done <= listed@.len(),
            places@ == blocking_places(fighters@),
            listed@ == body_pairs(blocking_slots(fighters@)),
            forall|i: int|
                0 <= i < listed@.len() ==> (#[trigger] listed@[i]).0 < places@.len()
                    && listed@[i].1 < places@.len(),
            pairs@ == separated_pairs(fighters@).take(done as int),
        decreases listed@.len() - done,
    {
        let (first, second) = listed[done];
        pairs.push((places[first], places[second]));
        done += 1;
        proof {
            assert(pairs@ =~= separated_pairs(fighters@).take(done as int));
        }
    }
    proof {
        assert(separated_pairs(fighters@).take(done as int) =~= separated_pairs(fighters@));
    }
    Ok(pairs)
}

/// The pairs of a list are places in it.
proof fn lemma_pair_entries(ids: Seq<usize>)
    requires
        crate::fixed::slots_distinct(ids),
    ensures
        forall|i: int|
            0 <= i < body_pairs(ids).len() ==> (#[trigger] body_pairs(ids)[i]).0 < ids.len()
                && body_pairs(ids)[i].1 < ids.len(),
{
    crate::fixed::entry_is_in_range(ids, 0);
    crate::fixed::entry_is_in_range(ids, 1);
    crate::fixed::entry_is_in_range(ids, 2);
    crate::fixed::entry_is_in_range(ids, 3);
}

/// A held, fallen or rushing body is left alone: whoever is in a pair has a body
/// that blocks.
pub proof fn only_blocking_bodies_are_paired(fighters: Seq<BodyFighter>, pair: int)
    requires
        fighters.len() <= usize::MAX,
        collection_fault(blocking_slots(fighters)).is_none(),
        0 <= pair < separated_pairs(fighters).len(),
    ensures
        ({
            let (first, second) = separated_pairs(fighters)[pair];
            &&& first < fighters.len() && second < fighters.len()
            &&& fighter_body_blocks_overlap(fighters[first as int].action)
            &&& fighter_body_blocks_overlap(fighters[second as int].action)
        }),
{
    lemma_blocking_places(fighters);
    crate::fixed::accepted_iff_slots_are_distinct(blocking_slots(fighters));
    lemma_pair_entries(blocking_slots(fighters));
    let entry = body_pairs(blocking_slots(fighters))[pair];
    let places = blocking_places(fighters);
    assert(places[entry.0 as int] < fighters.len());
    assert(places[entry.1 as int] < fighters.len());
}

/// The slots of a list of pairs of places.
pub open spec fn pair_slots(
    fighters: Seq<BodyFighter>,
    pairs: Seq<(usize, usize)>,
) -> Seq<(usize, usize)> {
    Seq::new(
        pairs.len(),
        |i: int| (fighters[pairs[i].0 as int].slot, fighters[pairs[i].1 as int].slot),
    )
}

/// A fighter with this slot has a body that blocks.
spec fn slot_blocks(fighters: Seq<BodyFighter>, slot: int) -> bool {
    exists|i: int|
        0 <= i < fighters.len() && (#[trigger] fighters[i]).slot == slot
            && fighter_body_blocks_overlap(fighters[i].action)
}

/// The pair of two slots, if both block.
spec fn slot_pair(fighters: Seq<BodyFighter>, first: int, second: int) -> Seq<(usize, usize)> {
    if slot_blocks(fighters, first) && slot_blocks(fighters, second) {
        seq![(first as usize, second as usize)]
    } else {
        seq![]
    }
}

proof fn lemma_slot_blocks(fighters: Seq<BodyFighter>, slot: int)
    requires
        fighters.len() <= usize::MAX,
        crate::fixed::slots_distinct(blocking_slots(fighters)),
        0 <= slot < FIGHTER_COUNT,
    ensures
        entry_of(blocking_slots(fighters), slot).is_some() == slot_blocks(fighters, slot),
        entry_of(blocking_slots(fighters), slot).is_some() ==> {
            let entry = entry_of(blocking_slots(fighters), slot).unwrap();
            entry < blocking_slots(fighters).len() && blocking_slots(fighters)[entry as int] == slot
        },
{
    let ids = blocking_slots(fighters);
    let places = blocking_places(fighters);
    lemma_blocking_places(fighters);
    crate::fixed::entry_is_in_range(ids, slot);
    if entry_of(ids, slot).is_some() {
        let entry = entry_of(ids, slot).unwrap() as int;
        let place = places[entry] as int;
        assert(fighters[place].slot == slot);
    }
    if slot_blocks(fighters, slot) {
        let i = choose|i: int|
            0 <= i < fighters.len() && (#[trigger] fighters[i]).slot == slot
                && fighter_body_blocks_overlap(fighters[i].action);
        assert(places.contains(i as usize));
        let k = choose|k: int| 0 <= k < places.len() && places[k] == i as usize;
        assert(ids[k] == slot);
    }
}

proof fn lemma_pair_slots(fighters: Seq<BodyFighter>)
    requires
        fighters.len() <= usize::MAX,
        crate::fixed::slots_distinct(blocking_slots(fighters)),
    ensures
        pair_slots(fighters, separated_pairs(fighters)) == slot_pair(fighters, 0, 1) + slot_pair(
            fighters,
            0,
            2,
        ) + slot_pair(fighters, 0, 3) + slot_pair(fighters, 1, 2) + slot_pair(fighters, 1, 3)
            + slot_pair(fighters, 2, 3),
{
    lemma_slot_blocks(fighters, 0);
    lemma_slot_blocks(fighters, 1);
    lemma_slot_blocks(fighters, 2);
    lemma_slot_blocks(fighters, 3);
    let ids = blocking_slots(fighters);
    assert(pair_slots(fighters, separated_pairs(fighters)) =~= Seq::new(
        body_pairs(ids).len(),
        |i: int| (ids[body_pairs(ids)[i].0 as int], ids[body_pairs(ids)[i].1 as int]),
    )) by {
        lemma_pair_entries(ids);
    }
    assert(pair_slots(fighters, separated_pairs(fighters)) =~= slot_pair(fighters, 0, 1)
        + slot_pair(fighters, 0, 2) + slot_pair(fighters, 0, 3) + slot_pair(fighters, 1, 2)
        + slot_pair(fighters, 1, 3) + slot_pair(fighters, 2, 3));
}

/// Pairs of fighters are separated in the same order however they are stored.
pub proof fn pairs_ignore_storage_order(forward: Seq<BodyFighter>, reversed: Seq<BodyFighter>)
    requires
        forward.len() <= usize::MAX,
        collection_fault(blocking_slots(forward)).is_none(),
        collection_fault(blocking_slots(reversed)).is_none(),
        forward.to_multiset() == reversed.to_multiset(),
    ensures
        pair_slots(forward, separated_pairs(forward)) == pair_slots(
            reversed,
            separated_pairs(reversed),
        ),
{
    forward.to_multiset_ensures();
    reversed.to_multiset_ensures();
    crate::fixed::accepted_iff_slots_are_distinct(blocking_slots(forward));
    crate::fixed::accepted_iff_slots_are_distinct(blocking_slots(reversed));
    assert forall|slot: int| #[trigger]
        slot_blocks(forward, slot) == slot_blocks(reversed, slot) by {
        lemma_slot_moves_over(forward, reversed, slot);
        lemma_slot_moves_over(reversed, forward, slot);
    }
    lemma_pair_slots(forward);
    lemma_pair_slots(reversed);
}

proof fn lemma_slot_moves_over(from: Seq<BodyFighter>, to: Seq<BodyFighter>, slot: int)
    requires
        from.to_multiset() == to.to_multiset(),
    ensures
        slot_blocks(from, slot) ==> slot_blocks(to, slot),
{
    from.to_multiset_ensures();
    to.to_multiset_ensures();
    if slot_blocks(from, slot) {
        let i = choose|i: int|
            0 <= i < from.len() && (#[trigger] from[i]).slot == slot
                && fighter_body_blocks_overlap(from[i].action);
        assert(from.contains(from[i]));
        assert(to.to_multiset().count(from[i]) > 0);
        let k = choose|k: int| 0 <= k < to.len() && to[k] == from[i];
        assert(to[k].slot == slot);
    }
}

/// How two bodies are separated.
#[derive(Clone, Copy, Debug, PartialEq, Eq, Structural)]
pub enum PairSeparation {
    /// The first stands on the second and is lifted.
    LiftFirst,
    /// The second stands on the first and is lifted.
    LiftSecond,
    /// Both are pushed apart, half each.
    Push,
    /// They do not touch.
    Apart,
}

/// What was measured of two bodies.
#[derive(Clone, Copy, Debug, PartialEq, Eq, Structural)]
pub struct PairContact {
    pub first_velocity_y: Scalar,
    pub first_lands_on_second: bool,
    pub second_velocity_y: Scalar,
    pub second_lands_on_first: bool,
    pub overlap: bool,
}

/// Who does not rise and comes down on the other is lifted; the first goes first.
pub open spec fn spec_pair_separation(contact: PairContact) -> PairSeparation {
    if contact.first_velocity_y.le(Scalar::zero()) && contact.first_lands_on_second {
        PairSeparation::LiftFirst
    } else if contact.second_velocity_y.le(Scalar::zero()) && contact.second_lands_on_first {
        PairSeparation::LiftSecond
    } else if contact.overlap {
        PairSeparation::Push
    } else {
        PairSeparation::Apart
    }
}

pub fn pair_separation(contact: PairContact) -> (separation: PairSeparation)
    ensures
        separation == spec_pair_separation(contact),
{
    if contact.first_velocity_y.le(Scalar::zero()) && contact.first_lands_on_second {
        PairSeparation::LiftFirst
    } else if contact.second_velocity_y.le(Scalar::zero()) && contact.second_lands_on_first {
        PairSeparation::LiftSecond
    } else if contact.overlap {
        PairSeparation::Push
    } else {
        PairSeparation::Apart
    }
}

/// Two bodies, by their places, and how they are separated.
#[derive(Clone, Copy, Debug, PartialEq, Eq, Structural)]
pub struct PairMove {
    pub first: usize,
    pub second: usize,
    pub separation: PairSeparation,
}

/// The separations of those pairs that touch, in the order of the pairs.
pub open spec fn separation_moves(
    pairs: Seq<(usize, usize)>,
    contacts: Seq<PairContact>,
) -> Seq<PairMove>
    decreases pairs.len(),
{
    if pairs.len() == 0 {
        seq![]
    } else {
        let last = pairs.len() - 1;
        let before = separation_moves(pairs.take(last), contacts);
        let separation = spec_pair_separation(contacts[last]);
        if separation == PairSeparation::Apart {
            before
        } else {
            before.push(PairMove { first: pairs[last].0, second: pairs[last].1, separation })
        }
    }
}

/// One round of separation. `contacts` are measured of the pairs of
/// `separation_pairs`, in that order. The result names the pairs that touch and how
/// each is separated; where it is empty the bodies are apart and no round follows.
/// Only bodies that block take part; a set in which a slot of one of these is unknown
/// or repeated is refused.
pub fn separate_fighters(fighters: &Vec<BodyFighter>, contacts: &Vec<PairContact>) -> (result:
    Result<Vec<PairMove>, SlotCollectionError>)
    requires
        collection_fault(blocking_slots(fighters@)).is_none() ==> contacts@.len()
            == separated_pairs(fighters@).len(),
    ensures
        match result {
            Ok(moves) => collection_fault(blocking_slots(fighters@)).is_none() && moves@
                == separation_moves(separated_pairs(fighters@), contacts@),
            Err(fault) => collection_fault(blocking_slots(fighters@)) == Some(fault),
        },
{
    let pairs = match separation_pairs(fighters) {
        Ok(pairs) => pairs,
        Err(fault) => {
            return Err(fault);
        },
    };
    let mut moves: Vec<PairMove> = Vec::new();
    let mut next: usize = 0;
    while next < pairs.len()
        invariant
            next <= pairs@.len(),
            contacts@.len() == pairs@.len(),
            moves@ == separation_moves(pairs@.take(next as int), contacts@),
        decreases pairs@.len() - next,
    {
        proof {
            assert(pairs@.take(next + 1).take(next as int) =~= pairs@.take(next as int));
        }
        let separation = pair_separation(contacts[next]);
        if separation != PairSeparation::Apart {
            moves.push(PairMove { first: pairs[next].0, second: pairs[next].1, separation });
        }
        next += 1;
    }
    proof {
        assert(pairs@.take(next as int) =~= pairs@);
    }
    Ok(moves)
}

/// Bodies that do not touch are left where they are.
pub proof fn bodies_apart_stay(pairs: Seq<(usize, usize)>, contacts: Seq<PairContact>)
    requires
        forall|i: int|
            0 <= i < pairs.len() ==> spec_pair_separation(#[trigger] contacts[i])
                == PairSeparation::Apart,
    ensures
        separation_moves(pairs, contacts).len() == 0,
    decreases pairs.len(),
{
    if pairs.len() > 0 {
        bodies_apart_stay(pairs.take(pairs.len() - 1), contacts);
    }
}

/// A fighter is lifted only where it lands on another and does not rise.
pub proof fn lifts_need_a_landing(
    pairs: Seq<(usize, usize)>,
    contacts: Seq<PairContact>,
    place: int,
)
    requires
        0 <= place < separation_moves(pairs, contacts).len(),
    ensures
        exists|i: int|
            {
                let step = separation_moves(pairs, contacts)[place];
                &&& 0 <= i < pairs.len()
                &&& #[trigger] pairs[i] == (step.first, step.second)
                &&& step.separation == PairSeparation::LiftFirst
                    ==> contacts[i].first_lands_on_second && contacts[i].first_velocity_y.le(
                    Scalar::zero(),
                )
                &&& step.separation == PairSeparation::LiftSecond
                    ==> contacts[i].second_lands_on_first && contacts[i].second_velocity_y.le(
                    Scalar::zero(),
                )
            },
    decreases pairs.len(),
{
    let last = pairs.len() - 1;
    let before = pairs.take(last);
    if place < separation_moves(before, contacts).len() {
        lifts_need_a_landing(before, contacts, place);
        let step = separation_moves(before, contacts)[place];
        let i = choose|i: int|
            {
                &&& 0 <= i < before.len()
                &&& #[trigger] before[i] == (step.first, step.second)
                &&& step.separation == PairSeparation::LiftFirst
                    ==> contacts[i].first_lands_on_second && contacts[i].first_velocity_y.le(
                    Scalar::zero(),
                )
                &&& step.separation == PairSeparation::LiftSecond
                    ==> contacts[i].second_lands_on_first && contacts[i].second_velocity_y.le(
                    Scalar::zero(),
                )
            };
        assert(pairs[i] == before[i]);
    } else {
        assert(pairs[last] == pairs[last]);
    }
}

/// A held, fallen or rushing body neither moves nor pushes: every move is one of two
/// bodies that block.
pub proof fn only_blocking_bodies_move(
    fighters: Seq<BodyFighter>,
    contacts: Seq<PairContact>,
    place: int,
)
    requires
        fighters.len() <= usize::MAX,
        collection_fault(blocking_slots(fighters)).is_none(),
        0 <= place < separation_moves(separated_pairs(fighters), contacts).len(),
    ensures
        ({
            let step = separation_moves(separated_pairs(fighters), contacts)[place];
            &&& step.first < fighters.len() && step.second < fighters.len()
            &&& fighter_body_blocks_overlap(fighters[step.first as int].action)
            &&& fighter_body_blocks_overlap(fighters[step.second as int].action)
        }),
{
    let pairs = separated_pairs(fighters);
    lifts_need_a_landing(pairs, contacts, place);
    let step = separation_moves(pairs, contacts)[place];
    let i = choose|i: int|
        0 <= i < pairs.len() && #[trigger] pairs[i] == (step.first, step.second);
    only_blocking_bodies_are_paired(fighters, i);
}

/// Moves with the slots of the fighters that they move, in place of their places.
pub open spec fn slot_moves(fighters: Seq<BodyFighter>, moves: Seq<PairMove>) -> Seq<PairMove> {
    Seq::new(
        moves.len(),
        |i: int|
            PairMove {
                first: fighters[moves[i].first as int].slot,
                second: fighters[moves[i].second as int].slot,
                separation: moves[i].separation,
            },
    )
}

proof fn lemma_slot_moves(
    fighters: Seq<BodyFighter>,
    pairs: Seq<(usize, usize)>,
    contacts: Seq<PairContact>,
)
    ensures
        slot_moves(fighters, separation_moves(pairs, contacts)) == separation_moves(
            pair_slots(fighters, pairs),
            contacts,
        ),
    decreases pairs.len(),
{
    if pairs.len() > 0 {
        let last = pairs.len() - 1;
        lemma_slot_moves(fighters, pairs.take(last), contacts);
        assert(pair_slots(fighters, pairs).take(last) =~= pair_slots(fighters, pairs.take(last)));
    }
    assert(slot_moves(fighters, separation_moves(pairs, contacts)) =~= separation_moves(
        pair_slots(fighters, pairs),
        contacts,
    ));
}

/// However the fighters are stored, the same contacts separate the same fighters in
/// the same way and order.
pub proof fn separation_ignores_storage_order(
    forward: Seq<BodyFighter>,
    reversed: Seq<BodyFighter>,
    contacts: Seq<PairContact>,
)
    requires
        forward.len() <= usize::MAX,
        collection_fault(blocking_slots(forward)).is_none(),
        collection_fault(blocking_slots(reversed)).is_none(),
        forward.to_multiset() == reversed.to_multiset(),
    ensures
        slot_moves(forward, separation_moves(separated_pairs(forward), contacts)) == slot_moves(
            reversed,
            separation_moves(separated_pairs(reversed), contacts),
        ),
{
    pairs_ignore_storage_order(forward, reversed);
    lemma_slot_moves(forward, separated_pairs(forward), contacts);
    lemma_slot_moves(reversed, separated_pairs(reversed), contacts);
}

/// What a move does to one of its two bodies.
#[derive(Clone, Copy, Debug, PartialEq, Eq, Structural)]
pub enum CorrectionKind {
    /// It is lifted onto the other, and not lowered by it.
    Lift,
    /// It goes by half the overlap of the two.
    Forth,
    /// It goes by half the overlap of the two, the other way.
    Back,
}

/// One correction of a body, with the place of the body that it comes from.
#[derive(Clone, Copy, Debug, PartialEq, Eq, Structural)]
pub struct BodyCorrection {
    pub other: usize,
    pub kind: CorrectionKind,
}

/// What a move does to the body at a place.
pub open spec fn spec_correction_by(step: PairMove, place: usize) -> Option<BodyCorrection> {
    let from_second = |kind: CorrectionKind| Some(BodyCorrection { other: step.second, kind });
    let from_first = |kind: CorrectionKind| Some(BodyCorrection { other: step.first, kind });
    match step.separation {
        PairSeparation::LiftFirst if step.first == place => from_second(CorrectionKind::Lift),
        PairSeparation::LiftSecond if step.second == place => from_first(CorrectionKind::Lift),
        PairSeparation::Push if step.first == place => from_second(CorrectionKind::Forth),
        PairSeparation::Push if step.second == place => from_first(CorrectionKind::Back),
        _ => None,
    }
}

fn correction_by(step: PairMove, place: usize) -> (correction: Option<BodyCorrection>)
    ensures
        correction == spec_correction_by(step, place),
{
    let PairMove { first, second, separation } = step;
    match separation {
        PairSeparation::LiftFirst if first == place => Some(
            BodyCorrection { other: second, kind: CorrectionKind::Lift },
        ),
        PairSeparation::LiftSecond if second == place => Some(
            BodyCorrection { other: first, kind: CorrectionKind::Lift },
        ),
        PairSeparation::Push if first == place => Some(
            BodyCorrection { other: second, kind: CorrectionKind::Forth },
        ),
        PairSeparation::Push if second == place => Some(
            BodyCorrection { other: first, kind: CorrectionKind::Back },
        ),
        _ => None,
    }
}

/// All that the moves of a round do to the body at a place, in their order.
pub open spec fn spec_corrections_on(moves: Seq<PairMove>, place: usize) -> Seq<BodyCorrection>
    decreases moves.len(),
{
    if moves.len() == 0 {
        seq![]
    } else {
        let before = spec_corrections_on(moves.drop_last(), place);
        match spec_correction_by(moves.last(), place) {
            Some(correction) => before.push(correction),
            None => before,
        }
    }
}

/// All that the moves of a round do to the body at a place, in the order in which the
/// corrections add up.
pub fn corrections_on(moves: &Vec<PairMove>, place: usize) -> (corrections: Vec<BodyCorrection>)
    ensures
        corrections@ == spec_corrections_on(moves@, place),
{
    let mut corrections: Vec<BodyCorrection> = Vec::new();
    let mut next: usize = 0;
    while next < moves.len()
        invariant
            next <= moves@.len(),
            corrections@ == spec_corrections_on(moves@.take(next as int), place),
        decreases moves@.len() - next,
    {
        proof {
            assert(moves@.take(next + 1).drop_last() =~= moves@.take(next as int));
        }
        if let Some(correction) = correction_by(moves[next], place) {
            corrections.push(correction);
        }
        next += 1;
    }
    proof {
        assert(moves@.take(next as int) =~= moves@);
    }
    corrections
}

/// The moves of a round, where `measure` tells of two bodies how they touch.
pub open spec fn round_moves<B>(
    fighters: Seq<BodyFighter>,
    bodies: Seq<B>,
    measure: spec_fn(B, B) -> PairContact,
) -> Seq<PairMove> {
    let pairs = separated_pairs(fighters);
    separation_moves(
        pairs,
        Seq::new(
            pairs.len(),
            |i: int| measure(bodies[pairs[i].0 as int], bodies[pairs[i].1 as int]),
        ),
    )
}

/// What the body at a place is told to do, with the bodies that it has to do it with.
pub open spec fn told<B>(
    bodies: Seq<B>,
    corrections: Seq<BodyCorrection>,
) -> Seq<(CorrectionKind, B)> {
    Seq::new(
        corrections.len(),
        |i: int| (corrections[i].kind, bodies[corrections[i].other as int]),
    )
}

/// The bodies after one round, where `shift` moves a body by its corrections, in
/// whatever arithmetic. Without a move they stay.
pub open spec fn after_round<B>(
    fighters: Seq<BodyFighter>,
    bodies: Seq<B>,
    measure: spec_fn(B, B) -> PairContact,
    shift: spec_fn(B, Seq<(CorrectionKind, B)>) -> B,
) -> Seq<B> {
    let moves = round_moves(fighters, bodies, measure);
    if moves.len() == 0 {
        bodies
    } else {
        Seq::new(
            bodies.len(),
            |p: int| shift(bodies[p], told(bodies, spec_corrections_on(moves, p as usize))),
        )
    }
}

/// The bodies after a number of rounds.
pub open spec fn after_rounds<B>(
    fighters: Seq<BodyFighter>,
    bodies: Seq<B>,
    measure: spec_fn(B, B) -> PairContact,
    shift: spec_fn(B, Seq<(CorrectionKind, B)>) -> B,
    rounds: nat,
) -> Seq<B>
    decreases rounds,
{
    if rounds == 0 {
        bodies
    } else {
        after_round(
            fighters,
            after_rounds(fighters, bodies, measure, shift, (rounds - 1) as nat),
            measure,
            shift,
        )
    }
}

/// Two stores hold the same fighters with the same bodies, each fighter once.
pub open spec fn stored_alike<B>(
    forward: Seq<BodyFighter>,
    forward_bodies: Seq<B>,
    reversed: Seq<BodyFighter>,
    reversed_bodies: Seq<B>,
) -> bool {
    &&& forward.to_multiset() == reversed.to_multiset()
    &&& forward_bodies.len() == forward.len()
    &&& reversed_bodies.len() == reversed.len()
    &&& forall|i: int, j: int|
        0 <= i < j < forward.len() ==> (#[trigger] forward[i]).slot != (
        #[trigger] forward[j]).slot
    &&& forall|i: int, j: int|
        0 <= i < j < reversed.len() ==> (#[trigger] reversed[i]).slot != (
        #[trigger] reversed[j]).slot
    &&& forall|i: int, j: int|
        0 <= i < forward.len() && 0 <= j < reversed.len() && (#[trigger] forward[i]).slot == (
        #[trigger] reversed[j]).slot ==> forward_bodies[i] == reversed_bodies[j]
}

proof fn lemma_corrections_agree<B>(
    forward: Seq<BodyFighter>,
    forward_bodies: Seq<B>,
    forward_moves: Seq<PairMove>,
    reversed: Seq<BodyFighter>,
    reversed_bodies: Seq<B>,
    reversed_moves: Seq<PairMove>,
    place: int,
    other_place: int,
)
    requires
        forward.len() <= usize::MAX,
        reversed.len() <= usize::MAX,
        stored_alike(forward, forward_bodies, reversed, reversed_bodies),
        0 <= place < forward.len(),
        0 <= other_place < reversed.len(),
        forward[place].slot == reversed[other_place].slot,
        forward_moves.len() == reversed_moves.len(),
        forall|k: int|
            0 <= k < forward_moves.len() ==> {
                let step = #[trigger] forward_moves[k];
                let other = reversed_moves[k];
                &&& step.first < forward.len() && step.second < forward.len()
                &&& other.first < reversed.len() && other.second < reversed.len()
                &&& forward[step.first as int].slot == reversed[other.first as int].slot
                &&& forward[step.second as int].slot == reversed[other.second as int].slot
                &&& step.separation == other.separation
            },
    ensures
        told(forward_bodies, spec_corrections_on(forward_moves, place as usize)) == told(
            reversed_bodies,
            spec_corrections_on(reversed_moves, other_place as usize),
        ),
    decreases forward_moves.len(),
{
    if forward_moves.len() > 0 {
        let last = forward_moves.len() - 1;
        let step = forward_moves[last];
        let other = reversed_moves[last];
        let before = forward_moves.drop_last();
        let other_before = reversed_moves.drop_last();
        assert forall|k: int| 0 <= k < before.len() implies {
            let step = #[trigger] before[k];
            let other = other_before[k];
            &&& step.first < forward.len() && step.second < forward.len()
            &&& other.first < reversed.len() && other.second < reversed.len()
            &&& forward[step.first as int].slot == reversed[other.first as int].slot
            &&& forward[step.second as int].slot == reversed[other.second as int].slot
            &&& step.separation == other.separation
        } by {
            assert(before[k] == forward_moves[k]);
        }
        lemma_corrections_agree(
            forward,
            forward_bodies,
            before,
            reversed,
            reversed_bodies,
            other_before,
            place,
            other_place,
        );
        assert(step.first == place <==> other.first == other_place);
        assert(step.second == place <==> other.second == other_place);
        let earlier = told(forward_bodies, spec_corrections_on(before, place as usize));
        let other_earlier = told(
            reversed_bodies,
            spec_corrections_on(other_before, other_place as usize),
        );
        assert(earlier == other_earlier);
        match spec_correction_by(step, place as usize) {
            Some(correction) => {
                assert(told(forward_bodies, spec_corrections_on(forward_moves, place as usize))
                    =~= earlier.push((correction.kind, forward_bodies[correction.other as int])));
                let same = spec_correction_by(other, other_place as usize).unwrap();
                assert(told(
                    reversed_bodies,
                    spec_corrections_on(reversed_moves, other_place as usize),
                ) =~= other_earlier.push((same.kind, reversed_bodies[same.other as int])));
            },
            None => {},
        }
    } else {
        assert(told(forward_bodies, spec_corrections_on(forward_moves, place as usize)) =~= told(
            reversed_bodies,
            spec_corrections_on(reversed_moves, other_place as usize),
        ));
    }
}

/// One round leaves every fighter the same body however the fighters are stored.
proof fn lemma_round_ignores_storage_order<B>(
    forward: Seq<BodyFighter>,
    forward_bodies: Seq<B>,
    reversed: Seq<BodyFighter>,
    reversed_bodies: Seq<B>,
    measure: spec_fn(B, B) -> PairContact,
    shift: spec_fn(B, Seq<(CorrectionKind, B)>) -> B,
)
    requires
        forward.len() <= usize::MAX,
        collection_fault(blocking_slots(forward)).is_none(),
        collection_fault(blocking_slots(reversed)).is_none(),
        stored_alike(forward, forward_bodies, reversed, reversed_bodies),
    ensures
        stored_alike(
            forward,
            after_round(forward, forward_bodies, measure, shift),
            reversed,
            after_round(reversed, reversed_bodies, measure, shift),
        ),
{
    forward.to_multiset_ensures();
    reversed.to_multiset_ensures();
    pairs_ignore_storage_order(forward, reversed);
    let pairs = separated_pairs(forward);
    let other_pairs = separated_pairs(reversed);
    let slots = pair_slots(forward, pairs);
    assert(slots.len() == pairs.len());
    assert(pair_slots(reversed, other_pairs).len() == other_pairs.len());
    let contacts = Seq::new(
        pairs.len(),
        |i: int| measure(forward_bodies[pairs[i].0 as int], forward_bodies[pairs[i].1 as int]),
    );
    let other_contacts = Seq::new(
        other_pairs.len(),
        |i: int|
            measure(
                reversed_bodies[other_pairs[i].0 as int],
                reversed_bodies[other_pairs[i].1 as int],
            ),
    );
    assert forall|k: int| 0 <= k < pairs.len() implies #[trigger] contacts[k]
        == other_contacts[k] by {
        only_blocking_bodies_are_paired(forward, k);
        only_blocking_bodies_are_paired(reversed, k);
        assert(slots[k] == pair_slots(reversed, other_pairs)[k]);
        assert(forward[pairs[k].0 as int].slot == reversed[other_pairs[k].0 as int].slot);
        assert(forward[pairs[k].1 as int].slot == reversed[other_pairs[k].1 as int].slot);
    }
    assert(contacts =~= other_contacts);
    separation_ignores_storage_order(forward, reversed, contacts);
    let moves = round_moves(forward, forward_bodies, measure);
    let other_moves = round_moves(reversed, reversed_bodies, measure);
    assert(moves == separation_moves(pairs, contacts));
    assert(other_moves == separation_moves(other_pairs, contacts));
    assert(slot_moves(forward, moves).len() == moves.len());
    assert(slot_moves(reversed, other_moves).len() == other_moves.len());
    assert forall|k: int| 0 <= k < moves.len() implies {
        let step = #[trigger] moves[k];
        let other = other_moves[k];
        &&& step.first < forward.len() && step.second < forward.len()
        &&& other.first < reversed.len() && other.second < reversed.len()
        &&& forward[step.first as int].slot == reversed[other.first as int].slot
        &&& forward[step.second as int].slot == reversed[other.second as int].slot
        &&& step.separation == other.separation
    } by {
        only_blocking_bodies_move(forward, contacts, k);
        only_blocking_bodies_move(reversed, contacts, k);
        assert(slot_moves(forward, moves)[k] == slot_moves(reversed, other_moves)[k]);
    }
    let after = after_round(forward, forward_bodies, measure, shift);
    let other_after = after_round(reversed, reversed_bodies, measure, shift);
    assert forall|i: int, j: int|
        0 <= i < forward.len() && 0 <= j < reversed.len() && (#[trigger] forward[i]).slot == (
        #[trigger] reversed[j]).slot implies after[i] == other_after[j] by {
        lemma_corrections_agree(
            forward,
            forward_bodies,
            moves,
            reversed,
            reversed_bodies,
            other_moves,
            i,
            j,
        );
    }
}

/// However the fighters are stored, every fighter ends up with the same body, after
/// any number of rounds: whatever is measured of two bodies, and in whatever arithmetic
/// a body adds its corrections up.
pub proof fn places_ignore_storage_order<B>(
    forward: Seq<BodyFighter>,
    forward_bodies: Seq<B>,
    reversed: Seq<BodyFighter>,
    reversed_bodies: Seq<B>,
    measure: spec_fn(B, B) -> PairContact,
    shift: spec_fn(B, Seq<(CorrectionKind, B)>) -> B,
    rounds: nat,
)
    requires
        forward.len() <= usize::MAX,
        collection_fault(blocking_slots(forward)).is_none(),
        collection_fault(blocking_slots(reversed)).is_none(),
        stored_alike(forward, forward_bodies, reversed, reversed_bodies),
    ensures
        stored_alike(
            forward,
            after_rounds(forward, forward_bodies, measure, shift, rounds),
            reversed,
            after_rounds(reversed, reversed_bodies, measure, shift, rounds),
        ),
    decreases rounds,
{
    if rounds > 0 {
        let earlier = (rounds - 1) as nat;
        places_ignore_storage_order(
            forward,
            forward_bodies,
            reversed,
            reversed_bodies,
            measure,
            shift,
            earlier,
        );
        lemma_round_ignores_storage_order(
            forward,
            after_rounds(forward, forward_bodies, measure, shift, earlier),
            reversed,
            after_rounds(reversed, reversed_bodies, measure, shift, earlier),
            measure,
            shift,
        );
    }
}

/// A held, fallen or rushing body is corrected by nobody, and nobody's correction comes
/// from one.
pub proof fn only_blocking_bodies_are_corrected(
    fighters: Seq<BodyFighter>,
    contacts: Seq<PairContact>,
    place: int,
    correction: int,
)
    requires
        fighters.len() <= usize::MAX,
        collection_fault(blocking_slots(fighters)).is_none(),
        0 <= place < fighters.len(),
        0 <= correction < spec_corrections_on(
            separation_moves(separated_pairs(fighters), contacts),
            place as usize,
        ).len(),
    ensures
        ({
            let other = spec_corrections_on(
                separation_moves(separated_pairs(fighters), contacts),
                place as usize,
            )[correction].other;
            &&& fighter_body_blocks_overlap(fighters[place].action)
            &&& other < fighters.len()
            &&& fighter_body_blocks_overlap(fighters[other as int].action)
        }),
{
    let moves = separation_moves(separated_pairs(fighters), contacts);
    let k = lemma_correction_has_a_move(moves, place as usize, correction);
    only_blocking_bodies_move(fighters, contacts, k);
}

proof fn lemma_correction_has_a_move(moves: Seq<PairMove>, place: usize, correction: int) -> (k:
    int)
    requires
        0 <= correction < spec_corrections_on(moves, place).len(),
    ensures
        0 <= k < moves.len(),
        spec_correction_by(moves[k], place) == Some(spec_corrections_on(moves, place)[correction]),
    decreases moves.len(),
{
    let before = moves.drop_last();
    if correction < spec_corrections_on(before, place).len() {
        lemma_correction_has_a_move(before, place, correction)
    } else {
        moves.len() - 1
    }
}

/// A correction moves a fighter: its body blocks and the correction counts.
pub open spec fn correction_counts(action: FighterAction, length_squared: Scalar) -> bool {
    fighter_body_blocks_overlap(action) && !length_squared.le(
        Scalar { bits: CORRECTION_NOISE_SQUARED_BITS },
    )
}

/// Lets a correction act on a fighter's motor. One that lifts it puts it on the
/// ground. False says that the fighter is not moved.
pub fn separate_fighter(
    motor: &mut FighterMotor,
    action: FighterAction,
    correction_length_squared: Scalar,
    correction_y: Scalar,
    tuning: &FighterTuning,
) -> (moved: bool)
    ensures
        moved == correction_counts(action, correction_length_squared),
        *final(motor) == (if moved && Scalar::zero().lt(correction_y) {
            FighterMotor {
                grounded: true,
                ledge_grace_timer: TickTimer { remaining: tuning.ledge_grace },
                ..*old(motor)
            }
        } else {
            *old(motor)
        }),
{
    if !fighter_body_blocks_overlap(action) {
        return false;
    }
    if correction_length_squared.le(Scalar { bits: CORRECTION_NOISE_SQUARED_BITS }) {
        return false;
    }
    if Scalar::zero().lt(correction_y) {
        motor.grounded = true;
        motor.ledge_grace_timer = TickTimer::from_ticks(tuning.ledge_grace);
    }
    true
}

/// A fighter that can be aimed at, or aim.
pub fn takes_part_in_aiming(active: bool, action: FighterAction) -> (takes_part: bool)
    ensures
        takes_part == (active && !out_of_play(action)),
{
    active && !out_of_play(action)
}

/// A fighter that can be aimed at by `fighter`.
pub open spec fn aim_candidate(ids: Seq<usize>, fighter: FighterId, other: int) -> bool {
    0 <= other < FIGHTER_COUNT && other != fighter.spec_index() && entry_of(ids, other).is_some()
}

/// The place in the total order of the distance to a candidate.
pub open spec fn aim_distance(ids: Seq<usize>, distances: Seq<Scalar>, other: int) -> int {
    distances[entry_of(ids, other).unwrap() as int].total_place()
}

/// One candidate is preferred to another: nearer, or as near with a lower slot.
pub open spec fn aim_preferred(
    ids: Seq<usize>,
    distances: Seq<Scalar>,
    first: int,
    second: int,
) -> bool {
    let near = aim_distance(ids, distances, first);
    let far = aim_distance(ids, distances, second);
    near < far || (near == far && first < second)
}

/// The chosen candidate: preferred to every other.
pub open spec fn aim_chosen(
    ids: Seq<usize>,
    distances: Seq<Scalar>,
    fighter: FighterId,
    chosen: int,
) -> bool {
    &&& aim_candidate(ids, fighter, chosen)
    &&& forall|other: int| #[trigger]
        aim_candidate(ids, fighter, other) && other != chosen ==> aim_preferred(
            ids,
            distances,
            chosen,
            other,
        )
}

/// The fighter that an aiming fighter turns to: the nearest other one, the lower
/// slot among equally near ones. `distances` are squared and stand at the same
/// places as `ids`. A set in which a slot is unknown or repeated is refused.
pub fn choose_aim_target(
    ids: &Vec<usize>,
    distances: &Vec<Scalar>,
    fighter: FighterId,
) -> (result: Result<Option<FighterId>, SlotCollectionError>)
    requires
        distances@.len() == ids@.len(),
    ensures
        match result {
            Ok(Some(target)) => collection_fault(ids@).is_none() && aim_chosen(
                ids@,
                distances@,
                fighter,
                target.spec_index() as int,
            ),
            Ok(None) => collection_fault(ids@).is_none() && forall|other: int|
                !(#[trigger] aim_candidate(ids@, fighter, other)),
            Err(fault) => collection_fault(ids@) == Some(fault),
        },
{
    let entries = match fighter_entries(ids, "aim-assist fighters") {
        Ok(entries) => entries,
        Err(fault) => {
            return Err(fault);
        },
    };
    proof {
        crate::fixed::accepted_iff_slots_are_distinct(ids@);
    }
    let own: usize = fighter.index();
    let mut best: Option<usize> = None;
    let mut next: usize = 0;
    while next < FIGHTER_COUNT
        invariant
            next <= FIGHTER_COUNT,
            own == fighter.spec_index(),
            distances@.len() == ids@.len(),
            crate::fixed::slots_distinct(ids@),
            entries@ == Seq::new(FIGHTER_COUNT as nat, |f: int| entry_of(ids@, f)),
            match best {
                Some(chosen) => {
                    &&& chosen < next
                    &&& aim_candidate(ids@, fighter, chosen as int)
                    &&& forall|other: int| #[trigger]
                        aim_candidate(ids@, fighter, other) && other != chosen && other < next
                            ==> aim_preferred(ids@, distances@, chosen as int, other)
                },
                None => forall|other: int| #[trigger]
                    aim_candidate(ids@, fighter, other) ==> other >= next,
            },
        decreases FIGHTER_COUNT - next,
    {
        if next != own {
            if let Some(entry) = entries[next] {
                proof {
                    crate::fixed::entry_is_in_range(ids@, next as int);
                    assert(aim_candidate(ids@, fighter, next as int));
                }
                match best {
                    Some(chosen) => {
                        if let Some(chosen_entry) = entries[chosen] {
                            proof {
                                crate::fixed::entry_is_in_range(ids@, chosen as int);
                            }
                            if distances[entry].total_lt(distances[chosen_entry]) {
                                best = Some(next);
                            }
                        }
                    },
                    None => {
                        best = Some(next);
                    },
                }
            }
        }
        next += 1;
    }
    match best {
        Some(chosen) => Ok(FighterId::from_index(chosen)),
        None => Ok(None),
    }
}

/// A fighter as aiming sees it.
#[derive(Clone, Copy, Debug, PartialEq, Eq, Structural)]
pub struct AimFighter {
    pub slot: usize,
    pub active: bool,
    pub action: FighterAction,
    pub aims: bool,
}

impl AimFighter {
    pub open spec fn takes_part(self) -> bool {
        self.active && !out_of_play(self.action)
    }
}

/// The slots of those that take part, in storage order.
pub open spec fn aim_slots(fighters: Seq<AimFighter>) -> Seq<usize>
    decreases fighters.len(),
{
    if fighters.len() == 0 {
        seq![]
    } else if fighters.last().takes_part() {
        aim_slots(fighters.drop_last()).push(fighters.last().slot)
    } else {
        aim_slots(fighters.drop_last())
    }
}

/// The distances to those that take part, in storage order.
pub open spec fn aim_distances(fighters: Seq<AimFighter>, distances: Seq<Scalar>) -> Seq<Scalar>
    decreases fighters.len(),
{
    if fighters.len() == 0 {
        seq![]
    } else {
        let before = aim_distances(fighters.drop_last(), distances);
        if fighters.last().takes_part() {
            before.push(distances[fighters.len() - 1])
        } else {
            before
        }
    }
}

proof fn lemma_aim_lengths(fighters: Seq<AimFighter>, distances: Seq<Scalar>)
    ensures
        aim_slots(fighters).len() == aim_distances(fighters, distances).len(),
    decreases fighters.len(),
{
    if fighters.len() > 0 {
        lemma_aim_lengths(fighters.drop_last(), distances);
    }
}

proof fn lemma_aim_slot_kept(fighters: Seq<AimFighter>, place: int)
    requires
        0 <= place < fighters.len(),
        fighters[place].takes_part(),
    ensures
        aim_slots(fighters).contains(fighters[place].slot),
    decreases fighters.len(),
{
    let before = fighters.drop_last();
    if place == fighters.len() - 1 {
        let slots = aim_slots(fighters);
        assert(slots[slots.len() - 1] == fighters[place].slot);
    } else {
        lemma_aim_slot_kept(before, place);
        let i = choose|i: int|
            0 <= i < aim_slots(before).len() && aim_slots(before)[i] == before[place].slot;
        assert(aim_slots(fighters)[i] == fighters[place].slot);
    }
}

/// Whom a fighter turns to, given its distances to all: nobody, where it does not
/// aim, does not take part or is alone; otherwise the chosen one.
pub open spec fn aims_at(
    fighters: Seq<AimFighter>,
    distances: Seq<Scalar>,
    aiming: AimFighter,
    target: Option<FighterId>,
) -> bool {
    let ids = aim_slots(fighters);
    let near = aim_distances(fighters, distances);
    if aiming.aims && aiming.takes_part() {
        match (FighterId::at(aiming.slot as int), target) {
            (Some(fighter), Some(chosen)) => aim_chosen(
                ids,
                near,
                fighter,
                chosen.spec_index() as int,
            ),
            (Some(fighter), None) => forall|other: int|
                !(#[trigger] aim_candidate(ids, fighter, other)),
            (None, _) => false,
        }
    } else {
        target.is_none()
    }
}

/// The fighters that each fighter turns to. `distances` hold, for each fighter, the
/// squared distances to all of them. A set in which a slot of those that take part
/// is unknown or repeated is refused.
pub fn apply_aim_assist(fighters: &Vec<AimFighter>, distances: &Vec<Vec<Scalar>>) -> (result:
    Result<Vec<Option<FighterId>>, SlotCollectionError>)
    requires
        distances@.len() == fighters@.len(),
        forall|i: int|
            0 <= i < distances@.len() ==> (#[trigger] distances@[i])@.len() == fighters@.len(),
    ensures
        match result {
            Ok(targets) => {
                &&& collection_fault(aim_slots(fighters@)).is_none()
                &&& targets@.len() == fighters@.len()
                &&& forall|i: int|
                    0 <= i < fighters@.len() ==> aims_at(
                        fighters@,
                        distances@[i]@,
                        #[trigger] fighters@[i],
                        targets@[i],
                    )
            },
            Err(fault) => collection_fault(aim_slots(fighters@)) == Some(fault),
        },
{
    let mut ids: Vec<usize> = Vec::new();
    let mut next: usize = 0;
    while next < fighters.len()
        invariant
            next <= fighters@.len(),
            ids@ == aim_slots(fighters@.take(next as int)),
        decreases fighters@.len() - next,
    {
        proof {
            assert(fighters@.take(next + 1).drop_last() =~= fighters@.take(next as int));
        }
        if takes_part_in_aiming(fighters[next].active, fighters[next].action) {
            ids.push(fighters[next].slot);
        }
        next += 1;
    }
    proof {
        assert(fighters@.take(next as int) =~= fighters@);
    }
    match fighter_entries(&ids, "aim-assist fighters") {
        Ok(_) => {},
        Err(fault) => {
            return Err(fault);
        },
    }
    proof {
        crate::fixed::accepted_iff_slots_are_distinct(ids@);
    }
    let mut targets: Vec<Option<FighterId>> = Vec::new();
    let mut place: usize = 0;
    while place < fighters.len()
        invariant
            place <= fighters@.len(),
            ids@ == aim_slots(fighters@),
            collection_fault(ids@).is_none(),
            crate::fixed::slots_distinct(ids@),
            distances@.len() == fighters@.len(),
            forall|i: int|
                0 <= i < distances@.len() ==> (#[trigger] distances@[i])@.len() == fighters@.len(),
            targets@.len() == place,
            forall|i: int|
                0 <= i < place ==> aims_at(
                    fighters@,
                    distances@[i]@,
                    #[trigger] fighters@[i],
                    targets@[i],
                ),
        decreases fighters@.len() - place,
    {
        let aiming = fighters[place];
        let mut target: Option<FighterId> = None;
        if aiming.aims && takes_part_in_aiming(aiming.active, aiming.action) {
            let near = distances_to_participants(fighters, &distances[place]);
            proof {
                lemma_aim_lengths(fighters@, distances@[place as int]@);
                lemma_aim_slot_kept(fighters@, place as int);
            }
            match FighterId::from_index(aiming.slot) {
                Some(fighter) => match choose_aim_target(&ids, &near, fighter) {
                    Ok(chosen) => {
                        target = chosen;
                    },
                    Err(fault) => {
                        return Err(fault);
                    },
                },
                None => {},
            }
        }
        targets.push(target);
        place += 1;
    }
    Ok(targets)
}

fn distances_to_participants(fighters: &Vec<AimFighter>, distances: &Vec<Scalar>) -> (near: Vec<
    Scalar,
>)
    requires
        distances@.len() == fighters@.len(),
    ensures
        near@ == aim_distances(fighters@, distances@),
{
    let mut near: Vec<Scalar> = Vec::new();
    let mut next: usize = 0;
    while next < fighters.len()
        invariant
            next <= fighters@.len(),
            distances@.len() == fighters@.len(),
            near@ == aim_distances(fighters@.take(next as int), distances@),
        decreases fighters@.len() - next,
    {
        proof {
            assert(fighters@.take(next + 1).drop_last() =~= fighters@.take(next as int));
        }
        if takes_part_in_aiming(fighters[next].active, fighters[next].action) {
            near.push(distances[next]);
        }
        next += 1;
    }
    proof {
        assert(fighters@.take(next as int) =~= fighters@);
    }
    near
}

/// The slots of a list of fighters with their distances.
pub open spec fn listed_slots(listed: Seq<(usize, Scalar)>) -> Seq<usize> {
    Seq::new(listed.len(), |i: int| listed[i].0)
}

/// The distances of a list of fighters with their distances.
pub open spec fn listed_distances(listed: Seq<(usize, Scalar)>) -> Seq<Scalar> {
    Seq::new(listed.len(), |i: int| listed[i].1)
}

/// The choice is unique, so it depends on nothing but slots and distances: two
/// storage orders with the same distances choose the same fighter.
pub proof fn aim_choice_is_unique(
    ids: Seq<usize>,
    distances: Seq<Scalar>,
    fighter: FighterId,
    first: int,
    second: int,
)
    requires
        aim_chosen(ids, distances, fighter, first),
        aim_chosen(ids, distances, fighter, second),
    ensures
        first == second,
{
}

/// Whom a fighter turns to does not depend on storage order: the same fighters at the
/// same distances, listed in another order, give the same choice.
pub proof fn aim_ignores_storage_order(
    forward: Seq<(usize, Scalar)>,
    reversed: Seq<(usize, Scalar)>,
    fighter: FighterId,
    chosen: int,
)
    requires
        forward.to_multiset() == reversed.to_multiset(),
        collection_fault(listed_slots(forward)).is_none(),
    ensures
        collection_fault(listed_slots(reversed)).is_none(),
        aim_chosen(listed_slots(forward), listed_distances(forward), fighter, chosen)
            == aim_chosen(listed_slots(reversed), listed_distances(reversed), fighter, chosen),
{
    let slot = |entry: (usize, Scalar)| entry.0;
    crate::fixed::accepted_iff_slots_are_distinct(listed_slots(forward));
    crate::fixed::accepted_iff_slots_are_distinct(listed_slots(reversed));
    assert(listed_slots(forward) =~= Seq::new(forward.len(), |i: int| slot(forward[i])));
    assert(listed_slots(reversed) =~= Seq::new(reversed.len(), |i: int| slot(reversed[i])));
    crate::fixed::entries_ignore_storage_order(forward, reversed, slot, 0);
    assert forall|other: int| #[trigger]
        aim_candidate(listed_slots(forward), fighter, other) == aim_candidate(
            listed_slots(reversed),
            fighter,
            other,
        ) by {
        crate::fixed::entries_ignore_storage_order(forward, reversed, slot, other);
    }
    assert forall|first: int, second: int|
        aim_candidate(listed_slots(forward), fighter, first) && aim_candidate(
            listed_slots(forward),
            fighter,
            second,
        ) implies #[trigger] aim_preferred(
        listed_slots(forward),
        listed_distances(forward),
        first,
        second,
    ) == aim_preferred(listed_slots(reversed), listed_distances(reversed), first, second) by {
        crate::fixed::entries_ignore_storage_order(forward, reversed, slot, first);
        crate::fixed::entries_ignore_storage_order(forward, reversed, slot, second);
    }
    let left = aim_chosen(listed_slots(forward), listed_distances(forward), fighter, chosen);
    let right = aim_chosen(listed_slots(reversed), listed_distances(reversed), fighter, chosen);
    if left {
        assert(aim_candidate(listed_slots(forward), fighter, chosen));
        assert forall|other: int| #[trigger]
            aim_candidate(listed_slots(reversed), fighter, other) && other
                != chosen implies aim_preferred(
            listed_slots(reversed),
            listed_distances(reversed),
            chosen,
            other,
        ) by {
            assert(aim_candidate(listed_slots(forward), fighter, other));
            assert(aim_preferred(
                listed_slots(forward),
                listed_distances(forward),
                chosen,
                other,
            ));
        }
    }
    if right {
        assert(aim_candidate(listed_slots(reversed), fighter, chosen));
        assert(aim_candidate(listed_slots(forward), fighter, chosen));
        assert forall|other: int| #[trigger]
            aim_candidate(listed_slots(forward), fighter, other) && other
                != chosen implies aim_preferred(
            listed_slots(forward),
            listed_distances(forward),
            chosen,
            other,
        ) by {
            assert(aim_candidate(listed_slots(reversed), fighter, other));
            assert(aim_preferred(
                listed_slots(reversed),
                listed_distances(reversed),
                chosen,
                other,
            ));
        }
    }
}

} // verus!

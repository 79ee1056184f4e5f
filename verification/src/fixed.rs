//! Fixed collections of fighter slots. Entries arrive in storage order; a
//! collection with an unknown or repeated slot is refused as a whole, and what is
//! accepted is walked in canonical fighter order.

use arrayvec::{ArrayVec, CapacityError};
use vstd::prelude::*;

use crate::ids::{FighterId, FIGHTER_COUNT};

verus! {

/// `arrayvec::ArrayVec`, a vector of fixed capacity.
#[verifier::external_type_specification]
#[verifier::external_body]
#[verifier::reject_recursive_types(T)]
pub struct ExArrayVec<T, const CAP: usize>(ArrayVec<T, CAP>);

/// `arrayvec::CapacityError`, which hands back what did not fit.
#[verifier::external_type_specification]
#[verifier::external_body]
#[verifier::reject_recursive_types(T)]
pub struct ExCapacityError<T>(CapacityError<T>);

/// What a fixed collection of slots holds, first to last: for each entry its
/// fighter slot and its place in storage order.
pub uninterp spec fn slot_entries(slots: ArrayVec<(usize, usize), FIGHTER_COUNT>) -> Seq<
    (usize, usize),
>;

/// `arrayvec::ArrayVec::new`: a new vector is empty.
#[verifier::external_body]
fn empty_slots() -> (slots: ArrayVec<(usize, usize), FIGHTER_COUNT>)
    ensures
        slot_entries(slots) == Seq::<(usize, usize)>::empty(),
{
    ArrayVec::new()
}

/// `arrayvec::ArrayVec::try_push`: appends an element while the length is below
/// the capacity; otherwise fails and leaves the vector as it was.
#[verifier::external_body]
fn push_slot(
    slots: &mut ArrayVec<(usize, usize), FIGHTER_COUNT>,
    entry: (usize, usize),
) -> (result: Result<(), CapacityError<(usize, usize)>>)
    ensures
        result.is_ok() == (slot_entries(*old(slots)).len() < FIGHTER_COUNT),
        slot_entries(*final(slots)) == (if result.is_ok() {
            slot_entries(*old(slots)).push(entry)
        } else {
            slot_entries(*old(slots))
        }),
{
    slots.try_push(entry)
}

/// `arrayvec::ArrayVec::len`: the number of elements.
#[verifier::external_body]
fn slot_count(slots: &ArrayVec<(usize, usize), FIGHTER_COUNT>) -> (count: usize)
    ensures
        count == slot_entries(*slots).len(),
{
    slots.len()
}

/// `arrayvec::ArrayVec::as_slice`: the elements in order, here one of them.
#[verifier::external_body]
fn slot_at(slots: &ArrayVec<(usize, usize), FIGHTER_COUNT>, index: usize) -> (entry: (usize, usize))
    requires
        index < slot_entries(*slots).len(),
    ensures
        entry == slot_entries(*slots)[index as int],
{
    slots.as_slice()[index]
}

/// The slice method `sort_unstable_by_key`, which an `ArrayVec` has because it
/// dereferences to a slice: the same elements, ordered by their key.
#[verifier::external_body]
fn sort_slots(slots: &mut ArrayVec<(usize, usize), FIGHTER_COUNT>)
    ensures
        slot_entries(*final(slots)).to_multiset() == slot_entries(*old(slots)).to_multiset(),
        forall|i: int, j: int|
            0 <= i < j < slot_entries(*final(slots)).len() ==> (#[trigger] slot_entries(
                *final(slots),
            )[i]).0 <= (#[trigger] slot_entries(*final(slots))[j]).0,
{
    slots.sort_unstable_by_key(|entry| entry.0);
}

/// An empty collection.
pub fn new_slots() -> (slots: ArrayVec<(usize, usize), FIGHTER_COUNT>)
    ensures
        slot_entries(slots) == Seq::<(usize, usize)>::empty(),
{
    empty_slots()
}

/// A number comes first in one of the pairs.
pub open spec fn leads_pair(pairs: Seq<(usize, usize)>, number: usize) -> bool {
    exists|i: int| 0 <= i < pairs.len() && (#[trigger] pairs[i]).0 == number
}

/// What comes first in the earliest pair in which a number comes second.
pub open spec fn pair_leader(pairs: Seq<(usize, usize)>, number: usize) -> Option<usize>
    decreases pairs.len(),
{
    if pairs.len() == 0 {
        None
    } else if pairs[0].1 == number {
        Some(pairs[0].0)
    } else {
        pair_leader(pairs.drop_first(), number)
    }
}

/// Looks a number up in a collection of pairs: whether it comes first in one, and
/// what it comes second to in the earliest pair in which it is second.
pub fn find_in_pairs(
    slots: &ArrayVec<(usize, usize), FIGHTER_COUNT>,
    number: usize,
) -> (found: (bool, Option<usize>))
    ensures
        found.0 == leads_pair(slot_entries(*slots), number),
        found.1 == pair_leader(slot_entries(*slots), number),
{
    let mut first = false;
    let mut second: Option<usize> = None;
    let count: usize = slot_count(slots);
    let mut next: usize = count;
    let ghost pairs = slot_entries(*slots);
    while next > 0
        invariant
            count == pairs.len(),
            pairs == slot_entries(*slots),
            next <= count,
            first == leads_pair(pairs.skip(next as int), number),
            second == pair_leader(pairs.skip(next as int), number),
        decreases next,
    {
        next -= 1;
        let (left, right) = slot_at(slots, next);
        proof {
            let rest = pairs.skip(next as int);
            let behind = pairs.skip(next + 1);
            assert(rest.drop_first() =~= behind);
            assert(rest[0] == (left, right));
            if leads_pair(behind, number) {
                let i = choose|i: int| 0 <= i < behind.len() && (#[trigger] behind[i]).0 == number;
                assert(rest[i + 1].0 == number);
            }
            if leads_pair(rest, number) && left != number {
                let i = choose|i: int| 0 <= i < rest.len() && (#[trigger] rest[i]).0 == number;
                assert(behind[i - 1].0 == number);
            }
        }
        if left == number {
            first = true;
        }
        if right == number {
            second = Some(left);
        }
    }
    proof {
        assert(pairs.skip(0) =~= pairs);
    }
    (first, second)
}

/// A fixed collection was full.
#[derive(Clone, Copy, Debug, PartialEq, Eq)]
pub struct FixedFighterCollectionOverflow {
    pub collection: &'static str,
    pub capacity: usize,
}

/// Why a collection of fighter slots was refused.
#[derive(Clone, Copy, Debug, PartialEq, Eq)]
pub enum SlotCollectionError {
    UnknownSlot { index: usize },
    DuplicateSlot { fighter: FighterId },
    Overflow(FixedFighterCollectionOverflow),
}

/// Appends an entry, or says which collection of which capacity was full.
pub fn try_push_fixed_fighter(
    values: &mut ArrayVec<(usize, usize), FIGHTER_COUNT>,
    value: (usize, usize),
    collection: &'static str,
) -> (result: Result<(), FixedFighterCollectionOverflow>)
    ensures
        slot_entries(*old(values)).len() < FIGHTER_COUNT ==> result.is_ok() && slot_entries(
            *final(values),
        ) == slot_entries(*old(values)).push(value),
        slot_entries(*old(values)).len() >= FIGHTER_COUNT ==> result == Err::<
            (),
            FixedFighterCollectionOverflow,
        >((FixedFighterCollectionOverflow { collection, capacity: FIGHTER_COUNT }))
            && slot_entries(*final(values)) == slot_entries(*old(values)),
{
    match push_slot(values, value) {
        Ok(()) => Ok(()),
        Err(_) => Err(FixedFighterCollectionOverflow { collection, capacity: FIGHTER_COUNT }),
    }
}

/// What is wrong with one entry: its slot does not exist, or came before.
pub open spec fn entry_fault(ids: Seq<usize>, entry: int) -> Option<SlotCollectionError> {
    match FighterId::at(ids[entry] as int) {
        Some(fighter) => if exists|j: int| 0 <= j < entry && ids[j] == ids[entry] {
            Some(SlotCollectionError::DuplicateSlot { fighter })
        } else {
            None
        },
        None => Some(SlotCollectionError::UnknownSlot { index: ids[entry] }),
    }
}

/// What is wrong with the first bad entry.
pub open spec fn collection_fault(ids: Seq<usize>) -> Option<SlotCollectionError>
    decreases ids.len(),
{
    if ids.len() == 0 {
        None
    } else {
        match collection_fault(ids.drop_last()) {
            Some(fault) => Some(fault),
            None => entry_fault(ids, ids.len() - 1),
        }
    }
}

/// Every entry names a slot of its own.
pub open spec fn slots_distinct(ids: Seq<usize>) -> bool {
    &&& forall|i: int| 0 <= i < ids.len() ==> (#[trigger] ids[i]) < FIGHTER_COUNT
    &&& forall|i: int, j: int|
        0 <= i < j < ids.len() ==> (#[trigger] ids[i]) != (#[trigger] ids[j])
}

/// A collection is accepted exactly when every entry names a slot of its own.
pub proof fn accepted_iff_slots_are_distinct(ids: Seq<usize>)
    ensures
        collection_fault(ids).is_none() <==> slots_distinct(ids),
    decreases ids.len(),
{
    if ids.len() > 0 {
        let rest = ids.drop_last();
        accepted_iff_slots_are_distinct(rest);
        assert forall|i: int| 0 <= i < rest.len() implies rest[i] == ids[i] by {}
        let last = ids.len() - 1;
        if slots_distinct(ids) {
            assert(slots_distinct(rest));
            assert forall|j: int| 0 <= j < last implies ids[j] != ids[last] by {}
        }
        if collection_fault(ids).is_none() {
            assert(slots_distinct(rest));
            assert forall|i: int| 0 <= i < ids.len() implies (#[trigger] ids[i]) < FIGHTER_COUNT by {
                if i < last {
                    assert(rest[i] < FIGHTER_COUNT);
                }
            }
            assert forall|i: int, j: int| 0 <= i < j < ids.len() implies (#[trigger] ids[i]) != (
            #[trigger] ids[j]) by {
                if j < last {
                    assert(rest[i] != rest[j]);
                }
            }
        }
    }
}

/// Five entries cannot all name slots of their own.
proof fn lemma_at_most_four_slots(ids: Seq<usize>)
    requires
        slots_distinct(ids),
    ensures
        ids.len() <= FIGHTER_COUNT,
{
    if ids.len() > FIGHTER_COUNT {
        assert(ids[0] < FIGHTER_COUNT && ids[1] < FIGHTER_COUNT && ids[2] < FIGHTER_COUNT && ids[3]
            < FIGHTER_COUNT && ids[4] < FIGHTER_COUNT);
        assert(ids[0] != ids[1] && ids[0] != ids[2] && ids[0] != ids[3] && ids[0] != ids[4]);
        assert(ids[1] != ids[2] && ids[1] != ids[3] && ids[1] != ids[4]);
        assert(ids[2] != ids[3] && ids[2] != ids[4] && ids[3] != ids[4]);
    }
}

/// Where a fighter's entry stands in storage order.
pub open spec fn entry_of(ids: Seq<usize>, fighter: int) -> Option<usize>
    decreases ids.len(),
{
    if ids.len() == 0 {
        None
    } else {
        match entry_of(ids.drop_last(), fighter) {
            Some(entry) => Some(entry),
            None => if ids.last() == fighter {
                Some((ids.len() - 1) as usize)
            } else {
                None
            },
        }
    }
}

proof fn lemma_entry_of(ids: Seq<usize>, fighter: int)
    requires
        ids.len() <= FIGHTER_COUNT,
    ensures
        match entry_of(ids, fighter) {
            Some(entry) => entry < ids.len() && ids[entry as int] == fighter,
            None => forall|i: int| 0 <= i < ids.len() ==> (#[trigger] ids[i]) != fighter,
        },
    decreases ids.len(),
{
    if ids.len() > 0 {
        let rest = ids.drop_last();
        lemma_entry_of(rest, fighter);
        assert forall|i: int| 0 <= i < rest.len() implies rest[i] == ids[i] by {}
        if entry_of(ids, fighter).is_none() {
            assert forall|i: int| 0 <= i < ids.len() implies (#[trigger] ids[i]) != fighter by {
                if i < rest.len() {
                    assert(rest[i] != fighter);
                }
            }
        }
    }
}

/// A fighter's entry is one of the entries and names the fighter's slot.
pub proof fn entry_is_in_range(ids: Seq<usize>, fighter: int)
    requires
        slots_distinct(ids),
    ensures
        match entry_of(ids, fighter) {
            Some(entry) => entry < ids.len() && ids[entry as int] == fighter,
            None => forall|i: int| 0 <= i < ids.len() ==> (#[trigger] ids[i]) != fighter,
        },
{
    lemma_at_most_four_slots(ids);
    lemma_entry_of(ids, fighter);
}

/// Collects entries in storage order and sorts them by fighter slot. The entry at
/// place `k` of storage is `(ids[k], k)`.
pub fn collect_fighter_slots(
    ids: &Vec<usize>,
    collection: &'static str,
) -> (result: Result<ArrayVec<(usize, usize), FIGHTER_COUNT>, SlotCollectionError>)
    ensures
        match result {
            Ok(slots) => {
                &&& collection_fault(ids@).is_none()
                &&& slot_entries(slots).to_multiset() == Seq::new(
                    ids@.len(),
                    |k: int| (ids@[k], k as usize),
                ).to_multiset()
                &&& forall|i: int, j: int|
                    0 <= i < j < slot_entries(slots).len() ==> (#[trigger] slot_entries(
                        slots,
                    )[i]).0 <= (#[trigger] slot_entries(slots)[j]).0
            },
            Err(fault) => collection_fault(ids@) == Some(fault),
        },
{
    let mut slots = empty_slots();
    let mut next: usize = 0;
    while next < ids.len()
        invariant
            next <= ids@.len(),
            collection_fault(ids@.take(next as int)).is_none(),
            slot_entries(slots).len() == next,
            forall|k: int| 0 <= k < next ==> #[trigger] slot_entries(slots)[k] == (ids@[k], k as usize),
        decreases ids@.len() - next,
    {
        let id: usize = ids[next];
        proof {
            let seen = ids@.take(next + 1);
            assert(seen.drop_last() =~= ids@.take(next as int));
            assert(seen[next as int] == id);
            lemma_fault_spreads(ids@, next + 1);
        }
        let fighter = match FighterId::from_index(id) {
            Some(fighter) => fighter,
            None => {
                return Err(SlotCollectionError::UnknownSlot { index: id });
            },
        };
        let mut earlier: usize = 0;
        while earlier < next
            invariant
                earlier <= next < ids@.len(),
                id == ids@[next as int],
                FighterId::at(id as int) == Some(fighter),
                slot_entries(slots).len() == next,
                forall|k: int|
                    0 <= k < next ==> #[trigger] slot_entries(slots)[k] == (ids@[k], k as usize),
                forall|j: int| 0 <= j < earlier ==> (#[trigger] ids@[j]) != id,
                collection_fault(ids@.take(next as int)).is_none(),
            decreases next - earlier,
        {
            if slot_at(&slots, earlier).0 == id {
                proof {
                    let seen = ids@.take(next + 1);
                    assert(seen.drop_last() =~= ids@.take(next as int));
                    assert(seen[earlier as int] == seen[next as int]);
                    lemma_fault_spreads(ids@, next + 1);
                }
                return Err(SlotCollectionError::DuplicateSlot { fighter });
            }
            earlier += 1;
        }
        proof {
            let seen = ids@.take(next + 1);
            assert(seen.drop_last() =~= ids@.take(next as int));
            assert forall|j: int| 0 <= j < next implies seen[j] != seen[next as int] by {
                assert(ids@[j] != id);
            }
            assert(collection_fault(seen).is_none());
            accepted_iff_slots_are_distinct(seen);
            lemma_at_most_four_slots(seen);
        }
        match try_push_fixed_fighter(&mut slots, (id, next), collection) {
            Ok(()) => {},
            Err(overflow) => {
                return Err(SlotCollectionError::Overflow(overflow));
            },
        }
        next += 1;
    }
    proof {
        assert(ids@.take(next as int) =~= ids@);
        assert(slot_entries(slots) =~= Seq::new(ids@.len(), |k: int| (ids@[k], k as usize)));
    }
    sort_slots(&mut slots);
    Ok(slots)
}

/// A fault of a prefix is the fault of the whole.
proof fn lemma_fault_spreads(ids: Seq<usize>, prefix: int)
    requires
        0 <= prefix <= ids.len(),
    ensures
        collection_fault(ids.take(prefix)).is_some() ==> collection_fault(ids) == collection_fault(
            ids.take(prefix),
        ),
    decreases ids.len() - prefix,
{
    if prefix < ids.len() {
        lemma_fault_spreads(ids, prefix + 1);
        assert(ids.take(prefix + 1).drop_last() =~= ids.take(prefix));
    } else {
        assert(ids.take(prefix) =~= ids);
    }
}

/// Where every fighter's entry stands in storage order, for a collection in
/// which every entry names a slot of its own.
pub fn fighter_entries(
    ids: &Vec<usize>,
    collection: &'static str,
) -> (result: Result<[Option<usize>; FIGHTER_COUNT], SlotCollectionError>)
    ensures
        match result {
            Ok(entries) => {
                &&& collection_fault(ids@).is_none()
                &&& entries@ == Seq::new(FIGHTER_COUNT as nat, |f: int| entry_of(ids@, f))
            },
            Err(fault) => collection_fault(ids@) == Some(fault),
        },
{
    let slots = match collect_fighter_slots(ids, collection) {
        Ok(slots) => slots,
        Err(fault) => {
            return Err(fault);
        },
    };
    let ghost listed = Seq::new(ids@.len(), |k: int| (ids@[k], k as usize));
    let ghost sorted = slot_entries(slots);
    proof {
        accepted_iff_slots_are_distinct(ids@);
        lemma_at_most_four_slots(ids@);
        sorted.to_multiset_ensures();
        listed.to_multiset_ensures();
        assert forall|i: int| 0 <= i < sorted.len() implies listed.contains(#[trigger] sorted[i]) by {
            assert(sorted.contains(sorted[i]));
            assert(sorted.to_multiset().count(sorted[i]) > 0);
        }
        assert forall|k: int| 0 <= k < listed.len() implies sorted.contains(#[trigger] listed[k]) by {
            assert(listed.contains(listed[k]));
            assert(listed.to_multiset().count(listed[k]) > 0);
        }
    }
    let mut entries: [Option<usize>; FIGHTER_COUNT] = [None, None, None, None];
    let count: usize = slot_count(&slots);
    let mut next: usize = 0;
    while next < count
        invariant
            count == sorted.len(),
            sorted == slot_entries(slots),
            next <= count,
            slots_distinct(ids@),
            ids@.len() <= FIGHTER_COUNT,
            listed == Seq::new(ids@.len(), |k: int| (ids@[k], k as usize)),
            forall|i: int| 0 <= i < sorted.len() ==> listed.contains(#[trigger] sorted[i]),
            forall|f: int|
                0 <= f < FIGHTER_COUNT ==> match #[trigger] entries@[f] {
                    Some(entry) => entry < ids@.len() && ids@[entry as int] == f,
                    None => forall|i: int| 0 <= i < next ==> (#[trigger] sorted[i]).0 != f,
                },
        decreases count - next,
    {
        let (id, entry) = slot_at(&slots, next);
        proof {
            assert(listed.contains(sorted[next as int]));
            let k = choose|k: int| 0 <= k < listed.len() && listed[k] == sorted[next as int];
            assert(ids@[k] == id && k == entry);
        }
        entries[id] = Some(entry);
        next += 1;
    }
    proof {
        assert forall|f: int| 0 <= f < FIGHTER_COUNT implies entries@[f] == entry_of(ids@, f) by {
            lemma_entry_of(ids@, f);
            match entries@[f] {
                Some(entry) => {
                    let found = entry_of(ids@, f).unwrap();
                    assert(ids@[found as int] == f);
                    if found < entry {
                        assert(ids@[found as int] != ids@[entry as int]);
                    } else if entry < found {
                        assert(ids@[entry as int] != ids@[found as int]);
                    }
                },
                None => {
                    if entry_of(ids@, f).is_some() {
                        let found = entry_of(ids@, f).unwrap();
                        assert(sorted.contains(listed[found as int]));
                        let i = choose|i: int| 0 <= i < sorted.len() && sorted[i]
                            == listed[found as int];
                        assert(sorted[i].0 == f);
                    }
                },
            }
        }
        assert(entries@ =~= Seq::new(FIGHTER_COUNT as nat, |f: int| entry_of(ids@, f)));
    }
    Ok(entries)
}

/// Storage order does not matter: two accepted collections that list the same
/// slots find the same fighters.
pub proof fn storage_order_is_immaterial(forward: Seq<usize>, reversed: Seq<usize>, fighter: int)
    requires
        slots_distinct(forward),
        slots_distinct(reversed),
        forward.to_multiset() == reversed.to_multiset(),
    ensures
        match (entry_of(forward, fighter), entry_of(reversed, fighter)) {
            (Some(left), Some(right)) => forward[left as int] == reversed[right as int],
            (None, None) => true,
            _ => false,
        },
{
    lemma_at_most_four_slots(forward);
    lemma_at_most_four_slots(reversed);
    lemma_entry_of(forward, fighter);
    lemma_entry_of(reversed, fighter);
    forward.to_multiset_ensures();
    reversed.to_multiset_ensures();
    if entry_of(forward, fighter).is_some() {
        let left = entry_of(forward, fighter).unwrap() as int;
        assert(forward.contains(forward[left]));
        assert(reversed.to_multiset().count(forward[left]) > 0);
        assert(reversed.contains(forward[left]));
    }
    if entry_of(reversed, fighter).is_some() {
        let right = entry_of(reversed, fighter).unwrap() as int;
        assert(reversed.contains(reversed[right]));
        assert(forward.to_multiset().count(reversed[right]) > 0);
        assert(forward.contains(reversed[right]));
    }
}

/// The same of what the slots belong to: two collections that hold the same entries
/// in another order are accepted alike, and where they are, every fighter's entry
/// is the same in both.
pub proof fn entries_ignore_storage_order<A>(
    forward: Seq<A>,
    reversed: Seq<A>,
    slot: spec_fn(A) -> usize,
    fighter: int,
)
    requires
        forward.to_multiset() == reversed.to_multiset(),
        slots_distinct(Seq::new(forward.len(), |i: int| slot(forward[i]))),
    ensures
        slots_distinct(Seq::new(reversed.len(), |i: int| slot(reversed[i]))),
        ({
            let left_slots = Seq::new(forward.len(), |i: int| slot(forward[i]));
            let right_slots = Seq::new(reversed.len(), |i: int| slot(reversed[i]));
            match (entry_of(left_slots, fighter), entry_of(right_slots, fighter)) {
                (Some(left), Some(right)) => {
                    &&& left < forward.len()
                    &&& right < reversed.len()
                    &&& forward[left as int] == reversed[right as int]
                },
                (None, None) => true,
                _ => false,
            }
        }),
{
    let left_slots = Seq::new(forward.len(), |i: int| slot(forward[i]));
    let right_slots = Seq::new(reversed.len(), |i: int| slot(reversed[i]));
    forward.to_multiset_ensures();
    reversed.to_multiset_ensures();
    assert(forward.no_duplicates()) by {
        assert forall|i: int, j: int|
            0 <= i < forward.len() && 0 <= j < forward.len() && i != j implies forward[i]
            != forward[j] by {
            if i < j {
                assert(left_slots[i] != left_slots[j]);
            } else {
                assert(left_slots[j] != left_slots[i]);
            }
        }
    }
    forward.lemma_multiset_has_no_duplicates();
    reversed.lemma_multiset_has_no_duplicates_conv();
    assert forall|k: int| 0 <= k < reversed.len() implies forward.contains(
        #[trigger] reversed[k],
    ) by {
        assert(reversed.contains(reversed[k]));
        assert(forward.to_multiset().count(reversed[k]) > 0);
    }
    assert forall|k: int| 0 <= k < forward.len() implies reversed.contains(
        #[trigger] forward[k],
    ) by {
        assert(forward.contains(forward[k]));
        assert(reversed.to_multiset().count(forward[k]) > 0);
    }
    assert(slots_distinct(right_slots)) by {
        assert forall|i: int| 0 <= i < right_slots.len() implies (#[trigger] right_slots[i])
            < FIGHTER_COUNT by {
            let k = choose|k: int| 0 <= k < forward.len() && forward[k] == reversed[i];
            assert(left_slots[k] == right_slots[i]);
        }
        assert forall|i: int, j: int| 0 <= i < j < right_slots.len() implies (
        #[trigger] right_slots[i]) != (#[trigger] right_slots[j]) by {
            let k = choose|k: int| 0 <= k < forward.len() && forward[k] == reversed[i];
            let l = choose|l: int| 0 <= l < forward.len() && forward[l] == reversed[j];
            assert(reversed[i] != reversed[j]);
            if k < l {
                assert(left_slots[k] != left_slots[l]);
            } else {
                assert(left_slots[l] != left_slots[k]);
            }
        }
    }
    lemma_at_most_four_slots(left_slots);
    lemma_at_most_four_slots(right_slots);
    lemma_entry_of(left_slots, fighter);
    lemma_entry_of(right_slots, fighter);
    match entry_of(left_slots, fighter) {
        Some(left) => {
            let k = choose|k: int| 0 <= k < reversed.len() && reversed[k] == forward[left as int];
            assert(right_slots[k] == fighter);
            let right = entry_of(right_slots, fighter).unwrap() as int;
            if right < k {
                assert(right_slots[right] != right_slots[k]);
            } else if k < right {
                assert(right_slots[k] != right_slots[right]);
            }
        },
        None => {
            if entry_of(right_slots, fighter).is_some() {
                let right = entry_of(right_slots, fighter).unwrap() as int;
                let k = choose|k: int| 0 <= k < forward.len() && forward[k] == reversed[right];
                assert(left_slots[k] == fighter);
            }
        },
    }
}

} // verus!

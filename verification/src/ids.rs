//! The seats, fighters and loadouts that the rules speak of.

use vstd::prelude::*;

verus! {

/// Seats in a match, and so fighters in the simulation.
pub const FIGHTER_COUNT: usize = 4;

/// One of the four canonical fighter slots.
#[derive(Clone, Copy, Debug, PartialEq, Eq, Structural)]
pub enum FighterId {
    Zero,
    One,
    Two,
    Three,
}

impl FighterId {
    /// The slot's place in arrays indexed by fighter.
    pub open spec fn spec_index(self) -> usize {
        match self {
            FighterId::Zero => 0,
            FighterId::One => 1,
            FighterId::Two => 2,
            FighterId::Three => 3,
        }
    }

    /// The slot at `index`, if there is one.
    pub open spec fn at(index: int) -> Option<FighterId> {
        if index == 0 {
            Some(FighterId::Zero)
        } else if index == 1 {
            Some(FighterId::One)
        } else if index == 2 {
            Some(FighterId::Two)
        } else if index == 3 {
            Some(FighterId::Three)
        } else {
            None
        }
    }

    pub fn new(index: u8) -> (id: Option<FighterId>)
        ensures
            id == Self::at(index as int),
    {
        Self::from_index(index as usize)
    }

    pub fn from_index(index: usize) -> (id: Option<FighterId>)
        ensures
            id == Self::at(index as int),
    {
        match index {
            0 => Some(FighterId::Zero),
            1 => Some(FighterId::One),
            2 => Some(FighterId::Two),
            3 => Some(FighterId::Three),
            _ => None,
        }
    }

    #[verifier::when_used_as_spec(spec_index)]
    pub fn index(self) -> (index: usize)
        ensures
            index == self.spec_index(),
            index < FIGHTER_COUNT,
    {
        match self {
            FighterId::Zero => 0,
            FighterId::One => 1,
            FighterId::Two => 2,
            FighterId::Three => 3,
        }
    }
}

/// A slot and its index name each other.
pub proof fn fighter_index_round_trips(id: FighterId, index: int)
    ensures
        FighterId::at(id.spec_index() as int) == Some(id),
        FighterId::at(index).is_some() <==> 0 <= index < FIGHTER_COUNT,
        FighterId::at(index).is_some() ==> FighterId::at(index).unwrap().spec_index() == index,
{
}

} // verus!

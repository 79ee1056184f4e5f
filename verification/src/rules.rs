//! Rule presets and whom they let fighters hit.

use vstd::prelude::*;

use crate::ids::FIGHTER_COUNT;
use crate::loadout::{fighters_share_team, spec_default_teammates};

verus! {

/// Lives with which every fighter starts.
pub const STOCK_LIVES: i32 = 3;

/// How many rule presets there are.
pub const RULE_PRESET_COUNT: usize = 3;

#[derive(Clone, Copy, Debug, PartialEq, Eq, Structural)]
pub enum RulePreset {
    TimedTeamScore,
    FreeForAll,
    StockRingOut,
}

/// The rules of a match. A time limit is given in nanoseconds.
#[derive(Clone, Copy, Debug, PartialEq, Eq)]
pub struct MatchRules {
    pub preset: RulePreset,
    pub label: &'static str,
    pub time_limit: Option<u64>,
    pub starting_stocks: Option<i32>,
    pub team_scoring: bool,
    pub friendly_fire: bool,
}

impl MatchRules {
    pub open spec fn spec_uses_timer(self) -> bool {
        self.time_limit.is_some()
    }

    pub open spec fn spec_uses_stocks(self) -> bool {
        self.starting_stocks.is_some()
    }

    #[verifier::when_used_as_spec(spec_uses_timer)]
    pub fn uses_timer(self) -> (timed: bool)
        ensures
            timed == self.spec_uses_timer(),
    {
        self.time_limit.is_some()
    }

    #[verifier::when_used_as_spec(spec_uses_stocks)]
    pub fn uses_stocks(self) -> (stocked: bool)
        ensures
            stocked == self.spec_uses_stocks(),
    {
        self.starting_stocks.is_some()
    }

    /// The clock at the start of a match.
    pub open spec fn opening_clock(self) -> u64 {
        match self.time_limit {
            Some(limit) => limit,
            None => 0,
        }
    }

    /// The lives of every fighter at the start of a match.
    pub open spec fn opening_stock(self) -> i32 {
        match self.starting_stocks {
            Some(stock) => stock,
            None => 0,
        }
    }
}

/// The preset at an index; an index beyond the last names the last.
pub open spec fn spec_rule_preset(index: usize) -> MatchRules {
    if index == 0 {
        MatchRules {
            preset: RulePreset::TimedTeamScore,
            label: "Team Lives (No Timer)",
            time_limit: None,
            starting_stocks: Some(STOCK_LIVES),
            team_scoring: true,
            friendly_fire: false,
        }
    } else if index == 1 {
        MatchRules {
            preset: RulePreset::FreeForAll,
            label: "Free-for-All Lives (No Timer)",
            time_limit: None,
            starting_stocks: Some(STOCK_LIVES),
            team_scoring: false,
            friendly_fire: true,
        }
    } else {
        MatchRules {
            preset: RulePreset::StockRingOut,
            label: "Life Ring-Out",
            time_limit: None,
            starting_stocks: Some(STOCK_LIVES),
            team_scoring: false,
            friendly_fire: true,
        }
    }
}

#[verifier::when_used_as_spec(spec_rule_preset)]
pub fn rule_preset(index: usize) -> (rules: MatchRules)
    ensures
        rules == spec_rule_preset(index),
{
    match index {
        0 => MatchRules {
            preset: RulePreset::TimedTeamScore,
            label: "Team Lives (No Timer)",
            time_limit: None,
            starting_stocks: Some(STOCK_LIVES),
            team_scoring: true,
            friendly_fire: false,
        },
        1 => MatchRules {
            preset: RulePreset::FreeForAll,
            label: "Free-for-All Lives (No Timer)",
            time_limit: None,
            starting_stocks: Some(STOCK_LIVES),
            team_scoring: false,
            friendly_fire: true,
        },
        _ => MatchRules {
            preset: RulePreset::StockRingOut,
            label: "Life Ring-Out",
            time_limit: None,
            starting_stocks: Some(STOCK_LIVES),
            team_scoring: false,
            friendly_fire: true,
        },
    }
}

/// All presets in order.
pub fn rule_presets() -> (presets: [MatchRules; 3])
    ensures
        presets@ == Seq::new(RULE_PRESET_COUNT as nat, |i: int| rule_preset(i as usize)),
{
    let presets = [rule_preset(0), rule_preset(1), rule_preset(2)];
    proof {
        assert(presets@ =~= Seq::new(RULE_PRESET_COUNT as nat, |i: int| rule_preset(i as usize)));
    }
    presets
}

/// Every preset is played with lives, and only team rules forbid friendly fire.
pub proof fn presets_use_lives(index: usize)
    ensures
        rule_preset(index).uses_stocks(),
        rule_preset(index).opening_stock() == STOCK_LIVES,
        rule_preset(index).friendly_fire == !rule_preset(index).team_scoring,
{
}

/// Whom the rules let a seat hit while default teams are in force. What is not a
/// seat, such as the arena itself, may hit anyone; nothing may hit what is not a
/// seat; team rules without friendly fire spare oneself and one's team.
pub open spec fn spec_combat_target_allowed(
    rules: MatchRules,
    attacker: int,
    target: int,
) -> bool {
    if attacker >= FIGHTER_COUNT {
        true
    } else if target >= FIGHTER_COUNT {
        false
    } else if !rules.team_scoring || rules.friendly_fire {
        true
    } else {
        attacker != target && !spec_default_teammates(attacker, target)
    }
}

pub fn combat_target_allowed(
    rules: MatchRules,
    attacker_id: usize,
    target_id: usize,
) -> (allowed: bool)
    ensures
        allowed == spec_combat_target_allowed(rules, attacker_id as int, target_id as int),
{
    if attacker_id >= FIGHTER_COUNT {
        return true;
    }
    if target_id >= FIGHTER_COUNT {
        return false;
    }
    if !rules.team_scoring || rules.friendly_fire {
        return true;
    }
    attacker_id != target_id && !fighters_share_team(attacker_id, target_id)
}

} // verus!

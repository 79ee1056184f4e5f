//! The flow of a match: phases, lives, who may hit whom, and how lives are lost.

use vstd::prelude::*;

use crate::ids::{FighterId, FIGHTER_COUNT};
use crate::loadout::{TeamId, default_slot_team, spec_default_slot_team};
use crate::rules::{MatchRules, RULE_PRESET_COUNT, rule_preset};
use crate::setup::{
    DEFAULT_REPLAY_SEED, LocalSetup, next_replay_seed, seat_occupied, spec_next_replay_seed,
};

verus! {

#[derive(Clone, Copy, Debug, PartialEq, Eq, Structural)]
pub enum MatchPhase {
    Setup,
    Fighting,
    TimeUp,
    Results,
    Resetting,
}

#[derive(Clone, Copy, Debug, PartialEq, Eq, Structural)]
pub enum MatchPhaseEvent {
    TimeUp,
    Results,
}

/// What one lost life led to.
#[derive(Clone, Copy, Debug, PartialEq, Eq, Structural)]
pub struct RingoutResolution {
    pub awarded_to: Option<usize>,
    pub remaining_stock: Option<i32>,
    pub eliminated: bool,
    pub match_finished: bool,
}

#[derive(Clone, Copy, Debug, PartialEq, Eq, Structural)]
pub enum LifeLossCause {
    RingOut,
    Knockout,
}

/// The state of a match. Clocks count nanoseconds.
#[derive(Clone, Copy, Debug)]
pub struct MatchState {
    pub timer: u64,
    pub phase: MatchPhase,
    pub phase_timer: u64,
    pub rules: MatchRules,
    pub rule_index: usize,
    pub arena_index: usize,
    pub active_fighter_count: usize,
    pub active_slots: [bool; FIGHTER_COUNT],
    pub teams: [TeamId; FIGHTER_COUNT],
    pub stocks: [i32; FIGHTER_COUNT],
    pub replay_seed: u64,
    pub debug_hitboxes: bool,
    pub reset_requested: bool,
}

/// A match as a mathematical value.
pub struct MatchModel {
    pub timer: u64,
    pub phase: MatchPhase,
    pub phase_timer: u64,
    pub rules: MatchRules,
    pub rule_index: usize,
    pub arena_index: usize,
    pub active_fighter_count: usize,
    pub active_slots: Seq<bool>,
    pub teams: Seq<TeamId>,
    pub stocks: Seq<i32>,
    pub replay_seed: u64,
    pub debug_hitboxes: bool,
    pub reset_requested: bool,
}

impl View for MatchState {
    type V = MatchModel;

    open spec fn view(&self) -> MatchModel {
        MatchModel {
            timer: self.timer,
            phase: self.phase,
            phase_timer: self.phase_timer,
            rules: self.rules,
            rule_index: self.rule_index,
            arena_index: self.arena_index,
            active_fighter_count: self.active_fighter_count,
            active_slots: self.active_slots@,
            teams: self.teams@,
            stocks: self.stocks@,
            replay_seed: self.replay_seed,
            debug_hitboxes: self.debug_hitboxes,
            reset_requested: self.reset_requested,
        }
    }
}

/// One for a true flag, none for a false one.
pub open spec fn flag(value: bool) -> nat {
    if value {
        1
    } else {
        0
    }
}

/// How many of the four flags are set.
pub open spec fn flags_set(flags: Seq<bool>) -> nat {
    flag(flags[0]) + flag(flags[1]) + flag(flags[2]) + flag(flags[3])
}

/// `stock` lives for everybody.
pub open spec fn equal_stocks(stock: i32) -> Seq<i32> {
    Seq::new(FIGHTER_COUNT as nat, |i: int| stock)
}

/// One life fewer, but never fewer than none.
pub open spec fn stock_after_loss(stock: i32) -> i32 {
    if stock <= 1 {
        0
    } else {
        (stock - 1) as i32
    }
}

impl MatchModel {
    /// The seat is in the match.
    pub open spec fn active(self, fighter_id: int) -> bool {
        0 <= fighter_id < FIGHTER_COUNT && self.active_slots[fighter_id]
    }

    /// The seat is in the match and has not used up its lives.
    pub open spec fn can_participate(self, fighter_id: int) -> bool {
        self.active(fighter_id) && !(self.rules.uses_stocks() && self.stocks[fighter_id] <= 0)
    }

    /// What may cause hits: fighters still in the match, and anything that is not
    /// a fighter.
    pub open spec fn owner_active(self, owner_id: int) -> bool {
        owner_id >= FIGHTER_COUNT || self.can_participate(owner_id)
    }

    pub open spec fn share_team(self, first: int, second: int) -> bool {
        &&& 0 <= first < FIGHTER_COUNT
        &&& 0 <= second < FIGHTER_COUNT
        &&& self.teams[first] == self.teams[second]
    }

    /// Whether a hit lands: both sides are still in the match, and team rules
    /// without friendly fire spare oneself and one's team.
    pub open spec fn target_allowed(self, attacker: int, target: int) -> bool {
        &&& self.owner_active(attacker)
        &&& self.can_participate(target)
        &&& {
            ||| attacker >= FIGHTER_COUNT
            ||| !self.rules.team_scoring
            ||| self.rules.friendly_fire
            ||| (attacker != target && !self.share_team(attacker, target))
        }
    }

    /// Whether a fighter is credited with another's lost life.
    pub open spec fn credit_allowed(self, victim: int, attacker: int) -> bool {
        attacker < FIGHTER_COUNT && attacker != victim && self.target_allowed(attacker, victim)
    }

    /// Whether a seat still counts when deciding the match.
    pub open spec fn in_the_running(self, fighter_id: int) -> bool {
        self.active(fighter_id) && self.stocks[fighter_id] > 0
    }

    /// How many seats still count when deciding the match.
    pub open spec fn running_count(self) -> nat {
        flag(self.in_the_running(0)) + flag(self.in_the_running(1)) + flag(self.in_the_running(2))
            + flag(self.in_the_running(3))
    }

    /// The match once it is decided.
    pub open spec fn decided(self) -> MatchModel {
        MatchModel { phase: MatchPhase::Results, phase_timer: 0, ..self }
    }

    /// The match after the seats in `victims` each lost a life at once. With at
    /// most one seat left in the running it is decided.
    pub open spec fn after_losses(self, victims: Set<int>) -> MatchModel {
        if self.rules.uses_stocks() && !victims.is_empty() {
            let lost = MatchModel {
                stocks: Seq::new(
                    self.stocks.len(),
                    |i: int|
                        if victims.contains(i) {
                            stock_after_loss(self.stocks[i])
                        } else {
                            self.stocks[i]
                        },
                ),
                ..self
            };
            if lost.running_count() <= 1 {
                lost.decided()
            } else {
                lost
            }
        } else {
            self
        }
    }

    /// What a lost life leads to, told from the match before all simultaneous
    /// losses and the match after them.
    pub open spec fn loss_resolution(
        self,
        after: MatchModel,
        victim: int,
        attacker: Option<int>,
    ) -> RingoutResolution {
        RingoutResolution {
            awarded_to: match attacker {
                Some(attacker) => if self.credit_allowed(victim, attacker) {
                    Some(attacker as usize)
                } else {
                    None
                },
                None => None,
            },
            remaining_stock: if self.rules.uses_stocks() {
                Some(after.stocks[victim])
            } else {
                None
            },
            eliminated: self.rules.uses_stocks() && after.stocks[victim] == 0,
            match_finished: self.rules.uses_stocks() && after.running_count() <= 1,
        }
    }

    pub open spec fn eliminated(self, fighter_id: int) -> bool {
        !self.can_participate(fighter_id)
    }

    /// The match asked to start over.
    pub open spec fn rematch_requested(self) -> MatchModel {
        MatchModel {
            reset_requested: true,
            phase: MatchPhase::Resetting,
            phase_timer: 0,
            ..self
        }
    }

    /// The match with `setup`'s seats and teams.
    pub open spec fn with_setup(self, setup: crate::setup::SetupModel) -> MatchModel {
        let active = Seq::new(FIGHTER_COUNT as nat, |i: int| seat_occupied(setup.slots, i));
        MatchModel {
            active_slots: active,
            active_fighter_count: flags_set(active) as usize,
            teams: Seq::new(FIGHTER_COUNT as nat, |i: int| setup.slots[i].team),
            ..self
        }
    }

    /// A fresh fight under the current rules.
    pub open spec fn restarted(self) -> MatchModel {
        MatchModel {
            timer: self.rules.opening_clock(),
            phase: MatchPhase::Fighting,
            phase_timer: 0,
            stocks: equal_stocks(self.rules.opening_stock()),
            reset_requested: false,
            ..self
        }
    }

    /// Back in the setup menu.
    pub open spec fn in_setup(self) -> MatchModel {
        MatchModel {
            phase: MatchPhase::Setup,
            phase_timer: 0,
            reset_requested: false,
            timer: self.rules.opening_clock(),
            ..self
        }
    }

    /// The match after `dt` nanoseconds, and what that led to. Only timed fights
    /// and the time-up pause run down.
    pub open spec fn advanced(self, dt: u64, time_up: u64) -> (MatchModel, Option<MatchPhaseEvent>) {
        match self.phase {
            MatchPhase::Fighting => if !self.rules.uses_timer() {
                (self, None)
            } else if self.timer > dt {
                (MatchModel { timer: (self.timer - dt) as u64, ..self }, None)
            } else {
                (
                    MatchModel {
                        timer: 0,
                        phase: MatchPhase::TimeUp,
                        phase_timer: time_up,
                        ..self
                    },
                    Some(MatchPhaseEvent::TimeUp),
                )
            },
            MatchPhase::TimeUp => if self.phase_timer > dt {
                (MatchModel { phase_timer: (self.phase_timer - dt) as u64, ..self }, None)
            } else {
                (
                    MatchModel { phase_timer: 0, phase: MatchPhase::Results, ..self },
                    Some(MatchPhaseEvent::Results),
                )
            },
            _ => (self, None),
        }
    }
}

/// The match as it stands when the program starts: the first preset, in setup,
/// with the first two seats taken.
pub open spec fn initial_match() -> MatchModel {
    MatchModel {
        timer: rule_preset(0).opening_clock(),
        phase: MatchPhase::Setup,
        phase_timer: 0,
        rules: rule_preset(0),
        rule_index: 0,
        arena_index: 0,
        active_fighter_count: 2,
        active_slots: seq![true, true, false, false],
        teams: Seq::new(FIGHTER_COUNT as nat, |i: int| spec_default_slot_team(i)),
        stocks: equal_stocks(rule_preset(0).opening_stock()),
        replay_seed: DEFAULT_REPLAY_SEED,
        debug_hitboxes: false,
        reset_requested: false,
    }
}

fn active_slot_count(active_slots: [bool; FIGHTER_COUNT]) -> (count: usize)
    ensures
        count == flags_set(active_slots@),
{
    let mut count: usize = 0;
    if active_slots[0] {
        count += 1;
    }
    if active_slots[1] {
        count += 1;
    }
    if active_slots[2] {
        count += 1;
    }
    if active_slots[3] {
        count += 1;
    }
    count
}

fn stock_array(rules: MatchRules) -> (stocks: [i32; FIGHTER_COUNT])
    ensures
        stocks@ == equal_stocks(rules.opening_stock()),
{
    let stock: i32 = match rules.starting_stocks {
        Some(stock) => stock,
        None => 0,
    };
    let stocks = [stock, stock, stock, stock];
    proof {
        assert(stocks@ =~= equal_stocks(rules.opening_stock()));
    }
    stocks
}

fn opening_clock(rules: MatchRules) -> (clock: u64)
    ensures
        clock == rules.opening_clock(),
{
    match rules.time_limit {
        Some(limit) => limit,
        None => 0,
    }
}

impl MatchState {
    pub fn new() -> (state: MatchState)
        ensures
            state@ == initial_match(),
    {
        let rules = rule_preset(0);
        let active_slots = [true, true, false, false];
        let state = MatchState {
            timer: opening_clock(rules),
            phase: MatchPhase::Setup,
            phase_timer: 0,
            rules,
            rule_index: 0,
            arena_index: 0,
            active_fighter_count: active_slot_count(active_slots),
            active_slots,
            teams: [
                default_slot_team(0),
                default_slot_team(1),
                default_slot_team(2),
                default_slot_team(3),
            ],
            stocks: stock_array(rules),
            replay_seed: DEFAULT_REPLAY_SEED,
            debug_hitboxes: false,
            reset_requested: false,
        };
        proof {
            assert(state@.active_slots =~= seq![true, true, false, false]);
            assert(state@.teams =~= Seq::new(
                FIGHTER_COUNT as nat,
                |i: int| spec_default_slot_team(i),
            ));
        }
        state
    }

    pub fn is_fighting(&self) -> (fighting: bool)
        ensures
            fighting == (self.phase == MatchPhase::Fighting),
    {
        self.phase == MatchPhase::Fighting
    }

    pub fn active_rule_label(&self) -> (label: &'static str)
        ensures
            label == self.rules.label,
    {
        self.rules.label
    }

    /// Selects a preset, the last for an index beyond it. Outside of setup the
    /// match starts over under it.
    pub fn select_rule(&mut self, index: usize)
        ensures
            ({
                let selected = MatchModel {
                    rule_index: if index < RULE_PRESET_COUNT {
                        index
                    } else {
                        (RULE_PRESET_COUNT - 1) as usize
                    },
                    rules: rule_preset(index),
                    ..old(self)@
                };
                final(self)@ == (if old(self).phase == MatchPhase::Setup {
                    selected
                } else {
                    selected.rematch_requested()
                })
            }),
    {
        self.rule_index = if index < RULE_PRESET_COUNT {
            index
        } else {
            RULE_PRESET_COUNT - 1
        };
        self.rules = rule_preset(self.rule_index);
        if self.phase != MatchPhase::Setup {
            self.request_rematch();
        }
    }

    pub fn request_rematch(&mut self)
        ensures
            final(self)@ == old(self)@.rematch_requested(),
    {
        self.reset_requested = true;
        self.phase = MatchPhase::Resetting;
        self.phase_timer = 0;
    }

    pub fn return_to_setup(&mut self)
        ensures
            final(self)@ == old(self)@.in_setup(),
    {
        self.phase = MatchPhase::Setup;
        self.phase_timer = 0;
        self.reset_requested = false;
        self.timer = opening_clock(self.rules);
    }

    pub fn reset_for_new_match(&mut self)
        ensures
            final(self)@ == old(self)@.restarted(),
    {
        self.timer = opening_clock(self.rules);
        self.phase = MatchPhase::Fighting;
        self.phase_timer = 0;
        self.stocks = stock_array(self.rules);
        self.reset_requested = false;
    }

    pub fn apply_local_setup(&mut self, setup: &LocalSetup)
        ensures
            final(self)@ == old(self)@.with_setup(setup@),
    {
        self.set_active_slots(setup.active_slots());
        self.teams = setup.slot_teams();
    }

    pub fn set_active_slots(&mut self, active_slots: [bool; FIGHTER_COUNT])
        ensures
            final(self)@ == (MatchModel {
                active_slots: active_slots@,
                active_fighter_count: flags_set(active_slots@) as usize,
                ..old(self)@
            }),
    {
        self.active_slots = active_slots;
        self.active_fighter_count = active_slot_count(active_slots);
    }

    pub fn fighter_active(&self, fighter_id: usize) -> (active: bool)
        ensures
            active == self@.active(fighter_id as int),
    {
        fighter_id < FIGHTER_COUNT && self.active_slots[fighter_id]
    }

    pub fn fighter_can_participate(&self, fighter_id: usize) -> (able: bool)
        ensures
            able == self@.can_participate(fighter_id as int),
    {
        self.fighter_active(fighter_id) && !(self.rules.uses_stocks() && self.stocks[fighter_id]
            <= 0)
    }

    pub fn combat_owner_active(&self, owner_id: usize) -> (active: bool)
        ensures
            active == self@.owner_active(owner_id as int),
    {
        owner_id >= FIGHTER_COUNT || self.fighter_can_participate(owner_id)
    }

    pub fn fighter_team(&self, fighter_id: usize) -> (team: Option<TeamId>)
        ensures
            team == (if fighter_id < FIGHTER_COUNT {
                Some(self@.teams[fighter_id as int])
            } else {
                None
            }),
    {
        if fighter_id < FIGHTER_COUNT {
            Some(self.teams[fighter_id])
        } else {
            None
        }
    }

    pub fn fighters_share_team(&self, first_id: usize, second_id: usize) -> (shared: bool)
        ensures
            shared == self@.share_team(first_id as int, second_id as int),
    {
        match (self.fighter_team(first_id), self.fighter_team(second_id)) {
            (Some(first), Some(second)) => first == second,
            _ => false,
        }
    }

    pub fn combat_target_allowed_for_state(
        &self,
        attacker_id: usize,
        target_id: usize,
    ) -> (allowed: bool)
        ensures
            allowed == self@.target_allowed(attacker_id as int, target_id as int),
    {
        if !self.combat_owner_active(attacker_id) || !self.fighter_can_participate(target_id) {
            return false;
        }
        if attacker_id >= FIGHTER_COUNT {
            return true;
        }
        if !self.rules.team_scoring || self.rules.friendly_fire {
            return true;
        }
        attacker_id != target_id && !self.fighters_share_team(attacker_id, target_id)
    }

    pub fn ringout_credit_allowed(&self, victim_id: usize, attacker_id: usize) -> (allowed: bool)
        ensures
            allowed == self@.credit_allowed(victim_id as int, attacker_id as int),
    {
        attacker_id < FIGHTER_COUNT && attacker_id != victim_id
            && self.combat_target_allowed_for_state(attacker_id, victim_id)
    }

    pub fn advance_replay_seed(&mut self) -> (seed: u64)
        ensures
            seed == spec_next_replay_seed(old(self).replay_seed),
            final(self)@ == (MatchModel { replay_seed: seed, ..old(self)@ }),
    {
        self.replay_seed = next_replay_seed(self.replay_seed);
        self.replay_seed
    }

    /// Lets `dt` nanoseconds pass. The time-up pause lasts `time_up` nanoseconds.
    pub fn advance_phase(&mut self, dt: u64, time_up: u64) -> (event: Option<MatchPhaseEvent>)
        ensures
            (final(self)@, event) == old(self)@.advanced(dt, time_up),
    {
        match self.phase {
            MatchPhase::Fighting => {
                if self.rules.uses_timer() {
                    self.timer = self.timer.saturating_sub(dt);
                    if self.timer == 0 {
                        self.phase = MatchPhase::TimeUp;
                        self.phase_timer = time_up;
                        return Some(MatchPhaseEvent::TimeUp);
                    }
                }
            },
            MatchPhase::TimeUp => {
                self.phase_timer = self.phase_timer.saturating_sub(dt);
                if self.phase_timer == 0 {
                    self.phase = MatchPhase::Results;
                    return Some(MatchPhaseEvent::Results);
                }
            },
            MatchPhase::Setup | MatchPhase::Results | MatchPhase::Resetting => {},
        }
        None
    }

    fn running_count(&self) -> (count: usize)
        ensures
            count == self@.running_count(),
    {
        let mut count: usize = 0;
        let mut seat: usize = 0;
        while seat < FIGHTER_COUNT
            invariant
                seat <= FIGHTER_COUNT,
                count <= seat,
                seat == 0 ==> count == 0,
                seat == 1 ==> count == flag(self@.in_the_running(0)),
                seat == 2 ==> count == flag(self@.in_the_running(0)) + flag(
                    self@.in_the_running(1),
                ),
                seat == 3 ==> count == flag(self@.in_the_running(0)) + flag(
                    self@.in_the_running(1),
                ) + flag(self@.in_the_running(2)),
                seat == 4 ==> count == self@.running_count(),
            decreases FIGHTER_COUNT - seat,
        {
            if self.fighter_active(seat) && self.stocks[seat] > 0 {
                count += 1;
            }
            seat += 1;
        }
        count
    }

    pub fn record_ringout(&mut self, victim_id: usize, attacker_id: Option<usize>) -> (resolution:
        RingoutResolution)
        ensures
            life_loss_recorded(old(self)@, final(self)@, resolution, victim_id, attacker_id),
    {
        self.record_life_loss(victim_id, attacker_id, LifeLossCause::RingOut)
    }

    /// Takes one life from a seat. The cause makes no difference to the result;
    /// a victim that is not a seat loses nothing.
    pub fn record_life_loss(
        &mut self,
        victim_id: usize,
        attacker_id: Option<usize>,
        cause: LifeLossCause,
    ) -> (resolution: RingoutResolution)
        ensures
            life_loss_recorded(old(self)@, final(self)@, resolution, victim_id, attacker_id),
    {
        let ghost before = self@;
        let awarded_to: Option<usize> = match attacker_id {
            Some(attacker) => if self.ringout_credit_allowed(victim_id, attacker) {
                Some(attacker)
            } else {
                None
            },
            None => None,
        };
        let mut remaining_stock: Option<i32> = None;
        let mut eliminated = false;
        let mut match_finished = false;
        if self.rules.uses_stocks() && victim_id < FIGHTER_COUNT {
            let stock: i32 = if self.stocks[victim_id] <= 1 {
                0
            } else {
                self.stocks[victim_id] - 1
            };
            self.stocks[victim_id] = stock;
            remaining_stock = Some(stock);
            eliminated = stock == 0;
            proof {
                let victims = set![victim_id as int];
                assert(victims.contains(victim_id as int));
                assert(self@.stocks =~= Seq::new(
                    before.stocks.len(),
                    |i: int|
                        if victims.contains(i) {
                            stock_after_loss(before.stocks[i])
                        } else {
                            before.stocks[i]
                        },
                ));
            }
            if self.running_count() <= 1 {
                self.phase = MatchPhase::Results;
                self.phase_timer = 0;
                match_finished = true;
            }
        }
        RingoutResolution { awarded_to, remaining_stock, eliminated, match_finished }
    }

    pub fn fighter_eliminated(&self, fighter_id: usize) -> (eliminated: bool)
        ensures
            eliminated == self@.eliminated(fighter_id as int),
    {
        !self.fighter_active(fighter_id) || (self.rules.uses_stocks() && self.stocks[fighter_id]
            <= 0)
    }

    /// The lives of a seat in the match, where the rules count lives.
    pub fn stock_for(&self, fighter_id: usize) -> (stock: Option<i32>)
        ensures
            stock == (if self@.active(fighter_id as int) && self.rules.uses_stocks() {
                Some(self@.stocks[fighter_id as int])
            } else {
                None
            }),
    {
        if !self.fighter_active(fighter_id) {
            return None;
        }
        if self.rules.uses_stocks() {
            Some(self.stocks[fighter_id])
        } else {
            None
        }
    }
}

/// Whether gameplay systems run.
pub fn match_accepts_gameplay(state: &MatchState) -> (accepted: bool)
    ensures
        accepted == (state.phase == MatchPhase::Fighting),
{
    state.is_fighting()
}

/// A single lost life, as the match sees it before and after.
pub open spec fn life_loss_recorded(
    before: MatchModel,
    after: MatchModel,
    resolution: RingoutResolution,
    victim_id: usize,
    attacker_id: Option<usize>,
) -> bool {
    let attacker = match attacker_id {
        Some(attacker) => Some(attacker as int),
        None => None,
    };
    if victim_id < FIGHTER_COUNT {
        &&& after == before.after_losses(set![victim_id as int])
        &&& resolution == before.loss_resolution(after, victim_id as int, attacker)
    } else {
        &&& after == before
        &&& resolution == (RingoutResolution {
            awarded_to: None,
            remaining_stock: None,
            eliminated: false,
            match_finished: false,
        })
    }
}

/// Why a life loss was not taken into a batch.
#[derive(Clone, Copy, Debug, PartialEq, Eq, Structural)]
pub enum LifeLossError {
    AlreadyRecorded { fighter: FighterId },
}

/// One seat's loss in a batch.
#[derive(Clone, Copy, Debug, PartialEq, Eq, Structural)]
pub struct LifeLoss {
    pub attacker: Option<FighterId>,
    pub cause: LifeLossCause,
}

/// Lives lost at the same moment. Credit is decided on the match before any of
/// them, so fighters that eliminate each other are both credited.
#[derive(Clone, Copy, Debug)]
pub struct LifeLossBatch {
    losses: [Option<LifeLoss>; FIGHTER_COUNT],
}

/// What a batch led to, seat by seat.
#[derive(Clone, Copy, Debug)]
pub struct LifeLossBatchResolution {
    pub resolutions: [Option<RingoutResolution>; FIGHTER_COUNT],
    pub result_finalized: bool,
}

impl LifeLossBatchResolution {
    pub open spec fn view(&self) -> Seq<Option<RingoutResolution>> {
        self.resolutions@
    }

    pub fn for_fighter(&self, fighter: FighterId) -> (resolution: Option<RingoutResolution>)
        ensures
            resolution == self@[fighter.spec_index() as int],
    {
        self.resolutions[fighter.index()]
    }
}

/// The seats with a loss.
pub open spec fn batch_victims(losses: Seq<Option<LifeLoss>>) -> Set<int> {
    Set::new(|i: int| 0 <= i < losses.len() && losses[i].is_some())
}

/// The attacker named by a loss, by index.
pub open spec fn loss_attacker(loss: LifeLoss) -> Option<int> {
    match loss.attacker {
        Some(attacker) => Some(attacker.spec_index() as int),
        None => None,
    }
}

/// What a batch leads to, seat by seat.
pub open spec fn batch_resolutions(
    before: MatchModel,
    losses: Seq<Option<LifeLoss>>,
) -> Seq<Option<RingoutResolution>> {
    let after = before.after_losses(batch_victims(losses));
    Seq::new(
        losses.len(),
        |i: int|
            match losses[i] {
                Some(loss) => Some(before.loss_resolution(after, i, loss_attacker(loss))),
                None => None,
            },
    )
}

impl LifeLossBatch {
    /// The losses taken so far, by seat.
    pub closed spec fn view(&self) -> Seq<Option<LifeLoss>> {
        self.losses@
    }

    pub fn new() -> (batch: LifeLossBatch)
        ensures
            batch@ == Seq::new(FIGHTER_COUNT as nat, |i: int| None::<LifeLoss>),
    {
        let batch = LifeLossBatch { losses: [None, None, None, None] };
        proof {
            assert(batch@ =~= Seq::new(FIGHTER_COUNT as nat, |i: int| None::<LifeLoss>));
        }
        batch
    }

    /// Takes one loss; a second one of the same seat is refused.
    pub fn push(
        &mut self,
        fighter: FighterId,
        attacker: Option<FighterId>,
        cause: LifeLossCause,
    ) -> (result: Result<(), LifeLossError>)
        ensures
            result == (if old(self)@[fighter.spec_index() as int].is_none() {
                Ok::<(), LifeLossError>(())
            } else {
                Err((LifeLossError::AlreadyRecorded { fighter }))
            }),
            final(self)@ == (if result.is_ok() {
                old(self)@.update(fighter.spec_index() as int, Some(LifeLoss { attacker, cause }))
            } else {
                old(self)@
            }),
    {
        let index: usize = fighter.index();
        if self.losses[index].is_some() {
            return Err(LifeLossError::AlreadyRecorded { fighter });
        }
        self.losses[index] = Some(LifeLoss { attacker, cause });
        Ok(())
    }

    /// Takes all lives of the batch at once.
    pub fn commit(self, state: &mut MatchState) -> (resolution: LifeLossBatchResolution)
        ensures
            final(state)@ == old(state)@.after_losses(batch_victims(self@)),
            resolution@ == batch_resolutions(old(state)@, self@),
            resolution.result_finalized == (old(state).rules.uses_stocks() && !batch_victims(
                self@,
            ).is_empty() && final(state)@.running_count() <= 1),
    {
        let ghost before = state@;
        let ghost victims = batch_victims(self@);
        let initial: MatchState = *state;
        let stocked = initial.rules.uses_stocks();
        let any = self.losses[0].is_some() || self.losses[1].is_some() || self.losses[2].is_some()
            || self.losses[3].is_some();
        proof {
            assert(any ==> exists|i: int| victims.contains(i)) by {
                if any {
                    assert(victims.contains(0) || victims.contains(1) || victims.contains(2)
                        || victims.contains(3));
                }
            }
            assert(any == !victims.is_empty()) by {
                if !victims.is_empty() {
                    let i = victims.choose();
                    assert(victims.contains(i));
                }
            }
        }
        if stocked {
            let mut seat: usize = 0;
            while seat < FIGHTER_COUNT
                invariant
                    seat <= FIGHTER_COUNT,
                    before == initial@,
                    victims == batch_victims(self@),
                    state@ == (MatchModel { stocks: state@.stocks, ..before }),
                    state@.stocks.len() == FIGHTER_COUNT,
                    forall|i: int|
                        0 <= i < FIGHTER_COUNT ==> (#[trigger] state@.stocks[i]) == (if i < seat
                            && victims.contains(i) {
                            stock_after_loss(before.stocks[i])
                        } else {
                            before.stocks[i]
                        }),
                decreases FIGHTER_COUNT - seat,
            {
                if self.losses[seat].is_some() {
                    let stock: i32 = state.stocks[seat];
                    state.stocks[seat] = if stock <= 1 {
                        0
                    } else {
                        stock - 1
                    };
                }
                seat += 1;
            }
            proof {
                let expected = Seq::new(
                    before.stocks.len(),
                    |i: int|
                        if victims.contains(i) {
                            stock_after_loss(before.stocks[i])
                        } else {
                            before.stocks[i]
                        },
                );
                assert(state@.stocks =~= expected);
                if !any {
                    assert(state@.stocks =~= before.stocks);
                }
            }
        }
        let finished = stocked && any && state.running_count() <= 1;
        if finished {
            state.phase = MatchPhase::Results;
            state.phase_timer = 0;
        }
        let after: MatchState = *state;
        proof {
            assert(after@ == before.after_losses(victims));
        }
        let resolutions = [
            resolve_loss(&initial, &after, 0, self.losses[0]),
            resolve_loss(&initial, &after, 1, self.losses[1]),
            resolve_loss(&initial, &after, 2, self.losses[2]),
            resolve_loss(&initial, &after, 3, self.losses[3]),
        ];
        proof {
            assert(resolutions@ =~= batch_resolutions(before, self@));
        }
        LifeLossBatchResolution { resolutions, result_finalized: finished }
    }
}

fn resolve_loss(
    initial: &MatchState,
    after: &MatchState,
    victim: usize,
    loss: Option<LifeLoss>,
) -> (resolution: Option<RingoutResolution>)
    requires
        victim < FIGHTER_COUNT,
    ensures
        resolution == (match loss {
            Some(loss) => Some(
                initial@.loss_resolution(after@, victim as int, loss_attacker(loss)),
            ),
            None => None,
        }),
{
    match loss {
        Some(loss) => {
            let awarded_to: Option<usize> = match loss.attacker {
                Some(attacker) => if initial.ringout_credit_allowed(victim, attacker.index()) {
                    Some(attacker.index())
                } else {
                    None
                },
                None => None,
            };
            let stocked = initial.rules.uses_stocks();
            let stock: i32 = after.stocks[victim];
            Some(
                RingoutResolution {
                    awarded_to,
                    remaining_stock: if stocked {
                        Some(stock)
                    } else {
                        None
                    },
                    eliminated: stocked && stock == 0,
                    match_finished: stocked && after.running_count() <= 1,
                },
            )
        },
        None => None,
    }
}

/// Lives are never negative after a loss, never grow by one, and only the
/// victims' change.
pub proof fn losses_only_take_from_victims(before: MatchModel, victims: Set<int>, seat: int)
    requires
        0 <= seat < before.stocks.len(),
        before.stocks[seat] >= 0,
    ensures
        0 <= before.after_losses(victims).stocks[seat] <= before.stocks[seat],
        !victims.contains(seat) ==> before.after_losses(victims).stocks[seat]
            == before.stocks[seat],
        victims.contains(seat) && before.rules.uses_stocks() && before.stocks[seat] > 0
            ==> before.after_losses(victims).stocks[seat] == before.stocks[seat] - 1,
        before.after_losses(victims).active_slots == before.active_slots,
        before.after_losses(victims).teams == before.teams,
{
}

/// A match is decided by losses exactly when at most one seat stays in the
/// running; a closed seat never counts, however many lives it has.
pub proof fn losses_decide_the_match(before: MatchModel, victims: Set<int>)
    requires
        before.rules.uses_stocks(),
        !victims.is_empty(),
    ensures
        before.after_losses(victims).running_count() <= 1 ==> before.after_losses(victims).phase
            == MatchPhase::Results,
        before.after_losses(victims).running_count() > 1 ==> before.after_losses(victims).phase
            == before.phase,
        forall|seat: int|
            !before.active(seat) ==> !(#[trigger] before.after_losses(victims).in_the_running(
                seat,
            )),
{
}

/// Two fighters who take each other's last life are both credited and the match
/// ends without anybody in the running, when nobody else is.
pub proof fn mutual_final_losses_draw(before: MatchModel, first: int, second: int)
    requires
        0 <= first < FIGHTER_COUNT,
        0 <= second < FIGHTER_COUNT,
        first != second,
        before.stocks.len() == FIGHTER_COUNT,
        before.rules.uses_stocks(),
        before.stocks[first] == 1,
        before.stocks[second] == 1,
        before.target_allowed(first, second),
        before.target_allowed(second, first),
        forall|seat: int| #[trigger]
            before.in_the_running(seat) ==> seat == first || seat == second,
    ensures
        ({
            let after = before.after_losses(set![first, second]);
            &&& after.phase == MatchPhase::Results
            &&& after.running_count() == 0
            &&& before.loss_resolution(after, first, Some(second)).awarded_to == Some(
                second as usize,
            )
            &&& before.loss_resolution(after, second, Some(first)).awarded_to == Some(
                first as usize,
            )
        }),
{
    let victims = set![first, second];
    assert(victims.contains(first));
    assert(!victims.is_empty());
    let after = before.after_losses(victims);
    assert forall|seat: int| !(#[trigger] after.in_the_running(seat)) by {
        if after.in_the_running(seat) {
            assert(before.in_the_running(seat));
        }
    }
}

/// A batch of one is a single recorded loss.
pub proof fn single_batch_is_one_loss(
    before: MatchModel,
    fighter: FighterId,
    attacker: Option<FighterId>,
    cause: LifeLossCause,
)
    ensures
        ({
            let losses = Seq::new(FIGHTER_COUNT as nat, |i: int| None::<LifeLoss>).update(
                fighter.spec_index() as int,
                Some(LifeLoss { attacker, cause }),
            );
            let index = fighter.spec_index() as int;
            &&& batch_victims(losses) == set![index]
            &&& life_loss_recorded(
                before,
                before.after_losses(batch_victims(losses)),
                batch_resolutions(before, losses)[index].unwrap(),
                fighter.spec_index(),
                match attacker {
                    Some(attacker) => Some(attacker.spec_index()),
                    None => None,
                },
            )
        }),
{
    let losses = Seq::new(FIGHTER_COUNT as nat, |i: int| None::<LifeLoss>).update(
        fighter.spec_index() as int,
        Some(LifeLoss { attacker, cause }),
    );
    assert(batch_victims(losses) =~= set![fighter.spec_index() as int]);
}

/// Nobody is ever credited with their own lost life, nor with that of a teammate
/// while friendly fire is off in team rules.
pub proof fn credit_needs_an_opponent(state: MatchModel, victim: int, attacker: int)
    requires
        state.credit_allowed(victim, attacker),
    ensures
        attacker != victim,
        state.active(victim),
        0 <= attacker < FIGHTER_COUNT ==> state.active(attacker),
        state.rules.team_scoring && !state.rules.friendly_fire && 0 <= attacker
            ==> !state.share_team(attacker, victim),
{
}

/// A timed fight runs its clock down to nothing before time is up, and the pause
/// after it leads to the results.
pub proof fn clock_reaches_results(state: MatchModel, dt: u64, time_up: u64)
    requires
        state.phase == MatchPhase::Fighting,
        state.rules.uses_timer(),
        dt >= state.timer,
    ensures
        state.advanced(dt, time_up).1 == Some(MatchPhaseEvent::TimeUp),
        state.advanced(dt, time_up).0.phase == MatchPhase::TimeUp,
        state.advanced(dt, time_up).0.advanced(time_up, time_up).1 == Some(
            MatchPhaseEvent::Results,
        ),
        state.advanced(dt, time_up).0.advanced(time_up, time_up).0.phase == MatchPhase::Results,
{
}

} // verus!

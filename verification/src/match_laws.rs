//! Who may hit whom, how a match starts and runs down, who is locked in an ultimate,
//! and who sits where.

use vstd::prelude::*;

use crate::action::FighterAction;
use crate::fighter::FighterTuning;
use crate::fixed::pair_leader;
use crate::ids::FighterId;
use crate::lifecycle_laws::{has_lives, one_if};
use crate::loadout::{
    CharacterKind, LocalInputAssignment, ParticipantKind, SlotSetup, TeamId,
    spec_default_slot_team, spec_default_teammates,
};
use crate::match_state::{MatchModel, MatchPhase, MatchPhaseEvent};
use crate::scalar::SimVec3;
use crate::schedule::{CanonicalSystem, ScheduledSystem, scheduled_at, system_place};
use crate::setup::{
    LocalSetup, SetupModel, bot_seats, closed_seat, duel_slots, first_occupied_seat,
    next_occupied_seat, selected_seat, spec_next_replay_seed,
};
use crate::spawn::{StartFacing, configured_spawn};
use crate::technique::TechniqueId;
use crate::ticks::ticks_cover_exactly;
use crate::ultimate::{
    LockMotion, UltimateLockSnapshot, lock_holds, lock_motion, lock_pair, lock_pairs,
    lock_snapshot_of, lock_stale, rush_target, target_stale,
};

verus! {

/// The match has its four seats.
pub open spec fn seated(state: MatchModel) -> bool {
    state.stocks.len() == 4 && state.active_slots.len() == 4 && state.teams.len() == 4
}

/// Team rules without friendly fire keep the two from harming each other.
pub open spec fn spared(state: MatchModel, attacker: int, target: int) -> bool {
    state.rules.team_scoring && !state.rules.friendly_fire && state.teams[attacker]
        == state.teams[target]
}

/// A hit of one seat on another lands when both still have lives and no team spares
/// them; without team rules, or with friendly fire, even on oneself. What is not a
/// fighter hits everybody that still has lives. Credit for a fall goes to another
/// seat only, where a hit would land.
pub proof fn hits_land_on_whom_they_may(state: MatchModel, attacker: int, target: int)
    requires
        seated(state),
        0 <= attacker,
        0 <= target < 4,
    ensures
        attacker < 4 ==> (state.target_allowed(attacker, target) <==> has_lives(state, attacker)
            && has_lives(state, target) && !spared(state, attacker, target)),
        attacker >= 4 ==> (state.target_allowed(attacker, target) <==> has_lives(state, target)),
        attacker < 4 ==> (state.credit_allowed(target, attacker) <==> attacker != target
            && has_lives(state, attacker) && has_lives(state, target) && !spared(
            state,
            attacker,
            target,
        )),
        attacker >= 4 ==> !state.credit_allowed(target, attacker),
        state.owner_active(attacker) <==> attacker >= 4 || has_lives(state, attacker),
        state.eliminated(target) <==> !has_lives(state, target),
{
}

/// Whether a hit lands does not depend on who of the two strikes.
pub proof fn hits_go_both_ways(state: MatchModel, first: int, second: int)
    requires
        seated(state),
        0 <= first < 4,
        0 <= second < 4,
    ensures
        state.target_allowed(first, second) == state.target_allowed(second, first),
        state.credit_allowed(first, second) == state.credit_allowed(second, first),
{
}

/// A match starts fighting, with the rules' lives for every seat and the rules' time,
/// or none, and with nothing else changed. In the setup the clock is wound up, too, but
/// the lives stay. A rematch is only asked for.
pub proof fn matches_start_afresh(state: MatchModel, seat: int)
    requires
        0 <= seat < 4,
    ensures
        ({
            let after = state.restarted();
            &&& after.phase == MatchPhase::Fighting
            &&& after.phase_timer == 0
            &&& !after.reset_requested
            &&& after.stocks.len() == 4
            &&& state.rules.starting_stocks matches Some(lives) ==> after.stocks[seat] == lives
            &&& state.rules.starting_stocks.is_none() ==> after.stocks[seat] == 0
            &&& state.rules.time_limit matches Some(limit) ==> after.timer == limit
            &&& state.rules.time_limit.is_none() ==> after.timer == 0
            &&& after.rules == state.rules
            &&& after.active_slots == state.active_slots
            &&& after.teams == state.teams
            &&& after.replay_seed == state.replay_seed
            &&& after.arena_index == state.arena_index
        }),
        ({
            let after = state.in_setup();
            &&& after.phase == MatchPhase::Setup
            &&& after.phase_timer == 0
            &&& !after.reset_requested
            &&& after.timer == state.restarted().timer
            &&& after.stocks == state.stocks
            &&& after.rules == state.rules
            &&& after.active_slots == state.active_slots
        }),
        ({
            let after = state.rematch_requested();
            &&& after.phase == MatchPhase::Resetting
            &&& after.phase_timer == 0
            &&& after.reset_requested
            &&& after.stocks == state.stocks
            &&& after.timer == state.timer
        }),
{
}

/// A match takes its seats and teams from the setup: every seat that is not closed
/// plays, and the players are counted.
pub proof fn matches_take_the_seats(state: MatchModel, setup: SetupModel, seat: int)
    requires
        0 <= seat < 4,
        setup.slots.len() == 4,
    ensures
        ({
            let after = state.with_setup(setup);
            &&& after.active_slots.len() == 4
            &&& after.active_slots[seat] <==> setup.slots[seat].participant
                != ParticipantKind::Closed
            &&& after.teams[seat] == setup.slots[seat].team
            &&& after.active_fighter_count == one_if(
                setup.slots[0].participant != ParticipantKind::Closed,
            ) + one_if(setup.slots[1].participant != ParticipantKind::Closed) + one_if(
                setup.slots[2].participant != ParticipantKind::Closed,
            ) + one_if(setup.slots[3].participant != ParticipantKind::Closed)
            &&& after.stocks == state.stocks
            &&& after.phase == state.phase
            &&& after.timer == state.timer
            &&& after.rules == state.rules
        }),
{
}

/// Only a timed fight and the pause behind it run down. The fight ends in the pause
/// when its clock does, and the pause in the results; each is told once.
pub proof fn clocks_run_down(state: MatchModel, dt: u64, pause: u64)
    ensures
        ({
            let (after, event) = state.advanced(dt, pause);
            let timed = state.phase == MatchPhase::Fighting && state.rules.time_limit.is_some();
            let paused = state.phase == MatchPhase::TimeUp;
            &&& event.is_none() ==> after.phase == state.phase
            &&& event == Some(MatchPhaseEvent::TimeUp) <==> timed && state.timer <= dt
            &&& event == Some(MatchPhaseEvent::Results) <==> paused && state.phase_timer <= dt
            &&& event == Some(MatchPhaseEvent::TimeUp) ==> after.phase == MatchPhase::TimeUp
                && after.timer == 0 && after.phase_timer == pause
            &&& event == Some(MatchPhaseEvent::Results) ==> after.phase == MatchPhase::Results
                && after.phase_timer == 0
            &&& timed && event.is_none() ==> after.timer == state.timer - dt
            &&& !timed ==> after.timer == state.timer
            &&& paused && event.is_none() ==> after.phase_timer == state.phase_timer - dt
            &&& !timed && !paused ==> after == state && event.is_none()
            &&& after.stocks == state.stocks
        }),
{
}

/// The fighter's snapshot, with its rush at somebody.
pub open spec fn rushes_at(
    snapshots: Seq<UltimateLockSnapshot>,
    attacker: FighterId,
    victim: FighterId,
) -> bool {
    match lock_snapshot_of(snapshots, attacker.spec_index() as int) {
        Some(above) => above.action == FighterAction::UltimateRush && above.target == Some(victim),
        None => false,
    }
}

/// The rush has not lasted its time: nine tenths of a second, or one and thirty-six
/// hundredths for Pig.
pub open spec fn rush_lasts(snapshots: Seq<UltimateLockSnapshot>, attacker: FighterId) -> bool {
    match lock_snapshot_of(snapshots, attacker.spec_index() as int) {
        Some(above) => if above.technique_id == Some(TechniqueId::PigUltimateRush) {
            above.elapsed.ticks * 1000 < 1360 * 60
        } else {
            above.elapsed.ticks * 1000 < 900 * 60
        },
        None => false,
    }
}

/// The victim is held by this attacker.
pub open spec fn suffers(
    snapshots: Seq<UltimateLockSnapshot>,
    victim: FighterId,
    attacker: FighterId,
) -> bool {
    match lock_snapshot_of(snapshots, victim.spec_index() as int) {
        Some(below) => below.action == FighterAction::UltimateVictim && below.owner == Some(
            attacker,
        ),
        None => false,
    }
}

/// A lock holds while the attacker rushes at the victim, the victim suffers this very
/// attacker, and the rush lasts.
pub open spec fn locked(
    snapshots: Seq<UltimateLockSnapshot>,
    attacker: FighterId,
    victim: FighterId,
) -> bool {
    rushes_at(snapshots, attacker, victim) && suffers(snapshots, victim, attacker) && rush_lasts(
        snapshots,
        attacker,
    )
}

proof fn lemma_locked(
    snapshots: Seq<UltimateLockSnapshot>,
    attacker: FighterId,
    victim: FighterId,
)
    ensures
        lock_holds(snapshots, attacker, victim) <==> locked(snapshots, attacker, victim),
        rush_target(snapshots, attacker) == Some(victim) <==> rushes_at(
            snapshots,
            attacker,
            victim,
        ),
{
    ticks_cover_exactly(900);
    ticks_cover_exactly(1360);
}

/// The pairs of a tick are those whose lock holds, and no others.
pub proof fn locks_hold_both_sides(
    snapshots: Seq<UltimateLockSnapshot>,
    attacker: FighterId,
    victim: FighterId,
)
    ensures
        lock_pairs(snapshots).contains((attacker.spec_index(), victim.spec_index())) <==> locked(
            snapshots,
            attacker,
            victim,
        ),
{
    let all = lock_pairs(snapshots);
    let pair = (attacker.spec_index(), victim.spec_index());
    let zero = lock_pair(snapshots, FighterId::Zero);
    let one = lock_pair(snapshots, FighterId::One);
    let two = lock_pair(snapshots, FighterId::Two);
    let three = lock_pair(snapshots, FighterId::Three);
    lemma_locked(snapshots, attacker, victim);
    if locked(snapshots, attacker, victim) {
        let place = match attacker {
            FighterId::Zero => 0,
            FighterId::One => zero.len() as int,
            FighterId::Two => (zero.len() + one.len()) as int,
            FighterId::Three => (zero.len() + one.len() + two.len()) as int,
        };
        assert(lock_pair(snapshots, attacker)[0] == pair);
        assert(all[place] == pair);
    }
    if all.contains(pair) {
        let i = all.index_of(pair);
        assert(all[i] == pair);
        let (part, place) = if i < zero.len() {
            (zero, i)
        } else if i < zero.len() + one.len() {
            (one, i - zero.len())
        } else if i < zero.len() + one.len() + two.len() {
            (two, i - zero.len() - one.len())
        } else {
            (three, i - zero.len() - one.len() - two.len())
        };
        assert(part[place] == pair);
    }
}

/// A lock is forgotten for exactly those whom a broken one concerns: who rushes at
/// somebody without a lock, whom such a rush goes for, and who suffers nobody that
/// rushes at it.
pub proof fn broken_locks_are_forgotten(snapshots: Seq<UltimateLockSnapshot>, fighter: FighterId)
    ensures
        ({
            let present = lock_snapshot_of(snapshots, fighter.spec_index() as int);
            let rushes_in_vain = exists|victim: FighterId| #[trigger]
                rushes_at(snapshots, fighter, victim) && !locked(snapshots, fighter, victim);
            let gone_for_in_vain = present.is_some() && exists|attacker: FighterId| #[trigger]
                rushes_at(snapshots, attacker, fighter) && !locked(snapshots, attacker, fighter);
            let suffers_nobody = present.is_some() && present.unwrap().action
                == FighterAction::UltimateVictim && (match present.unwrap().owner {
                Some(owner) => !rushes_at(snapshots, owner, fighter),
                None => true,
            });
            lock_stale(snapshots, fighter) <==> rushes_in_vain || gone_for_in_vain
                || suffers_nobody
        }),
{
    assert forall|attacker: FighterId, victim: FighterId| #[trigger]
        rushes_at(snapshots, attacker, victim) implies rush_target(snapshots, attacker) == Some(
        victim,
    ) && lock_holds(snapshots, attacker, victim) == locked(snapshots, attacker, victim) by {
        lemma_locked(snapshots, attacker, victim);
    }
    assert forall|attacker: FighterId, victim: FighterId|
        rush_target(snapshots, attacker) == Some(victim) implies #[trigger] rushes_at(
        snapshots,
        attacker,
        victim,
    ) by {
        lemma_locked(snapshots, attacker, victim);
    }
    match rush_target(snapshots, fighter) {
        Some(victim) => {
            assert(rushes_at(snapshots, fighter, victim));
        },
        None => {},
    }
    if target_stale(snapshots, fighter) {
        let attacker = choose|attacker: FighterId| #[trigger]
            rush_target(snapshots, attacker) == Some(fighter) && !lock_holds(
                snapshots,
                attacker,
                fighter,
            );
        assert(rushes_at(snapshots, attacker, fighter));
    }
}

/// Who comes first in a pair is moved as an attacker, whatever else it is in; who only
/// comes second, as the victim of one that it is paired with; and everybody else is
/// free.
pub proof fn locks_move_who_is_in_them(pairs: Seq<(usize, usize)>, fighter: FighterId)
    ensures
        ({
            let attacks = exists|i: int|
                0 <= i < pairs.len() && (#[trigger] pairs[i]).0 == fighter.spec_index();
            let held = exists|i: int|
                0 <= i < pairs.len() && (#[trigger] pairs[i]).1 == fighter.spec_index();
            let motion = lock_motion(pairs, fighter);
            &&& motion == LockMotion::Attacker <==> attacks
            &&& motion == LockMotion::Free <==> !attacks && !held
            &&& motion matches LockMotion::Victim { attacker } ==> pairs.contains(
                (attacker, fighter.spec_index()),
            )
        }),
{
    lemma_leader(pairs, fighter.spec_index());
}

proof fn lemma_leader(pairs: Seq<(usize, usize)>, number: usize)
    ensures
        pair_leader(pairs, number).is_some() <==> exists|i: int|
            0 <= i < pairs.len() && (#[trigger] pairs[i]).1 == number,
        pair_leader(pairs, number) matches Some(leader) ==> pairs.contains((leader, number)),
    decreases pairs.len(),
{
    if pairs.len() > 0 {
        let rest = pairs.drop_first();
        lemma_leader(rest, number);
        if pairs[0].1 == number {
            assert(pairs[0] == (pairs[0].0, number));
        } else {
            if rest.contains((pair_leader(rest, number).unwrap(), number)) {
                let i = rest.index_of((pair_leader(rest, number).unwrap(), number));
                assert(pairs[i + 1] == rest[i]);
            }
            assert forall|i: int| 0 <= i < pairs.len() && (#[trigger] pairs[i]).1
                == number implies exists|j: int|
                0 <= j < rest.len() && (#[trigger] rest[j]).1 == number by {
                assert(rest[i - 1] == pairs[i]);
            }
            if exists|j: int| 0 <= j < rest.len() && (#[trigger] rest[j]).1 == number {
                let j = choose|j: int| 0 <= j < rest.len() && (#[trigger] rest[j]).1 == number;
                assert(pairs[j + 1] == rest[j]);
            }
        }
    }
}

/// A fighter starts as its seat says: at its spawn point, rested, the even seats facing
/// one way and the odd ones the other, under its own seat's control. In a closed seat
/// it is out of the arena for good.
pub proof fn fighters_start_as_their_seat_says(
    setup: &LocalSetup,
    fighter: FighterId,
    spawn: SimVec3,
    tuning: FighterTuning,
)
    ensures
        ({
            let start = configured_spawn(setup, fighter, spawn, tuning);
            let seat = setup@.slots[fighter.spec_index() as int];
            let plays = seat.participant != ParticipantKind::Closed;
            &&& start.fighter == fighter
            &&& start.spawn == spawn
            &&& start.facing == StartFacing::Positive <==> fighter == FighterId::Zero || fighter
                == FighterId::Two
            &&& start.character == seat.character
            &&& start.style == seat.style
            &&& start.equipment == seat.equipment
            &&& start.controller.slot == fighter
            &&& start.controller.participant == seat.participant
            &&& start.controller.input == seat.input
            &&& start.active == plays
            &&& start.stats.health == tuning.max_health
            &&& start.stats.stamina == tuning.max_stamina
            &&& start.stats.score == 0
            &&& start.stats.last_attacker.is_none()
            &&& start.stats.invulnerability.remaining == 0
            &&& start.stats.element_carry.is_none()
            &&& plays ==> start.action.action == FighterAction::Idle
                && start.stats.respawn_timer.remaining == 0
            &&& !plays ==> start.action.action == FighterAction::RingOut
                && start.stats.respawn_timer.remaining == u32::MAX
            &&& start.action.elapsed.ticks == 0
            &&& start.action.technique_id.is_none()
        }),
{
}

/// The character selection is on the chosen seat, or on the first one that is taken
/// where that is closed, or on the first of all at an empty table.
pub proof fn selection_falls_back_to_the_first(setup: SetupModel, seat: int)
    requires
        setup.slots.len() == 4,
        setup.selected_character_fighter < 4,
        0 <= seat < 4,
    ensures
        ({
            let chosen = setup.selected_character_fighter as int;
            let selected = selected_seat(setup);
            let taken = |i: int| setup.slots[i].participant != ParticipantKind::Closed;
            &&& taken(chosen) ==> selected == chosen
            &&& !taken(chosen) && taken(seat) ==> taken(selected) && selected <= seat
            &&& !taken(0) && !taken(1) && !taken(2) && !taken(3) ==> selected == 0
        }),
{
    reveal_with_fuel(first_occupied_seat, 5);
}

/// The selection goes on to the nearest taken seat behind it, round the table: every
/// seat that it passes over is closed.
pub proof fn selection_goes_round(slots: Seq<SlotSetup>, start: int, passed: int)
    requires
        slots.len() == 4,
        0 <= start < 4,
        1 <= passed <= 4,
        slots[(start + passed) % 4].participant != ParticipantKind::Closed,
    ensures
        ({
            let next = next_occupied_seat(slots, start, 1);
            &&& 0 <= next < 4
            &&& slots[next].participant != ParticipantKind::Closed
            &&& exists|steps: int|
                1 <= steps <= passed && #[trigger] ((start + steps) % 4) == next
        }),
{
    reveal_with_fuel(next_occupied_seat, 6);
    assert((start + 1) % 4 == (start + 1) % 4);
    let next = next_occupied_seat(slots, start, 1);
    assert((start + 1) % 4 == next || (start + 2) % 4 == next || (start + 3) % 4 == next || (start
        + 4) % 4 == next);
}

/// Every seat with a bot counts once.
pub proof fn bots_are_counted(slots: Seq<SlotSetup>)
    requires
        slots.len() == 4,
    ensures
        bot_seats(slots) == one_if(slots[0].participant == ParticipantKind::Bot) + one_if(
            slots[1].participant == ParticipantKind::Bot,
        ) + one_if(slots[2].participant == ParticipantKind::Bot) + one_if(
            slots[3].participant == ParticipantKind::Bot,
        ),
{
    reveal_with_fuel(bot_seats, 5);
}

/// A duel is played by a human on the first keys and whoever is in the second seat,
/// with the characters asked for. Everybody keeps style, equipment and team, and the
/// other seats are closed, without keys.
pub proof fn duels_are_set_up(
    slots: Seq<SlotSetup>,
    first: CharacterKind,
    second: CharacterKind,
    opponent: ParticipantKind,
    keys: LocalInputAssignment,
    seat: int,
)
    requires
        slots.len() == 4,
        0 <= seat < 4,
    ensures
        ({
            let duel = duel_slots(slots, first, second, opponent, keys);
            &&& duel.len() == 4
            &&& duel[0].participant == ParticipantKind::Human
            &&& duel[0].input == LocalInputAssignment::Keyboard(0)
            &&& duel[0].character == first
            &&& duel[1].participant == opponent
            &&& duel[1].input == keys
            &&& duel[1].character == second
            &&& seat >= 2 ==> duel[seat].participant == ParticipantKind::Closed
                && duel[seat].input == LocalInputAssignment::Unassigned && duel[seat].character
                == slots[seat].character
            &&& duel[seat].style == slots[seat].style
            &&& duel[seat].equipment == slots[seat].equipment
            &&& duel[seat].team == slots[seat].team
        }),
        closed_seat(slots[seat]).participant == ParticipantKind::Closed,
        closed_seat(slots[seat]).input == LocalInputAssignment::Unassigned,
        closed_seat(slots[seat]).character == slots[seat].character,
{
}

/// Seats two apart share a team by default, neighbours do not, and the first seat is
/// red.
pub proof fn default_teams_alternate(first: int, second: int)
    requires
        0 <= first < 4,
        0 <= second < 4,
    ensures
        spec_default_teammates(first, second) <==> first == second || first == second + 2 || second
            == first + 2,
        spec_default_slot_team(first) == TeamId::Red <==> first == 0 || first == 2,
{
}

/// The system looks for contacts.
pub open spec fn looks_for_contacts(system: CanonicalSystem) -> bool {
    ||| system == CanonicalSystem::UpdateHitboxes
    ||| system == CanonicalSystem::CollectHitboxContacts
    ||| system == CanonicalSystem::CollectSpecialContacts
    ||| system == CanonicalSystem::CollectBeeSkillContacts
    ||| system == CanonicalSystem::CollectChickSkillContacts
    ||| system == CanonicalSystem::CollectPenguinSkillContacts
    ||| system == CanonicalSystem::UpdateItems
    ||| system == CanonicalSystem::AdvanceMovingItems
    ||| system == CanonicalSystem::AdvanceArenaHazards
    ||| system == CanonicalSystem::UpdateCrankYardMachinery
    ||| system == CanonicalSystem::AdvancePowderKegCannons
}

/// The system lets contacts have their way.
pub open spec fn lets_contacts_act(system: CanonicalSystem) -> bool {
    ||| system == CanonicalSystem::ApplyHitboxOutcomes
    ||| system == CanonicalSystem::ApplyItemOutcomes
    ||| system == CanonicalSystem::ApplyBeeSkillOutcomes
    ||| system == CanonicalSystem::ApplyChickSkillOutcomes
    ||| system == CanonicalSystem::ApplyPenguinSkillOutcomes
    ||| system == CanonicalSystem::ApplySpecialOutcomes
    ||| system == CanonicalSystem::ApplyPowderKegOutcomes
    ||| system == CanonicalSystem::ApplyArenaHazardOutcomes
}

/// The system opens or closes the tick, or runs the match and its input.
pub open spec fn runs_outside_fights(system: CanonicalSystem) -> bool {
    ||| system == CanonicalSystem::AdvanceSimTick
    ||| system == CanonicalSystem::BeginSimEventTick
    ||| system == CanonicalSystem::SyncActiveArena
    ||| system == CanonicalSystem::ReclaimOrphanedEntities
    ||| system == CanonicalSystem::TickHitstop
    ||| system == CanonicalSystem::TickMatchTimer
    ||| system == CanonicalSystem::UpdateDrunkStatus
    ||| system == CanonicalSystem::ApplyDrunkInputModifier
    ||| system == CanonicalSystem::CanonicalizeState
    ||| system == CanonicalSystem::CommitSimEventTick
}

/// In a tick fighters act, then move, then are kept apart. Then contacts are looked
/// for, resolved all at once, and have their way, and only then does anybody fall. All
/// of that happens in fights only; the rest of the tick lies before and after it.
pub proof fn contacts_are_resolved_before_falls(entry: ScheduledSystem, place: int)
    requires
        scheduled_at(entry, place),
    ensures
        looks_for_contacts(entry.system) ==> system_place(
            CanonicalSystem::BeginContactCollection,
        ) < place < system_place(CanonicalSystem::ResolveContacts),
        lets_contacts_act(entry.system) ==> system_place(CanonicalSystem::ResolveContacts) < place
            < system_place(CanonicalSystem::RingoutAndRespawn),
        system_place(CanonicalSystem::UpdateFighterState) < system_place(
            CanonicalSystem::UpdateGrabHolds,
        ) < system_place(CanonicalSystem::UpdateUltimateLocks) < system_place(
            CanonicalSystem::SpawnAttackHitboxes,
        ) < system_place(CanonicalSystem::ApplyFighterMovement) < system_place(
            CanonicalSystem::SeparateFighters,
        ) < system_place(CanonicalSystem::BeginContactCollection),
        entry.only_in_fights <==> !runs_outside_fights(entry.system),
        runs_outside_fights(entry.system) <==> place < system_place(CanonicalSystem::ApplyAimAssist)
            || place > system_place(CanonicalSystem::RingoutAndRespawn),
{
}

/// Replay seeds follow one another by a fixed stride: neighbours lead to seeds that lie
/// so far apart, round the range of the numbers.
pub proof fn seeds_keep_their_stride(seed: u64)
    requires
        seed < u64::MAX,
    ensures
        ({
            let here = spec_next_replay_seed(seed) as int;
            let there = spec_next_replay_seed((seed + 1) as u64) as int;
            there == here + 1_664_525 || there == here + 1_664_525 - 0x1_0000_0000_0000_0000
        }),
        spec_next_replay_seed(0) == 1_013_904_223,
{
    let range = 0x1_0000_0000_0000_0000int;
    let here = seed * 1_664_525 + 1_013_904_223;
    let there = (seed + 1) * 1_664_525 + 1_013_904_223;
    let rounds = here / range;
    let rest = here % range;
    vstd::arithmetic::div_mod::lemma_fundamental_div_mod(here, range);
    assert(there == here + 1_664_525);
    if rest + 1_664_525 < range {
        vstd::arithmetic::div_mod::lemma_fundamental_div_mod_converse_mod(
            there,
            range,
            rounds,
            rest + 1_664_525,
        );
    } else {
        vstd::arithmetic::div_mod::lemma_fundamental_div_mod_converse_mod(
            there,
            range,
            rounds + 1,
            rest + 1_664_525 - range,
        );
    }
}

} // verus!

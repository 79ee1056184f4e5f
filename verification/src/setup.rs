//! The local match setup: rules, arena and the four seats.

use vstd::prelude::*;

use crate::ids::{FighterId, FIGHTER_COUNT};
use crate::loadout::{
    CharacterKind, Controller, EquipmentKind, FighterStyleKind, LocalInputAssignment,
    ParticipantKind, SeatDefaults, SlotSetup, TeamId, next_character_kind, next_equipment_kind,
    next_style_kind, previous_character_kind,
};
use crate::rules::{MatchRules, RULE_PRESET_COUNT, rule_preset};
use crate::scalar::Scalar;

verus! {

/// The seed with which replays start out.
pub const DEFAULT_REPLAY_SEED: u64 = 0xFFC0_0001;

/// The seed after `seed`: one step of a linear congruential generator.
pub open spec fn spec_next_replay_seed(seed: u64) -> u64 {
    ((seed * 1_664_525 + 1_013_904_223) % 0x1_0000_0000_0000_0000) as u64
}

pub fn next_replay_seed(seed: u64) -> (next: u64)
    ensures
        next == spec_next_replay_seed(seed),
{
    let wide: u128 = seed as u128 * 1_664_525 + 1_013_904_223;
    (wide % 0x1_0000_0000_0000_0000) as u64
}

pub struct LocalSetup {
    pub rule_index: usize,
    pub arena_index: usize,
    pub selected_character_fighter: usize,
    pub slots: [SlotSetup; FIGHTER_COUNT],
    pub replay_seed: u64,
}

/// A setup as a mathematical value.
pub struct SetupModel {
    pub rule_index: usize,
    pub arena_index: usize,
    pub selected_character_fighter: usize,
    pub slots: Seq<SlotSetup>,
    pub replay_seed: u64,
}

impl View for LocalSetup {
    type V = SetupModel;

    open spec fn view(&self) -> SetupModel {
        SetupModel {
            rule_index: self.rule_index,
            arena_index: self.arena_index,
            selected_character_fighter: self.selected_character_fighter,
            slots: self.slots@,
            replay_seed: self.replay_seed,
        }
    }
}

/// Whether somebody sits in a seat; there is nobody beyond the last seat.
pub open spec fn seat_occupied(slots: Seq<SlotSetup>, fighter_id: int) -> bool {
    0 <= fighter_id < slots.len() && slots[fighter_id].participant.is_occupied()
}

/// The first occupied seat from `from` on.
pub open spec fn first_occupied_seat(slots: Seq<SlotSetup>, from: int) -> Option<int>
    decreases slots.len() - from,
{
    if from < 0 || from >= slots.len() {
        None
    } else if seat_occupied(slots, from) {
        Some(from)
    } else {
        first_occupied_seat(slots, from + 1)
    }
}

/// The seat whose character is being chosen: the selected one while it is
/// occupied, else the first occupied one, else the first.
pub open spec fn selected_seat(setup: SetupModel) -> int {
    let selected = if setup.selected_character_fighter < FIGHTER_COUNT {
        setup.selected_character_fighter as int
    } else {
        FIGHTER_COUNT - 1
    };
    if seat_occupied(setup.slots, selected) {
        selected
    } else {
        match first_occupied_seat(setup.slots, 0) {
            Some(seat) => seat,
            None => 0,
        }
    }
}

/// The occupied seat met first when walking the table round from `offset` seats
/// behind `start`; the first seat where none is met.
pub open spec fn next_occupied_seat(slots: Seq<SlotSetup>, start: int, offset: int) -> int
    decreases FIGHTER_COUNT + 1 - offset,
{
    if offset > FIGHTER_COUNT {
        0
    } else if seat_occupied(slots, (start + offset) % (FIGHTER_COUNT as int)) {
        (start + offset) % (FIGHTER_COUNT as int)
    } else {
        next_occupied_seat(slots, start, offset + 1)
    }
}

/// `setup` with one seat changed; a seat that is not there changes nothing.
pub open spec fn with_seat(setup: SetupModel, fighter_id: int, slot: SlotSetup) -> SetupModel {
    if 0 <= fighter_id < setup.slots.len() {
        SetupModel { slots: setup.slots.update(fighter_id, slot), ..setup }
    } else {
        setup
    }
}

/// How many seats are taken by bots.
pub open spec fn bot_seats(slots: Seq<SlotSetup>) -> nat
    decreases slots.len(),
{
    if slots.len() == 0 {
        0
    } else {
        bot_seats(slots.drop_last()) + (if slots.last().participant == ParticipantKind::Bot {
            1nat
        } else {
            0nat
        })
    }
}

/// A seat that nobody sits in; its loadout stays.
pub open spec fn closed_seat(slot: SlotSetup) -> SlotSetup {
    SlotSetup {
        participant: ParticipantKind::Closed,
        input: LocalInputAssignment::Unassigned,
        ..slot
    }
}

/// A duel: a keyboard player against the given second seat, all others closed.
pub open spec fn duel_slots(
    slots: Seq<SlotSetup>,
    p1_character: CharacterKind,
    p2_character: CharacterKind,
    second_participant: ParticipantKind,
    second_input: LocalInputAssignment,
) -> Seq<SlotSetup> {
    Seq::new(
        slots.len(),
        |i: int|
            if i == 0 {
                SlotSetup {
                    participant: ParticipantKind::Human,
                    input: LocalInputAssignment::Keyboard(0),
                    character: p1_character,
                    ..slots[i]
                }
            } else if i == 1 {
                SlotSetup {
                    participant: second_participant,
                    input: second_input,
                    character: p2_character,
                    ..slots[i]
                }
            } else {
                closed_seat(slots[i])
            },
    )
}

impl LocalSetup {
    /// A keyboard player in the first seat, a bot in the second, the rest closed.
    pub fn from_defaults(defaults: [SeatDefaults; FIGHTER_COUNT]) -> (setup: LocalSetup)
        ensures
            setup.rule_index == 0,
            setup.arena_index == 0,
            setup.selected_character_fighter == 0,
            setup.replay_seed == DEFAULT_REPLAY_SEED,
            setup@.slots == Seq::new(
                FIGHTER_COUNT as nat,
                |i: int|
                    SlotSetup::spec_default_for(
                        i,
                        defaults@[i],
                        if i == 0 {
                            ParticipantKind::Human
                        } else if i == 1 {
                            ParticipantKind::Bot
                        } else {
                            ParticipantKind::Closed
                        },
                        if i == 0 {
                            LocalInputAssignment::Keyboard(0)
                        } else {
                            LocalInputAssignment::Unassigned
                        },
                    ),
            ),
    {
        let setup = LocalSetup {
            rule_index: 0,
            arena_index: 0,
            selected_character_fighter: 0,
            slots: [
                SlotSetup::default_for(
                    0,
                    defaults[0],
                    ParticipantKind::Human,
                    LocalInputAssignment::Keyboard(0),
                ),
                SlotSetup::default_for(
                    1,
                    defaults[1],
                    ParticipantKind::Bot,
                    LocalInputAssignment::Unassigned,
                ),
                SlotSetup::default_for(
                    2,
                    defaults[2],
                    ParticipantKind::Closed,
                    LocalInputAssignment::Unassigned,
                ),
                SlotSetup::default_for(
                    3,
                    defaults[3],
                    ParticipantKind::Closed,
                    LocalInputAssignment::Unassigned,
                ),
            ],
            replay_seed: DEFAULT_REPLAY_SEED,
        };
        proof {
            assert(setup@.slots =~= Seq::new(
                FIGHTER_COUNT as nat,
                |i: int|
                    SlotSetup::spec_default_for(
                        i,
                        defaults@[i],
                        if i == 0 {
                            ParticipantKind::Human
                        } else if i == 1 {
                            ParticipantKind::Bot
                        } else {
                            ParticipantKind::Closed
                        },
                        if i == 0 {
                            LocalInputAssignment::Keyboard(0)
                        } else {
                            LocalInputAssignment::Unassigned
                        },
                    ),
            ));
        }
        setup
    }

    pub fn slot(&self, fighter_id: usize) -> (slot: Option<&SlotSetup>)
        ensures
            slot.is_some() == (fighter_id < FIGHTER_COUNT),
            slot.is_some() ==> *slot.unwrap() == self@.slots[fighter_id as int],
    {
        if fighter_id < FIGHTER_COUNT {
            Some(&self.slots[fighter_id])
        } else {
            None
        }
    }

    pub fn slot_mut(&mut self, fighter_id: usize) -> (slot: Option<&mut SlotSetup>)
        ensures
            slot.is_some() == (fighter_id < FIGHTER_COUNT),
            slot.is_some() ==> *slot.unwrap() == old(self)@.slots[fighter_id as int]
                && final(self)@ == with_seat(
                old(self)@,
                fighter_id as int,
                *final(slot.unwrap()),
            ),
            slot.is_none() ==> *final(self) == *old(self),
    {
        if fighter_id < FIGHTER_COUNT {
            Some(&mut self.slots[fighter_id])
        } else {
            None
        }
    }

    pub fn controller_for_fighter(&self, fighter_id: usize) -> (controller: Option<Controller>)
        ensures
            controller == (match FighterId::at(fighter_id as int) {
                Some(slot) => Some(
                    (Controller {
                        slot,
                        participant: self@.slots[fighter_id as int].participant,
                        input: self@.slots[fighter_id as int].input,
                    }),
                ),
                None => None,
            }),
    {
        match (FighterId::from_index(fighter_id), self.slot(fighter_id)) {
            (Some(slot_id), Some(setup)) => Some(
                Controller::new(slot_id, setup.participant, setup.input),
            ),
            _ => None,
        }
    }

    /// Which seats are occupied.
    pub fn active_slots(&self) -> (active: [bool; FIGHTER_COUNT])
        ensures
            active@ == Seq::new(FIGHTER_COUNT as nat, |i: int| seat_occupied(self@.slots, i)),
    {
        let active = [
            self.is_slot_occupied(0),
            self.is_slot_occupied(1),
            self.is_slot_occupied(2),
            self.is_slot_occupied(3),
        ];
        proof {
            assert(active@ =~= Seq::new(
                FIGHTER_COUNT as nat,
                |i: int| seat_occupied(self@.slots, i),
            ));
        }
        active
    }

    pub fn slot_teams(&self) -> (teams: [TeamId; FIGHTER_COUNT])
        ensures
            teams@ == Seq::new(FIGHTER_COUNT as nat, |i: int| self@.slots[i].team),
    {
        let teams = [
            self.slots[0].team,
            self.slots[1].team,
            self.slots[2].team,
            self.slots[3].team,
        ];
        proof {
            assert(teams@ =~= Seq::new(FIGHTER_COUNT as nat, |i: int| self@.slots[i].team));
        }
        teams
    }

    pub fn is_slot_occupied(&self, fighter_id: usize) -> (occupied: bool)
        ensures
            occupied == seat_occupied(self@.slots, fighter_id as int),
    {
        match self.slot(fighter_id) {
            Some(slot) => slot.participant.is_occupied(),
            None => false,
        }
    }

    pub fn active_bot_count(&self) -> (count: usize)
        ensures
            count == bot_seats(self@.slots),
    {
        let mut count: usize = 0;
        let mut seat: usize = 0;
        while seat < FIGHTER_COUNT
            invariant
                seat <= FIGHTER_COUNT,
                count <= seat,
                count == bot_seats(self@.slots.take(seat as int)),
            decreases FIGHTER_COUNT - seat,
        {
            if self.slots[seat].participant == ParticipantKind::Bot {
                count += 1;
            }
            seat += 1;
            proof {
                assert(self@.slots.take(seat as int).drop_last() =~= self@.slots.take(seat - 1));
            }
        }
        proof {
            assert(self@.slots.take(seat as int) =~= self@.slots);
        }
        count
    }

    pub fn active_rule(&self) -> (rules: MatchRules)
        ensures
            rules == rule_preset(self.rule_index),
    {
        rule_preset(self.rule_index)
    }

    pub fn active_rule_label(&self) -> (label: &'static str)
        ensures
            label == rule_preset(self.rule_index).label,
    {
        self.active_rule().label
    }

    /// Selects a preset; an index beyond the last selects the last.
    pub fn set_rule(&mut self, index: usize)
        ensures
            final(self)@ == (SetupModel {
                rule_index: if index < RULE_PRESET_COUNT {
                    index
                } else {
                    (RULE_PRESET_COUNT - 1) as usize
                },
                ..old(self)@
            }),
    {
        self.rule_index = if index < RULE_PRESET_COUNT {
            index
        } else {
            RULE_PRESET_COUNT - 1
        };
    }

    /// The next of `arena_count` arenas, round and round.
    pub fn cycle_arena(&mut self, arena_count: usize)
        ensures
            final(self)@ == (SetupModel {
                arena_index: if arena_count <= 1 {
                    0
                } else {
                    ((old(self).arena_index + 1) % (arena_count as int)) as usize
                },
                ..old(self)@
            }),
    {
        let count: usize = if arena_count < 1 {
            1
        } else {
            arena_count
        };
        self.arena_index = ((self.arena_index as u128 + 1) % (count as u128)) as usize;
    }

    /// A bot in the second seat and nobody behind it.
    pub fn cycle_bot_count(&mut self)
        ensures
            final(self)@ == (SetupModel {
                slots: Seq::new(
                    FIGHTER_COUNT as nat,
                    |i: int|
                        if i == 0 {
                            old(self)@.slots[i]
                        } else if i == 1 {
                            SlotSetup {
                                participant: ParticipantKind::Bot,
                                input: LocalInputAssignment::Unassigned,
                                ..old(self)@.slots[i]
                            }
                        } else {
                            closed_seat(old(self)@.slots[i])
                        },
                ),
                ..old(self)@
            }),
    {
        let ghost before = self@;
        self.slots[1].participant = ParticipantKind::Bot;
        self.slots[1].input = LocalInputAssignment::Unassigned;
        self.close_seat(2);
        self.close_seat(3);
        proof {
            assert(self@.slots =~= Seq::new(
                FIGHTER_COUNT as nat,
                |i: int|
                    if i == 0 {
                        before.slots[i]
                    } else if i == 1 {
                        SlotSetup {
                            participant: ParticipantKind::Bot,
                            input: LocalInputAssignment::Unassigned,
                            ..before.slots[i]
                        }
                    } else {
                        closed_seat(before.slots[i])
                    },
            ));
        }
    }

    fn close_seat(&mut self, fighter_id: usize)
        requires
            fighter_id < FIGHTER_COUNT,
        ensures
            final(self)@ == with_seat(
                old(self)@,
                fighter_id as int,
                closed_seat(old(self)@.slots[fighter_id as int]),
            ),
    {
        if let Some(slot) = self.slot_mut(fighter_id) {
            slot.participant = ParticipantKind::Closed;
            slot.input = LocalInputAssignment::Unassigned;
        }
    }

    pub fn cycle_style(&mut self, fighter_id: usize)
        ensures
            final(self)@ == with_seat(
                old(self)@,
                fighter_id as int,
                (SlotSetup {
                    style: next_style_kind(old(self)@.slots[fighter_id as int].style),
                    ..old(self)@.slots[fighter_id as int]
                }),
            ),
    {
        if let Some(slot) = self.slot_mut(fighter_id) {
            slot.style = next_style_kind(slot.style);
        }
    }

    pub fn set_character(&mut self, fighter_id: usize, character_kind: CharacterKind)
        ensures
            final(self)@ == with_seat(
                old(self)@,
                fighter_id as int,
                (SlotSetup {
                    character: character_kind,
                    ..old(self)@.slots[fighter_id as int]
                }),
            ),
    {
        if let Some(slot) = self.slot_mut(fighter_id) {
            slot.character = character_kind;
        }
    }

    pub fn cycle_character(&mut self, fighter_id: usize)
        ensures
            final(self)@ == with_seat(
                old(self)@,
                fighter_id as int,
                (SlotSetup {
                    character: next_character_kind(old(self)@.slots[fighter_id as int].character),
                    ..old(self)@.slots[fighter_id as int]
                }),
            ),
    {
        if let Some(slot) = self.slot_mut(fighter_id) {
            slot.character = next_character_kind(slot.character);
        }
    }

    pub fn cycle_character_previous(&mut self, fighter_id: usize)
        ensures
            final(self)@ == with_seat(
                old(self)@,
                fighter_id as int,
                (SlotSetup {
                    character: previous_character_kind(
                        old(self)@.slots[fighter_id as int].character,
                    ),
                    ..old(self)@.slots[fighter_id as int]
                }),
            ),
    {
        if let Some(slot) = self.slot_mut(fighter_id) {
            slot.character = previous_character_kind(slot.character);
        }
    }

    pub fn cycle_equipment(&mut self, fighter_id: usize)
        ensures
            final(self)@ == with_seat(
                old(self)@,
                fighter_id as int,
                (SlotSetup {
                    equipment: next_equipment_kind(old(self)@.slots[fighter_id as int].equipment),
                    ..old(self)@.slots[fighter_id as int]
                }),
            ),
    {
        if let Some(slot) = self.slot_mut(fighter_id) {
            slot.equipment = next_equipment_kind(slot.equipment);
        }
    }

    /// The seat whose character is being chosen.
    pub fn selected_character_fighter(&self) -> (seat: usize)
        ensures
            seat == selected_seat(self@),
            seat < FIGHTER_COUNT,
    {
        let selected: usize = if self.selected_character_fighter < FIGHTER_COUNT {
            self.selected_character_fighter
        } else {
            FIGHTER_COUNT - 1
        };
        if self.is_slot_occupied(selected) {
            return selected;
        }
        let mut seat: usize = 0;
        while seat < FIGHTER_COUNT
            invariant
                seat <= FIGHTER_COUNT,
                first_occupied_seat(self@.slots, 0) == first_occupied_seat(
                    self@.slots,
                    seat as int,
                ),
                !seat_occupied(self@.slots, selected as int),
                selected == (if self.selected_character_fighter < FIGHTER_COUNT {
                    self.selected_character_fighter as int
                } else {
                    FIGHTER_COUNT - 1
                }),
            decreases FIGHTER_COUNT - seat,
        {
            if self.is_slot_occupied(seat) {
                return seat;
            }
            seat += 1;
        }
        0
    }

    /// Moves the character selection to the next occupied seat.
    pub fn cycle_selected_character_fighter(&mut self)
        ensures
            final(self)@ == (SetupModel {
                selected_character_fighter: next_occupied_seat(
                    old(self)@.slots,
                    selected_seat(old(self)@),
                    1,
                ) as usize,
                ..old(self)@
            }),
    {
        let start: usize = self.selected_character_fighter();
        let mut offset: usize = 1;
        while offset <= FIGHTER_COUNT
            invariant
                1 <= offset <= FIGHTER_COUNT + 1,
                start < FIGHTER_COUNT,
                *self == *old(self),
                next_occupied_seat(self@.slots, start as int, 1) == next_occupied_seat(
                    self@.slots,
                    start as int,
                    offset as int,
                ),
                start == selected_seat(old(self)@),
            decreases FIGHTER_COUNT + 1 - offset,
        {
            let seat: usize = (start + offset) % FIGHTER_COUNT;
            if self.is_slot_occupied(seat) {
                self.selected_character_fighter = seat;
                return ;
            }
            offset += 1;
        }
        self.selected_character_fighter = 0;
    }

    pub fn player_character(&self) -> (character: CharacterKind)
        ensures
            character == self@.slots[0].character,
    {
        self.slots[0].character
    }

    /// A keyboard player against a bot.
    pub fn configure_single_player_duel(
        &mut self,
        player_character: CharacterKind,
        bot_character: CharacterKind,
    )
        ensures
            final(self)@ == (SetupModel {
                selected_character_fighter: 0,
                slots: duel_slots(
                    old(self)@.slots,
                    player_character,
                    bot_character,
                    ParticipantKind::Bot,
                    LocalInputAssignment::Unassigned,
                ),
                ..old(self)@
            }),
    {
        self.configure_duel_slots(
            player_character,
            bot_character,
            ParticipantKind::Bot,
            LocalInputAssignment::Unassigned,
        );
    }

    /// Two players on two keyboard layouts.
    pub fn configure_two_player_duel(
        &mut self,
        p1_character: CharacterKind,
        p2_character: CharacterKind,
    )
        ensures
            final(self)@ == (SetupModel {
                selected_character_fighter: 0,
                slots: duel_slots(
                    old(self)@.slots,
                    p1_character,
                    p2_character,
                    ParticipantKind::Human,
                    LocalInputAssignment::Keyboard(1),
                ),
                ..old(self)@
            }),
    {
        self.configure_duel_slots(
            p1_character,
            p2_character,
            ParticipantKind::Human,
            LocalInputAssignment::Keyboard(1),
        );
    }

    fn configure_duel_slots(
        &mut self,
        p1_character: CharacterKind,
        p2_character: CharacterKind,
        second_participant: ParticipantKind,
        second_input: LocalInputAssignment,
    )
        ensures
            final(self)@ == (SetupModel {
                selected_character_fighter: 0,
                slots: duel_slots(
                    old(self)@.slots,
                    p1_character,
                    p2_character,
                    second_participant,
                    second_input,
                ),
                ..old(self)@
            }),
    {
        let ghost before = self@;
        self.slots[0].participant = ParticipantKind::Human;
        self.slots[0].input = LocalInputAssignment::Keyboard(0);
        self.slots[0].character = p1_character;
        self.slots[1].participant = second_participant;
        self.slots[1].input = second_input;
        self.slots[1].character = p2_character;
        self.close_seat(2);
        self.close_seat(3);
        self.selected_character_fighter = 0;
        proof {
            assert(self@.slots =~= duel_slots(
                before.slots,
                p1_character,
                p2_character,
                second_participant,
                second_input,
            ));
        }
    }

    pub fn advance_replay_seed(&mut self) -> (seed: u64)
        ensures
            seed == spec_next_replay_seed(old(self).replay_seed),
            final(self)@ == (SetupModel { replay_seed: seed, ..old(self)@ }),
    {
        self.replay_seed = next_replay_seed(self.replay_seed);
        self.replay_seed
    }
}

/// The character selection of a table with anybody at it always names an
/// occupied seat, and cycling keeps it on one.
pub proof fn selection_stays_on_occupied_seats(setup: SetupModel, witness: int)
    requires
        setup.slots.len() == FIGHTER_COUNT,
        seat_occupied(setup.slots, witness),
    ensures
        seat_occupied(setup.slots, selected_seat(setup)),
        seat_occupied(setup.slots, next_occupied_seat(setup.slots, selected_seat(setup), 1)),
{
    reveal_with_fuel(first_occupied_seat, 5);
    reveal_with_fuel(next_occupied_seat, 6);
    assert(seat_occupied(setup.slots, 0) || seat_occupied(setup.slots, 1) || seat_occupied(
        setup.slots,
        2,
    ) || seat_occupied(setup.slots, 3));
}

/// A duel leaves exactly the first two seats occupied, whatever the table looked
/// like, and the one bot is in the second seat exactly for single players.
pub proof fn duel_occupies_two_seats(
    slots: Seq<SlotSetup>,
    p1_character: CharacterKind,
    p2_character: CharacterKind,
    second_participant: ParticipantKind,
    second_input: LocalInputAssignment,
    seat: int,
)
    requires
        slots.len() == FIGHTER_COUNT,
        second_participant != ParticipantKind::Closed,
    ensures
        ({
            let duel = duel_slots(
                slots,
                p1_character,
                p2_character,
                second_participant,
                second_input,
            );
            &&& seat_occupied(duel, seat) <==> 0 <= seat < 2
            &&& bot_seats(duel) == (if second_participant == ParticipantKind::Bot {
                1nat
            } else {
                0nat
            })
        }),
{
    reveal_with_fuel(bot_seats, 5);
}

/// Cycling a character forwards and then backwards restores the setup.
pub proof fn character_cycle_restores_setup(setup: SetupModel, fighter_id: int)
    ensures
        ({
            let slot = setup.slots[fighter_id];
            let forward = with_seat(
                setup,
                fighter_id,
                SlotSetup { character: next_character_kind(slot.character), ..slot },
            );
            let moved = forward.slots[fighter_id];
            with_seat(
                forward,
                fighter_id,
                SlotSetup { character: previous_character_kind(moved.character), ..moved },
            ) == setup
        }),
{
    let slot = setup.slots[fighter_id];
    let forward = with_seat(
        setup,
        fighter_id,
        SlotSetup { character: next_character_kind(slot.character), ..slot },
    );
    let moved = forward.slots[fighter_id];
    let back = with_seat(
        forward,
        fighter_id,
        SlotSetup { character: previous_character_kind(moved.character), ..moved },
    );
    assert(back.slots =~= setup.slots);
}

/// The equipment that a fighter wears.
#[derive(Clone, Copy, Debug, PartialEq, Eq, Structural)]
pub struct FighterEquipment {
    pub kind: EquipmentKind,
    pub cooldown: Scalar,
}

/// Gives a fighter its seat's loadout and readies its equipment. A fighter
/// without a seat keeps its loadout.
pub fn apply_setup_loadout(
    fighter_id: usize,
    setup: &LocalSetup,
    character: &mut CharacterKind,
    style: &mut FighterStyleKind,
    equipment: &mut FighterEquipment,
)
    ensures
        fighter_id < FIGHTER_COUNT ==> {
            let slot = setup@.slots[fighter_id as int];
            &&& *final(character) == slot.character
            &&& *final(style) == slot.style
            &&& final(equipment).kind == slot.equipment
        },
        fighter_id >= FIGHTER_COUNT ==> {
            &&& *final(character) == *old(character)
            &&& *final(style) == *old(style)
            &&& final(equipment).kind == old(equipment).kind
        },
        final(equipment).cooldown == Scalar::zero(),
{
    if let Some(slot) = setup.slot(fighter_id) {
        *character = slot.character;
        *style = slot.style;
        equipment.kind = slot.equipment;
    }
    equipment.cooldown = Scalar::zero();
}

/// What becomes of a fighter's automatic control.
#[derive(Clone, Copy, Debug, PartialEq, Eq, Structural)]
pub enum BotBrainChange {
    Keep,
    Attach,
    Remove,
}

/// Takes over the seat's controller and says whether the fighter's automatic
/// control has to be attached or removed, so that exactly bots have it.
pub fn reconcile_fighter_control_from_setup(
    fighter_id: usize,
    setup: &LocalSetup,
    controller: &mut Controller,
    has_bot_brain: bool,
) -> (change: BotBrainChange)
    ensures
        match FighterId::at(fighter_id as int) {
            Some(slot) => {
                let seat = setup@.slots[fighter_id as int];
                &&& *final(controller) == (Controller {
                    slot,
                    participant: seat.participant,
                    input: seat.input,
                })
                &&& change == (if seat.participant == ParticipantKind::Bot && !has_bot_brain {
                    BotBrainChange::Attach
                } else if seat.participant != ParticipantKind::Bot && has_bot_brain {
                    BotBrainChange::Remove
                } else {
                    BotBrainChange::Keep
                })
            },
            None => *final(controller) == *old(controller) && change == BotBrainChange::Keep,
        },
{
    let next_controller = match setup.controller_for_fighter(fighter_id) {
        Some(next_controller) => next_controller,
        None => {
            return BotBrainChange::Keep;
        },
    };
    *controller = next_controller;
    if controller.is_bot() {
        if !has_bot_brain {
            return BotBrainChange::Attach;
        }
    } else if has_bot_brain {
        return BotBrainChange::Remove;
    }
    BotBrainChange::Keep
}

/// Cycles the first seat's character and selects that seat.
pub fn cycle_dev_player_character(setup: &mut LocalSetup) -> (character: CharacterKind)
    ensures
        character == next_character_kind(old(setup)@.slots[0].character),
        final(setup)@ == with_seat(
            (SetupModel { selected_character_fighter: 0, ..old(setup)@ }),
            0,
            (SlotSetup { character, ..old(setup)@.slots[0] }),
        ),
{
    setup.selected_character_fighter = 0;
    setup.cycle_character(0);
    setup.player_character()
}

} // verus!

//! What match-wide keys do: in the setup menu, in a fight and in the results.

use vstd::prelude::*;

use crate::action::FighterAction;
use crate::fighter::FighterTuning;
use crate::global_input::{
    GlobalAnnouncement, GlobalContext, GlobalModel, ResettableFighter, announcement_words,
    arena_picked, character_cycled, character_name, characters_picked, equipment_cycled,
    fighters_handled, handled, loadouts_picked, menu_used, style_cycled,
};
use crate::keys::{KeyCode, KeyModel};
use crate::loadout::{
    CharacterKind, EquipmentKind, FighterStyleKind, LocalInputAssignment, ParticipantKind,
    SlotSetup, next_character_kind, next_equipment_kind, next_style_kind, previous_character_kind,
};
use crate::match_state::{MatchModel, MatchPhase, MatchPhaseEvent};
use crate::rules::{RulePreset, rule_preset};
use crate::scalar::SimVec3;
use crate::setup::SetupModel;

verus! {

/// The setup menu takes keys.
pub open spec fn menu_is_open(world: GlobalModel, context: GlobalContext) -> bool {
    &&& !context.dev_input_blocked
    &&& context.editor_allows_setup
    &&& world.state.phase == MatchPhase::Setup
    &&& world.setup.slots.len() == 4
}

pub open spec fn hit(keys: KeyModel, key: KeyCode) -> bool {
    keys.just_pressed.contains(key)
}

/// A shift key is down.
pub open spec fn shifted(keys: KeyModel) -> bool {
    keys.pressed.contains(KeyCode::ShiftLeft) || keys.pressed.contains(KeyCode::ShiftRight)
}

/// The reset key went down, with no modifier held.
pub open spec fn resets(keys: KeyModel) -> bool {
    &&& hit(keys, KeyCode::KeyR)
    &&& !shifted(keys)
    &&& !keys.pressed.contains(KeyCode::ControlLeft)
    &&& !keys.pressed.contains(KeyCode::ControlRight)
    &&& !keys.pressed.contains(KeyCode::AltLeft)
    &&& !keys.pressed.contains(KeyCode::AltRight)
    &&& !keys.pressed.contains(KeyCode::SuperLeft)
    &&& !keys.pressed.contains(KeyCode::SuperRight)
}

/// Everything for a new match is there.
pub open spec fn can_reset(context: GlobalContext) -> bool {
    context.item_assets_ready && (!context.hides_dev_controls || context.gameplay_ready)
}

/// The three presets: lives for all, teams without friendly fire in the first, and
/// everybody for themselves in the others.
pub proof fn presets_differ(index: usize)
    ensures
        rule_preset(index).preset == (if index == 0 {
            RulePreset::TimedTeamScore
        } else if index == 1 {
            RulePreset::FreeForAll
        } else {
            RulePreset::StockRingOut
        }),
        rule_preset(index).starting_stocks == Some(3i32),
        rule_preset(index).time_limit.is_none(),
        rule_preset(index).team_scoring == (index == 0),
        rule_preset(index).friendly_fire == (index != 0),
{
}

/// In the open menu the number keys pick the rules of setup and match alike: the
/// highest that is pressed counts, and without one the setup's choice stays.
pub proof fn number_keys_pick_the_rules(world: GlobalModel, keys: KeyModel, context: GlobalContext)
    requires
        menu_is_open(world, context),
    ensures
        ({
            let after = handled(world, keys, context);
            let picked = if hit(keys, KeyCode::Digit3) {
                Some(2usize)
            } else if hit(keys, KeyCode::Digit2) {
                Some(1usize)
            } else if hit(keys, KeyCode::Digit1) {
                Some(0usize)
            } else {
                None
            };
            &&& picked.is_some() ==> after.setup.rule_index == picked.unwrap()
                && after.state.rule_index == picked.unwrap() && after.state.rules == rule_preset(
                picked.unwrap(),
            )
            &&& picked.is_none() ==> after.setup.rule_index == world.setup.rule_index
        }),
{
    reveal(menu_used);
}

proof fn lemma_cast(world: GlobalModel, keys: KeyModel)
    requires
        world.setup.slots.len() == 4,
    ensures
        ({
            let cast = characters_picked(world, keys);
            let old0 = world.setup.slots[0];
            let q = if hit(keys, KeyCode::KeyQ) {
                previous_character_kind(old0.character)
            } else {
                old0.character
            };
            let e = if hit(keys, KeyCode::KeyE) {
                next_character_kind(q)
            } else {
                q
            };
            let pig = hit(keys, KeyCode::KeyP) && !shifted(keys);
            &&& cast.setup.slots == world.setup.slots.update(
                0,
                SlotSetup {
                    character: if pig {
                        CharacterKind::Pig
                    } else {
                        e
                    },
                    ..old0
                },
            )
            &&& cast.state == world.state
            &&& cast.telemetry == world.telemetry
            &&& cast.hitstop == world.hitstop
            &&& cast.setup.rule_index == world.setup.rule_index
            &&& cast.setup.arena_index == world.setup.arena_index
            &&& cast.setup.replay_seed == world.setup.replay_seed
            &&& cast.outcome.active_arena == world.outcome.active_arena
            &&& cast.outcome.sync_setup == world.outcome.sync_setup
            &&& cast.outcome.reset_world == world.outcome.reset_world
            &&& cast.outcome.announcement == (if pig {
                Some(GlobalAnnouncement::PlayerCharacter(CharacterKind::Pig))
            } else if hit(keys, KeyCode::KeyE) {
                Some(GlobalAnnouncement::PlayerCharacter(e))
            } else if hit(keys, KeyCode::KeyQ) {
                Some(GlobalAnnouncement::PlayerCharacter(q))
            } else {
                world.outcome.announcement
            })
            &&& hit(keys, KeyCode::KeyQ) || hit(keys, KeyCode::KeyE) || pig
                ==> cast.setup.selected_character_fighter == 0
        }),
{
    let old0 = world.setup.slots[0];
    let q = if hit(keys, KeyCode::KeyQ) {
        previous_character_kind(old0.character)
    } else {
        old0.character
    };
    let e = if hit(keys, KeyCode::KeyE) {
        next_character_kind(q)
    } else {
        q
    };
    let pig = hit(keys, KeyCode::KeyP) && !shifted(keys);
    assert(characters_picked(world, keys).setup.slots =~= world.setup.slots.update(
        0,
        SlotSetup {
            character: if pig {
                CharacterKind::Pig
            } else {
                e
            },
            ..old0
        },
    ));
}

proof fn lemma_loadouts(setup: SetupModel, keys: KeyModel)
    requires
        setup.slots.len() == 4,
    ensures
        ({
            let after = loadouts_picked(setup, keys);
            let old0 = setup.slots[0];
            let old1 = setup.slots[1];
            &&& after.slots == setup.slots.update(
                0,
                SlotSetup {
                    character: if hit(keys, KeyCode::KeyC) {
                        next_character_kind(old0.character)
                    } else {
                        old0.character
                    },
                    style: if hit(keys, KeyCode::KeyZ) {
                        next_style_kind(old0.style)
                    } else {
                        old0.style
                    },
                    equipment: if hit(keys, KeyCode::KeyT) {
                        next_equipment_kind(old0.equipment)
                    } else {
                        old0.equipment
                    },
                    ..old0
                },
            ).update(
                1,
                SlotSetup {
                    character: if hit(keys, KeyCode::KeyV) {
                        next_character_kind(old1.character)
                    } else {
                        old1.character
                    },
                    style: if hit(keys, KeyCode::KeyX) {
                        next_style_kind(old1.style)
                    } else {
                        old1.style
                    },
                    equipment: if hit(keys, KeyCode::KeyY) {
                        next_equipment_kind(old1.equipment)
                    } else {
                        old1.equipment
                    },
                    ..old1
                },
            )
            &&& after.rule_index == setup.rule_index
            &&& after.arena_index == setup.arena_index
            &&& after.replay_seed == setup.replay_seed
            &&& after.selected_character_fighter == setup.selected_character_fighter
        }),
{
    let z = style_cycled(setup, hit(keys, KeyCode::KeyZ), 0);
    let x = style_cycled(z, hit(keys, KeyCode::KeyX), 1);
    let c = character_cycled(x, hit(keys, KeyCode::KeyC), 0);
    let v = character_cycled(c, hit(keys, KeyCode::KeyV), 1);
    let t = equipment_cycled(v, hit(keys, KeyCode::KeyT), 0);
    let y = equipment_cycled(t, hit(keys, KeyCode::KeyY), 1);
    assert(y == loadouts_picked(setup, keys));
    assert(z.slots.len() == 4 && x.slots.len() == 4 && c.slots.len() == 4 && v.slots.len() == 4
        && t.slots.len() == 4);
    let old0 = setup.slots[0];
    let old1 = setup.slots[1];
    assert(y.slots =~= setup.slots.update(0, y.slots[0]).update(1, y.slots[1]));
    assert(y.slots[0].participant == old0.participant && y.slots[0].input == old0.input
        && y.slots[0].team == old0.team);
    assert(y.slots[1].participant == old1.participant && y.slots[1].input == old1.input
        && y.slots[1].team == old1.team);
}

#[verifier::spinoff_prover]
#[verifier::rlimit(80)]
proof fn lemma_menu_slots(world: GlobalModel, keys: KeyModel, context: GlobalContext)
    requires
        world.setup.slots.len() == 4,
    ensures
        ({
            let used = menu_used(world, keys, context);
            let old0 = world.setup.slots[0];
            let old1 = world.setup.slots[1];
            let new0 = used.setup.slots[0];
            let new1 = used.setup.slots[1];
            let q = if hit(keys, KeyCode::KeyQ) {
                previous_character_kind(old0.character)
            } else {
                old0.character
            };
            let e = if hit(keys, KeyCode::KeyE) {
                next_character_kind(q)
            } else {
                q
            };
            let p = if hit(keys, KeyCode::KeyP) && !shifted(keys) {
                CharacterKind::Pig
            } else {
                e
            };
            &&& used.setup.slots.len() == 4
            &&& used.state == world.state
            &&& used.telemetry == world.telemetry
            &&& used.hitstop == world.hitstop
            &&& used.outcome.sync_setup == world.outcome.sync_setup
            &&& used.outcome.reset_world == world.outcome.reset_world
            &&& used.setup.rule_index == world.setup.rule_index
            &&& used.setup.replay_seed == world.setup.replay_seed
            &&& new0.character == (if hit(keys, KeyCode::KeyC) {
                next_character_kind(p)
            } else {
                p
            })
            &&& new1.character == (if hit(keys, KeyCode::KeyV) {
                next_character_kind(old1.character)
            } else {
                old1.character
            })
            &&& new0.style == (if hit(keys, KeyCode::KeyZ) {
                next_style_kind(old0.style)
            } else {
                old0.style
            })
            &&& new1.style == (if hit(keys, KeyCode::KeyX) {
                next_style_kind(old1.style)
            } else {
                old1.style
            })
            &&& new0.equipment == (if hit(keys, KeyCode::KeyT) {
                next_equipment_kind(old0.equipment)
            } else {
                old0.equipment
            })
            &&& new1.equipment == (if hit(keys, KeyCode::KeyY) {
                next_equipment_kind(old1.equipment)
            } else {
                old1.equipment
            })
            &&& new0.participant == old0.participant
            &&& new0.input == old0.input
            &&& new0.team == old0.team
            &&& new1.team == old1.team
            &&& new1.participant == (if hit(keys, KeyCode::KeyB) {
                ParticipantKind::Bot
            } else {
                old1.participant
            })
            &&& new1.input == (if hit(keys, KeyCode::KeyB) {
                LocalInputAssignment::Unassigned
            } else {
                old1.input
            })
            &&& forall|i: int|
                2 <= i < 4 ==> {
                    let before = world.setup.slots[i];
                    let now = #[trigger] used.setup.slots[i];
                    &&& now.character == before.character
                    &&& now.style == before.style
                    &&& now.equipment == before.equipment
                    &&& now.team == before.team
                    &&& now.participant == (if hit(keys, KeyCode::KeyB) {
                        ParticipantKind::Closed
                    } else {
                        before.participant
                    })
                }
            &&& used.setup.arena_index == (if hit(keys, KeyCode::KeyA) {
                if context.arena_count <= 1 {
                    0
                } else {
                    ((world.setup.arena_index + 1) % (context.arena_count as int)) as usize
                }
            } else {
                world.setup.arena_index
            })
            &&& used.outcome.active_arena == (if hit(keys, KeyCode::KeyA) {
                Some(used.setup.arena_index)
            } else {
                world.outcome.active_arena
            })
            &&& used.outcome.announcement == (if hit(keys, KeyCode::KeyP) && !shifted(keys) {
                Some(GlobalAnnouncement::PlayerCharacter(CharacterKind::Pig))
            } else if hit(keys, KeyCode::KeyE) {
                Some(GlobalAnnouncement::PlayerCharacter(e))
            } else if hit(keys, KeyCode::KeyQ) {
                Some(GlobalAnnouncement::PlayerCharacter(q))
            } else {
                world.outcome.announcement
            })
            &&& hit(keys, KeyCode::KeyQ) || hit(keys, KeyCode::KeyE) || (hit(keys, KeyCode::KeyP)
                && !shifted(keys)) ==> used.setup.selected_character_fighter == 0
        }),
{
    reveal(menu_used);
    let cast = characters_picked(world, keys);
    let placed = arena_picked(cast, keys, context);
    lemma_cast(world, keys);
    assert(placed.setup.slots.len() == 4);
    lemma_loadouts(placed.setup, keys);
}

/// What each menu key does to the seats: Q and E change the first seat's character
/// back and forth, P makes it Pig, C and V take the next character for the first and
/// second seat, Z and X the next style, T and Y the next equipment. A takes the next
/// arena, and B puts a bot into the second seat and closes the others. No other seat
/// and no other choice changes, and the match follows the seats.
pub proof fn menu_keys_change_the_seats(world: GlobalModel, keys: KeyModel, context: GlobalContext)
    requires
        menu_is_open(world, context),
        !hit(keys, KeyCode::Enter),
        !world.state.reset_requested,
    ensures
        ({
            let after = handled(world, keys, context);
            let old0 = world.setup.slots[0];
            let old1 = world.setup.slots[1];
            let new0 = after.setup.slots[0];
            let new1 = after.setup.slots[1];
            let others_still = forall|i: int|
                2 <= i < 4 ==> {
                    let before = world.setup.slots[i];
                    let now = #[trigger] after.setup.slots[i];
                    &&& now.character == before.character
                    &&& now.style == before.style
                    &&& now.equipment == before.equipment
                    &&& now.participant == (if hit(keys, KeyCode::KeyB) {
                        ParticipantKind::Closed
                    } else {
                        before.participant
                    })
                };
            let quiet = !hit(keys, KeyCode::KeyQ) && !hit(keys, KeyCode::KeyE) && !hit(
                keys,
                KeyCode::KeyP,
            ) && !hit(keys, KeyCode::KeyC);
            &&& others_still
            &&& quiet ==> new0.character == old0.character
            &&& hit(keys, KeyCode::KeyQ) && !hit(keys, KeyCode::KeyE) && !hit(keys, KeyCode::KeyP)
                && !hit(keys, KeyCode::KeyC) ==> next_character_kind(new0.character)
                == old0.character
            &&& hit(keys, KeyCode::KeyE) && !hit(keys, KeyCode::KeyQ) && !hit(keys, KeyCode::KeyP)
                && !hit(keys, KeyCode::KeyC) ==> new0.character == next_character_kind(
                old0.character,
            )
            &&& hit(keys, KeyCode::KeyP) && !shifted(keys) && !hit(keys, KeyCode::KeyC)
                ==> new0.character == CharacterKind::Pig
            &&& hit(keys, KeyCode::KeyC) && !hit(keys, KeyCode::KeyQ) && !hit(keys, KeyCode::KeyE)
                && !hit(keys, KeyCode::KeyP) ==> new0.character == next_character_kind(
                old0.character,
            )
            &&& new1.character == (if hit(keys, KeyCode::KeyV) {
                next_character_kind(old1.character)
            } else {
                old1.character
            })
            &&& new0.style == (if hit(keys, KeyCode::KeyZ) {
                next_style_kind(old0.style)
            } else {
                old0.style
            })
            &&& new1.style == (if hit(keys, KeyCode::KeyX) {
                next_style_kind(old1.style)
            } else {
                old1.style
            })
            &&& new0.equipment == (if hit(keys, KeyCode::KeyT) {
                next_equipment_kind(old0.equipment)
            } else {
                old0.equipment
            })
            &&& new1.equipment == (if hit(keys, KeyCode::KeyY) {
                next_equipment_kind(old1.equipment)
            } else {
                old1.equipment
            })
            &&& new0.participant == old0.participant
            &&& new1.participant == (if hit(keys, KeyCode::KeyB) {
                ParticipantKind::Bot
            } else {
                old1.participant
            })
            &&& context.arena_count > 0 ==> after.setup.arena_index == (if hit(
                keys,
                KeyCode::KeyA,
            ) {
                ((world.setup.arena_index + 1) % (context.arena_count as int)) as usize
            } else {
                world.setup.arena_index
            })
            &&& hit(keys, KeyCode::KeyA) ==> after.outcome.active_arena == Some(
                after.setup.arena_index,
            )
            &&& after.state.phase == MatchPhase::Setup
            &&& !resets(keys) ==> {
                &&& after.outcome.sync_setup
                &&& after.setup.replay_seed == world.setup.replay_seed
                &&& forall|i: int|
                    0 <= i < 4 ==> (#[trigger] after.state.active_slots[i]) == (
                    after.setup.slots[i].participant != ParticipantKind::Closed)
                &&& forall|i: int|
                    0 <= i < 4 ==> (#[trigger] after.state.teams[i]) == after.setup.slots[i].team
            }
            &&& resets(keys) ==> {
                &&& after.setup.replay_seed == ((world.setup.replay_seed * 1_664_525
                    + 1_013_904_223) % 0x1_0000_0000_0000_0000) as u64
                &&& after.state.replay_seed == after.setup.replay_seed
                &&& after.state.active_slots == world.state.active_slots
                &&& after.outcome.sync_setup == world.outcome.sync_setup
            }
            &&& after.outcome.reset_world == world.outcome.reset_world
            &&& after.telemetry == world.telemetry
            &&& after.hitstop == world.hitstop
        }),
{
    let toggled = crate::global_input::debug_toggled(world, keys, context);
    let ruled = crate::global_input::rules_picked(toggled, keys);
    lemma_menu_slots(ruled, keys, context);
}

/// Enter in the menu plays its choices: its rules, arena, seats and seed. The fight
/// starts at once where everything for it is there, and is waited for otherwise.
pub proof fn enter_plays_the_menu(world: GlobalModel, keys: KeyModel, context: GlobalContext)
    requires
        menu_is_open(world, context),
        hit(keys, KeyCode::Enter),
        !resets(keys),
    ensures
        ({
            let after = handled(world, keys, context);
            &&& after.state.rule_index == after.setup.rule_index
            &&& after.state.rules == rule_preset(after.setup.rule_index)
            &&& after.state.arena_index == after.setup.arena_index
            &&& after.state.replay_seed == world.setup.replay_seed
            &&& after.setup.replay_seed == world.setup.replay_seed
            &&& after.outcome.active_arena == Some(after.setup.arena_index)
            &&& after.outcome.sync_setup
            &&& forall|i: int|
                0 <= i < 4 ==> (#[trigger] after.state.active_slots[i]) == (
                after.setup.slots[i].participant != ParticipantKind::Closed)
            &&& can_reset(context) ==> {
                &&& after.state.phase == MatchPhase::Fighting
                &&& !after.state.reset_requested
                &&& after.outcome.reset_world
                &&& after.outcome.announcement == Some(GlobalAnnouncement::Fight)
                &&& after.hitstop.remaining == 0
                &&& after.telemetry.replay_seed == world.setup.replay_seed
                &&& after.telemetry.ring_outs == 0
                &&& after.telemetry.falls == 0
                &&& forall|i: int| 0 <= i < 4 ==> (#[trigger] after.state.stocks[i]) == 3
            }
            &&& !can_reset(context) ==> {
                &&& after.state.phase == MatchPhase::Resetting
                &&& after.state.reset_requested
                &&& after.outcome.reset_world == world.outcome.reset_world
            }
        }),
{
    let toggled = crate::global_input::debug_toggled(world, keys, context);
    let ruled = crate::global_input::rules_picked(toggled, keys);
    lemma_menu_slots(ruled, keys, context);
}

/// Outside of the menu the reset key asks for a rematch, which draws the next seed.
/// Lives, clock and counters start over, under the same rules and in the same arena.
pub proof fn the_reset_key_starts_over(world: GlobalModel, keys: KeyModel, context: GlobalContext)
    requires
        !context.dev_input_blocked,
        world.state.phase != MatchPhase::Setup,
        !(world.state.phase == MatchPhase::Results && hit(keys, KeyCode::Enter)),
        resets(keys),
    ensures
        ({
            let after = handled(world, keys, context);
            &&& can_reset(context) ==> {
                &&& after.state.phase == MatchPhase::Fighting
                &&& !after.state.reset_requested
                &&& after.state.replay_seed == ((world.state.replay_seed * 1_664_525
                    + 1_013_904_223) % 0x1_0000_0000_0000_0000) as u64
                &&& after.setup.replay_seed == after.state.replay_seed
                &&& after.telemetry.replay_seed == after.state.replay_seed
                &&& after.telemetry.ring_outs == 0
                &&& after.telemetry.falls == 0
                &&& after.telemetry.item_hits == 0
                &&& after.telemetry.throws == 0
                &&& after.telemetry.guard_breaks == 0
                &&& after.hitstop.remaining == 0
                &&& after.outcome.reset_world
                &&& after.outcome.announcement == Some(GlobalAnnouncement::Fight)
                &&& after.outcome.active_arena == Some(world.state.arena_index)
                &&& forall|i: int|
                    0 <= i < 4 ==> (#[trigger] after.state.stocks[i]) == (
                    match world.state.rules.starting_stocks {
                        Some(stock) => stock,
                        None => 0,
                    })
                &&& after.state.timer == (match world.state.rules.time_limit {
                    Some(limit) => limit,
                    None => 0,
                })
            }
            &&& !can_reset(context) ==> {
                &&& after.state.phase == MatchPhase::Resetting
                &&& after.state.reset_requested
                &&& after.telemetry == world.telemetry
                &&& after.state.replay_seed == world.state.replay_seed
                &&& after.outcome.reset_world == world.outcome.reset_world
            }
            &&& after.state.rules == world.state.rules
            &&& after.state.arena_index == world.state.arena_index
            &&& after.state.active_slots == world.state.active_slots
        }),
{
}

/// Enter in the results leads back to the menu, with what was played selected.
pub proof fn enter_leaves_the_results(world: GlobalModel, keys: KeyModel, context: GlobalContext)
    requires
        !context.dev_input_blocked,
        world.state.phase == MatchPhase::Results,
        hit(keys, KeyCode::Enter),
    ensures
        ({
            let after = handled(world, keys, context);
            &&& after.state.phase == MatchPhase::Setup
            &&& !after.state.reset_requested
            &&& after.setup.rule_index == world.state.rule_index
            &&& after.setup.arena_index == world.state.arena_index
            &&& after.setup.replay_seed == world.state.replay_seed
            &&& after.setup.slots == world.setup.slots
            &&& after.state.rules == world.state.rules
            &&& after.hitstop.remaining == 0
            &&& after.outcome.announcement == Some(GlobalAnnouncement::SetupPrompt)
            &&& after.outcome.active_arena == Some(world.state.arena_index)
            &&& after.outcome.reset_world == (context.item_assets_ready
                || world.outcome.reset_world)
            &&& after.telemetry == world.telemetry
        }),
{
}

/// The hitbox view follows its key alone, and only while keys are open.
pub proof fn only_its_key_toggles_the_hitboxes(
    world: GlobalModel,
    keys: KeyModel,
    context: GlobalContext,
)
    ensures
        handled(world, keys, context).state.debug_hitboxes == (world.state.debug_hitboxes != (
        !context.dev_input_blocked && hit(keys, KeyCode::KeyH))),
{
    reveal(menu_used);
}

/// Shift and P in a fight change the first fighter's character, where its seat is in.
pub proof fn shift_p_recasts_the_first_fighter(
    world: GlobalModel,
    keys: KeyModel,
    context: GlobalContext,
)
    requires
        !context.dev_input_blocked,
        world.state.phase == MatchPhase::Fighting,
        world.setup.slots.len() == 4,
        world.state.active_slots.len() == 4,
        !world.state.reset_requested,
        !resets(keys),
    ensures
        ({
            let after = handled(world, keys, context);
            let next = next_character_kind(world.setup.slots[0].character);
            let cycles = hit(keys, KeyCode::KeyP) && shifted(keys) && world.state.active_slots[0];
            &&& cycles ==> after.setup.slots[0].character == next
            &&& cycles && context.first_fighter_present ==> after.outcome.first_fighter_character
                == Some(next) && after.outcome.announcement == Some(
                GlobalAnnouncement::DevCharacter(next),
            )
            &&& !cycles ==> after.setup == world.setup && after.outcome == world.outcome
            &&& after.state.phase == MatchPhase::Fighting
            &&& after.state.stocks == world.state.stocks
            &&& after.telemetry == world.telemetry
        }),
{
}

/// Going on through a roster comes past everybody and back.
pub proof fn cycles_come_past_everybody(
    character: CharacterKind,
    style: FighterStyleKind,
    equipment: EquipmentKind,
)
    ensures
        next_style_kind(style) != style,
        next_style_kind(next_style_kind(style)) != style,
        next_style_kind(next_style_kind(next_style_kind(style))) == style,
        next_equipment_kind(equipment) != equipment,
        next_equipment_kind(next_equipment_kind(equipment)) != equipment,
        next_equipment_kind(
            next_equipment_kind(next_equipment_kind(next_equipment_kind(equipment))),
        ) == equipment,
        ({
            let second = next_character_kind(next_character_kind(character));
            let fourth = next_character_kind(next_character_kind(second));
            let sixth = next_character_kind(next_character_kind(fourth));
            &&& next_character_kind(character) != character
            &&& second != character
            &&& fourth != character
            &&& next_character_kind(next_character_kind(sixth)) == character
        }),
{
}

/// The clock of a timed fight runs down and then calls time up; after its pause come
/// the results. Nothing else moves with the clock.
pub proof fn the_clock_ends_the_fight(state: MatchModel, dt: u64, time_up: u64)
    ensures
        ({
            let (after, event) = state.advanced(dt, time_up);
            let fights = state.phase == MatchPhase::Fighting && state.rules.time_limit.is_some();
            let waits = state.phase == MatchPhase::TimeUp;
            &&& fights && state.timer > dt ==> after.timer == state.timer - dt && after.phase
                == MatchPhase::Fighting && event.is_none()
            &&& fights && state.timer <= dt ==> after.timer == 0 && after.phase
                == MatchPhase::TimeUp && after.phase_timer == time_up && event == Some(
                MatchPhaseEvent::TimeUp,
            )
            &&& waits && state.phase_timer > dt ==> after.phase_timer == state.phase_timer - dt
                && after.phase == MatchPhase::TimeUp && event.is_none()
            &&& waits && state.phase_timer <= dt ==> after.phase_timer == 0 && after.phase
                == MatchPhase::Results && event == Some(MatchPhaseEvent::Results)
            &&& !fights && !waits ==> after == state && event.is_none()
            &&& after.stocks == state.stocks
            &&& after.rules == state.rules
        }),
{
}

/// What the keys decided reaches every fighter: a new match rests all of them at their
/// spawn points, the seats in the match ready and the others out of it; the menu only
/// brings back who takes a seat and takes out who leaves one; nothing else touches
/// them.
pub proof fn fighters_follow_the_keys(
    world: GlobalModel,
    fighters: Seq<Option<ResettableFighter>>,
    points: Seq<SimVec3>,
    tuning: FighterTuning,
    seat: int,
)
    requires
        fighters.len() == 4,
        world.state.active_slots.len() == 4,
        0 <= seat < 4,
        fighters[seat].is_some(),
    ensures
        ({
            let before = fighters[seat].unwrap();
            let after = fighters_handled(world, fighters, points, tuning)[seat];
            let plays = world.state.active_slots[seat];
            let fresh = world.outcome.reset_world;
            let synced = !fresh && world.outcome.sync_setup;
            &&& after.is_some()
            &&& fresh ==> {
                let after = after.unwrap();
                &&& after.stats.health == tuning.max_health
                &&& after.stats.stamina == tuning.max_stamina
                &&& after.stats.score == 0
                &&& after.stats.last_attacker.is_none()
                &&& after.stats.invulnerability.remaining == 0
                &&& after.stats.health_refill_timer.remaining == 0
                &&& after.stats.item_speed_timer.remaining == 0
                &&& after.stats.item_giant_timer.remaining == 0
                &&& after.stats.respawn_timer.remaining == (if plays {
                    0
                } else {
                    u32::MAX
                })
                &&& after.action.action == (if plays {
                    FighterAction::Idle
                } else {
                    FighterAction::RingOut
                })
                &&& after.action.elapsed.ticks == 0
                &&& after.visible == plays
                &&& after.position == points[seat]
                &&& after.spawn == points[seat]
                &&& after.halted
                &&& after.held_item.is_none()
                &&& after.special_cooldown.bits == 0
                &&& after.grab.holding.is_none()
                &&& after.grab.held_by.is_none()
                &&& after.grab.regrab_lockout.remaining == 0
                &&& after.motor.grounded
                &&& !after.motor.knockdown_on_land
                &&& after.motor.landing_aftermath.is_none()
                &&& after.motor.reaction_bounces == 0
                &&& !after.motor.air_attack_used
                &&& !after.motor.jump_attack_landing_recovery
                &&& !after.motor.bee_air_dash_motion_active
                &&& !after.motor.bee_air_dash_shot_available
                &&& after.motor.ledge_grace_timer.remaining == 0
                &&& after.motor.landing_stick_timer.remaining == 0
                &&& after.motor.jump_takeoff_timer.remaining == 0
                &&& after.motor.impact_speed_limit_timer.remaining == 0
                &&& after.motor.impact_speed_limit.bits == 0
            }
            &&& synced && plays ==> {
                let after = after.unwrap();
                &&& after.visible
                &&& before.action.action == FighterAction::RingOut ==> after.action.action
                    == FighterAction::Idle && after.action.elapsed.ticks == 0
                &&& before.action.action != FighterAction::RingOut ==> after.action
                    == before.action
                &&& after.input == before.input
                &&& after.stats == before.stats
                &&& after.position == before.position
            }
            &&& synced && !plays ==> {
                let after = after.unwrap();
                &&& !after.visible
                &&& after.action.action == FighterAction::RingOut
                &&& after.action.elapsed.ticks == 0
                &&& !after.input.jump && !after.input.light && !after.input.heavy
                    && !after.input.guard && !after.input.dash && !after.input.ultimate
                &&& after.stats == before.stats
                &&& after.position == before.position
            }
            &&& !fresh && !synced ==> after == fighters[seat]
        }),
{
}

/// Announcements name the character that they are about, the developer's pick and the
/// player's apart.
pub proof fn picks_are_worded(kind: CharacterKind)
    ensures
        announcement_words(GlobalAnnouncement::DevCharacter(kind)) == "Dev character: "@
            + character_name(kind),
        announcement_words(GlobalAnnouncement::PlayerCharacter(kind)) == "Player character: "@
            + character_name(kind),
        announcement_words(GlobalAnnouncement::SetupPrompt) == "Setup - adjust or press Enter"@,
        announcement_words(GlobalAnnouncement::Fight) == "Fight!"@,
{
}

} // verus!

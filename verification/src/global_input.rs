//! Match-wide keys: the setup menu, rematches, the way back from the results, and
//! what they do to the fighters.

use vstd::prelude::*;
use vstd::string::*;

use crate::action::{FighterAction, FighterActionState};
use crate::feedback::{Hitstop, MatchTelemetry};
use crate::fighter::{FighterMotor, FighterStats, FighterTuning};
use crate::grab::FighterGrabState;
use crate::ids::FIGHTER_COUNT;
use crate::input::FighterInput;
use crate::keys::{
    KeyCode, KeyModel, KeySnapshot, dev_character_cycle_pressed, match_reset_pressed,
    setup_rule_hotkeys_active, shift_pressed,
};
use crate::loadout::{
    CharacterKind, LocalInputAssignment, ParticipantKind, SlotSetup, next_character_kind,
    next_equipment_kind, next_style_kind, previous_character_kind,
};
use crate::match_state::{MatchModel, MatchPhase, MatchState};
use crate::rules::{RULE_PRESET_COUNT, rule_preset};
use crate::scalar::{Scalar, SimVec3};
use crate::setup::{
    LocalSetup, SetupModel, closed_seat, cycle_dev_player_character, next_occupied_seat,
    selected_seat, spec_next_replay_seed, with_seat,
};
use crate::ticks::{ElapsedTicks, TickTimer};

verus! {

/// What is announced for a match-wide key.
#[derive(Clone, Copy, Debug, PartialEq, Eq, Structural)]
pub enum GlobalAnnouncement {
    DevCharacter(CharacterKind),
    PlayerCharacter(CharacterKind),
    SetupPrompt,
    Fight,
}

/// What match-wide keys ask of the world.
#[derive(Clone, Copy, Debug, PartialEq, Eq, Structural)]
pub struct GlobalOutcome {
    /// The last announcement, which replaces earlier ones.
    pub announcement: Option<GlobalAnnouncement>,
    /// The arena to be made active.
    pub active_arena: Option<usize>,
    /// A new character for the first fighter.
    pub first_fighter_character: Option<CharacterKind>,
    /// Bring fighters in line with the setup menu.
    pub sync_setup: bool,
    /// Take hitboxes, specials and effects out of the arena, put items back to their
    /// anchors and reset every fighter.
    pub reset_world: bool,
}

/// Everything that match-wide keys change.
pub struct GlobalWorld {
    pub setup: LocalSetup,
    pub state: MatchState,
    pub telemetry: MatchTelemetry,
    pub hitstop: Hitstop,
    pub outcome: GlobalOutcome,
}

/// The same as a mathematical value.
pub struct GlobalModel {
    pub setup: SetupModel,
    pub state: MatchModel,
    pub telemetry: MatchTelemetry,
    pub hitstop: Hitstop,
    pub outcome: GlobalOutcome,
}

impl View for GlobalWorld {
    type V = GlobalModel;

    open spec fn view(&self) -> GlobalModel {
        GlobalModel {
            setup: self.setup@,
            state: self.state@,
            telemetry: self.telemetry,
            hitstop: self.hitstop,
            outcome: self.outcome,
        }
    }
}

/// Circumstances in which keys are read.
#[derive(Clone, Copy, Debug, PartialEq, Eq, Structural)]
pub struct GlobalContext {
    pub dev_input_blocked: bool,
    pub editor_allows_setup: bool,
    pub hides_dev_controls: bool,
    pub gameplay_ready: bool,
    pub item_assets_ready: bool,
    pub first_fighter_present: bool,
    pub arena_count: usize,
}

impl GlobalOutcome {
    pub open spec fn spec_nothing() -> GlobalOutcome {
        GlobalOutcome {
            announcement: None,
            active_arena: None,
            first_fighter_character: None,
            sync_setup: false,
            reset_world: false,
        }
    }

    #[verifier::when_used_as_spec(spec_nothing)]
    pub fn nothing() -> (outcome: GlobalOutcome)
        ensures
            outcome == Self::spec_nothing(),
    {
        GlobalOutcome {
            announcement: None,
            active_arena: None,
            first_fighter_character: None,
            sync_setup: false,
            reset_world: false,
        }
    }

    pub open spec fn announcing(self, announcement: GlobalAnnouncement) -> GlobalOutcome {
        GlobalOutcome { announcement: Some(announcement), ..self }
    }

    pub open spec fn activating(self, arena: usize) -> GlobalOutcome {
        GlobalOutcome { active_arena: Some(arena), ..self }
    }
}

impl GlobalModel {
    pub open spec fn with(self, setup: SetupModel) -> GlobalModel {
        GlobalModel { setup, ..self }
    }

    pub open spec fn announcing(self, announcement: GlobalAnnouncement) -> GlobalModel {
        GlobalModel { outcome: self.outcome.announcing(announcement), ..self }
    }
}

/// A seat with another character.
pub open spec fn recast(setup: SetupModel, seat: int, character: CharacterKind) -> SetupModel {
    with_seat(setup, seat, SlotSetup { character, ..setup.slots[seat] })
}

/// The first seat's character changed and that seat selected.
pub open spec fn player_recast(setup: SetupModel, character: CharacterKind) -> SetupModel {
    recast(SetupModel { selected_character_fighter: 0, ..setup }, 0, character)
}

/// The first fighter's character changed during a fight.
pub open spec fn dev_cycled(world: GlobalModel, context: GlobalContext) -> GlobalModel {
    let next = next_character_kind(world.setup.slots[0].character);
    let cycled = world.with(player_recast(world.setup, next));
    if context.first_fighter_present {
        GlobalModel {
            outcome: GlobalOutcome {
                first_fighter_character: Some(next),
                ..cycled.outcome.announcing(GlobalAnnouncement::DevCharacter(next))
            },
            ..cycled
        }
    } else {
        cycled
    }
}

/// A preset picked in the setup menu.
pub open spec fn rule_picked(world: GlobalModel, index: usize) -> GlobalModel {
    GlobalModel {
        setup: SetupModel { rule_index: index, ..world.setup },
        state: MatchModel { rule_index: index, rules: rule_preset(index), ..world.state },
        ..world
    }
}

/// The rule hotkeys, in order.
pub open spec fn rules_picked(world: GlobalModel, keys: KeyModel) -> GlobalModel {
    let first = if keys.just_pressed.contains(KeyCode::Digit1) {
        rule_picked(world, 0)
    } else {
        world
    };
    let second = if keys.just_pressed.contains(KeyCode::Digit2) {
        rule_picked(first, 1)
    } else {
        first
    };
    if keys.just_pressed.contains(KeyCode::Digit3) {
        rule_picked(second, 2)
    } else {
        second
    }
}

/// Back from the results to the setup menu, with what was just played selected.
pub open spec fn back_in_setup(world: GlobalModel, context: GlobalContext) -> GlobalModel {
    let setup = SetupModel {
        rule_index: world.state.rule_index,
        arena_index: world.state.arena_index,
        replay_seed: world.state.replay_seed,
        ..world.setup
    };
    GlobalModel {
        setup,
        state: world.state.in_setup().with_setup(setup),
        hitstop: Hitstop { remaining: 0 },
        outcome: GlobalOutcome {
            reset_world: context.item_assets_ready || world.outcome.reset_world,
            ..world.outcome.announcing(GlobalAnnouncement::SetupPrompt).activating(
                setup.arena_index,
            )
        },
        ..world
    }
}

/// The menu keys that choose seats and the first seat's character.
pub open spec fn characters_picked(world: GlobalModel, keys: KeyModel) -> GlobalModel {
    let tabbed = if keys.just_pressed.contains(KeyCode::Tab) {
        world.with(
            SetupModel {
                selected_character_fighter: next_occupied_seat(
                    world.setup.slots,
                    selected_seat(world.setup),
                    1,
                ) as usize,
                ..world.setup
            },
        )
    } else {
        world
    };
    let back = previous_character_kind(tabbed.setup.slots[0].character);
    let backward = if keys.just_pressed.contains(KeyCode::KeyQ) {
        tabbed.with(player_recast(tabbed.setup, back)).announcing(
            GlobalAnnouncement::PlayerCharacter(back),
        )
    } else {
        tabbed
    };
    let next = next_character_kind(backward.setup.slots[0].character);
    let forward = if keys.just_pressed.contains(KeyCode::KeyE) {
        backward.with(player_recast(backward.setup, next)).announcing(
            GlobalAnnouncement::PlayerCharacter(next),
        )
    } else {
        backward
    };
    if keys.just_pressed.contains(KeyCode::KeyP) && !keys.shift() {
        forward.with(player_recast(forward.setup, CharacterKind::Pig)).announcing(
            GlobalAnnouncement::PlayerCharacter(CharacterKind::Pig),
        )
    } else {
        forward
    }
}

/// The next arena.
pub open spec fn next_arena(arena_index: usize, arena_count: usize) -> usize {
    if arena_count <= 1 {
        0
    } else {
        ((arena_index + 1) % (arena_count as int)) as usize
    }
}

/// A bot in the second seat and nobody behind it.
pub open spec fn one_bot(setup: SetupModel) -> SetupModel {
    SetupModel {
        slots: Seq::new(
            FIGHTER_COUNT as nat,
            |i: int|
                if i == 0 {
                    setup.slots[i]
                } else if i == 1 {
                    SlotSetup {
                        participant: ParticipantKind::Bot,
                        input: LocalInputAssignment::Unassigned,
                        ..setup.slots[i]
                    }
                } else {
                    closed_seat(setup.slots[i])
                },
        ),
        ..setup
    }
}

/// The menu keys for the arena and the bots.
pub open spec fn arena_picked(
    world: GlobalModel,
    keys: KeyModel,
    context: GlobalContext,
) -> GlobalModel {
    let moved = if keys.just_pressed.contains(KeyCode::KeyA) {
        let arena = next_arena(world.setup.arena_index, context.arena_count);
        GlobalModel {
            setup: SetupModel { arena_index: arena, ..world.setup },
            outcome: world.outcome.activating(arena),
            ..world
        }
    } else {
        world
    };
    if keys.just_pressed.contains(KeyCode::KeyB) {
        moved.with(one_bot(moved.setup))
    } else {
        moved
    }
}

/// A seat with the next style, if its key was pressed.
pub open spec fn style_cycled(setup: SetupModel, pressed: bool, seat: int) -> SetupModel {
    if pressed {
        with_seat(
            setup,
            seat,
            SlotSetup { style: next_style_kind(setup.slots[seat].style), ..setup.slots[seat] },
        )
    } else {
        setup
    }
}

/// A seat with the next character, if its key was pressed.
pub open spec fn character_cycled(setup: SetupModel, pressed: bool, seat: int) -> SetupModel {
    if pressed {
        recast(setup, seat, next_character_kind(setup.slots[seat].character))
    } else {
        setup
    }
}

/// A seat with the next equipment, if its key was pressed.
pub open spec fn equipment_cycled(setup: SetupModel, pressed: bool, seat: int) -> SetupModel {
    if pressed {
        with_seat(
            setup,
            seat,
            SlotSetup {
                equipment: next_equipment_kind(setup.slots[seat].equipment),
                ..setup.slots[seat]
            },
        )
    } else {
        setup
    }
}

/// The menu keys for the loadouts of the first two seats.
pub open spec fn loadouts_picked(setup: SetupModel, keys: KeyModel) -> SetupModel {
    let z = style_cycled(setup, keys.just_pressed.contains(KeyCode::KeyZ), 0);
    let x = style_cycled(z, keys.just_pressed.contains(KeyCode::KeyX), 1);
    let c = character_cycled(x, keys.just_pressed.contains(KeyCode::KeyC), 0);
    let v = character_cycled(c, keys.just_pressed.contains(KeyCode::KeyV), 1);
    let t = equipment_cycled(v, keys.just_pressed.contains(KeyCode::KeyT), 0);
    equipment_cycled(t, keys.just_pressed.contains(KeyCode::KeyY), 1)
}

/// All menu keys.
#[verifier::opaque]
pub open spec fn menu_used(
    world: GlobalModel,
    keys: KeyModel,
    context: GlobalContext,
) -> GlobalModel {
    let placed = arena_picked(characters_picked(world, keys), keys, context);
    placed.with(loadouts_picked(placed.setup, keys))
}

/// A new seed drawn in the menu.
pub open spec fn reseeded(world: GlobalModel) -> GlobalModel {
    let seed = spec_next_replay_seed(world.setup.replay_seed);
    GlobalModel {
        setup: SetupModel { replay_seed: seed, ..world.setup },
        state: MatchModel { replay_seed: seed, ..world.state },
        ..world
    }
}

/// The fighters follow the menu.
pub open spec fn synced(world: GlobalModel) -> GlobalModel {
    GlobalModel {
        state: world.state.with_setup(world.setup),
        outcome: GlobalOutcome { sync_setup: true, ..world.outcome },
        ..world
    }
}

/// The menu's choices asked to be played.
pub open spec fn match_requested(world: GlobalModel) -> GlobalModel {
    GlobalModel {
        state: (MatchModel {
            rule_index: world.setup.rule_index,
            rules: rule_preset(world.setup.rule_index),
            arena_index: world.setup.arena_index,
            replay_seed: world.setup.replay_seed,
            ..world.state
        }).with_setup(world.setup).rematch_requested(),
        outcome: world.outcome.activating(world.setup.arena_index),
        ..world
    }
}

/// A new match. The first from the menu plays the menu's seed, every other one
/// draws the next.
pub open spec fn new_match(world: GlobalModel, keep_seed: bool) -> GlobalModel {
    let seed = if keep_seed {
        world.setup.replay_seed
    } else {
        spec_next_replay_seed(world.state.replay_seed)
    };
    GlobalModel {
        setup: SetupModel { replay_seed: seed, ..world.setup },
        state: (MatchModel { replay_seed: seed, ..world.state }).restarted(),
        telemetry: MatchTelemetry::fresh(seed),
        hitstop: Hitstop { remaining: 0 },
        outcome: GlobalOutcome {
            reset_world: true,
            ..world.outcome.announcing(GlobalAnnouncement::Fight).activating(
                world.state.arena_index,
            )
        },
    }
}

/// A reset that was asked for goes ahead once everything for it is there.
pub open spec fn reset_if_due(
    world: GlobalModel,
    context: GlobalContext,
    keep_seed: bool,
) -> GlobalModel {
    if !world.state.reset_requested || (context.hides_dev_controls && !context.gameplay_ready)
        || !context.item_assets_ready {
        world
    } else {
        new_match(world, keep_seed)
    }
}

/// The keys outside of the menu, once the way back from the results is ruled out.
pub open spec fn flow_handled(
    world: GlobalModel,
    keys: KeyModel,
    context: GlobalContext,
) -> GlobalModel {
    let in_menu = !context.dev_input_blocked && world.state.phase == MatchPhase::Setup;
    let rematch = !context.dev_input_blocked && keys.match_reset();
    let from_setup = world.state.phase == MatchPhase::Setup;
    let used = if in_menu {
        menu_used(world, keys, context)
    } else {
        world
    };
    if in_menu && rematch {
        reseeded(used)
    } else {
        let following = if in_menu {
            synced(used)
        } else {
            used
        };
        let asked = if in_menu && keys.just_pressed.contains(KeyCode::Enter) {
            match_requested(following)
        } else {
            following
        };
        let wanted = if rematch {
            GlobalModel { state: asked.state.rematch_requested(), ..asked }
        } else {
            asked
        };
        reset_if_due(wanted, context, from_setup && !rematch)
    }
}

/// The hitbox view toggled, if its key was pressed.
pub open spec fn debug_toggled(
    world: GlobalModel,
    keys: KeyModel,
    context: GlobalContext,
) -> GlobalModel {
    if !context.dev_input_blocked && keys.just_pressed.contains(KeyCode::KeyH) {
        GlobalModel {
            state: MatchModel { debug_hitboxes: !world.state.debug_hitboxes, ..world.state },
            ..world
        }
    } else {
        world
    }
}

/// All match-wide keys of one frame. While they are blocked only a reset that was
/// asked for elsewhere goes ahead; in the menu they need the editor's leave.
pub open spec fn handled(
    world: GlobalModel,
    keys: KeyModel,
    context: GlobalContext,
) -> GlobalModel {
    let open = !context.dev_input_blocked;
    let toggled = debug_toggled(world, keys, context);
    if !open && !toggled.state.reset_requested {
        toggled
    } else if open && world.state.phase == MatchPhase::Setup && !context.editor_allows_setup {
        toggled
    } else {
        let cycled = if open && world.state.phase == MatchPhase::Fighting
            && keys.dev_character_cycle() && toggled.state.active(0) {
            dev_cycled(toggled, context)
        } else {
            toggled
        };
        let ruled = if open && world.state.phase == MatchPhase::Setup {
            rules_picked(cycled, keys)
        } else {
            cycled
        };
        if open && world.state.phase == MatchPhase::Results && keys.just_pressed.contains(
            KeyCode::Enter,
        ) {
            back_in_setup(ruled, context)
        } else {
            flow_handled(ruled, keys, context)
        }
    }
}

fn cycle_first_fighter(world: &mut GlobalWorld, context: &GlobalContext)
    ensures
        final(world)@ == dev_cycled(old(world)@, *context),
{
    let next = cycle_dev_player_character(&mut world.setup);
    if context.first_fighter_present {
        world.outcome.first_fighter_character = Some(next);
        world.outcome.announcement = Some(GlobalAnnouncement::DevCharacter(next));
    }
}

fn pick_rule(world: &mut GlobalWorld, index: usize)
    requires
        index < RULE_PRESET_COUNT,
        old(world).state.phase == MatchPhase::Setup,
    ensures
        final(world)@ == rule_picked(old(world)@, index),
{
    world.setup.set_rule(index);
    world.state.select_rule(world.setup.rule_index);
}

fn pick_rules(world: &mut GlobalWorld, keys: &KeySnapshot)
    requires
        old(world).state.phase == MatchPhase::Setup,
    ensures
        final(world)@ == rules_picked(old(world)@, keys@),
{
    if keys.just_pressed(KeyCode::Digit1) {
        pick_rule(world, 0);
    }
    if keys.just_pressed(KeyCode::Digit2) {
        pick_rule(world, 1);
    }
    if keys.just_pressed(KeyCode::Digit3) {
        pick_rule(world, 2);
    }
}

fn go_back_to_setup(world: &mut GlobalWorld, context: &GlobalContext)
    ensures
        final(world)@ == back_in_setup(old(world)@, *context),
{
    world.setup.rule_index = world.state.rule_index;
    world.setup.arena_index = world.state.arena_index;
    world.setup.replay_seed = world.state.replay_seed;
    world.state.return_to_setup();
    world.state.apply_local_setup(&world.setup);
    world.hitstop.remaining = 0;
    world.outcome.announcement = Some(GlobalAnnouncement::SetupPrompt);
    world.outcome.active_arena = Some(world.setup.arena_index);
    if context.item_assets_ready {
        world.outcome.reset_world = true;
    }
}

fn pick_characters(world: &mut GlobalWorld, keys: &KeySnapshot)
    ensures
        final(world)@ == characters_picked(old(world)@, keys@),
{
    if keys.just_pressed(KeyCode::Tab) {
        world.setup.cycle_selected_character_fighter();
    }
    if keys.just_pressed(KeyCode::KeyQ) {
        world.setup.selected_character_fighter = 0;
        world.setup.cycle_character_previous(0);
        world.outcome.announcement = Some(
            GlobalAnnouncement::PlayerCharacter(world.setup.player_character()),
        );
    }
    if keys.just_pressed(KeyCode::KeyE) {
        world.setup.selected_character_fighter = 0;
        world.setup.cycle_character(0);
        world.outcome.announcement = Some(
            GlobalAnnouncement::PlayerCharacter(world.setup.player_character()),
        );
    }
    if keys.just_pressed(KeyCode::KeyP) && !shift_pressed(keys) {
        world.setup.selected_character_fighter = 0;
        world.setup.set_character(0, CharacterKind::Pig);
        world.outcome.announcement = Some(
            GlobalAnnouncement::PlayerCharacter(CharacterKind::Pig),
        );
    }
}

fn pick_arena(world: &mut GlobalWorld, keys: &KeySnapshot, context: &GlobalContext)
    ensures
        final(world)@ == arena_picked(old(world)@, keys@, *context),
{
    if keys.just_pressed(KeyCode::KeyA) {
        world.setup.cycle_arena(context.arena_count);
        world.outcome.active_arena = Some(world.setup.arena_index);
    }
    if keys.just_pressed(KeyCode::KeyB) {
        let ghost before = world.setup@;
        world.setup.cycle_bot_count();
        proof {
            assert(world.setup@.slots =~= one_bot(before).slots);
        }
    }
}

fn pick_loadouts(setup: &mut LocalSetup, keys: &KeySnapshot)
    ensures
        final(setup)@ == loadouts_picked(old(setup)@, keys@),
{
    if keys.just_pressed(KeyCode::KeyZ) {
        setup.cycle_style(0);
    }
    if keys.just_pressed(KeyCode::KeyX) {
        setup.cycle_style(1);
    }
    if keys.just_pressed(KeyCode::KeyC) {
        setup.cycle_character(0);
    }
    if keys.just_pressed(KeyCode::KeyV) {
        setup.cycle_character(1);
    }
    if keys.just_pressed(KeyCode::KeyT) {
        setup.cycle_equipment(0);
    }
    if keys.just_pressed(KeyCode::KeyY) {
        setup.cycle_equipment(1);
    }
}

fn use_menu(world: &mut GlobalWorld, keys: &KeySnapshot, context: &GlobalContext)
    ensures
        final(world)@ == menu_used(old(world)@, keys@, *context),
        final(world).state.phase == old(world).state.phase,
{
    proof {
        reveal(menu_used);
    }
    pick_characters(world, keys);
    pick_arena(world, keys, context);
    pick_loadouts(&mut world.setup, keys);
}

fn request_match(world: &mut GlobalWorld)
    ensures
        final(world)@ == match_requested(old(world)@),
{
    world.state.rule_index = world.setup.rule_index;
    world.state.rules = world.setup.active_rule();
    world.state.arena_index = world.setup.arena_index;
    world.state.apply_local_setup(&world.setup);
    world.state.replay_seed = world.setup.replay_seed;
    world.outcome.active_arena = Some(world.state.arena_index);
    world.state.request_rematch();
}

fn reset_when_due(world: &mut GlobalWorld, context: &GlobalContext, keep_seed: bool)
    ensures
        final(world)@ == reset_if_due(old(world)@, *context, keep_seed),
{
    if !world.state.reset_requested {
        return ;
    }
    if context.hides_dev_controls && !context.gameplay_ready {
        return ;
    }
    if !context.item_assets_ready {
        return ;
    }
    let seed: u64 = if keep_seed {
        world.setup.replay_seed
    } else {
        let seed: u64 = world.state.advance_replay_seed();
        world.setup.replay_seed = seed;
        seed
    };
    world.state.replay_seed = seed;
    world.state.reset_for_new_match();
    world.telemetry.reset_for_seed(seed);
    world.hitstop.remaining = 0;
    world.outcome.announcement = Some(GlobalAnnouncement::Fight);
    world.outcome.active_arena = Some(world.state.arena_index);
    world.outcome.reset_world = true;
}

fn handle_flow(world: &mut GlobalWorld, keys: &KeySnapshot, context: &GlobalContext)
    ensures
        final(world)@ == flow_handled(old(world)@, keys@, *context),
{
    let from_setup = world.state.phase == MatchPhase::Setup;
    let in_menu = !context.dev_input_blocked && from_setup;
    let rematch = !context.dev_input_blocked && match_reset_pressed(keys);
    if in_menu {
        use_menu(world, keys, context);
        if rematch {
            world.state.replay_seed = world.setup.advance_replay_seed();
            return ;
        }
        world.state.apply_local_setup(&world.setup);
        world.outcome.sync_setup = true;
        if keys.just_pressed(KeyCode::Enter) {
            request_match(world);
        }
    }
    if rematch {
        world.state.request_rematch();
    }
    reset_when_due(world, context, from_setup && !rematch);
}

/// Handles all match-wide keys of one frame.
pub fn handle_global_input(world: &mut GlobalWorld, keys: &KeySnapshot, context: &GlobalContext)
    ensures
        final(world)@ == handled(old(world)@, keys@, *context),
{
    let open = !context.dev_input_blocked;
    let phase = world.state.phase;
    if open && keys.just_pressed(KeyCode::KeyH) {
        world.state.debug_hitboxes = !world.state.debug_hitboxes;
    }
    if !open && !world.state.reset_requested {
        return ;
    }
    if open && phase == MatchPhase::Setup && !context.editor_allows_setup {
        return ;
    }
    if open && phase == MatchPhase::Fighting && dev_character_cycle_pressed(keys)
        && world.state.fighter_active(0) {
        cycle_first_fighter(world, context);
    }
    if open && setup_rule_hotkeys_active(phase) {
        pick_rules(world, keys);
    }
    if open && phase == MatchPhase::Results && keys.just_pressed(KeyCode::Enter) {
        go_back_to_setup(world, context);
        return ;
    }
    handle_flow(world, keys, context);
}

/// While keys are blocked they change nothing: the outcome is the same whatever
/// is pressed.
pub proof fn blocked_keys_change_nothing(
    world: GlobalModel,
    left: KeyModel,
    right: KeyModel,
    context: GlobalContext,
)
    requires
        context.dev_input_blocked,
    ensures
        handled(world, left, context) == handled(world, right, context),
        !world.state.reset_requested ==> handled(world, left, context) == world,
{
}

/// A rematch during a fight draws the next seed, restores every life and starts
/// fighting at once.
pub proof fn rematches_start_over(world: GlobalModel, keys: KeyModel, context: GlobalContext)
    requires
        !context.dev_input_blocked,
        context.item_assets_ready,
        !context.hides_dev_controls,
        world.state.phase == MatchPhase::Fighting,
        keys.match_reset(),
    ensures
        ({
            let after = handled(world, keys, context);
            &&& after.state.phase == MatchPhase::Fighting
            &&& !after.state.reset_requested
            &&& after.state.stocks == crate::match_state::equal_stocks(
                world.state.rules.opening_stock(),
            )
            &&& after.state.replay_seed == spec_next_replay_seed(world.state.replay_seed)
            &&& after.setup.replay_seed == after.state.replay_seed
            &&& after.telemetry == MatchTelemetry::fresh(after.state.replay_seed)
            &&& after.outcome.reset_world
        }),
{
}

proof fn lemma_loadouts_keep_the_seed(setup: SetupModel, keys: KeyModel)
    ensures
        loadouts_picked(setup, keys).replay_seed == setup.replay_seed,
        loadouts_picked(setup, keys).arena_index == setup.arena_index,
        loadouts_picked(setup, keys).rule_index == setup.rule_index,
{
}

proof fn lemma_menu_keeps_the_match(world: GlobalModel, keys: KeyModel, context: GlobalContext)
    ensures
        menu_used(world, keys, context).state == world.state,
        menu_used(world, keys, context).setup.replay_seed == world.setup.replay_seed,
        menu_used(world, keys, context).setup.rule_index == world.setup.rule_index,
{
    reveal(menu_used);
    let picked = characters_picked(world, keys);
    let placed = arena_picked(picked, keys, context);
    lemma_loadouts_keep_the_seed(placed.setup, keys);
}

/// Starting from the menu plays the seed that the menu shows, under its rules and
/// in its arena.
pub proof fn menu_start_keeps_the_seed(
    world: GlobalModel,
    keys: KeyModel,
    context: GlobalContext,
)
    requires
        !context.dev_input_blocked,
        context.editor_allows_setup,
        context.item_assets_ready,
        !context.hides_dev_controls,
        world.state.phase == MatchPhase::Setup,
        keys.just_pressed.contains(KeyCode::Enter),
        !keys.match_reset(),
    ensures
        ({
            let after = handled(world, keys, context);
            &&& after.state.phase == MatchPhase::Fighting
            &&& after.state.replay_seed == world.setup.replay_seed
            &&& after.state.rule_index == after.setup.rule_index
            &&& after.state.arena_index == after.setup.arena_index
            &&& after.outcome.active_arena == Some(after.setup.arena_index)
        }),
{
    let ruled = rules_picked(debug_toggled(world, keys, context), keys);
    lemma_menu_keeps_the_match(ruled, keys, context);
}

/// A fighter as match-wide resets see it.
#[derive(Clone, Copy, Debug, PartialEq, Eq)]
pub struct ResettableFighter {
    pub stats: FighterStats,
    pub motor: FighterMotor,
    pub input: FighterInput,
    pub action: FighterActionState,
    pub grab: FighterGrabState,
    pub special_cooldown: Scalar,
    /// The number of the item in hand.
    pub held_item: Option<u32>,
    pub position: SimVec3,
    pub spawn: SimVec3,
    /// The velocity is to be zero.
    pub halted: bool,
    pub visible: bool,
}

/// The motor at the start of a match. Guard, dash and slide timers run on.
pub open spec fn motor_rested(motor: FighterMotor) -> FighterMotor {
    FighterMotor {
        grounded: true,
        knockdown_on_land: false,
        landing_aftermath: None,
        reaction_bounces: 0,
        pig_air_meat_slam_air_hits: 0,
        air_attack_used: false,
        jump_attack_landing_recovery: false,
        ledge_grace_timer: TickTimer::zero(),
        landing_stick_timer: TickTimer::zero(),
        jump_takeoff_timer: TickTimer::zero(),
        impact_speed_limit_timer: TickTimer::zero(),
        impact_speed_limit: Scalar::zero(),
        ..motor.without_bee_dash()
    }
}

/// A fighter at the start of a match, or out of it where its seat is not in. Either
/// way it rests at `spawn`, with nothing in hand.
pub open spec fn match_reset(
    fighter: ResettableFighter,
    active: bool,
    spawn: SimVec3,
    tuning: FighterTuning,
) -> ResettableFighter {
    ResettableFighter {
        stats: FighterStats {
            health: tuning.max_health,
            stamina: tuning.max_stamina,
            health_refill_timer: TickTimer::zero(),
            item_speed_timer: TickTimer::zero(),
            item_giant_timer: TickTimer::zero(),
            score: 0,
            last_attacker: None,
            invulnerability: TickTimer::zero(),
            respawn_timer: if active {
                TickTimer::zero()
            } else {
                TickTimer::indefinite()
            },
            ..fighter.stats
        },
        motor: motor_rested(fighter.motor),
        input: FighterInput::neutral(),
        action: fighter.action.forced(
            if active {
                FighterAction::Idle
            } else {
                FighterAction::RingOut
            },
        ).without_reaction(),
        grab: FighterGrabState { holding: None, held_by: None, regrab_lockout: TickTimer::zero() },
        special_cooldown: Scalar::zero(),
        held_item: None,
        position: spawn,
        spawn,
        halted: true,
        visible: active,
    }
}

fn rest_motor(motor: &mut FighterMotor)
    ensures
        *final(motor) == motor_rested(*old(motor)),
{
    motor.grounded = true;
    motor.knockdown_on_land = false;
    motor.landing_aftermath = None;
    motor.reaction_bounces = 0;
    motor.pig_air_meat_slam_air_hits = 0;
    motor.air_attack_used = false;
    motor.jump_attack_landing_recovery = false;
    motor.clear_bee_dash();
    motor.ledge_grace_timer.clear();
    motor.landing_stick_timer.clear();
    motor.jump_takeoff_timer.clear();
    motor.impact_speed_limit_timer.clear();
    motor.impact_speed_limit = Scalar::zero();
}

/// Resets a fighter for a new match or for the setup menu, at its spawn in the arena
/// that is active now.
pub fn reset_fighter(
    fighter: &mut ResettableFighter,
    active: bool,
    spawn: SimVec3,
    tuning: &FighterTuning,
)
    ensures
        *final(fighter) == match_reset(*old(fighter), active, spawn, *tuning),
{
    fighter.stats.health = tuning.max_health;
    fighter.stats.stamina = tuning.max_stamina;
    fighter.stats.health_refill_timer.clear();
    fighter.stats.item_speed_timer.clear();
    fighter.stats.item_giant_timer.clear();
    fighter.stats.score = 0;
    fighter.stats.last_attacker = None;
    fighter.stats.invulnerability.clear();
    fighter.stats.respawn_timer = if active {
        TickTimer::zero()
    } else {
        TickTimer::indefinite()
    };
    fighter.input = FighterInput::default();
    fighter.grab.holding = None;
    fighter.grab.held_by = None;
    fighter.grab.regrab_lockout.clear();
    fighter.special_cooldown = Scalar::zero();
    fighter.held_item = None;
    fighter.spawn = spawn;
    fighter.position = spawn;
    fighter.halted = true;
    rest_motor(&mut fighter.motor);
    if active {
        fighter.action.force(FighterAction::Idle);
    } else {
        fighter.action.force(FighterAction::RingOut);
    }
    fighter.action.reaction_getup_ms = None;
    fighter.action.reaction_recover_ms = None;
    fighter.action.clear_reaction_visual();
    fighter.visible = active;
}

/// A fighter that follows the setup menu: seats that are taken stand ready, the
/// others are out of sight.
pub open spec fn setup_synced(fighter: ResettableFighter, active: bool) -> ResettableFighter {
    if active {
        ResettableFighter {
            action: if fighter.action.action == FighterAction::RingOut {
                FighterActionState {
                    action: FighterAction::Idle,
                    elapsed: ElapsedTicks::zero(),
                    ..fighter.action
                }
            } else {
                fighter.action
            },
            visible: true,
            ..fighter
        }
    } else {
        ResettableFighter {
            input: FighterInput::neutral(),
            action: FighterActionState {
                action: FighterAction::RingOut,
                elapsed: ElapsedTicks::zero(),
                ..fighter.action
            },
            visible: false,
            ..fighter
        }
    }
}

pub fn sync_fighter_with_setup(fighter: &mut ResettableFighter, active: bool)
    ensures
        *final(fighter) == setup_synced(*old(fighter), active),
{
    if active {
        if fighter.action.action == FighterAction::RingOut {
            fighter.action.action = FighterAction::Idle;
            fighter.action.elapsed.reset();
        }
        fighter.visible = true;
    } else {
        fighter.input = FighterInput::default();
        fighter.action.action = FighterAction::RingOut;
        fighter.action.elapsed.reset();
        fighter.visible = false;
    }
}

/// The four fighters after match-wide keys: reset where the world is, brought in line
/// with the menu where only that is asked for, and otherwise as they were.
pub open spec fn fighters_handled(
    world: GlobalModel,
    fighters: Seq<Option<ResettableFighter>>,
    spawn_points: Seq<SimVec3>,
    tuning: FighterTuning,
) -> Seq<Option<ResettableFighter>> {
    Seq::new(
        fighters.len(),
        |i: int|
            match fighters[i] {
                Some(fighter) => Some(
                    if world.outcome.reset_world {
                        match_reset(fighter, world.state.active(i), spawn_points[i], tuning)
                    } else if world.outcome.sync_setup {
                        setup_synced(fighter, world.state.active(i))
                    } else {
                        fighter
                    },
                ),
                None => None,
            },
    )
}

/// Does to the four fighters what the match-wide keys ask for. `spawn_points` are those
/// of the arena that is active now.
pub fn apply_global_outcome(
    world: &GlobalWorld,
    fighters: &mut [Option<ResettableFighter>; FIGHTER_COUNT],
    spawn_points: &[SimVec3; FIGHTER_COUNT],
    tuning: &FighterTuning,
)
    ensures
        final(fighters)@ == fighters_handled(world@, old(fighters)@, spawn_points@, *tuning),
{
    let ghost expected = fighters_handled(world@, fighters@, spawn_points@, *tuning);
    let mut next: usize = 0;
    while next < FIGHTER_COUNT
        invariant
            next <= FIGHTER_COUNT,
            expected == fighters_handled(world@, old(fighters)@, spawn_points@, *tuning),
            forall|i: int|
                0 <= i < FIGHTER_COUNT ==> (#[trigger] fighters@[i]) == (if i < next {
                    expected[i]
                } else {
                    old(fighters)@[i]
                }),
        decreases FIGHTER_COUNT - next,
    {
        if let Some(fighter) = fighters[next] {
            let mut after = fighter;
            let active = world.state.fighter_active(next);
            if world.outcome.reset_world {
                reset_fighter(&mut after, active, spawn_points[next], tuning);
            } else if world.outcome.sync_setup {
                sync_fighter_with_setup(&mut after, active);
            }
            fighters[next] = Some(after);
        }
        next += 1;
    }
    proof {
        assert(fighters@ =~= expected);
    }
}

/// Where items go when the world is reset: each to the anchor of its own place in the
/// arena that is active now, and out of the match where there is none.
pub fn item_anchors(item_count: usize, anchor_count: usize) -> (anchors: Vec<Option<usize>>)
    ensures
        anchors@ == Seq::new(
            item_count as nat,
            |i: int|
                if i < anchor_count {
                    Some(i as usize)
                } else {
                    None
                },
        ),
{
    let mut anchors: Vec<Option<usize>> = Vec::new();
    while anchors.len() < item_count
        invariant
            anchors@.len() <= item_count,
            forall|i: int|
                0 <= i < anchors@.len() ==> (#[trigger] anchors@[i]) == (if i < anchor_count {
                    Some(i as usize)
                } else {
                    None
                }),
        decreases item_count - anchors@.len(),
    {
        let next: usize = anchors.len();
        anchors.push(
            if next < anchor_count {
                Some(next)
            } else {
                None
            },
        );
    }
    anchors
}

/// The name of a character.
pub open spec fn character_name(kind: CharacterKind) -> Seq<char> {
    match kind {
        CharacterKind::Cat => "Cat"@,
        CharacterKind::Pig => "Pig"@,
        CharacterKind::Dog => "Dog"@,
        CharacterKind::Fox => "Fox"@,
        CharacterKind::Panda => "Panda"@,
        CharacterKind::Bee => "Bee"@,
        CharacterKind::Penguin => "Penguin"@,
        CharacterKind::Chick => "Chick"@,
    }
}

pub fn character_label(kind: CharacterKind) -> (label: &'static str)
    ensures
        label@ == character_name(kind),
{
    match kind {
        CharacterKind::Cat => "Cat",
        CharacterKind::Pig => "Pig",
        CharacterKind::Dog => "Dog",
        CharacterKind::Fox => "Fox",
        CharacterKind::Panda => "Panda",
        CharacterKind::Bee => "Bee",
        CharacterKind::Penguin => "Penguin",
        CharacterKind::Chick => "Chick",
    }
}

/// The words of an announcement.
pub open spec fn announcement_words(announcement: GlobalAnnouncement) -> Seq<char> {
    match announcement {
        GlobalAnnouncement::DevCharacter(kind) => "Dev character: "@ + character_name(kind),
        GlobalAnnouncement::PlayerCharacter(kind) => "Player character: "@ + character_name(kind),
        GlobalAnnouncement::SetupPrompt => "Setup - adjust or press Enter"@,
        GlobalAnnouncement::Fight => "Fight!"@,
    }
}

/// The words of an announcement and how long they stay, in milliseconds.
pub fn announcement_text(announcement: GlobalAnnouncement) -> (text: (String, u32))
    ensures
        text.0@ == announcement_words(announcement),
        text.1 == (if announcement == GlobalAnnouncement::SetupPrompt {
            1200u32
        } else {
            900u32
        }),
{
    match announcement {
        GlobalAnnouncement::DevCharacter(kind) => {
            let mut message = "Dev character: ".to_owned();
            message.append(character_label(kind));
            (message, 900)
        },
        GlobalAnnouncement::PlayerCharacter(kind) => {
            let mut message = "Player character: ".to_owned();
            message.append(character_label(kind));
            (message, 900)
        },
        GlobalAnnouncement::SetupPrompt => ("Setup - adjust or press Enter".to_owned(), 1200),
        GlobalAnnouncement::Fight => ("Fight!".to_owned(), 900),
    }
}

/// Whatever a fighter was doing, a reset leaves nothing of it that could act:
/// no hold, no queued or buffered technique, no hit reaction, no item, no score. It
/// rests at its spawn, whether its seat is in or not.
pub proof fn resets_leave_nothing_behind(
    fighter: ResettableFighter,
    active: bool,
    spawn: SimVec3,
    tuning: FighterTuning,
)
    ensures
        ({
            let after = match_reset(fighter, active, spawn, tuning);
            &&& after.grab.holding.is_none()
            &&& after.grab.held_by.is_none()
            &&& after.action.queued_technique.is_none()
            &&& after.action.buffered_button.is_none()
            &&& after.action.reaction_family.is_none()
            &&& after.held_item.is_none()
            &&& after.stats.score == 0
            &&& after.input == FighterInput::neutral()
            &&& after.position == spawn
            &&& after.spawn == spawn
            &&& after.halted
            &&& after.visible == active
        }),
{
}

/// A reset undoes what the menu did to a fighter in the same frame.
pub proof fn resets_override_the_menu(
    fighter: ResettableFighter,
    seated: bool,
    active: bool,
    spawn: SimVec3,
    tuning: FighterTuning,
)
    ensures
        match_reset(setup_synced(fighter, seated), active, spawn, tuning) == match_reset(
            fighter,
            active,
            spawn,
            tuning,
        ),
{
}

/// The menu moves nobody and takes nothing out of anybody's hand.
pub proof fn the_menu_moves_nobody(fighter: ResettableFighter, active: bool)
    ensures
        ({
            let after = setup_synced(fighter, active);
            &&& after.position == fighter.position
            &&& after.spawn == fighter.spawn
            &&& after.halted == fighter.halted
            &&& after.held_item == fighter.held_item
            &&& after.stats == fighter.stats
            &&& after.motor == fighter.motor
        }),
{
}

/// A reset that was requested comes while keys are blocked, as soon as the scene and
/// the items are ready: the fight starts with full lives, fresh counters and one seed
/// for all, and each fighter rests whole at its spawn, in sight exactly where its seat
/// is in.
pub proof fn requested_resets_start_the_fight(
    world: GlobalModel,
    keys: KeyModel,
    context: GlobalContext,
    fighters: Seq<Option<ResettableFighter>>,
    spawn_points: Seq<SimVec3>,
    tuning: FighterTuning,
    seat: int,
)
    requires
        context.dev_input_blocked,
        context.item_assets_ready,
        !context.hides_dev_controls || context.gameplay_ready,
        world.state.reset_requested,
        0 <= seat < fighters.len(),
        fighters[seat].is_some(),
    ensures
        ({
            let after = handled(world, keys, context);
            let fighter = fighters_handled(after, fighters, spawn_points, tuning)[seat].unwrap();
            let active = world.state.active(seat);
            &&& after.state.phase == MatchPhase::Fighting
            &&& !after.state.reset_requested
            &&& after.state.stocks == crate::match_state::equal_stocks(
                world.state.rules.opening_stock(),
            )
            &&& after.telemetry == MatchTelemetry::fresh(after.state.replay_seed)
            &&& after.state.replay_seed == after.setup.replay_seed
            &&& after.hitstop.remaining == 0
            &&& after.outcome.reset_world
            &&& after.outcome.active_arena == Some(after.state.arena_index)
            &&& after.state.active(seat) == active
            &&& fighter.stats.health == tuning.max_health
            &&& fighter.stats.stamina == tuning.max_stamina
            &&& fighter.stats.score == 0
            &&& fighter.stats.last_attacker.is_none()
            &&& fighter.held_item.is_none()
            &&& fighter.grab.holding.is_none()
            &&& fighter.grab.held_by.is_none()
            &&& fighter.halted
            &&& fighter.position == spawn_points[seat]
            &&& fighter.spawn == spawn_points[seat]
            &&& fighter.visible == active
            &&& fighter.action.action == (if active {
                FighterAction::Idle
            } else {
                FighterAction::RingOut
            })
            &&& fighter.stats.respawn_timer == (if active {
                TickTimer::zero()
            } else {
                TickTimer::indefinite()
            })
        }),
{
}

} // verus!

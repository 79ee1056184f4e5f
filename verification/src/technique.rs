//! Techniques as tables: what an action may start, how long it lasts and when it
//! may be followed up.

use vstd::prelude::*;

use crate::action::{
    FighterAction, FighterActionState, buffer_pressed_technique_button, clear_buffered_button,
    set_technique_action, with_pressed_button,
};
use crate::input::{FighterInput, TechniqueButton, pressed_raw_technique_button};
use crate::scalar::Scalar;
use crate::ticks::ElapsedTicks;

verus! {

#[derive(Clone, Copy, Debug, PartialEq, Eq, Structural)]
pub enum TechniqueId {
    GuardCounter,
    CatLight1,
    CatLight2,
    CatComboFinisher,
    CatDashAttack,
    CatDashComboFinisher,
    CatHeavy,
    CatHeavy2,
    CatJumpAttack,
    CatJumpHeavy,
    CatUltimateStartup,
    CatUltimateRush,
    PigLight1,
    PigLight2,
    PigComboFinisher,
    PigHeavy,
    PigHeavy2,
    PigJumpHeavy,
    PigUltimateStartup,
    PigUltimateRush,
    DogLight1,
    DogLight2,
    FoxLight1,
    FoxLight2,
    PandaLight1,
    PandaLight2,
    BeeJumpAttack,
    BeeJumpHeavy,
    BeeUltimateStartup,
    BeeLegacyUltimateStartup,
    BeeLegacyUltimateRush,
    PenguinLight1,
    PenguinLight2,
    PenguinDashAttack,
    PenguinDashHeavy,
    PenguinJumpAttack,
    PenguinJumpHeavy,
    PenguinUltimateStartup,
    PenguinUltimateRush,
    ChickLight1,
    ChickLight2,
    ChickHeavy,
    ChickDashAttack,
    ChickDashHeavy,
    ChickJumpAttack,
    ChickJumpHeavy,
    ChickUltimateStartup,
}

/// A technique as far as starting it goes.
#[derive(Clone, Copy, Debug, PartialEq, Eq, Structural)]
pub struct TechniqueDefinition {
    pub id: TechniqueId,
    pub action: FighterAction,
    pub stamina_cost: Scalar,
}

/// A span of ticks, from `opens` up to but without `closes`.
#[derive(Clone, Copy, Debug, PartialEq, Eq, Structural)]
pub struct TickWindow {
    pub opens: u32,
    pub closes: u32,
}

impl TickWindow {
    pub open spec fn spec_contains(self, elapsed: ElapsedTicks) -> bool {
        self.opens <= elapsed.ticks < self.closes
    }

    #[verifier::when_used_as_spec(spec_contains)]
    pub fn contains(self, elapsed: ElapsedTicks) -> (inside: bool)
        ensures
            inside == self.spec_contains(elapsed),
    {
        self.opens <= elapsed.ticks && elapsed.ticks < self.closes
    }
}

/// One of several windows is open.
pub open spec fn any_window_open(windows: Seq<TickWindow>, elapsed: ElapsedTicks) -> bool {
    exists|i: int| 0 <= i < windows.len() && (#[trigger] windows[i]).contains(elapsed)
}

fn window_open(windows: &Vec<TickWindow>, elapsed: ElapsedTicks) -> (open: bool)
    ensures
        open == any_window_open(windows@, elapsed),
{
    let mut next: usize = 0;
    while next < windows.len()
        invariant
            next <= windows@.len(),
            forall|i: int| 0 <= i < next ==> !(#[trigger] windows@[i]).contains(elapsed),
        decreases windows@.len() - next,
    {
        if windows[next].contains(elapsed) {
            return true;
        }
        next += 1;
    }
    false
}

/// What is in force while `action` runs under `technique_id`: the technique that
/// it is, its timing in ticks, and when it may be cancelled, branched from or
/// followed by the next technique. A whiffed heavy attack may last longer.
#[derive(Debug)]
pub struct ActiveTechnique {
    pub action: FighterAction,
    pub technique_id: Option<TechniqueId>,
    pub id: TechniqueId,
    pub input_buffer_ms: u32,
    pub duration: u32,
    pub whiff_duration: u32,
    pub cancel: Vec<TickWindow>,
    pub branch: Vec<TickWindow>,
    pub next_technique: Vec<TickWindow>,
}

/// When one technique may follow another. Conditions that are `None` always hold.
/// Such rows are this library's own model of how techniques chain: the first row of
/// the table that applies decides, so whoever fills it settles precedence by order.
#[derive(Clone, Copy, Debug, PartialEq, Eq, Structural)]
pub struct ChainRule {
    pub previous: Option<TechniqueId>,
    pub button: TechniqueButton,
    pub window: TickWindow,
    pub grounded: Option<bool>,
    pub confirmed_hit: Option<bool>,
    pub cancel_open: Option<bool>,
    pub branch_open: Option<bool>,
    pub action: Option<FighterAction>,
    pub next: TechniqueId,
}

/// The technique behind a button while no technique is under way.
#[derive(Clone, Copy, Debug, PartialEq, Eq, Structural)]
pub struct RawTechnique {
    pub button: TechniqueButton,
    pub grounded: bool,
    pub technique: TechniqueDefinition,
}

/// A named place in a character's move list.
#[derive(Clone, Copy, Debug, PartialEq, Eq, Structural)]
pub enum CharacterMoveSlot {
    DashLight,
    DashHeavy,
    JumpLight,
    JumpHeavy,
    UltimateStartup,
    UltimateRush,
}

/// What stands in a move slot: the character's technique, and its definition for
/// the loadout in use.
#[derive(Clone, Copy, Debug, PartialEq, Eq, Structural)]
pub struct MoveSlotEntry {
    pub slot: CharacterMoveSlot,
    pub technique: Option<TechniqueId>,
    pub definition: Option<TechniqueDefinition>,
}

/// The moves of one loadout. The first matching row of a table decides.
#[derive(Debug)]
pub struct MoveTable {
    pub definitions: Vec<TechniqueDefinition>,
    pub slots: Vec<MoveSlotEntry>,
    pub active: Vec<ActiveTechnique>,
    pub chains: Vec<ChainRule>,
    pub raw: Vec<RawTechnique>,
    pub heavy_armor_ticks: Option<u32>,
}

/// What a chain rule looks at.
#[derive(Clone, Copy, Debug, PartialEq, Eq, Structural)]
pub struct TechniqueMatchContext {
    pub previous: Option<TechniqueId>,
    pub button: TechniqueButton,
    pub elapsed: ElapsedTicks,
    pub grounded: bool,
    pub confirmed_hit: bool,
    pub cancel_window_open: bool,
    pub branch_window_open: bool,
    pub current_action: FighterAction,
}

/// A condition holds for a fact.
pub open spec fn condition_met(condition: Option<bool>, fact: bool) -> bool {
    match condition {
        Some(wanted) => wanted == fact,
        None => true,
    }
}

fn condition_holds(condition: Option<bool>, fact: bool) -> (met: bool)
    ensures
        met == condition_met(condition, fact),
{
    match condition {
        Some(wanted) => wanted == fact,
        None => true,
    }
}

impl ChainRule {
    pub open spec fn applies(self, context: TechniqueMatchContext) -> bool {
        &&& self.previous == context.previous
        &&& self.button == context.button
        &&& self.window.contains(context.elapsed)
        &&& condition_met(self.grounded, context.grounded)
        &&& condition_met(self.confirmed_hit, context.confirmed_hit)
        &&& condition_met(self.cancel_open, context.cancel_window_open)
        &&& condition_met(self.branch_open, context.branch_window_open)
        &&& match self.action {
            Some(action) => action == context.current_action,
            None => true,
        }
    }

    fn applies_to(self, context: TechniqueMatchContext) -> (applies: bool)
        ensures
            applies == self.applies(context),
    {
        let same_previous = match (self.previous, context.previous) {
            (Some(wanted), Some(previous)) => wanted == previous,
            (None, None) => true,
            _ => false,
        };
        let same_action = match self.action {
            Some(action) => action == context.current_action,
            None => true,
        };
        same_previous && self.button == context.button && self.window.contains(context.elapsed)
            && condition_holds(self.grounded, context.grounded) && condition_holds(
            self.confirmed_hit,
            context.confirmed_hit,
        ) && condition_holds(self.cancel_open, context.cancel_window_open) && condition_holds(
            self.branch_open,
            context.branch_window_open,
        ) && same_action
    }
}

/// The first definition of a technique.
pub open spec fn definition_in(
    definitions: Seq<TechniqueDefinition>,
    id: TechniqueId,
) -> Option<TechniqueDefinition>
    decreases definitions.len(),
{
    if definitions.len() == 0 {
        None
    } else if definitions[0].id == id {
        Some(definitions[0])
    } else {
        definition_in(definitions.drop_first(), id)
    }
}

/// The first entry of a move slot.
pub open spec fn slot_in(
    slots: Seq<MoveSlotEntry>,
    slot: CharacterMoveSlot,
) -> Option<MoveSlotEntry>
    decreases slots.len(),
{
    if slots.len() == 0 {
        None
    } else if slots[0].slot == slot {
        Some(slots[0])
    } else {
        slot_in(slots.drop_first(), slot)
    }
}

/// The first row for an action and technique.
pub open spec fn active_in(
    rows: Seq<ActiveTechnique>,
    action: FighterAction,
    technique_id: Option<TechniqueId>,
) -> Option<ActiveTechnique>
    decreases rows.len(),
{
    if rows.len() == 0 {
        None
    } else if rows[0].action == action && rows[0].technique_id == technique_id {
        Some(rows[0])
    } else {
        active_in(rows.drop_first(), action, technique_id)
    }
}

/// The technique of the first rule that applies.
pub open spec fn chained_in(rules: Seq<ChainRule>, context: TechniqueMatchContext) -> Option<
    TechniqueId,
>
    decreases rules.len(),
{
    if rules.len() == 0 {
        None
    } else if rules[0].applies(context) {
        Some(rules[0].next)
    } else {
        chained_in(rules.drop_first(), context)
    }
}

/// The first technique behind a button.
pub open spec fn raw_in(rows: Seq<RawTechnique>, button: TechniqueButton, grounded: bool) -> Option<
    TechniqueDefinition,
>
    decreases rows.len(),
{
    if rows.len() == 0 {
        None
    } else if rows[0].button == button && rows[0].grounded == grounded {
        Some(rows[0].technique)
    } else {
        raw_in(rows.drop_first(), button, grounded)
    }
}

/// The windows of the technique under way.
#[derive(Clone, Copy, Debug, PartialEq, Eq, Structural)]
pub struct TechniqueRuntime {
    pub id: Option<TechniqueId>,
    pub cancel_open: bool,
    pub branch_open: bool,
    pub next_technique_open: bool,
}

impl MoveTable {
    pub open spec fn definition(&self, id: TechniqueId) -> Option<TechniqueDefinition> {
        definition_in(self.definitions@, id)
    }

    /// The loadout's definition in a move slot.
    pub open spec fn slot_definition(&self, slot: CharacterMoveSlot) -> Option<
        TechniqueDefinition,
    > {
        match slot_in(self.slots@, slot) {
            Some(entry) => entry.definition,
            None => None,
        }
    }

    /// The character's technique in a move slot.
    pub open spec fn slot_technique(&self, slot: CharacterMoveSlot) -> Option<TechniqueId> {
        match slot_in(self.slots@, slot) {
            Some(entry) => entry.technique,
            None => None,
        }
    }

    pub open spec fn active_for(&self, action: FighterActionState) -> Option<ActiveTechnique> {
        active_in(self.active@, action.action, action.technique_id)
    }

    pub open spec fn raw_technique(&self, button: TechniqueButton, grounded: bool) -> Option<
        TechniqueDefinition,
    > {
        raw_in(self.raw@, button, grounded)
    }

    pub fn technique_definition(&self, id: TechniqueId) -> (definition: Option<
        TechniqueDefinition,
    >)
        ensures
            definition == self.definition(id),
    {
        let mut next: usize = 0;
        proof {
            assert(self.definitions@.skip(0) =~= self.definitions@);
        }
        while next < self.definitions.len()
            invariant
                next <= self.definitions@.len(),
                self.definition(id) == definition_in(self.definitions@.skip(next as int), id),
            decreases self.definitions@.len() - next,
        {
            proof {
                assert(self.definitions@.skip(next as int).drop_first()
                    =~= self.definitions@.skip(next + 1));
            }
            if self.definitions[next].id == id {
                return Some(self.definitions[next]);
            }
            next += 1;
        }
        None
    }

    fn slot_entry(&self, slot: CharacterMoveSlot) -> (entry: Option<MoveSlotEntry>)
        ensures
            entry == slot_in(self.slots@, slot),
    {
        let mut next: usize = 0;
        proof {
            assert(self.slots@.skip(0) =~= self.slots@);
        }
        while next < self.slots.len()
            invariant
                next <= self.slots@.len(),
                slot_in(self.slots@, slot) == slot_in(self.slots@.skip(next as int), slot),
            decreases self.slots@.len() - next,
        {
            proof {
                assert(self.slots@.skip(next as int).drop_first() =~= self.slots@.skip(next + 1));
            }
            if self.slots[next].slot == slot {
                return Some(self.slots[next]);
            }
            next += 1;
        }
        None
    }

    pub fn technique_slot(&self, slot: CharacterMoveSlot) -> (definition: Option<
        TechniqueDefinition,
    >)
        ensures
            definition == self.slot_definition(slot),
    {
        match self.slot_entry(slot) {
            Some(entry) => entry.definition,
            None => None,
        }
    }

    pub fn slot_technique_id(&self, slot: CharacterMoveSlot) -> (technique: Option<TechniqueId>)
        ensures
            technique == self.slot_technique(slot),
    {
        match self.slot_entry(slot) {
            Some(entry) => entry.technique,
            None => None,
        }
    }

    pub fn active_technique(&self, action: &FighterActionState) -> (active: Option<
        &ActiveTechnique,
    >)
        ensures
            active.is_some() == self.active_for(*action).is_some(),
            active.is_some() ==> *active.unwrap() == self.active_for(*action).unwrap(),
    {
        let mut next: usize = 0;
        proof {
            assert(self.active@.skip(0) =~= self.active@);
        }
        while next < self.active.len()
            invariant
                next <= self.active@.len(),
                self.active_for(*action) == active_in(
                    self.active@.skip(next as int),
                    action.action,
                    action.technique_id,
                ),
            decreases self.active@.len() - next,
        {
            proof {
                assert(self.active@.skip(next as int).drop_first() =~= self.active@.skip(next + 1));
            }
            let row = &self.active[next];
            let same_technique = match (row.technique_id, action.technique_id) {
                (Some(wanted), Some(current)) => wanted == current,
                (None, None) => true,
                _ => false,
            };
            if row.action == action.action && same_technique {
                return Some(row);
            }
            next += 1;
        }
        None
    }

    pub fn chained_technique(&self, context: TechniqueMatchContext) -> (next_technique: Option<
        TechniqueId,
    >)
        ensures
            next_technique == chained_in(self.chains@, context),
    {
        let mut next: usize = 0;
        proof {
            assert(self.chains@.skip(0) =~= self.chains@);
        }
        while next < self.chains.len()
            invariant
                next <= self.chains@.len(),
                chained_in(self.chains@, context) == chained_in(
                    self.chains@.skip(next as int),
                    context,
                ),
            decreases self.chains@.len() - next,
        {
            proof {
                assert(self.chains@.skip(next as int).drop_first() =~= self.chains@.skip(next + 1));
            }
            if self.chains[next].applies_to(context) {
                return Some(self.chains[next].next);
            }
            next += 1;
        }
        None
    }

    pub fn raw_technique_for(&self, button: TechniqueButton, grounded: bool) -> (technique: Option<
        TechniqueDefinition,
    >)
        ensures
            technique == self.raw_technique(button, grounded),
    {
        let mut next: usize = 0;
        proof {
            assert(self.raw@.skip(0) =~= self.raw@);
        }
        while next < self.raw.len()
            invariant
                next <= self.raw@.len(),
                self.raw_technique(button, grounded) == raw_in(
                    self.raw@.skip(next as int),
                    button,
                    grounded,
                ),
            decreases self.raw@.len() - next,
        {
            proof {
                assert(self.raw@.skip(next as int).drop_first() =~= self.raw@.skip(next + 1));
            }
            if self.raw[next].button == button && self.raw[next].grounded == grounded {
                return Some(self.raw[next].technique);
            }
            next += 1;
        }
        None
    }

    /// The windows of the technique under way; all closed where there is none.
    pub open spec fn runtime(&self, action: FighterActionState) -> TechniqueRuntime {
        match self.active_for(action) {
            Some(row) => TechniqueRuntime {
                id: Some(row.id),
                cancel_open: any_window_open(row.cancel@, action.elapsed),
                branch_open: any_window_open(row.branch@, action.elapsed),
                next_technique_open: any_window_open(row.next_technique@, action.elapsed),
            },
            None => TechniqueRuntime {
                id: None,
                cancel_open: false,
                branch_open: false,
                next_technique_open: false,
            },
        }
    }

    /// The action with its technique and windows brought up to date.
    pub open spec fn refreshed(&self, action: FighterActionState) -> FighterActionState {
        let runtime = self.runtime(action);
        FighterActionState {
            technique_id: runtime.id,
            cancel_window_open: runtime.cancel_open,
            branch_window_open: runtime.branch_open,
            ..action
        }
    }

    /// The action once the named technique starts; unchanged where it is unknown.
    pub open spec fn started(&self, action: FighterActionState, id: TechniqueId) -> FighterActionState {
        match self.definition(id) {
            Some(definition) => FighterActionState::technique(definition),
            None => action,
        }
    }

    /// How long the action lasts, in ticks. A charge that is still held never
    /// ends by itself; an action without a technique ends at once; a heavy attack
    /// that has not hit lasts its whiff time.
    pub open spec fn action_ticks(&self, action: FighterActionState) -> Option<u32> {
        if action.technique_id == Some(TechniqueId::PigHeavy) && !action.charge_release_requested {
            None
        } else {
            match self.active_for(action) {
                Some(row) => if (action.action == FighterAction::HeavyAttack || action.action
                    == FighterAction::HeavyAttack2) && !action.confirmed_hit {
                    Some(row.whiff_duration)
                } else {
                    Some(row.duration)
                },
                None => Some(0),
            }
        }
    }

    /// The action has lasted as long as it may.
    pub open spec fn action_over(&self, action: FighterActionState) -> bool {
        match self.action_ticks(action) {
            Some(ticks) => action.elapsed.reached(ticks),
            None => false,
        }
    }

    /// How long a pressed button is remembered, in milliseconds.
    pub open spec fn buffer_ms(&self, action: FighterActionState) -> u32 {
        match self.active_for(action) {
            Some(row) => row.input_buffer_ms,
            None => 0,
        }
    }
}

pub fn start_technique_by_id(action: &mut FighterActionState, id: TechniqueId, table: &MoveTable)
    ensures
        *final(action) == table.started(*old(action), id),
{
    if let Some(technique) = table.technique_definition(id) {
        set_technique_action(action, technique);
    }
}

pub fn technique_runtime(action: &FighterActionState, table: &MoveTable) -> (runtime:
    TechniqueRuntime)
    ensures
        runtime == table.runtime(*action),
{
    match table.active_technique(action) {
        Some(row) => TechniqueRuntime {
            id: Some(row.id),
            cancel_open: window_open(&row.cancel, action.elapsed),
            branch_open: window_open(&row.branch, action.elapsed),
            next_technique_open: window_open(&row.next_technique, action.elapsed),
        },
        None => TechniqueRuntime {
            id: None,
            cancel_open: false,
            branch_open: false,
            next_technique_open: false,
        },
    }
}

pub fn refresh_technique_runtime(action: &mut FighterActionState, table: &MoveTable)
    ensures
        *final(action) == table.refreshed(*old(action)),
{
    let runtime = technique_runtime(action, table);
    action.technique_id = runtime.id;
    action.cancel_window_open = runtime.cancel_open;
    action.branch_window_open = runtime.branch_open;
}

/// How long the action lasts, in ticks; `None` where it lasts until released.
pub fn attack_duration_for_state(action: &FighterActionState, table: &MoveTable) -> (ticks: Option<
    u32,
>)
    ensures
        ticks == table.action_ticks(*action),
{
    if action.technique_id == Some(TechniqueId::PigHeavy) && !action.charge_release_requested {
        return None;
    }
    match table.active_technique(action) {
        Some(row) => if matches!(
            action.action,
            FighterAction::HeavyAttack | FighterAction::HeavyAttack2
        ) && !action.confirmed_hit {
            Some(row.whiff_duration)
        } else {
            Some(row.duration)
        },
        None => Some(0),
    }
}

pub fn action_is_over(action: &FighterActionState, table: &MoveTable) -> (over: bool)
    ensures
        over == table.action_over(*action),
{
    match attack_duration_for_state(action, table) {
        Some(ticks) => action.elapsed.reached(ticks),
        None => false,
    }
}

/// The buffer before a follow-up is looked for: this tick's button, or the
/// remembered one a tick older.
pub open spec fn buffer_aged(action: FighterActionState, input: FighterInput) -> FighterActionState {
    if pressed_raw_technique_button(&input).is_some() {
        with_pressed_button(action, input)
    } else if action.buffered_button.is_some() {
        FighterActionState {
            buffered_button_elapsed: action.buffered_button_elapsed.next(),
            ..action
        }
    } else {
        action
    }
}

/// Without a remembered button.
pub open spec fn unbuffered(action: FighterActionState) -> FighterActionState {
    FighterActionState {
        buffered_button: None,
        buffered_button_elapsed: ElapsedTicks::zero(),
        ..action
    }
}

/// What a chain rule sees of an action.
pub open spec fn chain_context(
    action: FighterActionState,
    button: TechniqueButton,
    grounded: bool,
) -> TechniqueMatchContext {
    TechniqueMatchContext {
        previous: action.technique_id,
        button,
        elapsed: action.elapsed,
        grounded,
        confirmed_hit: action.confirmed_hit,
        cancel_window_open: action.cancel_window_open,
        branch_window_open: action.branch_window_open,
        current_action: action.action,
    }
}

/// The action with a follow-up lined up where a remembered button leads to one.
/// A button is remembered for the technique's buffer time; a follow-up that is
/// lined up already stays.
pub open spec fn with_followup(
    table: &MoveTable,
    action: FighterActionState,
    input: FighterInput,
    grounded: bool,
) -> FighterActionState {
    if action.queued_technique.is_some() {
        action
    } else {
        let aged = buffer_aged(action, input);
        match aged.buffered_button {
            Some(button) => if aged.buffered_button_elapsed.spec_millis() > table.buffer_ms(aged) {
                unbuffered(aged)
            } else {
                match chained_in(table.chains@, chain_context(aged, button, grounded)) {
                    Some(next) => unbuffered(
                        FighterActionState {
                            queued_combo: true,
                            queued_technique: Some(next),
                            queued_button: Some(button),
                            ..aged
                        },
                    ),
                    None => aged,
                }
            },
            None => aged,
        }
    }
}

/// Lines up a follow-up for the action under way.
pub fn queue_chained_followup(
    action: &mut FighterActionState,
    input: &FighterInput,
    grounded: bool,
    table: &MoveTable,
)
    ensures
        *final(action) == with_followup(table, *old(action), *input, grounded),
{
    if action.queued_technique.is_some() {
        return ;
    }
    if !buffer_pressed_technique_button(action, input) && action.buffered_button.is_some() {
        action.buffered_button_elapsed.advance();
    }
    let button = match action.buffered_button {
        Some(button) => button,
        None => {
            return ;
        },
    };
    let buffer_ms: u32 = match table.active_technique(action) {
        Some(row) => row.input_buffer_ms,
        None => 0,
    };
    if action.buffered_button_elapsed.as_millis_floor() > buffer_ms as u64 {
        clear_buffered_button(action);
        return ;
    }
    let context = TechniqueMatchContext {
        previous: action.technique_id,
        button,
        elapsed: action.elapsed,
        grounded,
        confirmed_hit: action.confirmed_hit,
        cancel_window_open: action.cancel_window_open,
        branch_window_open: action.branch_window_open,
        current_action: action.action,
    };
    let next = match table.chained_technique(context) {
        Some(next) => next,
        None => {
            return ;
        },
    };
    action.queued_combo = true;
    action.queued_technique = Some(next);
    action.queued_button = Some(button);
    clear_buffered_button(action);
}

/// The action after a tick of hitstop: a button is remembered where the
/// technique remembers buttons at all and no follow-up is lined up.
pub open spec fn after_hitstop_tick(
    table: &MoveTable,
    action: FighterActionState,
    input: FighterInput,
) -> FighterActionState {
    if action.queued_technique.is_some() || table.buffer_ms(action) == 0 {
        action
    } else {
        with_pressed_button(action, input)
    }
}

pub fn buffer_hitstop_followup_input(
    action: &mut FighterActionState,
    input: &FighterInput,
    table: &MoveTable,
)
    ensures
        *final(action) == after_hitstop_tick(table, *old(action), *input),
{
    if action.queued_technique.is_some() {
        return ;
    }
    let buffer_ms: u32 = match table.active_technique(action) {
        Some(row) => row.input_buffer_ms,
        None => {
            return ;
        },
    };
    if buffer_ms == 0 {
        return ;
    }
    buffer_pressed_technique_button(action, input);
}

/// A follow-up, once lined up, stays lined up until the action changes.
pub proof fn followups_are_not_overwritten(
    table: &MoveTable,
    action: FighterActionState,
    input: FighterInput,
    grounded: bool,
)
    requires
        action.queued_technique.is_some(),
    ensures
        with_followup(table, action, input, grounded) == action,
        after_hitstop_tick(table, action, input) == action,
{
}

/// A button pressed before the chain window opens leads to the follow-up once it
/// opens, as long as the technique remembers it.
pub proof fn early_button_is_remembered(
    table: &MoveTable,
    action: FighterActionState,
    press: FighterInput,
    quiet: FighterInput,
    later_action: FighterActionState,
    grounded: bool,
    next: TechniqueId,
)
    requires
        action.queued_technique.is_none(),
        pressed_raw_technique_button(&press).is_some(),
        pressed_raw_technique_button(&quiet).is_none(),
        chained_in(
            table.chains@,
            chain_context(action, pressed_raw_technique_button(&press).unwrap(), grounded),
        ).is_none(),
        later_action == (FighterActionState {
            elapsed: later_action.elapsed,
            branch_window_open: later_action.branch_window_open,
            cancel_window_open: later_action.cancel_window_open,
            ..with_followup(table, action, press, grounded)
        }),
        table.buffer_ms(later_action) >= 16,
        chained_in(
            table.chains@,
            chain_context(later_action, pressed_raw_technique_button(&press).unwrap(), grounded),
        ) == Some(next),
    ensures
        with_followup(table, action, press, grounded).queued_technique.is_none(),
        with_followup(table, later_action, quiet, grounded).queued_technique == Some(next),
        with_followup(table, later_action, quiet, grounded).queued_button
            == pressed_raw_technique_button(&press),
{
    let button = pressed_raw_technique_button(&press).unwrap();
    let aged = buffer_aged(action, press);
    assert(aged.buffered_button_elapsed.spec_millis() == 0);
    assert(chain_context(aged, button, grounded) == chain_context(action, button, grounded));
    let later_aged = buffer_aged(later_action, quiet);
    assert(later_aged.buffered_button == Some(button));
    assert(later_aged.buffered_button_elapsed.ticks == 1);
    assert(later_aged.buffered_button_elapsed.spec_millis() == 16);
    assert(chain_context(later_aged, button, grounded) == chain_context(
        later_action,
        button,
        grounded,
    ));
}

} // verus!

//! A fighter's action and everything that is reset when it changes.

use vstd::prelude::*;

use crate::input::{FighterInput, TechniqueButton, pressed_raw_technique_button};
use crate::reaction::ReactionFamilyId;
use crate::scalar::Scalar;
use crate::technique::{TechniqueDefinition, TechniqueId};
use crate::ticks::ElapsedTicks;

verus! {

#[derive(Clone, Copy, Debug, PartialEq, Eq, Structural)]
pub enum FighterAction {
    Idle,
    Moving,
    Jumping,
    Dashing,
    DashAttack,
    Guarding,
    LightAttack1,
    LightAttack2,
    ComboFinisher,
    HeavyAttack,
    HeavyAttack2,
    UltimateStartup,
    UltimateRush,
    UltimateVictim,
    GrabStartup,
    GrabHold,
    Grabbed,
    Throwing,
    SpecialCast,
    ItemPickup,
    ItemSwing,
    ItemThrow,
    ItemDrop,
    LandingRecovery,
    JumpAttack,
    JumpHeavyAttack,
    GuardCounter,
    GuardStep,
    GuardBroken,
    QuickStand,
    RecoveryRoll,
    Hitstun,
    Knockdown,
    GetUp,
    RingOut,
    Respawning,
}

/// The bit pattern of the neutral visual side, one.
pub const NEUTRAL_VISUAL_SIDE_BITS: u32 = 0x3f80_0000;

/// What a fighter is doing, for how long, and what it has lined up.
#[derive(Clone, Copy, Debug, PartialEq, Eq, Structural)]
pub struct FighterActionState {
    pub action: FighterAction,
    pub elapsed: ElapsedTicks,
    pub hitbox_spawned: bool,
    pub queued_combo: bool,
    pub queued_technique: Option<TechniqueId>,
    pub queued_button: Option<TechniqueButton>,
    pub buffered_button: Option<TechniqueButton>,
    pub buffered_button_elapsed: ElapsedTicks,
    pub confirmed_hit: bool,
    pub technique_id: Option<TechniqueId>,
    pub cancel_window_open: bool,
    pub branch_window_open: bool,
    pub timeline_events_fired: u32,
    pub reaction_getup_ms: Option<u32>,
    pub reaction_recover_ms: Option<u32>,
    pub reaction_family: Option<ReactionFamilyId>,
    pub reaction_visual_side: Scalar,
    pub charge_elapsed: ElapsedTicks,
    pub charge_release_requested: bool,
}

impl FighterActionState {
    /// The start of an action, with nothing carried over.
    pub open spec fn fresh(action: FighterAction) -> FighterActionState {
        FighterActionState {
            action,
            elapsed: ElapsedTicks::zero(),
            hitbox_spawned: false,
            queued_combo: false,
            queued_technique: None,
            queued_button: None,
            buffered_button: None,
            buffered_button_elapsed: ElapsedTicks::zero(),
            confirmed_hit: false,
            technique_id: None,
            cancel_window_open: false,
            branch_window_open: false,
            timeline_events_fired: 0,
            reaction_getup_ms: None,
            reaction_recover_ms: None,
            reaction_family: None,
            reaction_visual_side: Scalar { bits: NEUTRAL_VISUAL_SIDE_BITS },
            charge_elapsed: ElapsedTicks::zero(),
            charge_release_requested: false,
        }
    }

    /// The start of an action unless it is under way already.
    pub open spec fn switched(self, next: FighterAction) -> FighterActionState {
        if self.action == next {
            self
        } else {
            FighterActionState::fresh(next)
        }
    }

    /// The start of a technique.
    pub open spec fn technique(definition: TechniqueDefinition) -> FighterActionState {
        FighterActionState {
            technique_id: Some(definition.id),
            ..FighterActionState::fresh(definition.action)
        }
    }

    /// Nothing is lined up behind the current action.
    pub open spec fn unqueued(self) -> FighterActionState {
        FighterActionState {
            queued_combo: false,
            queued_technique: None,
            queued_button: None,
            buffered_button: None,
            buffered_button_elapsed: ElapsedTicks::zero(),
            timeline_events_fired: 0,
            ..self
        }
    }

    /// Forced into another action from outside: time starts over and nothing is
    /// lined up, but the technique and its charge are kept.
    pub open spec fn forced(self, next: FighterAction) -> FighterActionState {
        FighterActionState {
            action: next,
            elapsed: ElapsedTicks::zero(),
            hitbox_spawned: false,
            ..self.unqueued()
        }
    }

    /// Without a hit reaction to show.
    pub open spec fn without_reaction_visual(self) -> FighterActionState {
        FighterActionState {
            reaction_family: None,
            reaction_visual_side: Scalar { bits: NEUTRAL_VISUAL_SIDE_BITS },
            ..self
        }
    }

    /// Without a hit reaction at all.
    pub open spec fn without_reaction(self) -> FighterActionState {
        FighterActionState {
            reaction_getup_ms: None,
            reaction_recover_ms: None,
            ..self.without_reaction_visual()
        }
    }

    /// One tick later in the same action.
    pub open spec fn aged(self) -> FighterActionState {
        FighterActionState { elapsed: self.elapsed.next(), ..self }
    }

    pub fn clear_reaction_visual(&mut self)
        ensures
            *final(self) == old(self).without_reaction_visual(),
    {
        self.reaction_family = None;
        self.reaction_visual_side = Scalar { bits: NEUTRAL_VISUAL_SIDE_BITS };
    }

    pub fn set_reaction_visual(&mut self, family: ReactionFamilyId, side: Scalar)
        ensures
            *final(self) == (FighterActionState {
                reaction_family: Some(family),
                reaction_visual_side: side,
                ..*old(self)
            }),
    {
        self.reaction_family = Some(family);
        self.reaction_visual_side = side;
    }

    pub(crate) fn clear_queues(&mut self)
        ensures
            *final(self) == old(self).unqueued(),
    {
        self.queued_combo = false;
        self.queued_technique = None;
        self.queued_button = None;
        clear_buffered_button(self);
        self.timeline_events_fired = 0;
    }

    pub(crate) fn force(&mut self, next: FighterAction)
        ensures
            *final(self) == old(self).forced(next),
    {
        self.action = next;
        self.elapsed.reset();
        self.hitbox_spawned = false;
        self.clear_queues();
    }
}

impl Default for FighterActionState {
    fn default() -> (state: FighterActionState)
        ensures
            state == FighterActionState::fresh(FighterAction::Idle),
    {
        FighterActionState {
            action: FighterAction::Idle,
            elapsed: ElapsedTicks::zero(),
            hitbox_spawned: false,
            queued_combo: false,
            queued_technique: None,
            queued_button: None,
            buffered_button: None,
            buffered_button_elapsed: ElapsedTicks::zero(),
            confirmed_hit: false,
            technique_id: None,
            cancel_window_open: false,
            branch_window_open: false,
            timeline_events_fired: 0,
            reaction_getup_ms: None,
            reaction_recover_ms: None,
            reaction_family: None,
            reaction_visual_side: Scalar { bits: NEUTRAL_VISUAL_SIDE_BITS },
            charge_elapsed: ElapsedTicks::zero(),
            charge_release_requested: false,
        }
    }
}

pub fn clear_buffered_button(action: &mut FighterActionState)
    ensures
        *final(action) == (FighterActionState {
            buffered_button: None,
            buffered_button_elapsed: ElapsedTicks::zero(),
            ..*old(action)
        }),
{
    action.buffered_button = None;
    action.buffered_button_elapsed.reset();
}

/// Starts an action with nothing carried over.
pub fn reset_action_state(action: &mut FighterActionState, next: FighterAction)
    ensures
        *final(action) == FighterActionState::fresh(next),
{
    action.action = next;
    action.elapsed.reset();
    action.hitbox_spawned = false;
    action.queued_combo = false;
    action.queued_technique = None;
    action.queued_button = None;
    clear_buffered_button(action);
    action.confirmed_hit = false;
    action.technique_id = None;
    action.cancel_window_open = false;
    action.branch_window_open = false;
    action.timeline_events_fired = 0;
    action.reaction_getup_ms = None;
    action.reaction_recover_ms = None;
    action.clear_reaction_visual();
    action.charge_elapsed.reset();
    action.charge_release_requested = false;
}

/// Starts an action unless it is under way already.
pub fn set_action(action: &mut FighterActionState, next: FighterAction)
    ensures
        *final(action) == old(action).switched(next),
{
    if action.action != next {
        reset_action_state(action, next);
    }
}

/// Starts a technique, also when its action is under way.
pub fn set_technique_action(action: &mut FighterActionState, technique: TechniqueDefinition)
    ensures
        *final(action) == FighterActionState::technique(technique),
{
    reset_action_state(action, technique.action);
    action.technique_id = Some(technique.id);
}

/// The action with the button of this tick buffered, if there is one.
pub open spec fn with_pressed_button(
    action: FighterActionState,
    input: FighterInput,
) -> FighterActionState {
    match pressed_raw_technique_button(&input) {
        Some(button) => FighterActionState {
            buffered_button: Some(button),
            buffered_button_elapsed: ElapsedTicks::zero(),
            ..action
        },
        None => action,
    }
}

/// Buffers the button of this tick and says whether there was one.
pub fn buffer_pressed_technique_button(
    action: &mut FighterActionState,
    input: &FighterInput,
) -> (buffered: bool)
    ensures
        buffered == pressed_raw_technique_button(input).is_some(),
        *final(action) == with_pressed_button(*old(action), *input),
{
    match pressed_raw_technique_button(input) {
        Some(button) => {
            action.buffered_button = Some(button);
            action.buffered_button_elapsed.reset();
            true
        },
        None => false,
    }
}

/// Out of the arena, or just coming back to it.
pub open spec fn spec_out_of_play(action: FighterAction) -> bool {
    action == FighterAction::RingOut || action == FighterAction::Respawning
}

#[verifier::when_used_as_spec(spec_out_of_play)]
pub fn out_of_play(action: FighterAction) -> (out: bool)
    ensures
        out == spec_out_of_play(action),
{
    matches!(action, FighterAction::RingOut | FighterAction::Respawning)
}

/// The guard shield shows exactly while guarding.
pub fn guard_shield_visible(action: FighterAction) -> (visible: bool)
    ensures
        visible == (action == FighterAction::Guarding),
{
    action == FighterAction::Guarding
}

/// Changing the action carries nothing over, whatever was going on before.
pub proof fn action_change_forgets_the_past(
    left: FighterActionState,
    right: FighterActionState,
    next: FighterAction,
)
    requires
        left.action != next,
        right.action != next,
    ensures
        left.switched(next) == right.switched(next),
        left.switched(next).technique_id.is_none(),
        left.switched(next).queued_technique.is_none(),
        left.switched(next).reaction_family.is_none(),
        left.switched(next).charge_elapsed == ElapsedTicks::zero(),
{
}

} // verus!

//! What a fighter is told to do in one tick, and what single buttons and button
//! combinations in it mean.

use vstd::prelude::*;

use crate::loadout::CharacterKind;
use crate::scalar::SimVec2;

verus! {

/// The button that a technique answers to.
#[derive(Clone, Copy, Debug, PartialEq, Eq, Structural)]
pub enum TechniqueButton {
    A,
    B,
    Grab,
    Ultimate,
}

/// One tick of input for one fighter.
#[derive(Clone, Copy, Debug, PartialEq, Eq, Structural)]
pub struct FighterInput {
    pub movement: SimVec2,
    pub aim: bool,
    pub jump: bool,
    pub dash: bool,
    pub light: bool,
    pub light_held: bool,
    pub raw_light_pressed: bool,
    pub heavy: bool,
    pub heavy_held: bool,
    pub raw_heavy_pressed: bool,
    pub heavy_released: bool,
    pub grab: bool,
    pub guard: bool,
    pub ultimate: bool,
    pub special: bool,
}

impl FighterInput {
    /// Nothing is pressed.
    pub open spec fn neutral() -> FighterInput {
        FighterInput {
            movement: SimVec2::zero(),
            aim: false,
            jump: false,
            dash: false,
            light: false,
            light_held: false,
            raw_light_pressed: false,
            heavy: false,
            heavy_held: false,
            raw_heavy_pressed: false,
            heavy_released: false,
            grab: false,
            guard: false,
            ultimate: false,
            special: false,
        }
    }
}

impl Default for FighterInput {
    fn default() -> (input: FighterInput)
        ensures
            input == FighterInput::neutral(),
    {
        FighterInput {
            movement: SimVec2::zero(),
            aim: false,
            jump: false,
            dash: false,
            light: false,
            light_held: false,
            raw_light_pressed: false,
            heavy: false,
            heavy_held: false,
            raw_heavy_pressed: false,
            heavy_released: false,
            grab: false,
            guard: false,
            ultimate: false,
            special: false,
        }
    }
}

/// Turns the direction round and leaves every button alone.
pub fn invert_directional_input(input: &mut FighterInput)
    ensures
        *final(input) == (FighterInput {
            movement: old(input).movement.spec_negated(),
            ..*old(input)
        }),
{
    input.movement = input.movement.negated();
}

/// Inverting twice restores the input.
pub proof fn inversion_undoes_itself(input: FighterInput)
    ensures
        input.movement.spec_negated().spec_negated() == input.movement,
{
}

/// The technique button of this tick. The ultimate outranks the grab, the grab
/// the light attack, and that the heavy one.
pub open spec fn spec_pressed_raw_technique_button(input: &FighterInput) -> Option<
    TechniqueButton,
> {
    if input.ultimate {
        Some(TechniqueButton::Ultimate)
    } else if input.grab {
        Some(TechniqueButton::Grab)
    } else if input.light {
        Some(TechniqueButton::A)
    } else if input.heavy {
        Some(TechniqueButton::B)
    } else {
        None
    }
}

#[verifier::when_used_as_spec(spec_pressed_raw_technique_button)]
pub fn pressed_raw_technique_button(input: &FighterInput) -> (button: Option<TechniqueButton>)
    ensures
        button == spec_pressed_raw_technique_button(input),
{
    if input.ultimate {
        Some(TechniqueButton::Ultimate)
    } else if input.grab {
        Some(TechniqueButton::Grab)
    } else if input.light {
        Some(TechniqueButton::A)
    } else if input.heavy {
        Some(TechniqueButton::B)
    } else {
        None
    }
}

/// Exactly one attack went down and the two are not held together.
pub open spec fn spec_guard_counter_trigger_pressed(input: &FighterInput) -> bool {
    input.raw_light_pressed != input.raw_heavy_pressed && !(input.light_held && input.heavy_held)
}

#[verifier::when_used_as_spec(spec_guard_counter_trigger_pressed)]
pub fn guard_counter_trigger_pressed(input: &FighterInput) -> (pressed: bool)
    ensures
        pressed == spec_guard_counter_trigger_pressed(input),
{
    input.raw_light_pressed != input.raw_heavy_pressed && !(input.light_held && input.heavy_held)
}

/// A chord is on its way, so the attack buttons mean something else.
pub open spec fn spec_jump_chord_blocked(input: &FighterInput) -> bool {
    input.guard || input.ultimate || input.grab
}

#[verifier::when_used_as_spec(spec_jump_chord_blocked)]
pub fn jump_chord_blocked(input: &FighterInput) -> (blocked: bool)
    ensures
        blocked == spec_jump_chord_blocked(input),
{
    input.guard || input.ultimate || input.grab
}

pub open spec fn spec_jump_heavy_pressed(input: &FighterInput) -> bool {
    !spec_jump_chord_blocked(input) && (input.heavy || input.heavy_held)
}

#[verifier::when_used_as_spec(spec_jump_heavy_pressed)]
pub fn jump_heavy_pressed(input: &FighterInput) -> (pressed: bool)
    ensures
        pressed == spec_jump_heavy_pressed(input),
{
    !jump_chord_blocked(input) && (input.heavy || input.heavy_held)
}

pub open spec fn spec_jump_light_pressed(input: &FighterInput) -> bool {
    &&& !spec_jump_chord_blocked(input)
    &&& !spec_jump_heavy_pressed(input)
    &&& input.light || input.light_held
}

#[verifier::when_used_as_spec(spec_jump_light_pressed)]
pub fn jump_light_pressed(input: &FighterInput) -> (pressed: bool)
    ensures
        pressed == spec_jump_light_pressed(input),
{
    !jump_chord_blocked(input) && !jump_heavy_pressed(input) && (input.light || input.light_held)
}

/// The air attack asked for on takeoff or in the air; the heavy one outranks the
/// light one.
pub open spec fn spec_jump_attack_button(input: &FighterInput) -> Option<TechniqueButton> {
    if spec_jump_heavy_pressed(input) {
        Some(TechniqueButton::B)
    } else if spec_jump_light_pressed(input) {
        Some(TechniqueButton::A)
    } else {
        None
    }
}

#[verifier::when_used_as_spec(spec_jump_attack_button)]
pub fn jump_attack_button(input: &FighterInput) -> (button: Option<TechniqueButton>)
    ensures
        button == spec_jump_attack_button(input),
{
    if jump_heavy_pressed(input) {
        Some(TechniqueButton::B)
    } else if jump_light_pressed(input) {
        Some(TechniqueButton::A)
    } else {
        None
    }
}

/// No air attack comes out of a guard, grab or ultimate chord.
pub proof fn chords_block_air_attacks(input: FighterInput)
    requires
        input.guard || input.ultimate || input.grab,
    ensures
        jump_attack_button(&input) == None::<TechniqueButton>,
{
}

/// Any action that ends a dash slide.
pub open spec fn spec_slide_cancel_requested(input: &FighterInput) -> bool {
    input.jump || input.light || input.heavy || input.grab || input.guard || input.ultimate
        || input.special || input.dash
}

#[verifier::when_used_as_spec(spec_slide_cancel_requested)]
pub fn slide_cancel_requested(input: &FighterInput) -> (requested: bool)
    ensures
        requested == spec_slide_cancel_requested(input),
{
    input.jump || input.light || input.heavy || input.grab || input.guard || input.ultimate
        || input.special || input.dash
}

/// Penguin and Chick may hold aim and both attacks for their ultimate.
pub open spec fn spec_held_ground_ultimate_shortcut(
    input: &FighterInput,
    character: CharacterKind,
) -> bool {
    &&& character == CharacterKind::Penguin || character == CharacterKind::Chick
    &&& input.aim
    &&& input.light_held
    &&& input.heavy_held
}

#[verifier::when_used_as_spec(spec_held_ground_ultimate_shortcut)]
pub fn held_ground_ultimate_shortcut(
    input: &FighterInput,
    character: CharacterKind,
) -> (held: bool)
    ensures
        held == spec_held_ground_ultimate_shortcut(input, character),
{
    (character == CharacterKind::Penguin || character == CharacterKind::Chick) && input.aim
        && input.light_held && input.heavy_held
}

pub open spec fn spec_ultimate_input_requested(
    input: &FighterInput,
    character: CharacterKind,
) -> bool {
    input.ultimate || spec_held_ground_ultimate_shortcut(input, character)
}

#[verifier::when_used_as_spec(spec_ultimate_input_requested)]
pub fn ultimate_input_requested(
    input: &FighterInput,
    character: CharacterKind,
) -> (requested: bool)
    ensures
        requested == spec_ultimate_input_requested(input, character),
{
    input.ultimate || held_ground_ultimate_shortcut(input, character)
}

/// Penguin may hold both attacks in a dash for its ultimate.
pub open spec fn spec_penguin_dash_ultimate_shortcut(
    input: &FighterInput,
    character: CharacterKind,
) -> bool {
    character == CharacterKind::Penguin && input.light_held && input.heavy_held
}

#[verifier::when_used_as_spec(spec_penguin_dash_ultimate_shortcut)]
pub fn penguin_dash_ultimate_shortcut(
    input: &FighterInput,
    character: CharacterKind,
) -> (held: bool)
    ensures
        held == spec_penguin_dash_ultimate_shortcut(input, character),
{
    character == CharacterKind::Penguin && input.light_held && input.heavy_held
}

} // verus!

//! Keyboard snapshots, player bindings and the shortcuts built on them.

use vstd::prelude::*;

use crate::ids::FIGHTER_COUNT;
use crate::loadout::LocalInputAssignment;
use crate::match_state::MatchPhase;

verus! {

/// A physical key. Keys without a meaning of their own here are told apart by a
/// number.
#[derive(Clone, Copy, Debug, PartialEq, Eq, Structural)]
pub enum KeyCode {
    ArrowLeft,
    ArrowRight,
    ArrowDown,
    ArrowUp,
    ShiftLeft,
    ShiftRight,
    ControlLeft,
    ControlRight,
    AltLeft,
    AltRight,
    SuperLeft,
    SuperRight,
    Enter,
    Tab,
    Digit1,
    Digit2,
    Digit3,
    KeyA,
    KeyB,
    KeyC,
    KeyE,
    KeyH,
    KeyP,
    KeyQ,
    KeyR,
    KeyT,
    KeyV,
    KeyX,
    KeyY,
    KeyZ,
    Other(u64),
}

/// The keys that are down, and those that went down or up since the last
/// snapshot.
#[derive(Debug)]
pub struct KeySnapshot {
    pub pressed: Vec<KeyCode>,
    pub just_pressed: Vec<KeyCode>,
    pub just_released: Vec<KeyCode>,
}

/// A key snapshot as sets.
pub struct KeyModel {
    pub pressed: Set<KeyCode>,
    pub just_pressed: Set<KeyCode>,
    pub just_released: Set<KeyCode>,
}

fn key_listed(keys: &Vec<KeyCode>, key: KeyCode) -> (listed: bool)
    ensures
        listed == keys@.contains(key),
{
    let mut next: usize = 0;
    while next < keys.len()
        invariant
            next <= keys@.len(),
            forall|i: int| 0 <= i < next ==> keys@[i] != key,
        decreases keys@.len() - next,
    {
        if keys[next] == key {
            return true;
        }
        next += 1;
    }
    false
}

impl KeySnapshot {
    pub open spec fn view(&self) -> KeyModel {
        KeyModel {
            pressed: self.pressed@.to_set(),
            just_pressed: self.just_pressed@.to_set(),
            just_released: self.just_released@.to_set(),
        }
    }

    pub fn pressed(&self, key: KeyCode) -> (pressed: bool)
        ensures
            pressed == self@.pressed.contains(key),
    {
        key_listed(&self.pressed, key)
    }

    pub fn just_pressed(&self, key: KeyCode) -> (pressed: bool)
        ensures
            pressed == self@.just_pressed.contains(key),
    {
        key_listed(&self.just_pressed, key)
    }

    pub fn just_released(&self, key: KeyCode) -> (released: bool)
        ensures
            released == self@.just_released.contains(key),
    {
        key_listed(&self.just_released, key)
    }
}

impl KeyModel {
    pub open spec fn shift(self) -> bool {
        self.pressed.contains(KeyCode::ShiftLeft) || self.pressed.contains(KeyCode::ShiftRight)
    }

    /// Shift, control, alt or super is down.
    pub open spec fn modifier(self) -> bool {
        ||| self.shift()
        ||| self.pressed.contains(KeyCode::ControlLeft)
        ||| self.pressed.contains(KeyCode::ControlRight)
        ||| self.pressed.contains(KeyCode::AltLeft)
        ||| self.pressed.contains(KeyCode::AltRight)
        ||| self.pressed.contains(KeyCode::SuperLeft)
        ||| self.pressed.contains(KeyCode::SuperRight)
    }

    pub open spec fn match_reset(self) -> bool {
        self.just_pressed.contains(KeyCode::KeyR) && !self.modifier()
    }

    pub open spec fn dev_character_cycle(self) -> bool {
        self.just_pressed.contains(KeyCode::KeyP) && self.shift()
    }
}

pub fn shift_pressed(keys: &KeySnapshot) -> (pressed: bool)
    ensures
        pressed == keys@.shift(),
{
    keys.pressed(KeyCode::ShiftLeft) || keys.pressed(KeyCode::ShiftRight)
}

pub fn input_modifier_pressed(keys: &KeySnapshot) -> (pressed: bool)
    ensures
        pressed == keys@.modifier(),
{
    shift_pressed(keys) || keys.pressed(KeyCode::ControlLeft) || keys.pressed(KeyCode::ControlRight)
        || keys.pressed(KeyCode::AltLeft) || keys.pressed(KeyCode::AltRight) || keys.pressed(
        KeyCode::SuperLeft,
    ) || keys.pressed(KeyCode::SuperRight)
}

/// A plain R asks for a rematch.
pub fn match_reset_pressed(keys: &KeySnapshot) -> (pressed: bool)
    ensures
        pressed == keys@.match_reset(),
{
    keys.just_pressed(KeyCode::KeyR) && !input_modifier_pressed(keys)
}

/// Shift and P cycle the player's character during a fight.
pub fn dev_character_cycle_pressed(keys: &KeySnapshot) -> (pressed: bool)
    ensures
        pressed == keys@.dev_character_cycle(),
{
    keys.just_pressed(KeyCode::KeyP) && shift_pressed(keys)
}

/// Rule hotkeys work in setup only.
pub fn setup_rule_hotkeys_active(phase: MatchPhase) -> (active: bool)
    ensures
        active == (phase == MatchPhase::Setup),
{
    phase == MatchPhase::Setup
}

/// The keys of one player.
#[derive(Clone, Copy, Debug, PartialEq, Eq, Structural)]
pub struct PlayerControlBindings {
    pub left: KeyCode,
    pub right: KeyCode,
    pub up: KeyCode,
    pub down: KeyCode,
    pub aim_grab: KeyCode,
    pub heavy: KeyCode,
    pub light: KeyCode,
    pub jump: KeyCode,
}

/// The keys of all players.
#[derive(Clone, Copy, Debug, PartialEq, Eq, Structural)]
pub struct PlayerKeyBindings {
    pub p1: PlayerControlBindings,
    pub p2: PlayerControlBindings,
    pub p3: PlayerControlBindings,
    pub p4: PlayerControlBindings,
}

impl PlayerKeyBindings {
    pub open spec fn spec_bindings_for_assignment(
        &self,
        assignment: LocalInputAssignment,
    ) -> Option<PlayerControlBindings> {
        match assignment {
            LocalInputAssignment::Keyboard(index) => if index == 0 {
                Some(self.p1)
            } else if index == 1 {
                Some(self.p2)
            } else if index == 2 {
                Some(self.p3)
            } else if index == 3 {
                Some(self.p4)
            } else {
                None
            },
            LocalInputAssignment::Unassigned => None,
        }
    }

    /// The keys behind an assignment; there are none beyond the last layout.
    #[verifier::when_used_as_spec(spec_bindings_for_assignment)]
    pub fn bindings_for_assignment(&self, assignment: LocalInputAssignment) -> (bindings: Option<
        PlayerControlBindings,
    >)
        ensures
            bindings == self.spec_bindings_for_assignment(assignment),
    {
        match assignment {
            LocalInputAssignment::Keyboard(index) => match index {
                0 => Some(self.p1),
                1 => Some(self.p2),
                2 => Some(self.p3),
                3 => Some(self.p4),
                _ => None,
            },
            LocalInputAssignment::Unassigned => None,
        }
    }
}

/// An assignment has keys exactly when it names one of the keyboard layouts.
pub proof fn assignment_has_keys_iff_layout_exists(
    bindings: PlayerKeyBindings,
    assignment: LocalInputAssignment,
)
    ensures
        bindings.bindings_for_assignment(assignment).is_some() <==> match assignment {
            LocalInputAssignment::Keyboard(index) => index < FIGHTER_COUNT,
            LocalInputAssignment::Unassigned => false,
        },
{
}

pub open spec fn is_arrow(key: KeyCode) -> bool {
    key == KeyCode::ArrowLeft || key == KeyCode::ArrowRight || key == KeyCode::ArrowDown || key
        == KeyCode::ArrowUp
}

fn arrow_key(key: KeyCode) -> (arrow: bool)
    ensures
        arrow == is_arrow(key),
{
    matches!(key, KeyCode::ArrowLeft | KeyCode::ArrowRight | KeyCode::ArrowDown | KeyCode::ArrowUp)
}

impl PlayerControlBindings {
    /// A direction is bound to an arrow key, which the camera may claim.
    pub open spec fn uses_arrows(self) -> bool {
        is_arrow(self.left) || is_arrow(self.right) || is_arrow(self.down) || is_arrow(self.up)
    }
}

pub fn uses_camera_arrow_keys(bindings: PlayerControlBindings) -> (used: bool)
    ensures
        used == bindings.uses_arrows(),
{
    arrow_key(bindings.left) || arrow_key(bindings.right) || arrow_key(bindings.down) || arrow_key(
        bindings.up,
    )
}

/// The camera claims the player's direction keys: shift is down, the camera may
/// claim keys, and a direction is an arrow key.
pub open spec fn directions_claimed(
    keys: KeyModel,
    bindings: PlayerControlBindings,
    reserve_camera_inputs: bool,
) -> bool {
    reserve_camera_inputs && keys.shift() && bindings.uses_arrows()
}

/// The camera claims the player's light attack key.
pub open spec fn light_claimed(
    keys: KeyModel,
    bindings: PlayerControlBindings,
    reserve_camera_inputs: bool,
) -> bool {
    reserve_camera_inputs && keys.shift() && bindings.light == KeyCode::KeyC
}

/// A direction pad: each axis is -1, 0 or 1. Right and down are positive.
#[derive(Clone, Copy, Debug, PartialEq, Eq, Structural)]
pub struct KeyAxis {
    pub x: i8,
    pub y: i8,
}

/// `1` when only `plus` is down, `-1` when only `minus` is, else `0`.
pub open spec fn axis_value(keys: KeyModel, minus: KeyCode, plus: KeyCode) -> i8 {
    if keys.pressed.contains(plus) == keys.pressed.contains(minus) {
        0
    } else if keys.pressed.contains(plus) {
        1
    } else {
        -1i8
    }
}

fn key_axis_value(keys: &KeySnapshot, minus: KeyCode, plus: KeyCode) -> (value: i8)
    ensures
        value == axis_value(keys@, minus, plus),
{
    let mut value: i8 = 0;
    if keys.pressed(minus) {
        value -= 1;
    }
    if keys.pressed(plus) {
        value += 1;
    }
    value
}

pub fn key_axis(
    keys: &KeySnapshot,
    left: KeyCode,
    right: KeyCode,
    down: KeyCode,
    up: KeyCode,
) -> (axis: KeyAxis)
    ensures
        axis == (KeyAxis { x: axis_value(keys@, left, right), y: axis_value(keys@, up, down) }),
{
    KeyAxis { x: key_axis_value(keys, left, right), y: key_axis_value(keys, up, down) }
}

/// The player's direction, before the camera turns it; neutral while the camera
/// claims the keys.
pub open spec fn movement_axis(
    keys: KeyModel,
    bindings: PlayerControlBindings,
    reserve_camera_inputs: bool,
) -> KeyAxis {
    if directions_claimed(keys, bindings, reserve_camera_inputs) {
        KeyAxis { x: 0, y: 0 }
    } else {
        KeyAxis {
            x: axis_value(keys, bindings.left, bindings.right),
            y: axis_value(keys, bindings.up, bindings.down),
        }
    }
}

pub fn player_movement_input(
    keys: &KeySnapshot,
    bindings: PlayerControlBindings,
    reserve_camera_inputs: bool,
) -> (axis: KeyAxis)
    ensures
        axis == movement_axis(keys@, bindings, reserve_camera_inputs),
{
    if reserve_camera_inputs && shift_pressed(keys) && uses_camera_arrow_keys(bindings) {
        return KeyAxis { x: 0, y: 0 };
    }
    key_axis(keys, bindings.left, bindings.right, bindings.down, bindings.up)
}

/// The eight raw buttons of a player.
#[derive(Clone, Copy, Debug, PartialEq, Eq, Structural)]
pub struct InputMask {
    pub left: bool,
    pub right: bool,
    pub up: bool,
    pub down: bool,
    pub aim_grab: bool,
    pub heavy: bool,
    pub light: bool,
    pub jump: bool,
}

/// One render-rate sample of a player's buttons.
#[derive(Clone, Copy, Debug, PartialEq, Eq, Structural)]
pub struct RenderInputSample {
    pub axis: KeyAxis,
    pub held: InputMask,
    pub pressed: InputMask,
    pub released: InputMask,
}

/// The buttons of a player whose keys are in `keys`, without those that the
/// camera claims.
pub open spec fn bound_mask(
    keys: Set<KeyCode>,
    bindings: PlayerControlBindings,
    directions: bool,
    light: bool,
) -> InputMask {
    InputMask {
        left: directions && keys.contains(bindings.left),
        right: directions && keys.contains(bindings.right),
        up: directions && keys.contains(bindings.up),
        down: directions && keys.contains(bindings.down),
        aim_grab: keys.contains(bindings.aim_grab),
        heavy: keys.contains(bindings.heavy),
        light: light && keys.contains(bindings.light),
        jump: keys.contains(bindings.jump),
    }
}

fn mask_of(
    keys: &Vec<KeyCode>,
    bindings: PlayerControlBindings,
    directions: bool,
    light: bool,
) -> (mask: InputMask)
    ensures
        mask == bound_mask(keys@.to_set(), bindings, directions, light),
{
    InputMask {
        left: directions && key_listed(keys, bindings.left),
        right: directions && key_listed(keys, bindings.right),
        up: directions && key_listed(keys, bindings.up),
        down: directions && key_listed(keys, bindings.down),
        aim_grab: key_listed(keys, bindings.aim_grab),
        heavy: key_listed(keys, bindings.heavy),
        light: light && key_listed(keys, bindings.light),
        jump: key_listed(keys, bindings.jump),
    }
}

/// Samples a player's bound keys.
pub fn sample_bound_tick_input(
    keys: &KeySnapshot,
    bindings: PlayerControlBindings,
    reserve_camera_inputs: bool,
) -> (sample: RenderInputSample)
    ensures
        ({
            let directions = !directions_claimed(keys@, bindings, reserve_camera_inputs);
            let light = !light_claimed(keys@, bindings, reserve_camera_inputs);
            sample == (RenderInputSample {
                axis: movement_axis(keys@, bindings, reserve_camera_inputs),
                held: bound_mask(keys@.pressed, bindings, directions, light),
                pressed: bound_mask(keys@.just_pressed, bindings, directions, light),
                released: bound_mask(keys@.just_released, bindings, directions, light),
            })
        }),
{
    let shifted = reserve_camera_inputs && shift_pressed(keys);
    let directions = !(shifted && uses_camera_arrow_keys(bindings));
    let light = !(shifted && bindings.light == KeyCode::KeyC);
    RenderInputSample {
        axis: player_movement_input(keys, bindings, reserve_camera_inputs),
        held: mask_of(&keys.pressed, bindings, directions, light),
        pressed: mask_of(&keys.just_pressed, bindings, directions, light),
        released: mask_of(&keys.just_released, bindings, directions, light),
    }
}

/// While the camera may not claim keys, every bound key reaches its player.
pub proof fn unreserved_keys_reach_the_player(keys: KeyModel, bindings: PlayerControlBindings)
    ensures
        !directions_claimed(keys, bindings, false),
        !light_claimed(keys, bindings, false),
        bound_mask(keys.pressed, bindings, true, true).light == keys.pressed.contains(
            bindings.light,
        ),
{
}

} // verus!

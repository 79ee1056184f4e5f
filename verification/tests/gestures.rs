use arena_fighter::gestures::{
    ChordSample, DOUBLE_TAP_DASH_WINDOW, DashTapTracker, GuardChordOutput, GuardChordTracker,
    collect_bound_player_input, movement_double_tapped, player_dash_input,
};
use arena_fighter::input::{FighterInput, guard_counter_trigger_pressed};
use arena_fighter::keys::{KeyCode, KeySnapshot, PlayerControlBindings};

/// The chord grace in microseconds.
const GRACE: u64 = 80_000;

const SECOND: u64 = 1_000_000;

fn player_one() -> PlayerControlBindings {
    PlayerControlBindings {
        left: KeyCode::ArrowLeft,
        right: KeyCode::ArrowRight,
        up: KeyCode::ArrowUp,
        down: KeyCode::ArrowDown,
        aim_grab: KeyCode::KeyZ,
        heavy: KeyCode::KeyX,
        light: KeyCode::KeyC,
        jump: KeyCode::KeyV,
    }
}

fn numbered(first: u64) -> PlayerControlBindings {
    PlayerControlBindings {
        left: KeyCode::Other(first),
        right: KeyCode::Other(first + 1),
        up: KeyCode::Other(first + 2),
        down: KeyCode::Other(first + 3),
        aim_grab: KeyCode::Other(first + 4),
        heavy: KeyCode::Other(first + 5),
        light: KeyCode::Other(first + 6),
        jump: KeyCode::Other(first + 7),
    }
}

fn press(keys: &[KeyCode]) -> KeySnapshot {
    KeySnapshot {
        pressed: keys.to_vec(),
        just_pressed: keys.to_vec(),
        just_released: vec![],
    }
}

fn chord_guard() -> GuardChordOutput {
    GuardChordOutput { guard: true, ..GuardChordOutput::default() }
}

fn chord_light() -> GuardChordOutput {
    GuardChordOutput { light: true, ..GuardChordOutput::default() }
}

fn chord_heavy() -> GuardChordOutput {
    GuardChordOutput { heavy: true, ..GuardChordOutput::default() }
}

fn chord_ultimate() -> GuardChordOutput {
    GuardChordOutput { ultimate: true, ..GuardChordOutput::default() }
}

/// Buttons in the order light, heavy, grab: first those just pressed, then those
/// held.
fn resolve(
    tracker: &mut GuardChordTracker,
    just: [bool; 3],
    held: [bool; 3],
    now: u64,
) -> GuardChordOutput {
    let sample = ChordSample {
        light_just: just[0],
        heavy_just: just[1],
        grab_just: just[2],
        light_held: held[0],
        heavy_held: held[1],
        grab_held: held[2],
        now,
    };
    arena_fighter::gestures::resolve_guard_chord_input(tracker, sample, GRACE)
}

fn resolve_pair(
    tracker: &mut GuardChordTracker,
    light_just: bool,
    heavy_just: bool,
    light_held: bool,
    heavy_held: bool,
    now: u64,
) -> GuardChordOutput {
    resolve(tracker, [light_just, heavy_just, false], [light_held, heavy_held, false], now)
}

#[test]
fn ultimate_chord_beats_guard_and_grab_when_three_buttons_are_close() {
    let mut tracker = GuardChordTracker::default();
    assert_eq!(
        resolve(&mut tracker, [true, false, false], [true, false, false], SECOND),
        GuardChordOutput::default()
    );
    assert_eq!(
        resolve(&mut tracker, [false, true, false], [true, true, false], 1_020_000),
        chord_guard()
    );
    assert_eq!(
        resolve(&mut tracker, [false, false, true], [true, true, true], 1_040_000),
        chord_ultimate()
    );
    assert_eq!(
        resolve(&mut tracker, [false, false, false], [true, true, true], 1_050_000),
        GuardChordOutput::default()
    );
}

#[test]
fn z_alone_waits_for_ultimate_grace_then_stays_aim_only() {
    let mut tracker = GuardChordTracker::default();
    let start = 2 * SECOND;
    assert_eq!(
        resolve(&mut tracker, [false, false, true], [false, false, true], start),
        GuardChordOutput::default()
    );
    assert_eq!(
        resolve(&mut tracker, [false, false, false], [false, false, true], start + GRACE),
        GuardChordOutput::default()
    );
    assert_eq!(
        resolve(&mut tracker, [true, false, false], [true, false, true], start + GRACE + 10_000),
        GuardChordOutput::default()
    );
    assert_eq!(
        resolve(
            &mut tracker,
            [false, false, false],
            [true, false, true],
            start + GRACE * 2 + 10_000
        ),
        chord_light()
    );
}

#[test]
fn held_z_plus_later_light_heavy_chord_fires_ultimate() {
    let mut tracker = GuardChordTracker::default();
    let start = 6 * SECOND;
    assert_eq!(
        resolve(&mut tracker, [false, false, true], [false, false, true], start),
        GuardChordOutput::default()
    );
    assert_eq!(
        resolve(&mut tracker, [true, true, false], [true, true, true], start + GRACE * 3),
        chord_ultimate()
    );
}

#[test]
fn held_z_plus_staggered_light_heavy_chord_fires_ultimate() {
    let mut tracker = GuardChordTracker::default();
    let start = 7 * SECOND;
    assert_eq!(
        resolve(&mut tracker, [false, false, true], [false, false, true], start),
        GuardChordOutput::default()
    );
    assert_eq!(
        resolve(&mut tracker, [true, false, false], [true, false, true], start + GRACE * 3),
        GuardChordOutput::default()
    );
    assert_eq!(
        resolve(
            &mut tracker,
            [false, true, false],
            [true, true, true],
            start + GRACE * 3 + GRACE / 2
        ),
        chord_ultimate()
    );
}

#[test]
fn old_guard_does_not_upgrade_to_ultimate_from_late_z() {
    let mut tracker = GuardChordTracker::default();
    let start = 8 * SECOND;
    assert_eq!(
        resolve_pair(&mut tracker, true, false, true, false, start),
        GuardChordOutput::default()
    );
    assert_eq!(
        resolve_pair(&mut tracker, false, true, true, true, start + GRACE / 2),
        chord_guard()
    );
    assert_eq!(
        resolve(&mut tracker, [false, false, true], [true, true, true], start + GRACE * 3),
        chord_guard()
    );
}

#[test]
fn guard_chord_accepts_light_then_heavy_within_grace() {
    let mut tracker = GuardChordTracker::default();
    assert_eq!(
        resolve_pair(&mut tracker, true, false, true, false, SECOND),
        GuardChordOutput::default()
    );
    assert_eq!(
        resolve_pair(&mut tracker, false, true, true, true, SECOND + GRACE / 2),
        chord_guard()
    );
    assert_eq!(resolve_pair(&mut tracker, false, false, true, true, 1_100_000), chord_guard());
    assert_eq!(
        resolve_pair(&mut tracker, false, false, true, false, 1_120_000),
        GuardChordOutput::default()
    );
}

#[test]
fn guard_chord_accepts_heavy_then_light_within_grace() {
    let mut tracker = GuardChordTracker::default();
    assert_eq!(
        resolve_pair(&mut tracker, false, true, false, true, 2 * SECOND),
        GuardChordOutput::default()
    );
    assert_eq!(
        resolve_pair(&mut tracker, true, false, true, true, 2 * SECOND + GRACE / 2),
        chord_guard()
    );
}

#[test]
fn solo_light_waits_for_guard_chord_grace() {
    let mut tracker = GuardChordTracker::default();
    let start = 3 * SECOND;
    assert_eq!(
        resolve_pair(&mut tracker, true, false, true, false, start),
        GuardChordOutput::default()
    );
    assert_eq!(
        resolve_pair(&mut tracker, false, false, true, false, start + GRACE / 2),
        GuardChordOutput::default()
    );
    assert_eq!(
        resolve_pair(&mut tracker, false, false, true, false, start + GRACE),
        chord_light()
    );
}

#[test]
fn solo_heavy_waits_for_guard_chord_grace() {
    let mut tracker = GuardChordTracker::default();
    let start = 4 * SECOND;
    assert_eq!(
        resolve_pair(&mut tracker, false, true, false, true, start),
        GuardChordOutput::default()
    );
    assert_eq!(
        resolve_pair(&mut tracker, false, false, false, true, start + GRACE),
        chord_heavy()
    );
}

#[test]
fn late_second_guard_button_does_not_override_solo_attack() {
    let mut tracker = GuardChordTracker::default();
    let start = 5 * SECOND;
    assert_eq!(
        resolve_pair(&mut tracker, true, false, true, false, start),
        GuardChordOutput::default()
    );
    assert_eq!(
        resolve_pair(&mut tracker, false, true, true, true, start + GRACE + 10_000),
        chord_light()
    );
    assert_eq!(
        resolve_pair(&mut tracker, false, false, true, true, start + GRACE * 2 + GRACE / 2),
        chord_heavy()
    );
}

#[test]
fn releasing_first_guard_button_prevents_chord_conversion() {
    let mut tracker = GuardChordTracker::default();
    let start = 6 * SECOND;
    assert_eq!(
        resolve_pair(&mut tracker, true, false, true, false, start),
        GuardChordOutput::default()
    );
    assert_eq!(
        resolve_pair(&mut tracker, false, false, false, false, start + 20_000),
        GuardChordOutput::default()
    );
    assert_eq!(
        resolve_pair(&mut tracker, false, true, false, true, start + 40_000),
        GuardChordOutput::default()
    );
    assert_eq!(
        resolve_pair(&mut tracker, false, false, false, true, start + 80_000),
        chord_light()
    );
}

#[test]
fn an_ultimate_fires_once_until_a_button_is_released() {
    let mut tracker = GuardChordTracker::default();
    assert_eq!(
        resolve(&mut tracker, [true, true, true], [true, true, true], SECOND),
        chord_ultimate()
    );
    for step in 1..20u64 {
        let output =
            resolve(&mut tracker, [false, false, false], [true, true, true], SECOND + step * 16_000);
        assert!(!output.ultimate);
    }
}

#[test]
fn shift_arrows_do_not_trigger_player_dash() {
    let mut tracker = DashTapTracker::default();
    let first = press(&[KeyCode::ArrowRight]);
    assert!(!player_dash_input(&first, SECOND, &mut tracker, player_one(), true));
    let second = press(&[KeyCode::ArrowRight]);
    assert!(player_dash_input(&second, 1_100_000, &mut tracker, player_one(), true));
    let shifted = press(&[KeyCode::ShiftLeft, KeyCode::ArrowRight]);
    assert!(!player_dash_input(&shifted, 1_200_000, &mut tracker, player_one(), true));

    let mut user_tracker = DashTapTracker::default();
    assert!(!player_dash_input(&first, SECOND, &mut user_tracker, player_one(), false));
    assert!(player_dash_input(&shifted, 1_100_000, &mut user_tracker, player_one(), false));
}

#[test]
fn double_taps_must_come_within_the_window() {
    let tap = press(&[KeyCode::ArrowLeft]);
    let mut tracker = DashTapTracker::default();
    assert!(!movement_double_tapped(&tap, SECOND, &mut tracker, player_one()));
    assert!(movement_double_tapped(
        &tap,
        SECOND + DOUBLE_TAP_DASH_WINDOW,
        &mut tracker,
        player_one()
    ));
    let mut slow = DashTapTracker::default();
    assert!(!movement_double_tapped(&tap, SECOND, &mut slow, player_one()));
    assert!(!movement_double_tapped(
        &tap,
        SECOND + DOUBLE_TAP_DASH_WINDOW + 1,
        &mut slow,
        player_one()
    ));
}

#[test]
fn player_three_and_four_bindings_produce_movement_and_actions() {
    for bindings in [numbered(20), numbered(40)] {
        let keys = press(&[bindings.right, bindings.heavy, bindings.jump]);
        let mut dash = DashTapTracker::default();
        let mut guard = GuardChordTracker::default();
        let mut input = FighterInput::default();
        collect_bound_player_input(
            &keys, SECOND, bindings, &mut dash, &mut guard, false, GRACE, &mut input,
        );
        let axis = arena_fighter::keys::player_movement_input(&keys, bindings, false);
        assert_eq!((axis.x, axis.y), (1, 0));
        assert!(input.jump);
        assert!(input.raw_heavy_pressed);
        assert!(input.heavy_held);
    }
}

#[test]
fn user_mode_shift_c_is_player_light_not_camera_filter() {
    let keys = press(&[KeyCode::ShiftLeft, KeyCode::KeyC]);
    let mut dev_dash = DashTapTracker::default();
    let mut dev_guard = GuardChordTracker::default();
    let mut dev_input = FighterInput::default();
    collect_bound_player_input(
        &keys, SECOND, player_one(), &mut dev_dash, &mut dev_guard, true, GRACE, &mut dev_input,
    );
    assert!(!dev_input.light);
    assert!(!dev_input.light_held);

    let mut user_dash = DashTapTracker::default();
    let mut user_guard = GuardChordTracker::default();
    let mut user_input = FighterInput::default();
    collect_bound_player_input(
        &keys, SECOND, player_one(), &mut user_dash, &mut user_guard, false, GRACE, &mut user_input,
    );
    assert!(user_input.light_held);

    let mut resolved_input = FighterInput::default();
    collect_bound_player_input(
        &keys,
        SECOND + GRACE,
        player_one(),
        &mut user_dash,
        &mut user_guard,
        false,
        GRACE,
        &mut resolved_input,
    );
    assert!(resolved_input.light);
    assert!(resolved_input.light_held);
}

#[test]
fn collected_input_preserves_raw_attack_for_counter_detection() {
    let keys = press(&[KeyCode::KeyC]);
    let mut dash = DashTapTracker::default();
    let mut guard = GuardChordTracker::default();
    let mut input = FighterInput::default();
    collect_bound_player_input(
        &keys, SECOND, player_one(), &mut dash, &mut guard, false, GRACE, &mut input,
    );
    assert!(input.raw_light_pressed);
    assert!(guard_counter_trigger_pressed(&input));

    let keys = press(&[KeyCode::KeyC, KeyCode::KeyX]);
    let mut dash = DashTapTracker::default();
    let mut guard = GuardChordTracker::default();
    let mut input = FighterInput::default();
    collect_bound_player_input(
        &keys, 2 * SECOND, player_one(), &mut dash, &mut guard, false, GRACE, &mut input,
    );
    assert!(input.raw_light_pressed);
    assert!(input.raw_heavy_pressed);
    assert!(input.guard);
    assert!(!guard_counter_trigger_pressed(&input));
}

#[test]
fn collected_input_carries_the_release_of_a_heavy_button() {
    let keys = KeySnapshot {
        pressed: vec![],
        just_pressed: vec![],
        just_released: vec![KeyCode::KeyX],
    };
    let mut dash = DashTapTracker::default();
    let mut guard = GuardChordTracker::default();
    let mut input = FighterInput::default();
    collect_bound_player_input(
        &keys, SECOND, player_one(), &mut dash, &mut guard, false, GRACE, &mut input,
    );
    assert!(input.heavy_released);
    assert!(!input.heavy_held);
    assert!(!input.heavy);
}

use arena_fighter::ids::FighterId;
use arena_fighter::keys::{
    InputMask, KeyCode, KeySnapshot, PlayerControlBindings, PlayerKeyBindings,
    dev_character_cycle_pressed, match_reset_pressed, player_movement_input,
    sample_bound_tick_input, setup_rule_hotkeys_active,
};
use arena_fighter::loadout::{Controller, LocalInputAssignment, ParticipantKind};
use arena_fighter::match_state::MatchPhase;
use arena_fighter::sampling::{
    TickInputSource, consume_local_player_input, sample_local_player_input,
};

fn player_one() -> PlayerControlBindings {
    PlayerControlBindings {
        left: KeyCode::ArrowLeft,
        right: KeyCode::ArrowRight,
        up: KeyCode::ArrowUp,
        down: KeyCode::ArrowDown,
        aim_grab: KeyCode::KeyZ,
        heavy: KeyCode::KeyX,
        light: KeyCode::KeyC,
        jump: KeyCode::KeyV,
    }
}

fn numbered(first: u64) -> PlayerControlBindings {
    PlayerControlBindings {
        left: KeyCode::Other(first),
        right: KeyCode::Other(first + 1),
        up: KeyCode::Other(first + 2),
        down: KeyCode::Other(first + 3),
        aim_grab: KeyCode::Other(first + 4),
        heavy: KeyCode::Other(first + 5),
        light: KeyCode::Other(first + 6),
        jump: KeyCode::Other(first + 7),
    }
}

fn all_bindings() -> PlayerKeyBindings {
    PlayerKeyBindings { p1: player_one(), p2: numbered(20), p3: numbered(40), p4: numbered(60) }
}

fn press(keys: &[KeyCode]) -> KeySnapshot {
    KeySnapshot { pressed: keys.to_vec(), just_pressed: keys.to_vec(), just_released: vec![] }
}

fn no_keys() -> InputMask {
    InputMask {
        left: false,
        right: false,
        up: false,
        down: false,
        aim_grab: false,
        heavy: false,
        light: false,
        jump: false,
    }
}

#[test]
fn shift_arrows_are_camera_input_not_player_movement() {
    let keys = press(&[KeyCode::ArrowRight]);
    let axis = player_movement_input(&keys, player_one(), true);
    assert_eq!((axis.x, axis.y), (1, 0));

    let shifted = press(&[KeyCode::ArrowRight, KeyCode::ShiftLeft]);
    let axis = player_movement_input(&shifted, player_one(), true);
    assert_eq!((axis.x, axis.y), (0, 0));
    let axis = player_movement_input(&shifted, player_one(), false);
    assert_eq!((axis.x, axis.y), (1, 0));
}

#[test]
fn opposite_keys_cancel() {
    let keys = press(&[KeyCode::ArrowRight, KeyCode::ArrowLeft, KeyCode::ArrowUp]);
    let axis = player_movement_input(&keys, player_one(), false);
    assert_eq!((axis.x, axis.y), (0, -1));
}

#[test]
fn fixed_sampler_maps_third_and_fourth_player_bindings_to_raw_masks() {
    for bindings in [numbered(40), numbered(60)] {
        let keys = press(&[bindings.right, bindings.heavy, bindings.jump]);
        let sample = sample_bound_tick_input(&keys, bindings, false);
        assert_eq!((sample.axis.x, sample.axis.y), (1, 0));
        let expected = InputMask { right: true, heavy: true, jump: true, ..no_keys() };
        assert_eq!(sample.held, expected);
        assert_eq!(sample.pressed, expected);
        assert_eq!(sample.released, no_keys());
    }
}

#[test]
fn fixed_sampler_routes_controller_assignment_by_fighter_seat_and_skips_bots() {
    let bindings = all_bindings();
    let keys = press(&[bindings.p3.right, bindings.p3.jump]);
    let controllers = vec![
        Controller::new(
            FighterId::Zero,
            ParticipantKind::Human,
            LocalInputAssignment::Keyboard(2),
        ),
        Controller::new(FighterId::One, ParticipantKind::Bot, LocalInputAssignment::Unassigned),
    ];
    let mut sources = [None; 4];
    let sampling =
        sample_local_player_input(true, &keys, &bindings, false, false, &controllers, &mut sources);
    let human = sampling[0].sample.unwrap();
    assert_eq!((human.axis.x, human.axis.y), (1, 0));
    assert!(human.held.right && human.held.jump);
    assert!(human.pressed.right && human.pressed.jump);
    assert_eq!(sampling[1].sample, None);
    assert_eq!(sources, [Some(LocalInputAssignment::Keyboard(2)), None, None, None]);
}

#[test]
fn fixed_sampler_preserves_shift_camera_reservations() {
    let bindings = player_one();
    let keys = press(&[KeyCode::ShiftLeft, bindings.right, bindings.light, bindings.heavy]);
    let reserved = sample_bound_tick_input(&keys, bindings, true);
    assert_eq!((reserved.axis.x, reserved.axis.y), (0, 0));
    assert_eq!(reserved.held, InputMask { heavy: true, ..no_keys() });
    assert_eq!(reserved.pressed, InputMask { heavy: true, ..no_keys() });

    let player_owned = sample_bound_tick_input(&keys, bindings, false);
    assert_eq!((player_owned.axis.x, player_owned.axis.y), (1, 0));
    assert!(player_owned.held.right && player_owned.pressed.right);
    assert!(player_owned.held.light && player_owned.pressed.light);
}

#[test]
fn sampler_reports_the_release_of_a_heavy_button() {
    let bindings = player_one();
    let keys = KeySnapshot {
        pressed: vec![],
        just_pressed: vec![],
        just_released: vec![bindings.heavy],
    };
    let release = sample_bound_tick_input(&keys, bindings, false);
    assert!(!release.held.heavy);
    assert!(!release.pressed.heavy);
    assert!(release.released.heavy);
}

#[test]
fn seats_outside_a_fight_are_reset_and_not_sampled() {
    let bindings = all_bindings();
    let keys = press(&[KeyCode::ArrowRight]);
    let controllers = vec![Controller::new(
        FighterId::Zero,
        ParticipantKind::Human,
        LocalInputAssignment::Keyboard(0),
    )];
    let mut sources = [Some(LocalInputAssignment::Keyboard(0)), None, None, None];
    let sampling =
        sample_local_player_input(false, &keys, &bindings, false, false, &controllers, &mut sources);
    assert!(sampling[0].reset);
    assert_eq!(sampling[0].sample, None);
    assert_eq!(sources, [None; 4]);
}

#[test]
fn two_humans_on_one_seat_are_not_sampled() {
    let bindings = all_bindings();
    let keys = press(&[KeyCode::ArrowRight]);
    let human = Controller::new(
        FighterId::Zero,
        ParticipantKind::Human,
        LocalInputAssignment::Keyboard(0),
    );
    let mut sources = [None; 4];
    let sampling = sample_local_player_input(
        true,
        &keys,
        &bindings,
        false,
        false,
        &vec![human, human],
        &mut sources,
    );
    assert_eq!(sampling[0].sample, None);
}

#[test]
fn each_seat_is_drained_once() {
    let human = Controller::new(
        FighterId::Two,
        ParticipantKind::Human,
        LocalInputAssignment::Keyboard(1),
    );
    let bot =
        Controller::new(FighterId::One, ParticipantKind::Bot, LocalInputAssignment::Unassigned);
    let idle = Controller::new(
        FighterId::Three,
        ParticipantKind::Human,
        LocalInputAssignment::Unassigned,
    );
    let sources = consume_local_player_input(&vec![human, bot, human, idle]);
    assert_eq!(
        sources,
        vec![
            TickInputSource::Drain(FighterId::Two),
            TickInputSource::Untouched,
            TickInputSource::Shared(FighterId::Two),
            TickInputSource::Neutral,
        ]
    );
}

#[test]
fn match_reset_requires_unmodified_r() {
    assert!(match_reset_pressed(&press(&[KeyCode::KeyR])));
    for modifier in [
        KeyCode::ShiftLeft,
        KeyCode::ShiftRight,
        KeyCode::ControlLeft,
        KeyCode::ControlRight,
        KeyCode::AltLeft,
        KeyCode::AltRight,
        KeyCode::SuperLeft,
        KeyCode::SuperRight,
    ] {
        assert!(!match_reset_pressed(&press(&[modifier, KeyCode::KeyR])));
    }
}

#[test]
fn dev_character_cycle_requires_shift_p() {
    assert!(!dev_character_cycle_pressed(&press(&[KeyCode::KeyP])));
    assert!(dev_character_cycle_pressed(&press(&[KeyCode::ShiftLeft, KeyCode::KeyP])));
    assert!(!dev_character_cycle_pressed(&press(&[KeyCode::ShiftRight, KeyCode::KeyC])));
}

#[test]
fn setup_rule_hotkeys_are_setup_only() {
    assert!(setup_rule_hotkeys_active(MatchPhase::Setup));
    assert!(!setup_rule_hotkeys_active(MatchPhase::Fighting));
    assert!(!setup_rule_hotkeys_active(MatchPhase::Results));
    assert!(!setup_rule_hotkeys_active(MatchPhase::Resetting));
}

#[test]
fn assignments_beyond_the_layouts_have_no_keys() {
    let bindings = all_bindings();
    assert_eq!(
        bindings.bindings_for_assignment(LocalInputAssignment::Keyboard(3)),
        Some(numbered(60))
    );
    assert_eq!(bindings.bindings_for_assignment(LocalInputAssignment::Keyboard(4)), None);
    assert_eq!(bindings.bindings_for_assignment(LocalInputAssignment::Unassigned), None);
}

use arena_fighter::action::{FighterAction, FighterActionState};
use arena_fighter::input::{FighterInput, TechniqueButton};
use arena_fighter::technique::{
    ActiveTechnique, ChainRule, MoveTable, TechniqueDefinition, TechniqueId, TickWindow,
    action_is_over, attack_duration_for_state, buffer_hitstop_followup_input,
    queue_chained_followup, refresh_technique_runtime, start_technique_by_id, technique_runtime,
};
use arena_fighter::scalar::Scalar;
use arena_fighter::ticks::{ElapsedTicks, milliseconds_to_ticks_ceil};

fn elapsed(millis: u32) -> ElapsedTicks {
    ElapsedTicks::from_ticks(milliseconds_to_ticks_ceil(millis))
}

fn rule(previous: TechniqueId, button: TechniqueButton, next: TechniqueId) -> ChainRule {
    ChainRule {
        previous: Some(previous),
        button,
        window: TickWindow { opens: 4, closes: 40 },
        grounded: Some(true),
        confirmed_hit: None,
        cancel_open: None,
        branch_open: Some(true),
        action: None,
        next,
    }
}

fn active(id: TechniqueId, action: FighterAction, duration: u32, whiff: u32) -> ActiveTechnique {
    ActiveTechnique {
        action,
        technique_id: Some(id),
        id,
        input_buffer_ms: 240,
        duration,
        whiff_duration: whiff,
        cancel: vec![TickWindow { opens: 10, closes: 12 }],
        branch: vec![TickWindow { opens: 4, closes: 40 }],
        next_technique: vec![],
    }
}

fn table() -> MoveTable {
    MoveTable {
        definitions: vec![TechniqueDefinition {
            id: TechniqueId::CatHeavy2,
            action: FighterAction::HeavyAttack2,
            stamina_cost: Scalar::zero(),
        }],
        slots: vec![],
        active: vec![
            active(TechniqueId::CatLight1, FighterAction::LightAttack1, 20, 20),
            active(TechniqueId::PigLight1, FighterAction::LightAttack1, 20, 20),
            active(TechniqueId::PigLight2, FighterAction::LightAttack2, 22, 22),
            active(TechniqueId::PigHeavy, FighterAction::HeavyAttack, 40, 40),
            active(TechniqueId::CatHeavy, FighterAction::HeavyAttack, 30, 38),
            active(TechniqueId::DogLight1, FighterAction::LightAttack1, 20, 20),
            active(TechniqueId::FoxLight1, FighterAction::LightAttack1, 20, 20),
            active(TechniqueId::PandaLight1, FighterAction::LightAttack1, 20, 20),
        ],
        chains: vec![
            rule(TechniqueId::CatLight1, TechniqueButton::A, TechniqueId::CatLight2),
            rule(TechniqueId::CatHeavy, TechniqueButton::B, TechniqueId::CatHeavy2),
            rule(TechniqueId::PigLight1, TechniqueButton::A, TechniqueId::PigLight2),
            rule(TechniqueId::PigLight2, TechniqueButton::A, TechniqueId::PigComboFinisher),
            rule(TechniqueId::DogLight1, TechniqueButton::A, TechniqueId::DogLight2),
            rule(TechniqueId::FoxLight1, TechniqueButton::A, TechniqueId::FoxLight2),
            rule(TechniqueId::PandaLight1, TechniqueButton::A, TechniqueId::PandaLight2),
        ],
        raw: vec![],
        heavy_armor_ticks: None,
    }
}

fn under_way(action: FighterAction, id: TechniqueId, millis: u32) -> FighterActionState {
    FighterActionState {
        action,
        elapsed: elapsed(millis),
        technique_id: Some(id),
        branch_window_open: false,
        ..FighterActionState::default()
    }
}

fn light() -> FighterInput {
    FighterInput { light: true, ..FighterInput::default() }
}

fn heavy() -> FighterInput {
    FighterInput { heavy: true, ..FighterInput::default() }
}

#[test]
fn light_followup_can_buffer_before_chain_window_opens() {
    let table = table();
    let mut action = under_way(FighterAction::LightAttack1, TechniqueId::CatLight1, 50);
    queue_chained_followup(&mut action, &light(), true, &table);
    assert_eq!(action.buffered_button, Some(TechniqueButton::A));
    assert_eq!(action.queued_technique, None);
    action.elapsed = elapsed(200);
    action.branch_window_open = true;
    queue_chained_followup(&mut action, &FighterInput::default(), true, &table);
    assert_eq!(action.queued_technique, Some(TechniqueId::CatLight2));
    assert_eq!(action.buffered_button, None);
}

#[test]
fn heavy_followup_can_buffer_before_chain_window_opens() {
    let table = table();
    let mut action = under_way(FighterAction::HeavyAttack, TechniqueId::CatHeavy, 30);
    queue_chained_followup(&mut action, &heavy(), true, &table);
    assert_eq!(action.buffered_button, Some(TechniqueButton::B));
    assert_eq!(action.queued_technique, None);
    action.elapsed = elapsed(80);
    action.branch_window_open = true;
    queue_chained_followup(&mut action, &FighterInput::default(), true, &table);
    assert_eq!(action.queued_technique, Some(TechniqueId::CatHeavy2));
    assert_eq!(action.buffered_button, None);
}

#[test]
fn pig_light_chain_uses_same_preinput_buffer_as_cat() {
    let table = table();
    let mut first = under_way(FighterAction::LightAttack1, TechniqueId::PigLight1, 50);
    queue_chained_followup(&mut first, &light(), true, &table);
    assert_eq!(first.buffered_button, Some(TechniqueButton::A));
    assert_eq!(first.queued_technique, None);
    first.elapsed = elapsed(200);
    first.branch_window_open = true;
    queue_chained_followup(&mut first, &FighterInput::default(), true, &table);
    assert_eq!(first.queued_technique, Some(TechniqueId::PigLight2));

    let mut second = under_way(FighterAction::LightAttack2, TechniqueId::PigLight2, 50);
    queue_chained_followup(&mut second, &light(), true, &table);
    assert_eq!(second.buffered_button, Some(TechniqueButton::A));
    assert_eq!(second.queued_technique, None);
    second.elapsed = elapsed(160);
    second.branch_window_open = true;
    assert!(second.elapsed.get() < attack_duration_for_state(&second, &table).unwrap());
    queue_chained_followup(&mut second, &FighterInput::default(), true, &table);
    assert_eq!(second.queued_technique, Some(TechniqueId::PigComboFinisher));
}

#[test]
fn pig_heavy_charge_does_not_route_to_launcher_followup() {
    let table = table();
    let mut action = under_way(FighterAction::HeavyAttack, TechniqueId::PigHeavy, 50);
    queue_chained_followup(&mut action, &heavy(), true, &table);
    assert_eq!(action.buffered_button, Some(TechniqueButton::B));
    assert_eq!(action.queued_technique, None);
    action.elapsed = elapsed(160);
    action.branch_window_open = true;
    queue_chained_followup(&mut action, &FighterInput::default(), true, &table);
    assert_eq!(action.queued_technique, None);
    assert_eq!(action.technique_id, Some(TechniqueId::PigHeavy));
}

#[test]
fn roster_light_followups_use_universal_buffered_chain_path() {
    let table = table();
    for (previous, expected) in [
        (TechniqueId::CatLight1, TechniqueId::CatLight2),
        (TechniqueId::PigLight1, TechniqueId::PigLight2),
        (TechniqueId::DogLight1, TechniqueId::DogLight2),
        (TechniqueId::FoxLight1, TechniqueId::FoxLight2),
        (TechniqueId::PandaLight1, TechniqueId::PandaLight2),
    ] {
        let mut action = under_way(FighterAction::LightAttack1, previous, 50);
        queue_chained_followup(&mut action, &light(), true, &table);
        assert_eq!(action.buffered_button, Some(TechniqueButton::A));
        assert_eq!(action.queued_technique, None);
        action.elapsed = elapsed(250);
        action.branch_window_open = true;
        queue_chained_followup(&mut action, &FighterInput::default(), true, &table);
        assert_eq!(action.queued_technique, Some(expected));
    }
}

#[test]
fn heavy_followup_pressed_during_hitstop_is_preserved() {
    let table = table();
    let mut action = FighterActionState {
        branch_window_open: true,
        confirmed_hit: true,
        ..under_way(FighterAction::HeavyAttack, TechniqueId::CatHeavy, 180)
    };
    buffer_hitstop_followup_input(&mut action, &heavy(), &table);
    assert_eq!(action.buffered_button, Some(TechniqueButton::B));
    assert_eq!(action.queued_technique, None);
    queue_chained_followup(&mut action, &FighterInput::default(), true, &table);
    assert_eq!(action.queued_technique, Some(TechniqueId::CatHeavy2));
}

#[test]
fn anchor_heavy_whiff_has_extra_recovery() {
    let table = table();
    let mut action = under_way(FighterAction::HeavyAttack, TechniqueId::CatHeavy, 0);
    let whiff = attack_duration_for_state(&action, &table).unwrap();
    action.confirmed_hit = true;
    let hit = attack_duration_for_state(&action, &table).unwrap();
    assert!(whiff > hit);
    assert_eq!((whiff, hit), (38, 30));
}

#[test]
fn buffered_buttons_expire_after_the_buffer_time() {
    let table = table();
    let mut action = under_way(FighterAction::LightAttack1, TechniqueId::CatLight1, 0);
    queue_chained_followup(&mut action, &light(), true, &table);
    for _ in 0..60 {
        queue_chained_followup(&mut action, &FighterInput::default(), true, &table);
    }
    assert_eq!(action.buffered_button, None);
}

#[test]
fn windows_are_half_open() {
    let table = table();
    let mut action = under_way(FighterAction::HeavyAttack, TechniqueId::CatHeavy, 0);
    for (tick, cancel, branch) in
        [(3, false, false), (4, false, true), (10, true, true), (12, false, true), (40, false, false)]
    {
        action.elapsed = ElapsedTicks::from_ticks(tick);
        let runtime = technique_runtime(&action, &table);
        assert_eq!((runtime.cancel_open, runtime.branch_open), (cancel, branch));
        refresh_technique_runtime(&mut action, &table);
        assert_eq!((action.cancel_window_open, action.branch_window_open), (cancel, branch));
    }
    assert!(action_is_over(&action, &table));
    action.elapsed = ElapsedTicks::from_ticks(37);
    assert!(!action_is_over(&action, &table));
}

#[test]
fn starting_a_technique_starts_the_action_over() {
    let table = table();
    let mut action = under_way(FighterAction::HeavyAttack, TechniqueId::CatHeavy, 100);
    action.confirmed_hit = true;
    start_technique_by_id(&mut action, TechniqueId::CatHeavy2, &table);
    assert_eq!(action.action, FighterAction::HeavyAttack2);
    assert_eq!(action.technique_id, Some(TechniqueId::CatHeavy2));
    assert_eq!(action.elapsed, ElapsedTicks::zero());
    assert!(!action.confirmed_hit);
}

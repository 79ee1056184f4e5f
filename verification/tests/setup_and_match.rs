use arena_fighter::feedback::{
    Hitstop, MatchAnnouncements, MatchTelemetry, phase_cue, tick_announcements, tick_hitstop,
    tick_match_timer,
};
use arena_fighter::ids::FighterId;
use arena_fighter::loadout::{
    CharacterKind, Controller, EquipmentKind, FighterStyleKind, LocalInputAssignment,
    ParticipantKind, SeatDefaults, TeamId, fighter_team, fighters_share_team,
    next_character_kind, previous_character_kind,
};
use arena_fighter::match_state::{
    LifeLossBatch, LifeLossCause, LifeLossError, MatchPhase, MatchPhaseEvent, MatchState,
};
use arena_fighter::rules::{
    RulePreset, STOCK_LIVES, combat_target_allowed, rule_preset, rule_presets,
};
use arena_fighter::scalar::Scalar;
use arena_fighter::setup::{
    BotBrainChange, DEFAULT_REPLAY_SEED, FighterEquipment, LocalSetup, apply_setup_loadout,
    cycle_dev_player_character, next_replay_seed, reconcile_fighter_control_from_setup,
};

const SECOND: u64 = 1_000_000_000;

const MATCH_NANOS: u64 = 120 * SECOND;

const TIME_UP_NANOS: u64 = 2 * SECOND;

fn default_setup() -> LocalSetup {
    LocalSetup::from_defaults([
        SeatDefaults {
            character: CharacterKind::Cat,
            style: FighterStyleKind::Vector,
            equipment: EquipmentKind::DashCoil,
        },
        SeatDefaults {
            character: CharacterKind::Pig,
            style: FighterStyleKind::Anchor,
            equipment: EquipmentKind::HeavySeal,
        },
        SeatDefaults {
            character: CharacterKind::Dog,
            style: FighterStyleKind::Catalyst,
            equipment: EquipmentKind::CounterCell,
        },
        SeatDefaults {
            character: CharacterKind::Fox,
            style: FighterStyleKind::Vector,
            equipment: EquipmentKind::AerialSpur,
        },
    ])
}

/// The controller after it was brought in line with the setup, and whether the
/// fighter then has a bot brain.
fn reconcile(
    setup: &LocalSetup,
    fighter_id: usize,
    mut controller: Controller,
    has_bot_brain: bool,
) -> (Controller, bool) {
    let change =
        reconcile_fighter_control_from_setup(fighter_id, setup, &mut controller, has_bot_brain);
    let brain = match change {
        BotBrainChange::Keep => has_bot_brain,
        BotBrainChange::Attach => true,
        BotBrainChange::Remove => false,
    };
    (controller, brain)
}

fn controller_for(fighter_id: usize, participant: ParticipantKind) -> Controller {
    Controller::new(
        FighterId::from_index(fighter_id).unwrap(),
        participant,
        LocalInputAssignment::Unassigned,
    )
}

#[test]
fn rule_presets_cover_timed_ffa_and_stock() {
    let presets = rule_presets();
    assert_eq!(presets.len(), 3);
    assert!(presets.iter().any(|rules| rules.preset == RulePreset::TimedTeamScore
        && rules.team_scoring
        && !rules.friendly_fire));
    assert!(presets.iter().any(|rules| rules.preset == RulePreset::FreeForAll
        && !rules.team_scoring
        && rules.friendly_fire));
    assert!(presets.iter().any(|rules| rules.preset == RulePreset::StockRingOut
        && rules.uses_stocks()
        && rules.friendly_fire));
}

#[test]
fn all_rule_presets_use_lives() {
    assert!(rule_presets().iter().all(|rules| rules.uses_stocks()));
}

#[test]
fn team_helpers_block_friendly_fire_only_for_team_rules() {
    let team_rules = rule_preset(0);
    let ffa_rules = rule_preset(1);
    assert_eq!(fighter_team(0), Some(TeamId::Red));
    assert_eq!(fighter_team(1), Some(TeamId::Blue));
    assert_eq!(fighter_team(2), Some(TeamId::Red));
    assert_eq!(fighter_team(usize::MAX), None);
    assert!(fighters_share_team(0, 2));
    assert!(!fighters_share_team(0, 1));
    assert!(!combat_target_allowed(team_rules, 0, 0));
    assert!(!combat_target_allowed(team_rules, 0, 2));
    assert!(combat_target_allowed(team_rules, 0, 1));
    assert!(combat_target_allowed(team_rules, usize::MAX, 0));
    assert!(combat_target_allowed(ffa_rules, 0, 2));
}

#[test]
fn local_setup_defaults_match_current_starting_loadout() {
    let setup = default_setup();
    assert_eq!(setup.rule_index, 0);
    assert_eq!(setup.arena_index, 0);
    assert_eq!(setup.selected_character_fighter, 0);
    assert_eq!(setup.active_slots(), [true, true, false, false]);
    assert_eq!(setup.active_bot_count(), 1);
    assert_eq!(setup.slots[0].participant, ParticipantKind::Human);
    assert_eq!(setup.slots[0].input, LocalInputAssignment::Keyboard(0));
    assert_eq!(setup.slots[1].participant, ParticipantKind::Bot);
    assert_eq!(setup.slots[2].participant, ParticipantKind::Closed);
    assert_eq!(setup.slots[0].style, FighterStyleKind::Vector);
    assert_eq!(setup.slots[0].equipment, EquipmentKind::DashCoil);
    assert_eq!(setup.replay_seed, DEFAULT_REPLAY_SEED);
}

#[test]
fn local_setup_maps_classic_modes_into_slots() {
    let mut setup = default_setup();
    setup.configure_single_player_duel(CharacterKind::Pig, CharacterKind::Cat);
    assert_eq!(setup.active_slots(), [true, true, false, false]);
    assert_eq!(setup.active_bot_count(), 1);
    assert_eq!(setup.slots[0].participant, ParticipantKind::Human);
    assert_eq!(setup.slots[0].input, LocalInputAssignment::Keyboard(0));
    assert_eq!(setup.slots[0].character, CharacterKind::Pig);
    assert_eq!(setup.slots[1].participant, ParticipantKind::Bot);
    assert_eq!(setup.slots[1].input, LocalInputAssignment::Unassigned);
    assert_eq!(setup.slots[1].character, CharacterKind::Cat);

    setup.configure_two_player_duel(CharacterKind::Cat, CharacterKind::Pig);
    assert_eq!(setup.active_slots(), [true, true, false, false]);
    assert_eq!(setup.active_bot_count(), 0);
    assert_eq!(setup.slots[0].participant, ParticipantKind::Human);
    assert_eq!(setup.slots[0].input, LocalInputAssignment::Keyboard(0));
    assert_eq!(setup.slots[1].participant, ParticipantKind::Human);
    assert_eq!(setup.slots[1].input, LocalInputAssignment::Keyboard(1));
    assert_eq!(setup.slots[2].participant, ParticipantKind::Closed);
}

#[test]
fn reconcile_switching_slot_from_human_back_to_bot_updates_controller() {
    let mut setup = default_setup();
    setup.configure_two_player_duel(CharacterKind::Cat, CharacterKind::Pig);
    let stale_human_controller = setup.controller_for_fighter(1).unwrap();
    setup.configure_single_player_duel(CharacterKind::Cat, CharacterKind::Pig);
    let (controller, has_bot_brain) = reconcile(&setup, 1, stale_human_controller, false);
    assert_eq!(controller.participant, ParticipantKind::Bot);
    assert_eq!(controller.input, LocalInputAssignment::Unassigned);
    assert!(has_bot_brain);
}

#[test]
fn reconcile_new_bot_slot_gets_bot_control_state() {
    let mut setup = default_setup();
    setup.slots[2].participant = ParticipantKind::Bot;
    let stale_closed_controller = controller_for(2, ParticipantKind::Closed);
    let (controller, has_bot_brain) = reconcile(&setup, 2, stale_closed_controller, false);
    assert_eq!(controller.participant, ParticipantKind::Bot);
    assert!(has_bot_brain);
}

#[test]
fn reconcile_human_and_closed_slots_remove_stale_bot_brain() {
    for participant in [ParticipantKind::Human, ParticipantKind::Closed] {
        let mut setup = default_setup();
        setup.slots[1].participant = participant;
        setup.slots[1].input = if participant == ParticipantKind::Human {
            LocalInputAssignment::Keyboard(1)
        } else {
            LocalInputAssignment::Unassigned
        };
        let stale_bot_controller = controller_for(1, ParticipantKind::Bot);
        let (controller, has_bot_brain) = reconcile(&setup, 1, stale_bot_controller, true);
        assert_eq!(controller.participant, participant);
        assert!(!has_bot_brain);
    }
}

#[test]
fn local_setup_cycles_rule_arena_bots_styles_equipment_and_seed() {
    let mut setup = default_setup();
    setup.set_rule(2);
    setup.cycle_arena(2);
    setup.cycle_bot_count();
    setup.cycle_style(0);
    setup.cycle_equipment(0);
    let seed = setup.advance_replay_seed();
    assert_eq!(setup.active_rule().preset, RulePreset::StockRingOut);
    assert_eq!(setup.arena_index, 1);
    assert_eq!(setup.active_bot_count(), 1);
    assert_ne!(setup.slots[0].style, FighterStyleKind::Vector);
    assert_ne!(setup.slots[0].equipment, EquipmentKind::DashCoil);
    assert_ne!(seed, DEFAULT_REPLAY_SEED);
    assert_eq!(seed, next_replay_seed(DEFAULT_REPLAY_SEED));
}

#[test]
fn arenas_go_round_from_every_index() {
    let mut setup = default_setup();
    setup.arena_index = usize::MAX;
    setup.cycle_arena(2);
    assert_eq!(setup.arena_index, 0);
    setup.cycle_arena(0);
    assert_eq!(setup.arena_index, 0);
    setup.arena_index = 2;
    setup.cycle_arena(3);
    assert_eq!(setup.arena_index, 0);
}

#[test]
fn local_setup_selected_character_controls_player_and_bot_slots() {
    let mut setup = default_setup();
    assert_eq!(setup.selected_character_fighter(), 0);
    assert_eq!(setup.slots[0].character, CharacterKind::Cat);
    setup.set_character(0, CharacterKind::Pig);
    assert_eq!(setup.player_character(), CharacterKind::Pig);
    setup.set_character(0, CharacterKind::Cat);
    setup.cycle_character(0);
    assert_eq!(setup.slots[0].character, CharacterKind::Pig);
    setup.cycle_character_previous(0);
    assert_eq!(setup.slots[0].character, CharacterKind::Cat);
    setup.cycle_selected_character_fighter();
    assert_eq!(setup.selected_character_fighter(), 1);
    let selected = setup.selected_character_fighter();
    setup.cycle_character(selected);
    assert_ne!(setup.slots[1].character, CharacterKind::Pig);
}

#[test]
fn dev_character_cycle_updates_player_slot() {
    let mut setup = default_setup();
    let next = cycle_dev_player_character(&mut setup);
    assert_eq!(next, CharacterKind::Pig);
    assert_eq!(setup.player_character(), CharacterKind::Pig);
    assert_eq!(setup.selected_character_fighter(), 0);
}

#[test]
fn character_cycles_undo_each_other() {
    let mut kind = CharacterKind::Cat;
    for _ in 0..8 {
        assert_eq!(previous_character_kind(next_character_kind(kind)), kind);
        kind = next_character_kind(kind);
    }
    assert_eq!(kind, CharacterKind::Cat);
}

#[test]
fn active_fighter_count_tracks_occupied_slots() {
    let mut setup = default_setup();
    let mut state = MatchState::new();
    state.apply_local_setup(&setup);
    assert!(state.fighter_active(1));
    assert!(!state.fighter_active(2));
    assert_eq!(state.stock_for(2), None);
    setup.slots[2].participant = ParticipantKind::Bot;
    state.apply_local_setup(&setup);
    assert_eq!(state.active_fighter_count, 3);
    assert!(state.fighter_active(2));
}

#[test]
fn combat_state_filters_inactive_owners_and_targets() {
    let state = MatchState::new();
    assert!(state.combat_target_allowed_for_state(0, 1));
    assert!(!state.combat_target_allowed_for_state(0, 2));
    assert!(!state.combat_target_allowed_for_state(2, 0));
    assert!(state.combat_target_allowed_for_state(usize::MAX, 0));
}

#[test]
fn match_phase_advances_from_countdown_to_results() {
    let mut state = MatchState::new();
    assert_eq!(state.phase, MatchPhase::Setup);
    state.arena_index = 1;
    state.rules.time_limit = Some(MATCH_NANOS);
    state.reset_for_new_match();
    assert_eq!(state.phase, MatchPhase::Fighting);
    assert_eq!(state.arena_index, 1);
    assert_eq!(state.advance_phase(MATCH_NANOS, TIME_UP_NANOS), Some(MatchPhaseEvent::TimeUp));
    assert_eq!(state.phase, MatchPhase::TimeUp);
    assert_eq!(state.advance_phase(TIME_UP_NANOS, TIME_UP_NANOS), Some(MatchPhaseEvent::Results));
    assert_eq!(state.phase, MatchPhase::Results);
    state.return_to_setup();
    assert_eq!(state.phase, MatchPhase::Setup);
    assert!(!state.reset_requested);
}

#[test]
fn telemetry_tracks_local_match_stats() {
    let mut telemetry = MatchTelemetry::new();
    telemetry.record_ringout(true);
    telemetry.record_ringout(false);
    telemetry.record_item_hit();
    telemetry.record_throw();
    telemetry.record_guard_break();
    assert_eq!(telemetry.ring_outs, 1);
    assert_eq!(telemetry.falls, 1);
    assert_eq!(telemetry.item_hits, 1);
    assert_eq!(telemetry.throws, 1);
    assert_eq!(telemetry.guard_breaks, 1);
    telemetry.reset_for_seed(9);
    assert_eq!(telemetry.replay_seed, 9);
    assert_eq!(telemetry.throws, 0);
}

#[test]
fn knockout_life_loss_tracks_elimination_and_match_finish() {
    let mut state = MatchState::new();
    state.select_rule(1);
    state.reset_for_new_match();
    state.phase = MatchPhase::Fighting;
    let first = state.record_life_loss(1, Some(0), LifeLossCause::Knockout);
    assert_eq!(first.awarded_to, Some(0));
    assert_eq!(first.remaining_stock, Some(STOCK_LIVES - 1));
    assert!(!first.eliminated);
    state.stocks = [1, 1, 0, 0];
    let final_ko = state.record_life_loss(1, Some(0), LifeLossCause::Knockout);
    assert!(final_ko.eliminated);
    assert!(final_ko.match_finished);
    assert_eq!(state.phase, MatchPhase::Results);
}

#[test]
fn stock_ringouts_track_elimination_and_match_finish() {
    let mut state = MatchState::new();
    state.select_rule(2);
    state.reset_for_new_match();
    state.phase = MatchPhase::Fighting;
    let first = state.record_ringout(1, Some(0));
    assert_eq!(first.awarded_to, Some(0));
    assert_eq!(first.remaining_stock, Some(STOCK_LIVES - 1));
    assert!(!first.eliminated);
    state.stocks = [1, 1, 0, 0];
    let final_ringout = state.record_ringout(1, Some(0));
    assert!(final_ringout.eliminated);
    assert!(final_ringout.match_finished);
    assert_eq!(state.phase, MatchPhase::Results);
}

#[test]
fn stock_ringouts_ignore_inactive_bot_slots() {
    let mut state = MatchState::new();
    state.select_rule(2);
    state.reset_for_new_match();
    state.phase = MatchPhase::Fighting;
    state.stocks = [1, 1, 0, STOCK_LIVES];
    let final_ringout = state.record_ringout(1, Some(0));
    assert!(final_ringout.match_finished);
    assert_eq!(final_ringout.awarded_to, Some(0));
    assert_eq!(state.phase, MatchPhase::Results);
}

#[test]
fn team_ringout_credit_rejects_teammates_and_invalid_attackers() {
    let mut state = MatchState::new();
    assert_eq!(state.record_ringout(2, Some(0)).awarded_to, None);
    assert_eq!(state.record_ringout(1, Some(0)).awarded_to, Some(0));
    assert_eq!(state.record_ringout(1, Some(usize::MAX)).awarded_to, None);
}

#[test]
fn setup_loadout_applies_selected_style_and_equipment() {
    let mut setup = default_setup();
    setup.slots[0].character = CharacterKind::Panda;
    setup.slots[0].style = FighterStyleKind::Catalyst;
    setup.slots[0].equipment = EquipmentKind::HeavySeal;
    let mut character = CharacterKind::Cat;
    let mut style = FighterStyleKind::Anchor;
    let mut equipment = FighterEquipment {
        kind: EquipmentKind::DashCoil,
        cooldown: Scalar::from_bits(2.0f32.to_bits()),
    };
    apply_setup_loadout(0, &setup, &mut character, &mut style, &mut equipment);
    assert_eq!(character, CharacterKind::Panda);
    assert_eq!(style, FighterStyleKind::Catalyst);
    assert_eq!(equipment.kind, EquipmentKind::HeavySeal);
    assert_eq!(equipment.cooldown, Scalar::from_bits(0.0f32.to_bits()));
}

#[test]
fn a_fighter_loses_one_life_per_batch() {
    let mut batch = LifeLossBatch::new();
    assert_eq!(batch.push(FighterId::One, Some(FighterId::Zero), LifeLossCause::RingOut), Ok(()));
    assert_eq!(
        batch.push(FighterId::One, None, LifeLossCause::Knockout),
        Err(LifeLossError::AlreadyRecorded { fighter: FighterId::One })
    );
}

#[test]
fn mutual_final_losses_end_without_a_winner() {
    let mut state = MatchState::new();
    state.select_rule(2);
    state.reset_for_new_match();
    state.stocks = [1, 1, 0, 0];
    let mut batch = LifeLossBatch::new();
    batch.push(FighterId::One, Some(FighterId::Zero), LifeLossCause::RingOut).unwrap();
    batch.push(FighterId::Zero, Some(FighterId::One), LifeLossCause::RingOut).unwrap();
    let resolution = batch.commit(&mut state);
    assert!(resolution.result_finalized);
    assert_eq!(state.stocks[0], 0);
    assert_eq!(state.stocks[1], 0);
    assert_eq!(state.phase, MatchPhase::Results);
    assert_eq!(resolution.for_fighter(FighterId::Zero).unwrap().awarded_to, Some(1));
    assert_eq!(resolution.for_fighter(FighterId::One).unwrap().awarded_to, Some(0));
    assert_eq!(resolution.for_fighter(FighterId::Two), None);
}

#[test]
fn hitstop_and_announcements_run_out() {
    let mut hitstop = Hitstop { remaining: 0 };
    hitstop.trigger(30);
    hitstop.trigger(10);
    assert_eq!(hitstop.remaining, 30);
    tick_hitstop(20, &mut hitstop);
    assert!(hitstop.active());
    tick_hitstop(20, &mut hitstop);
    assert!(!hitstop.active());

    let mut announcements = MatchAnnouncements { message: String::new(), timer: 0 };
    announcements.show(String::from("FIGHT"), 5);
    tick_announcements(4, &mut announcements);
    assert_eq!(announcements.timer, 1);
    assert_eq!(announcements.message, "FIGHT");
    tick_announcements(4, &mut announcements);
    assert_eq!(announcements.timer, 0);
}

#[test]
fn phase_changes_are_announced() {
    let time_up = phase_cue(MatchPhaseEvent::TimeUp);
    assert_eq!((time_up.cue, time_up.priority), ("match_timeup", 22));
    assert_eq!((time_up.message, time_up.message_ms), ("Time up", 1100));
    let results = phase_cue(MatchPhaseEvent::Results);
    assert_eq!((results.cue, results.priority), ("match_results", 28));
    assert_eq!((results.message, results.message_ms), ("Results - press R", 1400));
}

#[test]
fn the_match_timer_announces_the_end_of_its_phases() {
    let second: u64 = 1_000_000_000;
    let mut state = MatchState::new();
    state.rules.time_limit = Some(MATCH_NANOS);
    state.reset_for_new_match();
    let mut announcements = MatchAnnouncements { message: "Fight!".to_string(), timer: 7 };
    assert_eq!(tick_match_timer(1, second, &mut state, &mut announcements), None);
    assert_eq!(announcements.message, "Fight!");
    assert_eq!(announcements.timer, 7);
    let left = state.timer;
    let time_up = tick_match_timer(left, second, &mut state, &mut announcements).unwrap();
    assert_eq!((time_up.cue, time_up.priority), ("match_timeup", 22));
    assert_eq!(announcements.message, "Time up");
    assert_eq!(announcements.timer, 1_100_000_000);
    let results = tick_match_timer(second, second, &mut state, &mut announcements).unwrap();
    assert_eq!((results.cue, results.priority), ("match_results", 28));
    assert_eq!(announcements.message, "Results - press R");
    assert_eq!(announcements.timer, 1_400_000_000);
}

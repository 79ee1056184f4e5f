use arena_fighter::action::{FighterAction, FighterActionState};
use arena_fighter::feedback::{
    LifecycleCue, LifecycleEffect, MatchTelemetry, life_loss_message,
    present_fighter_lifecycle_event, respawn_message,
};
use arena_fighter::fighter::{FighterMotor, FighterStats, FighterTuning};
use arena_fighter::ids::FighterId;
use arena_fighter::input::FighterInput;
use arena_fighter::journal::FighterPresentationIntentJournal;
use arena_fighter::lifecycle::{
    ArenaBounds, DrunkContext, DrunkStatus, DrunkTuning, LifecycleFighter, RESPAWN_STAND_MS,
    drunk_bubble_intent, entering_fight, is_ringout_position, lifecycle_hidden,
    refill_depleted_practice_health, ringout_and_respawn, should_defer_knockout_resolution,
    tick_practice_health_refill, update_drunk_status,
    apply_drunk_input_modifier,
};
use arena_fighter::match_state::{MatchPhase, MatchState};
use arena_fighter::pending::{
    PendingFighterPresentationBuffer, PendingFighterPresentationEvent,
    PendingFighterPresentationIntent, emit_fighter_presentation_intent,
};
use arena_fighter::presentation::{
    FighterLifeLossAnnouncement, FighterPresentationIntent, FighterPresentationKind,
    fighter_presentation_matches_event,
};
use arena_fighter::reaction::{LandingAftermath, ReactionFamilyId};
use arena_fighter::rules::STOCK_LIVES;
use arena_fighter::scalar::{Scalar, SimVec2, SimVec3};
use arena_fighter::sim_event::{
    EventEmitError, FighterLifecycleEvent, MatchLifecycleEvent, SimEvent, SimEventId, SimEventKind,
    SimEventSource, TickEventBuffer,
};
use arena_fighter::ticks::{ElapsedTicks, SimTick, TickTimer, milliseconds_to_ticks_ceil};
use arena_fighter::ultimate::FighterUltimateState;

const EVENTS_PER_TICK: usize = 32;

const HISTORY_TICKS: usize = 16;

fn s(value: f32) -> Scalar {
    Scalar::from_bits(value.to_bits())
}

fn v(x: f32, y: f32, z: f32) -> SimVec3 {
    SimVec3 { x: s(x), y: s(y), z: s(z) }
}

fn tuning() -> FighterTuning {
    FighterTuning {
        hitstun_light: 14,
        hitstun_heavy: 24,
        quick_stand_after: 10,
        recovery_roll_invulnerable: 18,
        knockdown_duration: 40,
        getup_invulnerable: 20,
        getup_duration: 30,
        guard_break_duration: 60,
        guard_max_duration: 90,
        guard_restart_cooldown: 30,
        guard_start_buffer: 8,
        guard_counter_window: 20,
        guard_step_invulnerable: 12,
        dash_duration: 12,
        dash_slide_duration: 20,
        dash_trail_repeat: 5,
        dash_jump_carry_duration: 24,
        ledge_grace: 6,
        respawn_delay: 60,
        respawn_invulnerable: 90,
        pig_heavy_full_charge_ms: 800,
        pig_heavy_attack_ms: 500,
        max_health: s(100.0),
        max_stamina: s(100.0),
        ultimate_stamina_cost: s(50.0),
        guard_step_stamina_cost: s(12.0),
        guard_counter_health_cost: s(5.0),
        dash_slide_stop_speed_squared: s(0.36),
    }
}

fn bounds() -> ArenaBounds {
    ArenaBounds { ringout_y: s(-6.0), ringout_radius_squared: s(144.0) }
}

fn full_stats() -> FighterStats {
    FighterStats::new(s(100.0), s(100.0))
}

fn fighter(name: &'static str, height: f32, last_attacker: Option<FighterId>) -> LifecycleFighter {
    LifecycleFighter {
        name,
        stats: FighterStats { last_attacker, ..full_stats() },
        motor: FighterMotor::default(),
        action: FighterActionState::default(),
        ultimate: FighterUltimateState { target: None, owner: None },
        drunk: DrunkStatus::sober(),
        position: v(0.0, height, 0.0),
        spawn: v(0.0, 0.5, 0.0),
        planar_distance_squared: s(0.0),
        halted: false,
    }
}

fn fighting_state() -> MatchState {
    let mut state = MatchState::new();
    state.reset_for_new_match();
    state
}

fn events_of(buffer: &TickEventBuffer) -> Vec<SimEvent> {
    (0..buffer.len()).map(|ordinal| buffer.get(ordinal).unwrap()).collect()
}

fn recovery(tick: u64, ordinal: u16) -> FighterPresentationIntent {
    FighterPresentationIntent {
        event_id: SimEventId {
            tick: SimTick(tick),
            source: SimEventSource::Fighter(FighterId::Zero),
            ordinal,
        },
        fighter: FighterId::Zero,
        fighter_name: "Fixture",
        kind: FighterPresentationKind::RecoveryCompleted,
    }
}

#[test]
fn fighter_presentation_intent_storage_is_bounded_and_fail_closed() {
    let mut intents = FighterPresentationIntentJournal::new(HISTORY_TICKS, EVENTS_PER_TICK);
    for ordinal in 0..EVENTS_PER_TICK {
        intents.record(recovery(60, ordinal as u16)).unwrap();
    }
    assert_eq!(intents.len(), EVENTS_PER_TICK);
    assert_eq!(intents.capacity(), HISTORY_TICKS * EVENTS_PER_TICK);
    assert_eq!(
        intents.record(recovery(60, EVENTS_PER_TICK as u16)),
        Err(EventEmitError::CapacityExceeded { capacity: EVENTS_PER_TICK })
    );
    assert_eq!(intents.len(), EVENTS_PER_TICK);
    assert_eq!(intents.metrics().rejected, 1);
}

#[test]
fn the_journal_forgets_ticks_that_fall_out_of_its_history() {
    let mut intents = FighterPresentationIntentJournal::new(4, 2);
    intents.record(recovery(1, 0)).unwrap();
    intents.record(recovery(2, 1)).unwrap();
    intents.record(recovery(5, 0)).unwrap();
    assert_eq!(intents.get(recovery(1, 0).event_id), None);
    assert_eq!(intents.get(recovery(2, 1).event_id), Some(recovery(2, 1)));
    assert_eq!(intents.get(recovery(5, 0).event_id), Some(recovery(5, 0)));
    assert_eq!(intents.len(), 2);
}

#[test]
fn replaying_a_discarded_tick_restores_the_lookup() {
    let mut intents = FighterPresentationIntentJournal::new(8, 4);
    intents.record(recovery(41, 0)).unwrap();
    intents.record(recovery(42, 0)).unwrap();
    intents.discard_after(SimTick(41));
    assert_eq!(intents.get(recovery(41, 0).event_id), Some(recovery(41, 0)));
    assert_eq!(intents.get(recovery(42, 0).event_id), None);
    intents.record(recovery(42, 0)).unwrap();
    assert_eq!(intents.get(recovery(42, 0).event_id), Some(recovery(42, 0)));
    assert_eq!(intents.len(), 2);
}

#[test]
fn event_buffers_number_their_events_and_stop_when_full() {
    let mut buffer = TickEventBuffer::new(SimTick(3), 1);
    let kind = SimEventKind::FighterRespawned { fighter: FighterId::One };
    let id = buffer.emit(SimEventSource::Fighter(FighterId::One), kind).unwrap();
    assert_eq!(id.ordinal, 0);
    assert_eq!(
        buffer.emit(SimEventSource::Match, kind),
        Err(EventEmitError::CapacityExceeded { capacity: 1 })
    );
    assert_eq!(buffer.len(), 1);
}

fn lifecycle_event(tick: u64, event: FighterLifecycleEvent) -> SimEvent {
    SimEvent {
        id: SimEventId {
            tick: SimTick(tick),
            source: SimEventSource::Fighter(FighterId::Zero),
            ordinal: 0,
        },
        kind: SimEventKind::FighterLifecycle { fighter: FighterId::Zero, event },
    }
}

fn intent_for(event: SimEvent, kind: FighterPresentationKind) -> FighterPresentationIntent {
    FighterPresentationIntent {
        event_id: event.id,
        fighter: FighterId::Zero,
        fighter_name: "Fixture",
        kind,
    }
}

#[test]
fn lifecycle_presentation_follows_its_event() {
    let bounced = lifecycle_event(40, FighterLifecycleEvent::GroundBounced);
    let kind = FighterPresentationKind::GroundBounced { position: v(1.0, 0.0, 0.0) };
    let presentation =
        present_fighter_lifecycle_event(bounced, intent_for(bounced, kind)).unwrap();
    assert_eq!(presentation.effect, Some(LifecycleEffect::DustPuff));
    assert!(presentation.sound.is_some());

    let dashed = lifecycle_event(42, FighterLifecycleEvent::DashTrail);
    assert!(!fighter_presentation_matches_event(dashed, intent_for(dashed, kind)));
    assert!(present_fighter_lifecycle_event(dashed, intent_for(dashed, kind)).is_none());
}

#[test]
fn life_losses_are_announced_by_name() {
    let lost = lifecycle_event(50, FighterLifecycleEvent::RingOut);
    let kind = FighterPresentationKind::LifeLost {
        position: v(8.0, -2.0, 0.0),
        ring_out: true,
        announcement: FighterLifeLossAnnouncement::StockRemaining(2),
    };
    let presentation = present_fighter_lifecycle_event(lost, intent_for(lost, kind)).unwrap();
    assert_eq!(presentation.effect, Some(LifecycleEffect::RingOutBurst));
    assert_eq!(presentation.cue, Some(LifecycleCue::RingOutProfile));
    assert_eq!(
        presentation.message,
        Some(life_loss_message(
            "Fixture",
            true,
            FighterLifeLossAnnouncement::StockRemaining(2)
        ))
    );
    assert!(presentation.message.unwrap().contains('2'));
    assert_eq!(respawn_message("Fixture"), "Fixture returns");
}

#[test]
fn headless_ringout_emits_semantics_without_presentation_sidecar_or_effects() {
    let mut state = fighting_state();
    let mut fighters =
        [Some(fighter("Headless fixture", -10_000.0, None)), None, None, None];
    let mut telemetry = MatchTelemetry::new();
    let mut events = TickEventBuffer::new(SimTick(80), EVENTS_PER_TICK);
    ringout_and_respawn(
        &mut state, &mut fighters, &mut telemetry, bounds(), &tuning(), &mut events, None,
    );
    let events = events_of(&events);
    assert_eq!(events.len(), 2);
    assert_eq!(events[0].id.source, SimEventSource::Fighter(FighterId::Zero));
    assert_eq!(
        events[0].kind,
        SimEventKind::StockLost { fighter: FighterId::Zero, stocks_remaining: 2 }
    );
    assert_eq!(events[1].id.source, SimEventSource::Fighter(FighterId::Zero));
    assert_eq!(
        events[1].kind,
        SimEventKind::FighterLifecycle {
            fighter: FighterId::Zero,
            event: FighterLifecycleEvent::RingOut
        }
    );
}

#[test]
fn simultaneous_final_stock_ringouts_draw_credit_both_and_ignore_entity_order() {
    let mut state = MatchState::new();
    state.select_rule(2);
    state.set_active_slots([true, true, false, false]);
    state.reset_for_new_match();
    state.stocks = [1, 1, 0, 0];
    let mut fighters = [
        Some(fighter("Ringout fixture", -10_000.0, Some(FighterId::One))),
        Some(fighter("Ringout fixture", -10_000.0, Some(FighterId::Zero))),
        None,
        None,
    ];
    let mut telemetry = MatchTelemetry::new();
    let mut events = TickEventBuffer::new(SimTick(0), EVENTS_PER_TICK);
    ringout_and_respawn(
        &mut state, &mut fighters, &mut telemetry, bounds(), &tuning(), &mut events, None,
    );
    assert_eq!(state.stocks, [0, 0, 0, 0]);
    assert_eq!(fighters[0].unwrap().stats.score, 1);
    assert_eq!(fighters[1].unwrap().stats.score, 1);
    assert_eq!(state.phase, MatchPhase::Results);
    let events = events_of(&events);
    let one = SimEventSource::Fighter(FighterId::One);
    let zero = SimEventSource::Fighter(FighterId::Zero);
    assert_eq!(
        events.iter().map(|event| event.id.source).collect::<Vec<_>>(),
        vec![zero, zero, one, one, SimEventSource::Match]
    );
    for (index, fighter) in [(0, FighterId::Zero), (2, FighterId::One)] {
        assert_eq!(events[index].kind, SimEventKind::StockLost { fighter, stocks_remaining: 0 });
        assert_eq!(
            events[index + 1].kind,
            SimEventKind::FighterLifecycle { fighter, event: FighterLifecycleEvent::RingOut }
        );
    }
    assert_eq!(
        events[4].kind,
        SimEventKind::MatchLifecycle { event: MatchLifecycleEvent::Results }
    );
}

#[test]
fn respawn_stage_runs_ringout_before_practice_refill_on_the_boundary_tick() {
    let mut state = fighting_state();
    let mut fallen = fighter("Respawn order fixture", -10_000.0, None);
    fallen.stats.health = s(50.0);
    let mut fighters = [Some(fallen), None, None, None];
    let mut telemetry = MatchTelemetry::new();
    let mut events = TickEventBuffer::new(SimTick(0), EVENTS_PER_TICK);
    ringout_and_respawn(
        &mut state, &mut fighters, &mut telemetry, bounds(), &tuning(), &mut events, None,
    );
    let mut after = fighters[0].unwrap();
    refill_depleted_practice_health(
        &state,
        false,
        Some(0),
        0,
        &mut after.stats,
        &after.action,
        s(100.0),
    );
    assert_eq!(after.stats.health, s(50.0));
    assert_eq!(after.action.action, FighterAction::RingOut);
    assert_eq!(after.stats.respawn_timer.remaining(), tuning().respawn_delay - 1);
}

#[test]
fn ringout_respawn_lifecycle_uses_same_tick_delay_and_fixed_return_window() {
    let mut state = fighting_state();
    let mut fallen = fighter("Fixture", -10_000.0, Some(FighterId::One));
    fallen.planar_distance_squared = s(100_000_000.0);
    let mut fighters = [Some(fallen), None, None, None];
    let mut telemetry = MatchTelemetry::new();
    let mut tick = |state: &mut MatchState,
                    fighters: &mut [Option<LifecycleFighter>; 4],
                    number: u64| {
        let mut events = TickEventBuffer::new(SimTick(number), EVENTS_PER_TICK);
        let mut intents = FighterPresentationIntentJournal::new(HISTORY_TICKS, EVENTS_PER_TICK);
        ringout_and_respawn(
            state,
            fighters,
            &mut telemetry,
            bounds(),
            &tuning(),
            &mut events,
            Some(&mut intents),
        );
        (events.len(), intents.len())
    };
    let (events, intents) = tick(&mut state, &mut fighters, 0);
    assert_eq!((events, intents), (2, 1));
    let out = fighters[0].unwrap();
    assert_eq!(out.action.action, FighterAction::RingOut);
    assert_eq!(out.stats.respawn_timer.remaining(), tuning().respawn_delay - 1);
    assert_eq!(state.stocks[0], STOCK_LIVES - 1);
    assert!(lifecycle_hidden(true, out.action.action, true));

    for number in 0..out.stats.respawn_timer.remaining() {
        tick(&mut state, &mut fighters, 1 + number as u64);
    }
    let back = fighters[0].unwrap();
    assert_eq!(back.action.action, FighterAction::Respawning);
    assert_eq!(back.stats.health, s(100.0));
    assert_eq!(back.stats.stamina, s(100.0));
    assert_eq!(back.stats.invulnerability, TickTimer::from_ticks(90));
    assert_eq!(back.position, v(0.0, 0.5, 0.0));
    assert!(!lifecycle_hidden(true, back.action.action, false));

    fighters[0].as_mut().unwrap().planar_distance_squared = s(0.0);
    for number in 0..milliseconds_to_ticks_ceil(RESPAWN_STAND_MS) {
        tick(&mut state, &mut fighters, 100 + number as u64);
    }
    let standing = fighters[0].unwrap();
    assert_eq!(standing.action.action, FighterAction::Idle);
    assert_eq!(standing.action.elapsed, ElapsedTicks::zero());
}

#[test]
fn ringout_bounds_use_selected_arena_definition() {
    let crown = bounds();
    let split = ArenaBounds { ringout_radius_squared: s(256.0), ..crown };
    let between = s(12.25 * 12.25);
    assert!(is_ringout_position(s(0.0), between, crown));
    assert!(!is_ringout_position(s(0.0), between, split));
    assert!(is_ringout_position(s(-6.1), s(0.0), crown));
}

#[test]
fn headless_drunk_cadence_emits_semantics_without_presentation_runtime() {
    let drunk_tuning = DrunkTuning { duration: 300, bubble_cadence: 20 };
    let mut status = DrunkStatus::sober();
    let mut previous = None;
    let entering = entering_fight(&mut previous, MatchPhase::Fighting);
    assert!(entering);
    let context = DrunkContext {
        entering_fight: entering,
        fighting: true,
        can_participate: true,
        action: FighterAction::Idle,
        hitstop: false,
    };
    assert_eq!(update_drunk_status(&mut status, context, &drunk_tuning), None);
    status = DrunkStatus { remaining: TickTimer::from_ticks(300) };
    assert!(!entering_fight(&mut previous, MatchPhase::Fighting));
    let context = DrunkContext { entering_fight: false, ..context };
    let bubble = update_drunk_status(&mut status, context, &drunk_tuning);
    assert_eq!(bubble, Some(0));
    assert_eq!(status.remaining.remaining(), 299);

    let mut events = TickEventBuffer::new(SimTick(81), EVENTS_PER_TICK);
    emit_fighter_presentation_intent(
        &mut events,
        None,
        drunk_bubble_intent(FighterId::Zero, "Headless drunk fixture", v(2.0, 0.5, 1.0), 0),
    );
    assert_eq!(events.len(), 1);
    assert_eq!(
        events.get(0).unwrap().kind,
        SimEventKind::FighterLifecycle {
            fighter: FighterId::Zero,
            event: FighterLifecycleEvent::DrunkBubble
        }
    );
}

#[test]
fn drunk_contacts_refresh_to_five_seconds_without_stacking() {
    let duration = milliseconds_to_ticks_ceil(5000);
    let mut status =
        DrunkStatus { remaining: TickTimer::from_ticks(milliseconds_to_ticks_ceil(1200)) };
    status.refresh(duration);
    assert_eq!(status.remaining, TickTimer::from_ticks(duration));
    let longer = TickTimer::from_ticks(milliseconds_to_ticks_ceil(6000));
    status.remaining = longer;
    status.refresh(duration);
    assert_eq!(status.remaining, longer);
}

#[test]
fn knockout_resolution_waits_for_airborne_hit_reaction() {
    let mut motor = FighterMotor {
        grounded: false,
        landing_aftermath: Some(LandingAftermath {
            family: ReactionFamilyId::LauncherDown,
            cue: "launcher",
            horizontal_damping: s(0.5),
            landing_stick_ms: 80,
            getup_transition_ms: 300,
            recover_ms: 600,
        }),
        ..FighterMotor::default()
    };
    let mut action =
        FighterActionState { action: FighterAction::Hitstun, ..FighterActionState::default() };
    assert!(should_defer_knockout_resolution(&motor, &action));
    motor.grounded = true;
    motor.landing_aftermath = None;
    motor.knockdown_on_land = false;
    motor.reaction_bounces = 0;
    action.action = FighterAction::Knockdown;
    assert!(!should_defer_knockout_resolution(&motor, &action));
}

#[test]
fn knockout_resolution_waits_for_pending_ground_bounce() {
    let motor = FighterMotor {
        grounded: true,
        knockdown_on_land: true,
        reaction_bounces: 1,
        ..FighterMotor::default()
    };
    let action =
        FighterActionState { action: FighterAction::Hitstun, ..FighterActionState::default() };
    assert!(should_defer_knockout_resolution(&motor, &action));
}

#[test]
fn selected_refill_does_not_revive_zero_health() {
    let mut stats = full_stats();
    stats.health = s(0.0);
    stats.health_refill_timer = TickTimer::from_ticks(27);
    tick_practice_health_refill(&mut stats, &FighterActionState::default(), s(100.0));
    assert_eq!(stats.health, s(0.0));
    assert_eq!(stats.health_refill_timer, TickTimer::zero());
}

#[test]
fn selected_refill_restores_damaged_health() {
    let mut stats = full_stats();
    stats.health = s(50.0);
    stats.health_refill_timer = TickTimer::from_ticks(30);
    tick_practice_health_refill(&mut stats, &FighterActionState::default(), s(100.0));
    assert_eq!(stats.health, s(100.0));
    assert_eq!(stats.health_refill_timer, TickTimer::zero());
}

#[test]
fn selected_refill_clears_carryover_state() {
    let mut stats = full_stats();
    stats.health = s(25.0);
    stats.element_carry_strength = s(0.8);
    stats.element_carry_timer = TickTimer::from_ticks(84);
    tick_practice_health_refill(&mut stats, &FighterActionState::default(), s(100.0));
    assert_eq!(stats.health, s(100.0));
    assert_eq!(stats.health_refill_timer, TickTimer::zero());
    assert_eq!(stats.element_carry, None);
    assert_eq!(stats.element_carry_strength, s(0.0));
    assert_eq!(stats.element_carry_timer, TickTimer::zero());
}

#[test]
fn selected_refill_does_not_restart_zero_health_timer() {
    let mut stats = full_stats();
    stats.health = s(0.0);
    stats.health_refill_timer = TickTimer::zero();
    let action = FighterActionState::default();
    tick_practice_health_refill(&mut stats, &action, s(100.0));
    tick_practice_health_refill(&mut stats, &action, s(100.0));
    assert_eq!(stats.health_refill_timer, TickTimer::zero());
    assert_eq!(stats.health, s(0.0));
}

#[test]
fn selected_refill_skips_ringout_state() {
    let mut stats = full_stats();
    stats.health = s(50.0);
    stats.health_refill_timer = TickTimer::from_ticks(24);
    let action =
        FighterActionState { action: FighterAction::RingOut, ..FighterActionState::default() };
    tick_practice_health_refill(&mut stats, &action, s(100.0));
    assert_eq!(stats.health, s(50.0));
    assert_eq!(stats.health_refill_timer, TickTimer::zero());
}

fn recovered(fighter: FighterId) -> PendingFighterPresentationIntent {
    PendingFighterPresentationIntent {
        fighter,
        fighter_name: "Fixture",
        event: PendingFighterPresentationEvent::Lifecycle(FighterLifecycleEvent::RecoveryCompleted),
        kind: FighterPresentationKind::RecoveryCompleted,
    }
}

#[test]
fn pending_intents_leave_in_fighter_order() {
    let emitted = |order: [FighterId; 3]| {
        let mut buffer = PendingFighterPresentationBuffer::new();
        for fighter in order {
            buffer.push(recovered(fighter));
        }
        let mut events = TickEventBuffer::new(SimTick(9), EVENTS_PER_TICK);
        let mut intents = FighterPresentationIntentJournal::new(HISTORY_TICKS, EVENTS_PER_TICK);
        buffer.emit(&mut events, Some(&mut intents));
        assert_eq!(intents.len(), 3);
        events_of(&events)
    };
    let forward = emitted([FighterId::Zero, FighterId::Two, FighterId::Three]);
    let reversed = emitted([FighterId::Three, FighterId::Two, FighterId::Zero]);
    assert_eq!(forward, reversed);
    assert_eq!(forward[0].id.source, SimEventSource::Fighter(FighterId::Zero));
    assert_eq!(forward[2].id.ordinal, 2);
}

#[test]
fn emitted_intents_are_found_and_counted() {
    let emitted = |shown: bool| {
        let mut events = TickEventBuffer::new(SimTick(9), EVENTS_PER_TICK);
        let mut intents = FighterPresentationIntentJournal::new(4, 2);
        for fighter in [FighterId::Zero, FighterId::Two, FighterId::Three] {
            let journal = if shown { Some(&mut intents) } else { None };
            emit_fighter_presentation_intent(&mut events, journal, recovered(fighter));
        }
        (events_of(&events), intents)
    };
    let (silent, untouched) = emitted(false);
    let (events, intents) = emitted(true);
    assert_eq!(silent, events);
    assert_eq!(untouched.metrics().recorded, 0);
    assert_eq!(events.len(), 3);
    assert_eq!(intents.get(events[0].id).unwrap().fighter, FighterId::Zero);
    assert_eq!(intents.get(events[1].id).unwrap().fighter, FighterId::Two);
    assert_eq!(intents.get(events[2].id), None);
    assert_eq!(intents.metrics().recorded, 2);
    assert_eq!(intents.metrics().rejected, 1);
}

#[test]
fn only_drunk_fighters_go_the_other_way() {
    let steady = FighterInput {
        movement: SimVec2 { x: s(0.5), y: s(-1.0) },
        jump: true,
        ..FighterInput::default()
    };
    let mut input = steady;
    apply_drunk_input_modifier(&DrunkStatus::sober(), &mut input);
    assert_eq!(input, steady);
    apply_drunk_input_modifier(&DrunkStatus { remaining: TickTimer::from_ticks(1) }, &mut input);
    assert_eq!(input.movement, SimVec2 { x: s(-0.5), y: s(1.0) });
    assert!(input.jump);
}

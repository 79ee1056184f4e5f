use arena_fighter::match_state::MatchPhase;
use arena_fighter::transition::{
    GAME_FADE_HOLD_NANOS, GAME_FADE_IN_NANOS, GAME_FADE_OUT_NANOS, GameTransition,
    GameTransitionAction, GameTransitionReveal, GameTransitionStage, GameplayPauseOwners,
    advance_game_transition, request_game_transition,
};

fn tutorial_action() -> GameTransitionAction {
    GameTransitionAction::Tutorial(7)
}

fn alpha(transition: &GameTransition) -> f32 {
    let opacity = transition.alpha();
    (opacity.part as f64 / opacity.whole as f64) as f32
}

#[test]
fn timing_easing_and_covered_commit_are_stable() {
    let mut transition = GameTransition::idle();
    assert!(transition.request(tutorial_action(), GameTransitionReveal::Immediate));
    assert_eq!(alpha(&transition), 0.0);

    transition.advance(GAME_FADE_OUT_NANOS / 2, true);
    assert!((alpha(&transition) - 0.5).abs() < 0.001);
    assert!(transition.pending_action().is_none());

    transition.advance(GAME_FADE_OUT_NANOS / 2, true);
    assert_eq!(alpha(&transition), 1.0);
    assert_eq!(transition.pending_action(), Some(tutorial_action()));
    assert!(transition.targets_tutorial());

    transition.mark_committed();
    transition.advance(GAME_FADE_HOLD_NANOS, true);
    transition.advance(GAME_FADE_IN_NANOS / 2, true);
    assert!((alpha(&transition) - 0.5).abs() < 0.001);
    assert!(transition.advance(GAME_FADE_IN_NANOS / 2, true));
    assert!(!transition.active());
    assert_eq!(alpha(&transition), 0.0);
}

#[test]
fn duplicate_requests_are_rejected_and_reveal_waits_for_readiness() {
    let mut transition = GameTransition::idle();
    assert!(transition.request(tutorial_action(), GameTransitionReveal::BattleReady));
    assert!(!transition.request(tutorial_action(), GameTransitionReveal::Immediate));

    transition.advance(GAME_FADE_OUT_NANOS, false);
    transition.mark_committed();
    transition.advance(GAME_FADE_HOLD_NANOS * 2, false);
    assert_eq!(alpha(&transition), 1.0);

    transition.advance(GAME_FADE_HOLD_NANOS, true);
    assert_eq!(transition.stage, GameTransitionStage::FadingIn);
}

#[test]
fn covered_action_can_only_be_committed_once() {
    let mut transition = GameTransition::idle();
    transition.request(tutorial_action(), GameTransitionReveal::Immediate);
    transition.advance(GAME_FADE_OUT_NANOS, true);
    assert!(transition.pending_action().is_some());
    transition.mark_committed();
    assert!(transition.pending_action().is_none());
}

#[test]
fn battle_reveal_stays_covered_and_paused_until_fighting_is_ready() {
    let mut transition = GameTransition::idle();
    let mut owners = GameplayPauseOwners { game_transition: false, others: 6 };
    request_game_transition(
        &mut transition,
        &mut owners,
        tutorial_action(),
        GameTransitionReveal::BattleReady,
    );
    assert!(owners.game_transition);

    let tick = |transition: &mut GameTransition,
                owners: &mut GameplayPauseOwners,
                delta: u64,
                phase: MatchPhase| {
        advance_game_transition(transition, owners, delta, true, phase, false);
    };
    tick(&mut transition, &mut owners, GAME_FADE_OUT_NANOS, MatchPhase::Setup);
    assert_eq!(alpha(&transition), 1.0);
    transition.mark_committed();

    tick(&mut transition, &mut owners, GAME_FADE_HOLD_NANOS * 2, MatchPhase::Setup);
    assert_eq!(alpha(&transition), 1.0);
    assert!(owners.game_transition);

    tick(&mut transition, &mut owners, GAME_FADE_HOLD_NANOS, MatchPhase::Fighting);
    assert_eq!(alpha(&transition), 1.0);

    tick(&mut transition, &mut owners, GAME_FADE_IN_NANOS, MatchPhase::Fighting);
    assert!(!transition.active());
    assert!(!owners.game_transition);
    assert_eq!(owners.others, 6);
}

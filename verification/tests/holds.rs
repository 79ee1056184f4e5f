use arena_fighter::action::{FighterAction, FighterActionState};
use arena_fighter::bodies::{
    AimFighter, BodyCorrection, BodyFighter, CorrectionKind, PairContact, PairMove,
    PairSeparation, apply_aim_assist, blocking_bodies, choose_aim_target, corrections_on,
    fighter_body_blocks_overlap, pair_separation, separate_fighters, separation_pairs,
    takes_part_in_aiming,
};
use arena_fighter::feedback::Hitstop;
use arena_fighter::fixed::{
    FixedFighterCollectionOverflow, SlotCollectionError, collect_fighter_slots, fighter_entries,
    find_in_pairs, new_slots, try_push_fixed_fighter,
};
use arena_fighter::grab::{
    CombatPresentationIntent, FighterGrabState, GrabFighter, GrabResolution, GrabSnapshot,
    GrabTuning, ImpactFeedbackIntensity, ThrowAim, ThrowHit, ThrowStrength, apply_grab_resolution,
    apply_grab_resolutions, emit_throw_hits, throw_edge_pressure, throw_profile,
    update_grab_holds,
};
use arena_fighter::ids::FighterId;
use arena_fighter::reaction::ReactionFamilyId;
use arena_fighter::scalar::Scalar;
use arena_fighter::sim_event::{SimEventKind, SimEventSource, TickEventBuffer};
use arena_fighter::technique::TechniqueId;
use arena_fighter::ticks::{ElapsedTicks, SimTick, TickTimer, milliseconds_to_ticks_ceil};
use arena_fighter::ultimate::{
    FighterUltimateState, LockMotion, UltimateLockSnapshot, apply_ultimate_lock,
    update_ultimate_locks,
};

fn s(value: f32) -> Scalar {
    Scalar::from_bits(value.to_bits())
}

fn grab_tuning() -> GrabTuning {
    GrabTuning { escape_after: 12, hold_max: 60, throw_lockout: 30, release_lockout: 15 }
}

fn bystander(slot: usize) -> GrabSnapshot {
    GrabSnapshot {
        slot,
        action: FighterAction::Idle,
        elapsed: ElapsedTicks::zero(),
        holding: None,
        held_by: None,
        input_light: false,
        input_heavy: false,
        input_guard: false,
        movement_length_squared: s(0.0),
        escape_alignment: s(0.0),
    }
}

fn holder(elapsed: u32) -> GrabSnapshot {
    GrabSnapshot {
        action: FighterAction::GrabHold,
        elapsed: ElapsedTicks::from_ticks(elapsed),
        holding: Some(FighterId::One),
        ..bystander(0)
    }
}

fn victim() -> GrabSnapshot {
    GrabSnapshot {
        action: FighterAction::Grabbed,
        held_by: Some(FighterId::Zero),
        ..bystander(1)
    }
}

/// The resolutions of a tick in which nobody else is looked at.
fn resolved(
    hitstop: &Hitstop,
    snapshots: &Vec<GrabSnapshot>,
) -> Result<Vec<GrabResolution>, SlotCollectionError> {
    update_grab_holds(hitstop, snapshots, &mut [None; 4], &grab_tuning())
}

fn running() -> Hitstop {
    Hitstop { remaining: 0 }
}

#[test]
fn fixed_fighter_collection_reports_overflow_without_growing() {
    let mut values = new_slots();
    for number in 0..4usize {
        assert_eq!(try_push_fixed_fighter(&mut values, (number, number + 3), "test"), Ok(()));
    }
    assert_eq!(
        try_push_fixed_fighter(&mut values, (9, 5), "test"),
        Err(FixedFighterCollectionOverflow { collection: "test", capacity: 4 })
    );
    assert_eq!(values.as_slice(), &[(0, 3), (1, 4), (2, 5), (3, 6)]);
    assert_eq!(find_in_pairs(&values, 2), (true, None));
    assert_eq!(find_in_pairs(&values, 6), (false, Some(3)));
    assert_eq!(find_in_pairs(&values, 9), (false, None));
}

#[test]
fn fighters_are_collected_in_slot_order() {
    let slots = collect_fighter_slots(&vec![2, 0, 3], "fighters").unwrap();
    assert_eq!(slots.as_slice(), &[(0, 1), (2, 0), (3, 2)]);
    assert_eq!(
        fighter_entries(&vec![2, 0, 3], "fighters"),
        Ok([Some(1), None, Some(0), Some(2)])
    );
    assert_eq!(
        fighter_entries(&vec![2, 7], "fighters"),
        Err(SlotCollectionError::UnknownSlot { index: 7 })
    );
    assert_eq!(
        fighter_entries(&vec![2, 2], "fighters"),
        Err(SlotCollectionError::DuplicateSlot { fighter: FighterId::Two })
    );
}

#[test]
fn aim_assist_equal_distance_tie_uses_fighter_id_when_entity_order_is_reversed() {
    let forward =
        choose_aim_target(&vec![0, 1, 2], &vec![s(0.0), s(1.0), s(1.0)], FighterId::Zero);
    let reversed =
        choose_aim_target(&vec![2, 1, 0], &vec![s(1.0), s(1.0), s(0.0)], FighterId::Zero);
    assert_eq!(forward, Ok(Some(FighterId::One)));
    assert_eq!(reversed, forward);
    assert!(takes_part_in_aiming(true, FighterAction::Idle));
    assert!(!takes_part_in_aiming(false, FighterAction::Idle));
    assert!(!takes_part_in_aiming(true, FighterAction::RingOut));
}

fn standing(slot: usize) -> BodyFighter {
    BodyFighter { slot, action: FighterAction::Idle }
}

/// Bodies one unit wide at the origin, pushed apart for eight rounds at most.
fn separated_positions(order: [usize; 3]) -> [f32; 3] {
    let fighters = order.map(standing).to_vec();
    let mut x = [0.0f32; 3];
    for _ in 0..8 {
        let overlap = |first: usize, second: usize| {
            let apart = x[order[first]] - x[order[second]];
            let depth = 1.0 - apart.abs();
            if depth > 0.0 { Some(if apart < 0.0 { -depth } else { depth }) } else { None }
        };
        let contacts = separation_pairs(&fighters)
            .unwrap()
            .into_iter()
            .map(|(first, second)| PairContact {
                first_velocity_y: s(0.0),
                first_lands_on_second: false,
                second_velocity_y: s(0.0),
                second_lands_on_first: false,
                overlap: overlap(first, second).is_some(),
            })
            .collect();
        let moves = separate_fighters(&fighters, &contacts).unwrap();
        if moves.is_empty() {
            break;
        }
        let mut corrections = [0.0f32; 3];
        for place in 0..3 {
            for BodyCorrection { other, kind } in corrections_on(&moves, place) {
                corrections[order[place]] += match kind {
                    CorrectionKind::Forth => overlap(place, other).unwrap() * 0.5,
                    CorrectionKind::Back => -(overlap(other, place).unwrap() * 0.5),
                    CorrectionKind::Lift => panic!("nobody falls"),
                };
            }
        }
        for slot in 0..3 {
            x[slot] += corrections[slot];
        }
    }
    x
}

#[test]
fn fighter_separation_uses_fighter_pair_order_when_entity_order_is_reversed() {
    let forward = separated_positions([0, 1, 2]);
    let reversed = separated_positions([2, 1, 0]);
    assert_eq!(reversed, forward);
    assert!(forward[0] > forward[1]);
    assert!(forward[1] > forward[2]);
}

#[test]
fn bodies_that_do_not_block_neither_move_nor_push() {
    let held = BodyFighter { slot: 1, action: FighterAction::Grabbed };
    let fighters = vec![standing(2), held, standing(0)];
    assert_eq!(blocking_bodies(&fighters), vec![0, 2]);
    assert_eq!(separation_pairs(&fighters), Ok(vec![(2, 0)]));
    let stray = BodyFighter { slot: 9, action: FighterAction::RingOut };
    assert_eq!(separation_pairs(&vec![standing(2), stray]), Ok(vec![]));
}

#[test]
fn holds_and_locks_resolve_alike_in_every_order() {
    let holder = GrabSnapshot {
        action: FighterAction::GrabHold,
        holding: Some(FighterId::One),
        input_light: true,
        ..bystander(0)
    };
    let forward = resolved(&running(), &vec![holder, victim(), bystander(3)]);
    let reversed = resolved(&running(), &vec![bystander(3), victim(), holder]);
    assert_eq!(forward, reversed);
    assert_eq!(forward.unwrap().len(), 1);

    let attacker = UltimateLockSnapshot {
        target: Some(FighterId::One),
        ..locked(0, FighterAction::UltimateRush)
    };
    let owned = UltimateLockSnapshot {
        owner: Some(FighterId::Zero),
        ..locked(1, FighterAction::UltimateVictim)
    };
    let free = locked(3, FighterAction::Idle);
    let motions = |snapshots: Vec<UltimateLockSnapshot>| {
        let locks = update_ultimate_locks(&snapshots).unwrap();
        [FighterId::Zero, FighterId::One, FighterId::Three].map(|fighter| {
            let mut action = FighterActionState::default();
            let mut state = FighterUltimateState { target: None, owner: None };
            apply_ultimate_lock(&locks, fighter, &mut action, &mut state)
        })
    };
    let forward = motions(vec![attacker, owned, free]);
    assert_eq!(forward, motions(vec![free, owned, attacker]));
    assert_eq!(
        forward,
        [LockMotion::Attacker, LockMotion::Victim { attacker: 0 }, LockMotion::Free]
    );
}

fn grabbing(holding: Option<FighterId>, held_by: Option<FighterId>) -> Option<GrabFighter> {
    Some(GrabFighter {
        state: FighterGrabState { holding, held_by, regrab_lockout: TickTimer::from_ticks(5) },
        action: FighterActionState::default(),
    })
}

#[test]
fn lockouts_run_once_for_everybody_and_not_in_hitstop() {
    let lockout = |fighter: Option<GrabFighter>| fighter.unwrap().state.regrab_lockout;
    let mut fighters = [grabbing(None, None), None, grabbing(None, None), None];
    let frozen = Hitstop { remaining: 5 };
    let snapshots = vec![holder(60), victim()];
    let tuning = grab_tuning();
    assert_eq!(update_grab_holds(&frozen, &snapshots, &mut fighters, &tuning), Ok(vec![]));
    assert_eq!(lockout(fighters[0]), TickTimer::from_ticks(5));
    let refused = update_grab_holds(&running(), &vec![bystander(9)], &mut fighters, &tuning);
    assert_eq!(refused, Err(SlotCollectionError::UnknownSlot { index: 9 }));
    assert_eq!(lockout(fighters[0]), TickTimer::from_ticks(5));
    let throws = update_grab_holds(&running(), &snapshots, &mut fighters, &tuning).unwrap();
    assert_eq!(throws.len(), 1);
    assert_eq!(lockout(fighters[0]), TickTimer::from_ticks(4));
    assert!(fighters[1].is_none());
    assert_eq!(lockout(fighters[2]), TickTimer::from_ticks(4));
}

/// One tick of holds in which every throw is confirmed as a hit.
fn grab_tick(
    snapshots: &Vec<GrabSnapshot>,
    fighters: &mut [Option<GrabFighter>; 4],
    events: &mut TickEventBuffer,
) -> Vec<CombatPresentationIntent> {
    let tuning = grab_tuning();
    let resolutions = update_grab_holds(&running(), snapshots, fighters, &tuning).unwrap();
    let mut hits = vec![];
    let mut next = 0;
    loop {
        match apply_grab_resolutions(fighters, &resolutions, next, &tuning) {
            (applied, Some(GrabResolution::Throw { holder, victim, .. })) => {
                next = applied;
                hits.push(confirmed(holder, victim));
            }
            _ => break,
        }
    }
    emit_throw_hits(&hits, events)
}

fn confirmed(attacker: FighterId, victim: FighterId) -> ThrowHit {
    let kind = SimEventKind::HitConfirmed { attacker: Some(attacker), victim };
    ThrowHit { attacker, victim, kind }
}

fn throw_fixture() -> (Vec<GrabSnapshot>, [Option<GrabFighter>; 4]) {
    let throwing = GrabSnapshot { input_light: true, ..holder(0) };
    let mut fighters = [
        grabbing(Some(FighterId::One), None),
        grabbing(None, Some(FighterId::Zero)),
        None,
        None,
    ];
    let thrown = fighters[1].as_mut().unwrap();
    thrown.action.action = FighterAction::Grabbed;
    thrown.action.reaction_visual_side = s(-0.5);
    (vec![victim(), throwing], fighters)
}

#[test]
fn headless_grab_throw_emits_combat_event_without_inline_presentation() {
    let (snapshots, mut fighters) = throw_fixture();
    let mut events = TickEventBuffer::new(SimTick(82), 64);
    grab_tick(&snapshots, &mut fighters, &mut events);
    assert_eq!(fighters[1].unwrap().action.reaction_visual_side, s(-0.5));
    assert_eq!(fighters[1].unwrap().state.held_by, None);
    assert_eq!(events.len(), 1);
    let event = events.get(0).unwrap();
    assert_eq!(event.id.tick, SimTick(82));
    assert_eq!(event.id.source, SimEventSource::Fighter(FighterId::Zero));
    assert!(matches!(
        event.kind,
        SimEventKind::HitConfirmed { attacker: Some(FighterId::Zero), victim: FighterId::One }
    ));
}

#[test]
fn grab_throw_presentation_is_deferred_and_consumed_once() {
    let (snapshots, mut fighters) = throw_fixture();
    let mut events = TickEventBuffer::new(SimTick(83), 64);
    let intents = grab_tick(&snapshots, &mut fighters, &mut events);
    assert_eq!(intents.len(), 1);
    assert_eq!(intents[0].event_id, events.get(0).unwrap().id);
    assert_eq!(intents[0].victim, FighterId::One);
    assert_eq!(fighters[0].unwrap().action.action, FighterAction::Throwing);

    let thrown = GrabSnapshot { action: FighterAction::Throwing, ..bystander(0) };
    let later = grab_tick(&vec![thrown, bystander(1)], &mut fighters, &mut events);
    assert_eq!(later, vec![]);
    assert_eq!(events.len(), 1);
}

#[test]
fn throws_are_reported_once_for_each_victim_in_order() {
    let hits = vec![
        confirmed(FighterId::One, FighterId::Three),
        confirmed(FighterId::One, FighterId::Zero),
        confirmed(FighterId::Two, FighterId::Three),
    ];
    let mut events = TickEventBuffer::new(SimTick(7), 64);
    let intents = emit_throw_hits(&hits, &mut events);
    assert_eq!(events.len(), 2);
    assert_eq!(events.get(0).unwrap().kind, hits[1].kind);
    assert_eq!(events.get(0).unwrap().id.source, SimEventSource::Fighter(FighterId::One));
    assert_eq!(events.get(1).unwrap().kind, hits[2].kind);
    assert_eq!(events.get(1).unwrap().id.source, SimEventSource::Fighter(FighterId::Two));
    assert_eq!(intents.len(), 2);

    let mut narrow = TickEventBuffer::new(SimTick(7), 1);
    let kept = emit_throw_hits(&hits, &mut narrow);
    assert_eq!(narrow.get(0), events.get(0));
    assert_eq!(narrow.len(), 1);
    assert_eq!(kept, vec![intents[0]]);
}

#[test]
fn resolutions_stop_for_the_impact_of_a_throw() {
    let mut fighters = [
        grabbing(Some(FighterId::One), None),
        grabbing(None, Some(FighterId::Zero)),
        grabbing(Some(FighterId::One), None),
        None,
    ];
    let throw = GrabResolution::Throw {
        holder: FighterId::Zero,
        victim: FighterId::One,
        strength: ThrowStrength::Quick,
        aim: ThrowAim::Facing,
        braced: false,
    };
    let release = GrabResolution::Release { holder: FighterId::Two, victim: FighterId::One };
    let resolutions = vec![throw, release];
    let tuning = grab_tuning();
    assert_eq!(
        apply_grab_resolutions(&mut fighters, &resolutions, 0, &tuning),
        (1, Some(throw))
    );
    assert_eq!(fighters[0].unwrap().action.action, FighterAction::Throwing);
    assert_eq!(fighters[0].unwrap().state.holding, None);
    assert_eq!(fighters[1].unwrap().state.held_by, None);
    assert_eq!(fighters[2].unwrap().state.holding, Some(FighterId::One));
    assert_eq!(apply_grab_resolutions(&mut fighters, &resolutions, 1, &tuning), (2, None));
    assert_eq!(fighters[2].unwrap().state.holding, None);
    assert_eq!(
        fighters[1].unwrap().state.regrab_lockout,
        TickTimer::from_ticks(tuning.release_lockout)
    );
    let absent = GrabResolution::Throw {
        holder: FighterId::Zero,
        victim: FighterId::Three,
        strength: ThrowStrength::Quick,
        aim: ThrowAim::Facing,
        braced: false,
    };
    assert_eq!(apply_grab_resolutions(&mut fighters, &vec![absent], 0, &tuning), (1, None));
}

#[test]
fn falling_bodies_land_on_others_before_they_push() {
    let contact = PairContact {
        first_velocity_y: s(-1.0),
        first_lands_on_second: true,
        second_velocity_y: s(-1.0),
        second_lands_on_first: true,
        overlap: true,
    };
    assert_eq!(pair_separation(contact), PairSeparation::LiftFirst);
    let rising = PairContact { first_velocity_y: s(1.0), ..contact };
    assert_eq!(pair_separation(rising), PairSeparation::LiftSecond);
    let level =
        PairContact { first_lands_on_second: false, second_lands_on_first: false, ..contact };
    assert_eq!(pair_separation(level), PairSeparation::Push);
    assert_eq!(pair_separation(PairContact { overlap: false, ..level }), PairSeparation::Apart);
    assert!(fighter_body_blocks_overlap(FighterAction::Idle));
    assert!(!fighter_body_blocks_overlap(FighterAction::Grabbed));
}

#[test]
fn throw_edge_pressure_only_boosts_outward_throws_near_edge() {
    let start = s(25.0);
    assert!(throw_edge_pressure(s(6.2 * 6.2), start, s(1.0)));
    assert!(!throw_edge_pressure(s(6.2 * 6.2), start, s(-1.0)));
    assert!(!throw_edge_pressure(s(4.0), start, s(1.0)));
}

#[test]
fn grab_release_resolves_by_fighter_id_when_entity_order_is_reversed() {
    let escaping = GrabSnapshot {
        input_guard: true,
        movement_length_squared: s(1.0),
        escape_alignment: s(1.0),
        ..victim()
    };
    let snapshots = vec![escaping, holder(12)];
    let resolutions = resolved(&running(), &snapshots).unwrap();
    let released = GrabResolution::Release { holder: FighterId::Zero, victim: FighterId::One };
    assert_eq!(resolutions, vec![released]);

    let mut holder_state = FighterGrabState {
        holding: Some(FighterId::One),
        held_by: None,
        regrab_lockout: TickTimer::zero(),
    };
    let mut holder_action =
        FighterActionState { action: FighterAction::GrabHold, ..FighterActionState::default() };
    let mut victim_state = FighterGrabState {
        holding: None,
        held_by: Some(FighterId::Zero),
        regrab_lockout: TickTimer::zero(),
    };
    let mut victim_action =
        FighterActionState { action: FighterAction::Grabbed, ..FighterActionState::default() };
    assert!(!apply_grab_resolution(
        &mut holder_state,
        &mut holder_action,
        FighterId::Zero,
        released,
        &grab_tuning()
    ));
    assert!(!apply_grab_resolution(
        &mut victim_state,
        &mut victim_action,
        FighterId::One,
        released,
        &grab_tuning()
    ));
    assert_eq!(holder_action.action, FighterAction::Idle);
    assert_eq!(holder_state.holding, None);
    assert_eq!(victim_action.action, FighterAction::Idle);
    assert_eq!(victim_state.held_by, None);
    assert_eq!(victim_state.regrab_lockout, TickTimer::from_ticks(15));
}

#[test]
fn attack_buttons_throw_the_held_fighter() {
    let throwing = GrabSnapshot { input_light: true, ..holder(3) };
    let snapshots = vec![throwing, victim()];
    let resolutions = resolved(&running(), &snapshots).unwrap();
    assert_eq!(resolutions.len(), 1);
    match resolutions[0] {
        GrabResolution::Throw { holder, victim, strength, aim, braced } => {
            assert_eq!((holder, victim), (FighterId::Zero, FighterId::One));
            assert_eq!(strength, ThrowStrength::Quick);
            assert_eq!(aim, ThrowAim::Facing);
            assert!(!braced);
        }
        GrabResolution::Release { .. } => panic!("the victim is thrown"),
    }
    let mut state = FighterGrabState {
        holding: None,
        held_by: Some(FighterId::Zero),
        regrab_lockout: TickTimer::zero(),
    };
    let mut action =
        FighterActionState { action: FighterAction::Grabbed, ..FighterActionState::default() };
    assert!(apply_grab_resolution(
        &mut state,
        &mut action,
        FighterId::One,
        resolutions[0],
        &grab_tuning()
    ));
    assert_eq!(state.held_by, None);
    assert_eq!(state.regrab_lockout, TickTimer::from_ticks(30));
}

#[test]
fn hitstop_keeps_every_hold() {
    let throwing = GrabSnapshot { input_light: true, ..holder(3) };
    let snapshots = vec![throwing, victim()];
    let frozen = Hitstop { remaining: 1 };
    assert_eq!(resolved(&frozen, &snapshots), Ok(vec![]));
    assert_eq!(resolved(&running(), &vec![holder(3), victim()]), Ok(vec![]));
}

#[test]
fn grabs_refuse_unknown_and_doubled_slots() {
    assert_eq!(
        resolved(&running(), &vec![bystander(4)]),
        Err(SlotCollectionError::UnknownSlot { index: 4 })
    );
    assert_eq!(
        resolved(&running(), &vec![bystander(2), bystander(2)]),
        Err(SlotCollectionError::DuplicateSlot { fighter: FighterId::Two })
    );
}

#[test]
fn throws_differ_by_strength() {
    let quick = throw_profile(ThrowStrength::Quick);
    assert!(!quick.force_knockdown);
    assert_eq!(quick.intensity, ImpactFeedbackIntensity::Light);
    assert_eq!(quick.reaction, ReactionFamilyId::LightAirPop);
    for strength in [ThrowStrength::Standard, ThrowStrength::Heavy] {
        let profile = throw_profile(strength);
        assert!(profile.force_knockdown);
        assert_eq!(profile.intensity, ImpactFeedbackIntensity::Heavy);
        assert_eq!(profile.reaction, ReactionFamilyId::SlidingKnockdown);
    }
}

fn locked(slot: usize, action: FighterAction) -> UltimateLockSnapshot {
    UltimateLockSnapshot {
        slot,
        action,
        technique_id: None,
        elapsed: ElapsedTicks::zero(),
        target: None,
        owner: None,
    }
}

#[test]
fn ultimate_lock_resolves_by_fighter_id_when_entity_order_is_reversed() {
    let attacker = UltimateLockSnapshot {
        target: Some(FighterId::One),
        ..locked(0, FighterAction::UltimateRush)
    };
    let victim = UltimateLockSnapshot {
        owner: Some(FighterId::Zero),
        ..locked(1, FighterAction::UltimateVictim)
    };
    let locks = update_ultimate_locks(&vec![victim, attacker]).unwrap();
    let mut action = FighterActionState {
        action: FighterAction::UltimateVictim,
        ..FighterActionState::default()
    };
    let mut state = FighterUltimateState { target: None, owner: Some(FighterId::Zero) };
    assert_eq!(
        apply_ultimate_lock(&locks, FighterId::One, &mut action, &mut state),
        LockMotion::Victim { attacker: 0 }
    );
    assert_eq!(action.action, FighterAction::UltimateVictim);
    assert_eq!(state.owner, Some(FighterId::Zero));
    let mut action = FighterActionState {
        action: FighterAction::UltimateRush,
        ..FighterActionState::default()
    };
    let mut state = FighterUltimateState { target: Some(FighterId::One), owner: None };
    assert_eq!(
        apply_ultimate_lock(&locks, FighterId::Zero, &mut action, &mut state),
        LockMotion::Attacker
    );
}

#[test]
fn locks_are_let_go_when_their_time_is_up() {
    let attacker = UltimateLockSnapshot {
        target: Some(FighterId::One),
        technique_id: Some(TechniqueId::CatUltimateRush),
        elapsed: ElapsedTicks::from_ticks(milliseconds_to_ticks_ceil(900)),
        ..locked(0, FighterAction::UltimateRush)
    };
    let victim = UltimateLockSnapshot {
        owner: Some(FighterId::Zero),
        ..locked(1, FighterAction::UltimateVictim)
    };
    let locks = update_ultimate_locks(&vec![attacker, victim]).unwrap();
    let mut action = FighterActionState {
        action: FighterAction::UltimateVictim,
        ..FighterActionState::default()
    };
    let mut state = FighterUltimateState { target: None, owner: Some(FighterId::Zero) };
    assert_eq!(
        apply_ultimate_lock(&locks, FighterId::One, &mut action, &mut state),
        LockMotion::Free
    );
    assert_eq!(action.action, FighterAction::Hitstun);
    assert_eq!(state.owner, None);
}

fn aiming(slot: usize, aims: bool) -> AimFighter {
    AimFighter { slot, active: true, action: FighterAction::Idle, aims }
}

#[test]
fn aiming_fighters_turn_to_the_nearest_in_play() {
    let fallen = AimFighter { action: FighterAction::RingOut, ..aiming(1, true) };
    let fighters = vec![aiming(0, true), fallen, aiming(3, true), aiming(2, false)];
    let row = |far: [f32; 4]| far.iter().map(|d| s(*d)).collect::<Vec<_>>();
    let distances = vec![
        row([0.0, 1.0, 9.0, 4.0]),
        row([1.0, 0.0, 4.0, 1.0]),
        row([9.0, 4.0, 0.0, 25.0]),
        row([4.0, 1.0, 25.0, 0.0]),
    ];
    assert_eq!(
        apply_aim_assist(&fighters, &distances),
        Ok(vec![Some(FighterId::Two), None, Some(FighterId::Zero), None])
    );
}

#[test]
fn aiming_ignores_storage_order() {
    let row = |far: [f32; 3]| far.iter().map(|d| s(*d)).collect::<Vec<_>>();
    let forward = apply_aim_assist(
        &vec![aiming(0, true), aiming(1, false), aiming(2, true)],
        &vec![row([0.0, 4.0, 4.0]), row([4.0, 0.0, 1.0]), row([4.0, 1.0, 0.0])],
    );
    let reversed = apply_aim_assist(
        &vec![aiming(2, true), aiming(1, false), aiming(0, true)],
        &vec![row([0.0, 1.0, 4.0]), row([1.0, 0.0, 4.0]), row([4.0, 4.0, 0.0])],
    );
    assert_eq!(forward, Ok(vec![Some(FighterId::One), None, Some(FighterId::One)]));
    assert_eq!(reversed, Ok(vec![Some(FighterId::One), None, Some(FighterId::One)]));
}

#[test]
fn aiming_is_refused_for_a_repeated_slot_in_play() {
    let row = vec![s(0.0), s(1.0)];
    let twice = vec![aiming(1, true), aiming(1, false)];
    assert_eq!(
        apply_aim_assist(&twice, &vec![row.clone(), row.clone()]),
        Err(SlotCollectionError::DuplicateSlot { fighter: FighterId::One })
    );
    let absent = AimFighter { active: false, ..aiming(1, false) };
    assert_eq!(
        apply_aim_assist(&vec![aiming(1, true), absent], &vec![row.clone(), row]),
        Ok(vec![None, None])
    );
}

#[test]
fn a_round_separates_the_pairs_that_touch() {
    let apart = PairContact {
        first_velocity_y: s(0.0),
        first_lands_on_second: false,
        second_velocity_y: s(0.0),
        second_lands_on_first: false,
        overlap: false,
    };
    let pushed = PairContact { overlap: true, ..apart };
    let stood_on = PairContact { second_lands_on_first: true, ..pushed };
    let fighters = vec![standing(2), standing(0), standing(1)];
    assert_eq!(separation_pairs(&fighters).unwrap(), vec![(1, 2), (1, 0), (2, 0)]);
    assert_eq!(
        separate_fighters(&fighters, &vec![pushed, apart, stood_on]),
        Ok(vec![
            PairMove { first: 1, second: 2, separation: PairSeparation::Push },
            PairMove { first: 2, second: 0, separation: PairSeparation::LiftSecond },
        ])
    );
    let moves = separate_fighters(&fighters, &vec![pushed, apart, stood_on]).unwrap();
    let by = |other: usize, kind: CorrectionKind| BodyCorrection { other, kind };
    assert_eq!(corrections_on(&moves, 0), vec![by(2, CorrectionKind::Lift)]);
    assert_eq!(corrections_on(&moves, 1), vec![by(2, CorrectionKind::Forth)]);
    assert_eq!(corrections_on(&moves, 2), vec![by(1, CorrectionKind::Back)]);
    assert_eq!(separate_fighters(&fighters, &vec![apart, apart, apart]), Ok(vec![]));
    assert_eq!(
        separate_fighters(&vec![standing(4)], &vec![]),
        Err(SlotCollectionError::UnknownSlot { index: 4 })
    );
}

use arena_fighter::ids::FighterId;
use arena_fighter::scalar::{Scalar, SimVec2};
use arena_fighter::ticks::{ElapsedTicks, TickTimer, milliseconds_to_ticks_ceil};

fn s(value: f32) -> Scalar {
    Scalar::from_bits(value.to_bits())
}

#[test]
fn comparisons_agree_with_floating_point() {
    let values = [
        0.0f32,
        -0.0,
        1.0,
        -1.0,
        0.01,
        -0.01,
        f32::MIN_POSITIVE,
        f32::MAX,
        f32::MIN,
        f32::INFINITY,
        f32::NEG_INFINITY,
        f32::NAN,
        1.0e-42,
        -1.0e-42,
    ];
    for left in values {
        for right in values {
            assert_eq!(s(left).lt(s(right)), left < right);
            assert_eq!(s(left).le(s(right)), left <= right);
            assert_eq!(s(left).total_lt(s(right)), left.total_cmp(&right).is_lt());
        }
        assert_eq!(s(left).is_nan(), left.is_nan());
        assert_eq!(s(left).negated().bits, (-left).to_bits());
        assert_eq!(s(left).negated().negated(), s(left));
    }
    let vector = SimVec2 { x: s(0.5), y: s(-2.0) };
    assert_eq!(vector.negated(), SimVec2 { x: s(-0.5), y: s(2.0) });
}

#[test]
fn milliseconds_round_up_to_ticks() {
    assert_eq!(milliseconds_to_ticks_ceil(0), 0);
    assert_eq!(milliseconds_to_ticks_ceil(1), 1);
    assert_eq!(milliseconds_to_ticks_ceil(16), 1);
    assert_eq!(milliseconds_to_ticks_ceil(17), 2);
    assert_eq!(milliseconds_to_ticks_ceil(1000), 60);
}

#[test]
fn timers_last_their_length() {
    let mut timer = TickTimer::from_ticks(3);
    for _ in 0..3 {
        assert!(timer.active());
        timer.tick();
    }
    assert!(!timer.active());
    timer.tick();
    assert_eq!(timer, TickTimer::zero());
    timer.set_max(TickTimer::from_ticks(4));
    timer.set_max(TickTimer::from_ticks(2));
    assert_eq!(timer.remaining(), 4);
    timer.clear();
    assert!(!timer.active());
    let mut forever = TickTimer::indefinite();
    forever.tick();
    assert!(forever.active());
}

#[test]
fn elapsed_ticks_count_up() {
    let mut elapsed = ElapsedTicks::zero();
    for _ in 0..60 {
        elapsed.advance();
    }
    assert!(elapsed.reached(60));
    assert!(!elapsed.reached(61));
    assert_eq!(elapsed.as_millis_floor(), 1000);
    assert_eq!(elapsed.min(ElapsedTicks::from_ticks(9)).get(), 9);
    elapsed.reset();
    assert_eq!(elapsed, ElapsedTicks::zero());
}

#[test]
fn fighter_numbers_round_trip() {
    for index in 0..4usize {
        assert_eq!(FighterId::from_index(index).unwrap().index(), index);
        assert_eq!(FighterId::new(index as u8), FighterId::from_index(index));
    }
    assert_eq!(FighterId::from_index(4), None);
    assert_eq!(FighterId::new(4), None);
}

//! How numbers, timers, inputs and the headings that they lead to compare.

use vstd::prelude::*;

use crate::feedback::countdown;
use crate::guard::{EvasiveHeading, spec_defensive_step_direction};
use crate::input::FighterInput;
use crate::reaction_laws::points_far;
use crate::scalar::{Scalar, SimVec2};
use crate::ticks::{ElapsedTicks, TickTimer, ticks_covering_millis};

verus! {

/// The bit pattern stands for a number, the infinities among them.
pub open spec fn is_a_number(value: Scalar) -> bool {
    value.bits <= 0x7f80_0000 || 0x8000_0000 <= value.bits <= 0xff80_0000
}

/// Numbers that are not negative compare as their bit patterns do, negative ones the
/// other way round, and a negative one lies below any other, but that the two zeros are
/// alike. What is no number compares with nothing.
pub proof fn numbers_compare_by_their_bits(left: Scalar, right: Scalar)
    ensures
        ({
            let low = left.bits < 0x8000_0000;
            let high = right.bits < 0x8000_0000;
            let zeros = (left.bits == 0 || left.bits == 0x8000_0000) && (right.bits == 0
                || right.bits == 0x8000_0000);
            let numbers = is_a_number(left) && is_a_number(right);
            &&& !numbers ==> !left.lt(right) && !left.le(right)
            &&& numbers && low && high ==> (left.lt(right) <==> left.bits < right.bits)
            &&& numbers && !low && !high ==> (left.lt(right) <==> left.bits > right.bits)
            &&& numbers && !low && high ==> (left.lt(right) <==> !zeros)
            &&& numbers && low && !high ==> !left.lt(right)
            &&& numbers ==> (left.le(right) <==> !right.lt(left))
        }),
        left.is_nan() <==> !is_a_number(left),
{
}

/// The opposite of a number compares the other way round, and every direction of an
/// input has its opposite when it is turned round.
pub proof fn opposites_compare_the_other_way(left: Scalar, right: Scalar, direction: SimVec2)
    ensures
        left.negated().lt(right.negated()) <==> right.lt(left),
        left.negated() != left,
        direction.negated().x == direction.x.negated(),
        direction.negated().y == direction.y.negated(),
{
}

/// The total order agrees with the order of numbers, puts the negative zero below the
/// other, and orders everything.
pub proof fn everything_has_its_place(left: Scalar, right: Scalar)
    ensures
        left.lt(right) ==> left.total_place() < right.total_place(),
        left != right ==> left.total_place() < right.total_place() || right.total_place()
            < left.total_place(),
        (Scalar { bits: 0x8000_0000 }).total_place() < (Scalar { bits: 0 }).total_place(),
        left.bits < right.bits < 0x8000_0000 ==> left.total_place() < right.total_place(),
        0x8000_0000 <= left.bits < right.bits ==> right.total_place() < left.total_place(),
        right.bits < 0x8000_0000 <= left.bits ==> left.total_place() < right.total_place(),
{
}

/// A timer that runs loses one tick at a time, an indefinite one none. Of two timers
/// the longer one counts. Ticks that have passed add up to the largest count and stay
/// there.
pub proof fn timers_run_one_tick(timer: TickTimer, other: TickTimer, passed: ElapsedTicks)
    ensures
        0 < timer.remaining < u32::MAX ==> timer.ticked().remaining == timer.remaining - 1,
        timer.remaining == 0 || timer.remaining == u32::MAX ==> timer.ticked() == timer,
        timer.active() <==> timer.remaining > 0,
        timer.spec_max(other).remaining >= timer.remaining,
        timer.spec_max(other).remaining >= other.remaining,
        timer.spec_max(other) == timer || timer.spec_max(other) == other,
        passed.ticks < u32::MAX ==> passed.next().ticks == passed.ticks + 1,
        passed.ticks == u32::MAX ==> passed.next() == passed,
{
}

/// A time in milliseconds is reached with the first tick that is not shorter, at sixty
/// ticks a second. Ticks count as the milliseconds that are over.
pub proof fn ticks_are_sixtieths(passed: ElapsedTicks, millis: u32)
    ensures
        passed.reached(ticks_covering_millis(millis as int) as u32) <==> passed.ticks * 1000
            >= millis * 60,
        passed.spec_millis() * 60 <= passed.ticks * 1000 < (passed.spec_millis() + 1) * 60,
{
}

/// Nothing is asked for by a neutral input.
pub proof fn neutral_inputs_ask_for_nothing()
    ensures
        ({
            let input = FighterInput::neutral();
            &&& !input.jump && !input.dash && !input.light && !input.heavy && !input.grab
            &&& !input.guard && !input.ultimate && !input.special && !input.aim
            &&& !input.light_held && !input.heavy_held && !input.heavy_released
            &&& !input.raw_light_pressed && !input.raw_heavy_pressed
            &&& input.movement.x.bits == 0 && input.movement.y.bits == 0
        }),
{
}

/// Time runs out and stays out, and two spans take as much as their sum.
pub proof fn countdowns_end_at_nothing(remaining: u64, first: u64, second: u64)
    requires
        first + second <= u64::MAX,
    ensures
        first < remaining ==> countdown(remaining, first) == remaining - first,
        first >= remaining ==> countdown(remaining, first) == 0,
        countdown(countdown(remaining, first), second) == countdown(
            remaining,
            (first + second) as u64,
        ),
{
}

/// A guard step goes back where no direction is asked for, and where it is asked for
/// unless that is ahead; then it goes to the side that the direction leans to, to the
/// right if to neither.
pub proof fn guard_steps_take_the_side(length: Scalar, ahead: Scalar, right: Scalar)
    requires
        is_a_number(length),
        is_a_number(ahead),
        is_a_number(right),
    ensures
        ({
            let heading = spec_defensive_step_direction(length, ahead, right);
            let asked = points_far(length);
            let forward = (Scalar { bits: 0x3dcc_cccd }).lt(ahead);
            let leans_left = right.lt(Scalar { bits: 0 });
            &&& heading == EvasiveHeading::Back <==> !asked
            &&& heading == EvasiveHeading::Requested <==> asked && !forward
            &&& heading == EvasiveHeading::Right <==> asked && forward && !leans_left
            &&& heading == EvasiveHeading::Left <==> asked && forward && leans_left
        }),
{
}

} // verus!

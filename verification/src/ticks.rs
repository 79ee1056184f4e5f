//! Fixed simulation time: tick numbers, countdown timers and elapsed counters.

use vstd::prelude::*;

verus! {

/// Fixed ticks in one second of simulated time.
pub const SIM_TICKS_PER_SECOND: u64 = 60;

/// Milliseconds in one second.
pub const MILLIS_PER_SECOND: u64 = 1000;

/// The number of whole ticks that cover `millis` milliseconds.
pub open spec fn ticks_covering_millis(millis: int) -> int {
    (millis * SIM_TICKS_PER_SECOND + MILLIS_PER_SECOND - 1) / MILLIS_PER_SECOND as int
}

/// The fewest fixed ticks that last at least `millis` milliseconds.
pub fn milliseconds_to_ticks_ceil(millis: u32) -> (ticks: u32)
    ensures
        ticks == ticks_covering_millis(millis as int),
{
    let scaled: u64 = millis as u64 * SIM_TICKS_PER_SECOND + (MILLIS_PER_SECOND - 1);
    (scaled / MILLIS_PER_SECOND) as u32
}

/// Rounding up: the ticks last at least the asked time, and one fewer would not.
pub proof fn ticks_cover_exactly(millis: int)
    requires
        millis >= 0,
    ensures
        ticks_covering_millis(millis) * MILLIS_PER_SECOND >= millis * SIM_TICKS_PER_SECOND,
        millis > 0 ==> (ticks_covering_millis(millis) - 1) * MILLIS_PER_SECOND < millis
            * SIM_TICKS_PER_SECOND,
{
}

/// A fixed simulation tick, counted from the start of the match.
#[derive(Clone, Copy, Debug, PartialEq, Eq, Structural)]
pub struct SimTick(pub u64);

impl SimTick {
    pub fn get(self) -> (tick: u64)
        ensures
            tick == self.0,
    {
        self.0
    }
}

/// Ticks that have passed since something began. The count stops at its maximum.
#[derive(Clone, Copy, Debug, PartialEq, Eq, Structural)]
pub struct ElapsedTicks {
    pub ticks: u32,
}

impl ElapsedTicks {
    /// One tick later.
    pub open spec fn next(self) -> ElapsedTicks {
        if self.ticks < u32::MAX {
            ElapsedTicks { ticks: (self.ticks + 1) as u32 }
        } else {
            self
        }
    }

    /// The whole milliseconds that have passed.
    pub open spec fn spec_millis(self) -> int {
        self.ticks * MILLIS_PER_SECOND / SIM_TICKS_PER_SECOND as int
    }

    /// Whether at least `ticks` ticks have passed.
    pub open spec fn spec_reached(self, ticks: u32) -> bool {
        self.ticks >= ticks
    }

    /// The earlier of two counts.
    pub open spec fn spec_min(self, other: ElapsedTicks) -> ElapsedTicks {
        if other.ticks < self.ticks {
            other
        } else {
            self
        }
    }

    pub open spec fn spec_zero() -> ElapsedTicks {
        ElapsedTicks { ticks: 0 }
    }

    /// No time has passed.
    #[verifier::when_used_as_spec(spec_zero)]
    pub fn zero() -> (elapsed: ElapsedTicks)
        ensures
            elapsed == Self::spec_zero(),
    {
        ElapsedTicks { ticks: 0 }
    }

    pub fn from_ticks(ticks: u32) -> (elapsed: ElapsedTicks)
        ensures
            elapsed.ticks == ticks,
    {
        ElapsedTicks { ticks }
    }

    pub fn get(self) -> (ticks: u32)
        ensures
            ticks == self.ticks,
    {
        self.ticks
    }

    pub fn advance(&mut self)
        ensures
            *final(self) == old(self).next(),
    {
        if self.ticks < u32::MAX {
            self.ticks = self.ticks + 1;
        }
    }

    pub fn reset(&mut self)
        ensures
            *final(self) == ElapsedTicks::zero(),
    {
        self.ticks = 0;
    }

    #[verifier::when_used_as_spec(spec_min)]
    pub fn min(self, other: ElapsedTicks) -> (earlier: ElapsedTicks)
        ensures
            earlier == self.spec_min(other),
    {
        if other.ticks < self.ticks {
            other
        } else {
            self
        }
    }

    /// Whether at least `ticks` ticks have passed.
    #[verifier::when_used_as_spec(spec_reached)]
    pub fn reached(self, ticks: u32) -> (reached: bool)
        ensures
            reached == self.spec_reached(ticks),
    {
        self.ticks >= ticks
    }

    /// The whole milliseconds that have passed.
    pub fn as_millis_floor(self) -> (millis: u64)
        ensures
            millis == self.spec_millis(),
    {
        self.ticks as u64 * MILLIS_PER_SECOND / SIM_TICKS_PER_SECOND
    }
}

/// A countdown in fixed ticks. The largest value never runs out.
#[derive(Clone, Copy, Debug, PartialEq, Eq, Structural)]
pub struct TickTimer {
    pub remaining: u32,
}

impl TickTimer {
    pub open spec fn spec_active(self) -> bool {
        self.remaining > 0
    }

    /// The countdown one tick later.
    pub open spec fn ticked(self) -> TickTimer {
        if self.remaining == 0 || self.remaining == u32::MAX {
            self
        } else {
            TickTimer { remaining: (self.remaining - 1) as u32 }
        }
    }

    /// The longer of two countdowns.
    pub open spec fn spec_max(self, other: TickTimer) -> TickTimer {
        if self.remaining < other.remaining {
            other
        } else {
            self
        }
    }

    pub open spec fn spec_zero() -> TickTimer {
        TickTimer { remaining: 0 }
    }

    /// A countdown that has run out.
    #[verifier::when_used_as_spec(spec_zero)]
    pub fn zero() -> (timer: TickTimer)
        ensures
            timer == Self::spec_zero(),
    {
        TickTimer { remaining: 0 }
    }

    pub open spec fn spec_indefinite() -> TickTimer {
        TickTimer { remaining: u32::MAX }
    }

    /// A countdown that never runs out by itself.
    #[verifier::when_used_as_spec(spec_indefinite)]
    pub fn indefinite() -> (timer: TickTimer)
        ensures
            timer == Self::spec_indefinite(),
    {
        TickTimer { remaining: u32::MAX }
    }

    pub fn from_ticks(ticks: u32) -> (timer: TickTimer)
        ensures
            timer.remaining == ticks,
    {
        TickTimer { remaining: ticks }
    }

    pub fn remaining(self) -> (ticks: u32)
        ensures
            ticks == self.remaining,
    {
        self.remaining
    }

    #[verifier::when_used_as_spec(spec_active)]
    pub fn active(self) -> (active: bool)
        ensures
            active == self.spec_active(),
    {
        self.remaining > 0
    }

    pub fn tick(&mut self)
        ensures
            *final(self) == old(self).ticked(),
    {
        if self.remaining > 0 && self.remaining < u32::MAX {
            self.remaining = self.remaining - 1;
        }
    }

    pub fn clear(&mut self)
        ensures
            *final(self) == TickTimer::zero(),
    {
        self.remaining = 0;
    }

    /// Lengthens the countdown to `other`; it is never shortened.
    pub fn set_max(&mut self, other: TickTimer)
        ensures
            *final(self) == old(self).spec_max(other),
    {
        if self.remaining < other.remaining {
            self.remaining = other.remaining;
        }
    }
}

/// The countdown after `ticks` more ticks.
pub open spec fn timer_after(timer: TickTimer, ticks: nat) -> TickTimer
    decreases ticks,
{
    if ticks == 0 {
        timer
    } else {
        timer_after(timer.ticked(), (ticks - 1) as nat)
    }
}

/// A finite countdown of `n` ticks is active before its `n`-th tick and over
/// from then on; an indefinite one is never over.
pub proof fn countdown_lasts_its_length(timer: TickTimer, ticks: nat)
    ensures
        timer == TickTimer::indefinite() ==> timer_after(timer, ticks) == timer,
        timer != TickTimer::indefinite() ==> timer_after(timer, ticks).remaining == (if ticks
            >= timer.remaining {
            0
        } else {
            timer.remaining - ticks
        }),
    decreases ticks,
{
    if ticks > 0 {
        countdown_lasts_its_length(timer.ticked(), (ticks - 1) as nat);
    }
}

} // verus!

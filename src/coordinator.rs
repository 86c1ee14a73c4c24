//! The coordinator's tick: an exponential back-off that ends in parking.
use vstd::prelude::*;

verus! {

/// The shortest pause between two ticks, in microseconds.
pub const DELAY_MIN: u64 = 1_250;

/// The longest pause between two ticks, in microseconds; reaching it parks the coordinator.
pub const DELAY_MAX: u64 = 10_000;

/// The pause that follows `d`: twice as long, but no longer than `DELAY_MAX`.
pub open spec fn next_delay(d: int) -> int {
    if 2 * d < DELAY_MAX {
        2 * d
    } else {
        DELAY_MAX as int
    }
}

/// The back-off state of the coordinator.
pub struct Ramp {
    delay: u64,
    slept: u64,
}

impl Ramp {
    /// The next pause, in microseconds.
    pub closed spec fn delay(&self) -> int {
        self.delay as int
    }

    /// The pause of the last tick, in microseconds.
    pub closed spec fn slept(&self) -> int {
        self.slept as int
    }

    /// No pause exceeds `DELAY_MAX`.
    pub open spec fn wf(&self) -> bool {
        &&& 0 <= self.delay() <= DELAY_MAX
        &&& 0 <= self.slept() <= DELAY_MAX
    }

    /// The state before the first tick: no pause.
    pub fn new() -> (r: Ramp)
        ensures
            r.wf(),
            r.delay() == 0,
            r.slept() == 0,
    {
        Ramp { delay: 0, slept: 0 }
    }

    /// The next pause, in microseconds.
    pub fn current(&self) -> (r: u64)
        ensures
            r == self.delay(),
    {
        self.delay
    }

    /// A machine was spawned: the back-off starts over, the next pause being `DELAY_MIN`.
    pub fn spawned(&mut self)
        requires
            old(self).wf(),
        ensures
            final(self).wf(),
            final(self).delay() == DELAY_MIN,
            final(self).slept() == old(self).slept(),
    {
        self.delay = DELAY_MIN;
    }

    /// Takes the next pause for this tick and returns it, in microseconds: the
    /// coordinator sleeps that long. The pause after it is twice as long, up
    /// to `DELAY_MAX`.
    pub fn advance(&mut self) -> (r: u64)
        requires
            old(self).wf(),
        ensures
            final(self).wf(),
            r == old(self).delay(),
            final(self).slept() == old(self).delay(),
            final(self).delay() == next_delay(old(self).delay()),
    {
        let r = self.delay;
        self.slept = r;
        if self.delay < DELAY_MAX / 2 {
            self.delay = self.delay * 2;
        } else {
            self.delay = DELAY_MAX;
        }
        r
    }

    /// Whether the coordinator should now park until something unparks it:
    /// the tick just slept `DELAY_MAX`. If so, the back-off starts over, the
    /// next pause being `DELAY_MIN`.
    pub fn park_due(&mut self) -> (r: bool)
        requires
            old(self).wf(),
        ensures
            final(self).wf(),
            r == (old(self).slept() == DELAY_MAX),
            final(self).delay() == if r { DELAY_MIN as int } else { old(self).delay() },
            final(self).slept() == if r { 0 } else { old(self).slept() },
    {
        if self.slept == DELAY_MAX {
            self.delay = DELAY_MIN;
            self.slept = 0;
            true
        } else {
            false
        }
    }
}

/// The back-off takes at least three ticks before parking, which stuck
/// detection needs: one for a healthy worker to set its flag, one for the
/// coordinator to clear it, and one to see whether it is still clear.
pub proof fn ramp_has_three_steps()
    ensures
        DELAY_MAX / DELAY_MIN > 2,
        DELAY_MIN < DELAY_MAX,
        next_delay(DELAY_MIN as int) < DELAY_MAX,
        next_delay(next_delay(DELAY_MIN as int)) < DELAY_MAX,
{
}

/// Without spawns, the coordinator parks after at most four ticks from any
/// pause of at least `DELAY_MIN`: the fourth pause is `DELAY_MAX`. From
/// `DELAY_MIN` the four pauses are 1 250, 2 500, 5 000 and 10 000
/// microseconds, 18 750 in all.
pub proof fn ramp_reaches_park(d: int)
    requires
        DELAY_MIN <= d <= DELAY_MAX,
    ensures
        next_delay(next_delay(next_delay(d))) == DELAY_MAX,
        d == DELAY_MIN ==> d + next_delay(d) + next_delay(next_delay(d)) + next_delay(
            next_delay(next_delay(d)),
        ) == 18_750,
{
}

} // verus!

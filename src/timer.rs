use vstd::prelude::*;

verus! {

/// Idle ticks per second of the requested period.
pub const TICKS_PER_SECOND: u32 = 6;

/// Milliseconds slept after an idle tick, per second of the requested period.
pub const PAUSE_MILLIS_PER_SECOND: u64 = 180;

/// Counts idle ticks and fires once their number reaches a threshold.
pub struct Timer {
    /// Ticks counted since the timer last fired.
    pub timer: u32,
    /// Ticks after which it fires.
    pub elapse: u32,
    /// How long to pause after a tick that did not fire, in milliseconds.
    pub duration: u64,
}

/// The timer after one call of `elapsed`.
pub open spec fn spec_tick(t: Timer) -> Timer {
    if t.timer >= t.elapse {
        Timer { timer: 0, ..t }
    } else {
        Timer { timer: (t.timer + 1) as u32, ..t }
    }
}

/// The timer after `k` calls of `elapsed`.
pub open spec fn spec_ticks(t: Timer, k: nat) -> Timer
    decreases k,
{
    if k == 0 {
        t
    } else {
        spec_tick(spec_ticks(t, (k - 1) as nat))
    }
}

impl Timer {
    /// A timer that fires about every `elapse` seconds of idle ticks.
    pub fn new(elapse: u32) -> (r: Self)
        requires
            elapse as int * TICKS_PER_SECOND <= u32::MAX,
        ensures
            r.timer == 0,
            r.elapse == elapse * TICKS_PER_SECOND,
            r.duration == elapse * PAUSE_MILLIS_PER_SECOND,
    {
        Timer {
            timer: 0,
            elapse: elapse * TICKS_PER_SECOND,
            duration: elapse as u64 * PAUSE_MILLIS_PER_SECOND,
        }
    }

    /// Counts one idle tick: fires, and starts counting anew, once the count
    /// has reached the threshold. After a tick that did not fire the caller
    /// pauses for `duration` milliseconds.
    pub fn elapsed(&mut self) -> (r: bool)
        ensures
            r == (old(self).timer >= old(self).elapse),
            *final(self) == spec_tick(*old(self)),
    {
        if self.timer >= self.elapse {
            self.timer = 0;
            return true;
        }
        self.timer = self.timer + 1;
        false
    }
}

/// From a count of zero, the first `elapse` calls of `elapsed` do not fire and
/// count up one by one; the call after them fires and sets the count back to
/// zero.
pub proof fn lemma_timer_fires_at_threshold(t: Timer, k: nat)
    requires
        t.timer == 0,
        k <= t.elapse,
    ensures
        spec_ticks(t, k).timer == k,
        spec_ticks(t, k).elapse == t.elapse,
        (spec_ticks(t, k).timer >= spec_ticks(t, k).elapse) == (k == t.elapse),
        k == t.elapse ==> spec_ticks(t, k + 1).timer == 0,
    decreases k,
{
    if k > 0 {
        lemma_timer_fires_at_threshold(t, (k - 1) as nat);
    }
    assert(spec_ticks(t, k + 1) == spec_tick(spec_ticks(t, k)));
}

/// Tells an application when its one-time setup is due.
pub struct Compat {
    setup: bool,
}

impl Compat {
    /// Whether the setup is still due.
    pub closed spec fn pending(&self) -> bool {
        self.setup
    }

    /// True on the first call only.
    pub fn needs_setup(&mut self) -> (r: bool)
        ensures
            r == old(self).pending(),
            !final(self).pending(),
    {
        if self.setup {
            self.setup = false;
            return true;
        }
        self.setup
    }
}

impl Default for Compat {
    fn default() -> (r: Self)
        ensures
            r.pending(),
    {
        Compat { setup: true }
    }
}

} // verus!

//! The wake-time arithmetic of one track: waits measured in ticks, and the
//! repricing of a pending wait when the tick duration changes mid-wait.
use vstd::prelude::*;

verus! {

/// Whole ticks that `elapsed_us` microseconds make at `tick_us` microseconds
/// each, rounded to the nearest tick, halves rounding up.
pub open spec fn rounded_ticks(elapsed_us: nat, tick_us: nat) -> nat
    recommends
        tick_us > 0,
{
    ((2 * elapsed_us + tick_us) / (2 * tick_us)) as nat
}

/// Ticks still owed by a wait that owed `remaining` ticks and has since run
/// for `elapsed_us` microseconds at `tick_us` microseconds per tick (never
/// below zero). With a zero tick duration any elapsed time completes the wait.
pub open spec fn ticks_left(remaining: nat, elapsed_us: nat, tick_us: nat) -> nat {
    if tick_us == 0 {
        if elapsed_us == 0 {
            remaining
        } else {
            0
        }
    } else if rounded_ticks(elapsed_us, tick_us) >= remaining {
        0
    } else {
        (remaining - rounded_ticks(elapsed_us, tick_us)) as nat
    }
}

/// Sum of a sequence of tick counts.
pub open spec fn sum_ticks(deltas: Seq<u32>) -> nat
    decreases deltas.len(),
{
    if deltas.len() == 0 {
        0
    } else {
        sum_ticks(deltas.drop_last()) + deltas.last() as nat
    }
}

/// The local clock of one track. Times are microseconds after the common
/// origin at which all tracks start.
#[derive(Clone, Copy, Debug, PartialEq, Eq, Structural)]
pub struct WaitClock {
    /// Current tick duration in this track's view, in microseconds.
    pub tick_us: u32,
    /// The instant the current (or last) wait ends.
    pub wake_us: u64,
    /// Ticks of the current wait not yet completed at the last repricing.
    pub remaining_ticks: u32,
}

impl WaitClock {
    /// The wake instant lies no earlier than the owed ticks priced at the
    /// current rate: repricing never moves it before the origin.
    pub open spec fn wf(self) -> bool {
        self.wake_us >= self.remaining_ticks * self.tick_us
    }

    /// The clock after starting a wait of `delta` ticks at the current rate.
    pub open spec fn after_begin(self, delta: u32) -> WaitClock {
        WaitClock {
            tick_us: self.tick_us,
            wake_us: (self.wake_us + delta * self.tick_us) as u64,
            remaining_ticks: delta,
        }
    }

    /// The clock after waits of `deltas` ticks, one after the other, with no
    /// tempo change in between.
    pub open spec fn after_waits(self, deltas: Seq<u32>) -> WaitClock
        decreases deltas.len(),
    {
        if deltas.len() == 0 {
            self
        } else {
            self.after_waits(deltas.drop_last()).after_begin(deltas.last())
        }
    }

    /// Ticks still owed after a tempo change that arrives `elapsed_us` after
    /// the wait (re)started.
    pub open spec fn left_after(self, elapsed_us: u64) -> nat {
        ticks_left(self.remaining_ticks as nat, elapsed_us as nat, self.tick_us as nat)
    }

    /// The wake instant after repricing the owed ticks at `new_tick_us`.
    pub open spec fn retimed_wake(self, elapsed_us: u64, new_tick_us: u32) -> int {
        self.wake_us + self.left_after(elapsed_us) * new_tick_us - self.left_after(elapsed_us)
            * self.tick_us
    }

    /// The clock after a tempo change to `new_tick_us`, arriving `elapsed_us`
    /// after the current wait (re)started.
    pub open spec fn after_retime(self, elapsed_us: u64, new_tick_us: u32) -> WaitClock {
        WaitClock {
            tick_us: new_tick_us,
            wake_us: self.retimed_wake(elapsed_us, new_tick_us) as u64,
            remaining_ticks: self.left_after(elapsed_us) as u32,
        }
    }

    /// A clock at the origin with no wait pending.
    pub fn new(tick_us: u32) -> (r: WaitClock)
        ensures
            r.tick_us == tick_us,
            r.wake_us == 0,
            r.remaining_ticks == 0,
            r.wf(),
    {
        WaitClock { tick_us, wake_us: 0, remaining_ticks: 0 }
    }

    /// Starts the wait for an event `delta` ticks after the previous one: the
    /// wake instant advances by `delta` ticks at the current rate. Returns
    /// false, leaving the clock as it was, where the instant would not fit in
    /// 64 bits.
    pub fn begin_wait(&mut self, delta: u32) -> (ok: bool)
        requires
            old(self).wf(),
        ensures
            ok == (old(self).wake_us + delta * old(self).tick_us <= u64::MAX),
            ok ==> *final(self) == old(self).after_begin(delta),
            !ok ==> *final(self) == *old(self),
            final(self).wf(),
    {
        proof {
            lemma_product_fits(delta as nat, self.tick_us as nat);
        }
        let span: u64 = (delta as u64) * (self.tick_us as u64);
        match self.wake_us.checked_add(span) {
            Some(w) => {
                self.wake_us = w;
                self.remaining_ticks = delta;
                true
            },
            None => false,
        }
    }

    /// Reprices the pending wait for a tempo change to `new_tick_us` that
    /// arrived `elapsed_us` microseconds after the wait (re)started. The ticks
    /// completed so far at the old rate are kept; only the ticks still owed
    /// move the wake instant, later for a longer tick and earlier for a
    /// shorter one. The new rate becomes the clock's rate. Returns false,
    /// leaving the clock as it was, where the instant would not fit in 64
    /// bits.
    pub fn retime(&mut self, elapsed_us: u64, new_tick_us: u32) -> (ok: bool)
        requires
            old(self).wf(),
        ensures
            ok == (old(self).retimed_wake(elapsed_us, new_tick_us) <= u64::MAX),
            ok ==> *final(self) == old(self).after_retime(elapsed_us, new_tick_us),
            !ok ==> *final(self) == *old(self),
            final(self).wf(),
    {
        let old_tick = self.tick_us;
        let rem = self.remaining_ticks;
        let left: u32 = if old_tick == 0 {
            if elapsed_us == 0 {
                rem
            } else {
                0
            }
        } else {
            let t: u128 = old_tick as u128;
            let done: u128 = (2 * (elapsed_us as u128) + t) / (2 * t);
            if done >= rem as u128 {
                0
            } else {
                (rem as u128 - done) as u32
            }
        };
        assert(left == self.left_after(elapsed_us));
        proof {
            lemma_product_fits(left as nat, new_tick_us as nat);
            lemma_product_fits(left as nat, old_tick as nat);
            lemma_mul_le(left as nat, rem as nat, old_tick as nat);
        }
        let up: u64 = (left as u64) * (new_tick_us as u64);
        let down: u64 = (left as u64) * (old_tick as u64);
        // wake >= rem * old_tick >= left * old_tick == down
        let base: u64 = self.wake_us - down;
        match base.checked_add(up) {
            Some(w) => {
                self.wake_us = w;
                self.tick_us = new_tick_us;
                self.remaining_ticks = left;
                true
            },
            None => false,
        }
    }
}

proof fn lemma_product_fits(a: nat, b: nat)
    requires
        a <= u32::MAX,
        b <= u32::MAX,
    ensures
        a * b <= u64::MAX,
{
    assert(a * b <= u32::MAX * u32::MAX) by (nonlinear_arith)
        requires
            a <= u32::MAX,
            b <= u32::MAX,
    ;
}

proof fn lemma_mul_le(a: nat, b: nat, c: nat)
    requires
        a <= b,
    ensures
        a * c <= b * c,
{
    assert(a * c <= b * c) by (nonlinear_arith)
        requires
            a <= b,
    ;
}

/// With no tempo change, the wake instant of the k-th event lies exactly the
/// sum of the first k deltas, in ticks at the constant rate, after where the
/// clock stood: no rounding accumulates over any number of events.
pub proof fn lemma_constant_tick_wake(c: WaitClock, deltas: Seq<u32>)
    requires
        c.wake_us + c.tick_us * sum_ticks(deltas) <= u64::MAX,
    ensures
        c.after_waits(deltas).wake_us == c.wake_us + c.tick_us * sum_ticks(deltas),
        c.after_waits(deltas).tick_us == c.tick_us,
    decreases deltas.len(),
{
    if deltas.len() > 0 {
        let init = deltas.drop_last();
        let s = sum_ticks(init);
        let d = deltas.last() as nat;
        let t = c.tick_us as nat;
        assert(sum_ticks(deltas) == s + d);
        assert(t * (s + d) == t * s + d * t) by (nonlinear_arith);
        assert(t * s <= t * (s + d)) by (nonlinear_arith);
        lemma_constant_tick_wake(c, init);
        let prev = c.after_waits(init);
        assert(c.after_waits(deltas) == prev.after_begin(deltas.last()));
        assert(prev.wake_us + d * t == c.wake_us + t * (s + d));
    } else {
        assert(sum_ticks(deltas) == 0);
        assert(c.tick_us * sum_ticks(deltas) == 0) by (nonlinear_arith)
            requires
                sum_ticks(deltas) == 0,
        ;
    }
}

} // verus!

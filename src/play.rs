//! The scheduling decisions of one track and the shared count of sounding
//! notes. The caller owns the timers, the tempo channel and the device; it
//! reports what happened and performs what these types decide.
use vstd::prelude::*;
use crate::clock::WaitClock;
use crate::midi::{Event, EventKind, Timing};

verus! {

/// Number of notes sounding now, and the most that ever sounded at once.
#[derive(Clone, Copy, Debug, PartialEq, Eq, Structural)]
pub struct InstrumentCount {
    pub current: usize,
    pub max: usize,
}

impl InstrumentCount {
    pub open spec fn wf(self) -> bool {
        self.max >= self.current
    }

    /// The count after a note update of velocity `vel`. A note-on adds one
    /// (saturating) and raises the maximum when exceeded; a note-off removes
    /// one, and an unmatched note-off leaves the count at zero.
    pub open spec fn after_note(self, vel: u8) -> InstrumentCount {
        if vel != 0 {
            let cur = if self.current < usize::MAX {
                (self.current + 1) as usize
            } else {
                self.current
            };
            InstrumentCount { current: cur, max: if cur > self.max { cur } else { self.max } }
        } else {
            InstrumentCount {
                current: if self.current > 0 { (self.current - 1) as usize } else { 0 },
                max: self.max,
            }
        }
    }

    /// The count after note updates of velocities `vels`, in order.
    pub open spec fn after_notes(self, vels: Seq<u8>) -> InstrumentCount
        decreases vels.len(),
    {
        if vels.len() == 0 {
            self
        } else {
            self.after_notes(vels.drop_last()).after_note(vels.last())
        }
    }

    /// No note sounding.
    pub fn new() -> (r: InstrumentCount)
        ensures
            r.current == 0,
            r.max == 0,
            r.wf(),
    {
        InstrumentCount { current: 0, max: 0 }
    }

    /// Records a note update of velocity `vel`. Returns true when this raised
    /// the maximum.
    pub fn record(&mut self, vel: u8) -> (raised: bool)
        ensures
            *final(self) == old(self).after_note(vel),
            raised == (final(self).max > old(self).max),
            final(self).max >= old(self).max,
            old(self).wf() ==> final(self).wf(),
    {
        if vel != 0 {
            if self.current < usize::MAX {
                self.current = self.current + 1;
            }
            if self.current > self.max {
                self.max = self.current;
                true
            } else {
                false
            }
        } else {
            if self.current > 0 {
                self.current = self.current - 1;
            }
            false
        }
    }
}

/// Over any sequence of note updates the count stays well formed, and the
/// maximum never decreases: it is at least the current count at every point,
/// and later points never see a smaller maximum.
pub proof fn lemma_count_invariant(c: InstrumentCount, vels: Seq<u8>, i: int, j: int)
    requires
        c.wf(),
        0 <= i <= j <= vels.len(),
    ensures
        c.after_notes(vels.take(i)).wf(),
        c.after_notes(vels.take(i)).max <= c.after_notes(vels.take(j)).max,
    decreases j,
{
    if j > i {
        lemma_count_invariant(c, vels, i, j - 1);
        assert(vels.take(j).drop_last() =~= vels.take(j - 1));
    } else if i > 0 {
        lemma_count_invariant(c, vels, i - 1, i - 1);
        assert(vels.take(i).drop_last() =~= vels.take(i - 1));
    } else {
        assert(vels.take(0) =~= Seq::<u8>::empty());
    }
}

/// What a track asks of its caller after being told to go on.
#[derive(Clone, Copy, Debug, PartialEq, Eq, Structural)]
pub enum Step {
    /// Not released by the start barrier yet: wait at the barrier, then call
    /// `start`.
    AwaitStart,
    /// Sleep until `wake_us` after the common origin, or until a new tick
    /// duration arrives, whichever comes first.
    Wait { wake_us: u64 },
    /// All events were played.
    Finished,
    /// The wake instant no longer fits in 64 bits of microseconds.
    Overflow,
}

/// What a track does once its wait ended.
#[derive(Clone, Copy, Debug, PartialEq, Eq, Structural)]
pub enum Dispatch {
    /// Sound (or silence, at velocity zero) `key` on the device, then record
    /// the note in the shared count.
    Tone { key: u8, vel: u8 },
    /// Broadcast the tick duration that this tempo gives, then renew this
    /// track's own subscription so that the value just sent never comes back
    /// to it as a tempo change.
    Tempo { us_per_beat: u32, ticks_per_beat: u32 },
    /// Nothing to do for this event.
    Nothing,
}

/// What the payload `kind` of an event asks for.
pub open spec fn dispatch_of(kind: Option<EventKind>, ticks_per_beat: u32) -> Dispatch {
    match kind {
        Some(EventKind::NoteUpdate { key, vel }) => Dispatch::Tone { key, vel },
        Some(EventKind::TempoUpdate(t)) => Dispatch::Tempo { us_per_beat: t, ticks_per_beat },
        _ => Dispatch::Nothing,
    }
}

/// The scheduler of one track: its events, its clock, and where it stands.
pub struct TrackPlayer {
    pub events: Vec<Event>,
    pub ticks_per_beat: u32,
    /// Released by the start barrier.
    pub started: bool,
    /// Index of the next event to wait for, or of the one being waited for.
    pub next: usize,
    /// A wait for `events[next]` is pending.
    pub waiting: bool,
    pub clock: WaitClock,
}

impl TrackPlayer {
    pub open spec fn wf(&self) -> bool {
        &&& self.next <= self.events.len()
        &&& self.waiting ==> self.next < self.events.len()
        &&& self.clock.wf()
    }

    /// A track at the common origin, not yet released by the start barrier.
    pub fn new(events: Vec<Event>, timing: Timing) -> (r: TrackPlayer)
        ensures
            r.wf(),
            r.events@ == events@,
            r.ticks_per_beat == timing.ticks_per_beat,
            r.clock == (WaitClock { tick_us: timing.tick_us, wake_us: 0, remaining_ticks: 0 }),
            !r.started,
            r.next == 0,
            !r.waiting,
    {
        TrackPlayer {
            events,
            ticks_per_beat: timing.ticks_per_beat,
            started: false,
            next: 0,
            waiting: false,
            clock: WaitClock::new(timing.tick_us),
        }
    }

    /// Releases the track once every track reached the start barrier; the
    /// current instant becomes the common origin.
    pub fn start(&mut self)
        ensures
            final(self).started,
            final(self).events@ == old(self).events@,
            final(self).ticks_per_beat == old(self).ticks_per_beat,
            final(self).next == old(self).next,
            final(self).waiting == old(self).waiting,
            final(self).clock == old(self).clock,
    {
        self.started = true;
    }

    /// Decides what the track waits for next. Before the start barrier
    /// released it, a track begins no wait. Otherwise, with no wait pending,
    /// it starts the wait for its next event, `delta` ticks after the last
    /// wake instant at its current rate; with one pending it repeats it.
    pub fn begin_next(&mut self) -> (r: Step)
        requires
            old(self).wf(),
        ensures
            final(self).wf(),
            final(self).events@ == old(self).events@,
            final(self).ticks_per_beat == old(self).ticks_per_beat,
            final(self).started == old(self).started,
            final(self).next == old(self).next,
            !old(self).started ==> r == Step::AwaitStart && final(self).clock == old(self).clock
                && final(self).waiting == old(self).waiting,
            old(self).started && old(self).waiting ==> r == (Step::Wait {
                wake_us: old(self).clock.wake_us,
            }) && final(self).clock == old(self).clock && final(self).waiting,
            old(self).started && !old(self).waiting && old(self).next == old(self).events.len()
                ==> r == Step::Finished && final(self).clock == old(self).clock
                && !final(self).waiting,
            old(self).started && !old(self).waiting && old(self).next < old(self).events.len()
                ==> ({
                let next_clock = old(self).clock.after_begin(
                    old(self).events@[old(self).next as int].delta,
                );
                if old(self).clock.wake_us + old(self).events@[old(self).next as int].delta
                    * old(self).clock.tick_us <= u64::MAX {
                    &&& r == (Step::Wait { wake_us: next_clock.wake_us })
                    &&& final(self).clock == next_clock
                    &&& final(self).waiting
                } else {
                    &&& r == Step::Overflow
                    &&& final(self).clock == old(self).clock
                    &&& !final(self).waiting
                }
            }),
    {
        if !self.started {
            return Step::AwaitStart;
        }
        if self.waiting {
            return Step::Wait { wake_us: self.clock.wake_us };
        }
        if self.next >= self.events.len() {
            return Step::Finished;
        }
        let delta = self.events[self.next].delta;
        if self.clock.begin_wait(delta) {
            self.waiting = true;
            Step::Wait { wake_us: self.clock.wake_us }
        } else {
            Step::Overflow
        }
    }

    /// A new tick duration `new_tick_us` arrived on the tempo channel
    /// `elapsed_us` microseconds after the pending wait (re)started: the wait
    /// is repriced and goes on toward the shifted wake instant.
    pub fn tempo_arrived(&mut self, elapsed_us: u64, new_tick_us: u32) -> (r: Step)
        requires
            old(self).wf(),
            old(self).waiting,
        ensures
            final(self).wf(),
            final(self).events@ == old(self).events@,
            final(self).ticks_per_beat == old(self).ticks_per_beat,
            final(self).started == old(self).started,
            final(self).next == old(self).next,
            final(self).waiting,
            old(self).clock.retimed_wake(elapsed_us, new_tick_us) <= u64::MAX ==> {
                &&& final(self).clock == old(self).clock.after_retime(elapsed_us, new_tick_us)
                &&& r == (Step::Wait { wake_us: final(self).clock.wake_us })
            },
            old(self).clock.retimed_wake(elapsed_us, new_tick_us) > u64::MAX ==> {
                &&& final(self).clock == old(self).clock
                &&& r == Step::Overflow
            },
    {
        if self.clock.retime(elapsed_us, new_tick_us) {
            Step::Wait { wake_us: self.clock.wake_us }
        } else {
            Step::Overflow
        }
    }

    /// The pending wait ended on its timer: the event's payload is handed
    /// out and the track moves on to the next event. The track's own clock is
    /// left as it was, also for a tempo event: a track learns of a tempo only
    /// from the channel, and never of one that it sent itself.
    pub fn wake_up(&mut self) -> (r: Dispatch)
        requires
            old(self).wf(),
            old(self).waiting,
        ensures
            final(self).wf(),
            final(self).events@ == old(self).events@,
            final(self).ticks_per_beat == old(self).ticks_per_beat,
            final(self).started == old(self).started,
            final(self).next == old(self).next + 1,
            !final(self).waiting,
            final(self).clock == old(self).clock,
            r == dispatch_of(old(self).events@[old(self).next as int].kind, old(self).ticks_per_beat),
    {
        let i = self.next;
        self.waiting = false;
        self.next = i + 1;
        match &self.events[i].kind {
            Some(EventKind::NoteUpdate { key, vel }) => Dispatch::Tone { key: *key, vel: *vel },
            Some(EventKind::TempoUpdate(t)) => Dispatch::Tempo {
                us_per_beat: *t,
                ticks_per_beat: self.ticks_per_beat,
            },
            _ => Dispatch::Nothing,
        }
    }
}

/// The position of the first failure among the outcomes of all tracks,
/// which are all awaited before any is looked at; None where every track
/// succeeded.
pub fn first_failure<E>(outcomes: &Vec<Result<(), E>>) -> (r: Option<usize>)
    ensures
        r is None <==> forall|i: int| 0 <= i < outcomes@.len() ==> (#[trigger] outcomes@[i]) is Ok,
        r is Some ==> {
            &&& r->Some_0 < outcomes@.len()
            &&& outcomes@[r->Some_0 as int] is Err
            &&& forall|j: int| 0 <= j < r->Some_0 ==> (#[trigger] outcomes@[j]) is Ok
        },
{
    let mut i: usize = 0;
    while i < outcomes.len()
        invariant
            i <= outcomes@.len(),
            forall|j: int| 0 <= j < i ==> (#[trigger] outcomes@[j]) is Ok,
        decreases outcomes@.len() - i,
    {
        if outcomes[i].is_err() {
            return Some(i);
        }
        i = i + 1;
    }
    None
}

} // verus!

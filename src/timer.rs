use vstd::prelude::*;

verus! {

/// A one-shot countdown over a capture window, in nanoseconds.
///
/// Once the elapsed time reaches the duration the timer is finished; the
/// tick on which that happens is the only one that reports `just_finished`,
/// until the timer is reset.
#[derive(Clone, Copy, Debug, PartialEq, Eq)]
pub struct CaptureTimer {
    pub elapsed: u64,
    pub duration: u64,
    pub finished: bool,
    pub just_finished: bool,
}

impl CaptureTimer {
    pub open spec fn wf(&self) -> bool {
        &&& self.elapsed <= self.duration
        &&& self.finished ==> self.elapsed == self.duration
        &&& self.just_finished ==> self.finished
    }

    /// The timer after `delta` nanoseconds have passed.
    pub open spec fn advanced(self, delta: u64) -> CaptureTimer {
        if self.finished {
            CaptureTimer { just_finished: false, ..self }
        } else {
            let total = self.elapsed + delta;
            let done = total >= self.duration;
            CaptureTimer {
                elapsed: if done {
                    self.duration
                } else {
                    total as u64
                },
                duration: self.duration,
                finished: done,
                just_finished: done,
            }
        }
    }

    /// A timer at the start of a window of `duration` nanoseconds.
    pub open spec fn started(duration: u64) -> CaptureTimer {
        CaptureTimer { elapsed: 0, duration, finished: false, just_finished: false }
    }

    /// A fresh timer for a window of `duration` nanoseconds.
    pub fn new(duration: u64) -> (r: CaptureTimer)
        ensures
            r == CaptureTimer::started(duration),
            r.wf(),
    {
        CaptureTimer { elapsed: 0, duration, finished: false, just_finished: false }
    }

    /// Lets `delta` nanoseconds pass.
    pub fn tick(&mut self, delta: u64)
        requires
            old(self).wf(),
        ensures
            *final(self) == old(self).advanced(delta),
            final(self).wf(),
    {
        if self.finished {
            self.just_finished = false;
        } else {
            let room = self.duration - self.elapsed;
            if delta >= room {
                self.elapsed = self.duration;
                self.finished = true;
                self.just_finished = true;
            } else {
                self.elapsed = self.elapsed + delta;
                self.just_finished = false;
            }
        }
    }

    /// Restarts the window: no time has passed.
    pub fn reset(&mut self)
        ensures
            *final(self) == CaptureTimer::started(old(self).duration),
            final(self).wf(),
    {
        self.elapsed = 0;
        self.finished = false;
        self.just_finished = false;
    }
}

/// After the tick that reports the end of the window, further ticks never
/// report it again until the timer is restarted.
pub proof fn lemma_timer_finishes_once(t: CaptureTimer, d1: u64, d2: u64)
    requires
        t.wf(),
        t.advanced(d1).just_finished,
    ensures
        !t.advanced(d1).advanced(d2).just_finished,
        t.advanced(d1).advanced(d2).finished,
{
}

/// Ticks whose total reaches the duration finish a started timer, and ticks
/// that stay below it do not.
pub proof fn lemma_timer_finishes_at_duration(t: CaptureTimer, delta: u64)
    requires
        t.wf(),
        !t.finished,
    ensures
        t.advanced(delta).finished <==> t.elapsed + delta >= t.duration,
        t.advanced(delta).just_finished <==> t.elapsed + delta >= t.duration,
        !t.advanced(delta).finished ==> t.advanced(delta).elapsed == t.elapsed + delta,
{
}

} // verus!

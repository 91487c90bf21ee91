use vstd::prelude::*;

verus! {

/// A one-shot countdown: `elapsed_ms` grows with each tick up to
/// `duration_ms`, where it stays until the timer is reset.
#[derive(Debug, Clone, Copy, PartialEq, Eq, Structural)]
pub struct Timer {
    pub duration_ms: u64,
    pub elapsed_ms: u64,
}

impl Timer {
    /// The timer never runs past its duration.
    pub open spec fn wf(self) -> bool {
        self.elapsed_ms <= self.duration_ms
    }

    /// The timer after `delta_ms` more milliseconds.
    pub open spec fn ticked(self, delta_ms: u64) -> Timer {
        if self.elapsed_ms + delta_ms >= self.duration_ms {
            Timer { elapsed_ms: self.duration_ms, ..self }
        } else {
            Timer { elapsed_ms: (self.elapsed_ms + delta_ms) as u64, ..self }
        }
    }

    pub open spec fn is_finished(self) -> bool {
        self.elapsed_ms >= self.duration_ms
    }

    /// A fresh timer of the given duration, with nothing elapsed.
    pub fn from_millis(duration_ms: u64) -> (r: Timer)
        ensures
            r.duration_ms == duration_ms,
            r.elapsed_ms == 0,
            r.wf(),
    {
        Timer { duration_ms, elapsed_ms: 0 }
    }

    /// A timer of the given duration that has already run out.
    pub fn finished_from_millis(duration_ms: u64) -> (r: Timer)
        ensures
            r.duration_ms == duration_ms,
            r.elapsed_ms == duration_ms,
            r.wf(),
            r.is_finished(),
    {
        Timer { duration_ms, elapsed_ms: duration_ms }
    }

    /// Advances the timer by `delta_ms`, stopping at its duration.
    pub fn tick(&mut self, delta_ms: u64)
        requires
            old(self).wf(),
        ensures
            final(self).wf(),
            *final(self) == old(self).ticked(delta_ms),
    {
        if delta_ms >= self.duration_ms - self.elapsed_ms {
            self.elapsed_ms = self.duration_ms;
        } else {
            self.elapsed_ms = self.elapsed_ms + delta_ms;
        }
    }

    /// Whether the whole duration has elapsed.
    pub fn finished(&self) -> (r: bool)
        ensures
            r == self.is_finished(),
    {
        self.elapsed_ms >= self.duration_ms
    }

    /// Starts the countdown again from zero, keeping the duration.
    pub fn reset(&mut self)
        ensures
            final(self).duration_ms == old(self).duration_ms,
            final(self).elapsed_ms == 0,
            final(self).wf(),
    {
        self.elapsed_ms = 0;
    }

    /// Changes the duration; the elapsed time is kept, up to the new duration.
    pub fn set_duration(&mut self, duration_ms: u64)
        ensures
            final(self).duration_ms == duration_ms,
            final(self).elapsed_ms == if old(self).elapsed_ms > duration_ms {
                duration_ms
            } else {
                old(self).elapsed_ms
            },
            final(self).wf(),
    {
        self.duration_ms = duration_ms;
        if self.elapsed_ms > duration_ms {
            self.elapsed_ms = duration_ms;
        }
    }
}

} // verus!

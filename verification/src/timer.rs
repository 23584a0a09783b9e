use crate::quartz::{
    elapsed_nanos, instant_now, sleep_needed, sleep_needed_spec, step_length_nanosec, tick_due,
    tick_due_spec, CLOCK_FREQUENCY,
};
use std::time::Instant;
use vstd::prelude::*;

verus! {

/// A wall-clock pacer of one cycle per `delta_step` nanoseconds.
pub struct Timer {
    pub frequency: u32,
    pub delta_step: u128,
    pub last_time: Instant,
}

impl Timer {
    pub fn new() -> (timer: Timer)
        ensures
            timer.frequency == CLOCK_FREQUENCY,
            timer.delta_step == 238,
    {
        let frequency = CLOCK_FREQUENCY;
        Timer { frequency, delta_step: step_length_nanosec(frequency), last_time: instant_now() }
    }

    /// The nanoseconds to sleep until the next clock cycle is due: what is
    /// left of a cycle after the time that has passed since the last one.
    /// How much time has passed is for the clock of the host to say; so the
    /// result is what `sleep_needed_spec` gives for some elapsed time, and
    /// never more than a cycle takes.
    pub fn sleep_time(&self) -> (nanos: u64)
        ensures
            exists|elapsed: u128| nanos == sleep_needed_spec(elapsed, self.delta_step),
            nanos <= self.delta_step,
    {
        let elapsed = elapsed_nanos(&self.last_time);
        let nanos = sleep_needed(elapsed, self.delta_step);
        assert(nanos == sleep_needed_spec(elapsed, self.delta_step));
        nanos
    }

    /// Whether the next clock cycle is due: whether the time that has
    /// passed since the last one has reached what a cycle takes. How much
    /// time has passed is for the clock of the host to say; so the result is
    /// what `tick_due_spec` gives for some elapsed time. A cycle that takes
    /// no time is always due.
    pub fn check_next_tick(&self) -> (due: bool)
        ensures
            exists|elapsed: u128| due == tick_due_spec(elapsed, self.delta_step),
            self.delta_step == 0 ==> due,
    {
        let elapsed = elapsed_nanos(&self.last_time);
        let due = tick_due(elapsed, self.delta_step);
        assert(due == tick_due_spec(elapsed, self.delta_step));
        due
    }

    /// Marks the present moment as the time of the last clock cycle.
    pub fn next_tick(&mut self)
        ensures
            final(self).frequency == old(self).frequency,
            final(self).delta_step == old(self).delta_step,
    {
        self.last_time = instant_now();
    }
}

} // verus!

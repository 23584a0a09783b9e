use std::time::{Duration, Instant};
use vstd::prelude::*;

verus! {

/// The clock frequency of the machine in cycles per second.
pub const CLOCK_FREQUENCY: u32 = 4194304u32;

/// `std::time::Instant`: a moment of a clock that never runs backwards.
/// Nothing of what it holds is visible.
#[verifier::external_type_specification]
#[verifier::external_body]
pub struct ExInstant(std::time::Instant);

/// `Instant::now`: the present moment. Nothing is claimed of it.
#[verifier::external_body]
pub(crate) fn instant_now() -> Instant {
    Instant::now()
}

/// `Instant::elapsed`: the time that has passed since a moment. Nothing is
/// claimed of it.
#[verifier::external_body]
pub(crate) fn instant_elapsed(since: &Instant) -> Duration {
    since.elapsed()
}

/// `Duration::as_nanos`: a span of time in whole nanoseconds. Nothing is
/// claimed of the number.
#[verifier::external_body]
pub(crate) fn duration_as_nanos(span: &Duration) -> u128 {
    span.as_nanos()
}

/// The nanoseconds that have passed since a moment.
pub(crate) fn elapsed_nanos(since: &Instant) -> u128 {
    let span = instant_elapsed(since);
    duration_as_nanos(&span)
}

/// The whole nanoseconds that one clock cycle takes at a frequency.
pub open spec fn step_length_spec(frequency: u32) -> u128 {
    (1_000_000_000int / frequency as int) as u128
}

/// The whole nanoseconds that one clock cycle takes at a frequency.
pub fn step_length_nanosec(frequency: u32) -> (nanos: u128)
    requires
        frequency > 0,
    ensures
        nanos == step_length_spec(frequency),
{
    1_000_000_000u128 / (frequency as u128)
}

/// Whether the next clock cycle is due when `elapsed` nanoseconds have
/// passed since the last one and a cycle takes `delta_step`.
pub open spec fn tick_due_spec(elapsed: u128, delta_step: u128) -> bool {
    elapsed >= delta_step
}

/// The nanoseconds still to wait for the next clock cycle: what is left of
/// `delta_step` after `elapsed`, at most what 64 bits hold, and zero when
/// the cycle is due.
pub open spec fn sleep_needed_spec(elapsed: u128, delta_step: u128) -> u64 {
    if elapsed >= delta_step {
        0
    } else if delta_step - elapsed > u64::MAX {
        u64::MAX
    } else {
        (delta_step - elapsed) as u64
    }
}

/// Whether the next clock cycle is due when `elapsed` nanoseconds have
/// passed since the last one and a cycle takes `delta_step`.
pub fn tick_due(elapsed: u128, delta_step: u128) -> (due: bool)
    ensures
        due == tick_due_spec(elapsed, delta_step),
{
    elapsed >= delta_step
}

/// The nanoseconds still to wait for the next clock cycle: what is left of
/// `delta_step` after `elapsed`, at most what 64 bits hold, and zero when
/// the cycle is due.
pub fn sleep_needed(elapsed: u128, delta_step: u128) -> (nanos: u64)
    ensures
        nanos == sleep_needed_spec(elapsed, delta_step),
{
    if elapsed < delta_step {
        let sleep_time = delta_step - elapsed;
        if sleep_time > u64::MAX as u128 {
            u64::MAX
        } else {
            sleep_time as u64
        }
    } else {
        0
    }
}

/// The master clock: it paces the machine at one cycle per `delta_step`
/// nanoseconds of wall-clock time.
pub struct Quartz {
    pub frequency: u32,
    pub delta_step: u128,
    pub last_time: Instant,
}

impl Quartz {
    pub fn new() -> (quartz: Quartz)
        ensures
            quartz.frequency == CLOCK_FREQUENCY,
            quartz.delta_step == 238,
    {
        let frequency = CLOCK_FREQUENCY;
        Quartz {
            frequency,
            delta_step: step_length_nanosec(frequency),
            last_time: instant_now(),
        }
    }

    /// The nanoseconds to sleep until the next clock cycle is due: what is
    /// left of a cycle after the time that has passed since the last one.
    /// How much time has passed is for the clock of the host to say; so the
    /// result is what `sleep_needed_spec` gives for some elapsed time, and
    /// never more than a cycle takes.
    pub fn sleep_time(&self) -> (nanos: u64)
        ensures
            exists|elapsed: u128| nanos == sleep_needed_spec(elapsed, self.delta_step),
            nanos <= self.delta_step,
    {
        let elapsed = elapsed_nanos(&self.last_time);
        let nanos = sleep_needed(elapsed, self.delta_step);
        assert(nanos == sleep_needed_spec(elapsed, self.delta_step));
        nanos
    }

    /// Whether the next clock cycle is due: whether the time that has
    /// passed since the last one has reached what a cycle takes. How much
    /// time has passed is for the clock of the host to say; so the result is
    /// what `tick_due_spec` gives for some elapsed time. A cycle that takes
    /// no time is always due.
    pub fn check_next_tick(&self) -> (due: bool)
        ensures
            exists|elapsed: u128| due == tick_due_spec(elapsed, self.delta_step),
            self.delta_step == 0 ==> due,
    {
        let elapsed = elapsed_nanos(&self.last_time);
        let due = tick_due(elapsed, self.delta_step);
        assert(due == tick_due_spec(elapsed, self.delta_step));
        due
    }

    /// Marks the present moment as the time of the last clock cycle.
    pub fn next_tick(&mut self)
        ensures
            final(self).frequency == old(self).frequency,
            final(self).delta_step == old(self).delta_step,
    {
        self.last_time = instant_now();
    }
}

} // verus!

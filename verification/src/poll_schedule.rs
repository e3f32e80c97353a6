//! The bound a scheduled example runs under.
use vstd::prelude::*;
use core::time::Duration;
use std::time::Instant;
use crate::poll_interval::{
    PollInterval, duration_from, duration_new, duration_nanos, duration_secs, duration_subsec_nanos, nanos_per_second,
};

verus! {

/// The longest span a `Duration` holds, in nanoseconds: `Duration::MAX`.
pub open spec fn max_duration_nanos() -> int {
    u64::MAX * nanos_per_second() + 999_999_999
}

/// A span held at `Duration::MAX`, which is where the standard library's saturating arithmetic
/// stops.
pub open spec fn saturated(nanos: int) -> int {
    if nanos > max_duration_nanos() { max_duration_nanos() } else { nanos }
}

/// How long a schedule leaves a run alone, in nanoseconds: one interval between each two polls,
/// and the grace after the last.
pub open spec fn window_nanos(cycles: u32, interval: int, grace: int) -> int {
    let gaps: int = if cycles == 0 { 0 } else { cycles - 1 };
    saturated(saturated(interval * gaps) + grace)
}

/// The moment `Instant::checked_add` answers with, a span after a start, or nothing when the
/// platform's clock cannot represent it.
pub uninterp spec fn instant_checked_plus(started: Instant, span: Duration) -> Option<Instant>;

/// `Instant::checked_add`: the moment a span after another, or `None` where the standard library's
/// addition would overflow. The outcome is a function of the two values.
#[verifier::external_body]
fn instant_after(started: Instant, span: Duration) -> (moment: Option<Instant>)
    ensures
        moment == instant_checked_plus(started, span),
{
    started.checked_add(span)
}

/// The bound a scheduled example runs under.
///
/// A scheduled mapping runs until it is interrupted, which is what its page tells a reader to do by
/// hand. Nothing in continuous integration sits at a terminal, so the descriptor says how many
/// polls are worth watching and the runner interrupts the run once they have had time to happen.
#[derive(Debug, Clone, Copy)]
pub struct PollSchedule {
    /// How many polls the run is allowed before it is interrupted; never zero in a descriptor.
    pub cycles: u32,
    /// The interval between them, matching the manifest's own schedule.
    pub interval: PollInterval,
    /// What the interval does not cover: the jitter the manifest adds before each poll, and the
    /// fetch, mapping, and delivery the last one still has to finish.
    pub grace: PollInterval,
}

/// The nanoseconds a `Duration` holds, as the standard library reports them.
pub(crate) fn nanos_in(duration: Duration) -> (total: u128)
    ensures
        total == duration_nanos(duration),
        total <= max_duration_nanos(),
{
    let secs = duration.as_secs();
    let nanos = duration.subsec_nanos();
    assert(secs * 1_000_000_000 <= u64::MAX * 1_000_000_000) by (nonlinear_arith)
        requires
            secs <= u64::MAX,
    ;
    secs as u128 * 1_000_000_000 + nanos as u128
}

/// The `Duration` that holds a number of nanoseconds no greater than `Duration::MAX` does.
pub(crate) fn duration_of_nanos(total: u128) -> (duration: Duration)
    requires
        total <= max_duration_nanos(),
    ensures
        duration_nanos(duration) == total,
{
    let secs = total / 1_000_000_000;
    let nanos = total % 1_000_000_000;
    assert(secs <= u64::MAX) by (nonlinear_arith)
        requires
            secs == total / 1_000_000_000,
            total <= 18_446_744_073_709_551_615 * 1_000_000_000 + 999_999_999,
    ;
    let duration = duration_new(secs as u64, nanos as u32);
    assert(secs * 1_000_000_000 + nanos == total) by (nonlinear_arith)
        requires
            secs == total / 1_000_000_000,
            nanos == total % 1_000_000_000,
    ;
    duration
}

impl PollSchedule {
    /// The duration a schedule leaves a run alone for, as the standard library builds it out of the
    /// window's seconds and nanoseconds.
    pub open spec fn window_duration(self) -> Duration {
        let total = window_nanos(self.cycles, self.interval.nanos(), self.grace.nanos());
        duration_from((total / nanos_per_second()) as u64, (total % nanos_per_second()) as u32)
    }

    /// How long the run is left alone.
    ///
    /// The first poll fires immediately and each later one waits out the interval, so five cycles
    /// are four intervals apart, plus whatever the last of them needs to finish. Both steps
    /// saturate at `Duration::MAX`, as the standard library's do.
    pub fn window(self) -> (window: Duration)
        ensures
            window == self.window_duration(),
            duration_nanos(window) == window_nanos(self.cycles, self.interval.nanos(), self.grace.nanos()),
    {
        let interval = nanos_in(self.interval.as_duration());
        let grace = nanos_in(self.grace.as_duration());
        let gaps: u32 = if self.cycles == 0 { 0 } else { self.cycles - 1 };
        let max: u128 = 18_446_744_073_709_551_615 * 1_000_000_000 + 999_999_999;
        assert(interval * gaps <= max_duration_nanos() * u32::MAX) by (nonlinear_arith)
            requires
                interval <= max_duration_nanos(),
                gaps <= u32::MAX,
                0 <= interval,
        ;
        let product = interval * gaps as u128;
        let spread = if product > max { max } else { product };
        let total = spread + grace;
        let bounded = if total > max { max } else { total };
        let secs = bounded / 1_000_000_000;
        let nanos = bounded % 1_000_000_000;
        assert(secs <= u64::MAX) by (nonlinear_arith)
            requires
                secs == bounded / 1_000_000_000,
                bounded <= 18_446_744_073_709_551_615 * 1_000_000_000 + 999_999_999,
        ;
        let window = duration_new(secs as u64, nanos as u32);
        assert(secs * 1_000_000_000 + nanos == bounded) by (nonlinear_arith)
            requires
                secs == bounded / 1_000_000_000,
                nanos == bounded % 1_000_000_000,
        ;
        window
    }

    /// When the run is interrupted: its window after the moment it started, or `None` when that
    /// moment lies beyond what the platform's clock can represent, so that the window never closes.
    pub fn deadline(self, started: Instant) -> (deadline: Option<Instant>)
        ensures
            deadline == instant_checked_plus(started, self.window_duration()),
    {
        let window = self.window();
        instant_after(started, window)
    }
}

} // verus!

//! The refresh predictor: from a reported refresh rate and one known refresh
//! boundary to the wait that ends on the next boundary within reach.

use crate::error::PacerError;
use vstd::arithmetic::div_mod::{
    lemma_add_mod_noop,
    lemma_fundamental_div_mod,
    lemma_fundamental_div_mod_converse,
};
use vstd::prelude::*;

verus! {

/// Nanoseconds in a second.
pub const NANOS_PER_SECOND: u64 = 1_000_000_000;

/// Millihertz in a hertz.
pub const MILLIHERTZ_PER_HERTZ: u64 = 1_000;

/// The lowest refresh rate, in millihertz, that the predictor accepts: half a
/// hertz, the lowest that rounds to a whole hertz above zero.
pub const LOWEST_FREQUENCY: u32 = 500;

/// The refresh interval at the lowest accepted rate, and so the longest wait
/// that the predictor ever asks for.
pub const LONGEST_INTERVAL: u64 = 2_000_000_000;

/// A rate in millihertz rounded to the nearest whole hertz, halves upwards.
pub open spec fn rounded_hertz(reported_frequency: u32) -> nat {
    ((reported_frequency + 500) / 1000) as nat
}

/// Whether a refresh interval follows from a rate: its rounded value less
/// half a hertz must be above zero.
pub open spec fn is_valid_frequency(reported_frequency: u32) -> bool {
    reported_frequency >= LOWEST_FREQUENCY
}

/// The refresh interval, in whole nanoseconds, that the predictor assumes for
/// a reported rate: that of a display running half a hertz below the rate's
/// rounded value.
pub open spec fn refresh_interval(reported_frequency: u32) -> nat {
    (2 * NANOS_PER_SECOND / (2 * rounded_hertz(reported_frequency) - 1)) as nat
}

/// The wait that brings `now + compute_time + wait` onto the first refresh
/// boundary after `now + compute_time`, the boundaries being the points in
/// time that lie a multiple of `interval` away from `reference`.
pub open spec fn boundary_wait(interval: nat, reference: nat, compute_time: nat, now: nat) -> nat {
    (interval - (now + compute_time - reference) % (interval as int)) as nat
}

/// What a `Monitor` stands for.
pub struct MonitorModel {
    /// The reported refresh rate, in millihertz.
    pub reported_frequency: u32,
    /// A point in time that is taken for a refresh boundary, in nanoseconds.
    pub last_reported_timestamp: u128,
}

impl MonitorModel {
    /// The predictor holds a rate from which a refresh interval follows.
    pub open spec fn wf(self) -> bool {
        is_valid_frequency(self.reported_frequency)
    }

    /// The refresh interval in nanoseconds.
    pub open spec fn interval(self) -> nat {
        refresh_interval(self.reported_frequency)
    }

    /// How long to wait at `now` so that `compute_time` of work, begun after
    /// the wait, ends on a refresh boundary.
    pub open spec fn wait(self, compute_time: nat, now: nat) -> nat {
        boundary_wait(self.interval(), self.last_reported_timestamp as nat, compute_time, now)
    }

    /// The predictor after a new rate was offered to it.
    pub open spec fn with_frequency(self, reported_frequency: u32) -> Result<
        MonitorModel,
        PacerError,
    > {
        if is_valid_frequency(reported_frequency) {
            Ok(MonitorModel { reported_frequency, ..self })
        } else {
            Err(PacerError::InvalidConfiguration)
        }
    }
}

/// The refresh predictor of one display.
pub struct Monitor {
    reported_frequency: u32,
    last_reported_timestamp: u128,
}

impl View for Monitor {
    type V = MonitorModel;

    closed spec fn view(&self) -> MonitorModel {
        MonitorModel {
            reported_frequency: self.reported_frequency,
            last_reported_timestamp: self.last_reported_timestamp,
        }
    }
}

/// The refresh interval is positive, no longer than `LONGEST_INTERVAL`, and
/// the exact interval of `rounded_hertz - 1/2` hertz cut to whole
/// nanoseconds: a whole number of them fits into two seconds
/// `2 * rounded_hertz - 1` times, and one nanosecond more does not.
pub proof fn lemma_refresh_interval(reported_frequency: u32)
    requires
        is_valid_frequency(reported_frequency),
    ensures
        0 < refresh_interval(reported_frequency) <= LONGEST_INTERVAL,
        refresh_interval(reported_frequency) * (2 * rounded_hertz(reported_frequency) - 1) <= 2
            * NANOS_PER_SECOND,
        2 * NANOS_PER_SECOND < (refresh_interval(reported_frequency) + 1) * (2 * rounded_hertz(
            reported_frequency,
        ) - 1),
{
    let cycles: int = 2 * rounded_hertz(reported_frequency) - 1;
    assert(1 <= cycles <= 8_589_933);
    let span: int = 2_000_000_000;
    lemma_fundamental_div_mod(span, cycles);
    assert(0 <= span % cycles < cycles);
    assert(0 < span / cycles <= span && (span / cycles) * cycles <= span && span < (span / cycles
        + 1) * cycles) by (nonlinear_arith)
        requires
            1 <= cycles <= 8_589_933,
            span == 2_000_000_000,
            span == cycles * (span / cycles) + span % cycles,
            0 <= span % cycles < cycles,
    ;
}

/// Going back `back` nanoseconds from a boundary leaves the phase that fills
/// the rest of an interval.
proof fn lemma_phase_before_reference(back: int, interval: int)
    requires
        0 <= back,
        0 < interval,
    ensures
        (-back) % interval == if back % interval == 0 {
            0
        } else {
            interval - back % interval
        },
{
    let whole: int = back / interval;
    let rest: int = back % interval;
    lemma_fundamental_div_mod(back, interval);
    if rest == 0 {
        assert(-back == (-whole) * interval + 0) by (nonlinear_arith)
            requires
                back == interval * whole + rest,
                rest == 0,
        ;
        lemma_fundamental_div_mod_converse(-back, interval, -whole, 0);
    } else {
        assert(-back == (-whole - 1) * interval + (interval - rest)) by (nonlinear_arith)
            requires
                back == interval * whole + rest,
        ;
        lemma_fundamental_div_mod_converse(-back, interval, -whole - 1, interval - rest);
    }
}

/// Whatever the accepted rate, the work still to do and the time: the wait is
/// above zero and no longer than one refresh interval, the work that begins
/// after it ends a whole number of intervals away from the reference
/// boundary, and the wait is shorter than an interval unless the work would
/// end on a boundary without it.
pub proof fn law_wait_ends_on_boundary(monitor: MonitorModel, compute_time: nat, now: nat)
    requires
        monitor.wf(),
    ensures
        0 < monitor.wait(compute_time, now) <= monitor.interval(),
        (now + compute_time + monitor.wait(compute_time, now) - monitor.last_reported_timestamp)
            % (monitor.interval() as int) == 0,
        (now + compute_time - monitor.last_reported_timestamp) % (monitor.interval() as int) != 0
            ==> monitor.wait(compute_time, now) < monitor.interval(),
{
    lemma_refresh_interval(monitor.reported_frequency);
    let interval: int = monitor.interval() as int;
    let elapsed: int = now + compute_time - monitor.last_reported_timestamp;
    let whole: int = elapsed / interval;
    let phase: int = elapsed % interval;
    lemma_fundamental_div_mod(elapsed, interval);
    assert(elapsed + (interval - phase) == (whole + 1) * interval + 0) by (nonlinear_arith)
        requires
            elapsed == interval * whole + phase,
    ;
    lemma_fundamental_div_mod_converse(elapsed + (interval - phase), interval, whole + 1, 0);
}

/// No shorter wait above zero would do: the work that begins after one ends
/// short of the boundary.
pub proof fn law_wait_is_shortest(
    monitor: MonitorModel,
    compute_time: nat,
    now: nat,
    shorter: nat,
)
    requires
        monitor.wf(),
        0 < shorter < monitor.wait(compute_time, now),
    ensures
        (now + compute_time + shorter - monitor.last_reported_timestamp) % (
        monitor.interval() as int) != 0,
{
    lemma_refresh_interval(monitor.reported_frequency);
    let interval: int = monitor.interval() as int;
    let elapsed: int = now + compute_time - monitor.last_reported_timestamp;
    let whole: int = elapsed / interval;
    let phase: int = elapsed % interval;
    lemma_fundamental_div_mod(elapsed, interval);
    assert(elapsed + shorter == whole * interval + (phase + shorter)) by (nonlinear_arith)
        requires
            elapsed == interval * whole + phase,
    ;
    lemma_fundamental_div_mod_converse(elapsed + shorter, interval, whole, phase + shorter);
}

impl Monitor {
    /// Every predictor holds a rate from which a refresh interval follows.
    #[verifier::type_invariant]
    spec fn holds_valid_frequency(&self) -> bool {
        is_valid_frequency(self.reported_frequency)
    }

    /// A predictor for a display that reports `reported_frequency`
    /// millihertz and is taken to have refreshed at
    /// `last_reported_timestamp`. A rate below `LOWEST_FREQUENCY` is refused.
    pub fn new(reported_frequency: u32, last_reported_timestamp: u128) -> (made: Result<
        Monitor,
        PacerError,
    >)
        ensures
            is_valid_frequency(reported_frequency) ==> made is Ok && made->Ok_0@ == (MonitorModel {
                reported_frequency,
                last_reported_timestamp,
            }) && made->Ok_0@.wf(),
            !is_valid_frequency(reported_frequency) ==> made == Err::<Monitor, PacerError>(
                PacerError::InvalidConfiguration,
            ),
    {
        if reported_frequency >= LOWEST_FREQUENCY {
            Ok(Monitor { reported_frequency, last_reported_timestamp })
        } else {
            Err(PacerError::InvalidConfiguration)
        }
    }

    /// Replaces the reported rate, from the next prediction on. A rate below
    /// `LOWEST_FREQUENCY` is refused, and the predictor keeps the rate it had.
    pub fn set_frequency(&mut self, reported_frequency: u32) -> (done: Result<(), PacerError>)
        ensures
            match old(self)@.with_frequency(reported_frequency) {
                Ok(next) => done is Ok && final(self)@ == next,
                Err(refusal) => done == Err::<(), PacerError>(refusal) && final(self)@ == old(
                    self,
                )@,
            },
            !is_valid_frequency(reported_frequency) ==> done == Err::<(), PacerError>(
                PacerError::InvalidConfiguration,
            ) && final(self)@ == old(self)@,
            final(self)@.wf(),
    {
        proof {
            use_type_invariant(&*self);
        }
        if reported_frequency >= LOWEST_FREQUENCY {
            self.reported_frequency = reported_frequency;
            Ok(())
        } else {
            Err(PacerError::InvalidConfiguration)
        }
    }

    /// The reported refresh rate, in millihertz. It is one that the
    /// predictor accepts.
    pub fn reported_frequency(&self) -> (rate: u32)
        ensures
            rate == self@.reported_frequency,
            self@.wf(),
    {
        proof {
            use_type_invariant(self);
        }
        self.reported_frequency
    }

    /// The point in time, in nanoseconds, that is taken for a refresh
    /// boundary.
    pub fn last_reported_timestamp(&self) -> (boundary: u128)
        ensures
            boundary == self@.last_reported_timestamp,
    {
        self.last_reported_timestamp
    }

    /// The refresh interval in nanoseconds.
    pub fn refresh_interval(&self) -> (interval: u64)
        ensures
            interval == self@.interval(),
            0 < interval <= LONGEST_INTERVAL,
    {
        proof {
            use_type_invariant(self);
            lemma_refresh_interval(self.reported_frequency);
        }
        let rounded: u64 = (self.reported_frequency as u64 + 500) / MILLIHERTZ_PER_HERTZ;
        2 * NANOS_PER_SECOND / (2 * rounded - 1)
    }

    /// How long to wait at `now` so that `compute_time` nanoseconds of work,
    /// begun after the wait, end on a refresh boundary: the wait is above
    /// zero and no longer than one refresh interval, and a whole interval
    /// where the work would end on a boundary without any wait.
    pub fn duration_until_next_hittable_timestamp(&self, compute_time: u128, now: u128) -> (wait:
        u64)
        ensures
            wait == self@.wait(compute_time as nat, now as nat),
            0 < wait <= self@.interval() <= LONGEST_INTERVAL,
    {
        let interval: u64 = self.refresh_interval();
        let wide: u128 = interval as u128;
        let work: u64 = (compute_time % wide) as u64;
        let since: u64 = if now >= self.last_reported_timestamp {
            ((now - self.last_reported_timestamp) % wide) as u64
        } else {
            let back: u64 = ((self.last_reported_timestamp - now) % wide) as u64;
            proof {
                lemma_phase_before_reference(self.last_reported_timestamp - now, interval as int);
            }
            if back == 0 {
                0
            } else {
                interval - back
            }
        };
        let phase: u64 = (work + since) % interval;
        proof {
            let elapsed: int = now - self.last_reported_timestamp;
            assert(since == elapsed % (interval as int));
            lemma_add_mod_noop(compute_time as int, elapsed, interval as int);
            assert(compute_time + elapsed == now + compute_time - self.last_reported_timestamp);
        }
        interval - phase
    }
}

} // verus!

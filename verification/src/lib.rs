//! Frame-rate pacing for real-time loops.
//!
//! An [`FpsClock`] keeps a loop running at a fixed cadence: it remembers the
//! moment the previous iteration ended and, at the end of each iteration,
//! works out how much of the target frame period is left (the *slack*) and how
//! long the caller should suspend itself to hit the cadence.
//!
//! The clock holds only plain nanosecond values. Reading the host's monotonic
//! clock and actually suspending the thread are left to the embedding loop,
//! which hands each fresh monotonic reading in: that way every decision the
//! clock makes — the period derived from the rate, the slack, the sleep
//! amount, the stored timestamp — is verified arithmetic. One pacing step is
//! [`FpsClock::tick`] (decide), then the caller suspends for the decided
//! amount, then [`FpsClock::record_tick`] (store a fresh reading, so that
//! oversleep is never carried into the next interval: no drift correction, by
//! design).

use vstd::prelude::*;

verus! {

/// Nanoseconds in one second.
pub const NANOS_PER_SECOND: u64 = 1_000_000_000;

/// The largest accepted rate: above one cycle per nanosecond, the target
/// period would fall below one whole nanosecond and cannot be represented.
pub const MAX_FPS: u32 = 1_000_000_000;

/// The ideal duration of one loop iteration, in whole nanoseconds, at a rate
/// of `fps` frames per second.
pub open spec fn period_nanos_of(fps: int) -> int {
    (NANOS_PER_SECOND as int) / fps
}

/// The slack of one pacing step: the target period minus the time that
/// actually elapsed. Positive means the iteration finished early by that many
/// nanoseconds; negative or zero means it overran the period.
pub open spec fn slack_nanos_of(period: int, elapsed: int) -> int {
    period - elapsed
}

/// How long a pacing step asks the caller to suspend: the slack when it is
/// positive, otherwise nothing.
pub open spec fn sleep_nanos_of(slack: int) -> int {
    if slack > 0 {
        slack
    } else {
        0
    }
}

/// What one pacing step decided.
#[derive(Clone, Copy, Debug)]
pub struct TickDecision {
    /// Target period minus measured elapsed time, in nanoseconds, signed.
    /// This is the value a caller watches for frame-timing diagnostics.
    pub slack_nanos: i128,
    /// The suspension asked of the caller, in nanoseconds: the slack when the
    /// iteration finished early, zero on an overrun. Never exceeds the period.
    pub sleep_nanos: u64,
}

/// A pacing clock: the target rate, the period derived from it once, and the
/// monotonic timestamp (in nanoseconds) of the latest completed pacing step.
#[derive(Debug)]
pub struct FpsClock {
    /// The configured rate, in frames per second; never changed after
    /// construction.
    pub fps: u32,
    /// The target frame period, in whole nanoseconds: `NANOS_PER_SECOND / fps`,
    /// computed once at construction.
    pub target_period_nanos: u64,
    /// The monotonic reading stored at construction or by the latest
    /// [`FpsClock::record_tick`]; intervals are measured from here.
    pub last_tick_nanos: u64,
}

/// The clock that construction yields, as a spec value.
pub open spec fn spec_new(fps: u32, now_nanos: u64) -> FpsClock {
    FpsClock {
        fps,
        target_period_nanos: period_nanos_of(fps as int) as u64,
        last_tick_nanos: now_nanos,
    }
}

/// One completed pacing step as a spec-level transition: only the stored
/// timestamp moves, the configuration stays.
pub open spec fn spec_ticked(c: FpsClock, now_nanos: u64) -> FpsClock {
    FpsClock {
        fps: c.fps,
        target_period_nanos: c.target_period_nanos,
        last_tick_nanos: now_nanos,
    }
}

/// The clock after a whole run of completed pacing steps, one per monotonic
/// reading in `nows`, in order.
pub open spec fn spec_run(c: FpsClock, nows: Seq<u64>) -> FpsClock
    decreases nows.len(),
{
    if nows.len() == 0 {
        c
    } else {
        spec_run(spec_ticked(c, nows[0]), nows.drop_first())
    }
}

/// The readings of a run are fresh: each comes from a monotonic clock read no
/// earlier than the reading it replaces, starting from the stored timestamp
/// `last0`.
pub open spec fn fresh_readings(last0: u64, nows: Seq<u64>) -> bool {
    forall|i: int|
        0 <= i < nows.len() ==> #[trigger] nows[i] >= if i == 0 {
            last0
        } else {
            nows[i - 1]
        }
}

impl FpsClock {
    /// Well-formed: the rate is positive and representable, and the stored
    /// period is the one derived from it — in particular the period is itself
    /// at least one nanosecond.
    pub open spec fn wf(self) -> bool {
        &&& 1 <= self.fps <= MAX_FPS
        &&& self.target_period_nanos == period_nanos_of(self.fps as int)
    }

    /// Constructs a clock for the given rate, storing `now_nanos`, the
    /// caller's current monotonic reading, as the moment pacing starts.
    ///
    /// A rate of zero would divide by zero in the period, and one above
    /// [`MAX_FPS`] would leave no whole nanosecond of period: both are ruled
    /// out here; [`FpsClock::try_new`] rejects them with `None` instead.
    pub fn new(fps: u32, now_nanos: u64) -> (clock: FpsClock)
        requires
            1 <= fps <= MAX_FPS,
        ensures
            clock == spec_new(fps, now_nanos),
            clock.wf(),
    {
        proof {
            lemma_period_nanos_bounds(fps as int);
        }
        FpsClock {
            fps,
            target_period_nanos: NANOS_PER_SECOND / (fps as u64),
            last_tick_nanos: now_nanos,
        }
    }

    /// Checked construction: `Some` exactly when the rate is positive and
    /// representable, `None` otherwise.
    pub fn try_new(fps: u32, now_nanos: u64) -> (clock: Option<FpsClock>)
        ensures
            clock == if 1 <= fps <= MAX_FPS {
                Some(spec_new(fps, now_nanos))
            } else {
                None::<FpsClock>
            },
    {
        if 1 <= fps && fps <= MAX_FPS {
            Some(FpsClock::new(fps, now_nanos))
        } else {
            None
        }
    }

    /// Returns the rate this clock was configured with. Pure: no call, and in
    /// particular no pacing step, ever changes it.
    pub fn fps(&self) -> (r: u32)
        ensures
            r == self.fps,
    {
        self.fps
    }

    /// The pacing decision at the fresh monotonic reading `now_nanos`: the
    /// slack (target period minus the time elapsed since the last completed
    /// step, signed) and the suspension to perform — the slack itself when the
    /// iteration finished early, none on an overrun.
    ///
    /// This only decides; it changes nothing. After suspending for
    /// `sleep_nanos`, the caller completes the step with
    /// [`FpsClock::record_tick`] and a fresh reading.
    pub fn tick(&self, now_nanos: u64) -> (d: TickDecision)
        requires
            self.last_tick_nanos <= now_nanos,
        ensures
            d.slack_nanos == slack_nanos_of(
                self.target_period_nanos as int,
                now_nanos - self.last_tick_nanos,
            ),
            d.sleep_nanos == sleep_nanos_of(d.slack_nanos as int),
            d.slack_nanos > 0 <==> now_nanos - self.last_tick_nanos < self.target_period_nanos,
            d.sleep_nanos <= self.target_period_nanos,
    {
        let elapsed: u64 = now_nanos - self.last_tick_nanos;
        let slack: i128 = (self.target_period_nanos as i128) - (elapsed as i128);
        let sleep_nanos: u64 = if slack > 0 {
            slack as u64
        } else {
            0
        };
        TickDecision { slack_nanos: slack, sleep_nanos }
    }

    /// Completes a pacing step: stores `now_nanos`, the fresh monotonic
    /// reading taken after the suspension, as the start of the next interval.
    /// Each interval is measured from the moment the step completed, never
    /// from an ideal schedule: oversleep is not compensated for.
    ///
    /// The reading must be fresh — no earlier than the stored one; a monotonic
    /// clock read after the stored reading was taken guarantees this. The
    /// configuration is untouched, so the stored timestamp never decreases.
    pub fn record_tick(&mut self, now_nanos: u64)
        requires
            old(self).last_tick_nanos <= now_nanos,
        ensures
            *final(self) == spec_ticked(*old(self), now_nanos),
            final(self).last_tick_nanos >= old(self).last_tick_nanos,
            old(self).wf() ==> final(self).wf(),
    {
        self.last_tick_nanos = now_nanos;
    }
}

/// For a representable positive rate the derived period is itself positive —
/// between one nanosecond (at [`MAX_FPS`]) and one second (at one frame per
/// second).
pub proof fn lemma_period_nanos_bounds(fps: int)
    requires
        1 <= fps <= MAX_FPS,
    ensures
        1 <= period_nanos_of(fps) <= NANOS_PER_SECOND,
{
    vstd::arithmetic::div_mod::lemma_div_non_zero(NANOS_PER_SECOND as int, fps);
    vstd::arithmetic::div_mod::lemma_div_is_ordered_by_denominator(
        NANOS_PER_SECOND as int,
        1,
        fps,
    );
    vstd::arithmetic::div_mod::lemma_div_basics(NANOS_PER_SECOND as int);
}

/// Law: immediately after construction, a pacing decision taken at the very
/// reading that construction stored finds no elapsed time, so the slack is the
/// whole (positive) target period and all of it is slept.
pub proof fn lemma_first_tick_full_period(fps: u32, now_nanos: u64)
    requires
        1 <= fps <= MAX_FPS,
    ensures
        ({
            let c = spec_new(fps, now_nanos);
            let slack = slack_nanos_of(c.target_period_nanos as int, 0);
            slack == c.target_period_nanos > 0 && sleep_nanos_of(slack) == c.target_period_nanos
        }),
{
    lemma_period_nanos_bounds(fps as int);
}

/// Law: a workload of `w` nanoseconds against a target period of `period`
/// nanoseconds. Under the period, the slack is exactly the remainder
/// `period - w`, it is positive, and all of it is slept; at or over the
/// period, the slack is non-positive and nothing is slept.
pub proof fn lemma_slack_against_workload(period: int, w: int)
    requires
        0 <= period,
        0 <= w,
    ensures
        w < period ==> slack_nanos_of(period, w) == period - w > 0 && sleep_nanos_of(
            slack_nanos_of(period, w),
        ) == period - w,
        w >= period ==> slack_nanos_of(period, w) <= 0 && sleep_nanos_of(
            slack_nanos_of(period, w),
        ) == 0,
{
}

/// Law: the configuration is idempotent — no run of pacing steps, however
/// long, changes the rate or the derived period.
pub proof fn lemma_config_constant(c: FpsClock, nows: Seq<u64>)
    ensures
        spec_run(c, nows).fps == c.fps,
        spec_run(c, nows).target_period_nanos == c.target_period_nanos,
    decreases nows.len(),
{
    if nows.len() > 0 {
        lemma_config_constant(spec_ticked(c, nows[0]), nows.drop_first());
    }
}

/// After a run, the stored timestamp is the run's final reading — or still the
/// original one when the run is empty.
pub proof fn lemma_run_last(c: FpsClock, nows: Seq<u64>)
    ensures
        spec_run(c, nows).last_tick_nanos == if nows.len() == 0 {
            c.last_tick_nanos
        } else {
            nows[nows.len() - 1]
        },
    decreases nows.len(),
{
    if nows.len() > 0 {
        lemma_run_last(spec_ticked(c, nows[0]), nows.drop_first());
    }
}

/// Fresh readings are at least the stored timestamp the run starts from.
proof fn lemma_fresh_above_start(last0: u64, nows: Seq<u64>, k: int)
    requires
        fresh_readings(last0, nows),
        0 <= k < nows.len(),
    ensures
        last0 <= nows[k],
    decreases k,
{
    if k > 0 {
        lemma_fresh_above_start(last0, nows, k - 1);
    }
}

/// Fresh readings come out sorted: a later reading is never smaller.
proof fn lemma_fresh_sorted(last0: u64, nows: Seq<u64>, i: int, j: int)
    requires
        fresh_readings(last0, nows),
        0 <= i <= j < nows.len(),
    ensures
        nows[i] <= nows[j],
    decreases j - i,
{
    if i < j {
        lemma_fresh_sorted(last0, nows, i, j - 1);
    }
}

/// Law: monotonicity — across any run of pacing steps whose readings are
/// fresh, the stored "last tick" timestamp never decreases: after any later
/// prefix of the run it is at least what it was after any earlier prefix.
pub proof fn lemma_last_tick_monotonic(c: FpsClock, nows: Seq<u64>, i: int, j: int)
    requires
        fresh_readings(c.last_tick_nanos, nows),
        0 <= i <= j <= nows.len(),
    ensures
        spec_run(c, nows.take(i)).last_tick_nanos <= spec_run(c, nows.take(j)).last_tick_nanos,
{
    lemma_run_last(c, nows.take(i));
    lemma_run_last(c, nows.take(j));
    if i == 0 {
        if j > 0 {
            lemma_fresh_above_start(c.last_tick_nanos, nows, j - 1);
        }
    } else {
        lemma_fresh_sorted(c.last_tick_nanos, nows, i - 1, j - 1);
    }
}

} // verus!

//! Multi-cadence scheduler.
//!
//! Two monotonic counters, one advanced per render pass and one per logic
//! pass, each wrapping only at the numeric type's range. The derived
//! trigger decides, once per logic pass, whether telemetry is resampled:
//! an expensive telemetry query thereby runs far less often than the
//! render loop.

use vstd::prelude::*;

verus! {

/// Owns the frame and logic counters and derives the refresh trigger.
pub struct Scheduler {
    frame_count: u64,
    logic_count: u64,
}

/// Mathematical model of a [`Scheduler`]: the two counter values.
pub ghost struct SchedulerV {
    pub frame_count: u64,
    pub logic_count: u64,
}

impl View for Scheduler {
    type V = SchedulerV;

    closed spec fn view(&self) -> SchedulerV {
        SchedulerV { frame_count: self.frame_count, logic_count: self.logic_count }
    }
}

/// A counter's successor: one more, wrapping at the type's range.
pub open spec fn spec_wrapping_next(n: u64) -> u64 {
    if n == u64::MAX {
        0
    } else {
        (n + 1) as u64
    }
}

/// The refresh trigger: telemetry is resampled on exactly the logic counts
/// that are multiples of the divisor.
pub open spec fn spec_should_refresh(logic_count: u64, divisor: u64) -> bool {
    logic_count % divisor == 0
}

impl Scheduler {
    /// A scheduler with both counters at zero.
    pub fn new() -> (s: Scheduler)
        ensures
            s@.frame_count == 0,
            s@.logic_count == 0,
    {
        Scheduler { frame_count: 0, logic_count: 0 }
    }

    /// Advance the logic counter by one pass.
    pub fn tick_logic(&mut self)
        ensures
            final(self)@.logic_count == spec_wrapping_next(old(self)@.logic_count),
            final(self)@.frame_count == old(self)@.frame_count,
    {
        self.logic_count = if self.logic_count == u64::MAX {
            0
        } else {
            self.logic_count + 1
        };
    }

    /// Advance the frame counter by one render pass.
    pub fn tick_frame(&mut self)
        ensures
            final(self)@.frame_count == spec_wrapping_next(old(self)@.frame_count),
            final(self)@.logic_count == old(self)@.logic_count,
    {
        self.frame_count = if self.frame_count == u64::MAX {
            0
        } else {
            self.frame_count + 1
        };
    }

    /// The current logic count.
    pub fn logic_count(&self) -> (n: u64)
        ensures
            n == self@.logic_count,
    {
        self.logic_count
    }

    /// The current frame count.
    pub fn frame_count(&self) -> (n: u64)
        ensures
            n == self@.frame_count,
    {
        self.frame_count
    }

    /// Whether this logic pass resamples telemetry: true exactly on the
    /// logic counts that are multiples of the refresh divisor.
    pub fn should_refresh_telemetry(&self, divisor: u32) -> (r: bool)
        requires
            divisor >= 1,
        ensures
            r == spec_should_refresh(self@.logic_count, divisor as u64),
    {
        self.logic_count % (divisor as u64) == 0
    }
}

/// The refresh cadence law: for any divisor `d >= 1`, the trigger holds at
/// a logic count exactly when that count is a whole number of divisors,
/// that is at counts `0, d, 2d, 3d, ...` and at no others.
pub proof fn lemma_refresh_cadence(n: u64, d: u64)
    requires
        d >= 1,
    ensures
        spec_should_refresh(n, d) <==> exists|k: int| 0 <= k && n == #[trigger] (d * k),
{
    if spec_should_refresh(n, d) {
        vstd::arithmetic::div_mod::lemma_fundamental_div_mod(n as int, d as int);
        assert(n == d * ((n as int) / (d as int)) + (n as int) % (d as int));
        assert(n == d * ((n as int) / (d as int)));
        vstd::arithmetic::div_mod::lemma_div_pos_is_pos(n as int, d as int);
        assert(0 <= (n as int) / (d as int));
    }
    if exists|k: int| 0 <= k && n == #[trigger] (d * k) {
        let k = choose|k: int| 0 <= k && n == #[trigger] (d * k);
        assert(d * k == k * d) by (nonlinear_arith);
        vstd::arithmetic::div_mod::lemma_mod_multiples_basic(k, d as int);
        assert((k * (d as int)) % (d as int) == 0);
    }
}

} // verus!

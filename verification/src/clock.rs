use vstd::prelude::*;

verus! {

pub const MICROS_PER_SECOND: u64 = 1000000;

/// Fixed-timestep accumulator. The host feeds in elapsed wall time; the
/// driver answers how many CPU steps (configurable rate) and timer ticks
/// (fixed 60Hz) are due, carrying the remainder so rounding never compounds.
///
/// Accumulators hold rate-scaled microseconds: one unit of work falls due
/// for every full `MICROS_PER_SECOND` accumulated.
pub struct ClockDriver {
    pub cpu_acc: u64,
    pub timer_acc: u64,
    pub cpu_rate_hz: u64,
    pub max_steps_per_frame: u64,
}

impl ClockDriver {
    pub open spec fn wf(self) -> bool {
        &&& self.cpu_acc < 1000000
        &&& self.timer_acc < 1000000
        &&& 1 <= self.cpu_rate_hz <= 1000000
        &&& 1 <= self.max_steps_per_frame <= 1000000
    }

    pub fn new(cpu_rate_hz: u64, max_steps_per_frame: u64) -> (r: ClockDriver)
        requires
            1 <= cpu_rate_hz <= 1000000,
            1 <= max_steps_per_frame <= 1000000,
        ensures
            r.wf(),
            r.cpu_acc == 0,
            r.timer_acc == 0,
            r.cpu_rate_hz == cpu_rate_hz,
            r.max_steps_per_frame == max_steps_per_frame,
    {
        ClockDriver { cpu_acc: 0, timer_acc: 0, cpu_rate_hz, max_steps_per_frame }
    }

    /// Accounts `elapsed_micros` of wall time and returns `(steps, ticks)`:
    /// how many CPU steps and 60Hz timer ticks are now due. CPU steps are
    /// capped per frame (dropping the excess) so a long pause cannot stall
    /// the host; timer ticks carry their remainder exactly.
    pub fn advance(&mut self, elapsed_micros: u64) -> (r: (u64, u64))
        requires
            old(self).wf(),
            elapsed_micros <= 10000000,
        ensures
            final(self).wf(),
            final(self).cpu_rate_hz == old(self).cpu_rate_hz,
            final(self).max_steps_per_frame == old(self).max_steps_per_frame,
            ({
                let due = old(self).cpu_acc + elapsed_micros * old(self).cpu_rate_hz;
                if due / 1000000 > old(self).max_steps_per_frame {
                    r.0 == old(self).max_steps_per_frame && final(self).cpu_acc == 0
                } else {
                    r.0 == due / 1000000 && final(self).cpu_acc == due % 1000000
                }
            }),
            ({
                let tdue = old(self).timer_acc + elapsed_micros * 60;
                r.1 == tdue / 1000000 && final(self).timer_acc == tdue % 1000000
            }),
    {
        proof {
            assert(elapsed_micros * self.cpu_rate_hz <= 10000000 * 1000000) by (nonlinear_arith)
                requires
                    elapsed_micros <= 10000000,
                    self.cpu_rate_hz <= 1000000,
            ;
        }
        let due: u64 = self.cpu_acc + elapsed_micros * self.cpu_rate_hz;
        let mut steps: u64 = due / MICROS_PER_SECOND;
        if steps > self.max_steps_per_frame {
            steps = self.max_steps_per_frame;
            self.cpu_acc = 0;
        } else {
            self.cpu_acc = due % MICROS_PER_SECOND;
        }
        let tdue: u64 = self.timer_acc + elapsed_micros * 60;
        let ticks: u64 = tdue / MICROS_PER_SECOND;
        self.timer_acc = tdue % MICROS_PER_SECOND;
        (steps, ticks)
    }
}

} // verus!

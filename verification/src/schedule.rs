//! The run schedule: one full training run per seed, then the report.
//!
//! The trainer repeats the same fixed-epoch training run once per seed in a
//! fixed list, records the elapsed milliseconds of each run, and finally
//! writes the runtime report. The numeric work of a run happens outside this
//! crate; the schedule decides what to do next — which seed to run, or, when
//! all runs are recorded, the exact bytes of the report — and the driver
//! only performs it.

use vstd::prelude::*;

use crate::report::render_report;
use crate::report::report_bytes;

verus! {

/// How many epochs one training run performs.
pub const EPOCHS: usize = 100000;

/// The seeds, in the order their runs happen and their runtimes are
/// reported.
pub open spec fn seed_list() -> Seq<u64> {
    seq![2u64, 10u64, 24u64, 45u64, 98u64, 120u64, 350u64, 600u64, 899u64, 1000u64]
}

/// The seed list as a vector.
pub fn seeds() -> (s: Vec<u64>)
    ensures
        s@ == seed_list(),
{
    let mut s: Vec<u64> = Vec::new();
    s.push(2);
    s.push(10);
    s.push(24);
    s.push(45);
    s.push(98);
    s.push(120);
    s.push(350);
    s.push(600);
    s.push(899);
    s.push(1000);
    assert(s@ =~= seed_list());
    s
}

/// What the driver must do next.
#[derive(Debug)]
pub enum NextStep {
    /// Run one full training with this seed and record the elapsed
    /// milliseconds.
    Train(u64),
    /// All runs are recorded: write these bytes as the runtime report.
    Report(Vec<u8>),
}

/// The state of one pass over the seed list: the runtimes recorded so far,
/// one per finished run.
pub struct RunSchedule {
    seeds: Vec<u64>,
    runtimes: Vec<u128>,
}

impl RunSchedule {
    /// The runtimes recorded so far, in run order.
    pub closed spec fn recorded(self) -> Seq<u128> {
        self.runtimes@
    }

    /// The schedule walks the fixed seed list and never records more runs
    /// than there are seeds.
    pub closed spec fn wf(self) -> bool {
        self.seeds@ == seed_list() && self.runtimes@.len() <= seed_list().len()
    }

    /// A fresh schedule: no run has happened yet.
    pub fn new() -> (s: Self)
        ensures
            s.wf(),
            s.recorded() == Seq::<u128>::empty(),
    {
        let runtimes: Vec<u128> = Vec::new();
        assert(runtimes@ =~= Seq::<u128>::empty());
        RunSchedule { seeds: seeds(), runtimes }
    }

    /// How many runs are recorded.
    pub fn completed_runs(&self) -> (n: usize)
        ensures
            n == self.recorded().len(),
    {
        self.runtimes.len()
    }

    /// What to do next: train with the first seed that has no runtime yet,
    /// or, when every seed has one, write the report of the recorded
    /// runtimes.
    pub fn next(&self) -> (step: NextStep)
        requires
            self.wf(),
        ensures
            self.recorded().len() < seed_list().len() ==> (step matches NextStep::Train(s)
                && s == seed_list()[self.recorded().len() as int]),
            self.recorded().len() == seed_list().len() ==> (step matches NextStep::Report(bytes)
                && bytes@ == report_bytes(self.recorded())),
    {
        if self.runtimes.len() < self.seeds.len() {
            NextStep::Train(self.seeds[self.runtimes.len()])
        } else {
            NextStep::Report(render_report(&self.runtimes))
        }
    }

    /// Records the elapsed milliseconds of the run that just finished.
    pub fn record(&mut self, elapsed_ms: u128)
        requires
            old(self).wf(),
            old(self).recorded().len() < seed_list().len(),
        ensures
            final(self).wf(),
            final(self).recorded() == old(self).recorded().push(elapsed_ms),
    {
        self.runtimes.push(elapsed_ms);
    }
}

} // verus!

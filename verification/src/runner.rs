use crate::gacha::GenshinImpactGachaModel;
use crate::hist::joint_empty;
use crate::hist::scalar_empty;
use crate::results::fills;
use crate::results::trial_recorded;
use crate::results::SimulationResult;
use vstd::prelude::*;

verus! {

/// Whether the current run has used up its trial budget; a runner without
/// a budget never does.
pub open spec fn limit_reached(t: SimulationThread) -> bool {
    match t.sim_length {
        Some(n) => t.sim_count >= n,
        None => false,
    }
}

/// The simulation driver. This is the worker's whole decision logic, one
/// batch per [`Self::step`]: a host loop (a background thread) repeatedly
/// calls `step` while it returns true, so stopping is observed at a batch
/// boundary, never inside one, and a results reader between two steps sees
/// whole trials only.
pub struct SimulationThread {
    /// The owned pull engine the run draws from.
    pub model: GenshinImpactGachaModel,
    /// Pulls per trial: every step runs one batch of this many pulls.
    pub pulls: u64,
    /// Trials to run before stopping on its own; unbounded when absent.
    pub sim_length: Option<u64>,
    /// Whether a run is active: set by `start`, cleared by `stop` or by the
    /// trial budget running out.
    pub running: bool,
    /// Trials completed in the current run.
    pub sim_count: u64,
    /// Where completed trials accumulate; it persists across runs.
    pub simulation_result: SimulationResult,
}

impl SimulationThread {
    /// The engine and the aggregate are both well formed.
    pub open spec fn wf(&self) -> bool {
        &&& self.model.wf()
        &&& self.simulation_result.wf()
    }

    /// A fresh idle runner over an empty aggregate.
    pub fn new(model: GenshinImpactGachaModel, pulls: u64, sim_length: Option<u64>) -> (r:
        SimulationThread)
        requires
            model.wf(),
        ensures
            r.wf(),
            r.model == model,
            r.pulls == pulls,
            r.sim_length == sim_length,
            !r.running,
            r.sim_count == 0,
            r.simulation_result.simulation_count == 0,
            r.simulation_result.featured() == scalar_empty(),
            r.simulation_result.standard() == scalar_empty(),
            r.simulation_result.total() == scalar_empty(),
            r.simulation_result.joint() == joint_empty(),
            r.simulation_result.ftd_range == (0u64, 0u64),
            r.simulation_result.std_range == (0u64, 0u64),
            r.simulation_result.sim_duration == 0,
    {
        SimulationThread {
            model,
            pulls,
            sim_length,
            running: false,
            sim_count: 0,
            simulation_result: SimulationResult::new(),
        }
    }

    /// Begins a run: marks the runner active and zeroes its trial counter.
    /// Starting while already active is a no-op, so a second worker can
    /// never be driving the same engine.
    pub fn start(&mut self)
        ensures
            final(self).running,
            final(self).model == old(self).model,
            final(self).pulls == old(self).pulls,
            final(self).sim_length == old(self).sim_length,
            final(self).simulation_result == old(self).simulation_result,
            !old(self).running ==> final(self).sim_count == 0,
            old(self).running ==> final(self).sim_count == old(self).sim_count,
    {
        if !self.running {
            self.running = true;
            self.sim_count = 0;
        }
    }

    /// One worker iteration: when the runner was stopped, does nothing at
    /// all — a stop is observed before any further pull; when the trial
    /// budget is spent, goes idle without touching the results; otherwise
    /// runs one batch, folds its tally into the aggregate and reports that
    /// the loop should go on.
    pub fn step(&mut self) -> (more: bool)
        requires
            old(self).wf(),
            old(self).simulation_result.simulation_count < u64::MAX,
            old(self).sim_count < u64::MAX,
            old(self).model.counter5 + old(self).pulls <= u64::MAX,
            old(self).model.counter4 + old(self).pulls <= u64::MAX,
        ensures
            final(self).wf(),
            final(self).pulls == old(self).pulls,
            final(self).sim_length == old(self).sim_length,
            more == final(self).running,
            !old(self).running ==> *final(self) == *old(self) && !more,
            old(self).running && limit_reached(*old(self)) ==> {
                &&& !final(self).running
                &&& final(self).sim_count == old(self).sim_count
                &&& final(self).model == old(self).model
                &&& final(self).simulation_result == old(self).simulation_result
            },
            old(self).running && !limit_reached(*old(self)) ==> {
                &&& final(self).running
                &&& final(self).sim_count == old(self).sim_count + 1
                &&& final(self).model.seed == old(self).model.seed
                &&& final(self).model.cr_model.version == old(self).model.cr_model.version
                &&& exists|f: u64, s: u64|
                    #[trigger] trial_recorded(
                        old(self).simulation_result,
                        final(self).simulation_result,
                        f,
                        s,
                    ) && f + s <= old(self).pulls
            },
    {
        if !self.running {
            return false;
        }
        let limit_hit = match self.sim_length {
            Some(n) => self.sim_count >= n,
            None => false,
        };
        if limit_hit {
            self.running = false;
            return false;
        }
        let tally = self.model.batch_pull_count(self.pulls);
        self.simulation_result.update(tally.0, tally.1);
        self.sim_count = self.sim_count + 1;
        proof {
            assert(trial_recorded(
                old(self).simulation_result,
                self.simulation_result,
                tally.0,
                tally.1,
            ) && tally.0 + tally.1 <= old(self).pulls);
        }
        true
    }

    /// Requests cancellation; the next `step` observes it and does nothing,
    /// so cancellation latency is bounded by the one batch in flight.
    pub fn stop(&mut self)
        ensures
            !final(self).running,
            final(self).model == old(self).model,
            final(self).pulls == old(self).pulls,
            final(self).sim_length == old(self).sim_length,
            final(self).sim_count == old(self).sim_count,
            final(self).simulation_result == old(self).simulation_result,
    {
        self.running = false;
    }

    /// Whether a run is active right now.
    pub fn is_running(&self) -> (r: bool)
        ensures
            r == self.running,
    {
        self.running
    }

    /// Records how long the finished run took, in nanoseconds, into the
    /// aggregate; the host loop measures the time, this stores it.
    pub fn record_duration(&mut self, nanos: u64)
        ensures
            final(self).simulation_result.sim_duration == nanos,
            final(self).simulation_result.featured() == old(self).simulation_result.featured(),
            final(self).simulation_result.standard() == old(self).simulation_result.standard(),
            final(self).simulation_result.total() == old(self).simulation_result.total(),
            final(self).simulation_result.joint() == old(self).simulation_result.joint(),
            final(self).simulation_result.simulation_count == old(
                self,
            ).simulation_result.simulation_count,
            final(self).simulation_result.ftd_range == old(self).simulation_result.ftd_range,
            final(self).simulation_result.std_range == old(self).simulation_result.std_range,
            final(self).model == old(self).model,
            final(self).pulls == old(self).pulls,
            final(self).sim_length == old(self).sim_length,
            final(self).running == old(self).running,
            final(self).sim_count == old(self).sim_count,
            old(self).wf() ==> final(self).wf(),
    {
        self.simulation_result.sim_duration = nanos;
    }

    /// A dense snapshot of everything aggregated so far. Safe to take
    /// between any two steps: it reflects whole trials only.
    pub fn get_current_results(&self) -> (r: SimulationResult)
        ensures
            fills(self.simulation_result, r),
            self.wf() ==> r.wf(),
    {
        self.simulation_result.fill_range()
    }
}

} // verus!

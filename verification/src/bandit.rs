//! The decisions of the rule-selection run: how far a step improved the
//! best cost, when the run reports its progress, and when it stops.  The
//! run itself (choosing rules, running them, extracting) is driven by the
//! caller, which reports each step's extracted cost and e-graph size.

use vstd::prelude::*;

verus! {

/// The most steps a run takes.
pub const MAX_STEPS: usize = 200;

/// How many rules each step runs.
pub const SUBSET_SIZE: usize = 4;

/// How many steps in a row without improvement end the run.
pub const PATIENCE: usize = 30;

/// The node limit each step's rewriting is given.
pub const NODE_LIMIT: usize = 200_000;

/// The e-graph size above which the run stops.
pub const NODE_STOP: usize = 190_000;

/// Progress is reported every this many steps.
pub const REPORT_EVERY: usize = 10;

/// The reward of a step: how much it lowered the best cost, and never less
/// than zero.
pub fn reward(old_cost: usize, new_cost: usize) -> (r: usize)
    ensures
        r == (if new_cost < old_cost {
            old_cost - new_cost
        } else {
            0
        }),
{
    if new_cost < old_cost {
        old_cost - new_cost
    } else {
        0
    }
}

/// Why a run stopped before its last step.
#[derive(Debug, Clone, Copy, PartialEq, Eq, Structural)]
pub enum StopReason {
    /// `PATIENCE` steps in a row did not improve the best cost.
    NoImprovement,
    /// The e-graph grew past `NODE_STOP` nodes.
    NodeLimit,
}

/// What the run decided after a step.
#[derive(Debug, Clone, Copy, PartialEq, Eq, Structural)]
pub struct Observation {
    /// The step's reward.
    pub reward: usize,
    /// Whether the step's cost is a new best.
    pub improved: bool,
    /// Whether progress is reported after this step.
    pub report: bool,
    /// Why the run stops here, if it does.
    pub stop: Option<StopReason>,
}

/// The state of a run: the index of the next step, the best cost so far,
/// how many steps in a row brought no improvement, and whether it stopped.
pub struct RewriteRun {
    step: usize,
    best_cost: usize,
    no_improve: usize,
    stopped: bool,
}

impl RewriteRun {
    #[verifier::type_invariant]
    spec fn counters_in_range(self) -> bool {
        self.no_improve <= self.step <= MAX_STEPS
    }

    /// The index of the next step.
    pub closed spec fn step(self) -> usize {
        self.step
    }

    /// The best cost so far.
    pub closed spec fn spec_best_cost(self) -> usize {
        self.best_cost
    }

    /// How many of the last steps in a row brought no improvement.
    pub closed spec fn no_improve(self) -> usize {
        self.no_improve
    }

    /// Whether the run stopped early.
    pub closed spec fn stopped(self) -> bool {
        self.stopped
    }

    /// Whether the run takes another step.
    pub open spec fn is_running(self) -> bool {
        !self.stopped() && self.step() < MAX_STEPS
    }

    /// Starts a run from an expression whose cost is `initial_cost`.
    pub fn new(initial_cost: usize) -> (run: Self)
        ensures
            run.step() == 0,
            run.spec_best_cost() == initial_cost,
            run.no_improve() == 0,
            !run.stopped(),
    {
        RewriteRun { step: 0, best_cost: initial_cost, no_improve: 0, stopped: false }
    }

    /// The best cost so far.
    pub fn best_cost(&self) -> (c: usize)
        ensures
            c == self.spec_best_cost(),
    {
        self.best_cost
    }

    /// The index of the next step, if the run takes one.
    pub fn next_step(&self) -> (s: Option<usize>)
        ensures
            s is Some <==> self.is_running(),
            s matches Some(i) ==> i == self.step(),
    {
        if !self.stopped && self.step < MAX_STEPS {
            Some(self.step)
        } else {
            None
        }
    }

    /// Passes over a step that could not run (the e-graph had no root).
    pub fn skip(&mut self)
        requires
            old(self).is_running(),
        ensures
            final(self).step() == old(self).step() + 1,
            final(self).spec_best_cost() == old(self).spec_best_cost(),
            final(self).no_improve() == old(self).no_improve(),
            final(self).stopped() == old(self).stopped(),
    {
        proof {
            use_type_invariant(&*self);
        }
        self.step = self.step + 1;
    }

    /// Records a step whose extracted cost is `cost_now`, after which the
    /// e-graph holds `egraph_size` nodes.  The reward is the improvement
    /// over the best cost so far; a lower cost becomes the best cost and
    /// restarts the count of steps without improvement; the run stops after
    /// `PATIENCE` such steps in a row, or when the e-graph grew past
    /// `NODE_STOP` nodes.
    pub fn observe(&mut self, cost_now: usize, egraph_size: usize) -> (o: Observation)
        requires
            old(self).is_running(),
        ensures
            o.reward == (if cost_now < old(self).spec_best_cost() {
                old(self).spec_best_cost() - cost_now
            } else {
                0
            }),
            o.improved == (cost_now < old(self).spec_best_cost()),
            final(self).spec_best_cost() == (if o.improved {
                cost_now
            } else {
                old(self).spec_best_cost()
            }),
            final(self).no_improve() == (if o.improved {
                0
            } else {
                old(self).no_improve() + 1
            }),
            o.report == (old(self).step() % REPORT_EVERY == 0),
            o.stop == (if final(self).no_improve() >= PATIENCE {
                Some(StopReason::NoImprovement)
            } else if egraph_size > NODE_STOP {
                Some(StopReason::NodeLimit)
            } else {
                None::<StopReason>
            }),
            final(self).stopped() == (o.stop is Some),
            final(self).step() == old(self).step() + 1,
    {
        proof {
            use_type_invariant(&*self);
        }
        let r = reward(self.best_cost, cost_now);
        let improved = cost_now < self.best_cost;
        let report = self.step % REPORT_EVERY == 0;
        self.step = self.step + 1;
        if improved {
            self.best_cost = cost_now;
            self.no_improve = 0;
        } else {
            self.no_improve = self.no_improve + 1;
        }
        let stop = if self.no_improve >= PATIENCE {
            Some(StopReason::NoImprovement)
        } else if egraph_size > NODE_STOP {
            Some(StopReason::NodeLimit)
        } else {
            None
        };
        self.stopped = stop.is_some();
        Observation { reward: r, improved, report, stop }
    }
}

} // verus!

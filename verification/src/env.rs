//! The rewriting environment's own state and decisions: which rule an action
//! names, the reward a step earns, and the best cost seen since the last
//! reset.  The e-graph the environment rewrites is held beside it, by the
//! caller, which reports the extracted costs.

use vstd::prelude::*;
use crate::rules::{all_rules, make_all_rules, RuleSpec};

verus! {

/// Why the environment refused a request.
#[derive(Debug, Clone, Copy, PartialEq, Eq, Structural)]
pub enum EnvError {
    /// The action does not name a rule.
    InvalidAction,
}

/// What a step reports: the cost of the best expression after the step,
/// and the reward, the decrease of that cost over the step.
#[derive(Debug, Clone, Copy, PartialEq, Eq, Structural)]
pub struct StepOutcome {
    pub new_cost: usize,
    pub reward: i128,
}

/// The least of two costs.
pub open spec fn min_cost(a: usize, b: usize) -> usize {
    if b < a {
        b
    } else {
        a
    }
}

/// The best cost after starting from `start` and seeing `costs` in turn.
pub open spec fn best_after(start: usize, costs: Seq<usize>) -> usize
    decreases costs.len(),
{
    if costs.len() == 0 {
        start
    } else {
        min_cost(best_after(start, costs.drop_last()), costs.last())
    }
}

/// The environment: its rules (the actions), the best cost seen since the
/// last reset, and the expression it was last started from.
pub struct EggEnv {
    rules: Vec<RuleSpec>,
    best_cost: usize,
    init_expr: String,
}

impl EggEnv {
    #[verifier::type_invariant]
    spec fn rules_are_the_table(self) -> bool {
        self.rules@ == all_rules()
    }

    /// The best cost seen since the environment was started or reset.
    pub closed spec fn best_cost(self) -> usize {
        self.best_cost
    }

    /// The expression the environment was last started from.
    pub closed spec fn init_expr(self) -> Seq<char> {
        self.init_expr@
    }

    /// Starts an environment on the expression `expr_str`, whose best
    /// extracted cost is `initial_cost`.
    pub fn new(expr_str: String, initial_cost: usize) -> (env: Self)
        ensures
            env.best_cost() == initial_cost,
            env.init_expr() == expr_str@,
    {
        EggEnv { rules: make_all_rules(), best_cost: initial_cost, init_expr: expr_str }
    }

    /// The number of actions: one per rule.
    pub fn num_actions(&self) -> (n: usize)
        ensures
            n == all_rules().len(),
            n == 54,
    {
        proof {
            use_type_invariant(self);
        }
        self.rules.len()
    }

    /// The rules, indexed by action.
    pub fn rules(&self) -> (r: &Vec<RuleSpec>)
        ensures
            r@ == all_rules(),
    {
        proof {
            use_type_invariant(self);
        }
        &self.rules
    }

    /// The rule that `action` applies, or the error for an action that
    /// names no rule.
    pub fn check_action(&self, action: usize) -> (r: Result<usize, EnvError>)
        ensures
            r is Ok <==> action < all_rules().len(),
            r matches Ok(i) ==> i == action,
            r matches Err(e) ==> e == EnvError::InvalidAction,
    {
        if action < self.num_actions() {
            Ok(action)
        } else {
            Err(EnvError::InvalidAction)
        }
    }

    /// Takes a step with the rule `action`, which took the best cost from
    /// `old_cost` to `new_cost`.  An action that names no rule is refused
    /// and nothing changes.  Otherwise the reward is `old_cost - new_cost`
    /// and the best cost seen is kept.
    pub fn step(&mut self, action: usize, old_cost: usize, new_cost: usize) -> (r: Result<
        StepOutcome,
        EnvError,
    >)
        ensures
            r is Err <==> action >= all_rules().len(),
            r matches Err(e) ==> e == EnvError::InvalidAction && *final(self) == *old(self),
            r matches Ok(o) ==> {
                &&& o.new_cost == new_cost
                &&& o.reward == old_cost - new_cost
                &&& final(self).best_cost() == min_cost(old(self).best_cost(), new_cost)
            },
            final(self).init_expr() == expr_after_call(
                old(self).init_expr(),
                (EnvCall::Step { action, old_cost, new_cost }),
            ),
    {
        proof {
            use_type_invariant(&*self);
        }
        if action >= self.rules.len() {
            return Err(EnvError::InvalidAction);
        }
        if new_cost < self.best_cost {
            self.best_cost = new_cost;
        }
        Ok(StepOutcome { new_cost, reward: old_cost as i128 - new_cost as i128 })
    }

    /// Restarts the environment with best cost `cost`, from the expression
    /// `maybe_expr` if one is given; otherwise the expression it was
    /// started from is kept.  Returns the cost.
    pub fn reset(&mut self, maybe_expr: Option<String>, cost: usize) -> (c: usize)
        ensures
            c == cost,
            final(self).best_cost() == cost,
            final(self).init_expr() == expr_after_call(
                old(self).init_expr(),
                (EnvCall::Reset {
                    expr: match maybe_expr {
                        Some(s) => Some(s@),
                        None => None,
                    },
                    cost,
                }),
            ),
    {
        proof {
            use_type_invariant(&*self);
        }
        if let Some(s) = maybe_expr {
            self.init_expr = s;
        }
        self.best_cost = cost;
        cost
    }

    /// The expression the environment was last started from.
    pub fn reset_expr(&self) -> (s: String)
        ensures
            s@ == self.init_expr(),
    {
        self.init_expr.clone()
    }
}

/// A step extends the trace of costs seen: the best cost after one more
/// cost `c` is the lesser of `c` and the best cost before it.
pub proof fn lemma_step_extends_trace(start: usize, costs: Seq<usize>, c: usize)
    ensures
        best_after(start, costs.push(c)) == min_cost(best_after(start, costs), c),
{
    assert(costs.push(c).drop_last() =~= costs);
}

/// The best cost is the least cost seen: after starting from `start` and
/// stepping through `costs`, it is no more than the start and than any cost
/// seen, and it is one of them.
pub proof fn lemma_best_cost_is_least_seen(start: usize, costs: Seq<usize>)
    ensures
        best_after(start, costs) <= start,
        forall|i: int| 0 <= i < costs.len() ==> best_after(start, costs) <= #[trigger] costs[i],
        best_after(start, costs) == start || exists|i: int|
            0 <= i < costs.len() && best_after(start, costs) == #[trigger] costs[i],
    decreases costs.len(),
{
    if costs.len() > 0 {
        let prev = costs.drop_last();
        lemma_best_cost_is_least_seen(start, prev);
        assert forall|i: int| 0 <= i < costs.len() implies best_after(start, costs)
            <= #[trigger] costs[i] by {
            if i < costs.len() - 1 {
                assert(costs[i] == prev[i]);
            }
        }
        if best_after(start, costs) != start {
            if best_after(start, costs) == costs.last() {
                assert(costs[costs.len() - 1] == costs.last());
            } else {
                let j = choose|j: int| 0 <= j < prev.len() && best_after(start, prev) == #[trigger] prev[j];
                assert(costs[j] == prev[j]);
            }
        }
    }
}

/// A call into the environment, as it bears on the expression it was started
/// from: a step with some action and costs, or a reset with an optional new
/// expression.  (A reset whose expression does not parse fails before it
/// reaches the environment.)
pub enum EnvCall {
    Step { action: usize, old_cost: usize, new_cost: usize },
    Reset { expr: Option<Seq<char>>, cost: usize },
}

/// The expression after one call, starting from `e`: a reset with an
/// expression sets it; a step, valid or not, and a reset without one keep it.
pub open spec fn expr_after_call(e: Seq<char>, call: EnvCall) -> Seq<char> {
    match call {
        EnvCall::Reset { expr: Some(s), .. } => s,
        _ => e,
    }
}

/// The expression after a sequence of calls from an environment started on
/// `start`.
pub open spec fn expr_after(start: Seq<char>, calls: Seq<EnvCall>) -> Seq<char>
    decreases calls.len(),
{
    if calls.len() == 0 {
        start
    } else {
        expr_after_call(expr_after(start, calls.drop_last()), calls.last())
    }
}

/// Whether a call resets the environment to a new expression.
pub open spec fn sets_expr(call: EnvCall) -> bool {
    call matches EnvCall::Reset { expr: Some(_), .. }
}

/// `reset_expr` gives the expression of the last reset that set one, or the
/// expression the environment was started from if no reset did: after any
/// sequence of calls, steps (refused or not) and resets without an
/// expression leave it as it was.
pub proof fn lemma_reset_expr_is_last_set(start: Seq<char>, calls: Seq<EnvCall>)
    ensures
        (forall|i: int| 0 <= i < calls.len() ==> !sets_expr(#[trigger] calls[i])) ==> expr_after(
            start,
            calls,
        ) == start,
        (exists|i: int| 0 <= i < calls.len() && sets_expr(#[trigger] calls[i])) ==> exists|i: int|
            0 <= i < calls.len() && #[trigger] calls[i] == (EnvCall::Reset {
                expr: Some(expr_after(start, calls)),
                cost: calls[i]->Reset_cost,
            }) && forall|j: int| i < j < calls.len() ==> !sets_expr(#[trigger] calls[j]),
    decreases calls.len(),
{
    if calls.len() > 0 {
        let prev = calls.drop_last();
        let n = calls.len() - 1;
        lemma_reset_expr_is_last_set(start, prev);
        if sets_expr(calls[n]) {
            assert(calls[n] == calls.last());
            assert(calls[n] == (EnvCall::Reset {
                expr: Some(expr_after(start, calls)),
                cost: calls[n]->Reset_cost,
            }));
        } else {
            assert(calls.last() == calls[n]);
            assert(expr_after(start, calls) == expr_after(start, prev));
            assert forall|i: int| 0 <= i < prev.len() implies prev[i] == calls[i] by {}
            if exists|i: int| 0 <= i < calls.len() && sets_expr(#[trigger] calls[i]) {
                let i = choose|i: int| 0 <= i < calls.len() && sets_expr(#[trigger] calls[i]);
                assert(i < n);
                assert(sets_expr(prev[i]));
                let k = choose|k: int|
                    0 <= k < prev.len() && #[trigger] prev[k] == (EnvCall::Reset {
                        expr: Some(expr_after(start, prev)),
                        cost: prev[k]->Reset_cost,
                    }) && forall|j: int| k < j < prev.len() ==> !sets_expr(#[trigger] prev[j]);
                assert(calls[k] == prev[k]);
                assert forall|j: int| k < j < calls.len() implies !sets_expr(#[trigger] calls[j]) by {
                    if j < n {
                        assert(calls[j] == prev[j]);
                    }
                }
            }
        }
    } else {
    }
}

} // verus!

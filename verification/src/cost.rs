//! The cost functions that extraction minimises: the size of a term, and the
//! size with a penalty on `Case` operators.

use vstd::prelude::*;

verus! {

/// The sum of a sequence of costs.
pub open spec fn sum(s: Seq<usize>) -> int
    decreases s.len(),
{
    if s.len() == 0 {
        0
    } else {
        sum(s.drop_last()) + s.last()
    }
}

/// A sum of costs is at least the sum of any prefix.
pub proof fn lemma_sum_prefix(s: Seq<usize>, i: int)
    requires
        0 <= i <= s.len(),
    ensures
        0 <= sum(s.take(i)) <= sum(s),
    decreases s.len(),
{
    if i == s.len() {
        assert(s.take(i) =~= s);
        if s.len() > 0 {
            lemma_sum_prefix(s.drop_last(), i - 1);
        }
    } else {
        assert(s.take(i) =~= s.drop_last().take(i));
        lemma_sum_prefix(s.drop_last(), i);
    }
}

/// Adds up child costs and `extra`, one at a time, or `None` where the
/// total does not fit in a `usize`.
fn sum_costs(costs: &Vec<usize>, extra: usize) -> (total: Option<usize>)
    ensures
        total == (if extra + sum(costs@) <= usize::MAX {
            Some((extra + sum(costs@)) as usize)
        } else {
            None::<usize>
        }),
{
    let mut total = extra;
    let mut i: usize = 0;
    while i < costs.len()
        invariant
            0 <= i <= costs@.len(),
            total == extra + sum(costs@.take(i as int)),
        decreases costs@.len() - i,
    {
        proof {
            lemma_sum_prefix(costs@, i + 1);
            assert(costs@.take(i + 1).drop_last() =~= costs@.take(i as int));
        }
        match total.checked_add(costs[i]) {
            Some(t) => total = t,
            None => return None,
        }
        i = i + 1;
    }
    assert(costs@.take(i as int) =~= costs@);
    Some(total)
}

/// The cost of a term as its number of nodes: a node costs one more than
/// its children together.
pub struct AstCost;

impl AstCost {
    /// The cost of a node whose children cost `child_costs`, or `None`
    /// where that cost does not fit in a `usize`.
    pub fn cost(&self, child_costs: &Vec<usize>) -> (c: Option<usize>)
        ensures
            c == (if 1 + sum(child_costs@) <= usize::MAX {
                Some((1 + sum(child_costs@)) as usize)
            } else {
                None::<usize>
            }),
    {
        sum_costs(child_costs, 1)
    }
}

/// The extra cost of a node with operator `op`: a `Case` costs a hundred
/// more than other nodes.
pub open spec fn case_penalty(op: Seq<char>) -> int {
    if op == "Case"@ {
        100
    } else {
        0
    }
}

/// The cost of a term as its number of nodes, with a penalty on each `Case`
/// node, so that extraction prefers `If` to `Case`.
pub struct AstDepth;

impl AstDepth {
    /// The cost of a node with operator `op` whose children cost
    /// `child_costs`, or `None` where that cost does not fit in a `usize`.
    pub fn cost(&self, op: &str, child_costs: &Vec<usize>) -> (c: Option<usize>)
        ensures
            c == (if 1 + case_penalty(op@) + sum(child_costs@) <= usize::MAX {
                Some((1 + case_penalty(op@) + sum(child_costs@)) as usize)
            } else {
                None::<usize>
            }),
            op@ != "Case"@ ==> c == (if 1 + sum(child_costs@) <= usize::MAX {
                Some((1 + sum(child_costs@)) as usize)
            } else {
                None::<usize>
            }),
            op@ == "Case"@ ==> c == (if 101 + sum(child_costs@) <= usize::MAX {
                Some((101 + sum(child_costs@)) as usize)
            } else {
                None::<usize>
            }),
    {
        let penalty: usize = if crate::prop::str_is(op, "Case") {
            100
        } else {
            0
        };
        sum_costs(child_costs, 1 + penalty)
    }
}

/// A sum adds every cost: the empty sum is zero, and one more cost adds
/// exactly that cost, so the sum of `c0, .., cn` is `c0 + .. + cn`.
pub proof fn lemma_sum_adds_every_cost(s: Seq<usize>, c: usize)
    ensures
        sum(Seq::<usize>::empty()) == 0,
        sum(s.push(c)) == sum(s) + c,
        sum(seq![c]) == c,
{
    assert(s.push(c).drop_last() =~= s);
    assert(seq![c].drop_last() =~= Seq::<usize>::empty());
}

/// Only `Case` carries the penalty: a hundred on an operator named `Case`,
/// nothing on any other.
pub proof fn lemma_case_penalty_only_on_case(op: Seq<char>)
    ensures
        op == "Case"@ ==> case_penalty(op) == 100,
        op != "Case"@ ==> case_penalty(op) == 0,
{
}

} // verus!

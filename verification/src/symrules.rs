//! The rewrite rules of the general-purpose rewriter, over untyped operator
//! trees: Boolean and arithmetic identities, conditional simplification, and
//! the translation between two-way `Case` and `If`.

use vstd::prelude::*;
use crate::cost::case_penalty;

verus! {

/// A pattern over operators named by strings.  `Var("a")` is the pattern
/// variable written `?a`; `NodeN(op, ..)` is the operator `op` applied to
/// `N` sub-patterns; `Leaf(op)` is an operator without operands.
#[derive(Debug)]
pub enum SymPattern {
    Var(&'static str),
    Leaf(&'static str),
    Node1(&'static str, Box<SymPattern>),
    Node2(&'static str, Box<SymPattern>, Box<SymPattern>),
    Node3(&'static str, Box<SymPattern>, Box<SymPattern>, Box<SymPattern>),
}

impl SymPattern {
    /// The names of the variables that occur in the pattern.
    pub open spec fn vars(self) -> Set<Seq<char>>
        decreases self,
    {
        match self {
            SymPattern::Var(v) => set![v@],
            SymPattern::Leaf(_) => Set::empty(),
            SymPattern::Node1(_, a) => a.vars(),
            SymPattern::Node2(_, a, b) => a.vars() + b.vars(),
            SymPattern::Node3(_, a, b, c) => a.vars() + b.vars() + c.vars(),
        }
    }
}

/// A rewrite rule: occurrences of `lhs` may be rewritten to `rhs`.
#[derive(Debug)]
pub struct SymRule {
    pub name: &'static str,
    pub lhs: SymPattern,
    pub rhs: SymPattern,
}

/// Every variable of the right side is bound by the left side, as a rewrite
/// needs to instantiate its right side.
pub open spec fn sym_binds_vars(r: SymRule) -> bool {
    r.rhs.vars().subset_of(r.lhs.vars())
}

pub open spec fn spec_sym_var(name: &'static str) -> SymPattern {
    SymPattern::Var(name)
}

pub open spec fn spec_leaf(op: &'static str) -> SymPattern {
    SymPattern::Leaf(op)
}

pub open spec fn spec_node1(op: &'static str, a: SymPattern) -> SymPattern {
    SymPattern::Node1(op, Box::new(a))
}

pub open spec fn spec_node2(op: &'static str, a: SymPattern, b: SymPattern) -> SymPattern {
    SymPattern::Node2(op, Box::new(a), Box::new(b))
}

pub open spec fn spec_node3(op: &'static str, a: SymPattern, b: SymPattern, c: SymPattern) -> SymPattern {
    SymPattern::Node3(op, Box::new(a), Box::new(b), Box::new(c))
}

pub open spec fn spec_sym_rule(name: &'static str, lhs: SymPattern, rhs: SymPattern) -> SymRule {
    SymRule { name, lhs, rhs }
}

/// The pattern variable `?name`.
#[verifier::when_used_as_spec(spec_sym_var)]
pub fn sym_var(name: &'static str) -> (p: SymPattern)
    ensures
        p == spec_sym_var(name),
{
    SymPattern::Var(name)
}

/// The operator `op` without operands.
#[verifier::when_used_as_spec(spec_leaf)]
pub fn leaf(op: &'static str) -> (p: SymPattern)
    ensures
        p == spec_leaf(op),
{
    SymPattern::Leaf(op)
}

/// The pattern `(op a)`.
#[verifier::when_used_as_spec(spec_node1)]
pub fn node1(op: &'static str, a: SymPattern) -> (p: SymPattern)
    ensures
        p == spec_node1(op, a),
{
    SymPattern::Node1(op, Box::new(a))
}

/// The pattern `(op a b)`.
#[verifier::when_used_as_spec(spec_node2)]
pub fn node2(op: &'static str, a: SymPattern, b: SymPattern) -> (p: SymPattern)
    ensures
        p == spec_node2(op, a, b),
{
    SymPattern::Node2(op, Box::new(a), Box::new(b))
}

/// The pattern `(op a b c)`.
#[verifier::when_used_as_spec(spec_node3)]
pub fn node3(op: &'static str, a: SymPattern, b: SymPattern, c: SymPattern) -> (p: SymPattern)
    ensures
        p == spec_node3(op, a, b, c),
{
    SymPattern::Node3(op, Box::new(a), Box::new(b), Box::new(c))
}

/// The rule `name: lhs => rhs`.
#[verifier::when_used_as_spec(spec_sym_rule)]
pub fn sym_rule(name: &'static str, lhs: SymPattern, rhs: SymPattern) -> (r: SymRule)
    ensures
        r == spec_sym_rule(name, lhs, rhs),
{
    SymRule { name, lhs, rhs }
}


/// The value of a rewriter term: a truth value, an integer, or no value
/// where an operator is applied to operands it does not take.
pub enum SymValue {
    Bool(bool),
    Int(int),
    Undefined,
}

/// Equality of two values, where both have one.
pub open spec fn eq_value(a: SymValue, b: SymValue) -> SymValue {
    if a is Undefined || b is Undefined {
        SymValue::Undefined
    } else {
        SymValue::Bool(a == b)
    }
}

/// A two-way case on `sel`: `v1` where it equals the label, else `v2`.
pub open spec fn case_value(sel: SymValue, label: SymValue, v1: SymValue, v2: SymValue) -> SymValue {
    if sel is Undefined || label is Undefined {
        SymValue::Undefined
    } else if sel == label {
        v1
    } else {
        v2
    }
}

/// A conditional on a truth value.
pub open spec fn if_value(c: SymValue, a: SymValue, b: SymValue) -> SymValue {
    match c {
        SymValue::Bool(true) => a,
        SymValue::Bool(false) => b,
        _ => SymValue::Undefined,
    }
}

/// The meaning of a binary operator other than `Case`.
pub open spec fn binary_value(op: Seq<char>, a: SymValue, b: SymValue) -> SymValue {
    match (a, b) {
        (SymValue::Bool(x), SymValue::Bool(y)) => if op == "And"@ {
            SymValue::Bool(x && y)
        } else if op == "Or"@ {
            SymValue::Bool(x || y)
        } else if op == "Eq"@ {
            SymValue::Bool(x == y)
        } else {
            SymValue::Undefined
        },
        (SymValue::Int(x), SymValue::Int(y)) => if op == "Add"@ {
            SymValue::Int(x + y)
        } else if op == "Mul"@ {
            SymValue::Int(x * y)
        } else if op == "Eq"@ {
            SymValue::Bool(x == y)
        } else {
            SymValue::Undefined
        },
        _ => if op == "Eq"@ {
            eq_value(a, b)
        } else {
            SymValue::Undefined
        },
    }
}

impl SymPattern {
    /// The term obtained by putting `s(v)` in place of each variable `v`.
    pub open spec fn subst(self, s: spec_fn(Seq<char>) -> SymPattern) -> SymPattern
        decreases self,
    {
        match self {
            SymPattern::Var(v) => s(v@),
            SymPattern::Leaf(op) => SymPattern::Leaf(op),
            SymPattern::Node1(op, a) => SymPattern::Node1(op, Box::new(a.subst(s))),
            SymPattern::Node2(op, a, b) => SymPattern::Node2(op, Box::new(a.subst(s)), Box::new(b.subst(s))),
            SymPattern::Node3(op, a, b, c) => SymPattern::Node3(
                op,
                Box::new(a.subst(s)),
                Box::new(b.subst(s)),
                Box::new(c.subst(s)),
            ),
        }
    }

    /// The value of the term when each variable and each free symbol `x`
    /// stands for `env(x)`.  `true` and `false` are the truth values and
    /// `0` and `1` the integers; `And` and `Or` are conjunction and
    /// disjunction, `Add` and `Mul` integer sum and product, `Eq` equality,
    /// `If` the conditional, and `Case` with one label and a default the
    /// two-way case.  Other shapes have no value.
    pub open spec fn eval(self, env: spec_fn(Seq<char>) -> SymValue) -> SymValue
        decreases self,
    {
        match self {
            SymPattern::Var(v) => env(v@),
            SymPattern::Leaf(op) => if op@ == "true"@ {
                SymValue::Bool(true)
            } else if op@ == "false"@ {
                SymValue::Bool(false)
            } else if op@ == "0"@ {
                SymValue::Int(0)
            } else if op@ == "1"@ {
                SymValue::Int(1)
            } else {
                env(op@)
            },
            SymPattern::Node1(_, _) => SymValue::Undefined,
            SymPattern::Node2(op, sel, list) => if op@ == "Case"@ {
                match *list {
                    SymPattern::Node2(o1, first, second) => match (*first, *second) {
                        (SymPattern::Node2(o2, labels, v1), SymPattern::Node2(o3, other, v2)) => match (
                            *labels,
                            *other,
                        ) {
                            (SymPattern::Node1(o4, lbl), SymPattern::Node1(o5, dflt)) => match (
                                *lbl,
                                *dflt,
                            ) {
                                (SymPattern::Node1(o6, l), SymPattern::Leaf(o7)) => if o1@ == "TpCaseList"@
                                    && o2@ == "TpCase"@ && o3@ == "TpCase"@ && o4@ == "TpCaseLblList"@
                                    && o5@ == "TpCaseLblList"@ && o6@ == "CaseLbl"@ && o7@ == "default"@ {
                                    case_value(sel.eval(env), l.eval(env), v1.eval(env), v2.eval(env))
                                } else {
                                    SymValue::Undefined
                                },
                                _ => SymValue::Undefined,
                            },
                            _ => SymValue::Undefined,
                        },
                        _ => SymValue::Undefined,
                    },
                    _ => SymValue::Undefined,
                }
            } else {
                binary_value(op@, sel.eval(env), list.eval(env))
            },
            SymPattern::Node3(op, c, a, b) => if op@ == "If"@ {
                if_value(c.eval(env), a.eval(env), b.eval(env))
            } else {
                SymValue::Undefined
            },
        }
    }

    /// The cost `AstDepth` gives the term: each node costs one more than its
    /// operands together, a `Case` a hundred more; a variable counts as a
    /// leaf.
    pub open spec fn tree_cost(self) -> int
        decreases self,
    {
        match self {
            SymPattern::Var(_) => 1,
            SymPattern::Leaf(op) => 1 + case_penalty(op@),
            SymPattern::Node1(op, a) => 1 + a.tree_cost() + case_penalty(op@),
            SymPattern::Node2(op, a, b) => 1 + a.tree_cost() + b.tree_cost() + case_penalty(op@),
            SymPattern::Node3(op, a, b, c) => 1 + a.tree_cost() + b.tree_cost() + c.tree_cost()
                + case_penalty(op@),
        }
    }
}

/// Every term costs at least one.
pub proof fn lemma_tree_cost_positive(p: SymPattern)
    ensures
        p.tree_cost() >= 1,
    decreases p,
{
    match p {
        SymPattern::Var(_) | SymPattern::Leaf(_) => {},
        SymPattern::Node1(_, a) => lemma_tree_cost_positive(*a),
        SymPattern::Node2(_, a, b) => {
            lemma_tree_cost_positive(*a);
            lemma_tree_cost_positive(*b);
        },
        SymPattern::Node3(_, a, b, c) => {
            lemma_tree_cost_positive(*a);
            lemma_tree_cost_positive(*b);
            lemma_tree_cost_positive(*c);
        },
    }
}

/// The operator names of the rewriter's rules are pairwise different.
pub proof fn lemma_op_names_distinct()
    ensures
        "And"@ != "Or"@,
        "And"@ != "Add"@,
        "And"@ != "Mul"@,
        "And"@ != "Eq"@,
        "And"@ != "Case"@,
        "And"@ != "If"@,
        "And"@ != "TpCaseList"@,
        "And"@ != "TpCase"@,
        "And"@ != "TpCaseLblList"@,
        "And"@ != "CaseLbl"@,
        "And"@ != "default"@,
        "And"@ != "true"@,
        "And"@ != "false"@,
        "And"@ != "0"@,
        "And"@ != "1"@,
        "Or"@ != "Add"@,
        "Or"@ != "Mul"@,
        "Or"@ != "Eq"@,
        "Or"@ != "Case"@,
        "Or"@ != "If"@,
        "Or"@ != "TpCaseList"@,
        "Or"@ != "TpCase"@,
        "Or"@ != "TpCaseLblList"@,
        "Or"@ != "CaseLbl"@,
        "Or"@ != "default"@,
        "Or"@ != "true"@,
        "Or"@ != "false"@,
        "Or"@ != "0"@,
        "Or"@ != "1"@,
        "Add"@ != "Mul"@,
        "Add"@ != "Eq"@,
        "Add"@ != "Case"@,
        "Add"@ != "If"@,
        "Add"@ != "TpCaseList"@,
        "Add"@ != "TpCase"@,
        "Add"@ != "TpCaseLblList"@,
        "Add"@ != "CaseLbl"@,
        "Add"@ != "default"@,
        "Add"@ != "true"@,
        "Add"@ != "false"@,
        "Add"@ != "0"@,
        "Add"@ != "1"@,
        "Mul"@ != "Eq"@,
        "Mul"@ != "Case"@,
        "Mul"@ != "If"@,
        "Mul"@ != "TpCaseList"@,
        "Mul"@ != "TpCase"@,
        "Mul"@ != "TpCaseLblList"@,
        "Mul"@ != "CaseLbl"@,
        "Mul"@ != "default"@,
        "Mul"@ != "true"@,
        "Mul"@ != "false"@,
        "Mul"@ != "0"@,
        "Mul"@ != "1"@,
        "Eq"@ != "Case"@,
        "Eq"@ != "If"@,
        "Eq"@ != "TpCaseList"@,
        "Eq"@ != "TpCase"@,
        "Eq"@ != "TpCaseLblList"@,
        "Eq"@ != "CaseLbl"@,
        "Eq"@ != "default"@,
        "Eq"@ != "true"@,
        "Eq"@ != "false"@,
        "Eq"@ != "0"@,
        "Eq"@ != "1"@,
        "Case"@ != "If"@,
        "Case"@ != "TpCaseList"@,
        "Case"@ != "TpCase"@,
        "Case"@ != "TpCaseLblList"@,
        "Case"@ != "CaseLbl"@,
        "Case"@ != "default"@,
        "Case"@ != "true"@,
        "Case"@ != "false"@,
        "Case"@ != "0"@,
        "Case"@ != "1"@,
        "If"@ != "TpCaseList"@,
        "If"@ != "TpCase"@,
        "If"@ != "TpCaseLblList"@,
        "If"@ != "CaseLbl"@,
        "If"@ != "default"@,
        "If"@ != "true"@,
        "If"@ != "false"@,
        "If"@ != "0"@,
        "If"@ != "1"@,
        "TpCaseList"@ != "TpCase"@,
        "TpCaseList"@ != "TpCaseLblList"@,
        "TpCaseList"@ != "CaseLbl"@,
        "TpCaseList"@ != "default"@,
        "TpCaseList"@ != "true"@,
        "TpCaseList"@ != "false"@,
        "TpCaseList"@ != "0"@,
        "TpCaseList"@ != "1"@,
        "TpCase"@ != "TpCaseLblList"@,
        "TpCase"@ != "CaseLbl"@,
        "TpCase"@ != "default"@,
        "TpCase"@ != "true"@,
        "TpCase"@ != "false"@,
        "TpCase"@ != "0"@,
        "TpCase"@ != "1"@,
        "TpCaseLblList"@ != "CaseLbl"@,
        "TpCaseLblList"@ != "default"@,
        "TpCaseLblList"@ != "true"@,
        "TpCaseLblList"@ != "false"@,
        "TpCaseLblList"@ != "0"@,
        "TpCaseLblList"@ != "1"@,
        "CaseLbl"@ != "default"@,
        "CaseLbl"@ != "true"@,
        "CaseLbl"@ != "false"@,
        "CaseLbl"@ != "0"@,
        "CaseLbl"@ != "1"@,
        "default"@ != "true"@,
        "default"@ != "false"@,
        "default"@ != "0"@,
        "default"@ != "1"@,
        "true"@ != "false"@,
        "true"@ != "0"@,
        "true"@ != "1"@,
        "false"@ != "0"@,
        "false"@ != "1"@,
        "0"@ != "1"@,
{
    reveal_strlit("And");
    reveal_strlit("Or");
    reveal_strlit("Add");
    reveal_strlit("Mul");
    reveal_strlit("Eq");
    reveal_strlit("Case");
    reveal_strlit("If");
    reveal_strlit("TpCaseList");
    reveal_strlit("TpCase");
    reveal_strlit("TpCaseLblList");
    reveal_strlit("CaseLbl");
    reveal_strlit("default");
    reveal_strlit("true");
    reveal_strlit("false");
    reveal_strlit("0");
    reveal_strlit("1");
    assert("And"@.len() != "Or"@.len());
    assert("And"@[1] != "Add"@[1]);
    assert("And"@[0] != "Mul"@[0]);
    assert("And"@.len() != "Eq"@.len());
    assert("And"@.len() != "Case"@.len());
    assert("And"@.len() != "If"@.len());
    assert("And"@.len() != "TpCaseList"@.len());
    assert("And"@.len() != "TpCase"@.len());
    assert("And"@.len() != "TpCaseLblList"@.len());
    assert("And"@.len() != "CaseLbl"@.len());
    assert("And"@.len() != "default"@.len());
    assert("And"@.len() != "true"@.len());
    assert("And"@.len() != "false"@.len());
    assert("And"@.len() != "0"@.len());
    assert("And"@.len() != "1"@.len());
    assert("Or"@.len() != "Add"@.len());
    assert("Or"@.len() != "Mul"@.len());
    assert("Or"@[0] != "Eq"@[0]);
    assert("Or"@.len() != "Case"@.len());
    assert("Or"@[0] != "If"@[0]);
    assert("Or"@.len() != "TpCaseList"@.len());
    assert("Or"@.len() != "TpCase"@.len());
    assert("Or"@.len() != "TpCaseLblList"@.len());
    assert("Or"@.len() != "CaseLbl"@.len());
    assert("Or"@.len() != "default"@.len());
    assert("Or"@.len() != "true"@.len());
    assert("Or"@.len() != "false"@.len());
    assert("Or"@.len() != "0"@.len());
    assert("Or"@.len() != "1"@.len());
    assert("Add"@[0] != "Mul"@[0]);
    assert("Add"@.len() != "Eq"@.len());
    assert("Add"@.len() != "Case"@.len());
    assert("Add"@.len() != "If"@.len());
    assert("Add"@.len() != "TpCaseList"@.len());
    assert("Add"@.len() != "TpCase"@.len());
    assert("Add"@.len() != "TpCaseLblList"@.len());
    assert("Add"@.len() != "CaseLbl"@.len());
    assert("Add"@.len() != "default"@.len());
    assert("Add"@.len() != "true"@.len());
    assert("Add"@.len() != "false"@.len());
    assert("Add"@.len() != "0"@.len());
    assert("Add"@.len() != "1"@.len());
    assert("Mul"@.len() != "Eq"@.len());
    assert("Mul"@.len() != "Case"@.len());
    assert("Mul"@.len() != "If"@.len());
    assert("Mul"@.len() != "TpCaseList"@.len());
    assert("Mul"@.len() != "TpCase"@.len());
    assert("Mul"@.len() != "TpCaseLblList"@.len());
    assert("Mul"@.len() != "CaseLbl"@.len());
    assert("Mul"@.len() != "default"@.len());
    assert("Mul"@.len() != "true"@.len());
    assert("Mul"@.len() != "false"@.len());
    assert("Mul"@.len() != "0"@.len());
    assert("Mul"@.len() != "1"@.len());
    assert("Eq"@.len() != "Case"@.len());
    assert("Eq"@[0] != "If"@[0]);
    assert("Eq"@.len() != "TpCaseList"@.len());
    assert("Eq"@.len() != "TpCase"@.len());
    assert("Eq"@.len() != "TpCaseLblList"@.len());
    assert("Eq"@.len() != "CaseLbl"@.len());
    assert("Eq"@.len() != "default"@.len());
    assert("Eq"@.len() != "true"@.len());
    assert("Eq"@.len() != "false"@.len());
    assert("Eq"@.len() != "0"@.len());
    assert("Eq"@.len() != "1"@.len());
    assert("Case"@.len() != "If"@.len());
    assert("Case"@.len() != "TpCaseList"@.len());
    assert("Case"@.len() != "TpCase"@.len());
    assert("Case"@.len() != "TpCaseLblList"@.len());
    assert("Case"@.len() != "CaseLbl"@.len());
    assert("Case"@.len() != "default"@.len());
    assert("Case"@[0] != "true"@[0]);
    assert("Case"@.len() != "false"@.len());
    assert("Case"@.len() != "0"@.len());
    assert("Case"@.len() != "1"@.len());
    assert("If"@.len() != "TpCaseList"@.len());
    assert("If"@.len() != "TpCase"@.len());
    assert("If"@.len() != "TpCaseLblList"@.len());
    assert("If"@.len() != "CaseLbl"@.len());
    assert("If"@.len() != "default"@.len());
    assert("If"@.len() != "true"@.len());
    assert("If"@.len() != "false"@.len());
    assert("If"@.len() != "0"@.len());
    assert("If"@.len() != "1"@.len());
    assert("TpCaseList"@.len() != "TpCase"@.len());
    assert("TpCaseList"@.len() != "TpCaseLblList"@.len());
    assert("TpCaseList"@.len() != "CaseLbl"@.len());
    assert("TpCaseList"@.len() != "default"@.len());
    assert("TpCaseList"@.len() != "true"@.len());
    assert("TpCaseList"@.len() != "false"@.len());
    assert("TpCaseList"@.len() != "0"@.len());
    assert("TpCaseList"@.len() != "1"@.len());
    assert("TpCase"@.len() != "TpCaseLblList"@.len());
    assert("TpCase"@.len() != "CaseLbl"@.len());
    assert("TpCase"@.len() != "default"@.len());
    assert("TpCase"@.len() != "true"@.len());
    assert("TpCase"@.len() != "false"@.len());
    assert("TpCase"@.len() != "0"@.len());
    assert("TpCase"@.len() != "1"@.len());
    assert("TpCaseLblList"@.len() != "CaseLbl"@.len());
    assert("TpCaseLblList"@.len() != "default"@.len());
    assert("TpCaseLblList"@.len() != "true"@.len());
    assert("TpCaseLblList"@.len() != "false"@.len());
    assert("TpCaseLblList"@.len() != "0"@.len());
    assert("TpCaseLblList"@.len() != "1"@.len());
    assert("CaseLbl"@[0] != "default"@[0]);
    assert("CaseLbl"@.len() != "true"@.len());
    assert("CaseLbl"@.len() != "false"@.len());
    assert("CaseLbl"@.len() != "0"@.len());
    assert("CaseLbl"@.len() != "1"@.len());
    assert("default"@.len() != "true"@.len());
    assert("default"@.len() != "false"@.len());
    assert("default"@.len() != "0"@.len());
    assert("default"@.len() != "1"@.len());
    assert("true"@.len() != "false"@.len());
    assert("true"@.len() != "0"@.len());
    assert("true"@.len() != "1"@.len());
    assert("false"@.len() != "0"@.len());
    assert("false"@.len() != "1"@.len());
    assert("0"@[0] != "1"@[0]);
}


/// The rules of the rewriter, in the order they are offered for selection.
pub open spec fn rewriter_rules() -> Seq<SymRule> {
    seq![
        rule_and_commute(),
        rule_or_commute(),
        rule_and_id(),
        rule_or_id(),
        rule_if_true(),
        rule_if_false(),
        rule_if_same(),
        rule_add_zero(),
        rule_add_zero_comm(),
        rule_mul_one(),
        rule_mul_one_comm(),
        rule_mul_zero(),
        rule_mul_zero_comm(),
        rule_case2_to_if_else(),
        rule_if_to_case_loose(),
    ]
}

/// The rule `and-commute`.
pub open spec fn rule_and_commute() -> SymRule {
    sym_rule("and-commute", node2("And", sym_var("a"), sym_var("b")), node2("And", sym_var("b"), sym_var("a")))
}

/// The rule `or-commute`.
pub open spec fn rule_or_commute() -> SymRule {
    sym_rule("or-commute", node2("Or", sym_var("a"), sym_var("b")), node2("Or", sym_var("b"), sym_var("a")))
}

/// The rule `and-id`.
pub open spec fn rule_and_id() -> SymRule {
    sym_rule("and-id", node2("And", sym_var("a"), leaf("true")), sym_var("a"))
}

/// The rule `or-id`.
pub open spec fn rule_or_id() -> SymRule {
    sym_rule("or-id", node2("Or", sym_var("a"), leaf("false")), sym_var("a"))
}

/// The rule `if-true`.
pub open spec fn rule_if_true() -> SymRule {
    sym_rule("if-true", node3("If", leaf("true"), sym_var("a"), sym_var("b")), sym_var("a"))
}

/// The rule `if-false`.
pub open spec fn rule_if_false() -> SymRule {
    sym_rule("if-false", node3("If", leaf("false"), sym_var("a"), sym_var("b")), sym_var("b"))
}

/// The rule `if-same`.
pub open spec fn rule_if_same() -> SymRule {
    sym_rule("if-same", node3("If", sym_var("cond"), sym_var("a"), sym_var("a")), sym_var("a"))
}

/// The rule `add-zero`.
pub open spec fn rule_add_zero() -> SymRule {
    sym_rule("add-zero", node2("Add", sym_var("a"), leaf("0")), sym_var("a"))
}

/// The rule `add-zero-comm`.
pub open spec fn rule_add_zero_comm() -> SymRule {
    sym_rule("add-zero-comm", node2("Add", leaf("0"), sym_var("a")), sym_var("a"))
}

/// The rule `mul-one`.
pub open spec fn rule_mul_one() -> SymRule {
    sym_rule("mul-one", node2("Mul", sym_var("a"), leaf("1")), sym_var("a"))
}

/// The rule `mul-one-comm`.
pub open spec fn rule_mul_one_comm() -> SymRule {
    sym_rule("mul-one-comm", node2("Mul", leaf("1"), sym_var("a")), sym_var("a"))
}

/// The rule `mul-zero`.
pub open spec fn rule_mul_zero() -> SymRule {
    sym_rule("mul-zero", node2("Mul", sym_var("a"), leaf("0")), leaf("0"))
}

/// The rule `mul-zero-comm`.
pub open spec fn rule_mul_zero_comm() -> SymRule {
    sym_rule("mul-zero-comm", node2("Mul", leaf("0"), sym_var("a")), leaf("0"))
}

/// The rule `case2-to-if-else`.
pub open spec fn rule_case2_to_if_else() -> SymRule {
    sym_rule("case2-to-if-else", node2("Case", sym_var("sel"), node2("TpCaseList", node2("TpCase", node1("TpCaseLblList", node1("CaseLbl", sym_var("l1"))), sym_var("v1")), node2("TpCase", node1("TpCaseLblList", leaf("default")), sym_var("v2")))), node3("If", node2("Eq", sym_var("sel"), sym_var("l1")), sym_var("v1"), sym_var("v2")))
}

/// The rule `if-to-case-loose`.
pub open spec fn rule_if_to_case_loose() -> SymRule {
    sym_rule("if-to-case-loose", node3("If", node2("Eq", sym_var("sel"), sym_var("label")), sym_var("then"), sym_var("else")), node2("Case", sym_var("sel"), node2("TpCaseList", node2("TpCase", node1("TpCaseLblList", node1("CaseLbl", sym_var("label"))), sym_var("then")), node2("TpCase", node1("TpCaseLblList", leaf("default")), sym_var("else")))))
}

/// Builds the rules of [`rewriter_rules`].
pub fn make_rules() -> (rules: Vec<SymRule>)
    ensures
        rules@ == rewriter_rules(),
{
    let mut rules: Vec<SymRule> = Vec::new();
    rules.push(sym_rule("and-commute", node2("And", sym_var("a"), sym_var("b")), node2("And", sym_var("b"), sym_var("a"))));
    rules.push(sym_rule("or-commute", node2("Or", sym_var("a"), sym_var("b")), node2("Or", sym_var("b"), sym_var("a"))));
    rules.push(sym_rule("and-id", node2("And", sym_var("a"), leaf("true")), sym_var("a")));
    rules.push(sym_rule("or-id", node2("Or", sym_var("a"), leaf("false")), sym_var("a")));
    rules.push(sym_rule("if-true", node3("If", leaf("true"), sym_var("a"), sym_var("b")), sym_var("a")));
    rules.push(sym_rule("if-false", node3("If", leaf("false"), sym_var("a"), sym_var("b")), sym_var("b")));
    rules.push(sym_rule("if-same", node3("If", sym_var("cond"), sym_var("a"), sym_var("a")), sym_var("a")));
    rules.push(sym_rule("add-zero", node2("Add", sym_var("a"), leaf("0")), sym_var("a")));
    rules.push(sym_rule("add-zero-comm", node2("Add", leaf("0"), sym_var("a")), sym_var("a")));
    rules.push(sym_rule("mul-one", node2("Mul", sym_var("a"), leaf("1")), sym_var("a")));
    rules.push(sym_rule("mul-one-comm", node2("Mul", leaf("1"), sym_var("a")), sym_var("a")));
    rules.push(sym_rule("mul-zero", node2("Mul", sym_var("a"), leaf("0")), leaf("0")));
    rules.push(sym_rule("mul-zero-comm", node2("Mul", leaf("0"), sym_var("a")), leaf("0")));
    rules.push(sym_rule("case2-to-if-else", node2("Case", sym_var("sel"), node2("TpCaseList", node2("TpCase", node1("TpCaseLblList", node1("CaseLbl", sym_var("l1"))), sym_var("v1")), node2("TpCase", node1("TpCaseLblList", leaf("default")), sym_var("v2")))), node3("If", node2("Eq", sym_var("sel"), sym_var("l1")), sym_var("v1"), sym_var("v2"))));
    rules.push(sym_rule("if-to-case-loose", node3("If", node2("Eq", sym_var("sel"), sym_var("label")), sym_var("then"), sym_var("else")), node2("Case", sym_var("sel"), node2("TpCaseList", node2("TpCase", node1("TpCaseLblList", node1("CaseLbl", sym_var("label"))), sym_var("then")), node2("TpCase", node1("TpCaseLblList", leaf("default")), sym_var("else"))))));
    assert(rules@ =~= rewriter_rules());
    rules
}


/// Every rule of the rewriter binds the variables of its right side, so each
/// can be built as a rewrite.
pub proof fn lemma_rewriter_rules_bind_vars()
    ensures
        forall|i: int| 0 <= i < rewriter_rules().len() ==> sym_binds_vars(#[trigger] rewriter_rules()[i]),
{
    let t = rewriter_rules();
    assert forall|i: int| 0 <= i < t.len() implies sym_binds_vars(#[trigger] t[i]) by {
        reveal_with_fuel(SymPattern::vars, 6);
        // one branch per rule, so that each is unfolded on its own patterns
            if i == 0 {
            } else if i == 1 {
            } else if i == 2 {
            } else if i == 3 {
            } else if i == 4 {
            } else if i == 5 {
            } else if i == 6 {
            } else if i == 7 {
            } else if i == 8 {
            } else if i == 9 {
            } else if i == 10 {
            } else if i == 11 {
            } else if i == 12 {
            } else if i == 13 {
            } else if i == 14 {
            }
    }
}

/// The rule keeps the value of what it rewrites: with the terms `s` put in
/// place of its variables and the valuation `env`, where the left side's
/// instance has a value, the right side's instance has that same value.
pub open spec fn rule_keeps_value(
    r: SymRule,
    s: spec_fn(Seq<char>) -> SymPattern,
    env: spec_fn(Seq<char>) -> SymValue,
) -> bool {
    !(r.lhs.subst(s).eval(env) is Undefined) ==> r.rhs.subst(s).eval(env) == r.lhs.subst(s).eval(env)
}

/// The terms put in place of the rules' variables cost at least one each.
proof fn lemma_rule_vars_cost_positive(s: spec_fn(Seq<char>) -> SymPattern)
    ensures
        s("a"@).tree_cost() >= 1,
        s("b"@).tree_cost() >= 1,
        s("cond"@).tree_cost() >= 1,
        s("sel"@).tree_cost() >= 1,
        s("l1"@).tree_cost() >= 1,
        s("v1"@).tree_cost() >= 1,
        s("v2"@).tree_cost() >= 1,
        s("label"@).tree_cost() >= 1,
        s("then"@).tree_cost() >= 1,
        s("else"@).tree_cost() >= 1,
{
    lemma_tree_cost_positive(s("a"@));
    lemma_tree_cost_positive(s("b"@));
    lemma_tree_cost_positive(s("cond"@));
    lemma_tree_cost_positive(s("sel"@));
    lemma_tree_cost_positive(s("l1"@));
    lemma_tree_cost_positive(s("v1"@));
    lemma_tree_cost_positive(s("v2"@));
    lemma_tree_cost_positive(s("label"@));
    lemma_tree_cost_positive(s("then"@));
    lemma_tree_cost_positive(s("else"@));
}

proof fn lemma_rule_0_sound(s: spec_fn(Seq<char>) -> SymPattern, env: spec_fn(Seq<char>) -> SymValue)
    ensures
        rule_keeps_value(rule_and_commute(), s, env),
{
    lemma_op_names_distinct();
    reveal_with_fuel(SymPattern::subst, 3);
    reveal_with_fuel(SymPattern::eval, 3);
}

proof fn lemma_rule_0_cost(s: spec_fn(Seq<char>) -> SymPattern)
    ensures
        rule_and_commute().rhs.subst(s).tree_cost() == rule_and_commute().lhs.subst(s).tree_cost(),
{
    lemma_op_names_distinct();
    reveal_strlit("Case");
    lemma_rule_vars_cost_positive(s);
    reveal_with_fuel(SymPattern::subst, 3);
    reveal_with_fuel(SymPattern::tree_cost, 3);
}

proof fn lemma_rule_1_sound(s: spec_fn(Seq<char>) -> SymPattern, env: spec_fn(Seq<char>) -> SymValue)
    ensures
        rule_keeps_value(rule_or_commute(), s, env),
{
    lemma_op_names_distinct();
    reveal_with_fuel(SymPattern::subst, 3);
    reveal_with_fuel(SymPattern::eval, 3);
}

proof fn lemma_rule_1_cost(s: spec_fn(Seq<char>) -> SymPattern)
    ensures
        rule_or_commute().rhs.subst(s).tree_cost() == rule_or_commute().lhs.subst(s).tree_cost(),
{
    lemma_op_names_distinct();
    reveal_strlit("Case");
    lemma_rule_vars_cost_positive(s);
    reveal_with_fuel(SymPattern::subst, 3);
    reveal_with_fuel(SymPattern::tree_cost, 3);
}

proof fn lemma_rule_2_sound(s: spec_fn(Seq<char>) -> SymPattern, env: spec_fn(Seq<char>) -> SymValue)
    ensures
        rule_keeps_value(rule_and_id(), s, env),
{
    lemma_op_names_distinct();
    reveal_with_fuel(SymPattern::subst, 3);
    reveal_with_fuel(SymPattern::eval, 3);
}

proof fn lemma_rule_2_cost(s: spec_fn(Seq<char>) -> SymPattern)
    ensures
        rule_and_id().rhs.subst(s).tree_cost() < rule_and_id().lhs.subst(s).tree_cost(),
{
    lemma_op_names_distinct();
    reveal_strlit("Case");
    lemma_rule_vars_cost_positive(s);
    reveal_with_fuel(SymPattern::subst, 3);
    reveal_with_fuel(SymPattern::tree_cost, 3);
}

proof fn lemma_rule_3_sound(s: spec_fn(Seq<char>) -> SymPattern, env: spec_fn(Seq<char>) -> SymValue)
    ensures
        rule_keeps_value(rule_or_id(), s, env),
{
    lemma_op_names_distinct();
    reveal_with_fuel(SymPattern::subst, 3);
    reveal_with_fuel(SymPattern::eval, 3);
}

proof fn lemma_rule_3_cost(s: spec_fn(Seq<char>) -> SymPattern)
    ensures
        rule_or_id().rhs.subst(s).tree_cost() < rule_or_id().lhs.subst(s).tree_cost(),
{
    lemma_op_names_distinct();
    reveal_strlit("Case");
    lemma_rule_vars_cost_positive(s);
    reveal_with_fuel(SymPattern::subst, 3);
    reveal_with_fuel(SymPattern::tree_cost, 3);
}

proof fn lemma_rule_4_sound(s: spec_fn(Seq<char>) -> SymPattern, env: spec_fn(Seq<char>) -> SymValue)
    ensures
        rule_keeps_value(rule_if_true(), s, env),
{
    lemma_op_names_distinct();
    reveal_with_fuel(SymPattern::subst, 3);
    reveal_with_fuel(SymPattern::eval, 3);
}

proof fn lemma_rule_4_cost(s: spec_fn(Seq<char>) -> SymPattern)
    ensures
        rule_if_true().rhs.subst(s).tree_cost() < rule_if_true().lhs.subst(s).tree_cost(),
{
    lemma_op_names_distinct();
    reveal_strlit("Case");
    lemma_rule_vars_cost_positive(s);
    reveal_with_fuel(SymPattern::subst, 3);
    reveal_with_fuel(SymPattern::tree_cost, 3);
}

proof fn lemma_rule_5_sound(s: spec_fn(Seq<char>) -> SymPattern, env: spec_fn(Seq<char>) -> SymValue)
    ensures
        rule_keeps_value(rule_if_false(), s, env),
{
    lemma_op_names_distinct();
    reveal_with_fuel(SymPattern::subst, 3);
    reveal_with_fuel(SymPattern::eval, 3);
}

proof fn lemma_rule_5_cost(s: spec_fn(Seq<char>) -> SymPattern)
    ensures
        rule_if_false().rhs.subst(s).tree_cost() < rule_if_false().lhs.subst(s).tree_cost(),
{
    lemma_op_names_distinct();
    reveal_strlit("Case");
    lemma_rule_vars_cost_positive(s);
    reveal_with_fuel(SymPattern::subst, 3);
    reveal_with_fuel(SymPattern::tree_cost, 3);
}

proof fn lemma_rule_6_sound(s: spec_fn(Seq<char>) -> SymPattern, env: spec_fn(Seq<char>) -> SymValue)
    ensures
        rule_keeps_value(rule_if_same(), s, env),
{
    lemma_op_names_distinct();
    reveal_with_fuel(SymPattern::subst, 3);
    reveal_with_fuel(SymPattern::eval, 3);
}

proof fn lemma_rule_6_cost(s: spec_fn(Seq<char>) -> SymPattern)
    ensures
        rule_if_same().rhs.subst(s).tree_cost() < rule_if_same().lhs.subst(s).tree_cost(),
{
    lemma_op_names_distinct();
    reveal_strlit("Case");
    lemma_rule_vars_cost_positive(s);
    reveal_with_fuel(SymPattern::subst, 3);
    reveal_with_fuel(SymPattern::tree_cost, 3);
}

proof fn lemma_rule_7_sound(s: spec_fn(Seq<char>) -> SymPattern, env: spec_fn(Seq<char>) -> SymValue)
    ensures
        rule_keeps_value(rule_add_zero(), s, env),
{
    lemma_op_names_distinct();
    reveal_with_fuel(SymPattern::subst, 3);
    reveal_with_fuel(SymPattern::eval, 3);
}

proof fn lemma_rule_7_cost(s: spec_fn(Seq<char>) -> SymPattern)
    ensures
        rule_add_zero().rhs.subst(s).tree_cost() < rule_add_zero().lhs.subst(s).tree_cost(),
{
    lemma_op_names_distinct();
    reveal_strlit("Case");
    lemma_rule_vars_cost_positive(s);
    reveal_with_fuel(SymPattern::subst, 3);
    reveal_with_fuel(SymPattern::tree_cost, 3);
}

proof fn lemma_rule_8_sound(s: spec_fn(Seq<char>) -> SymPattern, env: spec_fn(Seq<char>) -> SymValue)
    ensures
        rule_keeps_value(rule_add_zero_comm(), s, env),
{
    lemma_op_names_distinct();
    reveal_with_fuel(SymPattern::subst, 3);
    reveal_with_fuel(SymPattern::eval, 3);
}

proof fn lemma_rule_8_cost(s: spec_fn(Seq<char>) -> SymPattern)
    ensures
        rule_add_zero_comm().rhs.subst(s).tree_cost() < rule_add_zero_comm().lhs.subst(s).tree_cost(),
{
    lemma_op_names_distinct();
    reveal_strlit("Case");
    lemma_rule_vars_cost_positive(s);
    reveal_with_fuel(SymPattern::subst, 3);
    reveal_with_fuel(SymPattern::tree_cost, 3);
}

proof fn lemma_rule_9_sound(s: spec_fn(Seq<char>) -> SymPattern, env: spec_fn(Seq<char>) -> SymValue)
    ensures
        rule_keeps_value(rule_mul_one(), s, env),
{
    lemma_op_names_distinct();
    reveal_with_fuel(SymPattern::subst, 3);
    reveal_with_fuel(SymPattern::eval, 3);
}

proof fn lemma_rule_9_cost(s: spec_fn(Seq<char>) -> SymPattern)
    ensures
        rule_mul_one().rhs.subst(s).tree_cost() < rule_mul_one().lhs.subst(s).tree_cost(),
{
    lemma_op_names_distinct();
    reveal_strlit("Case");
    lemma_rule_vars_cost_positive(s);
    reveal_with_fuel(SymPattern::subst, 3);
    reveal_with_fuel(SymPattern::tree_cost, 3);
}

proof fn lemma_rule_10_sound(s: spec_fn(Seq<char>) -> SymPattern, env: spec_fn(Seq<char>) -> SymValue)
    ensures
        rule_keeps_value(rule_mul_one_comm(), s, env),
{
    lemma_op_names_distinct();
    reveal_with_fuel(SymPattern::subst, 3);
    reveal_with_fuel(SymPattern::eval, 3);
}

proof fn lemma_rule_10_cost(s: spec_fn(Seq<char>) -> SymPattern)
    ensures
        rule_mul_one_comm().rhs.subst(s).tree_cost() < rule_mul_one_comm().lhs.subst(s).tree_cost(),
{
    lemma_op_names_distinct();
    reveal_strlit("Case");
    lemma_rule_vars_cost_positive(s);
    reveal_with_fuel(SymPattern::subst, 3);
    reveal_with_fuel(SymPattern::tree_cost, 3);
}

proof fn lemma_rule_11_sound(s: spec_fn(Seq<char>) -> SymPattern, env: spec_fn(Seq<char>) -> SymValue)
    ensures
        rule_keeps_value(rule_mul_zero(), s, env),
{
    lemma_op_names_distinct();
    reveal_with_fuel(SymPattern::subst, 3);
    reveal_with_fuel(SymPattern::eval, 3);
}

proof fn lemma_rule_11_cost(s: spec_fn(Seq<char>) -> SymPattern)
    ensures
        rule_mul_zero().rhs.subst(s).tree_cost() < rule_mul_zero().lhs.subst(s).tree_cost(),
{
    lemma_op_names_distinct();
    reveal_strlit("Case");
    lemma_rule_vars_cost_positive(s);
    reveal_with_fuel(SymPattern::subst, 3);
    reveal_with_fuel(SymPattern::tree_cost, 3);
}

proof fn lemma_rule_12_sound(s: spec_fn(Seq<char>) -> SymPattern, env: spec_fn(Seq<char>) -> SymValue)
    ensures
        rule_keeps_value(rule_mul_zero_comm(), s, env),
{
    lemma_op_names_distinct();
    reveal_with_fuel(SymPattern::subst, 3);
    reveal_with_fuel(SymPattern::eval, 3);
}

proof fn lemma_rule_12_cost(s: spec_fn(Seq<char>) -> SymPattern)
    ensures
        rule_mul_zero_comm().rhs.subst(s).tree_cost() < rule_mul_zero_comm().lhs.subst(s).tree_cost(),
{
    lemma_op_names_distinct();
    reveal_strlit("Case");
    lemma_rule_vars_cost_positive(s);
    reveal_with_fuel(SymPattern::subst, 3);
    reveal_with_fuel(SymPattern::tree_cost, 3);
}

proof fn lemma_rule_13_sound(s: spec_fn(Seq<char>) -> SymPattern, env: spec_fn(Seq<char>) -> SymValue)
    ensures
        rule_keeps_value(rule_case2_to_if_else(), s, env),
{
    lemma_op_names_distinct();
    reveal_with_fuel(SymPattern::subst, 7);
    reveal_with_fuel(SymPattern::eval, 3);
}

proof fn lemma_rule_13_cost(s: spec_fn(Seq<char>) -> SymPattern)
    ensures
        rule_case2_to_if_else().rhs.subst(s).tree_cost() < rule_case2_to_if_else().lhs.subst(s).tree_cost(),
        rule_case2_to_if_else().lhs.subst(s).tree_cost() == rule_case2_to_if_else().rhs.subst(s).tree_cost() + 106,
{
    lemma_op_names_distinct();
    reveal_strlit("Case");
    lemma_rule_vars_cost_positive(s);
    reveal_with_fuel(SymPattern::subst, 7);
    reveal_with_fuel(SymPattern::tree_cost, 7);
}

proof fn lemma_rule_14_sound(s: spec_fn(Seq<char>) -> SymPattern, env: spec_fn(Seq<char>) -> SymValue)
    ensures
        rule_keeps_value(rule_if_to_case_loose(), s, env),
{
    lemma_op_names_distinct();
    reveal_with_fuel(SymPattern::subst, 7);
    reveal_with_fuel(SymPattern::eval, 3);
}

proof fn lemma_rule_14_cost(s: spec_fn(Seq<char>) -> SymPattern)
    ensures
        rule_if_to_case_loose().rhs.subst(s).tree_cost() == rule_if_to_case_loose().lhs.subst(s).tree_cost() + 106,
{
    lemma_op_names_distinct();
    reveal_strlit("Case");
    lemma_rule_vars_cost_positive(s);
    reveal_with_fuel(SymPattern::subst, 7);
    reveal_with_fuel(SymPattern::tree_cost, 7);
}

/// Each rule of the rewriter rewrites a term only to a term of the same
/// value: for any terms `s` put in place of a rule's variables and any
/// valuation `env` of the free symbols, where the left side's instance has a
/// value, the right side's instance has that same value.
pub proof fn lemma_rewriter_rules_sound(
    s: spec_fn(Seq<char>) -> SymPattern,
    env: spec_fn(Seq<char>) -> SymValue,
)
    ensures
        forall|i: int|
            0 <= i < rewriter_rules().len() ==> rule_keeps_value(#[trigger] rewriter_rules()[i], s, env),
{
    assert forall|i: int| 0 <= i < rewriter_rules().len() implies rule_keeps_value(
        #[trigger] rewriter_rules()[i],
        s,
        env,
    ) by {
        // one lemma per rule, each unfolding that rule's own patterns
        if i == 0 {
            lemma_rule_0_sound(s, env);
        } else if i == 1 {
            lemma_rule_1_sound(s, env);
        } else if i == 2 {
            lemma_rule_2_sound(s, env);
        } else if i == 3 {
            lemma_rule_3_sound(s, env);
        } else if i == 4 {
            lemma_rule_4_sound(s, env);
        } else if i == 5 {
            lemma_rule_5_sound(s, env);
        } else if i == 6 {
            lemma_rule_6_sound(s, env);
        } else if i == 7 {
            lemma_rule_7_sound(s, env);
        } else if i == 8 {
            lemma_rule_8_sound(s, env);
        } else if i == 9 {
            lemma_rule_9_sound(s, env);
        } else if i == 10 {
            lemma_rule_10_sound(s, env);
        } else if i == 11 {
            lemma_rule_11_sound(s, env);
        } else if i == 12 {
            lemma_rule_12_sound(s, env);
        } else if i == 13 {
            lemma_rule_13_sound(s, env);
        } else if i == 14 {
            lemma_rule_14_sound(s, env);
        }
    }
}

/// How each rule of the rewriter changes the `AstDepth` cost of the term it
/// rewrites, for any terms `s` put in place of its variables: the two
/// commutations keep the cost, every other rule but the last lowers it
/// (turning a two-way `Case` into an `If` lowers it by 106), and turning an
/// `If` into a `Case` raises it by 106.
pub proof fn lemma_rewriter_rule_costs(s: spec_fn(Seq<char>) -> SymPattern)
    ensures
        forall|i: int|
            0 <= i < 2 ==> (#[trigger] rewriter_rules()[i]).rhs.subst(s).tree_cost()
                == rewriter_rules()[i].lhs.subst(s).tree_cost(),
        forall|i: int|
            2 <= i < 14 ==> (#[trigger] rewriter_rules()[i]).rhs.subst(s).tree_cost()
                < rewriter_rules()[i].lhs.subst(s).tree_cost(),
        rewriter_rules()[13].lhs.subst(s).tree_cost() == rewriter_rules()[13].rhs.subst(s).tree_cost()
            + 106,
        rewriter_rules()[14].rhs.subst(s).tree_cost() == rewriter_rules()[14].lhs.subst(s).tree_cost()
            + 106,
{
    lemma_rule_13_cost(s);
    lemma_rule_14_cost(s);
    assert forall|i: int| 0 <= i < 2 implies (#[trigger] rewriter_rules()[i]).rhs.subst(s).tree_cost()
        == rewriter_rules()[i].lhs.subst(s).tree_cost() by {
        // one lemma per rule, each unfolding that rule's own patterns
        if i == 0 {
            lemma_rule_0_cost(s);
        } else if i == 1 {
            lemma_rule_1_cost(s);
        }
    }
    assert forall|i: int| 2 <= i < 14 implies (#[trigger] rewriter_rules()[i]).rhs.subst(s).tree_cost()
        < rewriter_rules()[i].lhs.subst(s).tree_cost() by {
        // one lemma per rule, each unfolding that rule's own patterns
        if i == 2 {
            lemma_rule_2_cost(s);
        } else if i == 3 {
            lemma_rule_3_cost(s);
        } else if i == 4 {
            lemma_rule_4_cost(s);
        } else if i == 5 {
            lemma_rule_5_cost(s);
        } else if i == 6 {
            lemma_rule_6_cost(s);
        } else if i == 7 {
            lemma_rule_7_cost(s);
        } else if i == 8 {
            lemma_rule_8_cost(s);
        } else if i == 9 {
            lemma_rule_9_cost(s);
        } else if i == 10 {
            lemma_rule_10_cost(s);
        } else if i == 11 {
            lemma_rule_11_cost(s);
        } else if i == 12 {
            lemma_rule_12_cost(s);
        } else if i == 13 {
            lemma_rule_13_cost(s);
        }
    }
}

/// The rewriter's rules, rule by rule: each rule's name, left side and
/// right side, with the original's pattern beside it.
pub proof fn lemma_rewriter_rules_table()
    ensures
        rewriter_rules().len() == 15,
        // and-commute: (And ?a ?b) => (And ?b ?a)
        rewriter_rules()[0] == (SymRule {
            name: "and-commute",
            lhs: SymPattern::Node2("And", Box::new(SymPattern::Var("a")), Box::new(SymPattern::Var("b"))),
            rhs: SymPattern::Node2("And", Box::new(SymPattern::Var("b")), Box::new(SymPattern::Var("a"))),
        }),
        // or-commute: (Or ?a ?b) => (Or ?b ?a)
        rewriter_rules()[1] == (SymRule {
            name: "or-commute",
            lhs: SymPattern::Node2("Or", Box::new(SymPattern::Var("a")), Box::new(SymPattern::Var("b"))),
            rhs: SymPattern::Node2("Or", Box::new(SymPattern::Var("b")), Box::new(SymPattern::Var("a"))),
        }),
        // and-id: (And ?a true) => ?a
        rewriter_rules()[2] == (SymRule {
            name: "and-id",
            lhs: SymPattern::Node2("And", Box::new(SymPattern::Var("a")), Box::new(SymPattern::Leaf("true"))),
            rhs: SymPattern::Var("a"),
        }),
        // or-id: (Or ?a false) => ?a
        rewriter_rules()[3] == (SymRule {
            name: "or-id",
            lhs: SymPattern::Node2("Or", Box::new(SymPattern::Var("a")), Box::new(SymPattern::Leaf("false"))),
            rhs: SymPattern::Var("a"),
        }),
        // if-true: (If true ?a ?b) => ?a
        rewriter_rules()[4] == (SymRule {
            name: "if-true",
            lhs: SymPattern::Node3("If", Box::new(SymPattern::Leaf("true")), Box::new(SymPattern::Var("a")), Box::new(SymPattern::Var("b"))),
            rhs: SymPattern::Var("a"),
        }),
        // if-false: (If false ?a ?b) => ?b
        rewriter_rules()[5] == (SymRule {
            name: "if-false",
            lhs: SymPattern::Node3("If", Box::new(SymPattern::Leaf("false")), Box::new(SymPattern::Var("a")), Box::new(SymPattern::Var("b"))),
            rhs: SymPattern::Var("b"),
        }),
        // if-same: (If ?cond ?a ?a) => ?a
        rewriter_rules()[6] == (SymRule {
            name: "if-same",
            lhs: SymPattern::Node3("If", Box::new(SymPattern::Var("cond")), Box::new(SymPattern::Var("a")), Box::new(SymPattern::Var("a"))),
            rhs: SymPattern::Var("a"),
        }),
        // add-zero: (Add ?a 0) => ?a
        rewriter_rules()[7] == (SymRule {
            name: "add-zero",
            lhs: SymPattern::Node2("Add", Box::new(SymPattern::Var("a")), Box::new(SymPattern::Leaf("0"))),
            rhs: SymPattern::Var("a"),
        }),
        // add-zero-comm: (Add 0 ?a) => ?a
        rewriter_rules()[8] == (SymRule {
            name: "add-zero-comm",
            lhs: SymPattern::Node2("Add", Box::new(SymPattern::Leaf("0")), Box::new(SymPattern::Var("a"))),
            rhs: SymPattern::Var("a"),
        }),
        // mul-one: (Mul ?a 1) => ?a
        rewriter_rules()[9] == (SymRule {
            name: "mul-one",
            lhs: SymPattern::Node2("Mul", Box::new(SymPattern::Var("a")), Box::new(SymPattern::Leaf("1"))),
            rhs: SymPattern::Var("a"),
        }),
        // mul-one-comm: (Mul 1 ?a) => ?a
        rewriter_rules()[10] == (SymRule {
            name: "mul-one-comm",
            lhs: SymPattern::Node2("Mul", Box::new(SymPattern::Leaf("1")), Box::new(SymPattern::Var("a"))),
            rhs: SymPattern::Var("a"),
        }),
        // mul-zero: (Mul ?a 0) => 0
        rewriter_rules()[11] == (SymRule {
            name: "mul-zero",
            lhs: SymPattern::Node2("Mul", Box::new(SymPattern::Var("a")), Box::new(SymPattern::Leaf("0"))),
            rhs: SymPattern::Leaf("0"),
        }),
        // mul-zero-comm: (Mul 0 ?a) => 0
        rewriter_rules()[12] == (SymRule {
            name: "mul-zero-comm",
            lhs: SymPattern::Node2("Mul", Box::new(SymPattern::Leaf("0")), Box::new(SymPattern::Var("a"))),
            rhs: SymPattern::Leaf("0"),
        }),
        // case2-to-if-else: (Case ?sel (TpCaseList (TpCase (TpCaseLblList (CaseLbl ?l1)) ?v1) (TpCase (TpCaseLblList default) ?v2))) => (If (Eq ?sel ?l1) ?v1 ?v2)
        rewriter_rules()[13] == (SymRule {
            name: "case2-to-if-else",
            lhs: SymPattern::Node2("Case", Box::new(SymPattern::Var("sel")), Box::new(SymPattern::Node2("TpCaseList", Box::new(SymPattern::Node2("TpCase", Box::new(SymPattern::Node1("TpCaseLblList", Box::new(SymPattern::Node1("CaseLbl", Box::new(SymPattern::Var("l1")))))), Box::new(SymPattern::Var("v1")))), Box::new(SymPattern::Node2("TpCase", Box::new(SymPattern::Node1("TpCaseLblList", Box::new(SymPattern::Leaf("default")))), Box::new(SymPattern::Var("v2"))))))),
            rhs: SymPattern::Node3("If", Box::new(SymPattern::Node2("Eq", Box::new(SymPattern::Var("sel")), Box::new(SymPattern::Var("l1")))), Box::new(SymPattern::Var("v1")), Box::new(SymPattern::Var("v2"))),
        }),
        // if-to-case-loose: (If (Eq ?sel ?label) ?then ?else) => (Case ?sel (TpCaseList (TpCase (TpCaseLblList (CaseLbl ?label)) ?then) (TpCase (TpCaseLblList default) ?else)))
        rewriter_rules()[14] == (SymRule {
            name: "if-to-case-loose",
            lhs: SymPattern::Node3("If", Box::new(SymPattern::Node2("Eq", Box::new(SymPattern::Var("sel")), Box::new(SymPattern::Var("label")))), Box::new(SymPattern::Var("then")), Box::new(SymPattern::Var("else"))),
            rhs: SymPattern::Node2("Case", Box::new(SymPattern::Var("sel")), Box::new(SymPattern::Node2("TpCaseList", Box::new(SymPattern::Node2("TpCase", Box::new(SymPattern::Node1("TpCaseLblList", Box::new(SymPattern::Node1("CaseLbl", Box::new(SymPattern::Var("label")))))), Box::new(SymPattern::Var("then")))), Box::new(SymPattern::Node2("TpCase", Box::new(SymPattern::Node1("TpCaseLblList", Box::new(SymPattern::Leaf("default")))), Box::new(SymPattern::Var("else"))))))),
        }),
{
}

} // verus!

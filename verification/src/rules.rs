//! The rewrite rules of the propositional environment, as data: each rule
//! has a name and a left and right pattern, and is applied left to right.

use vstd::prelude::*;
use crate::pattern::{and, imp, lemma_equal_fillings, lemma_subst_eval, not, or, var, PropPattern};

verus! {

/// A rewrite rule: occurrences of `lhs` may be rewritten to `rhs`.
#[derive(Debug)]
pub struct RuleSpec {
    pub name: &'static str,
    pub lhs: PropPattern,
    pub rhs: PropPattern,
}

pub open spec fn spec_rule(name: &'static str, lhs: PropPattern, rhs: PropPattern) -> RuleSpec {
    RuleSpec { name, lhs, rhs }
}

/// The rule `name: lhs => rhs`.
#[verifier::when_used_as_spec(spec_rule)]
pub fn rule(name: &'static str, lhs: PropPattern, rhs: PropPattern) -> (r: RuleSpec)
    ensures
        r == spec_rule(name, lhs, rhs),
{
    RuleSpec { name, lhs, rhs }
}

/// A rule is an equality: both sides take the same truth value under every
/// assignment of the variables.
pub open spec fn is_equality(r: RuleSpec) -> bool {
    forall|env: spec_fn(Seq<char>) -> bool| #[trigger] r.lhs.eval(env) == r.rhs.eval(env)
}

/// Every variable of the right side is bound by the left side, as a rewrite
/// needs to instantiate its right side.
pub open spec fn binds_vars(r: RuleSpec) -> bool {
    r.rhs.vars().subset_of(r.lhs.vars())
}

/// The Boolean-algebra rule set: absorbing and complementary elements,
/// covering and combining, and both directions of identity, idempotency,
/// involution, commutativity, associativity, distributivity, consensus and
/// De Morgan (the reverse direction of a rule `n` is named `n-rev`).
pub open spec fn enhance_rules() -> Seq<RuleSpec> {
    seq![
        rule("null-element1", and(var("b"), PropPattern::Zero), PropPattern::Zero),
        rule("null-element2", or(var("b"), PropPattern::One), PropPattern::One),
        rule("complements1", and(var("b"), not(var("b"))), PropPattern::Zero),
        rule("complements2", or(var("b"), not(var("b"))), PropPattern::One),
        rule("covering1", and(var("b"), or(var("b"), var("c"))), var("b")),
        rule("covering2", or(var("b"), and(var("b"), var("c"))), var("b")),
        rule("combining1", or(and(var("b"), var("c")), and(var("b"), not(var("c")))), var("b")),
        rule("combining2", and(or(var("b"), var("c")), or(var("b"), not(var("c")))), var("b")),
        rule("identity1", and(var("b"), PropPattern::One), var("b")),
        rule("identity1-rev", var("b"), and(var("b"), PropPattern::One)),
        rule("identity2", or(var("b"), PropPattern::Zero), var("b")),
        rule("identity2-rev", var("b"), or(var("b"), PropPattern::Zero)),
        rule("idempotency1", and(var("b"), var("b")), var("b")),
        rule("idempotency1-rev", var("b"), and(var("b"), var("b"))),
        rule("idempotency2", or(var("b"), var("b")), var("b")),
        rule("idempotency2-rev", var("b"), or(var("b"), var("b"))),
        rule("involution1", not(not(var("b"))), var("b")),
        rule("involution1-rev", var("b"), not(not(var("b")))),
        rule("commutativity1", and(var("b"), var("c")), and(var("c"), var("b"))),
        rule("commutativity1-rev", and(var("c"), var("b")), and(var("b"), var("c"))),
        rule("commutativity2", or(var("b"), var("c")), or(var("c"), var("b"))),
        rule("commutativity2-rev", or(var("c"), var("b")), or(var("b"), var("c"))),
        rule("associativity1", and(and(var("b"), var("c")), var("d")), and(var("b"), and(var("c"), var("d")))),
        rule("associativity1-rev", and(var("b"), and(var("c"), var("d"))), and(and(var("b"), var("c")), var("d"))),
        rule("associativity2", or(or(var("b"), var("c")), var("d")), or(var("b"), or(var("c"), var("d")))),
        rule("associativity2-rev", or(var("b"), or(var("c"), var("d"))), or(or(var("b"), var("c")), var("d"))),
        rule("distributivity1", or(and(var("b"), var("c")), and(var("b"), var("d"))), and(var("b"), or(var("c"), var("d")))),
        rule("distributivity1-rev", and(var("b"), or(var("c"), var("d"))), or(and(var("b"), var("c")), and(var("b"), var("d")))),
        rule("distributivity2", and(or(var("b"), var("c")), or(var("b"), var("d"))), or(var("b"), and(var("c"), var("d")))),
        rule("distributivity2-rev", or(var("b"), and(var("c"), var("d"))), and(or(var("b"), var("c")), or(var("b"), var("d")))),
        rule("consensus1", or(or(and(var("b"), var("c")), and(not(var("b")), var("d"))), and(var("c"), var("d"))), or(and(var("b"), var("c")), and(not(var("b")), var("d")))),
        rule("consensus1-rev", or(and(var("b"), var("c")), and(not(var("b")), var("d"))), or(or(and(var("b"), var("c")), and(not(var("b")), var("d"))), and(var("c"), var("d")))),
        rule("consensus2", and(and(or(var("b"), var("c")), or(not(var("b")), var("d"))), or(var("c"), var("d"))), and(or(var("b"), var("c")), or(not(var("b")), var("d")))),
        rule("consensus2-rev", and(or(var("b"), var("c")), or(not(var("b")), var("d"))), and(and(or(var("b"), var("c")), or(not(var("b")), var("d"))), or(var("c"), var("d")))),
        rule("de-morgan1", not(and(var("b"), var("c"))), or(not(var("b")), not(var("c")))),
        rule("de-morgan1-rev", or(not(var("b")), not(var("c"))), not(and(var("b"), var("c")))),
        rule("de-morgan2", not(or(var("b"), var("c"))), and(not(var("b")), not(var("c")))),
        rule("de-morgan2-rev", and(not(var("b")), not(var("c"))), not(or(var("b"), var("c")))),
    ]
}

/// Builds the rules of [`enhance_rules`].
pub fn make_rules_enhance() -> (rules: Vec<RuleSpec>)
    ensures
        rules@ == enhance_rules(),
{
    let mut rules: Vec<RuleSpec> = Vec::new();
    rules.push(rule("null-element1", and(var("b"), PropPattern::Zero), PropPattern::Zero));
    rules.push(rule("null-element2", or(var("b"), PropPattern::One), PropPattern::One));
    rules.push(rule("complements1", and(var("b"), not(var("b"))), PropPattern::Zero));
    rules.push(rule("complements2", or(var("b"), not(var("b"))), PropPattern::One));
    rules.push(rule("covering1", and(var("b"), or(var("b"), var("c"))), var("b")));
    rules.push(rule("covering2", or(var("b"), and(var("b"), var("c"))), var("b")));
    rules.push(rule("combining1", or(and(var("b"), var("c")), and(var("b"), not(var("c")))), var("b")));
    rules.push(rule("combining2", and(or(var("b"), var("c")), or(var("b"), not(var("c")))), var("b")));
    rules.push(rule("identity1", and(var("b"), PropPattern::One), var("b")));
    rules.push(rule("identity1-rev", var("b"), and(var("b"), PropPattern::One)));
    rules.push(rule("identity2", or(var("b"), PropPattern::Zero), var("b")));
    rules.push(rule("identity2-rev", var("b"), or(var("b"), PropPattern::Zero)));
    rules.push(rule("idempotency1", and(var("b"), var("b")), var("b")));
    rules.push(rule("idempotency1-rev", var("b"), and(var("b"), var("b"))));
    rules.push(rule("idempotency2", or(var("b"), var("b")), var("b")));
    rules.push(rule("idempotency2-rev", var("b"), or(var("b"), var("b"))));
    rules.push(rule("involution1", not(not(var("b"))), var("b")));
    rules.push(rule("involution1-rev", var("b"), not(not(var("b")))));
    rules.push(rule("commutativity1", and(var("b"), var("c")), and(var("c"), var("b"))));
    rules.push(rule("commutativity1-rev", and(var("c"), var("b")), and(var("b"), var("c"))));
    rules.push(rule("commutativity2", or(var("b"), var("c")), or(var("c"), var("b"))));
    rules.push(rule("commutativity2-rev", or(var("c"), var("b")), or(var("b"), var("c"))));
    rules.push(rule("associativity1", and(and(var("b"), var("c")), var("d")), and(var("b"), and(var("c"), var("d")))));
    rules.push(rule("associativity1-rev", and(var("b"), and(var("c"), var("d"))), and(and(var("b"), var("c")), var("d"))));
    rules.push(rule("associativity2", or(or(var("b"), var("c")), var("d")), or(var("b"), or(var("c"), var("d")))));
    rules.push(rule("associativity2-rev", or(var("b"), or(var("c"), var("d"))), or(or(var("b"), var("c")), var("d"))));
    rules.push(rule("distributivity1", or(and(var("b"), var("c")), and(var("b"), var("d"))), and(var("b"), or(var("c"), var("d")))));
    rules.push(rule("distributivity1-rev", and(var("b"), or(var("c"), var("d"))), or(and(var("b"), var("c")), and(var("b"), var("d")))));
    rules.push(rule("distributivity2", and(or(var("b"), var("c")), or(var("b"), var("d"))), or(var("b"), and(var("c"), var("d")))));
    rules.push(rule("distributivity2-rev", or(var("b"), and(var("c"), var("d"))), and(or(var("b"), var("c")), or(var("b"), var("d")))));
    rules.push(rule("consensus1", or(or(and(var("b"), var("c")), and(not(var("b")), var("d"))), and(var("c"), var("d"))), or(and(var("b"), var("c")), and(not(var("b")), var("d")))));
    rules.push(rule("consensus1-rev", or(and(var("b"), var("c")), and(not(var("b")), var("d"))), or(or(and(var("b"), var("c")), and(not(var("b")), var("d"))), and(var("c"), var("d")))));
    rules.push(rule("consensus2", and(and(or(var("b"), var("c")), or(not(var("b")), var("d"))), or(var("c"), var("d"))), and(or(var("b"), var("c")), or(not(var("b")), var("d")))));
    rules.push(rule("consensus2-rev", and(or(var("b"), var("c")), or(not(var("b")), var("d"))), and(and(or(var("b"), var("c")), or(not(var("b")), var("d"))), or(var("c"), var("d")))));
    rules.push(rule("de-morgan1", not(and(var("b"), var("c"))), or(not(var("b")), not(var("c")))));
    rules.push(rule("de-morgan1-rev", or(not(var("b")), not(var("c"))), not(and(var("b"), var("c")))));
    rules.push(rule("de-morgan2", not(or(var("b"), var("c"))), and(not(var("b")), not(var("c")))));
    rules.push(rule("de-morgan2-rev", and(not(var("b")), not(var("c"))), not(or(var("b"), var("c")))));
    assert(rules@ =~= enhance_rules());
    rules
}

/// The theorem rule set: implication elimination and contraposition,
/// double negation, association, distribution, commutation, absorption and
/// consensus, each in the one direction given.
pub open spec fn basic_rules() -> Seq<RuleSpec> {
    seq![
        rule("th1", imp(var("x"), var("y")), or(not(var("x")), var("y"))),
        rule("th2", not(not(var("x"))), var("x")),
        rule("th3", or(var("x"), or(var("y"), var("z"))), or(or(var("x"), var("y")), var("z"))),
        rule("th4", and(var("x"), or(var("y"), var("z"))), or(and(var("x"), var("y")), and(var("x"), var("z")))),
        rule("th5", or(var("x"), and(var("y"), var("z"))), and(or(var("x"), var("y")), or(var("x"), var("z")))),
        rule("th6", or(var("x"), var("y")), or(var("y"), var("x"))),
        rule("th7", and(var("x"), var("y")), and(var("y"), var("x"))),
        rule("th9", imp(var("x"), var("y")), imp(not(var("y")), not(var("x")))),
        rule("th10", or(var("x"), and(var("x"), var("y"))), var("x")),
        rule("th11", or(var("x"), and(not(var("x")), var("y"))), or(var("x"), var("y"))),
        rule("th12", or(and(var("x"), var("y")), or(and(not(var("x")), var("z")), and(var("y"), var("z")))), or(and(var("x"), var("y")), and(not(var("x")), var("z")))),
        rule("th13", and(var("x"), or(var("x"), var("y"))), var("x")),
        rule("th14", and(var("x"), or(not(var("x")), var("y"))), and(var("x"), var("y"))),
        rule("th15", and(or(var("x"), var("y")), or(var("x"), not(var("y")))), var("x")),
        rule("th16", and(or(var("x"), var("y")), or(not(var("x")), var("z"))), or(and(var("x"), var("z")), and(not(var("x")), var("y")))),
        rule("th17", and(or(var("x"), var("y")), and(or(not(var("x")), var("z")), or(var("y"), var("z")))), and(or(var("x"), var("y")), or(not(var("x")), var("z")))),
    ]
}

/// Builds the rules of [`basic_rules`].
pub fn make_rules_basic() -> (rules: Vec<RuleSpec>)
    ensures
        rules@ == basic_rules(),
{
    let mut rules: Vec<RuleSpec> = Vec::new();
    rules.push(rule("th1", imp(var("x"), var("y")), or(not(var("x")), var("y"))));
    rules.push(rule("th2", not(not(var("x"))), var("x")));
    rules.push(rule("th3", or(var("x"), or(var("y"), var("z"))), or(or(var("x"), var("y")), var("z"))));
    rules.push(rule("th4", and(var("x"), or(var("y"), var("z"))), or(and(var("x"), var("y")), and(var("x"), var("z")))));
    rules.push(rule("th5", or(var("x"), and(var("y"), var("z"))), and(or(var("x"), var("y")), or(var("x"), var("z")))));
    rules.push(rule("th6", or(var("x"), var("y")), or(var("y"), var("x"))));
    rules.push(rule("th7", and(var("x"), var("y")), and(var("y"), var("x"))));
    rules.push(rule("th9", imp(var("x"), var("y")), imp(not(var("y")), not(var("x")))));
    rules.push(rule("th10", or(var("x"), and(var("x"), var("y"))), var("x")));
    rules.push(rule("th11", or(var("x"), and(not(var("x")), var("y"))), or(var("x"), var("y"))));
    rules.push(rule("th12", or(and(var("x"), var("y")), or(and(not(var("x")), var("z")), and(var("y"), var("z")))), or(and(var("x"), var("y")), and(not(var("x")), var("z")))));
    rules.push(rule("th13", and(var("x"), or(var("x"), var("y"))), var("x")));
    rules.push(rule("th14", and(var("x"), or(not(var("x")), var("y"))), and(var("x"), var("y"))));
    rules.push(rule("th15", and(or(var("x"), var("y")), or(var("x"), not(var("y")))), var("x")));
    rules.push(rule("th16", and(or(var("x"), var("y")), or(not(var("x")), var("z"))), or(and(var("x"), var("z")), and(not(var("x")), var("y")))));
    rules.push(rule("th17", and(or(var("x"), var("y")), and(or(not(var("x")), var("z")), or(var("y"), var("z")))), and(or(var("x"), var("y")), or(not(var("x")), var("z")))));
    assert(rules@ =~= basic_rules());
    rules
}


/// All the rules of the environment: the Boolean-algebra set followed by the
/// theorem set.
pub open spec fn all_rules() -> Seq<RuleSpec> {
    enhance_rules() + basic_rules()
}

/// Builds the rules of [`all_rules`].
pub fn make_all_rules() -> (rules: Vec<RuleSpec>)
    ensures
        rules@ == all_rules(),
        rules@.len() == 54,
{
    let mut rules = make_rules_enhance();
    let mut basic = make_rules_basic();
    rules.append(&mut basic);
    rules
}

/// Every rule of the Boolean-algebra set is an equality and binds the
/// variables of its right side.
pub proof fn lemma_enhance_rules_valid()
    ensures
        forall|i: int| 0 <= i < enhance_rules().len() ==> is_equality(#[trigger] enhance_rules()[i]),
        forall|i: int| 0 <= i < enhance_rules().len() ==> binds_vars(#[trigger] enhance_rules()[i]),
{
    let t = enhance_rules();
    assert forall|i: int| 0 <= i < t.len() implies is_equality(#[trigger] t[i]) && binds_vars(t[i]) by {
        reveal_with_fuel(PropPattern::eval, 5);
        reveal_with_fuel(PropPattern::vars, 5);
        // one branch per rule, so that each is unfolded on its own patterns
            if i == 0 {
            } else if i == 1 {
            } else if i == 2 {
            } else if i == 3 {
            } else if i == 4 {
            } else if i == 5 {
            } else if i == 6 {
            } else if i == 7 {
            } else if i == 8 {
            } else if i == 9 {
            } else if i == 10 {
            } else if i == 11 {
            } else if i == 12 {
            } else if i == 13 {
            } else if i == 14 {
            } else if i == 15 {
            } else if i == 16 {
            } else if i == 17 {
            } else if i == 18 {
            } else if i == 19 {
            } else if i == 20 {
            } else if i == 21 {
            } else if i == 22 {
            } else if i == 23 {
            } else if i == 24 {
            } else if i == 25 {
            } else if i == 26 {
            } else if i == 27 {
            } else if i == 28 {
            } else if i == 29 {
            } else if i == 30 {
            } else if i == 31 {
            } else if i == 32 {
            } else if i == 33 {
            } else if i == 34 {
            } else if i == 35 {
            } else if i == 36 {
            } else if i == 37 {
            }
    }
}

/// Every rule of the theorem set is an equality and binds the variables of
/// its right side.
pub proof fn lemma_basic_rules_valid()
    ensures
        forall|i: int| 0 <= i < basic_rules().len() ==> is_equality(#[trigger] basic_rules()[i]),
        forall|i: int| 0 <= i < basic_rules().len() ==> binds_vars(#[trigger] basic_rules()[i]),
{
    let t = basic_rules();
    assert forall|i: int| 0 <= i < t.len() implies is_equality(#[trigger] t[i]) && binds_vars(t[i]) by {
        reveal_with_fuel(PropPattern::eval, 5);
        reveal_with_fuel(PropPattern::vars, 5);
        // one branch per rule, so that each is unfolded on its own patterns
            if i == 0 {
            } else if i == 1 {
            } else if i == 2 {
            } else if i == 3 {
            } else if i == 4 {
            } else if i == 5 {
            } else if i == 6 {
            } else if i == 7 {
            } else if i == 8 {
            } else if i == 9 {
            } else if i == 10 {
            } else if i == 11 {
            } else if i == 12 {
            } else if i == 13 {
            } else if i == 14 {
            } else if i == 15 {
            }
    }
}

/// Every rule of the environment is sound: rewriting with it never changes
/// the truth value of an expression, and its right side only uses variables
/// its left side binds.
pub proof fn lemma_all_rules_valid()
    ensures
        forall|i: int| 0 <= i < all_rules().len() ==> is_equality(#[trigger] all_rules()[i]),
        forall|i: int| 0 <= i < all_rules().len() ==> binds_vars(#[trigger] all_rules()[i]),
{
    lemma_enhance_rules_valid();
    lemma_basic_rules_valid();
    let (a, b) = (enhance_rules(), basic_rules());
    assert forall|i: int| 0 <= i < all_rules().len() implies is_equality(#[trigger] all_rules()[i])
        && binds_vars(all_rules()[i]) by {
        if i < a.len() {
            assert(all_rules()[i] == a[i]);
        } else {
            assert(all_rules()[i] == b[i - a.len()]);
        }
    }
}

/// Rewriting keeps the value of the whole term.  Take a term `ctx` whose
/// variable `hole` marks the place rewritten and whose other variables are
/// filled by `fill`; putting there an instance (under `s`) of the left side
/// of any rule of the environment, or the same instance of its right side,
/// gives terms of the same value under every assignment.
pub proof fn lemma_rule_rewrite_keeps_value(
    i: int,
    s: spec_fn(Seq<char>) -> PropPattern,
    ctx: PropPattern,
    hole: Seq<char>,
    fill: spec_fn(Seq<char>) -> PropPattern,
    env: spec_fn(Seq<char>) -> bool,
)
    requires
        0 <= i < all_rules().len(),
    ensures
        ctx.subst(|v: Seq<char>| if v == hole { all_rules()[i].lhs.subst(s) } else { fill(v) }).eval(env)
            == ctx.subst(|v: Seq<char>| if v == hole { all_rules()[i].rhs.subst(s) } else { fill(v) }).eval(env),
{
    let r = all_rules()[i];
    lemma_all_rules_valid();
    let inst = |v: Seq<char>| s(v).eval(env);
    assert(is_equality(r));
    assert(r.lhs.eval(inst) == r.rhs.eval(inst));
    lemma_subst_eval(r.lhs, s, env);
    lemma_subst_eval(r.rhs, s, env);
    let f1 = |v: Seq<char>| if v == hole { r.lhs.subst(s) } else { fill(v) };
    let f2 = |v: Seq<char>| if v == hole { r.rhs.subst(s) } else { fill(v) };
    lemma_equal_fillings(ctx, f1, f2, env);
}

/// The Boolean-algebra rule set, rule by rule: each rule's name, left side
/// and right side, with the original's pattern beside it.
pub proof fn lemma_enhance_rules_table()
    ensures
        enhance_rules().len() == 38,
        // null-element1: (* ?b 0) => 0
        enhance_rules()[0] == (RuleSpec {
            name: "null-element1",
            lhs: PropPattern::And(Box::new(PropPattern::Var("b")), Box::new(PropPattern::Zero)),
            rhs: PropPattern::Zero,
        }),
        // null-element2: (+ ?b 1) => 1
        enhance_rules()[1] == (RuleSpec {
            name: "null-element2",
            lhs: PropPattern::Or(Box::new(PropPattern::Var("b")), Box::new(PropPattern::One)),
            rhs: PropPattern::One,
        }),
        // complements1: (* ?b (! ?b)) => 0
        enhance_rules()[2] == (RuleSpec {
            name: "complements1",
            lhs: PropPattern::And(Box::new(PropPattern::Var("b")), Box::new(PropPattern::Not(Box::new(PropPattern::Var("b"))))),
            rhs: PropPattern::Zero,
        }),
        // complements2: (+ ?b (! ?b)) => 1
        enhance_rules()[3] == (RuleSpec {
            name: "complements2",
            lhs: PropPattern::Or(Box::new(PropPattern::Var("b")), Box::new(PropPattern::Not(Box::new(PropPattern::Var("b"))))),
            rhs: PropPattern::One,
        }),
        // covering1: (* ?b (+ ?b ?c)) => ?b
        enhance_rules()[4] == (RuleSpec {
            name: "covering1",
            lhs: PropPattern::And(Box::new(PropPattern::Var("b")), Box::new(PropPattern::Or(Box::new(PropPattern::Var("b")), Box::new(PropPattern::Var("c"))))),
            rhs: PropPattern::Var("b"),
        }),
        // covering2: (+ ?b (* ?b ?c)) => ?b
        enhance_rules()[5] == (RuleSpec {
            name: "covering2",
            lhs: PropPattern::Or(Box::new(PropPattern::Var("b")), Box::new(PropPattern::And(Box::new(PropPattern::Var("b")), Box::new(PropPattern::Var("c"))))),
            rhs: PropPattern::Var("b"),
        }),
        // combining1: (+ (* ?b ?c) (* ?b (! ?c))) => ?b
        enhance_rules()[6] == (RuleSpec {
            name: "combining1",
            lhs: PropPattern::Or(Box::new(PropPattern::And(Box::new(PropPattern::Var("b")), Box::new(PropPattern::Var("c")))), Box::new(PropPattern::And(Box::new(PropPattern::Var("b")), Box::new(PropPattern::Not(Box::new(PropPattern::Var("c"))))))),
            rhs: PropPattern::Var("b"),
        }),
        // combining2: (* (+ ?b ?c) (+ ?b (! ?c))) => ?b
        enhance_rules()[7] == (RuleSpec {
            name: "combining2",
            lhs: PropPattern::And(Box::new(PropPattern::Or(Box::new(PropPattern::Var("b")), Box::new(PropPattern::Var("c")))), Box::new(PropPattern::Or(Box::new(PropPattern::Var("b")), Box::new(PropPattern::Not(Box::new(PropPattern::Var("c"))))))),
            rhs: PropPattern::Var("b"),
        }),
        // identity1: (* ?b 1) => ?b
        enhance_rules()[8] == (RuleSpec {
            name: "identity1",
            lhs: PropPattern::And(Box::new(PropPattern::Var("b")), Box::new(PropPattern::One)),
            rhs: PropPattern::Var("b"),
        }),
        // identity1-rev: ?b => (* ?b 1)
        enhance_rules()[9] == (RuleSpec {
            name: "identity1-rev",
            lhs: PropPattern::Var("b"),
            rhs: PropPattern::And(Box::new(PropPattern::Var("b")), Box::new(PropPattern::One)),
        }),
        // identity2: (+ ?b 0) => ?b
        enhance_rules()[10] == (RuleSpec {
            name: "identity2",
            lhs: PropPattern::Or(Box::new(PropPattern::Var("b")), Box::new(PropPattern::Zero)),
            rhs: PropPattern::Var("b"),
        }),
        // identity2-rev: ?b => (+ ?b 0)
        enhance_rules()[11] == (RuleSpec {
            name: "identity2-rev",
            lhs: PropPattern::Var("b"),
            rhs: PropPattern::Or(Box::new(PropPattern::Var("b")), Box::new(PropPattern::Zero)),
        }),
        // idempotency1: (* ?b ?b) => ?b
        enhance_rules()[12] == (RuleSpec {
            name: "idempotency1",
            lhs: PropPattern::And(Box::new(PropPattern::Var("b")), Box::new(PropPattern::Var("b"))),
            rhs: PropPattern::Var("b"),
        }),
        // idempotency1-rev: ?b => (* ?b ?b)
        enhance_rules()[13] == (RuleSpec {
            name: "idempotency1-rev",
            lhs: PropPattern::Var("b"),
            rhs: PropPattern::And(Box::new(PropPattern::Var("b")), Box::new(PropPattern::Var("b"))),
        }),
        // idempotency2: (+ ?b ?b) => ?b
        enhance_rules()[14] == (RuleSpec {
            name: "idempotency2",
            lhs: PropPattern::Or(Box::new(PropPattern::Var("b")), Box::new(PropPattern::Var("b"))),
            rhs: PropPattern::Var("b"),
        }),
        // idempotency2-rev: ?b => (+ ?b ?b)
        enhance_rules()[15] == (RuleSpec {
            name: "idempotency2-rev",
            lhs: PropPattern::Var("b"),
            rhs: PropPattern::Or(Box::new(PropPattern::Var("b")), Box::new(PropPattern::Var("b"))),
        }),
        // involution1: (! (! ?b)) => ?b
        enhance_rules()[16] == (RuleSpec {
            name: "involution1",
            lhs: PropPattern::Not(Box::new(PropPattern::Not(Box::new(PropPattern::Var("b"))))),
            rhs: PropPattern::Var("b"),
        }),
        // involution1-rev: ?b => (! (! ?b))
        enhance_rules()[17] == (RuleSpec {
            name: "involution1-rev",
            lhs: PropPattern::Var("b"),
            rhs: PropPattern::Not(Box::new(PropPattern::Not(Box::new(PropPattern::Var("b"))))),
        }),
        // commutativity1: (* ?b ?c) => (* ?c ?b)
        enhance_rules()[18] == (RuleSpec {
            name: "commutativity1",
            lhs: PropPattern::And(Box::new(PropPattern::Var("b")), Box::new(PropPattern::Var("c"))),
            rhs: PropPattern::And(Box::new(PropPattern::Var("c")), Box::new(PropPattern::Var("b"))),
        }),
        // commutativity1-rev: (* ?c ?b) => (* ?b ?c)
        enhance_rules()[19] == (RuleSpec {
            name: "commutativity1-rev",
            lhs: PropPattern::And(Box::new(PropPattern::Var("c")), Box::new(PropPattern::Var("b"))),
            rhs: PropPattern::And(Box::new(PropPattern::Var("b")), Box::new(PropPattern::Var("c"))),
        }),
        // commutativity2: (+ ?b ?c) => (+ ?c ?b)
        enhance_rules()[20] == (RuleSpec {
            name: "commutativity2",
            lhs: PropPattern::Or(Box::new(PropPattern::Var("b")), Box::new(PropPattern::Var("c"))),
            rhs: PropPattern::Or(Box::new(PropPattern::Var("c")), Box::new(PropPattern::Var("b"))),
        }),
        // commutativity2-rev: (+ ?c ?b) => (+ ?b ?c)
        enhance_rules()[21] == (RuleSpec {
            name: "commutativity2-rev",
            lhs: PropPattern::Or(Box::new(PropPattern::Var("c")), Box::new(PropPattern::Var("b"))),
            rhs: PropPattern::Or(Box::new(PropPattern::Var("b")), Box::new(PropPattern::Var("c"))),
        }),
        // associativity1: (* (* ?b ?c) ?d) => (* ?b (* ?c ?d))
        enhance_rules()[22] == (RuleSpec {
            name: "associativity1",
            lhs: PropPattern::And(Box::new(PropPattern::And(Box::new(PropPattern::Var("b")), Box::new(PropPattern::Var("c")))), Box::new(PropPattern::Var("d"))),
            rhs: PropPattern::And(Box::new(PropPattern::Var("b")), Box::new(PropPattern::And(Box::new(PropPattern::Var("c")), Box::new(PropPattern::Var("d"))))),
        }),
        // associativity1-rev: (* ?b (* ?c ?d)) => (* (* ?b ?c) ?d)
        enhance_rules()[23] == (RuleSpec {
            name: "associativity1-rev",
            lhs: PropPattern::And(Box::new(PropPattern::Var("b")), Box::new(PropPattern::And(Box::new(PropPattern::Var("c")), Box::new(PropPattern::Var("d"))))),
            rhs: PropPattern::And(Box::new(PropPattern::And(Box::new(PropPattern::Var("b")), Box::new(PropPattern::Var("c")))), Box::new(PropPattern::Var("d"))),
        }),
        // associativity2: (+ (+ ?b ?c) ?d) => (+ ?b (+ ?c ?d))
        enhance_rules()[24] == (RuleSpec {
            name: "associativity2",
            lhs: PropPattern::Or(Box::new(PropPattern::Or(Box::new(PropPattern::Var("b")), Box::new(PropPattern::Var("c")))), Box::new(PropPattern::Var("d"))),
            rhs: PropPattern::Or(Box::new(PropPattern::Var("b")), Box::new(PropPattern::Or(Box::new(PropPattern::Var("c")), Box::new(PropPattern::Var("d"))))),
        }),
        // associativity2-rev: (+ ?b (+ ?c ?d)) => (+ (+ ?b ?c) ?d)
        enhance_rules()[25] == (RuleSpec {
            name: "associativity2-rev",
            lhs: PropPattern::Or(Box::new(PropPattern::Var("b")), Box::new(PropPattern::Or(Box::new(PropPattern::Var("c")), Box::new(PropPattern::Var("d"))))),
            rhs: PropPattern::Or(Box::new(PropPattern::Or(Box::new(PropPattern::Var("b")), Box::new(PropPattern::Var("c")))), Box::new(PropPattern::Var("d"))),
        }),
        // distributivity1: (+ (* ?b ?c) (* ?b ?d)) => (* ?b (+ ?c ?d))
        enhance_rules()[26] == (RuleSpec {
            name: "distributivity1",
            lhs: PropPattern::Or(Box::new(PropPattern::And(Box::new(PropPattern::Var("b")), Box::new(PropPattern::Var("c")))), Box::new(PropPattern::And(Box::new(PropPattern::Var("b")), Box::new(PropPattern::Var("d"))))),
            rhs: PropPattern::And(Box::new(PropPattern::Var("b")), Box::new(PropPattern::Or(Box::new(PropPattern::Var("c")), Box::new(PropPattern::Var("d"))))),
        }),
        // distributivity1-rev: (* ?b (+ ?c ?d)) => (+ (* ?b ?c) (* ?b ?d))
        enhance_rules()[27] == (RuleSpec {
            name: "distributivity1-rev",
            lhs: PropPattern::And(Box::new(PropPattern::Var("b")), Box::new(PropPattern::Or(Box::new(PropPattern::Var("c")), Box::new(PropPattern::Var("d"))))),
            rhs: PropPattern::Or(Box::new(PropPattern::And(Box::new(PropPattern::Var("b")), Box::new(PropPattern::Var("c")))), Box::new(PropPattern::And(Box::new(PropPattern::Var("b")), Box::new(PropPattern::Var("d"))))),
        }),
        // distributivity2: (* (+ ?b ?c) (+ ?b ?d)) => (+ ?b (* ?c ?d))
        enhance_rules()[28] == (RuleSpec {
            name: "distributivity2",
            lhs: PropPattern::And(Box::new(PropPattern::Or(Box::new(PropPattern::Var("b")), Box::new(PropPattern::Var("c")))), Box::new(PropPattern::Or(Box::new(PropPattern::Var("b")), Box::new(PropPattern::Var("d"))))),
            rhs: PropPattern::Or(Box::new(PropPattern::Var("b")), Box::new(PropPattern::And(Box::new(PropPattern::Var("c")), Box::new(PropPattern::Var("d"))))),
        }),
        // distributivity2-rev: (+ ?b (* ?c ?d)) => (* (+ ?b ?c) (+ ?b ?d))
        enhance_rules()[29] == (RuleSpec {
            name: "distributivity2-rev",
            lhs: PropPattern::Or(Box::new(PropPattern::Var("b")), Box::new(PropPattern::And(Box::new(PropPattern::Var("c")), Box::new(PropPattern::Var("d"))))),
            rhs: PropPattern::And(Box::new(PropPattern::Or(Box::new(PropPattern::Var("b")), Box::new(PropPattern::Var("c")))), Box::new(PropPattern::Or(Box::new(PropPattern::Var("b")), Box::new(PropPattern::Var("d"))))),
        }),
        // consensus1: (+ (+ (* ?b ?c) (* (! ?b) ?d)) (* ?c ?d)) => (+ (* ?b ?c) (* (! ?b) ?d))
        enhance_rules()[30] == (RuleSpec {
            name: "consensus1",
            lhs: PropPattern::Or(Box::new(PropPattern::Or(Box::new(PropPattern::And(Box::new(PropPattern::Var("b")), Box::new(PropPattern::Var("c")))), Box::new(PropPattern::And(Box::new(PropPattern::Not(Box::new(PropPattern::Var("b")))), Box::new(PropPattern::Var("d")))))), Box::new(PropPattern::And(Box::new(PropPattern::Var("c")), Box::new(PropPattern::Var("d"))))),
            rhs: PropPattern::Or(Box::new(PropPattern::And(Box::new(PropPattern::Var("b")), Box::new(PropPattern::Var("c")))), Box::new(PropPattern::And(Box::new(PropPattern::Not(Box::new(PropPattern::Var("b")))), Box::new(PropPattern::Var("d"))))),
        }),
        // consensus1-rev: (+ (* ?b ?c) (* (! ?b) ?d)) => (+ (+ (* ?b ?c) (* (! ?b) ?d)) (* ?c ?d))
        enhance_rules()[31] == (RuleSpec {
            name: "consensus1-rev",
            lhs: PropPattern::Or(Box::new(PropPattern::And(Box::new(PropPattern::Var("b")), Box::new(PropPattern::Var("c")))), Box::new(PropPattern::And(Box::new(PropPattern::Not(Box::new(PropPattern::Var("b")))), Box::new(PropPattern::Var("d"))))),
            rhs: PropPattern::Or(Box::new(PropPattern::Or(Box::new(PropPattern::And(Box::new(PropPattern::Var("b")), Box::new(PropPattern::Var("c")))), Box::new(PropPattern::And(Box::new(PropPattern::Not(Box::new(PropPattern::Var("b")))), Box::new(PropPattern::Var("d")))))), Box::new(PropPattern::And(Box::new(PropPattern::Var("c")), Box::new(PropPattern::Var("d"))))),
        }),
        // consensus2: (* (* (+ ?b ?c) (+ (! ?b) ?d)) (+ ?c ?d)) => (* (+ ?b ?c) (+ (! ?b) ?d))
        enhance_rules()[32] == (RuleSpec {
            name: "consensus2",
            lhs: PropPattern::And(Box::new(PropPattern::And(Box::new(PropPattern::Or(Box::new(PropPattern::Var("b")), Box::new(PropPattern::Var("c")))), Box::new(PropPattern::Or(Box::new(PropPattern::Not(Box::new(PropPattern::Var("b")))), Box::new(PropPattern::Var("d")))))), Box::new(PropPattern::Or(Box::new(PropPattern::Var("c")), Box::new(PropPattern::Var("d"))))),
            rhs: PropPattern::And(Box::new(PropPattern::Or(Box::new(PropPattern::Var("b")), Box::new(PropPattern::Var("c")))), Box::new(PropPattern::Or(Box::new(PropPattern::Not(Box::new(PropPattern::Var("b")))), Box::new(PropPattern::Var("d"))))),
        }),
        // consensus2-rev: (* (+ ?b ?c) (+ (! ?b) ?d)) => (* (* (+ ?b ?c) (+ (! ?b) ?d)) (+ ?c ?d))
        enhance_rules()[33] == (RuleSpec {
            name: "consensus2-rev",
            lhs: PropPattern::And(Box::new(PropPattern::Or(Box::new(PropPattern::Var("b")), Box::new(PropPattern::Var("c")))), Box::new(PropPattern::Or(Box::new(PropPattern::Not(Box::new(PropPattern::Var("b")))), Box::new(PropPattern::Var("d"))))),
            rhs: PropPattern::And(Box::new(PropPattern::And(Box::new(PropPattern::Or(Box::new(PropPattern::Var("b")), Box::new(PropPattern::Var("c")))), Box::new(PropPattern::Or(Box::new(PropPattern::Not(Box::new(PropPattern::Var("b")))), Box::new(PropPattern::Var("d")))))), Box::new(PropPattern::Or(Box::new(PropPattern::Var("c")), Box::new(PropPattern::Var("d"))))),
        }),
        // de-morgan1: (! (* ?b ?c)) => (+ (! ?b) (! ?c))
        enhance_rules()[34] == (RuleSpec {
            name: "de-morgan1",
            lhs: PropPattern::Not(Box::new(PropPattern::And(Box::new(PropPattern::Var("b")), Box::new(PropPattern::Var("c"))))),
            rhs: PropPattern::Or(Box::new(PropPattern::Not(Box::new(PropPattern::Var("b")))), Box::new(PropPattern::Not(Box::new(PropPattern::Var("c"))))),
        }),
        // de-morgan1-rev: (+ (! ?b) (! ?c)) => (! (* ?b ?c))
        enhance_rules()[35] == (RuleSpec {
            name: "de-morgan1-rev",
            lhs: PropPattern::Or(Box::new(PropPattern::Not(Box::new(PropPattern::Var("b")))), Box::new(PropPattern::Not(Box::new(PropPattern::Var("c"))))),
            rhs: PropPattern::Not(Box::new(PropPattern::And(Box::new(PropPattern::Var("b")), Box::new(PropPattern::Var("c"))))),
        }),
        // de-morgan2: (! (+ ?b ?c)) => (* (! ?b) (! ?c))
        enhance_rules()[36] == (RuleSpec {
            name: "de-morgan2",
            lhs: PropPattern::Not(Box::new(PropPattern::Or(Box::new(PropPattern::Var("b")), Box::new(PropPattern::Var("c"))))),
            rhs: PropPattern::And(Box::new(PropPattern::Not(Box::new(PropPattern::Var("b")))), Box::new(PropPattern::Not(Box::new(PropPattern::Var("c"))))),
        }),
        // de-morgan2-rev: (* (! ?b) (! ?c)) => (! (+ ?b ?c))
        enhance_rules()[37] == (RuleSpec {
            name: "de-morgan2-rev",
            lhs: PropPattern::And(Box::new(PropPattern::Not(Box::new(PropPattern::Var("b")))), Box::new(PropPattern::Not(Box::new(PropPattern::Var("c"))))),
            rhs: PropPattern::Not(Box::new(PropPattern::Or(Box::new(PropPattern::Var("b")), Box::new(PropPattern::Var("c"))))),
        }),
{
}

/// The theorem rule set, rule by rule: each rule's name, left side and
/// right side, with the original's pattern beside it.
pub proof fn lemma_basic_rules_table()
    ensures
        basic_rules().len() == 16,
        // th1: (-> ?x ?y) => (+ (! ?x) ?y)
        basic_rules()[0] == (RuleSpec {
            name: "th1",
            lhs: PropPattern::Implies(Box::new(PropPattern::Var("x")), Box::new(PropPattern::Var("y"))),
            rhs: PropPattern::Or(Box::new(PropPattern::Not(Box::new(PropPattern::Var("x")))), Box::new(PropPattern::Var("y"))),
        }),
        // th2: (! (! ?x)) => ?x
        basic_rules()[1] == (RuleSpec {
            name: "th2",
            lhs: PropPattern::Not(Box::new(PropPattern::Not(Box::new(PropPattern::Var("x"))))),
            rhs: PropPattern::Var("x"),
        }),
        // th3: (+ ?x (+ ?y ?z)) => (+ (+ ?x ?y) ?z)
        basic_rules()[2] == (RuleSpec {
            name: "th3",
            lhs: PropPattern::Or(Box::new(PropPattern::Var("x")), Box::new(PropPattern::Or(Box::new(PropPattern::Var("y")), Box::new(PropPattern::Var("z"))))),
            rhs: PropPattern::Or(Box::new(PropPattern::Or(Box::new(PropPattern::Var("x")), Box::new(PropPattern::Var("y")))), Box::new(PropPattern::Var("z"))),
        }),
        // th4: (* ?x (+ ?y ?z)) => (+ (* ?x ?y) (* ?x ?z))
        basic_rules()[3] == (RuleSpec {
            name: "th4",
            lhs: PropPattern::And(Box::new(PropPattern::Var("x")), Box::new(PropPattern::Or(Box::new(PropPattern::Var("y")), Box::new(PropPattern::Var("z"))))),
            rhs: PropPattern::Or(Box::new(PropPattern::And(Box::new(PropPattern::Var("x")), Box::new(PropPattern::Var("y")))), Box::new(PropPattern::And(Box::new(PropPattern::Var("x")), Box::new(PropPattern::Var("z"))))),
        }),
        // th5: (+ ?x (* ?y ?z)) => (* (+ ?x ?y) (+ ?x ?z))
        basic_rules()[4] == (RuleSpec {
            name: "th5",
            lhs: PropPattern::Or(Box::new(PropPattern::Var("x")), Box::new(PropPattern::And(Box::new(PropPattern::Var("y")), Box::new(PropPattern::Var("z"))))),
            rhs: PropPattern::And(Box::new(PropPattern::Or(Box::new(PropPattern::Var("x")), Box::new(PropPattern::Var("y")))), Box::new(PropPattern::Or(Box::new(PropPattern::Var("x")), Box::new(PropPattern::Var("z"))))),
        }),
        // th6: (+ ?x ?y) => (+ ?y ?x)
        basic_rules()[5] == (RuleSpec {
            name: "th6",
            lhs: PropPattern::Or(Box::new(PropPattern::Var("x")), Box::new(PropPattern::Var("y"))),
            rhs: PropPattern::Or(Box::new(PropPattern::Var("y")), Box::new(PropPattern::Var("x"))),
        }),
        // th7: (* ?x ?y) => (* ?y ?x)
        basic_rules()[6] == (RuleSpec {
            name: "th7",
            lhs: PropPattern::And(Box::new(PropPattern::Var("x")), Box::new(PropPattern::Var("y"))),
            rhs: PropPattern::And(Box::new(PropPattern::Var("y")), Box::new(PropPattern::Var("x"))),
        }),
        // th9: (-> ?x ?y) => (-> (! ?y) (! ?x))
        basic_rules()[7] == (RuleSpec {
            name: "th9",
            lhs: PropPattern::Implies(Box::new(PropPattern::Var("x")), Box::new(PropPattern::Var("y"))),
            rhs: PropPattern::Implies(Box::new(PropPattern::Not(Box::new(PropPattern::Var("y")))), Box::new(PropPattern::Not(Box::new(PropPattern::Var("x"))))),
        }),
        // th10: (+ ?x (* ?x ?y)) => ?x
        basic_rules()[8] == (RuleSpec {
            name: "th10",
            lhs: PropPattern::Or(Box::new(PropPattern::Var("x")), Box::new(PropPattern::And(Box::new(PropPattern::Var("x")), Box::new(PropPattern::Var("y"))))),
            rhs: PropPattern::Var("x"),
        }),
        // th11: (+ ?x (* (! ?x) ?y)) => (+ ?x ?y)
        basic_rules()[9] == (RuleSpec {
            name: "th11",
            lhs: PropPattern::Or(Box::new(PropPattern::Var("x")), Box::new(PropPattern::And(Box::new(PropPattern::Not(Box::new(PropPattern::Var("x")))), Box::new(PropPattern::Var("y"))))),
            rhs: PropPattern::Or(Box::new(PropPattern::Var("x")), Box::new(PropPattern::Var("y"))),
        }),
        // th12: (+ (* ?x ?y) (+ (* (! ?x) ?z) (* ?y ?z))) => (+ (* ?x ?y) (* (! ?x) ?z))
        basic_rules()[10] == (RuleSpec {
            name: "th12",
            lhs: PropPattern::Or(Box::new(PropPattern::And(Box::new(PropPattern::Var("x")), Box::new(PropPattern::Var("y")))), Box::new(PropPattern::Or(Box::new(PropPattern::And(Box::new(PropPattern::Not(Box::new(PropPattern::Var("x")))), Box::new(PropPattern::Var("z")))), Box::new(PropPattern::And(Box::new(PropPattern::Var("y")), Box::new(PropPattern::Var("z"))))))),
            rhs: PropPattern::Or(Box::new(PropPattern::And(Box::new(PropPattern::Var("x")), Box::new(PropPattern::Var("y")))), Box::new(PropPattern::And(Box::new(PropPattern::Not(Box::new(PropPattern::Var("x")))), Box::new(PropPattern::Var("z"))))),
        }),
        // th13: (* ?x (+ ?x ?y)) => ?x
        basic_rules()[11] == (RuleSpec {
            name: "th13",
            lhs: PropPattern::And(Box::new(PropPattern::Var("x")), Box::new(PropPattern::Or(Box::new(PropPattern::Var("x")), Box::new(PropPattern::Var("y"))))),
            rhs: PropPattern::Var("x"),
        }),
        // th14: (* ?x (+ (! ?x) ?y)) => (* ?x ?y)
        basic_rules()[12] == (RuleSpec {
            name: "th14",
            lhs: PropPattern::And(Box::new(PropPattern::Var("x")), Box::new(PropPattern::Or(Box::new(PropPattern::Not(Box::new(PropPattern::Var("x")))), Box::new(PropPattern::Var("y"))))),
            rhs: PropPattern::And(Box::new(PropPattern::Var("x")), Box::new(PropPattern::Var("y"))),
        }),
        // th15: (* (+ ?x ?y) (+ ?x (! ?y))) => ?x
        basic_rules()[13] == (RuleSpec {
            name: "th15",
            lhs: PropPattern::And(Box::new(PropPattern::Or(Box::new(PropPattern::Var("x")), Box::new(PropPattern::Var("y")))), Box::new(PropPattern::Or(Box::new(PropPattern::Var("x")), Box::new(PropPattern::Not(Box::new(PropPattern::Var("y"))))))),
            rhs: PropPattern::Var("x"),
        }),
        // th16: (* (+ ?x ?y) (+ (! ?x) ?z)) => (+ (* ?x ?z) (* (! ?x) ?y))
        basic_rules()[14] == (RuleSpec {
            name: "th16",
            lhs: PropPattern::And(Box::new(PropPattern::Or(Box::new(PropPattern::Var("x")), Box::new(PropPattern::Var("y")))), Box::new(PropPattern::Or(Box::new(PropPattern::Not(Box::new(PropPattern::Var("x")))), Box::new(PropPattern::Var("z"))))),
            rhs: PropPattern::Or(Box::new(PropPattern::And(Box::new(PropPattern::Var("x")), Box::new(PropPattern::Var("z")))), Box::new(PropPattern::And(Box::new(PropPattern::Not(Box::new(PropPattern::Var("x")))), Box::new(PropPattern::Var("y"))))),
        }),
        // th17: (* (+ ?x ?y) (* (+ (! ?x) ?z) (+ ?y ?z))) => (* (+ ?x ?y) (+ (! ?x) ?z))
        basic_rules()[15] == (RuleSpec {
            name: "th17",
            lhs: PropPattern::And(Box::new(PropPattern::Or(Box::new(PropPattern::Var("x")), Box::new(PropPattern::Var("y")))), Box::new(PropPattern::And(Box::new(PropPattern::Or(Box::new(PropPattern::Not(Box::new(PropPattern::Var("x")))), Box::new(PropPattern::Var("z")))), Box::new(PropPattern::Or(Box::new(PropPattern::Var("y")), Box::new(PropPattern::Var("z"))))))),
            rhs: PropPattern::And(Box::new(PropPattern::Or(Box::new(PropPattern::Var("x")), Box::new(PropPattern::Var("y")))), Box::new(PropPattern::Or(Box::new(PropPattern::Not(Box::new(PropPattern::Var("x")))), Box::new(PropPattern::Var("z"))))),
        }),
{
}

} // verus!

//! Patterns over the propositional language: trees of operators whose leaves
//! are constants or pattern variables, with their truth value under an
//! assignment of the variables.

use vstd::prelude::*;

verus! {

/// A pattern tree.  `Var("b")` is the pattern variable written `?b`.
#[derive(Debug)]
pub enum PropPattern {
    Var(&'static str),
    Zero,
    One,
    Not(Box<PropPattern>),
    Or(Box<PropPattern>, Box<PropPattern>),
    And(Box<PropPattern>, Box<PropPattern>),
    Implies(Box<PropPattern>, Box<PropPattern>),
    Let(Box<PropPattern>, Box<PropPattern>),
    Concat(Box<PropPattern>, Box<PropPattern>),
}

impl PropPattern {
    /// The truth value of the pattern when each variable `v` stands for
    /// `env(v)`.  The operators are read as the constant-folding analysis
    /// reads them: `!` negation, `+` disjunction, `*` and `&` conjunction,
    /// `->` implication, and `let` equality of its two operands.
    pub open spec fn eval(self, env: spec_fn(Seq<char>) -> bool) -> bool
        decreases self,
    {
        match self {
            PropPattern::Var(v) => env(v@),
            PropPattern::Zero => false,
            PropPattern::One => true,
            PropPattern::Not(a) => !a.eval(env),
            PropPattern::Or(a, b) => a.eval(env) || b.eval(env),
            PropPattern::And(a, b) => a.eval(env) && b.eval(env),
            PropPattern::Implies(a, b) => !a.eval(env) || b.eval(env),
            PropPattern::Let(a, b) => a.eval(env) == b.eval(env),
            PropPattern::Concat(a, b) => a.eval(env) && b.eval(env),
        }
    }

    /// The names of the variables that occur in the pattern.
    pub open spec fn vars(self) -> Set<Seq<char>>
        decreases self,
    {
        match self {
            PropPattern::Var(v) => set![v@],
            PropPattern::Zero | PropPattern::One => Set::empty(),
            PropPattern::Not(a) => a.vars(),
            PropPattern::Or(a, b) | PropPattern::And(a, b) | PropPattern::Implies(a, b)
            | PropPattern::Let(a, b) | PropPattern::Concat(a, b) => a.vars() + b.vars(),
        }
    }

    /// The term obtained by putting `s(v)` in place of each variable `v`.
    pub open spec fn subst(self, s: spec_fn(Seq<char>) -> PropPattern) -> PropPattern
        decreases self,
    {
        match self {
            PropPattern::Var(v) => s(v@),
            PropPattern::Zero => PropPattern::Zero,
            PropPattern::One => PropPattern::One,
            PropPattern::Not(a) => PropPattern::Not(Box::new(a.subst(s))),
            PropPattern::Or(a, b) => PropPattern::Or(Box::new(a.subst(s)), Box::new(b.subst(s))),
            PropPattern::And(a, b) => PropPattern::And(Box::new(a.subst(s)), Box::new(b.subst(s))),
            PropPattern::Implies(a, b) => PropPattern::Implies(
                Box::new(a.subst(s)),
                Box::new(b.subst(s)),
            ),
            PropPattern::Let(a, b) => PropPattern::Let(Box::new(a.subst(s)), Box::new(b.subst(s))),
            PropPattern::Concat(a, b) => PropPattern::Concat(
                Box::new(a.subst(s)),
                Box::new(b.subst(s)),
            ),
        }
    }
}

impl Clone for PropPattern {
    fn clone(&self) -> (p: Self)
        ensures
            p == *self,
        decreases self,
    {
        match self {
            PropPattern::Var(v) => PropPattern::Var(v),
            PropPattern::Zero => PropPattern::Zero,
            PropPattern::One => PropPattern::One,
            PropPattern::Not(a) => PropPattern::Not(Box::new((**a).clone())),
            PropPattern::Or(a, b) => PropPattern::Or(Box::new((**a).clone()), Box::new((**b).clone())),
            PropPattern::And(a, b) => PropPattern::And(Box::new((**a).clone()), Box::new((**b).clone())),
            PropPattern::Implies(a, b) => PropPattern::Implies(
                Box::new((**a).clone()),
                Box::new((**b).clone()),
            ),
            PropPattern::Let(a, b) => PropPattern::Let(Box::new((**a).clone()), Box::new((**b).clone())),
            PropPattern::Concat(a, b) => PropPattern::Concat(
                Box::new((**a).clone()),
                Box::new((**b).clone()),
            ),
        }
    }
}

pub open spec fn spec_var(name: &'static str) -> PropPattern {
    PropPattern::Var(name)
}

pub open spec fn spec_not(a: PropPattern) -> PropPattern {
    PropPattern::Not(Box::new(a))
}

pub open spec fn spec_or(a: PropPattern, b: PropPattern) -> PropPattern {
    PropPattern::Or(Box::new(a), Box::new(b))
}

pub open spec fn spec_and(a: PropPattern, b: PropPattern) -> PropPattern {
    PropPattern::And(Box::new(a), Box::new(b))
}

pub open spec fn spec_implies(a: PropPattern, b: PropPattern) -> PropPattern {
    PropPattern::Implies(Box::new(a), Box::new(b))
}

/// The pattern variable `?name`.
#[verifier::when_used_as_spec(spec_var)]
pub fn var(name: &'static str) -> (p: PropPattern)
    ensures
        p == spec_var(name),
{
    PropPattern::Var(name)
}

/// The pattern `(! a)`.
#[verifier::when_used_as_spec(spec_not)]
pub fn not(a: PropPattern) -> (p: PropPattern)
    ensures
        p == spec_not(a),
{
    PropPattern::Not(Box::new(a))
}

/// The pattern `(+ a b)`.
#[verifier::when_used_as_spec(spec_or)]
pub fn or(a: PropPattern, b: PropPattern) -> (p: PropPattern)
    ensures
        p == spec_or(a, b),
{
    PropPattern::Or(Box::new(a), Box::new(b))
}

/// The pattern `(* a b)`.
#[verifier::when_used_as_spec(spec_and)]
pub fn and(a: PropPattern, b: PropPattern) -> (p: PropPattern)
    ensures
        p == spec_and(a, b),
{
    PropPattern::And(Box::new(a), Box::new(b))
}

/// The pattern `(-> a b)`.
#[verifier::when_used_as_spec(spec_implies)]
pub fn imp(a: PropPattern, b: PropPattern) -> (p: PropPattern)
    ensures
        p == spec_implies(a, b),
{
    PropPattern::Implies(Box::new(a), Box::new(b))
}

/// The value of a substituted pattern is the value of the pattern with each
/// variable standing for the value of the term put in its place.
pub proof fn lemma_subst_eval(
    p: PropPattern,
    s: spec_fn(Seq<char>) -> PropPattern,
    env: spec_fn(Seq<char>) -> bool,
)
    ensures
        p.subst(s).eval(env) == p.eval(|v: Seq<char>| s(v).eval(env)),
    decreases p,
{
    match p {
        PropPattern::Var(_) | PropPattern::Zero | PropPattern::One => {},
        PropPattern::Not(a) => lemma_subst_eval(*a, s, env),
        PropPattern::Or(a, b) | PropPattern::And(a, b) | PropPattern::Implies(a, b)
        | PropPattern::Let(a, b) | PropPattern::Concat(a, b) => {
            lemma_subst_eval(*a, s, env);
            lemma_subst_eval(*b, s, env);
        },
    }
}

/// Replacing terms by terms of the same value keeps the value of the whole:
/// filling the variables of `ctx` with `f1` or with `f2` gives the same
/// value when each `f1(v)` has the value of `f2(v)`.
pub proof fn lemma_equal_fillings(
    ctx: PropPattern,
    f1: spec_fn(Seq<char>) -> PropPattern,
    f2: spec_fn(Seq<char>) -> PropPattern,
    env: spec_fn(Seq<char>) -> bool,
)
    requires
        forall|v: Seq<char>| #[trigger] f1(v).eval(env) == f2(v).eval(env),
    ensures
        ctx.subst(f1).eval(env) == ctx.subst(f2).eval(env),
{
    lemma_subst_eval(ctx, f1, env);
    lemma_subst_eval(ctx, f2, env);
    let e1 = |v: Seq<char>| f1(v).eval(env);
    let e2 = |v: Seq<char>| f2(v).eval(env);
    assert(e1 =~= e2);
}

} // verus!

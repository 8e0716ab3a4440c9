//! The constant-folding analysis: the data an e-class carries is the truth
//! value it is known to have, if any, with a pattern over constants that
//! shows why.

use vstd::prelude::*;
use crate::pattern::{lemma_equal_fillings, PropPattern};
use crate::prop::{Prop, PropKind};

verus! {

/// A known truth value and the constant pattern it was folded from.
#[derive(Debug)]
pub struct FoldedConst {
    pub value: bool,
    pub pattern: PropPattern,
}

impl Clone for FoldedConst {
    fn clone(&self) -> (c: Self)
        ensures
            c == *self,
    {
        FoldedConst { value: self.value, pattern: self.pattern.clone() }
    }
}

/// The constant pattern `0` or `1` for a truth value.
pub open spec fn spec_literal(b: bool) -> PropPattern {
    if b {
        PropPattern::One
    } else {
        PropPattern::Zero
    }
}

/// The constant pattern `0` or `1` for a truth value.
#[verifier::when_used_as_spec(spec_literal)]
pub fn literal(b: bool) -> (p: PropPattern)
    ensures
        p == spec_literal(b),
{
    if b {
        PropPattern::One
    } else {
        PropPattern::Zero
    }
}

/// The value of a binary operator on two known operands.
pub open spec fn binary_value(kind: PropKind, a: bool, b: bool) -> bool {
    match kind {
        PropKind::Or => a || b,
        PropKind::And => a && b,
        PropKind::Implies => !a || b,
        PropKind::Let => a == b,
        _ => a && b,
    }
}

/// The pattern of a binary operator applied to two literals.
pub open spec fn binary_pattern(kind: PropKind, a: bool, b: bool) -> PropPattern {
    let (x, y) = (Box::new(spec_literal(a)), Box::new(spec_literal(b)));
    match kind {
        PropKind::Or => PropPattern::Or(x, y),
        PropKind::And => PropPattern::And(x, y),
        PropKind::Implies => PropPattern::Implies(x, y),
        PropKind::Let => PropPattern::Let(x, y),
        _ => PropPattern::Concat(x, y),
    }
}

/// What the analysis knows of a node whose children are known to have the
/// truth values `values` (`None` where unknown): the constants fold to
/// themselves, an operator folds when all its operands are known, and a
/// symbol never folds.
pub open spec fn spec_make(node: Prop, values: Seq<Option<bool>>) -> Option<FoldedConst> {
    match node {
        Prop::Zero => Some(FoldedConst { value: false, pattern: PropPattern::Zero }),
        Prop::One => Some(FoldedConst { value: true, pattern: PropPattern::One }),
        Prop::Not(_) => match values[0] {
            Some(a) => Some(
                FoldedConst { value: !a, pattern: PropPattern::Not(Box::new(spec_literal(a))) },
            ),
            None => None,
        },
        Prop::Symbol(_) => None,
        _ => match (values[0], values[1]) {
            (Some(a), Some(b)) => Some(
                FoldedConst {
                    value: binary_value(node.kind(), a, b),
                    pattern: binary_pattern(node.kind(), a, b),
                },
            ),
            _ => None,
        },
    }
}

/// The constant-folding analysis of the propositional language.
pub struct ConstantFold;

impl ConstantFold {
    /// Folds a node: `values[i]` is what is known of the node's `i`-th child.
    pub fn make(node: &Prop, values: &Vec<Option<bool>>) -> (r: Option<FoldedConst>)
        requires
            values@.len() == node.spec_children().len(),
        ensures
            r == spec_make(*node, values@),
    {
        match node {
            Prop::Zero => Some(FoldedConst { value: false, pattern: PropPattern::Zero }),
            Prop::One => Some(FoldedConst { value: true, pattern: PropPattern::One }),
            Prop::Not(_) => match values[0] {
                Some(a) => Some(FoldedConst { value: !a, pattern: PropPattern::Not(Box::new(literal(a))) }),
                None => None,
            },
            Prop::Symbol(_) => None,
            _ => match (values[0], values[1]) {
                (Some(a), Some(b)) => {
                    let (x, y) = (Box::new(literal(a)), Box::new(literal(b)));
                    let (value, pattern) = match node {
                        Prop::Or(_, _) => (a || b, PropPattern::Or(x, y)),
                        Prop::And(_, _) => (a && b, PropPattern::And(x, y)),
                        Prop::Implies(_, _) => (!a || b, PropPattern::Implies(x, y)),
                        Prop::Let(_, _) => (a == b, PropPattern::Let(x, y)),
                        _ => (a && b, PropPattern::Concat(x, y)),
                    };
                    Some(FoldedConst { value, pattern })
                },
                _ => None,
            },
        }
    }

    /// Joins what two merged e-classes knew into `to`.  Returns whether the
    /// joined data differs from what the first class knew and from what the
    /// second knew: a class that knew nothing takes the other's value, and a
    /// known value is kept.  Two known values are equal, since the classes
    /// were merged as equal.
    pub fn merge(&self, to: &mut Option<FoldedConst>, from: Option<FoldedConst>) -> (r: (bool, bool))
        requires
            (*old(to)) is Some && from is Some ==> (*old(to))->0.value == from->0.value,
        ensures
            (*old(to)) is None ==> *final(to) == from && r == (from is Some, false),
            (*old(to)) is Some ==> *final(to) == *old(to) && r == (false, from is None),
    {
        if to.is_none() {
            let changed = from.is_some();
            *to = from;
            (changed, false)
        } else {
            (false, from.is_none())
        }
    }

    /// The union that the analysis asks for in a class with known data: the
    /// folded pattern is equal to the literal of its value.
    pub fn modify(data: Option<FoldedConst>) -> (r: Option<(PropPattern, PropPattern)>)
        ensures
            r == match data {
                Some(c) => Some((c.pattern, spec_literal(c.value))),
                None => None,
            },
    {
        match data {
            Some(c) => Some((c.pattern, literal(c.value))),
            None => None,
        }
    }
}

/// Constant folding is sound and complete.  A node folds exactly when it is
/// a constant, or an operator whose operands are all known; the pattern it
/// folds to is the node with its operands replaced by their literals, has no
/// variables, and evaluates to the folded value under every assignment.
pub proof fn lemma_folding_sound(
    node: Prop,
    values: Seq<Option<bool>>,
    env: spec_fn(Seq<char>) -> bool,
)
    requires
        values.len() == node.spec_children().len(),
    ensures
        spec_make(node, values) is Some <==> (node.kind() != PropKind::Symbol && forall|i: int|
            0 <= i < values.len() ==> #[trigger] values[i] is Some),
        spec_make(node, values) matches Some(c) ==> {
            &&& c.pattern.vars().is_empty()
            &&& c.pattern.eval(env) == c.value
        },
{
    reveal_with_fuel(PropPattern::eval, 3);
    reveal_with_fuel(PropPattern::vars, 3);
    if values.len() >= 1 {
        assert(values[0] is Some || !(forall|i: int| 0 <= i < values.len() ==> #[trigger] values[i] is Some));
    }
    if values.len() == 2 {
        assert(values[1] is Some || !(forall|i: int| 0 <= i < values.len() ==> #[trigger] values[i] is Some));
    }
    match spec_make(node, values) {
        Some(c) => {
            assert(c.pattern.vars() =~= Set::empty());
        },
        None => {},
    }
}

/// Uniting a class with the literal of its folded value keeps the value of
/// the whole term: in a term `ctx` whose variable `hole` marks the class,
/// with its other variables filled by `fill`, the folded pattern and the
/// literal of the folded value give terms of the same value under every
/// assignment.
pub proof fn lemma_fold_union_keeps_value(
    node: Prop,
    values: Seq<Option<bool>>,
    ctx: PropPattern,
    hole: Seq<char>,
    fill: spec_fn(Seq<char>) -> PropPattern,
    env: spec_fn(Seq<char>) -> bool,
)
    requires
        values.len() == node.spec_children().len(),
        spec_make(node, values) is Some,
    ensures
        ({
            let c = spec_make(node, values)->0;
            ctx.subst(|v: Seq<char>| if v == hole { c.pattern } else { fill(v) }).eval(env)
                == ctx.subst(|v: Seq<char>| if v == hole { spec_literal(c.value) } else { fill(v) }).eval(env)
        }),
{
    let c = spec_make(node, values)->0;
    lemma_folding_sound(node, values, env);
    assert(spec_literal(c.value).eval(env) == c.value);
    let f1 = |v: Seq<char>| if v == hole { c.pattern } else { fill(v) };
    let f2 = |v: Seq<char>| if v == hole { spec_literal(c.value) } else { fill(v) };
    lemma_equal_fillings(ctx, f1, f2, env);
}

/// How each node folds, for every pair of operand values `a` and `b`: the
/// constants fold to themselves; `!` folds to the negation of its operand;
/// `+`, `*`, `->`, `let` and `&` fold to the disjunction, conjunction,
/// implication, equality and conjunction of their operands; the pattern is
/// the node's own operator applied to the literals `0`/`1` of the operands.
/// A symbol, and a node with an operand of unknown value, do not fold.
pub proof fn lemma_fold_values(i: usize, j: usize, a: bool, b: bool, name: String)
    ensures
        spec_make(Prop::Zero, seq![]) == Some(FoldedConst { value: false, pattern: PropPattern::Zero }),
        spec_make(Prop::One, seq![]) == Some(FoldedConst { value: true, pattern: PropPattern::One }),
        ({
            let la = if a { PropPattern::One } else { PropPattern::Zero };
            let lb = if b { PropPattern::One } else { PropPattern::Zero };
            &&& spec_make(Prop::Not(i), seq![Some(a)]) == Some(
                FoldedConst { value: !a, pattern: PropPattern::Not(Box::new(la)) },
            )
            &&& spec_make(Prop::Or(i, j), seq![Some(a), Some(b)]) == Some(
                FoldedConst { value: a || b, pattern: PropPattern::Or(Box::new(la), Box::new(lb)) },
            )
            &&& spec_make(Prop::And(i, j), seq![Some(a), Some(b)]) == Some(
                FoldedConst { value: a && b, pattern: PropPattern::And(Box::new(la), Box::new(lb)) },
            )
            &&& spec_make(Prop::Implies(i, j), seq![Some(a), Some(b)]) == Some(
                FoldedConst {
                    value: !a || b,
                    pattern: PropPattern::Implies(Box::new(la), Box::new(lb)),
                },
            )
            &&& spec_make(Prop::Let(i, j), seq![Some(a), Some(b)]) == Some(
                FoldedConst { value: a == b, pattern: PropPattern::Let(Box::new(la), Box::new(lb)) },
            )
            &&& spec_make(Prop::Concat(i, j), seq![Some(a), Some(b)]) == Some(
                FoldedConst { value: a && b, pattern: PropPattern::Concat(Box::new(la), Box::new(lb)) },
            )
        }),
        spec_make(Prop::Not(i), seq![None]) is None,
        spec_make(Prop::Or(i, j), seq![None, Some(b)]) is None,
        spec_make(Prop::Or(i, j), seq![Some(a), None]) is None,
        spec_make(Prop::And(i, j), seq![None, Some(b)]) is None,
        spec_make(Prop::And(i, j), seq![Some(a), None]) is None,
        spec_make(Prop::Implies(i, j), seq![None, Some(b)]) is None,
        spec_make(Prop::Implies(i, j), seq![Some(a), None]) is None,
        spec_make(Prop::Let(i, j), seq![None, Some(b)]) is None,
        spec_make(Prop::Let(i, j), seq![Some(a), None]) is None,
        spec_make(Prop::Concat(i, j), seq![None, Some(b)]) is None,
        spec_make(Prop::Concat(i, j), seq![Some(a), None]) is None,
        spec_make(Prop::Symbol(name), seq![]) is None,
{
}

/// The literal of a truth value is the constant with that value: `1` for
/// true and `0` for false, so the union `modify` asks for joins a folded
/// pattern with the constant of its own value.
pub proof fn lemma_literal_is_its_value(b: bool, env: spec_fn(Seq<char>) -> bool)
    ensures
        spec_literal(b) == (if b {
            PropPattern::One
        } else {
            PropPattern::Zero
        }),
        spec_literal(b).eval(env) == b,
        spec_literal(b).vars().is_empty(),
{
    assert(spec_literal(b).vars() =~= Set::empty());
}

} // verus!

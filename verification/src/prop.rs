//! The propositional operator language: its nodes, the grammar that turns an
//! operator and its children into a node, and the operator name a node prints.

use vstd::prelude::*;

verus! {

/// Compares two string slices by their characters.
pub fn str_is(s: &str, lit: &str) -> (b: bool)
    ensures
        b == (s@ == lit@),
{
    s.to_owned() == lit.to_owned()
}

/// One node of the language; the `usize` fields are the e-class ids of the
/// children.
#[derive(Debug)]
pub enum Prop {
    Zero,
    One,
    Not(usize),
    Or(usize, usize),
    And(usize, usize),
    Implies(usize, usize),
    Let(usize, usize),
    Concat(usize, usize),
    Symbol(String),
}

/// The variant of a node, without its children or data.
#[derive(Debug, Clone, Copy, PartialEq, Eq, Structural)]
pub enum PropKind {
    Zero,
    One,
    Not,
    Or,
    And,
    Implies,
    Let,
    Concat,
    Symbol,
}

/// The error of `Prop::from_op`: no node has this operator and this many
/// children.
#[derive(Debug)]
pub struct FromOpError {
    pub op: String,
    pub children: Vec<usize>,
}

/// The operators with two children, in the order the grammar tries them.
pub open spec fn binary_kind(op: Seq<char>) -> Option<PropKind> {
    if op == "+"@ {
        Some(PropKind::Or)
    } else if op == "*"@ {
        Some(PropKind::And)
    } else if op == "->"@ {
        Some(PropKind::Implies)
    } else if op == "let"@ {
        Some(PropKind::Let)
    } else if op == "&"@ {
        Some(PropKind::Concat)
    } else {
        None
    }
}

/// The variant that the grammar gives to `op` with `n` children, if any:
/// the constants and unary/binary operators are tried first, and any other
/// operator without children is a symbol.
pub open spec fn kind_of_op(op: Seq<char>, n: nat) -> Option<PropKind> {
    if op == "0"@ && n == 0 {
        Some(PropKind::Zero)
    } else if op == "1"@ && n == 0 {
        Some(PropKind::One)
    } else if op == "!"@ && n == 1 {
        Some(PropKind::Not)
    } else if binary_kind(op) is Some && n == 2 {
        binary_kind(op)
    } else if n == 0 {
        Some(PropKind::Symbol)
    } else {
        None
    }
}

impl Prop {
    pub open spec fn kind(self) -> PropKind {
        match self {
            Prop::Zero => PropKind::Zero,
            Prop::One => PropKind::One,
            Prop::Not(_) => PropKind::Not,
            Prop::Or(_, _) => PropKind::Or,
            Prop::And(_, _) => PropKind::And,
            Prop::Implies(_, _) => PropKind::Implies,
            Prop::Let(_, _) => PropKind::Let,
            Prop::Concat(_, _) => PropKind::Concat,
            Prop::Symbol(_) => PropKind::Symbol,
        }
    }

    /// The operator name that the node prints as.
    pub open spec fn spec_op(self) -> Seq<char> {
        match self {
            Prop::Zero => "0"@,
            Prop::One => "1"@,
            Prop::Not(_) => "!"@,
            Prop::Or(_, _) => "+"@,
            Prop::And(_, _) => "*"@,
            Prop::Implies(_, _) => "->"@,
            Prop::Let(_, _) => "let"@,
            Prop::Concat(_, _) => "&"@,
            Prop::Symbol(s) => s@,
        }
    }

    /// The children of the node, in order.
    pub open spec fn spec_children(self) -> Seq<usize> {
        match self {
            Prop::Zero | Prop::One | Prop::Symbol(_) => seq![],
            Prop::Not(a) => seq![a],
            Prop::Or(a, b) | Prop::And(a, b) | Prop::Implies(a, b) | Prop::Let(a, b)
            | Prop::Concat(a, b) => seq![a, b],
        }
    }

    /// Builds the node with operator `op` and the given children, as the
    /// language's grammar reads it.
    pub fn from_op(op: &str, children: Vec<usize>) -> (r: Result<Prop, FromOpError>)
        ensures
            r is Ok <==> kind_of_op(op@, children@.len()) is Some,
            r matches Ok(p) ==> {
                &&& Some(p.kind()) == kind_of_op(op@, children@.len())
                &&& p.spec_op() == op@
                &&& p.spec_children() == children@
            },
            r matches Err(e) ==> e.op@ == op@ && e.children@ == children@,
    {
        let n = children.len();
        if n == 0 && str_is(op, "0") {
            Ok(Prop::Zero)
        } else if n == 0 && str_is(op, "1") {
            Ok(Prop::One)
        } else if n == 1 && str_is(op, "!") {
            Ok(Prop::Not(children[0]))
        } else if n == 2 && str_is(op, "+") {
            Ok(Prop::Or(children[0], children[1]))
        } else if n == 2 && str_is(op, "*") {
            Ok(Prop::And(children[0], children[1]))
        } else if n == 2 && str_is(op, "->") {
            Ok(Prop::Implies(children[0], children[1]))
        } else if n == 2 && str_is(op, "let") {
            Ok(Prop::Let(children[0], children[1]))
        } else if n == 2 && str_is(op, "&") {
            Ok(Prop::Concat(children[0], children[1]))
        } else if n == 0 {
            Ok(Prop::Symbol(op.to_owned()))
        } else {
            Err(FromOpError { op: op.to_owned(), children })
        }
    }

    /// The operator name the node prints as.
    pub fn op_name(&self) -> (s: String)
        ensures
            s@ == self.spec_op(),
    {
        match self {
            Prop::Zero => "0".to_owned(),
            Prop::One => "1".to_owned(),
            Prop::Not(_) => "!".to_owned(),
            Prop::Or(_, _) => "+".to_owned(),
            Prop::And(_, _) => "*".to_owned(),
            Prop::Implies(_, _) => "->".to_owned(),
            Prop::Let(_, _) => "let".to_owned(),
            Prop::Concat(_, _) => "&".to_owned(),
            Prop::Symbol(s) => s.clone(),
        }
    }

    /// Whether two nodes agree on everything but their children: the same
    /// variant, and for symbols the same name.
    pub fn matches(&self, other: &Prop) -> (b: bool)
        ensures
            b == (self.kind() == other.kind() && (self.kind() == PropKind::Symbol
                ==> self.spec_op() == other.spec_op())),
    {
        match (self, other) {
            (Prop::Zero, Prop::Zero) => true,
            (Prop::One, Prop::One) => true,
            (Prop::Not(_), Prop::Not(_)) => true,
            (Prop::Or(_, _), Prop::Or(_, _)) => true,
            (Prop::And(_, _), Prop::And(_, _)) => true,
            (Prop::Implies(_, _), Prop::Implies(_, _)) => true,
            (Prop::Let(_, _), Prop::Let(_, _)) => true,
            (Prop::Concat(_, _), Prop::Concat(_, _)) => true,
            (Prop::Symbol(a), Prop::Symbol(b)) => str_is(a.as_str(), b.as_str()),
            _ => false,
        }
    }
}

/// Printing a node and reading it back gives the same node: the grammar
/// maps the operator name a node prints, with that node's children, back to
/// the node's own variant.  A symbol named like a constant ("0" or "1") is
/// read back as the constant, so symbols are taken with other names, as the
/// grammar makes them.
pub proof fn lemma_printed_node_reads_back(p: Prop)
    requires
        p is Symbol ==> p.spec_op() != "0"@ && p.spec_op() != "1"@,
    ensures
        kind_of_op(p.spec_op(), p.spec_children().len()) == Some(p.kind()),
{
    reveal_strlit("0");
    reveal_strlit("1");
    reveal_strlit("!");
    reveal_strlit("+");
    reveal_strlit("*");
    reveal_strlit("->");
    reveal_strlit("let");
    reveal_strlit("&");
    let ops = seq!["0"@, "1"@, "!"@, "+"@, "*"@, "->"@, "let"@, "&"@];
    assert forall|i: int, j: int| 0 <= i < j < ops.len() implies ops[i] != ops[j] by {
        assert(ops[i][0] != ops[j][0] || ops[i].len() != ops[j].len());
    }
    assert(ops[0] == "0"@ && ops[1] == "1"@ && ops[2] == "!"@ && ops[3] == "+"@);
    assert(ops[4] == "*"@ && ops[5] == "->"@ && ops[6] == "let"@ && ops[7] == "&"@);
}

/// The grammar, operator by operator: `0` and `1` without children are the
/// constants, `!` with one child is negation, `+`, `*`, `->`, `let` and `&`
/// with two children are the binary operators, any other operator without
/// children is a symbol, and nothing else is a node.
pub proof fn lemma_grammar(op: Seq<char>, n: nat)
    ensures
        kind_of_op("0"@, 0) == Some(PropKind::Zero),
        kind_of_op("1"@, 0) == Some(PropKind::One),
        kind_of_op("!"@, 1) == Some(PropKind::Not),
        kind_of_op("+"@, 2) == Some(PropKind::Or),
        kind_of_op("*"@, 2) == Some(PropKind::And),
        kind_of_op("->"@, 2) == Some(PropKind::Implies),
        kind_of_op("let"@, 2) == Some(PropKind::Let),
        kind_of_op("&"@, 2) == Some(PropKind::Concat),
        n == 0 && op != "0"@ && op != "1"@ ==> kind_of_op(op, n) == Some(PropKind::Symbol),
        n == 1 && op != "!"@ ==> kind_of_op(op, n) is None,
        n == 2 && op != "+"@ && op != "*"@ && op != "->"@ && op != "let"@ && op != "&"@
            ==> kind_of_op(op, n) is None,
        n > 2 ==> kind_of_op(op, n) is None,
{
    reveal_strlit("0");
    reveal_strlit("1");
    reveal_strlit("!");
    reveal_strlit("+");
    reveal_strlit("*");
    reveal_strlit("->");
    reveal_strlit("let");
    reveal_strlit("&");
    let ops = seq!["0"@, "1"@, "!"@, "+"@, "*"@, "->"@, "let"@, "&"@];
    assert forall|i: int, j: int| 0 <= i < j < ops.len() implies ops[i] != ops[j] by {
        assert(ops[i][0] != ops[j][0] || ops[i].len() != ops[j].len());
    }
    assert(ops[0] == "0"@ && ops[1] == "1"@ && ops[2] == "!"@ && ops[3] == "+"@);
    assert(ops[4] == "*"@ && ops[5] == "->"@ && ops[6] == "let"@ && ops[7] == "&"@);
}

} // verus!

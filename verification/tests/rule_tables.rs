use eggenv::cost::AstDepth;
use eggenv::fold::ConstantFold;
use eggenv::pattern::PropPattern;
use eggenv::prop::Prop;
use eggenv::rules::{make_all_rules, make_rules_basic, make_rules_enhance, RuleSpec};
use eggenv::symrules::{make_rules, SymPattern};

/// Evaluates a pattern node by node with the constant-folding analysis.
fn value(p: &PropPattern, env: &dyn Fn(&str) -> bool) -> bool {
    let (node, children): (Prop, Vec<&PropPattern>) = match p {
        PropPattern::Var(v) => return env(v),
        PropPattern::Zero => (Prop::Zero, vec![]),
        PropPattern::One => (Prop::One, vec![]),
        PropPattern::Not(a) => (Prop::Not(0), vec![&**a]),
        PropPattern::Or(a, b) => (Prop::Or(0, 1), vec![&**a, &**b]),
        PropPattern::And(a, b) => (Prop::And(0, 1), vec![&**a, &**b]),
        PropPattern::Implies(a, b) => (Prop::Implies(0, 1), vec![&**a, &**b]),
        PropPattern::Let(a, b) => (Prop::Let(0, 1), vec![&**a, &**b]),
        PropPattern::Concat(a, b) => (Prop::Concat(0, 1), vec![&**a, &**b]),
    };
    let values: Vec<Option<bool>> = children.iter().map(|c| Some(value(c, env))).collect();
    ConstantFold::make(&node, &values).unwrap().value
}

fn vars(p: &PropPattern, out: &mut Vec<&'static str>) {
    match p {
        PropPattern::Var(v) => out.push(v),
        PropPattern::Zero | PropPattern::One => {}
        PropPattern::Not(a) => vars(a, out),
        PropPattern::Or(a, b)
        | PropPattern::And(a, b)
        | PropPattern::Implies(a, b)
        | PropPattern::Let(a, b)
        | PropPattern::Concat(a, b) => {
            vars(a, out);
            vars(b, out);
        }
    }
}

fn names(rules: &[RuleSpec]) -> Vec<&'static str> {
    rules.iter().map(|r| r.name).collect()
}

#[test]
fn enhance_rules_in_order() {
    let rules = make_rules_enhance();
    assert_eq!(rules.len(), 38);
    let n = names(&rules);
    assert_eq!(&n[..9], &["null-element1", "null-element2", "complements1", "complements2",
        "covering1", "covering2", "combining1", "combining2", "identity1"]);
    assert_eq!(n[9], "identity1-rev");
    assert_eq!(n[36], "de-morgan2");
    assert_eq!(n[37], "de-morgan2-rev");
}

#[test]
fn basic_rules_in_order() {
    let rules = make_rules_basic();
    assert_eq!(names(&rules), vec!["th1", "th2", "th3", "th4", "th5", "th6", "th7", "th9", "th10",
        "th11", "th12", "th13", "th14", "th15", "th16", "th17"]);
}

#[test]
fn all_rules_concatenate_both_sets() {
    let all = make_all_rules();
    assert_eq!(all.len(), 54);
    assert_eq!(all[38].name, "th1");
    assert_eq!(format!("{:?}", all[0].lhs), "And(Var(\"b\"), Zero)");
}

#[test]
fn every_rule_is_an_equality_on_every_assignment() {
    for r in make_all_rules() {
        for bits in 0..8u32 {
            let env = |v: &str| -> bool {
                let k = match v { "b" | "x" => 0, "c" | "y" => 1, _ => 2 };
                bits & (1 << k) != 0
            };
            assert_eq!(value(&r.lhs, &env), value(&r.rhs, &env), "rule {}", r.name);
        }
    }
}

#[test]
fn every_rule_binds_its_right_side() {
    for r in make_all_rules() {
        let (mut l, mut rr) = (vec![], vec![]);
        vars(&r.lhs, &mut l);
        vars(&r.rhs, &mut rr);
        assert!(rr.iter().all(|v| l.contains(v)), "rule {}", r.name);
    }
}

fn sym_vars(p: &SymPattern, out: &mut Vec<&'static str>) {
    match p {
        SymPattern::Var(v) => out.push(v),
        SymPattern::Leaf(_) => {}
        SymPattern::Node1(_, a) => sym_vars(a, out),
        SymPattern::Node2(_, a, b) => {
            sym_vars(a, out);
            sym_vars(b, out);
        }
        SymPattern::Node3(_, a, b, c) => {
            sym_vars(a, out);
            sym_vars(b, out);
            sym_vars(c, out);
        }
    }
}

#[test]
fn rewriter_rules_in_order() {
    let rules = make_rules();
    let n: Vec<&str> = rules.iter().map(|r| r.name).collect();
    assert_eq!(n, vec!["and-commute", "or-commute", "and-id", "or-id", "if-true", "if-false",
        "if-same", "add-zero", "add-zero-comm", "mul-one", "mul-one-comm", "mul-zero",
        "mul-zero-comm", "case2-to-if-else", "if-to-case-loose"]);
    assert_eq!(format!("{:?}", rules[4].lhs),
        "Node3(\"If\", Leaf(\"true\"), Var(\"a\"), Var(\"b\"))");
    for r in &rules {
        let (mut l, mut rr) = (vec![], vec![]);
        sym_vars(&r.lhs, &mut l);
        sym_vars(&r.rhs, &mut rr);
        assert!(rr.iter().all(|v| l.contains(v)), "rule {}", r.name);
    }
}

/// The AstDepth cost of a rule side with every variable standing for a leaf.
fn depth_cost(p: &SymPattern) -> usize {
    let (op, kids): (&str, Vec<&SymPattern>) = match p {
        SymPattern::Var(_) => ("x", vec![]),
        SymPattern::Leaf(op) => (op, vec![]),
        SymPattern::Node1(op, a) => (op, vec![&**a]),
        SymPattern::Node2(op, a, b) => (op, vec![&**a, &**b]),
        SymPattern::Node3(op, a, b, c) => (op, vec![&**a, &**b, &**c]),
    };
    let costs: Vec<usize> = kids.iter().map(|k| depth_cost(k)).collect();
    AstDepth.cost(op, &costs).unwrap()
}

#[test]
fn rewriter_rules_change_cost_as_stated() {
    let rules = make_rules();
    for (i, r) in rules.iter().enumerate() {
        let (l, rr) = (depth_cost(&r.lhs), depth_cost(&r.rhs));
        match i {
            0 | 1 => assert_eq!(l, rr, "rule {}", r.name),
            13 => assert_eq!(l, rr + 106, "rule {}", r.name),
            14 => assert_eq!(rr, l + 106, "rule {}", r.name),
            _ => assert!(rr < l, "rule {}", r.name),
        }
    }
}

#[derive(Clone, Copy, PartialEq, Debug)]
enum Val {
    B(bool),
    I(i64),
    Undef,
}

/// Evaluates a rewriter term with each variable or free symbol read from `env`.
fn sym_value(p: &SymPattern, env: &dyn Fn(&str) -> Val) -> Val {
    match p {
        SymPattern::Var(v) => env(v),
        SymPattern::Leaf(op) => match *op {
            "true" => Val::B(true),
            "false" => Val::B(false),
            "0" => Val::I(0),
            "1" => Val::I(1),
            other => env(other),
        },
        SymPattern::Node1(..) => Val::Undef,
        SymPattern::Node2("Case", sel, list) => {
            if let SymPattern::Node2("TpCaseList", first, second) = &**list {
                if let (SymPattern::Node2("TpCase", labels, v1), SymPattern::Node2("TpCase", other, v2)) =
                    (&**first, &**second)
                {
                    if let (SymPattern::Node1("TpCaseLblList", lbl), SymPattern::Node1("TpCaseLblList", d)) =
                        (&**labels, &**other)
                    {
                        if let (SymPattern::Node1("CaseLbl", l), SymPattern::Leaf("default")) = (&**lbl, &**d) {
                            let (s, l) = (sym_value(sel, env), sym_value(l, env));
                            if s == Val::Undef || l == Val::Undef {
                                return Val::Undef;
                            }
                            return if s == l { sym_value(v1, env) } else { sym_value(v2, env) };
                        }
                    }
                }
            }
            Val::Undef
        }
        SymPattern::Node2(op, a, b) => match (*op, sym_value(a, env), sym_value(b, env)) {
            ("And", Val::B(x), Val::B(y)) => Val::B(x && y),
            ("Or", Val::B(x), Val::B(y)) => Val::B(x || y),
            ("Add", Val::I(x), Val::I(y)) => Val::I(x + y),
            ("Mul", Val::I(x), Val::I(y)) => Val::I(x * y),
            ("Eq", Val::Undef, _) | ("Eq", _, Val::Undef) => Val::Undef,
            ("Eq", x, y) => Val::B(x == y),
            _ => Val::Undef,
        },
        SymPattern::Node3("If", c, a, b) => match sym_value(c, env) {
            Val::B(true) => sym_value(a, env),
            Val::B(false) => sym_value(b, env),
            _ => Val::Undef,
        },
        SymPattern::Node3(..) => Val::Undef,
    }
}

#[test]
fn rewriter_rules_keep_values() {
    let choices = [Val::B(true), Val::B(false), Val::I(0), Val::I(3), Val::I(-2)];
    for r in make_rules() {
        for x in choices {
            for y in choices {
                for z in choices {
                    let env = |v: &str| match v {
                        "a" | "sel" | "cond" => x,
                        "b" | "l1" | "label" | "then" => y,
                        _ => z,
                    };
                    let lhs = sym_value(&r.lhs, &env);
                    if lhs != Val::Undef {
                        assert_eq!(sym_value(&r.rhs, &env), lhs, "rule {}", r.name);
                    }
                }
            }
        }
    }
}

#[test]
fn rewriting_inside_a_term_keeps_its_value() {
    // (* (! (* b c)) q) rewritten by de-morgan1 to (* (+ (! b) (! c)) q)
    let rules = make_all_rules();
    let r = rules.iter().find(|r| r.name == "de-morgan1").unwrap();
    let wrap = |p: &PropPattern| {
        PropPattern::And(Box::new(p.clone()), Box::new(PropPattern::Var("q")))
    };
    for bits in 0..8u32 {
        let env = |v: &str| -> bool {
            let k = match v { "b" => 0, "c" => 1, _ => 2 };
            bits & (1 << k) != 0
        };
        assert_eq!(value(&wrap(&r.lhs), &env), value(&wrap(&r.rhs), &env));
    }
}

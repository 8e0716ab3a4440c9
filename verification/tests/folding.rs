use eggenv::fold::{literal, ConstantFold, FoldedConst};
use eggenv::pattern::PropPattern;
use eggenv::prop::Prop;

fn shown(c: &Option<FoldedConst>) -> String {
    format!("{:?}", c)
}

#[test]
fn constants_fold_to_themselves() {
    let z = ConstantFold::make(&Prop::Zero, &vec![]).unwrap();
    assert!(!z.value);
    assert!(matches!(z.pattern, PropPattern::Zero));
    let o = ConstantFold::make(&Prop::One, &vec![]).unwrap();
    assert!(o.value);
    assert!(matches!(o.pattern, PropPattern::One));
}

#[test]
fn operators_fold_known_operands() {
    let n = ConstantFold::make(&Prop::Not(0), &vec![Some(true)]).unwrap();
    assert!(!n.value);
    assert_eq!(format!("{:?}", n.pattern), "Not(One)");
    let cases: Vec<(Prop, bool, bool, bool, &str)> = vec![
        (Prop::Or(0, 1), true, false, true, "Or(One, Zero)"),
        (Prop::Or(0, 1), false, false, false, "Or(Zero, Zero)"),
        (Prop::And(0, 1), true, false, false, "And(One, Zero)"),
        (Prop::And(0, 1), true, true, true, "And(One, One)"),
        (Prop::Implies(0, 1), true, false, false, "Implies(One, Zero)"),
        (Prop::Implies(0, 1), false, false, true, "Implies(Zero, Zero)"),
        (Prop::Let(0, 1), true, true, true, "Let(One, One)"),
        (Prop::Let(0, 1), true, false, false, "Let(One, Zero)"),
        (Prop::Let(0, 1), false, false, true, "Let(Zero, Zero)"),
        (Prop::Concat(0, 1), true, false, false, "Concat(One, Zero)"),
        (Prop::Concat(0, 1), true, true, true, "Concat(One, One)"),
    ];
    for (node, a, b, value, pattern) in cases {
        let c = ConstantFold::make(&node, &vec![Some(a), Some(b)]).unwrap();
        assert_eq!(c.value, value, "{:?}", node);
        assert_eq!(format!("{:?}", c.pattern), pattern);
    }
}

#[test]
fn unknown_operands_do_not_fold() {
    assert!(ConstantFold::make(&Prop::Not(0), &vec![None]).is_none());
    assert!(ConstantFold::make(&Prop::Or(0, 1), &vec![None, Some(true)]).is_none());
    assert!(ConstantFold::make(&Prop::Let(0, 1), &vec![Some(true), None]).is_none());
    assert!(ConstantFold::make(&Prop::Symbol("a".to_string()), &vec![]).is_none());
}

fn known(v: bool) -> Option<FoldedConst> {
    Some(FoldedConst { value: v, pattern: literal(v) })
}

#[test]
fn merge_takes_the_known_value() {
    let mut to = None;
    assert_eq!(ConstantFold.merge(&mut to, known(true)), (true, false));
    assert_eq!(shown(&to), shown(&known(true)));

    let mut to = known(false);
    assert_eq!(ConstantFold.merge(&mut to, None), (false, true));
    assert_eq!(shown(&to), shown(&known(false)));

    let mut to = known(true);
    assert_eq!(ConstantFold.merge(&mut to, known(true)), (false, false));
    assert_eq!(shown(&to), shown(&known(true)));

    let mut to: Option<FoldedConst> = None;
    assert_eq!(ConstantFold.merge(&mut to, None), (false, false));
    assert!(to.is_none());
}

#[test]
fn modify_unites_pattern_with_literal() {
    let c = ConstantFold::make(&Prop::Or(0, 1), &vec![Some(false), Some(true)]);
    let (pat, lit) = ConstantFold::modify(c).unwrap();
    assert_eq!(format!("{:?}", pat), "Or(Zero, One)");
    assert!(matches!(lit, PropPattern::One));
    assert!(ConstantFold::modify(None).is_none());
}

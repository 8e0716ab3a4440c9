use eggenv::prop::Prop;

fn from_op(op: &str, children: &[usize]) -> Result<Prop, eggenv::prop::FromOpError> {
    Prop::from_op(op, children.to_vec())
}

#[test]
fn from_op_reads_constants() {
    assert!(matches!(from_op("0", &[]), Ok(Prop::Zero)));
    assert!(matches!(from_op("1", &[]), Ok(Prop::One)));
}

#[test]
fn from_op_reads_operators() {
    assert!(matches!(from_op("!", &[3]), Ok(Prop::Not(3))));
    assert!(matches!(from_op("+", &[1, 2]), Ok(Prop::Or(1, 2))));
    assert!(matches!(from_op("*", &[1, 2]), Ok(Prop::And(1, 2))));
    assert!(matches!(from_op("->", &[2, 1]), Ok(Prop::Implies(2, 1))));
    assert!(matches!(from_op("let", &[0, 4]), Ok(Prop::Let(0, 4))));
    assert!(matches!(from_op("&", &[5, 6]), Ok(Prop::Concat(5, 6))));
}

#[test]
fn from_op_reads_symbols() {
    match from_op("a", &[]) {
        Ok(Prop::Symbol(s)) => assert_eq!(s, "a"),
        other => panic!("unexpected {:?}", other),
    }
    // an operator name without its operands is a plain symbol
    match from_op("!", &[]) {
        Ok(Prop::Symbol(s)) => assert_eq!(s, "!"),
        other => panic!("unexpected {:?}", other),
    }
}

#[test]
fn from_op_refuses_wrong_arity() {
    assert!(from_op("0", &[1]).is_err());
    assert!(from_op("!", &[1, 2]).is_err());
    assert!(from_op("+", &[1]).is_err());
    match from_op("x", &[1, 2]) {
        Err(e) => {
            assert_eq!(e.op, "x");
            assert_eq!(e.children, vec![1, 2]);
        }
        Ok(p) => panic!("unexpected {:?}", p),
    }
}

#[test]
fn op_name_prints_operator() {
    let names: Vec<String> = vec![
        Prop::Zero,
        Prop::One,
        Prop::Not(0),
        Prop::Or(0, 1),
        Prop::And(0, 1),
        Prop::Implies(0, 1),
        Prop::Let(0, 1),
        Prop::Concat(0, 1),
        Prop::Symbol("abc".to_string()),
    ]
    .iter()
    .map(|p| p.op_name())
    .collect();
    assert_eq!(names, vec!["0", "1", "!", "+", "*", "->", "let", "&", "abc"]);
}

#[test]
fn printed_node_reads_back() {
    for (op, children) in [("!", vec![7]), ("->", vec![1, 2]), ("let", vec![3, 3]), ("q", vec![])] {
        let p = Prop::from_op(op, children.clone()).unwrap();
        let again = Prop::from_op(&p.op_name(), children).unwrap();
        assert!(p.matches(&again));
        assert_eq!(format!("{:?}", p), format!("{:?}", again));
    }
}

#[test]
fn matches_ignores_children() {
    assert!(Prop::Or(1, 2).matches(&Prop::Or(3, 4)));
    assert!(!Prop::Or(1, 2).matches(&Prop::And(1, 2)));
    assert!(Prop::Symbol("a".to_string()).matches(&Prop::Symbol("a".to_string())));
    assert!(!Prop::Symbol("a".to_string()).matches(&Prop::Symbol("b".to_string())));
    assert!(!Prop::Zero.matches(&Prop::One));
}

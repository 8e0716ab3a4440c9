use eggenv::cost::{AstCost, AstDepth};

#[test]
fn ast_cost_counts_nodes() {
    assert_eq!(AstCost.cost(&vec![]), Some(1));
    assert_eq!(AstCost.cost(&vec![2, 3]), Some(6));
    assert_eq!(AstCost.cost(&vec![4]), Some(5));
}

#[test]
fn ast_cost_reports_overflow() {
    assert_eq!(AstCost.cost(&vec![usize::MAX - 1]), Some(usize::MAX));
    assert_eq!(AstCost.cost(&vec![usize::MAX]), None);
    assert_eq!(AstCost.cost(&vec![usize::MAX / 2, usize::MAX / 2, 2]), None);
}

#[test]
fn ast_depth_penalises_case() {
    assert_eq!(AstDepth.cost("Case", &vec![1, 1]), Some(103));
    assert_eq!(AstDepth.cost("If", &vec![1, 1, 1]), Some(4));
    assert_eq!(AstDepth.cost("a", &vec![]), Some(1));
    assert_eq!(AstDepth.cost("case", &vec![]), Some(1));
}

#[test]
fn ast_depth_reports_overflow() {
    assert_eq!(AstDepth.cost("If", &vec![usize::MAX - 101]), Some(usize::MAX - 100));
    assert_eq!(AstDepth.cost("Case", &vec![usize::MAX - 101]), Some(usize::MAX));
    assert_eq!(AstDepth.cost("Case", &vec![usize::MAX - 100]), None);
}

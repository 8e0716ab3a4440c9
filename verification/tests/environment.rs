use eggenv::env::{EggEnv, EnvError, StepOutcome};

#[test]
fn new_environment_offers_every_rule() {
    let env = EggEnv::new("(+ a 0)".to_string(), 3);
    assert_eq!(env.num_actions(), 54);
    assert_eq!(env.rules().len(), 54);
    assert_eq!(env.reset_expr(), "(+ a 0)");
}

#[test]
fn actions_beyond_the_rules_are_refused() {
    let env = EggEnv::new("a".to_string(), 1);
    assert_eq!(env.check_action(0), Ok(0));
    assert_eq!(env.check_action(53), Ok(53));
    assert_eq!(env.check_action(54), Err(EnvError::InvalidAction));
    assert_eq!(env.check_action(usize::MAX), Err(EnvError::InvalidAction));
}

#[test]
fn step_reward_is_the_cost_decrease() {
    let mut env = EggEnv::new("(* (+ a 0) 1)".to_string(), 5);
    assert_eq!(env.step(0, 5, 3), Ok(StepOutcome { new_cost: 3, reward: 2 }));
    assert_eq!(env.step(17, 3, 3), Ok(StepOutcome { new_cost: 3, reward: 0 }));
    assert_eq!(env.step(53, 3, 4), Ok(StepOutcome { new_cost: 4, reward: -1 }));
    assert_eq!(env.step(2, 4, 1), Ok(StepOutcome { new_cost: 1, reward: 3 }));
}

#[test]
fn step_refuses_an_invalid_action() {
    let mut env = EggEnv::new("(* a 1)".to_string(), 3);
    assert_eq!(env.step(54, 3, 1), Err(EnvError::InvalidAction));
    assert_eq!(env.step(usize::MAX, 3, 1), Err(EnvError::InvalidAction));
    assert_eq!(env.reset_expr(), "(* a 1)");
    assert_eq!(env.reset(None, 3), 3);
    assert_eq!(env.reset_expr(), "(* a 1)");
}

#[test]
fn reset_expr_is_the_last_expression_set() {
    let mut env = EggEnv::new("a".to_string(), 1);
    env.reset(Some("(+ a 0)".to_string()), 3);
    assert!(env.step(1, 3, 2).is_ok());
    assert!(env.step(99, 2, 1).is_err());
    env.reset(None, 2);
    assert_eq!(env.reset_expr(), "(+ a 0)");
    env.reset(Some("(! 1)".to_string()), 2);
    env.reset(None, 1);
    assert_eq!(env.reset_expr(), "(! 1)");
}

#[test]
fn reset_replaces_or_keeps_the_expression() {
    let mut env = EggEnv::new("a".to_string(), 1);
    assert_eq!(env.reset(Some("(! (! b))".to_string()), 4), 4);
    assert_eq!(env.reset_expr(), "(! (! b))");
    assert_eq!(env.reset(None, 1), 1);
    assert_eq!(env.reset_expr(), "(! (! b))");
}

use eggenv::bandit::{reward, RewriteRun, StopReason, MAX_STEPS, NODE_STOP, PATIENCE};

#[test]
fn reward_is_the_improvement_or_zero() {
    assert_eq!(reward(10, 7), 3);
    assert_eq!(reward(7, 7), 0);
    assert_eq!(reward(7, 10), 0);
}

#[test]
fn run_keeps_the_best_cost() {
    let mut run = RewriteRun::new(10);
    assert_eq!(run.next_step(), Some(0));
    let o = run.observe(8, 100);
    assert_eq!((o.reward, o.improved, o.report, o.stop), (2, true, true, None));
    assert_eq!(run.best_cost(), 8);
    let o = run.observe(9, 100);
    assert_eq!((o.reward, o.improved, o.report, o.stop), (0, false, false, None));
    assert_eq!(run.best_cost(), 8);
    assert_eq!(run.next_step(), Some(2));
}

#[test]
fn run_stops_without_improvement() {
    let mut run = RewriteRun::new(5);
    for k in 0..PATIENCE {
        let o = run.observe(5, 10);
        assert_eq!(o.report, k % 10 == 0);
        if k + 1 < PATIENCE {
            assert_eq!(o.stop, None);
        } else {
            assert_eq!(o.stop, Some(StopReason::NoImprovement));
        }
    }
    assert_eq!(run.next_step(), None);
}

#[test]
fn improvement_restarts_the_patience() {
    let mut run = RewriteRun::new(100);
    for _ in 0..PATIENCE - 1 {
        assert_eq!(run.observe(100, 10).stop, None);
    }
    assert_eq!(run.observe(99, 10).stop, None);
    for _ in 0..PATIENCE - 1 {
        assert_eq!(run.observe(99, 10).stop, None);
    }
    assert_eq!(run.observe(99, 10).stop, Some(StopReason::NoImprovement));
}

#[test]
fn run_stops_on_a_large_egraph() {
    let mut run = RewriteRun::new(5);
    assert_eq!(run.observe(4, NODE_STOP).stop, None);
    assert_eq!(run.observe(3, NODE_STOP + 1).stop, Some(StopReason::NodeLimit));
    assert_eq!(run.next_step(), None);
}

#[test]
fn run_ends_after_the_last_step() {
    let mut run = RewriteRun::new(5);
    let mut taken = 0;
    while run.next_step().is_some() {
        run.skip();
        taken += 1;
    }
    assert_eq!(taken, MAX_STEPS);
}

use scene_flow::progress::{Completion, CounterOp, ProgressCounter, Ratio};

fn as_f64(r: Ratio) -> f64 {
    r.num as f64 / r.den as f64
}

#[test]
fn three_tasks_two_done_then_complete() {
    let mut c = ProgressCounter::new();
    c.register(3);
    c.signal_success();
    c.signal_success();
    assert_eq!(c.status(), Completion::Loading);
    assert_eq!(c.fraction(), Ratio { num: 2, den: 3 });
    assert!((as_f64(c.fraction()) - 0.667).abs() < 0.001);
    c.signal_success();
    assert_eq!(c.status(), Completion::Complete);
    assert_eq!(c.fraction(), Ratio { num: 3, den: 3 });
}

#[test]
fn failure_wins_even_when_all_done() {
    let mut c = ProgressCounter::new();
    c.register(2);
    c.signal_success();
    c.signal_failure();
    assert_eq!(c.num_finished(), c.num_assets());
    assert_eq!(c.status(), Completion::Failed);
}

#[test]
fn failure_is_permanent_until_reset() {
    let mut c = ProgressCounter::new();
    c.register(4);
    c.signal_failure();
    assert_eq!(c.status(), Completion::Failed);
    c.signal_success();
    c.signal_success();
    c.signal_success();
    assert_eq!(c.status(), Completion::Failed);
    c.register(1);
    assert_eq!(c.status(), Completion::Failed);
    c.reset();
    assert_eq!(c.status(), Completion::Complete);
    assert!(!c.is_failed());
    assert_eq!(c.num_assets(), 0);
}

#[test]
fn zero_tasks_is_complete() {
    let c = ProgressCounter::new();
    assert_eq!(c.status(), Completion::Complete);
    assert_eq!(c.fraction(), Ratio { num: 0, den: 1 });
}

#[test]
fn completed_never_exceeds_total_and_fraction_rises() {
    let mut c = ProgressCounter::new();
    let ops = [
        CounterOp::Register(5),
        CounterOp::Success,
        CounterOp::Register(0),
        CounterOp::Success,
        CounterOp::Failure,
        CounterOp::Success,
        CounterOp::Success,
    ];
    let mut last = 0.0f64;
    for op in ops {
        c.apply(op);
        assert!(c.num_finished() <= c.num_assets());
        let f = as_f64(c.fraction());
        assert!(f >= last);
        last = f;
    }
    assert_eq!(last, 1.0);
    assert_eq!(c.status(), Completion::Failed);
}

#[test]
fn registering_more_tasks_lowers_the_fraction() {
    let mut c = ProgressCounter::new();
    c.register(1);
    c.signal_success();
    assert_eq!(c.status(), Completion::Complete);
    c.register(1);
    assert_eq!(c.fraction(), Ratio { num: 1, den: 2 });
    assert_eq!(c.status(), Completion::Loading);
}

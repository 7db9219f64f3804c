use hashpool::timing::{speed_ratio, RunTiming};

#[test]
fn default_is_zeroed() {
    let t = RunTiming::default();
    assert_eq!(t.initialization, 0);
    assert_eq!(t.completion, 0);
}

#[test]
fn marks_are_recorded() {
    let mut t = RunTiming::default();
    t.set_init(100);
    t.set_complete(250);
    assert_eq!(t.initialization, 100);
    assert_eq!(t.completion, 250);
}

#[test]
fn ratio_of_two_runs() {
    let a = RunTiming { initialization: 10, completion: 40 };
    let b = RunTiming { initialization: 5, completion: 15 };
    assert_eq!(speed_ratio(&a, &b), (3, 30, 10));
}

#[test]
fn zero_duration_counts_as_one_tick() {
    let a = RunTiming { initialization: 10, completion: 40 };
    let b = RunTiming { initialization: 5, completion: 5 };
    assert_eq!(speed_ratio(&a, &b), (30, 30, 1));
    assert_eq!(speed_ratio(&b, &b), (1, 1, 1));
    assert_eq!(speed_ratio(&b, &a), (0, 1, 30));
}

use porcino::trainer::{Action, NetworkSignal, Plan, StatusSnapshot, TrainerState};

fn snapshot(epochs: usize, epochs_to_run: usize, running: bool) -> StatusSnapshot {
    StatusSnapshot { epochs, epochs_to_run, running }
}

/// Runs turns without a signal until the trainer idles; returns the plans.
fn run_until_idle(t: &mut TrainerState<Vec<u8>>, limit: usize) -> Vec<Plan> {
    let mut plans = Vec::new();
    for _ in 0..limit {
        match t.step(None) {
            Action::Work(p) => {
                plans.push(p);
                if p.idle.is_some() {
                    break;
                }
            }
            other => panic!("unexpected action {:?}", other),
        }
    }
    plans
}

#[test]
fn new_trainer_is_stopped_and_empty() {
    let t = TrainerState::new(vec![1u8]);
    assert!(!t.running);
    assert_eq!(t.epoch_count, 0);
    assert_eq!(t.epochs_to_run, 0);
    assert_eq!(t.training_data, vec![1u8]);
    assert!(t.eval_data.is_none());
    assert_eq!(t.report_interval, 0);
}

#[test]
fn epoch_budgets_accumulate() {
    let mut t = TrainerState::new(vec![1u8]);
    assert_eq!(t.step(Some(NetworkSignal::SetEpochs(5))), Action::Applied);
    assert_eq!(t.step(Some(NetworkSignal::SetEpochs(3))), Action::Applied);
    assert_eq!(t.step(Some(NetworkSignal::Toggle)), Action::Applied);
    assert_eq!(t.epochs_to_run, 8);
    let plans = run_until_idle(&mut t, 100);
    assert_eq!(plans.len(), 9);
    assert_eq!(plans[8].idle, Some(snapshot(8, 8, false)));
    assert_eq!(t.snapshot(), snapshot(8, 8, true));
}

#[test]
fn epoch_budget_saturates() {
    let mut t = TrainerState::new(vec![1u8]);
    t.apply_signal(NetworkSignal::SetEpochs(usize::MAX - 1));
    t.apply_signal(NetworkSignal::SetEpochs(5));
    assert_eq!(t.epochs_to_run, usize::MAX);
}

#[test]
fn stopped_trainer_does_not_train() {
    let mut t = TrainerState::new(vec![1u8]);
    t.apply_signal(NetworkSignal::SetEpochs(4));
    for _ in 0..3 {
        let a = t.step(None);
        assert_eq!(
            a,
            Action::Work(Plan {
                evaluate: false,
                report: None,
                train: false,
                idle: Some(snapshot(0, 4, false)),
            })
        );
        assert_eq!(t.epoch_count, 0);
    }
}

#[test]
fn wake_runs_exactly_one_epoch() {
    let mut t = TrainerState::new(vec![1u8, 2u8]);
    assert!(matches!(t.step(None), Action::Work(Plan { train: false, .. })));
    t.step(Some(NetworkSignal::SetEpochs(1)));
    t.step(Some(NetworkSignal::Toggle));
    let first = t.step(None);
    assert!(matches!(first, Action::Work(Plan { train: true, idle: None, .. })));
    assert_eq!(t.epoch_count, 1);
    for _ in 0..3 {
        assert!(matches!(t.step(None), Action::Work(Plan { train: false, .. })));
        assert_eq!(t.epoch_count, 1);
    }
}

#[test]
fn reports_only_on_multiples_of_the_interval() {
    let mut t = TrainerState::new(vec![1u8]);
    t.apply_signal(NetworkSignal::SetReportInterval(10));
    t.apply_signal(NetworkSignal::EvalData(Some(vec![2u8])));
    t.apply_signal(NetworkSignal::SetEpochs(35));
    t.apply_signal(NetworkSignal::Toggle);
    let plans = run_until_idle(&mut t, 100);
    assert_eq!(plans.len(), 36);
    for (count, p) in plans.iter().enumerate() {
        if count % 10 == 0 {
            assert_eq!(p.report, Some(snapshot(count, 35, true)));
            assert!(p.evaluate);
        } else {
            assert_eq!(p.report, None);
            assert!(!p.evaluate);
        }
    }
}

#[test]
fn zero_interval_never_reports() {
    let mut t = TrainerState::new(vec![1u8]);
    t.apply_signal(NetworkSignal::EvalData(Some(vec![2u8])));
    t.apply_signal(NetworkSignal::SetEpochs(3));
    t.apply_signal(NetworkSignal::Toggle);
    for p in run_until_idle(&mut t, 10) {
        assert_eq!(p.report, None);
        assert!(!p.evaluate);
    }
}

#[test]
fn report_without_eval_data_does_not_evaluate() {
    let mut t = TrainerState::new(vec![1u8]);
    t.apply_signal(NetworkSignal::SetReportInterval(1));
    match t.step(None) {
        Action::Work(p) => {
            assert_eq!(p.report, Some(snapshot(0, 0, false)));
            assert!(!p.evaluate);
        }
        other => panic!("unexpected action {:?}", other),
    }
}

#[test]
fn eval_data_can_be_removed() {
    let mut t = TrainerState::new(vec![1u8]);
    t.apply_signal(NetworkSignal::EvalData(Some(vec![2u8])));
    assert_eq!(t.eval_data, Some(vec![2u8]));
    t.apply_signal(NetworkSignal::EvalData(None));
    assert!(t.eval_data.is_none());
}

#[test]
fn set_data_replaces_training_set() {
    let mut t = TrainerState::new(vec![1u8]);
    assert_eq!(t.step(Some(NetworkSignal::SetData(vec![7u8, 8u8]))), Action::Applied);
    assert_eq!(t.training_data, vec![7u8, 8u8]);
}

#[test]
fn toggle_twice_stops_again() {
    let mut t = TrainerState::new(vec![1u8]);
    t.apply_signal(NetworkSignal::Toggle);
    assert!(t.running);
    t.apply_signal(NetworkSignal::Toggle);
    assert!(!t.running);
}

#[test]
fn kill_exits_and_changes_nothing() {
    let mut t = TrainerState::new(vec![1u8]);
    t.apply_signal(NetworkSignal::SetEpochs(2));
    t.apply_signal(NetworkSignal::Toggle);
    assert_eq!(t.step(Some(NetworkSignal::Kill)), Action::Exit);
    assert_eq!(t.snapshot(), snapshot(0, 2, true));
}

#[test]
fn epoch_count_stays_within_budget() {
    let mut t = TrainerState::new(vec![1u8]);
    t.apply_signal(NetworkSignal::Toggle);
    t.apply_signal(NetworkSignal::SetEpochs(2));
    for _ in 0..10 {
        t.step(None);
        assert!(t.epoch_count <= t.epochs_to_run);
    }
    assert_eq!(t.epoch_count, 2);
}

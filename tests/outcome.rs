use minion::outcome::{task_complete, task_fail, OutcomeError, OutcomeSignal, TaskOutcome};

#[test]
fn first_completion_is_recorded() {
    let mut signal = OutcomeSignal::new(5u8);
    let (sender, outcome) = task_complete(&mut signal, Some("done".to_string())).unwrap();
    assert_eq!(sender, 5);
    assert!(matches!(outcome, TaskOutcome::Completed(Some(ref d)) if d == "done"));
    assert!(signal.is_consumed());
}

#[test]
fn second_outcome_after_completion_is_error() {
    let mut signal = OutcomeSignal::new(());
    assert!(task_complete(&mut signal, None).is_ok());
    assert_eq!(task_fail(&mut signal, None).err(), Some(OutcomeError::AlreadyReported));
    assert_eq!(task_complete(&mut signal, None).err(), Some(OutcomeError::AlreadyReported));
}

#[test]
fn second_outcome_after_failure_is_error() {
    let mut signal = OutcomeSignal::new(());
    let (_, outcome) = task_fail(&mut signal, Some("stuck".to_string())).unwrap();
    assert!(matches!(outcome, TaskOutcome::Failed(_)));
    assert_eq!(task_complete(&mut signal, None).err(), Some(OutcomeError::AlreadyReported));
}

#[test]
fn take_twice_is_error() {
    let mut signal = OutcomeSignal::new(1i32);
    assert_eq!(signal.take(), Ok(1));
    assert_eq!(signal.take(), Err(OutcomeError::AlreadyReported));
}

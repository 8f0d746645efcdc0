use bluetape_rs::tasks::{
    build_report, collect_on_event, try_map_on_event, CollectAction, TaskEvent, TryMapAction,
    race_outcome, results_in_input_order, tasks_to_start, validate_max_concurrency,
    AsyncControlError, ConcurrencyError, RaceEvent, TaskFailure, TaskGroupReport, TaskSuccess,
    DEFAULT_MAX_CONCURRENCY, MAX_CONCURRENCY,
};

#[test]
fn async_control_error_formats_public_error_messages() {
    assert_eq!(AsyncControlError::TimedOut.message(), "operation timed out");
    assert_eq!(AsyncControlError::Cancelled.message(), "operation was cancelled");
}

#[test]
fn race_outcome_names_the_winner() {
    assert_eq!(race_outcome(RaceEvent::Completed, Some(7)), Ok(7));
    assert_eq!(
        race_outcome::<i32>(RaceEvent::Elapsed, None),
        Err(AsyncControlError::TimedOut)
    );
    assert_eq!(
        race_outcome(RaceEvent::Cancelled, Some(7)),
        Err(AsyncControlError::Cancelled)
    );
}

#[test]
fn concurrency_bounds_are_validated() {
    assert_eq!(
        validate_max_concurrency(0),
        Err(ConcurrencyError::ZeroConcurrency)
    );
    assert_eq!(
        validate_max_concurrency(MAX_CONCURRENCY + 1),
        Err(ConcurrencyError::ExcessiveConcurrency {
            max_concurrency: MAX_CONCURRENCY + 1,
            upper_bound: MAX_CONCURRENCY,
        })
    );
    assert_eq!(validate_max_concurrency(1), Ok(()));
    assert_eq!(validate_max_concurrency(MAX_CONCURRENCY), Ok(()));
    assert_eq!(validate_max_concurrency(DEFAULT_MAX_CONCURRENCY), Ok(()));
    assert_eq!(
        ConcurrencyError::ZeroConcurrency.message(),
        "max_concurrency must be greater than zero"
    );
    assert_eq!(
        ConcurrencyError::ExcessiveConcurrency {
            max_concurrency: 10_001,
            upper_bound: 10_000,
        }
        .message(),
        "max_concurrency must be less than or equal to 10000, got 10001"
    );
}

#[test]
fn scheduler_never_exceeds_the_bound() {
    assert_eq!(tasks_to_start(0, 2, 5), 2);
    assert_eq!(tasks_to_start(1, 2, 5), 1);
    assert_eq!(tasks_to_start(2, 2, 5), 0);
    assert_eq!(tasks_to_start(0, 4, 3), 3);
    assert_eq!(tasks_to_start(0, 4, 0), 0);
    let mut running = 0;
    let mut remaining = 10;
    let mut peak = 0;
    while remaining > 0 || running > 0 {
        let n = tasks_to_start(running, 3, remaining);
        running += n;
        remaining -= n;
        peak = peak.max(running);
        running -= 1;
    }
    assert_eq!(peak, 3);
}

#[test]
fn reports_are_ordered_by_input_index() {
    let report: TaskGroupReport<&str, &str> = build_report(
        vec![
            TaskSuccess { index: 3, value: "d" },
            TaskSuccess { index: 0, value: "a" },
            TaskSuccess { index: 2, value: "c" },
        ],
        vec![
            TaskFailure { index: 4, error: "e" },
            TaskFailure { index: 1, error: "b" },
        ],
    );
    let success_indices: Vec<usize> = report.successes.iter().map(|s| s.index).collect();
    let failure_indices: Vec<usize> = report.failures.iter().map(|f| f.index).collect();
    assert_eq!(success_indices, vec![0, 2, 3]);
    assert_eq!(report.successes[0].value, "a");
    assert_eq!(failure_indices, vec![1, 4]);
    assert!(!report.is_success());
    assert_eq!(report.len(), 5);
    assert!(!report.is_empty());

    let empty: TaskGroupReport<u8, u8> = build_report(Vec::new(), Vec::new());
    assert!(empty.is_success());
    assert!(empty.is_empty());
    assert_eq!(empty.len(), 0);
}

#[test]
fn slots_yield_results_in_input_order() {
    assert_eq!(
        results_in_input_order(vec![Some(1), None, Some(3), Some(4)]),
        vec![1, 3, 4]
    );
    assert_eq!(results_in_input_order::<u8>(vec![None, None]), Vec::<u8>::new());
}

#[test]
fn first_error_mode_stores_successes_in_their_slots_and_stops_on_failure() {
    let mut slots: Vec<Option<&str>> = vec![None, None, None];
    let action = try_map_on_event(
        &mut slots,
        TaskEvent::<&str, u8>::Succeeded { index: 2, value: "c" },
        1,
        2,
        4,
    );
    assert_eq!(action, TryMapAction::Start(1));
    assert_eq!(slots, vec![None, None, Some("c")]);
    let action = try_map_on_event(&mut slots, TaskEvent::Failed { index: 0, error: 7u8 }, 1, 2, 4);
    assert_eq!(action, TryMapAction::Fail { index: 0, error: 7 });
    assert_eq!(slots, vec![None, None, Some("c")]);
    let action = try_map_on_event(&mut slots, TaskEvent::<&str, u8>::JoinFailed, 0, 2, 0);
    assert_eq!(action, TryMapAction::FailJoin);
}

#[test]
fn collect_mode_records_failures_without_stopping() {
    let mut successes = Vec::new();
    let mut failures = Vec::new();
    let action = collect_on_event(
        &mut successes,
        &mut failures,
        TaskEvent::Failed { index: 1, error: "boom" },
        0,
        3,
        5,
    );
    assert_eq!(action, CollectAction::Start(3));
    assert_eq!(failures, vec![TaskFailure { index: 1, error: "boom" }]);
    let action = collect_on_event(
        &mut successes,
        &mut failures,
        TaskEvent::Succeeded { index: 0, value: 10 },
        2,
        3,
        0,
    );
    assert_eq!(action, CollectAction::Start(0));
    assert_eq!(successes, vec![TaskSuccess { index: 0, value: 10 }]);
    let action = collect_on_event(&mut successes, &mut failures, TaskEvent::JoinFailed, 2, 3, 0);
    assert_eq!(action, CollectAction::Stop);
    assert_eq!(successes.len() + failures.len(), 2);
}

#[test]
fn reports_keep_equal_indices_in_arrival_order() {
    let report: TaskGroupReport<&str, u8> = build_report(
        vec![
            TaskSuccess { index: 1, value: "first" },
            TaskSuccess { index: 0, value: "zero" },
            TaskSuccess { index: 1, value: "second" },
        ],
        Vec::new(),
    );
    let values: Vec<&str> = report.successes.iter().map(|s| s.value).collect();
    assert_eq!(values, vec!["zero", "first", "second"]);
}

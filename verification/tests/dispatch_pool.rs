use zeroclaw::dispatch::{
    compute_max_in_flight_messages, DispatchPool, ListenOutcome, ListenerBackoff,
    ListenerDecision, MAX_IN_FLIGHT_MESSAGES, MIN_IN_FLIGHT_MESSAGES,
};
use zeroclaw::health::{
    classify_health_result, summarize_health, ChannelHealthState, HealthCheckOutcome,
};

#[test]
fn max_in_flight_is_bounded_above_and_below() {
    assert_eq!(compute_max_in_flight_messages(0), MIN_IN_FLIGHT_MESSAGES);
    assert_eq!(compute_max_in_flight_messages(1), MIN_IN_FLIGHT_MESSAGES);
    assert_eq!(compute_max_in_flight_messages(2), 8);
    assert_eq!(compute_max_in_flight_messages(100), MAX_IN_FLIGHT_MESSAGES);
    for channels in 0..200 {
        let v = compute_max_in_flight_messages(channels);
        assert!(v >= MIN_IN_FLIGHT_MESSAGES && v <= MAX_IN_FLIGHT_MESSAGES);
    }
}

#[test]
fn pool_never_runs_more_tasks_than_permits() {
    let mut pool = DispatchPool::new(2);
    let a = pool.submit("chan:a".to_string(), false);
    let b = pool.submit("chan:b".to_string(), false);
    let c = pool.submit("chan:c".to_string(), false);

    assert!(pool.try_start(a));
    assert!(pool.try_start(b));
    // The semaphore has two permits: a third concurrent start must wait.
    assert!(!pool.try_start(c));

    pool.finish(a);
    pool.signal_completion(a);
    assert!(pool.try_start(c));
}

#[test]
fn interruption_serialises_a_scope() {
    let mut pool = DispatchPool::new(8);
    let first = pool.submit("telegram:u1".to_string(), true);
    let second = pool.submit("telegram:u1".to_string(), true);
    let other = pool.submit("telegram:u2".to_string(), true);

    assert!(pool.try_start(first));

    // The newer message fires the older task's cancellation token...
    pool.cancel_predecessors(second);
    assert!(pool.is_cancel_requested(first));
    assert!(!pool.is_cancel_requested(second));

    // ...and must not start its pipeline body before the older task has
    // signalled completion.
    assert!(!pool.try_start(second));

    // An unrelated sender is not held up.
    assert!(pool.try_start(other));

    pool.finish(first);
    assert!(!pool.try_start(second));
    pool.signal_completion(first);
    assert!(pool.try_start(second));
}

#[test]
fn listener_backoff_doubles_to_the_ceiling_and_stops_on_sink_close() {
    let mut backoff = ListenerBackoff::new(0, 0);
    assert_eq!(backoff.current_secs, 2);
    assert_eq!(backoff.max_secs, 300);

    let mut delays = Vec::new();
    for _ in 0..10 {
        match backoff.step(ListenOutcome::Failed) {
            ListenerDecision::RetryAfterSecs(d) => delays.push(d),
            ListenerDecision::Stop => panic!("a failure must retry"),
        }
    }
    assert_eq!(&delays[..4], &[2, 4, 8, 16]);
    assert_eq!(*delays.last().unwrap(), 300);

    assert_eq!(backoff.step(ListenOutcome::SinkClosed), ListenerDecision::Stop);
}

#[test]
fn health_classification_is_pure() {
    assert_eq!(
        classify_health_result(&HealthCheckOutcome::Completed(true)),
        ChannelHealthState::Healthy
    );
    assert_eq!(
        classify_health_result(&HealthCheckOutcome::Completed(false)),
        ChannelHealthState::Unhealthy
    );
    // A check that outlives its deadline is always a timeout, whatever it
    // would eventually have answered.
    assert_eq!(
        classify_health_result(&HealthCheckOutcome::TimedOut),
        ChannelHealthState::Timeout
    );
    for _ in 0..3 {
        assert_eq!(
            classify_health_result(&HealthCheckOutcome::TimedOut),
            ChannelHealthState::Timeout
        );
    }
}

#[test]
fn health_summary_counts_each_state() {
    let outcomes = vec![
        HealthCheckOutcome::Completed(true),
        HealthCheckOutcome::Completed(false),
        HealthCheckOutcome::TimedOut,
        HealthCheckOutcome::Completed(true),
    ];
    let summary = summarize_health(&outcomes);
    assert_eq!(summary.healthy, 2);
    assert_eq!(summary.unhealthy, 1);
    assert_eq!(summary.timeout, 1);
}

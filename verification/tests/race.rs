use query_race::AsyncQuery;
use query_race::PollStep;
use query_race::QueryOutcome;
use query_race::RaceDriver;
use query_race::RaceError;
use query_race::RaceOutcome;
use query_race::RaceSet;

fn success(name: &str, ready_at: u64, value: u64) -> AsyncQuery {
    AsyncQuery::new(name.to_string(), ready_at, QueryOutcome::Success(value))
}

fn failure(name: &str, ready_at: u64, cause: &str) -> AsyncQuery {
    AsyncQuery::new(name.to_string(), ready_at, QueryOutcome::Failure(cause.to_string()))
}

#[test]
fn empty_race_is_rejected() {
    let created = RaceSet::new(Vec::new());
    assert!(matches!(created, Err(RaceError::EmptyRace)));
}

#[test]
fn single_success_wins() {
    let mut set = RaceSet::new(vec![success("only", 3, 7)]).unwrap();
    let driver = RaceDriver::new(1);
    match driver.run(&mut set) {
        RaceOutcome::Resolved { winner_index, winner_identity, value } => {
            assert_eq!(winner_index, 0);
            assert_eq!(winner_identity, "only");
            assert_eq!(value, 7);
        }
        RaceOutcome::AllFailed { .. } => panic!("a successful query must win"),
    }
}

#[test]
fn single_failure_reports_its_cause() {
    let mut set = RaceSet::new(vec![failure("only", 2, "unreachable")]).unwrap();
    let driver = RaceDriver::new(1);
    match driver.run(&mut set) {
        RaceOutcome::AllFailed { errors } => {
            assert_eq!(errors.len(), 1);
            assert_eq!(errors[0].index, 0);
            assert_eq!(errors[0].cause, "unreachable");
        }
        RaceOutcome::Resolved { .. } => panic!("a failing query cannot win"),
    }
}

#[test]
fn first_success_wins_despite_earlier_error() {
    // Completion order: index 2 errors first, index 0 succeeds next,
    // index 1 succeeds last.  The race must report index 0 with value 100.
    let queries = vec![
        success("zero", 1, 100),
        success("one", 2, 200),
        failure("two", 0, "boom"),
    ];
    let mut set = RaceSet::new(queries).unwrap();
    let driver = RaceDriver::new(4);
    match driver.run(&mut set) {
        RaceOutcome::Resolved { winner_index, winner_identity, value } => {
            assert_eq!(winner_index, 0);
            assert_eq!(winner_identity, "zero");
            assert_eq!(value, 100);
        }
        RaceOutcome::AllFailed { .. } => panic!("index 0 succeeds, so the race must resolve"),
    }
}

#[test]
fn simultaneous_successes_go_to_the_lower_index() {
    let queries = vec![
        failure("a", 0, "early error"),
        success("b", 5, 11),
        success("c", 5, 22),
    ];
    let mut set = RaceSet::new(queries).unwrap();
    let driver = RaceDriver::new(2);
    match driver.run(&mut set) {
        RaceOutcome::Resolved { winner_index, winner_identity, value } => {
            assert_eq!(winner_index, 1);
            assert_eq!(winner_identity, "b");
            assert_eq!(value, 11);
        }
        RaceOutcome::AllFailed { .. } => panic!("two queries succeed, so the race must resolve"),
    }
}

#[test]
fn all_failed_preserves_index_order() {
    // The causes complete out of index order (index 1 finishes first);
    // the aggregated list still pairs each cause with its own index.
    let queries = vec![failure("t", 4, "timeout"), failure("r", 1, "refused")];
    let mut set = RaceSet::new(queries).unwrap();
    let driver = RaceDriver::new(2);
    match driver.run(&mut set) {
        RaceOutcome::AllFailed { errors } => {
            assert_eq!(errors.len(), 2);
            assert_eq!(errors[0].index, 0);
            assert_eq!(errors[0].cause, "timeout");
            assert_eq!(errors[1].index, 1);
            assert_eq!(errors[1].cause, "refused");
        }
        RaceOutcome::Resolved { .. } => panic!("every query fails, so the race cannot resolve"),
    }
}

#[test]
fn late_completion_cannot_change_a_resolved_race() {
    let queries = vec![success("fast", 1, 10), success("slow", 9, 99)];
    let mut set = RaceSet::new(queries).unwrap();
    let driver = RaceDriver::new(1);
    let out = driver.run(&mut set);
    let (winner, value) = match out {
        RaceOutcome::Resolved { winner_index, value, .. } => (winner_index, value),
        RaceOutcome::AllFailed { .. } => panic!("the race must resolve"),
    };
    assert_eq!(winner, 0);
    assert_eq!(value, 10);
    // Simulate the loser completing out of band, after the race returned.
    set.record_completion(1, QueryOutcome::Success(99));
    set.record_completion(1, QueryOutcome::Failure("late error".to_string()));
    assert!(set.is_decided());
    assert!(!set.is_failed());
    assert_eq!(set.resolved_winner(), Some(0));
    assert_eq!(set.resolved_value(), Some(10));
}

#[test]
fn late_completion_cannot_change_a_failed_race() {
    let queries = vec![failure("a", 0, "down"), failure("b", 1, "down too")];
    let mut set = RaceSet::new(queries).unwrap();
    let driver = RaceDriver::new(1);
    match driver.run(&mut set) {
        RaceOutcome::AllFailed { errors } => assert_eq!(errors.len(), 2),
        RaceOutcome::Resolved { .. } => panic!("every query fails"),
    }
    // A stray success after the decision must not resurrect the race.
    set.record_completion(0, QueryOutcome::Success(1));
    assert!(set.is_decided());
    assert!(set.is_failed());
    assert_eq!(set.resolved_winner(), None);
    assert_eq!(set.resolved_value(), None);
}

#[test]
fn undecided_race_resolves_on_recorded_success() {
    let queries = vec![success("a", 1, 5), success("b", 2, 6)];
    let mut set = RaceSet::new(queries).unwrap();
    assert_eq!(set.resolved_winner(), None);
    set.record_completion(1, QueryOutcome::Success(6));
    assert_eq!(set.resolved_winner(), Some(1));
    assert_eq!(set.resolved_value(), Some(6));
}

#[test]
fn poll_is_idempotent_while_pending() {
    let mut q = success("s", 3, 42);
    q.start();
    assert!(matches!(q.poll(0), PollStep::Pending));
    assert!(matches!(q.poll(1), PollStep::Pending));
    assert!(matches!(q.poll(2), PollStep::Pending));
    match q.poll(3) {
        PollStep::ReadyOk(v) => assert_eq!(v, 42),
        _ => panic!("the query completes at instant 3"),
    }
}

#[test]
fn failing_query_reports_ready_err() {
    let mut q = failure("f", 0, "no route");
    q.start();
    match q.poll(0) {
        PollStep::ReadyErr(cause) => assert_eq!(cause, "no route"),
        _ => panic!("the query fails at instant 0"),
    }
    assert_eq!(q.identity_label(), "f");
}

#[test]
fn query_count_and_identities_follow_the_input() {
    let queries = vec![success("x", 0, 1), success("y", 0, 2), success("z", 0, 3)];
    let set = RaceSet::new(queries).unwrap();
    assert_eq!(set.query_count(), 3);
    assert_eq!(set.query_identity(0), "x");
    assert_eq!(set.query_identity(1), "y");
    assert_eq!(set.query_identity(2), "z");
}

#[test]
fn driver_keeps_its_pool_size() {
    let driver = RaceDriver::new(8);
    assert_eq!(driver.pool_size(), 8);
}

#[test]
fn one_driver_serves_many_races() {
    let driver = RaceDriver::new(2);

    let mut first = RaceSet::new(vec![success("a", 2, 1), success("b", 1, 2)]).unwrap();
    match driver.run(&mut first) {
        RaceOutcome::Resolved { winner_index, value, .. } => {
            assert_eq!(winner_index, 1);
            assert_eq!(value, 2);
        }
        RaceOutcome::AllFailed { .. } => panic!("both queries succeed"),
    }

    let mut second = RaceSet::new(vec![failure("c", 0, "gone"), success("d", 3, 4)]).unwrap();
    match driver.run(&mut second) {
        RaceOutcome::Resolved { winner_index, value, .. } => {
            assert_eq!(winner_index, 1);
            assert_eq!(value, 4);
        }
        RaceOutcome::AllFailed { .. } => panic!("the second query succeeds"),
    }
}

#[test]
fn pool_size_does_not_change_the_winner() {
    for pool in [1usize, 2, 16] {
        let queries = vec![failure("a", 2, "x"), success("b", 4, 9), success("c", 3, 8)];
        let mut set = RaceSet::new(queries).unwrap();
        let driver = RaceDriver::new(pool);
        match driver.run(&mut set) {
            RaceOutcome::Resolved { winner_index, value, .. } => {
                assert_eq!(winner_index, 2);
                assert_eq!(value, 8);
            }
            RaceOutcome::AllFailed { .. } => panic!("index 2 succeeds"),
        }
    }
}

use asa_server::errors::{CoordinatorManagerError, Error};
use asa_server::manager::{
    conclude_shutdown, CoordinatorManager, FinishKind, JoinFault, MetaInner, PanicPayload,
    N_PARALLEL,
};

#[test]
fn fresh_manager_is_empty_and_shuts_down() {
    let m = CoordinatorManager::new();
    assert!(m.is_empty());
    assert!(m.shutdown().is_ok());
}

#[test]
fn at_most_n_parallel_units_run_concurrently() {
    assert_eq!(N_PARALLEL, 2);
    let mut m = CoordinatorManager::new();
    // three near-simultaneous submissions, each beginning as soon as it can
    let a = m.spawn();
    assert!(m.begin_unit(a));
    let b = m.spawn();
    assert!(m.begin_unit(b));
    let c = m.spawn();
    // both permits are in use: the third unit cannot begin
    assert!(!m.begin_unit(c));
    // a permit frees up once a running unit finishes
    m.finish_unit(a, FinishKind::Success);
    assert!(m.begin_unit(c));
}

#[test]
fn superseded_queued_unit_never_begins() {
    let mut m = CoordinatorManager::new();
    let a = m.spawn();
    // a is still queued when b is submitted: a is cancelled outright
    let b = m.spawn();
    assert!(!m.begin_unit(a));
    assert!(m.begin_unit(b));
    // the cancelled unit's completion is reported first, as a silent discard
    let joined = m.join_next().expect("a completion is waiting");
    assert_eq!(joined, Err(JoinFault::Cancelled));
}

#[test]
fn superseding_a_running_unit_only_requests_cancellation() {
    let mut m = CoordinatorManager::new();
    let a = m.spawn();
    assert!(m.begin_unit(a));
    // a already runs when b arrives: cancellation is advisory
    let b = m.spawn();
    assert!(m.begin_unit(b));
    // a may still complete normally, or honour the request
    m.finish_unit(a, FinishKind::Success);
    let joined = m.join_next().expect("a completion is waiting");
    assert_eq!(joined, Ok(Ok(())));
    m.finish_unit(b, FinishKind::Cancelled);
    let joined = m.join_next().expect("a completion is waiting");
    assert_eq!(joined, Err(JoinFault::Cancelled));
}

#[test]
fn shutdown_fails_while_a_unit_holds_the_handle() {
    let mut m = CoordinatorManager::new();
    let a = m.spawn();
    assert!(m.begin_unit(a));
    let r = m.shutdown();
    assert_eq!(r, Err(CoordinatorManagerError::OutstandingCoordinatorShutdown));
}

#[test]
fn shutdown_fails_while_a_unit_is_still_queued() {
    let mut m = CoordinatorManager::new();
    let _a = m.spawn();
    let r = m.shutdown();
    assert_eq!(r, Err(CoordinatorManagerError::OutstandingCoordinatorShutdown));
}

#[test]
fn shutdown_succeeds_once_units_completed_or_cancelled() {
    let mut m = CoordinatorManager::new();
    let a = m.spawn();
    assert!(m.begin_unit(a));
    // b is superseded while queued by c and never runs
    let b = m.spawn();
    let c = m.spawn();
    assert!(!m.begin_unit(b));
    assert!(m.begin_unit(c));
    m.finish_unit(a, FinishKind::Success);
    m.finish_unit(c, FinishKind::Success);
    // drain every completion
    while let Some(_joined) = m.join_next() {}
    assert!(m.is_empty());
    assert!(m.shutdown().is_ok());
}

#[test]
fn conclude_shutdown_surfaces_backend_failure_as_distinct_kind() {
    assert!(conclude_shutdown(Ok(())).is_ok());
    let r = conclude_shutdown(Err(String::from("container teardown failed")));
    assert_eq!(
        r,
        Err(CoordinatorManagerError::Shutdown { source: String::from("container teardown failed") })
    );
}

#[test]
fn completions_are_reported_in_completion_order() {
    let mut m = CoordinatorManager::new();
    let a = m.spawn();
    assert!(m.begin_unit(a));
    let b = m.spawn();
    assert!(m.begin_unit(b));
    // b finishes before a
    m.finish_unit(b, FinishKind::AppError(Error::MiriVersion, None));
    m.finish_unit(a, FinishKind::Success);
    let first = m.join_next().expect("first completion");
    assert_eq!(first, Ok(Err((Error::MiriVersion, None))));
    let second = m.join_next().expect("second completion");
    assert_eq!(second, Ok(Ok(())));
    assert_eq!(m.join_next(), None);
}

#[test]
fn app_error_keeps_its_correlation_metadata() {
    let mut m = CoordinatorManager::new();
    let a = m.spawn();
    assert!(m.begin_unit(a));
    m.finish_unit(
        a,
        FinishKind::AppError(
            Error::ResultChannelFailed { text: String::from("closed") },
            Some(MetaInner { sequence_number: 7 }),
        ),
    );
    let joined = m.join_next().expect("a completion is waiting");
    assert_eq!(
        joined,
        Ok(Err((
            Error::ResultChannelFailed { text: String::from("closed") },
            Some(MetaInner { sequence_number: 7 })
        )))
    );
}

#[test]
fn panicked_unit_reports_its_payload() {
    let mut m = CoordinatorManager::new();
    let a = m.spawn();
    assert!(m.begin_unit(a));
    m.finish_unit(a, FinishKind::Panicked(PanicPayload::Text(String::from("boom"))));
    let joined = m.join_next().expect("a completion is waiting");
    assert_eq!(joined, Err(JoinFault::Panicked(PanicPayload::Text(String::from("boom")))));
}

#[test]
fn manager_error_messages() {
    assert_eq!(
        CoordinatorManagerError::OutstandingCoordinatorShutdown.message(),
        "The coordinator is still referenced and cannot be shut down"
    );
    assert_eq!(
        CoordinatorManagerError::OutstandingCoordinatorIdle.message(),
        "The coordinator is still referenced and cannot be idled"
    );
    assert_eq!(
        CoordinatorManagerError::Shutdown { source: String::from("x") }.message(),
        "Could not shut down the coordinator"
    );
    assert_eq!(
        CoordinatorManagerError::Idle { source: String::from("x") }.message(),
        "Could not idle the coordinator"
    );
}

#[test]
fn error_messages_carry_their_detail() {
    assert_eq!(
        Error::TaskPanic { text: String::from("boom") }.message(),
        "The worker panicked: boom"
    );
    assert_eq!(
        Error::ResultChannelFailed { text: String::from("closed") }.message(),
        "Unable to send result through channel: closed"
    );
    assert_eq!(
        Error::Deserialization { source: String::from("bad json") }.message(),
        "Unable to deserialize request: bad json"
    );
    assert_eq!(Error::MiriVersion.message(), "The Miri version was missing");
    assert_eq!(
        Error::Compile { source: String::from("x") }.message(),
        "Unable to process the compile request"
    );
}

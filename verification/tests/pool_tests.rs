use querylayer::AcquireOutcome;
use querylayer::BackendKind;
use querylayer::ConnectOptions;
use querylayer::Connection;
use querylayer::Error;
use querylayer::Pool;
use querylayer::SessionPhase;

#[test]
fn pool_never_opens_more_than_the_maximum() {
    let mut p = Pool::new(2);
    assert_eq!(p.try_acquire(), Ok(AcquireOutcome::OpenNew));
    assert_eq!(p.try_acquire(), Ok(AcquireOutcome::OpenNew));
    assert_eq!(p.try_acquire(), Err(Error::PoolExhausted));
    assert_eq!(p.open_connections(), 2);
    assert!(p.open_connections() <= p.max_connections());
}

#[test]
fn released_sessions_are_reused() {
    let mut p = Pool::new(2);
    assert_eq!(p.try_acquire(), Ok(AcquireOutcome::OpenNew));
    p.release();
    assert_eq!(p.try_acquire(), Ok(AcquireOutcome::ReuseIdle));
    assert_eq!(p.open_connections(), 1);
}

#[test]
fn discarded_sessions_free_their_slot() {
    let mut p = Pool::new(1);
    assert_eq!(p.try_acquire(), Ok(AcquireOutcome::OpenNew));
    p.discard();
    assert_eq!(p.open_connections(), 0);
    assert_eq!(p.try_acquire(), Ok(AcquireOutcome::OpenNew));
}

#[test]
fn shutdown_closes_idle_sessions_and_refuses_new_work() {
    let mut p = Pool::new(3);
    assert_eq!(p.try_acquire(), Ok(AcquireOutcome::OpenNew));
    assert_eq!(p.try_acquire(), Ok(AcquireOutcome::OpenNew));
    p.release();
    let to_close = p.shutdown();
    assert_eq!(to_close, 1);
    assert!(p.is_closed());
    assert_eq!(p.try_acquire(), Err(Error::PoolClosed));
    p.release();
    assert_eq!(p.open_connections(), 0);
}

#[test]
fn options_builder_keeps_every_field() {
    let o = ConnectOptions::new(BackendKind::Sqlite, String::from("data.db"))
        .create_if_missing(true)
        .max_connections(5)
        .pragma(String::from("PRAGMA foreign_keys = ON"));
    assert_eq!(o.backend(), BackendKind::Sqlite);
    assert_eq!(o.target(), "data.db");
    assert_eq!(o.database_name(), "");
    assert!(o.creates_if_missing());
    assert_eq!(o.pool_bound(), 5);
    assert_eq!(o.pragma_list().len(), 1);
    assert_eq!(o.pragma_list()[0], "PRAGMA foreign_keys = ON");

    let pg = ConnectOptions::new(
        BackendKind::Postgres,
        String::from("/var/run/postgresql/"),
    )
    .database(String::from("testdb"))
    .max_connections(5);
    assert_eq!(pg.backend(), BackendKind::Postgres);
    assert_eq!(pg.database_name(), "testdb");
    assert!(!pg.creates_if_missing());
}

#[test]
fn session_applies_pragmas_in_order_before_first_use() {
    let mut c = Connection::new(
        BackendKind::Sqlite,
        vec![
            String::from("PRAGMA foreign_keys = ON"),
            String::from("PRAGMA journal_mode = WAL"),
        ],
    );
    assert_eq!(c.phase(), SessionPhase::Initializing);
    assert!(!c.can_execute());
    assert_eq!(
        c.next_init_statement().unwrap(),
        "PRAGMA foreign_keys = ON"
    );
    assert_eq!(c.init_result(true), Ok(()));
    assert_eq!(
        c.next_init_statement().unwrap(),
        "PRAGMA journal_mode = WAL"
    );
    assert_eq!(c.init_result(true), Ok(()));
    assert_eq!(c.phase(), SessionPhase::Ready);
    assert!(c.can_execute());
    assert_eq!(c.next_init_statement(), None);
}

#[test]
fn failed_pragma_is_fatal_to_the_session() {
    let mut c = Connection::new(
        BackendKind::Sqlite,
        vec![String::from("PRAGMA foreign_keys = ON")],
    );
    assert_eq!(c.init_result(false), Err(Error::SessionInitError));
    assert_eq!(c.phase(), SessionPhase::Failed);
    assert!(!c.can_execute());
}

#[test]
fn session_with_no_pragmas_is_ready_at_once() {
    let c = Connection::new(BackendKind::Postgres, Vec::new());
    assert_eq!(c.phase(), SessionPhase::Ready);
}

#[test]
fn one_statement_at_a_time_per_session() {
    let mut c = Connection::new(BackendKind::Postgres, Vec::new());
    c.begin_statement();
    assert_eq!(c.phase(), SessionPhase::Streaming);
    assert!(!c.can_execute());
    c.finish_statement();
    assert_eq!(c.phase(), SessionPhase::Ready);
    assert!(c.can_execute());
}

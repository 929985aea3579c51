use ledger_app::schema::MIGRATION_COUNT;
use ledger_app::startup::{
    get_pool, init_db, run_migrations, InitAction, InitEvent, InitState, PoolSlot, StartupError, Step,
};

const EVENTS: [InitEvent; 9] = [
    InitEvent::Start,
    InitEvent::HomeFound,
    InitEvent::HomeMissing,
    InitEvent::DirectoryCreated,
    InitEvent::DirectoryFailed,
    InitEvent::Connected,
    InitEvent::ConnectFailed,
    InitEvent::MigrationApplied,
    InitEvent::MigrationFailed,
];

fn step(state: InitState, action: InitAction) -> Step {
    Step { state, action }
}

#[test]
fn startup_runs_through_its_stages() {
    let s = init_db(InitState::Idle, InitEvent::Start);
    assert_eq!(s, step(InitState::Locating, InitAction::LocateHome));
    let s = init_db(s.state, InitEvent::HomeFound);
    assert_eq!(s, step(InitState::CreatingDirectory, InitAction::CreateDirectory));
    let s = init_db(s.state, InitEvent::DirectoryCreated);
    assert_eq!(s, step(InitState::Connecting, InitAction::Connect));
    let s = init_db(s.state, InitEvent::Connected);
    assert_eq!(s, step(InitState::Migrating(0), InitAction::ApplyMigration(0)));
    let s = init_db(s.state, InitEvent::MigrationApplied);
    assert_eq!(s, step(InitState::Ready, InitAction::Publish));
}

#[test]
fn second_initialization_uses_the_published_pool() {
    let s = init_db(InitState::Ready, InitEvent::Start);
    assert_eq!(s, step(InitState::Ready, InitAction::UsePublished));
    let s = init_db(s.state, InitEvent::Start);
    assert_eq!(s, step(InitState::Ready, InitAction::UsePublished));
    for e in EVENTS {
        let s = init_db(InitState::Ready, e);
        assert_eq!(s.state, InitState::Ready);
        assert!(s.action == InitAction::UsePublished || s.action == InitAction::Ignore);
    }
}

#[test]
fn each_failure_ends_the_startup() {
    assert_eq!(
        init_db(InitState::Locating, InitEvent::HomeMissing),
        step(InitState::Failed, InitAction::Abort(StartupError::NoHomeDirectory))
    );
    assert_eq!(
        init_db(InitState::CreatingDirectory, InitEvent::DirectoryFailed),
        step(InitState::Failed, InitAction::Abort(StartupError::DirectoryNotCreated))
    );
    assert_eq!(
        init_db(InitState::Connecting, InitEvent::ConnectFailed),
        step(InitState::Failed, InitAction::Abort(StartupError::DatabaseNotOpened))
    );
    assert_eq!(
        init_db(InitState::Migrating(0), InitEvent::MigrationFailed),
        step(InitState::Failed, InitAction::Abort(StartupError::MigrationNotApplied(0)))
    );
    for e in EVENTS {
        assert_eq!(init_db(InitState::Failed, e), step(InitState::Failed, InitAction::Ignore));
    }
}

#[test]
fn events_out_of_turn_change_nothing() {
    assert_eq!(
        init_db(InitState::Idle, InitEvent::Connected),
        step(InitState::Idle, InitAction::Ignore)
    );
    assert_eq!(
        init_db(InitState::Connecting, InitEvent::Start),
        step(InitState::Connecting, InitAction::Ignore)
    );
    assert_eq!(
        init_db(InitState::Locating, InitEvent::MigrationFailed),
        step(InitState::Locating, InitAction::Ignore)
    );
    assert_eq!(
        init_db(InitState::Migrating(0), InitEvent::ConnectFailed),
        step(InitState::Migrating(0), InitAction::Ignore)
    );
}

#[test]
fn migrations_follow_one_another() {
    assert_eq!(
        run_migrations(MIGRATION_COUNT - 1, true),
        step(InitState::Ready, InitAction::Publish)
    );
    assert_eq!(
        run_migrations(0, false),
        step(InitState::Failed, InitAction::Abort(StartupError::MigrationNotApplied(0)))
    );
    assert_eq!(run_migrations(usize::MAX, true), step(InitState::Ready, InitAction::Publish));
}

#[test]
fn slot_keeps_the_first_pool() {
    let mut slot: PoolSlot<String> = PoolSlot::new();
    assert!(!slot.is_initialized());
    assert!(slot.publish("first".to_string()));
    assert!(slot.is_initialized());
    assert_eq!(get_pool(&slot), "first");
    assert!(!slot.publish("second".to_string()));
    assert_eq!(get_pool(&slot), "first");
    assert!(slot.is_initialized());
}

/// Every sequence of the given length over the nine events, by its number.
fn events_numbered(mut n: usize, length: usize) -> Vec<InitEvent> {
    let mut out = Vec::new();
    for _ in 0..length {
        out.push(EVENTS[n % EVENTS.len()]);
        n /= EVENTS.len();
    }
    out
}

#[test]
fn no_order_of_events_makes_a_second_pool() {
    let length = 6;
    let mut reached_ready = 0;
    for n in 0..EVENTS.len().pow(length as u32) {
        let mut state = InitState::Idle;
        let mut connects = 0;
        let mut publishes = 0;
        let mut migrations = 0;
        for e in events_numbered(n, length) {
            let s = init_db(state, e);
            match s.action {
                InitAction::Connect => connects += 1,
                InitAction::Publish => publishes += 1,
                InitAction::ApplyMigration(k) => {
                    assert_eq!(k, migrations);
                    migrations += 1;
                }
                _ => {}
            }
            state = s.state;
        }
        assert!(connects <= 1 && publishes <= 1 && migrations <= MIGRATION_COUNT);
        if state == InitState::Ready {
            reached_ready += 1;
            assert_eq!((connects, migrations, publishes), (1, MIGRATION_COUNT, 1));
        } else {
            assert_eq!(publishes, 0);
        }
    }
    assert!(reached_ready > 0);
}

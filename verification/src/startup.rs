//! The start-up of the database as a machine of states: the host does the
//! storage work that an action names and reports what happened; the machine
//! decides what comes next. Beside it stands the slot that holds the one pool
//! of the process.

use vstd::prelude::*;
use crate::schema::MIGRATION_COUNT;

verus! {

/// How far the start-up has come.
#[derive(Clone, Copy, Debug, PartialEq, Eq, Structural)]
pub enum InitState {
    /// Nothing has been asked for yet.
    Idle,
    /// The home directory is being looked up.
    Locating,
    /// The application's directory is being created.
    CreatingDirectory,
    /// The database file is being opened and the pool set up.
    Connecting,
    /// The migration at this place in the list is being applied.
    Migrating(usize),
    /// The pool is published: commands may borrow it.
    Ready,
    /// The start-up was given up.
    Failed,
}

/// What the host reports.
#[derive(Clone, Copy, Debug, PartialEq, Eq, Structural)]
pub enum InitEvent {
    /// Initialization is asked for.
    Start,
    HomeFound,
    HomeMissing,
    DirectoryCreated,
    DirectoryFailed,
    Connected,
    ConnectFailed,
    MigrationApplied,
    MigrationFailed,
}

/// Why the start-up was given up.
#[derive(Clone, Copy, Debug, PartialEq, Eq, Structural)]
pub enum StartupError {
    NoHomeDirectory,
    DirectoryNotCreated,
    DatabaseNotOpened,
    /// The migration at this place in the list did not run through.
    MigrationNotApplied(usize),
}

/// What the host has to do next.
#[derive(Clone, Copy, Debug, PartialEq, Eq, Structural)]
pub enum InitAction {
    /// Look up the user's home directory.
    LocateHome,
    /// Create the application's directory unless it is there.
    CreateDirectory,
    /// Open the database file and set up the pool.
    Connect,
    /// Run the migration at this place in the list.
    ApplyMigration(usize),
    /// Put the pool into the slot of the process.
    Publish,
    /// The pool is published already: use that one.
    UsePublished,
    /// End the process with a failure.
    Abort(StartupError),
    /// The event answers nothing that was asked: do nothing.
    Ignore,
}

/// A state and the action that leads on from it.
#[derive(Clone, Copy, Debug, PartialEq, Eq, Structural)]
pub struct Step {
    pub state: InitState,
    pub action: InitAction,
}

impl InitState {
    /// A migration that is being applied is one of the list.
    pub open spec fn well_formed(self) -> bool {
        self matches InitState::Migrating(i) ==> i < MIGRATION_COUNT
    }

    /// The event that reports the success of what the state waits for.
    pub open spec fn awaits(self, event: InitEvent) -> bool {
        match self {
            InitState::Idle => event == InitEvent::Start,
            InitState::Locating => event == InitEvent::HomeFound,
            InitState::CreatingDirectory => event == InitEvent::DirectoryCreated,
            InitState::Connecting => event == InitEvent::Connected,
            InitState::Migrating(_) => event == InitEvent::MigrationApplied,
            InitState::Ready => false,
            InitState::Failed => false,
        }
    }

    /// The event that reports the failure of what the state waits for, with
    /// the reason to give the start-up up for.
    pub open spec fn fails_on(self, event: InitEvent) -> Option<StartupError> {
        match (self, event) {
            (InitState::Locating, InitEvent::HomeMissing) => Some(StartupError::NoHomeDirectory),
            (InitState::CreatingDirectory, InitEvent::DirectoryFailed) => Some(
                StartupError::DirectoryNotCreated,
            ),
            (InitState::Connecting, InitEvent::ConnectFailed) => Some(
                StartupError::DatabaseNotOpened,
            ),
            (InitState::Migrating(i), InitEvent::MigrationFailed) => Some(
                StartupError::MigrationNotApplied(i),
            ),
            _ => None,
        }
    }
}

/// What follows the migration at place `index` once it has run through: the
/// next one of the list, in the list's order, or after the last one the
/// publishing of the pool.
pub open spec fn after_migration(index: usize) -> Step {
    if index + 1 < MIGRATION_COUNT {
        Step {
            state: InitState::Migrating((index + 1) as usize),
            action: InitAction::ApplyMigration((index + 1) as usize),
        }
    } else {
        Step { state: InitState::Ready, action: InitAction::Publish }
    }
}

/// What the start-up does on an event. Each success leads one stage on:
/// locate, create the directory, connect, migrate one by one, publish. Each
/// failure ends it. Once the pool is published, a further request for
/// initialization is pointed at that pool. Anything else changes nothing.
pub open spec fn next_step(state: InitState, event: InitEvent) -> Step {
    if state.fails_on(event) is Some {
        Step { state: InitState::Failed, action: InitAction::Abort(state.fails_on(event)->Some_0) }
    } else if state == InitState::Ready && event == InitEvent::Start {
        Step { state: InitState::Ready, action: InitAction::UsePublished }
    } else if !state.awaits(event) {
        Step { state, action: InitAction::Ignore }
    } else {
        match state {
            InitState::Idle => Step { state: InitState::Locating, action: InitAction::LocateHome },
            InitState::Locating => Step {
                state: InitState::CreatingDirectory,
                action: InitAction::CreateDirectory,
            },
            InitState::CreatingDirectory => Step {
                state: InitState::Connecting,
                action: InitAction::Connect,
            },
            InitState::Connecting => Step {
                state: InitState::Migrating(0),
                action: InitAction::ApplyMigration(0),
            },
            InitState::Migrating(i) => after_migration(i),
            _ => Step { state, action: InitAction::Ignore },
        }
    }
}

/// Decides what follows the outcome of the migration at place `index`: on
/// success the next migration or, after the last, the publishing; on failure
/// the end of the start-up, and no further migration.
pub fn run_migrations(index: usize, applied: bool) -> (r: Step)
    ensures
        applied ==> r == after_migration(index),
        !applied ==> r == (Step {
            state: InitState::Failed,
            action: InitAction::Abort(StartupError::MigrationNotApplied(index)),
        }),
{
    if !applied {
        Step {
            state: InitState::Failed,
            action: InitAction::Abort(StartupError::MigrationNotApplied(index)),
        }
    } else if index < MIGRATION_COUNT - 1 {
        Step { state: InitState::Migrating(index + 1), action: InitAction::ApplyMigration(index + 1) }
    } else {
        Step { state: InitState::Ready, action: InitAction::Publish }
    }
}

/// One step of the start-up: the state that follows `state` on `event`, and
/// what the host has to do for it.
pub fn init_db(state: InitState, event: InitEvent) -> (r: Step)
    ensures
        r == next_step(state, event),
        state.well_formed() ==> r.state.well_formed(),
{
    match (state, event) {
        (InitState::Idle, InitEvent::Start) => Step {
            state: InitState::Locating,
            action: InitAction::LocateHome,
        },
        (InitState::Ready, InitEvent::Start) => Step {
            state: InitState::Ready,
            action: InitAction::UsePublished,
        },
        (InitState::Locating, InitEvent::HomeFound) => Step {
            state: InitState::CreatingDirectory,
            action: InitAction::CreateDirectory,
        },
        (InitState::Locating, InitEvent::HomeMissing) => Step {
            state: InitState::Failed,
            action: InitAction::Abort(StartupError::NoHomeDirectory),
        },
        (InitState::CreatingDirectory, InitEvent::DirectoryCreated) => Step {
            state: InitState::Connecting,
            action: InitAction::Connect,
        },
        (InitState::CreatingDirectory, InitEvent::DirectoryFailed) => Step {
            state: InitState::Failed,
            action: InitAction::Abort(StartupError::DirectoryNotCreated),
        },
        (InitState::Connecting, InitEvent::Connected) => Step {
            state: InitState::Migrating(0),
            action: InitAction::ApplyMigration(0),
        },
        (InitState::Connecting, InitEvent::ConnectFailed) => Step {
            state: InitState::Failed,
            action: InitAction::Abort(StartupError::DatabaseNotOpened),
        },
        (InitState::Migrating(i), InitEvent::MigrationApplied) => run_migrations(i, true),
        (InitState::Migrating(i), InitEvent::MigrationFailed) => run_migrations(i, false),
        _ => Step { state, action: InitAction::Ignore },
    }
}

/// The place of the one pool of the process: empty until the start-up
/// publishes, and holding that same pool from then on.
pub struct PoolSlot<P> {
    pool: Option<P>,
}

impl<P> View for PoolSlot<P> {
    type V = Option<P>;

    closed spec fn view(&self) -> Option<P> {
        self.pool
    }
}

impl<P> PoolSlot<P> {
    /// An empty slot.
    pub fn new() -> (r: Self)
        ensures
            r@ is None,
    {
        PoolSlot { pool: None }
    }

    pub fn is_initialized(&self) -> (r: bool)
        ensures
            r == (self@ is Some),
    {
        self.pool.is_some()
    }

    /// Puts `pool` into the slot if the slot is empty, and says whether it
    /// did. A slot that holds a pool keeps it: no second pool takes its place.
    pub fn publish(&mut self, pool: P) -> (r: bool)
        ensures
            r == (old(self)@ is None),
            old(self)@ is None ==> final(self)@ == Some(pool),
            old(self)@ is Some ==> final(self)@ == old(self)@,
    {
        if self.pool.is_some() {
            false
        } else {
            self.pool = Some(pool);
            true
        }
    }
}

/// The published pool. To ask before the start-up has published is an error
/// of the program, which the precondition leaves out.
pub fn get_pool<P>(slot: &PoolSlot<P>) -> (r: &P)
    requires
        slot@ is Some,
    ensures
        slot@ == Some(*r),
{
    slot.pool.as_ref().unwrap()
}

/// Initialization asked for again after the pool is published creates no
/// second pool: the state stays, and the action points at the published one.
pub proof fn second_initialization_reuses_pool()
    ensures
        next_step(InitState::Ready, InitEvent::Start) == (Step {
            state: InitState::Ready,
            action: InitAction::UsePublished,
        }),
        forall|event: InitEvent|
            (#[trigger] next_step(InitState::Ready, event)).state == InitState::Ready,
        forall|event: InitEvent|
            event != InitEvent::Start ==> (#[trigger] next_step(InitState::Ready, event)).action
                == InitAction::Ignore,
{
}

/// A start-up that was given up stays so: no event leads out of it, and none
/// makes the host do anything.
pub proof fn failure_is_final(event: InitEvent)
    ensures
        next_step(InitState::Failed, event) == (Step {
            state: InitState::Failed,
            action: InitAction::Ignore,
        }),
{
}

/// The pool is published only on the success of the last migration.
pub proof fn publishing_follows_the_last_migration(state: InitState, event: InitEvent)
    requires
        state.well_formed(),
        next_step(state, event).action == InitAction::Publish,
    ensures
        state == InitState::Migrating((MIGRATION_COUNT - 1) as usize),
        event == InitEvent::MigrationApplied,
        next_step(state, event).state == InitState::Ready,
{
}

/// The migrations are applied in the order of the list: the first once the
/// database is open, each other one on the success of the one before it, and
/// none that the list does not hold.
pub proof fn migrations_run_in_order(state: InitState, event: InitEvent, k: usize)
    requires
        next_step(state, event).action == InitAction::ApplyMigration(k),
    ensures
        k < MIGRATION_COUNT,
        next_step(state, event).state == InitState::Migrating(k),
        k == 0 ==> state == InitState::Connecting && event == InitEvent::Connected,
        k > 0 ==> state == InitState::Migrating((k - 1) as usize) && event
            == InitEvent::MigrationApplied,
{
}

/// The start-up is given up exactly on the failure of what it waits for, and
/// the host is then told to end the process.
pub proof fn failure_aborts(state: InitState, event: InitEvent)
    ensures
        state.fails_on(event) is Some <==> next_step(state, event).action is Abort,
        next_step(state, event).action is Abort ==> next_step(state, event).state
            == InitState::Failed,
        next_step(state, event).state == InitState::Failed ==> state == InitState::Failed
            || next_step(state, event).action is Abort,
{
}

/// The state that the start-up is in after the events, taken in turn from
/// `state`.
pub open spec fn state_after(state: InitState, events: Seq<InitEvent>) -> InitState
    decreases events.len(),
{
    if events.len() == 0 {
        state
    } else {
        state_after(next_step(state, events[0]).state, events.subrange(1, events.len() as int))
    }
}

/// How often the host is asked for `action` while the start-up takes the
/// events in turn from `state`.
pub open spec fn times_asked(state: InitState, events: Seq<InitEvent>, action: InitAction) -> nat
    decreases events.len(),
{
    if events.len() == 0 {
        0
    } else {
        let step = next_step(state, events[0]);
        let rest = times_asked(step.state, events.subrange(1, events.len() as int), action);
        if step.action == action {
            rest + 1
        } else {
            rest
        }
    }
}

/// The start-up has not yet asked for the connection.
pub open spec fn before_connecting(state: InitState) -> bool {
    state == InitState::Idle || state == InitState::Locating || state
        == InitState::CreatingDirectory
}

/// The start-up has not yet asked for the migration at place `k`.
pub open spec fn before_migration(state: InitState, k: usize) -> bool {
    match state {
        InitState::Migrating(i) => i < k,
        InitState::Ready => false,
        InitState::Failed => false,
        _ => true,
    }
}

/// The start-up has neither published nor been given up.
pub open spec fn before_publishing(state: InitState) -> bool {
    state != InitState::Ready && state != InitState::Failed
}

/// Whatever the host reports and in whatever order, the pool is opened at
/// most once and published at most once, and neither happens again once the
/// start-up has passed that stage: no second pool comes to be.
pub proof fn at_most_one_pool(state: InitState, events: Seq<InitEvent>)
    ensures
        times_asked(state, events, InitAction::Connect) <= 1,
        times_asked(state, events, InitAction::Publish) <= 1,
        !before_connecting(state) ==> times_asked(state, events, InitAction::Connect) == 0,
        !before_publishing(state) ==> times_asked(state, events, InitAction::Publish) == 0,
    decreases events.len(),
{
    if events.len() > 0 {
        let step = next_step(state, events[0]);
        at_most_one_pool(step.state, events.subrange(1, events.len() as int));
    }
}

/// Whatever the host reports, each migration is asked for at most once, and
/// never again once the start-up has come to it.
pub proof fn migration_is_applied_at_most_once(
    state: InitState,
    events: Seq<InitEvent>,
    k: usize,
)
    ensures
        times_asked(state, events, InitAction::ApplyMigration(k)) <= 1,
        !before_migration(state, k) ==> times_asked(state, events, InitAction::ApplyMigration(k))
            == 0,
    decreases events.len(),
{
    if events.len() > 0 {
        let step = next_step(state, events[0]);
        migration_is_applied_at_most_once(step.state, events.subrange(1, events.len() as int), k);
    }
}

/// A start-up that has come to be ready has done all of its work, each part
/// once: it has opened the pool, applied every migration of the list, and
/// published the pool.
pub proof fn ready_after_all_the_work(state: InitState, events: Seq<InitEvent>, k: usize)
    requires
        state_after(state, events) == InitState::Ready,
        k < MIGRATION_COUNT,
    ensures
        before_connecting(state) ==> times_asked(state, events, InitAction::Connect) == 1,
        before_migration(state, k) ==> times_asked(state, events, InitAction::ApplyMigration(k))
            == 1,
        before_publishing(state) ==> times_asked(state, events, InitAction::Publish) == 1,
    decreases events.len(),
{
    if events.len() > 0 {
        let step = next_step(state, events[0]);
        let rest = events.subrange(1, events.len() as int);
        if step.state == InitState::Failed {
            no_recovery_after_failure(rest);
        }
        ready_after_all_the_work(step.state, rest, k);
        at_most_one_pool(step.state, rest);
        migration_is_applied_at_most_once(step.state, rest, k);
    }
}

/// A start-up that was given up never comes to be ready, whatever follows.
pub proof fn no_recovery_after_failure(events: Seq<InitEvent>)
    ensures
        state_after(InitState::Failed, events) == InitState::Failed,
    decreases events.len(),
{
    if events.len() > 0 {
        no_recovery_after_failure(events.subrange(1, events.len() as int));
    }
}

} // verus!

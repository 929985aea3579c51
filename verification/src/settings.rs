//! Where the database lives and how its connections are opened.

use vstd::prelude::*;
use vstd::string::StringExecFns;

verus! {

/// How the storage engine journals its writes.
#[derive(Clone, Copy, Debug, PartialEq, Eq, Structural)]
pub enum JournalMode {
    Delete,
    Truncate,
    Persist,
    Memory,
    /// Write-ahead log: readers go on while a write is in progress.
    Wal,
    Off,
}

/// How hard the storage engine syncs to disk.
#[derive(Clone, Copy, Debug, PartialEq, Eq, Structural)]
pub enum Synchronous {
    Off,
    Normal,
    Full,
    Extra,
}

/// The storage location, relative to the user's home directory, and the
/// options of the connections to it.
#[derive(Clone, Debug, PartialEq)]
pub struct StorageSettings {
    /// The application's directory under the user's home directory.
    pub directory_name: String,
    /// The database file in that directory.
    pub file_name: String,
    pub create_if_missing: bool,
    /// How long a connection waits on a locked database before it gives up.
    pub busy_timeout_secs: u64,
    pub journal_mode: JournalMode,
    pub synchronous: Synchronous,
    /// The most connections that the pool holds at a time.
    pub max_connections: u32,
}

impl StorageSettings {
    /// The settings of the ledger: a write-ahead log, the normal sync level, a
    /// wait of five seconds on a locked database, and at most five connections
    /// to one file that is created where it is missing.
    pub open spec fn is_ledger_default(self) -> bool {
        &&& self.directory_name@ == ".ledger-app"@
        &&& self.file_name@ == "ledger-app.db"@
        &&& self.create_if_missing
        &&& self.busy_timeout_secs == 5
        &&& self.journal_mode == JournalMode::Wal
        &&& self.synchronous == Synchronous::Normal
        &&& self.max_connections == 5
    }

    /// The pool is bounded and not empty, and the wait on a lock is bounded and
    /// not zero.
    pub open spec fn well_formed(self) -> bool {
        &&& 1 <= self.max_connections
        &&& 1 <= self.busy_timeout_secs
    }
}

/// The settings with which the ledger opens its database.
pub fn storage_settings() -> (r: StorageSettings)
    ensures
        r.is_ledger_default(),
        r.well_formed(),
{
    StorageSettings {
        directory_name: String::from_str(".ledger-app"),
        file_name: String::from_str("ledger-app.db"),
        create_if_missing: true,
        busy_timeout_secs: 5,
        journal_mode: JournalMode::Wal,
        synchronous: Synchronous::Normal,
        max_connections: 5,
    }
}

} // verus!

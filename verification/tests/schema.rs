use ledger_app::row::{AccountColumn, ColumnKind};
use ledger_app::schema::{columns, create_accounts_sql, migrations, select_accounts_sql, MIGRATION_COUNT};
use ledger_app::settings::{storage_settings, JournalMode, Synchronous};

#[test]
fn create_statement_text() {
    assert_eq!(
        create_accounts_sql(),
        "CREATE TABLE IF NOT EXISTS accounts (id INTEGER PRIMARY KEY AUTOINCREMENT, \
         name TEXT NOT NULL, account_type TEXT NOT NULL, balance REAL NOT NULL, \
         currency TEXT NOT NULL, description TEXT, \
         created_at DATETIME NOT NULL DEFAULT CURRENT_TIMESTAMP, \
         updated_at DATETIME NOT NULL DEFAULT CURRENT_TIMESTAMP)"
    );
}

#[test]
fn select_statement_text() {
    assert_eq!(
        select_accounts_sql(),
        "SELECT id, name, account_type, balance, currency, description, created_at, updated_at \
         FROM accounts"
    );
}

#[test]
fn columns_in_table_order() {
    assert_eq!(
        columns(),
        vec![
            AccountColumn::Id,
            AccountColumn::Name,
            AccountColumn::AccountType,
            AccountColumn::Balance,
            AccountColumn::Currency,
            AccountColumn::Description,
            AccountColumn::CreatedAt,
            AccountColumn::UpdatedAt,
        ]
    );
}

#[test]
fn only_description_is_nullable() {
    for c in columns() {
        assert_eq!(c.nullable(), c == AccountColumn::Description);
        assert_eq!(c.declaration().contains("NOT NULL") || c == AccountColumn::Id, !c.nullable());
    }
    assert_eq!(AccountColumn::Description.declaration(), "TEXT");
    assert_eq!(AccountColumn::Id.declaration(), "INTEGER PRIMARY KEY AUTOINCREMENT");
    assert_eq!(AccountColumn::Balance.declaration(), "REAL NOT NULL");
}

#[test]
fn migrations_rise_from_version_one() {
    let list = migrations();
    assert_eq!(list.len(), MIGRATION_COUNT);
    assert_eq!(list.len(), 1);
    assert_eq!(list[0].version, 1);
    assert_eq!(list[0].sql, create_accounts_sql());
    for pair in list.windows(2) {
        assert!(pair[0].version < pair[1].version);
    }
}

#[test]
fn ledger_settings() {
    let s = storage_settings();
    assert_eq!(s.directory_name, ".ledger-app");
    assert_eq!(s.file_name, "ledger-app.db");
    assert!(s.create_if_missing);
    assert_eq!(s.busy_timeout_secs, 5);
    assert_eq!(s.journal_mode, JournalMode::Wal);
    assert_eq!(s.synchronous, Synchronous::Normal);
    assert_eq!(s.max_connections, 5);
}

#[test]
fn column_kinds() {
    let kinds: Vec<ColumnKind> = columns().iter().map(|c| c.kind()).collect();
    assert_eq!(
        kinds,
        vec![
            ColumnKind::Integer,
            ColumnKind::Text,
            ColumnKind::Text,
            ColumnKind::Real,
            ColumnKind::Text,
            ColumnKind::Text,
            ColumnKind::DateTime,
            ColumnKind::DateTime,
        ]
    );
    assert_eq!(ColumnKind::Integer.sql_name(), "INTEGER");
    assert_eq!(ColumnKind::Real.sql_name(), "REAL");
    assert_eq!(ColumnKind::Text.sql_name(), "TEXT");
    assert_eq!(ColumnKind::DateTime.sql_name(), "DATETIME");
}

#[test]
fn column_constraints() {
    assert_eq!(AccountColumn::Id.constraints(), " PRIMARY KEY AUTOINCREMENT");
    assert_eq!(AccountColumn::Name.constraints(), " NOT NULL");
    assert_eq!(AccountColumn::Description.constraints(), "");
    assert_eq!(AccountColumn::CreatedAt.constraints(), " NOT NULL DEFAULT CURRENT_TIMESTAMP");
    assert_eq!(
        AccountColumn::UpdatedAt.declaration(),
        "DATETIME NOT NULL DEFAULT CURRENT_TIMESTAMP"
    );
    for c in columns() {
        assert_eq!(c.is_key(), c == AccountColumn::Id);
        assert_eq!(
            c.defaults_to_now(),
            c == AccountColumn::CreatedAt || c == AccountColumn::UpdatedAt
        );
    }
}

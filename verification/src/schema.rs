//! The schema of the `accounts` table, the query that reads it, and the
//! forward-only scripts that create it. Both texts are built from the one list
//! of columns that the row mapping reads.

use vstd::prelude::*;
use vstd::string::StringExecFns;
use crate::row::{column_at, column_place, AccountColumn, ColumnKind};

verus! {

impl ColumnKind {
    /// The type's name in a table's definition.
    pub open spec fn spec_sql_name(self) -> Seq<char> {
        match self {
            ColumnKind::Integer => "INTEGER"@,
            ColumnKind::Real => "REAL"@,
            ColumnKind::Text => "TEXT"@,
            ColumnKind::DateTime => "DATETIME"@,
        }
    }

    pub fn sql_name(&self) -> (r: String)
        ensures
            r@ == self.spec_sql_name(),
    {
        match self {
            ColumnKind::Integer => String::from_str("INTEGER"),
            ColumnKind::Real => String::from_str("REAL"),
            ColumnKind::Text => String::from_str("TEXT"),
            ColumnKind::DateTime => String::from_str("DATETIME"),
        }
    }
}

impl AccountColumn {
    /// The column is the table's key, which the storage engine assigns.
    pub open spec fn spec_is_key(self) -> bool {
        self == AccountColumn::Id
    }

    /// The storage engine fills the column with the current time where a
    /// writer gives none.
    pub open spec fn spec_defaults_to_now(self) -> bool {
        self == AccountColumn::CreatedAt || self == AccountColumn::UpdatedAt
    }

    /// What the table's definition says of the column beyond its type: the key
    /// is marked as such, every other column that is not nullable is marked
    /// so, and a default follows where there is one.
    pub open spec fn spec_constraints(self) -> Seq<char> {
        (if self.spec_is_key() {
            " PRIMARY KEY AUTOINCREMENT"@
        } else if self.spec_nullable() {
            ""@
        } else {
            " NOT NULL"@
        }) + (if self.spec_defaults_to_now() {
            " DEFAULT CURRENT_TIMESTAMP"@
        } else {
            ""@
        })
    }

    /// The column's type and constraints in the table's definition.
    pub open spec fn spec_declaration(self) -> Seq<char> {
        self.spec_kind().spec_sql_name() + self.spec_constraints()
    }

    pub fn is_key(&self) -> (r: bool)
        ensures
            r == self.spec_is_key(),
    {
        match self {
            AccountColumn::Id => true,
            _ => false,
        }
    }

    pub fn defaults_to_now(&self) -> (r: bool)
        ensures
            r == self.spec_defaults_to_now(),
    {
        match self {
            AccountColumn::CreatedAt => true,
            AccountColumn::UpdatedAt => true,
            _ => false,
        }
    }

    pub fn constraints(&self) -> (r: String)
        ensures
            r@ == self.spec_constraints(),
    {
        let first = if self.is_key() {
            String::from_str(" PRIMARY KEY AUTOINCREMENT")
        } else if self.nullable() {
            String::from_str("")
        } else {
            String::from_str(" NOT NULL")
        };
        if self.defaults_to_now() {
            first.concat(" DEFAULT CURRENT_TIMESTAMP")
        } else {
            first.concat("")
        }
    }

    pub fn declaration(&self) -> (r: String)
        ensures
            r@ == self.spec_declaration(),
    {
        let constraints = self.constraints();
        self.kind().sql_name().concat(constraints.as_str())
    }
}

/// The columns of `accounts`, in the table's order.
pub open spec fn all_columns() -> Seq<AccountColumn> {
    seq![
        AccountColumn::Id,
        AccountColumn::Name,
        AccountColumn::AccountType,
        AccountColumn::Balance,
        AccountColumn::Currency,
        AccountColumn::Description,
        AccountColumn::CreatedAt,
        AccountColumn::UpdatedAt,
    ]
}

/// The table's order holds every column, each at its own place and nowhere
/// else.
pub proof fn table_lists_every_column_once()
    ensures
        all_columns().len() == 8,
        forall|i: int| 0 <= i < 8 ==> #[trigger] all_columns()[i] == column_at(i),
        forall|c: AccountColumn|
            0 <= #[trigger] column_place(c) < 8 && all_columns()[column_place(c)] == c,
        forall|i: int, j: int|
            0 <= i < j < 8 ==> #[trigger] all_columns()[i] != #[trigger] all_columns()[j],
{
}

/// What a column contributes to a list: its name, followed in a table's
/// definition by a blank and its declaration.
pub open spec fn column_item(c: AccountColumn, defining: bool) -> Seq<char> {
    if defining {
        c.spec_name() + " "@ + c.spec_declaration()
    } else {
        c.spec_name()
    }
}

/// The items, each but the first preceded by a comma and a blank.
pub open spec fn comma_separated(items: Seq<Seq<char>>) -> Seq<char>
    decreases items.len(),
{
    if items.len() == 0 {
        Seq::empty()
    } else if items.len() == 1 {
        items[0]
    } else {
        comma_separated(items.drop_last()) + ", "@ + items.last()
    }
}

/// The list of the given columns as it stands in a statement.
pub open spec fn column_list(cols: Seq<AccountColumn>, defining: bool) -> Seq<char> {
    comma_separated(cols.map_values(|c: AccountColumn| column_item(c, defining)))
}

/// The statement that creates `accounts` unless the table is there already.
pub open spec fn spec_create_accounts_sql() -> Seq<char> {
    "CREATE TABLE IF NOT EXISTS accounts ("@ + column_list(all_columns(), true) + ")"@
}

/// The query that reads every column of every row of `accounts`.
pub open spec fn spec_select_accounts_sql() -> Seq<char> {
    "SELECT "@ + column_list(all_columns(), false) + " FROM accounts"@
}

pub fn columns() -> (r: Vec<AccountColumn>)
    ensures
        r@ == all_columns(),
{
    let r = vec![
        AccountColumn::Id,
        AccountColumn::Name,
        AccountColumn::AccountType,
        AccountColumn::Balance,
        AccountColumn::Currency,
        AccountColumn::Description,
        AccountColumn::CreatedAt,
        AccountColumn::UpdatedAt,
    ];
    assert(r@ =~= all_columns());
    r
}

fn item_text(c: AccountColumn, defining: bool) -> (r: String)
    ensures
        r@ == column_item(c, defining),
{
    let name = c.name();
    if defining {
        let declaration = c.declaration();
        name.concat(" ").concat(declaration.as_str())
    } else {
        name
    }
}

fn list_text(cols: &Vec<AccountColumn>, defining: bool) -> (r: String)
    ensures
        r@ == column_list(cols@, defining),
{
    let ghost items = cols@.map_values(|c: AccountColumn| column_item(c, defining));
    let n: usize = cols.len();
    let mut out = String::new();
    let mut i: usize = 0;
    while i < n
        invariant
            n == cols@.len(),
            i <= n,
            items == cols@.map_values(|c: AccountColumn| column_item(c, defining)),
            out@ == comma_separated(items.take(i as int)),
        decreases n - i,
    {
        let item = item_text(cols[i], defining);
        proof {
            assert(items.take(i as int + 1).drop_last() =~= items.take(i as int));
            assert(items.take(i as int + 1).last() == items[i as int]);
            assert(Seq::<char>::empty() + item@ =~= item@);
        }
        if i > 0 {
            out.append(", ");
        }
        out.append(item.as_str());
        i += 1;
    }
    assert(items.take(n as int) =~= items);
    out
}

/// Builds the statement that creates the table.
pub fn create_accounts_sql() -> (r: String)
    ensures
        r@ == spec_create_accounts_sql(),
{
    let cols = columns();
    let list = list_text(&cols, true);
    String::from_str("CREATE TABLE IF NOT EXISTS accounts (").concat(list.as_str()).concat(")")
}

/// Builds the query that the repository reads with.
pub fn select_accounts_sql() -> (r: String)
    ensures
        r@ == spec_select_accounts_sql(),
{
    let cols = columns();
    let list = list_text(&cols, false);
    String::from_str("SELECT ").concat(list.as_str()).concat(" FROM accounts")
}

/// One forward-only unit of schema change.
#[derive(Clone, Debug, PartialEq)]
pub struct Migration {
    pub version: u32,
    pub sql: String,
}

/// How many migrations the ledger has.
pub const MIGRATION_COUNT: usize = 1;

/// The versions rise strictly along the list.
pub open spec fn ascending(migrations: Seq<Migration>) -> bool {
    forall|i: int, j: int|
        0 <= i < j < migrations.len() ==> migrations[i].version < migrations[j].version
}

/// The ledger's migrations in the order in which they are applied: the first
/// and only one creates `accounts`.
pub fn migrations() -> (r: Vec<Migration>)
    ensures
        r@.len() == MIGRATION_COUNT,
        ascending(r@),
        r@[0].version == 1,
        r@[0].sql@ == spec_create_accounts_sql(),
{
    let mut r: Vec<Migration> = Vec::new();
    r.push(Migration { version: 1, sql: create_accounts_sql() });
    r
}

} // verus!

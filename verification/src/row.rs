//! Stored rows as plain values, and the field-by-field mapping of one row onto
//! an [`Account`].

use vstd::prelude::*;
use vstd::string::StringExecFns;
use crate::models::{Account, AccountView, Balance, Timestamp};

verus! {

/// What one cell of a result row holds.
#[derive(Clone, Debug, PartialEq)]
pub enum Value {
    Null,
    Integer(i64),
    Real(Balance),
    Text(String),
    DateTime(Timestamp),
    Blob(Vec<u8>),
}

/// The mathematical value of a [`Value`].
pub ghost enum ValueView {
    Null,
    Integer(i64),
    Real(Balance),
    Text(Seq<char>),
    DateTime(Timestamp),
    Blob(Seq<u8>),
}

impl View for Value {
    type V = ValueView;

    open spec fn view(&self) -> ValueView {
        match *self {
            Value::Null => ValueView::Null,
            Value::Integer(v) => ValueView::Integer(v),
            Value::Real(v) => ValueView::Real(v),
            Value::Text(s) => ValueView::Text(s@),
            Value::DateTime(t) => ValueView::DateTime(t),
            Value::Blob(b) => ValueView::Blob(b@),
        }
    }
}

/// One named cell of a result row.
#[derive(Clone, Debug, PartialEq)]
pub struct Field {
    pub name: String,
    pub value: Value,
}

/// The mathematical value of a [`Field`].
pub ghost struct FieldView {
    pub name: Seq<char>,
    pub value: ValueView,
}

impl View for Field {
    type V = FieldView;

    open spec fn view(&self) -> FieldView {
        FieldView { name: self.name@, value: self.value@ }
    }
}

/// One result row: its cells in the order in which the query names them.
#[derive(Clone, Debug, PartialEq)]
pub struct Row {
    pub fields: Vec<Field>,
}

impl View for Row {
    type V = Seq<FieldView>;

    open spec fn view(&self) -> Seq<FieldView> {
        self.fields@.map_values(|f: Field| f@)
    }
}

/// The columns of the `accounts` table.
#[derive(Clone, Copy, Debug, PartialEq, Eq, Structural)]
pub enum AccountColumn {
    Id,
    Name,
    AccountType,
    Balance,
    Currency,
    Description,
    CreatedAt,
    UpdatedAt,
}

impl AccountColumn {
    /// The column's name in the table.
    pub open spec fn spec_name(self) -> Seq<char> {
        match self {
            AccountColumn::Id => "id"@,
            AccountColumn::Name => "name"@,
            AccountColumn::AccountType => "account_type"@,
            AccountColumn::Balance => "balance"@,
            AccountColumn::Currency => "currency"@,
            AccountColumn::Description => "description"@,
            AccountColumn::CreatedAt => "created_at"@,
            AccountColumn::UpdatedAt => "updated_at"@,
        }
    }

    pub fn name(&self) -> (r: String)
        ensures
            r@ == self.spec_name(),
    {
        match self {
            AccountColumn::Id => String::from_str("id"),
            AccountColumn::Name => String::from_str("name"),
            AccountColumn::AccountType => String::from_str("account_type"),
            AccountColumn::Balance => String::from_str("balance"),
            AccountColumn::Currency => String::from_str("currency"),
            AccountColumn::Description => String::from_str("description"),
            AccountColumn::CreatedAt => String::from_str("created_at"),
            AccountColumn::UpdatedAt => String::from_str("updated_at"),
        }
    }
}

/// The type of value that a column holds.
#[derive(Clone, Copy, Debug, PartialEq, Eq, Structural)]
pub enum ColumnKind {
    Integer,
    Real,
    Text,
    DateTime,
}

impl AccountColumn {
    /// The type of the column's values.
    pub open spec fn spec_kind(self) -> ColumnKind {
        match self {
            AccountColumn::Id => ColumnKind::Integer,
            AccountColumn::Balance => ColumnKind::Real,
            AccountColumn::CreatedAt => ColumnKind::DateTime,
            AccountColumn::UpdatedAt => ColumnKind::DateTime,
            _ => ColumnKind::Text,
        }
    }

    /// Whether the column may hold null.
    pub open spec fn spec_nullable(self) -> bool {
        self == AccountColumn::Description
    }

    pub fn kind(&self) -> (r: ColumnKind)
        ensures
            r == self.spec_kind(),
    {
        match self {
            AccountColumn::Id => ColumnKind::Integer,
            AccountColumn::Balance => ColumnKind::Real,
            AccountColumn::CreatedAt => ColumnKind::DateTime,
            AccountColumn::UpdatedAt => ColumnKind::DateTime,
            _ => ColumnKind::Text,
        }
    }

    pub fn nullable(&self) -> (r: bool)
        ensures
            r == self.spec_nullable(),
    {
        match self {
            AccountColumn::Description => true,
            _ => false,
        }
    }
}

/// The value is one that the column may hold: null where the column is
/// nullable, else a value of the column's type.
pub open spec fn fits(col: AccountColumn, value: ValueView) -> bool {
    match value {
        ValueView::Null => col.spec_nullable(),
        ValueView::Integer(_) => col.spec_kind() == ColumnKind::Integer,
        ValueView::Real(_) => col.spec_kind() == ColumnKind::Real,
        ValueView::Text(_) => col.spec_kind() == ColumnKind::Text,
        ValueView::DateTime(_) => col.spec_kind() == ColumnKind::DateTime,
        ValueView::Blob(_) => false,
    }
}

/// The row has a cell for the column, and the first such cell fits it.
pub open spec fn column_fits(row: Seq<FieldView>, col: AccountColumn) -> bool {
    lookup(row, col.spec_name()) is Some && fits(col, lookup(row, col.spec_name())->Some_0)
}

/// Why a row could not be read as an account.
#[derive(Clone, Copy, Debug, PartialEq, Eq, Structural)]
pub enum RowError {
    /// The row has no cell of that name.
    MissingColumn(AccountColumn),
    /// The cell is null and the field is not optional.
    NullValue(AccountColumn),
    /// The cell holds a value of another type than the field's.
    TypeMismatch(AccountColumn),
}

/// The column that a failure speaks of.
pub open spec fn failed_column(e: RowError) -> AccountColumn {
    match e {
        RowError::MissingColumn(c) => c,
        RowError::NullValue(c) => c,
        RowError::TypeMismatch(c) => c,
    }
}

/// The column's place in the table's order.
pub open spec fn column_place(c: AccountColumn) -> int {
    match c {
        AccountColumn::Id => 0,
        AccountColumn::Name => 1,
        AccountColumn::AccountType => 2,
        AccountColumn::Balance => 3,
        AccountColumn::Currency => 4,
        AccountColumn::Description => 5,
        AccountColumn::CreatedAt => 6,
        AccountColumn::UpdatedAt => 7,
    }
}

/// The column at a place of the table's order.
pub open spec fn column_at(place: int) -> AccountColumn {
    if place <= 0 {
        AccountColumn::Id
    } else if place == 1 {
        AccountColumn::Name
    } else if place == 2 {
        AccountColumn::AccountType
    } else if place == 3 {
        AccountColumn::Balance
    } else if place == 4 {
        AccountColumn::Currency
    } else if place == 5 {
        AccountColumn::Description
    } else if place == 6 {
        AccountColumn::CreatedAt
    } else {
        AccountColumn::UpdatedAt
    }
}

/// The value of the first cell named `name`, if the row has one.
pub open spec fn lookup(row: Seq<FieldView>, name: Seq<char>) -> Option<ValueView>
    decreases row.len(),
{
    if row.len() == 0 {
        None
    } else if row[0].name == name {
        Some(row[0].value)
    } else {
        lookup(row.subrange(1, row.len() as int), name)
    }
}

/// A cell read as a whole number.
pub open spec fn integer_cell(row: Seq<FieldView>, col: AccountColumn) -> Result<i64, RowError> {
    match lookup(row, col.spec_name()) {
        None => Err(RowError::MissingColumn(col)),
        Some(ValueView::Null) => Err(RowError::NullValue(col)),
        Some(ValueView::Integer(v)) => Ok(v),
        Some(_) => Err(RowError::TypeMismatch(col)),
    }
}

/// A cell read as an amount.
pub open spec fn real_cell(row: Seq<FieldView>, col: AccountColumn) -> Result<Balance, RowError> {
    match lookup(row, col.spec_name()) {
        None => Err(RowError::MissingColumn(col)),
        Some(ValueView::Null) => Err(RowError::NullValue(col)),
        Some(ValueView::Real(v)) => Ok(v),
        Some(_) => Err(RowError::TypeMismatch(col)),
    }
}

/// A cell read as an instant.
pub open spec fn instant_cell(row: Seq<FieldView>, col: AccountColumn) -> Result<
    Timestamp,
    RowError,
> {
    match lookup(row, col.spec_name()) {
        None => Err(RowError::MissingColumn(col)),
        Some(ValueView::Null) => Err(RowError::NullValue(col)),
        Some(ValueView::DateTime(t)) => Ok(t),
        Some(_) => Err(RowError::TypeMismatch(col)),
    }
}

/// A cell read as text that may be absent: null is absence, and the empty
/// text is a text.
pub open spec fn optional_text_cell(row: Seq<FieldView>, col: AccountColumn) -> Result<
    Option<Seq<char>>,
    RowError,
> {
    match lookup(row, col.spec_name()) {
        None => Err(RowError::MissingColumn(col)),
        Some(ValueView::Null) => Ok(None),
        Some(ValueView::Text(s)) => Ok(Some(s)),
        Some(_) => Err(RowError::TypeMismatch(col)),
    }
}

/// A cell read as text that has to be there.
pub open spec fn text_cell(row: Seq<FieldView>, col: AccountColumn) -> Result<
    Seq<char>,
    RowError,
> {
    match optional_text_cell(row, col) {
        Err(e) => Err(e),
        Ok(None) => Err(RowError::NullValue(col)),
        Ok(Some(s)) => Ok(s),
    }
}

/// The first column, in the table's order, that the row fails on; `None` where
/// every column can be read.
pub open spec fn first_failure(row: Seq<FieldView>) -> Option<RowError> {
    if integer_cell(row, AccountColumn::Id) is Err {
        Some(integer_cell(row, AccountColumn::Id)->Err_0)
    } else if text_cell(row, AccountColumn::Name) is Err {
        Some(text_cell(row, AccountColumn::Name)->Err_0)
    } else if text_cell(row, AccountColumn::AccountType) is Err {
        Some(text_cell(row, AccountColumn::AccountType)->Err_0)
    } else if real_cell(row, AccountColumn::Balance) is Err {
        Some(real_cell(row, AccountColumn::Balance)->Err_0)
    } else if text_cell(row, AccountColumn::Currency) is Err {
        Some(text_cell(row, AccountColumn::Currency)->Err_0)
    } else if optional_text_cell(row, AccountColumn::Description) is Err {
        Some(optional_text_cell(row, AccountColumn::Description)->Err_0)
    } else if instant_cell(row, AccountColumn::CreatedAt) is Err {
        Some(instant_cell(row, AccountColumn::CreatedAt)->Err_0)
    } else if instant_cell(row, AccountColumn::UpdatedAt) is Err {
        Some(instant_cell(row, AccountColumn::UpdatedAt)->Err_0)
    } else {
        None
    }
}

/// The account that a row stands for: each field is the cell of its name. A
/// row that fails on a column gives the failure of the first such column.
pub open spec fn account_of_row(row: Seq<FieldView>) -> Result<AccountView, RowError> {
    match first_failure(row) {
        Some(e) => Err(e),
        None => Ok(
            AccountView {
                id: integer_cell(row, AccountColumn::Id)->Ok_0,
                name: text_cell(row, AccountColumn::Name)->Ok_0,
                account_type: text_cell(row, AccountColumn::AccountType)->Ok_0,
                balance: real_cell(row, AccountColumn::Balance)->Ok_0,
                currency: text_cell(row, AccountColumn::Currency)->Ok_0,
                description: optional_text_cell(row, AccountColumn::Description)->Ok_0,
                created_at: instant_cell(row, AccountColumn::CreatedAt)->Ok_0,
                updated_at: instant_cell(row, AccountColumn::UpdatedAt)->Ok_0,
            },
        ),
    }
}

impl Row {
    /// The position of the first cell named `name`, if the row has one.
    pub fn find(&self, name: &String) -> (r: Option<usize>)
        ensures
            match r {
                Some(i) => {
                    &&& i < self@.len()
                    &&& self@[i as int].name == name@
                    &&& forall|j: int| 0 <= j < i ==> self@[j].name != name@
                    &&& lookup(self@, name@) == Some(self@[i as int].value)
                },
                None => {
                    &&& forall|j: int| 0 <= j < self@.len() ==> self@[j].name != name@
                    &&& lookup(self@, name@) is None
                },
            },
    {
        let n: usize = self.fields.len();
        let mut i: usize = 0;
        assert(self@.subrange(0, n as int) =~= self@);
        while i < n
            invariant
                n == self.fields@.len(),
                i <= n,
                lookup(self@, name@) == lookup(self@.subrange(i as int, n as int), name@),
                forall|j: int| 0 <= j < i ==> self@[j].name != name@,
            decreases n - i,
        {
            let ghost rest = self@.subrange(i as int, n as int);
            assert(rest[0] == self@[i as int]);
            assert(rest.subrange(1, rest.len() as int) =~= self@.subrange(i as int + 1, n as int));
            if self.fields[i].name == *name {
                return Some(i);
            }
            i += 1;
        }
        assert(self@.subrange(n as int, n as int).len() == 0);
        None
    }

    fn read_integer(&self, col: AccountColumn) -> (r: Result<i64, RowError>)
        ensures
            r == integer_cell(self@, col),
    {
        let name = col.name();
        match self.find(&name) {
            None => Err(RowError::MissingColumn(col)),
            Some(i) => match &self.fields[i].value {
                Value::Null => Err(RowError::NullValue(col)),
                Value::Integer(v) => Ok(*v),
                _ => Err(RowError::TypeMismatch(col)),
            },
        }
    }

    fn read_real(&self, col: AccountColumn) -> (r: Result<Balance, RowError>)
        ensures
            r == real_cell(self@, col),
    {
        let name = col.name();
        match self.find(&name) {
            None => Err(RowError::MissingColumn(col)),
            Some(i) => match &self.fields[i].value {
                Value::Null => Err(RowError::NullValue(col)),
                Value::Real(v) => Ok(*v),
                _ => Err(RowError::TypeMismatch(col)),
            },
        }
    }

    fn read_instant(&self, col: AccountColumn) -> (r: Result<Timestamp, RowError>)
        ensures
            r == instant_cell(self@, col),
    {
        let name = col.name();
        match self.find(&name) {
            None => Err(RowError::MissingColumn(col)),
            Some(i) => match &self.fields[i].value {
                Value::Null => Err(RowError::NullValue(col)),
                Value::DateTime(t) => Ok(*t),
                _ => Err(RowError::TypeMismatch(col)),
            },
        }
    }

    fn read_optional_text(&self, col: AccountColumn) -> (r: Result<Option<String>, RowError>)
        ensures
            match r {
                Ok(Some(s)) => optional_text_cell(self@, col) == Ok::<Option<Seq<char>>, RowError>(
                    Some(s@),
                ),
                Ok(None) => optional_text_cell(self@, col) == Ok::<Option<Seq<char>>, RowError>(
                    None,
                ),
                Err(e) => optional_text_cell(self@, col) == Err::<Option<Seq<char>>, RowError>(e),
            },
    {
        let name = col.name();
        match self.find(&name) {
            None => Err(RowError::MissingColumn(col)),
            Some(i) => match &self.fields[i].value {
                Value::Null => Ok(None),
                Value::Text(s) => Ok(Some(s.clone())),
                _ => Err(RowError::TypeMismatch(col)),
            },
        }
    }

    fn read_text(&self, col: AccountColumn) -> (r: Result<String, RowError>)
        ensures
            match r {
                Ok(s) => text_cell(self@, col) == Ok::<Seq<char>, RowError>(s@),
                Err(e) => text_cell(self@, col) == Err::<Seq<char>, RowError>(e),
            },
    {
        match self.read_optional_text(col) {
            Err(e) => Err(e),
            Ok(None) => Err(RowError::NullValue(col)),
            Ok(Some(s)) => Ok(s),
        }
    }

    /// Reads the row as an account, column by column in the table's order, and
    /// stops at the first column that is missing, null where it may not be, or
    /// of the wrong type.
    pub fn to_account(&self) -> (r: Result<Account, RowError>)
        ensures
            match r {
                Ok(a) => account_of_row(self@) == Ok::<AccountView, RowError>(a@),
                Err(e) => account_of_row(self@) == Err::<AccountView, RowError>(e),
            },
    {
        let id = match self.read_integer(AccountColumn::Id) {
            Ok(v) => v,
            Err(e) => { return Err(e); },
        };
        let name = match self.read_text(AccountColumn::Name) {
            Ok(v) => v,
            Err(e) => { return Err(e); },
        };
        let account_type = match self.read_text(AccountColumn::AccountType) {
            Ok(v) => v,
            Err(e) => { return Err(e); },
        };
        let balance = match self.read_real(AccountColumn::Balance) {
            Ok(v) => v,
            Err(e) => { return Err(e); },
        };
        let currency = match self.read_text(AccountColumn::Currency) {
            Ok(v) => v,
            Err(e) => { return Err(e); },
        };
        let description = match self.read_optional_text(AccountColumn::Description) {
            Ok(v) => v,
            Err(e) => { return Err(e); },
        };
        let created_at = match self.read_instant(AccountColumn::CreatedAt) {
            Ok(v) => v,
            Err(e) => { return Err(e); },
        };
        let updated_at = match self.read_instant(AccountColumn::UpdatedAt) {
            Ok(v) => v,
            Err(e) => { return Err(e); },
        };
        Ok(
            Account {
                id,
                name,
                account_type,
                balance,
                currency,
                description,
                created_at,
                updated_at,
            },
        )
    }
}

/// A row can be read as an account exactly where it has a fitting cell for
/// every column of the table.
pub proof fn row_is_readable_iff_every_column_fits(row: Seq<FieldView>)
    ensures
        account_of_row(row) is Ok <==> forall|c: AccountColumn| #[trigger] column_fits(row, c),
{
    if account_of_row(row) is Ok {
        assert forall|c: AccountColumn| #[trigger] column_fits(row, c) by {
            match c {
                AccountColumn::Id => {},
                AccountColumn::Name => {},
                AccountColumn::AccountType => {},
                AccountColumn::Balance => {},
                AccountColumn::Currency => {},
                AccountColumn::Description => {},
                AccountColumn::CreatedAt => {},
                AccountColumn::UpdatedAt => {},
            }
        }
    }
    if forall|c: AccountColumn| #[trigger] column_fits(row, c) {
        assert(column_fits(row, AccountColumn::Id));
        assert(column_fits(row, AccountColumn::Name));
        assert(column_fits(row, AccountColumn::AccountType));
        assert(column_fits(row, AccountColumn::Balance));
        assert(column_fits(row, AccountColumn::Currency));
        assert(column_fits(row, AccountColumn::Description));
        assert(column_fits(row, AccountColumn::CreatedAt));
        assert(column_fits(row, AccountColumn::UpdatedAt));
    }
}

/// A row that cannot be read fails on a column that has no fitting cell, and
/// every column before that one, in the table's order, has one.
pub proof fn failure_names_the_first_unfit_column(row: Seq<FieldView>)
    requires
        account_of_row(row) is Err,
    ensures
        ({
            let c = failed_column(account_of_row(row)->Err_0);
            &&& !column_fits(row, c)
            &&& forall|i: int|
                0 <= i < column_place(c) ==> column_fits(row, #[trigger] column_at(i))
        }),
{
    let c = failed_column(account_of_row(row)->Err_0);
    assert forall|i: int| 0 <= i < column_place(c) implies column_fits(
        row,
        #[trigger] column_at(i),
    ) by {
        if i == 0 {
        } else if i == 1 {
        } else if i == 2 {
        } else if i == 3 {
        } else if i == 4 {
        } else if i == 5 {
        } else if i == 6 {
        } else {
        }
    }
}

} // verus!

//! The read path over the `accounts` table: the rows that a query brought
//! become account records, in the order in which they came.

use vstd::prelude::*;
use vstd::string::StringExecFns;
use crate::models::{Account, AccountView};
use crate::row::{account_of_row, lookup, AccountColumn, Row, RowError, ValueView};

verus! {

/// Why the accounts could not be fetched.
#[derive(Clone, Debug, PartialEq)]
pub enum FetchError {
    /// The storage layer failed before any row came back: the text is its
    /// report.
    Storage(String),
    /// The row at `index` does not have the shape of an account.
    Row { index: usize, error: RowError },
}

impl RowError {
    /// The words to show for this failure.
    pub open spec fn spec_message(self) -> Seq<char> {
        match self {
            RowError::MissingColumn(c) => "no column found for name: "@ + c.spec_name(),
            RowError::NullValue(c) => "unexpected null in column: "@ + c.spec_name(),
            RowError::TypeMismatch(c) => "mismatched type in column: "@ + c.spec_name(),
        }
    }

    pub fn message(&self) -> (r: String)
        ensures
            r@ == self.spec_message(),
    {
        match self {
            RowError::MissingColumn(c) => {
                let n = c.name();
                String::from_str("no column found for name: ").concat(n.as_str())
            },
            RowError::NullValue(c) => {
                let n = c.name();
                String::from_str("unexpected null in column: ").concat(n.as_str())
            },
            RowError::TypeMismatch(c) => {
                let n = c.name();
                String::from_str("mismatched type in column: ").concat(n.as_str())
            },
        }
    }
}

impl FetchError {
    /// The words to show for this failure: the storage layer's own report, or
    /// those of the row's failure.
    pub open spec fn spec_message(self) -> Seq<char> {
        match self {
            FetchError::Storage(m) => m@,
            FetchError::Row { index, error } => error.spec_message(),
        }
    }

    pub fn message(&self) -> (r: String)
        ensures
            r@ == self.spec_message(),
    {
        match self {
            FetchError::Storage(m) => m.clone(),
            FetchError::Row { index, error } => error.message(),
        }
    }
}

/// Every row has the shape of an account.
pub open spec fn all_rows_readable(rows: Seq<Row>) -> bool {
    forall|i: int| 0 <= i < rows.len() ==> (#[trigger] account_of_row(rows[i]@)) is Ok
}

/// `result` is what fetching gives on `rows`: one record for each row, in the
/// rows' order, each the account that its row stands for; or, where a row has
/// not the shape of an account, the failure of the first such row.
pub open spec fn fetched(rows: Seq<Row>, result: Result<Vec<Account>, FetchError>) -> bool {
    match result {
        Ok(accounts) => {
            &&& accounts@.len() == rows.len()
            &&& forall|i: int|
                0 <= i < rows.len() ==> account_of_row(#[trigger] rows[i]@) == Ok::<
                    AccountView,
                    RowError,
                >(accounts@[i]@)
        },
        Err(FetchError::Row { index, error }) => {
            &&& index < rows.len()
            &&& account_of_row(rows[index as int]@) == Err::<AccountView, RowError>(error)
            &&& forall|j: int| 0 <= j < index ==> (#[trigger] account_of_row(rows[j]@)) is Ok
        },
        Err(FetchError::Storage(_)) => false,
    }
}

/// What fetching gives on the outcome of the query over all rows of the table.
pub open spec fn fetch_result(
    outcome: Result<Vec<Row>, String>,
    result: Result<Vec<Account>, FetchError>,
) -> bool {
    match outcome {
        Ok(rows) => fetched(rows@, result),
        Err(report) => result matches Err(FetchError::Storage(m)) && m@ == report@,
    }
}

/// Maps the rows onto records, stopping at the first row that fails.
pub fn accounts_from_rows(rows: &Vec<Row>) -> (r: Result<Vec<Account>, FetchError>)
    ensures
        fetched(rows@, r),
{
    let n: usize = rows.len();
    let mut accounts: Vec<Account> = Vec::new();
    let mut i: usize = 0;
    while i < n
        invariant
            n == rows@.len(),
            i <= n,
            accounts@.len() == i,
            forall|k: int|
                0 <= k < i ==> account_of_row(#[trigger] rows@[k]@) == Ok::<AccountView, RowError>(
                    accounts@[k]@,
                ),
        decreases n - i,
    {
        match rows[i].to_account() {
            Ok(a) => {
                accounts.push(a);
            },
            Err(e) => {
                return Err(FetchError::Row { index: i, error: e });
            },
        }
        i += 1;
    }
    Ok(accounts)
}

/// Turns the outcome of the query over all rows of `accounts` into the list of
/// records. A storage failure is handed on with its report; so is the failure
/// of the first row that has not the shape of an account. No row is left out
/// and none is moved.
pub fn fetch_accounts(outcome: Result<Vec<Row>, String>) -> (r: Result<Vec<Account>, FetchError>)
    ensures
        fetch_result(outcome, r),
{
    match outcome {
        Ok(rows) => accounts_from_rows(&rows),
        Err(report) => Err(FetchError::Storage(report)),
    }
}

/// The command that the front-end invokes: the records, or the words that
/// describe the failure, with the failure's structure left behind.
pub fn get_accounts(outcome: Result<Vec<Row>, String>) -> (r: Result<Vec<Account>, String>)
    ensures
        match r {
            Ok(accounts) => fetch_result(outcome, Ok(accounts)),
            Err(text) => exists|e: FetchError|
                #[trigger] fetch_result(outcome, Err(e)) && text@ == e.spec_message(),
        },
{
    match fetch_accounts(outcome) {
        Ok(accounts) => Ok(accounts),
        Err(e) => {
            let text = e.message();
            Err(text)
        },
    }
}

/// No rows, no records: fetching from an empty table succeeds with an empty
/// list.
pub proof fn empty_table_gives_empty_list(result: Result<Vec<Account>, FetchError>)
    requires
        fetched(Seq::<Row>::empty(), result),
    ensures
        result is Ok,
        result->Ok_0@.len() == 0,
{
}

/// Fetching fails exactly where some row has not the shape of an account.
pub proof fn fetch_succeeds_iff_all_rows_readable(
    rows: Seq<Row>,
    result: Result<Vec<Account>, FetchError>,
)
    requires
        fetched(rows, result),
    ensures
        result is Ok <==> all_rows_readable(rows),
{
    match result {
        Ok(accounts) => {
            assert forall|i: int| 0 <= i < rows.len() implies (#[trigger] account_of_row(
                rows[i]@,
            )) is Ok by {
                assert(account_of_row(rows[i]@) == Ok::<AccountView, RowError>(accounts@[i]@));
            }
        },
        Err(FetchError::Row { index, error }) => {
            assert(account_of_row(rows[index as int]@) is Err);
        },
        Err(FetchError::Storage(_)) => {},
    }
}

/// A table of readable rows comes back whole: as many records as rows, and in
/// each record every field is the cell of its name in the row at the same
/// place. A null description is read as absent, and a text, the empty one too,
/// as that text.
pub proof fn every_row_is_returned(rows: Seq<Row>, result: Result<Vec<Account>, FetchError>)
    requires
        all_rows_readable(rows),
        fetched(rows, result),
    ensures
        result is Ok,
        result->Ok_0@.len() == rows.len(),
        forall|i: int|
            0 <= i < rows.len() ==> {
                let a = (#[trigger] result->Ok_0@[i])@;
                let row = rows[i]@;
                &&& lookup(row, AccountColumn::Id.spec_name()) == Some(ValueView::Integer(a.id))
                &&& lookup(row, AccountColumn::Name.spec_name()) == Some(ValueView::Text(a.name))
                &&& lookup(row, AccountColumn::AccountType.spec_name()) == Some(
                    ValueView::Text(a.account_type),
                )
                &&& lookup(row, AccountColumn::Balance.spec_name()) == Some(
                    ValueView::Real(a.balance),
                )
                &&& lookup(row, AccountColumn::Currency.spec_name()) == Some(
                    ValueView::Text(a.currency),
                )
                &&& lookup(row, AccountColumn::Description.spec_name()) == Some(
                    match a.description {
                        None => ValueView::Null,
                        Some(text) => ValueView::Text(text),
                    },
                )
                &&& lookup(row, AccountColumn::CreatedAt.spec_name()) == Some(
                    ValueView::DateTime(a.created_at),
                )
                &&& lookup(row, AccountColumn::UpdatedAt.spec_name()) == Some(
                    ValueView::DateTime(a.updated_at),
                )
            },
{
    fetch_succeeds_iff_all_rows_readable(rows, result);
    let accounts = result->Ok_0;
    assert forall|i: int| 0 <= i < rows.len() implies {
        let a = (#[trigger] accounts@[i])@;
        let row = rows[i]@;
        &&& lookup(row, AccountColumn::Id.spec_name()) == Some(ValueView::Integer(a.id))
        &&& lookup(row, AccountColumn::Name.spec_name()) == Some(ValueView::Text(a.name))
        &&& lookup(row, AccountColumn::AccountType.spec_name()) == Some(
            ValueView::Text(a.account_type),
        )
        &&& lookup(row, AccountColumn::Balance.spec_name()) == Some(ValueView::Real(a.balance))
        &&& lookup(row, AccountColumn::Currency.spec_name()) == Some(ValueView::Text(a.currency))
        &&& lookup(row, AccountColumn::Description.spec_name()) == Some(
            match a.description {
                None => ValueView::Null,
                Some(text) => ValueView::Text(text),
            },
        )
        &&& lookup(row, AccountColumn::CreatedAt.spec_name()) == Some(
            ValueView::DateTime(a.created_at),
        )
        &&& lookup(row, AccountColumn::UpdatedAt.spec_name()) == Some(
            ValueView::DateTime(a.updated_at),
        )
    } by {
        assert(account_of_row(rows[i]@) == Ok::<AccountView, RowError>(accounts@[i]@));
    }
}

/// Fetching is a function of the rows: two results on the same rows agree in
/// what they hold.
pub proof fn fetch_is_determined(
    rows: Seq<Row>,
    first: Result<Vec<Account>, FetchError>,
    second: Result<Vec<Account>, FetchError>,
)
    requires
        fetched(rows, first),
        fetched(rows, second),
    ensures
        first is Ok <==> second is Ok,
        first is Ok ==> first->Ok_0@.map_values(|a: Account| a@) == second->Ok_0@.map_values(
            |a: Account| a@,
        ),
        first is Err ==> first->Err_0 == second->Err_0,
{
    fetch_succeeds_iff_all_rows_readable(rows, first);
    fetch_succeeds_iff_all_rows_readable(rows, second);
    match (first, second) {
        (Ok(a), Ok(b)) => {
            assert forall|i: int| 0 <= i < rows.len() implies a@[i]@ == b@[i]@ by {
                assert(account_of_row(rows[i]@) == Ok::<AccountView, RowError>(a@[i]@));
                assert(account_of_row(rows[i]@) == Ok::<AccountView, RowError>(b@[i]@));
            }
            assert(a@.map_values(|x: Account| x@) =~= b@.map_values(|x: Account| x@));
        },
        (
            Err(FetchError::Row { index: i, error: e }),
            Err(FetchError::Row { index: j, error: f }),
        ) => {
            if i < j {
                assert(account_of_row(rows[i as int]@) is Ok);
            }
            if j < i {
                assert(account_of_row(rows[j as int]@) is Ok);
            }
        },
        _ => {},
    }
}

} // verus!

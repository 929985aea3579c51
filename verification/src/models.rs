//! The account record and the plain values it is made of.

use vstd::prelude::*;

verus! {

/// An instant on the UTC time line: whole seconds since the Unix epoch and the
/// nanoseconds past that second. A leap second is written as the second before
/// it with a nanosecond part of one thousand million or more.
#[derive(Clone, Copy, Debug, PartialEq, Eq, Structural)]
pub struct Timestamp {
    pub secs: i64,
    pub nanos: u32,
}

impl Timestamp {
    /// The nanosecond part stays below one second, or below two in the last
    /// second of a minute, where a leap second may follow.
    pub open spec fn well_formed(self) -> bool {
        self.nanos < 1_000_000_000 || (self.nanos < 2_000_000_000 && self.secs as int % 60 == 59)
    }

    /// `self` is not later than `other`.
    pub open spec fn spec_not_after(self, other: Timestamp) -> bool {
        self.secs < other.secs || (self.secs == other.secs && self.nanos <= other.nanos)
    }

    pub fn is_well_formed(&self) -> (r: bool)
        ensures
            r == self.well_formed(),
    {
        if self.nanos < 1_000_000_000 {
            true
        } else if self.nanos >= 2_000_000_000 {
            false
        } else if self.secs >= 0 {
            self.secs % 60 == 59
        } else {
            // below zero, count the seconds back from the one before the epoch
            let back: i64 = -(self.secs + 1);
            assert((self.secs as int % 60 == 59) <==> (back as int % 60 == 0)) by {
                let q = back as int / 60;
                let m = back as int % 60;
                assert(back as int == 60 * q + m && 0 <= m < 60) by (nonlinear_arith)
                    requires
                        q == back as int / 60,
                        m == back as int % 60,
                ;
                assert(self.secs as int == 60 * (-q - 1) + (59 - m));
                assert((60 * (-q - 1) + (59 - m)) % 60 == 59 - m) by (nonlinear_arith)
                    requires
                        0 <= 59 - m < 60,
                ;
            }
            back % 60 == 0
        }
    }

    pub fn not_after(&self, other: &Timestamp) -> (r: bool)
        ensures
            r == self.spec_not_after(*other),
    {
        self.secs < other.secs || (self.secs == other.secs && self.nanos <= other.nanos)
    }
}

/// A monetary amount, kept as the bit pattern of the binary64 number that the
/// storage engine holds. The library carries the amount and never computes on it.
#[derive(Clone, Copy, Debug, PartialEq, Eq, Structural)]
pub struct Balance {
    pub bits: u64,
}

/// One financial account as the `accounts` table stores it.
#[derive(Clone, Debug, PartialEq)]
pub struct Account {
    pub id: i64,
    pub name: String,
    pub account_type: String,
    pub balance: Balance,
    pub currency: String,
    pub description: Option<String>,
    pub created_at: Timestamp,
    pub updated_at: Timestamp,
}

/// The mathematical value of an [`Account`].
pub ghost struct AccountView {
    pub id: i64,
    pub name: Seq<char>,
    pub account_type: Seq<char>,
    pub balance: Balance,
    pub currency: Seq<char>,
    pub description: Option<Seq<char>>,
    pub created_at: Timestamp,
    pub updated_at: Timestamp,
}

/// The text of an optional string, absent where the string is absent.
pub open spec fn optional_text(s: Option<String>) -> Option<Seq<char>> {
    match s {
        Some(t) => Some(t@),
        None => None,
    }
}

impl View for Account {
    type V = AccountView;

    open spec fn view(&self) -> AccountView {
        AccountView {
            id: self.id,
            name: self.name@,
            account_type: self.account_type@,
            balance: self.balance,
            currency: self.currency@,
            description: optional_text(self.description),
            created_at: self.created_at,
            updated_at: self.updated_at,
        }
    }
}

impl AccountView {
    /// What every writer of accounts has to keep: a name that is not empty,
    /// well-formed instants, and a creation that is not later than the last
    /// update.
    pub open spec fn consistent(self) -> bool {
        &&& self.name.len() > 0
        &&& self.created_at.well_formed()
        &&& self.updated_at.well_formed()
        &&& self.created_at.spec_not_after(self.updated_at)
    }
}

impl Account {
    /// Tells whether this record keeps the rules of the data model.
    pub fn is_consistent(&self) -> (r: bool)
        ensures
            r == self@.consistent(),
    {
        !self.name.as_str().is_empty() && self.created_at.is_well_formed()
            && self.updated_at.is_well_formed() && self.created_at.not_after(&self.updated_at)
    }
}

} // verus!

//! The domain model: the rows of the finance store as plain values.
//!
//! Identifiers are the 128-bit values of UUIDs (big-endian, as
//! `uuid::Uuid::as_u128` gives them); date-times are the RFC 3339 texts
//! that the store keeps.

use vstd::prelude::*;

verus! {

/// A user of the application.
pub struct Profile {
    pub profile_id: u128,
    pub profile_display_name: String,
    pub profile_created_datetime: String,
    pub profile_archived_datetime: Option<String>,
}

/// An entry of the user-defined chart of accounts.
pub struct Account {
    pub account_id: u128,
    pub account_name: String,
    pub parent_account_id: Option<u128>,
    pub account_type: AccountType,
    pub account_currency: String,
    pub account_sort_order: i32,
    pub account_notes: Option<String>,
    pub account_created_datetime: String,
    pub account_archived_datetime: Option<String>,
}

impl Account {
    /// An archived account is kept but can no longer be assigned to.
    pub open spec fn is_archived(&self) -> bool {
        self.account_archived_datetime is Some
    }
}

/// The basic account categories.
#[derive(Clone, Copy, Debug, PartialEq, Eq, Structural)]
pub enum AccountType {
    Income,
    Expense,
    Asset,
    Liability,
    Equity,
}

/// The text under which an account type is stored.
pub open spec fn account_type_chars(t: AccountType) -> Seq<char> {
    match t {
        AccountType::Income => "income"@,
        AccountType::Expense => "expense"@,
        AccountType::Asset => "asset"@,
        AccountType::Liability => "liability"@,
        AccountType::Equity => "equity"@,
    }
}

/// The account type stored under a text, if any.
pub open spec fn account_type_of_chars(s: Seq<char>) -> Option<AccountType> {
    if s == "income"@ {
        Some(AccountType::Income)
    } else if s == "expense"@ {
        Some(AccountType::Expense)
    } else if s == "asset"@ {
        Some(AccountType::Asset)
    } else if s == "liability"@ {
        Some(AccountType::Liability)
    } else if s == "equity"@ {
        Some(AccountType::Equity)
    } else {
        None
    }
}

impl AccountType {
    /// The stored text of the type: its name in lower case.
    pub fn to_text(&self) -> (r: String)
        ensures
            r@ == account_type_chars(*self),
    {
        match self {
            AccountType::Income => String::from_str("income"),
            AccountType::Expense => String::from_str("expense"),
            AccountType::Asset => String::from_str("asset"),
            AccountType::Liability => String::from_str("liability"),
            AccountType::Equity => String::from_str("equity"),
        }
    }

    /// Reads a stored text back as an account type.
    pub fn from_text(s: &str) -> (r: Option<AccountType>)
        ensures
            r == account_type_of_chars(s@),
    {
        let s = s.to_owned();
        if s == String::from_str("income") {
            Some(AccountType::Income)
        } else if s == String::from_str("expense") {
            Some(AccountType::Expense)
        } else if s == String::from_str("asset") {
            Some(AccountType::Asset)
        } else if s == String::from_str("liability") {
            Some(AccountType::Liability)
        } else if s == String::from_str("equity") {
            Some(AccountType::Equity)
        } else {
            None
        }
    }
}

/// Reading back the stored text of an account type gives the same type.
pub proof fn lemma_account_type_text_round_trip(t: AccountType)
    ensures
        account_type_of_chars(account_type_chars(t)) == Some(t),
{
    reveal_strlit("income");
    reveal_strlit("expense");
    reveal_strlit("asset");
    reveal_strlit("liability");
    reveal_strlit("equity");
    assert("equity"@[0] != "income"@[0]);
    assert("expense"@.len() != "income"@.len());
    assert("asset"@.len() != "income"@.len() && "asset"@.len() != "expense"@.len());
    assert("liability"@.len() != "income"@.len() && "liability"@.len() != "expense"@.len()
        && "liability"@.len() != "asset"@.len());
    assert("equity"@.len() != "expense"@.len() && "equity"@.len() != "asset"@.len()
        && "equity"@.len() != "liability"@.len());
}

/// Where transactions are pulled from.
#[derive(Clone, Copy, Debug, PartialEq, Eq, Structural)]
pub enum SourceType {
    Checking,
    Savings,
    CreditCard,
    Loan,
    Mortgage,
    Cash,
    Investment,
    Other,
}

/// A person or vendor the user spends money at.
pub struct Payees {
    pub payee_id: u128,
    pub payee_name: String,
    pub payee_phone: Option<String>,
    pub payee_address: Option<String>,
    pub payee_website: Option<String>,
    pub payee_default_account_id: Option<u128>,
    pub payee_created_datetime: String,
}

/// How far the user is in sorting a transaction.
#[derive(Clone, Copy, Debug, PartialEq, Eq, Structural)]
pub enum TransactionRecordingStatus {
    NotRecorded,
    PartiallyRecorded,
    Recorded,
    Excluded,
}

/// A free-form label for transactions, independent of accounts.
pub struct Tag {
    pub tag_id: u128,
    pub tag_name: String,
    pub tag_color: Option<String>,
    pub tag_created_datetime: String,
}

/// A tag applied to a transaction.
pub struct TransactionTag {
    pub transaction_id: u128,
    pub tag_id: u128,
}

/// How often a recurring transaction recurs.
#[derive(Clone, Copy, Debug, PartialEq, Eq, Structural)]
pub enum RecurringTransactionFrequency {
    Daily,
    Weekly,
    Biweekly,
    Monthly,
    Quarterly,
    Annually,
    Custom,
}

/// The kinds of goals.
#[derive(Clone, Copy, Debug, PartialEq, Eq, Structural)]
pub enum GoalType {
    Savings,
    DebtPayoff,
    Retirement,
    Custom,
}

/// A record of two goals that could not both be met, and the choice made.
pub struct GoalConflict {
    pub goal_conflict_id: u128,
    pub goal_id_a: u128,
    pub goal_id_b: u128,
    pub goal_conflict_detected_datetime: String,
    pub goal_conflict_resolution_status: GoalConflictResolutionStatus,
    pub goal_conflict_resolved_datetime: Option<String>,
}

/// Which way a goal conflict went.
#[derive(Clone, Copy, Debug, PartialEq, Eq, Structural)]
pub enum GoalConflictResolutionStatus {
    Unresolved,
    PrioritizedA,
    PrioritizedB,
    DeferredBoth,
}

/// Whether a life event happens once or changes things from then on.
#[derive(Clone, Copy, Debug, PartialEq, Eq, Structural)]
pub enum LifeEventType {
    OneTimeExpense,
    OneTimeIncome,
    RecurringChange,
}

/// Synchronisation state of this device.
pub struct SyncState {
    pub device_id: u128,
    pub device_last_synced_datetime: Option<String>,
    pub sync_token: Option<String>,
}

} // verus!

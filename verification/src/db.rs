//! The protocol between the rules and the database.
//!
//! A flow never touches the database itself: it issues a [`Request`] whose
//! fields are the exact values that the statement binds, and it is handed
//! the [`Reply`] that the statement produced.

use vstd::prelude::*;
use crate::error::CoreError;
use crate::models::{Account, Payees};
use crate::text::id_chars;

verus! {

/// The values bound when a new account row is inserted.
pub struct NewAccountRow {
    pub account_id: String,
    pub account_name: String,
    pub parent_account_id: Option<String>,
    pub account_type: String,
    pub account_currency: String,
    pub account_sort_order: i32,
    pub account_notes: Option<String>,
    pub account_created_datetime: String,
}

/// The values bound when the editable fields of an account are rewritten.
pub struct AccountChanges {
    pub account_id: String,
    pub account_name: String,
    pub parent_account_id: Option<String>,
    pub account_type: String,
    pub account_currency: String,
    pub account_sort_order: i32,
    pub account_notes: Option<String>,
}

/// The values bound when a new payee row is inserted.
pub struct NewPayeeRow {
    pub payee_id: String,
    pub payee_name: String,
    pub payee_phone: Option<String>,
    pub payee_address: Option<String>,
    pub payee_website: Option<String>,
    pub payee_default_account_id: Option<String>,
    pub payee_created_datetime: String,
}

/// The values bound when the fields of a payee are rewritten.
pub struct PayeeChanges {
    pub payee_id: String,
    pub payee_name: String,
    pub payee_phone: Option<String>,
    pub payee_address: Option<String>,
    pub payee_website: Option<String>,
    pub payee_default_account_id: Option<String>,
}

/// A statement for the database to run.
pub enum Request {
    /// Non-archived accounts, by sort order then name, at most `limit` rows.
    ListNonarchivedAccounts { limit: i64 },
    /// The account with this id, archived or not.
    LoadAccount { account_id: String },
    /// How many non-archived accounts have this account as parent.
    CountActiveChildAccounts { account_id: String },
    /// How many transaction splits are assigned to this account.
    CountAccountSplits { account_id: String },
    /// Insert a new, non-archived account.
    InsertAccount(NewAccountRow),
    /// Rewrite the editable fields of an account.
    UpdateAccount(AccountChanges),
    /// Mark an account archived at the given time.
    ArchiveAccount { account_id: String, archived_datetime: String },
    /// All payees by name, at most `limit` rows.
    ListPayees { limit: i64 },
    /// Payees whose name is `LIKE` the pattern, by name, at most `limit` rows.
    SearchPayees { pattern: String, limit: i64 },
    /// The payee with this id.
    LoadPayee { payee_id: String },
    /// Insert a new payee.
    InsertPayee(NewPayeeRow),
    /// Rewrite the fields of a payee.
    UpdatePayee(PayeeChanges),
}

/// The shape of the answer that a request calls for.
#[derive(Clone, Copy, Debug, PartialEq, Eq, Structural)]
pub enum ReplyKind {
    Account,
    Accounts,
    Count,
    Executed,
    Payee,
    Payees,
}

/// What the database answered.
pub enum Reply {
    /// The row found, if any.
    Account(Option<Account>),
    /// The rows found.
    Accounts(Vec<Account>),
    /// The value of a `COUNT(*)`.
    Count(i64),
    /// The statement ran.
    Executed,
    /// The row found, if any.
    Payee(Option<Payees>),
    /// The rows found.
    Payees(Vec<Payees>),
    /// The database reported an error.
    Failed(sqlx::Error),
}

impl Request {
    /// The shape of the answer to this request.
    pub open spec fn answer_kind(&self) -> ReplyKind {
        match self {
            Request::ListNonarchivedAccounts { .. } => ReplyKind::Accounts,
            Request::LoadAccount { .. } => ReplyKind::Account,
            Request::CountActiveChildAccounts { .. } => ReplyKind::Count,
            Request::CountAccountSplits { .. } => ReplyKind::Count,
            Request::InsertAccount(_) => ReplyKind::Executed,
            Request::UpdateAccount(_) => ReplyKind::Executed,
            Request::ArchiveAccount { .. } => ReplyKind::Executed,
            Request::ListPayees { .. } => ReplyKind::Payees,
            Request::SearchPayees { .. } => ReplyKind::Payees,
            Request::LoadPayee { .. } => ReplyKind::Payee,
            Request::InsertPayee(_) => ReplyKind::Executed,
            Request::UpdatePayee(_) => ReplyKind::Executed,
        }
    }

    /// The shape of the answer to this request.
    pub fn expected_reply(&self) -> (k: ReplyKind)
        ensures
            k == self.answer_kind(),
    {
        match self {
            Request::ListNonarchivedAccounts { .. } => ReplyKind::Accounts,
            Request::LoadAccount { .. } => ReplyKind::Account,
            Request::CountActiveChildAccounts { .. } => ReplyKind::Count,
            Request::CountAccountSplits { .. } => ReplyKind::Count,
            Request::InsertAccount(_) => ReplyKind::Executed,
            Request::UpdateAccount(_) => ReplyKind::Executed,
            Request::ArchiveAccount { .. } => ReplyKind::Executed,
            Request::ListPayees { .. } => ReplyKind::Payees,
            Request::SearchPayees { .. } => ReplyKind::Payees,
            Request::LoadPayee { .. } => ReplyKind::Payee,
            Request::InsertPayee(_) => ReplyKind::Executed,
            Request::UpdatePayee(_) => ReplyKind::Executed,
        }
    }
}

impl Reply {
    /// The reply is an answer of shape `k`, or a database error.
    pub open spec fn fits(&self, k: ReplyKind) -> bool {
        match self {
            Reply::Account(_) => k == ReplyKind::Account,
            Reply::Accounts(_) => k == ReplyKind::Accounts,
            Reply::Count(_) => k == ReplyKind::Count,
            Reply::Executed => k == ReplyKind::Executed,
            Reply::Payee(_) => k == ReplyKind::Payee,
            Reply::Payees(_) => k == ReplyKind::Payees,
            Reply::Failed(_) => true,
        }
    }

    /// Whether the reply is an answer of shape `k`, or a database error.
    pub fn has_kind(&self, k: ReplyKind) -> (b: bool)
        ensures
            b == self.fits(k),
    {
        match self {
            Reply::Account(_) => k == ReplyKind::Account,
            Reply::Accounts(_) => k == ReplyKind::Accounts,
            Reply::Count(_) => k == ReplyKind::Count,
            Reply::Executed => k == ReplyKind::Executed,
            Reply::Payee(_) => k == ReplyKind::Payee,
            Reply::Payees(_) => k == ReplyKind::Payees,
            Reply::Failed(_) => true,
        }
    }
}

/// `req` loads the account `id`.
pub open spec fn loads_account(req: Request, id: u128) -> bool {
    req matches Request::LoadAccount { account_id } && account_id@ == id_chars(id)
}

/// `req` loads the payee `id`.
pub open spec fn loads_payee(req: Request, id: u128) -> bool {
    req matches Request::LoadPayee { payee_id } && payee_id@ == id_chars(id)
}

/// What a flow does next: ask the database, or finish.
pub enum Next<S, T> {
    /// Run the request, then hand its reply to the flow in state `S`.
    Ask(S, Request),
    /// The operation is over.
    Done(Result<T, CoreError>),
}

/// A fresh identifier and the current time, for the steps that create or
/// stamp a row.
pub struct Fresh {
    pub id: u128,
    pub now: String,
}

/// `id` is a version-4 UUID of the RFC 4122 variant: its version digit is 4
/// and the top two bits of its variant digit are `10`.
pub open spec fn is_v4_id(id: u128) -> bool {
    &&& (id >> 76u128) & 0xfu128 == 4
    &&& (id >> 62u128) & 0x3u128 == 2
}

/// `c` is a decimal digit.
pub open spec fn is_digit(c: char) -> bool {
    '0' <= c && c <= '9'
}

/// The characters of `t` from `lo` up to `hi` are decimal digits.
pub open spec fn digits_between(t: Seq<char>, lo: int, hi: int) -> bool {
    forall|i: int| lo <= i < hi ==> #[trigger] is_digit(t[i])
}

/// `y` is a year as RFC 3339 text writes it: four digits, or a sign and at
/// least four digits for a year outside `0..=9999`.
pub open spec fn is_year_text(y: Seq<char>) -> bool {
    ||| y.len() == 4 && digits_between(y, 0, 4)
    ||| y.len() >= 5 && (y[0] == '+' || y[0] == '-') && digits_between(y, 1, y.len() as int)
}

/// `t` is `YEAR-MM-DDTHH:MM:SS`, then `fraction` characters of a decimal
/// fraction (a point and its digits; none when `fraction` is 0), then
/// `+00:00`.
pub open spec fn is_utc_time_text_with_fraction(t: Seq<char>, fraction: int) -> bool {
    let n = t.len() as int;
    let k = n - 6 - fraction;
    &&& k >= 19
    &&& t.subrange(n - 6, n) == "+00:00"@
    &&& fraction == 0 || (t[k] == '.' && digits_between(t, k + 1, k + fraction))
    &&& digits_between(t, k - 8, k - 6) && t[k - 6] == ':'
    &&& digits_between(t, k - 5, k - 3) && t[k - 3] == ':'
    &&& digits_between(t, k - 2, k)
    &&& t[k - 9] == 'T'
    &&& t[k - 15] == '-' && digits_between(t, k - 14, k - 12)
    &&& t[k - 12] == '-' && digits_between(t, k - 11, k - 9)
    &&& is_year_text(t.subrange(0, k - 15))
}

/// `t` is an RFC 3339 date and time at UTC as `to_rfc3339` writes it: the
/// date, `T`, the time with no fraction or one of 3, 6 or 9 digits, and the
/// offset `+00:00`.
pub open spec fn is_utc_time_text(t: Seq<char>) -> bool {
    ||| is_utc_time_text_with_fraction(t, 0)
    ||| is_utc_time_text_with_fraction(t, 4)
    ||| is_utc_time_text_with_fraction(t, 7)
    ||| is_utc_time_text_with_fraction(t, 10)
}

/// `uuid::Uuid::new_v4`, as the 128-bit value of the new identifier. The
/// bits are random but for the version and variant bits, which `new_v4`
/// sets; nothing else is promised.
#[verifier::external_body]
fn random_id() -> (r: u128)
    ensures
        is_v4_id(r),
{
    uuid::Uuid::new_v4().as_u128()
}

/// `chrono::Utc::now` in RFC 3339 text. The time is the clock's; what is
/// promised is the shape that `to_rfc3339` writes: date, time, an optional
/// fraction of 3, 6 or 9 digits, and the UTC offset as `+00:00`.
#[verifier::external_body]
fn current_time_text() -> (r: String)
    ensures
        is_utc_time_text(r@),
{
    chrono::Utc::now().to_rfc3339()
}

impl Fresh {
    /// Draws a random v4 identifier and reads the clock.
    pub fn draw() -> (r: Fresh)
        ensures
            is_v4_id(r.id),
            is_utc_time_text(r.now@),
    {
        let id = random_id();
        let now = current_time_text();
        Fresh { id, now }
    }
}

} // verus!

//! The rules of the chart of accounts: reading, creating, updating and
//! archiving accounts.

use vstd::prelude::*;
use crate::db::{
    loads_account, AccountChanges, Fresh, NewAccountRow, Next, Reply, ReplyKind, Request,
};
use crate::error::{is_not_found_error, is_validation_error, CoreError};
use crate::models::{account_type_chars, Account, AccountType};
use crate::store::{
    accounts_after, accounts_consistent, answers_load, has_no_active_children, id_text_of, is_stored_form,
    stored_account_of_row, text_of, AccountTable,
};
use crate::text::{
    id_chars, id_text, is_blank, lemma_id_chars_injective, lemma_trim_idempotent, trim_chars, trim_text,
    uppercase_chars, uppercase_text,
};

verus! {

/// Required fields to create a valid new account.
pub struct CreateAccount {
    pub account_name: String,
    pub parent_account_id: Option<u128>,
    pub account_type: AccountType,
    pub account_currency: String,
    pub account_sort_order: i32,
    pub account_notes: Option<String>,
}

/// Editable fields of an account; `None` leaves a field as it is.
pub struct UpdateAccount {
    pub account_name: Option<String>,
    pub parent_account_id: Option<Option<u128>>,
    pub account_type: Option<AccountType>,
    pub account_currency: Option<String>,
    pub account_sort_order: Option<i32>,
    pub account_notes: Option<Option<String>>,
}

/// The message of the error for a missing account.
pub open spec fn account_not_found_message(id: u128) -> Seq<char> {
    "account "@ + id_chars(id) + " not found"@
}

/// `t` is the stored text of the optional identifier `id`.
pub open spec fn is_id_text_of(t: Option<String>, id: Option<u128>) -> bool {
    match id {
        Some(i) => t matches Some(s) && s@ == id_chars(i),
        None => t is None,
    }
}

/// The stored text of an optional identifier.
pub fn optional_id_text(id: Option<u128>) -> (t: Option<String>)
    ensures
        is_id_text_of(t, id),
{
    match id {
        Some(i) => Some(id_text(i)),
        None => None,
    }
}

/// A failed result that carries a validation error with message `msg`.
pub fn validation_failure<T>(msg: &str) -> (r: Result<T, CoreError>)
    ensures
        is_validation_error(r, msg@),
{
    Err(CoreError::Validation(String::from_str(msg)))
}

fn account_not_found(id: u128) -> (r: CoreError)
    ensures
        r matches CoreError::NotFound(m) && m@ == account_not_found_message(id),
{
    let mut m = String::from_str("account ");
    let t = id_text(id);
    m.append(t.as_str());
    m.append(" not found");
    CoreError::NotFound(m)
}

/// What loading the account `id` gives when the database answered `reply`:
/// the row itself, archived or not; a not-found error when there is none.
pub open spec fn is_account_load_outcome(id: u128, reply: Reply, r: Result<Account, CoreError>) -> bool {
    match reply {
        Reply::Account(Some(a)) => r == Ok::<Account, CoreError>(a),
        Reply::Account(None) => is_not_found_error(r, account_not_found_message(id)),
        Reply::Failed(e) => r == Err::<Account, CoreError>(CoreError::Database(e)),
        _ => false,
    }
}

/// Reads one account by its id. Archived accounts are returned too.
pub struct GetAccount {
    pub account_id: u128,
}

/// Starts reading the account `account_id`.
pub fn get_one_account_by_id(account_id: u128) -> (r: (GetAccount, Request))
    ensures
        r.0.account_id == account_id,
        loads_account(r.1, account_id),
{
    let req = Request::LoadAccount { account_id: id_text(account_id) };
    (GetAccount { account_id }, req)
}

impl GetAccount {
    /// Finishes the read with the database's answer.
    pub fn finish(self, reply: Reply) -> (r: Result<Account, CoreError>)
        requires
            reply.fits(ReplyKind::Account),
        ensures
            is_account_load_outcome(self.account_id, reply, r),
    {
        match reply {
            Reply::Account(Some(a)) => Ok(a),
            Reply::Account(None) => Err(account_not_found(self.account_id)),
            Reply::Failed(e) => Err(CoreError::Database(e)),
            _ => {
                assert(false);
                Err(account_not_found(self.account_id))
            },
        }
    }
}

/// Lists the non-archived accounts, ordered by sort order then name.
pub struct ListAccounts {
    pub limit: i64,
}

/// Starts listing at most `limit` non-archived accounts.
pub fn list_nonarchived_accounts(limit: i64) -> (r: (ListAccounts, Request))
    ensures
        r.0.limit == limit,
        r.1 == (Request::ListNonarchivedAccounts { limit }),
{
    (ListAccounts { limit }, Request::ListNonarchivedAccounts { limit })
}

impl ListAccounts {
    /// Finishes the listing with the database's answer: the rows as found.
    pub fn finish(self, reply: Reply) -> (r: Result<Vec<Account>, CoreError>)
        requires
            reply.fits(ReplyKind::Accounts),
        ensures
            match reply {
                Reply::Accounts(v) => r == Ok::<Vec<Account>, CoreError>(v),
                Reply::Failed(e) => r == Err::<Vec<Account>, CoreError>(CoreError::Database(e)),
                _ => false,
            },
    {
        match reply {
            Reply::Accounts(v) => Ok(v),
            Reply::Failed(e) => Err(CoreError::Database(e)),
            _ => {
                assert(false);
                Ok(Vec::new())
            },
        }
    }
}

/// `row` holds the values that creating an account from `input` binds,
/// for the new id `id` stamped at `now`: the name trimmed, the currency
/// trimmed and upper-cased, the type as its stored text, no archive time.
pub open spec fn is_new_account_row(row: NewAccountRow, input: CreateAccount, id: u128, now: String) -> bool {
    &&& row.account_id@ == id_chars(id)
    &&& row.account_name@ == trim_chars(input.account_name@)
    &&& is_id_text_of(row.parent_account_id, input.parent_account_id)
    &&& row.account_type@ == account_type_chars(input.account_type)
    &&& row.account_currency@ == uppercase_chars(trim_chars(input.account_currency@))
    &&& row.account_sort_order == input.account_sort_order
    &&& row.account_notes == input.account_notes
    &&& row.account_created_datetime == now
}

/// The values to insert for a new account built from `input`.
pub fn new_account_row(input: CreateAccount, id: u128, now: String) -> (row: NewAccountRow)
    ensures
        is_new_account_row(row, input, id, now),
{
    let name = trim_text(input.account_name.as_str()).to_owned();
    let currency = uppercase_text(trim_text(input.account_currency.as_str()));
    NewAccountRow {
        account_id: id_text(id),
        account_name: name,
        parent_account_id: optional_id_text(input.parent_account_id),
        account_type: input.account_type.to_text(),
        account_currency: currency,
        account_sort_order: input.account_sort_order,
        account_notes: input.account_notes,
        account_created_datetime: now,
    }
}

/// Where the creation of an account stands.
pub enum CreateAccountStage {
    /// The input passed its own checks; the parent account is being read.
    AwaitParent { input: CreateAccount },
    /// The new row `account_id` is being inserted.
    AwaitInsert { account_id: u128 },
    /// The new row `account_id` is being read back.
    AwaitReload { account_id: u128 },
}

/// The creation of an account, one database request at a time.
pub struct CreateAccountFlow {
    stage: CreateAccountStage,
}

/// What starting the creation of an account from `input` does: a blank name
/// or a blank currency is refused; an account with a parent first reads the
/// parent; one without is inserted at once.
pub open spec fn is_create_account_start(input: CreateAccount, fresh: Fresh, r: Next<CreateAccountFlow, Account>) -> bool {
    if is_blank(input.account_name@) {
        r matches Next::Done(res) && is_validation_error(res, "account_name cannot be empty!"@)
    } else if is_blank(input.account_currency@) {
        r matches Next::Done(res) && is_validation_error(res, "account_currency cannot be empty!"@)
    } else {
        match input.parent_account_id {
            Some(p) => r matches Next::Ask(f, req) && f.stage() == (CreateAccountStage::AwaitParent { input })
                && loads_account(req, p),
            None => r matches Next::Ask(f, Request::InsertAccount(row))
                && f.stage() == (CreateAccountStage::AwaitInsert { account_id: fresh.id })
                && is_new_account_row(row, input, fresh.id, fresh.now),
        }
    }
}

/// Starts creating an account; `fresh` gives the id and time the new row
/// gets if it is inserted at once.
pub fn create_account(input: CreateAccount, fresh: &Fresh) -> (r: Next<CreateAccountFlow, Account>)
    ensures
        is_create_account_start(input, *fresh, r),
        r matches Next::Ask(f, req) ==> req.answer_kind() == f.awaits(),
        r matches Next::Ask(_, Request::InsertAccount(_)) ==> {
            &&& !is_blank(input.account_name@)
            &&& !is_blank(input.account_currency@)
            &&& input.parent_account_id is None
        },
{
    if trim_text(input.account_name.as_str()).is_empty() {
        return Next::Done(validation_failure("account_name cannot be empty!"));
    }
    if trim_text(input.account_currency.as_str()).is_empty() {
        return Next::Done(validation_failure("account_currency cannot be empty!"));
    }
    match input.parent_account_id {
        Some(p) => {
            let req = Request::LoadAccount { account_id: id_text(p) };
            Next::Ask(CreateAccountFlow { stage: CreateAccountStage::AwaitParent { input } }, req)
        },
        None => {
            let id = fresh.id;
            let row = new_account_row(input, id, fresh.now.clone());
            Next::Ask(
                CreateAccountFlow { stage: CreateAccountStage::AwaitInsert { account_id: id } },
                Request::InsertAccount(row),
            )
        },
    }
}

impl CreateAccountFlow {
    /// An input waiting for its parent has passed its own checks.
    #[verifier::type_invariant]
    spec fn checked(self) -> bool {
        match self.stage {
            CreateAccountStage::AwaitParent { input } => {
                &&& !is_blank(input.account_name@)
                &&& !is_blank(input.account_currency@)
                &&& input.parent_account_id is Some
            },
            _ => true,
        }
    }

    /// Where the flow stands.
    pub closed spec fn stage(self) -> CreateAccountStage {
        self.stage
    }

    /// The shape of the answer the flow waits for.
    pub open spec fn awaits(self) -> ReplyKind {
        match self.stage() {
            CreateAccountStage::AwaitParent { .. } => ReplyKind::Account,
            CreateAccountStage::AwaitInsert { .. } => ReplyKind::Executed,
            CreateAccountStage::AwaitReload { .. } => ReplyKind::Account,
        }
    }

    /// The shape of the answer the flow waits for.
    pub fn awaited_reply(&self) -> (k: ReplyKind)
        ensures
            k == self.awaits(),
    {
        match self.stage {
            CreateAccountStage::AwaitParent { .. } => ReplyKind::Account,
            CreateAccountStage::AwaitInsert { .. } => ReplyKind::Executed,
            CreateAccountStage::AwaitReload { .. } => ReplyKind::Account,
        }
    }

    /// An insert may follow this step: the input's name and currency are
    /// not blank, and its parent exists and is not archived.
    pub open spec fn allows_insert(self, reply: Reply) -> bool {
        match self.stage() {
            CreateAccountStage::AwaitParent { input } => {
                &&& !is_blank(input.account_name@)
                &&& !is_blank(input.account_currency@)
                &&& reply matches Reply::Account(Some(parent)) && !parent.is_archived()
            },
            _ => false,
        }
    }

    /// What one step of the creation does with the database's answer: a
    /// missing or archived parent is refused; an active parent lets the
    /// row be inserted; after the insert the new row is read back and
    /// returned as the database holds it.
    pub open spec fn is_step(self, reply: Reply, fresh: Fresh, r: Next<CreateAccountFlow, Account>) -> bool {
        match self.stage() {
            CreateAccountStage::AwaitParent { input } => match reply {
                Reply::Account(Some(parent)) => if parent.is_archived() {
                    r matches Next::Done(res)
                        && is_validation_error(res, "cannot assign a child account to an archived parent!"@)
                } else {
                    r matches Next::Ask(f, Request::InsertAccount(row))
                        && f.stage() == (CreateAccountStage::AwaitInsert { account_id: fresh.id })
                        && is_new_account_row(row, input, fresh.id, fresh.now)
                },
                Reply::Account(None) => r matches Next::Done(res)
                    && is_not_found_error(res, account_not_found_message(input.parent_account_id->0)),
                Reply::Failed(e) => r == Next::<CreateAccountFlow, Account>::Done(Err(CoreError::Database(e))),
                _ => false,
            },
            CreateAccountStage::AwaitInsert { account_id } => match reply {
                Reply::Executed => r matches Next::Ask(f, req)
                    && f.stage() == (CreateAccountStage::AwaitReload { account_id })
                    && loads_account(req, account_id),
                Reply::Failed(e) => r == Next::<CreateAccountFlow, Account>::Done(Err(CoreError::Database(e))),
                _ => false,
            },
            CreateAccountStage::AwaitReload { account_id } =>
                r matches Next::Done(res) && is_account_load_outcome(account_id, reply, res),
        }
    }

    /// Hands the database's answer to the flow; `fresh` gives the id and
    /// time of the new row if this step inserts it.
    pub fn step(self, reply: Reply, fresh: &Fresh) -> (r: Next<CreateAccountFlow, Account>)
        requires
            reply.fits(self.awaits()),
        ensures
            self.is_step(reply, *fresh, r),
            r matches Next::Ask(f, req) ==> req.answer_kind() == f.awaits(),
            r matches Next::Ask(_, Request::InsertAccount(_)) ==> self.allows_insert(reply),
    {
        proof {
            use_type_invariant(&self);
        }
        match self.stage {
            CreateAccountStage::AwaitParent { input } => match reply {
                Reply::Account(Some(parent)) => {
                    if parent.account_archived_datetime.is_some() {
                        Next::Done(validation_failure("cannot assign a child account to an archived parent!"))
                    } else {
                        let id = fresh.id;
                        let row = new_account_row(input, id, fresh.now.clone());
                        Next::Ask(
                            CreateAccountFlow { stage: CreateAccountStage::AwaitInsert { account_id: id } },
                            Request::InsertAccount(row),
                        )
                    }
                },
                Reply::Account(None) => {
                    let p = match input.parent_account_id {
                        Some(p) => p,
                        None => 0,
                    };
                    Next::Done(Err(account_not_found(p)))
                },
                Reply::Failed(e) => Next::Done(Err(CoreError::Database(e))),
                _ => {
                    assert(false);
                    Next::Done(validation_failure(""))
                },
            },
            CreateAccountStage::AwaitInsert { account_id } => match reply {
                Reply::Executed => {
                    let req = Request::LoadAccount { account_id: id_text(account_id) };
                    Next::Ask(CreateAccountFlow { stage: CreateAccountStage::AwaitReload { account_id } }, req)
                },
                Reply::Failed(e) => Next::Done(Err(CoreError::Database(e))),
                _ => {
                    assert(false);
                    Next::Done(validation_failure(""))
                },
            },
            CreateAccountStage::AwaitReload { account_id } => {
                Next::Done(GetAccount { account_id }.finish(reply))
            },
        }
    }
}

/// `c` holds the values that updating account `id` with `input` writes:
/// each field given in `input` replaces the one of `existing`, every other
/// field keeps its value; a given currency is trimmed and upper-cased.
pub open spec fn is_account_changes(c: AccountChanges, id: u128, existing: Account, input: UpdateAccount) -> bool {
    &&& c.account_id@ == id_chars(id)
    &&& c.account_name == match input.account_name {
        Some(n) => n,
        None => existing.account_name,
    }
    &&& match input.parent_account_id {
        Some(p) => is_id_text_of(c.parent_account_id, p),
        None => is_id_text_of(c.parent_account_id, existing.parent_account_id),
    }
    &&& c.account_type@ == account_type_chars(
        match input.account_type {
            Some(t) => t,
            None => existing.account_type,
        },
    )
    &&& match input.account_currency {
        Some(cur) => c.account_currency@ == uppercase_chars(trim_chars(cur@)),
        None => c.account_currency == existing.account_currency,
    }
    &&& c.account_sort_order == match input.account_sort_order {
        Some(o) => o,
        None => existing.account_sort_order,
    }
    &&& c.account_notes == match input.account_notes {
        Some(v) => v,
        None => existing.account_notes,
    }
}

/// The values to write when account `account_id`, now `existing`, is
/// updated with `input`.
pub fn account_changes(account_id: u128, existing: Account, input: UpdateAccount) -> (c: AccountChanges)
    ensures
        is_account_changes(c, account_id, existing, input),
{
    let name = match input.account_name {
        Some(n) => n,
        None => existing.account_name,
    };
    let parent = match input.parent_account_id {
        Some(v) => optional_id_text(v),
        None => optional_id_text(existing.parent_account_id),
    };
    let account_type = match input.account_type {
        Some(t) => t,
        None => existing.account_type,
    };
    let currency = match input.account_currency {
        Some(cur) => uppercase_text(trim_text(cur.as_str())),
        None => existing.account_currency,
    };
    let sort_order = match input.account_sort_order {
        Some(o) => o,
        None => existing.account_sort_order,
    };
    let notes = match input.account_notes {
        Some(v) => v,
        None => existing.account_notes,
    };
    AccountChanges {
        account_id: id_text(account_id),
        account_name: name,
        parent_account_id: parent,
        account_type: account_type.to_text(),
        account_currency: currency,
        account_sort_order: sort_order,
        account_notes: notes,
    }
}

/// An update that gives no field writes the account back as it is: same
/// name, parent, type, currency, sort order and notes.
pub proof fn lemma_empty_update_keeps_account(
    c: AccountChanges,
    id: u128,
    existing: Account,
    input: UpdateAccount,
)
    requires
        is_account_changes(c, id, existing, input),
        input.account_name is None,
        input.parent_account_id is None,
        input.account_type is None,
        input.account_currency is None,
        input.account_sort_order is None,
        input.account_notes is None,
    ensures
        c.account_name == existing.account_name,
        is_id_text_of(c.parent_account_id, existing.parent_account_id),
        c.account_type@ == account_type_chars(existing.account_type),
        c.account_currency == existing.account_currency,
        c.account_sort_order == existing.account_sort_order,
        c.account_notes == existing.account_notes,
{
}

/// Where the update of an account stands.
pub enum UpdateAccountStage {
    /// The account being updated is being read.
    AwaitExisting { account_id: u128, input: UpdateAccount },
    /// The checks on the account passed; the new parent is being read.
    AwaitParent { account_id: u128, input: UpdateAccount, existing: Account },
    /// The new values are being written.
    AwaitWrite { account_id: u128 },
    /// The updated row is being read back.
    AwaitReload { account_id: u128 },
}

/// The update of an account, one database request at a time.
pub struct UpdateAccountFlow {
    stage: UpdateAccountStage,
}

/// The checks that `input` passes against the account as it now is,
/// `existing`, before any parent is read: the account is not archived and a
/// given name is not blank.
pub open spec fn update_passes_own_checks(existing: Account, input: UpdateAccount) -> bool {
    &&& !existing.is_archived()
    &&& !(input.account_name matches Some(n) && is_blank(n@))
}

/// Starts updating the account `account_id` with `input`: the account is
/// read first.
pub fn update_account(account_id: u128, input: UpdateAccount) -> (r: (UpdateAccountFlow, Request))
    ensures
        r.0.stage() == (UpdateAccountStage::AwaitExisting { account_id, input }),
        loads_account(r.1, account_id),
        r.1.answer_kind() == r.0.awaits(),
{
    let req = Request::LoadAccount { account_id: id_text(account_id) };
    (UpdateAccountFlow { stage: UpdateAccountStage::AwaitExisting { account_id, input } }, req)
}

impl UpdateAccountFlow {
    /// A flow waiting for a new parent has passed every other check.
    #[verifier::type_invariant]
    spec fn checked(self) -> bool {
        match self.stage {
            UpdateAccountStage::AwaitParent { account_id, input, existing } => {
                &&& update_passes_own_checks(existing, input)
                &&& input.parent_account_id matches Some(Some(p)) && p != account_id
            },
            _ => true,
        }
    }

    /// Where the flow stands.
    pub closed spec fn stage(self) -> UpdateAccountStage {
        self.stage
    }

    /// The shape of the answer the flow waits for.
    pub open spec fn awaits(self) -> ReplyKind {
        match self.stage() {
            UpdateAccountStage::AwaitWrite { .. } => ReplyKind::Executed,
            _ => ReplyKind::Account,
        }
    }

    /// The shape of the answer the flow waits for.
    pub fn awaited_reply(&self) -> (k: ReplyKind)
        ensures
            k == self.awaits(),
    {
        match self.stage {
            UpdateAccountStage::AwaitWrite { .. } => ReplyKind::Executed,
            _ => ReplyKind::Account,
        }
    }

    /// A write may follow this step: the account exists and is not
    /// archived, a given name is not blank, and a new parent is another
    /// account that exists and is not archived.
    pub open spec fn allows_write(self, reply: Reply) -> bool {
        match self.stage() {
            UpdateAccountStage::AwaitExisting { account_id, input } => {
                &&& reply matches Reply::Account(Some(existing)) && update_passes_own_checks(existing, input)
                &&& !(input.parent_account_id matches Some(Some(_)))
            },
            UpdateAccountStage::AwaitParent { account_id, input, existing } => {
                &&& update_passes_own_checks(existing, input)
                &&& input.parent_account_id matches Some(Some(p)) && p != account_id
                &&& reply matches Reply::Account(Some(parent)) && !parent.is_archived()
            },
            _ => false,
        }
    }

    /// What one step of the update does with the database's answer.
    pub open spec fn is_step(self, reply: Reply, r: Next<UpdateAccountFlow, Account>) -> bool {
        match self.stage() {
            UpdateAccountStage::AwaitExisting { account_id, input } => match reply {
                Reply::Account(Some(existing)) => if existing.is_archived() {
                    r matches Next::Done(res) && is_validation_error(res, "Cannot update an archived account!"@)
                } else if input.account_name matches Some(n) && is_blank(n@) {
                    r matches Next::Done(res)
                        && is_validation_error(res, "account_name cannot be empty on update!"@)
                } else {
                    match input.parent_account_id {
                        Some(Some(p)) => if p == account_id {
                            r matches Next::Done(res) && is_validation_error(
                                res,
                                "An account cannot be updated to be its own parent!"@,
                            )
                        } else {
                            r matches Next::Ask(f, req)
                                && f.stage() == (UpdateAccountStage::AwaitParent { account_id, input, existing })
                                && loads_account(req, p)
                        },
                        _ => r matches Next::Ask(f, Request::UpdateAccount(c))
                            && f.stage() == (UpdateAccountStage::AwaitWrite { account_id })
                            && is_account_changes(c, account_id, existing, input),
                    }
                },
                Reply::Account(None) => r matches Next::Done(res)
                    && is_not_found_error(res, account_not_found_message(account_id)),
                Reply::Failed(e) => r == Next::<UpdateAccountFlow, Account>::Done(Err(CoreError::Database(e))),
                _ => false,
            },
            UpdateAccountStage::AwaitParent { account_id, input, existing } => match reply {
                Reply::Account(Some(parent)) => if parent.is_archived() {
                    r matches Next::Done(res) && is_validation_error(
                        res,
                        "Cannot update a child account to an archived parent account!"@,
                    )
                } else {
                    r matches Next::Ask(f, Request::UpdateAccount(c))
                        && f.stage() == (UpdateAccountStage::AwaitWrite { account_id })
                        && is_account_changes(c, account_id, existing, input)
                },
                Reply::Account(None) => r matches Next::Done(res)
                    && is_not_found_error(res, account_not_found_message(input.parent_account_id->0->0)),
                Reply::Failed(e) => r == Next::<UpdateAccountFlow, Account>::Done(Err(CoreError::Database(e))),
                _ => false,
            },
            UpdateAccountStage::AwaitWrite { account_id } => match reply {
                Reply::Executed => r matches Next::Ask(f, req)
                    && f.stage() == (UpdateAccountStage::AwaitReload { account_id })
                    && loads_account(req, account_id),
                Reply::Failed(e) => r == Next::<UpdateAccountFlow, Account>::Done(Err(CoreError::Database(e))),
                _ => false,
            },
            UpdateAccountStage::AwaitReload { account_id } =>
                r matches Next::Done(res) && is_account_load_outcome(account_id, reply, res),
        }
    }

    /// Hands the database's answer to the flow.
    pub fn step(self, reply: Reply) -> (r: Next<UpdateAccountFlow, Account>)
        requires
            reply.fits(self.awaits()),
        ensures
            self.is_step(reply, r),
            r matches Next::Ask(f, req) ==> req.answer_kind() == f.awaits(),
            r matches Next::Ask(_, Request::UpdateAccount(_)) ==> self.allows_write(reply),
    {
        proof {
            use_type_invariant(&self);
        }
        match self.stage {
            UpdateAccountStage::AwaitExisting { account_id, input } => match reply {
                Reply::Account(Some(existing)) => {
                    if existing.account_archived_datetime.is_some() {
                        return Next::Done(validation_failure("Cannot update an archived account!"));
                    }
                    let name_blank = match &input.account_name {
                        Some(n) => trim_text(n.as_str()).is_empty(),
                        None => false,
                    };
                    if name_blank {
                        return Next::Done(validation_failure("account_name cannot be empty on update!"));
                    }
                    match input.parent_account_id {
                        Some(Some(p)) => {
                            if p == account_id {
                                Next::Done(validation_failure("An account cannot be updated to be its own parent!"))
                            } else {
                                let req = Request::LoadAccount { account_id: id_text(p) };
                                Next::Ask(
                                    UpdateAccountFlow {
                                        stage: UpdateAccountStage::AwaitParent { account_id, input, existing },
                                    },
                                    req,
                                )
                            }
                        },
                        _ => {
                            let c = account_changes(account_id, existing, input);
                            Next::Ask(
                                UpdateAccountFlow { stage: UpdateAccountStage::AwaitWrite { account_id } },
                                Request::UpdateAccount(c),
                            )
                        },
                    }
                },
                Reply::Account(None) => Next::Done(Err(account_not_found(account_id))),
                Reply::Failed(e) => Next::Done(Err(CoreError::Database(e))),
                _ => {
                    assert(false);
                    Next::Done(validation_failure(""))
                },
            },
            UpdateAccountStage::AwaitParent { account_id, input, existing } => match reply {
                Reply::Account(Some(parent)) => {
                    if parent.account_archived_datetime.is_some() {
                        Next::Done(
                            validation_failure("Cannot update a child account to an archived parent account!"),
                        )
                    } else {
                        let c = account_changes(account_id, existing, input);
                        Next::Ask(
                            UpdateAccountFlow { stage: UpdateAccountStage::AwaitWrite { account_id } },
                            Request::UpdateAccount(c),
                        )
                    }
                },
                Reply::Account(None) => {
                    let p = match input.parent_account_id {
                        Some(Some(p)) => p,
                        _ => 0,
                    };
                    Next::Done(Err(account_not_found(p)))
                },
                Reply::Failed(e) => Next::Done(Err(CoreError::Database(e))),
                _ => {
                    assert(false);
                    Next::Done(validation_failure(""))
                },
            },
            UpdateAccountStage::AwaitWrite { account_id } => match reply {
                Reply::Executed => {
                    let req = Request::LoadAccount { account_id: id_text(account_id) };
                    Next::Ask(UpdateAccountFlow { stage: UpdateAccountStage::AwaitReload { account_id } }, req)
                },
                Reply::Failed(e) => Next::Done(Err(CoreError::Database(e))),
                _ => {
                    assert(false);
                    Next::Done(validation_failure(""))
                },
            },
            UpdateAccountStage::AwaitReload { account_id } => {
                Next::Done(GetAccount { account_id }.finish(reply))
            },
        }
    }
}

/// Where the archiving of an account stands.
pub enum ArchiveAccountStage {
    /// The account is being read.
    AwaitExisting { account_id: u128 },
    /// The account, `existing`, is active; its active children are being counted.
    AwaitChildCount { account_id: u128, existing: Ghost<Account> },
    /// The account has no active children; its transaction splits are being counted.
    AwaitSplitCount { account_id: u128, existing: Ghost<Account>, active_children: Ghost<i64> },
    /// The archive time is being written.
    AwaitArchive { account_id: u128 },
    /// The archived row is being read back.
    AwaitReload { account_id: u128 },
}

/// The archiving (soft deletion) of an account, one database request at a
/// time.
pub struct ArchiveAccountFlow {
    stage: ArchiveAccountStage,
}

/// Starts archiving the account `account_id`: the account is read first.
pub fn archive_account(account_id: u128) -> (r: (ArchiveAccountFlow, Request))
    ensures
        r.0.stage() == (ArchiveAccountStage::AwaitExisting { account_id }),
        loads_account(r.1, account_id),
        r.1.answer_kind() == r.0.awaits(),
{
    let req = Request::LoadAccount { account_id: id_text(account_id) };
    (ArchiveAccountFlow { stage: ArchiveAccountStage::AwaitExisting { account_id } }, req)
}

impl ArchiveAccountFlow {
    /// The facts recorded along the way were checked when they were seen.
    #[verifier::type_invariant]
    spec fn checked(self) -> bool {
        match self.stage {
            ArchiveAccountStage::AwaitChildCount { existing, .. } => !existing@.is_archived(),
            ArchiveAccountStage::AwaitSplitCount { existing, active_children, .. } => {
                &&& !existing@.is_archived()
                &&& active_children@ <= 0
            },
            _ => true,
        }
    }

    /// Where the flow stands.
    pub closed spec fn stage(self) -> ArchiveAccountStage {
        self.stage
    }

    /// The shape of the answer the flow waits for.
    pub open spec fn awaits(self) -> ReplyKind {
        match self.stage() {
            ArchiveAccountStage::AwaitChildCount { .. } => ReplyKind::Count,
            ArchiveAccountStage::AwaitSplitCount { .. } => ReplyKind::Count,
            ArchiveAccountStage::AwaitArchive { .. } => ReplyKind::Executed,
            _ => ReplyKind::Account,
        }
    }

    /// The shape of the answer the flow waits for.
    pub fn awaited_reply(&self) -> (k: ReplyKind)
        ensures
            k == self.awaits(),
    {
        match self.stage {
            ArchiveAccountStage::AwaitChildCount { .. } => ReplyKind::Count,
            ArchiveAccountStage::AwaitSplitCount { .. } => ReplyKind::Count,
            ArchiveAccountStage::AwaitArchive { .. } => ReplyKind::Executed,
            _ => ReplyKind::Account,
        }
    }

    /// The archive time may be written after this step: the account was
    /// found not archived, it has no active children, and this answer says
    /// it has no transaction splits.
    pub open spec fn allows_archive(self, reply: Reply) -> bool {
        match self.stage() {
            ArchiveAccountStage::AwaitSplitCount { existing, active_children, .. } => {
                &&& !existing@.is_archived()
                &&& active_children@ <= 0
                &&& reply matches Reply::Count(n) && n <= 0
            },
            _ => false,
        }
    }

    /// What one step of archiving does with the database's answer.
    pub open spec fn is_step(self, reply: Reply, fresh: Fresh, r: Next<ArchiveAccountFlow, Account>) -> bool {
        match self.stage() {
            ArchiveAccountStage::AwaitExisting { account_id } => match reply {
                Reply::Account(Some(existing)) => if existing.is_archived() {
                    r matches Next::Done(res)
                        && is_validation_error(res, "Cannot archive an already-archived account!"@)
                } else {
                    r matches Next::Ask(f, Request::CountActiveChildAccounts { account_id: t })
                        && f.stage() == (ArchiveAccountStage::AwaitChildCount { account_id, existing: Ghost(existing) })
                        && t@ == id_chars(account_id)
                },
                Reply::Account(None) => r matches Next::Done(res)
                    && is_not_found_error(res, account_not_found_message(account_id)),
                Reply::Failed(e) => r == Next::<ArchiveAccountFlow, Account>::Done(Err(CoreError::Database(e))),
                _ => false,
            },
            ArchiveAccountStage::AwaitChildCount { account_id, existing } => match reply {
                Reply::Count(n) => if n > 0 {
                    r matches Next::Done(res)
                        && is_validation_error(res, "Cannot archive an account with active children!"@)
                } else {
                    r matches Next::Ask(f, Request::CountAccountSplits { account_id: t })
                        && f.stage() == (ArchiveAccountStage::AwaitSplitCount {
                            account_id,
                            existing,
                            active_children: Ghost(n),
                        })
                        && t@ == id_chars(account_id)
                },
                Reply::Failed(e) => r == Next::<ArchiveAccountFlow, Account>::Done(Err(CoreError::Database(e))),
                _ => false,
            },
            ArchiveAccountStage::AwaitSplitCount { account_id, .. } => match reply {
                Reply::Count(n) => if n > 0 {
                    r matches Next::Done(res) && is_validation_error(
                        res,
                        "Cannot archive an account with recorded transactions; Either re-assign or re-consider!"@,
                    )
                } else {
                    r matches Next::Ask(f, Request::ArchiveAccount { account_id: t, archived_datetime: d })
                        && f.stage() == (ArchiveAccountStage::AwaitArchive { account_id })
                        && t@ == id_chars(account_id)
                        && d == fresh.now
                },
                Reply::Failed(e) => r == Next::<ArchiveAccountFlow, Account>::Done(Err(CoreError::Database(e))),
                _ => false,
            },
            ArchiveAccountStage::AwaitArchive { account_id } => match reply {
                Reply::Executed => r matches Next::Ask(f, req)
                    && f.stage() == (ArchiveAccountStage::AwaitReload { account_id })
                    && loads_account(req, account_id),
                Reply::Failed(e) => r == Next::<ArchiveAccountFlow, Account>::Done(Err(CoreError::Database(e))),
                _ => false,
            },
            ArchiveAccountStage::AwaitReload { account_id } =>
                r matches Next::Done(res) && is_account_load_outcome(account_id, reply, res),
        }
    }

    /// Hands the database's answer to the flow; `fresh` gives the archive
    /// time if this step writes it.
    pub fn step(self, reply: Reply, fresh: &Fresh) -> (r: Next<ArchiveAccountFlow, Account>)
        requires
            reply.fits(self.awaits()),
        ensures
            self.is_step(reply, *fresh, r),
            r matches Next::Ask(f, req) ==> req.answer_kind() == f.awaits(),
            r matches Next::Ask(_, Request::ArchiveAccount { .. }) ==> self.allows_archive(reply),
    {
        proof {
            use_type_invariant(&self);
        }
        match self.stage {
            ArchiveAccountStage::AwaitExisting { account_id } => match reply {
                Reply::Account(Some(existing)) => {
                    if existing.account_archived_datetime.is_some() {
                        Next::Done(validation_failure("Cannot archive an already-archived account!"))
                    } else {
                        let req = Request::CountActiveChildAccounts { account_id: id_text(account_id) };
                        Next::Ask(
                            ArchiveAccountFlow {
                                stage: ArchiveAccountStage::AwaitChildCount { account_id, existing: Ghost(existing) },
                            },
                            req,
                        )
                    }
                },
                Reply::Account(None) => Next::Done(Err(account_not_found(account_id))),
                Reply::Failed(e) => Next::Done(Err(CoreError::Database(e))),
                _ => {
                    assert(false);
                    Next::Done(validation_failure(""))
                },
            },
            ArchiveAccountStage::AwaitChildCount { account_id, existing } => match reply {
                Reply::Count(n) => {
                    if n > 0 {
                        Next::Done(validation_failure("Cannot archive an account with active children!"))
                    } else {
                        let req = Request::CountAccountSplits { account_id: id_text(account_id) };
                        Next::Ask(
                            ArchiveAccountFlow {
                                stage: ArchiveAccountStage::AwaitSplitCount {
                                    account_id,
                                    existing,
                                    active_children: Ghost(n),
                                },
                            },
                            req,
                        )
                    }
                },
                Reply::Failed(e) => Next::Done(Err(CoreError::Database(e))),
                _ => {
                    assert(false);
                    Next::Done(validation_failure(""))
                },
            },
            ArchiveAccountStage::AwaitSplitCount { account_id, .. } => match reply {
                Reply::Count(n) => {
                    if n > 0 {
                        Next::Done(
                            validation_failure(
                                "Cannot archive an account with recorded transactions; Either re-assign or re-consider!",
                            ),
                        )
                    } else {
                        let req = Request::ArchiveAccount {
                            account_id: id_text(account_id),
                            archived_datetime: fresh.now.clone(),
                        };
                        Next::Ask(ArchiveAccountFlow { stage: ArchiveAccountStage::AwaitArchive { account_id } }, req)
                    }
                },
                Reply::Failed(e) => Next::Done(Err(CoreError::Database(e))),
                _ => {
                    assert(false);
                    Next::Done(validation_failure(""))
                },
            },
            ArchiveAccountStage::AwaitArchive { account_id } => match reply {
                Reply::Executed => {
                    let req = Request::LoadAccount { account_id: id_text(account_id) };
                    Next::Ask(ArchiveAccountFlow { stage: ArchiveAccountStage::AwaitReload { account_id } }, req)
                },
                Reply::Failed(e) => Next::Done(Err(CoreError::Database(e))),
                _ => {
                    assert(false);
                    Next::Done(validation_failure(""))
                },
            },
            ArchiveAccountStage::AwaitReload { account_id } => {
                Next::Done(GetAccount { account_id }.finish(reply))
            },
        }
    }
}

/// Inserting the row for a new account keeps the accounts table consistent
/// when its name is not blank and its parent, if any, is an active account
/// of the table.
pub proof fn lemma_new_account_keeps_table(
    d: AccountTable,
    row: NewAccountRow,
    input: CreateAccount,
    id: u128,
    now: String,
)
    requires
        accounts_consistent(d),
        is_new_account_row(row, input, id, now),
        !is_blank(input.account_name@),
        input.parent_account_id matches Some(p) ==> d.contains_key(id_chars(p)) && d[id_chars(p)].archived is None,
    ensures
        accounts_consistent(accounts_after(d, Request::InsertAccount(row))),
{
    let key = row.account_id@;
    if !d.contains_key(key) {
        let d2 = accounts_after(d, Request::InsertAccount(row));
        lemma_trim_idempotent(input.account_name@);
        assert(text_of(row.parent_account_id) == id_text_of(input.parent_account_id));
        assert forall|k: Seq<char>| #[trigger] d2.contains_key(k) implies !is_blank(d2[k].name) && d2[k].parent
            != Some(k) by {
            if k != key {
                assert(d.contains_key(k));
            }
        }
        assert forall|k: Seq<char>|
            #[trigger] d2.contains_key(k) && d2[k].archived is None && d2[k].parent is Some implies {
                &&& d2.contains_key(d2[k].parent->0)
                &&& d2[d2[k].parent->0].archived is None
            } by {
            if k != key {
                assert(d.contains_key(k));
                assert(d.contains_key(d[k].parent->0));
            }
        }
    }
}

/// Rewriting account `account_id` with the changes built from `existing`
/// and `input` keeps the accounts table consistent when `existing` is the
/// stored row, it is active, the update passes its own checks, and a new
/// parent is another account that is active in the table.
pub proof fn lemma_account_changes_keep_table(
    d: AccountTable,
    c: AccountChanges,
    account_id: u128,
    existing: Account,
    input: UpdateAccount,
)
    requires
        accounts_consistent(d),
        is_account_changes(c, account_id, existing, input),
        d.contains_key(id_chars(account_id)),
        is_stored_form(existing, id_chars(account_id), d[id_chars(account_id)]),
        update_passes_own_checks(existing, input),
        input.parent_account_id matches Some(Some(p)) ==> {
            &&& p != account_id
            &&& d.contains_key(id_chars(p))
            &&& d[id_chars(p)].archived is None
        },
    ensures
        accounts_consistent(accounts_after(d, Request::UpdateAccount(c))),
{
    let key = id_chars(account_id);
    let d2 = accounts_after(d, Request::UpdateAccount(c));
    assert(c.account_id@ == key);
    let new_parent = text_of(c.parent_account_id);
    match input.parent_account_id {
        Some(Some(p)) => {
            assert(new_parent == Some(id_chars(p)));
            if id_chars(p) == key {
                lemma_id_chars_injective(p, account_id);
            }
        },
        Some(None) => {
            assert(new_parent is None);
        },
        None => {
            assert(new_parent == id_text_of(existing.parent_account_id));
            assert(new_parent == d[key].parent);
        },
    }
    assert(!is_blank(d2[key].name)) by {
        match input.account_name {
            Some(n) => {},
            None => {
                assert(d.contains_key(key));
            },
        }
    }
    assert forall|k: Seq<char>| #[trigger] d2.contains_key(k) implies !is_blank(d2[k].name) && d2[k].parent
        != Some(k) by {
        if k != key {
            assert(d.contains_key(k));
        }
    }
    assert forall|k: Seq<char>|
        #[trigger] d2.contains_key(k) && d2[k].archived is None && d2[k].parent is Some implies {
            &&& d2.contains_key(d2[k].parent->0)
            &&& d2[d2[k].parent->0].archived is None
        } by {
        if k != key {
            assert(d.contains_key(k));
            assert(d.contains_key(d[k].parent->0));
        } else {
            assert(d.contains_key(key));
        }
    }
}

/// Archiving the account `key` keeps the accounts table consistent when no
/// active account has it as parent.
pub proof fn lemma_archive_keeps_table(d: AccountTable, req: Request, key: Seq<char>)
    requires
        accounts_consistent(d),
        req matches Request::ArchiveAccount { account_id, .. } && account_id@ == key,
        has_no_active_children(d, key),
    ensures
        accounts_consistent(accounts_after(d, req)),
{
    let d2 = accounts_after(d, req);
    if d.contains_key(key) {
        assert forall|k: Seq<char>| #[trigger] d2.contains_key(k) implies !is_blank(d2[k].name) && d2[k].parent
            != Some(k) by {
            assert(d.contains_key(k));
        }
        assert forall|k: Seq<char>|
            #[trigger] d2.contains_key(k) && d2[k].archived is None && d2[k].parent is Some implies {
                &&& d2.contains_key(d2[k].parent->0)
                &&& d2[d2[k].parent->0].archived is None
            } by {
            assert(d.contains_key(k));
            assert(d.contains_key(d[k].parent->0));
        }
    }
}

/// Starting the creation of an account keeps a consistent accounts table
/// consistent, whatever it asks.
pub proof fn lemma_create_start_keeps_table(d: AccountTable, input: CreateAccount, fresh: Fresh, r: Next<CreateAccountFlow, Account>)
    requires
        accounts_consistent(d),
        is_create_account_start(input, fresh, r),
    ensures
        r matches Next::Ask(_, req) ==> accounts_consistent(accounts_after(d, req)),
{
    if let Next::Ask(_, Request::InsertAccount(row)) = r {
        lemma_new_account_keeps_table(d, row, input, fresh.id, fresh.now);
    }
}

impl CreateAccountFlow {
    /// The answer to the parent read that this flow waits for, if any, is
    /// true of table `d`.
    pub open spec fn read_agrees(self, d: AccountTable, reply: Reply) -> bool {
        match self.stage() {
            CreateAccountStage::AwaitParent { input } =>
                answers_load(d, id_chars(input.parent_account_id->0), reply),
            _ => true,
        }
    }
}

/// A step of creating an account keeps a consistent accounts table
/// consistent, whatever it asks, when the database answered truly.
pub proof fn lemma_create_step_keeps_table(
    d: AccountTable,
    flow: CreateAccountFlow,
    reply: Reply,
    fresh: Fresh,
    r: Next<CreateAccountFlow, Account>,
)
    requires
        accounts_consistent(d),
        flow.is_step(reply, fresh, r),
        flow.read_agrees(d, reply),
        r matches Next::Ask(_, Request::InsertAccount(_)) ==> flow.allows_insert(reply),
    ensures
        r matches Next::Ask(_, req) ==> accounts_consistent(accounts_after(d, req)),
{
    if let Next::Ask(_, Request::InsertAccount(row)) = r {
        if let CreateAccountStage::AwaitParent { input } = flow.stage() {
            lemma_new_account_keeps_table(d, row, input, fresh.id, fresh.now);
        }
    }
}

impl UpdateAccountFlow {
    /// The answers this flow has read so far, and the one it waits for, are
    /// true of table `d`.
    pub open spec fn reads_agree(self, d: AccountTable, reply: Reply) -> bool {
        match self.stage() {
            UpdateAccountStage::AwaitExisting { account_id, .. } =>
                answers_load(d, id_chars(account_id), reply),
            UpdateAccountStage::AwaitParent { account_id, input, existing } => {
                &&& d.contains_key(id_chars(account_id))
                &&& is_stored_form(existing, id_chars(account_id), d[id_chars(account_id)])
                &&& answers_load(d, id_chars(input.parent_account_id->0->0), reply)
            },
            _ => true,
        }
    }
}

/// A step of updating an account keeps a consistent accounts table
/// consistent, whatever it asks, when the database answered truly.
pub proof fn lemma_update_step_keeps_table(
    d: AccountTable,
    flow: UpdateAccountFlow,
    reply: Reply,
    r: Next<UpdateAccountFlow, Account>,
)
    requires
        accounts_consistent(d),
        flow.is_step(reply, r),
        flow.reads_agree(d, reply),
        r matches Next::Ask(_, Request::UpdateAccount(_)) ==> flow.allows_write(reply),
    ensures
        r matches Next::Ask(_, req) ==> accounts_consistent(accounts_after(d, req)),
{
    if let Next::Ask(_, Request::UpdateAccount(c)) = r {
        match flow.stage() {
            UpdateAccountStage::AwaitExisting { account_id, input } => {
                if let Reply::Account(Some(existing)) = reply {
                    lemma_account_changes_keep_table(d, c, account_id, existing, input);
                }
            },
            UpdateAccountStage::AwaitParent { account_id, input, existing } => {
                lemma_account_changes_keep_table(d, c, account_id, existing, input);
            },
            _ => {},
        }
    }
}

impl ArchiveAccountFlow {
    /// The count of active children this flow recorded was true of table `d`.
    pub open spec fn counts_agree(self, d: AccountTable) -> bool {
        match self.stage() {
            ArchiveAccountStage::AwaitSplitCount { account_id, active_children, .. } =>
                active_children@ <= 0 ==> has_no_active_children(d, id_chars(account_id)),
            _ => true,
        }
    }
}

/// A step of archiving an account keeps a consistent accounts table
/// consistent, whatever it asks, when the database answered truly.
pub proof fn lemma_archive_step_keeps_table(
    d: AccountTable,
    flow: ArchiveAccountFlow,
    reply: Reply,
    fresh: Fresh,
    r: Next<ArchiveAccountFlow, Account>,
)
    requires
        accounts_consistent(d),
        flow.is_step(reply, fresh, r),
        flow.counts_agree(d),
        r matches Next::Ask(_, Request::ArchiveAccount { .. }) ==> flow.allows_archive(reply),
    ensures
        r matches Next::Ask(_, req) ==> accounts_consistent(accounts_after(d, req)),
{
    if let Next::Ask(_, req) = r {
        if let Request::ArchiveAccount { account_id: t, .. } = req {
            if let ArchiveAccountStage::AwaitSplitCount { account_id, .. } = flow.stage() {
                lemma_archive_keeps_table(d, req, id_chars(account_id));
            }
        }
    }
}

/// Reading an account back after it was created gives the row inserted:
/// when the new id was not yet a key of the table, a true answer, from the
/// table after the insert, to a read of that id finishes the read with the
/// account as inserted.
pub proof fn lemma_created_account_reads_back(
    d: AccountTable,
    row: NewAccountRow,
    id: u128,
    reply: Reply,
    r: Result<Account, CoreError>,
)
    requires
        !d.contains_key(row.account_id@),
        row.account_id@ == id_chars(id),
        answers_load(accounts_after(d, Request::InsertAccount(row)), id_chars(id), reply),
        reply is Account,
        is_account_load_outcome(id, reply, r),
    ensures
        r matches Ok(a) && a.account_id == id && is_stored_form(a, id_chars(id), stored_account_of_row(row)),
{
    if let Reply::Account(Some(a)) = reply {
        lemma_id_chars_injective(a.account_id, id);
    }
}

/// Repeating an update with the same input changes nothing: after the first
/// update's values are written, the second update, built from the row as
/// read back, writes the same values, and its own checks pass whenever the
/// first one's did.
pub proof fn lemma_repeated_update_changes_nothing(
    d: AccountTable,
    account_id: u128,
    input: UpdateAccount,
    existing: Account,
    c: AccountChanges,
    existing2: Account,
    c2: AccountChanges,
)
    requires
        d.contains_key(id_chars(account_id)),
        is_stored_form(existing, id_chars(account_id), d[id_chars(account_id)]),
        is_account_changes(c, account_id, existing, input),
        is_stored_form(
            existing2,
            id_chars(account_id),
            accounts_after(d, Request::UpdateAccount(c))[id_chars(account_id)],
        ),
        is_account_changes(c2, account_id, existing2, input),
    ensures
        accounts_after(accounts_after(d, Request::UpdateAccount(c)), Request::UpdateAccount(c2))
            == accounts_after(d, Request::UpdateAccount(c)),
        update_passes_own_checks(existing, input) ==> update_passes_own_checks(existing2, input),
{
    let key = id_chars(account_id);
    let d1 = accounts_after(d, Request::UpdateAccount(c));
    assert(c.account_id@ == key && c2.account_id@ == key);
    assert(d1.contains_key(key));
    let d2 = accounts_after(d1, Request::UpdateAccount(c2));
    assert(text_of(c2.parent_account_id) == text_of(c.parent_account_id)) by {
        match input.parent_account_id {
            Some(p) => {},
            None => {},
        }
    }
    assert(c2.account_name@ == c.account_name@);
    assert(c2.account_type@ == c.account_type@);
    assert(c2.account_currency@ == c.account_currency@);
    assert(text_of(c2.account_notes) == text_of(c.account_notes));
    assert(d2[key] == d1[key]);
    assert(d2 =~= d1);
}

/// A field given in an update replaces the stored one, whatever the stored
/// row holds; a field not given keeps the stored one. The written name,
/// sort order and notes are the given ones; a given parent is written as
/// its id text (or cleared); a given type as its stored text; a given
/// currency trimmed and upper-cased.
pub proof fn lemma_update_writes_given_fields(
    c: AccountChanges,
    id: u128,
    existing: Account,
    input: UpdateAccount,
)
    requires
        is_account_changes(c, id, existing, input),
    ensures
        c.account_id@ == id_chars(id),
        input.account_name matches Some(n) ==> c.account_name == n,
        input.account_name is None ==> c.account_name == existing.account_name,
        input.parent_account_id matches Some(Some(p)) ==> (c.parent_account_id matches Some(t) && t@
            == id_chars(p)),
        input.parent_account_id matches Some(None) ==> c.parent_account_id is None,
        input.parent_account_id is None ==> text_of(c.parent_account_id) == id_text_of(
            existing.parent_account_id,
        ),
        input.account_type matches Some(t) ==> c.account_type@ == account_type_chars(t),
        input.account_type is None ==> c.account_type@ == account_type_chars(existing.account_type),
        input.account_currency matches Some(cur) ==> c.account_currency@ == uppercase_chars(
            trim_chars(cur@),
        ),
        input.account_currency is None ==> c.account_currency == existing.account_currency,
        input.account_sort_order matches Some(o) ==> c.account_sort_order == o,
        input.account_sort_order is None ==> c.account_sort_order == existing.account_sort_order,
        input.account_notes matches Some(v) ==> c.account_notes == v,
        input.account_notes is None ==> c.account_notes == existing.account_notes,
{
}

/// Two updates with the same input write the same value for every field the
/// input gives, whatever the two stored rows were.
pub proof fn lemma_update_given_fields_ignore_stored_row(
    c1: AccountChanges,
    c2: AccountChanges,
    id: u128,
    existing1: Account,
    existing2: Account,
    input: UpdateAccount,
)
    requires
        is_account_changes(c1, id, existing1, input),
        is_account_changes(c2, id, existing2, input),
    ensures
        c1.account_id@ == c2.account_id@,
        input.account_name is Some ==> c1.account_name == c2.account_name,
        input.parent_account_id is Some ==> text_of(c1.parent_account_id) == text_of(c2.parent_account_id),
        input.account_type is Some ==> c1.account_type@ == c2.account_type@,
        input.account_currency is Some ==> c1.account_currency@ == c2.account_currency@,
        input.account_sort_order is Some ==> c1.account_sort_order == c2.account_sort_order,
        input.account_notes is Some ==> c1.account_notes == c2.account_notes,
{
    lemma_update_writes_given_fields(c1, id, existing1, input);
    lemma_update_writes_given_fields(c2, id, existing2, input);
}

/// The row inserted for a new account binds what the user gave: the id drawn,
/// the name trimmed, the parent as its id text (none when none was given),
/// the type as its stored text, the currency trimmed and upper-cased, the
/// sort order and the notes as given, and the creation time drawn.
pub proof fn lemma_new_account_row_binds_input(row: NewAccountRow, input: CreateAccount, id: u128, now: String)
    requires
        is_new_account_row(row, input, id, now),
    ensures
        row.account_id@ == id_chars(id),
        row.account_name@ == trim_chars(input.account_name@),
        row.parent_account_id is None <==> input.parent_account_id is None,
        input.parent_account_id matches Some(p) ==> (row.parent_account_id matches Some(t) && t@
            == id_chars(p)),
        row.account_type@ == account_type_chars(input.account_type),
        row.account_currency@ == uppercase_chars(trim_chars(input.account_currency@)),
        row.account_sort_order == input.account_sort_order,
        row.account_notes == input.account_notes,
        row.account_created_datetime == now,
{
}

/// Archiving refuses an archived account, an account with active children
/// and an account with recorded transactions, and never stamps one of them:
/// a positive count finishes the flow with its error; a count of zero or
/// less moves on, and the count recorded for the next step is the one the
/// database answered.
pub proof fn lemma_archive_refusals(flow: ArchiveAccountFlow, reply: Reply, fresh: Fresh, r: Next<ArchiveAccountFlow, Account>)
    requires
        flow.is_step(reply, fresh, r),
    ensures
        match flow.stage() {
            ArchiveAccountStage::AwaitExisting { .. } => match reply {
                Reply::Account(Some(a)) => a.is_archived() ==> (r matches Next::Done(res)
                    && is_validation_error(res, "Cannot archive an already-archived account!"@)),
                _ => true,
            },
            ArchiveAccountStage::AwaitChildCount { .. } => match reply {
                Reply::Count(n) => {
                    &&& n > 0 ==> (r matches Next::Done(res)
                        && is_validation_error(res, "Cannot archive an account with active children!"@))
                    &&& r matches Next::Ask(f, req) ==> {
                        &&& n <= 0
                        &&& req is CountAccountSplits
                        &&& (f.stage() matches ArchiveAccountStage::AwaitSplitCount { active_children, .. }
                            && active_children@ == n)
                    }
                },
                _ => true,
            },
            ArchiveAccountStage::AwaitSplitCount { .. } => match reply {
                Reply::Count(n) => n > 0 ==> (r matches Next::Done(res) && is_validation_error(
                    res,
                    "Cannot archive an account with recorded transactions; Either re-assign or re-consider!"@,
                )),
                _ => true,
            },
            _ => true,
        },
        r matches Next::Ask(_, Request::ArchiveAccount { .. }) ==> (flow.stage() is AwaitSplitCount
            && (reply matches Reply::Count(n) && n <= 0)),
{
}

/// Reading an account gives the row found, archived or not, and a
/// not-found error naming the id when there is none.
pub proof fn lemma_account_read_gives_row_found(id: u128, reply: Reply, r: Result<Account, CoreError>)
    requires
        is_account_load_outcome(id, reply, r),
    ensures
        reply matches Reply::Account(Some(a)) ==> r == Ok::<Account, CoreError>(a),
        reply matches Reply::Account(None) ==> (r matches Err(CoreError::NotFound(m)) && m@ == "account "@
            + id_chars(id) + " not found"@),
        reply matches Reply::Failed(e) ==> r == Err::<Account, CoreError>(CoreError::Database(e)),
{
}

} // verus!

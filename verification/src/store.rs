//! Models of the accounts and payees tables, and what each request does to
//! them.
//!
//! A table maps the text of an id to the row stored under it.
//! `accounts_after` and `payees_after` give a table after a request runs;
//! reads leave it as it is. `accounts_consistent` is the invariant of the table that the rules of
//! the store keep: every name is non-blank, no account is its own parent,
//! and every active account with a parent has an active parent.

use vstd::prelude::*;
use crate::db::{NewAccountRow, NewPayeeRow, Reply, Request};
use crate::models::{account_type_chars, Account, Payees};
use crate::text::{id_chars, is_blank};

verus! {

/// A row of the accounts table, as stored.
pub struct StoredAccount {
    pub name: Seq<char>,
    pub parent: Option<Seq<char>>,
    pub account_type: Seq<char>,
    pub currency: Seq<char>,
    pub sort_order: i32,
    pub notes: Option<Seq<char>>,
    pub created: Seq<char>,
    pub archived: Option<Seq<char>>,
}

/// The accounts table, keyed by the text of the account id.
pub type AccountTable = Map<Seq<char>, StoredAccount>;

/// The characters of an optional text.
pub open spec fn text_of(o: Option<String>) -> Option<Seq<char>> {
    match o {
        Some(s) => Some(s@),
        None => None,
    }
}

/// The stored text of an optional identifier.
pub open spec fn id_text_of(o: Option<u128>) -> Option<Seq<char>> {
    match o {
        Some(i) => Some(id_chars(i)),
        None => None,
    }
}

/// `a` is the row `s`, stored under the id text `key`, as read back.
pub open spec fn is_stored_form(a: Account, key: Seq<char>, s: StoredAccount) -> bool {
    &&& id_chars(a.account_id) == key
    &&& a.account_name@ == s.name
    &&& id_text_of(a.parent_account_id) == s.parent
    &&& account_type_chars(a.account_type) == s.account_type
    &&& a.account_currency@ == s.currency
    &&& a.account_sort_order == s.sort_order
    &&& text_of(a.account_notes) == s.notes
    &&& a.account_created_datetime@ == s.created
    &&& text_of(a.account_archived_datetime) == s.archived
}

/// The row that inserting `row` stores: the values bound, not archived.
pub open spec fn stored_account_of_row(row: NewAccountRow) -> StoredAccount {
    StoredAccount {
        name: row.account_name@,
        parent: text_of(row.parent_account_id),
        account_type: row.account_type@,
        currency: row.account_currency@,
        sort_order: row.account_sort_order,
        notes: text_of(row.account_notes),
        created: row.account_created_datetime@,
        archived: None,
    }
}

/// The table after `req` runs: an insert adds a row unless its id is taken
/// (then the statement fails and nothing changes), an update rewrites the
/// editable fields of the row if there is one, an archive stamps the row if
/// there is one; every other request leaves the table as it is.
pub open spec fn accounts_after(d: AccountTable, req: Request) -> AccountTable {
    match req {
        Request::InsertAccount(row) => if d.contains_key(row.account_id@) {
            d
        } else {
            d.insert(row.account_id@, stored_account_of_row(row))
        },
        Request::UpdateAccount(c) => if d.contains_key(c.account_id@) {
            d.insert(
                c.account_id@,
                StoredAccount {
                    name: c.account_name@,
                    parent: text_of(c.parent_account_id),
                    account_type: c.account_type@,
                    currency: c.account_currency@,
                    sort_order: c.account_sort_order,
                    notes: text_of(c.account_notes),
                    created: d[c.account_id@].created,
                    archived: d[c.account_id@].archived,
                },
            )
        } else {
            d
        },
        Request::ArchiveAccount { account_id, archived_datetime } => if d.contains_key(account_id@) {
            d.insert(account_id@, StoredAccount { archived: Some(archived_datetime@), ..d[account_id@] })
        } else {
            d
        },
        _ => d,
    }
}

/// The invariant of the accounts table: every name is non-blank, no account
/// is its own parent, and an active account's parent exists and is active.
pub open spec fn accounts_consistent(d: AccountTable) -> bool {
    &&& forall|k: Seq<char>| #[trigger] d.contains_key(k) ==> !is_blank(d[k].name) && d[k].parent != Some(k)
    &&& forall|k: Seq<char>|
        #[trigger] d.contains_key(k) && d[k].archived is None && d[k].parent is Some ==> {
            &&& d.contains_key(d[k].parent->0)
            &&& d[d[k].parent->0].archived is None
        }
}

/// `reply` is a true answer, from table `d`, to a read of the row `key`.
pub open spec fn answers_load(d: AccountTable, key: Seq<char>, reply: Reply) -> bool {
    match reply {
        Reply::Account(Some(a)) => d.contains_key(key) && is_stored_form(a, key, d[key]),
        Reply::Account(None) => !d.contains_key(key),
        _ => true,
    }
}

/// No active account in `d` has the account `key` as parent.
pub open spec fn has_no_active_children(d: AccountTable, key: Seq<char>) -> bool {
    forall|k: Seq<char>| #[trigger] d.contains_key(k) && d[k].archived is None ==> d[k].parent != Some(key)
}

/// A row of the payees table, as stored.
pub struct StoredPayee {
    pub name: Seq<char>,
    pub phone: Option<Seq<char>>,
    pub address: Option<Seq<char>>,
    pub website: Option<Seq<char>>,
    pub default_account: Option<Seq<char>>,
    pub created: Seq<char>,
}

/// The payees table, keyed by the text of the payee id.
pub type PayeeTable = Map<Seq<char>, StoredPayee>;

/// `p` is the row `s`, stored under the id text `key`, as read back.
pub open spec fn is_stored_payee(p: Payees, key: Seq<char>, s: StoredPayee) -> bool {
    &&& id_chars(p.payee_id) == key
    &&& p.payee_name@ == s.name
    &&& text_of(p.payee_phone) == s.phone
    &&& text_of(p.payee_address) == s.address
    &&& text_of(p.payee_website) == s.website
    &&& id_text_of(p.payee_default_account_id) == s.default_account
    &&& p.payee_created_datetime@ == s.created
}

/// The row that inserting `row` stores: the values bound.
pub open spec fn stored_payee_of_row(row: NewPayeeRow) -> StoredPayee {
    StoredPayee {
        name: row.payee_name@,
        phone: text_of(row.payee_phone),
        address: text_of(row.payee_address),
        website: text_of(row.payee_website),
        default_account: text_of(row.payee_default_account_id),
        created: row.payee_created_datetime@,
    }
}

/// The payees table after `req` runs: an insert adds a row unless its id is
/// taken, an update rewrites the fields of the row if there is one (its
/// creation time stays); every other request leaves the table as it is.
pub open spec fn payees_after(d: PayeeTable, req: Request) -> PayeeTable {
    match req {
        Request::InsertPayee(row) => if d.contains_key(row.payee_id@) {
            d
        } else {
            d.insert(row.payee_id@, stored_payee_of_row(row))
        },
        Request::UpdatePayee(c) => if d.contains_key(c.payee_id@) {
            d.insert(
                c.payee_id@,
                StoredPayee {
                    name: c.payee_name@,
                    phone: text_of(c.payee_phone),
                    address: text_of(c.payee_address),
                    website: text_of(c.payee_website),
                    default_account: text_of(c.payee_default_account_id),
                    created: d[c.payee_id@].created,
                },
            )
        } else {
            d
        },
        _ => d,
    }
}

/// `reply` is a true answer, from table `d`, to a read of the payee `key`.
pub open spec fn answers_payee_load(d: PayeeTable, key: Seq<char>, reply: Reply) -> bool {
    match reply {
        Reply::Payee(Some(p)) => d.contains_key(key) && is_stored_payee(p, key, d[key]),
        Reply::Payee(None) => !d.contains_key(key),
        _ => true,
    }
}

} // verus!

//! The rules of the HTTP interface: paging of listings, defaults of the
//! request bodies, and the status and message of an error response.

use vstd::prelude::*;
use crate::accounts::{is_account_changes, CreateAccount, UpdateAccount};
use crate::db::AccountChanges;
use crate::error::CoreError;
use crate::models::{Account, AccountType};
use crate::payees::{CreatePayee, UpdatePayee};

verus! {

/// Query parameters of a listing.
pub struct ListParams {
    /// Page number, starting at 1.
    pub page: i64,
    /// Rows per page, at most 1000.
    pub page_limit: i64,
}

/// The page asked for when none is given: the first.
pub fn default_page() -> (r: i64)
    ensures
        r == 1,
{
    1
}

/// The page size asked for when none is given: the largest.
pub fn default_limit() -> (r: i64)
    ensures
        r == 1000,
{
    1000
}

/// One page of a listing.
pub struct ListResponse<T> {
    pub payload: Vec<T>,
    pub page: i64,
    pub page_limit: i64,
    pub total_results: usize,
}

/// Query parameters of a search by name.
pub struct SearchParams {
    pub name: String,
    pub limit: i64,
}

/// The number of results asked for when none is given.
pub fn default_search_limit() -> (r: i64)
    ensures
        r == 20,
{
    20
}

/// `n` brought into `lo..=hi`.
pub open spec fn clamped(n: i64, lo: i64, hi: i64) -> i64 {
    if n > hi {
        hi
    } else if n < lo {
        lo
    } else {
        n
    }
}

/// The number of rows a listing fetches and shows per page: the asked page
/// size brought into `1..=1000`.
pub fn list_limit(page_limit: i64) -> (r: i64)
    ensures
        r == clamped(page_limit, 1, 1000),
        1 <= r <= 1000,
{
    if page_limit > 1000 {
        1000
    } else if page_limit < 1 {
        1
    } else {
        page_limit
    }
}

/// The number of payees a search returns: the asked limit brought into
/// `1..=20`.
pub fn search_limit(limit: i64) -> (r: i64)
    ensures
        r == clamped(limit, 1, 20),
        1 <= r <= 20,
{
    if limit > 20 {
        20
    } else if limit < 1 {
        1
    } else {
        limit
    }
}

/// The offset of page `page` of `limit` rows fits in an `i64`.
pub open spec fn page_offset_fits(page: i64, limit: i64) -> bool {
    i64::MIN <= (page - 1) * limit <= i64::MAX
}

/// Whether the offset of page `page` of `limit` rows fits in an `i64`.
pub fn page_offset_in_range(page: i64, limit: i64) -> (b: bool)
    requires
        1 <= limit <= 1000,
    ensures
        b == page_offset_fits(page, limit),
{
    let p: i128 = page as i128 - 1;
    let l: i128 = limit as i128;
    assert(-0x1_0000_0000_0000_0000_0000 <= p * l <= 0x1_0000_0000_0000_0000_0000) by (nonlinear_arith)
        requires
            i64::MIN - 1 <= p <= i64::MAX,
            1 <= l <= 1000,
    ;
    let prod: i128 = p * l;
    i64::MIN as i128 <= prod && prod <= i64::MAX as i128
}

/// The rows of `all` on the page that starts at `offset` and holds at most
/// `limit` rows; none when the offset is negative or past the end.
pub open spec fn page_rows<T>(all: Seq<T>, offset: int, limit: int) -> Seq<T> {
    if offset < 0 || offset >= all.len() {
        Seq::empty()
    } else if offset + limit <= all.len() {
        all.subrange(offset, offset + limit)
    } else {
        all.subrange(offset, all.len() as int)
    }
}

/// Page `page` of `all`, `limit` rows per page: the rows from
/// `(page - 1) * limit` on, at most `limit` of them. The count reported is
/// that of the first `limit` rows of `all`: the rows one page's fetch
/// holds.
pub fn paginate<T>(all: Vec<T>, page: i64, limit: i64) -> (r: ListResponse<T>)
    requires
        1 <= limit <= 1000,
        page_offset_fits(page, limit),
    ensures
        r.payload@ == page_rows(all@, (page - 1) * limit, limit as int),
        r.payload@.len() <= limit,
        r.page == page,
        r.page_limit == limit,
        r.total_results == (if all@.len() < limit { all@.len() } else { limit as nat }),
{
    let total: usize = if all.len() < limit as usize {
        all.len()
    } else {
        limit as usize
    };
    assert(page - 1 >= i64::MIN) by (nonlinear_arith)
        requires
            i64::MIN <= (page - 1) * limit,
            1 <= limit,
            page <= i64::MAX,
    ;
    let offset: i64 = (page - 1) * limit;
    let mut rest: Vec<T> = Vec::new();
    let mut all = all;
    if offset >= 0 && (offset as u64) < (all.len() as u64) {
        let start = offset as usize;
        rest = all.split_off(start);
        rest.truncate(limit as usize);
    }
    ListResponse { payload: rest, page, page_limit: limit, total_results: total }
}

/// How many rows a listing fetches for page `page` of `limit` rows: every
/// row up to the end of that page (at most `i64::MAX`), or one page's worth
/// when the page number is below 1 (that page is empty anyway).
pub open spec fn fetch_size(page: i64, limit: i64) -> int {
    if page < 1 {
        limit as int
    } else if page * limit > i64::MAX {
        i64::MAX as int
    } else {
        page * limit
    }
}

/// The number of rows to fetch so that page `page` of `limit` rows can be
/// cut from them.
pub fn fetch_limit(page: i64, limit: i64) -> (r: i64)
    requires
        1 <= limit <= 1000,
    ensures
        r == fetch_size(page, limit),
        r >= limit,
{
    if page < 1 {
        limit
    } else {
        let p: i128 = page as i128;
        let l: i128 = limit as i128;
        assert(p * l <= 0x1_0000_0000_0000_0000_0000) by (nonlinear_arith)
            requires
                1 <= p <= i64::MAX,
                1 <= l <= 1000,
        ;
        assert(p * l >= l) by (nonlinear_arith)
            requires
                1 <= p,
                1 <= l,
        ;
        let n: i128 = p * l;
        if n > i64::MAX as i128 {
            i64::MAX
        } else {
            n as i64
        }
    }
}

/// The rows a listing fetches with a limit of `n`: the first `n` of all
/// rows, in order.
pub open spec fn first_rows<T>(all: Seq<T>, n: int) -> Seq<T> {
    if n < all.len() {
        all.take(n)
    } else {
        all
    }
}

/// Cutting page `page` from the rows fetched with `fetch_size(page, limit)`
/// gives the same rows as cutting it from the whole ordered listing, and the
/// count `paginate` reports is that of a fetch of one page, `limit` rows.
pub proof fn lemma_page_of_fetched_rows<T>(all: Seq<T>, page: i64, limit: i64)
    requires
        1 <= limit <= 1000,
        page_offset_fits(page, limit),
        all.len() <= i64::MAX,
    ensures
        page_rows(first_rows(all, fetch_size(page, limit)), (page - 1) * limit, limit as int)
            == page_rows(all, (page - 1) * limit, limit as int),
        (if first_rows(all, fetch_size(page, limit)).len() < limit {
            first_rows(all, fetch_size(page, limit)).len()
        } else {
            limit as nat
        }) == first_rows(all, limit as int).len(),
{
    let f = fetch_size(page, limit);
    let fetched = first_rows(all, f);
    let offset = (page - 1) * limit;
    if page >= 1 {
        assert((page - 1) * limit + limit == page * limit) by (nonlinear_arith);
        assert((page - 1) * limit >= 0) by (nonlinear_arith)
            requires
                page >= 1,
                limit >= 1,
        ;
        if f < all.len() {
            assert(f == page * limit);
            assert(fetched.len() == f);
            if offset < fetched.len() {
                assert(page_rows(fetched, offset, limit as int) =~= page_rows(all, offset, limit as int));
            }
        }
    } else {
        assert((page - 1) * limit < 0) by (nonlinear_arith)
            requires
                page < 1,
                limit >= 1,
        ;
    }
}

/// An update request that leaves the notes out keeps the account's notes:
/// the input carries no notes, and the values written keep the stored ones.
pub proof fn lemma_omitted_notes_are_kept(
    req: UpdateAccountRequest,
    input: UpdateAccount,
    c: AccountChanges,
    id: u128,
    existing: Account,
)
    requires
        req.account_notes is None,
        input.account_notes == req.account_notes,
        is_account_changes(c, id, existing, input),
    ensures
        c.account_notes == existing.account_notes,
{
}

/// The body of a request to create an account.
pub struct CreateAccountRequest {
    pub account_name: String,
    pub parent_account_id: Option<u128>,
    pub account_type: AccountType,
    pub account_currency: Option<String>,
    pub account_sort_order: Option<i32>,
    pub account_notes: Option<String>,
}

impl CreateAccountRequest {
    /// The input it stands for: the currency is `USD` and the sort order 0
    /// when not given.
    pub fn into_input(self) -> (r: CreateAccount)
        ensures
            r.account_name == self.account_name,
            r.parent_account_id == self.parent_account_id,
            r.account_type == self.account_type,
            match self.account_currency {
                Some(c) => r.account_currency == c,
                None => r.account_currency@ == "USD"@,
            },
            r.account_sort_order == match self.account_sort_order {
                Some(o) => o,
                None => 0i32,
            },
            r.account_notes == self.account_notes,
    {
        let currency = match self.account_currency {
            Some(c) => c,
            None => String::from_str("USD"),
        };
        let sort_order = match self.account_sort_order {
            Some(o) => o,
            None => 0,
        };
        CreateAccount {
            account_name: self.account_name,
            parent_account_id: self.parent_account_id,
            account_type: self.account_type,
            account_currency: currency,
            account_sort_order: sort_order,
            account_notes: self.account_notes,
        }
    }
}

/// The body of a request to update an account.
pub struct UpdateAccountRequest {
    pub account_name: Option<String>,
    pub parent_account_id: Option<Option<u128>>,
    pub account_type: Option<AccountType>,
    pub account_currency: Option<String>,
    pub account_sort_order: Option<i32>,
    pub account_notes: Option<Option<String>>,
}

impl UpdateAccountRequest {
    /// The input it stands for, field by field: a field the body leaves out
    /// (the notes too) is left as the account has it.
    pub fn into_input(self) -> (r: UpdateAccount)
        ensures
            r.account_name == self.account_name,
            r.parent_account_id == self.parent_account_id,
            r.account_type == self.account_type,
            r.account_currency == self.account_currency,
            r.account_sort_order == self.account_sort_order,
            r.account_notes == self.account_notes,
    {
        UpdateAccount {
            account_name: self.account_name,
            parent_account_id: self.parent_account_id,
            account_type: self.account_type,
            account_currency: self.account_currency,
            account_sort_order: self.account_sort_order,
            account_notes: self.account_notes,
        }
    }
}

/// The body of a request to create a payee.
pub struct CreatePayeeRequest {
    pub payee_name: String,
    pub payee_phone: Option<String>,
    pub payee_address: Option<String>,
    pub payee_website: Option<String>,
    pub payee_default_account_id: Option<u128>,
}

impl CreatePayeeRequest {
    /// The input it stands for, field by field.
    pub fn into_input(self) -> (r: CreatePayee)
        ensures
            r.payee_name == self.payee_name,
            r.payee_phone == self.payee_phone,
            r.payee_address == self.payee_address,
            r.payee_website == self.payee_website,
            r.payee_default_account_id == self.payee_default_account_id,
    {
        CreatePayee {
            payee_name: self.payee_name,
            payee_phone: self.payee_phone,
            payee_address: self.payee_address,
            payee_website: self.payee_website,
            payee_default_account_id: self.payee_default_account_id,
        }
    }
}

/// The body of a request to update a payee.
pub struct UpdatePayeeRequest {
    pub payee_name: Option<String>,
    pub payee_phone: Option<Option<String>>,
    pub payee_address: Option<Option<String>>,
    pub payee_website: Option<Option<String>>,
    pub payee_default_account_id: Option<Option<u128>>,
}

impl UpdatePayeeRequest {
    /// The input it stands for, field by field.
    pub fn into_input(self) -> (r: UpdatePayee)
        ensures
            r.payee_name == self.payee_name,
            r.payee_phone == self.payee_phone,
            r.payee_address == self.payee_address,
            r.payee_website == self.payee_website,
            r.payee_default_account_id == self.payee_default_account_id,
    {
        UpdatePayee {
            payee_name: self.payee_name,
            payee_phone: self.payee_phone,
            payee_address: self.payee_address,
            payee_website: self.payee_website,
            payee_default_account_id: self.payee_default_account_id,
        }
    }
}

/// An error of the store, as answered over HTTP.
pub struct ApiError(pub CoreError);

impl From<CoreError> for ApiError {
    fn from(e: CoreError) -> (r: ApiError) {
        ApiError(e)
    }
}

impl vstd::std_specs::convert::FromSpecImpl<CoreError> for ApiError {
    open spec fn obeys_from_spec() -> bool {
        true
    }

    open spec fn from_spec(e: CoreError) -> ApiError {
        ApiError(e)
    }
}

/// The HTTP status and message that answer `e`.
pub open spec fn is_error_response(e: CoreError, status: u16, message: String) -> bool {
    match e {
        CoreError::NotFound(m) => status == 404 && message == m,
        CoreError::Validation(m) => status == 422 && message == m,
        CoreError::Database(_) => status == 500 && message@ == "Internal server error"@,
    }
}

impl ApiError {
    /// The HTTP status and the message of the response: 404 with the message
    /// for a missing row, 422 with the message for a broken rule, and 500
    /// with a fixed message for a database error, whose details are not
    /// shown.
    pub fn status_and_message(self) -> (r: (u16, String))
        ensures
            is_error_response(self.0, r.0, r.1),
    {
        match self.0 {
            CoreError::NotFound(m) => (404, m),
            CoreError::Validation(m) => (422, m),
            CoreError::Database(_) => (500, String::from_str("Internal server error")),
        }
    }
}

} // verus!

//! The rules of payees: the people and vendors money is spent at.

use vstd::prelude::*;
use crate::accounts::{is_id_text_of, optional_id_text, validation_failure};
use crate::db::{loads_payee, Fresh, NewPayeeRow, Next, PayeeChanges, Reply, ReplyKind, Request};
use crate::error::{is_not_found_error, is_validation_error, CoreError};
use crate::models::Payees;
use crate::store::{
    answers_payee_load, id_text_of, is_stored_payee, payees_after, stored_payee_of_row, text_of, PayeeTable,
};
use crate::text::{id_chars, id_text, is_blank, lemma_id_chars_injective, trim_chars, trim_text};

verus! {

/// The input of `create_payee`.
pub struct CreatePayee {
    pub payee_name: String,
    pub payee_phone: Option<String>,
    pub payee_address: Option<String>,
    pub payee_website: Option<String>,
    pub payee_default_account_id: Option<u128>,
}

/// The input of `update_payee`; `None` leaves a field as it is.
pub struct UpdatePayee {
    pub payee_name: Option<String>,
    pub payee_phone: Option<Option<String>>,
    pub payee_address: Option<Option<String>>,
    pub payee_website: Option<Option<String>>,
    pub payee_default_account_id: Option<Option<u128>>,
}

/// The message of the error for a missing payee.
pub open spec fn payee_not_found_message(id: u128) -> Seq<char> {
    "Payee "@ + id_chars(id) + " not found!"@
}

fn payee_not_found(id: u128) -> (r: CoreError)
    ensures
        r matches CoreError::NotFound(m) && m@ == payee_not_found_message(id),
{
    let mut m = String::from_str("Payee ");
    let t = id_text(id);
    m.append(t.as_str());
    m.append(" not found!");
    CoreError::NotFound(m)
}

/// What loading the payee `id` gives when the database answered `reply`.
pub open spec fn is_payee_load_outcome(id: u128, reply: Reply, r: Result<Payees, CoreError>) -> bool {
    match reply {
        Reply::Payee(Some(p)) => r == Ok::<Payees, CoreError>(p),
        Reply::Payee(None) => is_not_found_error(r, payee_not_found_message(id)),
        Reply::Failed(e) => r == Err::<Payees, CoreError>(CoreError::Database(e)),
        _ => false,
    }
}

/// What a listing of payees gives when the database answered `reply`: the
/// rows as found.
pub open spec fn is_payee_rows_outcome(reply: Reply, r: Result<Vec<Payees>, CoreError>) -> bool {
    match reply {
        Reply::Payees(v) => r == Ok::<Vec<Payees>, CoreError>(v),
        Reply::Failed(e) => r == Err::<Vec<Payees>, CoreError>(CoreError::Database(e)),
        _ => false,
    }
}

fn payee_rows(reply: Reply) -> (r: Result<Vec<Payees>, CoreError>)
    requires
        reply.fits(ReplyKind::Payees),
    ensures
        is_payee_rows_outcome(reply, r),
{
    match reply {
        Reply::Payees(v) => Ok(v),
        Reply::Failed(e) => Err(CoreError::Database(e)),
        _ => {
            assert(false);
            Ok(Vec::new())
        },
    }
}

/// Lists payees by name.
pub struct ListPayees {
    pub limit: i64,
}

/// Starts listing at most `limit` payees, by name.
pub fn list_payees(limit: i64) -> (r: (ListPayees, Request))
    ensures
        r.0.limit == limit,
        r.1 == (Request::ListPayees { limit }),
{
    (ListPayees { limit }, Request::ListPayees { limit })
}

impl ListPayees {
    /// Finishes the listing with the database's answer.
    pub fn finish(self, reply: Reply) -> (r: Result<Vec<Payees>, CoreError>)
        requires
            reply.fits(ReplyKind::Payees),
        ensures
            is_payee_rows_outcome(reply, r),
    {
        payee_rows(reply)
    }
}

/// Reads one payee by its id.
pub struct GetPayee {
    pub payee_id: u128,
}

/// Starts reading the payee `id`.
pub fn get_payee_by_id(id: u128) -> (r: (GetPayee, Request))
    ensures
        r.0.payee_id == id,
        loads_payee(r.1, id),
{
    (GetPayee { payee_id: id }, Request::LoadPayee { payee_id: id_text(id) })
}

impl GetPayee {
    /// Finishes the read with the database's answer.
    pub fn finish(self, reply: Reply) -> (r: Result<Payees, CoreError>)
        requires
            reply.fits(ReplyKind::Payee),
        ensures
            is_payee_load_outcome(self.payee_id, reply, r),
    {
        match reply {
            Reply::Payee(Some(p)) => Ok(p),
            Reply::Payee(None) => Err(payee_not_found(self.payee_id)),
            Reply::Failed(e) => Err(CoreError::Database(e)),
            _ => {
                assert(false);
                Err(payee_not_found(self.payee_id))
            },
        }
    }
}

/// The `LIKE` pattern that finds payees whose name contains `name`, with
/// `name` trimmed.
pub open spec fn name_search_pattern(name: Seq<char>) -> Seq<char> {
    "%"@ + trim_chars(name) + "%"@
}

/// Searches payees by name.
pub struct SearchPayees {
    pub limit: i64,
}

/// Starts a search for at most `limit` payees whose name contains `name`
/// (trimmed), by name.
pub fn search_payee_by_name(name: &str, limit: i64) -> (r: (SearchPayees, Request))
    ensures
        r.0.limit == limit,
        r.1 matches Request::SearchPayees { pattern, limit: l } && pattern@ == name_search_pattern(name@)
            && l == limit,
{
    let mut pattern = String::from_str("%");
    pattern.append(trim_text(name));
    pattern.append("%");
    (SearchPayees { limit }, Request::SearchPayees { pattern, limit })
}

impl SearchPayees {
    /// Finishes the search with the database's answer.
    pub fn finish(self, reply: Reply) -> (r: Result<Vec<Payees>, CoreError>)
        requires
            reply.fits(ReplyKind::Payees),
        ensures
            is_payee_rows_outcome(reply, r),
    {
        payee_rows(reply)
    }
}

/// `row` holds the values that creating a payee from `input` binds, for the
/// new id `id` stamped at `now`: the name trimmed, the rest as given.
pub open spec fn is_new_payee_row(row: NewPayeeRow, input: CreatePayee, id: u128, now: String) -> bool {
    &&& row.payee_id@ == id_chars(id)
    &&& row.payee_name@ == trim_chars(input.payee_name@)
    &&& row.payee_phone == input.payee_phone
    &&& row.payee_address == input.payee_address
    &&& row.payee_website == input.payee_website
    &&& is_id_text_of(row.payee_default_account_id, input.payee_default_account_id)
    &&& row.payee_created_datetime == now
}

/// The values to insert for a new payee built from `input`.
pub fn new_payee_row(input: CreatePayee, id: u128, now: String) -> (row: NewPayeeRow)
    ensures
        is_new_payee_row(row, input, id, now),
{
    let name = trim_text(input.payee_name.as_str()).to_owned();
    NewPayeeRow {
        payee_id: id_text(id),
        payee_name: name,
        payee_phone: input.payee_phone,
        payee_address: input.payee_address,
        payee_website: input.payee_website,
        payee_default_account_id: optional_id_text(input.payee_default_account_id),
        payee_created_datetime: now,
    }
}

/// Where the creation of a payee stands.
pub enum CreatePayeeStage {
    /// The new row `payee_id` is being inserted.
    AwaitInsert { payee_id: u128 },
    /// The new row `payee_id` is being read back.
    AwaitReload { payee_id: u128 },
}

/// The creation of a payee, one database request at a time.
pub struct CreatePayeeFlow {
    stage: CreatePayeeStage,
}

impl CreatePayeeFlow {
    /// Where the flow stands.
    pub closed spec fn stage(self) -> CreatePayeeStage {
        self.stage
    }

    /// The shape of the answer the flow waits for.
    pub open spec fn awaits(self) -> ReplyKind {
        match self.stage() {
            CreatePayeeStage::AwaitInsert { .. } => ReplyKind::Executed,
            CreatePayeeStage::AwaitReload { .. } => ReplyKind::Payee,
        }
    }

    /// The shape of the answer the flow waits for.
    pub fn awaited_reply(&self) -> (k: ReplyKind)
        ensures
            k == self.awaits(),
    {
        match self.stage {
            CreatePayeeStage::AwaitInsert { .. } => ReplyKind::Executed,
            CreatePayeeStage::AwaitReload { .. } => ReplyKind::Payee,
        }
    }

    /// What one step of the creation does with the database's answer.
    pub open spec fn is_step(self, reply: Reply, r: Next<CreatePayeeFlow, Payees>) -> bool {
        match self.stage() {
            CreatePayeeStage::AwaitInsert { payee_id } => match reply {
                Reply::Executed => r matches Next::Ask(f, req)
                    && f.stage() == (CreatePayeeStage::AwaitReload { payee_id })
                    && loads_payee(req, payee_id),
                Reply::Failed(e) => r == Next::<CreatePayeeFlow, Payees>::Done(Err(CoreError::Database(e))),
                _ => false,
            },
            CreatePayeeStage::AwaitReload { payee_id } =>
                r matches Next::Done(res) && is_payee_load_outcome(payee_id, reply, res),
        }
    }

    /// Hands the database's answer to the flow.
    pub fn step(self, reply: Reply) -> (r: Next<CreatePayeeFlow, Payees>)
        requires
            reply.fits(self.awaits()),
        ensures
            self.is_step(reply, r),
            r matches Next::Ask(f, req) ==> req.answer_kind() == f.awaits(),
    {
        match self.stage {
            CreatePayeeStage::AwaitInsert { payee_id } => match reply {
                Reply::Executed => {
                    let req = Request::LoadPayee { payee_id: id_text(payee_id) };
                    Next::Ask(CreatePayeeFlow { stage: CreatePayeeStage::AwaitReload { payee_id } }, req)
                },
                Reply::Failed(e) => Next::Done(Err(CoreError::Database(e))),
                _ => {
                    assert(false);
                    Next::Done(validation_failure(""))
                },
            },
            CreatePayeeStage::AwaitReload { payee_id } => Next::Done(GetPayee { payee_id }.finish(reply)),
        }
    }
}

/// Starts creating a payee: a blank name is refused; otherwise the row is
/// inserted with the id and time of `fresh`.
pub fn create_payee(input: CreatePayee, fresh: &Fresh) -> (r: Next<CreatePayeeFlow, Payees>)
    ensures
        if is_blank(input.payee_name@) {
            r matches Next::Done(res) && is_validation_error(res, "Payee name cannot be empty!"@)
        } else {
            r matches Next::Ask(f, Request::InsertPayee(row))
                && f.stage() == (CreatePayeeStage::AwaitInsert { payee_id: fresh.id })
                && is_new_payee_row(row, input, fresh.id, fresh.now)
        },
        r matches Next::Ask(f, req) ==> req.answer_kind() == f.awaits(),
{
    if trim_text(input.payee_name.as_str()).is_empty() {
        return Next::Done(validation_failure("Payee name cannot be empty!"));
    }
    let id = fresh.id;
    let row = new_payee_row(input, id, fresh.now.clone());
    Next::Ask(CreatePayeeFlow { stage: CreatePayeeStage::AwaitInsert { payee_id: id } }, Request::InsertPayee(row))
}

/// `c` holds the values that updating payee `id` with `input` writes: each
/// field given in `input` replaces the one of `existing`, every other field
/// keeps its value.
pub open spec fn is_payee_changes(c: PayeeChanges, id: u128, existing: Payees, input: UpdatePayee) -> bool {
    &&& c.payee_id@ == id_chars(id)
    &&& c.payee_name == match input.payee_name {
        Some(n) => n,
        None => existing.payee_name,
    }
    &&& c.payee_phone == match input.payee_phone {
        Some(v) => v,
        None => existing.payee_phone,
    }
    &&& c.payee_address == match input.payee_address {
        Some(v) => v,
        None => existing.payee_address,
    }
    &&& c.payee_website == match input.payee_website {
        Some(v) => v,
        None => existing.payee_website,
    }
    &&& match input.payee_default_account_id {
        Some(a) => is_id_text_of(c.payee_default_account_id, a),
        None => is_id_text_of(c.payee_default_account_id, existing.payee_default_account_id),
    }
}

/// The values to write when payee `payee_id`, now `existing`, is updated
/// with `input`.
pub fn payee_changes(payee_id: u128, existing: Payees, input: UpdatePayee) -> (c: PayeeChanges)
    ensures
        is_payee_changes(c, payee_id, existing, input),
{
    let name = match input.payee_name {
        Some(n) => n,
        None => existing.payee_name,
    };
    let phone = match input.payee_phone {
        Some(v) => v,
        None => existing.payee_phone,
    };
    let address = match input.payee_address {
        Some(v) => v,
        None => existing.payee_address,
    };
    let website = match input.payee_website {
        Some(v) => v,
        None => existing.payee_website,
    };
    let account = match input.payee_default_account_id {
        Some(a) => optional_id_text(a),
        None => optional_id_text(existing.payee_default_account_id),
    };
    PayeeChanges {
        payee_id: id_text(payee_id),
        payee_name: name,
        payee_phone: phone,
        payee_address: address,
        payee_website: website,
        payee_default_account_id: account,
    }
}

/// An update that gives no field writes the payee back as it is.
pub proof fn lemma_empty_update_keeps_payee(c: PayeeChanges, id: u128, existing: Payees, input: UpdatePayee)
    requires
        is_payee_changes(c, id, existing, input),
        input.payee_name is None,
        input.payee_phone is None,
        input.payee_address is None,
        input.payee_website is None,
        input.payee_default_account_id is None,
    ensures
        c.payee_name == existing.payee_name,
        c.payee_phone == existing.payee_phone,
        c.payee_address == existing.payee_address,
        c.payee_website == existing.payee_website,
        is_id_text_of(c.payee_default_account_id, existing.payee_default_account_id),
{
}

/// Where the update of a payee stands.
pub enum UpdatePayeeStage {
    /// The payee being updated is being read.
    AwaitExisting { payee_id: u128, input: UpdatePayee },
    /// The new values are being written.
    AwaitWrite { payee_id: u128 },
    /// The updated row is being read back.
    AwaitReload { payee_id: u128 },
}

/// The update of a payee, one database request at a time.
pub struct UpdatePayeeFlow {
    stage: UpdatePayeeStage,
}

/// Starts updating the payee `id` with `input`: the payee is read first.
pub fn update_payee(id: u128, input: UpdatePayee) -> (r: (UpdatePayeeFlow, Request))
    ensures
        r.0.stage() == (UpdatePayeeStage::AwaitExisting { payee_id: id, input }),
        loads_payee(r.1, id),
        r.1.answer_kind() == r.0.awaits(),
{
    (
        UpdatePayeeFlow { stage: UpdatePayeeStage::AwaitExisting { payee_id: id, input } },
        Request::LoadPayee { payee_id: id_text(id) },
    )
}

impl UpdatePayeeFlow {
    /// Where the flow stands.
    pub closed spec fn stage(self) -> UpdatePayeeStage {
        self.stage
    }

    /// The shape of the answer the flow waits for.
    pub open spec fn awaits(self) -> ReplyKind {
        match self.stage() {
            UpdatePayeeStage::AwaitWrite { .. } => ReplyKind::Executed,
            _ => ReplyKind::Payee,
        }
    }

    /// The shape of the answer the flow waits for.
    pub fn awaited_reply(&self) -> (k: ReplyKind)
        ensures
            k == self.awaits(),
    {
        match self.stage {
            UpdatePayeeStage::AwaitWrite { .. } => ReplyKind::Executed,
            _ => ReplyKind::Payee,
        }
    }

    /// What one step of the update does with the database's answer: a
    /// missing payee or a blank new name is refused; otherwise the merged
    /// values are written and the row is read back.
    pub open spec fn is_step(self, reply: Reply, r: Next<UpdatePayeeFlow, Payees>) -> bool {
        match self.stage() {
            UpdatePayeeStage::AwaitExisting { payee_id, input } => match reply {
                Reply::Payee(Some(existing)) => if input.payee_name matches Some(n) && is_blank(n@) {
                    r matches Next::Done(res) && is_validation_error(res, "Payee name cannot be empty!"@)
                } else {
                    r matches Next::Ask(f, Request::UpdatePayee(c))
                        && f.stage() == (UpdatePayeeStage::AwaitWrite { payee_id })
                        && is_payee_changes(c, payee_id, existing, input)
                },
                Reply::Payee(None) => r matches Next::Done(res)
                    && is_not_found_error(res, payee_not_found_message(payee_id)),
                Reply::Failed(e) => r == Next::<UpdatePayeeFlow, Payees>::Done(Err(CoreError::Database(e))),
                _ => false,
            },
            UpdatePayeeStage::AwaitWrite { payee_id } => match reply {
                Reply::Executed => r matches Next::Ask(f, req)
                    && f.stage() == (UpdatePayeeStage::AwaitReload { payee_id })
                    && loads_payee(req, payee_id),
                Reply::Failed(e) => r == Next::<UpdatePayeeFlow, Payees>::Done(Err(CoreError::Database(e))),
                _ => false,
            },
            UpdatePayeeStage::AwaitReload { payee_id } =>
                r matches Next::Done(res) && is_payee_load_outcome(payee_id, reply, res),
        }
    }

    /// Hands the database's answer to the flow.
    pub fn step(self, reply: Reply) -> (r: Next<UpdatePayeeFlow, Payees>)
        requires
            reply.fits(self.awaits()),
        ensures
            self.is_step(reply, r),
            r matches Next::Ask(f, req) ==> req.answer_kind() == f.awaits(),
    {
        match self.stage {
            UpdatePayeeStage::AwaitExisting { payee_id, input } => match reply {
                Reply::Payee(Some(existing)) => {
                    let name_blank = match &input.payee_name {
                        Some(n) => trim_text(n.as_str()).is_empty(),
                        None => false,
                    };
                    if name_blank {
                        Next::Done(validation_failure("Payee name cannot be empty!"))
                    } else {
                        let c = payee_changes(payee_id, existing, input);
                        Next::Ask(
                            UpdatePayeeFlow { stage: UpdatePayeeStage::AwaitWrite { payee_id } },
                            Request::UpdatePayee(c),
                        )
                    }
                },
                Reply::Payee(None) => Next::Done(Err(payee_not_found(payee_id))),
                Reply::Failed(e) => Next::Done(Err(CoreError::Database(e))),
                _ => {
                    assert(false);
                    Next::Done(validation_failure(""))
                },
            },
            UpdatePayeeStage::AwaitWrite { payee_id } => match reply {
                Reply::Executed => {
                    let req = Request::LoadPayee { payee_id: id_text(payee_id) };
                    Next::Ask(UpdatePayeeFlow { stage: UpdatePayeeStage::AwaitReload { payee_id } }, req)
                },
                Reply::Failed(e) => Next::Done(Err(CoreError::Database(e))),
                _ => {
                    assert(false);
                    Next::Done(validation_failure(""))
                },
            },
            UpdatePayeeStage::AwaitReload { payee_id } => Next::Done(GetPayee { payee_id }.finish(reply)),
        }
    }
}

/// Reading a payee back after it was created gives the row inserted: when
/// the new id was not yet a key of the table, a true answer, from the table
/// after the insert, to a read of that id finishes the read with the payee
/// as inserted.
pub proof fn lemma_created_payee_reads_back(
    d: PayeeTable,
    row: NewPayeeRow,
    id: u128,
    reply: Reply,
    r: Result<Payees, CoreError>,
)
    requires
        !d.contains_key(row.payee_id@),
        row.payee_id@ == id_chars(id),
        answers_payee_load(payees_after(d, Request::InsertPayee(row)), id_chars(id), reply),
        reply is Payee,
        is_payee_load_outcome(id, reply, r),
    ensures
        r matches Ok(p) && p.payee_id == id && is_stored_payee(p, id_chars(id), stored_payee_of_row(row)),
{
    if let Reply::Payee(Some(p)) = reply {
        lemma_id_chars_injective(p.payee_id, id);
    }
}

/// Reading a payee back after it was updated gives the values written, with
/// its creation time unchanged.
pub proof fn lemma_updated_payee_reads_back(
    d: PayeeTable,
    c: PayeeChanges,
    id: u128,
    reply: Reply,
    r: Result<Payees, CoreError>,
)
    requires
        d.contains_key(c.payee_id@),
        c.payee_id@ == id_chars(id),
        answers_payee_load(payees_after(d, Request::UpdatePayee(c)), id_chars(id), reply),
        reply is Payee,
        is_payee_load_outcome(id, reply, r),
    ensures
        r matches Ok(p) && {
            &&& p.payee_id == id
            &&& p.payee_name@ == c.payee_name@
            &&& text_of(p.payee_phone) == text_of(c.payee_phone)
            &&& text_of(p.payee_address) == text_of(c.payee_address)
            &&& text_of(p.payee_website) == text_of(c.payee_website)
            &&& id_text_of(p.payee_default_account_id) == text_of(c.payee_default_account_id)
            &&& p.payee_created_datetime@ == d[c.payee_id@].created
        },
{
    if let Reply::Payee(Some(p)) = reply {
        lemma_id_chars_injective(p.payee_id, id);
    }
}

/// A field given in a payee update replaces the stored one, whatever the
/// stored row holds; a field not given keeps the stored one.
pub proof fn lemma_payee_update_writes_given_fields(c: PayeeChanges, id: u128, existing: Payees, input: UpdatePayee)
    requires
        is_payee_changes(c, id, existing, input),
    ensures
        c.payee_id@ == id_chars(id),
        input.payee_name matches Some(n) ==> c.payee_name == n,
        input.payee_name is None ==> c.payee_name == existing.payee_name,
        input.payee_phone matches Some(v) ==> c.payee_phone == v,
        input.payee_phone is None ==> c.payee_phone == existing.payee_phone,
        input.payee_address matches Some(v) ==> c.payee_address == v,
        input.payee_address is None ==> c.payee_address == existing.payee_address,
        input.payee_website matches Some(v) ==> c.payee_website == v,
        input.payee_website is None ==> c.payee_website == existing.payee_website,
        input.payee_default_account_id matches Some(Some(a)) ==> (c.payee_default_account_id matches Some(
            t,
        ) && t@ == id_chars(a)),
        input.payee_default_account_id matches Some(None) ==> c.payee_default_account_id is None,
        input.payee_default_account_id is None ==> text_of(c.payee_default_account_id) == id_text_of(
            existing.payee_default_account_id,
        ),
{
}

/// Two payee updates with the same input write the same value for every
/// field the input gives, whatever the two stored rows were.
pub proof fn lemma_payee_update_given_fields_ignore_stored_row(
    c1: PayeeChanges,
    c2: PayeeChanges,
    id: u128,
    existing1: Payees,
    existing2: Payees,
    input: UpdatePayee,
)
    requires
        is_payee_changes(c1, id, existing1, input),
        is_payee_changes(c2, id, existing2, input),
    ensures
        c1.payee_id@ == c2.payee_id@,
        input.payee_name is Some ==> c1.payee_name == c2.payee_name,
        input.payee_phone is Some ==> c1.payee_phone == c2.payee_phone,
        input.payee_address is Some ==> c1.payee_address == c2.payee_address,
        input.payee_website is Some ==> c1.payee_website == c2.payee_website,
        input.payee_default_account_id is Some ==> text_of(c1.payee_default_account_id) == text_of(
            c2.payee_default_account_id,
        ),
{
    lemma_payee_update_writes_given_fields(c1, id, existing1, input);
    lemma_payee_update_writes_given_fields(c2, id, existing2, input);
}

/// The row inserted for a new payee binds what the user gave: the id drawn,
/// the name trimmed, phone, address and website as given, the default
/// account as its id text (none exactly when none was given), and the
/// creation time drawn.
pub proof fn lemma_new_payee_row_binds_input(row: NewPayeeRow, input: CreatePayee, id: u128, now: String)
    requires
        is_new_payee_row(row, input, id, now),
    ensures
        row.payee_id@ == id_chars(id),
        row.payee_name@ == trim_chars(input.payee_name@),
        row.payee_phone == input.payee_phone,
        row.payee_address == input.payee_address,
        row.payee_website == input.payee_website,
        row.payee_default_account_id is None <==> input.payee_default_account_id is None,
        input.payee_default_account_id matches Some(a) ==> (row.payee_default_account_id matches Some(t)
            && t@ == id_chars(a)),
        row.payee_created_datetime == now,
{
}

/// A payee update refuses a blank new name and writes only when the payee
/// exists and the new name, if any, is not blank.
pub proof fn lemma_payee_update_refuses_blank_name(flow: UpdatePayeeFlow, reply: Reply, r: Next<UpdatePayeeFlow, Payees>)
    requires
        flow.is_step(reply, r),
    ensures
        match flow.stage() {
            UpdatePayeeStage::AwaitExisting { input, .. } => match reply {
                Reply::Payee(Some(_)) => (input.payee_name matches Some(n) && is_blank(n@)) ==> (r matches Next::Done(
                    res,
                ) && is_validation_error(res, "Payee name cannot be empty!"@)),
                _ => true,
            },
            _ => true,
        },
        r matches Next::Ask(_, Request::UpdatePayee(_)) ==> (flow.stage() matches UpdatePayeeStage::AwaitExisting {
            input,
            ..
        } && reply is Payee && !(reply->Payee_0 is None) && !(input.payee_name matches Some(n) && is_blank(n@))),
{
}

/// Reading a payee gives the row found, and a not-found error naming the id
/// when there is none.
pub proof fn lemma_payee_read_gives_row_found(id: u128, reply: Reply, r: Result<Payees, CoreError>)
    requires
        is_payee_load_outcome(id, reply, r),
    ensures
        reply matches Reply::Payee(Some(p)) ==> r == Ok::<Payees, CoreError>(p),
        reply matches Reply::Payee(None) ==> (r matches Err(CoreError::NotFound(m)) && m@ == "Payee "@ + id_chars(id)
            + " not found!"@),
        reply matches Reply::Failed(e) ==> r == Err::<Payees, CoreError>(CoreError::Database(e)),
{
}

} // verus!

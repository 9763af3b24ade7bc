use smok_finance::accounts::{
    archive_account, create_account, get_one_account_by_id, list_nonarchived_accounts, update_account,
    CreateAccount, UpdateAccount,
};
use smok_finance::db::{Fresh, Next, Reply, ReplyKind, Request};
use smok_finance::error::CoreError;
use smok_finance::models::{Account, AccountType};

const ID: u128 = 0x67e5_5044_10b1_426f_9247_bb68_0e5e_afe6;
const ID_TEXT: &str = "67e55044-10b1-426f-9247-bb680e5eafe6";
const PARENT: u128 = 0x0000_0001_0002_0003_0004_0000_0000_0005;
const PARENT_TEXT: &str = "00000001-0002-0003-0004-000000000005";

fn fresh() -> Fresh {
    Fresh { id: ID, now: "2024-05-01T10:00:00+00:00".to_string() }
}

fn account(id: u128, archived: bool) -> Account {
    Account {
        account_id: id,
        account_name: "Checking".to_string(),
        parent_account_id: None,
        account_type: AccountType::Asset,
        account_currency: "USD".to_string(),
        account_sort_order: 3,
        account_notes: Some("main".to_string()),
        account_created_datetime: "2024-01-01T00:00:00+00:00".to_string(),
        account_archived_datetime: if archived { Some("2024-02-01T00:00:00+00:00".to_string()) } else { None },
    }
}

fn create_input(name: &str, currency: &str, parent: Option<u128>) -> CreateAccount {
    CreateAccount {
        account_name: name.to_string(),
        parent_account_id: parent,
        account_type: AccountType::Liability,
        account_currency: currency.to_string(),
        account_sort_order: 7,
        account_notes: None,
    }
}

fn validation_message<T>(r: Result<T, CoreError>) -> String {
    match r {
        Err(CoreError::Validation(m)) => m,
        _ => panic!("expected a validation error"),
    }
}

fn not_found_message<T>(r: Result<T, CoreError>) -> String {
    match r {
        Err(CoreError::NotFound(m)) => m,
        _ => panic!("expected a not-found error"),
    }
}

#[test]
fn get_account_loads_by_hyphenated_lowercase_id() {
    let (flow, req) = get_one_account_by_id(ID);
    match req {
        Request::LoadAccount { account_id } => assert_eq!(account_id, ID_TEXT),
        _ => panic!("expected a load"),
    }
    let a = flow.finish(Reply::Account(Some(account(ID, true)))).unwrap();
    assert_eq!(a.account_id, ID);
    assert!(a.account_archived_datetime.is_some());
}

#[test]
fn get_account_missing_is_not_found() {
    let (flow, _) = get_one_account_by_id(ID);
    let m = not_found_message(flow.finish(Reply::Account(None)));
    assert_eq!(m, format!("account {} not found", ID_TEXT));
}

#[test]
fn get_account_database_error_is_kept() {
    let (flow, _) = get_one_account_by_id(ID);
    match flow.finish(Reply::Failed(sqlx::Error::RowNotFound)) {
        Err(CoreError::Database(sqlx::Error::RowNotFound)) => {},
        _ => panic!("expected the database error"),
    }
}

#[test]
fn list_accounts_passes_limit_and_rows() {
    let (flow, req) = list_nonarchived_accounts(25);
    match req {
        Request::ListNonarchivedAccounts { limit } => assert_eq!(limit, 25),
        _ => panic!("expected a listing"),
    }
    let rows = flow.finish(Reply::Accounts(vec![account(ID, false), account(PARENT, false)])).unwrap();
    assert_eq!(rows.len(), 2);
    assert_eq!(rows[1].account_id, PARENT);
}

#[test]
fn create_account_blank_name_is_refused() {
    match create_account(create_input(" \t ", "usd", None), &fresh()) {
        Next::Done(r) => assert_eq!(validation_message(r), "account_name cannot be empty!"),
        _ => panic!("expected a refusal"),
    }
}

#[test]
fn create_account_blank_currency_is_refused() {
    match create_account(create_input("Card", "  ", None), &fresh()) {
        Next::Done(r) => assert_eq!(validation_message(r), "account_currency cannot be empty!"),
        _ => panic!("expected a refusal"),
    }
}

#[test]
fn create_account_without_parent_inserts_normalised_row() {
    let f = fresh();
    match create_account(create_input("  Credit Card \n", " usd ", None), &f) {
        Next::Ask(flow, Request::InsertAccount(row)) => {
            assert_eq!(flow.awaited_reply(), ReplyKind::Executed);
            assert_eq!(row.account_id, ID_TEXT);
            assert_eq!(row.account_name, "Credit Card");
            assert_eq!(row.parent_account_id, None);
            assert_eq!(row.account_type, "liability");
            assert_eq!(row.account_currency, "USD");
            assert_eq!(row.account_sort_order, 7);
            assert_eq!(row.account_notes, None);
            assert_eq!(row.account_created_datetime, f.now);
            let flow = match flow.step(Reply::Executed, &fresh()) {
                Next::Ask(flow, Request::LoadAccount { account_id }) => {
                    assert_eq!(account_id, ID_TEXT);
                    flow
                },
                _ => panic!("expected the row to be read back"),
            };
            match flow.step(Reply::Account(Some(account(ID, false))), &fresh()) {
                Next::Done(Ok(a)) => assert_eq!(a.account_id, ID),
                _ => panic!("expected the created account"),
            }
        },
        _ => panic!("expected an insert"),
    }
}

#[test]
fn create_account_with_archived_parent_is_refused() {
    let flow = match create_account(create_input("Groceries", "eur", Some(PARENT)), &fresh()) {
        Next::Ask(flow, Request::LoadAccount { account_id }) => {
            assert_eq!(account_id, PARENT_TEXT);
            flow
        },
        _ => panic!("expected the parent to be read"),
    };
    match flow.step(Reply::Account(Some(account(PARENT, true))), &fresh()) {
        Next::Done(r) => assert_eq!(validation_message(r), "cannot assign a child account to an archived parent!"),
        _ => panic!("expected a refusal"),
    }
}

#[test]
fn create_account_with_missing_parent_is_not_found() {
    let flow = match create_account(create_input("Groceries", "eur", Some(PARENT)), &fresh()) {
        Next::Ask(flow, _) => flow,
        _ => panic!("expected the parent to be read"),
    };
    match flow.step(Reply::Account(None), &fresh()) {
        Next::Done(r) => assert_eq!(not_found_message(r), format!("account {} not found", PARENT_TEXT)),
        _ => panic!("expected not found"),
    }
}

#[test]
fn create_account_with_active_parent_inserts_child() {
    let flow = match create_account(create_input("Groceries", "eur", Some(PARENT)), &fresh()) {
        Next::Ask(flow, _) => flow,
        _ => panic!("expected the parent to be read"),
    };
    match flow.step(Reply::Account(Some(account(PARENT, false))), &fresh()) {
        Next::Ask(_, Request::InsertAccount(row)) => {
            assert_eq!(row.parent_account_id, Some(PARENT_TEXT.to_string()));
            assert_eq!(row.account_currency, "EUR");
        },
        _ => panic!("expected an insert"),
    }
}

fn empty_update() -> UpdateAccount {
    UpdateAccount {
        account_name: None,
        parent_account_id: None,
        account_type: None,
        account_currency: None,
        account_sort_order: None,
        account_notes: None,
    }
}

#[test]
fn update_account_of_archived_account_is_refused() {
    let (flow, _) = update_account(ID, empty_update());
    match flow.step(Reply::Account(Some(account(ID, true)))) {
        Next::Done(r) => assert_eq!(validation_message(r), "Cannot update an archived account!"),
        _ => panic!("expected a refusal"),
    }
}

#[test]
fn update_account_blank_name_is_refused() {
    let mut input = empty_update();
    input.account_name = Some("   ".to_string());
    let (flow, _) = update_account(ID, input);
    match flow.step(Reply::Account(Some(account(ID, false)))) {
        Next::Done(r) => assert_eq!(validation_message(r), "account_name cannot be empty on update!"),
        _ => panic!("expected a refusal"),
    }
}

#[test]
fn update_account_to_own_parent_is_refused() {
    let mut input = empty_update();
    input.parent_account_id = Some(Some(ID));
    let (flow, _) = update_account(ID, input);
    match flow.step(Reply::Account(Some(account(ID, false)))) {
        Next::Done(r) => assert_eq!(validation_message(r), "An account cannot be updated to be its own parent!"),
        _ => panic!("expected a refusal"),
    }
}

#[test]
fn update_account_to_archived_parent_is_refused() {
    let mut input = empty_update();
    input.parent_account_id = Some(Some(PARENT));
    let (flow, _) = update_account(ID, input);
    let flow = match flow.step(Reply::Account(Some(account(ID, false)))) {
        Next::Ask(flow, Request::LoadAccount { account_id }) => {
            assert_eq!(account_id, PARENT_TEXT);
            flow
        },
        _ => panic!("expected the parent to be read"),
    };
    match flow.step(Reply::Account(Some(account(PARENT, true)))) {
        Next::Done(r) => assert_eq!(
            validation_message(r),
            "Cannot update a child account to an archived parent account!"
        ),
        _ => panic!("expected a refusal"),
    }
}

#[test]
fn update_account_missing_is_not_found() {
    let (flow, _) = update_account(ID, empty_update());
    match flow.step(Reply::Account(None)) {
        Next::Done(r) => assert_eq!(not_found_message(r), format!("account {} not found", ID_TEXT)),
        _ => panic!("expected not found"),
    }
}

#[test]
fn update_account_changes_only_given_fields() {
    let mut input = empty_update();
    input.account_currency = Some(" cad".to_string());
    input.account_type = Some(AccountType::Equity);
    input.account_notes = Some(None);
    let (flow, _) = update_account(ID, input);
    match flow.step(Reply::Account(Some(account(ID, false)))) {
        Next::Ask(flow, Request::UpdateAccount(c)) => {
            assert_eq!(c.account_id, ID_TEXT);
            assert_eq!(c.account_name, "Checking");
            assert_eq!(c.parent_account_id, None);
            assert_eq!(c.account_type, "equity");
            assert_eq!(c.account_currency, "CAD");
            assert_eq!(c.account_sort_order, 3);
            assert_eq!(c.account_notes, None);
            match flow.step(Reply::Executed) {
                Next::Ask(_, Request::LoadAccount { account_id }) => assert_eq!(account_id, ID_TEXT),
                _ => panic!("expected the row to be read back"),
            }
        },
        _ => panic!("expected a write"),
    }
}

#[test]
fn update_account_with_empty_input_writes_existing_values() {
    let (flow, _) = update_account(ID, empty_update());
    let mut existing = account(ID, false);
    existing.parent_account_id = Some(PARENT);
    match flow.step(Reply::Account(Some(existing))) {
        Next::Ask(_, Request::UpdateAccount(c)) => {
            assert_eq!(c.account_name, "Checking");
            assert_eq!(c.parent_account_id, Some(PARENT_TEXT.to_string()));
            assert_eq!(c.account_type, "asset");
            assert_eq!(c.account_currency, "USD");
            assert_eq!(c.account_sort_order, 3);
            assert_eq!(c.account_notes, Some("main".to_string()));
        },
        _ => panic!("expected a write"),
    }
}

#[test]
fn update_account_name_is_kept_untrimmed() {
    let mut input = empty_update();
    input.account_name = Some(" Savings ".to_string());
    let (flow, _) = update_account(ID, input);
    match flow.step(Reply::Account(Some(account(ID, false)))) {
        Next::Ask(_, Request::UpdateAccount(c)) => assert_eq!(c.account_name, " Savings "),
        _ => panic!("expected a write"),
    }
}

#[test]
fn archive_account_already_archived_is_refused() {
    let (flow, _) = archive_account(ID);
    match flow.step(Reply::Account(Some(account(ID, true))), &fresh()) {
        Next::Done(r) => assert_eq!(validation_message(r), "Cannot archive an already-archived account!"),
        _ => panic!("expected a refusal"),
    }
}

#[test]
fn archive_account_with_active_children_is_refused() {
    let (flow, _) = archive_account(ID);
    let flow = match flow.step(Reply::Account(Some(account(ID, false))), &fresh()) {
        Next::Ask(flow, Request::CountActiveChildAccounts { account_id }) => {
            assert_eq!(account_id, ID_TEXT);
            flow
        },
        _ => panic!("expected the children to be counted"),
    };
    match flow.step(Reply::Count(2), &fresh()) {
        Next::Done(r) => assert_eq!(validation_message(r), "Cannot archive an account with active children!"),
        _ => panic!("expected a refusal"),
    }
}

#[test]
fn archive_account_with_splits_is_refused() {
    let (flow, _) = archive_account(ID);
    let flow = match flow.step(Reply::Account(Some(account(ID, false))), &fresh()) {
        Next::Ask(flow, _) => flow,
        _ => panic!("expected the children to be counted"),
    };
    let flow = match flow.step(Reply::Count(0), &fresh()) {
        Next::Ask(flow, Request::CountAccountSplits { account_id }) => {
            assert_eq!(account_id, ID_TEXT);
            flow
        },
        _ => panic!("expected the splits to be counted"),
    };
    match flow.step(Reply::Count(1), &fresh()) {
        Next::Done(r) => assert_eq!(
            validation_message(r),
            "Cannot archive an account with recorded transactions; Either re-assign or re-consider!"
        ),
        _ => panic!("expected a refusal"),
    }
}

#[test]
fn archive_account_stamps_time_and_reads_back() {
    let (flow, _) = archive_account(ID);
    let flow = match flow.step(Reply::Account(Some(account(ID, false))), &fresh()) {
        Next::Ask(flow, _) => flow,
        _ => panic!("expected the children to be counted"),
    };
    let flow = match flow.step(Reply::Count(0), &fresh()) {
        Next::Ask(flow, _) => flow,
        _ => panic!("expected the splits to be counted"),
    };
    let f = fresh();
    let flow = match flow.step(Reply::Count(0), &f) {
        Next::Ask(flow, Request::ArchiveAccount { account_id, archived_datetime }) => {
            assert_eq!(account_id, ID_TEXT);
            assert_eq!(archived_datetime, f.now);
            flow
        },
        _ => panic!("expected the archive to be written"),
    };
    let flow = match flow.step(Reply::Executed, &fresh()) {
        Next::Ask(flow, Request::LoadAccount { .. }) => flow,
        _ => panic!("expected the row to be read back"),
    };
    match flow.step(Reply::Account(Some(account(ID, true))), &fresh()) {
        Next::Done(Ok(a)) => assert!(a.account_archived_datetime.is_some()),
        _ => panic!("expected the archived account"),
    }
}

#[test]
fn archive_account_database_error_ends_the_flow() {
    let (flow, _) = archive_account(ID);
    let flow = match flow.step(Reply::Account(Some(account(ID, false))), &fresh()) {
        Next::Ask(flow, _) => flow,
        _ => panic!("expected the children to be counted"),
    };
    match flow.step(Reply::Failed(sqlx::Error::PoolTimedOut), &fresh()) {
        Next::Done(Err(CoreError::Database(_))) => {},
        _ => panic!("expected the database error"),
    }
}

#[test]
fn account_type_text_round_trips() {
    for t in [AccountType::Income, AccountType::Expense, AccountType::Asset, AccountType::Liability, AccountType::Equity] {
        assert_eq!(AccountType::from_text(&t.to_text()), Some(t));
    }
    assert_eq!(AccountType::Expense.to_text(), "expense");
    assert_eq!(AccountType::from_text("Income"), None);
}

#[test]
fn request_and_reply_kinds_agree() {
    assert_eq!(Request::CountAccountSplits { account_id: String::new() }.expected_reply(), ReplyKind::Count);
    assert!(Reply::Count(0).has_kind(ReplyKind::Count));
    assert!(!Reply::Executed.has_kind(ReplyKind::Account));
    assert!(Reply::Failed(sqlx::Error::RowNotFound).has_kind(ReplyKind::Payees));
}

fn sample_update() -> UpdateAccount {
    UpdateAccount {
        account_name: Some("Bills".to_string()),
        parent_account_id: Some(Some(PARENT)),
        account_type: None,
        account_currency: Some(" chf ".to_string()),
        account_sort_order: None,
        account_notes: Some(Some("monthly".to_string())),
    }
}

fn changes_for(existing: Account) -> smok_finance::db::AccountChanges {
    let (flow, _) = update_account(ID, sample_update());
    let flow = match flow.step(Reply::Account(Some(existing))) {
        Next::Ask(flow, Request::LoadAccount { .. }) => flow,
        _ => panic!("expected the parent to be read"),
    };
    match flow.step(Reply::Account(Some(account(PARENT, false)))) {
        Next::Ask(_, Request::UpdateAccount(c)) => c,
        _ => panic!("expected a write"),
    }
}

#[test]
fn repeating_an_update_writes_the_same_values() {
    let first = changes_for(account(ID, false));
    let stored = Account {
        account_id: ID,
        account_name: first.account_name.clone(),
        parent_account_id: Some(PARENT),
        account_type: AccountType::from_text(&first.account_type).unwrap(),
        account_currency: first.account_currency.clone(),
        account_sort_order: first.account_sort_order,
        account_notes: first.account_notes.clone(),
        account_created_datetime: "2024-01-01T00:00:00+00:00".to_string(),
        account_archived_datetime: None,
    };
    let second = changes_for(stored);
    assert_eq!(second.account_name, first.account_name);
    assert_eq!(second.parent_account_id, first.parent_account_id);
    assert_eq!(second.account_type, first.account_type);
    assert_eq!(second.account_currency, first.account_currency);
    assert_eq!(second.account_sort_order, first.account_sort_order);
    assert_eq!(second.account_notes, first.account_notes);
}

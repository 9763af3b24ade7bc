use smok_finance::api::{
    default_limit, default_page, default_search_limit, fetch_limit, list_limit, page_offset_in_range, paginate, search_limit,
    ApiError, CreateAccountRequest, CreatePayeeRequest, ListParams, SearchParams, UpdateAccountRequest,
    UpdatePayeeRequest,
};
use smok_finance::db::{Fresh, Next, Reply, Request};
use smok_finance::error::CoreError;
use smok_finance::models::{AccountType, Payees};
use smok_finance::payees::{
    create_payee, get_payee_by_id, list_payees, search_payee_by_name, update_payee, CreatePayee, UpdatePayee,
};

const ID: u128 = 0xa1a2a3a4_b1b2_c1c2_d1d2_d3d4d5d6d7d8;
const ID_TEXT: &str = "a1a2a3a4-b1b2-c1c2-d1d2-d3d4d5d6d7d8";

fn payee() -> Payees {
    Payees {
        payee_id: ID,
        payee_name: "Corner Shop".to_string(),
        payee_phone: Some("555".to_string()),
        payee_address: None,
        payee_website: Some("shop.example".to_string()),
        payee_default_account_id: Some(1),
        payee_created_datetime: "2024-01-01T00:00:00+00:00".to_string(),
    }
}

#[test]
fn search_payees_wraps_trimmed_name() {
    let (flow, req) = search_payee_by_name("  Joe ", 20);
    match req {
        Request::SearchPayees { pattern, limit } => {
            assert_eq!(pattern, "%Joe%");
            assert_eq!(limit, 20);
        },
        _ => panic!("expected a search"),
    }
    let rows = flow.finish(Reply::Payees(vec![payee()])).unwrap();
    assert_eq!(rows.len(), 1);
}

#[test]
fn list_payees_passes_limit() {
    let (flow, req) = list_payees(7);
    match req {
        Request::ListPayees { limit } => assert_eq!(limit, 7),
        _ => panic!("expected a listing"),
    }
    assert!(flow.finish(Reply::Payees(Vec::new())).unwrap().is_empty());
}

#[test]
fn get_payee_missing_is_not_found() {
    let (flow, req) = get_payee_by_id(ID);
    match req {
        Request::LoadPayee { payee_id } => assert_eq!(payee_id, ID_TEXT),
        _ => panic!("expected a load"),
    }
    match flow.finish(Reply::Payee(None)) {
        Err(CoreError::NotFound(m)) => assert_eq!(m, format!("Payee {} not found!", ID_TEXT)),
        _ => panic!("expected not found"),
    }
}

#[test]
fn create_payee_blank_name_is_refused() {
    let input = CreatePayee {
        payee_name: "  ".to_string(),
        payee_phone: None,
        payee_address: None,
        payee_website: None,
        payee_default_account_id: None,
    };
    match create_payee(input, &Fresh { id: ID, now: "t".to_string() }) {
        Next::Done(Err(CoreError::Validation(m))) => assert_eq!(m, "Payee name cannot be empty!"),
        _ => panic!("expected a refusal"),
    }
}

#[test]
fn create_payee_inserts_each_field_once() {
    let input = CreatePayee {
        payee_name: " Bakery ".to_string(),
        payee_phone: Some("1".to_string()),
        payee_address: Some("2 Main St".to_string()),
        payee_website: Some("b.example".to_string()),
        payee_default_account_id: Some(0xff),
    };
    match create_payee(input, &Fresh { id: ID, now: "2024-05-05T00:00:00+00:00".to_string() }) {
        Next::Ask(flow, Request::InsertPayee(row)) => {
            assert_eq!(row.payee_id, ID_TEXT);
            assert_eq!(row.payee_name, "Bakery");
            assert_eq!(row.payee_phone, Some("1".to_string()));
            assert_eq!(row.payee_address, Some("2 Main St".to_string()));
            assert_eq!(row.payee_website, Some("b.example".to_string()));
            assert_eq!(row.payee_default_account_id, Some("00000000-0000-0000-0000-0000000000ff".to_string()));
            assert_eq!(row.payee_created_datetime, "2024-05-05T00:00:00+00:00");
            let flow = match flow.step(Reply::Executed) {
                Next::Ask(flow, Request::LoadPayee { payee_id }) => {
                    assert_eq!(payee_id, ID_TEXT);
                    flow
                },
                _ => panic!("expected the row to be read back"),
            };
            match flow.step(Reply::Payee(Some(payee()))) {
                Next::Done(Ok(p)) => assert_eq!(p.payee_id, ID),
                _ => panic!("expected the payee"),
            }
        },
        _ => panic!("expected an insert"),
    }
}

#[test]
fn update_payee_merges_given_fields() {
    let input = UpdatePayee {
        payee_name: None,
        payee_phone: Some(None),
        payee_address: Some(Some("9 High St".to_string())),
        payee_website: None,
        payee_default_account_id: Some(None),
    };
    let (flow, _) = update_payee(ID, input);
    match flow.step(Reply::Payee(Some(payee()))) {
        Next::Ask(_, Request::UpdatePayee(c)) => {
            assert_eq!(c.payee_id, ID_TEXT);
            assert_eq!(c.payee_name, "Corner Shop");
            assert_eq!(c.payee_phone, None);
            assert_eq!(c.payee_address, Some("9 High St".to_string()));
            assert_eq!(c.payee_website, Some("shop.example".to_string()));
            assert_eq!(c.payee_default_account_id, None);
        },
        _ => panic!("expected a write"),
    }
}

#[test]
fn update_payee_blank_name_is_refused() {
    let input = UpdatePayee {
        payee_name: Some("\t".to_string()),
        payee_phone: None,
        payee_address: None,
        payee_website: None,
        payee_default_account_id: None,
    };
    let (flow, _) = update_payee(ID, input);
    match flow.step(Reply::Payee(Some(payee()))) {
        Next::Done(Err(CoreError::Validation(m))) => assert_eq!(m, "Payee name cannot be empty!"),
        _ => panic!("expected a refusal"),
    }
}

#[test]
fn listing_defaults() {
    assert_eq!(default_page(), 1);
    assert_eq!(default_limit(), 1000);
    assert_eq!(default_search_limit(), 20);
    let p = ListParams { page: default_page(), page_limit: default_limit() };
    assert_eq!(list_limit(p.page_limit), 1000);
    let s = SearchParams { name: "x".to_string(), limit: default_search_limit() };
    assert_eq!(search_limit(s.limit), 20);
}

#[test]
fn limits_are_clamped() {
    assert_eq!(list_limit(0), 1);
    assert_eq!(list_limit(-5), 1);
    assert_eq!(list_limit(50), 50);
    assert_eq!(list_limit(5000), 1000);
    assert_eq!(search_limit(0), 1);
    assert_eq!(search_limit(100), 20);
    assert_eq!(search_limit(3), 3);
}

#[test]
fn paginate_slices_rows() {
    let r = paginate(vec![1, 2, 3, 4, 5], 2, 2);
    assert_eq!(r.payload, vec![3, 4]);
    assert_eq!(r.page, 2);
    assert_eq!(r.page_limit, 2);
    assert_eq!(r.total_results, 2);
    let r = paginate(vec![1, 2, 3, 4, 5], 3, 2);
    assert_eq!(r.payload, vec![5]);
    let r = paginate(vec![1, 2, 3], 1, 1000);
    assert_eq!(r.payload, vec![1, 2, 3]);
    assert_eq!(r.total_results, 3);
}

#[test]
fn paginate_out_of_range_pages_are_empty() {
    assert!(paginate(vec![1, 2, 3], 2, 1000).payload.is_empty());
    assert!(paginate(vec![1, 2, 3], 0, 2).payload.is_empty());
    assert!(paginate(vec![1, 2, 3], -4, 2).payload.is_empty());
    assert_eq!(paginate(Vec::<u8>::new(), 1, 10).total_results, 0);
}

#[test]
fn page_offset_range_check() {
    assert!(page_offset_in_range(1, 1000));
    assert!(page_offset_in_range(-3, 10));
    assert!(!page_offset_in_range(i64::MAX, 2));
    assert!(!page_offset_in_range(i64::MIN, 1));
    assert!(page_offset_in_range(i64::MAX, 1));
}

#[test]
fn create_account_request_defaults() {
    let r = CreateAccountRequest {
        account_name: "Cash".to_string(),
        parent_account_id: None,
        account_type: AccountType::Asset,
        account_currency: None,
        account_sort_order: None,
        account_notes: None,
    }
    .into_input();
    assert_eq!(r.account_currency, "USD");
    assert_eq!(r.account_sort_order, 0);
    let r = CreateAccountRequest {
        account_name: "Cash".to_string(),
        parent_account_id: Some(4),
        account_type: AccountType::Asset,
        account_currency: Some("gbp".to_string()),
        account_sort_order: Some(9),
        account_notes: Some("n".to_string()),
    }
    .into_input();
    assert_eq!(r.account_currency, "gbp");
    assert_eq!(r.account_sort_order, 9);
    assert_eq!(r.parent_account_id, Some(4));
    assert_eq!(r.account_notes, Some("n".to_string()));
}

#[test]
fn update_account_request_omitted_notes_are_kept() {
    let r = UpdateAccountRequest {
        account_name: None,
        parent_account_id: None,
        account_type: None,
        account_currency: None,
        account_sort_order: None,
        account_notes: None,
    }
    .into_input();
    assert_eq!(r.account_notes, None);
    assert!(r.account_name.is_none());
    let r = UpdateAccountRequest {
        account_name: None,
        parent_account_id: None,
        account_type: None,
        account_currency: None,
        account_sort_order: None,
        account_notes: Some(None),
    }
    .into_input();
    assert_eq!(r.account_notes, Some(None));
}

#[test]
fn payee_requests_carry_fields() {
    let c = CreatePayeeRequest {
        payee_name: "A".to_string(),
        payee_phone: None,
        payee_address: Some("x".to_string()),
        payee_website: None,
        payee_default_account_id: Some(2),
    }
    .into_input();
    assert_eq!(c.payee_name, "A");
    assert_eq!(c.payee_address, Some("x".to_string()));
    assert_eq!(c.payee_default_account_id, Some(2));
    let u = UpdatePayeeRequest {
        payee_name: Some("B".to_string()),
        payee_phone: Some(None),
        payee_address: None,
        payee_website: None,
        payee_default_account_id: None,
    }
    .into_input();
    assert_eq!(u.payee_name, Some("B".to_string()));
    assert_eq!(u.payee_phone, Some(None));
}

#[test]
fn error_responses() {
    let (s, m) = ApiError::from(CoreError::NotFound("gone".to_string())).status_and_message();
    assert_eq!((s, m.as_str()), (404, "gone"));
    let (s, m) = ApiError::from(CoreError::Validation("bad".to_string())).status_and_message();
    assert_eq!((s, m.as_str()), (422, "bad"));
    let (s, m) = ApiError::from(CoreError::Database(sqlx::Error::RowNotFound)).status_and_message();
    assert_eq!((s, m.as_str()), (500, "Internal server error"));
}

#[test]
fn fresh_draws_differ() {
    let a = Fresh::draw();
    let b = Fresh::draw();
    assert_ne!(a.id, b.id);
    assert_eq!((a.id >> 76) & 0xf, 4);
    assert_eq!((a.id >> 62) & 0x3, 2);
    assert_eq!((b.id >> 76) & 0xf, 4);
    assert!(a.now.contains('T'));
    assert!(a.now.ends_with("+00:00"));
    let t: Vec<char> = a.now.chars().collect();
    assert!(t.len() == 25 || t.len() == 29 || t.len() == 32 || t.len() == 35);
    assert_eq!((t[4], t[7], t[10], t[13], t[16]), ('-', '-', 'T', ':', ':'));
    assert!(t[..4].iter().all(|c| c.is_ascii_digit()));
}

#[test]
fn fetch_covers_the_asked_page() {
    assert_eq!(fetch_limit(1, 1000), 1000);
    assert_eq!(fetch_limit(3, 20), 60);
    assert_eq!(fetch_limit(0, 50), 50);
    assert_eq!(fetch_limit(-2, 7), 7);
    assert_eq!(fetch_limit(i64::MAX, 2), i64::MAX);
    let all: Vec<u32> = (0..100).collect();
    let fetched: Vec<u32> = all.iter().copied().take(fetch_limit(3, 20) as usize).collect();
    let page = paginate(fetched, 3, 20);
    assert_eq!(page.payload, (40..60).collect::<Vec<u32>>());
    assert_eq!(page.total_results, 20);
}

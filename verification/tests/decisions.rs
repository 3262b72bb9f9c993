use exchange_requests::rules::{
    decide_admin_grant, decide_admin_update, decide_dashboard_access, decide_user_completion,
    draft_exchange_request, revise,
};
use exchange_requests::{
    Admin, ExchangeRequest, Identity, Privilege, RequestError, RequestStatus, Timestamp,
};

fn identity(n: u128) -> Identity {
    Identity::from_halves(0, n)
}

fn at(micros: i64) -> Timestamp {
    Timestamp::from_micros_since_unix_epoch(micros)
}

fn text(s: &str) -> String {
    String::from(s)
}

fn stored(id: u64, owner: Identity, status: RequestStatus, notes: &str) -> ExchangeRequest {
    ExchangeRequest {
        request_id: id,
        user_identity: owner,
        user_wallet_address: text("0xabc"),
        phone_number: text("+260"),
        full_name: text("Chanda"),
        usdc_amount: 1000,
        kwacha_amount: 26_500,
        status,
        created_at: at(5),
        notes: text(notes),
    }
}

fn error_of(decision: Result<ExchangeRequest, RequestError>) -> RequestError {
    match decision {
        Ok(_) => panic!("the decision was a success"),
        Err(error) => error,
    }
}

#[test]
fn draft_holds_what_the_caller_gave() {
    let row: ExchangeRequest = draft_exchange_request(
        identity(7),
        at(123),
        text("0xabc"),
        text("+260 97"),
        text("Chanda Mwale"),
        10_000_000,
        text("please hurry"),
    )
    .unwrap();
    assert_eq!(row.request_id, 0);
    assert_eq!(row.user_identity, identity(7));
    assert_eq!(row.user_wallet_address, "0xabc");
    assert_eq!(row.phone_number, "+260 97");
    assert_eq!(row.full_name, "Chanda Mwale");
    assert_eq!(row.usdc_amount, 1000);
    assert_eq!(row.kwacha_amount, 26_500);
    assert_eq!(row.status, RequestStatus::Pending);
    assert_eq!(row.created_at, at(123));
    assert_eq!(row.notes, "please hurry");
}

#[test]
fn draft_rounds_both_amounts_from_the_amount_given() {
    let row: ExchangeRequest =
        draft_exchange_request(identity(1), at(0), text(""), text(""), text(""), 1_234_567, text(""))
            .unwrap();
    assert_eq!(row.usdc_amount, 123);
    assert_eq!(row.kwacha_amount, 3272);
}

#[test]
fn draft_of_a_tiny_amount_stores_zero() {
    let row: ExchangeRequest =
        draft_exchange_request(identity(1), at(0), text(""), text(""), text(""), 1, text(""))
            .unwrap();
    assert_eq!(row.usdc_amount, 0);
    assert_eq!(row.kwacha_amount, 0);
    assert_eq!(row.status, RequestStatus::Pending);
}

#[test]
fn draft_of_zero_is_invalid() {
    let decision =
        draft_exchange_request(identity(1), at(0), text("w"), text("p"), text("n"), 0, text(""));
    assert_eq!(error_of(decision), RequestError::Validation);
}

#[test]
fn draft_of_a_negative_amount_is_invalid() {
    let decision =
        draft_exchange_request(identity(1), at(0), text("w"), text("p"), text("n"), -1, text(""));
    assert_eq!(error_of(decision), RequestError::Validation);
    let decision = draft_exchange_request(
        identity(1),
        at(0),
        text("w"),
        text("p"),
        text("n"),
        i64::MIN,
        text(""),
    );
    assert_eq!(error_of(decision), RequestError::Validation);
}

#[test]
fn draft_of_the_largest_amount_succeeds() {
    let row: ExchangeRequest = draft_exchange_request(
        identity(1),
        at(0),
        text(""),
        text(""),
        text(""),
        i64::MAX,
        text(""),
    )
    .unwrap();
    assert_eq!(row.usdc_amount, 922_337_203_685_478);
    assert_eq!(row.kwacha_amount, 24_441_935_897_665_156);
}

#[test]
fn revise_changes_status_and_trail_only() {
    let row: ExchangeRequest = stored(3, identity(1), RequestStatus::Pending, "a");
    let changed: ExchangeRequest = revise(row.clone(), RequestStatus::InProgress, text("b"));
    assert_eq!(changed.status, RequestStatus::InProgress);
    assert_eq!(changed.notes, "a | b");
    assert_eq!(changed.request_id, row.request_id);
    assert_eq!(changed.user_identity, row.user_identity);
    assert_eq!(changed.user_wallet_address, row.user_wallet_address);
    assert_eq!(changed.phone_number, row.phone_number);
    assert_eq!(changed.full_name, row.full_name);
    assert_eq!(changed.usdc_amount, row.usdc_amount);
    assert_eq!(changed.kwacha_amount, row.kwacha_amount);
    assert_eq!(changed.created_at, row.created_at);
}

#[test]
fn revise_with_an_empty_note_keeps_the_trail() {
    let row: ExchangeRequest = stored(3, identity(1), RequestStatus::Pending, "a");
    let changed: ExchangeRequest = revise(row, RequestStatus::Cancelled, text(""));
    assert_eq!(changed.status, RequestStatus::Cancelled);
    assert_eq!(changed.notes, "a");
}

#[test]
fn admin_update_is_refused_to_a_non_admin() {
    let found = Some(stored(3, identity(1), RequestStatus::Pending, ""));
    let decision = decide_admin_update(false, 3, found, RequestStatus::InProgress, text("x"));
    assert_eq!(error_of(decision), RequestError::Authorization(Privilege::UpdateStatus));
}

#[test]
fn admin_update_checks_the_privilege_before_the_request() {
    let decision = decide_admin_update(false, 3, None, RequestStatus::InProgress, text("x"));
    assert_eq!(error_of(decision), RequestError::Authorization(Privilege::UpdateStatus));
}

#[test]
fn admin_update_of_a_missing_request_is_not_found() {
    let decision = decide_admin_update(true, 31, None, RequestStatus::InProgress, text("x"));
    assert_eq!(error_of(decision), RequestError::NotFound(31));
}

#[test]
fn admin_update_gives_any_status() {
    let all: Vec<RequestStatus> = vec![
        RequestStatus::Pending,
        RequestStatus::InProgress,
        RequestStatus::Completed,
        RequestStatus::Cancelled,
    ];
    for from in all.clone() {
        for to in all.clone() {
            let found = Some(stored(3, identity(1), from, ""));
            let changed: ExchangeRequest =
                decide_admin_update(true, 3, found, to, text("")).unwrap();
            assert_eq!(changed.status, to);
            assert_eq!(changed.notes, "");
            assert_eq!(changed.request_id, 3);
        }
    }
}

#[test]
fn completion_of_a_missing_request_is_not_found() {
    let decision = decide_user_completion(identity(1), 8, None, text(""));
    assert_eq!(error_of(decision), RequestError::NotFound(8));
}

#[test]
fn completion_is_refused_to_a_stranger() {
    let found = Some(stored(8, identity(1), RequestStatus::Pending, ""));
    let decision = decide_user_completion(identity(2), 8, found, text(""));
    assert_eq!(error_of(decision), RequestError::Authorization(Privilege::OwnRequest));
}

#[test]
fn completion_checks_the_owner_before_the_status() {
    let found = Some(stored(8, identity(1), RequestStatus::Completed, ""));
    let decision = decide_user_completion(identity(2), 8, found, text(""));
    assert_eq!(error_of(decision), RequestError::Authorization(Privilege::OwnRequest));
}

#[test]
fn completion_of_a_terminal_request_is_an_invalid_state() {
    let completed = Some(stored(8, identity(1), RequestStatus::Completed, ""));
    let decision = decide_user_completion(identity(1), 8, completed, text(""));
    assert_eq!(error_of(decision), RequestError::InvalidState);
    let cancelled = Some(stored(8, identity(1), RequestStatus::Cancelled, ""));
    let decision = decide_user_completion(identity(1), 8, cancelled, text(""));
    assert_eq!(error_of(decision), RequestError::InvalidState);
}

#[test]
fn completion_of_an_open_request_succeeds() {
    let pending = Some(stored(8, identity(1), RequestStatus::Pending, "a"));
    let changed: ExchangeRequest =
        decide_user_completion(identity(1), 8, pending, text("b")).unwrap();
    assert_eq!(changed.status, RequestStatus::Completed);
    assert_eq!(changed.notes, "a | b");
    let in_progress = Some(stored(8, identity(1), RequestStatus::InProgress, ""));
    let changed: ExchangeRequest =
        decide_user_completion(identity(1), 8, in_progress, text("")).unwrap();
    assert_eq!(changed.status, RequestStatus::Completed);
    assert_eq!(changed.notes, "");
}

#[test]
fn dashboard_is_for_admins() {
    assert_eq!(decide_dashboard_access(true), Ok(()));
    assert_eq!(
        decide_dashboard_access(false),
        Err(RequestError::Authorization(Privilege::AdminDashboard))
    );
}

#[test]
fn first_admin_may_be_added_by_anyone() {
    let expected: Admin = Admin { identity: identity(5), added_at: at(77) };
    assert_eq!(decide_admin_grant(0, false, false, identity(5), at(77)), Ok(Some(expected)));
}

#[test]
fn later_admin_takes_an_admin() {
    assert_eq!(
        decide_admin_grant(1, false, false, identity(5), at(77)),
        Err(RequestError::Authorization(Privilege::AddAdmin))
    );
    let expected: Admin = Admin { identity: identity(5), added_at: at(77) };
    assert_eq!(decide_admin_grant(1, true, false, identity(5), at(77)), Ok(Some(expected)));
    assert_eq!(decide_admin_grant(u64::MAX, true, false, identity(5), at(77)), Ok(Some(expected)));
}

#[test]
fn known_admin_is_not_added_again() {
    assert_eq!(decide_admin_grant(3, true, true, identity(5), at(77)), Ok(None));
}

#[test]
fn non_admin_cannot_re_add_a_known_admin() {
    assert_eq!(
        decide_admin_grant(3, false, true, identity(5), at(77)),
        Err(RequestError::Authorization(Privilege::AddAdmin))
    );
}

//! The five operations on the tables. Each is one transaction: it commits
//! in full or fails and leaves the tables as they were.

use crate::error::{InsertFault, RequestError};
use crate::ledger::{Ledger, LedgerView};
use crate::model::{Admin, Identity, RequestStatus, RequestView, Timestamp};
use crate::rules::{
    admin_grant_outcome, admin_update_outcome, dashboard_outcome, decide_admin_grant,
    decide_admin_update, decide_dashboard_access, decide_user_completion, draft_exchange_request,
    drafted_request, user_completion_outcome,
};
use vstd::prelude::*;

verus! {

/// What a lookup of `request_id` gives.
pub open spec fn lookup(tables: LedgerView, request_id: u64) -> Option<RequestView> {
    if tables.requests.contains_key(request_id) {
        Some(tables.requests[request_id])
    } else {
        None
    }
}

/// What an operation answers, given what its decision was.
pub open spec fn answer<T>(decision: Result<T, RequestError>) -> Result<(), RequestError> {
    match decision {
        Ok(_) => Ok(()),
        Err(error) => Err(error),
    }
}

/// The answer to a request for `usdc_micros` millionths of a USDC: refused
/// unless the amount is positive, and failing when the table has no
/// identifier left.
pub open spec fn create_outcome(tables: LedgerView, usdc_micros: int) -> Result<(), RequestError> {
    if usdc_micros <= 0 {
        Err(RequestError::Validation)
    } else if tables.next_request_id == u64::MAX {
        Err(RequestError::Storage(InsertFault::RequestIdsExhausted))
    } else {
        Ok(())
    }
}

/// The tables after a request was asked for: with the new row under the
/// next identifier where the answer is a success, unchanged otherwise.
pub open spec fn create_effect(
    tables: LedgerView,
    sender: Identity,
    timestamp: Timestamp,
    user_wallet_address: Seq<char>,
    phone_number: Seq<char>,
    full_name: Seq<char>,
    usdc_micros: int,
    notes: Seq<char>,
) -> LedgerView {
    if create_outcome(tables, usdc_micros) is Ok {
        tables.with_new_request(
            drafted_request(
                sender,
                timestamp,
                user_wallet_address,
                phone_number,
                full_name,
                usdc_micros,
                notes,
            ),
        )
    } else {
        tables
    }
}

/// Creates a request owned by `sender` for `usdc_micros` millionths of a
/// USDC. The kwacha amount is fixed here, at the rate of this moment.
pub fn create_exchange_request(
    ledger: &mut Ledger,
    sender: Identity,
    timestamp: Timestamp,
    user_wallet_address: String,
    phone_number: String,
    full_name: String,
    usdc_micros: i64,
    notes: String,
) -> (outcome: Result<(), RequestError>)
    requires
        old(ledger).wf(),
    ensures
        final(ledger).wf(),
        outcome == create_outcome(old(ledger)@, usdc_micros as int),
        final(ledger)@ == create_effect(
            old(ledger)@,
            sender,
            timestamp,
            user_wallet_address@,
            phone_number@,
            full_name@,
            usdc_micros as int,
            notes@,
        ),
        outcome is Err ==> final(ledger)@ == old(ledger)@,
{
    let draft = match draft_exchange_request(
        sender,
        timestamp,
        user_wallet_address,
        phone_number,
        full_name,
        usdc_micros,
        notes,
    ) {
        Ok(draft) => draft,
        Err(error) => {
            return Err(error);
        },
    };
    match ledger.insert_request(draft) {
        Ok(_) => Ok(()),
        Err(fault) => Err(RequestError::Storage(fault)),
    }
}

/// The decision on a status change that `sender` asks for as an
/// administrator.
pub open spec fn admin_update_decision(
    tables: LedgerView,
    sender: Identity,
    request_id: u64,
    new_status: RequestStatus,
    notes: Seq<char>,
) -> Result<RequestView, RequestError> {
    admin_update_outcome(
        tables.is_admin(sender),
        request_id,
        lookup(tables, request_id),
        new_status,
        notes,
    )
}

/// The tables after a status change was asked for by `sender` as an
/// administrator.
pub open spec fn admin_update_effect(
    tables: LedgerView,
    sender: Identity,
    request_id: u64,
    new_status: RequestStatus,
    notes: Seq<char>,
) -> LedgerView {
    match admin_update_decision(tables, sender, request_id, new_status, notes) {
        Ok(row) => tables.with_request(row),
        Err(_) => tables,
    }
}

/// Sets the status of a request and adds a note to its trail, for an
/// administrator. Administrators may move a request from any status to
/// any other.
pub fn update_request_status_admin(
    ledger: &mut Ledger,
    sender: Identity,
    request_id: u64,
    new_status: RequestStatus,
    notes: String,
) -> (outcome: Result<(), RequestError>)
    requires
        old(ledger).wf(),
    ensures
        final(ledger).wf(),
        outcome == answer(
            admin_update_decision(old(ledger)@, sender, request_id, new_status, notes@),
        ),
        final(ledger)@ == admin_update_effect(
            old(ledger)@,
            sender,
            request_id,
            new_status,
            notes@,
        ),
        outcome is Err ==> final(ledger)@ == old(ledger)@,
{
    proof {
        ledger.view_is_wf();
    }
    let caller_is_admin: bool = ledger.is_admin(sender);
    let found = ledger.find_request(request_id);
    match decide_admin_update(caller_is_admin, request_id, found, new_status, notes) {
        Ok(row) => {
            ledger.update_request(row);
            Ok(())
        },
        Err(error) => Err(error),
    }
}

/// The decision on the completion of a request that `sender` asks for as
/// its owner.
pub open spec fn user_completion_decision(
    tables: LedgerView,
    sender: Identity,
    request_id: u64,
    notes: Seq<char>,
) -> Result<RequestView, RequestError> {
    user_completion_outcome(sender, request_id, lookup(tables, request_id), notes)
}

/// The tables after `sender` asked for the completion of a request.
pub open spec fn user_completion_effect(
    tables: LedgerView,
    sender: Identity,
    request_id: u64,
    notes: Seq<char>,
) -> LedgerView {
    match user_completion_decision(tables, sender, request_id, notes) {
        Ok(row) => tables.with_request(row),
        Err(_) => tables,
    }
}

/// Marks a request completed, for its owner, and adds a note to its trail.
/// Whether the caller is an administrator plays no part.
pub fn mark_request_completed_by_user(
    ledger: &mut Ledger,
    sender: Identity,
    request_id: u64,
    notes: String,
) -> (outcome: Result<(), RequestError>)
    requires
        old(ledger).wf(),
    ensures
        final(ledger).wf(),
        outcome == answer(user_completion_decision(old(ledger)@, sender, request_id, notes@)),
        final(ledger)@ == user_completion_effect(old(ledger)@, sender, request_id, notes@),
        outcome is Err ==> final(ledger)@ == old(ledger)@,
{
    proof {
        ledger.view_is_wf();
    }
    let found = ledger.find_request(request_id);
    match decide_user_completion(sender, request_id, found, notes) {
        Ok(row) => {
            ledger.update_request(row);
            Ok(())
        },
        Err(error) => Err(error),
    }
}

/// The answer to `sender` asking for the dashboard.
pub open spec fn listing_outcome(tables: LedgerView, sender: Identity) -> Result<
    (),
    RequestError,
> {
    dashboard_outcome(tables.is_admin(sender))
}

/// Records that `sender` asks for the dashboard of all requests. It hands
/// out no rows: an administrator reads the request table itself.
pub fn get_all_requests_for_admin(ledger: &Ledger, sender: Identity) -> (outcome: Result<
    (),
    RequestError,
>)
    requires
        ledger.wf(),
    ensures
        outcome == listing_outcome(ledger@, sender),
{
    decide_dashboard_access(ledger.is_admin(sender))
}

/// The decision on adding `identity` to the registry at the request of
/// `sender`.
pub open spec fn admin_grant_decision(
    tables: LedgerView,
    sender: Identity,
    timestamp: Timestamp,
    identity: Identity,
) -> Result<Option<Admin>, RequestError> {
    admin_grant_outcome(
        tables.admin_count(),
        tables.is_admin(sender),
        tables.is_admin(identity),
        identity,
        timestamp,
    )
}

/// The registry after `sender` asked for `identity` to be added.
pub open spec fn admin_grant_effect(
    tables: LedgerView,
    sender: Identity,
    timestamp: Timestamp,
    identity: Identity,
) -> LedgerView {
    match admin_grant_decision(tables, sender, timestamp, identity) {
        Ok(Some(admin)) => tables.with_admin(admin),
        Ok(None) => tables,
        Err(_) => tables,
    }
}

/// Adds `identity` to the administrator registry. Anyone may add the first
/// administrator; afterwards only an administrator may add another.
pub fn add_admin(ledger: &mut Ledger, sender: Identity, timestamp: Timestamp, identity: Identity)
    -> (outcome: Result<(), RequestError>)
    requires
        old(ledger).wf(),
    ensures
        final(ledger).wf(),
        outcome == answer(admin_grant_decision(old(ledger)@, sender, timestamp, identity)),
        final(ledger)@ == admin_grant_effect(old(ledger)@, sender, timestamp, identity),
        outcome is Err ==> final(ledger)@ == old(ledger)@,
{
    let admin_count: u64 = ledger.admin_count();
    let caller_is_admin: bool = ledger.is_admin(sender);
    let already_admin: bool = ledger.is_admin(identity);
    match decide_admin_grant(admin_count, caller_is_admin, already_admin, identity, timestamp) {
        Ok(Some(admin)) => match ledger.insert_admin(admin) {
            Ok(()) => Ok(()),
            Err(fault) => Err(RequestError::Storage(fault)),
        },
        Ok(None) => Ok(()),
        Err(error) => Err(error),
    }
}

} // verus!
